use skydaddy::response::{EvalResponse, OpCode, Response};

#[test]
fn noop_is_a_single_zero_byte() {
    let r = Response::Noop;
    assert_eq!(r.op_code(), OpCode::Noop);
    assert_eq!(r.encode(), vec![0u8]);
}

#[test]
fn op_codes_on_the_wire() {
    assert_eq!(OpCode::Noop.code(), 0);
    assert_eq!(OpCode::Eval.code(), 1);
}

#[test]
fn eval_frame_has_length_prefix() {
    let r = Response::Eval(EvalResponse::from("return true"));
    assert_eq!(r.op_code(), OpCode::Eval);
    let mut expected = vec![1u8, 0, 0, 0, 11];
    expected.extend_from_slice(b"return true");
    assert_eq!(r.encode(), expected);
}

#[test]
fn eval_payload_alone() {
    let e = EvalResponse::from(String::from("ab"));
    assert_eq!(e.encode(), vec![0, 0, 0, 2, b'a', b'b']);
    assert_eq!(e.data(), &vec![b'a', b'b']);
}

#[test]
fn eval_code_is_utf8() {
    let e = EvalResponse::from("é€");
    assert_eq!(e.data(), &"é€".as_bytes().to_vec());
    assert_eq!(e.encode()[..4], [0, 0, 0, 5]);
}

#[test]
fn empty_eval() {
    let r = Response::Eval(EvalResponse::from(""));
    assert_eq!(r.encode(), vec![1, 0, 0, 0, 0]);
}

#[test]
fn long_eval_length_bytes() {
    let code = "x".repeat(0x0102_03);
    let e = EvalResponse::from(code.as_str());
    let bytes = e.encode();
    assert_eq!(bytes[..4], [0, 0x01, 0x02, 0x03]);
    assert_eq!(bytes.len(), 4 + 0x0102_03);
}
