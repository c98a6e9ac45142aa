//! What the server sends back on a connection.
//!
//! Every response starts with a one-byte operation code. An `eval` response
//! then carries a big-endian 4-byte unsigned length `n` followed by `n` bytes
//! of Lua code for the client to execute; if the code returns `true`, the
//! computer reboots.

use vstd::prelude::*;
use vstd::utf8::encode_utf8;

use crate::header::{be32, be32_bytes, lemma_be32_of_bytes};

verus! {

/// The operation code that opens every response.
#[derive(Debug, Clone, Copy, PartialEq, Eq, Structural)]
pub enum OpCode {
    Noop,
    Eval,
}

/// The byte that stands for `op` on the wire.
pub open spec fn op_byte(op: OpCode) -> u8 {
    match op {
        OpCode::Noop => 0,
        OpCode::Eval => 1,
    }
}

impl OpCode {
    /// The byte that stands for this code on the wire.
    pub fn code(&self) -> (r: u8)
        ensures
            r == op_byte(*self),
    {
        match self {
            OpCode::Noop => 0,
            OpCode::Eval => 1,
        }
    }
}

/// An `eval` response: code for the client to execute.
pub struct EvalResponse {
    data: Vec<u8>,
}

impl View for EvalResponse {
    type V = Seq<u8>;

    /// The bytes of code carried.
    closed spec fn view(&self) -> Seq<u8> {
        self.data@
    }
}

/// A response of the server.
pub enum Response {
    Noop,
    Eval(EvalResponse),
}

/// The operation code of `r`.
pub open spec fn response_op(r: &Response) -> OpCode {
    match r {
        Response::Noop => OpCode::Noop,
        Response::Eval(_) => OpCode::Eval,
    }
}

/// Whether `r` can be framed: the length of its code must fit the 4-byte
/// length field.
pub open spec fn response_fits(r: &Response) -> bool {
    match r {
        Response::Noop => true,
        Response::Eval(e) => e@.len() <= u32::MAX,
    }
}

/// The payload of an `eval` response carrying `code`: its length, then the code.
pub open spec fn eval_payload(code: Seq<u8>) -> Seq<u8> {
    be32_bytes(code.len() as int) + code
}

/// The bytes that send `r` over a connection.
pub open spec fn response_frame(r: &Response) -> Seq<u8> {
    match r {
        Response::Noop => seq![op_byte(OpCode::Noop)],
        Response::Eval(e) => seq![op_byte(OpCode::Eval)] + eval_payload(e@),
    }
}

impl From<String> for EvalResponse {
    fn from(value: String) -> (r: Self)
        ensures
            r@ == encode_utf8(value@),
    {
        EvalResponse { data: value.as_str().as_bytes_vec() }
    }
}

impl vstd::std_specs::convert::FromSpecImpl<String> for EvalResponse {
    open spec fn obeys_from_spec() -> bool {
        false
    }

    open spec fn from_spec(value: String) -> EvalResponse {
        choose|r: EvalResponse| r@ == encode_utf8(value@)
    }
}

impl<'a> From<&'a str> for EvalResponse {
    fn from(value: &'a str) -> (r: Self)
        ensures
            r@ == encode_utf8(value@),
    {
        EvalResponse { data: value.as_bytes_vec() }
    }
}

impl<'a> vstd::std_specs::convert::FromSpecImpl<&'a str> for EvalResponse {
    open spec fn obeys_from_spec() -> bool {
        false
    }

    open spec fn from_spec(value: &'a str) -> EvalResponse {
        choose|r: EvalResponse| r@ == encode_utf8(value@)
    }
}

impl EvalResponse {
    /// The code carried, as UTF-8 bytes.
    pub fn data(&self) -> (r: &Vec<u8>)
        ensures
            r@ == self@,
    {
        &self.data
    }

    /// The payload that follows the operation code: the big-endian length of
    /// the code, then the code itself.
    pub fn encode(&self) -> (r: Vec<u8>)
        requires
            self@.len() <= u32::MAX,
        ensures
            r@ == eval_payload(self@),
    {
        let mut out: Vec<u8> = Vec::new();
        let n: u32 = self.data.len() as u32;
        out.push((n / 16777216) as u8);
        out.push(((n / 65536) % 256) as u8);
        out.push(((n / 256) % 256) as u8);
        out.push((n % 256) as u8);
        assert(out@ =~= be32_bytes(n as int));
        let len = self.data.len();
        for i in 0..len
            invariant
                len == self.data@.len(),
                n == len,
                out@ =~= be32_bytes(n as int) + self.data@.subrange(0, i as int),
        {
            out.push(self.data[i]);
        }
        assert(self.data@.subrange(0, len as int) =~= self.data@);
        out
    }
}

impl Response {
    /// The operation code that opens this response.
    pub fn op_code(&self) -> (r: OpCode)
        ensures
            r == response_op(self),
    {
        match self {
            Response::Noop => OpCode::Noop,
            Response::Eval(_) => OpCode::Eval,
        }
    }

    /// The bytes that send this response: the operation code, then the
    /// payload of an `eval` response.
    pub fn encode(&self) -> (r: Vec<u8>)
        requires
            response_fits(self),
        ensures
            r@ == response_frame(self),
    {
        let mut out: Vec<u8> = Vec::new();
        out.push(self.op_code().code());
        match self {
            Response::Noop => {},
            Response::Eval(e) => {
                let mut payload = e.encode();
                out.append(&mut payload);
            },
        }
        out
    }
}

/// The payload of an `eval` response holds the number of code bytes in its
/// first four bytes (big-endian) and, after them, exactly the code, byte for
/// byte.
pub proof fn lemma_payload_carries_code(code: Seq<u8>)
    requires
        code.len() <= u32::MAX,
    ensures
        eval_payload(code).len() == 4 + code.len(),
        be32(eval_payload(code), 0) == code.len(),
        eval_payload(code).subrange(4, 4 + code.len() as int) == code,
{
    let p = eval_payload(code);
    assert(p.subrange(0, 4) =~= be32_bytes(code.len() as int));
    lemma_be32_of_bytes(code.len() as int, p, 0);
    assert(p.subrange(4, 4 + code.len() as int) =~= code);
}

/// A sent response opens with the byte of its operation code; a `noop` is
/// that byte alone, and an `eval` adds four length bytes and the code.
pub proof fn lemma_frame_layout(r: &Response)
    ensures
        response_frame(r)[0] == op_byte(response_op(r)),
        response_frame(r).len() == match r {
            Response::Noop => 1,
            Response::Eval(e) => 5 + e@.len(),
        },
{
}

/// An `eval` response is sent as its operation code, the big-endian number
/// of code bytes, and then exactly the code it carries.
pub proof fn lemma_eval_frame_carries_code(e: &EvalResponse)
    requires
        e@.len() <= u32::MAX,
    ensures
        ({
            let f = response_frame(&Response::Eval(*e));
            &&& f[0] == 1
            &&& be32(f, 1) == e@.len()
            &&& f.subrange(5, f.len() as int) == e@
        }),
{
    let f = response_frame(&Response::Eval(*e));
    lemma_payload_carries_code(e@);
    assert(f.subrange(1, 5) =~= be32_bytes(e@.len() as int));
    lemma_be32_of_bytes(e@.len() as int, f, 1);
    assert(f.subrange(5, f.len() as int) =~= eval_payload(e@).subrange(4, 4 + e@.len() as int));
}

} // verus!
