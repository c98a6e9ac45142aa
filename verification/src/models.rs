//! Plain records that describe a registered computer.

use vstd::prelude::*;

verus! {

/// The database row id of a registered computer.
#[derive(Debug, Clone, Copy, Hash, PartialEq, Eq, Structural)]
pub struct ComputerId(u32);

/// Which (Minecraft) server a computer lives on.
#[derive(Debug, Clone, Copy, Hash, PartialEq, Eq, Structural)]
pub struct WorldId(pub u16);

/// Which dimension of its world a computer lives in (e.g. 0 for the
/// Overworld, 1 for the End, -1 for the Nether).
#[derive(Debug, Clone, Copy, Hash, PartialEq, Eq, Structural)]
pub struct DimensionId(pub i16);

/// What a computer announces about itself when it connects.
#[derive(Debug, Clone, Copy, Hash, PartialEq, Eq, Structural)]
pub struct ComputerData {
    /// The version of the client script this computer is running.
    pub version: u32,
    /// Which (Minecraft) server.
    pub world: WorldId,
    /// The dimension (Overworld, End, Nether).
    pub dimension: DimensionId,
    pub pos_x: i32,
    pub pos_z: i32,
}

/// A registered computer: its row id and the data it announced.
#[derive(Debug, Clone, Copy, Hash, PartialEq, Eq, Structural)]
pub struct Computer {
    pub id: ComputerId,
    pub data: ComputerData,
}

impl View for ComputerId {
    type V = u32;

    closed spec fn view(&self) -> u32 {
        self.0
    }
}

impl ComputerId {
    /// Wraps a row id.
    pub fn new(id: u32) -> (r: Self)
        ensures
            r@ == id,
    {
        ComputerId(id)
    }

    /// The wrapped row id.
    pub fn inner(&self) -> (r: u32)
        ensures
            r == self@,
    {
        self.0
    }
}

/// Two ids with the same row id are the same id.
pub proof fn lemma_id_injective(a: ComputerId, b: ComputerId)
    ensures
        a@ == b@ <==> a == b,
{
}

impl WorldId {
    /// The test server.
    pub const TEST: u16 = 0;

    /// The Voltz "Voidflame" server.
    pub const VOLTZ_VOIDFLAME: u16 = 1;

    /// The wrapped world number.
    pub fn inner(&self) -> (r: u16)
        ensures
            r == self.0,
    {
        self.0
    }
}

impl DimensionId {
    /// The Overworld.
    pub const OVERWORLD: i16 = 0;

    /// The Kepler-22b dimension.
    pub const KEPLER22B: i16 = 1;

    /// The wrapped dimension number.
    pub fn inner(&self) -> (r: i16)
        ensures
            r == self.0,
    {
        self.0
    }
}

impl Computer {
    /// The computer stored under the database row id `row_id` with `data`.
    /// The row id is narrowed to 32 bits the way an `as u32` cast does.
    pub fn with_row_id(row_id: i64, data: ComputerData) -> (r: Computer)
        ensures
            r.id@ == row_id as u32,
            r.data == data,
    {
        Computer { id: ComputerId::new(row_id as u32), data }
    }
}

impl<'a> From<&'a Computer> for ComputerId {
    fn from(value: &'a Computer) -> (r: ComputerId) {
        value.id
    }
}

impl<'a> vstd::std_specs::convert::FromSpecImpl<&'a Computer> for ComputerId {
    open spec fn obeys_from_spec() -> bool {
        true
    }

    open spec fn from_spec(value: &'a Computer) -> ComputerId {
        value.id
    }
}

} // verus!
