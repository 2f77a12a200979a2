//! The record that describes one drawable instance.

use vstd::prelude::*;

verus! {

/// Number of slots in the table that [`crate::instance_handler::InstanceHandler::new`] builds.
pub const MAX_INSTANCES: usize = 1_000_000;

/// The closed set of instance types, with `Empty` marking a free slot.
#[derive(Clone, Copy, PartialEq, Eq, Structural, Debug)]
pub enum InstanceType {
    Empty,
    Cube,
    Triangle,
}

impl InstanceType {
    /// The stable identifier of a type, independent of declaration order.
    pub open spec fn spec_id(self) -> u32 {
        match self {
            InstanceType::Empty => 0,
            InstanceType::Cube => 1,
            InstanceType::Triangle => 2,
        }
    }

    /// Returns the stable identifier of this type.
    pub fn id(self) -> (r: u32)
        ensures
            r == self.spec_id(),
    {
        match self {
            InstanceType::Empty => 0,
            InstanceType::Cube => 1,
            InstanceType::Triangle => 2,
        }
    }

    /// Returns the type's name for diagnostics.
    pub fn name(self) -> (r: &'static str)
        ensures
            self == InstanceType::Empty ==> r@ == "Empty"@,
            self == InstanceType::Cube ==> r@ == "Cube"@,
            self == InstanceType::Triangle ==> r@ == "Triangle"@,
    {
        match self {
            InstanceType::Empty => "Empty",
            InstanceType::Cube => "Cube",
            InstanceType::Triangle => "Triangle",
        }
    }
}

/// A 3D position; each component is the bit pattern of a single-precision float.
#[derive(Clone, Copy, PartialEq, Eq, Structural, Debug)]
pub struct Position {
    pub x: u32,
    pub y: u32,
    pub z: u32,
}

impl Position {
    /// The origin: every component is positive zero.
    pub fn origin() -> (r: Position)
        ensures
            r == (Position { x: 0, y: 0, z: 0 }),
    {
        Position { x: 0, y: 0, z: 0 }
    }
}

/// A rotation quaternion with scalar part `s` and vector part `(x, y, z)`;
/// each component is the bit pattern of a single-precision float.
#[derive(Clone, Copy, PartialEq, Eq, Structural, Debug)]
pub struct Rotation {
    pub s: u32,
    pub x: u32,
    pub y: u32,
    pub z: u32,
}

/// Bit pattern of the single-precision float `1.0`.
pub const ONE_BITS: u32 = 0x3F80_0000;

impl Rotation {
    /// The identity rotation: scalar part `1.0`, vector part zero.
    pub fn identity() -> (r: Rotation)
        ensures
            r == (Rotation { s: ONE_BITS, x: 0, y: 0, z: 0 }),
    {
        Rotation { s: ONE_BITS, x: 0, y: 0, z: 0 }
    }
}

/// One drawable instance together with the bookkeeping the table stamps on it.
///
/// A candidate handed to `add` carries its type, transform and, in
/// `max_allowed`, the declared capacity of its type's bucket; the other two
/// fields are overwritten when the record is stored.
#[derive(Clone, Copy, PartialEq, Eq, Structural, Debug)]
pub struct Instance {
    pub instance_type: InstanceType,
    pub position: Position,
    pub rotation: Rotation,
    /// First slot of the bucket this record lives in.
    pub start_offset: usize,
    /// The record's own slot.
    pub array_index: usize,
    /// Capacity of the bucket this record lives in.
    pub max_allowed: usize,
}

impl Instance {
    /// The record that fills a free slot.
    pub open spec fn spec_empty() -> Instance {
        Instance {
            instance_type: InstanceType::Empty,
            position: Position { x: 0, y: 0, z: 0 },
            rotation: Rotation { s: ONE_BITS, x: 0, y: 0, z: 0 },
            start_offset: 0,
            array_index: 0,
            max_allowed: 0,
        }
    }

    /// Builds the record that fills a free slot.
    pub fn empty() -> (r: Instance)
        ensures
            r == Instance::spec_empty(),
    {
        Instance {
            instance_type: InstanceType::Empty,
            position: Position::origin(),
            rotation: Rotation::identity(),
            start_offset: 0,
            array_index: 0,
            max_allowed: 0,
        }
    }

    /// Builds a candidate of the given type and transform for a bucket of
    /// `max_allowed` slots.
    pub fn new(
        instance_type: InstanceType,
        position: Position,
        rotation: Rotation,
        max_allowed: usize,
    ) -> (r: Instance)
        ensures
            r == (Instance {
                instance_type,
                position,
                rotation,
                start_offset: 0,
                array_index: 0,
                max_allowed,
            }),
    {
        Instance { instance_type, position, rotation, start_offset: 0, array_index: 0, max_allowed }
    }

    /// Whether `other` differs from this record in its transform at most.
    pub open spec fn same_bookkeeping(self, other: Instance) -> bool {
        &&& self.instance_type == other.instance_type
        &&& self.start_offset == other.start_offset
        &&& self.array_index == other.array_index
        &&& self.max_allowed == other.max_allowed
    }
}

} // verus!
