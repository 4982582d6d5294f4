use vstd::prelude::*;
use crate::camera::CameraData;
use crate::mesh::AccessorData;

verus! {

/// The position of an entity in the document's table of its kind.
#[derive(Clone, Copy, Debug, PartialEq, Eq, Structural)]
pub struct Index {
    pub value: u32,
}

/// The aggregate that accessors resolve indices against.
pub struct Document {
    pub cameras: Vec<CameraData>,
    pub accessors: Vec<AccessorData>,
}

} // verus!
