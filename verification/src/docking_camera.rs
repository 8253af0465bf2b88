//! The docking-camera service: a remote camera handle and the requests its
//! procedures take.

use vstd::prelude::*;

use crate::rpc::{call0, call1, encode_varint, varint, ProcCall};

verus! {

/// A remote camera: the interface knows it by this identifier.
#[derive(Debug, Clone, Copy, PartialEq, Eq, Structural)]
pub struct Camera {
    pub id: u32,
}

impl Camera {
    /// The request for an image; the service answers with a byte array,
    /// empty on failure.
    pub fn get_image(&self) -> (c: ProcCall)
        ensures
            c.service@ == "DockingCamera"@,
            c.procedure@ == "Camera_get_Image"@,
            c.args@.len() == 1,
            c.args@[0]@ == varint(self.id as nat),
    {
        call1("DockingCamera", "Camera_get_Image", encode_varint(self.id as u64))
    }

    /// The request for the part carrying this camera.
    pub fn get_part(&self) -> (c: ProcCall)
        ensures
            c.service@ == "DockingCamera"@,
            c.procedure@ == "Camera_get_Part"@,
            c.args@.len() == 1,
            c.args@[0]@ == varint(self.id as nat),
    {
        call1("DockingCamera", "Camera_get_Part", encode_varint(self.id as u64))
    }
}

/// The request for the camera mounted on a part.
pub fn camera(part_id: u32) -> (c: ProcCall)
    ensures
        c.service@ == "DockingCamera"@,
        c.procedure@ == "Camera"@,
        c.args@.len() == 1,
        c.args@[0]@ == varint(part_id as nat),
{
    call1("DockingCamera", "Camera", encode_varint(part_id as u64))
}

/// The request asking whether the camera service is available.
pub fn get_available() -> (c: ProcCall)
    ensures
        c.service@ == "DockingCamera"@,
        c.procedure@ == "get_Available"@,
        c.args@.len() == 0,
{
    call0("DockingCamera", "get_Available")
}

} // verus!
