//! The lidar service: a remote laser handle and the requests its procedures
//! take.

use vstd::prelude::*;

use crate::rpc::{call0, call1, encode_varint, varint, ProcCall};

verus! {

/// A remote laser: the interface knows it by this identifier.
#[derive(Debug, Clone, Copy, PartialEq, Eq, Structural)]
pub struct Laser {
    pub id: u32,
}

impl Laser {
    /// The request for the point cloud the laser sees.
    pub fn get_cloud(&self) -> (c: ProcCall)
        ensures
            c.service@ == "LiDAR"@,
            c.procedure@ == "Laser_get_Cloud"@,
            c.args@.len() == 1,
            c.args@[0]@ == varint(self.id as nat),
    {
        call1("LiDAR", "Laser_get_Cloud", encode_varint(self.id as u64))
    }

    /// The request for the part carrying this laser.
    pub fn get_part(&self) -> (c: ProcCall)
        ensures
            c.service@ == "LiDAR"@,
            c.procedure@ == "Laser_get_Part"@,
            c.args@.len() == 1,
            c.args@[0]@ == varint(self.id as nat),
    {
        call1("LiDAR", "Laser_get_Part", encode_varint(self.id as u64))
    }
}

/// The request for the laser mounted on a part.
pub fn laser(part_id: u32) -> (c: ProcCall)
    ensures
        c.service@ == "LiDAR"@,
        c.procedure@ == "Laser"@,
        c.args@.len() == 1,
        c.args@[0]@ == varint(part_id as nat),
{
    call1("LiDAR", "Laser", encode_varint(part_id as u64))
}

/// The request asking whether the lidar service is available.
pub fn get_available() -> (c: ProcCall)
    ensures
        c.service@ == "LiDAR"@,
        c.procedure@ == "get_Available"@,
        c.args@.len() == 0,
{
    call0("LiDAR", "get_Available")
}

} // verus!
