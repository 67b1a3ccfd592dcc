//! The telemetry cache: the most recently observed positioning state of the
//! navigation receiver, in two independently replaceable slots. The status
//! slot always mirrors the newest frame; the info slot keeps the last
//! trustworthy fix.

use vstd::prelude::*;

verus! {

/// A GPS timestamp: week number and milliseconds into the week.
#[derive(Clone, Copy, PartialEq, Eq, Structural, Debug)]
pub struct OEMTime {
    pub week: i32,
    pub ms: u32,
}

impl Default for OEMTime {
    fn default() -> (t: Self)
        ensures
            t == (OEMTime { week: 0, ms: 0 }),
    {
        OEMTime { week: 0, ms: 0 }
    }
}

/// A three-component vector whose components are carried as opaque 64-bit
/// words exactly as the transport hands them over; turning them into
/// numeric coordinates is the boundary layer's concern.
#[derive(Clone, Copy, PartialEq, Eq, Structural, Debug)]
pub struct Vector3 {
    pub x: u64,
    pub y: u64,
    pub z: u64,
}

impl Default for Vector3 {
    fn default() -> (v: Self)
        ensures
            v == (Vector3 { x: 0, y: 0, z: 0 }),
    {
        Vector3 { x: 0, y: 0, z: 0 }
    }
}

/// Coarse health snapshot of the receiver's position and velocity solutions.
/// Replaced wholesale on every position/velocity frame, valid or not.
#[derive(Clone, Copy, PartialEq, Eq, Structural, Debug)]
pub struct LockStatus {
    pub time_status: u8,
    pub time: OEMTime,
    pub position_status: u32,
    pub position_type: u32,
    pub velocity_status: u32,
    pub velocity_type: u32,
}

impl Default for LockStatus {
    fn default() -> (s: Self)
        ensures
            s == (LockStatus {
                time_status: 0,
                time: OEMTime { week: 0, ms: 0 },
                position_status: 0,
                position_type: 0,
                velocity_status: 0,
                velocity_type: 0,
            }),
    {
        LockStatus {
            time_status: 0,
            time: OEMTime { week: 0, ms: 0 },
            position_status: 0,
            position_type: 0,
            velocity_status: 0,
            velocity_type: 0,
        }
    }
}

/// The richer snapshot kept only from frames whose position and velocity are
/// both valid: the last known good fix.
#[derive(Clone, Copy, PartialEq, Eq, Structural, Debug)]
pub struct LockInfo {
    pub time: OEMTime,
    pub position: Vector3,
    pub velocity: Vector3,
}

impl Default for LockInfo {
    fn default() -> (i: Self)
        ensures
            i == (LockInfo {
                time: OEMTime { week: 0, ms: 0 },
                position: Vector3 { x: 0, y: 0, z: 0 },
                velocity: Vector3 { x: 0, y: 0, z: 0 },
            }),
    {
        LockInfo {
            time: OEMTime { week: 0, ms: 0 },
            position: Vector3 { x: 0, y: 0, z: 0 },
            velocity: Vector3 { x: 0, y: 0, z: 0 },
        }
    }
}

/// The two cache slots. Each is replaced atomically on its own; the pair is
/// never replaced together, so a read across both may mix two frames.
#[derive(Clone, Copy, PartialEq, Eq, Structural, Debug)]
pub struct LockData {
    pub status: LockStatus,
    pub info: LockInfo,
}

/// The cache with its status slot replaced.
pub open spec fn with_status(d: LockData, status: LockStatus) -> LockData {
    LockData { status, info: d.info }
}

/// The cache with its info slot replaced.
pub open spec fn with_info(d: LockData, info: LockInfo) -> LockData {
    LockData { status: d.status, info }
}

impl LockData {
    pub fn new() -> (d: Self)
        ensures
            d == (LockData {
                status: LockStatus {
                    time_status: 0,
                    time: OEMTime { week: 0, ms: 0 },
                    position_status: 0,
                    position_type: 0,
                    velocity_status: 0,
                    velocity_type: 0,
                },
                info: LockInfo {
                    time: OEMTime { week: 0, ms: 0 },
                    position: Vector3 { x: 0, y: 0, z: 0 },
                    velocity: Vector3 { x: 0, y: 0, z: 0 },
                },
            }),
    {
        LockData { status: LockStatus::default(), info: LockInfo::default() }
    }

    /// Replaces the status slot; the info slot is untouched.
    pub fn update_status(&mut self, status: LockStatus)
        ensures
            *final(self) == with_status(*old(self), status),
    {
        self.status = status;
    }

    /// Replaces the info slot; the status slot is untouched.
    pub fn update_info(&mut self, info: LockInfo)
        ensures
            *final(self) == with_info(*old(self), info),
    {
        self.info = info;
    }

    /// Copies out the current status snapshot.
    pub fn read_status(&self) -> (s: LockStatus)
        ensures
            s == self.status,
    {
        self.status
    }

    /// Copies out the current info snapshot.
    pub fn read_info(&self) -> (i: LockInfo)
        ensures
            i == self.info,
    {
        self.info
    }
}

/// Law: replacing a slot is idempotent — writing the same value twice leaves
/// exactly what one write leaves, for either slot.
pub proof fn lemma_update_idempotent(d: LockData, status: LockStatus, info: LockInfo)
    ensures
        with_status(with_status(d, status), status) == with_status(d, status),
        with_info(with_info(d, info), info) == with_info(d, info),
{
}

} // verus!
