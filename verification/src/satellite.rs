//! Satellites as the host application knows them.

use vstd::prelude::*;

verus! {

/// A satellite by name, with the times of its launch and, if it has come
/// down, of its crash.
#[derive(Debug)]
pub struct Satellite {
    pub name: String,
    pub launch_time: u64,
    pub crash_time: Option<u64>,
}

/// Makes a satellite of its name and times.
pub fn create_satellite(name: String, launch_time: u64, crash_time: Option<u64>) -> (sat: Satellite)
    ensures
        sat.name == name,
        sat.launch_time == launch_time,
        sat.crash_time == crash_time,
{
    Satellite { name, launch_time, crash_time }
}

} // verus!
