//! The build of the engine, as its version manifest gives it.

use vstd::prelude::*;
use crate::text::{after_last, chars_of, number_of, parse_number, tail_after_last};

verus! {

/// Version and builds of the engine.
#[derive(Debug, Clone, Default, PartialEq, Eq)]
pub struct BuildInfo {
    /// The version, as dotted numbers.
    pub version: String,
    pub base_build: u32,
    pub data_build: u32,
}

impl BuildInfo {
    /// The build of which nothing is known.
    pub fn new() -> (info: BuildInfo)
        ensures
            info.version@.len() == 0,
            info.base_build == 0,
            info.data_build == 0,
    {
        BuildInfo { version: String::new(), base_build: 0, data_build: 0 }
    }

    /// The build number that a version ends in: the number after its last
    /// dot, or the whole version where it has no dot; none where that is no
    /// number of 32 bits.
    pub open spec fn build_of(version: Seq<char>) -> Option<u32> {
        match number_of(after_last(version, '.'), u32::MAX as nat) {
            Some(n) => Some(n as u32),
            None => None,
        }
    }

    /// The build with the given version, as the first record of the version
    /// manifest gives it: both builds are the number that the version ends
    /// in. None where the version ends in no number.
    pub fn from_version(version: String) -> (info: Option<BuildInfo>)
        ensures
            match info {
                Some(i) => {
                    &&& i.version == version
                    &&& BuildInfo::build_of(version@) == Some(i.base_build)
                    &&& i.data_build == i.base_build
                },
                None => BuildInfo::build_of(version@) is None,
            },
    {
        let text = chars_of(version.as_str());
        let last = tail_after_last(&text, '.');
        match parse_number(&last, 0xffff_ffff) {
            Some(build) => Some(
                BuildInfo { version, base_build: build as u32, data_build: build as u32 },
            ),
            None => None,
        }
    }
}

} // verus!
