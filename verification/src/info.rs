//! The record that describes the running system.

use vstd::prelude::*;
use vstd::string::*;

verus! {

/// The platform's name, the application's version and the processor
/// architecture.
#[derive(Clone, Debug, PartialEq, Eq)]
pub struct SystemInfo {
    pub platform: String,
    pub version: String,
    pub arch: String,
}

/// Assembles the record from the three texts.
pub fn get_system_info(platform: &str, version: &str, arch: &str) -> (info: SystemInfo)
    ensures
        info.platform@ == platform@,
        info.version@ == version@,
        info.arch@ == arch@,
{
    SystemInfo {
        platform: platform.to_owned(),
        version: version.to_owned(),
        arch: arch.to_owned(),
    }
}

} // verus!
