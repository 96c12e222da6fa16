use vstd::prelude::*;

use crate::failure::CommandFailure;

verus! {

/// Immutable snapshot of the host environment: operating-system name,
/// backend version, and processor architecture. Constructed fresh on every
/// request and never mutated.
pub struct SystemInfo {
    os: String,
    version: String,
    arch: String,
}

impl SystemInfo {
    /// The operating-system name the snapshot was built with.
    pub closed spec fn os_spec(&self) -> Seq<char> {
        self.os@
    }

    /// The backend version string the snapshot carries.
    pub closed spec fn version_spec(&self) -> Seq<char> {
        self.version@
    }

    /// The processor-architecture name the snapshot was built with.
    pub closed spec fn arch_spec(&self) -> Seq<char> {
        self.arch@
    }

    pub fn os(&self) -> (r: &str)
        ensures
            r@ == self.os_spec(),
    {
        self.os.as_str()
    }

    pub fn version(&self) -> (r: &str)
        ensures
            r@ == self.version_spec(),
    {
        self.version.as_str()
    }

    pub fn arch(&self) -> (r: &str)
        ensures
            r@ == self.arch_spec(),
    {
        self.arch.as_str()
    }
}

/// Builds the system-information snapshot from the operating-system and
/// architecture names the environment reports. The version is the fixed
/// placeholder the backend ships with. Always succeeds, has no side effect,
/// and two calls with the same inputs build equal snapshots.
pub fn get_system_info(os: String, arch: String) -> (r: Result<SystemInfo, CommandFailure>)
    ensures
        r is Ok,
        r->Ok_0.os_spec() == os@,
        r->Ok_0.version_spec() == "1.0"@,
        r->Ok_0.arch_spec() == arch@,
{
    Ok(SystemInfo { os, version: "1.0".to_owned(), arch })
}

} // verus!
