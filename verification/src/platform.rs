//! The platform families whose service supervisors are driven.

use vstd::prelude::*;

verus! {

/// A platform family. It is chosen once, when the program starts.
#[derive(Clone, Copy, Debug, PartialEq, Eq, Structural)]
pub enum Platform {
    /// Supervised by `launchctl`.
    MacOs,
    /// No supervisor is driven.
    Windows,
    /// Supervised by `systemctl --user`.
    Linux,
}

/// The name of a platform.
pub open spec fn platform_name(platform: Platform) -> Seq<char> {
    match platform {
        Platform::MacOs => "macos"@,
        Platform::Windows => "windows"@,
        Platform::Linux => "linux"@,
    }
}

/// The name of the platform: `macos`, `windows` or `linux`.
pub fn get_current_platform(platform: Platform) -> (r: &'static str)
    ensures
        r@ == platform_name(platform),
{
    match platform {
        Platform::MacOs => "macos",
        Platform::Windows => "windows",
        Platform::Linux => "linux",
    }
}

/// The name of the platform as an owned string.
pub fn get_platform(platform: Platform) -> (r: String)
    ensures
        r@ == platform_name(platform),
{
    get_current_platform(platform).to_owned()
}

} // verus!
