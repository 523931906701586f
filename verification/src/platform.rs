//! Operating-system identities: the tags a command descriptor declares
//! support for, and the platform the process actually runs on.
use vstd::prelude::*;

verus! {

/// An operating system identity that a command descriptor can declare
/// support for.
#[derive(Clone, Copy, PartialEq, Eq, Structural, Debug)]
pub enum CommandSupportOS {
    Linux,
    MacOS,
}

/// The operating system the process runs on. `Other` covers everything that
/// is neither Linux nor macOS.
#[derive(Clone, Copy, PartialEq, Eq, Structural, Debug)]
pub enum Platform {
    Linux,
    MacOS,
    Other,
}

/// Whether the live platform is the one a support tag names.
pub open spec fn platform_has_tag(p: Platform, tag: CommandSupportOS) -> bool {
    match (p, tag) {
        (Platform::Linux, CommandSupportOS::Linux) => true,
        (Platform::MacOS, CommandSupportOS::MacOS) => true,
        _ => false,
    }
}

/// Whether the live platform is among the given support tags.
pub open spec fn platform_supported(p: Platform, tags: Seq<CommandSupportOS>) -> bool {
    exists|k: int| 0 <= k < tags.len() && platform_has_tag(p, tags[k])
}

/// The display label of a support tag, as the listing prints it.
pub open spec fn os_label(tag: CommandSupportOS) -> Seq<char> {
    match tag {
        CommandSupportOS::Linux => "Linux"@,
        CommandSupportOS::MacOS => "macOS"@,
    }
}

/// The display label of a support tag.
pub fn os_label_str(tag: CommandSupportOS) -> (r: &'static str)
    ensures
        r@ == os_label(tag),
{
    match tag {
        CommandSupportOS::Linux => "Linux",
        CommandSupportOS::MacOS => "macOS",
    }
}

/// Relies on rust_util::util_os::is_linux and is_macos: each reports whether
/// the running program was built for that operating system. Which platform
/// comes back depends on the machine, so nothing more is promised here.
#[verifier::external_body]
pub(crate) fn current_platform() -> Platform {
    if rust_util::util_os::is_linux() {
        Platform::Linux
    } else if rust_util::util_os::is_macos() {
        Platform::MacOS
    } else {
        Platform::Other
    }
}

} // verus!
