//! The host platform families that the menu layout distinguishes.

use vstd::prelude::*;

verus! {

/// The family of the host operating system, as far as the menu layout cares.
#[derive(Clone, Copy, Debug, PartialEq, Eq, Structural)]
pub enum Platform {
    /// macOS, where the menu bar carries an application submenu.
    MacOs,
    /// Linux, DragonFly, FreeBSD, NetBSD and OpenBSD, which get no file submenu.
    UnixLike,
    /// Every other desktop system.
    Other,
}

impl Platform {
    /// Whether this is macOS.
    pub open spec fn spec_is_macos(self) -> bool {
        self == Platform::MacOs
    }

    /// Whether the menu bar holds a file submenu on this platform: it does
    /// everywhere but on the Unix-like family.
    pub open spec fn spec_has_file_submenu(self) -> bool {
        self != Platform::UnixLike
    }

    /// Tells whether this is macOS.
    #[verifier::when_used_as_spec(spec_is_macos)]
    pub fn is_macos(self) -> (b: bool)
        ensures
            b == (self == Platform::MacOs),
    {
        match self {
            Platform::MacOs => true,
            _ => false,
        }
    }

    /// Tells whether the menu bar holds a file submenu on this platform.
    #[verifier::when_used_as_spec(spec_has_file_submenu)]
    pub fn has_file_submenu(self) -> (b: bool)
        ensures
            b == (self != Platform::UnixLike),
    {
        match self {
            Platform::UnixLike => false,
            _ => true,
        }
    }
}

} // verus!
