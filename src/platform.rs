//! The target platforms that hooks can be placed on, and the family whose
//! conventions each one follows.
use vstd::prelude::*;

use crate::text::same_text;

verus! {

/// The families of platforms, each with its own way of running hooks.
#[derive(Clone, Copy, Debug, PartialEq, Eq, Structural, Hash)]
pub enum Family {
    /// The C runtime of Windows, which scans `.CRT$XCU` initializers in order.
    WindowsCrt,
    /// ELF targets, whose loader walks the `.init_array` sections.
    Elf,
    /// Apple targets, with the single `__mod_init_func` section.
    Apple,
}

/// The target platforms that hooks are known to work on.
#[derive(Clone, Copy, Debug, PartialEq, Eq, Structural, Hash)]
pub enum Platform {
    Windows,
    Linux,
    Android,
    FreeBsd,
    NetBsd,
    OpenBsd,
    DragonFly,
    /// Embedded targets without an operating system (`target_os = "none"`).
    Bare,
    /// Any target of the Apple vendor.
    Apple,
}

/// Every platform, each once.
pub open spec fn all_platforms_spec() -> Seq<Platform> {
    seq![
        Platform::Windows,
        Platform::Linux,
        Platform::Android,
        Platform::FreeBsd,
        Platform::NetBsd,
        Platform::OpenBsd,
        Platform::DragonFly,
        Platform::Bare,
        Platform::Apple,
    ]
}

/// The platform that a target with these `target_os` and `target_vendor`
/// values is, if it is one that hooks can be placed on.
pub open spec fn platform_of(os: Seq<char>, vendor: Seq<char>) -> Option<Platform> {
    if vendor == "apple"@ {
        Some(Platform::Apple)
    } else if os == "windows"@ {
        Some(Platform::Windows)
    } else if os == "linux"@ {
        Some(Platform::Linux)
    } else if os == "android"@ {
        Some(Platform::Android)
    } else if os == "freebsd"@ {
        Some(Platform::FreeBsd)
    } else if os == "netbsd"@ {
        Some(Platform::NetBsd)
    } else if os == "openbsd"@ {
        Some(Platform::OpenBsd)
    } else if os == "dragonfly"@ {
        Some(Platform::DragonFly)
    } else if os == "none"@ {
        Some(Platform::Bare)
    } else {
        None
    }
}

impl Platform {
    /// The family whose conventions the platform follows.
    pub open spec fn family_spec(self) -> Family {
        match self {
            Platform::Windows => Family::WindowsCrt,
            Platform::Apple => Family::Apple,
            _ => Family::Elf,
        }
    }

    /// Whether the code of a hook's entry is also pinned into a `.text`
    /// section of its own, so that the linker keeps it in place.
    pub open spec fn pins_code_spec(self) -> bool {
        self == Platform::Linux || self == Platform::Android
    }

    /// The configuration key that selects the platform.
    pub open spec fn cfg_key_spec(self) -> Seq<char> {
        match self {
            Platform::Apple => "target_vendor"@,
            _ => "target_os"@,
        }
    }

    /// The value of the configuration key that selects the platform.
    pub open spec fn cfg_value_spec(self) -> Seq<char> {
        match self {
            Platform::Windows => "windows"@,
            Platform::Linux => "linux"@,
            Platform::Android => "android"@,
            Platform::FreeBsd => "freebsd"@,
            Platform::NetBsd => "netbsd"@,
            Platform::OpenBsd => "openbsd"@,
            Platform::DragonFly => "dragonfly"@,
            Platform::Bare => "none"@,
            Platform::Apple => "apple"@,
        }
    }

    pub fn family(&self) -> (r: Family)
        ensures
            r == self.family_spec(),
    {
        match self {
            Platform::Windows => Family::WindowsCrt,
            Platform::Apple => Family::Apple,
            _ => Family::Elf,
        }
    }

    pub fn pins_code(&self) -> (r: bool)
        ensures
            r == self.pins_code_spec(),
    {
        match self {
            Platform::Linux | Platform::Android => true,
            _ => false,
        }
    }

    pub fn cfg_key(&self) -> (r: &'static str)
        ensures
            r@ == self.cfg_key_spec(),
    {
        match self {
            Platform::Apple => "target_vendor",
            _ => "target_os",
        }
    }

    pub fn cfg_value(&self) -> (r: &'static str)
        ensures
            r@ == self.cfg_value_spec(),
    {
        match self {
            Platform::Windows => "windows",
            Platform::Linux => "linux",
            Platform::Android => "android",
            Platform::FreeBsd => "freebsd",
            Platform::NetBsd => "netbsd",
            Platform::OpenBsd => "openbsd",
            Platform::DragonFly => "dragonfly",
            Platform::Bare => "none",
            Platform::Apple => "apple",
        }
    }

    /// Every platform that hooks can be placed on.
    pub fn all() -> (r: Vec<Platform>)
        ensures
            r@ == all_platforms_spec(),
    {
        let r = vec![
            Platform::Windows,
            Platform::Linux,
            Platform::Android,
            Platform::FreeBsd,
            Platform::NetBsd,
            Platform::OpenBsd,
            Platform::DragonFly,
            Platform::Bare,
            Platform::Apple,
        ];
        assert(r@ == all_platforms_spec());
        r
    }

    /// The platform of a target given by its `target_os` and
    /// `target_vendor` values; `None` where the target is not supported,
    /// so that no placement is ever guessed for it.
    pub fn from_target(os: &str, vendor: &str) -> (r: Option<Platform>)
        ensures
            r == platform_of(os@, vendor@),
    {
        if same_text(vendor, "apple") {
            Some(Platform::Apple)
        } else if same_text(os, "windows") {
            Some(Platform::Windows)
        } else if same_text(os, "linux") {
            Some(Platform::Linux)
        } else if same_text(os, "android") {
            Some(Platform::Android)
        } else if same_text(os, "freebsd") {
            Some(Platform::FreeBsd)
        } else if same_text(os, "netbsd") {
            Some(Platform::NetBsd)
        } else if same_text(os, "openbsd") {
            Some(Platform::OpenBsd)
        } else if same_text(os, "dragonfly") {
            Some(Platform::DragonFly)
        } else if same_text(os, "none") {
            Some(Platform::Bare)
        } else {
            None
        }
    }
}

} // verus!
