//! The placement resolver: for a hook of a kind, with an ordering key, on a
//! platform, the linker section that its entry occupies and how a shutdown
//! hook is bridged into the platform's exit-callback facility.
use vstd::prelude::*;

use crate::order_key::{encode, order_key};
use crate::platform::{platform_of, Family, Platform};
use crate::text::push_text;

verus! {

/// Whether a hook runs before the program's entry point or after it exits.
#[derive(Clone, Copy, Debug, PartialEq, Eq, Structural, Hash)]
pub enum HookKind {
    Startup,
    Shutdown,
}

/// The native facility that registers a callback to run at process exit.
#[derive(Clone, Copy, Debug, PartialEq, Eq, Structural, Hash)]
pub enum ExitFacility {
    /// `atexit(callback)` of the C runtime.
    Atexit,
    /// `__cxa_atexit(callback, argument, __dso_handle)`, which takes an
    /// argument pointer and the handle of the registering module.
    CxaAtexit,
}

impl HookKind {
    /// The tag that names the kind inside section names.
    pub open spec fn tag_spec(self) -> Seq<char> {
        match self {
            HookKind::Startup => "constructor"@,
            HookKind::Shutdown => "destructor"@,
        }
    }

    pub fn tag(&self) -> (r: &'static str)
        ensures
            r@ == self.tag_spec(),
    {
        match self {
            HookKind::Startup => "constructor",
            HookKind::Shutdown => "destructor",
        }
    }
}

/// What the code emitted for one hook needs to know.
#[derive(Clone, Debug, PartialEq, Eq)]
pub struct PlacementDecision {
    /// The section that holds the pointer to the hook's entry.
    pub section_name: String,
    /// The `.text` section that the entry's own code is pinned into, on the
    /// platforms that need it.
    pub text_section: Option<String>,
    /// Whether the entry registers the hook's body to run at exit instead of
    /// running it.
    pub wrap_in_exit_callback: bool,
    /// Whether a callback trampoline that calls the hook is generated for
    /// the exit facility.
    pub callback_trampoline_needed: bool,
    /// The exit facility that the entry registers with, for shutdown hooks.
    pub exit_facility: Option<ExitFacility>,
}

/// A placement decision seen as plain values.
pub ghost struct PlacementView {
    pub section_name: Seq<char>,
    pub text_section: Option<Seq<char>>,
    pub wrap_in_exit_callback: bool,
    pub callback_trampoline_needed: bool,
    pub exit_facility: Option<ExitFacility>,
}

impl View for PlacementDecision {
    type V = PlacementView;

    open spec fn view(&self) -> PlacementView {
        PlacementView {
            section_name: self.section_name@,
            text_section: match self.text_section {
                Some(t) => Some(t@),
                None => None,
            },
            wrap_in_exit_callback: self.wrap_in_exit_callback,
            callback_trampoline_needed: self.callback_trampoline_needed,
            exit_facility: self.exit_facility,
        }
    }
}

/// The start of an ordered section name on a family that has one.
pub open spec fn section_prefix(family: Family) -> Seq<char> {
    match family {
        Family::WindowsCrt => ".CRT$XCU."@,
        _ => ".init_array."@,
    }
}

/// The section of a hook's entry: on Apple targets the one fixed
/// initializer section, elsewhere the family's prefix, the kind's tag and
/// the key, separated by dots.
pub open spec fn section_name_spec(kind: HookKind, key: Seq<char>, platform: Platform) -> Seq<
    char,
> {
    if platform.family_spec() == Family::Apple {
        "__DATA,__mod_init_func"@
    } else {
        section_prefix(platform.family_spec()) + kind.tag_spec() + "."@ + key
    }
}

/// The `.text` section of the entry's code, where the platform pins it.
pub open spec fn text_section_spec(kind: HookKind, key: Seq<char>, platform: Platform) -> Option<
    Seq<char>,
> {
    if platform.pins_code_spec() {
        Some(".text."@ + kind.tag_spec() + "."@ + key)
    } else {
        None
    }
}

/// The exit facility of a shutdown hook: Apple's `__cxa_atexit`, the C
/// runtime's `atexit` elsewhere.
pub open spec fn exit_facility_spec(kind: HookKind, platform: Platform) -> Option<ExitFacility> {
    match kind {
        HookKind::Startup => None,
        HookKind::Shutdown => if platform.family_spec() == Family::Apple {
            Some(ExitFacility::CxaAtexit)
        } else {
            Some(ExitFacility::Atexit)
        },
    }
}

/// The placement of a hook of `kind` with ordering key `key` on `platform`.
pub open spec fn placement(kind: HookKind, key: Seq<char>, platform: Platform) -> PlacementView {
    PlacementView {
        section_name: section_name_spec(kind, key, platform),
        text_section: text_section_spec(kind, key, platform),
        wrap_in_exit_callback: kind == HookKind::Shutdown,
        callback_trampoline_needed: kind == HookKind::Shutdown,
        exit_facility: exit_facility_spec(kind, platform),
    }
}

/// Decides where a hook of `kind` with ordering key `order_key` goes on
/// `platform`, and whether its body is registered to run at exit.
pub fn resolve(kind: HookKind, order_key: &str, platform: Platform) -> (r: PlacementDecision)
    ensures
        r@ == placement(kind, order_key@, platform),
{
    let family = platform.family();
    let mut section_name = String::new();
    match family {
        Family::Apple => {
            push_text(&mut section_name, "__DATA,__mod_init_func");
        },
        _ => {
            match family {
                Family::WindowsCrt => push_text(&mut section_name, ".CRT$XCU."),
                _ => push_text(&mut section_name, ".init_array."),
            }
            push_text(&mut section_name, kind.tag());
            push_text(&mut section_name, ".");
            push_text(&mut section_name, order_key);
        },
    }
    let text_section = if platform.pins_code() {
        let mut t = String::new();
        push_text(&mut t, ".text.");
        push_text(&mut t, kind.tag());
        push_text(&mut t, ".");
        push_text(&mut t, order_key);
        Some(t)
    } else {
        None
    };
    let exit_facility = match kind {
        HookKind::Startup => None,
        HookKind::Shutdown => match family {
            Family::Apple => Some(ExitFacility::CxaAtexit),
            _ => Some(ExitFacility::Atexit),
        },
    };
    let shutdown = match kind {
        HookKind::Startup => false,
        HookKind::Shutdown => true,
    };
    PlacementDecision {
        section_name,
        text_section,
        wrap_in_exit_callback: shutdown,
        callback_trampoline_needed: shutdown,
        exit_facility,
    }
}

/// The priority of a hook whose priority may have been omitted: zero then.
pub open spec fn priority_or_default(priority: Option<usize>) -> usize {
    match priority {
        Some(p) => p,
        None => 0,
    }
}

/// One annotated function's request to run as a hook. The function itself
/// stays with the code that emits the hook; its placement depends only on
/// these fields.
#[derive(Clone, Copy, Debug, PartialEq, Eq, Structural, Hash)]
pub struct HookRequest {
    pub kind: HookKind,
    pub priority: usize,
}

impl HookRequest {
    /// A request of `kind` with `priority`, zero where it was omitted.
    pub fn new(kind: HookKind, priority: Option<usize>) -> (r: HookRequest)
        ensures
            r.kind == kind,
            r.priority == priority_or_default(priority),
    {
        let priority = match priority {
            Some(p) => p,
            None => 0,
        };
        HookRequest { kind, priority }
    }

    /// The ordering key of the request's priority.
    pub fn order_key(&self) -> (r: String)
        ensures
            r@ == order_key(self.priority as nat),
    {
        encode(self.priority)
    }

    /// The placement of the request's hook on `platform`.
    pub fn resolve(&self, platform: Platform) -> (r: PlacementDecision)
        ensures
            r@ == placement(self.kind, order_key(self.priority as nat), platform),
    {
        let key = self.order_key();
        resolve(self.kind, key.as_str(), platform)
    }

    /// The placement of the request's hook on the target with these
    /// `target_os` and `target_vendor` values, or `None` where the target is
    /// unsupported and the hook cannot be placed.
    pub fn resolve_for_target(&self, os: &str, vendor: &str) -> (r: Option<PlacementDecision>)
        ensures
            match platform_of(os@, vendor@) {
                Some(p) => r is Some && r->0@ == placement(
                    self.kind,
                    order_key(self.priority as nat),
                    p,
                ),
                None => r is None,
            },
    {
        match Platform::from_target(os, vendor) {
            Some(p) => Some(self.resolve(p)),
            None => None,
        }
    }
}

/// An omitted priority gives the same key as priority zero.
pub proof fn lemma_omitted_priority_key()
    ensures
        order_key(priority_or_default(None) as nat) == order_key(priority_or_default(Some(0usize)) as nat),
        order_key(priority_or_default(None) as nat) == order_key(0),
{
}

/// Resolution is a function of its inputs: two decisions that `resolve`
/// returns for the same kind, key and platform are equal.
pub proof fn lemma_resolve_deterministic(
    kind: HookKind,
    key: Seq<char>,
    platform: Platform,
    first: PlacementDecision,
    second: PlacementDecision,
)
    requires
        first@ == placement(kind, key, platform),
        second@ == placement(kind, key, platform),
    ensures
        first@ == second@,
        first.section_name@ == second.section_name@,
{
}

/// Resolving the same request twice gives the same decision, section names
/// included, character for character.
pub proof fn lemma_request_resolution_idempotent(
    request: HookRequest,
    platform: Platform,
    first: PlacementDecision,
    second: PlacementDecision,
)
    requires
        first@ == placement(request.kind, order_key(request.priority as nat), platform),
        second@ == placement(request.kind, order_key(request.priority as nat), platform),
    ensures
        first@ == second@,
        first.section_name@ == second.section_name@,
{
}

/// On every platform a shutdown hook is registered with the platform's exit
/// facility through a trampoline, never placed as an initializer itself.
pub proof fn lemma_shutdown_always_wraps(key: Seq<char>, platform: Platform)
    ensures
        placement(HookKind::Shutdown, key, platform).wrap_in_exit_callback,
        placement(HookKind::Shutdown, key, platform).callback_trampoline_needed,
        placement(HookKind::Shutdown, key, platform).exit_facility is Some,
{
}

/// The sections of startup hooks: `.init_array.constructor.<key>` on ELF
/// platforms, `.CRT$XCU.constructor.<key>` on Windows, and
/// `__DATA,__mod_init_func` on Apple platforms whatever the key.
pub proof fn lemma_startup_section_names(key: Seq<char>, platform: Platform)
    ensures
        platform.family_spec() == Family::Elf ==> placement(
            HookKind::Startup,
            key,
            platform,
        ).section_name == ".init_array.constructor."@ + key,
        platform.family_spec() == Family::WindowsCrt ==> placement(
            HookKind::Startup,
            key,
            platform,
        ).section_name == ".CRT$XCU.constructor."@ + key,
        platform.family_spec() == Family::Apple ==> placement(
            HookKind::Startup,
            key,
            platform,
        ).section_name == "__DATA,__mod_init_func"@,
{
    reveal_strlit(".init_array.");
    reveal_strlit(".CRT$XCU.");
    reveal_strlit("constructor");
    reveal_strlit(".");
    reveal_strlit(".init_array.constructor.");
    reveal_strlit(".CRT$XCU.constructor.");
    assert(".init_array."@ + "constructor"@ + "."@ =~= ".init_array.constructor."@);
    assert(".CRT$XCU."@ + "constructor"@ + "."@ =~= ".CRT$XCU.constructor."@);
    assert(".init_array."@ + "constructor"@ + "."@ + key =~= ".init_array.constructor."@ + key);
    assert(".CRT$XCU."@ + "constructor"@ + "."@ + key =~= ".CRT$XCU.constructor."@ + key);
}

} // verus!
