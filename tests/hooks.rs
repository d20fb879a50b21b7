use startup_hooks::order_key::{encode, key_width};
use startup_hooks::placement::{resolve, ExitFacility, HookKind, HookRequest, PlacementDecision};
use startup_hooks::platform::{Family, Platform};
use startup_hooks::text::same_text;

fn padded(digits: &str) -> String {
    let mut s = "0".repeat(key_width() - digits.len());
    s.push_str(digits);
    s
}

#[test]
fn key_width_is_digits_of_usize_max() {
    assert_eq!(key_width(), usize::MAX.to_string().len());
    if usize::BITS == 64 {
        assert_eq!(key_width(), 20);
    }
}

#[test]
fn encode_pads_with_zeros() {
    assert_eq!(encode(5), padded("5"));
    assert_eq!(encode(1234), padded("1234"));
    if usize::BITS == 64 {
        assert_eq!(encode(0), "00000000000000000000");
        assert_eq!(encode(5), "00000000000000000005");
        assert_eq!(encode(3), "00000000000000000003");
    }
}

#[test]
fn encode_largest_priority_has_no_padding() {
    assert_eq!(encode(usize::MAX), usize::MAX.to_string());
}

#[test]
fn keys_order_as_priorities() {
    let priorities = [0, 1, 2, 9, 10, 11, 99, 100, 12345, 1 << 40, usize::MAX - 1, usize::MAX];
    for w in priorities.windows(2) {
        let (a, b) = (encode(w[0]), encode(w[1]));
        assert!(a < b, "{} < {}", a, b);
        assert_eq!(a.len(), b.len());
        assert_eq!(a.len(), key_width());
    }
}

#[test]
fn omitted_priority_is_zero() {
    let omitted = HookRequest::new(HookKind::Startup, None);
    let zero = HookRequest::new(HookKind::Startup, Some(0));
    assert_eq!(omitted.priority, 0);
    assert_eq!(omitted.order_key(), zero.order_key());
    assert_eq!(omitted.order_key(), encode(0));
    assert_eq!(HookRequest::new(HookKind::Shutdown, Some(7)).priority, 7);
}

#[test]
fn scenario_startup_elf_without_priority() {
    let request = HookRequest::new(HookKind::Startup, None);
    let decision = request.resolve(Platform::Linux);
    assert_eq!(decision.section_name, format!(".init_array.constructor.{}", padded("0")));
    assert_eq!(
        decision.text_section,
        Some(format!(".text.constructor.{}", padded("0")))
    );
    assert!(!decision.wrap_in_exit_callback);
    assert!(!decision.callback_trampoline_needed);
    assert_eq!(decision.exit_facility, None);
    if usize::BITS == 64 {
        assert_eq!(decision.section_name, ".init_array.constructor.00000000000000000000");
    }
}

#[test]
fn scenario_shutdown_windows_priority_five() {
    let request = HookRequest::new(HookKind::Shutdown, Some(5));
    let decision = request.resolve(Platform::Windows);
    assert_eq!(decision.section_name, format!(".CRT$XCU.destructor.{}", padded("5")));
    assert!(decision.wrap_in_exit_callback);
    assert!(decision.callback_trampoline_needed);
    assert_eq!(decision.exit_facility, Some(ExitFacility::Atexit));
    assert_eq!(decision.text_section, None);
    if usize::BITS == 64 {
        assert_eq!(decision.section_name, ".CRT$XCU.destructor.00000000000000000005");
    }
}

#[test]
fn scenario_startup_apple_priority_three() {
    let request = HookRequest::new(HookKind::Startup, Some(3));
    assert_eq!(request.order_key(), padded("3"));
    let decision = request.resolve(Platform::Apple);
    assert_eq!(decision.section_name, "__DATA,__mod_init_func");
    assert!(!decision.wrap_in_exit_callback);
    assert_eq!(decision.text_section, None);
    // Every priority resolves, to the same fixed section: the order among
    // these hooks is not encoded.
    for priority in [0, 1, 3, 1000, usize::MAX] {
        let other = HookRequest::new(HookKind::Startup, Some(priority)).resolve(Platform::Apple);
        assert_eq!(other.section_name, decision.section_name);
    }
}

#[test]
fn shutdown_on_apple_uses_cxa_atexit() {
    let decision = HookRequest::new(HookKind::Shutdown, Some(1)).resolve(Platform::Apple);
    assert_eq!(decision.section_name, "__DATA,__mod_init_func");
    assert!(decision.wrap_in_exit_callback);
    assert_eq!(decision.exit_facility, Some(ExitFacility::CxaAtexit));
}

#[test]
fn resolving_twice_gives_identical_decisions() {
    for platform in Platform::all() {
        for kind in [HookKind::Startup, HookKind::Shutdown] {
            let request = HookRequest::new(kind, Some(42));
            let first: PlacementDecision = request.resolve(platform);
            let second = request.resolve(platform);
            assert_eq!(first, second);
            assert_eq!(first.section_name.as_bytes(), second.section_name.as_bytes());
            assert_eq!(resolve(kind, "x", platform), resolve(kind, "x", platform));
        }
    }
}

#[test]
fn shutdown_always_wraps_in_exit_callback() {
    for platform in Platform::all() {
        let decision = resolve(HookKind::Shutdown, "01", platform);
        assert!(decision.wrap_in_exit_callback);
        assert!(decision.callback_trampoline_needed);
        assert!(decision.exit_facility.is_some());
    }
}

#[test]
fn startup_section_names_by_family() {
    let key = "0042";
    for platform in Platform::all() {
        let decision = resolve(HookKind::Startup, key, platform);
        let expected = match platform.family() {
            Family::Elf => ".init_array.constructor.0042",
            Family::WindowsCrt => ".CRT$XCU.constructor.0042",
            Family::Apple => "__DATA,__mod_init_func",
        };
        assert_eq!(decision.section_name, expected);
    }
}

#[test]
fn text_sections_only_on_linux_and_android() {
    for platform in Platform::all() {
        let decision = resolve(HookKind::Shutdown, "9", platform);
        match platform {
            Platform::Linux | Platform::Android => {
                assert_eq!(decision.text_section, Some(".text.destructor.9".to_string()));
                assert_eq!(decision.section_name, ".init_array.destructor.9");
            }
            _ => assert_eq!(decision.text_section, None),
        }
    }
}

#[test]
fn families_of_platforms() {
    assert_eq!(Platform::Windows.family(), Family::WindowsCrt);
    assert_eq!(Platform::Apple.family(), Family::Apple);
    for p in [
        Platform::Linux,
        Platform::Android,
        Platform::FreeBsd,
        Platform::NetBsd,
        Platform::OpenBsd,
        Platform::DragonFly,
        Platform::Bare,
    ] {
        assert_eq!(p.family(), Family::Elf);
    }
    assert!(Platform::Linux.pins_code());
    assert!(!Platform::FreeBsd.pins_code());
}

#[test]
fn every_platform_is_found_from_its_configuration() {
    let all = Platform::all();
    assert_eq!(all.len(), 9);
    for p in all {
        let found = if p.cfg_key() == "target_vendor" {
            Platform::from_target("macos", p.cfg_value())
        } else {
            assert_eq!(p.cfg_key(), "target_os");
            Platform::from_target(p.cfg_value(), "unknown")
        };
        assert_eq!(found, Some(p));
    }
}

#[test]
fn target_lookup() {
    assert_eq!(Platform::from_target("linux", "unknown"), Some(Platform::Linux));
    assert_eq!(Platform::from_target("none", "unknown"), Some(Platform::Bare));
    assert_eq!(Platform::from_target("ios", "apple"), Some(Platform::Apple));
    assert_eq!(Platform::from_target("windows", "pc"), Some(Platform::Windows));
    assert_eq!(Platform::from_target("wasi", "unknown"), None);
    assert_eq!(Platform::from_target("", ""), None);
    assert_eq!(Platform::from_target("linuxx", "unknown"), None);
}

#[test]
fn unsupported_target_is_unresolvable() {
    let request = HookRequest::new(HookKind::Startup, Some(2));
    assert_eq!(request.resolve_for_target("wasi", "unknown"), None);
    let found = request.resolve_for_target("freebsd", "unknown").unwrap();
    assert_eq!(found.section_name, format!(".init_array.constructor.{}", padded("2")));
}

#[test]
fn kind_tags() {
    assert_eq!(HookKind::Startup.tag(), "constructor");
    assert_eq!(HookKind::Shutdown.tag(), "destructor");
}

#[test]
fn text_comparison() {
    assert!(same_text("abc", "abc"));
    assert!(same_text("", ""));
    assert!(!same_text("abc", "abd"));
    assert!(!same_text("abc", "ab"));
    assert!(same_text("é", "é"));
    assert!(!same_text("é", "e"));
}
