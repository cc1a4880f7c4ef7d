use freestanding::control::entry_symbol_name;
use freestanding::control::entry_transfer;
use freestanding::control::panic_transfer;
use freestanding::control::str_eq;
use freestanding::control::symbol_matches_convention;
use freestanding::control::BuildConfig;
use freestanding::control::ControlState;
use freestanding::control::Event;
use freestanding::control::PanicDiagnostic;

#[test]
fn entry_reaches_idle() {
    assert_eq!(entry_transfer(), ControlState::NormalIdle);
}

#[test]
fn idle_loop_is_fixed() {
    let mut s = entry_transfer();
    let mut i: usize = 0;
    while i < 1000 {
        s = s.step(Event::Tick);
        assert_eq!(s, ControlState::NormalIdle);
        i += 1;
    }
    assert_eq!(s.step(Event::PanicRaised), ControlState::NormalIdle);
    assert_eq!(s.step(Event::EntryInvoked), ControlState::NormalIdle);
}

#[test]
fn panic_handler_halts_and_discards_diagnostic() {
    let with_info = PanicDiagnostic {
        message: Some(String::from("index out of bounds")),
        file: Some(String::from("main.rs")),
        line: Some(7),
        column: Some(3),
    };
    let without_info = PanicDiagnostic { message: None, file: None, line: None, column: None };
    assert_eq!(panic_transfer(&with_info), ControlState::PanicHalt);
    assert_eq!(panic_transfer(&without_info), ControlState::PanicHalt);
}

#[test]
fn halt_loop_is_fixed() {
    let without_info = PanicDiagnostic { message: None, file: None, line: None, column: None };
    let mut s = panic_transfer(&without_info);
    let mut i: usize = 0;
    while i < 1000 {
        s = s.step(Event::Tick);
        assert_eq!(s, ControlState::PanicHalt);
        i += 1;
    }
    assert_eq!(s.step(Event::EntryInvoked), ControlState::PanicHalt);
    assert_eq!(s.step(Event::PanicRaised), ControlState::PanicHalt);
}

#[test]
fn loaded_state_transitions() {
    assert_eq!(ControlState::Loaded.step(Event::Tick), ControlState::Loaded);
    assert_eq!(ControlState::Loaded.step(Event::EntryInvoked), ControlState::NormalIdle);
    assert_eq!(ControlState::Loaded.step(Event::PanicRaised), ControlState::PanicHalt);
}

#[test]
fn entry_symbol_is_start() {
    assert_eq!(entry_symbol_name(), "_start");
    assert!(symbol_matches_convention("_start"));
    assert!(!symbol_matches_convention("start"));
    assert!(!symbol_matches_convention("_START"));
    assert!(!symbol_matches_convention("main"));
    assert!(!symbol_matches_convention("__start"));
    assert!(!symbol_matches_convention("_start_v2"));
    assert!(!symbol_matches_convention(""));
}

#[test]
fn str_eq_agrees_with_equality() {
    assert!(str_eq("", ""));
    assert!(str_eq("abc", "abc"));
    assert!(!str_eq("abc", "abd"));
    assert!(!str_eq("abc", "ab"));
    assert!(!str_eq("", "a"));
}

#[test]
fn freestanding_build_is_accepted() {
    let ok = BuildConfig {
        links_hosted_startup: false,
        uses_main_convention: false,
        entry_symbol_mangled: false,
        entry_symbol: String::from("_start"),
    };
    assert!(ok.check());
}

#[test]
fn hosted_or_renamed_build_is_rejected() {
    let ok = BuildConfig {
        links_hosted_startup: false,
        uses_main_convention: false,
        entry_symbol_mangled: false,
        entry_symbol: String::from("_start"),
    };
    let hosted = BuildConfig { links_hosted_startup: true, ..ok.clone() };
    assert!(!hosted.check());
    let with_main = BuildConfig { uses_main_convention: true, ..ok.clone() };
    assert!(!with_main.check());
    let mangled = BuildConfig { entry_symbol_mangled: true, ..ok.clone() };
    assert!(!mangled.check());
    let renamed = BuildConfig { entry_symbol: String::from("start"), ..ok };
    assert!(!renamed.check());
}
