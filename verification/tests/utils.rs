use wl_clipboard_rs::data_control::{DeviceEvent, Manager};
use wl_clipboard_rs::search::same_text;
use wl_clipboard_rs::utils::{
    is_primary_selection_supported, is_text, PrimarySelectionCheckError, PrimarySelectionState,
};

const SEAT: &str = "wl_seat";
const ZWLR: &str = "zwlr_data_control_manager_v1";
const EXT: &str = "ext_data_control_manager_v1";

/// Plays the compositor's part of the check: announces the globals, and on the
/// device that the client then creates reports a primary selection if it
/// advertises one.
fn check_primary(
    globals: &[(&str, u32)],
    advertise_primary_selection: bool,
) -> Result<bool, PrimarySelectionCheckError> {
    let mut state = PrimarySelectionState::new();
    for (i, (interface, version)) in globals.iter().enumerate() {
        state.global(i as u32 + 1, interface, *version);
    }
    if state.probe().is_some() {
        state.device_event(DeviceEvent::Selection { id: None });
        if advertise_primary_selection {
            state.device_event(DeviceEvent::PrimarySelection { id: None });
        }
    }
    is_primary_selection_supported(&state)
}

#[test]
fn is_primary_selection_supported_test() {
    let result = check_primary(&[(SEAT, 6), (ZWLR, 2)], true).unwrap();
    assert!(result);
}

#[test]
fn is_primary_selection_supported_primary_selection_unsupported() {
    let result = check_primary(&[(SEAT, 6), (ZWLR, 2)], false).unwrap();
    assert!(!result);
}

#[test]
fn is_primary_selection_supported_data_control_v1() {
    let result = check_primary(&[(SEAT, 6), (ZWLR, 1)], false).unwrap();
    assert!(!result);
}

#[test]
fn is_primary_selection_supported_no_seats() {
    let result = check_primary(&[(ZWLR, 2)], true);
    assert!(matches!(result, Err(PrimarySelectionCheckError::NoSeats)));
}

#[test]
fn supports_v2_seats() {
    let result = check_primary(&[(SEAT, 2), (ZWLR, 2)], true).unwrap();
    assert!(result);
}

#[test]
fn is_primary_selection_supported_no_data_control() {
    let result = check_primary(&[(SEAT, 6)], false);
    assert!(matches!(result, Err(PrimarySelectionCheckError::MissingProtocol)));
}

#[test]
fn is_primary_selection_supported_ext_data_control() {
    let result = check_primary(&[(SEAT, 6), (EXT, 1)], true).unwrap();
    assert!(result);
}

#[test]
fn is_primary_selection_supported_primary_selection_unsupported_ext_data_control() {
    let result = check_primary(&[(SEAT, 6), (EXT, 1)], false).unwrap();
    assert!(!result);
}

#[test]
fn is_primary_selection_supported_data_control_v1_and_ext_data_control() {
    let result = check_primary(&[(SEAT, 6), (ZWLR, 1), (EXT, 1)], true).unwrap();
    assert!(result);
}

#[test]
fn version_one_seats_are_passed_over() {
    let result = check_primary(&[(SEAT, 1), (ZWLR, 2)], true);
    assert!(matches!(result, Err(PrimarySelectionCheckError::NoSeats)));
}

#[test]
fn check_binds_the_first_seat_and_manager() {
    let mut state = PrimarySelectionState::new();
    let bound = state.global(7, SEAT, 5);
    assert!(bound.seat);
    assert_eq!(bound.manager, None);
    let bound = state.global(8, SEAT, 5);
    assert!(!bound.seat);
    let bound = state.global(9, ZWLR, 1);
    assert_eq!(bound.manager, None);
    assert!(state.saw_zwlr_v1);
    let bound = state.global(10, ZWLR, 2);
    assert_eq!(bound.manager, Some(Manager::Zwlr(10)));
    let bound = state.global(11, EXT, 1);
    assert_eq!(bound.manager, None);
    assert_eq!(state.seat, Some(7));
    assert_eq!(state.clipboard_manager, Some(Manager::Zwlr(10)));
    assert_eq!(state.probe(), Some((Manager::Zwlr(10), 7)));
}

#[test]
fn is_text_examples() {
    assert!(is_text("text/plain"));
    assert!(!is_text("application/octet-stream"));
}

#[test]
fn is_text_edges() {
    assert!(is_text("TEXT"));
    assert!(is_text("STRING"));
    assert!(is_text("UTF8_STRING"));
    assert!(is_text("text/"));
    assert!(is_text("text/plain;charset=utf-8"));
    assert!(is_text("text/h\u{e9}"));
    assert!(!is_text(""));
    assert!(!is_text("text"));
    assert!(!is_text("Text/plain"));
    assert!(!is_text("text"));
    assert!(!is_text("string"));
    assert!(!is_text("xtext/plain"));
    assert!(!is_text("t\u{e9}xt/"));
}

#[test]
fn same_text_compares_whole_strings() {
    assert!(same_text("", ""));
    assert!(same_text("seat0", "seat0"));
    assert!(same_text("s\u{e9}at", "s\u{e9}at"));
    assert!(!same_text("seat0", "seat1"));
    assert!(!same_text("seat", "seat0"));
    assert!(!same_text("seat0", "seat"));
}
