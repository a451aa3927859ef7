use std::collections::HashSet;

use wl_clipboard_rs::common::{initialize, Global};
use wl_clipboard_rs::data_control::{DeviceEvent, Offer};
use wl_clipboard_rs::paste::{
    get_contents, get_mime_types, get_offer, select_mime_type, ClipboardType, Error, MimeType,
    Seat, State,
};

/// What a seat of the compositor holds.
#[derive(Clone, Default)]
struct SeatInfo {
    offer: Option<Vec<(&'static str, Vec<u8>)>>,
    primary_offer: Option<Vec<(&'static str, Vec<u8>)>>,
}

/// What the compositor answers a paste client with: the state after the round
/// trip, and the data behind each offer it introduced.
struct Session {
    state: State,
    data: Vec<(Offer, Vec<(&'static str, Vec<u8>)>)>,
}

fn paste_globals(manager: Option<(&str, u32)>, seats: &[(&'static str, SeatInfo)]) -> Vec<Global> {
    let mut globals = Vec::new();
    if let Some((interface, version)) = manager {
        globals.push(Global { name: 1, interface: interface.to_string(), version });
    }
    for (i, _) in seats.iter().enumerate() {
        globals.push(Global { name: 10 + i as u32, interface: "wl_seat".to_string(), version: 6 });
    }
    globals
}

/// Plays the compositor's part of a paste: binds, creates one device for each
/// seat and reports each seat's name and selections.
fn paste_session(
    manager: Option<(&str, u32)>,
    seats: &[(&'static str, SeatInfo)],
    primary: bool,
) -> Result<Session, Error> {
    let globals = paste_globals(manager, seats);
    let common = initialize(primary, &globals).map_err(Error::from)?;
    let mut state = State::new(common);
    let mut data = Vec::new();
    let with_primary = !matches!(manager, Some(("zwlr_data_control_manager_v1", 1)));

    for i in 0..state.common.seats.len() {
        let device = state.common.clipboard_manager.get_data_device(100 + i as u32);
        assert!(state.common.seats[i].data.set_device(Some(device)).is_none());
    }

    let mut next_offer = 1000;
    for (i, (name, info)) in seats.iter().enumerate() {
        let seat = 10 + i as u32;
        state.common.seat_name(seat, name.to_string());

        let mut introduce = |state: &mut State, contents: &Vec<(&'static str, Vec<u8>)>| {
            let id = Offer::Zwlr(next_offer);
            next_offer += 1;
            assert!(state.device_event(seat, DeviceEvent::DataOffer { id }).is_none());
            for (mime_type, _) in contents {
                state.offer_event(id, mime_type.to_string());
            }
            data.push((id, contents.clone()));
            id
        };

        let id = info.offer.as_ref().map(|contents| introduce(&mut state, contents));
        state.device_event(seat, DeviceEvent::Selection { id });
        if with_primary {
            let id = info.primary_offer.as_ref().map(|contents| introduce(&mut state, contents));
            state.device_event(seat, DeviceEvent::PrimarySelection { id });
        }
    }

    Ok(Session { state, data })
}

fn seat0(info: SeatInfo) -> Vec<(&'static str, SeatInfo)> {
    vec![("seat0", info)]
}

fn three_types() -> Option<Vec<(&'static str, Vec<u8>)>> {
    Some(vec![("first", vec![]), ("second", vec![]), ("third", vec![])])
}

fn as_set(mime_types: Vec<String>) -> HashSet<String> {
    let n = mime_types.len();
    let set: HashSet<String> = mime_types.into_iter().collect();
    assert_eq!(set.len(), n);
    set
}

const ZWLR: &str = "zwlr_data_control_manager_v1";
const EXT: &str = "ext_data_control_manager_v1";

#[test]
fn get_mime_types_test() {
    let seats = seat0(SeatInfo { offer: three_types(), ..Default::default() });
    let session = paste_session(Some((ZWLR, 2)), &seats, false).unwrap();

    let mime_types =
        get_mime_types(ClipboardType::Regular, Seat::Unspecified, &session.state).unwrap();

    let expected = HashSet::from(["first", "second", "third"].map(String::from));
    assert_eq!(as_set(mime_types), expected);
}

#[test]
fn get_mime_types_no_data_control() {
    let seats = seat0(SeatInfo::default());
    let result = paste_session(None, &seats, false)
        .and_then(|s| get_mime_types(ClipboardType::Regular, Seat::Unspecified, &s.state));
    assert!(matches!(
        result,
        Err(Error::MissingProtocol { name: "zwlr_data_control_manager_v1", version: 1 })
    ));
}

#[test]
fn get_mime_types_no_data_control_2() {
    let seats = seat0(SeatInfo::default());
    let result = paste_session(None, &seats, true)
        .and_then(|s| get_mime_types(ClipboardType::Primary, Seat::Unspecified, &s.state));
    assert!(matches!(
        result,
        Err(Error::MissingProtocol { name: "zwlr_data_control_manager_v1", version: 2 })
    ));
}

#[test]
fn get_mime_types_no_seats() {
    let session = paste_session(Some((ZWLR, 2)), &[], true).unwrap();
    let result = get_mime_types(ClipboardType::Primary, Seat::Unspecified, &session.state);
    assert!(matches!(result, Err(Error::NoSeats)));
}

#[test]
fn get_mime_types_empty_clipboard() {
    let seats = seat0(SeatInfo::default());
    let session = paste_session(Some((ZWLR, 2)), &seats, true).unwrap();
    let result = get_mime_types(ClipboardType::Primary, Seat::Unspecified, &session.state);
    assert!(matches!(result, Err(Error::ClipboardEmpty)));
}

#[test]
fn get_mime_types_specific_seat() {
    let seats = vec![
        ("seat0", SeatInfo::default()),
        ("yay", SeatInfo { offer: three_types(), ..Default::default() }),
    ];
    let session = paste_session(Some((ZWLR, 2)), &seats, false).unwrap();

    let mime_types =
        get_mime_types(ClipboardType::Regular, Seat::Specific("yay"), &session.state).unwrap();

    let expected = HashSet::from(["first", "second", "third"].map(String::from));
    assert_eq!(as_set(mime_types), expected);
}

#[test]
fn get_mime_types_primary() {
    let seats = seat0(SeatInfo { primary_offer: three_types(), ..Default::default() });
    let session = paste_session(Some((ZWLR, 2)), &seats, true).unwrap();

    let mime_types =
        get_mime_types(ClipboardType::Primary, Seat::Unspecified, &session.state).unwrap();

    let expected = HashSet::from(["first", "second", "third"].map(String::from));
    assert_eq!(as_set(mime_types), expected);
}

#[test]
fn get_contents_test() {
    let seats = seat0(SeatInfo {
        offer: Some(vec![("application/octet-stream", vec![1, 3, 3, 7])]),
        ..Default::default()
    });
    let session = paste_session(Some((ZWLR, 2)), &seats, false).unwrap();

    let (offer, mime_type) =
        get_contents(ClipboardType::Regular, Seat::Unspecified, MimeType::Any, &session.state)
            .unwrap();

    assert_eq!(mime_type, "application/octet-stream");

    // The compositor answers `receive` on that offer with the bytes it holds.
    let (_, held) = session.data.iter().find(|(id, _)| *id == offer).unwrap();
    let (_, contents) = held.iter().find(|(m, _)| *m == mime_type).unwrap();
    assert_eq!(contents, &[1, 3, 3, 7]);
}

#[test]
fn get_contents_wrong_mime_type() {
    let seats = seat0(SeatInfo {
        offer: Some(vec![("application/octet-stream", vec![1, 3, 3, 7])]),
        ..Default::default()
    });
    let session = paste_session(Some((ZWLR, 2)), &seats, false).unwrap();

    let result = get_contents(
        ClipboardType::Regular,
        Seat::Unspecified,
        MimeType::Specific("wrong"),
        &session.state,
    );
    assert!(matches!(result, Err(Error::NoMimeType)));
}

#[test]
fn get_mime_types_seat_not_found() {
    let seats = seat0(SeatInfo { offer: three_types(), ..Default::default() });
    let session = paste_session(Some((ZWLR, 2)), &seats, false).unwrap();
    let result = get_mime_types(ClipboardType::Regular, Seat::Specific("seat1"), &session.state);
    assert!(matches!(result, Err(Error::SeatNotFound)));
}

#[test]
fn get_mime_types_primary_unsupported() {
    // Version 1 of wlr-data-control binds for the regular clipboard and never
    // reports a primary selection.
    let seats = seat0(SeatInfo { offer: three_types(), ..Default::default() });
    let session = paste_session(Some((ZWLR, 1)), &seats, false).unwrap();
    assert!(!session.state.got_primary_selection);
    let result = get_offer(true, Seat::Unspecified, &session.state);
    assert!(matches!(result, Err(Error::PrimarySelectionUnsupported)));
    assert!(get_offer(false, Seat::Unspecified, &session.state).is_ok());
}

#[test]
fn get_mime_types_ext_manager() {
    let seats = seat0(SeatInfo { primary_offer: three_types(), ..Default::default() });
    let session = paste_session(Some((EXT, 1)), &seats, true).unwrap();
    let mime_types =
        get_mime_types(ClipboardType::Primary, Seat::Unspecified, &session.state).unwrap();
    assert_eq!(mime_types, ["first", "second", "third"]);
}

#[test]
fn unspecified_seat_is_the_first() {
    let seats = vec![
        ("a", SeatInfo { offer: Some(vec![("from-a", vec![])]), ..Default::default() }),
        ("b", SeatInfo { offer: Some(vec![("from-b", vec![])]), ..Default::default() }),
    ];
    let session = paste_session(Some((ZWLR, 2)), &seats, false).unwrap();
    let mime_types =
        get_mime_types(ClipboardType::Regular, Seat::Unspecified, &session.state).unwrap();
    assert_eq!(mime_types, ["from-a"]);
}

#[test]
fn offer_lists_each_mime_type_once() {
    let seats = seat0(SeatInfo {
        offer: Some(vec![("x", vec![]), ("y", vec![]), ("x", vec![])]),
        ..Default::default()
    });
    let session = paste_session(Some((ZWLR, 2)), &seats, false).unwrap();
    let mime_types =
        get_mime_types(ClipboardType::Regular, Seat::Unspecified, &session.state).unwrap();
    assert_eq!(mime_types, ["x", "y"]);
}

#[test]
fn new_selection_destroys_the_old_offer() {
    let seats = seat0(SeatInfo { offer: three_types(), ..Default::default() });
    let mut session = paste_session(Some((ZWLR, 2)), &seats, false).unwrap();
    let old = session.state.common.seats[0].data.offer.unwrap();

    let request = session.state.device_event(10, DeviceEvent::Selection { id: None });
    assert!(matches!(
        request,
        Some(wl_clipboard_rs::data_control::Request::DestroyOffer(o)) if o == old
    ));
    assert!(session.state.common.seats[0].data.offer.is_none());
    let result = get_mime_types(ClipboardType::Regular, Seat::Unspecified, &session.state);
    assert!(matches!(result, Err(Error::ClipboardEmpty)));
}

#[test]
fn finished_device_is_destroyed() {
    let seats = seat0(SeatInfo::default());
    let mut session = paste_session(Some((ZWLR, 2)), &seats, false).unwrap();
    let device = session.state.common.seats[0].data.device.unwrap();
    let request = session.state.device_event(10, DeviceEvent::Finished);
    assert!(matches!(
        request,
        Some(wl_clipboard_rs::data_control::Request::DestroyDevice(d)) if d == device
    ));
    assert!(session.state.common.seats[0].data.device.is_none());
    assert!(session.state.device_event(10, DeviceEvent::Finished).is_none());
}

fn offered(mime_types: &[&str]) -> Vec<String> {
    mime_types.iter().map(|m| m.to_string()).collect()
}

#[test]
fn select_any_prefers_text() {
    let list = offered(&["image/png", "text/html", "UTF8_STRING", "text/plain;charset=utf-8"]);
    assert_eq!(
        select_mime_type(MimeType::Any, &list).as_deref(),
        Some("text/plain;charset=utf-8")
    );
    let list = offered(&["image/png", "text/html", "UTF8_STRING"]);
    assert_eq!(select_mime_type(MimeType::Any, &list).as_deref(), Some("UTF8_STRING"));
    let list = offered(&["image/png", "text/html", "STRING"]);
    assert_eq!(select_mime_type(MimeType::Any, &list).as_deref(), Some("text/html"));
    let list = offered(&["image/png", "application/pdf"]);
    assert_eq!(select_mime_type(MimeType::Any, &list).as_deref(), Some("image/png"));
    assert_eq!(select_mime_type(MimeType::Any, &Vec::new()), None);
}

#[test]
fn select_text_excludes_other_types() {
    let list = offered(&["image/png", "application/pdf"]);
    assert_eq!(select_mime_type(MimeType::Text, &list), None);
    let list = offered(&["image/png", "TEXT"]);
    assert_eq!(select_mime_type(MimeType::Text, &list).as_deref(), Some("TEXT"));
    let list = offered(&["STRING", "UTF8_STRING"]);
    assert_eq!(select_mime_type(MimeType::Text, &list).as_deref(), Some("UTF8_STRING"));
}

#[test]
fn select_text_with_priority() {
    let list = offered(&["text/plain;charset=utf-8", "text/html", "image/png"]);
    assert_eq!(
        select_mime_type(MimeType::TextWithPriority("text/html"), &list).as_deref(),
        Some("text/html")
    );
    assert_eq!(
        select_mime_type(MimeType::TextWithPriority("image/png"), &list).as_deref(),
        Some("image/png")
    );
    assert_eq!(
        select_mime_type(MimeType::TextWithPriority("text/css"), &list).as_deref(),
        Some("text/plain;charset=utf-8")
    );
    let list = offered(&["image/png"]);
    assert_eq!(select_mime_type(MimeType::TextWithPriority("text/css"), &list), None);
}

#[test]
fn select_specific_is_exact() {
    let list = offered(&["text/plain", "image/png"]);
    assert_eq!(
        select_mime_type(MimeType::Specific("image/png"), &list).as_deref(),
        Some("image/png")
    );
    assert_eq!(select_mime_type(MimeType::Specific("image/PNG"), &list), None);
    assert_eq!(select_mime_type(MimeType::Specific("text"), &list), None);
}

#[test]
fn paste_defaults() {
    assert_eq!(ClipboardType::default(), ClipboardType::Regular);
    assert!(matches!(Seat::default(), Seat::Unspecified));
}
