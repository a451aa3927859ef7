use wl_clipboard_rs::capi::{
    primary_selection_status, wcrs_clipboard_type_t, wcrs_paste_status_t as P,
    wcrs_primary_selection_check_status_t as C,
};
use wl_clipboard_rs::clipboard_manager::{ClipboardManager, DataDevice, DataSource};
use wl_clipboard_rs::common::{initialize, runtime_dir_usable, Error, Global};
use wl_clipboard_rs::copy;
use wl_clipboard_rs::data_control::{Device, Manager, Offer, Request, Source};
use wl_clipboard_rs::paste;
use wl_clipboard_rs::paste::MimeType;
use wl_clipboard_rs::seat_data::SeatData;
use wl_clipboard_rs::utils::PrimarySelectionCheckError;
use wl_clipboard_rs::wl_copy;
use wl_clipboard_rs::wl_paste;
use wl_clipboard_rs::xdg_mime::mime_from_output;

const SEAT: &str = "wl_seat";
const ZWLR: &str = "zwlr_data_control_manager_v1";
const EXT: &str = "ext_data_control_manager_v1";

fn list(globals: &[(&str, u32)]) -> Vec<Global> {
    globals
        .iter()
        .enumerate()
        .map(|(i, (interface, version))| Global {
            name: i as u32 + 1,
            interface: interface.to_string(),
            version: *version,
        })
        .collect()
}

#[test]
fn initialize_prefers_ext() {
    let state = initialize(false, &list(&[(ZWLR, 2), (SEAT, 7), (EXT, 1)])).unwrap();
    assert_eq!(state.clipboard_manager, Manager::Ext(3));
    let state = initialize(true, &list(&[(EXT, 1), (ZWLR, 2)])).unwrap();
    assert_eq!(state.clipboard_manager, Manager::Ext(1));
    assert!(state.seats.is_empty());
}

#[test]
fn initialize_falls_back_to_wlr() {
    let state = initialize(false, &list(&[(SEAT, 7), (ZWLR, 1)])).unwrap();
    assert_eq!(state.clipboard_manager, Manager::Zwlr(2));
    let state = initialize(true, &list(&[(SEAT, 7), (ZWLR, 2)])).unwrap();
    assert_eq!(state.clipboard_manager, Manager::Zwlr(2));
    let state = initialize(false, &list(&[(SEAT, 7), (ZWLR, 3)])).unwrap();
    assert_eq!(state.clipboard_manager, Manager::Zwlr(2));
}

#[test]
fn initialize_missing_protocol() {
    assert_eq!(
        initialize(false, &list(&[(SEAT, 7)])).unwrap_err(),
        Error::MissingProtocol { version: 1 }
    );
    assert_eq!(
        initialize(true, &list(&[(SEAT, 7)])).unwrap_err(),
        Error::MissingProtocol { version: 2 }
    );
    assert_eq!(
        initialize(true, &list(&[(SEAT, 7), (ZWLR, 1)])).unwrap_err(),
        Error::MissingProtocol { version: 2 }
    );
    assert_eq!(initialize(false, &Vec::new()).unwrap_err(), Error::MissingProtocol { version: 1 });
    // Only the first global of an interface is looked at.
    assert_eq!(
        initialize(true, &list(&[(ZWLR, 1), (ZWLR, 2)])).unwrap_err(),
        Error::MissingProtocol { version: 2 }
    );
    assert_eq!(
        initialize(true, &list(&[(EXT, 0), (ZWLR, 1)])).unwrap_err(),
        Error::MissingProtocol { version: 2 }
    );
}

#[test]
fn initialize_skips_old_seats() {
    let globals = list(&[(SEAT, 1), (ZWLR, 2), (SEAT, 2), ("wl_output", 4), (SEAT, 9)]);
    let state = initialize(true, &globals).unwrap();
    let seats: Vec<u32> = state.seats.iter().map(|e| e.seat).collect();
    assert_eq!(seats, [3, 5]);
    for entry in &state.seats {
        assert!(entry.data.name.is_none());
        assert!(entry.data.device.is_none());
        assert!(entry.data.offer.is_none());
        assert!(entry.data.primary_offer.is_none());
    }
}

#[test]
fn seat_name_reaches_its_seat() {
    let mut state = initialize(true, &list(&[(ZWLR, 2), (SEAT, 2), (SEAT, 2)])).unwrap();
    state.seat_name(3, "second".to_string());
    assert_eq!(state.seats[0].data.name, None);
    assert_eq!(state.seats[1].data.name.as_deref(), Some("second"));
    assert_eq!(state.find_seat(3), Some(1));
    assert_eq!(state.find_seat(4), None);
}

#[test]
fn runtime_dir_has_to_be_absolute() {
    assert!(runtime_dir_usable("/run/user/1000"));
    assert!(runtime_dir_usable("/"));
    assert!(!runtime_dir_usable(""));
    assert!(!runtime_dir_usable("run/user/1000"));
    assert!(!runtime_dir_usable("./run"));
}

#[test]
fn seat_slots_hand_back_what_they_held() {
    let mut data = SeatData::default();
    data.set_name("seat0".to_string());
    assert_eq!(data.name.as_deref(), Some("seat0"));

    assert_eq!(data.set_device(Some(Device::Zwlr(1))), None);
    assert_eq!(data.set_device(Some(Device::Zwlr(2))), Some(Device::Zwlr(1)));
    assert_eq!(data.device, Some(Device::Zwlr(2)));
    assert_eq!(data.set_device(None), Some(Device::Zwlr(2)));
    assert_eq!(data.set_device(None), None);

    assert_eq!(data.set_offer(Some(Offer::Ext(3))), None);
    assert_eq!(data.set_primary_offer(Some(Offer::Ext(4))), None);
    assert_eq!(data.set_offer(Some(Offer::Ext(5))), Some(Offer::Ext(3)));
    assert_eq!(data.set_primary_offer(None), Some(Offer::Ext(4)));
    assert_eq!(data.offer, Some(Offer::Ext(5)));
    assert_eq!(data.primary_offer, None);
    assert_eq!(data.name.as_deref(), Some("seat0"));
}

#[test]
fn objects_follow_their_manager() {
    assert_eq!(Manager::Zwlr(1).get_data_device(7), Device::Zwlr(7));
    assert_eq!(Manager::Ext(1).get_data_device(7), Device::Ext(7));
    assert_eq!(Manager::Zwlr(1).create_data_source(8), Source::Zwlr(8));
    assert_eq!(Manager::Ext(1).create_data_source(8), Source::Ext(8));
    assert_eq!(Source::Zwlr(8).zwlr(), 8);
    assert_eq!(Source::Ext(9).ext(), 9);
    assert_eq!(Manager::Zwlr(1).bind_version(false), 1);
    assert_eq!(Manager::Zwlr(1).bind_version(true), 2);
    assert_eq!(Manager::Ext(1).bind_version(false), 1);
    assert_eq!(Manager::Ext(1).bind_version(true), 1);
}

#[test]
fn requests_name_their_object() {
    let device = Device::Ext(1);
    let source = Source::Ext(2);
    assert!(matches!(device.destroy(), Request::DestroyDevice(Device::Ext(1))));
    assert!(matches!(
        device.set_selection(Some(&source)),
        Request::SetSelection { device: Device::Ext(1), source: Some(Source::Ext(2)) }
    ));
    assert!(matches!(
        device.set_primary_selection(None),
        Request::SetPrimarySelection { device: Device::Ext(1), source: None }
    ));
    assert!(matches!(source.destroy(), Request::DestroySource(Source::Ext(2))));
    assert!(matches!(
        source.offer("a/b".to_string()),
        Request::Offer { source: Source::Ext(2), mime_type } if mime_type == "a/b"
    ));
    let offer = Offer::Zwlr(3);
    assert!(matches!(offer.destroy(), Request::DestroyOffer(Offer::Zwlr(3))));
    assert!(matches!(
        offer.receive("a/b".to_string()),
        Request::Receive { offer: Offer::Zwlr(3), mime_type } if mime_type == "a/b"
    ));
}

#[test]
fn bootstrap_errors_carry_over() {
    assert!(matches!(paste::Error::from(Error::SocketOpenError), paste::Error::SocketOpenError));
    assert!(matches!(paste::Error::from(Error::WaylandConnection), paste::Error::WaylandConnection));
    assert!(matches!(
        paste::Error::from(Error::WaylandCommunication),
        paste::Error::WaylandCommunication
    ));
    assert!(matches!(
        paste::Error::from(Error::MissingProtocol { version: 2 }),
        paste::Error::MissingProtocol { name: "zwlr_data_control_manager_v1", version: 2 }
    ));
    assert!(matches!(copy::Error::from(Error::SocketOpenError), copy::Error::SocketOpenError));
    assert!(matches!(copy::Error::from(Error::WaylandConnection), copy::Error::WaylandConnection));
    assert!(matches!(
        copy::Error::from(Error::WaylandCommunication),
        copy::Error::WaylandCommunication
    ));
    assert!(matches!(
        copy::Error::from(Error::MissingProtocol { version: 1 }),
        copy::Error::MissingProtocol { name: "zwlr_data_control_manager_v1", version: 1 }
    ));
}

#[test]
fn status_codes() {
    assert_eq!(C::from(PrimarySelectionCheckError::NoSeats), C::WcrsPrimarySelectionCheckStatusNoSeats);
    assert_eq!(
        C::from(PrimarySelectionCheckError::WaylandConnection),
        C::WcrsPrimarySelectionCheckStatusWaylandConnection
    );
    assert_eq!(
        C::from(PrimarySelectionCheckError::SocketOpenError),
        C::WcrsPrimarySelectionCheckStatusWaylandConnection
    );
    assert_eq!(
        C::from(PrimarySelectionCheckError::WaylandCommunication),
        C::WcrsPrimarySelectionCheckStatusWaylandCommunication
    );
    assert_eq!(
        C::from(PrimarySelectionCheckError::MissingProtocol),
        C::WcrsPrimarySelectionCheckStatusMissingProtocol
    );
    assert_eq!(primary_selection_status(Ok(true)), (C::WcrsPrimarySelectionCheckStatusSuccess, 1));
    assert_eq!(primary_selection_status(Ok(false)), (C::WcrsPrimarySelectionCheckStatusSuccess, 0));
    assert_eq!(
        primary_selection_status(Err(PrimarySelectionCheckError::NoSeats)),
        (C::WcrsPrimarySelectionCheckStatusNoSeats, 0)
    );

    assert_eq!(
        paste::ClipboardType::from(wcrs_clipboard_type_t::WcrsClipboardTypeRegular),
        paste::ClipboardType::Regular
    );
    assert_eq!(
        paste::ClipboardType::from(wcrs_clipboard_type_t::WcrsClipboardTypePrimary),
        paste::ClipboardType::Primary
    );

    let cases = [
        (paste::Error::NoSeats, P::WcrsPasteStatusNoSeats),
        (paste::Error::ClipboardEmpty, P::WcrsPasteStatusClipboardEmpty),
        (paste::Error::NoMimeType, P::WcrsPasteStatusNoMimeType),
        (paste::Error::SocketOpenError, P::WcrsPasteStatusWaylandConnection),
        (paste::Error::WaylandConnection, P::WcrsPasteStatusWaylandConnection),
        (paste::Error::WaylandCommunication, P::WcrsPasteStatusWaylandCommunication),
        (
            paste::Error::MissingProtocol { name: ZWLR, version: 1 },
            P::WcrsPasteStatusMissingProtocol,
        ),
        (
            paste::Error::PrimarySelectionUnsupported,
            P::WcrsPasteStatusPrimarySelectionUnsupported,
        ),
        (paste::Error::SeatNotFound, P::WcrsPasteStatusSeatNotFound),
        (paste::Error::PipeCreation, P::WcrsPasteStatusPipeCreation),
    ];
    for (error, status) in cases {
        assert_eq!(P::from(error), status);
    }
}

#[test]
fn older_managers() {
    let data_control = ClipboardManager::DataControl(1);
    let gtk = ClipboardManager::GtkPrimary(2);
    let wp = ClipboardManager::WpPrimary(3);
    assert!(!data_control.requires_keyboard_focus() && !data_control.requires_serial());
    assert!(gtk.requires_keyboard_focus() && gtk.requires_serial());
    assert!(wp.requires_keyboard_focus() && wp.requires_serial());
    assert_eq!(data_control.name(), "zwlr_data_control_manager_v1");
    assert_eq!(gtk.name(), "gtk_primary_selection_device_manager");
    assert_eq!(wp.name(), "zwp_primary_selection_device_manager_v1");
    assert_eq!(gtk.get_device(5), DataDevice::GtkPrimary(5));
    assert_eq!(wp.create_source(6), DataSource::WpPrimary(6));
    assert_eq!(data_control.get_device(7), DataDevice::DataControl(7));

    let request = DataDevice::GtkPrimary(5).set_selection(Some(&DataSource::GtkPrimary(6)), Some(42));
    assert_eq!(request.serial, Some(42));
    assert_eq!(request.source, Some(DataSource::GtkPrimary(6)));
    let request = DataDevice::DataControl(5).set_selection(None, Some(42));
    assert_eq!(request.serial, None);
    assert_eq!(request.source, None);
    assert_eq!(request.device, DataDevice::DataControl(5));
}

#[test]
fn output_name_suggests_the_mime_type() {
    assert_eq!(wl_paste::infer_mime_type(None), None);
    assert_eq!(wl_paste::infer_mime_type(Some("/tmp/picture.png")).as_deref(), Some("image/png"));
    assert_eq!(wl_paste::infer_mime_type(Some("/tmp/notes.txt")).as_deref(), Some("text/plain"));
    assert_eq!(wl_paste::infer_mime_type(Some("/tmp/page.HTML")).as_deref(), Some("text/html"));
    assert_eq!(wl_paste::infer_mime_type(Some("/dev/pts/3")), None);
    assert_eq!(wl_paste::infer_mime_type(Some("/tmp/no_extension")), None);
    assert_eq!(wl_paste::infer_mime_type(Some("picture.png/")).as_deref(), Some("image/png"));
}

#[test]
fn requested_mime_type_cases() {
    assert!(matches!(wl_paste::requested_mime_type(Some("text"), None), MimeType::Text));
    assert!(matches!(
        wl_paste::requested_mime_type(Some("text"), Some("image/png")),
        MimeType::Text
    ));
    assert!(matches!(
        wl_paste::requested_mime_type(Some("text/html"), Some("image/png")),
        MimeType::Specific("text/html")
    ));
    assert!(matches!(wl_paste::requested_mime_type(Some("TEXT"), None), MimeType::Specific("TEXT")));
    assert!(matches!(wl_paste::requested_mime_type(None, None), MimeType::Any));
    assert!(matches!(
        wl_paste::requested_mime_type(None, Some("application/octet-stream")),
        MimeType::Any
    ));
    assert!(matches!(
        wl_paste::requested_mime_type(None, Some("text/html")),
        MimeType::TextWithPriority("text/html")
    ));
    assert!(matches!(
        wl_paste::requested_mime_type(None, Some("image/png")),
        MimeType::Specific("image/png")
    ));

    let inferred = wl_paste::infer_mime_type(Some("out.css"));
    assert!(matches!(
        wl_paste::requested_mime_type(None, inferred.as_deref()),
        MimeType::TextWithPriority("text/css")
    ));
}

#[test]
fn newline_at_the_end_of_pasted_text() {
    let with = |contents: &[u8], no_newline: bool, mime_type: &str| {
        let mut contents = contents.to_vec();
        wl_paste::append_newline(&mut contents, no_newline, mime_type);
        contents
    };
    assert_eq!(with(b"hello", false, "text/plain"), b"hello\n");
    assert_eq!(with(b"hello\n", false, "text/plain"), b"hello\n");
    assert_eq!(with(b"", false, "STRING"), b"\n");
    assert_eq!(with(b"hello", true, "text/plain"), b"hello");
    assert_eq!(with(b"hello", false, "image/png"), b"hello");

    let without = |contents: &[u8], rmlastnl: bool, mime_type: &str| {
        let mut contents = contents.to_vec();
        wl_paste::remove_last_newline(&mut contents, rmlastnl, mime_type);
        contents
    };
    assert_eq!(without(b"hello\n", true, "text/plain"), b"hello");
    assert_eq!(without(b"hello\n\n", true, "text/plain"), b"hello\n");
    assert_eq!(without(b"hello", true, "text/plain"), b"hello");
    assert_eq!(without(b"", true, "text/plain"), b"");
    assert_eq!(without(b"hello\n", false, "text/plain"), b"hello\n");
    assert_eq!(without(b"hello\n", true, "image/png"), b"hello\n");
}

fn tool_options() -> wl_copy::Options {
    wl_copy::Options {
        paste_once: false,
        foreground: false,
        clear: false,
        primary: false,
        regular: false,
        trim_newline: false,
        seat: None,
        mime_type: None,
        text: Vec::new(),
        verbose: 0,
    }
}

#[test]
fn tool_options_become_copy_options() {
    let opts = wl_copy::from_options(tool_options());
    let mut expected = copy::Options::new();
    expected.foreground(true);
    assert_eq!(opts, expected);

    let opts = wl_copy::from_options(wl_copy::Options {
        paste_once: true,
        primary: true,
        regular: true,
        trim_newline: true,
        seat: Some("seat9".to_string()),
        ..tool_options()
    });
    assert_eq!(opts.serve_requests, copy::ServeRequests::Only(1));
    assert_eq!(opts.clipboard, copy::ClipboardType::Both);
    assert!(opts.trim_newline && opts.foreground);
    assert_eq!(opts.seat, copy::Seat::Specific("seat9".to_string()));

    let opts = wl_copy::from_options(wl_copy::Options { primary: true, ..tool_options() });
    assert_eq!(opts.clipboard, copy::ClipboardType::Primary);
    let opts = wl_copy::from_options(wl_copy::Options { regular: true, ..tool_options() });
    assert_eq!(opts.clipboard, copy::ClipboardType::Regular);
}

#[test]
fn words_are_joined_by_spaces() {
    assert_eq!(wl_copy::source_of(&Vec::new()), copy::Source::StdIn);
    assert_eq!(wl_copy::source_of(&vec![b"one".to_vec()]), copy::Source::Bytes(b"one".to_vec()));
    assert_eq!(
        wl_copy::source_of(&vec![b"one".to_vec(), Vec::new(), b"two".to_vec()]),
        copy::Source::Bytes(b"one  two".to_vec())
    );
    assert_eq!(wl_copy::source_of(&vec![Vec::new()]), copy::Source::Bytes(Vec::new()));
    assert_eq!(wl_copy::mime_type_of(None), copy::MimeType::Autodetect);
    assert_eq!(
        wl_copy::mime_type_of(Some("a/b".to_string())),
        copy::MimeType::Specific("a/b".to_string())
    );
}

#[test]
fn xdg_mime_output() {
    assert_eq!(mime_from_output(b"image/png\n"), b"image/png");
    assert_eq!(mime_from_output(b"image/png"), b"image/png");
    assert_eq!(mime_from_output(b"image/png\n\n"), b"image/png\n");
    assert_eq!(mime_from_output(b"\n"), b"");
    assert_eq!(mime_from_output(b""), b"");
}
