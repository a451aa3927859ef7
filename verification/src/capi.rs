//! Status codes for callers that cannot take the library's error types.

use vstd::prelude::*;
use vstd::std_specs::convert::FromSpecImpl;
use crate::paste;
use crate::utils::PrimarySelectionCheckError;

verus! {

/// How the check for the primary selection ended.
#[allow(non_camel_case_types)]
#[derive(Copy, Clone, Eq, PartialEq, Debug, Structural)]
pub enum wcrs_primary_selection_check_status_t {
    WcrsPrimarySelectionCheckStatusSuccess,
    WcrsPrimarySelectionCheckStatusNoSeats,
    WcrsPrimarySelectionCheckStatusWaylandConnection,
    WcrsPrimarySelectionCheckStatusWaylandCommunication,
    WcrsPrimarySelectionCheckStatusMissingProtocol,
}

/// The clipboard to paste from.
#[allow(non_camel_case_types)]
#[derive(Copy, Clone, Eq, PartialEq, Debug, Structural)]
pub enum wcrs_clipboard_type_t {
    WcrsClipboardTypeRegular,
    WcrsClipboardTypePrimary,
}

/// How a paste ended.
#[allow(non_camel_case_types)]
#[derive(Copy, Clone, Eq, PartialEq, Debug, Structural)]
pub enum wcrs_paste_status_t {
    WcrsPasteStatusSuccess,
    WcrsPasteStatusNoSeats,
    WcrsPasteStatusClipboardEmpty,
    WcrsPasteStatusNoMimeType,
    WcrsPasteStatusWaylandConnection,
    WcrsPasteStatusWaylandCommunication,
    WcrsPasteStatusMissingProtocol,
    WcrsPasteStatusPrimarySelectionUnsupported,
    WcrsPasteStatusSeatNotFound,
    WcrsPasteStatusPipeCreation,
}

/// The status that stands for an error of the check. A socket that could not
/// be opened counts as a failed connection.
pub open spec fn check_status(x: PrimarySelectionCheckError) -> wcrs_primary_selection_check_status_t {
    match x {
        PrimarySelectionCheckError::NoSeats =>
            wcrs_primary_selection_check_status_t::WcrsPrimarySelectionCheckStatusNoSeats,
        PrimarySelectionCheckError::SocketOpenError =>
            wcrs_primary_selection_check_status_t::WcrsPrimarySelectionCheckStatusWaylandConnection,
        PrimarySelectionCheckError::WaylandConnection =>
            wcrs_primary_selection_check_status_t::WcrsPrimarySelectionCheckStatusWaylandConnection,
        PrimarySelectionCheckError::WaylandCommunication =>
            wcrs_primary_selection_check_status_t::WcrsPrimarySelectionCheckStatusWaylandCommunication,
        PrimarySelectionCheckError::MissingProtocol =>
            wcrs_primary_selection_check_status_t::WcrsPrimarySelectionCheckStatusMissingProtocol,
    }
}

/// The status that stands for an error of a paste. A socket that could not be
/// opened counts as a failed connection.
pub open spec fn paste_status(x: paste::Error) -> wcrs_paste_status_t {
    match x {
        paste::Error::NoSeats => wcrs_paste_status_t::WcrsPasteStatusNoSeats,
        paste::Error::ClipboardEmpty => wcrs_paste_status_t::WcrsPasteStatusClipboardEmpty,
        paste::Error::NoMimeType => wcrs_paste_status_t::WcrsPasteStatusNoMimeType,
        paste::Error::SocketOpenError => wcrs_paste_status_t::WcrsPasteStatusWaylandConnection,
        paste::Error::WaylandConnection => wcrs_paste_status_t::WcrsPasteStatusWaylandConnection,
        paste::Error::WaylandCommunication =>
            wcrs_paste_status_t::WcrsPasteStatusWaylandCommunication,
        paste::Error::MissingProtocol { .. } => wcrs_paste_status_t::WcrsPasteStatusMissingProtocol,
        paste::Error::PrimarySelectionUnsupported =>
            wcrs_paste_status_t::WcrsPasteStatusPrimarySelectionUnsupported,
        paste::Error::SeatNotFound => wcrs_paste_status_t::WcrsPasteStatusSeatNotFound,
        paste::Error::PipeCreation => wcrs_paste_status_t::WcrsPasteStatusPipeCreation,
    }
}

/// The clipboard that a code stands for.
pub open spec fn clipboard_type(x: wcrs_clipboard_type_t) -> paste::ClipboardType {
    match x {
        wcrs_clipboard_type_t::WcrsClipboardTypeRegular => paste::ClipboardType::Regular,
        wcrs_clipboard_type_t::WcrsClipboardTypePrimary => paste::ClipboardType::Primary,
    }
}

impl From<PrimarySelectionCheckError> for wcrs_primary_selection_check_status_t {
    fn from(x: PrimarySelectionCheckError) -> (r: Self) {
        match x {
            PrimarySelectionCheckError::NoSeats => Self::WcrsPrimarySelectionCheckStatusNoSeats,
            PrimarySelectionCheckError::SocketOpenError =>
                Self::WcrsPrimarySelectionCheckStatusWaylandConnection,
            PrimarySelectionCheckError::WaylandConnection =>
                Self::WcrsPrimarySelectionCheckStatusWaylandConnection,
            PrimarySelectionCheckError::WaylandCommunication =>
                Self::WcrsPrimarySelectionCheckStatusWaylandCommunication,
            PrimarySelectionCheckError::MissingProtocol =>
                Self::WcrsPrimarySelectionCheckStatusMissingProtocol,
        }
    }
}

impl FromSpecImpl<PrimarySelectionCheckError> for wcrs_primary_selection_check_status_t {
    open spec fn obeys_from_spec() -> bool {
        true
    }

    open spec fn from_spec(x: PrimarySelectionCheckError) -> Self {
        check_status(x)
    }
}

impl From<wcrs_clipboard_type_t> for paste::ClipboardType {
    fn from(x: wcrs_clipboard_type_t) -> (r: Self) {
        match x {
            wcrs_clipboard_type_t::WcrsClipboardTypeRegular => Self::Regular,
            wcrs_clipboard_type_t::WcrsClipboardTypePrimary => Self::Primary,
        }
    }
}

impl FromSpecImpl<wcrs_clipboard_type_t> for paste::ClipboardType {
    open spec fn obeys_from_spec() -> bool {
        true
    }

    open spec fn from_spec(x: wcrs_clipboard_type_t) -> Self {
        clipboard_type(x)
    }
}

impl From<paste::Error> for wcrs_paste_status_t {
    fn from(x: paste::Error) -> (r: Self) {
        match x {
            paste::Error::NoSeats => Self::WcrsPasteStatusNoSeats,
            paste::Error::ClipboardEmpty => Self::WcrsPasteStatusClipboardEmpty,
            paste::Error::NoMimeType => Self::WcrsPasteStatusNoMimeType,
            paste::Error::SocketOpenError => Self::WcrsPasteStatusWaylandConnection,
            paste::Error::WaylandConnection => Self::WcrsPasteStatusWaylandConnection,
            paste::Error::WaylandCommunication => Self::WcrsPasteStatusWaylandCommunication,
            paste::Error::MissingProtocol { .. } => Self::WcrsPasteStatusMissingProtocol,
            paste::Error::PrimarySelectionUnsupported =>
                Self::WcrsPasteStatusPrimarySelectionUnsupported,
            paste::Error::SeatNotFound => Self::WcrsPasteStatusSeatNotFound,
            paste::Error::PipeCreation => Self::WcrsPasteStatusPipeCreation,
        }
    }
}

impl FromSpecImpl<paste::Error> for wcrs_paste_status_t {
    open spec fn obeys_from_spec() -> bool {
        true
    }

    open spec fn from_spec(x: paste::Error) -> Self {
        paste_status(x)
    }
}

/// The status to report for the check, and the flag to hand out with it: 1 where
/// the primary selection is supported, 0 where it is not or could not be told.
pub fn primary_selection_status(result: Result<bool, PrimarySelectionCheckError>) -> (r: (
    wcrs_primary_selection_check_status_t,
    i32,
))
    ensures
        r == match result {
            Ok(value) => (
                wcrs_primary_selection_check_status_t::WcrsPrimarySelectionCheckStatusSuccess,
                if value {
                    1i32
                } else {
                    0i32
                },
            ),
            Err(e) => (check_status(e), 0i32),
        },
{
    match result {
        Ok(value) => (
            wcrs_primary_selection_check_status_t::WcrsPrimarySelectionCheckStatusSuccess,
            if value {
                1
            } else {
                0
            },
        ),
        Err(e) => (wcrs_primary_selection_check_status_t::from(e), 0),
    }
}

} // verus!
