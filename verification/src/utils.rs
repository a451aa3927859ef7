//! Helper functions.

use vstd::prelude::*;
use crate::common::{ext_interface, seat_interface, zwlr_interface, MIN_SEAT_VERSION};
use crate::data_control::{DeviceEvent, Manager};
use crate::search::same_text;

verus! {

/// The characters every `text/...` MIME type starts with.
pub open spec fn text_prefix() -> Seq<char> {
    seq!['t', 'e', 'x', 't', '/']
}

/// Whether a MIME type stands for plain text: one of the three legacy X11 names,
/// or anything in the `text/` family.
pub open spec fn is_text_spec(mime_type: Seq<char>) -> bool {
    ||| mime_type == "TEXT"@
    ||| mime_type == "STRING"@
    ||| mime_type == "UTF8_STRING"@
    ||| (mime_type.len() >= 5 && mime_type.subrange(0, 5) == text_prefix())
}

/// Whether `s` begins with `text/`.
fn has_text_prefix(s: &str) -> (r: bool)
    ensures
        r == (s@.len() >= 5 && s@.subrange(0, 5) == text_prefix()),
{
    if s.unicode_len() < 5 {
        return false;
    }
    let r = s.get_char(0) == 't' && s.get_char(1) == 'e' && s.get_char(2) == 'x' && s.get_char(3)
        == 't' && s.get_char(4) == '/';
    assert(r == (s@.subrange(0, 5) =~= text_prefix()));
    r
}

/// Checks if the given MIME type represents plain text.
pub fn is_text(mime_type: &str) -> (r: bool)
    ensures
        r == is_text_spec(mime_type@),
{
    same_text(mime_type, "TEXT") || same_text(mime_type, "STRING") || same_text(
        mime_type,
        "UTF8_STRING",
    ) || has_text_prefix(mime_type)
}

/// Errors that can occur when checking whether the primary selection is supported.
#[derive(Copy, Clone, Eq, PartialEq, Debug, Structural)]
pub enum PrimarySelectionCheckError {
    /// There are no seats.
    NoSeats,
    /// Couldn't open the provided Wayland socket.
    SocketOpenError,
    /// Couldn't connect to the Wayland compositor.
    WaylandConnection,
    /// Wayland compositor communication error.
    WaylandCommunication,
    /// A required Wayland protocol (ext-data-control, or wlr-data-control version 1) is not
    /// supported by the compositor.
    MissingProtocol,
}

/// What the check for the primary selection has learned so far.
#[derive(Copy, Clone, Eq, PartialEq, Debug, Structural)]
pub struct PrimarySelectionState {
    /// Any seat that the compositor announced, by the numeric name of its global.
    pub seat: Option<u32>,
    /// The clipboard manager that was bound, if any.
    pub clipboard_manager: Option<Manager>,
    /// Whether `wlr-data-control` was seen at version 1, which knows no primary selection.
    pub saw_zwlr_v1: bool,
    /// Whether a device reported a primary selection.
    pub got_primary_selection: bool,
}

/// What to bind in answer to a global.
#[derive(Copy, Clone, Eq, PartialEq, Debug, Structural)]
pub struct Bindings {
    /// Bind the global as a seat, at version 2.
    pub seat: bool,
    /// Bind the global as this clipboard manager: `wlr` at version 2, `ext` at version 1.
    pub manager: Option<Manager>,
}

impl PrimarySelectionState {
    /// Whether a global is taken as the seat: the first usable seat is.
    pub open spec fn takes_seat(&self, interface: Seq<char>, version: u32) -> bool {
        interface == seat_interface() && version >= MIN_SEAT_VERSION && self.seat is None
    }

    /// The clipboard manager that a global is bound as, if it is bound as one:
    /// the first `ext` manager, or the first `wlr` manager above version 1.
    pub open spec fn takes_manager(&self, name: u32, interface: Seq<char>, version: u32) -> Option<
        Manager,
    > {
        if self.clipboard_manager is Some {
            None
        } else if interface == zwlr_interface() && version != 1 {
            Some(Manager::Zwlr(name))
        } else if interface == ext_interface() {
            Some(Manager::Ext(name))
        } else {
            None
        }
    }

    /// The state after a global was announced.
    pub open spec fn after_global(
        &self,
        name: u32,
        interface: Seq<char>,
        version: u32,
    ) -> PrimarySelectionState {
        PrimarySelectionState {
            seat: if self.takes_seat(interface, version) {
                Some(name)
            } else {
                self.seat
            },
            clipboard_manager: match self.takes_manager(name, interface, version) {
                Some(m) => Some(m),
                None => self.clipboard_manager,
            },
            saw_zwlr_v1: self.saw_zwlr_v1 || (self.clipboard_manager is None && interface
                == zwlr_interface() && version == 1),
            got_primary_selection: self.got_primary_selection,
        }
    }

    /// The state before anything was announced.
    pub fn new() -> (r: Self)
        ensures
            r.seat is None,
            r.clipboard_manager is None,
            !r.saw_zwlr_v1,
            !r.got_primary_selection,
    {
        PrimarySelectionState {
            seat: None,
            clipboard_manager: None,
            saw_zwlr_v1: false,
            got_primary_selection: false,
        }
    }

    /// Handles the announcement of a global, and says what to bind.
    pub fn global(&mut self, name: u32, interface: &str, version: u32) -> (bound: Bindings)
        ensures
            *final(self) == old(self).after_global(name, interface@, version),
            bound.seat == old(self).takes_seat(interface@, version),
            bound.manager == old(self).takes_manager(name, interface@, version),
    {
        proof {
            reveal_strlit("zwlr_data_control_manager_v1");
            reveal_strlit("ext_data_control_manager_v1");
            assert(zwlr_interface().len() == 28);
            assert(ext_interface().len() == 27);
        }
        let mut bound = Bindings { seat: false, manager: None };
        if same_text(interface, "wl_seat") && version >= MIN_SEAT_VERSION && self.seat.is_none() {
            self.seat = Some(name);
            bound.seat = true;
        }
        if self.clipboard_manager.is_none() {
            if same_text(interface, "zwlr_data_control_manager_v1") {
                if version == 1 {
                    self.saw_zwlr_v1 = true;
                } else {
                    self.clipboard_manager = Some(Manager::Zwlr(name));
                    bound.manager = Some(Manager::Zwlr(name));
                }
            } else if same_text(interface, "ext_data_control_manager_v1") {
                self.clipboard_manager = Some(Manager::Ext(name));
                bound.manager = Some(Manager::Ext(name));
            }
        }
        bound
    }

    /// Handles an event of the device that was created for the check.
    pub fn device_event(&mut self, event: DeviceEvent)
        ensures
            *final(self) == (PrimarySelectionState {
                got_primary_selection: old(self).got_primary_selection
                    || event is PrimarySelection,
                ..*old(self)
            }),
    {
        if let DeviceEvent::PrimarySelection { .. } = event {
            self.got_primary_selection = true;
        }
    }

    /// The clipboard manager and the seat to create a device with, for the
    /// second round trip: there is one where both were found.
    pub fn probe(&self) -> (r: Option<(Manager, u32)>)
        ensures
            r == match (self.clipboard_manager, self.seat) {
                (Some(m), Some(s)) => Some((m, s)),
                _ => None,
            },
    {
        match (self.clipboard_manager, self.seat) {
            (Some(m), Some(s)) => Some((m, s)),
            _ => None,
        }
    }
}

/// The verdict on the primary selection.
pub open spec fn primary_selection_verdict(state: PrimarySelectionState) -> Result<
    bool,
    PrimarySelectionCheckError,
> {
    if state.clipboard_manager is None && state.saw_zwlr_v1 {
        Ok(false)
    } else if state.clipboard_manager is None {
        Err(PrimarySelectionCheckError::MissingProtocol)
    } else if state.seat is None {
        Err(PrimarySelectionCheckError::NoSeats)
    } else {
        Ok(state.got_primary_selection)
    }
}

/// Checks if the compositor supports the primary selection, from what the
/// round trips brought.
///
/// `Ok(false)` means that a clipboard manager is present and did not signal the
/// primary selection, or that only `wlr-data-control` version 1 is present. Without
/// any clipboard manager the result is `MissingProtocol`; with one and no seat
/// it is `NoSeats`, as a seat is needed to tell.
pub fn is_primary_selection_supported(state: &PrimarySelectionState) -> (r: Result<
    bool,
    PrimarySelectionCheckError,
>)
    ensures
        r == primary_selection_verdict(*state),
{
    if state.clipboard_manager.is_none() && state.saw_zwlr_v1 {
        return Ok(false);
    }
    if state.clipboard_manager.is_none() {
        return Err(PrimarySelectionCheckError::MissingProtocol);
    }
    if state.seat.is_none() {
        return Err(PrimarySelectionCheckError::NoSeats);
    }
    Ok(state.got_primary_selection)
}

} // verus!
