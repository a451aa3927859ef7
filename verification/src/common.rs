//! What every operation starts with: the globals the compositor advertises, the
//! clipboard manager chosen among them, and the registry of seats.

use vstd::prelude::*;
use crate::data_control::Manager;
use crate::seat_data::SeatData;
use crate::search::{
    first_at, first_where, lemma_first_where_absent, lemma_first_where_found, same_text,
};

verus! {

/// One global, as the registry announces it.
#[derive(Clone, Debug)]
pub struct Global {
    /// The numeric name under which the global is bound.
    pub name: u32,
    /// The name of the interface it implements.
    pub interface: String,
    /// The highest version of the interface that the compositor offers.
    pub version: u32,
}

/// A seat that was bound, with what is known of it.
#[derive(Clone, Debug)]
pub struct SeatEntry {
    /// The numeric name of the seat's global.
    pub seat: u32,
    /// The seat's record.
    pub data: SeatData,
}

/// The state shared by every operation: the seats, in the order in which the
/// compositor announced them, and the clipboard manager.
#[derive(Clone, Debug)]
pub struct State {
    pub seats: Vec<SeatEntry>,
    pub clipboard_manager: Manager,
}

/// Errors of connecting to the compositor and binding its globals.
#[derive(Clone, Copy, Debug, PartialEq, Eq, Structural)]
pub enum Error {
    /// The socket that was named could not be opened.
    SocketOpenError,
    /// No connection to the compositor could be made.
    WaylandConnection,
    /// Talking to the compositor failed.
    WaylandCommunication,
    /// Neither `ext-data-control` nor `wlr-data-control` at the given version is there.
    MissingProtocol { version: u32 },
}

/// The interface name of a seat.
pub open spec fn seat_interface() -> Seq<char> {
    "wl_seat"@
}

/// The interface name of the `wlr` clipboard manager.
pub open spec fn zwlr_interface() -> Seq<char> {
    "zwlr_data_control_manager_v1"@
}

/// The interface name of the `ext` clipboard manager.
pub open spec fn ext_interface() -> Seq<char> {
    "ext_data_control_manager_v1"@
}

/// The lowest seat version that sends the events the engine depends on.
pub const MIN_SEAT_VERSION: u32 = 2;

/// The version of `wlr-data-control` that an operation needs: the primary
/// selection came with the second.
pub open spec fn zwlr_version(primary: bool) -> u32 {
    if primary {
        2
    } else {
        1
    }
}

/// The globals that implement `interface`.
pub open spec fn has_interface(interface: Seq<char>) -> spec_fn(Global) -> bool {
    |g: Global| g.interface@ == interface
}

/// The first global that implements `interface`, if it is offered at `version` or above.
pub open spec fn bindable(globals: Seq<Global>, interface: Seq<char>, version: u32) -> Option<
    u32,
> {
    match first_where(globals, has_interface(interface)) {
        Some(i) => if globals[i].version >= version {
            Some(globals[i].name)
        } else {
            None
        },
        None => None,
    }
}

/// The clipboard manager to use: `ext` when it is there, else `wlr` at the
/// version the operation needs.
pub open spec fn manager_for(globals: Seq<Global>, primary: bool) -> Option<Manager> {
    match bindable(globals, ext_interface(), 1) {
        Some(name) => Some(Manager::Ext(name)),
        None => match bindable(globals, zwlr_interface(), zwlr_version(primary)) {
            Some(name) => Some(Manager::Zwlr(name)),
            None => None,
        },
    }
}

/// Whether a global is a seat that the engine can work with.
pub open spec fn usable_seat(g: Global) -> bool {
    g.interface@ == seat_interface() && g.version >= MIN_SEAT_VERSION
}

/// The names of the usable seats among the globals, in their order.
pub open spec fn seat_names(globals: Seq<Global>) -> Seq<u32>
    decreases globals.len(),
{
    if globals.len() == 0 {
        Seq::empty()
    } else if usable_seat(globals.last()) {
        seat_names(globals.drop_last()).push(globals.last().name)
    } else {
        seat_names(globals.drop_last())
    }
}

/// The seats' numeric names, in order.
pub open spec fn seat_ids(seats: Seq<SeatEntry>) -> Seq<u32> {
    Seq::new(seats.len(), |i: int| seats[i].seat)
}

/// A record with every slot empty.
pub open spec fn blank(data: SeatData) -> bool {
    data.name is None && data.device is None && data.offer is None && data.primary_offer is None
}

/// The index of the seat with the given numeric name.
pub open spec fn is_seat(seat: u32) -> spec_fn(SeatEntry) -> bool {
    |e: SeatEntry| e.seat == seat
}

/// Whether the runtime directory can hold the socket: it has to be an absolute path.
pub fn runtime_dir_usable(dir: &str) -> (r: bool)
    ensures
        r == (dir@.len() > 0 && dir@[0] == '/'),
{
    dir.unicode_len() > 0 && dir.get_char(0) == '/'
}

/// Finds the first global of an interface and says whether it can be bound at `version`.
fn bind(globals: &Vec<Global>, interface: &str, version: u32) -> (r: Option<u32>)
    ensures
        r == bindable(globals@, interface@, version),
{
    let mut i: usize = 0;
    while i < globals.len()
        invariant
            i <= globals.len(),
            forall|j: int| 0 <= j < i ==> !has_interface(interface@)(#[trigger] globals@[j]),
        decreases globals.len() - i,
    {
        if same_text(globals[i].interface.as_str(), interface) {
            proof {
                assert(first_at(globals@, has_interface(interface@), i as int));
                lemma_first_where_found(globals@, has_interface(interface@), i as int);
            }
            if globals[i].version >= version {
                return Some(globals[i].name);
            } else {
                return None;
            }
        }
        i += 1;
    }
    proof {
        lemma_first_where_absent(globals@, has_interface(interface@));
    }
    None
}

/// Chooses the clipboard manager and the seats to bind among the globals that
/// one round trip brought.
///
/// Seats below version 2 are skipped. Without a clipboard manager at a
/// sufficient version the result is `MissingProtocol`, with the version of
/// `wlr-data-control` that was needed.
pub fn initialize(primary: bool, globals: &Vec<Global>) -> (r: Result<State, Error>)
    ensures
        match manager_for(globals@, primary) {
            Some(manager) => r matches Ok(state) && state.clipboard_manager == manager
                && seat_ids(state.seats@) == seat_names(globals@) && forall|i: int|
                0 <= i < state.seats@.len() ==> blank(#[trigger] state.seats@[i].data),
            None => r == Err::<State, Error>(
                Error::MissingProtocol { version: zwlr_version(primary) },
            ),
        },
{
    let wlr_v: u32 = if primary {
        2
    } else {
        1
    };
    let ext_manager = bind(globals, "ext_data_control_manager_v1", 1);
    let clipboard_manager = match ext_manager {
        Some(name) => Manager::Ext(name),
        None => match bind(globals, "zwlr_data_control_manager_v1", wlr_v) {
            Some(name) => Manager::Zwlr(name),
            None => {
                return Err(Error::MissingProtocol { version: wlr_v });
            },
        },
    };

    let mut seats: Vec<SeatEntry> = Vec::new();
    let mut i: usize = 0;
    while i < globals.len()
        invariant
            i <= globals.len(),
            seat_ids(seats@) == seat_names(globals@.take(i as int)),
            forall|k: int| 0 <= k < seats@.len() ==> blank(#[trigger] seats@[k].data),
        decreases globals.len() - i,
    {
        proof {
            assert(globals@.take(i + 1).drop_last() =~= globals@.take(i as int));
        }
        let ghost before = seats@;
        if same_text(globals[i].interface.as_str(), "wl_seat") && globals[i].version
            >= MIN_SEAT_VERSION {
            seats.push(SeatEntry { seat: globals[i].name, data: SeatData::default() });
            assert(seat_ids(seats@) =~= seat_ids(before).push(globals@[i as int].name));
        }
        i += 1;
    }
    proof {
        assert(globals@.take(globals@.len() as int) =~= globals@);
    }
    Ok(State { seats, clipboard_manager })
}

impl State {
    /// The position of a seat in the registry.
    pub fn find_seat(&self, seat: u32) -> (r: Option<usize>)
        ensures
            match r {
                Some(i) => first_where(self.seats@, is_seat(seat)) == Some(i as int),
                None => first_where(self.seats@, is_seat(seat)) is None,
            },
    {
        let mut i: usize = 0;
        while i < self.seats.len()
            invariant
                i <= self.seats.len(),
                forall|j: int| 0 <= j < i ==> !is_seat(seat)(#[trigger] self.seats@[j]),
            decreases self.seats.len() - i,
        {
            if self.seats[i].seat == seat {
                proof {
                    assert(first_at(self.seats@, is_seat(seat), i as int));
                    lemma_first_where_found(self.seats@, is_seat(seat), i as int);
                }
                return Some(i);
            }
            i += 1;
        }
        proof {
            lemma_first_where_absent(self.seats@, is_seat(seat));
        }
        None
    }

    /// Whether a seat is in the registry.
    pub open spec fn has_seat(&self, seat: u32) -> bool {
        first_where(self.seats@, is_seat(seat)) is Some
    }

    /// The position of a seat that is in the registry.
    pub open spec fn seat_index(&self, seat: u32) -> int {
        first_where(self.seats@, is_seat(seat)).unwrap()
    }

    /// Whether `self` is `before` with the record of `seat` replaced by `data`.
    pub open spec fn updated(&self, before: &State, seat: u32, data: SeatData) -> bool {
        &&& self.clipboard_manager == before.clipboard_manager
        &&& self.seats@ == before.seats@.update(
            before.seat_index(seat),
            SeatEntry { seat, data },
        )
    }

    /// Handles the `name` event of a seat.
    pub fn seat_name(&mut self, seat: u32, name: String)
        requires
            old(self).has_seat(seat),
        ensures
            final(self).updated(
                old(self),
                seat,
                SeatData { name: Some(name), ..old(self).seats@[old(self).seat_index(seat)].data },
            ),
    {
        let i = self.find_seat(seat).unwrap();
        proof {
            crate::search::lemma_first_where_is_first(self.seats@, is_seat(seat));
        }
        self.seats[i].data.set_name(name);
        assert(self.seats@ =~= old(self).seats@.update(
            old(self).seat_index(seat),
            SeatEntry {
                seat,
                data: SeatData { name: Some(name), ..old(self).seats@[old(self).seat_index(seat)].data },
            },
        ));
    }
}

} // verus!
