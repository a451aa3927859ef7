//! Getting the offered MIME types and the clipboard contents.

use vstd::prelude::*;
use vstd::std_specs::convert::FromSpecImpl;
use crate::common;
use crate::data_control::{DeviceEvent, Offer, Request};
use crate::seat_data::SeatData;
use crate::search::{
    clone_texts, first_at, first_text, first_where, has_key, is_key, lemma_first_where_absent,
    lemma_first_where_found, lemma_first_where_is_first, names_text, position, same_text, texts,
};

verus! {

/// The clipboard to operate on.
#[derive(Copy, Clone, Eq, PartialEq, Debug, Hash, Structural)]
pub enum ClipboardType {
    /// The regular clipboard.
    Regular,
    /// The "primary" clipboard.
    ///
    /// Working with the "primary" clipboard requires the compositor to support the data-control
    /// protocol of version 2 or above.
    Primary,
}

impl Default for ClipboardType {
    fn default() -> (r: Self)
        ensures
            r == ClipboardType::Regular,
    {
        ClipboardType::Regular
    }
}

/// MIME types that can be requested from the clipboard.
#[derive(Copy, Clone, Debug)]
pub enum MimeType<'a> {
    /// Request any available MIME type.
    ///
    /// Plain text formats are prioritized: if one is available among others, it is requested.
    /// Otherwise the first MIME type that was offered is.
    Any,
    /// Request a plain text MIME type.
    ///
    /// This will request one of the multiple common plain text MIME types. It will prioritize MIME
    /// types known to return UTF-8 text.
    Text,
    /// Request the given MIME type, and if it's not available fall back to `MimeType::Text`.
    ///
    /// Example use-case: pasting `text/html` should try `text/html` first, but if it's not
    /// available, any other plain text format will do fine too.
    TextWithPriority(&'a str),
    /// Request a specific MIME type.
    Specific(&'a str),
}

/// Seat to operate on.
#[derive(Copy, Clone, Debug)]
pub enum Seat<'a> {
    /// Operate on the first of the existing seats, in the order returned by the compositor.
    ///
    /// This is perfectly fine when only a single seat is present, so for most configurations.
    Unspecified,
    /// Operate on a seat with the given name.
    Specific(&'a str),
}

impl<'a> Default for Seat<'a> {
    fn default() -> (r: Self)
        ensures
            r is Unspecified,
    {
        Seat::Unspecified
    }
}

/// Errors that can occur for pasting and listing MIME types.
///
/// You may want to ignore some of these errors (rather than show an error message), like
/// `NoSeats`, `ClipboardEmpty` or `NoMimeType` as they are essentially equivalent to an empty
/// clipboard.
#[derive(Copy, Clone, Debug)]
pub enum Error {
    /// There are no seats.
    NoSeats,
    /// The clipboard of the requested seat is empty.
    ClipboardEmpty,
    /// No suitable type of content copied.
    NoMimeType,
    /// Couldn't open the provided Wayland socket.
    SocketOpenError,
    /// Couldn't connect to the Wayland compositor.
    WaylandConnection,
    /// Wayland compositor communication error.
    WaylandCommunication,
    /// A required Wayland protocol is not supported by the compositor.
    MissingProtocol { name: &'static str, version: u32 },
    /// The compositor does not support primary selection.
    PrimarySelectionUnsupported,
    /// The requested seat was not found.
    SeatNotFound,
    /// Couldn't create a pipe for content transfer.
    PipeCreation,
}

/// The paste error that stands for an error of the bootstrap.
pub open spec fn from_common(x: common::Error) -> Error {
    match x {
        common::Error::SocketOpenError => Error::SocketOpenError,
        common::Error::WaylandConnection => Error::WaylandConnection,
        common::Error::WaylandCommunication => Error::WaylandCommunication,
        common::Error::MissingProtocol { version } => Error::MissingProtocol {
            name: "zwlr_data_control_manager_v1",
            version,
        },
    }
}

impl From<common::Error> for Error {
    fn from(x: common::Error) -> (r: Self) {
        match x {
            common::Error::SocketOpenError => Error::SocketOpenError,
            common::Error::WaylandConnection => Error::WaylandConnection,
            common::Error::WaylandCommunication => Error::WaylandCommunication,
            common::Error::MissingProtocol { version } => Error::MissingProtocol {
                name: "zwlr_data_control_manager_v1",
                version,
            },
        }
    }
}

impl FromSpecImpl<common::Error> for Error {
    open spec fn obeys_from_spec() -> bool {
        true
    }

    open spec fn from_spec(x: common::Error) -> Self {
        from_common(x)
    }
}

/// An offer that the compositor introduced, with the MIME types it has advertised so far.
#[derive(Clone, Debug)]
pub struct OfferEntry {
    pub offer: Offer,
    pub mime_types: Vec<String>,
}

/// The state of a paste: the seats, and every offer that was introduced.
#[derive(Clone, Debug)]
pub struct State {
    pub common: common::State,
    /// The offers, each with the MIME types advertised for it. No offer is listed
    /// twice, and no MIME type twice for one offer.
    pub offers: Vec<OfferEntry>,
    pub got_primary_selection: bool,
}

/// The entries of one offer.
pub open spec fn is_offer(offer: Offer) -> spec_fn(OfferEntry) -> bool {
    |e: OfferEntry| e.offer == offer
}

/// The MIME types advertised for an offer, if the offer was introduced.
pub open spec fn mime_types_of(offers: Seq<OfferEntry>, offer: Offer) -> Option<Seq<Seq<char>>> {
    match first_where(offers, is_offer(offer)) {
        Some(i) => Some(texts(offers[i].mime_types@)),
        None => None,
    }
}

/// The seats with the given name.
pub open spec fn is_named(name: Seq<char>) -> spec_fn(common::SeatEntry) -> bool {
    |e: common::SeatEntry| e.data.name matches Some(n) && n@ == name
}

/// The seat that a selector picks: the first seat, or the first of the given name.
pub open spec fn chosen_seat(seat: Seat, seats: Seq<common::SeatEntry>) -> Option<int> {
    match seat {
        Seat::Unspecified => if seats.len() > 0 {
            Some(0int)
        } else {
            None
        },
        Seat::Specific(name) => first_where(seats, is_named(name@)),
    }
}

/// The offer that a paste reads, or why there is none.
pub open spec fn get_offer_spec(primary: bool, seat: Seat, state: State) -> Result<Offer, Error> {
    if state.common.seats@.len() == 0 {
        Err(Error::NoSeats)
    } else if primary && !state.got_primary_selection {
        Err(Error::PrimarySelectionUnsupported)
    } else {
        match chosen_seat(seat, state.common.seats@) {
            None => Err(Error::SeatNotFound),
            Some(i) => {
                let data = state.common.seats@[i].data;
                let slot = if primary {
                    data.primary_offer
                } else {
                    data.offer
                };
                match slot {
                    Some(offer) => Ok(offer),
                    None => Err(Error::ClipboardEmpty),
                }
            },
        }
    }
}

/// The best plain-text MIME type among those offered: the two known to carry
/// UTF-8 first, then the first that names plain text.
pub open spec fn select_text(offered: Seq<Seq<char>>) -> Option<Seq<char>> {
    if has_key(offered, "text/plain;charset=utf-8"@) {
        Some("text/plain;charset=utf-8"@)
    } else if has_key(offered, "UTF8_STRING"@) {
        Some("UTF8_STRING"@)
    } else {
        match first_where(offered, names_text()) {
            Some(i) => Some(offered[i]),
            None => None,
        }
    }
}

/// The MIME type that a policy picks among those offered.
pub open spec fn select_spec(mime_type: MimeType, offered: Seq<Seq<char>>) -> Option<Seq<char>> {
    match mime_type {
        MimeType::Any => match select_text(offered) {
            Some(m) => Some(m),
            None => if offered.len() > 0 {
                Some(offered[0])
            } else {
                None
            },
        },
        MimeType::Text => select_text(offered),
        MimeType::TextWithPriority(priority) => if has_key(offered, priority@) {
            Some(priority@)
        } else {
            select_text(offered)
        },
        MimeType::Specific(wanted) => if has_key(offered, wanted@) {
            Some(wanted@)
        } else {
            None
        },
    }
}

/// The MIME types that listing finds, or why it finds none.
pub open spec fn get_mime_types_spec(clipboard: ClipboardType, seat: Seat, state: State) -> Result<
    Seq<Seq<char>>,
    Error,
> {
    match get_offer_spec(clipboard == ClipboardType::Primary, seat, state) {
        Ok(offer) => Ok(mime_types_of(state.offers@, offer).unwrap()),
        Err(e) => Err(e),
    }
}

/// The offer to receive from and the MIME type to ask for, or why nothing can
/// be retrieved.
pub open spec fn get_contents_spec(
    clipboard: ClipboardType,
    seat: Seat,
    mime_type: MimeType,
    state: State,
) -> Result<(Offer, Seq<char>), Error> {
    match get_offer_spec(clipboard == ClipboardType::Primary, seat, state) {
        Ok(offer) => match select_spec(mime_type, mime_types_of(state.offers@, offer).unwrap()) {
            Some(m) => Ok((offer, m)),
            None => Err(Error::NoMimeType),
        },
        Err(e) => Err(e),
    }
}

/// Picks the best plain-text MIME type among those offered.
fn pick_text(offered: &Vec<String>) -> (r: Option<String>)
    ensures
        match select_text(texts(offered@)) {
            Some(m) => r matches Some(s) && s@ == m,
            None => r is None,
        },
{
    proof {
        lemma_first_where_is_first(texts(offered@), is_key("text/plain;charset=utf-8"@));
        lemma_first_where_is_first(texts(offered@), is_key("UTF8_STRING"@));
    }
    if let Some(i) = position(offered, "text/plain;charset=utf-8") {
        return Some(offered[i].clone());
    }
    if let Some(i) = position(offered, "UTF8_STRING") {
        return Some(offered[i].clone());
    }
    match first_text(offered) {
        Some(i) => Some(offered[i].clone()),
        None => None,
    }
}

/// Applies a MIME type policy to the MIME types of an offer.
pub fn select_mime_type(mime_type: MimeType<'_>, offered: &Vec<String>) -> (r: Option<String>)
    ensures
        match select_spec(mime_type, texts(offered@)) {
            Some(m) => r matches Some(s) && s@ == m,
            None => r is None,
        },
{
    match mime_type {
        MimeType::Any => match pick_text(offered) {
            Some(m) => Some(m),
            None => if offered.len() > 0 {
                Some(offered[0].clone())
            } else {
                None
            },
        },
        MimeType::Text => pick_text(offered),
        MimeType::TextWithPriority(priority) => {
            proof {
                lemma_first_where_is_first(texts(offered@), is_key(priority@));
            }
            match position(offered, priority) {
                Some(i) => Some(offered[i].clone()),
                None => pick_text(offered),
            }
        },
        MimeType::Specific(wanted) => {
            proof {
                lemma_first_where_is_first(texts(offered@), is_key(wanted@));
            }
            match position(offered, wanted) {
                Some(i) => Some(offered[i].clone()),
                None => None,
            }
        },
    }
}

impl State {
    /// The state before any event: no offer has been introduced.
    pub fn new(common: common::State) -> (r: Self)
        ensures
            r.common == common,
            r.offers@.len() == 0,
            !r.got_primary_selection,
    {
        State { common, offers: Vec::new(), got_primary_selection: false }
    }

    /// The position of an offer among those introduced.
    pub fn find_offer(&self, offer: Offer) -> (r: Option<usize>)
        ensures
            match r {
                Some(i) => first_where(self.offers@, is_offer(offer)) == Some(i as int),
                None => first_where(self.offers@, is_offer(offer)) is None,
            },
    {
        let mut i: usize = 0;
        while i < self.offers.len()
            invariant
                i <= self.offers.len(),
                forall|j: int| 0 <= j < i ==> !is_offer(offer)(#[trigger] self.offers@[j]),
            decreases self.offers.len() - i,
        {
            if self.offers[i].offer == offer {
                proof {
                    assert(first_at(self.offers@, is_offer(offer), i as int));
                    lemma_first_where_found(self.offers@, is_offer(offer), i as int);
                }
                return Some(i);
            }
            i += 1;
        }
        proof {
            lemma_first_where_absent(self.offers@, is_offer(offer));
        }
        None
    }

    /// Handles an event of the device of `seat`, and hands back the request that
    /// destroys what the event replaced, if anything.
    ///
    /// A new offer starts with no MIME types. A selection event puts its offer in
    /// the seat's slot; a primary selection event also records that the compositor
    /// supports the primary selection. `finished` empties the seat's device slot.
    pub fn device_event(&mut self, seat: u32, event: DeviceEvent) -> (destroy: Option<Request>)
        requires
            !(event is DataOffer) ==> old(self).common.has_seat(seat),
        ensures
            match event {
                DeviceEvent::DataOffer { id } => {
                    &&& destroy is None
                    &&& final(self).common == old(self).common
                    &&& final(self).got_primary_selection == old(self).got_primary_selection
                    &&& mime_types_of(final(self).offers@, id) == Some(Seq::<Seq<char>>::empty())
                    &&& forall|other: Offer|
                        other != id ==> mime_types_of(final(self).offers@, other) == mime_types_of(
                            old(self).offers@,
                            other,
                        )
                },
                DeviceEvent::Selection { id } => {
                    let data = old(self).common.seats@[old(self).common.seat_index(seat)].data;
                    &&& final(self).common.updated(
                        &old(self).common,
                        seat,
                        SeatData { offer: id, ..data },
                    )
                    &&& final(self).offers == old(self).offers
                    &&& final(self).got_primary_selection == old(self).got_primary_selection
                    &&& destroy == match data.offer {
                        Some(o) => Some(Request::DestroyOffer(o)),
                        None => None,
                    }
                },
                DeviceEvent::Finished => {
                    let data = old(self).common.seats@[old(self).common.seat_index(seat)].data;
                    &&& final(self).common.updated(
                        &old(self).common,
                        seat,
                        SeatData { device: None, ..data },
                    )
                    &&& final(self).offers == old(self).offers
                    &&& final(self).got_primary_selection == old(self).got_primary_selection
                    &&& destroy == match data.device {
                        Some(d) => Some(Request::DestroyDevice(d)),
                        None => None,
                    }
                },
                DeviceEvent::PrimarySelection { id } => {
                    let data = old(self).common.seats@[old(self).common.seat_index(seat)].data;
                    &&& final(self).common.updated(
                        &old(self).common,
                        seat,
                        SeatData { primary_offer: id, ..data },
                    )
                    &&& final(self).offers == old(self).offers
                    &&& final(self).got_primary_selection
                    &&& destroy == match data.primary_offer {
                        Some(o) => Some(Request::DestroyOffer(o)),
                        None => None,
                    }
                },
            },
    {
        match event {
            DeviceEvent::DataOffer { id } => {
                match self.find_offer(id) {
                    Some(i) => {
                        self.offers[i].mime_types = Vec::new();
                        proof {
                            lemma_first_where_is_first(old(self).offers@, is_offer(id));
                            assert(first_at(self.offers@, is_offer(id), i as int));
                            lemma_first_where_found(self.offers@, is_offer(id), i as int);
                            assert(texts(self.offers@[i as int].mime_types@) =~= Seq::<
                                Seq<char>,
                            >::empty());
                            assert forall|other: Offer| other != id implies mime_types_of(
                                self.offers@,
                                other,
                            ) == mime_types_of(old(self).offers@, other) by {
                                lemma_same_offers(old(self).offers@, self.offers@, other);
                            }
                        }
                    },
                    None => {
                        self.offers.push(OfferEntry { offer: id, mime_types: Vec::new() });
                        proof {
                            let n = old(self).offers@.len() as int;
                            lemma_first_where_is_first(old(self).offers@, is_offer(id));
                            assert(first_at(self.offers@, is_offer(id), n));
                            lemma_first_where_found(self.offers@, is_offer(id), n);
                            assert(texts(self.offers@[n].mime_types@) =~= Seq::<
                                Seq<char>,
                            >::empty());
                            assert forall|other: Offer| other != id implies mime_types_of(
                                self.offers@,
                                other,
                            ) == mime_types_of(old(self).offers@, other) by {
                                lemma_offer_pushed(old(self).offers@, self.offers@, other);
                            }
                        }
                    },
                }
                None
            },
            DeviceEvent::Selection { id } => {
                let i = self.common.find_seat(seat).unwrap();
                proof {
                    lemma_first_where_is_first(self.common.seats@, common::is_seat(seat));
                }
                let replaced = self.common.seats[i].data.set_offer(id);
                assert(self.common.seats@ =~= old(self).common.seats@.update(
                    i as int,
                    common::SeatEntry {
                        seat,
                        data: SeatData { offer: id, ..old(self).common.seats@[i as int].data },
                    },
                ));
                match replaced {
                    Some(o) => Some(o.destroy()),
                    None => None,
                }
            },
            DeviceEvent::Finished => {
                let i = self.common.find_seat(seat).unwrap();
                proof {
                    lemma_first_where_is_first(self.common.seats@, common::is_seat(seat));
                }
                let replaced = self.common.seats[i].data.set_device(None);
                assert(self.common.seats@ =~= old(self).common.seats@.update(
                    i as int,
                    common::SeatEntry {
                        seat,
                        data: SeatData { device: None, ..old(self).common.seats@[i as int].data },
                    },
                ));
                match replaced {
                    Some(d) => Some(d.destroy()),
                    None => None,
                }
            },
            DeviceEvent::PrimarySelection { id } => {
                self.got_primary_selection = true;
                let i = self.common.find_seat(seat).unwrap();
                proof {
                    lemma_first_where_is_first(self.common.seats@, common::is_seat(seat));
                }
                let replaced = self.common.seats[i].data.set_primary_offer(id);
                assert(self.common.seats@ =~= old(self).common.seats@.update(
                    i as int,
                    common::SeatEntry {
                        seat,
                        data: SeatData {
                            primary_offer: id,
                            ..old(self).common.seats@[i as int].data
                        },
                    },
                ));
                match replaced {
                    Some(o) => Some(o.destroy()),
                    None => None,
                }
            },
        }
    }

    /// Handles the `offer` event of an offer: one more MIME type is advertised.
    /// A MIME type that was advertised before is not listed again.
    pub fn offer_event(&mut self, offer: Offer, mime_type: String)
        requires
            mime_types_of(old(self).offers@, offer) is Some,
        ensures
            final(self).common == old(self).common,
            final(self).got_primary_selection == old(self).got_primary_selection,
            mime_types_of(final(self).offers@, offer) == Some(
                if has_key(mime_types_of(old(self).offers@, offer).unwrap(), mime_type@) {
                    mime_types_of(old(self).offers@, offer).unwrap()
                } else {
                    mime_types_of(old(self).offers@, offer).unwrap().push(mime_type@)
                },
            ),
            forall|other: Offer|
                other != offer ==> mime_types_of(final(self).offers@, other) == mime_types_of(
                    old(self).offers@,
                    other,
                ),
    {
        let i = self.find_offer(offer).unwrap();
        proof {
            lemma_first_where_is_first(self.offers@, is_offer(offer));
        }
        if position(&self.offers[i].mime_types, mime_type.as_str()).is_none() {
            let ghost before = self.offers@[i as int].mime_types@;
            self.offers[i].mime_types.push(mime_type);
            proof {
                assert(first_at(self.offers@, is_offer(offer), i as int));
                lemma_first_where_found(self.offers@, is_offer(offer), i as int);
                assert(texts(self.offers@[i as int].mime_types@) =~= texts(before).push(
                    mime_type@,
                ));
                assert forall|other: Offer| other != offer implies mime_types_of(
                    self.offers@,
                    other,
                ) == mime_types_of(old(self).offers@, other) by {
                    lemma_same_offers(old(self).offers@, self.offers@, other);
                }
            }
        }
    }
}

/// Two lists that agree on which offer stands where, and on the MIME types of
/// `other`, list the same MIME types for `other`.
proof fn lemma_same_offers(a: Seq<OfferEntry>, b: Seq<OfferEntry>, other: Offer)
    requires
        a.len() == b.len(),
        forall|j: int| 0 <= j < a.len() ==> a[j].offer == b[j].offer,
        forall|j: int| 0 <= j < a.len() && a[j].offer == other ==> a[j] == b[j],
    ensures
        mime_types_of(a, other) == mime_types_of(b, other),
{
    lemma_first_where_is_first(a, is_offer(other));
    match first_where(a, is_offer(other)) {
        Some(i) => {
            assert(first_at(b, is_offer(other), i)) by {
                assert forall|j: int| 0 <= j < i implies !is_offer(other)(#[trigger] b[j]) by {
                    assert(!is_offer(other)(a[j]));
                }
            }
            lemma_first_where_found(b, is_offer(other), i);
        },
        None => {
            assert forall|j: int| 0 <= j < b.len() implies !is_offer(other)(#[trigger] b[j]) by {
                assert(!is_offer(other)(a[j]));
            }
            lemma_first_where_absent(b, is_offer(other));
        },
    }
}

/// An entry added at the end changes nothing for the other offers.
proof fn lemma_offer_pushed(a: Seq<OfferEntry>, b: Seq<OfferEntry>, other: Offer)
    requires
        b.len() == a.len() + 1,
        forall|j: int| 0 <= j < a.len() ==> a[j] == b[j],
        b[a.len() as int].offer != other,
    ensures
        mime_types_of(a, other) == mime_types_of(b, other),
{
    lemma_first_where_is_first(a, is_offer(other));
    match first_where(a, is_offer(other)) {
        Some(i) => {
            assert(first_at(b, is_offer(other), i)) by {
                assert forall|j: int| 0 <= j < i implies !is_offer(other)(#[trigger] b[j]) by {
                    assert(!is_offer(other)(a[j]));
                }
            }
            lemma_first_where_found(b, is_offer(other), i);
        },
        None => {
            assert forall|j: int| 0 <= j < b.len() implies !is_offer(other)(#[trigger] b[j]) by {
                if j < a.len() {
                    assert(!is_offer(other)(a[j]));
                }
            }
            lemma_first_where_absent(b, is_offer(other));
        },
    }
}

/// The position of the seat that a selector picks.
fn choose_seat(seat: Seat<'_>, seats: &Vec<common::SeatEntry>) -> (r: Option<usize>)
    ensures
        match r {
            Some(i) => chosen_seat(seat, seats@) == Some(i as int) && i < seats@.len(),
            None => chosen_seat(seat, seats@) is None,
        },
{
    match seat {
        Seat::Unspecified => if seats.len() > 0 {
            Some(0)
        } else {
            None
        },
        Seat::Specific(name) => {
            let mut i: usize = 0;
            while i < seats.len()
                invariant
                    seat == Seat::Specific(name),
                    i <= seats.len(),
                    forall|j: int| 0 <= j < i ==> !is_named(name@)(#[trigger] seats@[j]),
                decreases seats.len() - i,
            {
                let found = match &seats[i].data.name {
                    Some(n) => same_text(n.as_str(), name),
                    None => false,
                };
                if found {
                    proof {
                        assert(first_at(seats@, is_named(name@), i as int));
                        lemma_first_where_found(seats@, is_named(name@), i as int);
                    }
                    return Some(i);
                }
                i += 1;
            }
            proof {
                lemma_first_where_absent(seats@, is_named(name@));
            }
            None
        },
    }
}

/// Finds the offer to paste from, once the round trip that follows the creation
/// of the devices has been handled.
///
/// Fails with `NoSeats` without a seat, with `PrimarySelectionUnsupported` where
/// the primary selection is wanted and no device reported one, with
/// `SeatNotFound` where no seat has the name asked for, and with
/// `ClipboardEmpty` where the seat's slot holds no offer.
pub fn get_offer(primary: bool, seat: Seat<'_>, state: &State) -> (r: Result<Offer, Error>)
    ensures
        r == get_offer_spec(primary, seat, *state),
{
    if state.common.seats.len() == 0 {
        return Err(Error::NoSeats);
    }
    if primary && !state.got_primary_selection {
        return Err(Error::PrimarySelectionUnsupported);
    }
    let i = match choose_seat(seat, &state.common.seats) {
        Some(i) => i,
        None => {
            return Err(Error::SeatNotFound);
        },
    };
    let data = &state.common.seats[i].data;
    let offer = if primary {
        data.primary_offer
    } else {
        data.offer
    };
    match offer {
        Some(offer) => Ok(offer),
        None => Err(Error::ClipboardEmpty),
    }
}

/// Retrieves the offered MIME types, in the order in which they were advertised.
///
/// The offer that the seat holds has to be one that the compositor introduced.
pub fn get_mime_types(clipboard: ClipboardType, seat: Seat<'_>, state: &State) -> (r: Result<
    Vec<String>,
    Error,
>)
    requires
        get_offer_spec(clipboard == ClipboardType::Primary, seat, *state) matches Ok(offer)
            ==> mime_types_of(state.offers@, offer) is Some,
    ensures
        match get_mime_types_spec(clipboard, seat, *state) {
            Ok(mime_types) => r matches Ok(list) && texts(list@) == mime_types,
            Err(e) => r matches Err(f) && f == e,
        },
{
    let primary = clipboard == ClipboardType::Primary;
    let offer = match get_offer(primary, seat, state) {
        Ok(offer) => offer,
        Err(e) => {
            return Err(e);
        },
    };
    let i = state.find_offer(offer).unwrap();
    Ok(clone_texts(&state.offers[i].mime_types))
}

/// Picks what to retrieve: the offer to send `receive` to, and the MIME type to ask for.
///
/// The caller opens the pipe, sends the request, drops its write end and makes one
/// more round trip before it reads.
/// Fails as [`get_offer`] does, and with `NoMimeType` where the policy finds
/// nothing among the MIME types of the offer.
pub fn get_contents(
    clipboard: ClipboardType,
    seat: Seat<'_>,
    mime_type: MimeType<'_>,
    state: &State,
) -> (r: Result<(Offer, String), Error>)
    requires
        get_offer_spec(clipboard == ClipboardType::Primary, seat, *state) matches Ok(offer)
            ==> mime_types_of(state.offers@, offer) is Some,
    ensures
        match get_contents_spec(clipboard, seat, mime_type, *state) {
            Ok((offer, m)) => r matches Ok((o, s)) && o == offer && s@ == m,
            Err(e) => r matches Err(f) && f == e,
        },
{
    let primary = clipboard == ClipboardType::Primary;
    let offer = match get_offer(primary, seat, state) {
        Ok(offer) => offer,
        Err(e) => {
            return Err(e);
        },
    };
    let i = state.find_offer(offer).unwrap();
    match select_mime_type(mime_type, &state.offers[i].mime_types) {
        Some(m) => Ok((offer, m)),
        None => Err(Error::NoMimeType),
    }
}

} // verus!
