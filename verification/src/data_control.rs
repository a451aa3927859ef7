//! One interface over the two data-control protocol families.
//!
//! Every protocol object is known here by its numeric object id, tagged with the
//! family it belongs to. What the engine wants sent to the compositor is a
//! [`Request`] value; the caller performs it.

use vstd::prelude::*;

verus! {

/// The clipboard manager global that was bound, by the numeric name of the global.
#[derive(Clone, Copy, Debug, PartialEq, Eq, Hash, Structural)]
pub enum Manager {
    Zwlr(u32),
    Ext(u32),
}

/// The per-seat clipboard-control channel.
#[derive(Clone, Copy, Debug, PartialEq, Eq, Hash, Structural)]
pub enum Device {
    Zwlr(u32),
    Ext(u32),
}

/// The bytes this process is currently offering.
#[derive(Clone, Copy, Debug, PartialEq, Eq, Hash, Structural)]
pub enum Source {
    Zwlr(u32),
    Ext(u32),
}

/// What some client currently has in the clipboard.
#[derive(Clone, Copy, Debug, PartialEq, Eq, Hash, Structural)]
pub enum Offer {
    Zwlr(u32),
    Ext(u32),
}

/// A request for the compositor, to be sent by the caller.
#[derive(Clone, Debug)]
#[allow(inconsistent_fields)]
pub enum Request {
    /// `set_selection` on a device, with a source or with none.
    SetSelection { device: Device, source: Option<Source> },
    /// `set_primary_selection` on a device, with a source or with none.
    SetPrimarySelection { device: Device, source: Option<Source> },
    /// `offer` on a source: advertise one more MIME type.
    Offer { source: Source, mime_type: String },
    /// `receive` on an offer: ask for the contents under a MIME type.
    Receive { offer: Offer, mime_type: String },
    /// `destroy` on a device.
    DestroyDevice(Device),
    /// `destroy` on a source.
    DestroySource(Source),
    /// `destroy` on an offer.
    DestroyOffer(Offer),
}

/// What a device reports.
#[derive(Copy, Clone, Debug)]
#[allow(inconsistent_fields)]
pub enum DeviceEvent {
    /// A new offer was introduced; its MIME types follow.
    DataOffer { id: Offer },
    /// The regular selection changed to the given offer, or became empty.
    Selection { id: Option<Offer> },
    /// The device is no longer valid.
    Finished,
    /// The primary selection changed to the given offer, or became empty.
    PrimarySelection { id: Option<Offer> },
}

/// Whether a source belongs to the same protocol family as a device.
pub open spec fn same_family(device: Device, source: Source) -> bool {
    (device is Zwlr) == (source is Zwlr)
}

impl Manager {
    /// The version to bind the manager's global at: `ext` has one version, `wlr`
    /// is bound at the version the operation needs.
    pub fn bind_version(&self, primary: bool) -> (version: u32)
        ensures
            version == match *self {
                Manager::Zwlr(_) => if primary {
                    2u32
                } else {
                    1u32
                },
                Manager::Ext(_) => 1u32,
            },
    {
        match self {
            Manager::Zwlr(_) => if primary {
                2
            } else {
                1
            },
            Manager::Ext(_) => 1,
        }
    }

    /// The device that this manager hands out for a seat, once the caller has
    /// created it under the object id `id`.
    pub fn get_data_device(&self, id: u32) -> (device: Device)
        ensures
            device == (match *self {
                Manager::Zwlr(_) => Device::Zwlr(id),
                Manager::Ext(_) => Device::Ext(id),
            }),
    {
        match self {
            Manager::Zwlr(_) => Device::Zwlr(id),
            Manager::Ext(_) => Device::Ext(id),
        }
    }

    /// The source that this manager creates, once the caller has created it
    /// under the object id `id`.
    pub fn create_data_source(&self, id: u32) -> (source: Source)
        ensures
            source == (match *self {
                Manager::Zwlr(_) => Source::Zwlr(id),
                Manager::Ext(_) => Source::Ext(id),
            }),
    {
        match self {
            Manager::Zwlr(_) => Source::Zwlr(id),
            Manager::Ext(_) => Source::Ext(id),
        }
    }
}

impl Device {
    /// The request that destroys this device.
    pub fn destroy(&self) -> (request: Request)
        ensures
            request == Request::DestroyDevice(*self),
    {
        Request::DestroyDevice(*self)
    }

    /// The request that sets or clears the regular selection.
    ///
    /// A source must be of this device's protocol family.
    pub fn set_selection(&self, source: Option<&Source>) -> (request: Request)
        requires
            source matches Some(s) ==> same_family(*self, *s),
        ensures
            request == (Request::SetSelection {
                device: *self,
                source: match source {
                    Some(s) => Some(*s),
                    None => None,
                },
            }),
    {
        let source = match source {
            Some(s) => Some(*s),
            None => None,
        };
        Request::SetSelection { device: *self, source }
    }

    /// The request that sets or clears the primary selection.
    ///
    /// A source must be of this device's protocol family.
    pub fn set_primary_selection(&self, source: Option<&Source>) -> (request: Request)
        requires
            source matches Some(s) ==> same_family(*self, *s),
        ensures
            request == (Request::SetPrimarySelection {
                device: *self,
                source: match source {
                    Some(s) => Some(*s),
                    None => None,
                },
            }),
    {
        let source = match source {
            Some(s) => Some(*s),
            None => None,
        };
        Request::SetPrimarySelection { device: *self, source }
    }
}

impl Source {
    /// The request that destroys this source.
    pub fn destroy(&self) -> (request: Request)
        ensures
            request == Request::DestroySource(*self),
    {
        Request::DestroySource(*self)
    }

    /// The request that advertises one more MIME type on this source.
    pub fn offer(&self, mime_type: String) -> (request: Request)
        ensures
            request == (Request::Offer { source: *self, mime_type }),
    {
        Request::Offer { source: *self, mime_type }
    }

    /// The object id of a source of the `zwlr` family.
    pub fn zwlr(&self) -> (id: u32)
        requires
            *self is Zwlr,
        ensures
            *self == Source::Zwlr(id),
    {
        match self {
            Source::Zwlr(id) => *id,
            Source::Ext(id) => *id,
        }
    }

    /// The object id of a source of the `ext` family.
    pub fn ext(&self) -> (id: u32)
        requires
            *self is Ext,
        ensures
            *self == Source::Ext(id),
    {
        match self {
            Source::Zwlr(id) => *id,
            Source::Ext(id) => *id,
        }
    }
}

impl Offer {
    /// The request that destroys this offer.
    pub fn destroy(&self) -> (request: Request)
        ensures
            request == Request::DestroyOffer(*self),
    {
        Request::DestroyOffer(*self)
    }

    /// The request that asks for this offer's contents under a MIME type.
    pub fn receive(&self, mime_type: String) -> (request: Request)
        ensures
            request == (Request::Receive { offer: *self, mime_type }),
    {
        Request::Receive { offer: *self, mime_type }
    }
}

} // verus!
