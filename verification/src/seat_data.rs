//! What is known of one seat.

use vstd::prelude::*;
use crate::data_control::{Device, Offer};

verus! {

/// The record of one seat. Each slot holds at most one live object.
#[derive(Clone, Debug)]
pub struct SeatData {
    /// The name of this seat, if any.
    pub name: Option<String>,
    /// The data device of this seat, if any.
    pub device: Option<Device>,
    /// The data offer of this seat, if any.
    pub offer: Option<Offer>,
    /// The primary-selection data offer of this seat, if any.
    pub primary_offer: Option<Offer>,
}

impl Default for SeatData {
    fn default() -> (r: Self)
        ensures
            r.name is None,
            r.device is None,
            r.offer is None,
            r.primary_offer is None,
    {
        SeatData { name: None, device: None, offer: None, primary_offer: None }
    }
}

impl SeatData {
    /// Sets this seat's name.
    pub fn set_name(&mut self, name: String)
        ensures
            final(self).name == Some(name),
            final(self).device == old(self).device,
            final(self).offer == old(self).offer,
            final(self).primary_offer == old(self).primary_offer,
    {
        self.name = Some(name)
    }

    /// Sets this seat's device and hands back the one it replaces, which the
    /// caller destroys. The new device is in place before the old one goes.
    pub fn set_device(&mut self, device: Option<Device>) -> (old_device: Option<Device>)
        ensures
            final(self).device == device,
            old_device == old(self).device,
            final(self).name == old(self).name,
            final(self).offer == old(self).offer,
            final(self).primary_offer == old(self).primary_offer,
    {
        let old_device = self.device.take();
        self.device = device;
        old_device
    }

    /// Sets this seat's data offer and hands back the one it replaces, which the
    /// caller destroys.
    pub fn set_offer(&mut self, new_offer: Option<Offer>) -> (old_offer: Option<Offer>)
        ensures
            final(self).offer == new_offer,
            old_offer == old(self).offer,
            final(self).name == old(self).name,
            final(self).device == old(self).device,
            final(self).primary_offer == old(self).primary_offer,
    {
        let old_offer = self.offer.take();
        self.offer = new_offer;
        old_offer
    }

    /// Sets this seat's primary-selection data offer and hands back the one it
    /// replaces, which the caller destroys.
    pub fn set_primary_offer(&mut self, new_offer: Option<Offer>) -> (old_offer: Option<Offer>)
        ensures
            final(self).primary_offer == new_offer,
            old_offer == old(self).primary_offer,
            final(self).name == old(self).name,
            final(self).device == old(self).device,
            final(self).offer == old(self).offer,
    {
        let old_offer = self.primary_offer.take();
        self.primary_offer = new_offer;
        old_offer
    }
}

} // verus!
