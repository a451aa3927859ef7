//! The clipboard managers of the protocols that came before data-control took
//! over the primary selection, behind the same interface.

use vstd::prelude::*;

verus! {

/// A clipboard manager, by the protocol it speaks and the numeric name of its global.
#[derive(Clone, Copy, Debug, PartialEq, Eq, Structural)]
pub enum ClipboardManager {
    DataControl(u32),
    GtkPrimary(u32),
    WpPrimary(u32),
}

/// A data device, by the protocol it speaks and its object id.
#[derive(Clone, Copy, Debug, PartialEq, Eq, Structural)]
pub enum DataDevice {
    DataControl(u32),
    GtkPrimary(u32),
    WpPrimary(u32),
}

/// A data source, by the protocol it speaks and its object id.
#[derive(Clone, Copy, Debug, PartialEq, Eq, Structural)]
pub enum DataSource {
    DataControl(u32),
    GtkPrimary(u32),
    WpPrimary(u32),
}

/// A `set_selection` request as it goes out: data-control sends no serial.
#[derive(Clone, Copy, Debug, PartialEq, Eq, Structural)]
pub struct SetSelection {
    pub device: DataDevice,
    pub source: Option<DataSource>,
    pub serial: Option<u32>,
}

/// Whether a source speaks the protocol of a device.
pub open spec fn same_protocol(device: DataDevice, source: DataSource) -> bool {
    match device {
        DataDevice::DataControl(_) => source is DataControl,
        DataDevice::GtkPrimary(_) => source is GtkPrimary,
        DataDevice::WpPrimary(_) => source is WpPrimary,
    }
}

impl ClipboardManager {
    /// Whether the protocol lets only the client with keyboard focus set the selection.
    pub fn requires_keyboard_focus(&self) -> (r: bool)
        ensures
            r == !(*self is DataControl),
    {
        match self {
            ClipboardManager::DataControl(_) => false,
            ClipboardManager::GtkPrimary(_) => true,
            ClipboardManager::WpPrimary(_) => true,
        }
    }

    /// Whether setting the selection takes the serial of an input event.
    pub fn requires_serial(&self) -> (r: bool)
        ensures
            r == !(*self is DataControl),
    {
        self.requires_keyboard_focus()
    }

    /// The name of the manager's interface.
    pub fn name(&self) -> (r: &'static str)
        ensures
            r@ == match *self {
                ClipboardManager::DataControl(_) => "zwlr_data_control_manager_v1"@,
                ClipboardManager::GtkPrimary(_) => "gtk_primary_selection_device_manager"@,
                ClipboardManager::WpPrimary(_) => "zwp_primary_selection_device_manager_v1"@,
            },
    {
        match self {
            ClipboardManager::DataControl(_) => "zwlr_data_control_manager_v1",
            ClipboardManager::GtkPrimary(_) => "gtk_primary_selection_device_manager",
            ClipboardManager::WpPrimary(_) => "zwp_primary_selection_device_manager_v1",
        }
    }

    /// The device that this manager hands out, once the caller has created it
    /// under the object id `id`.
    pub fn get_device(&self, id: u32) -> (device: DataDevice)
        ensures
            device == match *self {
                ClipboardManager::DataControl(_) => DataDevice::DataControl(id),
                ClipboardManager::GtkPrimary(_) => DataDevice::GtkPrimary(id),
                ClipboardManager::WpPrimary(_) => DataDevice::WpPrimary(id),
            },
    {
        match self {
            ClipboardManager::DataControl(_) => DataDevice::DataControl(id),
            ClipboardManager::GtkPrimary(_) => DataDevice::GtkPrimary(id),
            ClipboardManager::WpPrimary(_) => DataDevice::WpPrimary(id),
        }
    }

    /// The source that this manager creates, once the caller has created it
    /// under the object id `id`.
    pub fn create_source(&self, id: u32) -> (source: DataSource)
        ensures
            source == match *self {
                ClipboardManager::DataControl(_) => DataSource::DataControl(id),
                ClipboardManager::GtkPrimary(_) => DataSource::GtkPrimary(id),
                ClipboardManager::WpPrimary(_) => DataSource::WpPrimary(id),
            },
    {
        match self {
            ClipboardManager::DataControl(_) => DataSource::DataControl(id),
            ClipboardManager::GtkPrimary(_) => DataSource::GtkPrimary(id),
            ClipboardManager::WpPrimary(_) => DataSource::WpPrimary(id),
        }
    }
}

impl DataDevice {
    /// The request that sets or clears the selection.
    ///
    /// A source has to speak the device's protocol. Where the protocol takes a
    /// serial, `serial` must not be `None`; data-control sends none.
    pub fn set_selection(&self, source: Option<&DataSource>, serial: Option<u32>) -> (r:
        SetSelection)
        requires
            source matches Some(s) ==> same_protocol(*self, *s),
            !(*self is DataControl) ==> serial is Some,
        ensures
            r.device == *self,
            r.source == match source {
                Some(s) => Some(*s),
                None => None,
            },
            r.serial == if *self is DataControl {
                None
            } else {
                serial
            },
    {
        let source = match source {
            Some(s) => Some(*s),
            None => None,
        };
        match self {
            DataDevice::DataControl(_) => SetSelection { device: *self, source, serial: None },
            _ => SetSelection { device: *self, source, serial },
        }
    }
}

} // verus!
