//! Decision logic of the device search.
//!
//! The I/O shell enumerates the bus and reads each device's
//! descriptor; this module decides, per device, whether it is the
//! target and is worth an open attempt, and turns the search's end
//! into the right error: a matching device that would not open is
//! reported differently from no match at all.

use vstd::prelude::*;

use crate::command::SessionError;

verus! {

/// Vendor identity of the target hardware.
pub const VENDOR_ID: u16 = 0x3554;

/// Product identity of the target hardware.
pub const PRODUCT_ID: u16 = 0xf509;

/// What reading one enumerated device's descriptor yielded:
/// unreadable descriptors are skipped with a warning, never fatal.
#[derive(Debug, Clone, Copy, PartialEq, Eq, Structural)]
pub enum DeviceProbe {
    Unreadable,
    Identity { vendor: u16, product: u16 },
}

/// Whether a probe identifies the target device.
pub open spec fn probe_matches(probe: DeviceProbe, vid: u16, pid: u16) -> bool {
    match probe {
        DeviceProbe::Unreadable => false,
        DeviceProbe::Identity { vendor, product } => vendor == vid && product == pid,
    }
}

/// The verdict a finished search deserves: success once some matching
/// device opened, otherwise `OpenFailed` if at least one match was
/// seen (it just would not open), and `DeviceNotFound` if none was.
pub open spec fn search_verdict(l: Locator) -> Result<(), SessionError> {
    if l.opened {
        Result::Ok(())
    } else if l.saw_match {
        Result::Err(SessionError::OpenFailed)
    } else {
        Result::Err(SessionError::DeviceNotFound)
    }
}

/// Running state of one search over the enumerated devices.
#[derive(Debug, Clone, Copy, PartialEq, Eq, Structural)]
pub struct Locator {
    pub vid: u16,
    pub pid: u16,
    pub saw_match: bool,
    pub opened: bool,
}

impl Locator {
    /// Start a search for the given identity.
    pub fn new(vid: u16, pid: u16) -> (r: Locator)
        ensures
            r.vid == vid,
            r.pid == pid,
            !r.saw_match,
            !r.opened,
    {
        Locator { vid, pid, saw_match: false, opened: false }
    }

    /// Decide whether one enumerated device should be opened: exactly
    /// the devices whose descriptor was readable and names the target
    /// identity. Remembers that a match was seen.
    pub fn should_open(&mut self, probe: DeviceProbe) -> (r: bool)
        ensures
            r == probe_matches(probe, old(self).vid, old(self).pid),
            final(self).saw_match == (old(self).saw_match || r),
            final(self).vid == old(self).vid,
            final(self).pid == old(self).pid,
            final(self).opened == old(self).opened,
    {
        let hit: bool = match probe {
            DeviceProbe::Unreadable => false,
            DeviceProbe::Identity { vendor, product } => vendor == self.vid && product
                == self.pid,
        };
        if hit {
            self.saw_match = true;
        }
        hit
    }

    /// Record the result of one open attempt; a failed open is skipped
    /// and the search goes on.
    pub fn note_open_result(&mut self, ok: bool)
        ensures
            final(self).opened == (old(self).opened || ok),
            final(self).vid == old(self).vid,
            final(self).pid == old(self).pid,
            final(self).saw_match == old(self).saw_match,
    {
        if ok {
            self.opened = true;
        }
    }

    /// The verdict once every enumerated device has been considered.
    pub fn outcome(&self) -> (r: Result<(), SessionError>)
        ensures
            r == search_verdict(*self),
    {
        if self.opened {
            Result::Ok(())
        } else if self.saw_match {
            Result::Err(SessionError::OpenFailed)
        } else {
            Result::Err(SessionError::DeviceNotFound)
        }
    }
}

} // verus!
