//! The USB port abstraction and its history model.
//!
//! [`UsbPort`] is the boundary between the verified driver and the
//! hardware.  Each call appends exactly one operation to the port's
//! ghost history — the parameters of the attempted transfer, together
//! with the bytes handed back (none when the call failed).  Nothing is
//! promised about the bytes a device chooses to deliver.

use vstd::prelude::*;

use crate::error::RtlsdrError;
use crate::usb_model::UsbOp;

verus! {

/// A transport able to carry the vendor control transfers and bulk reads
/// of an RTL2832U dongle.
///
/// Every method appends exactly one operation to the history, whether or
/// not the transfer succeeded; for a failed read the recorded delivery
/// is empty.
pub trait UsbPort: Sized {
    /// The USB operations this port has performed, in order.
    spec fn history(&self) -> Seq<UsbOp>;

    /// Claim a USB interface.
    fn claim_interface(&mut self, iface: u8) -> (r: Result<(), RtlsdrError>)
        ensures
            final(self).history() == old(self).history().push(UsbOp::ClaimInterface { iface }),
            r matches Err(e) ==> e is Usb,
    ;

    /// Perform a USB-level device reset.
    fn reset(&mut self) -> (r: Result<(), RtlsdrError>)
        ensures
            final(self).history() == old(self).history().push(UsbOp::Reset),
            r matches Err(e) ==> e is Usb,
    ;

    /// Vendor control IN transfer: read up to `len` bytes.
    fn read_control(&mut self, value: u16, index: u16, len: usize) -> (r: Result<
        Vec<u8>,
        RtlsdrError,
    >)
        ensures
            match r {
                Ok(data) => data@.len() <= len && final(self).history() == old(
                    self,
                ).history().push(UsbOp::ControlIn { value, index, data: data@ }),
                Err(_) => final(self).history() == old(self).history().push(
                    UsbOp::ControlIn { value, index, data: Seq::empty() },
                ),
            },
            r matches Err(e) ==> e is Usb,
    ;

    /// Vendor control OUT transfer: send `data`.
    fn write_control(&mut self, value: u16, index: u16, data: &Vec<u8>) -> (r: Result<
        usize,
        RtlsdrError,
    >)
        ensures
            final(self).history() == old(self).history().push(
                UsbOp::ControlOut { value, index, data: data@ },
            ),
            r matches Ok(n) ==> n <= data@.len(),
            r matches Err(e) ==> e is Usb,
    ;

    /// Bulk IN transfer: read up to `max_len` bytes, blocking until data
    /// arrives or the device goes away.
    fn read_bulk(&mut self, endpoint: u8, max_len: usize) -> (r: Result<Vec<u8>, RtlsdrError>)
        ensures
            match r {
                Ok(data) => data@.len() <= max_len && final(self).history() == old(
                    self,
                ).history().push(UsbOp::BulkIn { endpoint, data: data@ }),
                Err(_) => final(self).history() == old(self).history().push(
                    UsbOp::BulkIn { endpoint, data: Seq::empty() },
                ),
            },
            r matches Err(e) ==> e is Usb,
    ;
}

} // verus!
