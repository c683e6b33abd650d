//! A scripted, fully verified [`UsbPort`]: reads are answered from a
//! prepared list of responses, and every operation is recorded both in
//! the ghost history and in an executable log with matching entries.
//! Tests drive the whole driver against this port and inspect the log.

use vstd::prelude::*;

use crate::error::RtlsdrError;
use crate::port::UsbPort;
use crate::usb_model::UsbOp;

verus! {

/// An executable record of one USB operation, mirroring [`UsbOp`].
#[derive(Debug, Clone, PartialEq)]
pub enum LoggedOp {
    ControlIn { value: u16, index: u16, data: Vec<u8> },
    ControlOut { value: u16, index: u16, data: Vec<u8> },
    BulkIn { endpoint: u8, data: Vec<u8> },
    ClaimInterface { iface: u8 },
    Reset,
}

impl View for LoggedOp {
    type V = UsbOp;

    open spec fn view(&self) -> UsbOp {
        match self {
            LoggedOp::ControlIn { value, index, data } => UsbOp::ControlIn {
                value: *value,
                index: *index,
                data: data@,
            },
            LoggedOp::ControlOut { value, index, data } => UsbOp::ControlOut {
                value: *value,
                index: *index,
                data: data@,
            },
            LoggedOp::BulkIn { endpoint, data } => UsbOp::BulkIn {
                endpoint: *endpoint,
                data: data@,
            },
            LoggedOp::ClaimInterface { iface } => UsbOp::ClaimInterface { iface: *iface },
            LoggedOp::Reset => UsbOp::Reset,
        }
    }
}

/// A port whose device side is played from a script.
///
/// Each control or bulk read consumes the next response of the script
/// (an empty response once the script is exhausted, as a device that
/// delivers nothing); writes always succeed in full.
pub struct ReplayPort {
    log: Vec<LoggedOp>,
    responses: Vec<Vec<u8>>,
    next: usize,
    hist: Ghost<Seq<UsbOp>>,
}

impl ReplayPort {
    /// A fresh port that will answer reads from `responses`, in order.
    pub fn new(responses: Vec<Vec<u8>>) -> (r: ReplayPort)
        ensures
            r.history() == Seq::<UsbOp>::empty(),
    {
        ReplayPort { log: Vec::new(), responses, next: 0, hist: Ghost(Seq::empty()) }
    }

    /// The operations performed so far, oldest first.
    pub fn log(&self) -> &Vec<LoggedOp> {
        &self.log
    }

    /// The next scripted response, consumed and cut to `len` bytes; an
    /// empty response once the script is exhausted.
    fn take_response(&mut self, len: usize) -> (r: Vec<u8>)
        ensures
            r@.len() <= len,
            final(self).hist@ == old(self).hist@,
    {
        let mut data: Vec<u8> = if self.next < self.responses.len() {
            let d = clone_bytes(&self.responses[self.next]);
            self.next = self.next + 1;
            d
        } else {
            Vec::new()
        };
        data.truncate(len);
        data
    }

    /// Record `op` in the executable log and its model in the history.
    fn record(&mut self, op: LoggedOp)
        ensures
            final(self).hist@ == old(self).hist@.push(op@),
    {
        let ghost op_spec = op@;
        self.log.push(op);
        proof {
            self.hist@ = self.hist@.push(op_spec);
        }
    }
}

/// An element-for-element copy of a byte vector.
fn clone_bytes(v: &Vec<u8>) -> (r: Vec<u8>)
    ensures
        r@ == v@,
{
    let r = v.clone();
    proof {
        assert forall|i: int| 0 <= i < v@.len() implies r@[i] == v@[i] by {
            assert(cloned::<u8>(v[i], r[i]));
        }
        assert(r@ =~= v@);
    }
    r
}

impl UsbPort for ReplayPort {
    closed spec fn history(&self) -> Seq<UsbOp> {
        self.hist@
    }

    fn claim_interface(&mut self, iface: u8) -> (r: Result<(), RtlsdrError>) {
        self.record(LoggedOp::ClaimInterface { iface });
        Ok(())
    }

    fn reset(&mut self) -> (r: Result<(), RtlsdrError>) {
        self.record(LoggedOp::Reset);
        Ok(())
    }

    fn read_control(&mut self, value: u16, index: u16, len: usize) -> (r: Result<
        Vec<u8>,
        RtlsdrError,
    >) {
        let data = self.take_response(len);
        let copy = clone_bytes(&data);
        self.record(LoggedOp::ControlIn { value, index, data: copy });
        Ok(data)
    }

    fn write_control(&mut self, value: u16, index: u16, data: &Vec<u8>) -> (r: Result<
        usize,
        RtlsdrError,
    >) {
        let n = data.len();
        let copy = clone_bytes(data);
        self.record(LoggedOp::ControlOut { value, index, data: copy });
        Ok(n)
    }

    fn read_bulk(&mut self, endpoint: u8, max_len: usize) -> (r: Result<Vec<u8>, RtlsdrError>) {
        let data = self.take_response(max_len);
        let copy = clone_bytes(&data);
        self.record(LoggedOp::BulkIn { endpoint, data: copy });
        Ok(data)
    }
}

} // verus!
