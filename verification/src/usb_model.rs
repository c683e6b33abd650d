//! Ghost model of the USB traffic a port performs.
//!
//! Every port implementation carries a history: the sequence of vendor
//! control transfers, bulk reads and housekeeping calls it has issued, in
//! order.  Contracts throughout the crate are stated over this history.

use vstd::prelude::*;

verus! {

/// One USB operation, as recorded in a port's history.
///
/// For `ControlIn` and `BulkIn` the `data` field holds the bytes the
/// device delivered; for `ControlOut` it holds the bytes sent.
pub ghost enum UsbOp {
    ControlIn { value: u16, index: u16, data: Seq<u8> },
    ControlOut { value: u16, index: u16, data: Seq<u8> },
    BulkIn { endpoint: u8, data: Seq<u8> },
    ClaimInterface { iface: u8 },
    Reset,
}

/// The byte at position `i`, or 0 past the end: short control reads leave
/// the remainder of the caller's zero-initialised buffer untouched.
pub open spec fn byte_at(data: Seq<u8>, i: int) -> int {
    if 0 <= i < data.len() {
        data[i] as int
    } else {
        0
    }
}

/// Little-endian interpretation of up to two delivered bytes.
pub open spec fn le16(data: Seq<u8>) -> u16 {
    (byte_at(data, 0) + byte_at(data, 1) * 256) as u16
}

/// The payload of a register write: the low byte alone for `len == 1`,
/// the big-endian byte pair for `len == 2`.
pub open spec fn be_payload(val: u16, len: usize) -> Seq<u8> {
    if len == 1 {
        seq![(val & 0xff) as u8]
    } else {
        seq![(val >> 8) as u8, (val & 0xff) as u8]
    }
}

/// The bytes an operation delivered to the driver (empty for writes and
/// housekeeping calls).
pub open spec fn delivered(op: UsbOp) -> Seq<u8> {
    match op {
        UsbOp::ControlIn { data, .. } => data,
        UsbOp::BulkIn { data, .. } => data,
        _ => Seq::empty(),
    }
}

/// Whether `op` is a control IN transfer with the given setup words.
pub open spec fn is_ctrl_in(op: UsbOp, value: u16, index: u16) -> bool {
    match op {
        UsbOp::ControlIn { value: v, index: i, .. } => v == value && i == index,
        _ => false,
    }
}

} // verus!
