//! The typed register plane of the RTL2832U.
//!
//! Every operation is a fixed encoding into vendor control transfers:
//! registers are addressed by (block, address), demodulator registers by
//! (page, address) with the address shifted into the setup word, and
//! writes carry an extra 0x10 in the index.  Register reads decode
//! little-endian, writes encode big-endian — an asymmetry of the chip's
//! wire protocol.  Each method's contract states exactly which
//! operations it appends to the port's history.

use vstd::pervasive::VecAdditionalExecFns;
use vstd::prelude::*;

use crate::constants::{BLOCK_IIC, BLOCK_USB, EEPROM_ADDR, USB_SYSCTL};
use crate::error::RtlsdrError;
use crate::port::UsbPort;
use crate::usb_model::{be_payload, byte_at, delivered, is_ctrl_in, le16, UsbOp};

verus! {

/// One register-plane read: control IN at `addr`, index `block << 8`.
pub open spec fn arr_read_op(block: u16, addr: u16, data: Seq<u8>) -> UsbOp {
    UsbOp::ControlIn { value: addr, index: block << 8, data }
}

/// One register-plane write: control OUT at `addr`, index
/// `(block << 8) | 0x10`, sending `data`.
pub open spec fn arr_write_op(block: u16, addr: u16, data: Seq<u8>) -> UsbOp {
    UsbOp::ControlOut { value: addr, index: (block << 8) | 0x10, data }
}

/// A typed register write of `val` (1 or 2 bytes, big-endian).
pub open spec fn reg_write_op(block: u16, addr: u16, val: u16, len: usize) -> UsbOp {
    arr_write_op(block, addr, be_payload(val, len))
}

/// One demodulator register read: the address moves into the high byte
/// of the setup value, tagged 0x20; the page rides in the index.
pub open spec fn demod_read_op(page: u16, addr: u16, data: Seq<u8>) -> UsbOp {
    UsbOp::ControlIn { value: (addr << 8) | 0x20, index: page, data }
}

/// One demodulator register write, encoded like the read with 0x10 added
/// to the index.
pub open spec fn demod_write_op(page: u16, addr: u16, val: u16, len: usize) -> UsbOp {
    UsbOp::ControlOut { value: (addr << 8) | 0x20, index: 0x10 | page, data: be_payload(val, len) }
}

/// The two operations of one demodulator register write: the encoded
/// control OUT, then the mandatory dummy read of page 0x0a addr 0x01
/// (which delivered `dummy`).  Dropping the dummy read corrupts
/// subsequent writes, so it is part of the shape itself.
pub open spec fn demod_write_seq(page: u16, addr: u16, val: u16, len: usize, dummy: Seq<u8>) -> Seq<
    UsbOp,
> {
    seq![demod_write_op(page, addr, val, len), demod_read_op(0x0a, 0x01, dummy)]
}

/// `h1` continues `h0`: everything in `h0` stands unchanged at the front
/// of `h1`.
pub open spec fn grows(h0: Seq<UsbOp>, h1: Seq<UsbOp>) -> bool {
    h1.len() >= h0.len() && h1.subrange(0, h0.len() as int) == h0
}

/// Every history continues itself.
pub proof fn lemma_grows_refl(h: Seq<UsbOp>)
    ensures
        grows(h, h),
{
    assert(h.subrange(0, h.len() as int) =~= h);
}

/// A history that continues `h0` still does so after one more operation.
pub proof fn lemma_grows_push(h0: Seq<UsbOp>, h1: Seq<UsbOp>, op: UsbOp)
    requires
        grows(h0, h1),
    ensures
        grows(h0, h1.push(op)),
{
    assert(h1.push(op).subrange(0, h0.len() as int) =~= h1.subrange(0, h0.len() as int));
}

/// Continuation of histories is transitive; ambient so that chains of
/// device operations need no explicit stitching.
pub broadcast proof fn lemma_grows_trans_auto(h0: Seq<UsbOp>, h1: Seq<UsbOp>, h2: Seq<UsbOp>)
    requires
        #[trigger] grows(h0, h1),
        #[trigger] grows(h1, h2),
    ensures
        grows(h0, h2),
{
    lemma_grows_trans(h0, h1, h2);
}

/// Every history continues into itself plus one more operation;
/// ambient wherever a push appears.
pub broadcast proof fn lemma_grows_push_auto(h: Seq<UsbOp>, op: UsbOp)
    ensures
        grows(h, #[trigger] h.push(op)),
{
    lemma_grows_refl(h);
    lemma_grows_push(h, h, op);
}

/// Every history continues into itself plus an appended segment;
/// ambient wherever a concatenation appears.
pub broadcast proof fn lemma_grows_concat_auto(h: Seq<UsbOp>, s: Seq<UsbOp>)
    ensures
        grows(h, #[trigger] (h + s)),
{
    assert((h + s).subrange(0, h.len() as int) =~= h);
}

/// Continuation of histories is transitive.
pub proof fn lemma_grows_trans(h0: Seq<UsbOp>, h1: Seq<UsbOp>, h2: Seq<UsbOp>)
    requires
        grows(h0, h1),
        grows(h1, h2),
    ensures
        grows(h0, h2),
{
    assert(h2.subrange(0, h0.len() as int) =~= h1.subrange(0, h0.len() as int));
}

/// The shape of a successful EEPROM read: one write of the offset, then
/// `len` one-byte reads, whose delivered bytes landed in `d[0..len]`.
pub open spec fn eeprom_read_shape(
    h0: Seq<UsbOp>,
    h1: Seq<UsbOp>,
    d: Seq<u8>,
    offset: u8,
    len: usize,
) -> bool {
    &&& h1.len() == h0.len() + 1 + len
    &&& h1.subrange(0, h0.len() as int) == h0
    &&& h1[h0.len() as int] == arr_write_op(BLOCK_IIC, EEPROM_ADDR, seq![offset])
    &&& forall|i: int|
        0 <= i < len ==> is_ctrl_in(#[trigger] h1[h0.len() + 1 + i], EEPROM_ADDR, BLOCK_IIC << 8)
    &&& forall|i: int|
        0 <= i < len ==> d[i] == byte_at(delivered(#[trigger] h1[h0.len() + 1 + i]), 0)
}

/// The register plane of one open dongle, generic over its transport.
pub struct Device<P: UsbPort> {
    port: P,
}

impl<P: UsbPort> Device<P> {
    /// The USB operations issued through this device, in order.
    pub closed spec fn history(&self) -> Seq<UsbOp> {
        self.port.history()
    }

    /// A view of the underlying port.
    pub fn port_ref(&self) -> (r: &P)
        ensures
            r.history() == self.history(),
    {
        &self.port
    }

    /// Wrap an open port.
    pub fn new(port: P) -> (r: Device<P>)
        ensures
            r.history() == port.history(),
    {
        Device { port }
    }

    /// Claim the numbered USB interface.
    pub fn claim_interface(&mut self, iface: u8) -> (r: Result<(), RtlsdrError>)
        ensures
            final(self).history() == old(self).history().push(UsbOp::ClaimInterface { iface }),
            r matches Err(e) ==> e is Usb,
    {
        self.port.claim_interface(iface)
    }

    /// Probe the device with a dummy register write; a write the device
    /// swallowed whole (zero bytes accepted) is answered with a USB
    /// reset.
    pub fn test_write(&mut self) -> (r: Result<(), RtlsdrError>)
        ensures
            ({
                let h0 = old(self).history();
                let h1 = final(self).history();
                ||| h1 == h0.push(reg_write_op(BLOCK_USB, USB_SYSCTL, 0x09, 1))
                ||| h1 == h0.push(reg_write_op(BLOCK_USB, USB_SYSCTL, 0x09, 1)).push(UsbOp::Reset)
            }),
            r matches Err(e) ==> e is Usb,
    {
        let len = self.write_reg(BLOCK_USB, USB_SYSCTL, 0x09, 1)?;
        if len == 0 {
            self.port.reset()?;
        }
        Ok(())
    }

    /// Pulse the demodulator's soft reset: write 0x14 then 0x10 to
    /// page 1 addr 0x01.
    pub fn reset_demod(&mut self) -> (r: Result<(), RtlsdrError>)
        ensures
            grows(old(self).history(), final(self).history()),
            r matches Err(e) ==> e is Usb,
            r is Ok ==> exists|d1: Seq<u8>, d2: Seq<u8>|
                #![auto]
                d1.len() <= 1 && d2.len() <= 1 && final(self).history() == old(self).history()
                    + demod_write_seq(1, 0x01, 0x14, 1, d1) + demod_write_seq(1, 0x01, 0x10, 1, d2),
    {
        let ghost h0 = self.history();
        let first = self.demod_write_reg(1, 0x01, 0x14, 1);
        proof {
            let d = choose|d: Seq<u8>|
                d.len() <= 1 && self.history() == h0 + demod_write_seq(1, 0x01, 0x14, 1, d);
            lemma_grows_concat_auto(h0, demod_write_seq(1, 0x01, 0x14, 1, d));
        }
        match first {
            Ok(_) => (),
            Err(e) => {
                return Err(e);
            },
        }
        let ghost h1 = self.history();
        let second = self.demod_write_reg(1, 0x01, 0x10, 1);
        proof {
            let d = choose|d: Seq<u8>|
                d.len() <= 1 && self.history() == h1 + demod_write_seq(1, 0x01, 0x10, 1, d);
            lemma_grows_concat_auto(h1, demod_write_seq(1, 0x01, 0x10, 1, d));
            lemma_grows_trans(h0, h1, self.history());
        }
        match second {
            Ok(_) => (),
            Err(e) => {
                return Err(e);
            },
        }
        proof {
            let d1 = choose|d: Seq<u8>|
                d.len() <= 1 && h1 == h0 + demod_write_seq(1, 0x01, 0x14, 1, d);
            let d2 = choose|d: Seq<u8>|
                d.len() <= 1 && self.history() == h1 + demod_write_seq(1, 0x01, 0x10, 1, d);
            assert(self.history() == h0 + demod_write_seq(1, 0x01, 0x14, 1, d1)
                + demod_write_seq(1, 0x01, 0x10, 1, d2));
        }
        Ok(())
    }

    /// Read a register: one control IN, decoded little-endian from the
    /// delivered bytes (missing bytes read as zero).
    pub fn read_reg(&mut self, block: u16, addr: u16, len: usize) -> (r: Result<u16, RtlsdrError>)
        requires
            len == 1 || len == 2,
        ensures
            match r {
                Ok(v) => exists|d: Seq<u8>|
                    #![auto]
                    d.len() <= len && final(self).history() == old(self).history().push(
                        arr_read_op(block, addr, d),
                    ) && v == le16(d),
                Err(_) => final(self).history() == old(self).history().push(
                    arr_read_op(block, addr, Seq::empty()),
                ),
            },
            r matches Err(e) ==> e is Usb,
    {
        let data = self.port.read_control(addr, block << 8, len)?;
        let b0: u16 = if data.len() >= 1 {
            data[0] as u16
        } else {
            0
        };
        let b1: u16 = if data.len() >= 2 {
            data[1] as u16
        } else {
            0
        };
        let v: u16 = b0 + b1 * 256;
        proof {
            assert(v == le16(data@));
        }
        Ok(v)
    }

    /// Write a register: one control OUT whose payload is exactly the
    /// low byte of `val` for `len == 1`, `val`'s big-endian bytes for
    /// `len == 2`.
    pub fn write_reg(&mut self, block: u16, addr: u16, val: u16, len: usize) -> (r: Result<
        usize,
        RtlsdrError,
    >)
        requires
            len == 1 || len == 2,
        ensures
            final(self).history() == old(self).history().push(reg_write_op(block, addr, val, len)),
            r matches Ok(n) ==> n <= len,
            r matches Err(e) ==> e is Usb,
    {
        let mut data: Vec<u8> = Vec::new();
        if len == 2 {
            data.push((val >> 8) as u8);
        }
        data.push((val & 0xff) as u8);
        proof {
            assert(data@ =~= be_payload(val, len));
        }
        let n = self.port.write_control(addr, (block << 8) | 0x10, &data)?;
        Ok(n)
    }

    /// Read one demodulator register byte.  A transport failure
    /// propagates to the caller.
    pub fn demod_read_reg(&mut self, page: u16, addr: u16) -> (r: Result<u16, RtlsdrError>)
        ensures
            exists|d: Seq<u8>|
                #![auto]
                d.len() <= 1 && final(self).history() == old(self).history().push(
                    demod_read_op(page, addr, d),
                ) && (r matches Ok(v) ==> v == byte_at(d, 0) as u16),
            r matches Err(e) ==> e is Usb,
    {
        match self.port.read_control((addr << 8) | 0x20, page, 1) {
            Ok(data) => {
                let v: u16 = if data.len() >= 1 {
                    data[0] as u16
                } else {
                    0
                };
                proof {
                    assert(data@.len() <= 1 && self.history() == old(self).history().push(
                        demod_read_op(page, addr, data@),
                    ) && v == byte_at(data@, 0));
                }
                Ok(v)
            },
            Err(e) => {
                proof {
                    let d = Seq::<u8>::empty();
                    assert(d.len() <= 1 && self.history() == old(self).history().push(
                        demod_read_op(page, addr, d),
                    ));
                }
                Err(e)
            },
        }
    }

    /// Write a demodulator register: the encoded control OUT, always
    /// followed by the mandatory dummy read of page 0x0a addr 0x01.  A
    /// failed write is swallowed (the result then reports zero bytes)
    /// and the dummy read is issued regardless; a failed dummy read
    /// propagates.  Either way both operations stand in the history.
    pub fn demod_write_reg(&mut self, page: u16, addr: u16, val: u16, len: usize) -> (r: Result<
        usize,
        RtlsdrError,
    >)
        requires
            len == 1 || len == 2,
        ensures
            exists|d: Seq<u8>|
                #![auto]
                d.len() <= 1 && final(self).history() == old(self).history() + demod_write_seq(
                    page,
                    addr,
                    val,
                    len,
                    d,
                ),
            r matches Ok(n) ==> n <= len,
            r matches Err(e) ==> e is Usb,
    {
        let ghost h0 = self.history();
        let mut data: Vec<u8> = Vec::new();
        if len == 2 {
            data.push((val >> 8) as u8);
        }
        data.push((val & 0xff) as u8);
        proof {
            assert(data@ =~= be_payload(val, len));
        }
        let bytes = match self.port.write_control((addr << 8) | 0x20, 0x10 | page, &data) {
            Ok(n) => n,
            Err(_) => 0,
        };
        let ghost h1 = self.history();
        let rd = self.demod_read_reg(0x0a, 0x01);
        proof {
            let d = choose|d: Seq<u8>|
                d.len() <= 1 && self.history() == h1.push(demod_read_op(0x0a, 0x01, d));
            assert(self.history() == h0 + demod_write_seq(page, addr, val, len, d));
        }
        match rd {
            Ok(_) => Ok(bytes),
            Err(e) => Err(e),
        }
    }

    /// One bulk read of up to `max_len` bytes from endpoint 0x81.
    pub fn bulk_transfer(&mut self, max_len: usize) -> (r: Result<Vec<u8>, RtlsdrError>)
        ensures
            match r {
                Ok(data) => data@.len() <= max_len && final(self).history() == old(
                    self,
                ).history().push(UsbOp::BulkIn { endpoint: 0x81, data: data@ }),
                Err(_) => final(self).history() == old(self).history().push(
                    UsbOp::BulkIn { endpoint: 0x81, data: Seq::empty() },
                ),
            },
            r matches Err(e) ==> e is Usb,
    {
        self.port.read_bulk(0x81, max_len)
    }

    /// Read `len` bytes of the configuration EEPROM starting at
    /// `offset` into `data[0..len]`; the rest of `data` is untouched.
    /// The window must lie inside the 256-byte EEPROM.
    pub fn read_eeprom(&mut self, data: &mut Vec<u8>, offset: u8, len: usize) -> (r: Result<
        usize,
        RtlsdrError,
    >)
        requires
            offset as int + len as int <= 256,
            old(data)@.len() >= len,
        ensures
            final(data)@.len() == old(data)@.len(),
            forall|i: int| len <= i < old(data)@.len() ==> final(data)@[i] == old(data)@[i],
            grows(old(self).history(), final(self).history()),
            r matches Err(e) ==> e is Usb,
            r matches Ok(n) ==> n == len && eeprom_read_shape(
                old(self).history(),
                final(self).history(),
                final(data)@,
                offset,
                len,
            ),
    {
        let ghost h0 = self.history();
        let mut off: Vec<u8> = Vec::new();
        off.push(offset);
        proof {
            assert(off@ =~= seq![offset]);
        }
        match self.write_array(BLOCK_IIC, EEPROM_ADDR, &off) {
            Ok(_) => (),
            Err(e) => {
                proof {
                    lemma_grows_refl(h0);
                    lemma_grows_push(h0, h0, arr_write_op(BLOCK_IIC, EEPROM_ADDR, off@));
                }
                return Err(e);
            },
        }
        proof {
            assert(self.history().subrange(0, h0.len() as int) =~= h0);
        }
        let mut i: usize = 0;
        while i < len
            invariant
                i <= len,
                h0 == old(self).history(),
                data@.len() == old(data)@.len(),
                old(data)@.len() >= len,
                self.history().len() == h0.len() + 1 + i,
                self.history().subrange(0, h0.len() as int) == h0,
                self.history()[h0.len() as int] == arr_write_op(
                    BLOCK_IIC,
                    EEPROM_ADDR,
                    seq![offset],
                ),
                forall|j: int|
                    0 <= j < i ==> is_ctrl_in(
                        #[trigger] self.history()[h0.len() + 1 + j],
                        EEPROM_ADDR,
                        BLOCK_IIC << 8,
                    ),
                forall|j: int|
                    0 <= j < i ==> data@[j] == byte_at(
                        delivered(#[trigger] self.history()[h0.len() + 1 + j]),
                        0,
                    ),
                forall|j: int| i <= j < data@.len() ==> data@[j] == old(data)@[j],
            decreases len - i,
        {
            let ghost hcur = self.history();
            let b = match self.read_array(BLOCK_IIC, EEPROM_ADDR, 1) {
                Ok(b) => b,
                Err(e) => {
                    proof {
                        assert(grows(h0, hcur));
                        assert(self.history() == hcur.push(
                            arr_read_op(BLOCK_IIC, EEPROM_ADDR, Seq::empty()),
                        ));
                        lemma_grows_push(h0, hcur, arr_read_op(BLOCK_IIC, EEPROM_ADDR, Seq::empty()));
                        assert(grows(h0, self.history()));
                    }
                    return Err(e);
                },
            };
            let v: u8 = if b.len() >= 1 {
                b[0]
            } else {
                0
            };
            data.set(i, v);
            proof {
                assert(self.history() =~= hcur.push(arr_read_op(BLOCK_IIC, EEPROM_ADDR, b@)));
                assert(self.history().subrange(0, h0.len() as int) =~= hcur.subrange(
                    0,
                    h0.len() as int,
                ));
                assert(v == byte_at(delivered(self.history()[h0.len() + 1 + i]), 0));
            }
            i = i + 1;
        }
        proof {
            assert(eeprom_read_shape(h0, self.history(), data@, offset, len));
        }
        Ok(len)
    }

    /// Read one byte of an I2C register: address the register with a
    /// one-byte write, then read one byte back.
    pub fn i2c_read_reg(&mut self, i2c_addr: u8, reg: u8) -> (r: Result<u8, RtlsdrError>)
        ensures
            grows(old(self).history(), final(self).history()),
            match r {
                Ok(v) => exists|d: Seq<u8>|
                    #![auto]
                    d.len() <= 1 && final(self).history() == old(self).history().push(
                        arr_write_op(BLOCK_IIC, i2c_addr as u16, seq![reg]),
                    ).push(arr_read_op(BLOCK_IIC, i2c_addr as u16, d)) && v == byte_at(d, 0),
                Err(_) => final(self).history() == old(self).history().push(
                    arr_write_op(BLOCK_IIC, i2c_addr as u16, seq![reg]),
                ) || final(self).history() == old(self).history().push(
                    arr_write_op(BLOCK_IIC, i2c_addr as u16, seq![reg]),
                ).push(arr_read_op(BLOCK_IIC, i2c_addr as u16, Seq::empty())),
            },
            r matches Err(e) ==> e is Usb,
    {
        let ghost h0 = self.history();
        let mut regv: Vec<u8> = Vec::new();
        regv.push(reg);
        match self.write_array(BLOCK_IIC, i2c_addr as u16, &regv) {
            Ok(_) => {
                let ghost hw = self.history();
                match self.read_array(BLOCK_IIC, i2c_addr as u16, 1) {
                    Ok(b) => {
                        let v: u8 = if b.len() >= 1 {
                            b[0]
                        } else {
                            0
                        };
                        proof {
                            lemma_grows_refl(h0);
                            lemma_grows_push(h0, h0, arr_write_op(BLOCK_IIC, i2c_addr as u16, regv@));
                            lemma_grows_push(
                                h0,
                                hw,
                                arr_read_op(BLOCK_IIC, i2c_addr as u16, b@),
                            );
                            assert(regv@ =~= seq![reg]);
                            assert(b@.len() <= 1 && self.history() == h0.push(
                                arr_write_op(BLOCK_IIC, i2c_addr as u16, seq![reg]),
                            ).push(arr_read_op(BLOCK_IIC, i2c_addr as u16, b@)) && v == byte_at(
                                b@,
                                0,
                            ));
                        }
                        Ok(v)
                    },
                    Err(e) => {
                        proof {
                            lemma_grows_refl(h0);
                            lemma_grows_push(h0, h0, arr_write_op(BLOCK_IIC, i2c_addr as u16, regv@));
                            lemma_grows_push(
                                h0,
                                hw,
                                arr_read_op(BLOCK_IIC, i2c_addr as u16, Seq::empty()),
                            );
                        }
                        Err(e)
                    },
                }
            },
            Err(e) => {
                proof {
                    lemma_grows_refl(h0);
                    lemma_grows_push(h0, h0, arr_write_op(BLOCK_IIC, i2c_addr as u16, regv@));
                }
                Err(e)
            },
        }
    }

    /// Write `buffer` to the I2C address in one transaction.
    pub fn i2c_write(&mut self, i2c_addr: u16, buffer: &Vec<u8>) -> (r: Result<usize, RtlsdrError>)
        ensures
            final(self).history() == old(self).history().push(
                arr_write_op(BLOCK_IIC, i2c_addr, buffer@),
            ),
            r matches Ok(n) ==> n <= buffer@.len(),
            r matches Err(e) ==> e is Usb,
    {
        self.write_array(BLOCK_IIC, i2c_addr, buffer)
    }

    /// Read up to `len` bytes from the I2C address.
    pub fn i2c_read(&mut self, i2c_addr: u16, len: u8) -> (r: Result<Vec<u8>, RtlsdrError>)
        ensures
            match r {
                Ok(data) => data@.len() <= len && final(self).history() == old(
                    self,
                ).history().push(arr_read_op(BLOCK_IIC, i2c_addr, data@)),
                Err(_) => final(self).history() == old(self).history().push(
                    arr_read_op(BLOCK_IIC, i2c_addr, Seq::empty()),
                ),
            },
            r matches Err(e) ==> e is Usb,
    {
        self.read_array(BLOCK_IIC, i2c_addr, len as usize)
    }

    /// Raw block read: one control IN of up to `len` bytes.
    pub fn read_array(&mut self, block: u16, addr: u16, len: usize) -> (r: Result<
        Vec<u8>,
        RtlsdrError,
    >)
        ensures
            match r {
                Ok(data) => data@.len() <= len && final(self).history() == old(
                    self,
                ).history().push(arr_read_op(block, addr, data@)),
                Err(_) => final(self).history() == old(self).history().push(
                    arr_read_op(block, addr, Seq::empty()),
                ),
            },
            r matches Err(e) ==> e is Usb,
    {
        self.port.read_control(addr, block << 8, len)
    }

    /// Raw block write: one control OUT sending `arr`.
    pub fn write_array(&mut self, block: u16, addr: u16, arr: &Vec<u8>) -> (r: Result<
        usize,
        RtlsdrError,
    >)
        ensures
            final(self).history() == old(self).history().push(arr_write_op(block, addr, arr@)),
            r matches Ok(n) ==> n <= arr@.len(),
            r matches Err(e) ==> e is Usb,
    {
        self.port.write_control(addr, (block << 8) | 0x10, arr)
    }
}

} // verus!
