//! The libusb-backed port: every verified device operation ultimately
//! goes through one of the trusted wrappers in this file, and device
//! discovery walks the bus through the wrappers around rusb's
//! enumeration calls.

use vstd::prelude::*;

use rusb::UsbContext;

use crate::constants::is_known_device;
use crate::error::RtlsdrError;
use crate::port::UsbPort;
use crate::usb_model::UsbOp;
use crate::DeviceId;

verus! {

/// Holds the open libusb handle.  `rusb::DeviceHandle` is generic over
/// the outside `UsbContext` trait, which the verifier cannot take in a
/// type declaration, so the handle lives in this opaque wrapper struct.
#[verifier::external_body]
struct RawUsbHandle {
    handle: rusb::DeviceHandle<rusb::Context>,
}

/// Vendor IN request type (endpoint direction IN | vendor class).
pub const CTRL_IN: u8 = 0xc0;

/// Vendor OUT request type (endpoint direction OUT | vendor class).
pub const CTRL_OUT: u8 = 0x40;

/// A [`UsbPort`] carried by an open libusb device handle.
///
/// The ghost history mirrors, one entry per wrapper call, the vendor
/// control transfers and bulk reads the wrappers below hand to libusb;
/// standard requests (string descriptors) are not part of the model.
pub struct RusbPort {
    raw: RawUsbHandle,
    hist: Ghost<Seq<UsbOp>>,
}

impl RusbPort {
    /// Relies on rusb's `DeviceHandle::claim_interface`: claims the
    /// numbered interface of the open device.  The recorded operation is
    /// the one call made here.
    #[verifier::external_body]
    fn libusb_claim_interface(&mut self, iface: u8) -> (r: Result<(), RtlsdrError>)
        ensures
            final(self).hist@ == old(self).hist@.push(UsbOp::ClaimInterface { iface }),
            r matches Err(e) ==> e is Usb,
    {
        match self.raw.handle.claim_interface(iface) {
            Ok(()) => Ok(()),
            Err(e) => Err(RtlsdrError::Usb(format!("{}", e))),
        }
    }

    /// Relies on rusb's `DeviceHandle::reset`: performs a USB device
    /// reset.  The recorded operation is the one call made here.
    #[verifier::external_body]
    fn libusb_reset(&mut self) -> (r: Result<(), RtlsdrError>)
        ensures
            final(self).hist@ == old(self).hist@.push(UsbOp::Reset),
            r matches Err(e) ==> e is Usb,
    {
        match self.raw.handle.reset() {
            Ok(()) => Ok(()),
            Err(e) => Err(RtlsdrError::Usb(format!("{}", e))),
        }
    }

    /// Relies on rusb's `DeviceHandle::read_control` with the vendor IN
    /// request type, request 0 and a 300 ms timeout: on `Ok(n)` the first
    /// `n` bytes of the buffer hold what the device delivered, `n` no
    /// larger than the buffer; on an error no bytes were read.  The
    /// recorded operation is the one call made here.
    #[verifier::external_body]
    fn libusb_read_control(&mut self, value: u16, index: u16, len: usize) -> (r: Result<
        Vec<u8>,
        RtlsdrError,
    >)
        ensures
            match r {
                Ok(data) => data@.len() <= len && final(self).hist@ == old(self).hist@.push(
                    UsbOp::ControlIn { value, index, data: data@ },
                ),
                Err(_) => final(self).hist@ == old(self).hist@.push(
                    UsbOp::ControlIn { value, index, data: Seq::empty() },
                ),
            },
            r matches Err(e) ==> e is Usb,
    {
        let mut buf = vec![0u8; len];
        let timeout = std::time::Duration::from_millis(300);
        match self.raw.handle.read_control(CTRL_IN, 0, value, index, &mut buf, timeout) {
            Ok(n) => {
                buf.truncate(n);
                Ok(buf)
            },
            Err(e) => Err(RtlsdrError::Usb(format!("{}", e))),
        }
    }

    /// Relies on rusb's `DeviceHandle::write_control` with the vendor OUT
    /// request type, request 0 and a 300 ms timeout: on `Ok(n)`, `n` bytes
    /// of the payload were transferred.  The recorded operation is the
    /// one call made here.
    #[verifier::external_body]
    fn libusb_write_control(&mut self, value: u16, index: u16, data: &Vec<u8>) -> (r: Result<
        usize,
        RtlsdrError,
    >)
        ensures
            final(self).hist@ == old(self).hist@.push(
                UsbOp::ControlOut { value, index, data: data@ },
            ),
            r matches Ok(n) ==> n <= data@.len(),
            r matches Err(e) ==> e is Usb,
    {
        let timeout = std::time::Duration::from_millis(300);
        match self.raw.handle.write_control(CTRL_OUT, 0, value, index, data.as_slice(), timeout) {
            Ok(n) => Ok(n),
            Err(e) => Err(RtlsdrError::Usb(format!("{}", e))),
        }
    }

    /// Relies on rusb's `DeviceHandle::read_bulk` with a zero (infinite)
    /// timeout: on `Ok(n)` the first `n` bytes of the buffer hold what the
    /// endpoint delivered, `n` no larger than the buffer; on an error the
    /// driver gets no bytes.  The recorded operation is the one call made
    /// here.
    #[verifier::external_body]
    fn libusb_read_bulk(&mut self, endpoint: u8, max_len: usize) -> (r: Result<
        Vec<u8>,
        RtlsdrError,
    >)
        ensures
            match r {
                Ok(data) => data@.len() <= max_len && final(self).hist@ == old(self).hist@.push(
                    UsbOp::BulkIn { endpoint, data: data@ },
                ),
                Err(_) => final(self).hist@ == old(self).hist@.push(
                    UsbOp::BulkIn { endpoint, data: Seq::empty() },
                ),
            },
            r matches Err(e) ==> e is Usb,
    {
        let mut buf = vec![0u8; max_len];
        match self.raw.handle.read_bulk(endpoint, &mut buf, std::time::Duration::ZERO) {
            Ok(n) => {
                buf.truncate(n);
                Ok(buf)
            },
            Err(e) => Err(RtlsdrError::Usb(format!("{}", e))),
        }
    }

    /// Relies on rusb's `DeviceHandle::read_string_descriptor_ascii`:
    /// reads the ASCII string descriptor with the given index.
    #[verifier::external_body]
    fn libusb_read_string_ascii(&self, idx: u8) -> (r: Result<String, RtlsdrError>) {
        match self.raw.handle.read_string_descriptor_ascii(idx) {
            Ok(s) => Ok(s),
            Err(e) => Err(RtlsdrError::Usb(format!("{}", e))),
        }
    }

    /// Relies on rusb's `Device::device_descriptor` (through
    /// `DeviceHandle::device`): hands back the manufacturer, product and
    /// serial-number string-descriptor indexes of the open device.
    #[verifier::external_body]
    fn libusb_string_indexes(&self) -> (r: Result<
        (Option<u8>, Option<u8>, Option<u8>),
        RtlsdrError,
    >) {
        match self.raw.handle.device().device_descriptor() {
            Ok(d) => Ok(
                (
                    d.manufacturer_string_index(),
                    d.product_string_index(),
                    d.serial_number_string_index(),
                ),
            ),
            Err(e) => Err(RtlsdrError::Usb(format!("{}", e))),
        }
    }

    /// The manufacturer, product and serial strings of the open device,
    /// each absent when the device offers no such descriptor.
    pub fn get_usb_strings(&self) -> (r: Result<
        (Option<String>, Option<String>, Option<String>),
        RtlsdrError,
    >) {
        let (mi, pi, si) = self.libusb_string_indexes()?;
        let manufacturer = match mi {
            Some(i) => Some(self.libusb_read_string_ascii(i)?),
            None => None,
        };
        let product = match pi {
            Some(i) => Some(self.libusb_read_string_ascii(i)?),
            None => None,
        };
        let serial = match si {
            Some(i) => Some(self.libusb_read_string_ascii(i)?),
            None => None,
        };
        Ok((manufacturer, product, serial))
    }
}

impl UsbPort for RusbPort {
    closed spec fn history(&self) -> Seq<UsbOp> {
        self.hist@
    }

    fn claim_interface(&mut self, iface: u8) -> (r: Result<(), RtlsdrError>) {
        self.libusb_claim_interface(iface)
    }

    fn reset(&mut self) -> (r: Result<(), RtlsdrError>) {
        self.libusb_reset()
    }

    fn read_control(&mut self, value: u16, index: u16, len: usize) -> (r: Result<
        Vec<u8>,
        RtlsdrError,
    >) {
        self.libusb_read_control(value, index, len)
    }

    fn write_control(&mut self, value: u16, index: u16, data: &Vec<u8>) -> (r: Result<
        usize,
        RtlsdrError,
    >) {
        self.libusb_write_control(value, index, data)
    }

    fn read_bulk(&mut self, endpoint: u8, max_len: usize) -> (r: Result<Vec<u8>, RtlsdrError>) {
        self.libusb_read_bulk(endpoint, max_len)
    }
}

/// A snapshot of the devices on the USB bus.  `rusb::Device` is generic
/// over the outside `UsbContext` trait, which the verifier cannot take
/// in a type declaration, so the snapshot lives in this opaque struct.
#[verifier::external_body]
pub struct UsbDeviceList {
    devices: Vec<rusb::Device<rusb::Context>>,
}

/// The number of devices in a bus snapshot.
pub uninterp spec fn device_list_len(list: UsbDeviceList) -> nat;

/// Relies on rusb's `Context::new` and `UsbContext::devices`: takes a
/// snapshot of the devices currently on the bus.
#[verifier::external_body]
pub fn usb_device_list() -> (r: Result<UsbDeviceList, RtlsdrError>) {
    let ctx = match rusb::Context::new() {
        Ok(c) => c,
        Err(e) => {
            return Err(RtlsdrError::Usb(format!("{}", e)));
        },
    };
    match ctx.devices() {
        Ok(list) => Ok(UsbDeviceList { devices: list.iter().collect() }),
        Err(e) => Err(RtlsdrError::Usb(format!("{}", e))),
    }
}

impl UsbDeviceList {
    /// Relies on `Vec::len`: the number of devices in the snapshot.
    #[verifier::external_body]
    pub fn count(&self) -> (r: usize)
        ensures
            r == device_list_len(*self),
    {
        self.devices.len()
    }

    /// Relies on rusb's `Device::device_descriptor`: the vendor and
    /// product id of the i-th device of the snapshot.
    #[verifier::external_body]
    pub fn vid_pid(&self, i: usize) -> (r: Result<(u16, u16), RtlsdrError>)
        requires
            i < device_list_len(*self),
    {
        match self.devices[i].device_descriptor() {
            Ok(d) => Ok((d.vendor_id(), d.product_id())),
            Err(e) => Err(RtlsdrError::Usb(format!("{}", e))),
        }
    }

    /// Relies on rusb's `Device::open`: opens the i-th device of the
    /// snapshot.
    #[verifier::external_body]
    fn open_raw_at(&self, i: usize) -> (r: Result<RawUsbHandle, RtlsdrError>)
        requires
            i < device_list_len(*self),
    {
        match self.devices[i].open() {
            Ok(handle) => Ok(RawUsbHandle { handle }),
            Err(e) => Err(RtlsdrError::Usb(format!("{}", e))),
        }
    }

    /// Open the i-th device of the snapshot; a fresh port starts with an
    /// empty history.
    pub fn open_at(&self, i: usize) -> (r: Result<RusbPort, RtlsdrError>)
        requires
            i < device_list_len(*self),
        ensures
            r matches Ok(p) ==> p.history() == Seq::<UsbOp>::empty(),
    {
        let raw = self.open_raw_at(i)?;
        Ok(RusbPort { raw, hist: Ghost(Seq::empty()) })
    }

    /// Relies on rusb's `Device::device_descriptor`: the serial-number
    /// string-descriptor index of the i-th device, absent when the
    /// device offers none.
    #[verifier::external_body]
    pub fn serial_index(&self, i: usize) -> (r: Result<Option<u8>, RtlsdrError>)
        requires
            i < device_list_len(*self),
    {
        match self.devices[i].device_descriptor() {
            Ok(d) => Ok(d.serial_number_string_index()),
            Err(e) => Err(RtlsdrError::Usb(format!("{}", e))),
        }
    }
}

/// Open the dongle selected by `device_id`.
///
/// `Index(n)` opens the n-th recognised device in bus order; `Serial(s)`
/// opens the recognised device whose serial string equals `s`.  `Fd`
/// cannot be served here: wrapping a raw file descriptor needs an
/// unsafe libusb call, which this crate does not make.
pub fn open_port(device_id: &DeviceId) -> (r: Result<RusbPort, RtlsdrError>)
    ensures
        r matches Ok(p) ==> p.history() == Seq::<UsbOp>::empty(),
        (*device_id) is Fd ==> r is Err,
{
    match device_id {
        DeviceId::Index(target) => open_by_index(*target),
        DeviceId::Serial(s) => open_by_serial(s),
        DeviceId::Fd(_) => Err(
            RtlsdrError::RtlsdrErr(
                "File descriptor opening is not supported by this build".to_string(),
            ),
        ),
    }
}

/// Open the `target`-th recognised device in bus-discovery order.
fn open_by_index(target: usize) -> (r: Result<RusbPort, RtlsdrError>)
    ensures
        r matches Ok(p) ==> p.history() == Seq::<UsbOp>::empty(),
{
    let list = usb_device_list()?;
    let n = list.count();
    let mut current: usize = 0;
    let mut i: usize = 0;
    while i < n
        invariant
            n == device_list_len(list),
            current <= i,
            i <= n,
        decreases n - i,
    {
        if let Ok((vid, pid)) = list.vid_pid(i) {
            if is_known_device(vid, pid) {
                if current == target {
                    return list.open_at(i);
                }
                current = current + 1;
            }
        }
        i = i + 1;
    }
    Err(RtlsdrError::RtlsdrErr("No matching device found".to_string()))
}

/// Open the recognised device whose serial string equals `target`.
fn open_by_serial(target: &String) -> (r: Result<RusbPort, RtlsdrError>)
    ensures
        r matches Ok(p) ==> p.history() == Seq::<UsbOp>::empty(),
{
    let list = usb_device_list()?;
    let n = list.count();
    let mut i: usize = 0;
    while i < n
        invariant
            n == device_list_len(list),
        decreases n - i,
    {
        if let Ok((vid, pid)) = list.vid_pid(i) {
            if is_known_device(vid, pid) {
                if let Ok(port) = list.open_at(i) {
                    if let Ok(Some(idx)) = list.serial_index(i) {
                        if let Ok(s) = port.libusb_read_string_ascii(idx) {
                            if s == *target {
                                return Ok(port);
                            }
                        }
                    }
                }
            }
        }
        i = i + 1;
    }
    Err(RtlsdrError::RtlsdrErr("No matching device found".to_string()))
}

} // verus!
