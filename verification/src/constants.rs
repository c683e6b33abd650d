//! Register blocks, register addresses and the table of recognised
//! (vendor, product) pairs of RTL2832U dongles.

use vstd::prelude::*;

verus! {

// Register blocks of the RTL2832U control plane.
pub const BLOCK_DEMOD: u16 = 0;

pub const BLOCK_USB: u16 = 1;

pub const BLOCK_SYS: u16 = 2;

pub const BLOCK_TUN: u16 = 3;

pub const BLOCK_ROM: u16 = 4;

pub const BLOCK_IRB: u16 = 5;

pub const BLOCK_IIC: u16 = 6;

// System-block registers.
pub const DEMOD_CTL: u16 = 0x3000;

pub const GPO: u16 = 0x3001;

pub const GPI: u16 = 0x3002;

pub const GPOE: u16 = 0x3003;

pub const GPD: u16 = 0x3004;

pub const SYSINTE: u16 = 0x3005;

pub const SYSINTS: u16 = 0x3006;

pub const GP_CFG0: u16 = 0x3007;

pub const GP_CFG1: u16 = 0x3008;

pub const SYSINTE_1: u16 = 0x3009;

pub const SYSINTS_1: u16 = 0x300a;

pub const DEMOD_CTL_1: u16 = 0x300b;

pub const IR_SUSPEND: u16 = 0x300c;

// USB-block registers.
pub const USB_SYSCTL: u16 = 0x2000;

pub const USB_CTRL: u16 = 0x2010;

pub const USB_STAT: u16 = 0x2014;

pub const USB_EPA_CFG: u16 = 0x2144;

pub const USB_EPA_CTL: u16 = 0x2148;

pub const USB_EPA_MAXPKT: u16 = 0x2158;

pub const USB_EPA_MAXPKT_2: u16 = 0x215a;

pub const USB_EPA_FIFO_CFG: u16 = 0x2160;

/// I2C address of the EEPROM behind the IIC block.
pub const EEPROM_ADDR: u16 = 0xa0;

/// Size of the configuration EEPROM in bytes.
pub const EEPROM_SIZE: usize = 256;

/// A (vendor id, product id) pair of a known RTL2832U product, with a
/// human-readable description.
pub struct UsbDeviceSignature {
    pub vid: u16,
    pub pid: u16,
    pub description: &'static str,
}

/// Whether `(vid, pid)` belongs to the table of recognised dongles.
pub open spec fn spec_is_known_device(vid: u16, pid: u16) -> bool {
    ||| (vid == 0x0bda && (pid == 0x2832 || pid == 0x2838))
    ||| (vid == 0x0413 && (pid == 0x6680 || pid == 0x6f0f))
    ||| (vid == 0x0458 && pid == 0x707f)
    ||| (vid == 0x0ccd && (pid == 0x00a9 || pid == 0x00b3 || pid == 0x00b4 || pid == 0x00b5
        || pid == 0x00b7 || pid == 0x00b8 || pid == 0x00b9 || pid == 0x00c0 || pid == 0x00c6
        || pid == 0x00d3 || pid == 0x00d7 || pid == 0x00e0))
    ||| (vid == 0x1554 && pid == 0x5020)
    ||| (vid == 0x15f4 && (pid == 0x0131 || pid == 0x0133))
    ||| (vid == 0x185b && (pid == 0x0620 || pid == 0x0650 || pid == 0x0680))
    ||| (vid == 0x1b80 && (pid == 0xd393 || pid == 0xd394 || pid == 0xd395 || pid == 0xd397
        || pid == 0xd398 || pid == 0xd39d || pid == 0xd3a4 || pid == 0xd3a8 || pid == 0xd3af
        || pid == 0xd3b0))
    ||| (vid == 0x1d19 && (pid == 0x1101 || pid == 0x1102 || pid == 0x1103 || pid == 0x1104))
    ||| (vid == 0x1f4d && (pid == 0xa803 || pid == 0xb803 || pid == 0xc803 || pid == 0xd286
        || pid == 0xd803))
}

/// Whether `(vid, pid)` belongs to the table of recognised dongles.
pub fn is_known_device(vid: u16, pid: u16) -> (r: bool)
    ensures
        r == spec_is_known_device(vid, pid),
{
    (vid == 0x0bda && (pid == 0x2832 || pid == 0x2838)) || (vid == 0x0413 && (pid == 0x6680
        || pid == 0x6f0f)) || (vid == 0x0458 && pid == 0x707f) || (vid == 0x0ccd && (pid == 0x00a9
        || pid == 0x00b3 || pid == 0x00b4 || pid == 0x00b5 || pid == 0x00b7 || pid == 0x00b8
        || pid == 0x00b9 || pid == 0x00c0 || pid == 0x00c6 || pid == 0x00d3 || pid == 0x00d7
        || pid == 0x00e0)) || (vid == 0x1554 && pid == 0x5020) || (vid == 0x15f4 && (pid == 0x0131
        || pid == 0x0133)) || (vid == 0x185b && (pid == 0x0620 || pid == 0x0650 || pid == 0x0680))
        || (vid == 0x1b80 && (pid == 0xd393 || pid == 0xd394 || pid == 0xd395 || pid == 0xd397
        || pid == 0xd398 || pid == 0xd39d || pid == 0xd3a4 || pid == 0xd3a8 || pid == 0xd3af
        || pid == 0xd3b0)) || (vid == 0x1d19 && (pid == 0x1101 || pid == 0x1102 || pid == 0x1103
        || pid == 0x1104)) || (vid == 0x1f4d && (pid == 0xa803 || pid == 0xb803 || pid == 0xc803
        || pid == 0xd286 || pid == 0xd803))
}

/// The table of recognised dongles, in the order devices are matched.
pub fn known_devices() -> (r: Vec<UsbDeviceSignature>)
    ensures
        r@.len() == 42,
        forall|i: int|
            0 <= i < r@.len() ==> spec_is_known_device(#[trigger] r@[i].vid, r@[i].pid),
{
    let mut v: Vec<UsbDeviceSignature> = Vec::new();
    v.push(UsbDeviceSignature { vid: 0x0bda, pid: 0x2832, description: "Generic RTL2832U" });
    v.push(UsbDeviceSignature { vid: 0x0bda, pid: 0x2838, description: "Generic RTL2832U OEM" });
    v.push(
        UsbDeviceSignature {
            vid: 0x0413,
            pid: 0x6680,
            description: "DigitalNow Quad DVB-T PCI-E card",
        },
    );
    v.push(
        UsbDeviceSignature {
            vid: 0x0413,
            pid: 0x6f0f,
            description: "Leadtek WinFast DTV Dongle mini D",
        },
    );
    v.push(
        UsbDeviceSignature {
            vid: 0x0458,
            pid: 0x707f,
            description: "Genius TVGo DVB-T03 USB dongle (Ver. B)",
        },
    );
    v.push(
        UsbDeviceSignature {
            vid: 0x0ccd,
            pid: 0x00a9,
            description: "Terratec Cinergy T Stick Black (rev 1)",
        },
    );
    v.push(
        UsbDeviceSignature {
            vid: 0x0ccd,
            pid: 0x00b3,
            description: "Terratec NOXON DAB/DAB+ USB dongle (rev 1)",
        },
    );
    v.push(
        UsbDeviceSignature {
            vid: 0x0ccd,
            pid: 0x00b4,
            description: "Terratec Deutschlandradio DAB Stick",
        },
    );
    v.push(
        UsbDeviceSignature {
            vid: 0x0ccd,
            pid: 0x00b5,
            description: "Terratec NOXON DAB Stick - Radio Energy",
        },
    );
    v.push(
        UsbDeviceSignature {
            vid: 0x0ccd,
            pid: 0x00b7,
            description: "Terratec Media Broadcast DAB Stick",
        },
    );
    v.push(UsbDeviceSignature { vid: 0x0ccd, pid: 0x00b8, description: "Terratec BR DAB Stick" });
    v.push(UsbDeviceSignature { vid: 0x0ccd, pid: 0x00b9, description: "Terratec WDR DAB Stick" });
    v.push(
        UsbDeviceSignature {
            vid: 0x0ccd,
            pid: 0x00c0,
            description: "Terratec MuellerVerlag DAB Stick",
        },
    );
    v.push(
        UsbDeviceSignature {
            vid: 0x0ccd,
            pid: 0x00c6,
            description: "Terratec Fraunhofer DAB Stick",
        },
    );
    v.push(
        UsbDeviceSignature {
            vid: 0x0ccd,
            pid: 0x00d3,
            description: "Terratec Cinergy T Stick RC (Rev.3)",
        },
    );
    v.push(UsbDeviceSignature { vid: 0x0ccd, pid: 0x00d7, description: "Terratec T Stick PLUS" });
    v.push(
        UsbDeviceSignature {
            vid: 0x0ccd,
            pid: 0x00e0,
            description: "Terratec NOXON DAB/DAB+ USB dongle (rev 2)",
        },
    );
    v.push(
        UsbDeviceSignature { vid: 0x1554, pid: 0x5020, description: "PixelView PV-DT235U(RN)" },
    );
    v.push(
        UsbDeviceSignature { vid: 0x15f4, pid: 0x0131, description: "Astrometa DVB-T/DVB-T2" },
    );
    v.push(UsbDeviceSignature { vid: 0x15f4, pid: 0x0133, description: "HanfTek DAB+FM+DVB-T" });
    v.push(
        UsbDeviceSignature { vid: 0x185b, pid: 0x0620, description: "Compro Videomate U620F" },
    );
    v.push(
        UsbDeviceSignature { vid: 0x185b, pid: 0x0650, description: "Compro Videomate U650F" },
    );
    v.push(
        UsbDeviceSignature { vid: 0x185b, pid: 0x0680, description: "Compro Videomate U680F" },
    );
    v.push(UsbDeviceSignature { vid: 0x1b80, pid: 0xd393, description: "GIGABYTE GT-U7300" });
    v.push(UsbDeviceSignature { vid: 0x1b80, pid: 0xd394, description: "DIKOM USB-DVBT HD" });
    v.push(UsbDeviceSignature { vid: 0x1b80, pid: 0xd395, description: "Peak 102569AGPK" });
    v.push(
        UsbDeviceSignature {
            vid: 0x1b80,
            pid: 0xd397,
            description: "KWorld KW-UB450-T USB DVB-T Pico TV",
        },
    );
    v.push(UsbDeviceSignature { vid: 0x1b80, pid: 0xd398, description: "Zaapa ZT-MINDVBZP" });
    v.push(
        UsbDeviceSignature { vid: 0x1b80, pid: 0xd39d, description: "SVEON STV20 DVB-T USB & FM" },
    );
    v.push(UsbDeviceSignature { vid: 0x1b80, pid: 0xd3a4, description: "Twintech UT-40" });
    v.push(
        UsbDeviceSignature { vid: 0x1b80, pid: 0xd3a8, description: "ASUS U3100MINI_PLUS_V2" },
    );
    v.push(
        UsbDeviceSignature { vid: 0x1b80, pid: 0xd3af, description: "SVEON STV27 DVB-T USB & FM" },
    );
    v.push(
        UsbDeviceSignature { vid: 0x1b80, pid: 0xd3b0, description: "SVEON STV21 DVB-T USB & FM" },
    );
    v.push(
        UsbDeviceSignature {
            vid: 0x1d19,
            pid: 0x1101,
            description: "Dexatek DK DVB-T Dongle (Logilink VG0002A)",
        },
    );
    v.push(
        UsbDeviceSignature {
            vid: 0x1d19,
            pid: 0x1102,
            description: "Dexatek DK DVB-T Dongle (MSI DigiVox mini II V3.0)",
        },
    );
    v.push(
        UsbDeviceSignature {
            vid: 0x1d19,
            pid: 0x1103,
            description: "Dexatek Technology Ltd. DK 5217 DVB-T Dongle",
        },
    );
    v.push(UsbDeviceSignature { vid: 0x1d19, pid: 0x1104, description: "MSI DigiVox Micro HD" });
    v.push(UsbDeviceSignature { vid: 0x1f4d, pid: 0xa803, description: "Sweex DVB-T USB" });
    v.push(UsbDeviceSignature { vid: 0x1f4d, pid: 0xb803, description: "GTek T803" });
    v.push(UsbDeviceSignature { vid: 0x1f4d, pid: 0xc803, description: "Lifeview LV5TDeluxe" });
    v.push(UsbDeviceSignature { vid: 0x1f4d, pid: 0xd286, description: "MyGica TD312" });
    v.push(UsbDeviceSignature { vid: 0x1f4d, pid: 0xd803, description: "PROlectrix DV107669" });
    v
}

} // verus!
