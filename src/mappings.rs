//! Static description of the supported devices: identity, geometry,
//! button addressing and image parameters.

use vstd::prelude::*;

verus! {

/// Namespace under which the host locates this device family.
pub const DEVICE_NAMESPACE: &'static str = "a5";

/// Rows of physical buttons.
pub const ROW_COUNT: usize = 2;

/// Columns of physical buttons.
pub const COL_COUNT: usize = 5;

/// Physical buttons in the main grid.
pub const KEY_COUNT: usize = 10;

/// Rotary encoders.
pub const ENCODER_COUNT: usize = 4;

/// Vendor id shared by the supported devices.
pub const AJAZZ_VID: u16 = 0x0300;

/// Product id of the earlier hardware revision, served as an AKP05E.
pub const AKP03E_REV2_PID: u16 = 0x3002;

/// Product id of the AKP05E.
pub const AKP05E_PID: u16 = 0x3004;

/// HID usage page that the devices' input interface reports.
pub const USAGE_PAGE: u16 = 65440;

/// HID usage id that the devices' input interface reports.
pub const USAGE_ID: u16 = 1;

/// Number of grid slots addressed by software: the buttons plus the
/// encoder row.
pub const SLOT_COUNT: usize = 15;

/// Encoding of the images sent to the device.
#[derive(Debug, Clone, Copy, PartialEq, Eq, Structural)]
pub enum ImageMode {
    NoImage,
    BMP,
    JPEG,
}

/// Rotation applied to images before they are sent.
#[derive(Debug, Clone, Copy, PartialEq, Eq, Structural)]
pub enum ImageRotation {
    Rot0,
    Rot90,
    Rot180,
    Rot270,
}

/// Mirroring applied to images before they are sent.
#[derive(Debug, Clone, Copy, PartialEq, Eq, Structural)]
pub enum ImageMirroring {
    NoMirror,
    X,
    Y,
    Both,
}

/// Parameters of the images that a device displays.
#[derive(Debug, Clone, Copy)]
pub struct ImageFormat {
    pub mode: ImageMode,
    /// Width and height in pixels.
    pub size: (usize, usize),
    pub rotation: ImageRotation,
    pub mirror: ImageMirroring,
}

/// Side of the square images that the keys display, in pixels.
pub const IMAGE_SIDE: usize = 120;

/// A supported device model.
#[derive(Debug, Clone, Copy, PartialEq, Eq, Structural)]
pub enum Kind {
    Akp05E,
}

/// The model that a vendor/product id pair identifies, if any.
pub open spec fn kind_of(vid: u16, pid: u16) -> Option<Kind> {
    if vid == AJAZZ_VID && (pid == AKP03E_REV2_PID || pid == AKP05E_PID) {
        Some(Kind::Akp05E)
    } else {
        None
    }
}

/// Physical index that software slot `i` addresses: the encoder row
/// (software 0..5) sits at physical 10..15, the middle row keeps its
/// place, and the top row (software 10..15) sits at physical 0..5.
pub open spec fn physical_index(i: int) -> int {
    if i < 5 {
        i + 10
    } else if i < 10 {
        i
    } else {
        i - 10
    }
}

/// Software indices are exactly those below `SLOT_COUNT`.
pub open spec fn is_software_index(i: int) -> bool {
    0 <= i < SLOT_COUNT
}

impl Kind {
    /// Returns the number of rows for this device
    pub fn row_count(&self) -> (r: usize)
        ensures
            r == ROW_COUNT,
    {
        ROW_COUNT
    }

    /// Returns the number of columns for this device
    pub fn col_count(&self) -> (r: usize)
        ensures
            r == COL_COUNT,
    {
        COL_COUNT
    }

    /// Returns the total number of keys for this device
    pub fn key_count(&self) -> (r: usize)
        ensures
            r == KEY_COUNT,
    {
        KEY_COUNT
    }

    /// Returns the number of encoders for this device
    pub fn encoder_count(&self) -> (r: usize)
        ensures
            r == ENCODER_COUNT,
    {
        ENCODER_COUNT
    }

    /// Matches devices VID+PID pairs to correct kinds
    pub fn from_vid_pid(vid: u16, pid: u16) -> (r: Option<Self>)
        ensures
            r == kind_of(vid, pid),
    {
        match vid {
            AJAZZ_VID => match pid {
                AKP03E_REV2_PID => Some(Kind::Akp05E),
                AKP05E_PID => Some(Kind::Akp05E),
                _ => None,
            },
            _ => None,
        }
    }

    /// Maps software button index to physical device button index
    pub fn map_button_index(&self, software_index: usize) -> (r: usize)
        requires
            is_software_index(software_index as int),
        ensures
            r as int == physical_index(software_index as int),
    {
        match self {
            Kind::Akp05E => {
                match software_index {
                    0 => 10,
                    1 => 11,
                    2 => 12,
                    3 => 13,
                    4 => 14,
                    5 => 5,
                    6 => 6,
                    7 => 7,
                    8 => 8,
                    9 => 9,
                    10 => 0,
                    11 => 1,
                    12 => 2,
                    13 => 3,
                    _ => 4,
                }
            },
        }
    }

    /// Returns human-readable device name
    pub fn human_name(&self) -> (r: String)
        ensures
            r@ == "Ajazz AKP05E"@,
    {
        match self {
            Kind::Akp05E => "Ajazz AKP05E",
        }.to_string()
    }

    /// Returns protocol version for device
    pub fn protocol_version(&self) -> (r: usize)
        ensures
            r == 3,
    {
        3
    }

    /// Returns image format configuration
    pub fn image_format(&self) -> (r: ImageFormat)
        ensures
            r == (ImageFormat {
                mode: ImageMode::JPEG,
                size: (IMAGE_SIDE, IMAGE_SIDE),
                rotation: ImageRotation::Rot180,
                mirror: ImageMirroring::NoMirror,
            }),
    {
        ImageFormat {
            mode: ImageMode::JPEG,
            size: (IMAGE_SIDE, IMAGE_SIDE),
            rotation: ImageRotation::Rot180,
            mirror: ImageMirroring::NoMirror,
        }
    }
}

/// The software-to-physical mapping is a bijection of the software indices
/// onto themselves, and its own inverse: mapping twice gives the index back.
pub proof fn lemma_button_index_bijection(i: int, j: int)
    requires
        is_software_index(i),
        is_software_index(j),
    ensures
        is_software_index(physical_index(i)),
        physical_index(physical_index(i)) == i,
        physical_index(i) == physical_index(j) ==> i == j,
        exists|s: int| is_software_index(s) && physical_index(s) == j,
{
    assert(is_software_index(physical_index(j)) && physical_index(physical_index(j)) == j);
}

} // verus!
