//! Boot information of the firmware images and the decisions of an image
//! update; the file operations themselves are the caller's.
use vstd::prelude::*;

verus! {

/// Boot-info code of an image under test.
pub const IMG_STATUS_TESTING: u32 = 0x12344321;

/// Boot-info code of an image ready to be tested.
pub const IMG_STATUS_TESTREADY: u32 = 0x56788765;

/// Boot-info code of an image not under test.
pub const IMG_STATUS_NOTEST: u32 = 0xABCDDCBA;

/// Flags of a commit or test call that ask for a reset of the
/// microcontroller or of the network processor.
pub const FLC_TEST_RESET_MCU: i32 = 1;

pub const FLC_TEST_RESET_NWP: i32 = 2;

/// File of the boot information.
pub const IMG_BOOT_INFO: &'static str = "/sys/mcubootinfo.bin";

/// File of the factory image.
pub const IMG_FACTORY_DEFAULT: &'static str = "/sys/mcuimg1.bin";

/// Files of the two user images.
pub const IMG_USER_1: &'static str = "/sys/mcuimg2.bin";

pub const IMG_USER_2: &'static str = "/sys/mcuimg3.bin";

/// Where the active image stands in its test cycle.
#[derive(Clone, Copy, Debug, PartialEq, Eq, Structural)]
pub enum ImageStatus {
    TESTING,
    TESTREADY,
    NOTEST,
}

impl ImageStatus {
    pub open spec fn spec_to_u32(self) -> u32 {
        match self {
            ImageStatus::TESTING => IMG_STATUS_TESTING,
            ImageStatus::TESTREADY => IMG_STATUS_TESTREADY,
            ImageStatus::NOTEST => IMG_STATUS_NOTEST,
        }
    }

    /// The status a boot-info code stands for; other codes are refused.
    pub fn from_u32(value: u32) -> (r: Result<ImageStatus, ()>)
        ensures
            match r {
                Ok(s) => s.spec_to_u32() == value,
                Err(_) => forall|s: ImageStatus| s.spec_to_u32() != value,
            },
    {
        if value == IMG_STATUS_TESTING {
            Ok(ImageStatus::TESTING)
        } else if value == IMG_STATUS_TESTREADY {
            Ok(ImageStatus::TESTREADY)
        } else if value == IMG_STATUS_NOTEST {
            Ok(ImageStatus::NOTEST)
        } else {
            Err(())
        }
    }

    /// The boot-info code of a status.
    pub fn to_u32(image_status: ImageStatus) -> (r: Result<u32, ()>)
        ensures
            r == Ok::<u32, ()>(image_status.spec_to_u32()),
    {
        match image_status {
            ImageStatus::NOTEST => Ok(IMG_STATUS_NOTEST),
            ImageStatus::TESTREADY => Ok(IMG_STATUS_TESTREADY),
            ImageStatus::TESTING => Ok(IMG_STATUS_TESTING),
        }
    }
}

/// Which image is active, and its test status.
#[derive(Clone, Copy, Debug, PartialEq, Eq, Structural)]
pub struct BootInfo {
    pub active_image: u8,
    pub image_status: ImageStatus,
}

/// The eight bytes of a boot-info file: the active image in the first byte,
/// three zero bytes, then the status code least significant byte first.
pub open spec fn boot_info_bytes(b: BootInfo) -> Seq<u8> {
    let s = b.image_status.spec_to_u32() as int;
    seq![
        b.active_image,
        0u8,
        0u8,
        0u8,
        (s % 256) as u8,
        (s / 256 % 256) as u8,
        (s / 65536 % 256) as u8,
        (s / 16777216) as u8,
    ]
}

/// What to do with the file of the next image before it is created anew.
#[derive(Clone, Copy, Debug, PartialEq, Eq, Structural)]
pub enum ImageFilePlan {
    /// The file is large enough, or absent: create over it.
    Keep,
    /// The file is too small for the new image: remove it, failing the
    /// update if that fails.
    Remove,
    /// Nothing is known of the file: remove it if it exists, ignoring
    /// failure.
    RemoveIfPresent,
}

impl BootInfo {
    pub fn new(active_image: u8, image_status: ImageStatus) -> (r: BootInfo)
        ensures
            r.active_image == active_image,
            r.image_status == image_status,
    {
        BootInfo { active_image, image_status }
    }

    /// The boot information of a factory reset: the factory image, not
    /// under test.
    pub fn factory_reset() -> (r: BootInfo)
        ensures
            r.active_image == 0,
            r.image_status == ImageStatus::NOTEST,
    {
        BootInfo::new(0, ImageStatus::NOTEST)
    }

    /// The file of the active image; an unknown image number means the
    /// factory image.
    pub fn image_filename(&self) -> (r: &'static str)
        ensures
            self.active_image == 1 ==> r == IMG_USER_1,
            self.active_image == 2 ==> r == IMG_USER_2,
            self.active_image != 1 && self.active_image != 2 ==> r == IMG_FACTORY_DEFAULT,
    {
        match self.active_image {
            1 => IMG_USER_1,
            2 => IMG_USER_2,
            _ => IMG_FACTORY_DEFAULT,
        }
    }

    /// The file to write an update to: the second user image after booting
    /// the first, the first user image otherwise.
    pub fn next_image_filename(&self) -> (r: &'static str)
        ensures
            self.active_image == 1 ==> r == IMG_USER_2,
            self.active_image != 1 ==> r == IMG_USER_1,
    {
        match self.active_image {
            1 => IMG_USER_2,
            _ => IMG_USER_1,
        }
    }
}

/// Decisions of the image-update flow.
pub struct Update {}

impl Update {
    /// Whether the flags returned by a test or commit call ask for a reset.
    pub fn reset_is_required(flags: i32) -> (r: bool)
        ensures
            r == (flags & (FLC_TEST_RESET_MCU | FLC_TEST_RESET_NWP) != 0),
    {
        (flags & (FLC_TEST_RESET_MCU | FLC_TEST_RESET_NWP)) != 0
    }

    /// The bytes of a boot-info file.
    pub fn encode_boot_info(boot_info: &BootInfo) -> (r: [u8; 8])
        ensures
            r@ == boot_info_bytes(*boot_info),
    {
        let s: u32 = match ImageStatus::to_u32(boot_info.image_status) {
            Ok(v) => v,
            Err(_) => 0,
        };
        let mut buf: [u8; 8] = [0u8; 8];
        buf[0] = boot_info.active_image;
        buf[4] = (s % 256) as u8;
        buf[5] = (s / 256 % 256) as u8;
        buf[6] = (s / 65536 % 256) as u8;
        buf[7] = (s / 16777216) as u8;
        assert(buf@ =~= boot_info_bytes(*boot_info));
        buf
    }

    /// The boot information in the bytes of a boot-info file; an unknown
    /// status code is refused.
    pub fn decode_boot_info(buf: [u8; 8]) -> (r: Result<BootInfo, ()>)
        ensures
            match r {
                Ok(b) => b.active_image == buf@[0] && b.image_status.spec_to_u32() == buf@[4]
                    + buf@[5] * 256 + buf@[6] * 65536 + buf@[7] * 16777216,
                Err(_) => forall|s: ImageStatus| s.spec_to_u32() != buf@[4] + buf@[5] * 256
                    + buf@[6] * 65536 + buf@[7] * 16777216,
            },
    {
        let status: u32 = buf[4] as u32 + buf[5] as u32 * 256 + buf[6] as u32 * 65536 + buf[7] as u32
            * 16777216;
        match ImageStatus::from_u32(status) {
            Ok(s) => Ok(BootInfo::new(buf[0], s)),
            Err(_) => Err(()),
        }
    }

    /// The boot information to use, given the bytes read from the boot-info
    /// file (`None` when it could not be read), and whether the factory
    /// reset information must be written back because they were unusable.
    pub fn get_boot_info(stored: Option<[u8; 8]>) -> (r: (BootInfo, bool))
        ensures
            match stored {
                Some(buf) => match Update::decode_result(buf) {
                    Some(b) => r == (b, false),
                    None => r.0 == BootInfo::factory_reset_value() && r.1,
                },
                None => r.0 == BootInfo::factory_reset_value() && r.1,
            },
    {
        match stored {
            Some(buf) => match Update::decode_boot_info(buf) {
                Ok(b) => {
                    proof {
                        Update::lemma_decode_result(buf, b);
                    }
                    (b, false)
                },
                Err(_) => (BootInfo::factory_reset(), true),
            },
            None => (BootInfo::factory_reset(), true),
        }
    }

    /// What to do with the file of the next image before writing an image of
    /// `max_len` bytes, given its allocated length (`None` when the file
    /// system gave no information about it).
    pub fn next_image(allocated_length: Option<u32>, max_len: usize) -> (r: ImageFilePlan)
        ensures
            r == match allocated_length {
                Some(a) => if (a as int) < max_len {
                    ImageFilePlan::Remove
                } else {
                    ImageFilePlan::Keep
                },
                None => ImageFilePlan::RemoveIfPresent,
            },
    {
        match allocated_length {
            Some(a) => if (a as usize) < max_len {
                ImageFilePlan::Remove
            } else {
                ImageFilePlan::Keep
            },
            None => ImageFilePlan::RemoveIfPresent,
        }
    }

    /// The boot information that a boot-info file holds, if its status code
    /// is known.
    pub open spec fn decode_result(buf: [u8; 8]) -> Option<BootInfo> {
        let code = buf@[4] + buf@[5] * 256 + buf@[6] * 65536 + buf@[7] * 16777216;
        if exists|s: ImageStatus| s.spec_to_u32() == code {
            Some(
                BootInfo {
                    active_image: buf@[0],
                    image_status: choose|s: ImageStatus| s.spec_to_u32() == code,
                },
            )
        } else {
            None
        }
    }

    proof fn lemma_decode_result(buf: [u8; 8], b: BootInfo)
        requires
            b.active_image == buf@[0],
            b.image_status.spec_to_u32() == buf@[4] + buf@[5] * 256 + buf@[6] * 65536 + buf@[7]
                * 16777216,
        ensures
            Update::decode_result(buf) == Some(b),
    {
        let code = buf@[4] + buf@[5] * 256 + buf@[6] * 65536 + buf@[7] * 16777216;
        let s = choose|s: ImageStatus| s.spec_to_u32() == code;
        assert(s.spec_to_u32() == code);
        assert(s == b.image_status);
    }

    /// Reading back the bytes written for a boot information gives that
    /// boot information.
    pub proof fn lemma_boot_info_round_trip(b: BootInfo, buf: [u8; 8])
        requires
            buf@ == boot_info_bytes(b),
        ensures
            Update::decode_result(buf) == Some(b),
    {
        let s = b.image_status.spec_to_u32() as int;
        assert(buf@[4] + buf@[5] * 256 + buf@[6] * 65536 + buf@[7] * 16777216 == s) by {
            assert(0 <= s < 4294967296);
            assert((s % 256) + (s / 256 % 256) * 256 + (s / 65536 % 256) * 65536 + (s / 16777216)
                * 16777216 == s) by (nonlinear_arith)
                requires
                    0 <= s < 4294967296,
            ;
        }
        Update::lemma_decode_result(buf, b);
    }
}

impl BootInfo {
    pub open spec fn factory_reset_value() -> BootInfo {
        BootInfo { active_image: 0, image_status: ImageStatus::NOTEST }
    }
}

} // verus!
