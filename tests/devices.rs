use cc3200::bma222::BMA222;
use cc3200::config::{security_params, PASSPHRASE};
use cc3200::i2c_devices::{i16_from_be, i8_from_byte, u16_from_be, Converter, I2CDevice, I2C};
use cc3200::rtc::RTC;
use cc3200::tmp006::TMP006;
use cc3200::types::{SlSecParams, WlanRxFilterOpBuf};
use cc3200::update::{BootInfo, ImageFilePlan, ImageStatus, Update, IMG_FACTORY_DEFAULT,
                     IMG_STATUS_NOTEST, IMG_USER_1, IMG_USER_2};

#[test]
fn register_conversions() {
    assert_eq!(u16_from_be([0x54, 0x49]), 0x5449);
    assert_eq!(i16_from_be([0xff, 0xfe]), -2);
    assert_eq!(i16_from_be([0x7f, 0xff]), 32767);
    assert_eq!(i8_from_byte(0x80), -128);
    assert_eq!(<u16 as Converter>::convert([1, 2]), 0x0102);
    assert_eq!(<i16 as Converter>::convert([0x80, 0]), -32768);
    assert_eq!(<u8 as Converter>::convert([7, 9]), 7);
    assert_eq!(<i8 as Converter>::convert([0xff, 9]), -1);
    assert_eq!(<u16 as Converter>::size(), 2);
    assert_eq!(<i8 as Converter>::size(), 1);
}

#[test]
fn sensors_check_their_ids() {
    let i2c = I2C {};
    assert!(BMA222::default(&i2c, Some(0xf8)).is_some());
    assert!(BMA222::default(&i2c, Some(0xf9)).is_none());
    assert!(BMA222::default(&i2c, None).is_none());
    assert_eq!(BMA222::default(&i2c, Some(0xf8)).unwrap().sensor.dev_addr, 0x18);
    assert!(BMA222::some_changed([0, 5, 1, 5, 0, 5]));
    assert!(!BMA222::some_changed([0, 5, 2, 5, 0, 5]));
    assert!(TMP006::default(&i2c, Some(0x5449), Some(0x0067)).is_some());
    assert!(TMP006::default(&i2c, Some(0x5449), Some(0x0068)).is_none());
    assert!(TMP006::default(&i2c, None, Some(0x0067)).is_none());
    assert_eq!(I2CDevice::create(&i2c, 0x41).dev_addr, 0x41);
}

#[test]
fn rtc_readings_wrap_once() {
    assert_eq!(RTC::seconds_from_reading(1262304000), 1262304000);
    assert_eq!(RTC::seconds_from_reading(5), 0x100000005);
    assert_eq!(RTC::reading_from_seconds(0x100000005), 5);
}

#[test]
fn security_parameters() {
    let p = SlSecParams::wpa2("secretpass");
    assert_eq!(p.sec_type, 2);
    assert_eq!(p.key, b"secretpass".to_vec());
    assert_eq!(p.key_len, 10);
    let long = "k".repeat(300);
    assert_eq!(SlSecParams::wpa2(&long).key_len, 44);
    let cfg = security_params().unwrap();
    assert_eq!(cfg.key, PASSPHRASE.as_bytes().to_vec());
    let f = WlanRxFilterOpBuf::all_filters();
    assert_eq!(f.mask, [0xff; 16]);
    assert_eq!(f.padding, [0; 4]);
}

#[test]
fn boot_info_files_and_codes() {
    let b = BootInfo::new(1, ImageStatus::TESTING);
    assert_eq!(b.image_filename(), IMG_USER_1);
    assert_eq!(b.next_image_filename(), IMG_USER_2);
    assert_eq!(BootInfo::new(2, ImageStatus::NOTEST).next_image_filename(), IMG_USER_1);
    assert_eq!(BootInfo::new(7, ImageStatus::NOTEST).image_filename(), IMG_FACTORY_DEFAULT);
    assert_eq!(BootInfo::factory_reset(), BootInfo::new(0, ImageStatus::NOTEST));
    assert_eq!(ImageStatus::to_u32(ImageStatus::NOTEST), Ok(IMG_STATUS_NOTEST));
    assert_eq!(ImageStatus::from_u32(0x12344321), Ok(ImageStatus::TESTING));
    assert_eq!(ImageStatus::from_u32(5), Err(()));
}

#[test]
fn boot_info_round_trip() {
    let b = BootInfo::new(2, ImageStatus::TESTREADY);
    let bytes = Update::encode_boot_info(&b);
    assert_eq!(bytes, [2, 0, 0, 0, 0x65, 0x87, 0x78, 0x56]);
    assert_eq!(Update::decode_boot_info(bytes), Ok(b));
    assert_eq!(Update::decode_boot_info([1, 0, 0, 0, 1, 2, 3, 4]), Err(()));
}

#[test]
fn boot_info_falls_back_to_factory_reset() {
    let good = Update::encode_boot_info(&BootInfo::new(1, ImageStatus::TESTING));
    assert_eq!(Update::get_boot_info(Some(good)), (BootInfo::new(1, ImageStatus::TESTING), false));
    assert_eq!(Update::get_boot_info(Some([0; 8])), (BootInfo::factory_reset(), true));
    assert_eq!(Update::get_boot_info(None), (BootInfo::factory_reset(), true));
}

#[test]
fn update_decisions() {
    assert!(Update::reset_is_required(1));
    assert!(Update::reset_is_required(2));
    assert!(!Update::reset_is_required(4));
    assert_eq!(Update::next_image(Some(100), 200), ImageFilePlan::Remove);
    assert_eq!(Update::next_image(Some(200), 200), ImageFilePlan::Keep);
    assert_eq!(Update::next_image(None, 200), ImageFilePlan::RemoveIfPresent);
}
