use winaudio::device::{
    get_capabilities, Capabilities, Format, Functionality, Manufacturer, Product, WAVE_MAPPER,
};
use winaudio::Error;

const ALL_FORMATS: u32 = 0x000f_0fff;

fn device(mid: u16, pid: u16, version: u16, name: [u16; 32]) -> Capabilities {
    Capabilities::new(mid, pid, version, name, ALL_FORMATS, 2, 0)
}

#[test]
fn test_manufacturer() {
    let device = device(Manufacturer::Microsoft.code(), 0, 0, [0; 32]);
    assert_eq!(device.manufacturer(), Manufacturer::Microsoft);
}

#[test]
fn test_product() {
    let device = device(0, Product::WaveOut.code(), 0, [0; 32]);
    assert_eq!(device.product(), Some(Product::WaveOut));
}

#[test]
fn test_driver_version() {
    let device = device(0, 0, 0x1307, [0; 32]);
    assert_eq!(device.driver_version(), (19, 7));
}

#[test]
fn test_name() {
    let name = "Test Device";
    let mut name_array = [0; 32];
    for (i, c) in name.encode_utf16().enumerate() {
        name_array[i] = c;
    }
    let device = device(0, 0, 0, name_array);
    assert_eq!(device.name(), name);
}

#[test]
fn test_supported_formats() {
    let device = device(0, 0, 0, [0; 32]);
    let formats = device.supported_formats();
    assert!(formats.contains(&Format::Mono8b11Khz));
    assert!(formats.contains(&Format::Stereo16b96Khz));
}

#[test]
fn supported_formats_follow_the_mask_in_listed_order() {
    let caps = Capabilities::new(0, 0, 0, [0; 32], 0x0008_0001 | 0x0000_0040, 1, 0);
    assert_eq!(
        caps.supported_formats(),
        vec![Format::Mono8b11Khz, Format::Mono16b22Khz, Format::Stereo16b96Khz]
    );
    let none = Capabilities::new(0, 0, 0, [0; 32], 0x0000_f000, 1, 0);
    assert_eq!(none.supported_formats(), Vec::<Format>::new());
    assert_eq!(device(0, 0, 0, [0; 32]).supported_formats().len(), 16);
}

#[test]
fn format_bits_are_the_native_ones() {
    assert_eq!(Format::Mono8b11Khz.bit(), 0x1);
    assert_eq!(Format::Stereo8b11Khz.bit(), 0x2);
    assert_eq!(Format::Mono16b11Khz.bit(), 0x4);
    assert_eq!(Format::Stereo16b44Khz.bit(), 0x800);
    assert_eq!(Format::Mono8b96Khz.bit(), 0x10000);
    assert_eq!(Format::Stereo16b96Khz.bit(), 0x80000);
}

#[test]
fn functionality_follows_the_mask_in_listed_order() {
    let caps = Capabilities::new(0, 0, 0, [0; 32], 0, 2, 0x0004 | 0x0008 | 0x0020);
    assert_eq!(
        caps.functionality(),
        vec![Functionality::LrVolume, Functionality::Volume, Functionality::SampleAccurate]
    );
    let all = Capabilities::new(0, 0, 0, [0; 32], 0, 2, 0x3f);
    assert_eq!(
        all.functionality(),
        vec![
            Functionality::LrVolume,
            Functionality::Pitch,
            Functionality::PlaybackRate,
            Functionality::Sync,
            Functionality::Volume,
            Functionality::SampleAccurate,
        ]
    );
    let none = Capabilities::new(0, 0, 0, [0; 32], 0, 2, 0);
    assert!(none.functionality().is_empty());
}

#[test]
fn channels_are_reported_as_stored() {
    assert_eq!(Capabilities::new(0, 0, 0, [0; 32], 0, 1, 0).channels(), 1);
    assert_eq!(Capabilities::new(0, 0, 0, [0; 32], 0, 2, 0).channels(), 2);
}

#[test]
fn unlisted_product_is_unrecognized() {
    assert_eq!(device(1, 0, 0, [0; 32]).product(), None);
    assert_eq!(device(1, 39, 0, [0; 32]).product(), None);
    assert_eq!(device(1, 2, 0, [0; 32]).product(), Some(Product::WaveMapper));
    assert_eq!(Product::try_from(500), Err(500));
}

#[test]
fn manufacturer_codes_round_trip() {
    assert_eq!(Manufacturer::Microsoft.code(), 1);
    assert_eq!(Manufacturer::try_from(1), Ok(Manufacturer::Microsoft));
    assert_eq!(Manufacturer::try_from(37), Ok(Manufacturer::Yamaha));
    assert_eq!(Manufacturer::try_from(34), Ok(Manufacturer::Gravis));
    assert_eq!(Manufacturer::try_from(0), Err(0));
    assert_eq!(Manufacturer::try_from(0xffff), Err(0xffff));
    for code in 0..=u16::MAX {
        if let Ok(manufacturer) = Manufacturer::try_from(code) {
            assert_eq!(manufacturer.code(), code);
        }
        if let Ok(product) = Product::try_from(code) {
            assert_eq!(product.code(), code);
        }
    }
}

#[test]
fn driver_version_splits_high_and_low_byte() {
    assert_eq!(device(0, 0, 0, [0; 32]).driver_version(), (0, 0));
    assert_eq!(device(0, 0, 0xffff, [0; 32]).driver_version(), (255, 255));
    assert_eq!(device(0, 0, 0x0100, [0; 32]).driver_version(), (1, 0));
    assert_eq!(device(0, 0, 0x00ff, [0; 32]).driver_version(), (0, 255));
}

#[test]
fn name_stops_at_the_first_terminator() {
    let mut units = [0u16; 32];
    units[0] = 'A' as u16;
    units[1] = 'b' as u16;
    units[2] = 0;
    units[3] = 'Z' as u16;
    let caps = device(1, 0, 0, units);
    assert_eq!(caps.name(), "Ab");
    assert_eq!(caps.try_name(), Some(String::from("Ab")));
    assert_eq!(device(1, 0, 0, [0; 32]).name(), "");
}

#[test]
fn name_without_terminator_takes_every_unit() {
    let caps = device(1, 0, 0, ['x' as u16; 32]);
    assert_eq!(caps.try_name(), Some("x".repeat(32)));
}

#[test]
fn name_decodes_surrogate_pairs_and_refuses_lone_ones() {
    let mut units = [0u16; 32];
    units[0] = 0xd83d;
    units[1] = 0xde00;
    let caps = device(1, 0, 0, units);
    assert_eq!(caps.try_name(), Some(String::from("\u{1f600}")));
    assert_eq!(caps.name(), "\u{1f600}");
    let mut broken = [0u16; 32];
    broken[0] = 0xd83d;
    broken[1] = 'a' as u16;
    assert_eq!(device(1, 0, 0, broken).try_name(), None);
}

#[test]
fn wave_mapper_is_the_all_ones_selector() {
    assert_eq!(WAVE_MAPPER, u32::MAX);
}

#[test]
fn capabilities_come_with_a_successful_status_only() {
    let caps = device(1, 15, 0x0501, [0; 32]);
    assert_eq!(get_capabilities(0, caps), Ok(caps));
    assert_eq!(get_capabilities(2, caps), Err(Error::BadDeviceId));
    assert_eq!(get_capabilities(6, caps), Err(Error::NoDriver));
    assert_eq!(get_capabilities(7, caps), Err(Error::NoMemory));
}

#[test]
fn new_capabilities_hold_the_fields_given() {
    let mut name = [0u16; 32];
    name[0] = 'S' as u16;
    let caps = Capabilities::new(1, 15, 0x0501, name, 0xfff, 2, 0x2c);
    assert_eq!(caps.manufacturer_id, 1);
    assert_eq!(caps.product_id, 15);
    assert_eq!(caps.version, 0x0501);
    assert_eq!(caps.product_name, name);
    assert_eq!(caps.formats, 0xfff);
    assert_eq!(caps.channel_count, 2);
    assert_eq!(caps.support, 0x2c);
    assert_eq!(caps.manufacturer(), Manufacturer::Microsoft);
    assert_eq!(caps.product(), Some(Product::WaveOut));
    assert_eq!(caps.driver_version(), (5, 1));
    assert_eq!(caps.name(), "S");
    assert_eq!(caps.supported_formats().len(), 12);
    assert_eq!(
        caps.functionality(),
        vec![Functionality::LrVolume, Functionality::Volume, Functionality::SampleAccurate]
    );
}
