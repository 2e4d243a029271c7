use bt_sensor::bt_device::BTDevice;
use bt_sensor::bt_sensor::{BTSensor, BTSensorConstructor, Value};
use bt_sensor::discovery_mode::DiscoveryMode;
use bt_sensor::payload::{MfrData, SvcData};
use bt_sensor::ruuvitag_df2::{RuuvitagDF2, RuuvitagDF2Constructor};
use bt_sensor::ruuvitag_df3::{RuuvitagDF3, RuuvitagDF3Constructor};

const EDDYSTONE: &str = "0000feaa-0000-1000-8000-00805f9b34fb";

fn df3_frame(temperature: u8) -> Vec<u8> {
    vec![
        0x03, 0x29, temperature, 0x27, 0xC3, 0x44, 0xFC, 0x18, 0x00, 0x5E, 0x04, 0x3C, 0x0B, 0xB8,
        0x00, 0x00, 0x00, 0x00,
    ]
}

fn device_with(mfr: Option<MfrData>, svc: Option<SvcData>) -> BTDevice {
    BTDevice::new(
        "/org/bluez/hci0/dev_AA_BB_CC_DD_EE_FF".to_string(),
        "AA:BB:CC:DD:EE:FF".to_string(),
        "balcony".to_string(),
        mfr,
        svc,
        1_700_000_000_000,
        3000,
        DiscoveryMode::Auto,
        1_700_000_000_000,
    )
}

fn df3_device(frame: Vec<u8>) -> BTDevice {
    let mut mfr = MfrData::new();
    mfr.insert(0x0499, frame);
    device_with(Some(mfr), None)
}

fn df2_device(frame: Vec<u8>) -> BTDevice {
    let mut svc = SvcData::new();
    svc.insert(EDDYSTONE.to_string(), frame);
    device_with(None, Some(svc))
}

fn value_of(values: &Vec<(String, Value)>, name: &str) -> (i64, u32) {
    for (key, value) in values {
        if key == name {
            return match value {
                Value::Integer(i) => (*i, 1),
                Value::Fraction(n, d) => (*n, *d),
                _ => panic!("unexpected kind of value"),
            };
        }
    }
    panic!("no value named {}", name);
}

#[test]
fn df3_decodes_the_fields_of_a_frame() {
    let device = df3_device(df3_frame(0x1C));
    let sensor = RuuvitagDF3::new(DiscoveryMode::Auto);
    assert!(sensor.is_valid_data(&device));
    let m = sensor._get_measurements(&device).unwrap();
    assert_eq!(m.data_format, 3);
    assert_eq!(m.humidity, 0x29);
    assert_eq!(m.temperature, 28);
    assert_eq!(m.temperature_sign, 1);
    assert_eq!(m.temperature_fractions, 39);
    assert_eq!(m.pressure, 50_000 + 0xC344);
    assert_eq!(m.pressure, 99_988);
    assert_eq!(m.acceleration_x, -1000);
    assert_eq!(m.acceleration_y, 94);
    assert_eq!(m.acceleration_z, 1084);
    assert_eq!(m.battery, 3000);
    assert_eq!(m.address, "AA:BB:CC:DD:EE:FF");
    assert_eq!(m.tag, "balcony");
    assert_eq!(m.get_temperature_float(), 2839);
    assert_eq!(sensor.get_temp_float(&device), Some(2839));
}

#[test]
fn df3_measurement_map_has_every_value() {
    let device = df3_device(df3_frame(0x1C));
    let sensor = RuuvitagDF3::new(DiscoveryMode::Auto);
    let values = sensor.get_measurements(&device).unwrap();
    assert_eq!(values.len(), 8);
    assert_eq!(value_of(&values, "battery"), (3000, 1));
    assert_eq!(value_of(&values, "humidity"), (20, 1));
    assert_eq!(value_of(&values, "humidity_float"), (41, 2));
    assert_eq!(value_of(&values, "temperature"), (2839, 100));
    assert_eq!(value_of(&values, "pressure"), (99_988, 1));
    assert_eq!(value_of(&values, "acceleration_x"), (-1000, 1));
    assert_eq!(value_of(&values, "acceleration_y"), (94, 1));
    assert_eq!(value_of(&values, "acceleration_z"), (1084, 1));
    let temperature = value_of(&values, "temperature");
    assert!((temperature.0 as f64 / temperature.1 as f64 - 28.39).abs() < 1e-9);
}

#[test]
fn df3_negative_temperature() {
    let device = df3_device(df3_frame(0x9C));
    let sensor = RuuvitagDF3::new(DiscoveryMode::Auto);
    assert_eq!(sensor.get_temp_wholes(&device), Some(28));
    assert_eq!(sensor.get_temp_sign(&device), Some(-1));
    assert_eq!(sensor.get_temp_fractions(&device), Some(0x27));
    assert_eq!(sensor.get_temp_float(&device), Some(-2839));
}

#[test]
fn df3_frame_of_14_bytes_is_not_valid_but_decodes() {
    let mut frame = df3_frame(0x1C);
    frame.truncate(14);
    let device = df3_device(frame);
    let sensor = RuuvitagDF3::new(DiscoveryMode::Auto);
    assert!(!sensor.is_valid_data(&device));
    assert!(!RuuvitagDF3Constructor::new().is_valid_data(&device));
    assert_eq!(sensor.get_battery(&device), Some(3000));
    assert!(sensor._get_measurements(&device).is_some());
}

#[test]
fn df3_short_frame_gives_no_measurement() {
    let mut frame = df3_frame(0x1C);
    frame.truncate(13);
    let device = df3_device(frame);
    let sensor = RuuvitagDF3::new(DiscoveryMode::Auto);
    assert_eq!(sensor.get_battery(&device), None);
    assert_eq!(sensor.get_acceleration_z(&device), Some(1084));
    assert!(sensor._get_measurements(&device).is_none());
    assert!(sensor.get_measurements(&device).is_none());
    assert_eq!(sensor.get_temp_float(&device), None);
}

#[test]
fn df3_without_manufacturer_data() {
    let device = device_with(None, None);
    let sensor = RuuvitagDF3::new(DiscoveryMode::Auto);
    assert!(!sensor.is_valid_data(&device));
    assert_eq!(sensor.get_data_format(&device), None);
    assert_eq!(sensor.get_humidity(&device), None);
    assert_eq!(sensor.get_pressure(&device), None);
    assert_eq!(sensor.get_acceleration_x(&device), None);
    assert_eq!(sensor.get_acceleration_y(&device), None);
    let mut other = MfrData::new();
    other.insert(0x004C, df3_frame(0x1C));
    let device = device_with(Some(other), None);
    assert!(!sensor.is_valid_data(&device));
    assert!(sensor._get_measurements(&device).is_none());
}

#[test]
fn df3_validity_depends_on_the_payload_alone() {
    let sensor = RuuvitagDF3::new(DiscoveryMode::Auto);
    let mut a = df3_device(df3_frame(0x1C));
    let b = df3_device(df3_frame(0x1C));
    a.set_address("11:22:33:44:55:66".to_string());
    a.set_measurement_timestamp(5);
    a.reset_last_seen(77);
    assert_eq!(sensor.is_valid_data(&a), sensor.is_valid_data(&b));
    assert!(sensor.is_valid_data(&a));
}

fn df2_frame(text: &str) -> Vec<u8> {
    let mut frame = vec![0x10, 0xF9, 0x03];
    frame.extend_from_slice(text.as_bytes());
    frame
}

#[test]
fn df2_decodes_the_url_suffix() {
    // 02 29 1C 27 C3 44 07 in URL-safe base64 is "AikcJ8NEBw"; the tag
    // leaves the last character out.
    let device = df2_device(df2_frame("ruu.vi/#AikcJ8NEB"));
    let sensor = RuuvitagDF2::new(DiscoveryMode::Auto);
    assert!(sensor.is_valid_data(&device));
    let m = sensor._get_measurements(&device).unwrap();
    assert_eq!(m.data_format, 2);
    assert_eq!(m.humidity, 0x29);
    assert_eq!(m.temperature, 28);
    assert_eq!(m.temperature_sign, 1);
    assert_eq!(m.temperature_fractions, 39);
    assert_eq!(m.pressure, 99_988);
    assert_eq!(m.id, 4);
    assert_eq!(m.address, "AA:BB:CC:DD:EE:FF");
    assert_eq!(m.tag, "balcony");
    assert_eq!(m.get_temperature_float(), 2839);
    let values = sensor.get_measurements(&device).unwrap();
    assert_eq!(values.len(), 3);
    assert_eq!(value_of(&values, "humidity"), (20, 1));
    assert_eq!(value_of(&values, "temperature"), (2839, 100));
    assert_eq!(value_of(&values, "pressure"), (99_988, 1));
}

#[test]
fn df2_uses_the_url_safe_alphabet() {
    // FB EF BE FB EF BE 00 is "----------" in the URL-safe alphabet.
    let device = df2_device(df2_frame("ruu.vi/#---------"));
    let sensor = RuuvitagDF2::new(DiscoveryMode::Auto);
    let m = sensor._get_measurements(&device).unwrap();
    assert_eq!(m.data_format, 0xFB);
    assert_eq!(m.humidity, 0xEF);
    assert_eq!(m.temperature, 0x3E);
    assert_eq!(m.temperature_sign, -1);
    assert_eq!(m.temperature_fractions, 0xFB);
    assert_eq!(m.pressure, 50_000 + 0xEFBE);
    let device = df2_device(df2_frame("ruu.vi/#+++++++++"));
    assert!(sensor._get_measurements(&device).is_none());
}

#[test]
fn df2_failures_give_no_measurement() {
    let sensor = RuuvitagDF2::new(DiscoveryMode::Auto);
    // no '#'
    assert!(sensor._get_measurements(&df2_device(df2_frame("ruu.vi/AikcJ8NEBww"))).is_none());
    // not base64
    assert!(sensor._get_measurements(&df2_device(df2_frame("ruu.vi/#Aik!J8NEB"))).is_none());
    // too few bytes after decoding
    assert!(sensor._get_measurements(&df2_device(df2_frame("ruu.vi/#Aik"))).is_none());
    // fewer than four bytes
    assert!(sensor._get_measurements(&df2_device(vec![0x10, 0xF9, 0x03])).is_none());
    // not UTF-8 before the '#'
    let mut frame = vec![0x10, 0xF9, 0x03, 0xFF];
    frame.extend_from_slice("#AikcJ8NEB".as_bytes());
    assert!(sensor._get_measurements(&df2_device(frame)).is_none());
    // no service data at all
    assert!(sensor._get_measurements(&device_with(None, None)).is_none());
    assert!(sensor.get_measurements(&device_with(None, None)).is_none());
}

#[test]
fn df2_reads_only_up_to_a_second_hash() {
    let device = df2_device(df2_frame("r/#AikcJ8NEB#rest"));
    let sensor = RuuvitagDF2::new(DiscoveryMode::Auto);
    let m = sensor._get_measurements(&device).unwrap();
    assert_eq!(m.data_format, 2);
    assert_eq!(m.id, 4);
}

#[test]
fn df2_encoded_payload_adds_one_character() {
    let frame = df2_frame("ruu.vi/#AikcJ8NEB");
    assert_eq!(RuuvitagDF2::encoded_payload(&frame), Some("AikcJ8NEBA".as_bytes().to_vec()));
    assert_eq!(RuuvitagDF2::encoded_payload(&df2_frame("ruu.vi/#")), Some(vec![b'A']));
    assert_eq!(RuuvitagDF2::encoded_payload(&df2_frame("ruu.vi/")), None);
}

#[test]
fn df2_decode_payload_needs_seven_bytes() {
    let data = vec![0x02, 0x29, 0x9C, 0x27, 0xC3, 0x44, 0x07];
    let m = RuuvitagDF2::decode_payload(&data, "a".to_string(), "t".to_string()).unwrap();
    assert_eq!(m.temperature_sign, -1);
    assert_eq!(m.temperature, 28);
    assert_eq!(m.get_temperature_float(), -2839);
    assert_eq!(m.id, 7);
    assert_eq!(m.address, "a");
    assert_eq!(m.tag, "t");
    let short = vec![0x02, 0x29, 0x9C, 0x27, 0xC3, 0x44];
    assert!(RuuvitagDF2::decode_payload(&short, "a".to_string(), "t".to_string()).is_none());
}

#[test]
fn df2_field_readers() {
    let data = vec![0x02, 0x29, 0x9C, 0x27, 0xC3, 0x44, 0x07];
    assert_eq!(RuuvitagDF2::get_data_format(&data), Some(2));
    assert_eq!(RuuvitagDF2::get_humidity(&data), Some(0x29));
    assert_eq!(RuuvitagDF2::get_temp_wholes(&data), Some(28));
    assert_eq!(RuuvitagDF2::get_temp_sign(&data), Some(-1));
    assert_eq!(RuuvitagDF2::get_temp_fractions(&data), Some(39));
    assert_eq!(RuuvitagDF2::get_pressure(&data), Some(0xC344));
    assert_eq!(RuuvitagDF2::get_id(&data), Some(7));
    let empty: Vec<u8> = Vec::new();
    assert_eq!(RuuvitagDF2::get_data_format(&empty), None);
    assert_eq!(RuuvitagDF2::get_pressure(&vec![1, 2, 3, 4, 5]), None);
    assert_eq!(RuuvitagDF2::get_id(&vec![1, 2, 3, 4, 5, 6]), None);
}

#[test]
fn df2_validity_is_20_bytes_under_the_eddystone_uuid() {
    let sensor = RuuvitagDF2::new(DiscoveryMode::Auto);
    assert!(sensor.is_valid_data(&df2_device(df2_frame("ruu.vi/#AikcJ8NEB"))));
    assert!(!sensor.is_valid_data(&df2_device(df2_frame("ruu.vi/#AikcJ8NE"))));
    assert!(!sensor.is_valid_data(&df3_device(df3_frame(0x1C))));
    assert!(!RuuvitagDF3::new(DiscoveryMode::Auto)
        .is_valid_data(&df2_device(df2_frame("ruu.vi/#AikcJ8NEB"))));
    let mut svc = SvcData::new();
    svc.insert("0000feab-0000-1000-8000-00805f9b34fb".to_string(), df2_frame("ruu.vi/#AikcJ8NEB"));
    assert!(!RuuvitagDF2Constructor::new().is_valid_data(&device_with(None, Some(svc))));
}

#[test]
fn constructor_names() {
    assert_eq!(RuuvitagDF3Constructor::new().get_name(), "RuuvitagDF3");
    assert_eq!(RuuvitagDF2Constructor::new().get_name(), "RuuvitagDF2");
}

fn frame_of(
    format: u8,
    humidity: u8,
    sign: i8,
    wholes: u8,
    fractions: u8,
    pressure: u32,
    acc: (i16, i16, i16),
    battery: u16,
) -> Vec<u8> {
    let wire = (pressure - 50_000) as u16;
    let temperature = if sign < 0 { wholes | 0x80 } else { wholes };
    let mut frame = vec![format, humidity, temperature, fractions];
    frame.extend_from_slice(&wire.to_be_bytes());
    frame.extend_from_slice(&acc.0.to_be_bytes());
    frame.extend_from_slice(&acc.1.to_be_bytes());
    frame.extend_from_slice(&acc.2.to_be_bytes());
    frame.extend_from_slice(&battery.to_be_bytes());
    frame.extend_from_slice(&[0, 0, 0, 0]);
    frame
}

#[test]
fn df3_round_trip_of_known_inputs() {
    let inputs = [
        (3u8, 0u8, 1i8, 0u8, 0u8, 50_000u32, (0i16, 0i16, 0i16), 0u16),
        (3, 200, -1, 127, 99, 115_535, (i16::MIN, i16::MAX, -1), u16::MAX),
        (3, 81, 1, 21, 5, 101_325, (-12, 1000, -1016), 2989),
        (3, 255, -1, 0, 50, 50_001, (256, -256, 255), 256),
    ];
    let sensor = RuuvitagDF3::new(DiscoveryMode::Auto);
    for (format, humidity, sign, wholes, fractions, pressure, acc, battery) in inputs {
        let frame = frame_of(format, humidity, sign, wholes, fractions, pressure, acc, battery);
        assert_eq!(frame.len(), 18);
        let device = df3_device(frame);
        assert!(sensor.is_valid_data(&device));
        let m = sensor._get_measurements(&device).unwrap();
        assert_eq!(m.data_format, format);
        assert_eq!(m.humidity, humidity);
        assert_eq!(m.temperature_sign, sign);
        assert_eq!(m.temperature, wholes);
        assert_eq!(m.temperature_fractions, fractions);
        assert_eq!(m.pressure, pressure);
        assert_eq!((m.acceleration_x, m.acceleration_y, m.acceleration_z), acc);
        assert_eq!(m.battery, battery);
        let hundredths = sign as i64 * (wholes as i64 * 100 + fractions as i64);
        let values = sensor.get_measurements(&device).unwrap();
        assert_eq!(value_of(&values, "battery"), (battery as i64, 1));
        assert_eq!(value_of(&values, "humidity"), (humidity as i64 / 2, 1));
        assert_eq!(value_of(&values, "humidity_float"), (humidity as i64, 2));
        assert_eq!(value_of(&values, "temperature"), (hundredths, 100));
        assert_eq!(value_of(&values, "pressure"), (pressure as i64, 1));
        assert_eq!(value_of(&values, "acceleration_x"), (acc.0 as i64, 1));
        assert_eq!(value_of(&values, "acceleration_y"), (acc.1 as i64, 1));
        assert_eq!(value_of(&values, "acceleration_z"), (acc.2 as i64, 1));
    }
}
