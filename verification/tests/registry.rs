use bt_sensor::args::Args;
use bt_sensor::bt_device::BTDevice;
use bt_sensor::bt_sensor::{BTSensor, BTSensorConstructor, Measurement, Sensor, Value};
use bt_sensor::bt_sensor_factory::{BTSensorFactory, SensorConstructor};
use bt_sensor::bus_item::BusItem;
use bt_sensor::config::SensorConf;
use bt_sensor::consumer::{
    initialize_consumer, read_sensor, read_sensors, AnyConsumer, Consumer, ConsumerType,
    InfluxdbConsumer, StdOutConsumer, StdOutJsonConsumer,
};
use bt_sensor::dbus_bluez::{DbusBluez, MALFORMED_MFR_DATA, MALFORMED_REPLY, MALFORMED_SVC_DATA};
use bt_sensor::discovery_mode::DiscoveryMode;
use bt_sensor::payload::{MfrData, SvcData};
use bt_sensor::ruuvitag_df2::RuuvitagDF2Constructor;
use bt_sensor::ruuvitag_df3::RuuvitagDF3Constructor;

const EDDYSTONE: &str = "0000feaa-0000-1000-8000-00805f9b34fb";
const MAC: &str = "AA:BB:CC:DD:EE:FF";
const PATH: &str = "/org/bluez/hci0/dev_AA_BB_CC_DD_EE_FF";
const T1: u64 = 1_700_000_000_000;

fn conf(devices: &[&str], manual: bool, interval: u64) -> SensorConf {
    let args = Args {
        flag_devicemap: None,
        flag_btdevice: "hci0".to_string(),
        flag_manual: manual,
        flag_interval: interval,
        flag_consumer: ConsumerType::StdOut,
        flag_list: false,
        arg_device: devices.iter().map(|d| d.to_string()).collect(),
    };
    SensorConf::new(&args, Vec::new())
}

fn df3_frame(humidity: u8) -> Vec<u8> {
    vec![
        0x03, humidity, 0x1C, 0x27, 0xC3, 0x44, 0xFC, 0x18, 0x00, 0x5E, 0x04, 0x3C, 0x0B, 0xB8, 0x00,
        0x00, 0x00, 0x00,
    ]
}

fn df2_frame() -> Vec<u8> {
    let mut frame = vec![0x10, 0xF9, 0x03];
    frame.extend_from_slice("ruu.vi/#AikcJ8NEB".as_bytes());
    frame
}

fn text(s: &str) -> BusItem {
    BusItem::Str(s.to_string())
}

fn variant(item: BusItem) -> BusItem {
    BusItem::Variant(Box::new(item))
}

fn entry(key: BusItem, value: BusItem) -> BusItem {
    BusItem::DictEntry(Box::new(key), Box::new(value))
}

fn bytes(b: &[u8]) -> BusItem {
    BusItem::Array(b.iter().map(|x| BusItem::Byte(*x)).collect())
}

fn mfr_item(frames: &[(u16, Vec<u8>)]) -> BusItem {
    BusItem::Array(
        frames.iter().map(|(k, v)| entry(BusItem::UInt16(*k), variant(bytes(v)))).collect(),
    )
}

fn svc_item(frames: &[(&str, Vec<u8>)]) -> BusItem {
    BusItem::Array(frames.iter().map(|(k, v)| entry(text(k), variant(bytes(v)))).collect())
}

fn object(path: &str, interfaces: Vec<BusItem>) -> BusItem {
    entry(text(path), BusItem::Array(interfaces))
}

fn device1(props: Vec<BusItem>) -> BusItem {
    entry(text("org.bluez.Device1"), BusItem::Array(props))
}

fn df3_object(path: &str, address: &str, humidity: u8) -> BusItem {
    object(
        path,
        vec![
            entry(text("org.freedesktop.DBus.Introspectable"), BusItem::Array(vec![])),
            device1(vec![
                entry(text("Address"), variant(text(address))),
                entry(text("Alias"), variant(text("Ruuvi"))),
                entry(text("Connected"), variant(BusItem::Bool(false))),
                entry(text("RSSI"), variant(BusItem::Other)),
                entry(text("ManufacturerData"), variant(mfr_item(&[(0x0499, df3_frame(humidity))]))),
            ]),
        ],
    )
}

fn df2_object(path: &str, address: &str) -> BusItem {
    object(
        path,
        vec![device1(vec![
            entry(text("Address"), variant(text(address))),
            entry(text("ServiceData"), variant(svc_item(&[(EDDYSTONE, df2_frame())]))),
        ])],
    )
}

fn reply(objects: Vec<BusItem>) -> Vec<BusItem> {
    vec![BusItem::Array(objects)]
}

fn registry(devices: &[&str], manual: bool, interval: u64) -> DbusBluez {
    DbusBluez::new(conf(devices, manual, interval), "hci0".to_string())
}

fn is_df3(device: &BTDevice) -> bool {
    matches!(device.get_sensor(), Some(Sensor::RuuvitagDF3(_)))
}

fn is_df2(device: &BTDevice) -> bool {
    matches!(device.get_sensor(), Some(Sensor::RuuvitagDF2(_)))
}

struct Counting {
    calls: usize,
    batches: Vec<Vec<String>>,
}

impl Consumer for Counting {
    type Output = usize;

    fn consume(&mut self, sensors: &Vec<&BTDevice>, _now: u64) -> usize {
        self.calls += 1;
        self.batches.push(sensors.iter().map(|d| d.get_address().to_string()).collect());
        sensors.len()
    }
}

fn counting() -> Counting {
    Counting { calls: 0, batches: Vec::new() }
}

#[test]
fn empty_discovery_calls_the_consumer_once_with_nothing() {
    let mut bus = registry(&[], false, 3);
    let mut consumer = counting();
    let adapter_only = reply(vec![object(
        "/org/bluez/hci0",
        vec![entry(text("org.bluez.Adapter1"), BusItem::Array(vec![]))],
    )]);
    let (result, handed) = bus.consume(&mut consumer, &adapter_only, T1);
    assert!(result.is_ok());
    assert_eq!(handed, 0);
    assert_eq!(consumer.calls, 1);
    assert_eq!(consumer.batches, vec![Vec::<String>::new()]);
    assert!(bus.devices().is_empty());
    let (result, _) = bus.consume(&mut consumer, &reply(vec![]), T1 + 3000);
    assert!(result.is_ok());
    assert_eq!(consumer.calls, 2);
}

#[test]
fn registry_knows_its_adapter_path() {
    assert_eq!(registry(&[], false, 3).get_bluez_obj_path(), "/org/bluez/hci0");
}

#[test]
fn df3_device_is_taken_in_and_decoded() {
    let mut bus = registry(&[], false, 3);
    assert!(bus.update_sensors(&reply(vec![df3_object(PATH, MAC, 0x29)]), T1).is_ok());
    assert_eq!(bus.devices().len(), 1);
    let device = &bus.devices()[0];
    assert_eq!(device.get_object_path(), PATH);
    assert_eq!(device.get_address(), MAC);
    assert_eq!(device.get_tag(), MAC);
    assert_eq!(device.get_measurement_timestamp(), T1);
    assert!(is_df3(device));
    let sensor = device.get_sensor().unwrap();
    assert!(sensor.is_valid_data(device));
    assert_eq!(sensor.get_address(device), MAC);
    assert_eq!(sensor.get_tag(device), MAC);
    assert_eq!(sensor.get_measurement_timestamp(device), T1);
    let values = sensor.get_measurements(device).unwrap();
    let pressure = values.iter().find(|(k, _)| k == "pressure").unwrap();
    assert!(matches!(pressure.1, Value::Integer(99_988)));
    let battery = values.iter().find(|(k, _)| k == "battery").unwrap();
    assert!(matches!(battery.1, Value::Integer(3000)));
    let humidity = values.iter().find(|(k, _)| k == "humidity").unwrap();
    assert!(matches!(humidity.1, Value::Integer(20)));
    let humidity_float = values.iter().find(|(k, _)| k == "humidity_float").unwrap();
    assert!(matches!(humidity_float.1, Value::Fraction(41, 2)));
    let temperature = values.iter().find(|(k, _)| k == "temperature").unwrap();
    assert!(matches!(temperature.1, Value::Fraction(2839, 100)));
    match sensor.get_measurement(device) {
        Some(Measurement::RuuvitagDF3(m)) => assert_eq!(m.battery, 3000),
        _ => panic!("expected a format 3 measurement"),
    }
}

#[test]
fn no_change_suppression() {
    let mut bus = registry(&[], false, 3);
    let mut consumer = counting();
    let (r1, n1) = bus.consume(&mut consumer, &reply(vec![df3_object(PATH, MAC, 0x29)]), T1);
    assert!(r1.is_ok());
    assert_eq!(n1, 1);
    let t2 = T1 + 3000;
    let (r2, n2) = bus.consume(&mut consumer, &reply(vec![df3_object(PATH, MAC, 0x29)]), t2);
    assert!(r2.is_ok());
    assert_eq!(n2, 0);
    assert_eq!(bus.devices().len(), 1);
    assert_eq!(bus.devices()[0].get_measurement_timestamp(), T1);
    assert!(bus.devices()[0].is_upto_date(T1 + 2999));
    assert!(!bus.devices()[0].is_upto_date(t2));
    assert_eq!(consumer.calls, 2);
    assert_eq!(consumer.batches, vec![vec![MAC.to_string()], Vec::<String>::new()]);
    // a changed advertisement brings the device back
    let t3 = t2 + 3000;
    let (_, n3) = bus.consume(&mut consumer, &reply(vec![df3_object(PATH, MAC, 0x2A)]), t3);
    assert_eq!(n3, 1);
    assert_eq!(bus.devices()[0].get_measurement_timestamp(), t3);
}

#[test]
fn repeated_advertisement_within_the_threshold_is_still_fresh() {
    let mut bus = registry(&[], false, 3);
    let _ = bus.update_sensors(&reply(vec![df3_object(PATH, MAC, 0x29)]), T1);
    let _ = bus.update_sensors(&reply(vec![df3_object(PATH, MAC, 0x29)]), T1 + 1000);
    assert_eq!(bus.fresh_sensors(T1 + 1000).len(), 1);
    assert_eq!(bus.fresh_sensors(T1 + 2999).len(), 1);
    assert_eq!(bus.fresh_sensors(T1 + 3000).len(), 0);
    assert_eq!(bus.devices()[0].get_measurement_timestamp(), T1);
}

#[test]
fn auto_selects_df2_for_eddystone_service_data() {
    let mut bus = registry(&[], false, 3);
    assert!(bus.update_sensors(&reply(vec![df2_object(PATH, MAC)]), T1).is_ok());
    assert_eq!(bus.devices().len(), 1);
    let device = &bus.devices()[0];
    assert!(is_df2(device));
    assert!(!RuuvitagDF3Constructor::new().is_valid_data(device));
    assert!(RuuvitagDF2Constructor::new().is_valid_data(device));
    match device.get_sensor().unwrap().get_measurement(device) {
        Some(Measurement::RuuvitagDF2(m)) => {
            assert_eq!(m.pressure, 99_988);
            assert_eq!(m.id, 4);
        },
        _ => panic!("expected a format 2 measurement"),
    }
}

#[test]
fn configured_decoder_overrides_what_the_payload_suggests() {
    let mut bus = registry(&["AA:BB:CC:DD:EE:FF,porch,RuuvitagDF3"], false, 3);
    assert!(bus.update_sensors(&reply(vec![df2_object(PATH, MAC)]), T1).is_ok());
    assert_eq!(bus.devices().len(), 1);
    let device = &bus.devices()[0];
    assert!(is_df3(device));
    assert_eq!(device.get_tag(), "porch");
    match device.get_discovery_mode() {
        DiscoveryMode::Configured(name) => assert_eq!(name, "RuuvitagDF3"),
        DiscoveryMode::Auto => panic!("expected the configured mode"),
    }
    let sensor = device.get_sensor().unwrap();
    assert!(!sensor.is_valid_data(device));
    assert!(sensor.get_measurements(device).is_none());
    // the decoder stays, whatever is reported later
    let _ = bus.update_sensors(&reply(vec![df2_object(PATH, MAC)]), T1 + 1);
    assert!(is_df3(&bus.devices()[0]));
}

#[test]
fn configured_auto_probes() {
    let mut bus = registry(&["AA:BB:CC:DD:EE:FF,porch"], true, 3);
    assert!(bus.update_sensors(&reply(vec![df2_object(PATH, MAC)]), T1).is_ok());
    assert_eq!(bus.devices().len(), 1);
    assert!(is_df2(&bus.devices()[0]));
    assert_eq!(bus.devices()[0].get_tag(), "porch");
}

#[test]
fn unknown_decoder_name_keeps_the_device_out() {
    let mut bus = registry(&["AA:BB:CC:DD:EE:FF,porch,NoSuchDecoder"], false, 3);
    assert!(bus.update_sensors(&reply(vec![df3_object(PATH, MAC, 0x29)]), T1).is_ok());
    assert!(bus.devices().is_empty());
}

#[test]
fn manual_mode_drops_devices_that_are_not_configured() {
    let mut bus = registry(&["11:11:11:11:11:11,one,RuuvitagDF3"], true, 3);
    let both = reply(vec![
        df3_object(PATH, MAC, 0x29),
        df3_object("/org/bluez/hci0/dev_11", "11:11:11:11:11:11", 0x29),
    ]);
    assert!(bus.update_sensors(&both, T1).is_ok());
    assert_eq!(bus.devices().len(), 1);
    assert_eq!(bus.devices()[0].get_address(), "11:11:11:11:11:11");
}

#[test]
fn device_without_a_decodable_payload_is_not_taken_in() {
    let mut bus = registry(&[], false, 3);
    let other = object(
        PATH,
        vec![device1(vec![
            entry(text("Address"), variant(text(MAC))),
            entry(text("ManufacturerData"), variant(mfr_item(&[(0x004C, vec![1, 2, 3])]))),
        ])],
    );
    assert!(bus.update_sensors(&reply(vec![other]), T1).is_ok());
    assert!(bus.devices().is_empty());
    // a 14-byte frame is not a valid format 3 frame
    let mut short = df3_frame(0x29);
    short.truncate(14);
    let old_frame = object(
        PATH,
        vec![device1(vec![
            entry(text("Address"), variant(text(MAC))),
            entry(text("ManufacturerData"), variant(mfr_item(&[(0x0499, short)]))),
        ])],
    );
    assert!(bus.update_sensors(&reply(vec![old_frame]), T1).is_ok());
    assert!(bus.devices().is_empty());
}

#[test]
fn one_record_per_object_path() {
    let mut bus = registry(&[], false, 3);
    let two = reply(vec![
        df3_object(PATH, MAC, 0x29),
        df2_object("/org/bluez/hci0/dev_2", "22:22:22:22:22:22"),
        df3_object(PATH, MAC, 0x30),
    ]);
    assert!(bus.update_sensors(&two, T1).is_ok());
    assert_eq!(bus.devices().len(), 2);
    assert_eq!(bus.devices()[0].get_object_path(), PATH);
    assert_eq!(bus.devices()[1].get_object_path(), "/org/bluez/hci0/dev_2");
    assert_eq!(bus.get_device(PATH).unwrap().get_address(), MAC);
    assert_eq!(
        bus.get_device("/org/bluez/hci0/dev_2").unwrap().get_address(),
        "22:22:22:22:22:22"
    );
    assert!(bus.get_device("/org/bluez/hci0/dev_3").is_none());
    let _ = bus.update_sensors(&two, T1 + 10);
    assert_eq!(bus.devices().len(), 2);
    assert_eq!(bus.devices()[0].get_measurement_timestamp(), T1 + 10);
    assert_eq!(bus.devices()[1].get_measurement_timestamp(), T1);
}

#[test]
fn address_of_a_known_device_is_replaced() {
    let mut bus = registry(&[], false, 3);
    let _ = bus.update_sensors(&reply(vec![df3_object(PATH, MAC, 0x29)]), T1);
    let _ = bus.update_sensors(&reply(vec![df3_object(PATH, "00:00:00:00:00:01", 0x29)]), T1 + 5);
    assert_eq!(bus.devices().len(), 1);
    assert_eq!(bus.devices()[0].get_address(), "00:00:00:00:00:01");
    assert_eq!(bus.devices()[0].get_tag(), MAC);
    assert_eq!(bus.devices()[0].get_measurement_timestamp(), T1);
    assert!(matches!(bus.devices()[0].get_discovery_mode(), DiscoveryMode::Auto));
}

#[test]
fn auto_mode_reselects_when_the_decoder_no_longer_fits() {
    let mut bus = registry(&[], false, 3);
    let _ = bus.update_sensors(&reply(vec![df3_object(PATH, MAC, 0x29)]), T1);
    assert!(is_df3(&bus.devices()[0]));
    let _ = bus.update_sensors(&reply(vec![df2_object(PATH, MAC)]), T1 + 1);
    assert!(is_df2(&bus.devices()[0]));
    // nothing fits: the decoder is taken away, the record stays
    let bare = object(PATH, vec![device1(vec![entry(text("Address"), variant(text(MAC)))])]);
    let _ = bus.update_sensors(&reply(vec![bare]), T1 + 2);
    assert_eq!(bus.devices().len(), 1);
    assert!(bus.devices()[0].get_sensor().is_none());
    assert!(bus.fresh_sensors(T1 + 2).is_empty());
    // and comes back with a frame
    let _ = bus.update_sensors(&reply(vec![df3_object(PATH, MAC, 0x29)]), T1 + 3);
    assert!(is_df3(&bus.devices()[0]));
    assert_eq!(bus.fresh_sensors(T1 + 3).len(), 1);
}

#[test]
fn both_payloads_valid_gives_the_first_registered_decoder() {
    let mut bus = registry(&[], false, 3);
    let both = object(
        PATH,
        vec![device1(vec![
            entry(text("Address"), variant(text(MAC))),
            entry(text("ServiceData"), variant(svc_item(&[(EDDYSTONE, df2_frame())]))),
            entry(text("ManufacturerData"), variant(mfr_item(&[(0x0499, df3_frame(0x29))]))),
        ])],
    );
    let _ = bus.update_sensors(&reply(vec![both]), T1);
    assert!(is_df3(&bus.devices()[0]));
}

#[test]
fn malformed_reply_is_an_error_and_changes_nothing() {
    let mut bus = registry(&[], false, 3);
    let _ = bus.update_sensors(&reply(vec![df3_object(PATH, MAC, 0x29)]), T1);
    assert!(bus.update_sensors(&vec![], T1 + 1).is_err());
    assert_eq!(
        bus.update_sensors(&vec![], T1 + 1).unwrap_err().description(),
        "Malformed reply to GetManagedObjects"
    );
    assert_eq!(MALFORMED_REPLY, "Malformed reply to GetManagedObjects");
    assert!(bus.update_sensors(&vec![text("no list")], T1 + 1).is_err());
    assert!(bus.update_sensors(&reply(vec![text("no entry")]), T1 + 1).is_err());
    assert!(bus
        .update_sensors(&reply(vec![entry(text(PATH), text("no interfaces"))]), T1 + 1)
        .is_err());
    let bad_interface = reply(vec![
        df3_object(PATH, MAC, 0x55),
        object("/x", vec![entry(BusItem::Byte(1), BusItem::Array(vec![]))]),
    ]);
    assert!(bus.update_sensors(&bad_interface, T1 + 1).is_err());
    assert_eq!(bus.devices().len(), 1);
    assert_eq!(bus.devices()[0].get_measurement_timestamp(), T1);
    let mut consumer = counting();
    let (result, handed) = bus.consume(&mut consumer, &vec![], T1 + 2);
    assert!(result.is_err());
    assert_eq!(handed, 1);
    assert_eq!(consumer.calls, 1);
}

#[test]
fn malformed_device_is_left_out_of_the_poll() {
    let mut bus = registry(&[], false, 3);
    let bad_address = object(
        "/org/bluez/hci0/dev_1",
        vec![device1(vec![
            entry(text("Address"), text("not in a variant")),
            entry(text("ManufacturerData"), variant(mfr_item(&[(0x0499, df3_frame(0x29))]))),
        ])],
    );
    let bad_bytes = object(
        "/org/bluez/hci0/dev_2",
        vec![device1(vec![
            entry(text("Address"), variant(text("22:22:22:22:22:22"))),
            entry(
                text("ManufacturerData"),
                variant(BusItem::Array(vec![entry(
                    BusItem::UInt16(0x0499),
                    variant(BusItem::Array(vec![BusItem::Byte(3), BusItem::UInt16(7)])),
                )])),
            ),
        ])],
    );
    let bad_path = entry(
        BusItem::Byte(0),
        BusItem::Array(vec![device1(vec![
            entry(text("Address"), variant(text("33:33:33:33:33:33"))),
            entry(text("ManufacturerData"), variant(mfr_item(&[(0x0499, df3_frame(0x29))]))),
        ])]),
    );
    let bad_props = object("/org/bluez/hci0/dev_4", vec![entry(text("org.bluez.Device1"), text("x"))]);
    let good = df3_object(PATH, MAC, 0x29);
    let poll = reply(vec![bad_address, bad_bytes, bad_path, bad_props, good]);
    assert!(bus.update_sensors(&poll, T1).is_ok());
    assert_eq!(bus.devices().len(), 1);
    assert_eq!(bus.devices()[0].get_address(), MAC);
}

#[test]
fn malformed_property_entries_are_skipped() {
    let mut bus = registry(&[], false, 3);
    let odd = object(
        PATH,
        vec![device1(vec![
            text("not an entry"),
            entry(BusItem::Byte(1), variant(text("key is no text"))),
            entry(text("Address"), variant(text(MAC))),
            entry(text("ManufacturerData"), variant(mfr_item(&[(0x0499, df3_frame(0x29))]))),
        ])],
    );
    assert!(bus.update_sensors(&reply(vec![odd]), T1).is_ok());
    assert_eq!(bus.devices().len(), 1);
    assert!(is_df3(&bus.devices()[0]));
}

#[test]
fn device_without_an_address_property_has_an_empty_address() {
    let mut bus = registry(&[], false, 3);
    let nameless = object(
        PATH,
        vec![device1(vec![entry(
            text("ManufacturerData"),
            variant(mfr_item(&[(0x0499, df3_frame(0x29))])),
        )])],
    );
    assert!(bus.update_sensors(&reply(vec![nameless]), T1).is_ok());
    assert_eq!(bus.devices().len(), 1);
    assert_eq!(bus.devices()[0].get_address(), "");
    assert_eq!(bus.devices()[0].get_tag(), "");
}

#[test]
fn update_device_takes_one_report() {
    let mut bus = registry(&["AA:BB:CC:DD:EE:FF,porch"], false, 5);
    let mut mfr = MfrData::new();
    mfr.insert(0x0499, df3_frame(0x29));
    assert!(bus._update_device(PATH, MAC, Some(mfr), None, T1).is_ok());
    assert_eq!(bus.devices().len(), 1);
    assert_eq!(bus.devices()[0].get_tag(), "porch");
    assert!(bus.devices()[0].is_upto_date(T1 + 4999));
    assert!(!bus.devices()[0].is_upto_date(T1 + 5000));
    let mut svc = SvcData::new();
    svc.insert("x".to_string(), vec![1]);
    assert!(bus._update_device("/other", "zz", None, Some(svc), T1).is_ok());
    assert_eq!(bus.devices().len(), 1);
}

#[test]
fn reading_bus_data() {
    let bus = registry(&[], false, 3);
    let m = bus
        .read_manufacturer_data(&mfr_item(&[(1, vec![1, 2]), (2, vec![]), (1, vec![3])]))
        .unwrap();
    assert_eq!(m.get(1), Some(&vec![3u8]));
    assert_eq!(m.get(2), Some(&vec![]));
    assert_eq!(m.get(3), None);
    assert!(bus.read_manufacturer_data(&text("x")).is_err());
    assert_eq!(
        bus.read_manufacturer_data(&text("x")).unwrap_err().description(),
        MALFORMED_MFR_DATA
    );
    assert_eq!(MALFORMED_MFR_DATA, "Malformed manufacturer data");
    assert!(bus.read_manufacturer_data(&BusItem::Array(vec![text("x")])).is_err());
    assert!(bus
        .read_manufacturer_data(&BusItem::Array(vec![entry(text("k"), variant(bytes(&[1])))]))
        .is_err());
    assert!(bus
        .read_manufacturer_data(&BusItem::Array(vec![entry(BusItem::UInt16(1), bytes(&[1]))]))
        .is_err());
    assert!(bus
        .read_manufacturer_data(&BusItem::Array(vec![entry(BusItem::UInt16(1), variant(text("x")))]))
        .is_err());
    assert!(bus.read_manufacturer_data(&BusItem::Array(vec![])).unwrap().same_as(&MfrData::new()));
    let s = bus.read_service_data(&svc_item(&[("a", vec![1]), ("b", vec![2, 3])])).unwrap();
    assert_eq!(s.get("a"), Some(&vec![1u8]));
    assert_eq!(s.get("b"), Some(&vec![2u8, 3]));
    assert!(bus.read_service_data(&mfr_item(&[(1, vec![1])])).is_err());
    assert!(bus.read_service_data(&BusItem::Bool(true)).is_err());
    assert_eq!(
        bus.read_service_data(&BusItem::Bool(true)).unwrap_err().description(),
        "Malformed service data"
    );
    assert_eq!(MALFORMED_SVC_DATA, "Malformed service data");
}

#[test]
fn parsing_a_reply_gives_the_reports_in_order() {
    let bus = registry(&[], false, 3);
    let reports = bus
        .parse_managed_objects(&reply(vec![
            df3_object(PATH, MAC, 0x29),
            object("/org/bluez/hci0", vec![entry(text("org.bluez.Adapter1"), text("ignored"))]),
            df2_object("/org/bluez/hci0/dev_2", "22:22:22:22:22:22"),
        ]))
        .unwrap();
    assert_eq!(reports.len(), 2);
    assert_eq!(reports[0].object_path, PATH);
    assert_eq!(reports[0].address, MAC);
    assert_eq!(reports[0].mfr_data.as_ref().unwrap().get(0x0499), Some(&df3_frame(0x29)));
    assert!(reports[0].svc_data.is_none());
    assert_eq!(reports[1].object_path, "/org/bluez/hci0/dev_2");
    assert!(reports[1].mfr_data.is_none());
    assert_eq!(reports[1].svc_data.as_ref().unwrap().get(EDDYSTONE), Some(&df2_frame()));
    let props = bus.read_props(&vec![entry(text("Address"), variant(text("a")))]).unwrap();
    assert_eq!(props.0, "a");
    assert!(bus.read_props(&vec![entry(text("ServiceData"), variant(text("a")))]).is_none());
    assert!(bus.read_interfaces(&text("/org/bluez/hci0/dev_3"), &vec![text("x")]).is_none());
    assert_eq!(bus.read_interfaces(&text("/org/bluez/hci0/dev_3"), &vec![]).unwrap().len(), 0);
}

#[test]
fn bus_item_accessors() {
    assert!(text("a").as_list().is_none());
    assert_eq!(bytes(&[1, 2]).as_list().unwrap().len(), 2);
    assert_eq!(text("a").as_text(), Some("a"));
    assert!(BusItem::Other.as_text().is_none());
    assert!(matches!(variant(BusItem::Bool(true)).as_variant(), Some(BusItem::Bool(true))));
    assert!(BusItem::Bool(true).as_variant().is_none());
    assert!(entry(text("k"), text("v")).as_entry().is_some());
    assert!(text("k").as_entry().is_none());
    assert_eq!(variant(bytes(&[7, 8])).variant_as_bytes(), Some(vec![7, 8]));
    assert_eq!(variant(bytes(&[])).variant_as_bytes(), Some(vec![]));
    assert_eq!(bytes(&[7, 8]).variant_as_bytes(), None);
    assert_eq!(variant(BusItem::Array(vec![BusItem::Byte(1), BusItem::Bool(true)])).variant_as_bytes(), None);
}

#[test]
fn factory_discovery_modes() {
    let factory = BTSensorFactory::new(conf(&["A,a,RuuvitagDF2", "B"], false, 3));
    match factory.get_sensor_discovery_mode("A") {
        DiscoveryMode::Configured(name) => assert_eq!(name, "RuuvitagDF2"),
        DiscoveryMode::Auto => panic!("expected the configured mode"),
    }
    match factory.get_sensor_discovery_mode("B") {
        DiscoveryMode::Configured(name) => assert_eq!(name, "auto"),
        DiscoveryMode::Auto => panic!("expected the configured mode"),
    }
    assert!(matches!(factory.get_sensor_discovery_mode("C"), DiscoveryMode::Auto));
    assert!(matches!(DiscoveryMode::default(), DiscoveryMode::Auto));
}

fn plain_device(mfr: Option<MfrData>, svc: Option<SvcData>, mode: DiscoveryMode) -> BTDevice {
    BTDevice::new(PATH.to_string(), MAC.to_string(), MAC.to_string(), mfr, svc, T1, 3000, mode, T1)
}

fn df3_data() -> Option<MfrData> {
    let mut mfr = MfrData::new();
    mfr.insert(0x0499, df3_frame(0x29));
    Some(mfr)
}

fn df2_data() -> Option<SvcData> {
    let mut svc = SvcData::new();
    svc.insert(EDDYSTONE.to_string(), df2_frame());
    Some(svc)
}

#[test]
fn factory_binds_by_name_and_by_probing() {
    let factory = BTSensorFactory::new(conf(&[], false, 3));
    let device = plain_device(None, df2_data(), DiscoveryMode::Auto);
    assert!(matches!(factory.autofind_sensor_type(&device), Some(Sensor::RuuvitagDF2(_))));
    assert!(matches!(factory.get_sensor_type("auto", &device), Some(Sensor::RuuvitagDF2(_))));
    assert!(matches!(factory.get_sensor_type("RuuvitagDF3", &device), Some(Sensor::RuuvitagDF3(_))));
    assert!(matches!(factory.get_sensor_type("RuuvitagDF2", &device), Some(Sensor::RuuvitagDF2(_))));
    assert!(factory.get_sensor_type("ruuvitagdf2", &device).is_none());
    let nothing = plain_device(None, None, DiscoveryMode::Auto);
    assert!(factory.autofind_sensor_type(&nothing).is_none());
    assert!(factory.get_sensor_type("auto", &nothing).is_none());
}

#[test]
fn factory_keeps_a_decoder_that_still_fits() {
    let factory = BTSensorFactory::new(conf(&[], false, 3));
    let mut device = plain_device(df3_data(), df2_data(), DiscoveryMode::Auto);
    device.set_sensor(RuuvitagDF2Constructor::new().construct(DiscoveryMode::Auto));
    factory.set_sensor(&mut device);
    assert!(is_df2(&device));
    device.set_svc_data(None);
    factory.set_sensor(&mut device);
    assert!(is_df3(&device));
    device.set_mfr_data(None);
    factory.set_sensor(&mut device);
    assert!(device.get_sensor().is_none());
}

#[test]
fn factory_in_manual_mode_leaves_automatic_devices_alone() {
    let factory = BTSensorFactory::new(conf(&[], true, 3));
    let mut device = plain_device(df3_data(), None, DiscoveryMode::Auto);
    factory.set_sensor(&mut device);
    assert!(device.get_sensor().is_none());
    device.set_sensor(RuuvitagDF2Constructor::new().construct(DiscoveryMode::Auto));
    factory.set_sensor(&mut device);
    assert!(is_df2(&device));
    device.unset_sensor();
    assert!(device.get_sensor().is_none());
}

#[test]
fn factory_keeps_a_configured_decoder() {
    let mut factory = BTSensorFactory::new(conf(&[], false, 3));
    factory.initialize();
    let mut device =
        plain_device(None, df2_data(), DiscoveryMode::Configured("RuuvitagDF3".to_string()));
    factory.set_sensor(&mut device);
    assert!(is_df3(&device));
    let mut unknown = plain_device(df3_data(), None, DiscoveryMode::Configured("x".to_string()));
    factory.set_sensor(&mut unknown);
    assert!(unknown.get_sensor().is_none());
    let mut kept = plain_device(df3_data(), None, DiscoveryMode::Configured("x".to_string()));
    kept.set_sensor(RuuvitagDF2Constructor::new().construct(DiscoveryMode::Auto));
    factory.set_sensor(&mut kept);
    assert!(is_df2(&kept));
}

#[test]
fn sensor_constructors_go_by_their_names() {
    let df3 = SensorConstructor::RuuvitagDF3(RuuvitagDF3Constructor::new());
    let df2 = SensorConstructor::RuuvitagDF2(RuuvitagDF2Constructor::new());
    assert_eq!(df3.get_name(), "RuuvitagDF3");
    assert_eq!(df2.get_name(), "RuuvitagDF2");
    let device = plain_device(df3_data(), None, DiscoveryMode::Auto);
    assert!(df3.is_valid_data(&device));
    assert!(!df2.is_valid_data(&device));
    assert!(matches!(df2.construct(DiscoveryMode::Auto), Sensor::RuuvitagDF2(_)));
}

fn bound(mut device: BTDevice) -> BTDevice {
    BTSensorFactory::new(conf(&[], false, 3)).set_sensor(&mut device);
    device
}

#[test]
fn consumers_read_the_fresh_sensors() {
    let a = bound(plain_device(df3_data(), None, DiscoveryMode::Auto));
    let b = bound(plain_device(None, df2_data(), DiscoveryMode::Auto));
    let c = plain_device(df3_data(), None, DiscoveryMode::Auto);
    let mut short = MfrData::new();
    short.insert(0x0499, vec![3, 0x29]);
    let mut d = plain_device(Some(short), None, DiscoveryMode::Auto);
    d.set_sensor(RuuvitagDF3Constructor::new().construct(DiscoveryMode::Auto));
    let sensors = vec![&a, &b, &c, &d];
    let readings = read_sensors(&sensors, T1 + 10);
    assert_eq!(readings.len(), 2);
    assert_eq!(readings[0].address, MAC);
    assert_eq!(readings[0].tag, MAC);
    assert_eq!(readings[0].timestamp, T1);
    assert!(matches!(readings[0].measurement, Measurement::RuuvitagDF3(_)));
    assert!(matches!(readings[1].measurement, Measurement::RuuvitagDF2(_)));
    assert!(read_sensors(&sensors, T1 + 3000).is_empty());
    assert!(read_sensor(&a, T1 + 2999).is_some());
    assert!(read_sensor(&a, T1 + 3000).is_none());
    assert!(read_sensor(&c, T1).is_none());
    assert!(read_sensor(&d, T1).is_none());
    assert_eq!(StdOutConsumer {}.consume(&sensors, T1).len(), 2);
    assert_eq!(StdOutJsonConsumer {}.consume(&sensors, T1).len(), 2);
    assert_eq!(StdOutConsumer {}.consume(&sensors, T1 + 3000).len(), 0);
}

#[test]
fn influxdb_consumer_keeps_points_until_they_are_written() {
    let a = bound(plain_device(df3_data(), None, DiscoveryMode::Auto));
    let b = bound(plain_device(None, df2_data(), DiscoveryMode::Auto));
    let mut consumer = InfluxdbConsumer::new();
    assert!(consumer.pending().is_empty());
    consumer.consume(&vec![&a, &b], T1);
    assert_eq!(consumer.pending().len(), 2);
    consumer.written(false);
    assert_eq!(consumer.pending().len(), 2);
    consumer.consume(&vec![&a], T1 + 1);
    assert_eq!(consumer.pending().len(), 3);
    consumer.consume(&vec![&a], T1 + 3000);
    assert_eq!(consumer.pending().len(), 3);
    {
        let point = &consumer.pending()[0];
        assert_eq!(point.measurement, "ruuvitag");
        assert_eq!(
            point.tags,
            vec![("tag".to_string(), MAC.to_string()), ("address".to_string(), MAC.to_string())]
        );
        assert_eq!(point.timestamp, T1 as i64);
        assert_eq!(point.fields.len(), 8);
        assert_eq!(point.fields[0].0, "battery");
        assert!(matches!(point.fields[0].1, Value::Integer(3000)));
        assert_eq!(consumer.pending()[1].fields.len(), 3);
    }
    consumer.written(true);
    assert!(consumer.pending().is_empty());
}

#[test]
fn influxdb_point_time_wraps_like_a_cast() {
    let mut device = bound(plain_device(df3_data(), None, DiscoveryMode::Auto));
    device.set_measurement_timestamp(u64::MAX);
    let reading = read_sensor(&device, T1).unwrap();
    assert_eq!(InfluxdbConsumer::point(reading).timestamp, -1);
    device.set_measurement_timestamp(1u64 << 63);
    let reading = read_sensor(&device, T1).unwrap();
    assert_eq!(InfluxdbConsumer::point(reading).timestamp, i64::MIN);
}

#[test]
fn consumer_for_each_type() {
    assert!(matches!(initialize_consumer(&ConsumerType::StdOut), Ok(AnyConsumer::StdOut(_))));
    assert!(matches!(initialize_consumer(&ConsumerType::StdOutJson), Ok(AnyConsumer::StdOutJson(_))));
    match initialize_consumer(&ConsumerType::Influxdb) {
        Ok(AnyConsumer::Influxdb(c)) => assert!(c.pending().is_empty()),
        _ => panic!("expected the time series consumer"),
    }
}

#[test]
fn influxdb_consumer_with_a_limit_drops_the_oldest_points() {
    let mut a = bound(plain_device(df3_data(), None, DiscoveryMode::Auto));
    let b = bound(plain_device(None, df2_data(), DiscoveryMode::Auto));
    let mut consumer = InfluxdbConsumer::with_limit(3);
    assert_eq!(consumer.get_limit(), Some(3));
    assert_eq!(InfluxdbConsumer::new().get_limit(), None);
    consumer.consume(&vec![&a, &b], T1);
    consumer.written(false);
    assert_eq!(consumer.pending().len(), 2);
    a.set_measurement_timestamp(T1 + 1);
    consumer.consume(&vec![&a, &b], T1 + 1);
    assert_eq!(consumer.pending().len(), 3);
    assert_eq!(consumer.pending()[0].fields.len(), 3);
    assert_eq!(consumer.pending()[0].timestamp, T1 as i64);
    assert_eq!(consumer.pending()[1].fields.len(), 8);
    assert_eq!(consumer.pending()[1].timestamp, T1 as i64 + 1);
    assert_eq!(consumer.pending()[2].fields.len(), 3);
    assert_eq!(consumer.get_limit(), Some(3));
    consumer.written(true);
    assert!(consumer.pending().is_empty());
    let mut none = InfluxdbConsumer::with_limit(0);
    none.consume(&vec![&a, &b], T1 + 1);
    assert!(none.pending().is_empty());
}
