use vstd::prelude::*;
use vstd::string::*;
use crate::bt_device::{mfr_view, svc_view, BTDevice, BTDeviceView};
use crate::bt_sensor::SensorKind;
use crate::bt_sensor_factory::{BTSensorFactory, BTSensorFactoryView};
use crate::bus_item::{
    item_entry, item_list, item_text, item_variant, lemma_mfr_entries_prefix,
    lemma_svc_entries_prefix, mfr_entries, mfr_entry, svc_entries, svc_entry, variant_text,
    BusItem,
};
use crate::config::{find_info, SensorConf, SensorConfView};
use crate::consumer::Consumer;
use crate::error::BlueZError;
use crate::payload::{entries_map, MfrData, SvcData};
use crate::text::text_equal;

verus! {

/// The message of the error for manufacturer data of another shape.
pub const MALFORMED_MFR_DATA: &'static str = "Malformed manufacturer data";

/// The message of the error for service data of another shape.
pub const MALFORMED_SVC_DATA: &'static str = "Malformed service data";

/// The message of the error for a reply of another shape.
pub const MALFORMED_REPLY: &'static str = "Malformed reply to GetManagedObjects";

/// The manufacturer data that a bus value holds: a list of entries, each
/// from a 16-bit number to a variant around bytes. A later entry replaces
/// an earlier one with the same key.
pub open spec fn mfr_data_of(item: BusItem) -> Option<Map<u16, Seq<u8>>> {
    match item_list(item) {
        Some(items) => match mfr_entries(items) {
            Some(entries) => Some(entries_map(entries)),
            None => None,
        },
        None => None,
    }
}

/// The service data that a bus value holds: a list of entries, each from a
/// text to a variant around bytes. A later entry replaces an earlier one
/// with the same key.
pub open spec fn svc_data_of(item: BusItem) -> Option<Map<Seq<char>, Seq<u8>>> {
    match item_list(item) {
        Some(items) => match svc_entries(items) {
            Some(entries) => Some(entries_map(entries)),
            None => None,
        },
        None => None,
    }
}

/// What the properties of a device say, as far as they have been read.
pub struct PropsView {
    pub address: Seq<char>,
    pub mfr_data: Option<Map<u16, Seq<u8>>>,
    pub svc_data: Option<Map<Seq<char>, Seq<u8>>>,
}

/// What is known after one more property. A member that is no dictionary
/// entry with a text as its key, and a property of another name, change
/// nothing. An address that is no variant around a text, and manufacturer
/// or service data that are no variant around such data, give none: the
/// device is left out.
pub open spec fn prop_applied(acc: PropsView, prop: BusItem) -> Option<PropsView> {
    match item_entry(prop) {
        Some((key, value)) => match item_text(key) {
            Some(name) => if name == "Address"@ {
                match variant_text(value) {
                    Some(address) => Some(PropsView { address, ..acc }),
                    None => None,
                }
            } else if name == "ManufacturerData"@ {
                match item_variant(value) {
                    Some(inner) => match mfr_data_of(inner) {
                        Some(m) => Some(PropsView { mfr_data: Some(m), ..acc }),
                        None => None,
                    },
                    None => None,
                }
            } else if name == "ServiceData"@ {
                match item_variant(value) {
                    Some(inner) => match svc_data_of(inner) {
                        Some(m) => Some(PropsView { svc_data: Some(m), ..acc }),
                        None => None,
                    },
                    None => None,
                }
            } else {
                Some(acc)
            },
            None => Some(acc),
        },
        None => Some(acc),
    }
}

/// What a list of properties says of a device: none where the device is
/// left out. Without an address property the address is empty.
pub open spec fn props_read(props: Seq<BusItem>) -> Option<PropsView>
    decreases props.len(),
{
    if props.len() == 0 {
        Some(PropsView { address: Seq::empty(), mfr_data: None, svc_data: None })
    } else {
        match props_read(props.drop_last()) {
            Some(acc) => prop_applied(acc, props.last()),
            None => None,
        }
    }
}

/// One device of a poll: its object path, its address and its data.
#[derive(Debug)]
pub struct DeviceReport {
    pub object_path: String,
    pub address: String,
    pub mfr_data: Option<MfrData>,
    pub svc_data: Option<SvcData>,
}

/// The mathematical value of a [`DeviceReport`].
pub struct DeviceReportView {
    pub object_path: Seq<char>,
    pub address: Seq<char>,
    pub mfr_data: Option<Map<u16, Seq<u8>>>,
    pub svc_data: Option<Map<Seq<char>, Seq<u8>>>,
}

impl View for DeviceReport {
    type V = DeviceReportView;

    open spec fn view(&self) -> DeviceReportView {
        DeviceReportView {
            object_path: self.object_path@,
            address: self.address@,
            mfr_data: mfr_view(self.mfr_data),
            svc_data: svc_view(self.svc_data),
        }
    }
}

/// The views of a list of reports.
pub open spec fn report_views(reports: Seq<DeviceReport>) -> Seq<DeviceReportView> {
    reports.map_values(|r: DeviceReport| r@)
}

/// The report for a device object: none where its path is no text, its
/// properties are no list, or the properties leave the device out.
pub open spec fn device_report(path: BusItem, props: BusItem) -> Option<DeviceReportView> {
    match (item_text(path), item_list(props)) {
        (Some(object_path), Some(members)) => match props_read(members) {
            Some(p) => Some(
                DeviceReportView {
                    object_path,
                    address: p.address,
                    mfr_data: p.mfr_data,
                    svc_data: p.svc_data,
                },
            ),
            None => None,
        },
        _ => None,
    }
}

/// What is reported after one more interface of an object. Only the
/// interface `org.bluez.Device1` gives a report. A member that is no
/// dictionary entry with a text as its key gives none: the reply is
/// malformed.
pub open spec fn interface_applied(acc: Seq<DeviceReportView>, path: BusItem, interface: BusItem)
    -> Option<Seq<DeviceReportView>> {
    match item_entry(interface) {
        Some((name, props)) => match item_text(name) {
            Some(n) => if n == "org.bluez.Device1"@ {
                match device_report(path, props) {
                    Some(r) => Some(acc.push(r)),
                    None => Some(acc),
                }
            } else {
                Some(acc)
            },
            None => None,
        },
        None => None,
    }
}

/// The reports of one object's interfaces, in their order: none where the
/// reply is malformed.
pub open spec fn interface_reports(path: BusItem, interfaces: Seq<BusItem>) -> Option<
    Seq<DeviceReportView>,
>
    decreases interfaces.len(),
{
    if interfaces.len() == 0 {
        Some(Seq::empty())
    } else {
        match interface_reports(path, interfaces.drop_last()) {
            Some(acc) => interface_applied(acc, path, interfaces.last()),
            None => None,
        }
    }
}

/// What is reported after one more object: a dictionary entry from its
/// path to the list of its interfaces. Anything else gives none: the reply
/// is malformed.
pub open spec fn object_applied(acc: Seq<DeviceReportView>, object: BusItem) -> Option<
    Seq<DeviceReportView>,
> {
    match item_entry(object) {
        Some((path, interfaces)) => match item_list(interfaces) {
            Some(members) => match interface_reports(path, members) {
                Some(reports) => Some(acc + reports),
                None => None,
            },
            None => None,
        },
        None => None,
    }
}

/// The reports of a list of objects, in their order: none where the reply
/// is malformed.
pub open spec fn object_reports(objects: Seq<BusItem>) -> Option<Seq<DeviceReportView>>
    decreases objects.len(),
{
    if objects.len() == 0 {
        Some(Seq::empty())
    } else {
        match object_reports(objects.drop_last()) {
            Some(acc) => object_applied(acc, objects.last()),
            None => None,
        }
    }
}

/// The reports of a reply to `GetManagedObjects`, whose first value is the
/// list of objects: none where the reply is malformed.
pub open spec fn reply_reports(reply: Seq<BusItem>) -> Option<Seq<DeviceReportView>> {
    if reply.len() == 0 {
        None
    } else {
        match item_list(reply[0]) {
            Some(objects) => object_reports(objects),
            None => None,
        }
    }
}

/// Where a prefix of the properties leaves the device out, all of them do.
proof fn lemma_props_read_prefix(props: Seq<BusItem>, n: int)
    requires
        0 <= n <= props.len(),
        props_read(props.take(n)) is None,
    ensures
        props_read(props) is None,
    decreases props.len() - n,
{
    if n < props.len() {
        assert(props.take(n + 1).drop_last() =~= props.take(n));
        lemma_props_read_prefix(props, n + 1);
    } else {
        assert(props.take(n) =~= props);
    }
}

/// Where a prefix of the interfaces is malformed, all of them are.
proof fn lemma_interface_reports_prefix(path: BusItem, interfaces: Seq<BusItem>, n: int)
    requires
        0 <= n <= interfaces.len(),
        interface_reports(path, interfaces.take(n)) is None,
    ensures
        interface_reports(path, interfaces) is None,
    decreases interfaces.len() - n,
{
    if n < interfaces.len() {
        assert(interfaces.take(n + 1).drop_last() =~= interfaces.take(n));
        lemma_interface_reports_prefix(path, interfaces, n + 1);
    } else {
        assert(interfaces.take(n) =~= interfaces);
    }
}

/// Where a prefix of the objects is malformed, all of them are.
proof fn lemma_object_reports_prefix(objects: Seq<BusItem>, n: int)
    requires
        0 <= n <= objects.len(),
        object_reports(objects.take(n)) is None,
    ensures
        object_reports(objects) is None,
    decreases objects.len() - n,
{
    if n < objects.len() {
        assert(objects.take(n + 1).drop_last() =~= objects.take(n));
        lemma_object_reports_prefix(objects, n + 1);
    } else {
        assert(objects.take(n) =~= objects);
    }
}

/// The position of the first device with this object path.
pub open spec fn position(devices: Seq<BTDeviceView>, object_path: Seq<char>) -> Option<int>
    decreases devices.len(),
{
    if devices.len() == 0 {
        None
    } else {
        match position(devices.drop_last(), object_path) {
            Some(i) => Some(i),
            None => if devices.last().object_path == object_path {
                Some(devices.len() - 1)
            } else {
                None
            },
        }
    }
}

/// A position found among the first `n` devices is the position among all.
proof fn lemma_position_prefix(devices: Seq<BTDeviceView>, object_path: Seq<char>, n: int)
    requires
        0 <= n <= devices.len(),
        position(devices.take(n), object_path) is Some,
    ensures
        position(devices, object_path) == position(devices.take(n), object_path),
    decreases devices.len() - n,
{
    if n < devices.len() {
        assert(devices.take(n + 1).drop_last() =~= devices.take(n));
        lemma_position_prefix(devices, object_path, n + 1);
    } else {
        assert(devices.take(n) =~= devices);
    }
}

/// A position that `position` gives is in range and holds a device with
/// that object path; where it gives none, no device has the path.
pub proof fn lemma_position_finds(devices: Seq<BTDeviceView>, object_path: Seq<char>)
    ensures
        match position(devices, object_path) {
            Some(i) => 0 <= i < devices.len() && devices[i].object_path == object_path,
            None => forall|j: int|
                0 <= j < devices.len() ==> (#[trigger] devices[j]).object_path != object_path,
        },
    decreases devices.len(),
{
    if devices.len() > 0 {
        lemma_position_finds(devices.drop_last(), object_path);
        if position(devices, object_path) is None {
            assert forall|j: int| 0 <= j < devices.len() implies (#[trigger] devices[j]).object_path
                != object_path by {
                if j < devices.len() - 1 {
                    assert(devices.drop_last()[j].object_path != object_path);
                }
            }
        }
    }
}

/// The views of a list of devices.
pub open spec fn device_views(devices: Seq<BTDevice>) -> Seq<BTDeviceView> {
    devices.map_values(|d: BTDevice| d@)
}

/// The mathematical value of a [`DbusBluez`].
pub struct DbusBluezView {
    pub factory: BTSensorFactoryView,
    pub devices: Seq<BTDeviceView>,
    pub bluez_obj_path: Seq<char>,
    pub conf: SensorConfView,
}

impl DbusBluezView {
    /// The tag of a device that is first seen under `address`: the
    /// configured one, or the address.
    pub open spec fn tag_for(self, address: Seq<char>) -> Seq<char> {
        match find_info(self.conf.infos, address) {
            Some(info) => info.tag,
            None => address,
        }
    }

    /// The record that a report seen at `timestamp` starts, before the
    /// resolver has looked at it.
    pub open spec fn first_seen(self, report: DeviceReportView, timestamp: u64) -> BTDeviceView {
        BTDeviceView {
            object_path: report.object_path,
            address: report.address,
            tag: self.tag_for(report.address),
            mfr_data: report.mfr_data,
            svc_data: report.svc_data,
            measurement_timestamp: timestamp,
            last_seen: timestamp,
            last_seen_forget: self.conf.last_seen_forget,
            discovery_mode: self.factory.initial_mode(report.address),
            sensor: None,
        }
    }

    /// The registry after one report seen at `timestamp`.
    ///
    /// A device that is known by its object path takes the report's address
    /// and its data, and the resolver looks at it again. An unknown one is
    /// taken in, at the end, only if the resolver binds a decoder to it.
    pub open spec fn upserted(self, report: DeviceReportView, timestamp: u64) -> DbusBluezView {
        match position(self.devices, report.object_path) {
            Some(i) => {
                let known = BTDeviceView { address: report.address, ..self.devices[i] }.updated(
                    report.mfr_data,
                    report.svc_data,
                    timestamp,
                    timestamp,
                );
                let resolved = BTDeviceView { sensor: self.factory.attached(known), ..known };
                DbusBluezView { devices: self.devices.update(i, resolved), ..self }
            },
            None => {
                let fresh = self.first_seen(report, timestamp);
                let resolved = BTDeviceView { sensor: self.factory.attached(fresh), ..fresh };
                if resolved.sensor is Some {
                    DbusBluezView { devices: self.devices.push(resolved), ..self }
                } else {
                    self
                }
            },
        }
    }

    /// The registry after the reports of one poll, in their order.
    pub open spec fn applied(self, reports: Seq<DeviceReportView>, timestamp: u64) -> DbusBluezView
        decreases reports.len(),
    {
        if reports.len() == 0 {
            self
        } else {
            self.applied(reports.drop_last(), timestamp).upserted(reports.last(), timestamp)
        }
    }

    /// No two devices have the same object path.
    pub open spec fn distinct_paths(self) -> bool {
        forall|i: int, j: int|
            0 <= i < j < self.devices.len() ==> (#[trigger] self.devices[i]).object_path != (
            #[trigger] self.devices[j]).object_path
    }

    /// The devices that are handed to a consumer at `now`: those that bear
    /// a decoder and are fresh, in the registry's order.
    pub open spec fn emitted(self, now: u64) -> Seq<BTDeviceView> {
        self.devices.filter(|d: BTDeviceView| d.sensor is Some && d.fresh(now))
    }
}

/// A report keeps the object paths of the registry distinct, and keeps
/// every device it knew at its place, under its path, with its tag and in
/// its discovery mode.
pub proof fn lemma_upserted_keeps_identity(
    registry: DbusBluezView,
    report: DeviceReportView,
    timestamp: u64,
)
    requires
        registry.distinct_paths(),
    ensures
        registry.upserted(report, timestamp).distinct_paths(),
        registry.upserted(report, timestamp).devices.len() >= registry.devices.len(),
        forall|i: int|
            0 <= i < registry.devices.len() ==> (#[trigger] registry.upserted(
                report,
                timestamp,
            ).devices[i]).object_path == registry.devices[i].object_path,
        forall|i: int|
            0 <= i < registry.devices.len() ==> (#[trigger] registry.upserted(
                report,
                timestamp,
            ).devices[i]).discovery_mode == registry.devices[i].discovery_mode,
        forall|i: int|
            0 <= i < registry.devices.len() ==> (#[trigger] registry.upserted(
                report,
                timestamp,
            ).devices[i]).tag == registry.devices[i].tag,
{
    lemma_position_finds(registry.devices, report.object_path);
}

/// A report that repeats the data which a known device holds moves neither
/// the device's measurement time nor the time it was last seen, whenever the
/// report comes.
pub proof fn lemma_repeated_report_keeps_times(
    registry: DbusBluezView,
    report: DeviceReportView,
    timestamp: u64,
)
    requires
        position(registry.devices, report.object_path) is Some,
        registry.devices[position(registry.devices, report.object_path).unwrap()].mfr_data
            == report.mfr_data,
        registry.devices[position(registry.devices, report.object_path).unwrap()].svc_data
            == report.svc_data,
    ensures
        ({
            let i = position(registry.devices, report.object_path).unwrap();
            let before = registry.devices[i];
            let after = registry.upserted(report, timestamp).devices[i];
            &&& after.measurement_timestamp == before.measurement_timestamp
            &&& after.last_seen == before.last_seen
            &&& forall|now: u64| after.fresh(now) == before.fresh(now)
        }),
{
    lemma_position_finds(registry.devices, report.object_path);
}

/// A device that a report at `t` starts is fresh at exactly the times
/// before `t` plus the configured freshness threshold.
pub proof fn lemma_first_seen_fresh_until_threshold(
    registry: DbusBluezView,
    report: DeviceReportView,
    t: u64,
    now: u64,
)
    ensures
        registry.first_seen(report, t).fresh(now) <==> (now as int) < (t as int) + (
        registry.conf.last_seen_forget as int),
{
}

/// The registry of the devices that the adapter has reported, with the
/// resolver that binds their decoders.
#[derive(Debug)]
pub struct DbusBluez {
    sensor_factory: BTSensorFactory,
    device_map: Vec<BTDevice>,
    bluez_obj_path: String,
    conf: SensorConf,
}

impl View for DbusBluez {
    type V = DbusBluezView;

    closed spec fn view(&self) -> DbusBluezView {
        DbusBluezView {
            factory: self.sensor_factory@,
            devices: device_views(self.device_map@),
            bluez_obj_path: self.bluez_obj_path@,
            conf: self.conf@,
        }
    }
}

impl DbusBluez {
    /// An empty registry for the adapter `bt_devname`.
    pub fn new(conf: SensorConf, bt_devname: String) -> (r: DbusBluez)
        ensures
            r@.devices == Seq::<BTDeviceView>::empty(),
            r@.conf == conf@,
            r@.factory == (BTSensorFactoryView {
                conf: conf@,
                kinds: seq![SensorKind::RuuvitagDF3, SensorKind::RuuvitagDF2],
            }),
            r@.bluez_obj_path == "/org/bluez/"@ + bt_devname@,
    {
        let bluez_obj_path = "/org/bluez/".to_owned().concat(bt_devname.as_str());
        let r = DbusBluez {
            sensor_factory: BTSensorFactory::new(conf.clone()),
            device_map: Vec::new(),
            bluez_obj_path,
            conf,
        };
        assert(device_views(r.device_map@) =~= Seq::empty());
        r
    }

    /// The object path of the adapter.
    pub fn get_bluez_obj_path(&self) -> (r: &str)
        ensures
            r@ == self@.bluez_obj_path,
    {
        self.bluez_obj_path.as_str()
    }

    /// The manufacturer data that a bus value holds. Anything that is not a
    /// list of entries from a 16-bit number to a variant around bytes is an
    /// error.
    pub fn read_manufacturer_data(&self, dbusmap: &BusItem) -> (r: Result<MfrData, BlueZError>)
        ensures
            r is Ok == mfr_data_of(*dbusmap) is Some,
            r is Ok ==> r.unwrap()@ == mfr_data_of(*dbusmap).unwrap(),
            r matches Err(e) ==> e@ == MALFORMED_MFR_DATA@,
    {
        let mut map = MfrData::new();
        let map_arr = match dbusmap.as_list() {
            Some(a) => a,
            None => {
                return Err(BlueZError::new(MALFORMED_MFR_DATA.to_owned()));
            },
        };
        let ghost mut entries: Seq<(u16, Seq<u8>)> = Seq::empty();
        let mut i: usize = 0;
        while i < map_arr.len()
            invariant
                i <= map_arr.len(),
                item_list(*dbusmap) == Some(map_arr@),
                mfr_entries(map_arr@.take(i as int)) == Some(entries),
                map@ == entries_map(entries),
            decreases map_arr.len() - i,
        {
            assert(map_arr@.take(i + 1).drop_last() =~= map_arr@.take(i as int));
            assert(map_arr@.take(i + 1).last() == map_arr@[i as int]);
            let entry = &map_arr[i];
            let (key_item, val_item) = match entry.as_entry() {
                Some(kv) => kv,
                None => {
                    proof {
                        assert(mfr_entry(*entry) is None);
                        lemma_mfr_entries_prefix(map_arr@, i + 1);
                    }
                    return Err(BlueZError::new(MALFORMED_MFR_DATA.to_owned()));
                },
            };
            let key: u16 = match key_item {
                BusItem::UInt16(k) => *k,
                _ => {
                    proof {
                        assert(mfr_entry(*entry) is None);
                        lemma_mfr_entries_prefix(map_arr@, i + 1);
                    }
                    return Err(BlueZError::new(MALFORMED_MFR_DATA.to_owned()));
                },
            };
            let byte_arr = match val_item.variant_as_bytes() {
                Some(b) => b,
                None => {
                    proof {
                        assert(mfr_entry(*entry) is None);
                        lemma_mfr_entries_prefix(map_arr@, i + 1);
                    }
                    return Err(BlueZError::new(MALFORMED_MFR_DATA.to_owned()));
                },
            };
            proof {
                let before = entries;
                entries = entries.push((key, byte_arr@));
                assert(entries.drop_last() =~= before);
                assert(mfr_entry(*entry) == Some((key, byte_arr@)));
            }
            map.insert(key, byte_arr);
            i += 1;
        }
        assert(map_arr@.take(map_arr.len() as int) =~= map_arr@);
        Ok(map)
    }

    /// The service data that a bus value holds. Anything that is not a
    /// list of entries from a text to a variant around bytes is an error.
    pub fn read_service_data(&self, dbusmap: &BusItem) -> (r: Result<SvcData, BlueZError>)
        ensures
            r is Ok == svc_data_of(*dbusmap) is Some,
            r is Ok ==> r.unwrap()@ == svc_data_of(*dbusmap).unwrap(),
            r matches Err(e) ==> e@ == MALFORMED_SVC_DATA@,
    {
        let mut map = SvcData::new();
        let map_arr = match dbusmap.as_list() {
            Some(a) => a,
            None => {
                return Err(BlueZError::new(MALFORMED_SVC_DATA.to_owned()));
            },
        };
        let ghost mut entries: Seq<(Seq<char>, Seq<u8>)> = Seq::empty();
        let mut i: usize = 0;
        while i < map_arr.len()
            invariant
                i <= map_arr.len(),
                item_list(*dbusmap) == Some(map_arr@),
                svc_entries(map_arr@.take(i as int)) == Some(entries),
                map@ == entries_map(entries),
            decreases map_arr.len() - i,
        {
            assert(map_arr@.take(i + 1).drop_last() =~= map_arr@.take(i as int));
            assert(map_arr@.take(i + 1).last() == map_arr@[i as int]);
            let entry = &map_arr[i];
            let (key_item, val_item) = match entry.as_entry() {
                Some(kv) => kv,
                None => {
                    proof {
                        assert(svc_entry(*entry) is None);
                        lemma_svc_entries_prefix(map_arr@, i + 1);
                    }
                    return Err(BlueZError::new(MALFORMED_SVC_DATA.to_owned()));
                },
            };
            let key: String = match key_item {
                BusItem::Str(k) => k.clone(),
                _ => {
                    proof {
                        assert(svc_entry(*entry) is None);
                        lemma_svc_entries_prefix(map_arr@, i + 1);
                    }
                    return Err(BlueZError::new(MALFORMED_SVC_DATA.to_owned()));
                },
            };
            let byte_arr = match val_item.variant_as_bytes() {
                Some(b) => b,
                None => {
                    proof {
                        assert(svc_entry(*entry) is None);
                        lemma_svc_entries_prefix(map_arr@, i + 1);
                    }
                    return Err(BlueZError::new(MALFORMED_SVC_DATA.to_owned()));
                },
            };
            proof {
                let before = entries;
                entries = entries.push((key@, byte_arr@));
                assert(entries.drop_last() =~= before);
                assert(svc_entry(*entry) == Some((key@, byte_arr@)));
            }
            map.insert(key, byte_arr);
            i += 1;
        }
        assert(map_arr@.take(map_arr.len() as int) =~= map_arr@);
        Ok(map)
    }

    /// What the properties of a device object say: its address, its
    /// manufacturer data and its service data, or none where the device is
    /// left out of this poll.
    pub fn read_props(&self, props: &Vec<BusItem>) -> (r: Option<
        (String, Option<MfrData>, Option<SvcData>),
    >)
        ensures
            r is Some == props_read(props@) is Some,
            r is Some ==> (PropsView {
                address: r.unwrap().0@,
                mfr_data: mfr_view(r.unwrap().1),
                svc_data: svc_view(r.unwrap().2),
            }) == props_read(props@).unwrap(),
    {
        let mut address: String = String::new();
        let mut mfr_data: Option<MfrData> = None;
        let mut svc_data: Option<SvcData> = None;
        let mut i: usize = 0;
        while i < props.len()
            invariant
                i <= props.len(),
                props_read(props@.take(i as int)) == Some(
                    PropsView {
                        address: address@,
                        mfr_data: mfr_view(mfr_data),
                        svc_data: svc_view(svc_data),
                    },
                ),
            decreases props.len() - i,
        {
            assert(props@.take(i + 1).drop_last() =~= props@.take(i as int));
            assert(props@.take(i + 1).last() == props@[i as int]);
            let mut left_out = false;
            if let Some((key, val)) = props[i].as_entry() {
                if let Some(name) = key.as_text() {
                    if text_equal(name, "Address") {
                        match val.as_variant() {
                            Some(inner) => match inner.as_text() {
                                Some(a) => {
                                    address = a.to_owned();
                                },
                                None => {
                                    left_out = true;
                                },
                            },
                            None => {
                                left_out = true;
                            },
                        }
                    } else if text_equal(name, "ManufacturerData") {
                        match val.as_variant() {
                            Some(inner) => match self.read_manufacturer_data(inner) {
                                Ok(m) => {
                                    mfr_data = Some(m);
                                },
                                Err(_) => {
                                    left_out = true;
                                },
                            },
                            None => {
                                left_out = true;
                            },
                        }
                    } else if text_equal(name, "ServiceData") {
                        match val.as_variant() {
                            Some(inner) => match self.read_service_data(inner) {
                                Ok(m) => {
                                    svc_data = Some(m);
                                },
                                Err(_) => {
                                    left_out = true;
                                },
                            },
                            None => {
                                left_out = true;
                            },
                        }
                    }
                }
            }
            if left_out {
                proof {
                    assert(props_read(props@.take(i + 1)) is None);
                    lemma_props_read_prefix(props@, i + 1);
                }
                return None;
            }
            i += 1;
        }
        assert(props@.take(props.len() as int) =~= props@);
        Some((address, mfr_data, svc_data))
    }

    /// The reports of one object's interfaces, or none where the reply is
    /// malformed.
    pub fn read_interfaces(&self, path: &BusItem, interfaces: &Vec<BusItem>) -> (r: Option<
        Vec<DeviceReport>,
    >)
        ensures
            r is Some == interface_reports(*path, interfaces@) is Some,
            r is Some ==> report_views(r.unwrap()@) == interface_reports(
                *path,
                interfaces@,
            ).unwrap(),
    {
        let mut out: Vec<DeviceReport> = Vec::new();
        let mut i: usize = 0;
        assert(report_views(out@) =~= Seq::empty());
        while i < interfaces.len()
            invariant
                i <= interfaces.len(),
                interface_reports(*path, interfaces@.take(i as int)) == Some(report_views(out@)),
            decreases interfaces.len() - i,
        {
            assert(interfaces@.take(i + 1).drop_last() =~= interfaces@.take(i as int));
            assert(interfaces@.take(i + 1).last() == interfaces@[i as int]);
            let ghost before = report_views(out@);
            let mut malformed = true;
            if let Some((name, props)) = interfaces[i].as_entry() {
                if let Some(n) = name.as_text() {
                    malformed = false;
                    if text_equal(n, "org.bluez.Device1") {
                        if let (Some(object_path), Some(members)) = (
                            path.as_text(),
                            props.as_list(),
                        ) {
                            if let Some((address, mfr_data, svc_data)) = self.read_props(members) {
                                let report = DeviceReport {
                                    object_path: object_path.to_owned(),
                                    address,
                                    mfr_data,
                                    svc_data,
                                };
                                out.push(report);
                                assert(report_views(out@) =~= before.push(
                                    device_report(*path, *props).unwrap(),
                                ));
                            }
                        }
                    }
                }
            }
            if malformed {
                proof {
                    assert(interface_reports(*path, interfaces@.take(i + 1)) is None);
                    lemma_interface_reports_prefix(*path, interfaces@, i + 1);
                }
                return None;
            }
            i += 1;
        }
        assert(interfaces@.take(interfaces.len() as int) =~= interfaces@);
        Some(out)
    }

    /// The devices that a reply to `GetManagedObjects` reports, in its
    /// order. A reply of another shape is an error.
    pub fn parse_managed_objects(&self, reply: &Vec<BusItem>) -> (r: Result<
        Vec<DeviceReport>,
        BlueZError,
    >)
        ensures
            r is Ok == reply_reports(reply@) is Some,
            r is Ok ==> report_views(r.unwrap()@) == reply_reports(reply@).unwrap(),
            r matches Err(e) ==> e@ == MALFORMED_REPLY@,
    {
        if reply.len() == 0 {
            return Err(BlueZError::new(MALFORMED_REPLY.to_owned()));
        }
        let objects = match reply[0].as_list() {
            Some(objects) => objects,
            None => {
                return Err(BlueZError::new(MALFORMED_REPLY.to_owned()));
            },
        };
        let mut out: Vec<DeviceReport> = Vec::new();
        let mut i: usize = 0;
        assert(report_views(out@) =~= Seq::empty());
        while i < objects.len()
            invariant
                i <= objects.len(),
                reply@.len() > 0,
                item_list(reply@[0]) == Some(objects@),
                object_reports(objects@.take(i as int)) == Some(report_views(out@)),
            decreases objects.len() - i,
        {
            assert(objects@.take(i + 1).drop_last() =~= objects@.take(i as int));
            assert(objects@.take(i + 1).last() == objects@[i as int]);
            let ghost before = report_views(out@);
            let mut found: Option<Vec<DeviceReport>> = None;
            if let Some((path, interfaces)) = objects[i].as_entry() {
                if let Some(members) = interfaces.as_list() {
                    found = self.read_interfaces(path, members);
                }
            }
            match found {
                Some(mut reports) => {
                    let ghost more = report_views(reports@);
                    out.append(&mut reports);
                    assert(report_views(out@) =~= before + more);
                },
                None => {
                    proof {
                        assert(object_reports(objects@.take(i + 1)) is None);
                        lemma_object_reports_prefix(objects@, i + 1);
                    }
                    return Err(BlueZError::new(MALFORMED_REPLY.to_owned()));
                },
            }
            i += 1;
        }
        assert(objects@.take(objects.len() as int) =~= objects@);
        Ok(out)
    }

    /// The place of the device with this object path.
    fn find_device(&self, object_path: &str) -> (r: Option<usize>)
        ensures
            r is Some == position(self@.devices, object_path@) is Some,
            r is Some ==> r.unwrap() as int == position(self@.devices, object_path@).unwrap(),
            r is Some ==> r.unwrap() < self.device_map.len(),
    {
        let ghost devices = device_views(self.device_map@);
        let mut i: usize = 0;
        while i < self.device_map.len()
            invariant
                i <= self.device_map.len(),
                devices == device_views(self.device_map@),
                position(devices.take(i as int), object_path@) is None,
            decreases self.device_map.len() - i,
        {
            assert(devices.take(i + 1).drop_last() =~= devices.take(i as int));
            assert(devices.take(i + 1).last() == self.device_map@[i as int]@);
            if text_equal(self.device_map[i].get_object_path(), object_path) {
                proof {
                    assert(position(devices.take(i + 1), object_path@) == Some(i as int));
                    lemma_position_prefix(devices, object_path@, i + 1);
                }
                return Some(i);
            }
            i += 1;
        }
        assert(devices.take(self.device_map.len() as int) =~= devices);
        None
    }

    /// The device with this object path, if the registry holds it.
    pub fn get_device(&self, object_path: &str) -> (r: Option<&BTDevice>)
        ensures
            match position(self@.devices, object_path@) {
                Some(i) => r is Some && r.unwrap()@ == self@.devices[i],
                None => r is None,
            },
    {
        match self.find_device(object_path) {
            Some(i) => Some(&self.device_map[i]),
            None => None,
        }
    }

    /// Takes one report of a poll at `meas_timestamp` into the registry.
    pub fn _update_device(
        &mut self,
        object_path: &str,
        address: &str,
        mfr_data: Option<MfrData>,
        svc_data: Option<SvcData>,
        meas_timestamp: u64,
    ) -> (r: Result<(), BlueZError>)
        ensures
            r is Ok,
            final(self)@ == old(self)@.upserted(
                DeviceReportView {
                    object_path: object_path@,
                    address: address@,
                    mfr_data: mfr_view(mfr_data),
                    svc_data: svc_view(svc_data),
                },
                meas_timestamp,
            ),
    {
        let ghost before = device_views(self.device_map@);
        match self.find_device(object_path) {
            Some(i) => {
                let device = &mut self.device_map[i];
                device.set_address(address.to_owned());
                device.update_data(mfr_data, svc_data, meas_timestamp, meas_timestamp);
                self.sensor_factory.set_sensor(device);
                assert(device_views(self.device_map@) =~= before.update(
                    i as int,
                    self.device_map@[i as int]@,
                ));
            },
            None => {
                let tag = match self.conf.get_sensor_tag(address) {
                    Some(tag) => tag.to_owned(),
                    None => address.to_owned(),
                };
                let mut device = BTDevice::new(
                    object_path.to_owned(),
                    address.to_owned(),
                    tag,
                    mfr_data,
                    svc_data,
                    meas_timestamp,
                    self.conf.get_last_seen_forget(),
                    self.sensor_factory.get_sensor_discovery_mode(address),
                    meas_timestamp,
                );
                self.sensor_factory.set_sensor(&mut device);
                if device.get_sensor().is_some() {
                    let ghost resolved = device@;
                    self.device_map.push(device);
                    assert(device_views(self.device_map@) =~= before.push(resolved));
                }
            },
        };
        Ok(())
    }

    /// Takes the reply to a poll of the adapter's objects, made at
    /// `timestamp`, into the registry: every device it reports, in its
    /// order. A malformed reply is an error and changes nothing.
    pub fn update_sensors(&mut self, reply: &Vec<BusItem>, timestamp: u64) -> (r: Result<
        (),
        BlueZError,
    >)
        ensures
            match reply_reports(reply@) {
                Some(reports) => r is Ok && final(self)@ == old(self)@.applied(reports, timestamp),
                None => r matches Err(e) && e@ == MALFORMED_REPLY@ && final(self)@ == old(self)@,
            },
    {
        let mut reports = match self.parse_managed_objects(reply) {
            Ok(reports) => reports,
            Err(e) => {
                return Err(e);
            },
        };
        let ghost all = report_views(reports@);
        let ghost start = self@;
        let mut i: usize = 0;
        assert(all.take(0) =~= Seq::empty());
        while i < reports.len()
            invariant
                i <= reports.len(),
                reports.len() == all.len(),
                forall|j: int| i <= j < reports.len() ==> (#[trigger] reports@[j])@ == all[j],
                self@ == start.applied(all.take(i as int), timestamp),
            decreases reports.len() - i,
        {
            let report = &mut reports[i];
            let mfr_data = report.mfr_data.take();
            let svc_data = report.svc_data.take();
            let _ = self._update_device(
                report.object_path.as_str(),
                report.address.as_str(),
                mfr_data,
                svc_data,
                timestamp,
            );
            proof {
                assert(all.take(i + 1).drop_last() =~= all.take(i as int));
                assert(all.take(i + 1).last() == all[i as int]);
            }
            i += 1;
        }
        assert(all.take(i as int) =~= all);
        Ok(())
    }

    /// The devices that are handed to a consumer at `now`: those that bear
    /// a decoder and are fresh, in the registry's order.
    pub fn fresh_sensors(&self, now: u64) -> (r: Vec<&BTDevice>)
        ensures
            r@.map_values(|d: &BTDevice| d@) == self@.emitted(now),
    {
        let ghost devices = device_views(self.device_map@);
        let ghost keep = |d: BTDeviceView| d.sensor is Some && d.fresh(now);
        let mut out: Vec<&BTDevice> = Vec::new();
        let mut i: usize = 0;
        proof {
            reveal(Seq::filter);
            assert(out@.map_values(|d: &BTDevice| d@) =~= devices.take(0).filter(keep));
        }
        while i < self.device_map.len()
            invariant
                i <= self.device_map.len(),
                devices == device_views(self.device_map@),
                keep == |d: BTDeviceView| d.sensor is Some && d.fresh(now),
                out@.map_values(|d: &BTDevice| d@) == devices.take(i as int).filter(keep),
            decreases self.device_map.len() - i,
        {
            let ghost before = out@.map_values(|d: &BTDevice| d@);
            proof {
                reveal(Seq::filter);
                assert(devices.take(i + 1).drop_last() =~= devices.take(i as int));
                assert(devices.take(i + 1).last() == self.device_map@[i as int]@);
            }
            let device = &self.device_map[i];
            if device.get_sensor().is_some() && device.is_upto_date(now) {
                out.push(device);
                assert(out@.map_values(|d: &BTDevice| d@) =~= before.push(device@));
            }
            i += 1;
        }
        assert(devices.take(self.device_map.len() as int) =~= devices);
        out
    }

    /// One tick of the collector: takes the reply to a poll made at
    /// `timestamp` into the registry, as `update_sensors` does, and then
    /// hands the devices that bear a decoder and are fresh to the consumer,
    /// once, also where the reply was malformed or no device is left.
    pub fn consume<C: Consumer>(
        &mut self,
        consumer: &mut C,
        reply: &Vec<BusItem>,
        timestamp: u64,
    ) -> (r: (Result<(), BlueZError>, C::Output))
        ensures
            match reply_reports(reply@) {
                Some(reports) => r.0 is Ok && final(self)@ == old(self)@.applied(
                    reports,
                    timestamp,
                ),
                None => r.0 matches Err(e) && e@ == MALFORMED_REPLY@ && final(self)@ == old(
                    self,
                )@,
            },
            old(consumer).consumed(
                final(self)@.emitted(timestamp),
                timestamp,
                final(consumer),
                r.1,
            ),
    {
        let result = self.update_sensors(reply, timestamp);
        let sensors = self.fresh_sensors(timestamp);
        let output = consumer.consume(&sensors, timestamp);
        (result, output)
    }

    /// The devices of the registry, in the order in which they were taken
    /// in.
    pub fn devices(&self) -> (r: &Vec<BTDevice>)
        ensures
            device_views(r@) == self@.devices,
    {
        &self.device_map
    }
}

} // verus!
