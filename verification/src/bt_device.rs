use vstd::prelude::*;
use crate::bt_sensor::{Sensor, SensorView};
use crate::discovery_mode::{DiscoveryMode, DiscoveryModeView};
use crate::payload::{MfrData, SvcData};

verus! {

/// One Bluetooth device as the adapter reports it: its latest advertisement,
/// when that last changed, and the decoder bound to it. Times are in
/// milliseconds.
#[derive(Debug)]
pub struct BTDevice {
    address: String,
    tag: String,
    object_path: String,
    mfr_data: Option<MfrData>,
    svc_data: Option<SvcData>,
    measurement_timestamp: u64,
    last_seen: u64,
    last_seen_forget: u64,
    discovery_mode: DiscoveryMode,
    bt_sensor: Option<Sensor>,
}

/// The mathematical value of a [`BTDevice`].
pub struct BTDeviceView {
    pub object_path: Seq<char>,
    pub address: Seq<char>,
    pub tag: Seq<char>,
    pub mfr_data: Option<Map<u16, Seq<u8>>>,
    pub svc_data: Option<Map<Seq<char>, Seq<u8>>>,
    pub measurement_timestamp: u64,
    pub last_seen: u64,
    pub last_seen_forget: u64,
    pub discovery_mode: DiscoveryModeView,
    pub sensor: Option<SensorView>,
}

/// The value of optional manufacturer data: none, or the map it holds.
pub open spec fn mfr_view(data: Option<MfrData>) -> Option<Map<u16, Seq<u8>>> {
    match data {
        Some(m) => Some(m@),
        None => None,
    }
}

/// The value of optional service data: none, or the map it holds.
pub open spec fn svc_view(data: Option<SvcData>) -> Option<Map<Seq<char>, Seq<u8>>> {
    match data {
        Some(m) => Some(m@),
        None => None,
    }
}

/// The value of an optional decoder.
pub open spec fn sensor_view(sensor: Option<Sensor>) -> Option<SensorView> {
    match sensor {
        Some(s) => Some(s@),
        None => None,
    }
}

impl BTDeviceView {
    /// The record after an advertisement was reported for it at `now`. Only
    /// a change of the manufacturer data or of the service data moves the
    /// measurement time and the time last seen. No data and an empty map
    /// differ.
    pub open spec fn updated(
        self,
        mfr_data: Option<Map<u16, Seq<u8>>>,
        svc_data: Option<Map<Seq<char>, Seq<u8>>>,
        meas_timestamp: u64,
        now: u64,
    ) -> BTDeviceView {
        if self.mfr_data == mfr_data && self.svc_data == svc_data {
            self
        } else {
            BTDeviceView {
                mfr_data,
                svc_data,
                measurement_timestamp: meas_timestamp,
                last_seen: now,
                ..self
            }
        }
    }

    /// Whether the record was last seen less than `d` before `now`.
    pub open spec fn seen_within(self, d: u64, now: u64) -> bool {
        (now as int) - (self.last_seen as int) < (d as int)
    }

    /// Whether the record is fresh at `now`.
    pub open spec fn fresh(self, now: u64) -> bool {
        self.seen_within(self.last_seen_forget, now)
    }

    /// The record after each of `times` reported the same advertisement, in
    /// order.
    pub open spec fn replayed(
        self,
        mfr_data: Option<Map<u16, Seq<u8>>>,
        svc_data: Option<Map<Seq<char>, Seq<u8>>>,
        times: Seq<u64>,
    ) -> BTDeviceView
        decreases times.len(),
    {
        if times.len() == 0 {
            self
        } else {
            self.replayed(mfr_data, svc_data, times.drop_last()).updated(
                mfr_data,
                svc_data,
                times.last(),
                times.last(),
            )
        }
    }
}

/// However often the same advertisement is reported, the measurement time
/// and the time last seen stay where the first report left them.
pub proof fn lemma_repeated_advertisement_keeps_times(
    device: BTDeviceView,
    mfr_data: Option<Map<u16, Seq<u8>>>,
    svc_data: Option<Map<Seq<char>, Seq<u8>>>,
    times: Seq<u64>,
)
    requires
        times.len() >= 1,
    ensures
        device.replayed(mfr_data, svc_data, times) == device.updated(
            mfr_data,
            svc_data,
            times[0],
            times[0],
        ),
    decreases times.len(),
{
    if times.len() == 1 {
        assert(times.drop_last().len() == 0);
        assert(device.replayed(mfr_data, svc_data, times.drop_last()) == device);
    } else {
        lemma_repeated_advertisement_keeps_times(device, mfr_data, svc_data, times.drop_last());
        assert(times.drop_last()[0] == times[0]);
    }
}

/// After an advertisement that changed the record at `t`, the record is
/// fresh at exactly the times before `t` plus the freshness threshold.
pub proof fn lemma_fresh_until_threshold(
    device: BTDeviceView,
    mfr_data: Option<Map<u16, Seq<u8>>>,
    svc_data: Option<Map<Seq<char>, Seq<u8>>>,
    t: u64,
    now: u64,
)
    requires
        device.mfr_data != mfr_data || device.svc_data != svc_data,
    ensures
        device.updated(mfr_data, svc_data, t, t).fresh(now) <==> (now as int) < (t as int) + (
        device.last_seen_forget as int),
{
}

impl View for BTDevice {
    type V = BTDeviceView;

    closed spec fn view(&self) -> BTDeviceView {
        BTDeviceView {
            object_path: self.object_path@,
            address: self.address@,
            tag: self.tag@,
            mfr_data: mfr_view(self.mfr_data),
            svc_data: svc_view(self.svc_data),
            measurement_timestamp: self.measurement_timestamp,
            last_seen: self.last_seen,
            last_seen_forget: self.last_seen_forget,
            discovery_mode: self.discovery_mode@,
            sensor: sensor_view(self.bt_sensor),
        }
    }
}

/// Whether two optional manufacturer data are the same: both absent, or both
/// present with the same bytes under the same keys.
pub fn same_mfr_data(a: &Option<MfrData>, b: &Option<MfrData>) -> (r: bool)
    ensures
        r == (mfr_view(*a) == mfr_view(*b)),
{
    match (a, b) {
        (Some(x), Some(y)) => x.same_as(y),
        (None, None) => true,
        _ => false,
    }
}

/// Whether two optional service data are the same: both absent, or both
/// present with the same bytes under the same keys.
pub fn same_svc_data(a: &Option<SvcData>, b: &Option<SvcData>) -> (r: bool)
    ensures
        r == (svc_view(*a) == svc_view(*b)),
{
    match (a, b) {
        (Some(x), Some(y)) => x.same_as(y),
        (None, None) => true,
        _ => false,
    }
}

impl BTDevice {
    /// A record first seen at `now`, with no decoder.
    pub fn new(
        object_path: String,
        address: String,
        tag: String,
        mfr_data: Option<MfrData>,
        svc_data: Option<SvcData>,
        measurement_timestamp: u64,
        last_seen_forget: u64,
        discovery_mode: DiscoveryMode,
        now: u64,
    ) -> (r: BTDevice)
        ensures
            r@ == (BTDeviceView {
                object_path: object_path@,
                address: address@,
                tag: tag@,
                mfr_data: mfr_view(mfr_data),
                svc_data: svc_view(svc_data),
                measurement_timestamp,
                last_seen: now,
                last_seen_forget,
                discovery_mode: discovery_mode@,
                sensor: None,
            }),
    {
        BTDevice {
            address,
            tag,
            object_path,
            mfr_data,
            svc_data,
            measurement_timestamp,
            last_seen: now,
            last_seen_forget,
            discovery_mode,
            bt_sensor: None,
        }
    }

    pub fn get_object_path(&self) -> (r: &str)
        ensures
            r@ == self@.object_path,
    {
        self.object_path.as_str()
    }

    pub fn get_address(&self) -> (r: &str)
        ensures
            r@ == self@.address,
    {
        self.address.as_str()
    }

    pub fn get_mfr_data(&self) -> (r: Option<&MfrData>)
        ensures
            r is Some == self@.mfr_data is Some,
            r is Some ==> r.unwrap()@ == self@.mfr_data.unwrap(),
    {
        self.mfr_data.as_ref()
    }

    pub fn get_svc_data(&self) -> (r: Option<&SvcData>)
        ensures
            r is Some == self@.svc_data is Some,
            r is Some ==> r.unwrap()@ == self@.svc_data.unwrap(),
    {
        self.svc_data.as_ref()
    }

    pub fn set_address(&mut self, address: String)
        ensures
            final(self)@ == (BTDeviceView { address: address@, ..old(self)@ }),
    {
        self.address = address;
    }

    /// Takes in an advertisement reported at `now`. Each of the two data is
    /// stored where it differs from what the record holds; where either
    /// differs, the measurement time becomes `meas_timestamp` and the
    /// record counts as seen at `now`.
    pub fn update_data(
        &mut self,
        mfr_data: Option<MfrData>,
        svc_data: Option<SvcData>,
        meas_timestamp: u64,
        now: u64,
    )
        ensures
            final(self)@ == old(self)@.updated(
                mfr_view(mfr_data),
                svc_view(svc_data),
                meas_timestamp,
                now,
            ),
    {
        let mfr_changed = self.set_mfr_data(mfr_data);
        let svc_changed = self.set_svc_data(svc_data);
        if mfr_changed || svc_changed {
            self.set_measurement_timestamp(meas_timestamp);
            self.reset_last_seen(now);
        }
    }

    /// Stores the manufacturer data and says whether they differ from what
    /// the record held.
    pub fn set_mfr_data(&mut self, mfr_data: Option<MfrData>) -> (r: bool)
        ensures
            r == (old(self)@.mfr_data != mfr_view(mfr_data)),
            final(self)@ == (BTDeviceView { mfr_data: mfr_view(mfr_data), ..old(self)@ }),
    {
        if same_mfr_data(&self.mfr_data, &mfr_data) {
            return false;
        }
        self.mfr_data = mfr_data;
        true
    }

    /// Stores the service data and says whether they differ from what the
    /// record held.
    pub fn set_svc_data(&mut self, svc_data: Option<SvcData>) -> (r: bool)
        ensures
            r == (old(self)@.svc_data != svc_view(svc_data)),
            final(self)@ == (BTDeviceView { svc_data: svc_view(svc_data), ..old(self)@ }),
    {
        if same_svc_data(&self.svc_data, &svc_data) {
            return false;
        }
        self.svc_data = svc_data;
        true
    }

    pub fn set_measurement_timestamp(&mut self, meas_timestamp: u64)
        ensures
            final(self)@ == (BTDeviceView { measurement_timestamp: meas_timestamp, ..old(self)@ }),
    {
        self.measurement_timestamp = meas_timestamp;
    }

    pub fn get_measurement_timestamp(&self) -> (r: u64)
        ensures
            r == self@.measurement_timestamp,
    {
        self.measurement_timestamp
    }

    pub fn get_tag(&self) -> (r: &str)
        ensures
            r@ == self@.tag,
    {
        self.tag.as_str()
    }

    /// Marks the record as seen at `now`.
    pub fn reset_last_seen(&mut self, now: u64)
        ensures
            final(self)@ == (BTDeviceView { last_seen: now, ..old(self)@ }),
    {
        self.last_seen = now;
    }

    /// Whether the record was last seen less than `d` before `now`.
    pub fn seen_more_resently_than(&self, d: u64, now: u64) -> (r: bool)
        ensures
            r == self@.seen_within(d, now),
    {
        if now < self.last_seen {
            true
        } else {
            now - self.last_seen < d
        }
    }

    /// Whether the record is fresh at `now`: last seen less than its
    /// freshness threshold before.
    pub fn is_upto_date(&self, now: u64) -> (r: bool)
        ensures
            r == self@.fresh(now),
    {
        self.seen_more_resently_than(self.last_seen_forget, now)
    }

    pub fn get_discovery_mode(&self) -> (r: DiscoveryMode)
        ensures
            r@ == self@.discovery_mode,
    {
        self.discovery_mode.clone()
    }

    pub fn set_sensor(&mut self, sensor: Sensor)
        ensures
            final(self)@ == (BTDeviceView { sensor: Some(sensor@), ..old(self)@ }),
    {
        self.bt_sensor = Some(sensor);
    }

    pub fn unset_sensor(&mut self)
        ensures
            final(self)@ == (BTDeviceView { sensor: None, ..old(self)@ }),
    {
        self.bt_sensor = None;
    }

    pub fn get_sensor(&self) -> (r: Option<&Sensor>)
        ensures
            r is Some == self@.sensor is Some,
            r is Some ==> r.unwrap()@ == self@.sensor.unwrap(),
    {
        self.bt_sensor.as_ref()
    }
}

} // verus!
