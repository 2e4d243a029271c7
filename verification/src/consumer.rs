use vstd::prelude::*;
use crate::bt_device::{BTDevice, BTDeviceView};
use crate::bt_sensor::{
    kind_measurement, BTSensor, measurement_views, Measurement, MeasurementView, Value, ValueView,
};

verus! {

/// The sinks that measurements can be sent to.
#[derive(Debug, Clone, Copy, PartialEq, Eq, Structural)]
pub enum ConsumerType {
    StdOut,
    StdOutJson,
    Influxdb,
}

/// A sink for the sensors of one poll. What a consumer hands back is what
/// is to be sent on: a consumer itself sends nothing.
pub trait Consumer: Sized {
    type Output;

    /// What one call does: how the consumer `after` it and what it hands
    /// back relate to the consumer before it and the sensors it was given.
    /// A consumer that does not say so promises nothing.
    open spec fn consumed(
        &self,
        sensors: Seq<BTDeviceView>,
        now: u64,
        after: &Self,
        output: Self::Output,
    ) -> bool {
        true
    }

    fn consume(&mut self, sensors: &Vec<&BTDevice>, now: u64) -> (r: Self::Output)
        ensures
            old(self).consumed(sensor_views(sensors@), now, final(self), r),
    ;
}

/// What one sensor gave at one poll.
#[derive(Debug)]
pub struct Reading {
    pub address: String,
    pub tag: String,
    pub timestamp: u64,
    pub measurement: Measurement,
}

/// The mathematical value of a [`Reading`].
pub struct ReadingView {
    pub address: Seq<char>,
    pub tag: Seq<char>,
    pub timestamp: u64,
    pub measurement: MeasurementView,
}

impl View for Reading {
    type V = ReadingView;

    open spec fn view(&self) -> ReadingView {
        ReadingView {
            address: self.address@,
            tag: self.tag@,
            timestamp: self.timestamp,
            measurement: self.measurement@,
        }
    }
}

/// The views of a list of devices.
pub open spec fn sensor_views(sensors: Seq<&BTDevice>) -> Seq<BTDeviceView> {
    sensors.map_values(|d: &BTDevice| d@)
}

/// The views of a list of readings.
pub open spec fn reading_views(readings: Seq<Reading>) -> Seq<ReadingView> {
    readings.map_values(|r: Reading| r@)
}

/// What a device gives at `now`: its measurement, if it is fresh, bears a
/// decoder and holds a measurement for it.
pub open spec fn reading(device: BTDeviceView, now: u64) -> Option<ReadingView> {
    if device.fresh(now) && device.sensor is Some {
        match kind_measurement(device.sensor.unwrap().kind, device) {
            Some(measurement) => Some(
                ReadingView {
                    address: device.address,
                    tag: device.tag,
                    timestamp: device.measurement_timestamp,
                    measurement,
                },
            ),
            None => None,
        }
    } else {
        None
    }
}

/// What a list of devices gives at `now`, in their order.
pub open spec fn readings(sensors: Seq<BTDeviceView>, now: u64) -> Seq<ReadingView>
    decreases sensors.len(),
{
    if sensors.len() == 0 {
        Seq::empty()
    } else {
        let front = readings(sensors.drop_last(), now);
        match reading(sensors.last(), now) {
            Some(r) => front.push(r),
            None => front,
        }
    }
}

/// What the device gives at `now`.
pub fn read_sensor(device: &BTDevice, now: u64) -> (r: Option<Reading>)
    ensures
        r is Some == reading(device@, now) is Some,
        r is Some ==> r.unwrap()@ == reading(device@, now).unwrap(),
{
    if !device.is_upto_date(now) {
        return None;
    }
    let sensor = match device.get_sensor() {
        Some(sensor) => sensor,
        None => {
            return None;
        },
    };
    match sensor.get_measurement(device) {
        Some(measurement) => Some(
            Reading {
                address: sensor.get_address(device),
                tag: sensor.get_tag(device),
                timestamp: sensor.get_measurement_timestamp(device),
                measurement,
            },
        ),
        None => None,
    }
}

/// What the devices give at `now`, in their order.
pub fn read_sensors(sensors: &Vec<&BTDevice>, now: u64) -> (r: Vec<Reading>)
    ensures
        reading_views(r@) == readings(sensor_views(sensors@), now),
{
    let ghost all = sensor_views(sensors@);
    let mut out: Vec<Reading> = Vec::new();
    let mut i: usize = 0;
    assert(reading_views(out@) =~= readings(all.take(0), now));
    while i < sensors.len()
        invariant
            i <= sensors.len(),
            all == sensor_views(sensors@),
            reading_views(out@) == readings(all.take(i as int), now),
        decreases sensors.len() - i,
    {
        let ghost before = reading_views(out@);
        assert(all.take(i + 1).drop_last() =~= all.take(i as int));
        assert(all.take(i + 1).last() == sensors@[i as int]@);
        match read_sensor(sensors[i], now) {
            Some(r) => {
                let ghost v = r@;
                out.push(r);
                assert(reading_views(out@) =~= before.push(v));
            },
            None => {},
        }
        i += 1;
    }
    assert(all.take(sensors.len() as int) =~= all);
    out
}

/// The consumer that prints each reading as text. It hands back the
/// readings to print.
#[derive(Debug)]
pub struct StdOutConsumer;

impl Consumer for StdOutConsumer {
    type Output = Vec<Reading>;

    open spec fn consumed(
        &self,
        sensors: Seq<BTDeviceView>,
        now: u64,
        after: &Self,
        output: Vec<Reading>,
    ) -> bool {
        reading_views(output@) == readings(sensors, now)
    }

    fn consume(&mut self, sensors: &Vec<&BTDevice>, now: u64) -> (r: Vec<Reading>) {
        read_sensors(sensors, now)
    }
}

/// The consumer that prints each reading as one line of JSON. It hands back
/// the readings to print.
#[derive(Debug)]
pub struct StdOutJsonConsumer;

impl Consumer for StdOutJsonConsumer {
    type Output = Vec<Reading>;

    open spec fn consumed(
        &self,
        sensors: Seq<BTDeviceView>,
        now: u64,
        after: &Self,
        output: Vec<Reading>,
    ) -> bool {
        reading_views(output@) == readings(sensors, now)
    }

    fn consume(&mut self, sensors: &Vec<&BTDevice>, now: u64) -> (r: Vec<Reading>) {
        read_sensors(sensors, now)
    }
}

/// One point of a time series: a measurement name, tags, fields and a time
/// in milliseconds.
#[derive(Debug)]
pub struct Point {
    pub measurement: String,
    pub tags: Vec<(String, String)>,
    pub fields: Vec<(String, Value)>,
    pub timestamp: i64,
}

/// The mathematical value of a [`Point`].
pub struct PointView {
    pub measurement: Seq<char>,
    pub tags: Seq<(Seq<char>, Seq<char>)>,
    pub fields: Seq<(Seq<char>, ValueView)>,
    pub timestamp: i64,
}

impl View for Point {
    type V = PointView;

    open spec fn view(&self) -> PointView {
        PointView {
            measurement: self.measurement@,
            tags: self.tags@.map_values(|t: (String, String)| (t.0@, t.1@)),
            fields: measurement_views(self.fields@),
            timestamp: self.timestamp,
        }
    }
}

/// The views of a list of points.
pub open spec fn point_views(points: Seq<Point>) -> Seq<PointView> {
    points.map_values(|p: Point| p@)
}

/// A time in milliseconds as the signed number with the same 64 bits.
pub open spec fn signed_millis(t: u64) -> i64 {
    if t <= i64::MAX as u64 {
        t as i64
    } else {
        (t as int - 0x1_0000_0000_0000_0000) as i64
    }
}

/// The point for a reading: named `ruuvitag`, tagged with the tag and the
/// address, with the measurement's named values as its fields.
pub open spec fn reading_point(r: ReadingView) -> PointView {
    PointView {
        measurement: "ruuvitag"@,
        tags: seq![("tag"@, r.tag), ("address"@, r.address)],
        fields: r.measurement.values(),
        timestamp: signed_millis(r.timestamp),
    }
}

/// The points for a list of readings.
pub open spec fn reading_points(rs: Seq<ReadingView>) -> Seq<PointView> {
    rs.map_values(|r: ReadingView| reading_point(r))
}

/// The points that are kept of `points` under a limit: the newest ones, as
/// many as the limit allows; all of them where there is no limit.
pub open spec fn capped(points: Seq<PointView>, limit: Option<usize>) -> Seq<PointView> {
    match limit {
        Some(n) => if points.len() > n {
            points.skip(points.len() - n)
        } else {
            points
        },
        None => points,
    }
}

/// The consumer that writes points to a time series database. It keeps
/// the points that are not written yet, the oldest first, and where it has
/// a limit it drops the oldest beyond it.
#[derive(Debug)]
pub struct InfluxdbConsumer {
    measurements: Vec<Point>,
    limit: Option<usize>,
}

impl View for InfluxdbConsumer {
    type V = Seq<PointView>;

    closed spec fn view(&self) -> Seq<PointView> {
        point_views(self.measurements@)
    }
}

impl InfluxdbConsumer {
    /// The most points that the consumer keeps, if it has a limit.
    pub closed spec fn limit(&self) -> Option<usize> {
        self.limit
    }

    /// A consumer with nothing to write, which keeps every point until it
    /// is written.
    pub fn new() -> (r: InfluxdbConsumer)
        ensures
            r@ == Seq::<PointView>::empty(),
            r.limit() is None,
    {
        let r = InfluxdbConsumer { measurements: Vec::new(), limit: None };
        assert(point_views(r.measurements@) =~= Seq::empty());
        r
    }

    /// A consumer with nothing to write, which keeps at most `limit` points
    /// while they cannot be written.
    pub fn with_limit(limit: usize) -> (r: InfluxdbConsumer)
        ensures
            r@ == Seq::<PointView>::empty(),
            r.limit() == Some(limit),
    {
        let r = InfluxdbConsumer { measurements: Vec::new(), limit: Some(limit) };
        assert(point_views(r.measurements@) =~= Seq::empty());
        r
    }

    /// The most points that the consumer keeps, if it has a limit.
    pub fn get_limit(&self) -> (r: Option<usize>)
        ensures
            r == self.limit(),
    {
        self.limit
    }

    fn signed(t: u64) -> (r: i64)
        ensures
            r == signed_millis(t),
    {
        if t <= i64::MAX as u64 {
            t as i64
        } else {
            let low: i64 = (t - 0x8000_0000_0000_0000) as i64;
            low + i64::MIN
        }
    }

    /// The point for a reading.
    pub fn point(reading: Reading) -> (r: Point)
        ensures
            r@ == reading_point(reading@),
    {
        let fields = reading.measurement.values();
        let mut tags: Vec<(String, String)> = Vec::new();
        tags.push(("tag".to_owned(), reading.tag));
        tags.push(("address".to_owned(), reading.address));
        let r = Point {
            measurement: "ruuvitag".to_owned(),
            tags,
            fields,
            timestamp: InfluxdbConsumer::signed(reading.timestamp),
        };
        assert(r@.tags =~= reading_point(reading@).tags);
        r
    }

    /// The points that wait to be written, the oldest first.
    pub fn pending(&self) -> (r: &Vec<Point>)
        ensures
            point_views(r@) == self@,
    {
        &self.measurements
    }

    /// Takes note of how the write of the pending points ended: after a
    /// write that succeeded nothing is pending, after one that failed
    /// everything still is.
    pub fn written(&mut self, ok: bool)
        ensures
            final(self)@ == (if ok { Seq::<PointView>::empty() } else { old(self)@ }),
            final(self).limit() == old(self).limit(),
    {
        if ok {
            self.measurements = Vec::new();
            assert(point_views(self.measurements@) =~= Seq::empty());
        }
    }
}

impl Consumer for InfluxdbConsumer {
    type Output = ();

    /// The points of the poll come after the pending ones; of all these the
    /// consumer keeps what its limit allows.
    open spec fn consumed(
        &self,
        sensors: Seq<BTDeviceView>,
        now: u64,
        after: &Self,
        output: (),
    ) -> bool {
        &&& after@ == capped(self@ + reading_points(readings(sensors, now)), self.limit())
        &&& after.limit() == self.limit()
    }

    fn consume(&mut self, sensors: &Vec<&BTDevice>, now: u64) {
        let ghost all = sensor_views(sensors@);
        let ghost start = self@;
        let mut i: usize = 0;
        assert(start + reading_points(readings(all.take(0), now)) =~= start);
        while i < sensors.len()
            invariant
                i <= sensors.len(),
                all == sensor_views(sensors@),
                self@ == start + reading_points(readings(all.take(i as int), now)),
                self.limit() == old(self).limit(),
            decreases sensors.len() - i,
        {
            let ghost before = point_views(self.measurements@);
            let ghost front = readings(all.take(i as int), now);
            assert(all.take(i + 1).drop_last() =~= all.take(i as int));
            assert(all.take(i + 1).last() == sensors@[i as int]@);
            match read_sensor(sensors[i], now) {
                Some(reading) => {
                    let ghost rv = reading@;
                    let point = InfluxdbConsumer::point(reading);
                    let ghost pv = point@;
                    self.measurements.push(point);
                    proof {
                        assert(point_views(self.measurements@) =~= before.push(pv));
                        assert(reading_points(front.push(rv)) =~= reading_points(front).push(pv));
                    }
                },
                None => {},
            }
            i += 1;
        }
        assert(all.take(sensors.len() as int) =~= all);
        if let Some(limit) = self.limit {
            if self.measurements.len() > limit {
                let ghost before = point_views(self.measurements@);
                let at = self.measurements.len() - limit;
                let kept = self.measurements.split_off(at);
                self.measurements = kept;
                assert(point_views(self.measurements@) =~= before.skip(at as int));
            }
        }
    }
}

/// The consumer of each kind, ready for its first poll.
#[derive(Debug)]
pub enum AnyConsumer {
    StdOut(StdOutConsumer),
    StdOutJson(StdOutJsonConsumer),
    Influxdb(InfluxdbConsumer),
}

/// The consumer for a consumer type.
pub fn initialize_consumer(consumer_name: &ConsumerType) -> (r: Result<AnyConsumer, String>)
    ensures
        r is Ok,
        match *consumer_name {
            ConsumerType::StdOut => r.unwrap() is StdOut,
            ConsumerType::StdOutJson => r.unwrap() is StdOutJson,
            ConsumerType::Influxdb => r.unwrap() is Influxdb && r.unwrap()->Influxdb_0@
                == Seq::<PointView>::empty() && r.unwrap()->Influxdb_0.limit() is None,
        },
{
    match consumer_name {
        ConsumerType::StdOut => Ok(AnyConsumer::StdOut(StdOutConsumer {  })),
        ConsumerType::StdOutJson => Ok(AnyConsumer::StdOutJson(StdOutJsonConsumer {  })),
        ConsumerType::Influxdb => Ok(AnyConsumer::Influxdb(InfluxdbConsumer::new())),
    }
}

} // verus!
