use vstd::prelude::*;
use crate::bt_device::{BTDevice, BTDeviceView};
use crate::bt_sensor::{
    be_i16, be_u16, kind_values, measurement_views, pressure_pa, read_be_i16, read_be_u16,
    read_temp_sign, read_temp_wholes, temp_hundredths, temp_sign, temp_wholes, BTSensor,
    BTSensorConstructor, Sensor, SensorKind, Value, ValueView,
};
use crate::discovery_mode::{DiscoveryMode, DiscoveryModeView};

verus! {

/// The company identifier under which a RuuviTag sends its data.
pub const MFR_DATA_FIELD: u16 = 0x0499;

/// The bytes that a device holds under the RuuviTag company identifier.
pub open spec fn df3_payload(mfr_data: Option<Map<u16, Seq<u8>>>) -> Option<Seq<u8>> {
    match mfr_data {
        Some(m) => if m.contains_key(MFR_DATA_FIELD) {
            Some(m[MFR_DATA_FIELD])
        } else {
            None
        },
        None => None,
    }
}

/// Whether manufacturer data hold a format 3 frame: 18 bytes under the
/// RuuviTag company identifier.
pub open spec fn df3_valid(mfr_data: Option<Map<u16, Seq<u8>>>) -> bool {
    df3_payload(mfr_data) is Some && df3_payload(mfr_data).unwrap().len() == 18
}

/// The byte at `offset` of the payload, if the payload reaches that far.
pub open spec fn df3_byte(mfr_data: Option<Map<u16, Seq<u8>>>, offset: int) -> Option<u8> {
    match df3_payload(mfr_data) {
        Some(p) => if 0 <= offset < p.len() {
            Some(p[offset])
        } else {
            None
        },
        None => None,
    }
}

/// The unsigned number at `offset` and `offset + 1`, if the payload reaches
/// that far.
pub open spec fn df3_u16(mfr_data: Option<Map<u16, Seq<u8>>>, offset: int) -> Option<u16> {
    match df3_payload(mfr_data) {
        Some(p) => if 0 <= offset && offset + 1 < p.len() {
            Some(be_u16(p[offset], p[offset + 1]))
        } else {
            None
        },
        None => None,
    }
}

/// The signed number at `offset` and `offset + 1`, if the payload reaches
/// that far.
pub open spec fn df3_i16(mfr_data: Option<Map<u16, Seq<u8>>>, offset: int) -> Option<i16> {
    match df3_payload(mfr_data) {
        Some(p) => if 0 <= offset && offset + 1 < p.len() {
            Some(be_i16(p[offset], p[offset + 1]))
        } else {
            None
        },
        None => None,
    }
}

/// The mathematical value of a [`RuuvitagDF3Meas`].
pub struct RuuvitagDF3MeasView {
    pub data_format: u8,
    pub battery: u16,
    pub humidity: u8,
    pub temperature: u8,
    pub temperature_sign: i8,
    pub temperature_fractions: u8,
    pub pressure: u32,
    pub acceleration_x: i16,
    pub acceleration_y: i16,
    pub acceleration_z: i16,
    pub address: Seq<char>,
    pub tag: Seq<char>,
}

/// The measurement that a payload holds for a device with this address and
/// tag: none where the payload has fewer than 14 bytes.
pub open spec fn df3_decode(p: Seq<u8>, address: Seq<char>, tag: Seq<char>) -> Option<
    RuuvitagDF3MeasView,
> {
    if p.len() >= 14 {
        Some(
            RuuvitagDF3MeasView {
                data_format: p[0],
                battery: be_u16(p[12], p[13]),
                humidity: p[1],
                temperature: temp_wholes(p[2]),
                temperature_sign: temp_sign(p[2]),
                temperature_fractions: p[3],
                pressure: pressure_pa(be_u16(p[4], p[5])),
                acceleration_x: be_i16(p[6], p[7]),
                acceleration_y: be_i16(p[8], p[9]),
                acceleration_z: be_i16(p[10], p[11]),
                address,
                tag,
            },
        )
    } else {
        None
    }
}

/// The measurement of a device, if its manufacturer data hold one.
pub open spec fn df3_measurement(device: BTDeviceView) -> Option<RuuvitagDF3MeasView> {
    match df3_payload(device.mfr_data) {
        Some(p) => df3_decode(p, device.address, device.tag),
        None => None,
    }
}

/// The high byte of a 16-bit pattern.
pub open spec fn high_byte(bits: int) -> u8 {
    (bits / 256) as u8
}

/// The low byte of a 16-bit pattern.
pub open spec fn low_byte(bits: int) -> u8 {
    (bits % 256) as u8
}

/// The 16-bit pattern of a signed number in two's complement.
pub open spec fn twos_complement(v: i16) -> int {
    if v < 0 {
        v as int + 65536
    } else {
        v as int
    }
}

/// The format 3 frame that carries a measurement: 18 bytes, the last four
/// of them zero.
pub open spec fn df3_frame(m: RuuvitagDF3MeasView) -> Seq<u8> {
    seq![
        m.data_format,
        m.humidity,
        (if m.temperature_sign < 0 { m.temperature as int + 128 } else { m.temperature as int }) as u8,
        m.temperature_fractions,
        high_byte(m.pressure as int - 50000),
        low_byte(m.pressure as int - 50000),
        high_byte(twos_complement(m.acceleration_x)),
        low_byte(twos_complement(m.acceleration_x)),
        high_byte(twos_complement(m.acceleration_y)),
        low_byte(twos_complement(m.acceleration_y)),
        high_byte(twos_complement(m.acceleration_z)),
        low_byte(twos_complement(m.acceleration_z)),
        high_byte(m.battery as int),
        low_byte(m.battery as int),
        0u8,
        0u8,
        0u8,
        0u8,
    ]
}

/// Whether a measurement is one that a frame can carry: whole degrees under
/// 128, a sign of 1 or -1, and a pressure from 50000 to 115535 pascal.
pub open spec fn df3_in_range(m: RuuvitagDF3MeasView) -> bool {
    &&& m.temperature < 128
    &&& (m.temperature_sign == 1 || m.temperature_sign == -1)
    &&& 50000 <= m.pressure <= 115535
}

/// A frame built from a measurement is valid, and decodes to that
/// measurement.
pub proof fn lemma_df3_round_trip(m: RuuvitagDF3MeasView)
    requires
        df3_in_range(m),
    ensures
        df3_frame(m).len() == 18,
        df3_decode(df3_frame(m), m.address, m.tag) == Some(m),
{
    let p = df3_frame(m);
    let d = df3_decode(p, m.address, m.tag).unwrap();
    lemma_be_u16_joins(m.battery as int);
    lemma_be_u16_joins(m.pressure as int - 50000);
    lemma_be_i16_joins(m.acceleration_x);
    lemma_be_i16_joins(m.acceleration_y);
    lemma_be_i16_joins(m.acceleration_z);
    assert(d.battery == m.battery);
    assert(d.pressure == m.pressure);
    assert(d.temperature == m.temperature);
    assert(d.temperature_sign == m.temperature_sign);
    assert(d.acceleration_x == m.acceleration_x);
    assert(d.acceleration_y == m.acceleration_y);
    assert(d.acceleration_z == m.acceleration_z);
}

/// A device that holds the frame built from a measurement, under the
/// measurement's address and tag, is valid for the decoder and gives that
/// measurement back, and so its named values.
pub proof fn lemma_df3_round_trip_device(m: RuuvitagDF3MeasView, device: BTDeviceView)
    requires
        df3_in_range(m),
        df3_payload(device.mfr_data) == Some(df3_frame(m)),
        device.address == m.address,
        device.tag == m.tag,
    ensures
        df3_valid(device.mfr_data),
        df3_measurement(device) == Some(m),
        kind_values(SensorKind::RuuvitagDF3, device) == Some(df3_values(m)),
{
    lemma_df3_round_trip(m);
}

/// The two bytes of a 16-bit pattern give the pattern back.
pub proof fn lemma_be_u16_joins(bits: int)
    requires
        0 <= bits < 65536,
    ensures
        be_u16(high_byte(bits), low_byte(bits)) == bits,
{
}

/// The two bytes of a signed number's pattern give the number back.
pub proof fn lemma_be_i16_joins(v: i16)
    ensures
        be_i16(high_byte(twos_complement(v)), low_byte(twos_complement(v))) == v,
{
}

/// The temperature of a frame has the magnitude of its whole degrees and
/// its hundredths, and the sign that the top bit of the frame's third byte
/// gives.
pub proof fn lemma_df3_temperature(p: Seq<u8>, address: Seq<char>, tag: Seq<char>)
    requires
        p.len() >= 14,
    ensures
        ({
            let m = df3_decode(p, address, tag).unwrap();
            let t = temp_hundredths(m.temperature_sign, m.temperature, m.temperature_fractions);
            &&& m.temperature == p[2] % 128
            &&& m.temperature_fractions == p[3]
            &&& (p[2] >= 128 ==> t == -(m.temperature as int * 100 + m.temperature_fractions as int))
            &&& (p[2] < 128 ==> t == m.temperature as int * 100 + m.temperature_fractions as int)
        }),
{
}

/// The pressure of a frame is 50000 pascal more than the number that its
/// fifth and sixth byte hold, the high byte first.
pub proof fn lemma_df3_pressure(p: Seq<u8>, address: Seq<char>, tag: Seq<char>)
    requires
        p.len() >= 14,
    ensures
        df3_decode(p, address, tag).unwrap().pressure == 50000 + p[4] as int * 256 + p[5] as int,
{
}

/// The builder of format 3 decoders.
#[derive(Debug)]
pub struct RuuvitagDF3Constructor;

impl RuuvitagDF3Constructor {
    pub fn new() -> (r: Box<RuuvitagDF3Constructor>)
        ensures
            r.kind() == SensorKind::RuuvitagDF3,
    {
        Box::new(RuuvitagDF3Constructor {  })
    }
}

impl BTSensorConstructor for RuuvitagDF3Constructor {
    open spec fn kind(&self) -> SensorKind {
        SensorKind::RuuvitagDF3
    }

    fn get_name(&self) -> (r: &'static str) {
        "RuuvitagDF3"
    }

    fn construct(&self, discovery_mode: DiscoveryMode) -> (r: Sensor) {
        Sensor::RuuvitagDF3(RuuvitagDF3::new(discovery_mode))
    }

    fn is_valid_data(&self, device: &BTDevice) -> (r: bool) {
        RuuvitagDF3::_is_valid_data(device)
    }
}

/// The decoder of RuuviTag data format 3.
#[derive(Debug)]
pub struct RuuvitagDF3 {
    discovery_mode: DiscoveryMode,
}

impl View for RuuvitagDF3 {
    type V = DiscoveryModeView;

    closed spec fn view(&self) -> DiscoveryModeView {
        self.discovery_mode@
    }
}

impl Clone for RuuvitagDF3 {
    fn clone(&self) -> (r: RuuvitagDF3)
        ensures
            r@ == self@,
    {
        RuuvitagDF3 { discovery_mode: self.discovery_mode.clone() }
    }
}

impl RuuvitagDF3 {
    pub fn new(discovery_mode: DiscoveryMode) -> (r: RuuvitagDF3)
        ensures
            r@ == discovery_mode@,
    {
        RuuvitagDF3 { discovery_mode }
    }

    /// The payload of the device, if it has one.
    fn payload(device: &BTDevice) -> (r: Option<&Vec<u8>>)
        ensures
            r is Some == df3_payload(device@.mfr_data) is Some,
            r is Some ==> r.unwrap()@ == df3_payload(device@.mfr_data).unwrap(),
    {
        match device.get_mfr_data() {
            Some(m) => m.get(MFR_DATA_FIELD),
            None => None,
        }
    }

    fn byte_at(device: &BTDevice, offset: usize) -> (r: Option<u8>)
        ensures
            r == df3_byte(device@.mfr_data, offset as int),
    {
        match RuuvitagDF3::payload(device) {
            Some(p) => if offset < p.len() {
                Some(p[offset])
            } else {
                None
            },
            None => None,
        }
    }

    fn u16_at(device: &BTDevice, offset: usize) -> (r: Option<u16>)
        requires
            offset < usize::MAX,
        ensures
            r == df3_u16(device@.mfr_data, offset as int),
    {
        match RuuvitagDF3::payload(device) {
            Some(p) => if offset + 1 < p.len() {
                Some(read_be_u16(p[offset], p[offset + 1]))
            } else {
                None
            },
            None => None,
        }
    }

    fn i16_at(device: &BTDevice, offset: usize) -> (r: Option<i16>)
        requires
            offset < usize::MAX,
        ensures
            r == df3_i16(device@.mfr_data, offset as int),
    {
        match RuuvitagDF3::payload(device) {
            Some(p) => if offset + 1 < p.len() {
                Some(read_be_i16(p[offset], p[offset + 1]))
            } else {
                None
            },
            None => None,
        }
    }

    /// Whether the device's manufacturer data hold a format 3 frame. The
    /// answer depends on those data alone.
    pub fn _is_valid_data(device: &BTDevice) -> (r: bool)
        ensures
            r == df3_valid(device@.mfr_data),
    {
        match RuuvitagDF3::payload(device) {
            Some(data) => data.len() == 18,
            None => false,
        }
    }

    pub fn get_data_format(&self, device: &BTDevice) -> (r: Option<u8>)
        ensures
            r == df3_byte(device@.mfr_data, 0),
    {
        RuuvitagDF3::byte_at(device, 0)
    }

    /// The relative humidity in steps of half a percent.
    pub fn get_humidity(&self, device: &BTDevice) -> (r: Option<u8>)
        ensures
            r == df3_byte(device@.mfr_data, 1),
    {
        RuuvitagDF3::byte_at(device, 1)
    }

    pub fn get_temp_wholes(&self, device: &BTDevice) -> (r: Option<u8>)
        ensures
            r == match df3_byte(device@.mfr_data, 2) {
                Some(raw) => Some(temp_wholes(raw)),
                None => None,
            },
    {
        match RuuvitagDF3::byte_at(device, 2) {
            Some(raw) => Some(read_temp_wholes(raw)),
            None => None,
        }
    }

    pub fn get_temp_sign(&self, device: &BTDevice) -> (r: Option<i8>)
        ensures
            r == match df3_byte(device@.mfr_data, 2) {
                Some(raw) => Some(temp_sign(raw)),
                None => None,
            },
    {
        match RuuvitagDF3::byte_at(device, 2) {
            Some(raw) => Some(read_temp_sign(raw)),
            None => None,
        }
    }

    pub fn get_temp_fractions(&self, device: &BTDevice) -> (r: Option<u8>)
        ensures
            r == df3_byte(device@.mfr_data, 3),
    {
        RuuvitagDF3::byte_at(device, 3)
    }

    /// The temperature in hundredths of a degree, where the device holds a
    /// whole measurement.
    pub fn get_temp_float(&self, device: &BTDevice) -> (r: Option<i32>)
        ensures
            r is Some == df3_measurement(device@) is Some,
            r is Some ==> r.unwrap() == ({
                let m = df3_measurement(device@).unwrap();
                temp_hundredths(m.temperature_sign, m.temperature, m.temperature_fractions)
            }),
    {
        match self._get_measurements(device) {
            Some(m) => Some(m.get_temperature_float()),
            None => None,
        }
    }

    /// The pressure as it is on the wire: pascal above 50000.
    pub fn get_pressure(&self, device: &BTDevice) -> (r: Option<u16>)
        ensures
            r == df3_u16(device@.mfr_data, 4),
    {
        RuuvitagDF3::u16_at(device, 4)
    }

    pub fn get_acceleration_x(&self, device: &BTDevice) -> (r: Option<i16>)
        ensures
            r == df3_i16(device@.mfr_data, 6),
    {
        RuuvitagDF3::i16_at(device, 6)
    }

    pub fn get_acceleration_y(&self, device: &BTDevice) -> (r: Option<i16>)
        ensures
            r == df3_i16(device@.mfr_data, 8),
    {
        RuuvitagDF3::i16_at(device, 8)
    }

    pub fn get_acceleration_z(&self, device: &BTDevice) -> (r: Option<i16>)
        ensures
            r == df3_i16(device@.mfr_data, 10),
    {
        RuuvitagDF3::i16_at(device, 10)
    }

    pub fn get_battery(&self, device: &BTDevice) -> (r: Option<u16>)
        ensures
            r == df3_u16(device@.mfr_data, 12),
    {
        RuuvitagDF3::u16_at(device, 12)
    }

    /// The measurement that the device holds: present exactly when its
    /// payload has the 14 bytes that the fields take.
    pub fn _get_measurements(&self, device: &BTDevice) -> (r: Option<RuuvitagDF3Meas>)
        ensures
            r is Some == df3_measurement(device@) is Some,
            r is Some ==> r.unwrap()@ == df3_measurement(device@).unwrap(),
    {
        if let (
            Some(format),
            Some(hum),
            Some(temp_wholes),
            Some(temp_sign),
            Some(temp_fract),
            Some(press),
            Some(acc_x),
            Some(acc_y),
            Some(acc_z),
            Some(batt),
        ) = (
            self.get_data_format(device),
            self.get_humidity(device),
            self.get_temp_wholes(device),
            self.get_temp_sign(device),
            self.get_temp_fractions(device),
            self.get_pressure(device),
            self.get_acceleration_x(device),
            self.get_acceleration_y(device),
            self.get_acceleration_z(device),
            self.get_battery(device),
        ) {
            let press_corr: u32 = 50000 + press as u32;
            let tag = device.get_tag().to_owned();
            let address = device.get_address().to_owned();
            let meas = RuuvitagDF3Meas {
                data_format: format,
                battery: batt,
                humidity: hum,
                temperature: temp_wholes,
                temperature_sign: temp_sign,
                temperature_fractions: temp_fract,
                pressure: press_corr,
                acceleration_x: acc_x,
                acceleration_y: acc_y,
                acceleration_z: acc_z,
                address,
                tag,
            };
            Some(meas)
        } else {
            None
        }
    }
}

impl BTSensor for RuuvitagDF3 {
    open spec fn kind(&self) -> SensorKind {
        SensorKind::RuuvitagDF3
    }

    fn is_valid_data(&self, device: &BTDevice) -> (r: bool) {
        RuuvitagDF3::_is_valid_data(device)
    }

    fn get_measurements(&self, device: &BTDevice) -> (r: Option<Vec<(String, Value)>>) {
        match self._get_measurements(device) {
            Some(m) => Some(m.values()),
            None => None,
        }
    }

    fn get_measurement_timestamp(&self, device: &BTDevice) -> (r: u64) {
        device.get_measurement_timestamp()
    }

    fn get_address(&self, device: &BTDevice) -> (r: String) {
        device.get_address().to_owned()
    }

    fn get_tag(&self, device: &BTDevice) -> (r: String) {
        device.get_tag().to_owned()
    }
}

/// The named values of a measurement. The humidity comes twice: in whole
/// percent, rounded down, and in halves of a percent over two; the
/// temperature comes in hundredths of a degree over a hundred.
pub open spec fn df3_values(m: RuuvitagDF3MeasView) -> Seq<(Seq<char>, ValueView)> {
    seq![
        ("battery"@, ValueView::Integer(m.battery as i64)),
        ("humidity"@, ValueView::Integer((m.humidity / 2) as i64)),
        ("humidity_float"@, ValueView::Fraction(m.humidity as i64, 2)),
        (
            "temperature"@,
            ValueView::Fraction(
                temp_hundredths(m.temperature_sign, m.temperature, m.temperature_fractions) as i64,
                100,
            ),
        ),
        ("pressure"@, ValueView::Integer(m.pressure as i64)),
        ("acceleration_x"@, ValueView::Integer(m.acceleration_x as i64)),
        ("acceleration_y"@, ValueView::Integer(m.acceleration_y as i64)),
        ("acceleration_z"@, ValueView::Integer(m.acceleration_z as i64)),
    ]
}

/// One measurement of a format 3 RuuviTag. The humidity is in steps of half
/// a percent, the pressure in pascal, the accelerations in thousandths of
/// g, the battery in millivolt.
#[derive(Debug)]
pub struct RuuvitagDF3Meas {
    pub data_format: u8,
    pub battery: u16,
    pub humidity: u8,
    pub temperature: u8,
    pub temperature_sign: i8,
    pub temperature_fractions: u8,
    pub pressure: u32,
    pub acceleration_x: i16,
    pub acceleration_y: i16,
    pub acceleration_z: i16,
    pub address: String,
    pub tag: String,
}

impl View for RuuvitagDF3Meas {
    type V = RuuvitagDF3MeasView;

    open spec fn view(&self) -> RuuvitagDF3MeasView {
        RuuvitagDF3MeasView {
            data_format: self.data_format,
            battery: self.battery,
            humidity: self.humidity,
            temperature: self.temperature,
            temperature_sign: self.temperature_sign,
            temperature_fractions: self.temperature_fractions,
            pressure: self.pressure,
            acceleration_x: self.acceleration_x,
            acceleration_y: self.acceleration_y,
            acceleration_z: self.acceleration_z,
            address: self.address@,
            tag: self.tag@,
        }
    }
}

impl RuuvitagDF3Meas {
    /// The temperature in hundredths of a degree.
    pub fn get_temperature_float(&self) -> (r: i32)
        ensures
            r == temp_hundredths(self.temperature_sign, self.temperature, self.temperature_fractions),
    {
        let magnitude: i32 = self.temperature as i32 * 100 + self.temperature_fractions as i32;
        let sign: i32 = self.temperature_sign as i32;
        assert(-128 * 25755 <= sign * magnitude <= 127 * 25755) by (nonlinear_arith)
            requires
                -128 <= sign <= 127,
                0 <= magnitude <= 25755,
        ;
        sign * magnitude
    }

    /// The measurement as named values.
    pub fn values(&self) -> (r: Vec<(String, Value)>)
        ensures
            measurement_views(r@) == df3_values(self@),
    {
        let mut map: Vec<(String, Value)> = Vec::new();
        map.push(("battery".to_owned(), Value::Integer(self.battery as i64)));
        map.push(("humidity".to_owned(), Value::Integer((self.humidity / 2) as i64)));
        map.push(("humidity_float".to_owned(), Value::Fraction(self.humidity as i64, 2)));
        map.push(
            ("temperature".to_owned(), Value::Fraction(self.get_temperature_float() as i64, 100)),
        );
        map.push(("pressure".to_owned(), Value::Integer(self.pressure as i64)));
        map.push(("acceleration_x".to_owned(), Value::Integer(self.acceleration_x as i64)));
        map.push(("acceleration_y".to_owned(), Value::Integer(self.acceleration_y as i64)));
        map.push(("acceleration_z".to_owned(), Value::Integer(self.acceleration_z as i64)));
        assert(measurement_views(map@) =~= df3_values(self@));
        map
    }
}

} // verus!
