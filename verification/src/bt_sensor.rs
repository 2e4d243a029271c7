use vstd::prelude::*;
use crate::discovery_mode::{DiscoveryMode, DiscoveryModeView};
use crate::bt_device::{BTDevice, BTDeviceView};
use crate::ruuvitag_df2::{
    df2_measurement, df2_valid, df2_values, RuuvitagDF2, RuuvitagDF2Meas, RuuvitagDF2MeasView,
};
use crate::ruuvitag_df3::{
    df3_measurement, df3_valid, df3_values, RuuvitagDF3, RuuvitagDF3Meas, RuuvitagDF3MeasView,
};

verus! {

/// A measured value. A fraction stands for a number that is not whole: the
/// numerator over the denominator.
#[derive(Debug)]
pub enum Value {
    String(String),
    Integer(i64),
    Fraction(i64, u32),
    Boolean(bool),
}

/// The mathematical value of a [`Value`].
pub enum ValueView {
    String(Seq<char>),
    Integer(i64),
    Fraction(i64, u32),
    Boolean(bool),
}

impl View for Value {
    type V = ValueView;

    open spec fn view(&self) -> ValueView {
        match self {
            Value::String(s) => ValueView::String(s@),
            Value::Integer(i) => ValueView::Integer(*i),
            Value::Fraction(n, d) => ValueView::Fraction(*n, *d),
            Value::Boolean(b) => ValueView::Boolean(*b),
        }
    }
}

/// The views of a list of named values.
pub open spec fn measurement_views(m: Seq<(String, Value)>) -> Seq<(Seq<char>, ValueView)> {
    m.map_values(|e: (String, Value)| (e.0@, e.1@))
}

/// The decoders that the collector knows.
#[derive(Debug, Clone, Copy, PartialEq, Eq, Structural)]
pub enum SensorKind {
    RuuvitagDF3,
    RuuvitagDF2,
}

/// The mathematical value of a decoder bound to a device.
pub struct SensorView {
    pub kind: SensorKind,
    pub discovery_mode: DiscoveryModeView,
}

/// A decoder bound to a device. It holds no payload: the device does, and
/// each reading takes the device.
#[derive(Debug)]
pub enum Sensor {
    RuuvitagDF3(RuuvitagDF3),
    RuuvitagDF2(RuuvitagDF2),
}

impl View for Sensor {
    type V = SensorView;

    open spec fn view(&self) -> SensorView {
        match self {
            Sensor::RuuvitagDF3(s) => SensorView {
                kind: SensorKind::RuuvitagDF3,
                discovery_mode: s@,
            },
            Sensor::RuuvitagDF2(s) => SensorView {
                kind: SensorKind::RuuvitagDF2,
                discovery_mode: s@,
            },
        }
    }
}

/// One measurement, of whichever decoder.
#[derive(Debug)]
pub enum Measurement {
    RuuvitagDF3(RuuvitagDF3Meas),
    RuuvitagDF2(RuuvitagDF2Meas),
}

/// The mathematical value of a [`Measurement`].
pub enum MeasurementView {
    RuuvitagDF3(RuuvitagDF3MeasView),
    RuuvitagDF2(RuuvitagDF2MeasView),
}

impl View for Measurement {
    type V = MeasurementView;

    open spec fn view(&self) -> MeasurementView {
        match self {
            Measurement::RuuvitagDF3(m) => MeasurementView::RuuvitagDF3(m@),
            Measurement::RuuvitagDF2(m) => MeasurementView::RuuvitagDF2(m@),
        }
    }
}

impl MeasurementView {
    /// The named values of the measurement.
    pub open spec fn values(self) -> Seq<(Seq<char>, ValueView)> {
        match self {
            MeasurementView::RuuvitagDF3(m) => df3_values(m),
            MeasurementView::RuuvitagDF2(m) => df2_values(m),
        }
    }
}

impl Measurement {
    /// The measurement as named values.
    pub fn values(&self) -> (r: Vec<(String, Value)>)
        ensures
            measurement_views(r@) == self@.values(),
    {
        match self {
            Measurement::RuuvitagDF3(m) => m.values(),
            Measurement::RuuvitagDF2(m) => m.values(),
        }
    }
}

/// The measurement that a decoder of this kind reads from the device, if
/// the device holds one.
pub open spec fn kind_measurement(kind: SensorKind, device: BTDeviceView) -> Option<
    MeasurementView,
> {
    match kind {
        SensorKind::RuuvitagDF3 => match df3_measurement(device) {
            Some(m) => Some(MeasurementView::RuuvitagDF3(m)),
            None => None,
        },
        SensorKind::RuuvitagDF2 => match df2_measurement(device) {
            Some(m) => Some(MeasurementView::RuuvitagDF2(m)),
            None => None,
        },
    }
}

/// Whether a decoder of this kind accepts what the device holds. The answer
/// depends on the device's manufacturer and service data alone.
pub open spec fn kind_valid(kind: SensorKind, device: BTDeviceView) -> bool {
    match kind {
        SensorKind::RuuvitagDF3 => df3_valid(device.mfr_data),
        SensorKind::RuuvitagDF2 => df2_valid(device.svc_data),
    }
}

/// The named values that a decoder of this kind reads from the device, if
/// the device holds a measurement.
pub open spec fn kind_values(kind: SensorKind, device: BTDeviceView) -> Option<
    Seq<(Seq<char>, ValueView)>,
> {
    match kind {
        SensorKind::RuuvitagDF3 => match df3_measurement(device) {
            Some(m) => Some(df3_values(m)),
            None => None,
        },
        SensorKind::RuuvitagDF2 => match df2_measurement(device) {
            Some(m) => Some(df2_values(m)),
            None => None,
        },
    }
}

/// The name by which the configuration asks for a kind of decoder.
pub open spec fn kind_name(kind: SensorKind) -> Seq<char> {
    match kind {
        SensorKind::RuuvitagDF3 => "RuuvitagDF3"@,
        SensorKind::RuuvitagDF2 => "RuuvitagDF2"@,
    }
}

/// A decoder bound to a device. Each reading takes the device that the
/// decoder is bound to.
pub trait BTSensor {
    /// The kind of decoder that this is.
    spec fn kind(&self) -> SensorKind;

    /// Whether the decoder accepts what the device holds now. The answer
    /// depends on the device's manufacturer and service data alone.
    fn is_valid_data(&self, device: &BTDevice) -> (r: bool)
        ensures
            r == kind_valid(self.kind(), device@),
    ;

    /// The measurement of the device as named values, all of them or none.
    fn get_measurements(&self, device: &BTDevice) -> (r: Option<Vec<(String, Value)>>)
        ensures
            r is Some == kind_values(self.kind(), device@) is Some,
            r is Some ==> measurement_views(r.unwrap()@) == kind_values(
                self.kind(),
                device@,
            ).unwrap(),
    ;

    fn get_measurement_timestamp(&self, device: &BTDevice) -> (r: u64)
        ensures
            r == device@.measurement_timestamp,
    ;

    fn get_address(&self, device: &BTDevice) -> (r: String)
        ensures
            r@ == device@.address,
    ;

    fn get_tag(&self, device: &BTDevice) -> (r: String)
        ensures
            r@ == device@.tag,
    ;
}

/// The builder of one kind of decoder.
pub trait BTSensorConstructor {
    /// The kind of decoder that this builds.
    spec fn kind(&self) -> SensorKind;

    fn get_name(&self) -> (r: &'static str)
        ensures
            r@ == kind_name(self.kind()),
    ;

    /// A decoder of this kind, chosen in the given mode.
    fn construct(&self, discovery_mode: DiscoveryMode) -> (r: Sensor)
        ensures
            r@ == (SensorView { kind: self.kind(), discovery_mode: discovery_mode@ }),
    ;

    /// Whether a decoder of this kind accepts what the device holds. The
    /// answer depends on the device's manufacturer and service data alone.
    fn is_valid_data(&self, device: &BTDevice) -> (r: bool)
        ensures
            r == kind_valid(self.kind(), device@),
    ;
}

/// Decoders of one kind agree on every two devices that hold the same
/// manufacturer data and the same service data.
pub proof fn lemma_validity_depends_on_payload(kind: SensorKind, a: BTDeviceView, b: BTDeviceView)
    requires
        a.mfr_data == b.mfr_data,
        a.svc_data == b.svc_data,
    ensures
        kind_valid(kind, a) == kind_valid(kind, b),
{
}

impl BTSensor for Sensor {
    open spec fn kind(&self) -> SensorKind {
        self@.kind
    }

    fn is_valid_data(&self, device: &BTDevice) -> (r: bool) {
        match self {
            Sensor::RuuvitagDF3(s) => s.is_valid_data(device),
            Sensor::RuuvitagDF2(s) => s.is_valid_data(device),
        }
    }

    fn get_measurements(&self, device: &BTDevice) -> (r: Option<Vec<(String, Value)>>) {
        match self {
            Sensor::RuuvitagDF3(s) => s.get_measurements(device),
            Sensor::RuuvitagDF2(s) => s.get_measurements(device),
        }
    }

    fn get_measurement_timestamp(&self, device: &BTDevice) -> (r: u64) {
        device.get_measurement_timestamp()
    }

    fn get_address(&self, device: &BTDevice) -> (r: String) {
        device.get_address().to_owned()
    }

    fn get_tag(&self, device: &BTDevice) -> (r: String) {
        device.get_tag().to_owned()
    }
}

impl Sensor {
    /// The measurement of the device, if it holds one.
    pub fn get_measurement(&self, device: &BTDevice) -> (r: Option<Measurement>)
        ensures
            r is Some == kind_measurement(self@.kind, device@) is Some,
            r is Some ==> r.unwrap()@ == kind_measurement(self@.kind, device@).unwrap(),
    {
        match self {
            Sensor::RuuvitagDF3(s) => match s._get_measurements(device) {
                Some(m) => Some(Measurement::RuuvitagDF3(m)),
                None => None,
            },
            Sensor::RuuvitagDF2(s) => match s._get_measurements(device) {
                Some(m) => Some(Measurement::RuuvitagDF2(m)),
                None => None,
            },
        }
    }

}

/// The unsigned number that two bytes hold, the high byte first.
pub open spec fn be_u16(hi: u8, lo: u8) -> u16 {
    (hi as int * 256 + lo as int) as u16
}

/// The signed number that two bytes hold in two's complement, the high byte
/// first.
pub open spec fn be_i16(hi: u8, lo: u8) -> i16 {
    if hi >= 128 {
        (hi as int * 256 + lo as int - 65536) as i16
    } else {
        (hi as int * 256 + lo as int) as i16
    }
}

/// The whole degrees of a temperature byte: its low seven bits.
pub open spec fn temp_wholes(raw: u8) -> u8 {
    (raw % 128) as u8
}

/// The sign of a temperature byte: -1 where its top bit is set, else 1.
pub open spec fn temp_sign(raw: u8) -> i8 {
    if raw >= 128 {
        -1i8
    } else {
        1i8
    }
}

/// A temperature in hundredths of a degree.
pub open spec fn temp_hundredths(sign: i8, wholes: u8, fractions: u8) -> int {
    sign as int * (wholes as int * 100 + fractions as int)
}

/// The pressure in pascal for the number on the wire.
pub open spec fn pressure_pa(wire: u16) -> u32 {
    (50000 + wire as int) as u32
}

/// Reads an unsigned number from two bytes, the high byte first.
pub fn read_be_u16(hi: u8, lo: u8) -> (r: u16)
    ensures
        r == be_u16(hi, lo),
{
    let r: u16 = ((hi as u16) << 8) | (lo as u16);
    assert(((hi as u16) << 8) | (lo as u16) == (hi as u16) * 256 + (lo as u16)) by (bit_vector);
    r
}

/// Reads a signed number from two bytes, the high byte first.
pub fn read_be_i16(hi: u8, lo: u8) -> (r: i16)
    ensures
        r == be_i16(hi, lo),
{
    let u: u16 = read_be_u16(hi, lo);
    if u >= 32768 {
        let low: i16 = (u - 32768) as i16;
        low + i16::MIN
    } else {
        u as i16
    }
}

/// Reads the whole degrees of a temperature byte.
pub fn read_temp_wholes(raw: u8) -> (r: u8)
    ensures
        r == temp_wholes(raw),
{
    let r: u8 = 0x7F & raw;
    assert(0x7Fu8 & raw == raw % 128) by (bit_vector);
    r
}

/// Reads the sign of a temperature byte.
pub fn read_temp_sign(raw: u8) -> (r: i8)
    ensures
        r == temp_sign(raw),
{
    assert((raw & 0x80 == 0) == (raw < 128)) by (bit_vector);
    if raw & 0x80 == 0 {
        1
    } else {
        -1
    }
}

} // verus!
