use vstd::prelude::*;
use vstd::utf8::valid_utf8;
use crate::bt_device::{BTDevice, BTDeviceView};
use crate::bt_sensor::{
    be_u16, measurement_views, pressure_pa, read_be_u16, read_temp_sign, read_temp_wholes,
    temp_hundredths, temp_sign, temp_wholes, BTSensor, BTSensorConstructor, Sensor, SensorKind,
    Value, ValueView,
};
use crate::discovery_mode::{DiscoveryMode, DiscoveryModeView};

verus! {

/// The Eddystone service UUID, under which a format 2 RuuviTag sends its
/// URL.
pub const SVC_DATA_UUID: &'static str = "0000feaa-0000-1000-8000-00805f9b34fb";

/// The bytes that a device holds under the Eddystone service UUID.
pub open spec fn df2_payload(svc_data: Option<Map<Seq<char>, Seq<u8>>>) -> Option<Seq<u8>> {
    match svc_data {
        Some(m) => if m.contains_key(SVC_DATA_UUID@) {
            Some(m[SVC_DATA_UUID@])
        } else {
            None
        },
        None => None,
    }
}

/// Whether service data hold a format 2 frame: 20 bytes under the Eddystone
/// service UUID.
pub open spec fn df2_valid(svc_data: Option<Map<Seq<char>, Seq<u8>>>) -> bool {
    df2_payload(svc_data) is Some && df2_payload(svc_data).unwrap().len() == 20
}

/// The position of the first `#` of `s` at or after `from`, or the length
/// of `s` if there is none.
pub open spec fn first_hash(s: Seq<u8>, from: int) -> int
    decreases s.len() - from,
{
    if from < 0 || from >= s.len() {
        s.len() as int
    } else if s[from] == 0x23 {
        from
    } else {
        first_hash(s, from + 1)
    }
}

/// What stands in a URL between its first `#` and the next one, or the end:
/// none where the URL has no `#`.
pub open spec fn url_suffix(url: Seq<u8>) -> Option<Seq<u8>> {
    let h = first_hash(url, 0);
    if h >= url.len() {
        None
    } else {
        Some(url.subrange(h + 1, first_hash(url, h + 1)))
    }
}

/// The base64 text of a frame: the suffix of the URL that follows the
/// frame's first three bytes, with one `A` added at its end. There is none
/// where the frame has fewer than four bytes, where the URL is not UTF-8 or
/// where it has no `#`.
pub open spec fn df2_encoded(frame: Seq<u8>) -> Option<Seq<u8>> {
    if frame.len() < 4 {
        None
    } else {
        let url = frame.subrange(3, frame.len() as int);
        if !valid_utf8(url) {
            None
        } else {
            match url_suffix(url) {
                Some(suffix) => Some(suffix.push(0x41u8)),
                None => None,
            }
        }
    }
}

/// What `base64::decode_config` gives for `input` with the URL-safe
/// alphabet and no padding: the decoded bytes, or none where it reports an
/// error.
pub uninterp spec fn base64_decoded(input: Seq<u8>) -> Option<Seq<u8>>;

/// The mathematical value of a [`RuuvitagDF2Meas`].
pub struct RuuvitagDF2MeasView {
    pub data_format: u8,
    pub humidity: u8,
    pub temperature: u8,
    pub temperature_sign: i8,
    pub temperature_fractions: u8,
    pub pressure: u32,
    pub id: u8,
    pub address: Seq<char>,
    pub tag: Seq<char>,
}

/// The measurement that decoded bytes hold for a device with this address
/// and tag: none where there are fewer than seven bytes.
pub open spec fn df2_decode(data: Seq<u8>, address: Seq<char>, tag: Seq<char>) -> Option<
    RuuvitagDF2MeasView,
> {
    if data.len() >= 7 {
        Some(
            RuuvitagDF2MeasView {
                data_format: data[0],
                humidity: data[1],
                temperature: temp_wholes(data[2]),
                temperature_sign: temp_sign(data[2]),
                temperature_fractions: data[3],
                pressure: pressure_pa(be_u16(data[4], data[5])),
                id: data[6],
                address,
                tag,
            },
        )
    } else {
        None
    }
}

/// The measurement of a device, if its service data hold one. A text that
/// is within seven bytes of the largest length that the machine can count
/// is not decoded.
pub open spec fn df2_measurement(device: BTDeviceView) -> Option<RuuvitagDF2MeasView> {
    match df2_payload(device.svc_data) {
        Some(frame) => match df2_encoded(frame) {
            Some(text) => if text.len() > usize::MAX - 7 {
                None
            } else {
                match base64_decoded(text) {
                    Some(data) => df2_decode(data, device.address, device.tag),
                    None => None,
                }
            },
            None => None,
        },
        None => None,
    }
}

/// The named values of a measurement: the humidity in whole percent,
/// rounded down, the temperature in hundredths of a degree over a hundred,
/// and the pressure in pascal.
pub open spec fn df2_values(m: RuuvitagDF2MeasView) -> Seq<(Seq<char>, ValueView)> {
    seq![
        ("humidity"@, ValueView::Integer((m.humidity / 2) as i64)),
        (
            "temperature"@,
            ValueView::Fraction(
                temp_hundredths(m.temperature_sign, m.temperature, m.temperature_fractions) as i64,
                100,
            ),
        ),
        ("pressure"@, ValueView::Integer(m.pressure as i64)),
    ]
}

/// Calls `base64::decode_config` on `input` with `base64::URL_SAFE_NO_PAD`.
/// Nothing is proved of the decoding: the contract only gives its outcome,
/// which depends on the input alone, the name `base64_decoded`. The bound
/// on the length keeps the crate's length arithmetic from overflowing.
#[verifier::external_body]
fn base64_decode(input: &Vec<u8>) -> (r: Option<Vec<u8>>)
    requires
        input@.len() <= usize::MAX - 7,
    ensures
        r is Some == base64_decoded(input@) is Some,
        r is Some ==> r.unwrap()@ == base64_decoded(input@).unwrap(),
{
    base64::decode_config(input, base64::URL_SAFE_NO_PAD).ok()
}

/// Calls `std::str::from_utf8` and says whether it accepted the bytes: it
/// does so exactly for well-formed UTF-8.
#[verifier::external_body]
fn is_utf8(bytes: &Vec<u8>) -> (r: bool)
    ensures
        r == valid_utf8(bytes@),
{
    std::str::from_utf8(bytes.as_slice()).is_ok()
}

/// The builder of format 2 decoders.
#[derive(Debug)]
pub struct RuuvitagDF2Constructor;

impl RuuvitagDF2Constructor {
    pub fn new() -> (r: Box<RuuvitagDF2Constructor>)
        ensures
            r.kind() == SensorKind::RuuvitagDF2,
    {
        Box::new(RuuvitagDF2Constructor {  })
    }
}

impl BTSensorConstructor for RuuvitagDF2Constructor {
    open spec fn kind(&self) -> SensorKind {
        SensorKind::RuuvitagDF2
    }

    fn get_name(&self) -> (r: &'static str) {
        "RuuvitagDF2"
    }

    fn construct(&self, discovery_mode: DiscoveryMode) -> (r: Sensor) {
        Sensor::RuuvitagDF2(RuuvitagDF2::new(discovery_mode))
    }

    fn is_valid_data(&self, device: &BTDevice) -> (r: bool) {
        RuuvitagDF2::_is_valid_data(device)
    }
}

/// The decoder of RuuviTag data format 2.
#[derive(Debug)]
pub struct RuuvitagDF2 {
    discovery_mode: DiscoveryMode,
}

impl View for RuuvitagDF2 {
    type V = DiscoveryModeView;

    closed spec fn view(&self) -> DiscoveryModeView {
        self.discovery_mode@
    }
}

impl RuuvitagDF2 {
    pub fn new(discovery_mode: DiscoveryMode) -> (r: RuuvitagDF2)
        ensures
            r@ == discovery_mode@,
    {
        RuuvitagDF2 { discovery_mode }
    }

    pub fn get_discovery_mode(&self) -> (r: &DiscoveryMode)
        ensures
            r@ == self@,
    {
        &self.discovery_mode
    }

    /// The frame of the device, if it has one.
    fn payload(device: &BTDevice) -> (r: Option<&Vec<u8>>)
        ensures
            r is Some == df2_payload(device@.svc_data) is Some,
            r is Some ==> r.unwrap()@ == df2_payload(device@.svc_data).unwrap(),
    {
        match device.get_svc_data() {
            Some(m) => m.get(SVC_DATA_UUID),
            None => None,
        }
    }

    /// Whether the device's service data hold a format 2 frame. The answer
    /// depends on those data alone.
    pub fn _is_valid_data(device: &BTDevice) -> (r: bool)
        ensures
            r == df2_valid(device@.svc_data),
    {
        match RuuvitagDF2::payload(device) {
            Some(data) => data.len() == 20,
            None => false,
        }
    }

    pub fn get_data_format(data: &Vec<u8>) -> (r: Option<u8>)
        ensures
            r == (if data@.len() > 0 { Some(data@[0]) } else { None }),
    {
        if data.len() > 0 {
            Some(data[0])
        } else {
            None
        }
    }

    /// The relative humidity in steps of half a percent.
    pub fn get_humidity(data: &Vec<u8>) -> (r: Option<u8>)
        ensures
            r == (if data@.len() > 1 { Some(data@[1]) } else { None }),
    {
        if data.len() > 1 {
            Some(data[1])
        } else {
            None
        }
    }

    pub fn get_temp_wholes(data: &Vec<u8>) -> (r: Option<u8>)
        ensures
            r == (if data@.len() > 2 { Some(temp_wholes(data@[2])) } else { None }),
    {
        if data.len() > 2 {
            Some(read_temp_wholes(data[2]))
        } else {
            None
        }
    }

    pub fn get_temp_sign(data: &Vec<u8>) -> (r: Option<i8>)
        ensures
            r == (if data@.len() > 2 { Some(temp_sign(data@[2])) } else { None }),
    {
        if data.len() > 2 {
            Some(read_temp_sign(data[2]))
        } else {
            None
        }
    }

    pub fn get_temp_fractions(data: &Vec<u8>) -> (r: Option<u8>)
        ensures
            r == (if data@.len() > 3 { Some(data@[3]) } else { None }),
    {
        if data.len() > 3 {
            Some(data[3])
        } else {
            None
        }
    }

    /// The pressure as it is on the wire: pascal above 50000.
    pub fn get_pressure(data: &Vec<u8>) -> (r: Option<u16>)
        ensures
            r == (if data@.len() > 5 { Some(be_u16(data@[4], data@[5])) } else { None }),
    {
        if data.len() > 5 {
            Some(read_be_u16(data[4], data[5]))
        } else {
            None
        }
    }

    pub fn get_id(data: &Vec<u8>) -> (r: Option<u8>)
        ensures
            r == (if data@.len() > 6 { Some(data@[6]) } else { None }),
    {
        if data.len() > 6 {
            Some(data[6])
        } else {
            None
        }
    }

    /// The position of the first `#` of `s` at or after `from`.
    fn find_hash(s: &Vec<u8>, from: usize) -> (r: usize)
        requires
            from <= s.len(),
        ensures
            r == first_hash(s@, from as int),
            from <= r <= s.len(),
    {
        let mut i: usize = from;
        while i < s.len()
            invariant
                from <= i <= s.len(),
                first_hash(s@, from as int) == first_hash(s@, i as int),
            decreases s.len() - i,
        {
            if s[i] == 0x23 {
                return i;
            }
            i += 1;
        }
        i
    }

    /// The bytes of `s` from `from` up to `to`.
    fn cut(s: &Vec<u8>, from: usize, to: usize) -> (r: Vec<u8>)
        requires
            from <= to <= s.len(),
        ensures
            r@ == s@.subrange(from as int, to as int),
    {
        let mut out: Vec<u8> = Vec::new();
        let mut i: usize = from;
        while i < to
            invariant
                from <= i <= to <= s.len(),
                out@ == s@.subrange(from as int, i as int),
            decreases to - i,
        {
            out.push(s[i]);
            assert(s@.subrange(from as int, i + 1) =~= s@.subrange(from as int, i as int).push(
                s@[i as int],
            ));
            i += 1;
        }
        out
    }

    /// The base64 text that a frame carries, with the `A` that makes up for
    /// the character that the tag leaves out.
    pub fn encoded_payload(frame: &Vec<u8>) -> (r: Option<Vec<u8>>)
        ensures
            r is Some == df2_encoded(frame@) is Some,
            r is Some ==> r.unwrap()@ == df2_encoded(frame@).unwrap(),
    {
        if frame.len() < 4 {
            return None;
        }
        let url = RuuvitagDF2::cut(frame, 3, frame.len());
        if !is_utf8(&url) {
            return None;
        }
        let h = RuuvitagDF2::find_hash(&url, 0);
        if h >= url.len() {
            return None;
        }
        let e = RuuvitagDF2::find_hash(&url, h + 1);
        let mut text = RuuvitagDF2::cut(&url, h + 1, e);
        text.push(0x41u8);
        Some(text)
    }

    /// The measurement that decoded bytes hold, for a device with this
    /// address and tag: present exactly when there are seven bytes or more.
    pub fn decode_payload(data: &Vec<u8>, address: String, tag: String) -> (r: Option<
        RuuvitagDF2Meas,
    >)
        ensures
            r is Some == df2_decode(data@, address@, tag@) is Some,
            r is Some ==> r.unwrap()@ == df2_decode(data@, address@, tag@).unwrap(),
    {
        if let (
            Some(format),
            Some(hum),
            Some(temp_wholes),
            Some(temp_fract),
            Some(temp_sign),
            Some(press),
            Some(id),
        ) = (
            RuuvitagDF2::get_data_format(data),
            RuuvitagDF2::get_humidity(data),
            RuuvitagDF2::get_temp_wholes(data),
            RuuvitagDF2::get_temp_fractions(data),
            RuuvitagDF2::get_temp_sign(data),
            RuuvitagDF2::get_pressure(data),
            RuuvitagDF2::get_id(data),
        ) {
            let press_corr: u32 = 50000 + press as u32;
            let meas = RuuvitagDF2Meas {
                data_format: format,
                humidity: hum,
                temperature: temp_wholes,
                temperature_sign: temp_sign,
                temperature_fractions: temp_fract,
                pressure: press_corr,
                id,
                address,
                tag,
            };
            Some(meas)
        } else {
            None
        }
    }

    /// The measurement that the device holds. Any step that fails gives
    /// none: no frame, no URL suffix, text that is not base64, too few
    /// bytes.
    pub fn _get_measurements(&self, device: &BTDevice) -> (r: Option<RuuvitagDF2Meas>)
        ensures
            r is Some == df2_measurement(device@) is Some,
            r is Some ==> r.unwrap()@ == df2_measurement(device@).unwrap(),
    {
        let frame = match RuuvitagDF2::payload(device) {
            Some(frame) => frame,
            None => {
                return None;
            },
        };
        let text = match RuuvitagDF2::encoded_payload(frame) {
            Some(text) => text,
            None => {
                return None;
            },
        };
        if text.len() > usize::MAX - 7 {
            return None;
        }
        let data = match base64_decode(&text) {
            Some(data) => data,
            None => {
                return None;
            },
        };
        let tag = device.get_tag().to_owned();
        let address = device.get_address().to_owned();
        RuuvitagDF2::decode_payload(&data, address, tag)
    }
}

impl BTSensor for RuuvitagDF2 {
    open spec fn kind(&self) -> SensorKind {
        SensorKind::RuuvitagDF2
    }

    fn is_valid_data(&self, device: &BTDevice) -> (r: bool) {
        RuuvitagDF2::_is_valid_data(device)
    }

    fn get_measurements(&self, device: &BTDevice) -> (r: Option<Vec<(String, Value)>>) {
        match self._get_measurements(device) {
            Some(m) => Some(m.values()),
            None => None,
        }
    }

    fn get_measurement_timestamp(&self, device: &BTDevice) -> (r: u64) {
        device.get_measurement_timestamp()
    }

    fn get_address(&self, device: &BTDevice) -> (r: String) {
        device.get_address().to_owned()
    }

    fn get_tag(&self, device: &BTDevice) -> (r: String) {
        device.get_tag().to_owned()
    }
}

/// One measurement of a format 2 RuuviTag. The humidity is in steps of half
/// a percent, the pressure in pascal.
#[derive(Debug)]
pub struct RuuvitagDF2Meas {
    pub data_format: u8,
    pub humidity: u8,
    pub temperature: u8,
    pub temperature_sign: i8,
    pub temperature_fractions: u8,
    pub pressure: u32,
    pub id: u8,
    pub address: String,
    pub tag: String,
}

impl View for RuuvitagDF2Meas {
    type V = RuuvitagDF2MeasView;

    open spec fn view(&self) -> RuuvitagDF2MeasView {
        RuuvitagDF2MeasView {
            data_format: self.data_format,
            humidity: self.humidity,
            temperature: self.temperature,
            temperature_sign: self.temperature_sign,
            temperature_fractions: self.temperature_fractions,
            pressure: self.pressure,
            id: self.id,
            address: self.address@,
            tag: self.tag@,
        }
    }
}

impl RuuvitagDF2Meas {
    /// The temperature in hundredths of a degree.
    pub fn get_temperature_float(&self) -> (r: i32)
        ensures
            r == temp_hundredths(self.temperature_sign, self.temperature, self.temperature_fractions),
    {
        let magnitude: i32 = self.temperature as i32 * 100 + self.temperature_fractions as i32;
        let sign: i32 = self.temperature_sign as i32;
        assert(-128 * 25755 <= sign * magnitude <= 127 * 25755) by (nonlinear_arith)
            requires
                -128 <= sign <= 127,
                0 <= magnitude <= 25755,
        ;
        sign * magnitude
    }

    /// The measurement as named values.
    pub fn values(&self) -> (r: Vec<(String, Value)>)
        ensures
            measurement_views(r@) == df2_values(self@),
    {
        let mut map: Vec<(String, Value)> = Vec::new();
        map.push(("humidity".to_owned(), Value::Integer((self.humidity / 2) as i64)));
        map.push(
            ("temperature".to_owned(), Value::Fraction(self.get_temperature_float() as i64, 100)),
        );
        map.push(("pressure".to_owned(), Value::Integer(self.pressure as i64)));
        assert(measurement_views(map@) =~= df2_values(self@));
        map
    }
}

} // verus!
