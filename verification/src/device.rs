use vstd::prelude::*;
use vstd::string::*;
use crate::bt_sensor::{read_be_u16, read_temp_sign, read_temp_wholes, temp_sign, temp_wholes};
use crate::payload::MfrData;
use crate::ruuvitag_df3::{df3_byte, df3_payload, df3_u16, MFR_DATA_FIELD};
use crate::text::{decimal, decimal_text, signed_decimal, signed_decimal_text};

verus! {

/// A RuuviTag by its manufacturer data alone: the format 3 fields as whole
/// numbers, and a status text.
#[derive(Debug)]
pub struct Device {
    object_path: String,
    address: Option<String>,
    mfr_data: Option<MfrData>,
}

/// The mathematical value of a [`Device`].
pub struct DeviceView {
    pub object_path: Seq<char>,
    pub address: Option<Seq<char>>,
    pub mfr_data: Option<Map<u16, Seq<u8>>>,
}

impl View for Device {
    type V = DeviceView;

    closed spec fn view(&self) -> DeviceView {
        DeviceView {
            object_path: self.object_path@,
            address: match self.address {
                Some(a) => Some(a@),
                None => None,
            },
            mfr_data: match self.mfr_data {
                Some(m) => Some(m@),
                None => None,
            },
        }
    }
}

/// The whole degrees of a temperature byte with their sign.
pub open spec fn signed_wholes(raw: u8) -> i8 {
    (temp_sign(raw) as int * temp_wholes(raw) as int) as i8
}

/// The fields of a frame, as the status text shows them: the temperature
/// as signed whole degrees, everything else unsigned.
pub struct StatusFields {
    pub format: u8,
    pub battery: u16,
    pub temp_wholes: i8,
    pub temp_fractions: u8,
    pub humidity: u8,
    pub pressure: u16,
    pub acceleration_x: u16,
    pub acceleration_y: u16,
    pub acceleration_z: u16,
}

/// The fields that manufacturer data hold: all of them, or none where the
/// payload has fewer than 14 bytes.
pub open spec fn status_fields(mfr_data: Option<Map<u16, Seq<u8>>>) -> Option<StatusFields> {
    match df3_payload(mfr_data) {
        Some(p) => if p.len() >= 14 {
            Some(
                StatusFields {
                    format: p[0],
                    battery: df3_u16(mfr_data, 12).unwrap(),
                    temp_wholes: signed_wholes(p[2]),
                    temp_fractions: p[3],
                    humidity: p[1],
                    pressure: df3_u16(mfr_data, 4).unwrap(),
                    acceleration_x: df3_u16(mfr_data, 6).unwrap(),
                    acceleration_y: df3_u16(mfr_data, 8).unwrap(),
                    acceleration_z: df3_u16(mfr_data, 10).unwrap(),
                },
            )
        } else {
            None
        },
        None => None,
    }
}

/// The status text for the fields of a frame.
pub open spec fn status_text(f: StatusFields) -> Seq<char> {
    "format "@ + decimal(f.format as nat) + "\tbattery "@ + decimal(f.battery as nat) + "\ntemp "@
        + signed_decimal(f.temp_wholes as int) + ","@ + decimal(f.temp_fractions as nat)
        + "\u{2103}\thumidity "@ + decimal(f.humidity as nat) + "\tpressure "@ + decimal(
        f.pressure as nat,
    ) + "\nacc-x "@ + decimal(f.acceleration_x as nat) + "\tacc-y "@ + decimal(
        f.acceleration_y as nat,
    ) + "\tacc-z "@ + decimal(f.acceleration_z as nat)
}

impl Default for Device {
    fn default() -> (r: Device)
        ensures
            r@ == (DeviceView { object_path: Seq::empty(), address: None, mfr_data: None }),
    {
        Device { object_path: String::new(), address: None, mfr_data: None }
    }
}

impl Device {
    pub fn new(object_path: String) -> (r: Device)
        ensures
            r@ == (DeviceView { object_path: object_path@, address: None, mfr_data: None }),
    {
        Device { object_path, address: None, mfr_data: None }
    }

    pub fn set_address(&mut self, address: String) -> (r: &mut Self)
        ensures
            r@ == (DeviceView { address: Some(address@), ..old(self)@ }),
            *final(self) == *final(r),
    {
        self.address = Some(address);
        self
    }

    pub fn set_mfr_data(&mut self, mfr_data: MfrData) -> (r: &mut Self)
        ensures
            r@ == (DeviceView { mfr_data: Some(mfr_data@), ..old(self)@ }),
            *final(self) == *final(r),
    {
        self.mfr_data = Some(mfr_data);
        self
    }

    /// The payload under the RuuviTag company identifier.
    fn payload(&self) -> (r: Option<&Vec<u8>>)
        ensures
            r is Some == df3_payload(self@.mfr_data) is Some,
            r is Some ==> r.unwrap()@ == df3_payload(self@.mfr_data).unwrap(),
    {
        match &self.mfr_data {
            Some(m) => m.get(MFR_DATA_FIELD),
            None => None,
        }
    }

    fn byte_at(&self, offset: usize) -> (r: Option<u8>)
        ensures
            r == df3_byte(self@.mfr_data, offset as int),
    {
        match self.payload() {
            Some(p) => if offset < p.len() {
                Some(p[offset])
            } else {
                None
            },
            None => None,
        }
    }

    fn u16_at(&self, offset: usize) -> (r: Option<u16>)
        requires
            offset < usize::MAX,
        ensures
            r == df3_u16(self@.mfr_data, offset as int),
    {
        match self.payload() {
            Some(p) => if offset + 1 < p.len() {
                Some(read_be_u16(p[offset], p[offset + 1]))
            } else {
                None
            },
            None => None,
        }
    }

    pub fn get_data_format(&self) -> (r: Option<u8>)
        ensures
            r == df3_byte(self@.mfr_data, 0),
    {
        self.byte_at(0)
    }

    /// The relative humidity in steps of half a percent.
    pub fn get_humidity(&self) -> (r: Option<u8>)
        ensures
            r == df3_byte(self@.mfr_data, 1),
    {
        self.byte_at(1)
    }

    /// The whole degrees of the temperature, with their sign.
    pub fn get_temp_wholes(&self) -> (r: Option<i8>)
        ensures
            r == match df3_byte(self@.mfr_data, 2) {
                Some(raw) => Some(signed_wholes(raw)),
                None => None,
            },
    {
        match self.byte_at(2) {
            Some(u8_temp) => {
                let i8_temp: i8 = read_temp_wholes(u8_temp) as i8;
                if read_temp_sign(u8_temp) > 0 {
                    Some(i8_temp)
                } else {
                    Some(-i8_temp)
                }
            },
            None => None,
        }
    }

    pub fn get_temp_fractions(&self) -> (r: Option<u8>)
        ensures
            r == df3_byte(self@.mfr_data, 3),
    {
        self.byte_at(3)
    }

    /// The pressure as it is on the wire: pascal above 50000.
    pub fn get_pressure(&self) -> (r: Option<u16>)
        ensures
            r == df3_u16(self@.mfr_data, 4),
    {
        self.u16_at(4)
    }

    /// The bits of the acceleration along x, read as an unsigned number.
    pub fn get_acceleration_x(&self) -> (r: Option<u16>)
        ensures
            r == df3_u16(self@.mfr_data, 6),
    {
        self.u16_at(6)
    }

    /// The bits of the acceleration along y, read as an unsigned number.
    pub fn get_acceleration_y(&self) -> (r: Option<u16>)
        ensures
            r == df3_u16(self@.mfr_data, 8),
    {
        self.u16_at(8)
    }

    /// The bits of the acceleration along z, read as an unsigned number.
    pub fn get_acceleration_z(&self) -> (r: Option<u16>)
        ensures
            r == df3_u16(self@.mfr_data, 10),
    {
        self.u16_at(10)
    }

    /// The battery voltage in millivolt.
    pub fn get_battery(&self) -> (r: Option<u16>)
        ensures
            r == df3_u16(self@.mfr_data, 12),
    {
        self.u16_at(12)
    }

    /// The fields in three lines of text, or `Invalid manufacturer data`
    /// where the payload does not hold them all.
    pub fn get_status(&self) -> (r: String)
        ensures
            r@ == match status_fields(self@.mfr_data) {
                Some(f) => status_text(f),
                None => "Invalid manufacturer data"@,
            },
    {
        if let (
            Some(format),
            Some(hum),
            Some(temp_wholes),
            Some(temp_fract),
            Some(press),
            Some(acc_x),
            Some(acc_y),
            Some(acc_z),
            Some(batt),
        ) = (
            self.get_data_format(),
            self.get_humidity(),
            self.get_temp_wholes(),
            self.get_temp_fractions(),
            self.get_pressure(),
            self.get_acceleration_x(),
            self.get_acceleration_y(),
            self.get_acceleration_z(),
            self.get_battery(),
        ) {
            let mut s = "format ".to_owned();
            s.append(decimal_text(format as u64).as_str());
            s.append("\tbattery ");
            s.append(decimal_text(batt as u64).as_str());
            s.append("\ntemp ");
            s.append(signed_decimal_text(temp_wholes as i64).as_str());
            s.append(",");
            s.append(decimal_text(temp_fract as u64).as_str());
            s.append("\u{2103}\thumidity ");
            s.append(decimal_text(hum as u64).as_str());
            s.append("\tpressure ");
            s.append(decimal_text(press as u64).as_str());
            s.append("\nacc-x ");
            s.append(decimal_text(acc_x as u64).as_str());
            s.append("\tacc-y ");
            s.append(decimal_text(acc_y as u64).as_str());
            s.append("\tacc-z ");
            s.append(decimal_text(acc_z as u64).as_str());
            s
        } else {
            "Invalid manufacturer data".to_owned()
        }
    }
}

} // verus!
