use vstd::prelude::*;
use crate::bt_device::{sensor_view, BTDevice, BTDeviceView};
use crate::bt_sensor::{
    kind_name, kind_valid, BTSensor, BTSensorConstructor, Sensor, SensorKind, SensorView,
};
use crate::config::{find_info, SensorConf, SensorConfView};
use crate::discovery_mode::{DiscoveryMode, DiscoveryModeView};
use crate::ruuvitag_df2::RuuvitagDF2Constructor;
use crate::ruuvitag_df3::RuuvitagDF3Constructor;
use crate::text::text_equal;

verus! {

/// The builder of one kind of decoder.
#[derive(Debug)]
pub enum SensorConstructor {
    RuuvitagDF3(Box<RuuvitagDF3Constructor>),
    RuuvitagDF2(Box<RuuvitagDF2Constructor>),
}

impl View for SensorConstructor {
    type V = SensorKind;

    open spec fn view(&self) -> SensorKind {
        match self {
            SensorConstructor::RuuvitagDF3(_) => SensorKind::RuuvitagDF3,
            SensorConstructor::RuuvitagDF2(_) => SensorKind::RuuvitagDF2,
        }
    }
}

impl BTSensorConstructor for SensorConstructor {
    open spec fn kind(&self) -> SensorKind {
        self@
    }

    fn get_name(&self) -> (r: &'static str) {
        match self {
            SensorConstructor::RuuvitagDF3(c) => c.get_name(),
            SensorConstructor::RuuvitagDF2(c) => c.get_name(),
        }
    }

    fn construct(&self, discovery_mode: DiscoveryMode) -> (r: Sensor) {
        match self {
            SensorConstructor::RuuvitagDF3(c) => c.construct(discovery_mode),
            SensorConstructor::RuuvitagDF2(c) => c.construct(discovery_mode),
        }
    }

    fn is_valid_data(&self, device: &BTDevice) -> (r: bool) {
        match self {
            SensorConstructor::RuuvitagDF3(c) => c.is_valid_data(device),
            SensorConstructor::RuuvitagDF2(c) => c.is_valid_data(device),
        }
    }
}

/// The kinds of a list of builders.
pub open spec fn constructor_kinds(constructors: Seq<SensorConstructor>) -> Seq<SensorKind> {
    constructors.map_values(|c: SensorConstructor| c@)
}

/// The first of `kinds` that accepts what the device holds.
pub open spec fn probed(kinds: Seq<SensorKind>, device: BTDeviceView) -> Option<SensorKind>
    decreases kinds.len(),
{
    if kinds.len() == 0 {
        None
    } else if kind_valid(kinds[0], device) {
        Some(kinds[0])
    } else {
        probed(kinds.drop_first(), device)
    }
}

/// The first of `kinds` that goes by `name`.
pub open spec fn named(kinds: Seq<SensorKind>, name: Seq<char>) -> Option<SensorKind>
    decreases kinds.len(),
{
    if kinds.len() == 0 {
        None
    } else if kind_name(kinds[0]) == name {
        Some(kinds[0])
    } else {
        named(kinds.drop_first(), name)
    }
}

/// The decoder that probing binds: the first kind that accepts the device,
/// in automatic mode.
pub open spec fn autofound(kinds: Seq<SensorKind>, device: BTDeviceView) -> Option<SensorView> {
    match probed(kinds, device) {
        Some(kind) => Some(SensorView { kind, discovery_mode: DiscoveryModeView::Auto }),
        None => None,
    }
}

/// The decoder that a configured name binds. The name `auto` probes; any
/// other name binds the kind that goes by it, whatever the device holds.
pub open spec fn configured(kinds: Seq<SensorKind>, name: Seq<char>, device: BTDeviceView)
    -> Option<SensorView> {
    if name == "auto"@ {
        autofound(kinds, device)
    } else {
        match named(kinds, name) {
            Some(kind) => Some(
                SensorView { kind, discovery_mode: DiscoveryModeView::Configured(kind_name(kind)) },
            ),
            None => None,
        }
    }
}

/// A kind that probing finds accepts what the device holds.
pub proof fn lemma_probed_is_valid(kinds: Seq<SensorKind>, device: BTDeviceView)
    ensures
        probed(kinds, device) is Some ==> kind_valid(probed(kinds, device).unwrap(), device),
    decreases kinds.len(),
{
    if kinds.len() > 0 && !kind_valid(kinds[0], device) {
        lemma_probed_is_valid(kinds.drop_first(), device);
    }
}

/// With probing switched on, a device in automatic mode bears after the
/// resolver's look either no decoder or one that accepts what it holds.
pub proof fn lemma_attached_decoder_is_valid(factory: BTSensorFactoryView, device: BTDeviceView)
    requires
        factory.conf.auto,
        device.discovery_mode == DiscoveryModeView::Auto,
    ensures
        factory.attached(device) is Some ==> kind_valid(
            factory.attached(device).unwrap().kind,
            device,
        ),
{
    lemma_probed_is_valid(factory.kinds, device);
}

/// The mathematical value of a [`BTSensorFactory`].
pub struct BTSensorFactoryView {
    pub conf: SensorConfView,
    pub kinds: Seq<SensorKind>,
}

impl BTSensorFactoryView {
    /// The decoder of a device after the resolver has looked at it.
    ///
    /// A device with a configured decoder name keeps the decoder it has;
    /// where it has none, the name decides. A device in automatic mode
    /// keeps a decoder that still accepts what the device holds; else,
    /// where probing is switched on, probing decides, and where it is
    /// switched off nothing changes.
    pub open spec fn attached(self, device: BTDeviceView) -> Option<SensorView> {
        match device.discovery_mode {
            DiscoveryModeView::Configured(name) => if device.sensor is Some {
                device.sensor
            } else {
                configured(self.kinds, name, device)
            },
            DiscoveryModeView::Auto => if device.sensor is Some && kind_valid(
                device.sensor.unwrap().kind,
                device,
            ) {
                device.sensor
            } else if self.conf.auto {
                autofound(self.kinds, device)
            } else {
                device.sensor
            },
        }
    }

    /// The discovery mode of a device that is first seen under `address`.
    pub open spec fn initial_mode(self, address: Seq<char>) -> DiscoveryModeView {
        match find_info(self.conf.infos, address) {
            Some(info) => DiscoveryModeView::Configured(info.sensor_if),
            None => DiscoveryModeView::Auto,
        }
    }
}

/// The resolver: it binds decoders to devices, by the configuration or by
/// probing the kinds it knows, in their order.
#[derive(Debug)]
pub struct BTSensorFactory {
    conf: SensorConf,
    sensor_constructors: Vec<SensorConstructor>,
}

impl View for BTSensorFactory {
    type V = BTSensorFactoryView;

    closed spec fn view(&self) -> BTSensorFactoryView {
        BTSensorFactoryView {
            conf: self.conf@,
            kinds: constructor_kinds(self.sensor_constructors@),
        }
    }
}

impl BTSensorFactory {
    /// A resolver that knows the two RuuviTag decoders, format 3 first.
    pub fn new(conf: SensorConf) -> (r: BTSensorFactory)
        ensures
            r@ == (BTSensorFactoryView {
                conf: conf@,
                kinds: seq![SensorKind::RuuvitagDF3, SensorKind::RuuvitagDF2],
            }),
    {
        let mut factory = BTSensorFactory { conf, sensor_constructors: Vec::new() };
        factory.initialize();
        factory
    }

    /// Makes the two RuuviTag decoders the ones that the resolver knows.
    pub fn initialize(&mut self)
        ensures
            final(self)@ == (BTSensorFactoryView {
                kinds: seq![SensorKind::RuuvitagDF3, SensorKind::RuuvitagDF2],
                ..old(self)@
            }),
    {
        self.init_sensor_constructors();
    }

    fn init_sensor_constructors(&mut self)
        ensures
            final(self)@ == (BTSensorFactoryView {
                kinds: seq![SensorKind::RuuvitagDF3, SensorKind::RuuvitagDF2],
                ..old(self)@
            }),
    {
        let mut constructors: Vec<SensorConstructor> = Vec::new();
        constructors.push(SensorConstructor::RuuvitagDF3(RuuvitagDF3Constructor::new()));
        constructors.push(SensorConstructor::RuuvitagDF2(RuuvitagDF2Constructor::new()));
        assert(constructor_kinds(constructors@) =~= seq![
            SensorKind::RuuvitagDF3,
            SensorKind::RuuvitagDF2,
        ]);
        self.sensor_constructors = constructors;
    }

    /// The discovery mode of a device that is first seen under `address`:
    /// the configured decoder name where the address is configured, else
    /// automatic.
    pub fn get_sensor_discovery_mode(&self, address: &str) -> (r: DiscoveryMode)
        ensures
            r@ == self@.initial_mode(address@),
    {
        match self.conf.get_sensor_if(address) {
            Some(sensor_if) => DiscoveryMode::Configured(sensor_if.to_owned()),
            None => DiscoveryMode::Auto,
        }
    }

    /// Binds a decoder to the device, keeps the one it has, or takes it
    /// away, as the device's discovery mode asks. Nothing else of the
    /// device changes.
    pub fn set_sensor(&self, bt_device: &mut BTDevice)
        ensures
            final(bt_device)@ == (BTDeviceView {
                sensor: self@.attached(old(bt_device)@),
                ..old(bt_device)@
            }),
    {
        let discovery_mode = bt_device.get_discovery_mode();
        match discovery_mode {
            DiscoveryMode::Configured(ref sensor_if) => {
                if bt_device.get_sensor().is_none() {
                    let sensor_type = self.get_sensor_type(sensor_if.as_str(), bt_device);
                    if let Some(sensor) = sensor_type {
                        bt_device.set_sensor(sensor);
                    } else {
                        bt_device.unset_sensor();
                    }
                }
            },
            DiscoveryMode::Auto => {
                let is_valid_data = match bt_device.get_sensor() {
                    Some(s) => s.is_valid_data(bt_device),
                    None => false,
                };
                if is_valid_data {
                    return ;
                }
                if self.conf.is_auto() {
                    let sensor_type = self.autofind_sensor_type(bt_device);
                    if let Some(sensor) = sensor_type {
                        bt_device.set_sensor(sensor);
                    } else {
                        bt_device.unset_sensor();
                    }
                }
            },
        }
    }

    /// The decoder that the name `sensor_type` binds to the device.
    pub fn get_sensor_type(&self, sensor_type: &str, bt_device: &BTDevice) -> (r: Option<Sensor>)
        ensures
            sensor_view(r) == configured(self@.kinds, sensor_type@, bt_device@),
    {
        if text_equal(sensor_type, "auto") {
            return self.autofind_sensor_type(bt_device);
        }
        let ghost kinds = constructor_kinds(self.sensor_constructors@);
        let mut i: usize = 0;
        assert(kinds.skip(0) =~= kinds);
        while i < self.sensor_constructors.len()
            invariant
                i <= self.sensor_constructors.len(),
                kinds == constructor_kinds(self.sensor_constructors@),
                named(kinds, sensor_type@) == named(kinds.skip(i as int), sensor_type@),
                sensor_type@ != "auto"@,
            decreases self.sensor_constructors.len() - i,
        {
            let constructor = &self.sensor_constructors[i];
            assert(kinds.skip(i as int)[0] == constructor@);
            assert(kinds.skip(i as int).drop_first() =~= kinds.skip(i + 1));
            if text_equal(constructor.get_name(), sensor_type) {
                assert(named(kinds.skip(i as int), sensor_type@) == Some(constructor@));
                let name = constructor.get_name().to_owned();
                return Some(constructor.construct(DiscoveryMode::Configured(name)));
            }
            i += 1;
        }
        None
    }

    /// The decoder that probing binds to the device: that of the first kind
    /// the resolver knows which accepts what the device holds.
    pub fn autofind_sensor_type(&self, bt_device: &BTDevice) -> (r: Option<Sensor>)
        ensures
            sensor_view(r) == autofound(self@.kinds, bt_device@),
    {
        let ghost kinds = constructor_kinds(self.sensor_constructors@);
        let mut i: usize = 0;
        assert(kinds.skip(0) =~= kinds);
        while i < self.sensor_constructors.len()
            invariant
                i <= self.sensor_constructors.len(),
                kinds == constructor_kinds(self.sensor_constructors@),
                probed(kinds, bt_device@) == probed(kinds.skip(i as int), bt_device@),
            decreases self.sensor_constructors.len() - i,
        {
            let constructor = &self.sensor_constructors[i];
            assert(kinds.skip(i as int)[0] == constructor@);
            assert(kinds.skip(i as int).drop_first() =~= kinds.skip(i + 1));
            if constructor.is_valid_data(bt_device) {
                return Some(constructor.construct(DiscoveryMode::Auto));
            }
            i += 1;
        }
        None
    }
}

} // verus!
