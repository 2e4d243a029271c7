use vstd::prelude::*;
use vstd::string::*;
use crate::args::Args;
use crate::text::text_equal;

verus! {

/// What the configuration says of one device.
#[derive(Debug)]
pub struct SensorInfo {
    address: String,
    tag: String,
    sensor_if: String,
}

/// The mathematical value of a [`SensorInfo`].
pub struct SensorInfoView {
    pub address: Seq<char>,
    pub tag: Seq<char>,
    pub sensor_if: Seq<char>,
}

impl View for SensorInfo {
    type V = SensorInfoView;

    closed spec fn view(&self) -> SensorInfoView {
        SensorInfoView { address: self.address@, tag: self.tag@, sensor_if: self.sensor_if@ }
    }
}

impl Clone for SensorInfo {
    fn clone(&self) -> (r: SensorInfo)
        ensures
            r@ == self@,
    {
        SensorInfo {
            address: self.address.clone(),
            tag: self.tag.clone(),
            sensor_if: self.sensor_if.clone(),
        }
    }
}

impl SensorInfo {
    pub fn new(address: String, tag: String, sensor_if: String) -> (r: SensorInfo)
        ensures
            r@ == (SensorInfoView { address: address@, tag: tag@, sensor_if: sensor_if@ }),
    {
        SensorInfo { address, tag, sensor_if }
    }

    pub fn get_tag(&self) -> (r: &str)
        ensures
            r@ == self@.tag,
    {
        self.tag.as_str()
    }

    pub fn get_address(&self) -> (r: &str)
        ensures
            r@ == self@.address,
    {
        self.address.as_str()
    }

    pub fn get_sensor_if(&self) -> (r: &str)
        ensures
            r@ == self@.sensor_if,
    {
        self.sensor_if.as_str()
    }
}

/// The views of a list of device entries.
pub open spec fn info_views(infos: Seq<SensorInfo>) -> Seq<SensorInfoView> {
    infos.map_values(|i: SensorInfo| i@)
}

/// The entry that holds for `address`: the last one given for it.
pub open spec fn find_info(infos: Seq<SensorInfoView>, address: Seq<char>) -> Option<
    SensorInfoView,
>
    decreases infos.len(),
{
    if infos.len() == 0 {
        None
    } else if infos.last().address == address {
        Some(infos.last())
    } else {
        find_info(infos.drop_last(), address)
    }
}

/// Of two lists of entries one after the other, the second decides for
/// every address it names, the first for the others: so the entries of the
/// command line replace those of the device map file.
pub proof fn lemma_later_entries_replace_earlier(
    first: Seq<SensorInfoView>,
    second: Seq<SensorInfoView>,
    address: Seq<char>,
)
    ensures
        find_info(first + second, address) == match find_info(second, address) {
            Some(info) => Some(info),
            None => find_info(first, address),
        },
    decreases second.len(),
{
    if second.len() == 0 {
        assert(first + second =~= first);
    } else {
        assert((first + second).drop_last() =~= first + second.drop_last());
        assert((first + second).last() == second.last());
        lemma_later_entries_replace_earlier(first, second.drop_last(), address);
    }
}

/// The position of the first comma of `s` at or after `from`, or the length
/// of `s` if there is none.
pub open spec fn field_end(s: Seq<char>, from: int) -> int
    decreases s.len() - from,
{
    if from < 0 || from >= s.len() {
        s.len() as int
    } else if s[from] == ',' {
        from
    } else {
        field_end(s, from + 1)
    }
}

/// The entry that a device argument `MAC[,tag[,sensor_if]]` stands for. A
/// missing tag is the address, a missing decoder name is `auto`; what
/// follows a third comma is not read.
pub open spec fn arg_info(s: Seq<char>) -> SensorInfoView {
    let e0 = field_end(s, 0);
    let address = s.subrange(0, e0);
    if e0 >= s.len() {
        SensorInfoView { address, tag: address, sensor_if: "auto"@ }
    } else {
        let e1 = field_end(s, e0 + 1);
        let tag = s.subrange(e0 + 1, e1);
        if e1 >= s.len() {
            SensorInfoView { address, tag, sensor_if: "auto"@ }
        } else {
            let e2 = field_end(s, e1 + 1);
            SensorInfoView { address, tag, sensor_if: s.subrange(e1 + 1, e2) }
        }
    }
}

/// A JSON value, as far as a device map file is read: an object with its
/// members in their order, a string, or anything else.
#[derive(Debug)]
pub enum JsonValue {
    Object(Vec<(String, JsonValue)>),
    String(String),
    Other,
}

/// Why a device map file cannot be taken in.
#[derive(Debug)]
pub enum DevicemapError {
    /// The file does not hold an object.
    NotAnObject,
    /// What stands under this address is not an object.
    ValueNotAnObject(String),
    /// The tag under this address is not a string.
    TagNotString(String),
    /// The decoder name under this address is not a string.
    SensorIfNotString(String),
}

/// The mathematical value of a [`DevicemapError`].
pub enum DevicemapErrorView {
    NotAnObject,
    ValueNotAnObject(Seq<char>),
    TagNotString(Seq<char>),
    SensorIfNotString(Seq<char>),
}

impl View for DevicemapError {
    type V = DevicemapErrorView;

    open spec fn view(&self) -> DevicemapErrorView {
        match self {
            DevicemapError::NotAnObject => DevicemapErrorView::NotAnObject,
            DevicemapError::ValueNotAnObject(a) => DevicemapErrorView::ValueNotAnObject(a@),
            DevicemapError::TagNotString(a) => DevicemapErrorView::TagNotString(a@),
            DevicemapError::SensorIfNotString(a) => DevicemapErrorView::SensorIfNotString(a@),
        }
    }
}

/// The members of a JSON object.
pub open spec fn json_members(v: JsonValue) -> Option<Seq<(String, JsonValue)>> {
    match v {
        JsonValue::Object(members) => Some(members@),
        _ => None,
    }
}

/// The value of the member called `name`: that of the last one, where
/// several have the name.
pub open spec fn json_member(members: Seq<(String, JsonValue)>, name: Seq<char>) -> Option<
    JsonValue,
>
    decreases members.len(),
{
    if members.len() == 0 {
        None
    } else if members.last().0@ == name {
        Some(members.last().1)
    } else {
        json_member(members.drop_last(), name)
    }
}

/// The text of an optional member: the default where the member is
/// missing, none where it is there and not a string.
pub open spec fn json_text_or(member: Option<JsonValue>, default: Seq<char>) -> Option<Seq<char>> {
    match member {
        None => Some(default),
        Some(JsonValue::String(s)) => Some(s@),
        Some(_) => None,
    }
}

/// The entry that one member of a device map file stands for. A missing
/// tag is the address, a missing decoder name is `auto`.
pub open spec fn file_info(address: Seq<char>, value: JsonValue) -> Result<
    SensorInfoView,
    DevicemapErrorView,
> {
    match json_members(value) {
        None => Err(DevicemapErrorView::ValueNotAnObject(address)),
        Some(members) => match json_text_or(json_member(members, "tag"@), address) {
            None => Err(DevicemapErrorView::TagNotString(address)),
            Some(tag) => match json_text_or(json_member(members, "sensor_if"@), "auto"@) {
                None => Err(DevicemapErrorView::SensorIfNotString(address)),
                Some(sensor_if) => Ok(SensorInfoView { address, tag, sensor_if }),
            },
        },
    }
}

/// The entries of the members of a device map file, in their order, or
/// what is wrong with the first member that is not an entry.
pub open spec fn file_infos(members: Seq<(String, JsonValue)>) -> Result<
    Seq<SensorInfoView>,
    DevicemapErrorView,
>
    decreases members.len(),
{
    if members.len() == 0 {
        Ok(Seq::empty())
    } else {
        match file_infos(members.drop_last()) {
            Err(e) => Err(e),
            Ok(front) => match file_info(members.last().0@, members.last().1) {
                Err(e) => Err(e),
                Ok(info) => Ok(front.push(info)),
            },
        }
    }
}

/// The entries of a device map file: a JSON object with one member for each
/// address.
pub open spec fn devicemap_infos(v: JsonValue) -> Result<Seq<SensorInfoView>, DevicemapErrorView> {
    match json_members(v) {
        None => Err(DevicemapErrorView::NotAnObject),
        Some(members) => file_infos(members),
    }
}

/// An error among the first `n` members is the error of all of them.
proof fn lemma_file_infos_prefix(members: Seq<(String, JsonValue)>, n: int)
    requires
        0 <= n <= members.len(),
        file_infos(members.take(n)) is Err,
    ensures
        file_infos(members) == file_infos(members.take(n)),
    decreases members.len() - n,
{
    if n < members.len() {
        assert(members.take(n + 1).drop_last() =~= members.take(n));
        lemma_file_infos_prefix(members, n + 1);
    } else {
        assert(members.take(n) =~= members);
    }
}

/// The freshness threshold in milliseconds for a poll interval in seconds.
pub open spec fn interval_millis(secs: u64) -> u64 {
    if secs > u64::MAX / 1000 {
        u64::MAX
    } else {
        (secs * 1000) as u64
    }
}

/// The configuration of the collector.
#[derive(Debug)]
pub struct SensorConf {
    auto: bool,
    address_map: Vec<SensorInfo>,
    last_seen_forget: u64,
}

/// The mathematical value of a [`SensorConf`].
pub struct SensorConfView {
    pub auto: bool,
    pub infos: Seq<SensorInfoView>,
    pub last_seen_forget: u64,
}

impl View for SensorConf {
    type V = SensorConfView;

    closed spec fn view(&self) -> SensorConfView {
        SensorConfView {
            auto: self.auto,
            infos: info_views(self.address_map@),
            last_seen_forget: self.last_seen_forget,
        }
    }
}

impl Default for SensorConf {
    fn default() -> (r: SensorConf)
        ensures
            r@ == (SensorConfView { auto: false, infos: Seq::empty(), last_seen_forget: 0 }),
    {
        let r = SensorConf { auto: false, address_map: Vec::new(), last_seen_forget: 0 };
        assert(info_views(r.address_map@) =~= Seq::empty());
        r
    }
}

impl Clone for SensorConf {
    fn clone(&self) -> (r: SensorConf)
        ensures
            r@ == self@,
    {
        let mut infos: Vec<SensorInfo> = Vec::new();
        let mut i: usize = 0;
        while i < self.address_map.len()
            invariant
                i <= self.address_map.len(),
                info_views(infos@) == info_views(self.address_map@).take(i as int),
            decreases self.address_map.len() - i,
        {
            let ghost before = info_views(infos@);
            infos.push(self.address_map[i].clone());
            assert(info_views(infos@) =~= before.push(self.address_map@[i as int]@));
            assert(info_views(self.address_map@).take(i + 1) =~= info_views(
                self.address_map@,
            ).take(i as int).push(self.address_map@[i as int]@));
            i += 1;
        }
        assert(info_views(self.address_map@).take(self.address_map.len() as int) =~= info_views(
            self.address_map@,
        ));
        SensorConf { auto: self.auto, address_map: infos, last_seen_forget: self.last_seen_forget }
    }
}

impl SensorConf {
    /// The configuration for a command line. `file_devicemap` holds the
    /// entries of the device map file, empty where none was named; the
    /// entries of the command line come after them and so replace them.
    pub fn new(args: &Args, file_devicemap: Vec<SensorInfo>) -> (r: SensorConf)
        ensures
            r@.auto == !args.flag_manual,
            r@.last_seen_forget == interval_millis(args.flag_interval),
            r@.infos == info_views(file_devicemap@) + args.arg_device@.map_values(
                |a: String| arg_info(a@),
            ),
    {
        let mut devicemap = file_devicemap;
        let mut arg_devicemap = SensorConf::parse_arg_devicemaps(&args.arg_device);
        let ghost first = info_views(devicemap@);
        let ghost second = info_views(arg_devicemap@);
        devicemap.append(&mut arg_devicemap);
        assert(info_views(devicemap@) =~= first + second);
        let last_seen_forget: u64 = if args.flag_interval > u64::MAX / 1000 {
            u64::MAX
        } else {
            args.flag_interval * 1000
        };
        SensorConf { auto: !args.flag_manual, address_map: devicemap, last_seen_forget }
    }

    /// The value of the member called `name`.
    fn member<'a>(members: &'a Vec<(String, JsonValue)>, name: &str) -> (r: Option<&'a JsonValue>)
        ensures
            r is Some == json_member(members@, name@) is Some,
            r is Some ==> *r.unwrap() == json_member(members@, name@).unwrap(),
    {
        let mut i: usize = members.len();
        assert(members@.take(i as int) =~= members@);
        while i > 0
            invariant
                i <= members.len(),
                json_member(members@, name@) == json_member(members@.take(i as int), name@),
            decreases i,
        {
            i -= 1;
            assert(members@.take(i + 1).drop_last() =~= members@.take(i as int));
            assert(members@.take(i + 1).last() == members@[i as int]);
            if text_equal(members[i].0.as_str(), name) {
                return Some(&members[i].1);
            }
        }
        None
    }

    /// The text of an optional member, or the default where it is missing.
    fn text_or(member: Option<&JsonValue>, default: &str) -> (r: Option<String>)
        ensures
            match member {
                Some(m) => r is Some == json_text_or(Some(*m), default@) is Some && (r is Some
                    ==> r.unwrap()@ == json_text_or(Some(*m), default@).unwrap()),
                None => r is Some && r.unwrap()@ == default@,
            },
    {
        match member {
            None => Some(default.to_owned()),
            Some(JsonValue::String(s)) => Some(s.clone()),
            Some(_) => None,
        }
    }

    /// The entry that one member of a device map file stands for.
    pub fn parse_devicemap_entry(address: &str, value: &JsonValue) -> (r: Result<
        SensorInfo,
        DevicemapError,
    >)
        ensures
            r is Ok == file_info(address@, *value) is Ok,
            r matches Ok(info) ==> info@ == file_info(address@, *value)->Ok_0,
            r matches Err(e) ==> e@ == file_info(address@, *value)->Err_0,
    {
        let members = match value {
            JsonValue::Object(members) => members,
            _ => {
                return Err(DevicemapError::ValueNotAnObject(address.to_owned()));
            },
        };
        let tag = match SensorConf::text_or(SensorConf::member(members, "tag"), address) {
            Some(tag) => tag,
            None => {
                return Err(DevicemapError::TagNotString(address.to_owned()));
            },
        };
        let sensor_if = match SensorConf::text_or(SensorConf::member(members, "sensor_if"), "auto") {
            Some(sensor_if) => sensor_if,
            None => {
                return Err(DevicemapError::SensorIfNotString(address.to_owned()));
            },
        };
        Ok(SensorInfo::new(address.to_owned(), tag, sensor_if))
    }

    /// The entries of a device map file, one for each member of its object,
    /// in their order; or what is wrong with the file, at the first place
    /// where something is.
    pub fn parse_devicemap_file(v: &JsonValue) -> (r: Result<Vec<SensorInfo>, DevicemapError>)
        ensures
            r is Ok == devicemap_infos(*v) is Ok,
            r matches Ok(infos) ==> info_views(infos@) == devicemap_infos(*v)->Ok_0,
            r matches Err(e) ==> e@ == devicemap_infos(*v)->Err_0,
    {
        let members = match v {
            JsonValue::Object(members) => members,
            _ => {
                return Err(DevicemapError::NotAnObject);
            },
        };
        let mut out: Vec<SensorInfo> = Vec::new();
        let mut i: usize = 0;
        assert(info_views(out@) =~= Seq::empty());
        while i < members.len()
            invariant
                i <= members.len(),
                json_members(*v) == Some(members@),
                file_infos(members@.take(i as int)) == Ok::<
                    Seq<SensorInfoView>,
                    DevicemapErrorView,
                >(info_views(out@)),
            decreases members.len() - i,
        {
            let ghost before = info_views(out@);
            assert(members@.take(i + 1).drop_last() =~= members@.take(i as int));
            assert(members@.take(i + 1).last() == members@[i as int]);
            match SensorConf::parse_devicemap_entry(members[i].0.as_str(), &members[i].1) {
                Ok(info) => {
                    let ghost iv = info@;
                    out.push(info);
                    assert(info_views(out@) =~= before.push(iv));
                },
                Err(e) => {
                    proof {
                        assert(file_infos(members@.take(i + 1)) is Err);
                        lemma_file_infos_prefix(members@, i + 1);
                    }
                    return Err(e);
                },
            }
            i += 1;
        }
        assert(members@.take(members.len() as int) =~= members@);
        Ok(out)
    }

    /// The position of the first comma of `s` at or after `from`.
    fn find_field_end(s: &str, len: usize, from: usize) -> (r: usize)
        requires
            len == s@.len(),
            from <= len,
        ensures
            r == field_end(s@, from as int),
            from <= r <= len,
    {
        let mut i: usize = from;
        while i < len
            invariant
                len == s@.len(),
                from <= i <= len,
                field_end(s@, from as int) == field_end(s@, i as int),
            decreases len - i,
        {
            if s.get_char(i) == ',' {
                return i;
            }
            i += 1;
        }
        i
    }

    /// The entry for one device argument.
    pub fn parse_arg_device(arg: &str) -> (r: SensorInfo)
        ensures
            r@ == arg_info(arg@),
    {
        let len = arg.unicode_len();
        let e0 = SensorConf::find_field_end(arg, len, 0);
        let address = arg.substring_char(0, e0).to_owned();
        if e0 >= len {
            let tag = address.clone();
            return SensorInfo::new(address, tag, "auto".to_owned());
        }
        let e1 = SensorConf::find_field_end(arg, len, e0 + 1);
        let tag = arg.substring_char(e0 + 1, e1).to_owned();
        if e1 >= len {
            return SensorInfo::new(address, tag, "auto".to_owned());
        }
        let e2 = SensorConf::find_field_end(arg, len, e1 + 1);
        let sensor_if = arg.substring_char(e1 + 1, e2).to_owned();
        SensorInfo::new(address, tag, sensor_if)
    }

    /// The entries for the device arguments of the command line, in their
    /// order.
    pub fn parse_arg_devicemaps(dev_args: &Vec<String>) -> (r: Vec<SensorInfo>)
        ensures
            info_views(r@) == dev_args@.map_values(|a: String| arg_info(a@)),
    {
        let mut out: Vec<SensorInfo> = Vec::new();
        let mut i: usize = 0;
        while i < dev_args.len()
            invariant
                i <= dev_args.len(),
                info_views(out@) == dev_args@.map_values(|a: String| arg_info(a@)).take(i as int),
            decreases dev_args.len() - i,
        {
            let ghost before = info_views(out@);
            let ghost all = dev_args@.map_values(|a: String| arg_info(a@));
            out.push(SensorConf::parse_arg_device(dev_args[i].as_str()));
            assert(info_views(out@) =~= before.push(arg_info(dev_args@[i as int]@)));
            assert(all.take(i + 1) =~= all.take(i as int).push(all[i as int]));
            i += 1;
        }
        assert(dev_args@.map_values(|a: String| arg_info(a@)).take(dev_args.len() as int)
            =~= dev_args@.map_values(|a: String| arg_info(a@)));
        out
    }

    pub fn is_auto(&self) -> (r: bool)
        ensures
            r == self@.auto,
    {
        self.auto
    }

    /// The entry that holds for `address`.
    fn lookup(&self, address: &str) -> (r: Option<&SensorInfo>)
        ensures
            r is Some == find_info(self@.infos, address@) is Some,
            r is Some ==> r.unwrap()@ == find_info(self@.infos, address@).unwrap(),
    {
        let ghost all = info_views(self.address_map@);
        let mut i: usize = self.address_map.len();
        assert(all.take(i as int) =~= all);
        while i > 0
            invariant
                i <= self.address_map.len(),
                all == info_views(self.address_map@),
                find_info(all, address@) == find_info(all.take(i as int), address@),
            decreases i,
        {
            i -= 1;
            assert(all.take(i + 1).drop_last() =~= all.take(i as int));
            assert(all.take(i + 1).last() == self.address_map@[i as int]@);
            if text_equal(self.address_map[i].get_address(), address) {
                return Some(&self.address_map[i]);
            }
        }
        None
    }

    /// The decoder name configured for `address`, if the address is
    /// configured.
    pub fn get_sensor_if(&self, address: &str) -> (r: Option<&str>)
        ensures
            r is Some == find_info(self@.infos, address@) is Some,
            r is Some ==> r.unwrap()@ == find_info(self@.infos, address@).unwrap().sensor_if,
    {
        match self.lookup(address) {
            Some(info) => Some(info.get_sensor_if()),
            None => None,
        }
    }

    /// The tag configured for `address`, if the address is configured.
    pub fn get_sensor_tag(&self, address: &str) -> (r: Option<&str>)
        ensures
            r is Some == find_info(self@.infos, address@) is Some,
            r is Some ==> r.unwrap()@ == find_info(self@.infos, address@).unwrap().tag,
    {
        match self.lookup(address) {
            Some(info) => Some(info.get_tag()),
            None => None,
        }
    }

    /// The freshness threshold, in milliseconds.
    pub fn get_last_seen_forget(&self) -> (r: u64)
        ensures
            r == self@.last_seen_forget,
    {
        self.last_seen_forget
    }
}

} // verus!
