use vstd::prelude::*;

use crate::domain::DeviceName;
use crate::json::{
    get_member, int_text, integer_text, integer_value, lemma_int_text_reads_back, member,
    parse_json, parsed_json, read_integer, str_eq, Json, Member,
};

verus! {

/// The instant that jiff reads from an RFC 3339 text, as whole seconds since the Unix epoch
/// and the nanoseconds past that second, or `None` where jiff refuses the text.
pub uninterp spec fn timestamp_of_text(s: Seq<char>) -> Option<(i64, i32)>;

/// Relies on jiff's `FromStr` for `jiff::Timestamp`, read back with `as_second` and
/// `subsec_nanosecond`: the instant depends on the text alone.
#[verifier::external_body]
fn parse_timestamp(s: &str) -> (r: Option<(i64, i32)>)
    ensures
        r == timestamp_of_text(s@),
{
    s.parse::<jiff::Timestamp>().ok().map(|t| (t.as_second(), t.subsec_nanosecond()))
}

/// An absolute instant, kept as the RFC 3339 text it was written in together with the
/// instant that text denotes.
#[derive(Debug, Clone, PartialEq, Eq)]
pub struct Timestamp {
    pub text: String,
    pub second: i64,
    pub nanosecond: i32,
}

impl View for Timestamp {
    type V = Seq<char>;

    open spec fn view(&self) -> Seq<char> {
        self.text@
    }
}

impl Timestamp {
    /// The seconds and nanoseconds agree with the text.
    pub open spec fn wf(&self) -> bool {
        timestamp_of_text(self.text@) == Some((self.second, self.nanosecond))
    }

    /// Reads an RFC 3339 text; `None` where it denotes no instant.
    pub fn parse(s: &str) -> (r: Option<Timestamp>)
        ensures
            r is Some <==> timestamp_of_text(s@) is Some,
            r is Some ==> r->0@ == s@ && r->0.wf(),
    {
        match parse_timestamp(s) {
            Some((second, nanosecond)) => Some(
                Timestamp { text: String::from_str(s), second, nanosecond },
            ),
            None => None,
        }
    }

    pub fn as_str(&self) -> (r: &str)
        ensures
            r@ == self@,
    {
        self.text.as_str()
    }

    /// Whole seconds since the Unix epoch.
    pub fn as_second(&self) -> (r: i64)
        requires
            self.wf(),
        ensures
            timestamp_of_text(self@) == Some((r, self.nanosecond)),
    {
        self.second
    }

    /// Nanoseconds past the whole second.
    pub fn subsec_nanosecond(&self) -> (r: i32)
        requires
            self.wf(),
        ensures
            timestamp_of_text(self@) == Some((self.second, r)),
    {
        self.nanosecond
    }
}

/// How a device behaves during a simulation.
#[derive(Debug, Clone, Copy, PartialEq, Eq)]
pub enum DeviceType {
    /// Production that the backend computes from the time of day and the weather.
    SolarPanel,
    /// A constant amount per tick; the sign gives the direction.
    StableDevice { produces: i32 },
    /// A store bounded by a charge rate per tick and a capacity.
    Store { max_charge_per_tick: u32, max_capacity: u32 },
}

/// One named actor of a simulation.
#[derive(Debug, Clone, PartialEq, Eq)]
pub struct Device {
    pub name: DeviceName,
    pub device_type: DeviceType,
}

pub struct DeviceV {
    pub name: Seq<char>,
    pub device_type: DeviceType,
}

impl View for Device {
    type V = DeviceV;

    open spec fn view(&self) -> DeviceV {
        DeviceV { name: self.name@, device_type: self.device_type }
    }
}

/// A configuration to submit: a time span and the devices that take part.
#[derive(Debug, Clone, PartialEq, Eq)]
pub struct Simulation {
    pub start_time: Timestamp,
    pub end_time: Timestamp,
    pub devices: Vec<Device>,
}

pub struct SimulationV {
    pub start_time: Seq<char>,
    pub end_time: Seq<char>,
    pub devices: Seq<DeviceV>,
}

impl View for Simulation {
    type V = SimulationV;

    open spec fn view(&self) -> SimulationV {
        SimulationV {
            start_time: self.start_time@,
            end_time: self.end_time@,
            devices: self.devices@.map_values(|d: Device| d@),
        }
    }
}

impl Simulation {
    pub open spec fn wf(&self) -> bool {
        self.start_time.wf() && self.end_time.wf()
    }
}

/// A field of the wire format, named in decoding errors.
#[derive(Debug, Clone, Copy, PartialEq, Eq)]
pub enum Field {
    StartTime,
    EndTime,
    Devices,
    Device,
    Name,
    Type,
    Produces,
    MaxChargePerTick,
    MaxCapacity,
    Id,
    Timestamp,
    Result,
    Report,
    Res,
}

/// Why a payload does not decode.
#[derive(Debug, Clone, Copy, PartialEq, Eq)]
pub enum DecodeError {
    /// The text is not JSON at all.
    NotJson,
    /// A required field is absent.
    MissingField(Field),
    /// The payload as a whole is not the object (or list) that was expected.
    WrongShape,
    /// A field holds a value of the wrong kind (a string for a number, a fraction for an
    /// integer, ...); `Device` where a device is no object, `Devices` where a list entry is
    /// no name.
    WrongKind(Field),
    /// An integer field holds a value outside its type.
    OutOfRange(Field),
    /// The `type` discriminator names no known device type.
    UnknownDeviceType,
    /// A time field does not denote an instant.
    InvalidTimestamp(Field),
    /// An identifier is not a UUID.
    InvalidId,
}

pub open spec fn key_of(f: Field) -> Seq<char> {
    match f {
        Field::StartTime => "startTime"@,
        Field::EndTime => "endTime"@,
        Field::Devices => "devices"@,
        Field::Device => "device"@,
        Field::Name => "name"@,
        Field::Type => "type"@,
        Field::Produces => "produces"@,
        Field::MaxChargePerTick => "maxChargePerTick"@,
        Field::MaxCapacity => "maxCapacity"@,
        Field::Id => "id"@,
        Field::Timestamp => "timestamp"@,
        Field::Result => "result"@,
        Field::Report => "report"@,
        Field::Res => "res"@,
    }
}

/// The key of a field on the wire.
pub fn key(f: Field) -> (r: &'static str)
    ensures
        r@ == key_of(f),
{
    match f {
        Field::StartTime => "startTime",
        Field::EndTime => "endTime",
        Field::Devices => "devices",
        Field::Device => "device",
        Field::Name => "name",
        Field::Type => "type",
        Field::Produces => "produces",
        Field::MaxChargePerTick => "maxChargePerTick",
        Field::MaxCapacity => "maxCapacity",
        Field::Id => "id",
        Field::Timestamp => "timestamp",
        Field::Result => "result",
        Field::Report => "report",
        Field::Res => "res",
    }
}

/// The value of a field, which must be present.
pub open spec fn field_of(fields: Seq<Member>, f: Field) -> Result<Json, DecodeError> {
    match member(fields, key_of(f)) {
        Some(j) => Ok(j),
        None => Err(DecodeError::MissingField(f)),
    }
}

/// The text of a field, which must be a string.
pub open spec fn str_of(fields: Seq<Member>, f: Field) -> Result<Seq<char>, DecodeError> {
    match field_of(fields, f) {
        Ok(Json::Str(s)) => Ok(s@),
        Ok(_) => Err(DecodeError::WrongKind(f)),
        Err(e) => Err(e),
    }
}

/// The integer of a field, which must be a number that writes an integer in `lo..=hi`.
pub open spec fn int_of(fields: Seq<Member>, f: Field, lo: int, hi: int) -> Result<
    int,
    DecodeError,
> {
    match field_of(fields, f) {
        Ok(Json::Number(t)) => match integer_value(t@) {
            None => Err(DecodeError::WrongKind(f)),
            Some(v) => if lo <= v <= hi {
                Ok(v)
            } else {
                Err(DecodeError::OutOfRange(f))
            },
        },
        Ok(_) => Err(DecodeError::WrongKind(f)),
        Err(e) => Err(e),
    }
}

/// The instant text of a field, which must be a string that denotes an instant.
pub open spec fn time_of(fields: Seq<Member>, f: Field) -> Result<Seq<char>, DecodeError> {
    match str_of(fields, f) {
        Ok(s) => if timestamp_of_text(s) is Some {
            Ok(s)
        } else {
            Err(DecodeError::InvalidTimestamp(f))
        },
        Err(e) => Err(e),
    }
}

/// The behaviour that a device object names by its `type` discriminator, read from the
/// fields of that variant, which stand beside the discriminator.
pub open spec fn device_type_of(fields: Seq<Member>) -> Result<DeviceType, DecodeError> {
    match str_of(fields, Field::Type) {
        Err(e) => Err(e),
        Ok(t) => if t == "SolarPanel"@ {
            Ok(DeviceType::SolarPanel)
        } else if t == "StableDevice"@ {
            match int_of(fields, Field::Produces, i32::MIN as int, i32::MAX as int) {
                Ok(p) => Ok(DeviceType::StableDevice { produces: p as i32 }),
                Err(e) => Err(e),
            }
        } else if t == "Store"@ {
            match int_of(fields, Field::MaxChargePerTick, 0, u32::MAX as int) {
                Err(e) => Err(e),
                Ok(c) => match int_of(fields, Field::MaxCapacity, 0, u32::MAX as int) {
                    Err(e) => Err(e),
                    Ok(m) => Ok(
                        DeviceType::Store { max_charge_per_tick: c as u32, max_capacity: m as u32 },
                    ),
                },
            }
        } else {
            Err(DecodeError::UnknownDeviceType)
        },
    }
}

/// The device that a JSON value describes.
pub open spec fn device_of(j: Json) -> Result<DeviceV, DecodeError> {
    match j {
        Json::Object(fields) => match str_of(fields@, Field::Name) {
            Err(e) => Err(e),
            Ok(name) => match device_type_of(fields@) {
                Err(e) => Err(e),
                Ok(t) => Ok(DeviceV { name, device_type: t }),
            },
        },
        _ => Err(DecodeError::WrongKind(Field::Device)),
    }
}

/// The devices that a sequence of JSON values describes; the first failure in order wins.
pub open spec fn devices_of(items: Seq<Json>) -> Result<Seq<DeviceV>, DecodeError>
    decreases items.len(),
{
    if items.len() == 0 {
        Ok(Seq::empty())
    } else {
        match devices_of(items.drop_last()) {
            Err(e) => Err(e),
            Ok(ds) => match device_of(items.last()) {
                Err(e) => Err(e),
                Ok(d) => Ok(ds.push(d)),
            },
        }
    }
}

/// The simulation that a JSON value describes.
pub open spec fn simulation_of(j: Json) -> Result<SimulationV, DecodeError> {
    match j {
        Json::Object(fields) => match time_of(fields@, Field::StartTime) {
            Err(e) => Err(e),
            Ok(start) => match time_of(fields@, Field::EndTime) {
                Err(e) => Err(e),
                Ok(end) => match field_of(fields@, Field::Devices) {
                    Err(e) => Err(e),
                    Ok(Json::Array(items)) => match devices_of(items@) {
                        Err(e) => Err(e),
                        Ok(ds) => Ok(SimulationV { start_time: start, end_time: end, devices: ds }),
                    },
                    Ok(_) => Err(DecodeError::WrongKind(Field::Devices)),
                },
            },
        },
        _ => Err(DecodeError::WrongShape),
    }
}

/// The simulation that a JSON text describes.
pub open spec fn simulation_of_text(s: Seq<char>) -> Result<SimulationV, DecodeError> {
    match parsed_json(s) {
        None => Err(DecodeError::NotJson),
        Some(j) => simulation_of(j),
    }
}

pub open spec fn decoded<T: View>(r: Result<T, DecodeError>) -> Result<T::V, DecodeError> {
    match r {
        Ok(v) => Ok(v@),
        Err(e) => Err(e),
    }
}

/// Reads a field that must be present.
pub fn get_field(fields: &Vec<Member>, f: Field) -> (r: Result<&Json, DecodeError>)
    ensures
        match r {
            Ok(j) => field_of(fields@, f) == Ok::<Json, DecodeError>(*j),
            Err(e) => field_of(fields@, f) == Err::<Json, DecodeError>(e),
        },
{
    match get_member(fields, key(f)) {
        Some(j) => Ok(j),
        None => Err(DecodeError::MissingField(f)),
    }
}

/// Reads a field that must be a string.
pub fn get_str(fields: &Vec<Member>, f: Field) -> (r: Result<&String, DecodeError>)
    ensures
        match r {
            Ok(s) => str_of(fields@, f) == Ok::<Seq<char>, DecodeError>(s@),
            Err(e) => str_of(fields@, f) == Err::<Seq<char>, DecodeError>(e),
        },
{
    match get_field(fields, f) {
        Err(e) => Err(e),
        Ok(Json::Str(s)) => Ok(s),
        Ok(_) => Err(DecodeError::WrongKind(f)),
    }
}

/// Reads a field that must be an integer in `lo..=hi`.
pub fn get_int(fields: &Vec<Member>, f: Field, lo: i64, hi: i64) -> (r: Result<i64, DecodeError>)
    ensures
        match r {
            Ok(v) => int_of(fields@, f, lo as int, hi as int) == Ok::<int, DecodeError>(v as int),
            Err(e) => int_of(fields@, f, lo as int, hi as int) == Err::<int, DecodeError>(e),
        },
{
    match get_field(fields, f) {
        Err(e) => Err(e),
        Ok(Json::Number(t)) => match read_integer(t.as_str(), lo, hi) {
            Some(v) => Ok(v),
            None => if is_integer_text(t.as_str()) {
                Err(DecodeError::OutOfRange(f))
            } else {
                Err(DecodeError::WrongKind(f))
            },
        },
        Ok(_) => Err(DecodeError::WrongKind(f)),
    }
}

/// Whether a number's text writes an integer, of any size.
fn is_integer_text(s: &str) -> (r: bool)
    ensures
        r == (integer_value(s@) is Some),
{
    let n = s.unicode_len();
    let start: usize = if n > 0 && s.get_char(0) == '-' {
        1
    } else {
        0
    };
    if start >= n {
        return false;
    }
    let mut i: usize = start;
    while i < n
        invariant
            n == s@.len(),
            start <= i <= n,
            start < n,
            start == 0 || start == 1,
            start == 0 ==> !(s@[0] == '-'),
            start == 1 ==> s@[0] == '-',
            forall|k: int| start <= k < i ==> crate::json::is_digit(#[trigger] s@[k]),
        decreases n - i,
    {
        let c = s.get_char(i);
        if !('0' <= c && c <= '9') {
            proof {
                if start == 1 {
                    assert(s@.drop_first()[i - 1] == c);
                    assert(!crate::json::is_digit(s@.drop_first()[i - 1]));
                    assert(!crate::json::all_digits(s@.drop_first()));
                    assert(integer_value(s@) is None);
                } else {
                    assert(!crate::json::is_digit(s@[i as int]));
                    assert(!crate::json::all_digits(s@));
                    assert(integer_value(s@) is None);
                }
            }
            return false;
        }
        i = i + 1;
    }
    proof {
        if start == 1 {
            assert forall|k: int| 0 <= k < s@.drop_first().len() implies crate::json::is_digit(
                #[trigger] s@.drop_first()[k],
            ) by {
                assert(s@.drop_first()[k] == s@[k + 1]);
            }
        } else if n > 0 {
            assert(s@[0] != '-');
        }
    }
    true
}

/// Reads a field that must be a string denoting an instant.
pub fn get_time(fields: &Vec<Member>, f: Field) -> (r: Result<Timestamp, DecodeError>)
    ensures
        match r {
            Ok(t) => time_of(fields@, f) == Ok::<Seq<char>, DecodeError>(t@) && t.wf(),
            Err(e) => time_of(fields@, f) == Err::<Seq<char>, DecodeError>(e),
        },
{
    match get_str(fields, f) {
        Err(e) => Err(e),
        Ok(s) => match Timestamp::parse(s.as_str()) {
            Some(t) => Ok(t),
            None => Err(DecodeError::InvalidTimestamp(f)),
        },
    }
}

impl DeviceType {
    /// Reads the behaviour that a device object names by its `type` discriminator.
    pub fn from_fields(fields: &Vec<Member>) -> (r: Result<DeviceType, DecodeError>)
        ensures
            match r {
                Ok(t) => device_type_of(fields@) == Ok::<DeviceType, DecodeError>(t),
                Err(e) => device_type_of(fields@) == Err::<DeviceType, DecodeError>(e),
            },
    {
        let t = match get_str(fields, Field::Type) {
            Err(e) => return Err(e),
            Ok(t) => t,
        };
        if str_eq(t.as_str(), "SolarPanel") {
            Ok(DeviceType::SolarPanel)
        } else if str_eq(t.as_str(), "StableDevice") {
            match get_int(fields, Field::Produces, i32::MIN as i64, i32::MAX as i64) {
                Err(e) => Err(e),
                Ok(p) => Ok(DeviceType::StableDevice { produces: p as i32 }),
            }
        } else if str_eq(t.as_str(), "Store") {
            match get_int(fields, Field::MaxChargePerTick, 0, u32::MAX as i64) {
                Err(e) => Err(e),
                Ok(c) => match get_int(fields, Field::MaxCapacity, 0, u32::MAX as i64) {
                    Err(e) => Err(e),
                    Ok(m) => Ok(
                        DeviceType::Store { max_charge_per_tick: c as u32, max_capacity: m as u32 },
                    ),
                },
            }
        } else {
            Err(DecodeError::UnknownDeviceType)
        }
    }
}

impl Device {
    /// Reads a device: its name and, beside it, its behaviour's discriminator and fields.
    pub fn from_json(j: &Json) -> (r: Result<Device, DecodeError>)
        ensures
            decoded(r) == device_of(*j),
    {
        match j {
            Json::Object(fields) => {
                match get_str(fields, Field::Name) {
                    Err(e) => Err(e),
                    Ok(name) => match DeviceType::from_fields(fields) {
                        Err(e) => Err(e),
                        Ok(device_type) => Ok(
                            Device { name: DeviceName::new(name.clone()), device_type },
                        ),
                    },
                }
            },
            _ => Err(DecodeError::WrongKind(Field::Device)),
        }
    }
}

/// Once a prefix of a list fails to decode, the whole list fails with the same error.
proof fn lemma_devices_err_extends(items: Seq<Json>, i: int)
    requires
        0 <= i <= items.len(),
        devices_of(items.subrange(0, i)) is Err,
    ensures
        devices_of(items) == devices_of(items.subrange(0, i)),
    decreases items.len() - i,
{
    if i < items.len() {
        let p = items.subrange(0, i + 1);
        assert(p.drop_last() =~= items.subrange(0, i));
        lemma_devices_err_extends(items, i + 1);
    } else {
        assert(items.subrange(0, i) =~= items);
    }
}

/// Reads a list of devices; the first that fails, in order, gives the error.
pub fn devices_from_json(items: &Vec<Json>) -> (r: Result<Vec<Device>, DecodeError>)
    ensures
        match r {
            Ok(ds) => devices_of(items@) == Ok::<Seq<DeviceV>, DecodeError>(
                ds@.map_values(|d: Device| d@),
            ),
            Err(e) => devices_of(items@) == Err::<Seq<DeviceV>, DecodeError>(e),
        },
{
    let mut out: Vec<Device> = Vec::new();
    let mut i: usize = 0;
    assert(items@.subrange(0, 0) =~= Seq::<Json>::empty());
    assert(out@.map_values(|d: Device| d@) =~= Seq::<DeviceV>::empty());
    while i < items.len()
        invariant
            0 <= i <= items@.len(),
            devices_of(items@.subrange(0, i as int)) == Ok::<Seq<DeviceV>, DecodeError>(
                out@.map_values(|d: Device| d@),
            ),
        decreases items.len() - i,
    {
        let ghost prefix = items@.subrange(0, i + 1);
        assert(prefix.drop_last() =~= items@.subrange(0, i as int));
        assert(prefix.last() == items@[i as int]);
        let d = match Device::from_json(&items[i]) {
            Err(e) => {
                proof {
                    lemma_devices_err_extends(items@, i + 1);
                }
                return Err(e);
            },
            Ok(d) => d,
        };
        let ghost before = out@;
        let ghost dv = d@;
        out.push(d);
        assert(out@.map_values(|d: Device| d@) =~= before.map_values(|d: Device| d@).push(dv));
        i = i + 1;
    }
    assert(items@.subrange(0, items@.len() as int) =~= items@);
    Ok(out)
}

impl Simulation {
    /// Reads a simulation: its two instants and its list of devices.
    pub fn from_json(j: &Json) -> (r: Result<Simulation, DecodeError>)
        ensures
            decoded(r) == simulation_of(*j),
            r is Ok ==> r->Ok_0.wf(),
    {
        match j {
            Json::Object(fields) => {
                let start_time = match get_time(fields, Field::StartTime) {
                    Err(e) => return Err(e),
                    Ok(t) => t,
                };
                let end_time = match get_time(fields, Field::EndTime) {
                    Err(e) => return Err(e),
                    Ok(t) => t,
                };
                match get_field(fields, Field::Devices) {
                    Err(e) => Err(e),
                    Ok(Json::Array(items)) => match devices_from_json(items) {
                        Err(e) => Err(e),
                        Ok(devices) => Ok(Simulation { start_time, end_time, devices }),
                    },
                    Ok(_) => Err(DecodeError::WrongKind(Field::Devices)),
                }
            },
            _ => Err(DecodeError::WrongShape),
        }
    }

    /// Reads a simulation from JSON text.
    pub fn from_json_text(text: &str) -> (r: Result<Simulation, DecodeError>)
        ensures
            decoded(r) == simulation_of_text(text@),
            r is Ok ==> r->Ok_0.wf(),
    {
        match parse_json(text) {
            None => Err(DecodeError::NotJson),
            Some(j) => Simulation::from_json(&j),
        }
    }

    /// The wire form: `startTime`, `endTime` and `devices`, in that order.
    pub fn to_json(&self) -> (r: Json)
        ensures
            simulation_encoded(self@, r),
    {
        let mut items: Vec<Json> = Vec::new();
        let mut i: usize = 0;
        while i < self.devices.len()
            invariant
                0 <= i <= self.devices@.len(),
                items@.len() == i,
                forall|k: int| 0 <= k < i ==> device_encoded(
                    #[trigger] self.devices@[k]@,
                    items@[k],
                ),
            decreases self.devices.len() - i,
        {
            items.push(self.devices[i].to_json());
            i = i + 1;
        }
        let mut ms: Vec<Member> = Vec::new();
        ms.push(Member { key: String::from_str("startTime"), value: Json::Str(self.start_time.text.clone()) });
        ms.push(Member { key: String::from_str("endTime"), value: Json::Str(self.end_time.text.clone()) });
        ms.push(Member { key: String::from_str("devices"), value: Json::Array(items) });
        let r = Json::Object(ms);
        assert(self@.devices.len() == self.devices@.len());
        r
    }

    /// The wire form as JSON text, ready to submit.
    pub fn to_json_text(&self) -> (r: String)
        ensures
            exists|j: Json| simulation_encoded(self@, j) && r@ == crate::json::json_text(j),
    {
        let j = self.to_json();
        crate::json::to_json_text(&j)
    }
}

impl Device {
    /// The wire form: `name`, then the `type` discriminator and the variant's own fields.
    pub fn to_json(&self) -> (r: Json)
        ensures
            device_encoded(self@, r),
    {
        let mut ms: Vec<Member> = Vec::new();
        ms.push(Member { key: String::from_str("name"), value: Json::Str(self.name.0.clone()) });
        match self.device_type {
            DeviceType::SolarPanel => {
                ms.push(Member { key: String::from_str("type"), value: Json::Str(String::from_str("SolarPanel")) });
            },
            DeviceType::StableDevice { produces } => {
                ms.push(Member { key: String::from_str("type"), value: Json::Str(String::from_str("StableDevice")) });
                ms.push(Member { key: String::from_str("produces"), value: Json::Number(integer_text(produces as i64)) });
            },
            DeviceType::Store { max_charge_per_tick, max_capacity } => {
                ms.push(Member { key: String::from_str("type"), value: Json::Str(String::from_str("Store")) });
                ms.push(Member { key: String::from_str("maxChargePerTick"), value: Json::Number(integer_text(max_charge_per_tick as i64)) });
                ms.push(Member { key: String::from_str("maxCapacity"), value: Json::Number(integer_text(max_capacity as i64)) });
            },
        }
        Json::Object(ms)
    }
}

/// A member with the given key and a string value with the given text.
pub open spec fn str_member(m: Member, k: Seq<char>, s: Seq<char>) -> bool {
    m.key@ == k && match m.value {
        Json::Str(t) => t@ == s,
        _ => false,
    }
}

/// A member with the given key and a number value that writes the given integer.
pub open spec fn int_member(m: Member, k: Seq<char>, v: int) -> bool {
    m.key@ == k && match m.value {
        Json::Number(t) => t@ == int_text(v),
        _ => false,
    }
}

/// The wire form of a device: `name`, then `type`, then the variant's fields.
pub open spec fn device_encoded(d: DeviceV, j: Json) -> bool {
    match j {
        Json::Object(ms) => ms@.len() >= 2 && str_member(ms@[0], "name"@, d.name) && match d.device_type {
            DeviceType::SolarPanel => ms@.len() == 2 && str_member(ms@[1], "type"@, "SolarPanel"@),
            DeviceType::StableDevice { produces } => ms@.len() == 3 && str_member(
                ms@[1],
                "type"@,
                "StableDevice"@,
            ) && int_member(ms@[2], "produces"@, produces as int),
            DeviceType::Store { max_charge_per_tick, max_capacity } => ms@.len() == 4 && str_member(
                ms@[1],
                "type"@,
                "Store"@,
            ) && int_member(ms@[2], "maxChargePerTick"@, max_charge_per_tick as int) && int_member(
                ms@[3],
                "maxCapacity"@,
                max_capacity as int,
            ),
        },
        _ => false,
    }
}

/// The wire form of a simulation: `startTime`, `endTime`, then `devices` in order.
pub open spec fn simulation_encoded(v: SimulationV, j: Json) -> bool {
    match j {
        Json::Object(ms) => ms@.len() == 3 && str_member(ms@[0], "startTime"@, v.start_time)
            && str_member(ms@[1], "endTime"@, v.end_time) && ms@[2].key@ == "devices"@
            && match ms@[2].value {
            Json::Array(items) => items@.len() == v.devices.len() && forall|k: int|
                0 <= k < items@.len() ==> device_encoded(v.devices[k], #[trigger] items@[k]),
            _ => false,
        },
        _ => false,
    }
}

proof fn lemma_member_skip(f: Seq<Member>, k: Seq<char>)
    requires
        f.len() > 0,
        f[0].key@ != k,
    ensures
        member(f, k) == member(f.drop_first(), k),
{
}

proof fn lemma_int_member_reads(fields: Seq<Member>, i: int, f: Field, v: int, lo: int, hi: int)
    requires
        0 <= i < fields.len(),
        int_member(fields[i], key_of(f), v),
        member(fields, key_of(f)) == Some(fields[i].value),
        lo <= v <= hi,
    ensures
        int_of(fields, f, lo, hi) == Ok::<int, DecodeError>(v),
{
    lemma_int_text_reads_back(v);
}

/// A device read back from its wire form is the device that was written.
pub proof fn lemma_device_round_trip(d: DeviceV, j: Json)
    requires
        device_encoded(d, j),
    ensures
        device_of(j) == Ok::<DeviceV, DecodeError>(d),
{
    reveal_strlit("name");
    reveal_strlit("type");
    reveal_strlit("produces");
    reveal_strlit("maxChargePerTick");
    reveal_strlit("maxCapacity");
    reveal_strlit("SolarPanel");
    reveal_strlit("StableDevice");
    reveal_strlit("Store");
    if let Json::Object(ms) = j {
        let f = ms@;
        let f1 = f.drop_first();
        let f2 = f1.drop_first();
        assert(f1[0] == f[1]);
        assert("name"@[0] != "type"@[0]);
        assert(member(f, "name"@) == Some(f[0].value));
        lemma_member_skip(f, "type"@);
        assert(member(f, "type"@) == Some(f[1].value));
        assert("SolarPanel"@.len() != "StableDevice"@.len());
        assert("SolarPanel"@.len() != "Store"@.len());
        assert("StableDevice"@.len() != "Store"@.len());
        match d.device_type {
            DeviceType::SolarPanel => {},
            DeviceType::StableDevice { produces } => {
                assert(f2[0] == f[2]);
                assert("name"@[0] != "produces"@[0]);
                assert("type"@[0] != "produces"@[0]);
                lemma_member_skip(f, "produces"@);
                lemma_member_skip(f1, "produces"@);
                assert(member(f, "produces"@) == Some(f[2].value));
                lemma_int_member_reads(f, 2, Field::Produces, produces as int, i32::MIN as int, i32::MAX as int);
            },
            DeviceType::Store { max_charge_per_tick, max_capacity } => {
                assert(f2[0] == f[2]);
                assert(f2.drop_first()[0] == f[3]);
                assert("name"@[0] != "maxChargePerTick"@[0]);
                assert("type"@[0] != "maxChargePerTick"@[0]);
                assert("name"@[0] != "maxCapacity"@[0]);
                assert("type"@[0] != "maxCapacity"@[0]);
                assert("maxChargePerTick"@[4] != "maxCapacity"@[4]);
                lemma_member_skip(f, "maxChargePerTick"@);
                lemma_member_skip(f1, "maxChargePerTick"@);
                lemma_member_skip(f, "maxCapacity"@);
                lemma_member_skip(f1, "maxCapacity"@);
                lemma_member_skip(f2, "maxCapacity"@);
                assert(member(f, "maxChargePerTick"@) == Some(f[2].value));
                assert(member(f, "maxCapacity"@) == Some(f[3].value));
                lemma_int_member_reads(f, 2, Field::MaxChargePerTick, max_charge_per_tick as int, 0, u32::MAX as int);
                lemma_int_member_reads(f, 3, Field::MaxCapacity, max_capacity as int, 0, u32::MAX as int);
            },
        }
        assert(device_type_of(f) == Ok::<DeviceType, DecodeError>(d.device_type));
        assert(str_of(f, Field::Name) == Ok::<Seq<char>, DecodeError>(d.name));
    }
}

proof fn lemma_devices_round_trip(ds: Seq<DeviceV>, items: Seq<Json>, n: int)
    requires
        items.len() == ds.len(),
        0 <= n <= items.len(),
        forall|k: int| 0 <= k < items.len() ==> device_encoded(ds[k], #[trigger] items[k]),
    ensures
        devices_of(items.subrange(0, n)) == Ok::<Seq<DeviceV>, DecodeError>(ds.subrange(0, n)),
    decreases n,
{
    if n == 0 {
        assert(items.subrange(0, 0) =~= Seq::<Json>::empty());
        assert(ds.subrange(0, 0) =~= Seq::<DeviceV>::empty());
    } else {
        lemma_devices_round_trip(ds, items, n - 1);
        let p = items.subrange(0, n);
        assert(p.drop_last() =~= items.subrange(0, n - 1));
        assert(p.last() == items[n - 1]);
        lemma_device_round_trip(ds[n - 1], items[n - 1]);
        assert(ds.subrange(0, n - 1).push(ds[n - 1]) =~= ds.subrange(0, n));
    }
}

/// Reading back the wire form of a simulation gives the simulation that was written, for
/// every kind of device.
pub proof fn lemma_round_trip(sim: Simulation, j: Json)
    requires
        sim.wf(),
        simulation_encoded(sim@, j),
    ensures
        simulation_of(j) == Ok::<SimulationV, DecodeError>(sim@),
{
    reveal_strlit("startTime");
    reveal_strlit("endTime");
    reveal_strlit("devices");
    let v = sim@;
    if let Json::Object(ms) = j {
        let f = ms@;
        let f1 = f.drop_first();
        assert(f1[0] == f[1]);
        assert(f1.drop_first()[0] == f[2]);
        assert("startTime"@[0] != "endTime"@[0]);
        assert("startTime"@[0] != "devices"@[0]);
        assert("endTime"@[0] != "devices"@[0]);
        lemma_member_skip(f, "endTime"@);
        lemma_member_skip(f, "devices"@);
        lemma_member_skip(f1, "devices"@);
        assert(member(f, "startTime"@) == Some(f[0].value));
        assert(member(f, "endTime"@) == Some(f[1].value));
        assert(member(f, "devices"@) == Some(f[2].value));
        if let Json::Array(items) = f[2].value {
            lemma_devices_round_trip(v.devices, items@, items@.len() as int);
            assert(items@.subrange(0, items@.len() as int) =~= items@);
            assert(v.devices.subrange(0, v.devices.len() as int) =~= v.devices);
        }
    }
}

/// A device whose `type` discriminator names none of the known kinds does not decode, and
/// the error says so.
pub proof fn lemma_unknown_discriminator_rejected(j: Json, t: Seq<char>)
    requires
        j is Object,
        str_of(j->Object_0@, Field::Type) == Ok::<Seq<char>, DecodeError>(t),
        t != "SolarPanel"@,
        t != "StableDevice"@,
        t != "Store"@,
    ensures
        device_of(j) is Err,
        str_of(j->Object_0@, Field::Name) is Ok ==> device_of(j) == Err::<DeviceV, DecodeError>(
            DecodeError::UnknownDeviceType,
        ),
{
}

} // verus!
