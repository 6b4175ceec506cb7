use vstd::prelude::*;

use crate::domain::DeviceName;
use crate::json::{parse_json, parsed_json, Json};
use crate::simulation::{
    self, field_of, get_field, get_int, get_str, int_of, str_of, DecodeError, Field,
};

verus! {

/// The identifier that the uuid crate reads from a text, as its 128-bit value, or `None`
/// where the text is no UUID.
pub uninterp spec fn uuid_of_text(s: Seq<char>) -> Option<u128>;

/// The text that the uuid crate prints for an identifier.
pub uninterp spec fn text_of_uuid(v: u128) -> Seq<char>;

/// Relies on uuid::Uuid::parse_str, read back with `as_u128`: the value depends on the text
/// alone.
#[verifier::external_body]
fn parse_uuid(s: &str) -> (r: Option<u128>)
    ensures
        r == uuid_of_text(s@),
{
    uuid::Uuid::parse_str(s).ok().map(|u| u.as_u128())
}

/// Relies on the `Display` of uuid::Uuid, made with `from_u128`: the text depends on the value
/// alone.
#[verifier::external_body]
fn uuid_text(v: u128) -> (r: String)
    ensures
        r@ == text_of_uuid(v),
{
    uuid::Uuid::from_u128(v).to_string()
}

/// The smallest millisecond count since the Unix epoch that jiff accepts as an instant.
pub const MIN_MILLISECOND: i64 = -377705023201000;

/// The largest millisecond count since the Unix epoch that jiff accepts as an instant.
pub const MAX_MILLISECOND: i64 = 253402207200000;

/// Relies on jiff::Timestamp::from_millisecond, which fails exactly outside
/// `Timestamp::MIN..=Timestamp::MAX`, that is `-377705023201000..=253402207200000` ms.
#[verifier::external_body]
fn millisecond_is_instant(ms: i64) -> (r: bool)
    ensures
        r == (MIN_MILLISECOND <= ms <= MAX_MILLISECOND),
{
    jiff::Timestamp::from_millisecond(ms).is_ok()
}

/// The opaque identifier that the backend gives a simulation.
#[derive(Debug, Clone, Copy, PartialEq, Eq)]
pub struct Id {
    pub value: u128,
}

impl Id {
    /// Reads an identifier from its UUID text.
    pub fn parse(s: &str) -> (r: Option<Id>)
        ensures
            r is Some <==> uuid_of_text(s@) is Some,
            r is Some ==> r->0.value == uuid_of_text(s@)->0,
    {
        match parse_uuid(s) {
            Some(value) => Some(Id { value }),
            None => None,
        }
    }

    /// The identifier as UUID text.
    pub fn to_text(&self) -> (r: String)
        ensures
            r@ == text_of_uuid(self.value),
    {
        uuid_text(self.value)
    }

    pub fn eq(&self, other: &Id) -> (r: bool)
        ensures
            r == (self == other),
    {
        self.value == other.value
    }
}

/// One row of the list of simulations: the identifier and the creation time, in
/// milliseconds since the Unix epoch.
#[derive(Debug, Clone, Copy, PartialEq, Eq)]
pub struct SimulationOverview {
    pub id: Id,
    pub timestamp: i64,
}

/// The computed net energy balance, in watt hours.
#[derive(Debug, Clone, Copy, PartialEq, Eq)]
pub struct Report {
    pub result: i64,
}

/// A simulation as the backend reports it: the names of its devices and its result.
#[derive(Debug, Clone, PartialEq, Eq)]
pub struct Simulation {
    pub devices: Vec<DeviceName>,
    pub res: Report,
}

/// The backend's acknowledgement of a submission.
#[derive(Debug, Clone, Copy, PartialEq, Eq)]
pub struct SubmittedSimulation {
    pub id: Id,
    pub report: Report,
}

/// Why a call to the backend failed.
#[derive(Debug, Clone, Copy, PartialEq, Eq)]
pub enum ClientError {
    /// The connection failed, or the response could not be read.
    Transport,
    /// The backend does not know the resource (status 404).
    NotFound,
    /// Any other status outside `200..=299`.
    Remote(u16),
    /// The body does not have the expected shape.
    Decode(DecodeError),
}

/// The HTTP methods that the backend's interface uses.
#[derive(Debug, Clone, Copy, PartialEq, Eq)]
pub enum Method {
    Get,
    Put,
}

/// One request to the backend: a path below its endpoint and, for a submission, a JSON body.
#[derive(Debug, Clone, PartialEq, Eq)]
pub struct Request {
    pub method: Method,
    pub path: String,
    pub body: Option<String>,
}

/// What came back from the backend: the status and the body text, or a transport failure.
#[derive(Debug, Clone, PartialEq, Eq)]
pub enum Response {
    Received { status: u16, body: String },
    Failed,
}

// ---- paths ----

pub open spec fn simulation_path(id: Id) -> Seq<char> {
    "/simulation/"@ + text_of_uuid(id.value)
}

fn get(path: String) -> (r: Request)
    ensures
        r.method == Method::Get,
        r.path@ == path@,
        r.body is None,
{
    Request { method: Method::Get, path, body: None }
}

fn path_of(id: Id) -> (r: String)
    ensures
        r@ == simulation_path(id),
{
    let mut p = String::from_str("/simulation/");
    p.append(id.to_text().as_str());
    p
}

/// `GET /simulation`: the list of all simulations.
pub fn fetch_all_simulations_request() -> (r: Request)
    ensures
        r.method == Method::Get,
        r.path@ == "/simulation"@,
        r.body is None,
{
    get(String::from_str("/simulation"))
}

/// `GET /simulation/{id}`: one simulation.
pub fn fetch_simulation_request(id: Id) -> (r: Request)
    ensures
        r.method == Method::Get,
        r.path@ == simulation_path(id),
        r.body is None,
{
    get(path_of(id))
}

/// `GET /simulation/{id}/source`: the configuration as it was submitted.
pub fn fetch_simulation_source_request(id: Id) -> (r: Request)
    ensures
        r.method == Method::Get,
        r.path@ == simulation_path(id) + "/source"@,
        r.body is None,
{
    let mut p = path_of(id);
    p.append("/source");
    get(p)
}

/// `GET /simulation/{id}/log`: the log of all devices.
pub fn fetch_simulation_log_request(id: Id) -> (r: Request)
    ensures
        r.method == Method::Get,
        r.path@ == simulation_path(id) + "/log"@,
        r.body is None,
{
    let mut p = path_of(id);
    p.append("/log");
    get(p)
}

/// `GET /simulation/{id}/log/{device_name}`: the log of one device.
pub fn fetch_simulation_log_by_device_request(id: Id, device_name: &DeviceName) -> (r: Request)
    ensures
        r.method == Method::Get,
        r.path@ == simulation_path(id) + "/log/"@ + device_name@,
        r.body is None,
{
    let mut p = path_of(id);
    p.append("/log/");
    p.append(device_name.as_str());
    get(p)
}

/// `PUT /simulation` with the simulation's wire form as body.
pub fn submit_simulation_request(sim: &simulation::Simulation) -> (r: Request)
    ensures
        r.method == Method::Put,
        r.path@ == "/simulation"@,
        r.body is Some,
        exists|j: Json|
            simulation::simulation_encoded(sim@, j) && r.body->0@ == crate::json::json_text(j),
{
    Request {
        method: Method::Put,
        path: String::from_str("/simulation"),
        body: Some(sim.to_json_text()),
    }
}

// ---- responses ----

/// The error, if any, that a status stands for.
pub open spec fn status_error(status: u16) -> Option<ClientError> {
    if 200 <= status <= 299 {
        None
    } else if status == 404 {
        Some(ClientError::NotFound)
    } else {
        Some(ClientError::Remote(status))
    }
}

/// The body of a successful response, or the failure that it stands for.
pub open spec fn body_of(resp: Response) -> Result<Seq<char>, ClientError> {
    match resp {
        Response::Failed => Err(ClientError::Transport),
        Response::Received { status, body } => match status_error(status) {
            Some(e) => Err(e),
            None => Ok(body@),
        },
    }
}

/// The body of a successful response as JSON, or the failure that it stands for.
pub open spec fn json_of(resp: Response) -> Result<Json, ClientError> {
    match body_of(resp) {
        Err(e) => Err(e),
        Ok(b) => match parsed_json(b) {
            None => Err(ClientError::Decode(DecodeError::NotJson)),
            Some(j) => Ok(j),
        },
    }
}

/// Reads the body of a response as text; no body is read from a failed status.
pub fn read_text(resp: &Response) -> (r: Result<String, ClientError>)
    ensures
        match r {
            Ok(s) => body_of(*resp) == Ok::<Seq<char>, ClientError>(s@),
            Err(e) => body_of(*resp) == Err::<Seq<char>, ClientError>(e),
        },
{
    match resp {
        Response::Failed => Err(ClientError::Transport),
        Response::Received { status, body } => {
            if 200 <= *status && *status <= 299 {
                Ok(body.clone())
            } else if *status == 404 {
                Err(ClientError::NotFound)
            } else {
                Err(ClientError::Remote(*status))
            }
        },
    }
}

fn read_json(resp: &Response) -> (r: Result<Json, ClientError>)
    ensures
        match r {
            Ok(j) => json_of(*resp) == Ok::<Json, ClientError>(j),
            Err(e) => json_of(*resp) == Err::<Json, ClientError>(e),
        },
{
    match read_text(resp) {
        Err(e) => Err(e),
        Ok(b) => match parse_json(b.as_str()) {
            None => Err(ClientError::Decode(DecodeError::NotJson)),
            Some(j) => Ok(j),
        },
    }
}

/// The report that a JSON value describes.
pub open spec fn report_of(j: Json, f: Field) -> Result<Report, DecodeError> {
    match j {
        Json::Object(fields) => match int_of(fields@, Field::Result, i64::MIN as int, i64::MAX as int) {
            Ok(v) => Ok(Report { result: v as i64 }),
            Err(e) => Err(e),
        },
        _ => Err(DecodeError::WrongKind(f)),
    }
}

/// The identifier in a field, which must be UUID text.
pub open spec fn id_of(fields: Seq<crate::json::Member>) -> Result<Id, DecodeError> {
    match str_of(fields, Field::Id) {
        Err(e) => Err(e),
        Ok(s) => match uuid_of_text(s) {
            Some(v) => Ok(Id { value: v }),
            None => Err(DecodeError::InvalidId),
        },
    }
}

/// The overview row that a JSON value describes.
pub open spec fn overview_of(j: Json) -> Result<SimulationOverview, DecodeError> {
    match j {
        Json::Object(fields) => match id_of(fields@) {
            Err(e) => Err(e),
            Ok(id) => match int_of(fields@, Field::Timestamp, i64::MIN as int, i64::MAX as int) {
                Err(e) => Err(e),
                Ok(t) => if MIN_MILLISECOND <= t <= MAX_MILLISECOND {
                    Ok(SimulationOverview { id, timestamp: t as i64 })
                } else {
                    Err(DecodeError::InvalidTimestamp(Field::Timestamp))
                },
            },
        },
        _ => Err(DecodeError::WrongShape),
    }
}

/// The overview rows that a sequence of JSON values describes; the first failure wins.
pub open spec fn overviews_of(items: Seq<Json>) -> Result<Seq<SimulationOverview>, DecodeError>
    decreases items.len(),
{
    if items.len() == 0 {
        Ok(Seq::empty())
    } else {
        match overviews_of(items.drop_last()) {
            Err(e) => Err(e),
            Ok(os) => match overview_of(items.last()) {
                Err(e) => Err(e),
                Ok(o) => Ok(os.push(o)),
            },
        }
    }
}

/// The device names that a sequence of JSON values lists; the first failure wins.
pub open spec fn names_of(items: Seq<Json>) -> Result<Seq<Seq<char>>, DecodeError>
    decreases items.len(),
{
    if items.len() == 0 {
        Ok(Seq::empty())
    } else {
        match names_of(items.drop_last()) {
            Err(e) => Err(e),
            Ok(ns) => match items.last() {
                Json::Str(s) => Ok(ns.push(s@)),
                _ => Err(DecodeError::WrongKind(Field::Devices)),
            },
        }
    }
}

/// The simulation detail that a JSON value describes.
pub open spec fn detail_of(j: Json) -> Result<(Seq<Seq<char>>, Report), DecodeError> {
    match j {
        Json::Object(fields) => match field_of(fields@, Field::Devices) {
            Err(e) => Err(e),
            Ok(Json::Array(items)) => match names_of(items@) {
                Err(e) => Err(e),
                Ok(ns) => match field_of(fields@, Field::Res) {
                    Err(e) => Err(e),
                    Ok(rj) => match report_of(rj, Field::Res) {
                        Err(e) => Err(e),
                        Ok(rep) => Ok((ns, rep)),
                    },
                },
            },
            Ok(_) => Err(DecodeError::WrongKind(Field::Devices)),
        },
        _ => Err(DecodeError::WrongShape),
    }
}

/// The acknowledgement that a JSON value describes.
pub open spec fn submitted_of(j: Json) -> Result<SubmittedSimulation, DecodeError> {
    match j {
        Json::Object(fields) => match id_of(fields@) {
            Err(e) => Err(e),
            Ok(id) => match field_of(fields@, Field::Report) {
                Err(e) => Err(e),
                Ok(rj) => match report_of(rj, Field::Report) {
                    Err(e) => Err(e),
                    Ok(report) => Ok(SubmittedSimulation { id, report }),
                },
            },
        },
        _ => Err(DecodeError::WrongShape),
    }
}

/// Lifts a decoding result into the failures of a call.
pub open spec fn lift<T>(r: Result<T, DecodeError>) -> Result<T, ClientError> {
    match r {
        Ok(v) => Ok(v),
        Err(e) => Err(ClientError::Decode(e)),
    }
}

/// The overview rows that a JSON value lists.
pub open spec fn overview_list_of(j: Json) -> Result<Seq<SimulationOverview>, DecodeError> {
    match j {
        Json::Array(items) => overviews_of(items@),
        _ => Err(DecodeError::WrongShape),
    }
}

/// What the response to `GET /simulation` gives.
pub open spec fn overviews_response(resp: Response) -> Result<Seq<SimulationOverview>, ClientError> {
    match json_of(resp) {
        Err(e) => Err(e),
        Ok(j) => lift(overview_list_of(j)),
    }
}

/// What the response to `GET /simulation/{id}` gives.
pub open spec fn detail_response(resp: Response) -> Result<(Seq<Seq<char>>, Report), ClientError> {
    match json_of(resp) {
        Err(e) => Err(e),
        Ok(j) => lift(detail_of(j)),
    }
}

/// What the response to `PUT /simulation` gives.
pub open spec fn submitted_response(resp: Response) -> Result<SubmittedSimulation, ClientError> {
    match json_of(resp) {
        Err(e) => Err(e),
        Ok(j) => lift(submitted_of(j)),
    }
}

fn read_report(j: &Json, f: Field) -> (r: Result<Report, DecodeError>)
    ensures
        r == report_of(*j, f),
{
    match j {
        Json::Object(fields) => match get_int(fields, Field::Result, i64::MIN, i64::MAX) {
            Ok(v) => Ok(Report { result: v }),
            Err(e) => Err(e),
        },
        _ => Err(DecodeError::WrongKind(f)),
    }
}

fn read_id(fields: &Vec<crate::json::Member>) -> (r: Result<Id, DecodeError>)
    ensures
        r == id_of(fields@),
{
    match get_str(fields, Field::Id) {
        Err(e) => Err(e),
        Ok(s) => match Id::parse(s.as_str()) {
            Some(id) => Ok(id),
            None => Err(DecodeError::InvalidId),
        },
    }
}

impl SimulationOverview {
    /// Reads one row: `id` as UUID text and `timestamp` as milliseconds since the epoch.
    pub fn from_json(j: &Json) -> (r: Result<SimulationOverview, DecodeError>)
        ensures
            r == overview_of(*j),
    {
        match j {
            Json::Object(fields) => match read_id(fields) {
                Err(e) => Err(e),
                Ok(id) => match get_int(fields, Field::Timestamp, i64::MIN, i64::MAX) {
                    Err(e) => Err(e),
                    Ok(t) => if millisecond_is_instant(t) {
                        Ok(SimulationOverview { id, timestamp: t })
                    } else {
                        Err(DecodeError::InvalidTimestamp(Field::Timestamp))
                    },
                },
            },
            _ => Err(DecodeError::WrongShape),
        }
    }
}

/// Reads the response to `GET /simulation`, in the backend's order.
pub fn read_overviews(resp: &Response) -> (r: Result<Vec<SimulationOverview>, ClientError>)
    ensures
        match r {
            Ok(v) => overviews_response(*resp) == Ok::<Seq<SimulationOverview>, ClientError>(v@),
            Err(e) => overviews_response(*resp) == Err::<Seq<SimulationOverview>, ClientError>(e),
        },
{
    let j = match read_json(resp) {
        Err(e) => return Err(e),
        Ok(j) => j,
    };
    let items = match &j {
        Json::Array(items) => items,
        _ => return Err(ClientError::Decode(DecodeError::WrongShape)),
    };
    let mut out: Vec<SimulationOverview> = Vec::new();
    let mut i: usize = 0;
    assert(items@.subrange(0, 0) =~= Seq::<Json>::empty());
    while i < items.len()
        invariant
            0 <= i <= items@.len(),
            overviews_of(items@.subrange(0, i as int)) == Ok::<Seq<SimulationOverview>, DecodeError>(out@),
            overview_list_of(j) == overviews_of(items@),
            json_of(*resp) == Ok::<Json, ClientError>(j),
        decreases items.len() - i,
    {
        let ghost prefix = items@.subrange(0, i + 1);
        assert(prefix.drop_last() =~= items@.subrange(0, i as int));
        assert(prefix.last() == items@[i as int]);
        match SimulationOverview::from_json(&items[i]) {
            Err(e) => {
                proof {
                    assert(overviews_of(prefix) == Err::<Seq<SimulationOverview>, DecodeError>(e));
                    lemma_overviews_err_extends(items@, i + 1);
                    assert(overview_list_of(j) == Err::<Seq<SimulationOverview>, DecodeError>(e));
                }
                return Err(ClientError::Decode(e));
            },
            Ok(o) => out.push(o),
        }
        i = i + 1;
    }
    assert(items@.subrange(0, items@.len() as int) =~= items@);
    Ok(out)
}

proof fn lemma_overviews_err_extends(items: Seq<Json>, i: int)
    requires
        0 <= i <= items.len(),
        overviews_of(items.subrange(0, i)) is Err,
    ensures
        overviews_of(items) == overviews_of(items.subrange(0, i)),
    decreases items.len() - i,
{
    if i < items.len() {
        let p = items.subrange(0, i + 1);
        assert(p.drop_last() =~= items.subrange(0, i));
        lemma_overviews_err_extends(items, i + 1);
    } else {
        assert(items.subrange(0, i) =~= items);
    }
}

proof fn lemma_names_err_extends(items: Seq<Json>, i: int)
    requires
        0 <= i <= items.len(),
        names_of(items.subrange(0, i)) is Err,
    ensures
        names_of(items) == names_of(items.subrange(0, i)),
    decreases items.len() - i,
{
    if i < items.len() {
        let p = items.subrange(0, i + 1);
        assert(p.drop_last() =~= items.subrange(0, i));
        lemma_names_err_extends(items, i + 1);
    } else {
        assert(items.subrange(0, i) =~= items);
    }
}

fn read_names(items: &Vec<Json>) -> (r: Result<Vec<DeviceName>, DecodeError>)
    ensures
        match r {
            Ok(ns) => names_of(items@) == Ok::<Seq<Seq<char>>, DecodeError>(
                ns@.map_values(|n: DeviceName| n@),
            ),
            Err(e) => names_of(items@) == Err::<Seq<Seq<char>>, DecodeError>(e),
        },
{
    let mut out: Vec<DeviceName> = Vec::new();
    let mut i: usize = 0;
    assert(items@.subrange(0, 0) =~= Seq::<Json>::empty());
    assert(out@.map_values(|n: DeviceName| n@) =~= Seq::<Seq<char>>::empty());
    while i < items.len()
        invariant
            0 <= i <= items@.len(),
            names_of(items@.subrange(0, i as int)) == Ok::<Seq<Seq<char>>, DecodeError>(
                out@.map_values(|n: DeviceName| n@),
            ),
        decreases items.len() - i,
    {
        let ghost prefix = items@.subrange(0, i + 1);
        assert(prefix.drop_last() =~= items@.subrange(0, i as int));
        assert(prefix.last() == items@[i as int]);
        match &items[i] {
            Json::Str(s) => {
                let ghost before = out@;
                let n = DeviceName::new(s.clone());
                let ghost nv = n@;
                out.push(n);
                assert(out@.map_values(|n: DeviceName| n@) =~= before.map_values(
                    |n: DeviceName| n@,
                ).push(nv));
            },
            _ => {
                proof {
                    lemma_names_err_extends(items@, i + 1);
                }
                return Err(DecodeError::WrongKind(Field::Devices));
            },
        }
        i = i + 1;
    }
    assert(items@.subrange(0, items@.len() as int) =~= items@);
    Ok(out)
}

impl Simulation {
    /// Reads a simulation detail: `devices` as a list of names and `res` as a report.
    pub fn from_json(j: &Json) -> (r: Result<Simulation, DecodeError>)
        ensures
            match r {
                Ok(s) => detail_of(*j) == Ok::<(Seq<Seq<char>>, Report), DecodeError>(
                    (s.devices@.map_values(|n: DeviceName| n@), s.res),
                ),
                Err(e) => detail_of(*j) == Err::<(Seq<Seq<char>>, Report), DecodeError>(e),
            },
    {
        match j {
            Json::Object(fields) => match get_field(fields, Field::Devices) {
                Err(e) => Err(e),
                Ok(Json::Array(items)) => match read_names(items) {
                    Err(e) => Err(e),
                    Ok(devices) => match get_field(fields, Field::Res) {
                        Err(e) => Err(e),
                        Ok(rj) => match read_report(rj, Field::Res) {
                            Err(e) => Err(e),
                            Ok(res) => Ok(Simulation { devices, res }),
                        },
                    },
                },
                Ok(_) => Err(DecodeError::WrongKind(Field::Devices)),
            },
            _ => Err(DecodeError::WrongShape),
        }
    }
}

impl SubmittedSimulation {
    /// Reads an acknowledgement: `id` as UUID text and `report` as a report.
    pub fn from_json(j: &Json) -> (r: Result<SubmittedSimulation, DecodeError>)
        ensures
            r == submitted_of(*j),
    {
        match j {
            Json::Object(fields) => match read_id(fields) {
                Err(e) => Err(e),
                Ok(id) => match get_field(fields, Field::Report) {
                    Err(e) => Err(e),
                    Ok(rj) => match read_report(rj, Field::Report) {
                        Err(e) => Err(e),
                        Ok(report) => Ok(SubmittedSimulation { id, report }),
                    },
                },
            },
            _ => Err(DecodeError::WrongShape),
        }
    }
}

/// Reads the response to `GET /simulation/{id}`.
pub fn read_simulation(resp: &Response) -> (r: Result<Simulation, ClientError>)
    ensures
        match r {
            Ok(s) => detail_response(*resp) == Ok::<
                (Seq<Seq<char>>, Report),
                ClientError,
            >((s.devices@.map_values(|n: DeviceName| n@), s.res)),
            Err(e) => detail_response(*resp) == Err::<
                (Seq<Seq<char>>, Report),
                ClientError,
            >(e),
        },
{
    match read_json(resp) {
        Err(e) => Err(e),
        Ok(j) => match Simulation::from_json(&j) {
            Ok(s) => Ok(s),
            Err(e) => Err(ClientError::Decode(e)),
        },
    }
}

/// Reads the response to `PUT /simulation`.
pub fn read_submitted(resp: &Response) -> (r: Result<SubmittedSimulation, ClientError>)
    ensures
        r == submitted_response(*resp),
{
    match read_json(resp) {
        Err(e) => Err(e),
        Ok(j) => match SubmittedSimulation::from_json(&j) {
            Ok(s) => Ok(s),
            Err(e) => Err(ClientError::Decode(e)),
        },
    }
}

/// A status of 404 fails as `NotFound`, never as a transport failure.
pub proof fn lemma_not_found_is_distinct(body: String)
    ensures
        body_of(Response::Received { status: 404, body }) == Err::<Seq<char>, ClientError>(
            ClientError::NotFound,
        ),
        body_of(Response::Received { status: 404, body }) != Err::<Seq<char>, ClientError>(
            ClientError::Transport,
        ),
{
}

/// Reading a simulation twice gives the same value where the backend answered the same both
/// times: the result depends on the status class and the body alone.
pub proof fn lemma_repeated_reads_agree(r1: Response, r2: Response)
    requires
        body_of(r1) == body_of(r2),
    ensures
        detail_response(r1) == detail_response(r2),
        overviews_response(r1) == overviews_response(r2),
        submitted_response(r1) == submitted_response(r2),
{
}

} // verus!
