use ha_ui::api::{
    self, fetch_all_simulations_request, fetch_simulation_log_by_device_request,
    fetch_simulation_log_request, fetch_simulation_request, fetch_simulation_source_request,
    read_overviews, read_simulation, read_submitted, read_text, submit_simulation_request,
    ClientError, Id, Method, Response, SimulationOverview,
};
use ha_ui::app::{
    reply_message, sort_newest_first, AppError, AppModel, ContextPage, MenuAction, Message,
    Reply, Task, DEFAULT_SIMULATION,
};
use ha_ui::domain::DeviceName;
use ha_ui::json::{integer_text, parse_json, pretty_json, read_integer, to_json_text, Json};
use ha_ui::simulation::{DecodeError, Device, DeviceType, Field, Simulation, Timestamp};

const ID_A: &str = "67e55044-10b1-426f-9247-bb680e5fe0c8";
const ID_B: &str = "a1a2a3a4-b1b2-c1c2-d1d2-d3d4d5d6d7d8";

fn id(s: &str) -> Id {
    Id::parse(s).unwrap()
}

fn ok_response(body: &str) -> Response {
    Response::Received { status: 200, body: body.to_string() }
}

fn device(name: &str, device_type: DeviceType) -> Device {
    Device { name: DeviceName::new(name.to_string()), device_type }
}

fn sample(devices: Vec<Device>) -> Simulation {
    Simulation {
        start_time: Timestamp::parse("2024-01-01T00:00:00Z").unwrap(),
        end_time: Timestamp::parse("2024-01-02T12:30:00Z").unwrap(),
        devices,
    }
}

fn detail(name: &str, result: i64) -> api::Simulation {
    api::Simulation { devices: vec![DeviceName::new(name.to_string())], res: api::Report { result } }
}

#[test]
fn deserialize_sample_config_works() {
    let _: Simulation = Simulation::from_json_text(DEFAULT_SIMULATION).unwrap();
}

#[test]
fn round_trip_keeps_every_device_kind() {
    let sim = sample(vec![
        device("roof", DeviceType::SolarPanel),
        device("idle", DeviceType::StableDevice { produces: 0 }),
        device("heater", DeviceType::StableDevice { produces: -2500 }),
        device("empty", DeviceType::Store { max_charge_per_tick: 7, max_capacity: 0 }),
        device("big", DeviceType::Store { max_charge_per_tick: u32::MAX, max_capacity: u32::MAX }),
        device("min", DeviceType::StableDevice { produces: i32::MIN }),
    ]);
    let text = sim.to_json_text();
    let back = Simulation::from_json_text(&text).unwrap();
    assert_eq!(back, sim);
}

#[test]
fn wire_form_is_flat_and_camel_case() {
    let sim = sample(vec![device("b", DeviceType::Store { max_charge_per_tick: 3, max_capacity: 9 })]);
    let text = sim.to_json_text();
    assert_eq!(
        text,
        "{\"devices\":[{\"maxCapacity\":9,\"maxChargePerTick\":3,\"name\":\"b\",\"type\":\"Store\"}],\"endTime\":\"2024-01-02T12:30:00Z\",\"startTime\":\"2024-01-01T00:00:00Z\"}"
    );
}

#[test]
fn unknown_discriminator_is_rejected() {
    let j = parse_json("{\"name\": \"mill\", \"type\": \"Windmill\"}").unwrap();
    assert_eq!(Device::from_json(&j), Err(DecodeError::UnknownDeviceType));
}

#[test]
fn missing_discriminator_is_rejected() {
    let j = parse_json("{\"name\": \"mill\"}").unwrap();
    assert_eq!(Device::from_json(&j), Err(DecodeError::MissingField(Field::Type)));
}

#[test]
fn variant_field_of_wrong_kind_is_rejected() {
    let j = parse_json("{\"name\": \"x\", \"type\": \"StableDevice\", \"produces\": \"5\"}").unwrap();
    assert_eq!(Device::from_json(&j), Err(DecodeError::WrongKind(Field::Produces)));
    let j = parse_json("{\"name\": \"x\", \"type\": \"StableDevice\", \"produces\": 1.5}").unwrap();
    assert_eq!(Device::from_json(&j), Err(DecodeError::WrongKind(Field::Produces)));
    let j = parse_json("{\"name\": \"x\", \"type\": \"Store\", \"maxChargePerTick\": -1, \"maxCapacity\": 1}").unwrap();
    assert_eq!(Device::from_json(&j), Err(DecodeError::OutOfRange(Field::MaxChargePerTick)));
    let j = parse_json("{\"name\": \"x\", \"type\": \"Store\", \"maxChargePerTick\": 1}").unwrap();
    assert_eq!(Device::from_json(&j), Err(DecodeError::MissingField(Field::MaxCapacity)));
}

#[test]
fn device_fields_decode() {
    let j = parse_json("{\"name\": \"s\", \"type\": \"Store\", \"maxChargePerTick\": 4294967295, \"maxCapacity\": 0}").unwrap();
    assert_eq!(
        Device::from_json(&j),
        Ok(device("s", DeviceType::Store { max_charge_per_tick: 4294967295, max_capacity: 0 }))
    );
}

#[test]
fn invalid_timestamp_is_rejected() {
    let r = Simulation::from_json_text("{\"startTime\": \"yesterday\", \"endTime\": \"2024-01-01T00:00:00Z\", \"devices\": []}");
    assert_eq!(r, Err(DecodeError::InvalidTimestamp(Field::StartTime)));
}

#[test]
fn timestamp_parse_reads_the_instant() {
    let t = Timestamp::parse("1970-01-01T00:01:40.5Z").unwrap();
    assert_eq!(t.as_second(), 100);
    assert_eq!(t.subsec_nanosecond(), 500_000_000);
    assert_eq!(t.as_str(), "1970-01-01T00:01:40.5Z");
    assert!(Timestamp::parse("not a time").is_none());
}

#[test]
fn integers_read_exactly() {
    assert_eq!(read_integer("-42", i64::MIN, i64::MAX), Some(-42));
    assert_eq!(read_integer("9223372036854775807", i64::MIN, i64::MAX), Some(i64::MAX));
    assert_eq!(read_integer("-9223372036854775808", i64::MIN, i64::MAX), Some(i64::MIN));
    assert_eq!(read_integer("9223372036854775808", i64::MIN, i64::MAX), None);
    assert_eq!(read_integer("300", 0, 255), None);
    assert_eq!(read_integer("1e3", i64::MIN, i64::MAX), None);
    assert_eq!(read_integer("", i64::MIN, i64::MAX), None);
    assert_eq!(read_integer("-", i64::MIN, i64::MAX), None);
}

#[test]
fn integers_write_exactly() {
    assert_eq!(integer_text(0), "0");
    assert_eq!(integer_text(-150), "-150");
    assert_eq!(integer_text(i64::MIN), "-9223372036854775808");
    assert_eq!(integer_text(1234567890), "1234567890");
}

#[test]
fn json_text_and_pretty_text() {
    let j = Json::Array(vec![Json::Null, Json::Bool(true), Json::Number("12".to_string())]);
    assert_eq!(to_json_text(&j), "[null,true,12]");
    assert_eq!(pretty_json("{\"a\":[1]}").unwrap(), "{\n  \"a\": [\n    1\n  ]\n}");
    assert!(pretty_json("{not json").is_none());
}

#[test]
fn ids_read_and_print() {
    let a = id(ID_A);
    assert_eq!(a.to_text(), ID_A);
    assert_eq!(a.value, 0x67e5504410b1426f9247bb680e5fe0c8);
    assert!(Id::parse("nope").is_none());
}

#[test]
fn request_paths() {
    let a = id(ID_A);
    let r = fetch_all_simulations_request();
    assert_eq!((r.method, r.path.as_str(), r.body.is_none()), (Method::Get, "/simulation", true));
    assert_eq!(fetch_simulation_request(a).path, format!("/simulation/{ID_A}"));
    assert_eq!(fetch_simulation_source_request(a).path, format!("/simulation/{ID_A}/source"));
    assert_eq!(fetch_simulation_log_request(a).path, format!("/simulation/{ID_A}/log"));
    let name = DeviceName::new("pump".to_string());
    assert_eq!(
        fetch_simulation_log_by_device_request(a, &name).path,
        format!("/simulation/{ID_A}/log/pump")
    );
    let sim = sample(vec![]);
    let put = submit_simulation_request(&sim);
    assert_eq!(put.method, Method::Put);
    assert_eq!(put.path, "/simulation");
    assert_eq!(Simulation::from_json_text(put.body.as_ref().unwrap()), Ok(sim));
}

#[test]
fn device_log_not_found_is_distinct_from_transport() {
    let not_found = Response::Received { status: 404, body: "no such device".to_string() };
    assert_eq!(read_text(&not_found), Err(ClientError::NotFound));
    assert_eq!(read_text(&Response::Failed), Err(ClientError::Transport));
    let failed = Response::Received { status: 500, body: "{}".to_string() };
    assert_eq!(read_text(&failed), Err(ClientError::Remote(500)));
    assert_eq!(read_simulation(&failed), Err(ClientError::Remote(500)));
    assert_eq!(read_text(&ok_response("log line")), Ok("log line".to_string()));
}

#[test]
fn malformed_body_is_a_decode_failure() {
    assert_eq!(read_simulation(&ok_response("<html>")), Err(ClientError::Decode(DecodeError::NotJson)));
    assert_eq!(
        read_simulation(&ok_response("{\"devices\": []}")),
        Err(ClientError::Decode(DecodeError::MissingField(Field::Res)))
    );
}

#[test]
fn repeated_reads_agree() {
    let resp = ok_response("{\"devices\": [\"a\", \"b\"], \"res\": {\"result\": -17}}");
    let first = read_simulation(&resp).unwrap();
    let second = read_simulation(&resp).unwrap();
    assert_eq!(first, second);
    assert_eq!(first.res.result, -17);
    assert_eq!(first.devices.len(), 2);
    assert_eq!(first.devices[1].as_str(), "b");
}

#[test]
fn overviews_and_acknowledgements_decode() {
    let body = format!("[{{\"id\": \"{ID_A}\", \"timestamp\": 100}}, {{\"id\": \"{ID_B}\", \"timestamp\": -5}}]");
    let rows = read_overviews(&ok_response(&body)).unwrap();
    assert_eq!(rows, vec![
        SimulationOverview { id: id(ID_A), timestamp: 100 },
        SimulationOverview { id: id(ID_B), timestamp: -5 },
    ]);
    let too_late = format!("[{{\"id\": \"{ID_A}\", \"timestamp\": 253402207200001}}]");
    assert_eq!(
        read_overviews(&ok_response(&too_late)),
        Err(ClientError::Decode(DecodeError::InvalidTimestamp(Field::Timestamp)))
    );
    let last = format!("[{{\"id\": \"{ID_A}\", \"timestamp\": 253402207200000}}]");
    assert!(read_overviews(&ok_response(&last)).is_ok());
    let bad_id = "[{\"id\": \"x\", \"timestamp\": 1}]";
    assert_eq!(read_overviews(&ok_response(bad_id)), Err(ClientError::Decode(DecodeError::InvalidId)));
    let ack = format!("{{\"id\": \"{ID_B}\", \"report\": {{\"result\": 42}}}}");
    let s = read_submitted(&ok_response(&ack)).unwrap();
    assert_eq!((s.id, s.report.result), (id(ID_B), 42));
}

fn row(ts: i64) -> SimulationOverview {
    SimulationOverview { id: Id { value: ts as u128 }, timestamp: ts }
}

#[test]
fn refresh_sorts_newest_first() {
    let mut app = AppModel::init();
    let task = app.update(Message::SimulationsFetched(Ok(vec![row(100), row(300), row(200)])));
    assert!(matches!(task, Task::Idle));
    let order: Vec<i64> = app.simulations.iter().map(|o| o.timestamp).collect();
    assert_eq!(order, vec![300, 200, 100]);
}

#[test]
fn sort_keeps_equal_times_in_order() {
    let a = SimulationOverview { id: Id { value: 1 }, timestamp: 5 };
    let b = SimulationOverview { id: Id { value: 2 }, timestamp: 5 };
    assert_eq!(sort_newest_first(vec![a, row(9), b]), vec![row(9), a, b]);
    assert_eq!(sort_newest_first(vec![]), vec![]);
}

#[test]
fn stale_log_is_dropped_after_new_selection() {
    let (a, b) = (id(ID_A), id(ID_B));
    let mut app = AppModel::init();
    let task = app.update(Message::SelectSimulation(a));
    assert!(matches!(task, Task::Send(_, Reply::FetchedSimulation(x)) if x == a));
    app.update(Message::FetchedSimulation(a, Ok(detail("x", 1))));
    let task = app.update(Message::ShowAllDeviceLog(a));
    assert!(matches!(task, Task::Send(_, Reply::FetchedText(x)) if x == a));
    app.update(Message::SelectSimulation(b));
    app.update(Message::FetchedSimulation(b, Ok(detail("y", 2))));
    app.update(Message::FetchedText(a, Ok("log of a".to_string())));
    assert_eq!(app.text_display, None);
    assert_eq!(app.selected_simulation, Some((b, detail("y", 2))));
}

#[test]
fn current_log_is_shown() {
    let a = id(ID_A);
    let mut app = AppModel::init();
    app.update(Message::FetchedSimulation(a, Ok(detail("x", 1))));
    app.update(Message::FetchedText(a, Ok("log of a".to_string())));
    assert_eq!(app.text_display, Some("log of a".to_string()));
    let task = app.update(Message::CopyTextToClipboard);
    assert!(matches!(task, Task::CopyToClipboard(t) if t == "log of a"));
}

#[test]
fn source_is_pretty_printed_for_current_selection() {
    let a = id(ID_A);
    let mut app = AppModel::init();
    app.update(Message::FetchedSimulation(a, Ok(detail("x", 1))));
    app.update(Message::FetchedSource(a, Ok("{\"devices\":[]}".to_string())));
    assert_eq!(app.text_display, Some("{\n  \"devices\": []\n}".to_string()));
    app.update(Message::FetchedSource(a, Ok("{broken".to_string())));
    assert_eq!(app.has_error, Some(AppError::Client(ClientError::Decode(DecodeError::NotJson))));
}

#[test]
fn submitting_broken_text_sends_nothing() {
    let mut app = AppModel::init();
    app.update(Message::Edit("{not json".to_string()));
    let task = app.update(Message::Submit);
    assert!(matches!(task, Task::Idle));
    assert_eq!(app.has_error, Some(AppError::Invalid(DecodeError::NotJson)));
}

#[test]
fn submitting_without_devices_sends_nothing() {
    let mut app = AppModel::init();
    app.update(Message::ReplaceEditorContent(
        "{\"startTime\": \"2024-01-01T00:00:00Z\", \"endTime\": \"2024-01-02T00:00:00Z\"}".to_string(),
    ));
    let task = app.update(Message::Submit);
    assert!(matches!(task, Task::Idle));
    assert_eq!(app.has_error, Some(AppError::Invalid(DecodeError::MissingField(Field::Devices))));
}

#[test]
fn submitting_valid_text_sends_and_then_refreshes() {
    let mut app = AppModel::init();
    app.update(Message::Edit("{not json".to_string()));
    app.update(Message::Submit);
    app.update(Message::NewSimulation);
    assert_eq!(app.editor_content, DEFAULT_SIMULATION);
    let task = app.update(Message::Submit);
    assert_eq!(app.has_error, None);
    match task {
        Task::Send(req, Reply::Submitted) => {
            assert_eq!(req.method, Method::Put);
            let sent = Simulation::from_json_text(req.body.as_ref().unwrap()).unwrap();
            assert_eq!(Ok(sent), Simulation::from_json_text(DEFAULT_SIMULATION));
        }
        _ => panic!("expected a submission"),
    }
    let ack = format!("{{\"id\": \"{ID_B}\", \"report\": {{\"result\": 3}}}}");
    let msg = reply_message(Reply::Submitted, &ok_response(&ack));
    let task = app.update(msg);
    assert!(matches!(task, Task::Send(r, Reply::SimulationsFetched) if r.path == "/simulation"));
}

#[test]
fn failures_land_in_last_error_and_nothing_else_changes() {
    let a = id(ID_A);
    let mut app = AppModel::init();
    app.update(Message::FetchedSimulation(a, Ok(detail("x", 1))));
    app.update(Message::SimulationsFetched(Ok(vec![row(1)])));
    let msg = reply_message(Reply::FetchedText(a), &Response::Received { status: 404, body: String::new() });
    app.update(msg);
    assert_eq!(app.has_error, Some(AppError::Client(ClientError::NotFound)));
    assert_eq!(app.simulations, vec![row(1)]);
    assert_eq!(app.text_display, None);
    app.update(Message::SimulationsFetched(Err(ClientError::Transport)));
    assert_eq!(app.has_error, Some(AppError::Client(ClientError::Transport)));
    assert_eq!(app.simulations, vec![row(1)]);
}

#[test]
fn context_page_toggles() {
    let mut app = AppModel::init();
    let msg = MenuAction::About.message();
    app.update(msg);
    assert!(app.show_context);
    app.update(Message::ToggleContextPage(ContextPage::About));
    assert!(!app.show_context);
    assert!(matches!(MenuAction::OpenFile.message(), Message::NewSimulation));
    assert!(matches!(app.update(Message::OpenFile), Task::OpenFile));
}
