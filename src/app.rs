use vstd::prelude::*;
use vstd::seq_lib::{to_multiset_build, to_multiset_insert};

use crate::api::{
    self, body_of, detail_response, fetch_all_simulations_request,
    fetch_simulation_log_by_device_request, fetch_simulation_log_request,
    fetch_simulation_request, fetch_simulation_source_request, overviews_response, read_overviews,
    read_simulation, read_submitted, read_text, submit_simulation_request, submitted_response,
    ClientError, Id, Report, Request, Response, SimulationOverview, SubmittedSimulation,
};
use crate::domain::DeviceName;
use crate::json::{pretty_json, pretty_json_text};
use crate::simulation::{simulation_of_text, DecodeError, Simulation};

verus! {

/// The document that seeds a new submission.
pub const DEFAULT_SIMULATION: &'static str = "{\n  \"startTime\": \"2024-06-01T00:00:00Z\",\n  \"endTime\": \"2024-06-02T00:00:00Z\",\n  \"devices\": [\n    {\n      \"name\": \"roof\",\n      \"type\": \"SolarPanel\"\n    },\n    {\n      \"name\": \"fridge\",\n      \"type\": \"StableDevice\",\n      \"produces\": -150\n    },\n    {\n      \"name\": \"battery\",\n      \"type\": \"Store\",\n      \"maxChargePerTick\": 500,\n      \"maxCapacity\": 10000\n    }\n  ]\n}\n";

/// The page shown in the main area.
#[derive(Debug, Clone, Copy, PartialEq, Eq)]
pub enum Page {
    SimulationList,
    NewSimulation,
}

/// The context page to display in the context drawer.
#[derive(Debug, Clone, Copy, PartialEq, Eq, Structural)]
pub enum ContextPage {
    About,
}

/// The actions of the menu bar.
#[derive(Debug, Clone, Copy, PartialEq, Eq)]
pub enum MenuAction {
    About,
    OpenFile,
}

/// What went wrong last, shown until a new attempt supersedes it.
#[derive(Debug, Clone, Copy, PartialEq, Eq)]
pub enum AppError {
    /// The editor's text is not a valid simulation; nothing was sent.
    Invalid(DecodeError),
    /// A call to the backend failed.
    Client(ClientError),
}

/// Which message a response turns into once it arrives.
#[derive(Debug, Clone, Copy, PartialEq, Eq)]
pub enum Reply {
    SimulationsFetched,
    FetchedSimulation(Id),
    FetchedSource(Id),
    FetchedText(Id),
    Submitted,
}

/// Intents of the operator and results of finished requests.
#[derive(Debug)]
pub enum Message {
    OpenRepositoryUrl,
    ToggleContextPage(ContextPage),
    FetchAllSimulations,
    SimulationsFetched(Result<Vec<SimulationOverview>, ClientError>),
    OpenFile,
    /// The editor's text after an edit.
    Edit(String),
    SelectSimulation(Id),
    FetchedSimulation(Id, Result<api::Simulation, ClientError>),
    ShowSource(Id),
    ShowDeviceLog(Id, DeviceName),
    ShowAllDeviceLog(Id),
    /// The source of a simulation, as the backend sent it.
    FetchedSource(Id, Result<String, ClientError>),
    FetchedText(Id, Result<String, ClientError>),
    NewSimulation,
    Submit,
    Submitted(Result<SubmittedSimulation, ClientError>),
    CopyTextToClipboard,
    ReplaceEditorContent(String),
}

/// Work that the state machine hands out; its result comes back as a message.
#[derive(Debug)]
pub enum Task {
    Idle,
    /// Send the request; turn the response into a message with `reply_message`.
    Send(Request, Reply),
    /// Let the operator pick a file and hand its text back as `ReplaceEditorContent`.
    OpenFile,
    CopyToClipboard(String),
}

/// The single state that the operator looks at.
#[derive(Debug)]
pub struct AppModel {
    pub context_page: ContextPage,
    pub show_context: bool,
    pub simulations: Vec<SimulationOverview>,
    pub editor_content: String,
    pub selected_simulation: Option<(Id, api::Simulation)>,
    pub text_display: Option<String>,
    pub has_error: Option<AppError>,
}

impl MenuAction {
    /// The message that a menu action sends.
    pub fn message(&self) -> (r: Message)
        ensures
            *self == MenuAction::About ==> r == Message::ToggleContextPage(ContextPage::About),
            *self == MenuAction::OpenFile ==> r == Message::NewSimulation,
    {
        match self {
            MenuAction::About => Message::ToggleContextPage(ContextPage::About),
            MenuAction::OpenFile => Message::NewSimulation,
        }
    }
}

/// Sorted by creation time, newest first.
pub open spec fn newest_first(s: Seq<SimulationOverview>) -> bool {
    forall|a: int, b: int| 0 <= a < b < s.len() ==> s[a].timestamp >= s[b].timestamp
}

/// Sorts the list of simulations by creation time, newest first.
pub fn sort_newest_first(v: Vec<SimulationOverview>) -> (r: Vec<SimulationOverview>)
    ensures
        newest_first(r@),
        r@.to_multiset() == v@.to_multiset(),
{
    broadcast use to_multiset_build, to_multiset_insert;

    let mut out: Vec<SimulationOverview> = Vec::new();
    let mut i: usize = 0;
    assert(v@.subrange(0, 0) =~= Seq::<SimulationOverview>::empty());
    while i < v.len()
        invariant
            0 <= i <= v@.len(),
            newest_first(out@),
            out@.to_multiset() == v@.subrange(0, i as int).to_multiset(),
        decreases v.len() - i,
    {
        let x = v[i];
        let mut p: usize = 0;
        while p < out.len() && out[p].timestamp >= x.timestamp
            invariant
                0 <= p <= out@.len(),
                forall|k: int| 0 <= k < p ==> out@[k].timestamp >= x.timestamp,
            decreases out.len() - p,
        {
            p = p + 1;
        }
        let ghost before = out@;
        out.insert(p, x);
        proof {
            assert(v@.subrange(0, i + 1) =~= v@.subrange(0, i as int).push(x));
            to_multiset_insert(before, p as int, x);
            to_multiset_build(v@.subrange(0, i as int), x);
            assert forall|a: int, b: int| 0 <= a < b < out@.len() implies out@[a].timestamp
                >= out@[b].timestamp by {
                if p < before.len() {
                    assert(before[p as int].timestamp < x.timestamp);
                }
                if a < p && b == p {
                } else if a == p && b > p {
                    assert(before[p as int].timestamp >= before[b - 1].timestamp || b - 1 == p);
                }
            }
        }
        i = i + 1;
    }
    assert(v@.subrange(0, v@.len() as int) =~= v@);
    out
}

/// The message that a response turns into.
pub fn reply_message(reply: Reply, resp: &Response) -> (r: Message)
    ensures
        match reply {
            Reply::SimulationsFetched => match r {
                Message::SimulationsFetched(Ok(v)) => overviews_response(*resp) == Ok::<
                    Seq<SimulationOverview>,
                    ClientError,
                >(v@),
                Message::SimulationsFetched(Err(e)) => overviews_response(*resp) == Err::<
                    Seq<SimulationOverview>,
                    ClientError,
                >(e),
                _ => false,
            },
            Reply::FetchedSimulation(id) => match r {
                Message::FetchedSimulation(rid, Ok(s)) => rid == id && detail_response(*resp)
                    == Ok::<(Seq<Seq<char>>, Report), ClientError>(
                    (s.devices@.map_values(|n: DeviceName| n@), s.res),
                ),
                Message::FetchedSimulation(rid, Err(e)) => rid == id && detail_response(*resp)
                    == Err::<(Seq<Seq<char>>, Report), ClientError>(e),
                _ => false,
            },
            Reply::FetchedSource(id) => match r {
                Message::FetchedSource(rid, Ok(t)) => rid == id && body_of(*resp) == Ok::<
                    Seq<char>,
                    ClientError,
                >(t@),
                Message::FetchedSource(rid, Err(e)) => rid == id && body_of(*resp) == Err::<
                    Seq<char>,
                    ClientError,
                >(e),
                _ => false,
            },
            Reply::FetchedText(id) => match r {
                Message::FetchedText(rid, Ok(t)) => rid == id && body_of(*resp) == Ok::<
                    Seq<char>,
                    ClientError,
                >(t@),
                Message::FetchedText(rid, Err(e)) => rid == id && body_of(*resp) == Err::<
                    Seq<char>,
                    ClientError,
                >(e),
                _ => false,
            },
            Reply::Submitted => r == Message::Submitted(submitted_response(*resp)),
        },
{
    match reply {
        Reply::SimulationsFetched => Message::SimulationsFetched(read_overviews(resp)),
        Reply::FetchedSimulation(id) => Message::FetchedSimulation(id, read_simulation(resp)),
        Reply::FetchedSource(id) => Message::FetchedSource(id, read_text(resp)),
        Reply::FetchedText(id) => Message::FetchedText(id, read_text(resp)),
        Reply::Submitted => Message::Submitted(read_submitted(resp)),
    }
}

/// Whether a text fetched for `id` is still wanted: `id` is the current selection.
pub open spec fn is_current(s: AppModel, id: Id) -> bool {
    match s.selected_simulation {
        Some(sel) => sel.0 == id,
        None => false,
    }
}

/// The state with only the error replaced.
pub open spec fn with_error(s: AppModel, e: AppError) -> AppModel {
    AppModel { has_error: Some(e), ..s }
}

/// The state with only the displayed text replaced, where `id` is still selected.
pub open spec fn with_text_for(s: AppModel, id: Id, t: String) -> AppModel {
    if is_current(s, id) {
        AppModel { text_display: Some(t), ..s }
    } else {
        s
    }
}

/// A request to send with the reply that its response becomes.
pub open spec fn sends(task: Task, method: api::Method, path: Seq<char>, reply: Reply) -> bool {
    match task {
        Task::Send(req, rep) => req.method == method && req.path@ == path && req.body is None
            && rep == reply,
        _ => false,
    }
}

/// One step of the state machine: from state `s`, message `m` leads to state `t`, and `task`
/// is the work handed out.
pub open spec fn step(s: AppModel, m: Message, t: AppModel, task: Task) -> bool {
    match m {
        Message::OpenRepositoryUrl => t == s && task == Task::Idle,
        Message::ToggleContextPage(p) => task == Task::Idle && if s.context_page == p {
            t == (AppModel { show_context: !s.show_context, ..s })
        } else {
            t == (AppModel { context_page: p, show_context: true, ..s })
        },
        Message::FetchAllSimulations => t == s && sends(
            task,
            api::Method::Get,
            "/simulation"@,
            Reply::SimulationsFetched,
        ),
        Message::SimulationsFetched(Ok(v)) => task == Task::Idle && newest_first(t.simulations@)
            && t.simulations@.to_multiset() == v@.to_multiset() && t == (AppModel {
            simulations: t.simulations,
            ..s
        }),
        Message::SimulationsFetched(Err(e)) => task == Task::Idle && t == with_error(
            s,
            AppError::Client(e),
        ),
        Message::OpenFile => t == s && task == Task::OpenFile,
        Message::Edit(text) => task == Task::Idle && t == (AppModel { editor_content: text, ..s }),
        Message::ReplaceEditorContent(text) => task == Task::Idle && t == (AppModel {
            editor_content: text,
            ..s
        }),
        Message::SelectSimulation(id) => t == s && sends(
            task,
            api::Method::Get,
            api::simulation_path(id),
            Reply::FetchedSimulation(id),
        ),
        Message::FetchedSimulation(id, Ok(d)) => task == Task::Idle && t == (AppModel {
            selected_simulation: Some((id, d)),
            text_display: None,
            ..s
        }),
        Message::FetchedSimulation(_, Err(e)) => task == Task::Idle && t == with_error(
            s,
            AppError::Client(e),
        ),
        Message::ShowSource(id) => t == s && sends(
            task,
            api::Method::Get,
            api::simulation_path(id) + "/source"@,
            Reply::FetchedSource(id),
        ),
        Message::ShowDeviceLog(id, name) => t == s && sends(
            task,
            api::Method::Get,
            api::simulation_path(id) + "/log/"@ + name@,
            Reply::FetchedText(id),
        ),
        Message::ShowAllDeviceLog(id) => t == s && sends(
            task,
            api::Method::Get,
            api::simulation_path(id) + "/log"@,
            Reply::FetchedText(id),
        ),
        Message::FetchedSource(id, Ok(raw)) => task == Task::Idle && match pretty_json_text(raw@) {
            Some(p) => if is_current(s, id) {
                t.text_display is Some && t.text_display->0@ == p && t == (AppModel {
                    text_display: t.text_display,
                    ..s
                })
            } else {
                t == s
            },
            None => t == with_error(s, AppError::Client(ClientError::Decode(DecodeError::NotJson))),
        },
        Message::FetchedSource(_, Err(e)) => task == Task::Idle && t == with_error(
            s,
            AppError::Client(e),
        ),
        Message::FetchedText(id, Ok(text)) => task == Task::Idle && t == with_text_for(s, id, text),
        Message::FetchedText(_, Err(e)) => task == Task::Idle && t == with_error(
            s,
            AppError::Client(e),
        ),
        Message::NewSimulation => task == Task::Idle && t.editor_content@ == DEFAULT_SIMULATION@
            && t == (AppModel { editor_content: t.editor_content, ..s }),
        Message::Submit => match simulation_of_text(s.editor_content@) {
            Err(e) => task == Task::Idle && t == with_error(s, AppError::Invalid(e)),
            Ok(v) => t == (AppModel { has_error: None, ..s }) && match task {
                Task::Send(req, rep) => rep == Reply::Submitted && req.method == api::Method::Put
                    && req.path@ == "/simulation"@ && req.body is Some && exists|j: crate::json::Json|
                    crate::simulation::simulation_encoded(v, j) && req.body->0@
                        == crate::json::json_text(j),
                _ => false,
            },
        },
        Message::Submitted(Ok(_)) => t == s && sends(
            task,
            api::Method::Get,
            "/simulation"@,
            Reply::SimulationsFetched,
        ),
        Message::Submitted(Err(e)) => task == Task::Idle && t == with_error(s, AppError::Client(e)),
        Message::CopyTextToClipboard => t == s && match s.text_display {
            Some(text) => match task {
                Task::CopyToClipboard(c) => c@ == text@,
                _ => false,
            },
            None => task == Task::Idle,
        },
    }
}

impl AppModel {
    /// The state at start: nothing listed or selected, the editor seeded with the default
    /// document. The list is to be fetched with `FetchAllSimulations`.
    pub fn init() -> (r: AppModel)
        ensures
            r.simulations@.len() == 0,
            r.selected_simulation is None,
            r.text_display is None,
            r.has_error is None,
            r.editor_content@ == DEFAULT_SIMULATION@,
            r.context_page == ContextPage::About,
            !r.show_context,
    {
        AppModel {
            context_page: ContextPage::About,
            show_context: false,
            simulations: Vec::new(),
            editor_content: String::from_str(DEFAULT_SIMULATION),
            selected_simulation: None,
            text_display: None,
            has_error: None,
        }
    }

    /// Applies one message to the state and returns the work to hand out.
    pub fn update(&mut self, message: Message) -> (task: Task)
        ensures
            step(*old(self), message, *final(self), task),
    {
        match message {
            Message::OpenRepositoryUrl => Task::Idle,
            Message::ToggleContextPage(p) => {
                if self.context_page == p {
                    self.show_context = !self.show_context;
                } else {
                    self.context_page = p;
                    self.show_context = true;
                }
                Task::Idle
            },
            Message::FetchAllSimulations => Task::Send(
                fetch_all_simulations_request(),
                Reply::SimulationsFetched,
            ),
            Message::SimulationsFetched(Ok(v)) => {
                self.simulations = sort_newest_first(v);
                Task::Idle
            },
            Message::SimulationsFetched(Err(e)) => {
                self.has_error = Some(AppError::Client(e));
                Task::Idle
            },
            Message::OpenFile => Task::OpenFile,
            Message::Edit(text) => {
                self.editor_content = text;
                Task::Idle
            },
            Message::ReplaceEditorContent(text) => {
                self.editor_content = text;
                Task::Idle
            },
            Message::SelectSimulation(id) => Task::Send(
                fetch_simulation_request(id),
                Reply::FetchedSimulation(id),
            ),
            Message::FetchedSimulation(id, Ok(d)) => {
                self.selected_simulation = Some((id, d));
                self.text_display = None;
                Task::Idle
            },
            Message::FetchedSimulation(_, Err(e)) => {
                self.has_error = Some(AppError::Client(e));
                Task::Idle
            },
            Message::ShowSource(id) => Task::Send(
                fetch_simulation_source_request(id),
                Reply::FetchedSource(id),
            ),
            Message::ShowDeviceLog(id, name) => Task::Send(
                fetch_simulation_log_by_device_request(id, &name),
                Reply::FetchedText(id),
            ),
            Message::ShowAllDeviceLog(id) => Task::Send(
                fetch_simulation_log_request(id),
                Reply::FetchedText(id),
            ),
            Message::FetchedSource(id, Ok(raw)) => {
                match pretty_json(raw.as_str()) {
                    Some(p) => {
                        self.show_text_for(id, p);
                    },
                    None => {
                        self.has_error = Some(
                            AppError::Client(ClientError::Decode(DecodeError::NotJson)),
                        );
                    },
                }
                Task::Idle
            },
            Message::FetchedSource(_, Err(e)) => {
                self.has_error = Some(AppError::Client(e));
                Task::Idle
            },
            Message::FetchedText(id, Ok(text)) => {
                self.show_text_for(id, text);
                Task::Idle
            },
            Message::FetchedText(_, Err(e)) => {
                self.has_error = Some(AppError::Client(e));
                Task::Idle
            },
            Message::NewSimulation => {
                self.editor_content = String::from_str(DEFAULT_SIMULATION);
                Task::Idle
            },
            Message::Submit => {
                match Simulation::from_json_text(self.editor_content.as_str()) {
                    Ok(sim) => {
                        self.has_error = None;
                        Task::Send(submit_simulation_request(&sim), Reply::Submitted)
                    },
                    Err(e) => {
                        self.has_error = Some(AppError::Invalid(e));
                        Task::Idle
                    },
                }
            },
            Message::Submitted(Ok(_)) => Task::Send(
                fetch_all_simulations_request(),
                Reply::SimulationsFetched,
            ),
            Message::Submitted(Err(e)) => {
                self.has_error = Some(AppError::Client(e));
                Task::Idle
            },
            Message::CopyTextToClipboard => match self.displayed_text() {
                Some(text) => Task::CopyToClipboard(text),
                None => Task::Idle,
            },
        }
    }

    /// A copy of the text on display, if any.
    pub fn displayed_text(&self) -> (r: Option<String>)
        ensures
            r is Some <==> self.text_display is Some,
            r is Some ==> r->0@ == self.text_display->0@,
    {
        match &self.text_display {
            Some(text) => Some(String::from_str(text.as_str())),
            None => None,
        }
    }

    /// Shows a fetched text, but only while the simulation it belongs to is still selected:
    /// a late answer for an abandoned selection is dropped.
    pub fn show_text_for(&mut self, id: Id, text: String)
        ensures
            *final(self) == with_text_for(*old(self), id, text),
    {
        let current = match &self.selected_simulation {
            Some(sel) => sel.0.eq(&id),
            None => false,
        };
        if current {
            self.text_display = Some(text);
        }
    }
}

/// A text that arrives for a simulation other than the current selection changes nothing.
pub proof fn lemma_text_only_for_current(s: AppModel, id: Id, text: String, t: AppModel, k: Task)
    requires
        step(s, Message::FetchedText(id, Ok(text)), t, k),
        !is_current(s, id),
    ensures
        t == s,
        k == Task::Idle,
{
}

/// Select `a`, ask for its log, then select `b` before the log arrives: when the log of `a`
/// arrives at last, `b` stays selected and nothing is on display, since selecting `b`
/// cleared the display and the late log is dropped.
pub proof fn lemma_stale_log_dropped(
    s0: AppModel,
    s1: AppModel,
    s2: AppModel,
    s3: AppModel,
    s4: AppModel,
    a: Id,
    b: Id,
    detail_a: api::Simulation,
    detail_b: api::Simulation,
    log: String,
    k1: Task,
    k2: Task,
    k3: Task,
    k4: Task,
)
    requires
        a != b,
        step(s0, Message::FetchedSimulation(a, Ok(detail_a)), s1, k1),
        step(s1, Message::ShowAllDeviceLog(a), s2, k2),
        step(s2, Message::FetchedSimulation(b, Ok(detail_b)), s3, k3),
        step(s3, Message::FetchedText(a, Ok(log)), s4, k4),
    ensures
        sends(k2, api::Method::Get, api::simulation_path(a) + "/log"@, Reply::FetchedText(a)),
        s4.selected_simulation == Some((b, detail_b)),
        s4.text_display is None,
{
}

/// After a refresh the list holds exactly the rows fetched, newest first.
pub proof fn lemma_refresh_sorts(s: AppModel, rows: Vec<SimulationOverview>, t: AppModel, k: Task)
    requires
        step(s, Message::SimulationsFetched(Ok(rows)), t, k),
    ensures
        newest_first(t.simulations@),
        t.simulations@.to_multiset() == rows@.to_multiset(),
        k == Task::Idle,
{
}

/// An editor text that is not a valid simulation is reported and nothing is sent.
pub proof fn lemma_invalid_submission_sends_nothing(s: AppModel, t: AppModel, k: Task)
    requires
        step(s, Message::Submit, t, k),
        simulation_of_text(s.editor_content@) is Err,
    ensures
        k == Task::Idle,
        t.has_error == Some(AppError::Invalid(simulation_of_text(s.editor_content@)->Err_0)),
        t.editor_content == s.editor_content,
        t.selected_simulation == s.selected_simulation,
{
}

} // verus!
