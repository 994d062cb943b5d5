//! The teams surface: what each request runs against the store, what it answers, and
//! which event it raises.
//!
//! A request starts as a statement to run, or as an answer. The reply to a statement
//! resumes it. The answer comes with the event to raise before it is given, if there is
//! one.

use vstd::prelude::*;
use vstd::string::StringExecFns;

use crate::record::{CreateTeam, NewTeam, Team, TeamRecord, UpdateTeam};
use crate::row::TeamRow;
use crate::stamp::{id_for, random_uuid, utc_time};
use crate::statement::{Command, Statement};
use crate::store::{
    count_reply, create_fetched, create_result, create_step, create_written, deleted, first,
    get_step, list_result, listed, lookup_result, lookup_resumed, lookup_written, member_step,
    rows_reply, update_step, CreateProgress, CreateQuery, CreateStep, CreateWrite, Failure,
    LookupProgress, LookupQuery, LookupQueryModel, LookupStep, LookupWrite, MemberChange,
    StoreError, TeamStore,
};
use crate::text::{is_blank, trim};

verus! {

/// The id that the events of this service are declared under.
pub const PLUGIN_ID: &'static str = "@ryu/teams";

pub const EVENT_TEAM_CREATED: &'static str = "@ryu/teams#team.created";

pub const EVENT_TEAM_UPDATED: &'static str = "@ryu/teams#team.updated";

pub const EVENT_TEAM_DELETED: &'static str = "@ryu/teams#team.deleted";

/// What happened to a team.
#[derive(Debug, Clone, Copy, PartialEq, Eq, Structural)]
pub enum EventKind {
    Created,
    Updated,
    Deleted,
}

impl EventKind {
    /// The declared name of the event.
    pub fn name(self) -> (name: &'static str)
        ensures
            name@ == match self {
                EventKind::Created => EVENT_TEAM_CREATED@,
                EventKind::Updated => EVENT_TEAM_UPDATED@,
                EventKind::Deleted => EVENT_TEAM_DELETED@,
            },
    {
        match self {
            EventKind::Created => EVENT_TEAM_CREATED,
            EventKind::Updated => EVENT_TEAM_UPDATED,
            EventKind::Deleted => EVENT_TEAM_DELETED,
        }
    }
}

/// What an event carries, as a value.
#[verifier::ext_equal]
pub enum PayloadModel {
    Record { team: Team },
    IdOnly { id: Seq<char> },
}

/// What an event carries: the record as a read of the team gives it, or the id alone
/// when no record is at hand.
#[derive(Debug)]
pub enum Payload {
    Record { team: TeamRecord },
    IdOnly { id: String },
}

impl View for Payload {
    type V = PayloadModel;

    open spec fn view(&self) -> PayloadModel {
        match self {
            Payload::Record { team } => PayloadModel::Record { team: team@ },
            Payload::IdOnly { id } => PayloadModel::IdOnly { id: id@ },
        }
    }
}

/// An event, as a value.
#[verifier::ext_equal]
pub struct EventModel {
    pub kind: EventKind,
    pub payload: PayloadModel,
}

/// An event to raise.
#[derive(Debug)]
pub struct TeamEvent {
    pub kind: EventKind,
    pub payload: Payload,
}

impl View for TeamEvent {
    type V = EventModel;

    open spec fn view(&self) -> EventModel {
        EventModel { kind: self.kind, payload: self.payload@ }
    }
}

impl DeepView for TeamEvent {
    type V = EventModel;

    open spec fn deep_view(&self) -> EventModel {
        self@
    }
}

/// The body of an answer, as a value.
#[verifier::ext_equal]
pub enum BodyModel {
    Teams { teams: Seq<Team> },
    Team { team: Team },
    Success,
    Error { message: Seq<char> },
    Healthy { team_count: nat },
    Unhealthy { message: Seq<char> },
}

/// The body of an answer.
#[derive(Debug)]
#[allow(inconsistent_fields)]
pub enum Body {
    Teams { teams: Vec<TeamRecord> },
    Team { team: TeamRecord },
    Success,
    Error { message: String },
    Healthy { team_count: usize },
    Unhealthy { message: String },
}

impl View for Body {
    type V = BodyModel;

    open spec fn view(&self) -> BodyModel {
        match self {
            Body::Teams { teams } => BodyModel::Teams { teams: teams.deep_view() },
            Body::Team { team } => BodyModel::Team { team: team@ },
            Body::Success => BodyModel::Success,
            Body::Error { message } => BodyModel::Error { message: message@ },
            Body::Healthy { team_count } => BodyModel::Healthy { team_count: *team_count as nat },
            Body::Unhealthy { message } => BodyModel::Unhealthy { message: message@ },
        }
    }
}

/// An answer, as a value.
#[verifier::ext_equal]
pub struct Answer {
    pub event: Option<EventModel>,
    pub status: u16,
    pub body: BodyModel,
}

/// An answer: the event to raise first, then the status and the body to give.
#[derive(Debug)]
pub struct Response {
    pub event: Option<TeamEvent>,
    pub status: u16,
    pub body: Body,
}

impl View for Response {
    type V = Answer;

    open spec fn view(&self) -> Answer {
        Answer { event: self.event.deep_view(), status: self.status, body: self.body@ }
    }
}

/// An answer without an event.
pub open spec fn plain(status: u16, body: BodyModel) -> Answer {
    Answer { event: None, status, body }
}

/// An answer that gives a team, and raises an event that carries it.
pub open spec fn with_event(kind: EventKind, status: u16, team: Team) -> Answer {
    Answer {
        event: Some(EventModel { kind, payload: PayloadModel::Record { team } }),
        status,
        body: BodyModel::Team { team },
    }
}

/// The answer when the store failed.
pub open spec fn failed(failure: Failure) -> Answer {
    plain(500, BodyModel::Error { message: failure.message() })
}

/// The answer when there is no team with this id.
pub open spec fn not_found(id: Seq<char>) -> Answer {
    plain(404, BodyModel::Error { message: "team '"@ + id + "' not found"@ })
}

fn failed_response(error: StoreError) -> (response: Response)
    ensures
        response@ == failed(error@),
{
    Response { event: None, status: 500, body: Body::Error { message: error.message() } }
}

fn not_found_response(id: &str) -> (response: Response)
    ensures
        response@ == not_found(id@),
{
    let message = "team '".to_owned().concat(id).concat("' not found");
    Response { event: None, status: 404, body: Body::Error { message } }
}

fn event_response(kind: EventKind, status: u16, team: TeamRecord) -> (response: Response)
    ensures
        response@ == with_event(kind, status, team@),
{
    let event = TeamEvent { kind, payload: Payload::Record { team: team.clone() } };
    Response { event: Some(event), status, body: Body::Team { team } }
}

/// The answer to a body that is well-formed but does not fit the request.
pub fn rejected_body(message: String) -> (response: Response)
    ensures
        response@ == plain(400, BodyModel::Error { message: message@ }),
{
    Response { event: None, status: 400, body: Body::Error { message } }
}

/// What a request that ends in at most one team is for, as a value.
#[verifier::ext_equal]
pub enum TaskModel {
    Get,
    Update,
    Members { before: Option<Seq<Seq<char>>> },
}

/// What a request that ends in at most one team is for.
#[derive(Debug)]
pub enum Task {
    /// To read the team.
    Get,
    /// To patch the team.
    Update,
    /// To change its member list, which was this, if it could be read.
    Members { before: Option<Vec<String>> },
}

impl View for Task {
    type V = TaskModel;

    open spec fn view(&self) -> TaskModel {
        match self {
            Task::Get => TaskModel::Get,
            Task::Update => TaskModel::Update,
            Task::Members { before } => TaskModel::Members { before: before.deep_view() },
        }
    }
}

/// The answer to a request that ends in at most one team. A read raises nothing, a patch
/// an event. A change of members raises one unless the list is known to be as before.
pub open spec fn lookup_answer(
    id: Seq<char>,
    task: TaskModel,
    result: Result<Option<Team>, Failure>,
) -> Answer {
    match result {
        Err(failure) => failed(failure),
        Ok(None) => not_found(id),
        Ok(Some(team)) => match task {
            TaskModel::Get => plain(200, BodyModel::Team { team }),
            TaskModel::Update => with_event(EventKind::Updated, 200, team),
            TaskModel::Members { before } => if before == Some(team.members) {
                plain(200, BodyModel::Team { team })
            } else {
                with_event(EventKind::Updated, 200, team)
            },
        },
    }
}

/// Whether two member lists are the same.
pub fn same_members(a: &Vec<String>, b: &Vec<String>) -> (same: bool)
    ensures
        same == (a.deep_view() == b.deep_view()),
{
    let ghost x = a.deep_view();
    let ghost y = b.deep_view();
    if a.len() != b.len() {
        assert(x.len() != y.len());
        return false;
    }
    let mut i: usize = 0;
    while i < a.len()
        invariant
            i <= a@.len(),
            a@.len() == b@.len(),
            x == a.deep_view(),
            y == b.deep_view(),
            forall|j: int| 0 <= j < i ==> #[trigger] x[j] == y[j],
        decreases a@.len() - i,
    {
        if a[i] != b[i] {
            assert(x[i as int] != y[i as int]);
            return false;
        }
        i = i + 1;
    }
    assert(x =~= y);
    true
}

/// Answer a request that ended in at most one team.
pub fn lookup_response(
    id: &str,
    task: Task,
    result: Result<Option<TeamRecord>, StoreError>,
) -> (response: Response)
    ensures
        response@ == lookup_answer(id@, task@, lookup_result(result)),
{
    match result {
        Err(error) => failed_response(error),
        Ok(None) => not_found_response(id),
        Ok(Some(team)) => match task {
            Task::Get => Response { event: None, status: 200, body: Body::Team { team } },
            Task::Update => event_response(EventKind::Updated, 200, team),
            Task::Members { before } => {
                let unchanged = match &before {
                    Some(members) => same_members(members, &team.members),
                    None => false,
                };
                if unchanged {
                    Response { event: None, status: 200, body: Body::Team { team } }
                } else {
                    event_response(EventKind::Updated, 200, team)
                }
            },
        },
    }
}

/// The answer to a creation.
pub open spec fn create_answer(result: Result<Team, Failure>) -> Answer {
    match result {
        Ok(team) => with_event(EventKind::Created, 200, team),
        Err(failure) => failed(failure),
    }
}

/// Answer a creation.
pub fn create_response(result: Result<TeamRecord, StoreError>) -> (response: Response)
    ensures
        response@ == create_answer(create_result(result)),
{
    match result {
        Ok(team) => event_response(EventKind::Created, 200, team),
        Err(error) => failed_response(error),
    }
}

/// The answer to a listing.
pub open spec fn list_answer(result: Result<Seq<Team>, Failure>) -> Answer {
    match result {
        Ok(teams) => plain(200, BodyModel::Teams { teams }),
        Err(failure) => failed(failure),
    }
}

/// Answer a listing.
pub fn list_response(result: Result<Vec<TeamRecord>, StoreError>) -> (response: Response)
    ensures
        response@ == list_answer(list_result(result)),
{
    match result {
        Ok(teams) => Response { event: None, status: 200, body: Body::Teams { teams } },
        Err(error) => failed_response(error),
    }
}

/// The answer to a health probe: that the store can be read, and how many teams it holds.
pub open spec fn health_answer(result: Result<Seq<Team>, Failure>) -> Answer {
    match result {
        Ok(teams) => plain(200, BodyModel::Healthy { team_count: teams.len() }),
        Err(failure) => plain(503, BodyModel::Unhealthy { message: failure.message() }),
    }
}

/// Answer a health probe.
pub fn health_response(result: Result<Vec<TeamRecord>, StoreError>) -> (response: Response)
    ensures
        response@ == health_answer(list_result(result)),
{
    match result {
        Ok(teams) => Response {
            event: None,
            status: 200,
            body: Body::Healthy { team_count: teams.len() },
        },
        Err(error) => Response {
            event: None,
            status: 503,
            body: Body::Unhealthy { message: error.message() },
        },
    }
}

/// The answer to a removal. Its event carries the team as it was read before it went.
pub open spec fn delete_answer(
    id: Seq<char>,
    doomed: Option<Team>,
    result: Result<bool, Failure>,
) -> Answer {
    match result {
        Err(failure) => failed(failure),
        Ok(false) => not_found(id),
        Ok(true) => Answer {
            event: Some(
                EventModel {
                    kind: EventKind::Deleted,
                    payload: match doomed {
                        Some(team) => PayloadModel::Record { team },
                        None => PayloadModel::IdOnly { id },
                    },
                },
            ),
            status: 200,
            body: BodyModel::Success,
        },
    }
}

/// Answer a removal.
pub fn delete_response(
    id: String,
    doomed: Option<TeamRecord>,
    result: Result<bool, StoreError>,
) -> (response: Response)
    ensures
        response@ == delete_answer(
            id@,
            doomed.deep_view(),
            crate::store::delete_result(result),
        ),
{
    match result {
        Err(error) => failed_response(error),
        Ok(gone) => if gone {
            let payload = match doomed {
                Some(team) => Payload::Record { team },
                None => Payload::IdOnly { id },
            };
            Response {
                event: Some(TeamEvent { kind: EventKind::Deleted, payload }),
                status: 200,
                body: Body::Success,
            }
        } else {
            not_found_response(id.as_str())
        },
    }
}

/// What the reply to a query is awaited for, as a value.
#[verifier::ext_equal]
pub enum ApiQueryModel {
    List,
    Health,
    Create,
    Lookup { id: Seq<char>, task: TaskModel, state: LookupQueryModel },
    BeforeDelete { id: Seq<char> },
    BeforeMembers { id: Seq<char>, agent_id: Seq<char>, change: MemberChange },
}

/// What the reply to a query is awaited for.
#[derive(Debug)]
#[allow(inconsistent_fields)]
pub enum ApiQuery {
    /// To list the teams.
    List,
    /// To see whether the store can be read.
    Health,
    /// To give back the team that was inserted.
    Create { state: CreateQuery },
    /// On the way to at most one team.
    Lookup { id: String, task: Task, state: LookupQuery },
    /// To keep the team that is about to be removed: afterwards it is gone, and its event
    /// is the last place it can come from.
    BeforeDelete { id: String },
    /// To tell a real change of members from one that changes nothing.
    BeforeMembers { id: String, agent_id: String, change: MemberChange },
}

impl View for ApiQuery {
    type V = ApiQueryModel;

    open spec fn view(&self) -> ApiQueryModel {
        match self {
            ApiQuery::List => ApiQueryModel::List,
            ApiQuery::Health => ApiQueryModel::Health,
            ApiQuery::Create { .. } => ApiQueryModel::Create,
            ApiQuery::Lookup { id, task, state } => ApiQueryModel::Lookup {
                id: id@,
                task: task@,
                state: state@,
            },
            ApiQuery::BeforeDelete { id } => ApiQueryModel::BeforeDelete { id: id@ },
            ApiQuery::BeforeMembers { id, agent_id, change } => ApiQueryModel::BeforeMembers {
                id: id@,
                agent_id: agent_id@,
                change: *change,
            },
        }
    }
}

/// What the reply to any other statement is awaited for, as a value.
#[verifier::ext_equal]
pub enum ApiWriteModel {
    Create { id: Seq<char> },
    Lookup { id: Seq<char>, task: TaskModel, written: Seq<char> },
    Delete { id: Seq<char>, doomed: Option<Team> },
}

/// What the reply to any other statement is awaited for.
#[derive(Debug)]
#[allow(inconsistent_fields)]
pub enum ApiWrite {
    /// A team was inserted.
    Create { state: CreateWrite },
    /// A team was written, on the way to it.
    Lookup { id: String, task: Task, state: LookupWrite },
    /// A team was removed; this is what it was, if it could be read.
    Delete { id: String, doomed: Option<TeamRecord> },
}

impl View for ApiWrite {
    type V = ApiWriteModel;

    open spec fn view(&self) -> ApiWriteModel {
        match self {
            ApiWrite::Create { state } => ApiWriteModel::Create { id: state.id@ },
            ApiWrite::Lookup { id, task, state } => ApiWriteModel::Lookup {
                id: id@,
                task: task@,
                written: state.id@,
            },
            ApiWrite::Delete { id, doomed } => ApiWriteModel::Delete {
                id: id@,
                doomed: doomed.deep_view(),
            },
        }
    }
}

/// Where a request stands, as a value.
#[verifier::ext_equal]
#[allow(inconsistent_fields)]
pub enum ApiStep {
    Query { command: Command, state: ApiQueryModel },
    Execute { command: Command, state: ApiWriteModel },
    Done { answer: Answer },
}

/// Where a request stands.
#[derive(Debug)]
#[allow(inconsistent_fields)]
pub enum ApiProgress {
    /// Run this query and resume the state with its rows.
    Query { statement: Statement, state: ApiQuery },
    /// Run this statement and resume the state with how many rows it touched.
    Execute { statement: Statement, state: ApiWrite },
    /// Raise the event and give the answer.
    Done { response: Response },
}

impl View for ApiProgress {
    type V = ApiStep;

    open spec fn view(&self) -> ApiStep {
        match self {
            ApiProgress::Query { statement, state } => ApiStep::Query {
                command: statement@,
                state: state@,
            },
            ApiProgress::Execute { statement, state } => ApiStep::Execute {
                command: statement@,
                state: state@,
            },
            ApiProgress::Done { response } => ApiStep::Done { answer: response@ },
        }
    }
}

impl ApiProgress {
    /// What is to be written is in its canonical form.
    pub open spec fn canonical(self) -> bool {
        match self {
            ApiProgress::Query { statement, .. } => statement.canonical(),
            ApiProgress::Execute { statement, .. } => statement.canonical(),
            ApiProgress::Done { .. } => true,
        }
    }
}

/// A request that goes on as the store operation does, and answers with its result.
pub open spec fn lookup_api(id: Seq<char>, task: TaskModel, step: LookupStep) -> ApiStep {
    match step {
        LookupStep::Query { command, state } => ApiStep::Query {
            command,
            state: ApiQueryModel::Lookup { id, task, state },
        },
        LookupStep::Execute { command, id: written } => ApiStep::Execute {
            command,
            state: ApiWriteModel::Lookup { id, task, written },
        },
        LookupStep::Done { result } => ApiStep::Done { answer: lookup_answer(id, task, result) },
    }
}

fn lookup_progress(id: String, task: Task, progress: LookupProgress) -> (next: ApiProgress)
    ensures
        next@ == lookup_api(id@, task@, progress@),
        next.canonical() == progress.canonical(),
{
    match progress {
        LookupProgress::Query { statement, state } => ApiProgress::Query {
            statement,
            state: ApiQuery::Lookup { id, task, state },
        },
        LookupProgress::Execute { statement, state } => ApiProgress::Execute {
            statement,
            state: ApiWrite::Lookup { id, task, state },
        },
        LookupProgress::Done { result } => ApiProgress::Done {
            response: lookup_response(id.as_str(), task, result),
        },
    }
}

/// A request that goes on as a creation does, and answers with its result.
pub open spec fn create_api(step: CreateStep) -> ApiStep {
    match step {
        CreateStep::Execute { command, id } => ApiStep::Execute {
            command,
            state: ApiWriteModel::Create { id },
        },
        CreateStep::Query { command } => ApiStep::Query { command, state: ApiQueryModel::Create },
        CreateStep::Done { result } => ApiStep::Done { answer: create_answer(result) },
    }
}

fn create_progress(progress: CreateProgress) -> (next: ApiProgress)
    ensures
        next@ == create_api(progress@),
        next.canonical() == progress.canonical(),
{
    match progress {
        CreateProgress::Execute { statement, state } => ApiProgress::Execute {
            statement,
            state: ApiWrite::Create { state },
        },
        CreateProgress::Query { statement, state } => ApiProgress::Query {
            statement,
            state: ApiQuery::Create { state },
        },
        CreateProgress::Done { result } => ApiProgress::Done { response: create_response(result) },
    }
}

/// A list request.
pub open spec fn list_request() -> ApiStep {
    ApiStep::Query { command: Command::SelectAll, state: ApiQueryModel::List }
}

/// List the teams.
pub fn list_teams() -> (start: ApiProgress)
    ensures
        start@ == list_request(),
        start.canonical(),
{
    ApiProgress::Query { statement: TeamStore::list(), state: ApiQuery::List }
}

/// A health probe.
pub open spec fn health_request() -> ApiStep {
    ApiStep::Query { command: Command::SelectAll, state: ApiQueryModel::Health }
}

/// Probe the health of the store.
pub fn health() -> (start: ApiProgress)
    ensures
        start@ == health_request(),
        start.canonical(),
{
    ApiProgress::Query { statement: TeamStore::list(), state: ApiQuery::Health }
}

/// A request to create a team, under this id and at this time. A blank name is refused,
/// and the store is left alone.
pub open spec fn create_request(input: NewTeam, id: Seq<char>, now: Seq<char>) -> ApiStep {
    if trim(input.name).len() == 0 {
        ApiStep::Done {
            answer: plain(400, BodyModel::Error { message: "team name is required"@ }),
        }
    } else {
        create_api(create_step(input, id, now))
    }
}

fn blank_name_response() -> (response: Response)
    ensures
        response@ == plain(400, BodyModel::Error { message: "team name is required"@ }),
{
    rejected_body("team name is required".to_owned())
}

/// Create a team, under a given id and at a given time.
pub fn create_team_as(input: CreateTeam, id: String, now: String) -> (start: ApiProgress)
    ensures
        start@ == create_request(input@, id@, now@),
        start.canonical(),
{
    if is_blank(input.name.as_str()) {
        return ApiProgress::Done { response: blank_name_response() };
    }
    create_progress(crate::store::create_as(input, id, now))
}

/// Create a team, under a new id and at the time of the call.
pub fn create_team(input: CreateTeam) -> (start: ApiProgress)
    ensures
        exists|uuid: Seq<char>, time: Seq<char>|
            random_uuid(uuid) && utc_time(time) && start@ == #[trigger] create_request(
                input@,
                id_for(uuid),
                time,
            ),
        trim(input@.name).len() == 0 ==> start@ == (ApiStep::Done {
            answer: plain(400, BodyModel::Error { message: "team name is required"@ }),
        }),
        start.canonical(),
{
    if is_blank(input.name.as_str()) {
        let ghost uuid = crate::stamp::some_uuid();
        let ghost time = crate::stamp::some_time();
        let start = ApiProgress::Done { response: blank_name_response() };
        assert(start@ == create_request(input@, id_for(uuid), time));
        return start;
    }
    let ghost given = input@;
    let started = TeamStore::create(input);
    let start = create_progress(started);
    proof {
        let (uuid, time) = choose|uuid: Seq<char>, time: Seq<char>|
            random_uuid(uuid) && utc_time(time) && started@ == #[trigger] create_step(
                given,
                id_for(uuid),
                time,
            );
        assert(start@ == create_request(given, id_for(uuid), time));
    }
    start
}

/// Read a team.
pub fn get_team(id: String) -> (start: ApiProgress)
    ensures
        start@ == lookup_api(id@, TaskModel::Get, get_step(id@)),
        start.canonical(),
{
    let lookup = TeamStore::get(id.as_str());
    lookup_progress(id, Task::Get, lookup)
}

/// Patch a team.
pub fn update_team(id: String, patch: UpdateTeam) -> (start: ApiProgress)
    ensures
        start@ == lookup_api(id@, TaskModel::Update, update_step(id@, patch@)),
        start.canonical(),
{
    let lookup = TeamStore::update(id.as_str(), patch);
    lookup_progress(id, Task::Update, lookup)
}

/// A request to remove a team: it is read first.
pub open spec fn delete_request(id: Seq<char>) -> ApiStep {
    ApiStep::Query {
        command: Command::SelectById { id },
        state: ApiQueryModel::BeforeDelete { id },
    }
}

/// Remove a team.
pub fn delete_team(id: String) -> (start: ApiProgress)
    ensures
        start@ == delete_request(id@),
        start.canonical(),
{
    ApiProgress::Query {
        statement: Statement::SelectById { id: id.clone() },
        state: ApiQuery::BeforeDelete { id },
    }
}

/// A request to change the members of a team: the team is read first.
pub open spec fn member_request(
    id: Seq<char>,
    agent_id: Seq<char>,
    change: MemberChange,
) -> ApiStep {
    ApiStep::Query {
        command: Command::SelectById { id },
        state: ApiQueryModel::BeforeMembers { id, agent_id, change },
    }
}

/// Add an agent to a team.
pub fn add_team_member(id: String, agent_id: String) -> (start: ApiProgress)
    ensures
        start@ == member_request(id@, agent_id@, MemberChange::Join),
        start.canonical(),
{
    ApiProgress::Query {
        statement: Statement::SelectById { id: id.clone() },
        state: ApiQuery::BeforeMembers { id, agent_id, change: MemberChange::Join },
    }
}

/// Take an agent out of a team.
pub fn remove_team_member(id: String, agent_id: String) -> (start: ApiProgress)
    ensures
        start@ == member_request(id@, agent_id@, MemberChange::Leave),
        start.canonical(),
{
    ApiProgress::Query {
        statement: Statement::SelectById { id: id.clone() },
        state: ApiQuery::BeforeMembers { id, agent_id, change: MemberChange::Leave },
    }
}

/// The team that a read before the act found. A read that failed counts as having found
/// none: an event too many is recoverable, one too few is not.
pub open spec fn pre_read(reply: Result<Seq<Team>, Seq<char>>) -> Option<Team> {
    match reply {
        Ok(teams) => first(teams),
        Err(_) => None,
    }
}

/// The members of a team, if there is one.
pub open spec fn members_of(team: Option<Team>) -> Option<Seq<Seq<char>>> {
    match team {
        Some(team) => Some(team.members),
        None => None,
    }
}

fn pre_read_record(reply: Result<Vec<TeamRow>, String>) -> (found: Option<TeamRecord>)
    ensures
        found.deep_view() == pre_read(rows_reply(reply)),
{
    match reply {
        Ok(rows) => crate::store::first_record(rows),
        Err(_) => None,
    }
}

/// What follows the reply to a query, at this time.
pub open spec fn api_resumed(
    state: ApiQueryModel,
    reply: Result<Seq<Team>, Seq<char>>,
    now: Seq<char>,
) -> ApiStep {
    match state {
        ApiQueryModel::List => ApiStep::Done { answer: list_answer(listed(reply)) },
        ApiQueryModel::Health => ApiStep::Done { answer: health_answer(listed(reply)) },
        ApiQueryModel::Create => create_api(create_fetched(reply)),
        ApiQueryModel::Lookup { id, task, state } => lookup_api(
            id,
            task,
            lookup_resumed(state, reply, now),
        ),
        ApiQueryModel::BeforeDelete { id } => ApiStep::Execute {
            command: Command::Delete { id },
            state: ApiWriteModel::Delete { id, doomed: pre_read(reply) },
        },
        ApiQueryModel::BeforeMembers { id, agent_id, change } => lookup_api(
            id,
            TaskModel::Members { before: members_of(pre_read(reply)) },
            member_step(id, agent_id, change),
        ),
    }
}

/// What follows the reply to any other statement.
pub open spec fn api_written(state: ApiWriteModel, reply: Result<nat, Seq<char>>) -> ApiStep {
    match state {
        ApiWriteModel::Create { id } => create_api(create_written(id, reply)),
        ApiWriteModel::Lookup { id, task, written } => lookup_api(
            id,
            task,
            lookup_written(written, reply),
        ),
        ApiWriteModel::Delete { id, doomed } => ApiStep::Done {
            answer: delete_answer(id, doomed, deleted(reply)),
        },
    }
}

impl ApiQuery {
    /// Go on with the reply to a query, at a given time.
    pub fn resume_at(self, reply: Result<Vec<TeamRow>, String>, now: String) -> (next: ApiProgress)
        ensures
            next@ == api_resumed(self@, rows_reply(reply), now@),
            next.canonical(),
    {
        match self {
            ApiQuery::List => ApiProgress::Done {
                response: list_response(TeamStore::list_rows(reply)),
            },
            ApiQuery::Health => ApiProgress::Done {
                response: health_response(TeamStore::list_rows(reply)),
            },
            ApiQuery::Create { state } => create_progress(state.resume(reply)),
            ApiQuery::Lookup { id, task, state } => lookup_progress(
                id,
                task,
                state.resume_at(reply, now),
            ),
            ApiQuery::BeforeDelete { id } => {
                let doomed = pre_read_record(reply);
                ApiProgress::Execute {
                    statement: TeamStore::delete(id.as_str()),
                    state: ApiWrite::Delete { id, doomed },
                }
            },
            ApiQuery::BeforeMembers { id, agent_id, change } => {
                let before = match pre_read_record(reply) {
                    Some(record) => Some(record.members),
                    None => None,
                };
                let lookup = match change {
                    MemberChange::Join => TeamStore::add_member(id.as_str(), agent_id.as_str()),
                    MemberChange::Leave => TeamStore::remove_member(
                        id.as_str(),
                        agent_id.as_str(),
                    ),
                };
                lookup_progress(id, Task::Members { before }, lookup)
            },
        }
    }

    /// Go on with the reply to a query. Where a team is to be written, it is stamped with
    /// the time of the call.
    pub fn resume(self, reply: Result<Vec<TeamRow>, String>) -> (next: ApiProgress)
        ensures
            exists|now: Seq<char>|
                utc_time(now) && next@ == #[trigger] api_resumed(self@, rows_reply(reply), now),
            next.canonical(),
    {
        match self {
            ApiQuery::Lookup { id, task, state } => {
                let ghost waiting = state@;
                let resumed = state.resume(reply);
                let next = lookup_progress(id, task, resumed);
                proof {
                    let time = choose|time: Seq<char>|
                        utc_time(time) && resumed@ == #[trigger] lookup_resumed(
                            waiting,
                            rows_reply(reply),
                            time,
                        );
                    assert(next@ == api_resumed(self@, rows_reply(reply), time));
                }
                next
            },
            other => {
                let ghost time = crate::stamp::some_time();
                let next = other.resume_at(reply, String::new());
                assert(next@ == api_resumed(self@, rows_reply(reply), time));
                next
            },
        }
    }
}

impl ApiWrite {
    /// Go on with the reply to any other statement.
    pub fn resume(self, reply: Result<usize, String>) -> (next: ApiProgress)
        ensures
            next@ == api_written(self@, count_reply(reply)),
            next.canonical(),
    {
        match self {
            ApiWrite::Create { state } => create_progress(state.resume(reply)),
            ApiWrite::Lookup { id, task, state } => lookup_progress(id, task, state.resume(reply)),
            ApiWrite::Delete { id, doomed } => ApiProgress::Done {
                response: delete_response(id, doomed, TeamStore::delete_count(reply)),
            },
        }
    }
}

} // verus!
