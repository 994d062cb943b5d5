//! The team store: each operation as the sequence of statements that it runs.
//!
//! An operation starts as a statement to run and a state that waits for its reply. The
//! reply resumes it, with the next statement or with its result. Whoever holds the
//! database runs the statements; what they are, and what becomes of the replies, is
//! decided here.

use vstd::prelude::*;

use crate::record::{CreateTeam, NewTeam, Patch, Team, TeamRecord, UpdateTeam};
use crate::roster::{
    applied, apply_patch, created, is_member, joined, left, members_patch, new_record,
    replace_members, stamped, without_member,
};
use crate::row::{record_to_row, row_to_record, TeamRow};
use crate::stamp::{id_for, new_team_id, now, random_uuid, utc_time};
use crate::statement::{Command, Statement};

verus! {

/// Why an operation failed, as a value.
#[verifier::ext_equal]
pub enum Failure {
    Database { message: Seq<char> },
    Vanished,
}

impl Failure {
    /// What is said of the failure.
    pub open spec fn message(self) -> Seq<char> {
        match self {
            Failure::Database { message } => message,
            Failure::Vanished => "team vanished immediately after insert"@,
        }
    }
}

/// Why an operation failed.
#[derive(Debug)]
pub enum StoreError {
    /// The database could not run a statement; its message.
    Database { message: String },
    /// A team that was just inserted could not be read back.
    Vanished,
}

impl View for StoreError {
    type V = Failure;

    open spec fn view(&self) -> Failure {
        match self {
            StoreError::Database { message } => Failure::Database { message: message@ },
            StoreError::Vanished => Failure::Vanished,
        }
    }
}

impl StoreError {
    /// What to say of the failure.
    pub fn message(&self) -> (text: String)
        ensures
            text@ == self@.message(),
    {
        match self {
            StoreError::Database { message } => message.clone(),
            StoreError::Vanished => "team vanished immediately after insert".to_owned(),
        }
    }
}

/// A reply to a query, as a value.
pub open spec fn rows_reply(reply: Result<Vec<TeamRow>, String>) -> Result<Seq<Team>, Seq<char>> {
    match reply {
        Ok(rows) => Ok(rows.deep_view()),
        Err(message) => Err(message@),
    }
}

/// A reply to any other statement, as a value: how many rows it touched.
pub open spec fn count_reply(reply: Result<usize, String>) -> Result<nat, Seq<char>> {
    match reply {
        Ok(count) => Ok(count as nat),
        Err(message) => Err(message@),
    }
}

/// The first of some teams.
pub open spec fn first(teams: Seq<Team>) -> Option<Team> {
    if teams.len() > 0 {
        Some(teams[0])
    } else {
        None
    }
}

/// The record of the first row.
pub fn first_record(rows: Vec<TeamRow>) -> (record: Option<TeamRecord>)
    ensures
        record.deep_view() == first(rows.deep_view()),
{
    let mut rows = rows;
    if rows.len() == 0 {
        None
    } else {
        Some(row_to_record(rows.remove(0)))
    }
}

/// An agent joins or leaves a team.
#[derive(Debug, Clone, Copy, PartialEq, Eq, Structural)]
pub enum MemberChange {
    Join,
    Leave,
}

/// What the reply to a query is awaited for, as a value.
#[verifier::ext_equal]
pub enum LookupQueryModel {
    Fetch,
    Load { id: Seq<char>, patch: Patch },
    Probe { id: Seq<char>, agent_id: Seq<char>, change: MemberChange },
}

/// What the reply to a query is awaited for, on the way to at most one team.
#[derive(Debug)]
pub enum LookupQuery {
    /// To give the team back.
    Fetch,
    /// To patch the team.
    Load { id: String, patch: UpdateTeam },
    /// To see who is a member before the list changes.
    Probe { id: String, agent_id: String, change: MemberChange },
}

impl View for LookupQuery {
    type V = LookupQueryModel;

    open spec fn view(&self) -> LookupQueryModel {
        match self {
            LookupQuery::Fetch => LookupQueryModel::Fetch,
            LookupQuery::Load { id, patch } => LookupQueryModel::Load { id: id@, patch: patch@ },
            LookupQuery::Probe { id, agent_id, change } => LookupQueryModel::Probe {
                id: id@,
                agent_id: agent_id@,
                change: *change,
            },
        }
    }
}

/// The team with this id was written; the reply says whether that went well.
#[derive(Debug)]
pub struct LookupWrite {
    pub id: String,
}

/// Where an operation that ends in at most one team stands, as a value.
#[verifier::ext_equal]
pub enum LookupStep {
    Query { command: Command, state: LookupQueryModel },
    Execute { command: Command, id: Seq<char> },
    Done { result: Result<Option<Team>, Failure> },
}

/// Where an operation that ends in at most one team stands.
#[derive(Debug)]
#[allow(inconsistent_fields)]
pub enum LookupProgress {
    /// Run this query and resume the state with its rows.
    Query { statement: Statement, state: LookupQuery },
    /// Run this statement and resume the state with how many rows it touched.
    Execute { statement: Statement, state: LookupWrite },
    /// The operation has ended.
    Done { result: Result<Option<TeamRecord>, StoreError> },
}

/// A result that is at most one team, as a value.
pub open spec fn lookup_result(result: Result<Option<TeamRecord>, StoreError>) -> Result<
    Option<Team>,
    Failure,
> {
    match result {
        Ok(found) => Ok(found.deep_view()),
        Err(error) => Err(error@),
    }
}

impl View for LookupProgress {
    type V = LookupStep;

    open spec fn view(&self) -> LookupStep {
        match self {
            LookupProgress::Query { statement, state } => LookupStep::Query {
                command: statement@,
                state: state@,
            },
            LookupProgress::Execute { statement, state } => LookupStep::Execute {
                command: statement@,
                id: state.id@,
            },
            LookupProgress::Done { result } => LookupStep::Done { result: lookup_result(*result) },
        }
    }
}

impl LookupProgress {
    /// What is to be written is in its canonical form.
    pub open spec fn canonical(self) -> bool {
        match self {
            LookupProgress::Query { statement, .. } => statement.canonical(),
            LookupProgress::Execute { statement, .. } => statement.canonical(),
            LookupProgress::Done { .. } => true,
        }
    }
}

/// Read the team with this id and give it back.
pub open spec fn get_step(id: Seq<char>) -> LookupStep {
    LookupStep::Query { command: Command::SelectById { id }, state: LookupQueryModel::Fetch }
}

/// Read the team with this id and patch it.
pub open spec fn update_step(id: Seq<char>, patch: Patch) -> LookupStep {
    LookupStep::Query {
        command: Command::SelectById { id },
        state: LookupQueryModel::Load { id, patch },
    }
}

/// Read the team with this id and change its member list.
pub open spec fn member_step(id: Seq<char>, agent_id: Seq<char>, change: MemberChange) -> LookupStep {
    LookupStep::Query {
        command: Command::SelectById { id },
        state: LookupQueryModel::Probe { id, agent_id, change },
    }
}

/// What follows the reply to a query, at this time. A failed query ends the operation,
/// and so does a team that is not there. A team that was loaded is written with the patch
/// put in. An agent that joins a team it is in, or leaves one it is not in, ends the operation
/// with the team as it is; any other change of members is a patch that replaces the list.
pub open spec fn lookup_resumed(
    state: LookupQueryModel,
    reply: Result<Seq<Team>, Seq<char>>,
    now: Seq<char>,
) -> LookupStep {
    match reply {
        Err(message) => LookupStep::Done { result: Err(Failure::Database { message }) },
        Ok(teams) => match (state, first(teams)) {
            (LookupQueryModel::Fetch, found) => LookupStep::Done { result: Ok(found) },
            (_, None) => LookupStep::Done { result: Ok(None) },
            (LookupQueryModel::Load { id, patch }, Some(team)) => LookupStep::Execute {
                command: Command::Update { id, team: stamped(applied(team, patch), now) },
                id,
            },
            (LookupQueryModel::Probe { id, agent_id, change }, Some(team)) => match change {
                MemberChange::Join => if team.members.contains(agent_id) {
                    LookupStep::Done { result: Ok(Some(team)) }
                } else {
                    update_step(id, members_patch(joined(team.members, agent_id)))
                },
                MemberChange::Leave => if team.members.contains(agent_id) {
                    update_step(id, members_patch(left(team.members, agent_id)))
                } else {
                    LookupStep::Done { result: Ok(Some(team)) }
                },
            },
        },
    }
}

/// What follows once the team was written: it is read back.
pub open spec fn lookup_written(id: Seq<char>, reply: Result<nat, Seq<char>>) -> LookupStep {
    match reply {
        Err(message) => LookupStep::Done { result: Err(Failure::Database { message }) },
        Ok(_) => get_step(id),
    }
}

impl LookupQuery {
    /// Go on with the reply to the query, at a given time.
    pub fn resume_at(self, reply: Result<Vec<TeamRow>, String>, now: String) -> (next:
        LookupProgress)
        ensures
            next@ == lookup_resumed(self@, rows_reply(reply), now@),
            next.canonical(),
    {
        let rows = match reply {
            Ok(rows) => rows,
            Err(message) => {
                return LookupProgress::Done { result: Err(StoreError::Database { message }) };
            },
        };
        let found = first_record(rows);
        match self {
            LookupQuery::Fetch => LookupProgress::Done { result: Ok(found) },
            LookupQuery::Load { id, patch } => match found {
                None => LookupProgress::Done { result: Ok(None) },
                Some(record) => {
                    let mut changed = apply_patch(record, patch);
                    changed.updated_at = Some(now);
                    LookupProgress::Execute {
                        statement: Statement::Update {
                            id: id.clone(),
                            row: record_to_row(changed),
                        },
                        state: LookupWrite { id },
                    }
                },
            },
            LookupQuery::Probe { id, agent_id, change } => match found {
                None => LookupProgress::Done { result: Ok(None) },
                Some(record) => match change {
                    MemberChange::Join => {
                        if is_member(&record.members, agent_id.as_str()) {
                            return LookupProgress::Done { result: Ok(Some(record)) };
                        }
                        let ghost before = record.members.deep_view();
                        let mut members = record.members;
                        members.push(agent_id);
                        assert(members.deep_view() =~= before.push(agent_id@));
                        TeamStore::update(id.as_str(), replace_members(members))
                    },
                    MemberChange::Leave => {
                        if !is_member(&record.members, agent_id.as_str()) {
                            return LookupProgress::Done { result: Ok(Some(record)) };
                        }
                        let members = without_member(record.members, agent_id.as_str());
                        TeamStore::update(id.as_str(), replace_members(members))
                    },
                },
            },
        }
    }

    /// Go on with the reply to the query. Where a team is to be written, it is stamped
    /// with the time of the call; nowhere else is the clock read.
    pub fn resume(self, reply: Result<Vec<TeamRow>, String>) -> (next: LookupProgress)
        ensures
            exists|now: Seq<char>|
                utc_time(now) && next@ == #[trigger] lookup_resumed(self@, rows_reply(reply), now),
            next.canonical(),
    {
        let writes = match (&self, &reply) {
            (LookupQuery::Load { .. }, Ok(rows)) => rows.len() > 0,
            _ => false,
        };
        if writes {
            let time = now();
            self.resume_at(reply, time)
        } else {
            let ghost time = crate::stamp::some_time();
            let next = self.resume_at(reply, String::new());
            assert(next@ == lookup_resumed(self@, rows_reply(reply), time));
            next
        }
    }
}

impl LookupWrite {
    /// Go on once the team was written.
    pub fn resume(self, reply: Result<usize, String>) -> (next: LookupProgress)
        ensures
            next@ == lookup_written(self.id@, count_reply(reply)),
            next.canonical(),
    {
        match reply {
            Err(message) => LookupProgress::Done { result: Err(StoreError::Database { message }) },
            Ok(_) => TeamStore::get(self.id.as_str()),
        }
    }
}

/// Where the creation of a team stands, as a value.
#[verifier::ext_equal]
pub enum CreateStep {
    Execute { command: Command, id: Seq<char> },
    Query { command: Command },
    Done { result: Result<Team, Failure> },
}

/// The team with this id was inserted; the reply says whether that went well.
#[derive(Debug)]
pub struct CreateWrite {
    pub id: String,
}

/// The team that was inserted is being read back.
#[derive(Debug)]
pub struct CreateQuery {}

/// Where the creation of a team stands.
#[derive(Debug)]
#[allow(inconsistent_fields)]
pub enum CreateProgress {
    /// Run this statement and resume the state with how many rows it touched.
    Execute { statement: Statement, state: CreateWrite },
    /// Run this query and resume the state with its rows.
    Query { statement: Statement, state: CreateQuery },
    /// The operation has ended.
    Done { result: Result<TeamRecord, StoreError> },
}

/// A result that is one team, as a value.
pub open spec fn create_result(result: Result<TeamRecord, StoreError>) -> Result<Team, Failure> {
    match result {
        Ok(record) => Ok(record@),
        Err(error) => Err(error@),
    }
}

impl View for CreateProgress {
    type V = CreateStep;

    open spec fn view(&self) -> CreateStep {
        match self {
            CreateProgress::Execute { statement, state } => CreateStep::Execute {
                command: statement@,
                id: state.id@,
            },
            CreateProgress::Query { statement, .. } => CreateStep::Query { command: statement@ },
            CreateProgress::Done { result } => CreateStep::Done { result: create_result(*result) },
        }
    }
}

impl CreateProgress {
    /// What is to be written is in its canonical form.
    pub open spec fn canonical(self) -> bool {
        match self {
            CreateProgress::Execute { statement, .. } => statement.canonical(),
            CreateProgress::Query { statement, .. } => statement.canonical(),
            CreateProgress::Done { .. } => true,
        }
    }
}

/// Insert a new team, under this id and at this time.
pub open spec fn create_step(input: NewTeam, id: Seq<char>, now: Seq<char>) -> CreateStep {
    CreateStep::Execute { command: Command::Insert { team: created(input, id, now) }, id }
}

/// What follows once the team was inserted: it is read back.
pub open spec fn create_written(id: Seq<char>, reply: Result<nat, Seq<char>>) -> CreateStep {
    match reply {
        Err(message) => CreateStep::Done { result: Err(Failure::Database { message }) },
        Ok(_) => CreateStep::Query { command: Command::SelectById { id } },
    }
}

/// What follows once the team was read back.
pub open spec fn create_fetched(reply: Result<Seq<Team>, Seq<char>>) -> CreateStep {
    CreateStep::Done {
        result: match reply {
            Err(message) => Err(Failure::Database { message }),
            Ok(teams) => match first(teams) {
                Some(team) => Ok(team),
                None => Err(Failure::Vanished),
            },
        },
    }
}

/// Insert a new team, under a given id and at a given time.
pub fn create_as(input: CreateTeam, id: String, now: String) -> (start: CreateProgress)
    ensures
        start@ == create_step(input@, id@, now@),
        start.canonical(),
{
    let record = new_record(input, id.clone(), now);
    CreateProgress::Execute {
        statement: Statement::Insert { row: record_to_row(record) },
        state: CreateWrite { id },
    }
}

impl CreateWrite {
    /// Go on once the team was inserted.
    pub fn resume(self, reply: Result<usize, String>) -> (next: CreateProgress)
        ensures
            next@ == create_written(self.id@, count_reply(reply)),
            next.canonical(),
    {
        match reply {
            Err(message) => CreateProgress::Done { result: Err(StoreError::Database { message }) },
            Ok(_) => CreateProgress::Query {
                statement: Statement::SelectById { id: self.id },
                state: CreateQuery {  },
            },
        }
    }
}

impl CreateQuery {
    /// Go on with the team that was read back.
    pub fn resume(self, reply: Result<Vec<TeamRow>, String>) -> (next: CreateProgress)
        ensures
            next@ == create_fetched(rows_reply(reply)),
            next.canonical(),
    {
        CreateProgress::Done {
            result: match reply {
                Err(message) => Err(StoreError::Database { message }),
                Ok(rows) => match first_record(rows) {
                    Some(record) => Ok(record),
                    None => Err(StoreError::Vanished),
                },
            },
        }
    }
}

/// What a listing comes to.
pub open spec fn listed(reply: Result<Seq<Team>, Seq<char>>) -> Result<Seq<Team>, Failure> {
    match reply {
        Ok(teams) => Ok(teams),
        Err(message) => Err(Failure::Database { message }),
    }
}

/// A result that is a list of teams, as a value.
pub open spec fn list_result(result: Result<Vec<TeamRecord>, StoreError>) -> Result<
    Seq<Team>,
    Failure,
> {
    match result {
        Ok(records) => Ok(records.deep_view()),
        Err(error) => Err(error@),
    }
}

/// What a removal comes to: whether there was something to remove.
pub open spec fn deleted(reply: Result<nat, Seq<char>>) -> Result<bool, Failure> {
    match reply {
        Ok(count) => Ok(count > 0),
        Err(message) => Err(Failure::Database { message }),
    }
}

/// A result that is yes or no, as a value.
pub open spec fn delete_result(result: Result<bool, StoreError>) -> Result<bool, Failure> {
    match result {
        Ok(gone) => Ok(gone),
        Err(error) => Err(error@),
    }
}

/// The operations of the team store.
pub struct TeamStore {}

impl TeamStore {
    /// What to run once, when the database is opened.
    pub fn migrate() -> (schema: &'static str)
        ensures
            schema@ == crate::statement::SCHEMA@,
    {
        crate::statement::SCHEMA
    }

    /// Read every team, the oldest first.
    pub fn list() -> (statement: Statement)
        ensures
            statement@ == Command::SelectAll,
    {
        Statement::SelectAll
    }

    /// The teams that were read. Every row gives one.
    pub fn list_rows(reply: Result<Vec<TeamRow>, String>) -> (result: Result<
        Vec<TeamRecord>,
        StoreError,
    >)
        ensures
            list_result(result) == listed(rows_reply(reply)),
    {
        let rows = match reply {
            Ok(rows) => rows,
            Err(message) => {
                return Err(StoreError::Database { message });
            },
        };
        let ghost teams = rows.deep_view();
        let mut records: Vec<TeamRecord> = Vec::new();
        assert(records.deep_view() =~= teams.take(0));
        for row in it: rows
            invariant
                it.seq().len() == teams.len(),
                forall|i: int| 0 <= i < teams.len() ==> (#[trigger] it.seq()[i])@ == teams[i],
                records.deep_view() == teams.take(it.index()),
        {
            let ghost before = records.deep_view();
            let ghost done = it.index();
            records.push(row_to_record(row));
            assert(records.deep_view() =~= before.push(teams[done]));
            assert(teams.take(done + 1) =~= teams.take(done).push(teams[done]));
        }
        assert(teams.take(teams.len() as int) =~= teams);
        Ok(records)
    }

    /// Give the team with this id, if there is one.
    pub fn get(id: &str) -> (start: LookupProgress)
        ensures
            start@ == get_step(id@),
            start.canonical(),
    {
        LookupProgress::Query {
            statement: Statement::SelectById { id: id.to_owned() },
            state: LookupQuery::Fetch,
        }
    }

    /// Store a new team, under a new id and at the time of the call.
    pub fn create(input: CreateTeam) -> (start: CreateProgress)
        ensures
            exists|uuid: Seq<char>, time: Seq<char>|
                random_uuid(uuid) && utc_time(time) && start@ == #[trigger] create_step(
                    input@,
                    id_for(uuid),
                    time,
                ),
            start.canonical(),
    {
        let id = new_team_id();
        let time = now();
        create_as(input, id, time)
    }

    /// Patch the team with this id, if there is one.
    pub fn update(id: &str, patch: UpdateTeam) -> (start: LookupProgress)
        ensures
            start@ == update_step(id@, patch@),
            start.canonical(),
    {
        LookupProgress::Query {
            statement: Statement::SelectById { id: id.to_owned() },
            state: LookupQuery::Load { id: id.to_owned(), patch },
        }
    }

    /// Remove the team with this id.
    pub fn delete(id: &str) -> (statement: Statement)
        ensures
            statement@ == (Command::Delete { id: id@ }),
    {
        Statement::Delete { id: id.to_owned() }
    }

    /// Whether a team was removed.
    pub fn delete_count(reply: Result<usize, String>) -> (result: Result<bool, StoreError>)
        ensures
            delete_result(result) == deleted(count_reply(reply)),
    {
        match reply {
            Ok(count) => Ok(count > 0),
            Err(message) => Err(StoreError::Database { message }),
        }
    }

    /// Append an agent to the member list of a team, if the team exists. An agent that is
    /// in the list already stays where it is.
    pub fn add_member(team_id: &str, agent_id: &str) -> (start: LookupProgress)
        ensures
            start@ == member_step(team_id@, agent_id@, MemberChange::Join),
            start.canonical(),
    {
        LookupProgress::Query {
            statement: Statement::SelectById { id: team_id.to_owned() },
            state: LookupQuery::Probe {
                id: team_id.to_owned(),
                agent_id: agent_id.to_owned(),
                change: MemberChange::Join,
            },
        }
    }

    /// Take an agent out of the member list of a team, if the team exists. Where the agent
    /// is not in the list, the team stays as it is.
    pub fn remove_member(team_id: &str, agent_id: &str) -> (start: LookupProgress)
        ensures
            start@ == member_step(team_id@, agent_id@, MemberChange::Leave),
            start.canonical(),
    {
        LookupProgress::Query {
            statement: Statement::SelectById { id: team_id.to_owned() },
            state: LookupQuery::Probe {
                id: team_id.to_owned(),
                agent_id: agent_id.to_owned(),
                change: MemberChange::Leave,
            },
        }
    }
}

} // verus!
