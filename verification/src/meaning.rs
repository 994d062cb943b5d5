//! What the values that the contracts speak of are made of: a value shows every field of
//! what it stands for, and nothing else.

use vstd::prelude::*;

use crate::api::{
    ApiProgress, ApiQuery, ApiQueryModel, ApiStep, ApiWrite, ApiWriteModel, Body, BodyModel,
    Payload, PayloadModel, Response, Task, TeamEvent,
};
use crate::document::{Field, Value, ValueModel};
use crate::json::{decoded, json_members, members_json};
use crate::record::{CreateTeam, TeamRecord, UpdateTeam};
use crate::row::TeamRow;
use crate::statement::{Command, Statement};
use crate::store::{
    count_reply, create_result, delete_result, list_result, lookup_result, rows_reply,
    CreateProgress, CreateStep, Failure, LookupProgress, LookupQuery, LookupQueryModel, LookupStep,
    StoreError,
};

verus! {

/// A record shows all of its fields.
pub proof fn law_record_shows_its_fields(record: TeamRecord)
    ensures
        record.deep_view() == record@,
        record@.id == record.id@,
        record@.name == record.name@,
        record@.description is Some <==> record.description is Some,
        record@.description is Some ==> record@.description->0 == record.description->0@,
        record@.members.len() == record.members@.len(),
        forall|i: int|
            0 <= i < record.members@.len() ==> #[trigger] record@.members[i] == record.members@[i]@,
        record@.coordination == record.coordination,
        record@.lead_agent_id is Some <==> record.lead_agent_id is Some,
        record@.lead_agent_id is Some ==> record@.lead_agent_id->0 == record.lead_agent_id->0@,
        record@.created_at is Some <==> record.created_at is Some,
        record@.created_at is Some ==> record@.created_at->0 == record.created_at->0@,
        record@.updated_at is Some <==> record.updated_at is Some,
        record@.updated_at is Some ==> record@.updated_at->0 == record.updated_at->0@,
{
}

/// What a client supplies shows all of its fields.
pub proof fn law_input_shows_its_fields(input: CreateTeam)
    ensures
        input@.name == input.name@,
        input@.description is Some <==> input.description is Some,
        input@.description is Some ==> input@.description->0 == input.description->0@,
        input@.members.len() == input.members@.len(),
        forall|i: int|
            0 <= i < input.members@.len() ==> #[trigger] input@.members[i] == input.members@[i]@,
        input@.coordination == input.coordination,
        input@.lead_agent_id is Some <==> input.lead_agent_id is Some,
        input@.lead_agent_id is Some ==> input@.lead_agent_id->0 == input.lead_agent_id->0@,
{
}

/// A patch shows all of its fields, and which of them it holds.
pub proof fn law_patch_shows_its_fields(patch: UpdateTeam)
    ensures
        patch@.name is Some <==> patch.name is Some,
        patch@.name is Some ==> patch@.name->0 == patch.name->0@,
        patch@.description is Some <==> patch.description is Some,
        patch@.description is Some ==> patch@.description->0 == patch.description->0@,
        patch@.members is Some <==> patch.members is Some,
        patch@.members is Some ==> {
            &&& patch@.members->0.len() == patch.members->0@.len()
            &&& forall|i: int|
                0 <= i < patch.members->0@.len() ==> #[trigger] patch@.members->0[i]
                    == patch.members->0@[i]@
        },
        patch@.coordination == patch.coordination,
        patch@.lead_agent_id is Some <==> patch.lead_agent_id is Some,
        patch@.lead_agent_id is Some ==> {
            &&& patch@.lead_agent_id->0 is Some <==> patch.lead_agent_id->0 is Some
            &&& patch@.lead_agent_id->0 is Some ==> patch@.lead_agent_id->0->0
                == patch.lead_agent_id->0->0@
        },
{
}

/// A row shows all of its columns, the two encoded ones as what they are read as.
pub proof fn law_row_shows_its_columns(row: TeamRow)
    ensures
        row.deep_view() == row@,
        row@.id == row.id@,
        row@.name == row.name@,
        row@.description is Some <==> row.description is Some,
        row@.description is Some ==> row@.description->0 == row.description->0@,
        json_members(row.members@) is Some ==> row@.members == json_members(row.members@)->0,
        json_members(row.members@) is None ==> row@.members.len() == 0,
        row.coordination@ == row@.coordination.name() || row@.coordination
            == crate::coordination::Coordination::Broadcast,
        forall|c: crate::coordination::Coordination|
            row.coordination@ == #[trigger] c.name() ==> row@.coordination == c,
        row@.lead_agent_id is Some <==> row.lead_agent_id is Some,
        row@.lead_agent_id is Some ==> row@.lead_agent_id->0 == row.lead_agent_id->0@,
        row@.created_at is Some <==> row.created_at is Some,
        row@.created_at is Some ==> row@.created_at->0 == row.created_at->0@,
        row@.updated_at is Some <==> row.updated_at is Some,
        row@.updated_at is Some ==> row@.updated_at->0 == row.updated_at->0@,
{
    assert forall|c: crate::coordination::Coordination|
        row.coordination@ == #[trigger] c.name() implies row@.coordination == c by {
        crate::coordination::law_name_round_trip(c);
    }
    if row@.coordination != crate::coordination::Coordination::Broadcast {
        crate::coordination::law_named_exactly(row.coordination@, row@.coordination);
    }
}

/// A text that encodes a list is read as that list, any other as the empty one.
pub proof fn law_stored_list_reads_back(text: Seq<char>)
    ensures
        json_members(text) is Some ==> decoded(text) == json_members(text)->0,
        json_members(text) is None ==> decoded(text).len() == 0,
{
}

/// What is written in its canonical form holds the JSON text of the member list and the
/// name of the strategy, in a row, a statement, and wherever an operation or a request
/// stands before one.
pub proof fn law_canonical_rows(row: TeamRow)
    ensures
        row.canonical() <==> row.members@ == members_json(row@.members) && row.coordination@
            == row@.coordination.name(),
        forall|s: Statement| #[trigger]
            s.canonical() ==> match s {
                Statement::Insert { row } => row.members@ == members_json(row@.members)
                    && row.coordination@ == row@.coordination.name(),
                Statement::Update { row, .. } => row.members@ == members_json(row@.members)
                    && row.coordination@ == row@.coordination.name(),
                _ => true,
            },
        forall|p: LookupProgress| #[trigger]
            p.canonical() ==> (p matches LookupProgress::Execute { statement, .. }
                ==> statement.canonical()),
        forall|p: CreateProgress| #[trigger]
            p.canonical() ==> (p matches CreateProgress::Execute { statement, .. }
                ==> statement.canonical()),
        forall|p: ApiProgress| #[trigger]
            p.canonical() ==> (p matches ApiProgress::Execute { statement, .. }
                ==> statement.canonical()),
{
}

/// A statement shows what it is and what it is run with.
pub proof fn law_statement_shows_itself(statement: Statement)
    ensures
        match statement {
            Statement::SelectAll => statement@ is SelectAll,
            Statement::SelectById { id } => statement@ == (Command::SelectById { id: id@ }),
            Statement::Insert { row } => statement@ == (Command::Insert { team: row@ }),
            Statement::Update { id, row } => statement@ == (Command::Update {
                id: id@,
                team: row@,
            }),
            Statement::Delete { id } => statement@ == (Command::Delete { id: id@ }),
        },
{
}

/// Each statement is run with its own text.
pub proof fn law_statement_texts(statement: Statement)
    ensures
        statement is SelectAll ==> statement.sql_text()
            == "SELECT id, name, description, members, coordination, lead_agent_id, created_at, updated_at FROM teams ORDER BY created_at ASC"@,
        statement is SelectById ==> statement.sql_text()
            == "SELECT id, name, description, members, coordination, lead_agent_id, created_at, updated_at FROM teams WHERE id = ?1"@,
        statement is Insert ==> statement.sql_text()
            == "INSERT INTO teams (id, name, description, members, coordination, lead_agent_id, created_at, updated_at) VALUES (?1, ?2, ?3, ?4, ?5, ?6, ?7, ?7)"@,
        statement is Update ==> statement.sql_text()
            == "UPDATE teams SET name = ?1, description = ?2, members = ?3, coordination = ?4, lead_agent_id = ?5, updated_at = ?6 WHERE id = ?7"@,
        statement is Delete ==> statement.sql_text() == "DELETE FROM teams WHERE id = ?1"@,
{
}

/// The numbered places of a statement's text are filled with the columns that the text
/// names there.
pub proof fn law_statement_arguments(statement: Statement)
    ensures
        match statement {
            Statement::SelectAll => statement.arguments().len() == 0,
            Statement::SelectById { id } => {
                &&& statement.arguments().len() == 1
                &&& statement.arguments()[0] == Some(id@)
            },
            Statement::Insert { row } => {
                &&& statement.arguments().len() == 7
                &&& statement.arguments()[0] == Some(row.id@)
                &&& statement.arguments()[1] == Some(row.name@)
                &&& statement.arguments()[2] == row@.description
                &&& statement.arguments()[3] == Some(row.members@)
                &&& statement.arguments()[4] == Some(row.coordination@)
                &&& statement.arguments()[5] == row@.lead_agent_id
                &&& statement.arguments()[6] == row@.created_at
            },
            Statement::Update { id, row } => {
                &&& statement.arguments().len() == 7
                &&& statement.arguments()[0] == Some(row.name@)
                &&& statement.arguments()[1] == row@.description
                &&& statement.arguments()[2] == Some(row.members@)
                &&& statement.arguments()[3] == Some(row.coordination@)
                &&& statement.arguments()[4] == row@.lead_agent_id
                &&& statement.arguments()[5] == row@.updated_at
                &&& statement.arguments()[6] == Some(id@)
            },
            Statement::Delete { id } => {
                &&& statement.arguments().len() == 1
                &&& statement.arguments()[0] == Some(id@)
            },
        },
{
}

/// A failure shows which it is, and says what the database said.
pub proof fn law_failure_shows_itself(error: StoreError)
    ensures
        match error {
            StoreError::Database { message } => error@ == (Failure::Database { message: message@ })
                && error@.message() == message@,
            StoreError::Vanished => error@ is Vanished && error@.message()
                == "team vanished immediately after insert"@,
        },
{
}

/// Replies show what the database said: every row in its place, and the count.
pub proof fn law_replies_show_themselves(
    rows: Result<Vec<TeamRow>, String>,
    count: Result<usize, String>,
)
    ensures
        match rows {
            Ok(v) => {
                &&& rows_reply(rows) is Ok
                &&& rows_reply(rows)->Ok_0.len() == v@.len()
                &&& forall|i: int|
                    0 <= i < v@.len() ==> #[trigger] rows_reply(rows)->Ok_0[i] == v@[i]@
            },
            Err(message) => rows_reply(rows) is Err && rows_reply(rows)->Err_0 == message@,
        },
        match count {
            Ok(n) => count_reply(count) is Ok && count_reply(count)->Ok_0 == n,
            Err(message) => count_reply(count) is Err && count_reply(count)->Err_0 == message@,
        },
{
}

/// Results show the records that they hold.
pub proof fn law_results_show_themselves(
    found: Result<Option<TeamRecord>, StoreError>,
    made: Result<TeamRecord, StoreError>,
    all: Result<Vec<TeamRecord>, StoreError>,
    gone: Result<bool, StoreError>,
)
    ensures
        match found {
            Ok(Some(record)) => lookup_result(found) is Ok && lookup_result(found)->Ok_0 == Some(
                record@,
            ),
            Ok(None) => lookup_result(found) is Ok && lookup_result(found)->Ok_0 is None,
            Err(error) => lookup_result(found) is Err && lookup_result(found)->Err_0 == error@,
        },
        match made {
            Ok(record) => create_result(made) is Ok && create_result(made)->Ok_0 == record@,
            Err(error) => create_result(made) is Err && create_result(made)->Err_0 == error@,
        },
        match all {
            Ok(v) => {
                &&& list_result(all) is Ok
                &&& list_result(all)->Ok_0.len() == v@.len()
                &&& forall|i: int|
                    0 <= i < v@.len() ==> #[trigger] list_result(all)->Ok_0[i] == v@[i]@
            },
            Err(error) => list_result(all) is Err && list_result(all)->Err_0 == error@,
        },
        match gone {
            Ok(yes) => delete_result(gone) is Ok && delete_result(gone)->Ok_0 == yes,
            Err(error) => delete_result(gone) is Err && delete_result(gone)->Err_0 == error@,
        },
{
}

/// A store operation shows where it stands: the statement, what waits for the reply, and
/// the result.
pub proof fn law_operations_show_themselves(
    query: LookupQuery,
    lookup: LookupProgress,
    create: CreateProgress,
)
    ensures
        match query {
            LookupQuery::Fetch => query@ is Fetch,
            LookupQuery::Load { id, patch } => query@ == (LookupQueryModel::Load {
                id: id@,
                patch: patch@,
            }),
            LookupQuery::Probe { id, agent_id, change } => query@ == (LookupQueryModel::Probe {
                id: id@,
                agent_id: agent_id@,
                change,
            }),
        },
        match lookup {
            LookupProgress::Query { statement, state } => lookup@ == (LookupStep::Query {
                command: statement@,
                state: state@,
            }),
            LookupProgress::Execute { statement, state } => lookup@ == (LookupStep::Execute {
                command: statement@,
                id: state.id@,
            }),
            LookupProgress::Done { result } => lookup@ == (LookupStep::Done {
                result: lookup_result(result),
            }),
        },
        match create {
            CreateProgress::Execute { statement, state } => create@ == (CreateStep::Execute {
                command: statement@,
                id: state.id@,
            }),
            CreateProgress::Query { statement, .. } => create@ == (CreateStep::Query {
                command: statement@,
            }),
            CreateProgress::Done { result } => create@ == (CreateStep::Done {
                result: create_result(result),
            }),
        },
{
}

/// An answer shows its event, its status and its body, and each shows what it holds.
pub proof fn law_answers_show_themselves(
    response: Response,
    event: TeamEvent,
    payload: Payload,
    body: Body,
)
    ensures
        response@.status == response.status,
        response@.body == response.body@,
        response@.event is Some <==> response.event is Some,
        response@.event is Some ==> response@.event->0 == response.event->0@,
        event.deep_view() == event@,
        event@.kind == event.kind,
        event@.payload == event.payload@,
        match payload {
            Payload::Record { team } => payload@ == (PayloadModel::Record { team: team@ }),
            Payload::IdOnly { id } => payload@ == (PayloadModel::IdOnly { id: id@ }),
        },
        match body {
            Body::Teams { teams } => {
                &&& body@ is Teams
                &&& body@->teams.len() == teams@.len()
                &&& forall|i: int| 0 <= i < teams@.len() ==> #[trigger] body@->teams[i] == teams@[i]@
            },
            Body::Team { team } => body@ == (BodyModel::Team { team: team@ }),
            Body::Success => body@ is Success,
            Body::Error { message } => body@ == (BodyModel::Error { message: message@ }),
            Body::Healthy { team_count } => body@ is Healthy && body@->team_count == team_count,
            Body::Unhealthy { message } => body@ == (BodyModel::Unhealthy { message: message@ }),
        },
{
}

/// A request shows where it stands.
pub proof fn law_requests_show_themselves(
    task: Task,
    query: ApiQuery,
    write: ApiWrite,
    progress: ApiProgress,
)
    ensures
        match task {
            Task::Get => task@ is Get,
            Task::Update => task@ is Update,
            Task::Members { before } => {
                &&& task@ is Members
                &&& task@->before is Some <==> before is Some
                &&& before is Some ==> {
                    &&& task@->before->0.len() == before->0@.len()
                    &&& forall|i: int|
                        0 <= i < before->0@.len() ==> #[trigger] task@->before->0[i]
                            == before->0@[i]@
                }
            },
        },
        match query {
            ApiQuery::List => query@ is List,
            ApiQuery::Health => query@ is Health,
            ApiQuery::Create { .. } => query@ is Create,
            ApiQuery::Lookup { id, task, state } => query@ == (ApiQueryModel::Lookup {
                id: id@,
                task: task@,
                state: state@,
            }),
            ApiQuery::BeforeDelete { id } => query@ == (ApiQueryModel::BeforeDelete { id: id@ }),
            ApiQuery::BeforeMembers { id, agent_id, change } => query@ == (
            ApiQueryModel::BeforeMembers { id: id@, agent_id: agent_id@, change }),
        },
        match write {
            ApiWrite::Create { state } => write@ == (ApiWriteModel::Create { id: state.id@ }),
            ApiWrite::Lookup { id, task, state } => write@ == (ApiWriteModel::Lookup {
                id: id@,
                task: task@,
                written: state.id@,
            }),
            ApiWrite::Delete { id, doomed } => {
                &&& write@ is Delete
                &&& write@->Delete_id == id@
                &&& write@->doomed is Some <==> doomed is Some
                &&& doomed is Some ==> write@->doomed->0 == doomed->0@
            },
        },
        match progress {
            ApiProgress::Query { statement, state } => progress@ == (ApiStep::Query {
                command: statement@,
                state: state@,
            }),
            ApiProgress::Execute { statement, state } => progress@ == (ApiStep::Execute {
                command: statement@,
                state: state@,
            }),
            ApiProgress::Done { response } => progress@ == (ApiStep::Done { answer: response@ }),
        },
{
}

/// A field of a document shows its key and its value.
pub proof fn law_fields_show_themselves(field: Field, value: Value)
    ensures
        field.deep_view() == field@,
        field@.key == field.key@,
        field@.value == field.value@,
        match value {
            Value::Null => value@ is Null,
            Value::Text { text } => value@ == (ValueModel::Text { text: text@ }),
            Value::List { items } => {
                &&& value@ is List
                &&& value@->items.len() == items@.len()
                &&& forall|i: int| 0 <= i < items@.len() ==> #[trigger] value@->items[i] == items@[i]@
            },
        },
{
}

/// What is run when the database is opened: the table with its columns, its key, which of
/// them may be null, and the values that stand for a list and a strategy not given.
pub proof fn law_schema_text()
    ensures
        crate::statement::SCHEMA@ == "CREATE TABLE IF NOT EXISTS teams (
    id            TEXT PRIMARY KEY,
    name          TEXT NOT NULL,
    description   TEXT,
    members       TEXT NOT NULL DEFAULT '[]',
    coordination  TEXT NOT NULL DEFAULT 'broadcast',
    lead_agent_id TEXT,
    created_at    TEXT NOT NULL,
    updated_at    TEXT NOT NULL
);"@,
{
}

} // verus!
