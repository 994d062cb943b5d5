//! What becomes of each reply, whatever the database replies and whoever else writes to the
//! table: what the next statement is, what it writes, and what is answered, field by field.

use vstd::prelude::*;

use crate::api::{
    api_resumed, api_written, create_answer, create_api, create_request, delete_answer,
    delete_request, failed, health_answer, health_request, list_answer, list_request,
    lookup_answer, lookup_api, member_request, members_of, not_found, plain, pre_read, with_event,
    ApiQueryModel, ApiStep, ApiWriteModel, BodyModel, EventKind, PayloadModel, TaskModel,
};
use crate::record::{no_patch, NewTeam, Patch, Team};
use crate::roster::{created, joined, law_leave, left, members_patch, stamped};
use crate::statement::Command;
use crate::store::{
    create_fetched, create_step, create_written, deleted, first, get_step, listed, lookup_resumed,
    lookup_written, member_step, update_step, CreateStep, Failure, LookupQueryModel, LookupStep,
    MemberChange,
};
use crate::text::{lemma_trim_empty, white_space};

verus! {

/// To stamp a team with a time changes when it was last changed, and nothing else of it.
pub proof fn law_stamp_changes_the_time_only(team: Team, now: Seq<char>)
    ensures
        stamped(team, now).updated_at == Some(now),
        stamped(team, now).id == team.id,
        stamped(team, now).name == team.name,
        stamped(team, now).description == team.description,
        stamped(team, now).members == team.members,
        stamped(team, now).coordination == team.coordination,
        stamped(team, now).lead_agent_id == team.lead_agent_id,
        stamped(team, now).created_at == team.created_at,
{
}

/// A new team is what the client described, under the id and at the time it was given.
pub proof fn law_new_team_is_the_input(input: NewTeam, id: Seq<char>, now: Seq<char>)
    ensures
        created(input, id, now).id == id,
        created(input, id, now).name == input.name,
        created(input, id, now).description == input.description,
        created(input, id, now).members.len() == input.members.len(),
        forall|i: int|
            0 <= i < input.members.len() ==> #[trigger] created(input, id, now).members[i]
                == input.members[i],
        created(input, id, now).coordination == input.coordination,
        created(input, id, now).lead_agent_id == input.lead_agent_id,
        created(input, id, now).created_at == Some(now),
        created(input, id, now).updated_at == Some(now),
{
}

/// The patch that replaces the member list holds that list and no other field; the patch
/// that changes nothing holds none.
pub proof fn law_member_patch_holds_the_list_only(members: Seq<Seq<char>>)
    ensures
        members_patch(members).members == Some(members),
        members_patch(members).name is None,
        members_patch(members).description is None,
        members_patch(members).coordination is None,
        members_patch(members).lead_agent_id is None,
        no_patch().name is None,
        no_patch().description is None,
        no_patch().members is None,
        no_patch().coordination is None,
        no_patch().lead_agent_id is None,
{
}

/// Each store operation on one team starts by reading that team, and then knows what it was
/// asked for.
pub proof fn law_operations_start_with_a_read(
    id: Seq<char>,
    patch: Patch,
    agent_id: Seq<char>,
    change: MemberChange,
)
    ensures
        get_step(id) matches LookupStep::Query { command, state } && command
            == (Command::SelectById { id }) && state is Fetch,
        update_step(id, patch) matches LookupStep::Query { command, state } && command
            == (Command::SelectById { id }) && state == (LookupQueryModel::Load { id, patch }),
        member_step(id, agent_id, change) matches LookupStep::Query { command, state } && command
            == (Command::SelectById { id }) && state == (LookupQueryModel::Probe {
            id,
            agent_id,
            change,
        }),
{
}

/// A read that failed ends any store operation with what the database said; one that found
/// no team ends it with none. A read for its own sake gives the first team found.
pub proof fn law_read_replies(
    state: LookupQueryModel,
    message: Seq<char>,
    teams: Seq<Team>,
    now: Seq<char>,
)
    ensures
        lookup_resumed(state, Err(message), now) matches LookupStep::Done { result } && result
            == Err::<Option<Team>, Failure>(Failure::Database { message }),
        teams.len() == 0 ==> (lookup_resumed(state, Ok(teams), now) matches LookupStep::Done {
            result,
        } && result == Ok::<Option<Team>, Failure>(None)),
        teams.len() > 0 ==> (lookup_resumed(
            LookupQueryModel::Fetch,
            Ok(teams),
            now,
        ) matches LookupStep::Done { result } && result == Ok::<Option<Team>, Failure>(
            Some(teams[0]),
        )),
        teams.len() == 0 ==> first(teams) is None,
        teams.len() > 0 ==> first(teams) == Some(teams[0]),
{
}

/// A team that was read to be patched is written under the id it was asked for by: each
/// field as the patch has it where the patch has one, else as it was read, and stamped with
/// the time.
pub proof fn law_patched_team_is_written(
    id: Seq<char>,
    patch: Patch,
    teams: Seq<Team>,
    now: Seq<char>,
)
    requires
        teams.len() > 0,
    ensures
        ({
            let step = lookup_resumed(LookupQueryModel::Load { id, patch }, Ok(teams), now);
            let was = teams[0];
            let team = step->Execute_command->Update_team;
            &&& step is Execute
            &&& step->Execute_id == id
            &&& step->Execute_command is Update
            &&& step->Execute_command->Update_id == id
            &&& team.id == was.id
            &&& team.created_at == was.created_at
            &&& team.updated_at == Some(now)
            &&& patch.name is Some ==> team.name == patch.name->0
            &&& patch.name is None ==> team.name == was.name
            &&& patch.description is Some ==> team.description == patch.description
            &&& patch.description is None ==> team.description == was.description
            &&& patch.members is Some ==> team.members == patch.members->0
            &&& patch.members is None ==> team.members == was.members
            &&& patch.coordination is Some ==> team.coordination == patch.coordination->0
            &&& patch.coordination is None ==> team.coordination == was.coordination
            &&& patch.lead_agent_id is Some ==> team.lead_agent_id == patch.lead_agent_id->0
            &&& patch.lead_agent_id is None ==> team.lead_agent_id == was.lead_agent_id
        }),
{
}

/// A team that an agent joins or leaves is given back as it was read where nothing is to be
/// done. Otherwise it is read again, to be patched in its member list only: with the agent
/// put last, or with every occurrence of it taken out and the others in their order.
pub proof fn law_member_change_follows_the_read(
    id: Seq<char>,
    agent_id: Seq<char>,
    change: MemberChange,
    teams: Seq<Team>,
    now: Seq<char>,
)
    requires
        teams.len() > 0,
    ensures
        ({
            let step = lookup_resumed(
                LookupQueryModel::Probe { id, agent_id, change },
                Ok(teams),
                now,
            );
            let was = teams[0].members;
            let patch = step->Query_state->patch;
            let list = patch.members->0;
            if was.contains(agent_id) == (change == MemberChange::Join) {
                step == (LookupStep::Done { result: Ok(Some(teams[0])) })
            } else {
                &&& step is Query
                &&& step->Query_command == (Command::SelectById { id })
                &&& step->Query_state is Load
                &&& step->Query_state->Load_id == id
                &&& patch.name is None
                &&& patch.description is None
                &&& patch.coordination is None
                &&& patch.lead_agent_id is None
                &&& patch.members is Some
                &&& change == MemberChange::Join ==> {
                    &&& list.len() == was.len() + 1
                    &&& list.last() == agent_id
                    &&& forall|i: int| 0 <= i < was.len() ==> #[trigger] list[i] == was[i]
                }
                &&& change == MemberChange::Leave ==> {
                    &&& list == left(was, agent_id)
                    &&& !list.contains(agent_id)
                    &&& forall|other: Seq<char>|
                        other != agent_id ==> (#[trigger] list.contains(other) <==> was.contains(
                            other,
                        ))
                }
            }
        }),
{
    law_leave(teams[0].members, agent_id);
}

/// Once a team was written it is read back under the same id, whether or not a row was
/// touched; a write that failed ends the operation.
pub proof fn law_write_replies(id: Seq<char>, count: nat, message: Seq<char>)
    ensures
        lookup_written(id, Ok(count)) matches LookupStep::Query { command, state } && command
            == (Command::SelectById { id }) && state is Fetch,
        lookup_written(id, Err(message)) matches LookupStep::Done { result } && result == Err::<
            Option<Team>,
            Failure,
        >(Failure::Database { message }),
        create_written(id, Ok(count)) matches CreateStep::Query { command } && command == (
        Command::SelectById { id }),
        create_written(id, Err(message)) matches CreateStep::Done { result } && result == Err::<
            Team,
            Failure,
        >(Failure::Database { message }),
{
}

/// A creation inserts what the client described, under the id and at the time it was given,
/// and waits for that id.
pub proof fn law_creation_inserts_the_input(input: NewTeam, id: Seq<char>, now: Seq<char>)
    ensures
        ({
            let step = create_step(input, id, now);
            let team = step->Execute_command->Insert_team;
            &&& step is Execute
            &&& step->Execute_id == id
            &&& step->Execute_command is Insert
            &&& team.id == id
            &&& team.name == input.name
            &&& team.description == input.description
            &&& team.members.len() == input.members.len()
            &&& forall|i: int|
                0 <= i < input.members.len() ==> #[trigger] team.members[i] == input.members[i]
            &&& team.coordination == input.coordination
            &&& team.lead_agent_id == input.lead_agent_id
            &&& team.created_at == Some(now)
            &&& team.updated_at == Some(now)
        }),
{
}

/// A creation ends with the team that was read back, as it was read; with a failure of its
/// own where there was none; or with what the database said.
pub proof fn law_creation_ends(teams: Seq<Team>, message: Seq<char>)
    ensures
        teams.len() > 0 ==> (create_fetched(Ok(teams)) matches CreateStep::Done { result }
            && result == Ok::<Team, Failure>(teams[0])),
        teams.len() == 0 ==> (create_fetched(Ok(teams)) matches CreateStep::Done { result }
            && result == Err::<Team, Failure>(Failure::Vanished)),
        create_fetched(Err(message)) matches CreateStep::Done { result } && result == Err::<
            Team,
            Failure,
        >(Failure::Database { message }),
{
}

/// A listing gives the teams that were read, all of them and in that order. A removal took
/// something away exactly when a row was touched.
pub proof fn law_list_and_delete_replies(teams: Seq<Team>, count: nat, message: Seq<char>)
    ensures
        listed(Ok(teams)) is Ok,
        listed(Ok(teams))->Ok_0 == teams,
        listed(Err(message)) is Err,
        listed(Err(message))->Err_0 == (Failure::Database { message }),
        deleted(Ok(count)) is Ok,
        deleted(Ok(count))->Ok_0 <==> count > 0,
        deleted(Err(message)) is Err,
        deleted(Err(message))->Err_0 == (Failure::Database { message }),
{
}

/// An answer without an event has the status and the body it was given, and no event. An
/// answer with one gives the team, and the event is of that kind and carries that team.
pub proof fn law_answers_are_what_they_are_built_of(
    kind: EventKind,
    status: u16,
    body: BodyModel,
    team: Team,
    id: Seq<char>,
    failure: Failure,
)
    ensures
        plain(status, body).event is None,
        plain(status, body).status == status,
        plain(status, body).body == body,
        with_event(kind, status, team).event is Some,
        with_event(kind, status, team).event->0.kind == kind,
        with_event(kind, status, team).event->0.payload == (PayloadModel::Record { team }),
        with_event(kind, status, team).status == status,
        with_event(kind, status, team).body == (BodyModel::Team { team }),
        not_found(id).event is None,
        not_found(id).status == 404,
        not_found(id).body == (BodyModel::Error { message: "team '"@ + id + "' not found"@ }),
        failed(failure).event is None,
        failed(failure).status == 500,
        failure matches Failure::Database { message } ==> failed(failure).body == (
        BodyModel::Error { message }),
        failure is Vanished ==> failed(failure).body == (BodyModel::Error {
            message: "team vanished immediately after insert"@,
        }),
{
}

/// What a request that ends in at most one team answers. A team that was found is given as
/// it was found. An event is raised for a patch always, for a read never, and for a change
/// of members exactly where the list is not known to be the same; it carries that team.
pub proof fn law_lookup_answers(
    id: Seq<char>,
    task: TaskModel,
    team: Team,
    failure: Failure,
)
    ensures
        ({
            let found = lookup_answer(id, task, Ok(Some(team)));
            &&& found.status == 200
            &&& found.body == (BodyModel::Team { team })
            &&& found.event is Some <==> match task {
                TaskModel::Get => false,
                TaskModel::Update => true,
                TaskModel::Members { before } => before is None || before->0 != team.members,
            }
            &&& found.event is Some ==> {
                &&& found.event->0.kind == EventKind::Updated
                &&& found.event->0.payload == (PayloadModel::Record { team })
            }
        }),
        ({
            let missing = lookup_answer(id, task, Ok(None));
            &&& missing.status == 404
            &&& missing.event is None
            &&& missing.body == (BodyModel::Error { message: "team '"@ + id + "' not found"@ })
        }),
        ({
            let broken = lookup_answer(id, task, Err(failure));
            &&& broken.status == 500
            &&& broken.event is None
            &&& broken.body == (BodyModel::Error { message: failure.message() })
        }),
{
}

/// What a creation answers: the team that was stored, with the event of a creation that
/// carries it; or why it failed, without an event.
pub proof fn law_create_answers(team: Team, message: Seq<char>)
    ensures
        ({
            let made = create_answer(Ok(team));
            &&& made.status == 200
            &&& made.body == (BodyModel::Team { team })
            &&& made.event is Some
            &&& made.event->0.kind == EventKind::Created
            &&& made.event->0.payload == (PayloadModel::Record { team })
        }),
        ({
            let broken = create_answer(Err(Failure::Database { message }));
            &&& broken.status == 500
            &&& broken.event is None
            &&& broken.body == (BodyModel::Error { message })
        }),
        ({
            let vanished = create_answer(Err(Failure::Vanished));
            &&& vanished.status == 500
            &&& vanished.event is None
            &&& vanished.body == (BodyModel::Error {
                message: "team vanished immediately after insert"@,
            })
        }),
{
}

/// What a listing and a health probe answer: the teams, or how many there are; never with an
/// event.
pub proof fn law_list_answers(teams: Seq<Team>, failure: Failure)
    ensures
        ({
            let all = list_answer(Ok(teams));
            &&& all.status == 200
            &&& all.event is None
            &&& all.body == (BodyModel::Teams { teams })
        }),
        ({
            let broken = list_answer(Err(failure));
            &&& broken.status == 500
            &&& broken.event is None
            &&& broken.body == (BodyModel::Error { message: failure.message() })
        }),
        ({
            let well = health_answer(Ok(teams));
            &&& well.status == 200
            &&& well.event is None
            &&& well.body == (BodyModel::Healthy { team_count: teams.len() })
        }),
        ({
            let unwell = health_answer(Err(failure));
            &&& unwell.status == 503
            &&& unwell.event is None
            &&& unwell.body == (BodyModel::Unhealthy { message: failure.message() })
        }),
{
}

/// What a removal answers. Where something was removed, the event is that of a removal and
/// carries the team as it was read before, or its id where it was not read.
pub proof fn law_delete_answers(id: Seq<char>, doomed: Option<Team>, failure: Failure)
    ensures
        ({
            let gone = delete_answer(id, doomed, Ok(true));
            &&& gone.status == 200
            &&& gone.body is Success
            &&& gone.event is Some
            &&& gone.event->0.kind == EventKind::Deleted
            &&& doomed is Some ==> gone.event->0.payload == (PayloadModel::Record {
                team: doomed->0,
            })
            &&& doomed is None ==> gone.event->0.payload == (PayloadModel::IdOnly { id })
        }),
        ({
            let missing = delete_answer(id, doomed, Ok(false));
            &&& missing.status == 404
            &&& missing.event is None
            &&& missing.body == (BodyModel::Error { message: "team '"@ + id + "' not found"@ })
        }),
        ({
            let broken = delete_answer(id, doomed, Err(failure));
            &&& broken.status == 500
            &&& broken.event is None
            &&& broken.body == (BodyModel::Error { message: failure.message() })
        }),
{
}

/// A request that goes on as a store operation does runs that operation's statements and
/// keeps what it is for; once the operation has ended, it answers.
pub proof fn law_requests_follow_the_store(
    id: Seq<char>,
    task: TaskModel,
    command: Command,
    state: LookupQueryModel,
    written: Seq<char>,
    found: Result<Option<Team>, Failure>,
    made: Result<Team, Failure>,
)
    ensures
        lookup_api(id, task, LookupStep::Query { command, state }) == (ApiStep::Query {
            command,
            state: ApiQueryModel::Lookup { id, task, state },
        }),
        lookup_api(id, task, LookupStep::Execute { command, id: written }) == (ApiStep::Execute {
            command,
            state: ApiWriteModel::Lookup { id, task, written },
        }),
        lookup_api(id, task, LookupStep::Done { result: found }) == (ApiStep::Done {
            answer: lookup_answer(id, task, found),
        }),
        create_api(CreateStep::Query { command }) == (ApiStep::Query {
            command,
            state: ApiQueryModel::Create,
        }),
        create_api(CreateStep::Execute { command, id: written }) == (ApiStep::Execute {
            command,
            state: ApiWriteModel::Create { id: written },
        }),
        create_api(CreateStep::Done { result: made }) == (ApiStep::Done {
            answer: create_answer(made),
        }),
{
}

/// What each request runs first. A listing and a health probe read every team; a removal
/// and a change of members read their team, and remember what they were asked for.
pub proof fn law_requests_start(id: Seq<char>, agent_id: Seq<char>, change: MemberChange)
    ensures
        list_request() == (ApiStep::Query {
            command: Command::SelectAll,
            state: ApiQueryModel::List,
        }),
        health_request() == (ApiStep::Query {
            command: Command::SelectAll,
            state: ApiQueryModel::Health,
        }),
        delete_request(id) == (ApiStep::Query {
            command: Command::SelectById { id },
            state: ApiQueryModel::BeforeDelete { id },
        }),
        member_request(id, agent_id, change) == (ApiStep::Query {
            command: Command::SelectById { id },
            state: ApiQueryModel::BeforeMembers { id, agent_id, change },
        }),
{
}

/// A request to create a team is refused at once exactly where all of the name is white
/// space; otherwise what the client described is inserted.
pub proof fn law_create_request_starts(input: NewTeam, id: Seq<char>, now: Seq<char>)
    ensures
        ({
            let step = create_request(input, id, now);
            let team = step->Execute_command->Insert_team;
            if forall|i: int| 0 <= i < input.name.len() ==> white_space(#[trigger] input.name[i]) {
                &&& step is Done
                &&& step->answer.status == 400
                &&& step->answer.event is None
                &&& step->answer.body == (BodyModel::Error { message: "team name is required"@ })
            } else {
                &&& step is Execute
                &&& step->Execute_state == (ApiWriteModel::Create { id })
                &&& step->Execute_command is Insert
                &&& team.id == id
                &&& team.name == input.name
                &&& team.description == input.description
                &&& team.members == input.members
                &&& team.coordination == input.coordination
                &&& team.lead_agent_id == input.lead_agent_id
                &&& team.created_at == Some(now)
                &&& team.updated_at == Some(now)
            }
        }),
{
    lemma_trim_empty(input.name);
}

/// What becomes of the reads before a removal and before a change of members: the team that
/// was found is kept, or its member list; a read that failed or found none leaves nothing to
/// keep, and the request goes on all the same.
pub proof fn law_reads_before_the_act(
    id: Seq<char>,
    agent_id: Seq<char>,
    change: MemberChange,
    reply: Result<Seq<Team>, Seq<char>>,
    now: Seq<char>,
)
    ensures
        ({
            let step = api_resumed(ApiQueryModel::BeforeDelete { id }, reply, now);
            let doomed = step->Execute_state->doomed;
            &&& step is Execute
            &&& step->Execute_command == (Command::Delete { id })
            &&& step->Execute_state is Delete
            &&& step->Execute_state->Delete_id == id
            &&& match reply {
                Ok(teams) => if teams.len() > 0 {
                    doomed == Some(teams[0])
                } else {
                    doomed is None
                },
                Err(_) => doomed is None,
            }
        }),
        ({
            let step = api_resumed(
                ApiQueryModel::BeforeMembers { id, agent_id, change },
                reply,
                now,
            );
            let before = step->Query_state->task->before;
            &&& step is Query
            &&& step->Query_command == (Command::SelectById { id })
            &&& step->Query_state is Lookup
            &&& step->Query_state->Lookup_id == id
            &&& step->Query_state->Lookup_state == (LookupQueryModel::Probe {
                id,
                agent_id,
                change,
            })
            &&& step->Query_state->task is Members
            &&& match reply {
                Ok(teams) => if teams.len() > 0 {
                    before == Some(teams[0].members)
                } else {
                    before is None
                },
                Err(_) => before is None,
            }
        }),
        pre_read(reply) is Some <==> reply is Ok && reply->Ok_0.len() > 0,
        pre_read(reply) is Some ==> pre_read(reply)->0 == reply->Ok_0[0],
        members_of(pre_read(reply)) is Some <==> pre_read(reply) is Some,
        pre_read(reply) is Some ==> members_of(pre_read(reply))->0 == pre_read(reply)->0.members,
{
}

/// What becomes of the other replies: a listing and a health probe answer; a creation and an
/// operation on one team go on as the store does; a removal answers.
pub proof fn law_replies_go_to_the_store(
    id: Seq<char>,
    task: TaskModel,
    state: LookupQueryModel,
    written: Seq<char>,
    doomed: Option<Team>,
    rows: Result<Seq<Team>, Seq<char>>,
    count: Result<nat, Seq<char>>,
    now: Seq<char>,
)
    ensures
        api_resumed(ApiQueryModel::List, rows, now) == (ApiStep::Done {
            answer: list_answer(listed(rows)),
        }),
        api_resumed(ApiQueryModel::Health, rows, now) == (ApiStep::Done {
            answer: health_answer(listed(rows)),
        }),
        api_resumed(ApiQueryModel::Create, rows, now) == create_api(create_fetched(rows)),
        api_resumed(ApiQueryModel::Lookup { id, task, state }, rows, now) == lookup_api(
            id,
            task,
            lookup_resumed(state, rows, now),
        ),
        api_written(ApiWriteModel::Create { id }, count) == create_api(create_written(id, count)),
        api_written(ApiWriteModel::Lookup { id, task, written }, count) == lookup_api(
            id,
            task,
            lookup_written(written, count),
        ),
        api_written(ApiWriteModel::Delete { id, doomed }, count) == (ApiStep::Done {
            answer: delete_answer(id, doomed, deleted(count)),
        }),
{
}

/// A member list that an agent joined is the old one, with the agent put last where it was
/// not in it.
pub proof fn law_join_appends(members: Seq<Seq<char>>, agent: Seq<char>)
    ensures
        members.contains(agent) ==> joined(members, agent) == members,
        !members.contains(agent) ==> {
            &&& joined(members, agent).len() == members.len() + 1
            &&& joined(members, agent).last() == agent
            &&& forall|i: int|
                0 <= i < members.len() ==> #[trigger] joined(members, agent)[i] == members[i]
        },
{
}

/// A member list that an agent left holds the others in their order: it is what is left of
/// its front, and its last member behind that where it is another.
pub proof fn law_leave_keeps_the_others(members: Seq<Seq<char>>, agent: Seq<char>)
    ensures
        members.len() == 0 ==> left(members, agent).len() == 0,
        members.len() > 0 && members.last() == agent ==> left(members, agent) == left(
            members.drop_last(),
            agent,
        ),
        members.len() > 0 && members.last() != agent ==> left(members, agent) == left(
            members.drop_last(),
            agent,
        ).push(members.last()),
{
    reveal(Seq::filter);
}

} // verus!
