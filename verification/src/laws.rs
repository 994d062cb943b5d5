//! What holds of the surface as a whole, when nothing else writes to the table while a
//! request runs.

use vstd::prelude::*;

use crate::api::{
    api_resumed, api_written, create_answer, create_api, create_request, delete_request,
    health_request, list_request, lookup_answer, lookup_api, member_request, not_found, plain,
    with_event, Answer, ApiQueryModel, ApiStep, ApiWriteModel, BodyModel, EventKind, EventModel,
    PayloadModel, TaskModel,
};
use crate::chronology::{dated, earlier, law_earlier_is_less};
use crate::document::{payload_document, team_document};
use crate::record::{NewTeam, Patch, Team};
use crate::roster::{applied, created, law_join, law_leave, left, members_patch, stamped};
use crate::statement::Command;
use crate::store::{
    create_fetched, create_step, create_written, get_step, lookup_resumed, lookup_written,
    member_step, update_step, CreateStep, LookupQueryModel, LookupStep, MemberChange,
};
use crate::table::{
    create_rank, executed, law_add_member, law_create, law_create_never_overwrites, law_get,
    law_list, law_remove_member, law_update, listing, lookup, lookup_rank, queried, run_api, run_create,
    run_lookup, valid, with_patched, Surroundings, Table,
};
use crate::text::{lemma_text_le_antisymmetric, text_le, trim};

verus! {

/// A request that goes on as a store operation does comes to what that operation comes to.
proof fn lemma_run_lookup(
    table: Table,
    id: Seq<char>,
    task: TaskModel,
    step: LookupStep,
    with: Surroundings,
)
    ensures
        run_api(table, lookup_api(id, task, step), with) == {
            let (after, result) = run_lookup(table, step, with);
            (after, lookup_answer(id, task, result))
        },
    decreases lookup_rank(step),
{
    match step {
        LookupStep::Done { .. } => {},
        LookupStep::Query { command, state } => {
            lemma_run_lookup(
                table,
                id,
                task,
                lookup_resumed(state, queried(table, command, with), with.now),
                with,
            );
        },
        LookupStep::Execute { command, id: written } => {
            let (after, reply) = executed(table, command, with);
            lemma_run_lookup(after, id, task, lookup_written(written, reply), with);
        },
    }
}

/// A request that goes on as a creation does comes to what the creation comes to.
proof fn lemma_run_create(table: Table, step: CreateStep, with: Surroundings)
    ensures
        run_api(table, create_api(step), with) == {
            let (after, result) = run_create(table, step, with);
            (after, create_answer(result))
        },
    decreases create_rank(step),
{
    match step {
        CreateStep::Done { .. } => {},
        CreateStep::Query { command } => {
            lemma_run_create(table, create_fetched(queried(table, command, with)), with);
        },
        CreateStep::Execute { command, id } => {
            let (after, reply) = executed(table, command, with);
            lemma_run_create(after, create_written(id, reply), with);
        },
    }
}

/// A request to create a team under an id that is not taken stores what the client
/// described, answers with it, and raises one event that carries it.
pub proof fn law_create_request(
    table: Table,
    input: NewTeam,
    id: Seq<char>,
    now: Seq<char>,
    with: Surroundings,
)
    requires
        trim(input.name).len() > 0,
        !table.contains_key(id),
    ensures
        run_api(table, create_request(input, id, now), with) == (
            table.insert(id, created(input, id, now)),
            with_event(EventKind::Created, 200, created(input, id, now)),
        ),
{
    law_create(table, input, id, now, with);
    lemma_run_create(table, create_step(input, id, now), with);
}

/// A request to create a team without a name is refused; nothing is stored or raised.
pub proof fn law_blank_name_is_refused(
    table: Table,
    input: NewTeam,
    id: Seq<char>,
    now: Seq<char>,
    with: Surroundings,
)
    requires
        trim(input.name).len() == 0,
    ensures
        run_api(table, create_request(input, id, now), with) == (
            table,
            plain(400, BodyModel::Error { message: "team name is required"@ }),
        ),
{
}

/// A request to create a team under an id that is taken fails with what the database said;
/// nothing is stored or raised.
pub proof fn law_taken_id(
    table: Table,
    input: NewTeam,
    id: Seq<char>,
    now: Seq<char>,
    with: Surroundings,
)
    requires
        trim(input.name).len() > 0,
        table.contains_key(id),
    ensures
        run_api(table, create_request(input, id, now), with) == (
            table,
            plain(500, BodyModel::Error { message: with.refusal }),
        ),
{
    law_create_never_overwrites(table, input, id, now, with);
    lemma_run_create(table, create_step(input, id, now), with);
}

/// The read of a team answers with the team as it lies in the table, or says that there is
/// none.
pub proof fn law_get_request(table: Table, id: Seq<char>, with: Surroundings)
    ensures
        run_api(table, lookup_api(id, TaskModel::Get, get_step(id)), with) == (
            table,
            match lookup(table, id) {
                Some(team) => plain(200, BodyModel::Team { team }),
                None => not_found(id),
            },
        ),
{
    law_get(table, id, with);
    lemma_run_lookup(table, id, TaskModel::Get, get_step(id), with);
}

/// What a client creates is what a later read of it gives, with the same id and times as
/// the creation answered with.
pub proof fn law_create_then_get(
    table: Table,
    input: NewTeam,
    id: Seq<char>,
    now: Seq<char>,
    with: Surroundings,
    later: Surroundings,
)
    requires
        trim(input.name).len() > 0,
        !table.contains_key(id),
    ensures
        ({
            let (after, answer) = run_api(table, create_request(input, id, now), with);
            &&& answer.body == (BodyModel::Team { team: created(input, id, now) })
            &&& run_api(after, lookup_api(id, TaskModel::Get, get_step(id)), later) == (
                after,
                plain(200, BodyModel::Team { team: created(input, id, now) }),
            )
        }),
{
    law_create_request(table, input, id, now, with);
    let (after, _) = run_api(table, create_request(input, id, now), with);
    law_get_request(after, id, later);
}

/// A patch of a team that exists is stored, answered with the team after it, and raises one
/// event that carries that team. A patch of one that does not exist is answered so.
pub proof fn law_update_request(table: Table, id: Seq<char>, patch: Patch, with: Surroundings)
    ensures
        ({
            let start = lookup_api(id, TaskModel::Update, update_step(id, patch));
            if table.contains_key(id) {
                run_api(table, start, with) == (
                    with_patched(table, id, patch, with.now),
                    with_event(
                        EventKind::Updated,
                        200,
                        stamped(applied(table[id], patch), with.now),
                    ),
                )
            } else {
                run_api(table, start, with) == (table, not_found(id))
            }
        }),
{
    law_update(table, id, patch, with);
    lemma_run_lookup(table, id, TaskModel::Update, update_step(id, patch), with);
}

/// The removal of a team that exists takes it out of the table, and its event carries the
/// team as it was. The removal of one that does not exist is answered so.
pub proof fn law_delete_request(table: Table, id: Seq<char>, with: Surroundings)
    ensures
        if table.contains_key(id) {
            run_api(table, delete_request(id), with) == (
                table.remove(id),
                Answer {
                    event: Some(
                        EventModel {
                            kind: EventKind::Deleted,
                            payload: PayloadModel::Record { team: table[id] },
                        },
                    ),
                    status: 200,
                    body: BodyModel::Success,
                },
            )
        } else {
            run_api(table, delete_request(id), with) == (table, not_found(id))
        },
{
    reveal_with_fuel(run_api, 4);
}

/// A team that was removed cannot be read any more, and to remove it again is answered
/// with that it is not there.
pub proof fn law_deleted_is_gone(
    table: Table,
    id: Seq<char>,
    with: Surroundings,
    later: Surroundings,
)
    ensures
        ({
            let (after, _) = run_api(table, delete_request(id), with);
            &&& !after.contains_key(id)
            &&& run_api(after, lookup_api(id, TaskModel::Get, get_step(id)), later) == (
                after,
                not_found(id),
            )
            &&& run_api(after, delete_request(id), later) == (after, not_found(id))
        }),
{
    law_delete_request(table, id, with);
    let (after, _) = run_api(table, delete_request(id), with);
    law_get_request(after, id, later);
    law_delete_request(after, id, later);
}

/// An agent that joins a team is added and an event raised. If it is a member already,
/// the request succeeds, changes nothing and raises nothing.
pub proof fn law_join_request(
    table: Table,
    id: Seq<char>,
    agent_id: Seq<char>,
    with: Surroundings,
)
    ensures
        ({
            let start = member_request(id, agent_id, MemberChange::Join);
            let patch = members_patch(table[id].members.push(agent_id));
            if !table.contains_key(id) {
                run_api(table, start, with) == (table, not_found(id))
            } else if table[id].members.contains(agent_id) {
                run_api(table, start, with) == (
                    table,
                    plain(200, BodyModel::Team { team: table[id] }),
                )
            } else {
                run_api(table, start, with) == (
                    with_patched(table, id, patch, with.now),
                    with_event(
                        EventKind::Updated,
                        200,
                        stamped(applied(table[id], patch), with.now),
                    ),
                )
            }
        }),
{
    let before = if table.contains_key(id) {
        Some(table[id].members)
    } else {
        None
    };
    let task = TaskModel::Members { before };
    law_add_member(table, id, agent_id, with);
    lemma_run_lookup(table, id, task, member_step(id, agent_id, MemberChange::Join), with);
    if table.contains_key(id) {
        assert(table[id].members.push(agent_id).len() != table[id].members.len());
    }
}

/// An agent that leaves a team is taken out and an event raised. If it was no member, the
/// request succeeds, changes nothing and raises nothing.
pub proof fn law_leave_request(
    table: Table,
    id: Seq<char>,
    agent_id: Seq<char>,
    with: Surroundings,
)
    ensures
        ({
            let start = member_request(id, agent_id, MemberChange::Leave);
            let patch = members_patch(left(table[id].members, agent_id));
            let team = stamped(applied(table[id], patch), with.now);
            if !table.contains_key(id) {
                run_api(table, start, with) == (table, not_found(id))
            } else if table[id].members.contains(agent_id) {
                run_api(table, start, with) == (
                    with_patched(table, id, patch, with.now),
                    with_event(EventKind::Updated, 200, team),
                )
            } else {
                run_api(table, start, with) == (
                    table,
                    plain(200, BodyModel::Team { team: table[id] }),
                )
            }
        }),
{
    let before = if table.contains_key(id) {
        Some(table[id].members)
    } else {
        None
    };
    let task = TaskModel::Members { before };
    law_remove_member(table, id, agent_id, with);
    lemma_run_lookup(table, id, task, member_step(id, agent_id, MemberChange::Leave), with);
    law_leave(table[id].members, agent_id);
}

/// To add an agent twice is as good as once: the second time changes nothing, raises
/// nothing, and answers with the same team.
pub proof fn law_join_twice(
    table: Table,
    id: Seq<char>,
    agent_id: Seq<char>,
    with: Surroundings,
    later: Surroundings,
)
    requires
        table.contains_key(id),
    ensures
        ({
            let start = member_request(id, agent_id, MemberChange::Join);
            let (after, answer) = run_api(table, start, with);
            run_api(after, start, later) == (after, plain(200, answer.body))
        }),
{
    let start = member_request(id, agent_id, MemberChange::Join);
    let (after, _) = run_api(table, start, with);
    law_join_request(table, id, agent_id, with);
    law_join(table[id].members, agent_id);
    law_join_request(after, id, agent_id, later);
}

/// To remove an agent twice is as good as once: the second time changes nothing, raises
/// nothing, and answers with the same team.
pub proof fn law_leave_twice(
    table: Table,
    id: Seq<char>,
    agent_id: Seq<char>,
    with: Surroundings,
    later: Surroundings,
)
    requires
        table.contains_key(id),
    ensures
        ({
            let start = member_request(id, agent_id, MemberChange::Leave);
            let (after, answer) = run_api(table, start, with);
            run_api(after, start, later) == (after, plain(200, answer.body))
        }),
{
    let start = member_request(id, agent_id, MemberChange::Leave);
    let (after, _) = run_api(table, start, with);
    law_leave_request(table, id, agent_id, with);
    law_leave(table[id].members, agent_id);
    law_leave_request(after, id, agent_id, later);
}

/// The requests of the surface.
pub enum Request {
    List,
    Health,
    Create { input: NewTeam, id: Seq<char>, now: Seq<char> },
    Get { id: Seq<char> },
    Update { id: Seq<char>, patch: Patch },
    Delete { id: Seq<char> },
    Join { id: Seq<char>, agent_id: Seq<char> },
    Leave { id: Seq<char>, agent_id: Seq<char> },
}

/// What a request starts as.
pub open spec fn start(request: Request) -> ApiStep {
    match request {
        Request::List => list_request(),
        Request::Health => health_request(),
        Request::Create { input, id, now } => create_request(input, id, now),
        Request::Get { id } => lookup_api(id, TaskModel::Get, get_step(id)),
        Request::Update { id, patch } => lookup_api(id, TaskModel::Update, update_step(id, patch)),
        Request::Delete { id } => delete_request(id),
        Request::Join { id, agent_id } => member_request(id, agent_id, MemberChange::Join),
        Request::Leave { id, agent_id } => member_request(id, agent_id, MemberChange::Leave),
    }
}

/// Whether a request is about the team with this id.
pub open spec fn about(request: Request, id: Seq<char>) -> bool {
    match request {
        Request::List => false,
        Request::Health => false,
        Request::Create { id: its, .. } => its == id,
        Request::Get { id: its } => its == id,
        Request::Update { id: its, .. } => its == id,
        Request::Delete { id: its } => its == id,
        Request::Join { id: its, .. } => its == id,
        Request::Leave { id: its, .. } => its == id,
    }
}

/// What each request makes of the table.
proof fn lemma_outcome(table: Table, request: Request, with: Surroundings)
    ensures
        ({
            let (after, answer) = run_api(table, start(request), with);
            match request {
                Request::List => after == table && answer.event is None,
                Request::Health => after == table && answer.event is None,
                Request::Get { id } => after == table && answer.event is None,
                Request::Create { input, id, now } => {
                    ||| after == table && answer.event is None
                    ||| after == table.insert(id, created(input, id, now)) && answer.event is Some
                        && !table.contains_key(id)
                },
                Request::Update { id, patch } => {
                    ||| after == table && answer.event is None && !table.contains_key(id)
                    ||| after == with_patched(table, id, patch, with.now) && answer.event is Some
                        && table.contains_key(id)
                },
                Request::Delete { id } => {
                    ||| after == table && answer.event is None && !table.contains_key(id)
                    ||| after == table.remove(id) && answer.event is Some && table.contains_key(id)
                },
                Request::Join { id, agent_id } => {
                    ||| after == table && answer.event is None
                    ||| table.contains_key(id) && after == with_patched(
                        table,
                        id,
                        members_patch(table[id].members.push(agent_id)),
                        with.now,
                    ) && answer.event is Some
                },
                Request::Leave { id, agent_id } => {
                    ||| after == table && answer.event is None
                    ||| table.contains_key(id) && after == with_patched(
                        table,
                        id,
                        members_patch(left(table[id].members, agent_id)),
                        with.now,
                    ) && answer.event is Some
                },
            }
        }),
{
    match request {
        Request::List => {
            reveal_with_fuel(run_api, 3);
        },
        Request::Health => {
            reveal_with_fuel(run_api, 3);
        },
        Request::Create { input, id, now } => {
            if trim(input.name).len() == 0 {
                law_blank_name_is_refused(table, input, id, now, with);
            } else if table.contains_key(id) {
                law_taken_id(table, input, id, now, with);
            } else {
                law_create_request(table, input, id, now, with);
            }
        },
        Request::Get { id } => {
            law_get_request(table, id, with);
        },
        Request::Update { id, patch } => {
            law_update_request(table, id, patch, with);
        },
        Request::Delete { id } => {
            law_delete_request(table, id, with);
        },
        Request::Join { id, agent_id } => {
            law_join_request(table, id, agent_id, with);
        },
        Request::Leave { id, agent_id } => {
            law_leave_request(table, id, agent_id, with);
        },
    }
}

/// A request leaves every team alone that it is not about.
pub proof fn law_other_teams_stay(
    table: Table,
    request: Request,
    with: Surroundings,
    other: Seq<char>,
)
    requires
        !about(request, other),
    ensures
        lookup(run_api(table, start(request), with).0, other) == lookup(table, other),
{
    lemma_outcome(table, request, with);
}

/// Every request leaves the table as the schema demands it.
pub proof fn law_table_stays_valid(table: Table, request: Request, with: Surroundings)
    requires
        valid(table),
    ensures
        valid(run_api(table, start(request), with).0),
{
    lemma_outcome(table, request, with);
}

/// No request changes the id of a team or when it was created.
pub proof fn law_identity_is_permanent(
    table: Table,
    request: Request,
    with: Surroundings,
    id: Seq<char>,
)
    requires
        table.contains_key(id),
        run_api(table, start(request), with).0.contains_key(id),
    ensures
        run_api(table, start(request), with).0[id].id == table[id].id,
        run_api(table, start(request), with).0[id].created_at == table[id].created_at,
{
    lemma_outcome(table, request, with);
}

/// Where a request raises no event, no team has come, gone or changed.
pub proof fn law_no_event_no_change(table: Table, request: Request, with: Surroundings)
    requires
        run_api(table, start(request), with).1.event is None,
    ensures
        run_api(table, start(request), with).0 == table,
{
    lemma_outcome(table, request, with);
}

/// The event of a request carries the team as a read of it gives it: after the request, or,
/// where the team was removed, before.
pub proof fn law_event_carries_what_a_read_gives(
    table: Table,
    request: Request,
    with: Surroundings,
    later: Surroundings,
)
    requires
        valid(table),
    ensures
        ({
            let (after, answer) = run_api(table, start(request), with);
            let event = answer.event->0;
            let team = event.payload->team;
            answer.event is Some ==> {
                &&& event.payload is Record
                &&& payload_document(event.payload) == team_document(team)
                &&& about(request, team.id)
                &&& if event.kind == EventKind::Deleted {
                    run_api(table, start(Request::Get { id: team.id }), with).1 == plain(
                        200,
                        BodyModel::Team { team },
                    )
                } else {
                    &&& answer.body == (BodyModel::Team { team })
                    &&& run_api(after, start(Request::Get { id: team.id }), later).1 == plain(
                        200,
                        BodyModel::Team { team },
                    )
                }
            }
        }),
{
    lemma_outcome(table, request, with);
    let (after, answer) = run_api(table, start(request), with);
    match request {
        Request::Create { input, id, now } => {
            if answer.event is Some {
                assert(trim(input.name).len() > 0);
                law_create_request(table, input, id, now, with);
            }
            law_get_request(after, id, later);
        },
        Request::Update { id, patch } => {
            law_update_request(table, id, patch, with);
            law_get_request(after, id, later);
        },
        Request::Delete { id } => {
            law_delete_request(table, id, with);
            law_get_request(table, id, with);
        },
        Request::Join { id, agent_id } => {
            law_join_request(table, id, agent_id, with);
            law_get_request(after, id, later);
        },
        Request::Leave { id, agent_id } => {
            law_leave_request(table, id, agent_id, with);
            law_get_request(after, id, later);
        },
        _ => {},
    }
}

/// Whatever the database replies, an event is raised only with an answer that tells of
/// success.
pub proof fn law_event_only_with_success(
    query: ApiQueryModel,
    rows: Result<Seq<Team>, Seq<char>>,
    now: Seq<char>,
    write: ApiWriteModel,
    count: Result<nat, Seq<char>>,
)
    ensures
        api_resumed(query, rows, now) matches ApiStep::Done { answer } ==> answer.event is Some
            ==> answer.status == 200,
        api_written(write, count) matches ApiStep::Done { answer } ==> answer.event is Some
            ==> answer.status == 200,
{
}

/// A statement that fails ends the request with an answer that says why, and without an
/// event, unless it was the read before a removal or a change of members: those go on.
pub proof fn law_failed_statement(
    query: ApiQueryModel,
    write: ApiWriteModel,
    message: Seq<char>,
    now: Seq<char>,
)
    ensures
        match query {
            ApiQueryModel::Health => api_resumed(query, Err(message), now) == (ApiStep::Done {
                answer: plain(503, BodyModel::Unhealthy { message }),
            }),
            ApiQueryModel::BeforeDelete { id } => api_resumed(query, Err(message), now) == (
            ApiStep::Execute {
                command: Command::Delete { id },
                state: ApiWriteModel::Delete { id, doomed: None },
            }),
            ApiQueryModel::BeforeMembers { id, agent_id, change } => api_resumed(
                query,
                Err(message),
                now,
            ) == lookup_api(
                id,
                TaskModel::Members { before: None },
                member_step(id, agent_id, change),
            ),
            _ => api_resumed(query, Err(message), now) == (ApiStep::Done {
                answer: plain(500, BodyModel::Error { message }),
            }),
        },
        api_written(write, Err(message)) == (ApiStep::Done {
            answer: plain(500, BodyModel::Error { message }),
        }),
{
}

/// A change of members whose first read failed raises an event whenever it succeeds: the
/// change may be real.
pub proof fn law_failed_pre_read_raises(id: Seq<char>, team: Team)
    ensures
        lookup_answer(id, TaskModel::Members { before: None }, Ok(Some(team))) == with_event(
            EventKind::Updated,
            200,
            team,
        ),
{
}

/// Whether a request that stands here runs statements on the team with this id only, and
/// writes to no other.
pub open spec fn keeps_to(step: ApiStep, id: Seq<char>) -> bool {
    match step {
        ApiStep::Done { .. } => true,
        ApiStep::Query { command, state } => {
            &&& command == (Command::SelectById { id })
            &&& match state {
                ApiQueryModel::List => false,
                ApiQueryModel::Health => false,
                ApiQueryModel::Create => true,
                ApiQueryModel::Lookup { state, .. } => match state {
                    LookupQueryModel::Fetch => true,
                    LookupQueryModel::Load { id: its, .. } => its == id,
                    LookupQueryModel::Probe { id: its, .. } => its == id,
                },
                ApiQueryModel::BeforeDelete { id: its } => its == id,
                ApiQueryModel::BeforeMembers { id: its, .. } => its == id,
            }
        },
        ApiStep::Execute { command, state } => {
            &&& match command {
                Command::Insert { team } => team.id == id,
                Command::Update { id: its, .. } => its == id,
                Command::Delete { id: its } => its == id,
                _ => false,
            }
            &&& match state {
                ApiWriteModel::Create { id: its } => its == id,
                ApiWriteModel::Lookup { written, .. } => written == id,
                ApiWriteModel::Delete { id: its, .. } => its == id,
            }
        },
    }
}

/// A request keeps to its team from its start to its end, whatever the database replies
/// and whoever else writes to the table meanwhile.
pub proof fn law_request_keeps_to_its_team(
    request: Request,
    step: ApiStep,
    id: Seq<char>,
    rows: Result<Seq<Team>, Seq<char>>,
    now: Seq<char>,
    count: Result<nat, Seq<char>>,
)
    ensures
        about(request, id) ==> keeps_to(start(request), id),
        keeps_to(step, id) ==> match step {
            ApiStep::Done { .. } => true,
            ApiStep::Query { state, .. } => keeps_to(api_resumed(state, rows, now), id),
            ApiStep::Execute { state, .. } => keeps_to(api_written(state, count), id),
        },
{
}

/// A listing answers with every team of the table once, in the order of creation, and
/// changes nothing.
pub proof fn law_list_request(table: Table, with: Surroundings)
    requires
        valid(table),
    ensures
        ({
            let (after, answer) = run_api(table, list_request(), with);
            let teams = answer.body->teams;
            &&& after == table
            &&& answer == plain(200, BodyModel::Teams { teams })
            &&& listing(table, teams)
        }),
{
    reveal_with_fuel(run_api, 3);
    law_list(table, with);
}

/// A health probe answers with how many teams there are.
pub proof fn law_health_request(table: Table, with: Surroundings)
    requires
        valid(table),
    ensures
        run_api(table, health_request(), with) == (
            table,
            plain(200, BodyModel::Healthy { team_count: table.len() }),
        ),
{
    reveal_with_fuel(run_api, 3);
    law_list(table, with);
}

/// Of two teams in a listing, the one whose time of creation is the lesser text comes first.
pub proof fn law_lesser_comes_first(table: Table, teams: Seq<Team>, i: int, j: int)
    requires
        valid(table),
        listing(table, teams),
        0 <= i < teams.len(),
        0 <= j < teams.len(),
        text_le(teams[i].created_at->0, teams[j].created_at->0),
        teams[i].created_at != teams[j].created_at,
    ensures
        i < j,
{
    assert(lookup(table, teams[i].id) == Some(teams[i]));
    assert(lookup(table, teams[j].id) == Some(teams[j]));
    if j < i {
        lemma_text_le_antisymmetric(teams[i].created_at->0, teams[j].created_at->0);
    }
}

/// Of two teams in a listing, the one that was created first comes first, in years of four
/// digits.
pub proof fn law_older_comes_first(table: Table, teams: Seq<Team>, i: int, j: int)
    requires
        valid(table),
        listing(table, teams),
        0 <= i < teams.len(),
        0 <= j < teams.len(),
        dated(teams[i].created_at->0),
        dated(teams[j].created_at->0),
        earlier(teams[i].created_at->0, teams[j].created_at->0),
    ensures
        i < j,
{
    law_earlier_is_less(teams[i].created_at->0, teams[j].created_at->0);
    assert(lookup(table, teams[i].id) == Some(teams[i]));
    assert(lookup(table, teams[j].id) == Some(teams[j]));
    law_lesser_comes_first(table, teams, i, j);
}

} // verus!
