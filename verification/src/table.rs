//! A model of the database: what it replies to the statements and what they do to the
//! `teams` table. The model says what the texts of the statements mean; that the database
//! takes them so is not proved, and `tests/sqlite.rs` runs them against one.
//!
//! With it, what the operations come to when nothing else writes to the table meanwhile.

use vstd::prelude::*;

use crate::api::{api_resumed, api_written, Answer, ApiQueryModel, ApiStep, ApiWriteModel};
use crate::record::{NewTeam, Patch, Team};
use crate::roster::{applied, created, left, members_patch, stamped};
use crate::statement::Command;
use crate::store::{
    create_fetched, create_step, create_written, get_step, listed, lookup_resumed, lookup_written,
    member_step, update_step, CreateStep, Failure, LookupQueryModel, LookupStep, MemberChange,
};
use crate::text::{lemma_text_le_total, lemma_text_le_transitive, text_le};

verus! {

/// The `teams` table: its id column is the key.
pub type Table = Map<Seq<char>, Team>;

/// What the schema demands: each team lies under its own id, with both of its times.
pub open spec fn valid(table: Table) -> bool {
    &&& table.dom().finite()
    &&& forall|id: Seq<char>| #[trigger]
        table.contains_key(id) ==> {
            &&& table[id].id == id
            &&& table[id].created_at is Some
            &&& table[id].updated_at is Some
        }
}

/// The team with this id.
pub open spec fn lookup(table: Table, id: Seq<char>) -> Option<Team> {
    if table.contains_key(id) {
        Some(table[id])
    } else {
        None
    }
}

/// Every team of the table once, in the order of their creation.
pub open spec fn listing(table: Table, teams: Seq<Team>) -> bool {
    &&& forall|i: int|
        0 <= i < teams.len() ==> lookup(table, #[trigger] teams[i].id) == Some(teams[i])
    &&& forall|id: Seq<char>| #[trigger]
        table.contains_key(id) ==> exists|i: int| 0 <= i < teams.len() && #[trigger] teams[i].id == id
    &&& forall|i: int, j: int|
        0 <= i < j < teams.len() ==> #[trigger] teams[i].id != #[trigger] teams[j].id
    &&& forall|i: int, j: int|
        0 <= i < j < teams.len() ==> text_le(
            (#[trigger] teams[i]).created_at->0,
            (#[trigger] teams[j]).created_at->0,
        )
}

/// The team of a table that was created last, or one of them.
proof fn lemma_latest(table: Table) -> (id: Seq<char>)
    requires
        table.dom().finite(),
        table.dom().len() > 0,
    ensures
        table.contains_key(id),
        forall|other: Seq<char>| #[trigger]
            table.contains_key(other) ==> text_le(
                table[other].created_at->0,
                table[id].created_at->0,
            ),
    decreases table.dom().len(),
{
    let some = table.dom().choose();
    let rest = table.remove(some);
    assert(table.contains_key(some));
    assert(rest.dom() =~= table.dom().remove(some));
    let time = table[some].created_at->0;
    lemma_text_le_total(time, time);
    if rest.dom().len() == 0 {
        assert(rest.dom() =~= Set::empty());
        assert forall|other: Seq<char>| #[trigger] table.contains_key(other) implies other == some by {
            assert(!rest.dom().contains(other));
        }
        some
    } else {
        let last = lemma_latest(rest);
        lemma_text_le_total(time, table[last].created_at->0);
        let id = if text_le(time, table[last].created_at->0) {
            last
        } else {
            some
        };
        assert forall|other: Seq<char>| #[trigger] table.contains_key(other) implies text_le(
            table[other].created_at->0,
            table[id].created_at->0,
        ) by {
            if other != some {
                assert(rest.contains_key(other));
                if id == some {
                    lemma_text_le_transitive(
                        table[other].created_at->0,
                        table[last].created_at->0,
                        time,
                    );
                }
            }
        }
        id
    }
}

/// Every table can be listed.
pub proof fn law_can_be_listed(table: Table)
    requires
        valid(table),
    ensures
        exists|teams: Seq<Team>| listing(table, teams),
    decreases table.dom().len(),
{
    if table.dom().len() == 0 {
        assert(table.dom() =~= Set::empty());
        assert forall|id: Seq<char>| !(#[trigger] table.contains_key(id)) by {
            assert(!table.dom().contains(id));
        }
        assert(listing(table, Seq::empty()));
    } else {
        let id = lemma_latest(table);
        let rest = table.remove(id);
        assert(rest.dom() =~= table.dom().remove(id));
        law_can_be_listed(rest);
        let front = choose|teams: Seq<Team>| listing(rest, teams);
        let teams = front.push(table[id]);
        assert forall|i: int| 0 <= i < teams.len() implies lookup(table, #[trigger] teams[i].id)
            == Some(teams[i]) by {
            if i < front.len() {
                assert(lookup(rest, front[i].id) == Some(front[i]));
            }
        }
        assert forall|other: Seq<char>| #[trigger] table.contains_key(other) implies exists|i: int|
            0 <= i < teams.len() && #[trigger] teams[i].id == other by {
            if other == id {
                assert(teams[front.len() as int].id == other);
            } else {
                assert(rest.contains_key(other));
                let i = choose|i: int| 0 <= i < front.len() && #[trigger] front[i].id == other;
                assert(teams[i].id == other);
            }
        }
        assert forall|i: int, j: int| 0 <= i < j < teams.len() implies #[trigger] teams[i].id
            != #[trigger] teams[j].id by {
            assert(lookup(rest, front[i].id) == Some(front[i]));
            if j < front.len() {
                assert(front[i].id != front[j].id);
            }
        }
        assert forall|i: int, j: int| 0 <= i < j < teams.len() implies text_le(
            (#[trigger] teams[i]).created_at->0,
            (#[trigger] teams[j]).created_at->0,
        ) by {
            assert(lookup(rest, front[i].id) == Some(front[i]));
            if j < front.len() {
                assert(text_le(front[i].created_at->0, front[j].created_at->0));
            } else {
                assert(table.contains_key(front[i].id));
            }
        }
        assert(listing(table, teams));
    }
}

/// A listing is as long as the table, and holds the teams of the table and no others.
pub proof fn law_listing_is_complete(table: Table, teams: Seq<Team>)
    requires
        valid(table),
        listing(table, teams),
    ensures
        teams.len() == table.len(),
        forall|team: Team| #[trigger]
            teams.contains(team) <==> lookup(table, team.id) == Some(team),
{
    let ids = teams.map_values(|team: Team| team.id);
    assert(ids.no_duplicates()) by {
        assert forall|i: int, j: int|
            0 <= i < ids.len() && 0 <= j < ids.len() && i != j implies ids[i] != ids[j] by {
            if i < j {
                assert(teams[i].id != teams[j].id);
            } else {
                assert(teams[j].id != teams[i].id);
            }
        }
    }
    ids.unique_seq_to_set();
    assert(ids.to_set() =~= table.dom()) by {
        assert forall|id: Seq<char>| #[trigger] ids.to_set().contains(id) implies table.dom().contains(
            id,
        ) by {
            let i = choose|i: int| 0 <= i < ids.len() && ids[i] == id;
            assert(teams[i].id == id);
        }
        assert forall|id: Seq<char>| #[trigger] table.dom().contains(id) implies ids.to_set().contains(
            id,
        ) by {
            assert(table.contains_key(id));
            let i = choose|i: int| 0 <= i < teams.len() && #[trigger] teams[i].id == id;
            assert(ids[i] == id);
        }
    }
    assert forall|team: Team| #[trigger]
        teams.contains(team) <==> lookup(table, team.id) == Some(team) by {
        if teams.contains(team) {
            let i = choose|i: int| 0 <= i < teams.len() && teams[i] == team;
            assert(lookup(table, teams[i].id) == Some(teams[i]));
        }
        if lookup(table, team.id) == Some(team) {
            assert(table.contains_key(team.id));
            let i = choose|i: int| 0 <= i < teams.len() && #[trigger] teams[i].id == team.id;
            assert(lookup(table, teams[i].id) == Some(teams[i]));
            assert(teams[i] == team);
        }
    }
}

/// The teams in the order in which the database gives them: the given one where it is a
/// listing of the table. Teams created at the same time may come in any order.
pub open spec fn arranged(table: Table, teams: Seq<Team>) -> Seq<Team> {
    if listing(table, teams) {
        teams
    } else {
        choose|other: Seq<Team>| listing(table, other)
    }
}

/// What an operation meets besides the table: the time, the order in which the database
/// gives teams that were created at the same time, and what it says where it refuses a
/// statement.
pub struct Surroundings {
    pub now: Seq<char>,
    pub teams: Seq<Team>,
    pub refusal: Seq<char>,
}

/// The reply to a query.
pub open spec fn queried(table: Table, command: Command, with: Surroundings) -> Result<
    Seq<Team>,
    Seq<char>,
> {
    match command {
        Command::SelectAll => Ok(arranged(table, with.teams)),
        Command::SelectById { id } => Ok(
            match lookup(table, id) {
                Some(team) => seq![team],
                None => seq![],
            },
        ),
        _ => Err(with.refusal),
    }
}

/// The table after a statement and the reply to it. An id that is taken is refused. An
/// update leaves the id and the time of creation as they are.
pub open spec fn executed(table: Table, command: Command, with: Surroundings) -> (
    Table,
    Result<nat, Seq<char>>,
) {
    match command {
        Command::Insert { team } => if table.contains_key(team.id) || team.created_at is None {
            (table, Err(with.refusal))
        } else {
            (table.insert(team.id, Team { updated_at: team.created_at, ..team }), Ok(1))
        },
        Command::Update { id, team } => if !table.contains_key(id) {
            (table, Ok(0))
        } else if team.updated_at is None {
            (table, Err(with.refusal))
        } else {
            (
                table.insert(
                    id,
                    Team { id: table[id].id, created_at: table[id].created_at, ..team },
                ),
                Ok(1),
            )
        },
        Command::Delete { id } => if table.contains_key(id) {
            (table.remove(id), Ok(1))
        } else {
            (table, Ok(0))
        },
        _ => (table, Err(with.refusal)),
    }
}

/// How many statements an operation on one team still runs at most.
pub open spec fn lookup_rank(step: LookupStep) -> nat {
    match step {
        LookupStep::Done { .. } => 0,
        LookupStep::Query { state, .. } => match state {
            LookupQueryModel::Fetch => 1,
            LookupQueryModel::Load { .. } => 3,
            LookupQueryModel::Probe { .. } => 4,
        },
        LookupStep::Execute { .. } => 2,
    }
}

/// Run an operation on one team to its end.
pub open spec fn run_lookup(table: Table, step: LookupStep, with: Surroundings) -> (
    Table,
    Result<Option<Team>, Failure>,
)
    decreases lookup_rank(step),
{
    match step {
        LookupStep::Done { result } => (table, result),
        LookupStep::Query { command, state } => run_lookup(
            table,
            lookup_resumed(state, queried(table, command, with), with.now),
            with,
        ),
        LookupStep::Execute { command, id } => {
            let (after, reply) = executed(table, command, with);
            run_lookup(after, lookup_written(id, reply), with)
        },
    }
}

/// How many statements a creation still runs at most.
pub open spec fn create_rank(step: CreateStep) -> nat {
    match step {
        CreateStep::Done { .. } => 0,
        CreateStep::Query { .. } => 1,
        CreateStep::Execute { .. } => 2,
    }
}

/// Run a creation to its end.
pub open spec fn run_create(table: Table, step: CreateStep, with: Surroundings) -> (
    Table,
    Result<Team, Failure>,
)
    decreases create_rank(step),
{
    match step {
        CreateStep::Done { result } => (table, result),
        CreateStep::Query { command } => run_create(
            table,
            create_fetched(queried(table, command, with)),
            with,
        ),
        CreateStep::Execute { command, id } => {
            let (after, reply) = executed(table, command, with);
            run_create(after, create_written(id, reply), with)
        },
    }
}

/// How many statements a request still runs at most.
pub open spec fn api_rank(step: ApiStep) -> nat {
    match step {
        ApiStep::Done { .. } => 0,
        ApiStep::Query { state, command } => match state {
            ApiQueryModel::List => 1,
            ApiQueryModel::Health => 1,
            ApiQueryModel::Create => 1,
            ApiQueryModel::Lookup { state, .. } => lookup_rank(LookupStep::Query { command, state }),
            ApiQueryModel::BeforeDelete { .. } => 2,
            ApiQueryModel::BeforeMembers { .. } => 5,
        },
        ApiStep::Execute { state, .. } => match state {
            ApiWriteModel::Create { .. } => 2,
            ApiWriteModel::Lookup { .. } => 2,
            ApiWriteModel::Delete { .. } => 1,
        },
    }
}

/// Run a request to its answer.
pub open spec fn run_api(table: Table, step: ApiStep, with: Surroundings) -> (Table, Answer)
    decreases api_rank(step),
{
    match step {
        ApiStep::Done { answer } => (table, answer),
        ApiStep::Query { command, state } => run_api(
            table,
            api_resumed(state, queried(table, command, with), with.now),
            with,
        ),
        ApiStep::Execute { command, state } => {
            let (after, reply) = executed(table, command, with);
            run_api(after, api_written(state, reply), with)
        },
    }
}

/// The table with one team changed at this time.
pub open spec fn with_patched(table: Table, id: Seq<char>, patch: Patch, now: Seq<char>) -> Table {
    table.insert(id, stamped(applied(table[id], patch), now))
}

/// Run a listing to its end.
pub open spec fn run_list(table: Table, with: Surroundings) -> (
    Table,
    Result<Seq<Team>, Failure>,
) {
    (table, listed(queried(table, Command::SelectAll, with)))
}

/// A listing gives every team of the table once and nothing else, those created first
/// first, and leaves the table alone.
pub proof fn law_list(table: Table, with: Surroundings)
    requires
        valid(table),
    ensures
        ({
            let (after, result) = run_list(table, with);
            let teams = result->Ok_0;
            &&& after == table
            &&& result is Ok
            &&& listing(table, teams)
            &&& teams.len() == table.len()
            &&& forall|team: Team| #[trigger]
                teams.contains(team) <==> run_lookup(table, get_step(team.id), with).1 == Ok::<
                    Option<Team>,
                    Failure,
                >(Some(team))
            &&& forall|i: int, j: int|
                0 <= i < j < teams.len() ==> text_le(
                    (#[trigger] teams[i]).created_at->0,
                    (#[trigger] teams[j]).created_at->0,
                )
        }),
{
    law_can_be_listed(table);
    let teams = arranged(table, with.teams);
    law_listing_is_complete(table, teams);
    assert forall|team: Team| #[trigger] teams.contains(team) <==> run_lookup(
        table,
        get_step(team.id),
        with,
    ).1 == Ok::<Option<Team>, Failure>(Some(team)) by {
        law_get(table, team.id, with);
    }
}

/// Reading a team gives it as it lies in the table, or nothing, and leaves the table alone.
pub proof fn law_get(table: Table, id: Seq<char>, with: Surroundings)
    ensures
        run_lookup(table, get_step(id), with) == (
            table,
            Ok::<Option<Team>, Failure>(lookup(table, id)),
        ),
{
    reveal_with_fuel(run_lookup, 2);
}

/// An update of a team that exists puts the patch in, stamps the team with the time, and
/// gives it back. An update of one that does not exist gives nothing and changes nothing.
pub proof fn law_update(table: Table, id: Seq<char>, patch: Patch, with: Surroundings)
    ensures
        table.contains_key(id) ==> run_lookup(table, update_step(id, patch), with) == (
            with_patched(table, id, patch, with.now),
            Ok::<Option<Team>, Failure>(Some(stamped(applied(table[id], patch), with.now))),
        ),
        !table.contains_key(id) ==> run_lookup(table, update_step(id, patch), with) == (
            table,
            Ok::<Option<Team>, Failure>(None),
        ),
{
    reveal_with_fuel(run_lookup, 5);
}

/// An agent that joins a team comes last in its member list. One that is a member already
/// changes nothing at all. A team that does not exist gives nothing.
pub proof fn law_add_member(
    table: Table,
    id: Seq<char>,
    agent_id: Seq<char>,
    with: Surroundings,
)
    ensures
        ({
            let start = member_step(id, agent_id, MemberChange::Join);
            let patch = members_patch(table[id].members.push(agent_id));
            if !table.contains_key(id) {
                run_lookup(table, start, with) == (table, Ok::<Option<Team>, Failure>(None))
            } else if table[id].members.contains(agent_id) {
                run_lookup(table, start, with) == (
                    table,
                    Ok::<Option<Team>, Failure>(Some(table[id])),
                )
            } else {
                run_lookup(table, start, with) == (
                    with_patched(table, id, patch, with.now),
                    Ok::<Option<Team>, Failure>(Some(stamped(applied(table[id], patch), with.now))),
                )
            }
        }),
{
    reveal_with_fuel(run_lookup, 6);
}

/// An agent that leaves a team is gone from its member list, and the others keep their
/// order. One that is no member changes nothing at all. A team that does not exist gives
/// nothing.
pub proof fn law_remove_member(
    table: Table,
    id: Seq<char>,
    agent_id: Seq<char>,
    with: Surroundings,
)
    ensures
        ({
            let start = member_step(id, agent_id, MemberChange::Leave);
            let patch = members_patch(left(table[id].members, agent_id));
            if !table.contains_key(id) {
                run_lookup(table, start, with) == (table, Ok::<Option<Team>, Failure>(None))
            } else if !table[id].members.contains(agent_id) {
                run_lookup(table, start, with) == (
                    table,
                    Ok::<Option<Team>, Failure>(Some(table[id])),
                )
            } else {
                run_lookup(table, start, with) == (
                    with_patched(table, id, patch, with.now),
                    Ok::<Option<Team>, Failure>(Some(stamped(applied(table[id], patch), with.now))),
                )
            }
        }),
{
    reveal_with_fuel(run_lookup, 6);
}

/// A creation under an id that is not taken adds the team that the client described and
/// gives it back.
pub proof fn law_create(
    table: Table,
    input: NewTeam,
    id: Seq<char>,
    now: Seq<char>,
    with: Surroundings,
)
    requires
        !table.contains_key(id),
    ensures
        run_create(table, create_step(input, id, now), with) == (
            table.insert(id, created(input, id, now)),
            Ok::<Team, Failure>(created(input, id, now)),
        ),
{
    reveal_with_fuel(run_create, 4);
}

/// A creation never overwrites a team: under an id that is taken it fails, and the table
/// stays as it is.
pub proof fn law_create_never_overwrites(
    table: Table,
    input: NewTeam,
    id: Seq<char>,
    now: Seq<char>,
    with: Surroundings,
)
    requires
        table.contains_key(id),
    ensures
        run_create(table, create_step(input, id, now), with) == (
            table,
            Err::<Team, Failure>(Failure::Database { message: with.refusal }),
        ),
{
    reveal_with_fuel(run_create, 4);
}

} // verus!
