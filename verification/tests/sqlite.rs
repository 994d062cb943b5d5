//! The store and the surface against a real database.

use rusqlite::{params_from_iter, Connection};

use ryu_teams::api::{self, ApiProgress, Body, EventKind, Payload, Response};
use ryu_teams::row::TeamRow;
use ryu_teams::statement::Statement;
use ryu_teams::store::{CreateProgress, LookupProgress, StoreError};
use ryu_teams::{Coordination, CreateTeam, TeamRecord, TeamStore, UpdateTeam};

struct Db {
    conn: Connection,
}

type Store<T> = Result<T, StoreError>;

impl Db {
    fn open() -> Db {
        let conn = Connection::open_in_memory().unwrap();
        conn.execute_batch(TeamStore::migrate()).unwrap();
        Db { conn }
    }

    fn rows(&self, statement: &Statement) -> Result<Vec<TeamRow>, String> {
        let mut prepared = self.conn.prepare(statement.sql()).map_err(|e| e.to_string())?;
        let rows = prepared
            .query_map(params_from_iter(statement.params()), |row| {
                Ok(TeamRow {
                    id: row.get(0)?,
                    name: row.get(1)?,
                    description: row.get(2)?,
                    members: row.get(3)?,
                    coordination: row.get(4)?,
                    lead_agent_id: row.get(5)?,
                    created_at: row.get(6)?,
                    updated_at: row.get(7)?,
                })
            })
            .map_err(|e| e.to_string())?
            .collect::<rusqlite::Result<Vec<TeamRow>>>();
        rows.map_err(|e| e.to_string())
    }

    fn count(&self, statement: &Statement) -> Result<usize, String> {
        self.conn
            .execute(statement.sql(), params_from_iter(statement.params()))
            .map_err(|e| e.to_string())
    }

    fn lookup(&self, start: LookupProgress) -> Store<Option<TeamRecord>> {
        let mut progress = start;
        loop {
            progress = match progress {
                LookupProgress::Query { statement, state } => state.resume(self.rows(&statement)),
                LookupProgress::Execute { statement, state } => {
                    state.resume(self.count(&statement))
                }
                LookupProgress::Done { result } => return result,
            };
        }
    }

    fn create(&self, input: CreateTeam) -> Store<TeamRecord> {
        let mut progress = TeamStore::create(input);
        loop {
            progress = match progress {
                CreateProgress::Query { statement, state } => state.resume(self.rows(&statement)),
                CreateProgress::Execute { statement, state } => {
                    state.resume(self.count(&statement))
                }
                CreateProgress::Done { result } => return result,
            };
        }
    }

    fn get(&self, id: &str) -> Store<Option<TeamRecord>> {
        self.lookup(TeamStore::get(id))
    }

    fn update(&self, id: &str, patch: UpdateTeam) -> Store<Option<TeamRecord>> {
        self.lookup(TeamStore::update(id, patch))
    }

    fn add_member(&self, id: &str, agent: &str) -> Store<Option<TeamRecord>> {
        self.lookup(TeamStore::add_member(id, agent))
    }

    fn remove_member(&self, id: &str, agent: &str) -> Store<Option<TeamRecord>> {
        self.lookup(TeamStore::remove_member(id, agent))
    }

    fn list(&self) -> Store<Vec<TeamRecord>> {
        TeamStore::list_rows(self.rows(&TeamStore::list()))
    }

    fn delete(&self, id: &str) -> Store<bool> {
        TeamStore::delete_count(self.count(&TeamStore::delete(id)))
    }

    fn serve(&self, start: ApiProgress) -> Response {
        let mut progress = start;
        loop {
            progress = match progress {
                ApiProgress::Query { statement, state } => state.resume(self.rows(&statement)),
                ApiProgress::Execute { statement, state } => state.resume(self.count(&statement)),
                ApiProgress::Done { response } => return response,
            };
        }
    }
}

fn named(name: &str) -> CreateTeam {
    CreateTeam {
        name: name.to_owned(),
        ..Default::default()
    }
}

fn with_members(name: &str, members: &[&str]) -> CreateTeam {
    CreateTeam {
        name: name.to_owned(),
        members: members.iter().map(|m| m.to_string()).collect(),
        ..Default::default()
    }
}

/// The patch that a JSON body stands for.
fn patch(body: &str) -> UpdateTeam {
    let value: serde_json::Value = serde_json::from_str(body).unwrap();
    let text = |key: &str| value.get(key).and_then(|v| v.as_str()).map(str::to_owned);
    let mut patch = UpdateTeam::default();
    patch.name = text("name");
    patch.description = text("description");
    if value.get("lead_agent_id").is_some() {
        patch.lead_agent_id = ryu_teams::record::double_option(text("lead_agent_id"));
    }
    patch
}

fn team_of(response: &Response) -> &TeamRecord {
    match &response.body {
        Body::Team { team } => team,
        other => panic!("no team: {other:?}"),
    }
}

fn error_of(response: &Response) -> &str {
    match &response.body {
        Body::Error { message } => message,
        other => panic!("no error: {other:?}"),
    }
}

fn kind_of(response: &Response) -> Option<EventKind> {
    response.event.as_ref().map(|e| e.kind)
}

fn event_team(response: &Response) -> &TeamRecord {
    match response.event.as_ref().map(|e| &e.payload) {
        Some(Payload::Record { team }) => team,
        other => panic!("no record: {other:?}"),
    }
}

fn same(a: &TeamRecord, b: &TeamRecord) -> bool {
    format!("{a:?}") == format!("{b:?}")
}

#[test]
fn create_list_get_roundtrip() {
    let s = Db::open();
    let t = s
        .create(CreateTeam {
            name: "Research".to_owned(),
            description: Some("paper readers".to_owned()),
            members: vec!["acp:gemini".to_owned(), "ryu".to_owned()],
            coordination: Coordination::Broadcast,
            lead_agent_id: None,
        })
        .unwrap();
    assert!(t.id.starts_with("team_"));
    assert_eq!(t.members, vec!["acp:gemini", "ryu"]);
    assert_eq!(t.coordination, Coordination::Broadcast);

    let listed = s.list().unwrap();
    assert_eq!(listed.len(), 1);
    let got = s.get(&t.id).unwrap().unwrap();
    assert_eq!(got.name, "Research");
    assert_eq!(got.description.as_deref(), Some("paper readers"));
}

#[test]
fn add_remove_member_idempotent() {
    let s = Db::open();
    let t = s.create(named("T")).unwrap();
    s.add_member(&t.id, "ryu").unwrap();
    let r = s.add_member(&t.id, "ryu").unwrap().unwrap();
    assert_eq!(r.members, vec!["ryu"]);
    let r = s.remove_member(&t.id, "ryu").unwrap().unwrap();
    assert!(r.members.is_empty());
    let r = s.remove_member(&t.id, "ryu").unwrap().unwrap();
    assert!(r.members.is_empty());
}

#[test]
fn update_patches_only_present_fields() {
    let s = Db::open();
    let t = s
        .create(CreateTeam {
            name: "Old".to_owned(),
            members: vec!["a".to_owned()],
            coordination: Coordination::Broadcast,
            ..Default::default()
        })
        .unwrap();
    let updated = s
        .update(
            &t.id,
            UpdateTeam {
                coordination: Some(Coordination::DebateSynthesis),
                lead_agent_id: Some(Some("a".to_owned())),
                ..Default::default()
            },
        )
        .unwrap()
        .unwrap();
    assert_eq!(updated.name, "Old");
    assert_eq!(updated.members, vec!["a"]);
    assert_eq!(updated.coordination, Coordination::DebateSynthesis);
    assert_eq!(updated.lead_agent_id.as_deref(), Some("a"));
}

#[test]
fn delete_removes_team() {
    let s = Db::open();
    let t = s.create(named("Gone")).unwrap();
    assert!(s.delete(&t.id).unwrap());
    assert!(s.get(&t.id).unwrap().is_none());
    assert!(!s.delete(&t.id).unwrap());
}

#[test]
fn update_lead_absent_field_deserializes_to_none() {
    let patch = patch(r#"{"name":"x"}"#);
    assert!(patch.lead_agent_id.is_none());
}

#[test]
fn update_lead_null_deserializes_to_some_none() {
    let patch = patch(r#"{"lead_agent_id":null}"#);
    assert_eq!(patch.lead_agent_id, Some(None));
}

#[test]
fn update_lead_value_deserializes_to_some_some() {
    let patch = patch(r#"{"lead_agent_id":"lead-1"}"#);
    assert_eq!(patch.lead_agent_id, Some(Some("lead-1".to_owned())));
}

#[test]
fn update_lead_tri_state_applies_correctly() {
    let s = Db::open();
    let t = s
        .create(CreateTeam {
            name: "T".to_owned(),
            lead_agent_id: Some("orig".to_owned()),
            ..Default::default()
        })
        .unwrap();
    assert_eq!(t.lead_agent_id.as_deref(), Some("orig"));

    let r = s.update(&t.id, patch(r#"{"name":"T2"}"#)).unwrap().unwrap();
    assert_eq!(r.name, "T2");
    assert_eq!(r.lead_agent_id.as_deref(), Some("orig"));

    let cleared = patch(r#"{"lead_agent_id":null}"#);
    let r = s.update(&t.id, cleared).unwrap().unwrap();
    assert_eq!(r.lead_agent_id, None);

    let set = patch(r#"{"lead_agent_id":"new"}"#);
    let r = s.update(&t.id, set).unwrap().unwrap();
    assert_eq!(r.lead_agent_id.as_deref(), Some("new"));
}

#[test]
fn description_is_plain_option_so_null_cannot_clear_it() {
    let s = Db::open();
    let t = s
        .create(CreateTeam {
            name: "T".to_owned(),
            description: Some("keep me".to_owned()),
            ..Default::default()
        })
        .unwrap();
    let p = patch(r#"{"description":null}"#);
    assert!(p.description.is_none());
    let r = s.update(&t.id, p).unwrap().unwrap();
    assert_eq!(r.description.as_deref(), Some("keep me"));
}

#[test]
fn update_missing_team_returns_none() {
    let s = Db::open();
    let r = s
        .update(
            "team_does_not_exist",
            UpdateTeam {
                name: Some("x".to_owned()),
                ..Default::default()
            },
        )
        .unwrap();
    assert!(r.is_none());
}

#[test]
fn add_and_remove_member_on_missing_team_return_none() {
    let s = Db::open();
    assert!(s.add_member("nope", "a").unwrap().is_none());
    assert!(s.remove_member("nope", "a").unwrap().is_none());
}

#[test]
fn update_replaces_full_member_list_and_preserves_order() {
    let s = Db::open();
    let t = s.create(with_members("T", &["a", "b"])).unwrap();
    let r = s
        .update(
            &t.id,
            UpdateTeam {
                members: Some(vec!["c".to_owned(), "b".to_owned(), "a".to_owned()]),
                ..Default::default()
            },
        )
        .unwrap()
        .unwrap();
    assert_eq!(r.members, vec!["c", "b", "a"]);
}

#[test]
fn list_orders_by_created_at_ascending() {
    let s = Db::open();
    let first = s.create(named("first")).unwrap();
    let second = s.create(named("second")).unwrap();
    let listed = s.list().unwrap();
    let ids: Vec<&str> = listed.iter().map(|t| t.id.as_str()).collect();
    let pos_first = ids.iter().position(|id| *id == first.id).unwrap();
    let pos_second = ids.iter().position(|id| *id == second.id).unwrap();
    assert!(pos_first <= pos_second, "created_at ASC ordering");
    assert_eq!(listed.len(), 2);
}

#[test]
fn listing_is_by_time_of_creation_whatever_the_order_of_insertion() {
    let s = Db::open();
    for (id, time) in [("b", "t2"), ("a", "t3"), ("c", "t1")] {
        let start = ryu_teams::store::create_as(named(id), id.to_owned(), time.to_owned());
        match start {
            CreateProgress::Execute { statement, .. } => {
                assert_eq!(s.count(&statement), Ok(1));
            }
            other => panic!("{other:?}"),
        }
    }
    let ids: Vec<String> = s.list().unwrap().into_iter().map(|t| t.id).collect();
    assert_eq!(ids, ["c", "b", "a"]);
}

#[test]
fn listing_follows_the_clock() {
    let s = Db::open();
    let times = [
        "2024-12-31T23:59:59.999999999+00:00",
        "2025-01-01T00:00:00+00:00",
        "2025-01-01T00:00:00.000000001+00:00",
        "2025-01-01T00:00:00.001+00:00",
        "2025-01-01T00:00:00.001500+00:00",
        "2025-01-01T00:00:00.002+00:00",
        "2025-01-01T00:00:01+00:00",
        "2025-01-01T00:01:00.500+00:00",
        "2025-10-01T00:00:00+00:00",
    ];
    for time in times.iter().rev() {
        let start = ryu_teams::store::create_as(named("T"), time.to_string(), time.to_string());
        match start {
            CreateProgress::Execute { statement, .. } => {
                assert_eq!(s.count(&statement), Ok(1));
            }
            other => panic!("{other:?}"),
        }
    }
    let ids: Vec<String> = s.list().unwrap().into_iter().map(|t| t.id).collect();
    assert_eq!(ids, times);
}

#[test]
fn creation_never_overwrites() {
    let s = Db::open();
    let first = ryu_teams::store::create_as(named("one"), "x".to_owned(), "t1".to_owned());
    let second = ryu_teams::store::create_as(named("two"), "x".to_owned(), "t2".to_owned());
    for (start, ok) in [(first, true), (second, false)] {
        if let CreateProgress::Execute { statement, state } = start {
            let reply = s.count(&statement);
            assert_eq!(reply.is_ok(), ok);
            match state.resume(reply) {
                CreateProgress::Query { .. } => assert!(ok),
                CreateProgress::Done { result } => {
                    assert!(!ok);
                    assert!(result.unwrap_err().message().contains("UNIQUE"));
                }
                other => panic!("{other:?}"),
            }
        }
    }
    assert_eq!(s.get("x").unwrap().unwrap().name, "one");
}

#[test]
fn created_and_updated_times() {
    let s = Db::open();
    let t = s.create(named("T")).unwrap();
    assert!(t.created_at.is_some());
    assert_eq!(t.created_at, t.updated_at);
    let r = s.update(&t.id, UpdateTeam::default()).unwrap().unwrap();
    assert_eq!(r.created_at, t.created_at);
    assert!(r.updated_at >= t.updated_at);
    assert_eq!(r.name, "T");
}

#[test]
fn bad_rows_do_not_break_listing() {
    let s = Db::open();
    s.conn
        .execute_batch(
            "INSERT INTO teams (id, name, members, coordination, created_at, updated_at)
             VALUES ('x', 'X', 'oops', 'swarm', 't', 't');
             INSERT INTO teams (id, name, created_at, updated_at) VALUES ('y', 'Y', 'u', 'u');",
        )
        .unwrap();
    let listed = s.list().unwrap();
    assert_eq!(listed.len(), 2);
    for t in listed {
        assert!(t.members.is_empty());
        assert_eq!(t.coordination, Coordination::Broadcast);
    }
}

#[test]
fn other_teams_stay() {
    let s = Db::open();
    let a = s.create(with_members("A", &["x"])).unwrap();
    let b = s.create(with_members("B", &["x"])).unwrap();
    s.add_member(&a.id, "y").unwrap();
    s.remove_member(&a.id, "x").unwrap();
    s.update(&a.id, patch(r#"{"name":"A2"}"#)).unwrap();
    s.delete(&a.id).unwrap();
    assert!(same(&s.get(&b.id).unwrap().unwrap(), &b));
}

#[test]
fn created_team_is_answered_raised_and_readable() {
    let s = Db::open();
    let r = s.serve(api::create_team(with_members("Growth", &["a"])));
    assert_eq!(r.status, 200);
    assert_eq!(kind_of(&r), Some(EventKind::Created));
    assert!(same(event_team(&r), team_of(&r)));
    let got = s.serve(api::get_team(team_of(&r).id.clone()));
    assert_eq!(got.status, 200);
    assert_eq!(kind_of(&got), None);
    assert!(same(team_of(&got), team_of(&r)));
}

#[test]
fn blank_name_is_refused_and_nothing_stored() {
    let s = Db::open();
    for name in ["", "   ", "\u{2003}\n"] {
        let r = s.serve(api::create_team(named(name)));
        assert_eq!(r.status, 400);
        assert_eq!(error_of(&r), "team name is required");
        assert_eq!(kind_of(&r), None);
    }
    assert!(s.list().unwrap().is_empty());
    let padded = s.serve(api::create_team(named(" x ")));
    assert_eq!(team_of(&padded).name, " x ");
}

#[test]
fn missing_team_is_not_found() {
    let s = Db::open();
    for r in [
        s.serve(api::get_team("nope".to_owned())),
        s.serve(api::update_team("nope".to_owned(), UpdateTeam::default())),
        s.serve(api::delete_team("nope".to_owned())),
        s.serve(api::add_team_member("nope".to_owned(), "a".to_owned())),
        s.serve(api::remove_team_member("nope".to_owned(), "a".to_owned())),
    ] {
        assert_eq!(r.status, 404);
        assert_eq!(error_of(&r), "team 'nope' not found");
        assert_eq!(kind_of(&r), None);
    }
}

#[test]
fn update_raises_the_patched_team() {
    let s = Db::open();
    let t = s.create(named("T")).unwrap();
    let r = s.serve(api::update_team(t.id.clone(), patch(r#"{"name":"T2"}"#)));
    assert_eq!(r.status, 200);
    assert_eq!(kind_of(&r), Some(EventKind::Updated));
    assert_eq!(event_team(&r).name, "T2");
    assert!(same(event_team(&r), team_of(&r)));
}

#[test]
fn delete_raises_the_team_as_it_was_and_only_once() {
    let s = Db::open();
    let t = s.create(with_members("T", &["a", "b"])).unwrap();
    let r = s.serve(api::delete_team(t.id.clone()));
    assert_eq!(r.status, 200);
    assert!(matches!(r.body, Body::Success));
    assert_eq!(kind_of(&r), Some(EventKind::Deleted));
    assert!(same(event_team(&r), &t));
    let again = s.serve(api::delete_team(t.id.clone()));
    assert_eq!(again.status, 404);
    assert_eq!(kind_of(&again), None);
    assert_eq!(s.serve(api::get_team(t.id)).status, 404);
}

#[test]
fn only_real_changes_of_members_raise_an_event() {
    let s = Db::open();
    let t = s.create(with_members("T", &["a"])).unwrap();
    let join = || s.serve(api::add_team_member(t.id.clone(), "b".to_owned()));
    let leave = || s.serve(api::remove_team_member(t.id.clone(), "a".to_owned()));
    let r = join();
    assert_eq!(kind_of(&r), Some(EventKind::Updated));
    assert_eq!(team_of(&r).members, ["a", "b"]);
    let again = join();
    assert_eq!(again.status, 200);
    assert_eq!(kind_of(&again), None);
    assert!(same(team_of(&again), team_of(&r)));
    let r = leave();
    assert_eq!(kind_of(&r), Some(EventKind::Updated));
    assert_eq!(team_of(&r).members, ["b"]);
    let again = leave();
    assert_eq!(again.status, 200);
    assert_eq!(kind_of(&again), None);
    assert!(same(team_of(&again), team_of(&r)));
}

#[test]
fn removing_an_agent_that_is_no_member_changes_nothing() {
    let s = Db::open();
    let start = ryu_teams::store::create_as(
        with_members("T", &["a"]),
        "x".to_owned(),
        "1970-01-01T00:00:00+00:00".to_owned(),
    );
    match start {
        CreateProgress::Execute { statement, .. } => {
            assert_eq!(s.count(&statement), Ok(1));
        }
        other => panic!("{other:?}"),
    }
    let before = s.get("x").unwrap().unwrap();
    let r = s.remove_member("x", "nobody").unwrap().unwrap();
    assert!(same(&r, &before));
    let r = s.serve(api::remove_team_member("x".to_owned(), "nobody".to_owned()));
    assert_eq!(r.status, 200);
    assert_eq!(kind_of(&r), None);
    assert!(same(team_of(&r), &before));
    assert!(same(&s.get("x").unwrap().unwrap(), &before));
}

#[test]
fn listing_and_health_over_http() {
    let s = Db::open();
    s.create(named("A")).unwrap();
    s.create(named("B")).unwrap();
    let r = s.serve(api::list_teams());
    assert_eq!(r.status, 200);
    match r.body {
        Body::Teams { teams } => assert_eq!(teams.len(), 2),
        other => panic!("{other:?}"),
    }
    let r = s.serve(api::health());
    assert_eq!(r.status, 200);
    assert!(matches!(r.body, Body::Healthy { team_count: 2 }));
}

#[test]
fn broken_database_is_reported_without_events() {
    let s = Db::open();
    let t = s.create(named("T")).unwrap();
    s.conn.execute_batch("DROP TABLE teams").unwrap();
    for r in [
        s.serve(api::list_teams()),
        s.serve(api::create_team(named("X"))),
        s.serve(api::get_team(t.id.clone())),
        s.serve(api::update_team(t.id.clone(), UpdateTeam::default())),
        s.serve(api::delete_team(t.id.clone())),
        s.serve(api::add_team_member(t.id.clone(), "a".to_owned())),
        s.serve(api::remove_team_member(t.id.clone(), "a".to_owned())),
    ] {
        assert_eq!(r.status, 500);
        assert!(error_of(&r).contains("no such table"));
        assert_eq!(kind_of(&r), None);
    }
    let r = s.serve(api::health());
    assert_eq!(r.status, 503);
    assert!(matches!(r.body, Body::Unhealthy { .. }));
}

#[test]
fn failed_read_before_the_act_does_not_stop_it() {
    let s = Db::open();
    let t = s.create(with_members("T", &["a"])).unwrap();
    let broken = || Err("disk".to_owned());
    let start = api::add_team_member(t.id.clone(), "a".to_owned());
    let next = match start {
        ApiProgress::Query { state, .. } => state.resume(broken()),
        other => panic!("{other:?}"),
    };
    let r = s.serve(next);
    assert_eq!(r.status, 200);
    assert_eq!(kind_of(&r), Some(EventKind::Updated));

    let start = api::delete_team(t.id.clone());
    let next = match start {
        ApiProgress::Query { state, .. } => state.resume(broken()),
        other => panic!("{other:?}"),
    };
    let r = s.serve(next);
    assert_eq!(r.status, 200);
    match r.event.unwrap().payload {
        Payload::IdOnly { id } => assert_eq!(id, t.id),
        other => panic!("{other:?}"),
    }
}

#[test]
fn vanished_team_is_an_error() {
    let s = Db::open();
    let start = api::create_team_as(named("T"), "x".to_owned(), "t".to_owned());
    let next = match start {
        ApiProgress::Execute { state, .. } => state.resume(Ok(1)),
        other => panic!("{other:?}"),
    };
    let r = s.serve(next);
    assert_eq!(r.status, 500);
    assert_eq!(error_of(&r), "team vanished immediately after insert");
    assert_eq!(kind_of(&r), None);
}

#[test]
fn given_time_is_what_is_written() {
    let s = Db::open();
    let t = s.create(named("T")).unwrap();
    let start = TeamStore::update(&t.id, patch(r#"{"name":"T2"}"#));
    let next = match start {
        LookupProgress::Query { statement, state } => {
            state.resume_at(s.rows(&statement), "then".to_owned())
        }
        other => panic!("{other:?}"),
    };
    let r = s.lookup(next).unwrap().unwrap();
    assert_eq!(r.updated_at.as_deref(), Some("then"));
    assert_eq!(r.created_at, t.created_at);
}

#[test]
fn unfit_body_is_a_bad_request() {
    let r = api::rejected_body("unknown variant `swarm`".to_owned());
    assert_eq!(r.status, 400);
    assert_eq!(error_of(&r), "unknown variant `swarm`");
    assert_eq!(kind_of(&r), None);
}

#[test]
fn events_carry_their_declared_names() {
    assert_eq!(api::PLUGIN_ID, "@ryu/teams");
    assert_eq!(EventKind::Created.name(), "@ryu/teams#team.created");
    assert_eq!(EventKind::Updated.name(), "@ryu/teams#team.updated");
    assert_eq!(EventKind::Deleted.name(), "@ryu/teams#team.deleted");
}
