use ryu_teams::api::Payload;
use ryu_teams::document::{payload_fields, record_fields, Field, Value};
use ryu_teams::json::{decode_members, encode_members, members_or_none};
use ryu_teams::record::double_option;
use ryu_teams::roster::{apply_patch, is_member, new_record, replace_members, without_member};
use ryu_teams::row::{record_to_row, record_with, row_to_record, TeamRow};
use ryu_teams::stamp::{new_team_id, now, team_id};
use ryu_teams::statement::{Statement, DELETE, INSERT, SELECT_ALL, SELECT_BY_ID, UPDATE};
use ryu_teams::{Coordination, CreateTeam, TeamRecord, UpdateTeam};

fn strings(list: &[&str]) -> Vec<String> {
    list.iter().map(|s| s.to_string()).collect()
}

fn team() -> TeamRecord {
    TeamRecord {
        id: "team_1".to_owned(),
        name: "Research".to_owned(),
        description: Some("paper readers".to_owned()),
        members: strings(&["acp:gemini", "ryu"]),
        coordination: Coordination::DebateSynthesis,
        lead_agent_id: Some("ryu".to_owned()),
        created_at: Some("t0".to_owned()),
        updated_at: Some("t1".to_owned()),
    }
}

fn same(a: &TeamRecord, b: &TeamRecord) -> bool {
    format!("{a:?}") == format!("{b:?}")
}

#[test]
fn member_list_is_stored_as_json() {
    assert_eq!(encode_members(&vec![]), "[]");
    assert_eq!(
        encode_members(&strings(&["acp:gemini", "ryu"])),
        r#"["acp:gemini","ryu"]"#
    );
    assert_eq!(
        encode_members(&strings(&["a\"b\\c\n\u{1}"])),
        "[\"a\\\"b\\\\c\\n\\u0001\"]"
    );
}

#[test]
fn member_list_survives_storing() {
    for list in [
        strings(&[]),
        strings(&[""]),
        strings(&["a", "a", "b"]),
        strings(&["\"", "\\", "\u{0}", "\u{7f}", "\u{2028}", "\u{10ffff}", "é,]"]),
    ] {
        assert_eq!(decode_members(&encode_members(&list)), list);
    }
}

#[test]
fn text_that_is_no_list_of_strings_reads_as_no_members() {
    for text in ["", "null", "{}", "[1]", "[\"a\"", "[\"a\"] x", "\"a\"", "[null]"] {
        assert!(decode_members(text).is_empty(), "{text}");
    }
    assert_eq!(decode_members(" [ \"a\" , \"b\" ] "), strings(&["a", "b"]));
}

#[test]
fn members_that_could_not_be_read_are_none() {
    assert!(members_or_none(None).is_empty());
    assert_eq!(members_or_none(Some(strings(&["a", "b"]))), ["a", "b"]);
    let record = record_with(record_to_row(team()), strings(&["z"]));
    assert_eq!(record.members, ["z"]);
    assert_eq!(record.name, "Research");
    assert_eq!(record.coordination, Coordination::DebateSynthesis);
}

#[test]
fn record_survives_storing() {
    let row = record_to_row(team());
    assert_eq!(row.members, r#"["acp:gemini","ryu"]"#);
    assert_eq!(row.coordination, "debate-synthesis");
    assert!(same(&row_to_record(row), &team()));
}

/// The JSON of a document.
fn object(fields: Vec<Field>) -> serde_json::Value {
    let pairs = fields.into_iter().map(|field| {
        let value = match field.value {
            Value::Null => serde_json::Value::Null,
            Value::Text { text } => serde_json::Value::from(text),
            Value::List { items } => serde_json::Value::from(items),
        };
        (field.key.to_owned(), value)
    });
    serde_json::Value::Object(pairs.collect())
}

#[test]
fn record_reads_as_its_document() {
    let expected: serde_json::Value = serde_json::from_str(
        r#"{"id":"team_1","name":"Research","description":"paper readers",
            "members":["acp:gemini","ryu"],"coordination":"debate-synthesis",
            "lead_agent_id":"ryu","created_at":"t0","updated_at":"t1"}"#,
    )
    .unwrap();
    assert_eq!(object(record_fields(team())), expected);
    assert_eq!(object(payload_fields(Payload::Record { team: team() })), expected);
}

#[test]
fn unset_lead_is_left_out_and_the_rest_is_null() {
    let record = TeamRecord {
        description: None,
        lead_agent_id: None,
        created_at: None,
        members: strings(&[]),
        ..team()
    };
    let expected: serde_json::Value = serde_json::from_str(
        r#"{"id":"team_1","name":"Research","description":null,"members":[],
            "coordination":"debate-synthesis","created_at":null,"updated_at":"t1"}"#,
    )
    .unwrap();
    assert_eq!(object(record_fields(record)), expected);
}

#[test]
fn event_without_a_record_names_its_team() {
    let fields = payload_fields(Payload::IdOnly { id: "x".to_owned() });
    let expected: serde_json::Value = serde_json::from_str(r#"{"id":"x"}"#).unwrap();
    assert_eq!(object(fields), expected);
}

#[test]
fn bad_row_still_reads() {
    let record = row_to_record(TeamRow {
        id: "x".to_owned(),
        name: "X".to_owned(),
        description: None,
        members: "not json".to_owned(),
        coordination: "swarm".to_owned(),
        lead_agent_id: None,
        created_at: None,
        updated_at: None,
    });
    assert_eq!(record.id, "x");
    assert!(record.members.is_empty());
    assert_eq!(record.coordination, Coordination::Broadcast);
}

#[test]
fn new_record_holds_the_input_and_one_time() {
    let record = new_record(
        CreateTeam {
            name: "N".to_owned(),
            description: None,
            members: strings(&["a"]),
            coordination: Coordination::Router,
            lead_agent_id: Some("a".to_owned()),
        },
        "team_9".to_owned(),
        "t".to_owned(),
    );
    assert_eq!(record.id, "team_9");
    assert_eq!(record.name, "N");
    assert_eq!(record.description, None);
    assert_eq!(record.members, ["a"]);
    assert_eq!(record.coordination, Coordination::Router);
    assert_eq!(record.lead_agent_id.as_deref(), Some("a"));
    assert_eq!(record.created_at.as_deref(), Some("t"));
    assert_eq!(record.updated_at.as_deref(), Some("t"));
}

#[test]
fn empty_patch_changes_nothing() {
    assert!(same(&apply_patch(team(), UpdateTeam::default()), &team()));
}

#[test]
fn patch_changes_what_it_holds() {
    let patch = UpdateTeam {
        name: Some("New".to_owned()),
        description: Some("d".to_owned()),
        members: Some(strings(&["z"])),
        coordination: Some(Coordination::RoundRobin),
        lead_agent_id: Some(None),
    };
    let once = apply_patch(team(), patch.clone());
    assert_eq!(once.id, "team_1");
    assert_eq!(once.name, "New");
    assert_eq!(once.description.as_deref(), Some("d"));
    assert_eq!(once.members, ["z"]);
    assert_eq!(once.coordination, Coordination::RoundRobin);
    assert_eq!(once.lead_agent_id, None);
    assert_eq!(once.created_at.as_deref(), Some("t0"));
    assert_eq!(once.updated_at.as_deref(), Some("t1"));
    let twice = apply_patch(once.clone(), patch);
    assert!(same(&once, &twice));
}

#[test]
fn present_lead_is_some() {
    assert_eq!(double_option(None), Some(None));
    assert_eq!(
        double_option(Some("lead-1".to_owned())),
        Some(Some("lead-1".to_owned()))
    );
}

#[test]
fn members_leave_in_order() {
    let list = strings(&["a", "b", "a", "c"]);
    assert!(is_member(&list, "c"));
    assert!(!is_member(&list, "d"));
    assert_eq!(without_member(list.clone(), "a"), ["b", "c"]);
    assert_eq!(without_member(list.clone(), "d"), list);
    assert_eq!(
        replace_members(list.clone()).members.as_deref(),
        Some(list.as_slice())
    );
}

#[test]
fn team_ids_are_random_uuids() {
    assert_eq!(team_id("abc"), "team_abc");
    let id = new_team_id();
    let uuid = id.strip_prefix("team_").unwrap();
    assert_eq!(uuid.len(), 32);
    assert!(uuid
        .chars()
        .all(|c| c.is_ascii_digit() || ('a'..='f').contains(&c)));
    assert_eq!(uuid::Uuid::parse_str(uuid).unwrap().get_version_num(), 4);
    assert!("89ab".contains(&uuid[16..17]));
    assert_ne!(new_team_id(), id);
}

#[test]
fn times_are_rfc3339_in_utc() {
    let time = now();
    assert!(time.ends_with("+00:00"));
    assert_eq!(&time[10..11], "T");
    let parsed = chrono::DateTime::parse_from_rfc3339(&time).unwrap();
    let age = chrono::Utc::now().signed_duration_since(parsed);
    assert!(age.num_seconds().abs() < 60);
}

#[test]
fn statements_number_their_arguments() {
    let id = "team_1".to_owned();
    assert_eq!(Statement::SelectAll.sql(), SELECT_ALL);
    assert!(SELECT_ALL.ends_with("FROM teams ORDER BY created_at ASC"));
    assert!(Statement::SelectAll.params().is_empty());
    let get = Statement::SelectById { id: id.clone() };
    assert_eq!(get.sql(), SELECT_BY_ID);
    assert_eq!(get.params(), [Some(id.clone())]);
    let remove = Statement::Delete { id: id.clone() };
    assert_eq!(remove.sql(), DELETE);
    assert_eq!(remove.params(), [Some(id.clone())]);
    let insert = Statement::Insert {
        row: record_to_row(team()),
    };
    assert_eq!(insert.sql(), INSERT);
    assert_eq!(
        insert.params(),
        [
            Some("team_1".to_owned()),
            Some("Research".to_owned()),
            Some("paper readers".to_owned()),
            Some(r#"["acp:gemini","ryu"]"#.to_owned()),
            Some("debate-synthesis".to_owned()),
            Some("ryu".to_owned()),
            Some("t0".to_owned()),
        ]
    );
    let update = Statement::Update {
        id,
        row: record_to_row(team()),
    };
    assert_eq!(update.sql(), UPDATE);
    assert_eq!(
        update.params(),
        [
            Some("Research".to_owned()),
            Some("paper readers".to_owned()),
            Some(r#"["acp:gemini","ryu"]"#.to_owned()),
            Some("debate-synthesis".to_owned()),
            Some("ryu".to_owned()),
            Some("t1".to_owned()),
            Some("team_1".to_owned()),
        ]
    );
}
