use mongodb::bson::oid::ObjectId;
use mongodb::bson::{Bson, DateTime, Document};
use user_api::{
    add_user, add_user_at, add_user_reply, delete_user, delete_user_reply, get_user,
    get_user_reply, mongo_client, update_user, update_user_at, ApiResponse, ConnectOutcome,
    ConnectionCell, Step,
};

/// The same fields as the library's user, with the driver's date-time, to
/// compare diagnostics with what the standard formatter prints.
#[derive(Debug)]
#[allow(dead_code)]
struct User {
    id: Option<String>,
    first_name: Option<String>,
    last_name: Option<String>,
    email: Option<String>,
    password: Option<String>,
    created_at: Option<DateTime>,
    updated_at: Option<DateTime>,
}

fn connected() -> ConnectionCell<u32> {
    let mut cell = ConnectionCell::new();
    assert!(mongo_client(&mut cell, ConnectOutcome::Connected(7)).is_none());
    cell
}

fn text(value: &str) -> Option<String> {
    Some(value.to_string())
}

fn payload(first: Option<&str>, last: Option<&str>, email: Option<&str>, password: Option<&str>) -> user_api::User {
    user_api::User {
        id: None,
        first_name: first.map(|v| v.to_string()),
        last_name: last.map(|v| v.to_string()),
        email: email.map(|v| v.to_string()),
        password: password.map(|v| v.to_string()),
        created_at: None,
        updated_at: None,
    }
}

fn full_payload() -> user_api::User {
    payload(Some("A"), Some("B"), Some("a@b.com"), Some("x"))
}

fn expect_failure(response: &ApiResponse<String>, code: u16, message: &str, detail: &str) {
    assert_eq!(response.status, "error");
    assert_eq!(response.code, code);
    assert_eq!(response.message, message);
    assert_eq!(response.data, None);
    assert_eq!(response.errors.as_deref(), Some(detail));
}

fn expect_success(response: &ApiResponse<String>, message: &str, data: &str) {
    assert_eq!(response.status, "Success");
    assert_eq!(response.code, 200);
    assert_eq!(response.message, message);
    assert_eq!(response.data.as_deref(), Some(data));
    assert_eq!(response.errors, None);
}

fn done<Q>(step: Step<'_, u32, Q>) -> ApiResponse<String> {
    match step {
        Step::Done(response) => response,
        Step::Run { .. } => panic!("the database must not be reached"),
    }
}

fn run<Q>(step: Step<'_, u32, Q>) -> Q {
    match step {
        Step::Done(response) => panic!("answered early: {:?}", response),
        Step::Run { client, call } => {
            assert_eq!(*client, 7);
            call
        }
    }
}

fn id_filter(hex: &str) -> Document {
    let mut filter = Document::new();
    filter.insert("_id", ObjectId::parse_str(hex).unwrap());
    filter
}

#[test]
fn create_then_read_then_read_a_stranger() {
    let cell = connected();
    let call = run(add_user_at(&cell, &full_payload(), 1_700_000_000_123));
    let mut expected = Document::new();
    expected.insert("firstName", "A");
    expected.insert("lastName", "B");
    expected.insert("email", "a@b.com");
    expected.insert("password", "x");
    expected.insert("createdAt", DateTime::from_millis(1_700_000_000_123));
    expected.insert("updatedAt", DateTime::from_millis(1_700_000_000_123));
    assert_eq!(call.document, expected);
    let keys: Vec<&str> = call.document.keys().map(|k| k.as_str()).collect();
    assert_eq!(keys, vec!["firstName", "lastName", "email", "password", "createdAt", "updatedAt"]);

    let id = ObjectId::parse_str("65f1a2b3c4d5e6f708192a3b").unwrap();
    let created = add_user_reply(Ok(Bson::ObjectId(id).to_string()));
    expect_success(
        &created,
        "User added successfully",
        "id:ObjectId(\"65f1a2b3c4d5e6f708192a3b\")",
    );

    let find = run(get_user(&cell, "65f1a2b3c4d5e6f708192a3b"));
    assert_eq!(find.filter, id_filter("65f1a2b3c4d5e6f708192a3b"));
    let mut stored = call.document.clone();
    stored.insert("_id", id);
    let found = get_user_reply("65f1a2b3c4d5e6f708192a3b", Ok(Some(stored.clone())));
    let found = found.expect("the document was found");
    assert_eq!(found.status, "Success");
    assert_eq!(found.code, 200);
    assert_eq!(found.message, "User retrieved successfully");
    assert!(found.errors.is_none());
    let document = found.data.expect("a success carries its payload");
    assert_eq!(document.get_str("firstName"), Ok("A"));
    assert_eq!(document.get_str("lastName"), Ok("B"));
    assert_eq!(document.get_str("email"), Ok("a@b.com"));
    assert_eq!(document.get_str("password"), Ok("x"));
    assert!(document.get_datetime("createdAt").is_ok());
    assert!(document.get_datetime("updatedAt").is_ok());
    assert_eq!(document.get_object_id("_id"), Ok(id));

    let find = run(get_user(&cell, "000000000000000000000000"));
    assert_eq!(find.filter, id_filter("000000000000000000000000"));
    let missing = get_user_reply::<Document>("000000000000000000000000", Ok(None));
    let missing = missing.expect_err("nothing was found");
    expect_failure(
        &missing,
        404,
        "User not found",
        "User not found with ID: 000000000000000000000000",
    );
}

#[test]
fn create_reads_the_clock_once() {
    let cell = connected();
    let before = DateTime::now().timestamp_millis();
    let call = run(add_user(&cell, &full_payload()));
    let after = DateTime::now().timestamp_millis();
    let created = *call.document.get_datetime("createdAt").unwrap();
    let updated = *call.document.get_datetime("updatedAt").unwrap();
    assert_eq!(created, updated);
    assert!(before <= created.timestamp_millis());
    assert!(created.timestamp_millis() <= after);
    assert_eq!(call.document.len(), 6);
    assert!(call.document.get("_id").is_none());
}

#[test]
fn create_ignores_identifier_and_timestamps_of_the_client() {
    let cell = connected();
    let mut user = full_payload();
    user.id = text("65f1a2b3c4d5e6f708192a3b");
    user.created_at = Some(5);
    user.updated_at = Some(6);
    let call = run(add_user_at(&cell, &user, 99));
    assert!(call.document.get("_id").is_none());
    assert_eq!(call.document.get_datetime("createdAt"), Ok(&DateTime::from_millis(99)));
    assert_eq!(call.document.get_datetime("updatedAt"), Ok(&DateTime::from_millis(99)));
}

#[test]
fn create_without_a_field_is_rejected() {
    let cell = connected();
    let cases = [
        (None, Some("B"), Some("a@b.com"), Some("x")),
        (Some("A"), None, Some("a@b.com"), Some("x")),
        (Some("A"), Some("B"), None, Some("x")),
        (Some("A"), Some("B"), Some("a@b.com"), None),
        (None, None, None, None),
    ];
    for (first, last, email, password) in cases {
        let user = payload(first, last, email, password);
        let mirror = User {
            id: None,
            first_name: first.map(|v| v.to_string()),
            last_name: last.map(|v| v.to_string()),
            email: email.map(|v| v.to_string()),
            password: password.map(|v| v.to_string()),
            created_at: None,
            updated_at: None,
        };
        let response = done(add_user_at(&cell, &user, 1));
        expect_failure(&response, 400, "Missing fields", &format!("Missing fields: {:?}", mirror));
        let response = done(add_user(&cell, &user));
        expect_failure(&response, 400, "Missing fields", &format!("Missing fields: {:?}", mirror));
    }
}

#[test]
fn missing_fields_detail_is_spelled_out() {
    let cell = connected();
    let user = payload(Some("A"), None, None, None);
    let response = done(add_user_at(&cell, &user, 1));
    expect_failure(
        &response,
        400,
        "Missing fields",
        "Missing fields: User { id: None, first_name: Some(\"A\"), last_name: None, email: None, password: None, created_at: None, updated_at: None }",
    );
}

#[test]
fn diagnostics_print_a_user_as_the_formatter_does() {
    let user = user_api::User {
        id: text("abc"),
        first_name: text("Zoë \"Z\""),
        last_name: text("back\\slash"),
        email: text("line\nbreak"),
        password: text(""),
        created_at: Some(0),
        updated_at: Some(1_700_000_000_123),
    };
    let mirror = User {
        id: text("abc"),
        first_name: text("Zoë \"Z\""),
        last_name: text("back\\slash"),
        email: text("line\nbreak"),
        password: text(""),
        created_at: Some(DateTime::from_millis(0)),
        updated_at: Some(DateTime::from_millis(1_700_000_000_123)),
    };
    assert_eq!(user.debug_text(), format!("{:?}", mirror));
    assert!(user.debug_text().contains("created_at: Some(DateTime(1970-01-01 0:00:00.0 +00:00:00))"));
    // Presence is all that counts: an empty password is a password.
    assert!(user.has_required_fields());
    assert!(full_payload().has_required_fields());
    assert!(!payload(Some("A"), Some("B"), Some("a@b.com"), None).has_required_fields());
}

#[test]
fn diagnostics_print_a_date_beyond_the_calendar_as_its_number() {
    let mut user = full_payload();
    user.created_at = Some(i64::MAX);
    user.updated_at = Some(i64::MIN);
    let text = user.debug_text();
    assert!(text.contains("created_at: Some(DateTime(9223372036854775807))"));
    assert!(text.contains("updated_at: Some(DateTime(-9223372036854775808))"));
}

#[test]
fn every_operation_fails_without_a_client() {
    let cell: ConnectionCell<u32> = ConnectionCell::new();
    let id = "65f1a2b3c4d5e6f708192a3b";
    let detail = "\"none 35\"";
    expect_failure(&done(add_user(&cell, &full_payload())), 500, "Internal server error", detail);
    expect_failure(&done(add_user_at(&cell, &full_payload(), 1)), 500, "Internal server error", detail);
    expect_failure(&done(get_user(&cell, id)), 500, "Internal server error", detail);
    expect_failure(&done(update_user(&cell, id, &full_payload())), 500, "Internal server error", detail);
    expect_failure(&done(update_user_at(&cell, id, &full_payload(), 1)), 500, "Internal server error", detail);
    expect_failure(&done(delete_user(&cell, id)), 500, "Internal server error", detail);
    // The missing client is reported before anything else is looked at.
    expect_failure(&done(get_user(&cell, "nonsense")), 500, "Internal server error", detail);
    expect_failure(&done(add_user(&cell, &payload(None, None, None, None))), 500, "Internal server error", detail);
}

#[test]
fn malformed_identifiers_never_reach_the_database() {
    let cell = connected();
    let cases = [
        "",
        "abc",
        "65f1a2b3c4d5e6f708192a3",
        "65f1a2b3c4d5e6f708192a3b0",
        "65f1a2b3c4d5e6f708192a3g",
        "65f1a2b3c4d5e6f708192a3 ",
        "ééééééééééée",
        "65f1a2b3c4d5e6f708192a3é",
        "0x5f1a2b3c4d5e6f708192a3b",
    ];
    for id in cases {
        let detail = format!("Invalid ID format: {}", id);
        expect_failure(&done(get_user(&cell, id)), 400, "Invalid ID format", &detail);
        expect_failure(&done(update_user(&cell, id, &full_payload())), 400, "Invalid ID format", &detail);
        expect_failure(&done(update_user_at(&cell, id, &full_payload(), 3)), 400, "Invalid ID format", &detail);
        expect_failure(&done(delete_user(&cell, id)), 400, "Invalid ID format", &detail);
    }
}

#[test]
fn identifiers_are_read_in_either_case() {
    let cell = connected();
    let expected = ObjectId::from_bytes([
        0x65, 0xf1, 0xa2, 0xb3, 0xc4, 0xd5, 0xe6, 0xf7, 0x08, 0x19, 0x2a, 0x3b,
    ]);
    for id in ["65f1a2b3c4d5e6f708192a3b", "65F1A2B3C4D5E6F708192A3B", "65f1A2b3C4d5E6f708192a3B"] {
        let find = run(get_user(&cell, id));
        assert_eq!(find.filter.len(), 1);
        assert_eq!(find.filter.get_object_id("_id"), Ok(expected));
        let delete = run(delete_user(&cell, id));
        assert_eq!(delete.filter.len(), 1);
        assert_eq!(delete.filter.get_object_id("_id"), Ok(expected));
        let update = run(update_user_at(&cell, id, &full_payload(), 3));
        assert_eq!(update.filter.len(), 1);
        assert_eq!(update.filter.get_object_id("_id"), Ok(expected));
    }
}

#[test]
fn update_without_fields_is_rejected() {
    let cell = connected();
    let id = "65f1a2b3c4d5e6f708192a3b";
    let mut user = payload(None, None, None, None);
    user.id = text("ignored");
    user.created_at = Some(1);
    user.updated_at = Some(2);
    let detail = "No fields to update for user with ID: 65f1a2b3c4d5e6f708192a3b";
    expect_failure(&done(update_user_at(&cell, id, &user, 3)), 400, "No fields to update", detail);
    expect_failure(&done(update_user(&cell, id, &user)), 400, "No fields to update", detail);
}

#[test]
fn update_sets_only_what_was_supplied() {
    let cell = connected();
    let id = "65f1a2b3c4d5e6f708192a3b";
    let names = ["firstName", "lastName", "email", "password"];
    let values = ["A", "B", "a@b.com", "x"];
    for mask in 1u8..16 {
        let pick = |i: usize| if mask & (1 << i) != 0 { Some(values[i]) } else { None };
        let user = payload(pick(0), pick(1), pick(2), pick(3));
        let call = run(update_user_at(&cell, id, &user, 42));
        assert_eq!(call.filter, id_filter(id));
        let mut set = Document::new();
        for i in 0..4 {
            if let Some(value) = pick(i) {
                set.insert(names[i], value);
            }
        }
        set.insert("updatedAt", DateTime::from_millis(42));
        let mut expected = Document::new();
        expected.insert("$set", set);
        assert_eq!(call.update, expected);
    }
}

#[test]
fn update_stamps_the_present_instant() {
    let cell = connected();
    let before = DateTime::now().timestamp_millis();
    let call = run(update_user(&cell, "65f1a2b3c4d5e6f708192a3b", &payload(None, None, Some("new@b.com"), None)));
    let after = DateTime::now().timestamp_millis();
    let set = call.update.get_document("$set").unwrap();
    assert_eq!(set.len(), 2);
    assert_eq!(set.get_str("email"), Ok("new@b.com"));
    let stamped = set.get_datetime("updatedAt").unwrap().timestamp_millis();
    assert!(before <= stamped && stamped <= after);
    assert!(set.get("createdAt").is_none());
}

#[test]
fn delete_twice_finds_nothing_the_second_time() {
    let cell = connected();
    let id = "65f1a2b3c4d5e6f708192a3b";
    let call = run(delete_user(&cell, id));
    assert_eq!(call.filter, id_filter(id));
    let first = delete_user_reply(id, Ok(1));
    expect_success(&first, "User deleted successfully", "Deleted 1 user(s)");
    let call = run(delete_user(&cell, id));
    assert_eq!(call.filter, id_filter(id));
    let second = delete_user_reply(id, Ok(0));
    expect_failure(&second, 404, "User not found", "User not found with ID: 65f1a2b3c4d5e6f708192a3b");
}
