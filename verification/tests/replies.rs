use user_api::text::{join_text, decimal_text};
use user_api::{
    add_user_reply, connect_db, delete_user_reply, get_user_reply, handle_db_error,
    handle_invalid_id_error, mongo_client, product_routes, product_text, router,
    update_user_reply, user_routes, ApiResponse, ConnectOutcome, ConnectionCell, Endpoint,
    ErrorDetail, ErrorKind, Method, Route, UpdateCounts,
};

fn expect_failure(response: &ApiResponse<String>, code: u16, message: &str, detail: &str) {
    assert_eq!(response.status, "error");
    assert_eq!(response.code, code);
    assert_eq!(response.message, message);
    assert_eq!(response.data, None);
    assert_eq!(response.errors.as_deref(), Some(detail));
}

fn expect_success(response: &ApiResponse<String>, message: &str, data: &str) {
    assert_eq!(response.status, "Success");
    assert_eq!(response.code, 200);
    assert_eq!(response.message, message);
    assert_eq!(response.data.as_deref(), Some(data));
    assert_eq!(response.errors, None);
}

fn counts(matched_count: u64, modified_count: u64) -> UpdateCounts {
    UpdateCounts { matched_count, modified_count }
}

fn entry(route: &Route) -> (Method, &'static str, Endpoint) {
    (route.method, route.path, route.endpoint)
}

#[test]
fn database_failures_answer_with_500() {
    let response = handle_db_error("Kind: I/O error: timed out".to_string());
    expect_failure(&response, 500, "Internal server error", "Kind: I/O error: timed out");
    expect_failure(&handle_db_error(String::new()), 500, "Internal server error", "");
}

#[test]
fn invalid_identifiers_answer_with_400() {
    expect_failure(
        &handle_invalid_id_error("not-an-id"),
        400,
        "Invalid ID format",
        "Invalid ID format: not-an-id",
    );
    expect_failure(&handle_invalid_id_error(""), 400, "Invalid ID format", "Invalid ID format: ");
}

#[test]
fn insert_outcomes() {
    expect_success(&add_user_reply(Ok("ObjectId(\"000000000000000000000001\")".to_string())),
        "User added successfully", "id:ObjectId(\"000000000000000000000001\")");
    expect_success(&add_user_reply(Ok(String::new())), "User added successfully", "id:");
    expect_failure(&add_user_reply(Err("duplicate key".to_string())), 500, "Internal server error", "duplicate key");
}

#[test]
fn lookup_outcomes() {
    let found = get_user_reply("65f1a2b3c4d5e6f708192a3b", Ok(Some(17u8))).expect("found");
    assert_eq!(found.status, "Success");
    assert_eq!(found.code, 200);
    assert_eq!(found.message, "User retrieved successfully");
    assert_eq!(found.data, Some(17u8));
    assert_eq!(found.errors, None);
    let missing = get_user_reply::<u8>("65f1a2b3c4d5e6f708192a3b", Ok(None)).expect_err("missing");
    expect_failure(&missing, 404, "User not found", "User not found with ID: 65f1a2b3c4d5e6f708192a3b");
    let failed = get_user_reply::<u8>("65f1a2b3c4d5e6f708192a3b", Err("boom".to_string())).expect_err("failed");
    expect_failure(&failed, 500, "Internal server error", "boom");
}

#[test]
fn update_outcomes() {
    expect_success(&update_user_reply(Ok(counts(1, 1))), "User updated successfully",
        "Matched 1 document(s) and modified 1 document(s)");
    expect_success(&update_user_reply(Ok(counts(0, 0))), "User updated successfully",
        "Matched 0 document(s) and modified 0 document(s)");
    expect_success(&update_user_reply(Ok(counts(1, 0))), "User updated successfully",
        "Matched 1 document(s) and modified 0 document(s)");
    expect_success(&update_user_reply(Ok(counts(u64::MAX, 1234567890))), "User updated successfully",
        "Matched 18446744073709551615 document(s) and modified 1234567890 document(s)");
    expect_failure(&update_user_reply(Err("write concern".to_string())), 500, "Internal server error", "write concern");
}

#[test]
fn delete_outcomes() {
    let id = "65f1a2b3c4d5e6f708192a3b";
    expect_success(&delete_user_reply(id, Ok(1)), "User deleted successfully", "Deleted 1 user(s)");
    expect_success(&delete_user_reply(id, Ok(20)), "User deleted successfully", "Deleted 20 user(s)");
    expect_failure(&delete_user_reply(id, Ok(0)), 404, "User not found",
        "User not found with ID: 65f1a2b3c4d5e6f708192a3b");
    expect_failure(&delete_user_reply(id, Err("gone".to_string())), 500, "Internal server error", "gone");
}

#[test]
fn counts_are_written_in_decimal() {
    for n in [0u64, 1, 9, 10, 11, 99, 100, 101, 1000, 4096, 65535, 1_000_000_007, u64::MAX - 1, u64::MAX] {
        assert_eq!(decimal_text(n), n.to_string());
    }
    assert_eq!(decimal_text(907), "907");
    assert_eq!(join_text("ab", "cd"), "abcd");
    assert_eq!(join_text("", ""), "");
}

#[test]
fn the_cell_is_filled_once() {
    let mut cell: ConnectionCell<&str> = ConnectionCell::new();
    assert_eq!(connect_db(&cell), Err("none 35".to_string()));
    assert_eq!(
        mongo_client(&mut cell, ConnectOutcome::OptionsFailed("bad scheme".to_string())),
        Some("40 Error::>>bad scheme".to_string())
    );
    assert_eq!(connect_db(&cell), Err("none 35".to_string()));
    assert_eq!(
        mongo_client(&mut cell, ConnectOutcome::ClientFailed("no server".to_string())),
        Some("Error::>>no server".to_string())
    );
    assert_eq!(connect_db(&cell), Err("none 35".to_string()));
    assert_eq!(mongo_client(&mut cell, ConnectOutcome::Connected("first")), None);
    assert_eq!(connect_db(&cell), Ok(&"first"));
    assert_eq!(mongo_client(&mut cell, ConnectOutcome::Connected("second")), None);
    assert_eq!(connect_db(&cell), Ok(&"first"));
    assert_eq!(
        mongo_client(&mut cell, ConnectOutcome::ClientFailed("later".to_string())),
        Some("Error::>>later".to_string())
    );
    assert_eq!(connect_db(&cell), Ok(&"first"));
}

#[test]
fn the_routing_table() {
    let users: Vec<_> = user_routes().iter().map(entry).collect();
    assert_eq!(
        users,
        vec![
            (Method::Get, "/getUser/:id", Endpoint::GetUser),
            (Method::Post, "/addUser", Endpoint::AddUser),
            (Method::Get, "/udateUser/:id", Endpoint::UpdateUser),
            (Method::Get, "/deleteUser/:id", Endpoint::DeleteUser),
        ]
    );
    let products: Vec<_> = product_routes().iter().map(entry).collect();
    assert_eq!(products, vec![(Method::Get, "/product", Endpoint::Product)]);
    let all: Vec<_> = router().iter().map(entry).collect();
    let mut expected = users.clone();
    expected.extend(products);
    assert_eq!(all, expected);
    assert_eq!(product_text(), "Hello, This is Product");
}

#[test]
fn an_error_detail_holds_a_code_and_a_message() {
    let detail = ErrorDetail { code: "NotFound".to_string(), message: "User not found".to_string() };
    assert_eq!(detail.code, "NotFound");
    assert_eq!(detail.message, "User not found");
}

#[test]
fn each_kind_of_failure_has_its_status_and_message() {
    let table = [
        (ErrorKind::MissingFields, 400, "Missing fields"),
        (ErrorKind::InvalidId, 400, "Invalid ID format"),
        (ErrorKind::NoFields, 400, "No fields to update"),
        (ErrorKind::NotFound, 404, "User not found"),
        (ErrorKind::DatabaseFailure, 500, "Internal server error"),
    ];
    for (kind, code, message) in table {
        assert_eq!(kind.code(), code);
        assert_eq!(kind.message(), message);
        expect_failure(&ApiResponse::failure(kind, "why".to_string()), code, message, "why");
    }
}

#[test]
fn a_success_carries_its_payload_and_no_error() {
    let response = ApiResponse::success("Done", vec![1u8, 2, 3]);
    assert_eq!(response.status, "Success");
    assert_eq!(response.code, 200);
    assert_eq!(response.message, "Done");
    assert_eq!(response.data, Some(vec![1u8, 2, 3]));
    assert_eq!(response.errors, None);
}
