use crate::connection::{connect_db, ConnectionCell};
use crate::document::{
    document_fields, insert_identifier, insert_nested, insert_text, insert_time, no_fields,
    FieldValue, Fields,
};
use crate::envelope::{
    db_error_envelope, error_envelope, handle_db_error, handle_invalid_id_error,
    invalid_id_envelope, success_envelope, ApiResponse, Envelope, ErrorKind,
};
use crate::identifier::{identifier_bytes, is_identifier_text, parse_str};
use crate::text::{current_millis, debug_str, decimal, decimal_text, join_text, str_debug};
use crate::user::{user_debug, User, UserView};
use mongodb::bson::Document;
use vstd::prelude::*;
use vstd::string::*;

verus! {

/// The name of the collection that holds one document per user.
pub fn users_collection() -> (name: &'static str)
    ensures
        name@ == "users"@,
{
    "users"
}

/// The request to insert one document into the collection of users.
pub struct InsertOne {
    pub document: Document,
}

/// The request for the one document that matches a filter.
pub struct FindOne {
    pub filter: Document,
}

/// The request to apply an update to the one document that matches a filter.
pub struct UpdateOne {
    pub filter: Document,
    pub update: Document,
}

/// The request to delete the one document that matches a filter.
pub struct DeleteOne {
    pub filter: Document,
}

/// How many documents an update matched, and how many it changed.
#[derive(Debug, Clone, Copy)]
pub struct UpdateCounts {
    pub matched_count: u64,
    pub modified_count: u64,
}

/// What an operation has decided before the database is asked anything.
pub enum Step<'a, C, Q> {
    /// The request is answered as it stands; the database is not reached.
    Done(ApiResponse<String>),
    /// The shared client is to run `call`; the outcome decides the answer.
    Run { client: &'a C, call: Q },
}

/// The mathematical content of a [`Step`], for all four operations.
pub enum Plan {
    /// Answer with this envelope; the database is not reached.
    Respond(Envelope),
    /// Insert a document with these fields.
    InsertOne(Fields),
    /// Look for the document that this filter matches.
    FindOne(Fields),
    /// Apply the update, second, to the document that the filter, first,
    /// matches.
    UpdateOne(Fields, Fields),
    /// Delete the document that this filter matches.
    DeleteOne(Fields),
}

impl<'a, C> Step<'a, C, InsertOne> {
    /// What this step decides, whichever client is to carry it out.
    pub open spec fn plan(self) -> Plan {
        match self {
            Step::Done(response) => Plan::Respond(response@),
            Step::Run { call, .. } => Plan::InsertOne(document_fields(call.document)),
        }
    }
}

impl<'a, C> Step<'a, C, FindOne> {
    /// What this step decides, whichever client is to carry it out.
    pub open spec fn plan(self) -> Plan {
        match self {
            Step::Done(response) => Plan::Respond(response@),
            Step::Run { call, .. } => Plan::FindOne(document_fields(call.filter)),
        }
    }
}

impl<'a, C> Step<'a, C, UpdateOne> {
    /// What this step decides, whichever client is to carry it out.
    pub open spec fn plan(self) -> Plan {
        match self {
            Step::Done(response) => Plan::Respond(response@),
            Step::Run { call, .. } => Plan::UpdateOne(
                document_fields(call.filter),
                document_fields(call.update),
            ),
        }
    }
}

impl<'a, C> Step<'a, C, DeleteOne> {
    /// What this step decides, whichever client is to carry it out.
    pub open spec fn plan(self) -> Plan {
        match self {
            Step::Done(response) => Plan::Respond(response@),
            Step::Run { call, .. } => Plan::DeleteOne(document_fields(call.filter)),
        }
    }
}

/// The outcome of a database call, with the characters of its error detail.
pub open spec fn outcome_text<T>(outcome: Result<T, String>) -> Result<T, Seq<char>> {
    match outcome {
        Ok(value) => Ok(value),
        Err(detail) => Err(detail@),
    }
}

/// The outcome of an insert, with the characters of both of its texts.
pub open spec fn insert_outcome_text(outcome: Result<String, String>) -> Result<
    Seq<char>,
    Seq<char>,
> {
    match outcome {
        Ok(id) => Ok(id@),
        Err(detail) => Err(detail@),
    }
}

/// The answer while no client is in the cell: a failure of the database
/// whose detail is the lookup's error text as diagnostics print it.
pub open spec fn no_connection_envelope() -> Envelope {
    db_error_envelope(str_debug("none 35"@))
}

/// The answer to a payload that lacks a required field.
pub open spec fn missing_fields_envelope(payload: UserView) -> Envelope {
    error_envelope(ErrorKind::MissingFields, "Missing fields: "@ + user_debug(payload))
}

/// The answer when no document has the identifier asked for.
pub open spec fn not_found_envelope(params: Seq<char>) -> Envelope {
    error_envelope(ErrorKind::NotFound, "User not found with ID: "@ + params)
}

/// The answer to an update that names no field.
pub open spec fn no_fields_envelope(params: Seq<char>) -> Envelope {
    error_envelope(ErrorKind::NoFields, "No fields to update for user with ID: "@ + params)
}

/// The document that is stored for a new user: the four content fields of
/// the payload and both timestamps, set to the same instant. It has no
/// identifier: the database assigns one.
pub open spec fn new_user_fields(payload: UserView, now: i64) -> Fields
    recommends
        payload.has_required_fields(),
{
    no_fields().insert("firstName"@, FieldValue::Text(payload.first_name->0)).insert(
        "lastName"@,
        FieldValue::Text(payload.last_name->0),
    ).insert("email"@, FieldValue::Text(payload.email->0)).insert(
        "password"@,
        FieldValue::Text(payload.password->0),
    ).insert("createdAt"@, FieldValue::Time(now)).insert("updatedAt"@, FieldValue::Time(now))
}

/// The filter that matches the document with the given identifier.
pub open spec fn identifier_filter(id: Seq<u8>) -> Fields {
    no_fields().insert("_id"@, FieldValue::Identifier(id))
}

/// `fields` with the text `value` under `name`, if there is a value.
pub open spec fn with_text(fields: Fields, name: Seq<char>, value: Option<Seq<char>>) -> Fields {
    match value {
        Some(text) => fields.insert(name, FieldValue::Text(text)),
        None => fields,
    }
}

/// The content fields that a payload supplies, under their stored names.
pub open spec fn supplied_fields(payload: UserView) -> Fields {
    with_text(
        with_text(
            with_text(
                with_text(no_fields(), "firstName"@, payload.first_name),
                "lastName"@,
                payload.last_name,
            ),
            "email"@,
            payload.email,
        ),
        "password"@,
        payload.password,
    )
}

/// The update that sets the supplied fields and the update timestamp, and
/// nothing else.
pub open spec fn update_fields(payload: UserView, now: i64) -> Fields {
    no_fields().insert(
        "$set"@,
        FieldValue::Nested(supplied_fields(payload).insert("updatedAt"@, FieldValue::Time(now))),
    )
}

/// What creating a user decides at the instant `now`.
pub open spec fn add_user_plan(connected: bool, payload: UserView, now: i64) -> Plan {
    if !connected {
        Plan::Respond(no_connection_envelope())
    } else if !payload.has_required_fields() {
        Plan::Respond(missing_fields_envelope(payload))
    } else {
        Plan::InsertOne(new_user_fields(payload, now))
    }
}

/// What reading a user decides.
pub open spec fn get_user_plan(connected: bool, params: Seq<char>) -> Plan {
    if !connected {
        Plan::Respond(no_connection_envelope())
    } else if !is_identifier_text(params) {
        Plan::Respond(invalid_id_envelope(params))
    } else {
        Plan::FindOne(identifier_filter(identifier_bytes(params)))
    }
}

/// What updating a user decides at the instant `now`.
pub open spec fn update_user_plan(
    connected: bool,
    params: Seq<char>,
    payload: UserView,
    now: i64,
) -> Plan {
    if !connected {
        Plan::Respond(no_connection_envelope())
    } else if !is_identifier_text(params) {
        Plan::Respond(invalid_id_envelope(params))
    } else if payload.has_no_content() {
        Plan::Respond(no_fields_envelope(params))
    } else {
        Plan::UpdateOne(identifier_filter(identifier_bytes(params)), update_fields(payload, now))
    }
}

/// What deleting a user decides.
pub open spec fn delete_user_plan(connected: bool, params: Seq<char>) -> Plan {
    if !connected {
        Plan::Respond(no_connection_envelope())
    } else if !is_identifier_text(params) {
        Plan::Respond(invalid_id_envelope(params))
    } else {
        Plan::DeleteOne(identifier_filter(identifier_bytes(params)))
    }
}

/// The answer to a create request, given how the insert ended: the text of
/// the new identifier, or the detail of the failure.
pub open spec fn add_user_response(outcome: Result<Seq<char>, Seq<char>>) -> Envelope {
    match outcome {
        Ok(id) => success_envelope("User added successfully"@, "id:"@ + id),
        Err(detail) => db_error_envelope(detail),
    }
}

/// The text that reports the counts of an update.
pub open spec fn update_summary(counts: UpdateCounts) -> Seq<char> {
    "Matched "@ + decimal(counts.matched_count as nat) + " document(s) and modified "@ + decimal(
        counts.modified_count as nat,
    ) + " document(s)"@
}

/// The answer to an update request, given how the update ended.
pub open spec fn update_user_response(outcome: Result<UpdateCounts, Seq<char>>) -> Envelope {
    match outcome {
        Ok(counts) => success_envelope("User updated successfully"@, update_summary(counts)),
        Err(detail) => db_error_envelope(detail),
    }
}

/// The answer to a delete request, given how many documents were deleted.
pub open spec fn delete_user_response(params: Seq<char>, outcome: Result<u64, Seq<char>>)
    -> Envelope {
    match outcome {
        Ok(count) => if count > 0 {
            success_envelope(
                "User deleted successfully"@,
                "Deleted "@ + decimal(count as nat) + " user(s)"@,
            )
        } else {
            not_found_envelope(params)
        },
        Err(detail) => db_error_envelope(detail),
    }
}

fn no_connection(error: String) -> (response: ApiResponse<String>)
    requires
        error@ == "none 35"@,
    ensures
        response@ == no_connection_envelope(),
{
    handle_db_error(debug_str(error.as_str()))
}

fn filter_by_identifier(id: &[u8; 12]) -> (filter: Document)
    ensures
        document_fields(filter) == identifier_filter(id@),
{
    let mut filter = Document::new();
    insert_identifier(&mut filter, "_id", id);
    filter
}

fn not_found(params: &str) -> (response: ApiResponse<String>)
    ensures
        response@ == not_found_envelope(params@),
{
    ApiResponse::failure(ErrorKind::NotFound, join_text("User not found with ID: ", params))
}

/// Decides a create request at the instant `now`.
///
/// Without a client in the cell the answer is a failure of the database. A
/// payload that lacks one of first name, last name, email and password is
/// answered with status 400 and nothing is stored. Otherwise the client is
/// to insert the new document, stamped with `now` as both timestamps.
pub fn add_user_at<'a, C>(cell: &'a ConnectionCell<C>, payload: &User, now: i64) -> (step: Step<
    'a,
    C,
    InsertOne,
>)
    ensures
        step.plan() == add_user_plan(cell.is_connected(), payload@, now),
        step is Run ==> cell.client() == Some(*step->client),
        step is Done ==> step->Done_0@.is_error(),
{
    let client = match connect_db(cell) {
        Ok(client) => client,
        Err(error) => {
            return Step::Done(no_connection(error));
        },
    };
    match (&payload.first_name, &payload.last_name, &payload.email, &payload.password) {
        (Some(first_name), Some(last_name), Some(email), Some(password)) => {
            let mut document = Document::new();
            insert_text(&mut document, "firstName", first_name.as_str());
            insert_text(&mut document, "lastName", last_name.as_str());
            insert_text(&mut document, "email", email.as_str());
            insert_text(&mut document, "password", password.as_str());
            insert_time(&mut document, "createdAt", now);
            insert_time(&mut document, "updatedAt", now);
            Step::Run { client, call: InsertOne { document } }
        },
        _ => {
            let shown = payload.debug_text();
            let detail = join_text("Missing fields: ", shown.as_str());
            Step::Done(ApiResponse::failure(ErrorKind::MissingFields, detail))
        },
    }
}

/// Decides a create request at the present instant, read from the clock
/// once, so that both timestamps of the new document are the same.
pub fn add_user<'a, C>(cell: &'a ConnectionCell<C>, payload: &User) -> (step: Step<
    'a,
    C,
    InsertOne,
>)
    ensures
        exists|now: i64| step.plan() == add_user_plan(cell.is_connected(), payload@, now),
        step is Run ==> cell.client() == Some(*step->client),
        step is Done ==> step->Done_0@.is_error(),
{
    let now = current_millis();
    add_user_at(cell, payload, now)
}

/// Answers a create request once the insert has ended: with the text of the
/// new identifier, or with the detail of the failure.
pub fn add_user_reply(outcome: Result<String, String>) -> (response: ApiResponse<String>)
    ensures
        response@ == add_user_response(insert_outcome_text(outcome)),
        response@.wf(),
{
    match outcome {
        Ok(id) => ApiResponse::success("User added successfully", join_text("id:", id.as_str())),
        Err(detail) => handle_db_error(detail),
    }
}

/// Decides a read request.
///
/// Without a client in the cell the answer is a failure of the database. An
/// identifier that is not twenty-four hexadecimal digits is answered with
/// status 400 and the database is not reached. Otherwise the client is to
/// look for the document with that identifier.
pub fn get_user<'a, C>(cell: &'a ConnectionCell<C>, params: &str) -> (step: Step<'a, C, FindOne>)
    ensures
        step.plan() == get_user_plan(cell.is_connected(), params@),
        step is Run ==> cell.client() == Some(*step->client),
        step is Done ==> step->Done_0@.is_error(),
{
    let client = match connect_db(cell) {
        Ok(client) => client,
        Err(error) => {
            return Step::Done(no_connection(error));
        },
    };
    match parse_str(params) {
        Some(id) => Step::Run { client, call: FindOne { filter: filter_by_identifier(&id) } },
        None => Step::Done(handle_invalid_id_error(params)),
    }
}

/// Answers a read request once the lookup has ended: `Ok` with the success
/// that carries the document found, or `Err` with the failure that says
/// that there is none (status 404) or that the database failed (status 500).
pub fn get_user_reply<D>(params: &str, outcome: Result<Option<D>, String>) -> (reply: Result<
    ApiResponse<D>,
    ApiResponse<String>,
>)
    ensures
        match outcome {
            Ok(Some(document)) => reply is Ok && reply->Ok_0.is_success_with(
                "User retrieved successfully"@,
                document,
            ),
            Ok(None) => reply is Err && reply->Err_0@ == not_found_envelope(params@),
            Err(detail) => reply is Err && reply->Err_0@ == db_error_envelope(detail@),
        },
        reply is Err ==> reply->Err_0@.is_error(),
{
    match outcome {
        Ok(Some(document)) => Ok(ApiResponse::success("User retrieved successfully", document)),
        Ok(None) => Err(not_found(params)),
        Err(detail) => Err(handle_db_error(detail)),
    }
}

fn supplied(payload: &User) -> (set: Document)
    ensures
        document_fields(set) == supplied_fields(payload@),
{
    let mut set = Document::new();
    if let Some(first_name) = &payload.first_name {
        insert_text(&mut set, "firstName", first_name.as_str());
    }
    if let Some(last_name) = &payload.last_name {
        insert_text(&mut set, "lastName", last_name.as_str());
    }
    if let Some(email) = &payload.email {
        insert_text(&mut set, "email", email.as_str());
    }
    if let Some(password) = &payload.password {
        insert_text(&mut set, "password", password.as_str());
    }
    set
}

/// A payload supplies no content field exactly when the set of supplied
/// fields is empty.
pub proof fn lemma_supplied_fields_empty(payload: UserView)
    ensures
        payload.has_no_content() <==> (forall|name: Seq<char>|
            !(#[trigger] supplied_fields(payload).contains_key(name))),
{
    let first = with_text(no_fields(), "firstName"@, payload.first_name);
    let second = with_text(first, "lastName"@, payload.last_name);
    let third = with_text(second, "email"@, payload.email);
    let fourth = with_text(third, "password"@, payload.password);
    assert(fourth == supplied_fields(payload));
    if payload.first_name is Some {
        assert(first.contains_key("firstName"@));
        assert(fourth.contains_key("firstName"@));
    }
    if payload.last_name is Some {
        assert(second.contains_key("lastName"@));
        assert(fourth.contains_key("lastName"@));
    }
    if payload.email is Some {
        assert(third.contains_key("email"@));
        assert(fourth.contains_key("email"@));
    }
    if payload.password is Some {
        assert(fourth.contains_key("password"@));
    }
}

/// Decides an update request at the instant `now`.
///
/// Without a client in the cell the answer is a failure of the database. An
/// identifier of the wrong format, and a payload that supplies no content
/// field, are answered with status 400 and the database is not reached.
/// Otherwise the client is to set the supplied fields and the update
/// timestamp on the document with that identifier, and nothing else.
pub fn update_user_at<'a, C>(
    cell: &'a ConnectionCell<C>,
    params: &str,
    payload: &User,
    now: i64,
) -> (step: Step<'a, C, UpdateOne>)
    ensures
        step.plan() == update_user_plan(cell.is_connected(), params@, payload@, now),
        step is Run ==> cell.client() == Some(*step->client),
        step is Done ==> step->Done_0@.is_error(),
{
    let client = match connect_db(cell) {
        Ok(client) => client,
        Err(error) => {
            return Step::Done(no_connection(error));
        },
    };
    let id = match parse_str(params) {
        Some(id) => id,
        None => {
            return Step::Done(handle_invalid_id_error(params));
        },
    };
    let mut set = supplied(payload);
    proof {
        lemma_supplied_fields_empty(payload@);
    }
    if !set.is_empty() {
        insert_time(&mut set, "updatedAt", now);
        let mut update = Document::new();
        insert_nested(&mut update, "$set", set);
        Step::Run { client, call: UpdateOne { filter: filter_by_identifier(&id), update } }
    } else {
        let detail = join_text("No fields to update for user with ID: ", params);
        Step::Done(ApiResponse::failure(ErrorKind::NoFields, detail))
    }
}

/// Decides an update request at the present instant, read from the clock.
pub fn update_user<'a, C>(cell: &'a ConnectionCell<C>, params: &str, payload: &User) -> (step:
    Step<'a, C, UpdateOne>)
    ensures
        exists|now: i64|
            step.plan() == update_user_plan(cell.is_connected(), params@, payload@, now),
        step is Run ==> cell.client() == Some(*step->client),
        step is Done ==> step->Done_0@.is_error(),
{
    let now = current_millis();
    update_user_at(cell, params, payload, now)
}

/// Answers an update request once the update has ended: with the counts of
/// matched and modified documents, or with the detail of the failure.
pub fn update_user_reply(outcome: Result<UpdateCounts, String>) -> (response: ApiResponse<String>)
    ensures
        response@ == update_user_response(outcome_text(outcome)),
        response@.wf(),
{
    match outcome {
        Ok(counts) => {
            let mut summary = String::from_str("Matched ");
            summary.append(decimal_text(counts.matched_count).as_str());
            summary.append(" document(s) and modified ");
            summary.append(decimal_text(counts.modified_count).as_str());
            summary.append(" document(s)");
            ApiResponse::success("User updated successfully", summary)
        },
        Err(detail) => handle_db_error(detail),
    }
}

/// Decides a delete request.
///
/// Without a client in the cell the answer is a failure of the database. An
/// identifier of the wrong format is answered with status 400 and the
/// database is not reached. Otherwise the client is to delete the document
/// with that identifier.
pub fn delete_user<'a, C>(cell: &'a ConnectionCell<C>, params: &str) -> (step: Step<
    'a,
    C,
    DeleteOne,
>)
    ensures
        step.plan() == delete_user_plan(cell.is_connected(), params@),
        step is Run ==> cell.client() == Some(*step->client),
        step is Done ==> step->Done_0@.is_error(),
{
    let client = match connect_db(cell) {
        Ok(client) => client,
        Err(error) => {
            return Step::Done(no_connection(error));
        },
    };
    match parse_str(params) {
        Some(id) => Step::Run { client, call: DeleteOne { filter: filter_by_identifier(&id) } },
        None => Step::Done(handle_invalid_id_error(params)),
    }
}

/// Answers a delete request once the delete has ended: a success that
/// reports the count if a document was deleted, status 404 if none was, and
/// status 500 with the detail if the database failed.
pub fn delete_user_reply(params: &str, outcome: Result<u64, String>) -> (response: ApiResponse<
    String,
>)
    ensures
        response@ == delete_user_response(params@, outcome_text(outcome)),
        response@.wf(),
{
    match outcome {
        Ok(count) => {
            if count > 0 {
                let mut summary = String::from_str("Deleted ");
                summary.append(decimal_text(count).as_str());
                summary.append(" user(s)");
                ApiResponse::success("User deleted successfully", summary)
            } else {
                not_found(params)
            }
        },
        Err(detail) => handle_db_error(detail),
    }
}

} // verus!
