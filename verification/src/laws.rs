use crate::controller::{
    add_user_plan, delete_user_plan, delete_user_response, get_user_plan, identifier_filter,
    new_user_fields, supplied_fields, update_fields, update_user_plan, with_text, Plan,
};
use crate::document::{no_fields, FieldValue, Fields};
use crate::identifier::{identifier_bytes, is_identifier_text};
use crate::user::UserView;
use vstd::prelude::*;

verus! {

/// The collection of users as the laws of this file see it: the stored
/// documents, each under its twelve-byte identifier. The library assumes
/// nothing of a database; the laws say what the requests that it issues
/// mean for a collection that behaves like this one.
pub type Users = Map<Seq<u8>, Fields>;

/// The identifier that a filter asks for.
pub open spec fn filter_target(filter: Fields) -> Seq<u8> {
    filter["_id"@]->Identifier_0
}

/// The collection after `document` was inserted and given the identifier
/// `id`.
pub open spec fn after_insert(users: Users, id: Seq<u8>, document: Fields) -> Users {
    users.insert(id, document.insert("_id"@, FieldValue::Identifier(id)))
}

/// The document after the fields under `$set` in `update` were set on it:
/// each of them holds its new value, every other field is as before.
pub open spec fn after_set(stored: Fields, update: Fields) -> Fields {
    stored.union_prefer_right(update["$set"@]->Nested_0)
}

/// The collection after `update` was applied to the document that `filter`
/// asks for, if there is one.
pub open spec fn after_update(users: Users, filter: Fields, update: Fields) -> Users {
    let id = filter_target(filter);
    if users.contains_key(id) {
        users.insert(id, after_set(users[id], update))
    } else {
        users
    }
}

/// How many documents a delete with `filter` removes.
pub open spec fn deleted_count(users: Users, filter: Fields) -> u64 {
    if users.contains_key(filter_target(filter)) {
        1
    } else {
        0
    }
}

/// The collection after the document that `filter` asks for was deleted.
pub open spec fn after_delete(users: Users, filter: Fields) -> Users {
    users.remove(filter_target(filter))
}

/// The value that a payload supplies for a content field, if any.
pub open spec fn supplied_value(payload: UserView, name: Seq<char>) -> Option<Seq<char>> {
    if name == "firstName"@ {
        payload.first_name
    } else if name == "lastName"@ {
        payload.last_name
    } else if name == "email"@ {
        payload.email
    } else if name == "password"@ {
        payload.password
    } else {
        None
    }
}

/// The names under which the library stores and addresses fields are all
/// different from one another.
pub proof fn lemma_field_names_distinct()
    ensures
        "firstName"@ != "lastName"@,
        "firstName"@ != "email"@,
        "firstName"@ != "password"@,
        "firstName"@ != "createdAt"@,
        "firstName"@ != "updatedAt"@,
        "firstName"@ != "_id"@,
        "lastName"@ != "email"@,
        "lastName"@ != "password"@,
        "lastName"@ != "createdAt"@,
        "lastName"@ != "updatedAt"@,
        "lastName"@ != "_id"@,
        "email"@ != "password"@,
        "email"@ != "createdAt"@,
        "email"@ != "updatedAt"@,
        "email"@ != "_id"@,
        "password"@ != "createdAt"@,
        "password"@ != "updatedAt"@,
        "password"@ != "_id"@,
        "createdAt"@ != "updatedAt"@,
        "createdAt"@ != "_id"@,
        "updatedAt"@ != "_id"@,
{
    reveal_strlit("firstName");
    reveal_strlit("lastName");
    reveal_strlit("email");
    reveal_strlit("password");
    reveal_strlit("createdAt");
    reveal_strlit("updatedAt");
    reveal_strlit("_id");
    assert("email"@.len() == 5);
    assert("_id"@.len() == 3);
    assert("firstName"@[0] == 'f');
    assert("lastName"@[0] == 'l');
    assert("password"@[0] == 'p');
    assert("createdAt"@[0] == 'c');
    assert("updatedAt"@[0] == 'u');
}

/// What a payload supplies, field by field: a content field is in the set
/// exactly when the payload has it, with the payload's value, and no other
/// name is in the set.
pub proof fn lemma_supplied_fields(payload: UserView, name: Seq<char>)
    ensures
        supplied_fields(payload).contains_key(name) <==> supplied_value(payload, name) is Some,
        supplied_value(payload, name) is Some ==> supplied_fields(payload)[name]
            == FieldValue::Text(supplied_value(payload, name)->0),
{
    lemma_field_names_distinct();
    let first = with_text(no_fields(), "firstName"@, payload.first_name);
    let second = with_text(first, "lastName"@, payload.last_name);
    let third = with_text(second, "email"@, payload.email);
    let fourth = with_text(third, "password"@, payload.password);
    assert(fourth == supplied_fields(payload));
    assert(first.contains_key(name) <==> (name == "firstName"@ && payload.first_name is Some));
    assert(second.contains_key(name) <==> (first.contains_key(name) || (name == "lastName"@
        && payload.last_name is Some)));
    assert(third.contains_key(name) <==> (second.contains_key(name) || (name == "email"@
        && payload.email is Some)));
    assert(fourth.contains_key(name) <==> (third.contains_key(name) || (name == "password"@
        && payload.password is Some)));
}

/// A create request whose payload has all four content fields, decided
/// with a client at hand, stores a document whose creation and update
/// timestamps are both the instant of the request. The document holds the
/// four fields as the payload gave them and no identifier of the client's;
/// whatever identifier the database assigns, the stored document has these
/// same timestamps.
pub proof fn lemma_insert_stamps_both_timestamps(
    payload: UserView,
    now: i64,
    users: Users,
    id: Seq<u8>,
)
    requires
        payload.has_required_fields(),
    ensures
        add_user_plan(true, payload, now) == Plan::InsertOne(new_user_fields(payload, now)),
        !new_user_fields(payload, now).contains_key("_id"@),
        new_user_fields(payload, now)["firstName"@] == FieldValue::Text(payload.first_name->0),
        new_user_fields(payload, now)["lastName"@] == FieldValue::Text(payload.last_name->0),
        new_user_fields(payload, now)["email"@] == FieldValue::Text(payload.email->0),
        new_user_fields(payload, now)["password"@] == FieldValue::Text(payload.password->0),
        new_user_fields(payload, now)["createdAt"@] == FieldValue::Time(now),
        new_user_fields(payload, now)["updatedAt"@] == FieldValue::Time(now),
        after_insert(users, id, new_user_fields(payload, now))[id]["createdAt"@]
            == after_insert(users, id, new_user_fields(payload, now))[id]["updatedAt"@],
        after_insert(users, id, new_user_fields(payload, now))[id]["createdAt"@]
            == FieldValue::Time(now),
{
    lemma_field_names_distinct();
}

/// A create request whose payload lacks one of the four content fields,
/// decided with a client at hand, is answered with status 400 and no
/// request goes to the database.
pub proof fn lemma_incomplete_payload_is_rejected(payload: UserView, now: i64)
    requires
        !payload.has_required_fields(),
    ensures
        add_user_plan(true, payload, now) is Respond,
        add_user_plan(true, payload, now)->Respond_0.code == 400,
        add_user_plan(true, payload, now)->Respond_0.is_error(),
{
}

/// An identifier that is not in the identifier format is answered with
/// status 400 by reading, updating and deleting alike, decided with a
/// client at hand; no request goes to the database.
pub proof fn lemma_malformed_identifier_is_rejected(
    params: Seq<char>,
    payload: UserView,
    now: i64,
)
    requires
        !is_identifier_text(params),
    ensures
        get_user_plan(true, params) is Respond,
        get_user_plan(true, params)->Respond_0.code == 400,
        update_user_plan(true, params, payload, now) is Respond,
        update_user_plan(true, params, payload, now)->Respond_0.code == 400,
        delete_user_plan(true, params) is Respond,
        delete_user_plan(true, params)->Respond_0.code == 400,
{
}

/// An update request whose payload supplies none of the four content
/// fields, decided with a client at hand, is answered with status 400 and
/// no request goes to the database.
pub proof fn lemma_empty_update_is_rejected(params: Seq<char>, payload: UserView, now: i64)
    requires
        payload.has_no_content(),
    ensures
        update_user_plan(true, params, payload, now) is Respond,
        update_user_plan(true, params, payload, now)->Respond_0.code == 400,
{
}

/// Without a client at hand every operation answers with status 500,
/// whatever the request holds, and no request goes to the database.
pub proof fn lemma_no_connection_is_a_server_error(params: Seq<char>, payload: UserView, now: i64)
    ensures
        add_user_plan(false, payload, now) is Respond,
        add_user_plan(false, payload, now)->Respond_0.code == 500,
        get_user_plan(false, params) is Respond,
        get_user_plan(false, params)->Respond_0.code == 500,
        update_user_plan(false, params, payload, now) is Respond,
        update_user_plan(false, params, payload, now)->Respond_0.code == 500,
        delete_user_plan(false, params) is Respond,
        delete_user_plan(false, params)->Respond_0.code == 500,
{
}

/// Whatever an operation answers without reaching the database is a
/// failure in the shape of the envelope: an error detail and no payload.
pub proof fn lemma_immediate_answers_are_failures(
    connected: bool,
    params: Seq<char>,
    payload: UserView,
    now: i64,
)
    ensures
        add_user_plan(connected, payload, now) is Respond ==> add_user_plan(
            connected,
            payload,
            now,
        )->Respond_0.is_error(),
        get_user_plan(connected, params) is Respond ==> get_user_plan(
            connected,
            params,
        )->Respond_0.is_error(),
        update_user_plan(connected, params, payload, now) is Respond ==> update_user_plan(
            connected,
            params,
            payload,
            now,
        )->Respond_0.is_error(),
        delete_user_plan(connected, params) is Respond ==> delete_user_plan(
            connected,
            params,
        )->Respond_0.is_error(),
{
}

/// An update request with a well-formed identifier and at least one
/// content field, decided with a client at hand, changes in the stored
/// document the supplied fields and the update timestamp, and nothing
/// else: a supplied field holds the payload's value, the update timestamp
/// holds the instant of the request, every other field of the document,
/// the creation timestamp among them, is there or not as before and holds
/// what it held, and every other document of the collection is untouched.
pub proof fn lemma_update_changes_only_supplied_fields(
    users: Users,
    params: Seq<char>,
    payload: UserView,
    now: i64,
    name: Seq<char>,
    other: Seq<u8>,
)
    requires
        is_identifier_text(params),
        !payload.has_no_content(),
        users.contains_key(identifier_bytes(params)),
    ensures
        update_user_plan(true, params, payload, now) == Plan::UpdateOne(
            identifier_filter(identifier_bytes(params)),
            update_fields(payload, now),
        ),
        ({
            let id = identifier_bytes(params);
            let after = after_update(users, identifier_filter(id), update_fields(payload, now));
            &&& after.dom() == users.dom()
            &&& users.contains_key(other) && other != id ==> after[other] == users[other]
            &&& after[id]["updatedAt"@] == FieldValue::Time(now)
            &&& supplied_value(payload, name) is Some ==> after[id][name] == FieldValue::Text(
                supplied_value(payload, name)->0,
            )
            &&& supplied_value(payload, name) is None && name != "updatedAt"@ ==> {
                &&& after[id].contains_key(name) == users[id].contains_key(name)
                &&& users[id].contains_key(name) ==> after[id][name] == users[id][name]
            }
        }),
{
    lemma_field_names_distinct();
    lemma_supplied_fields(payload, name);
    let id = identifier_bytes(params);
    let after = after_update(users, identifier_filter(id), update_fields(payload, now));
    assert(after.dom() =~= users.dom());
}

/// When the clock has moved on since a document was last updated, an
/// update as in the law above leaves it with a later update timestamp.
pub proof fn lemma_update_timestamp_advances(
    users: Users,
    params: Seq<char>,
    payload: UserView,
    before: i64,
    now: i64,
)
    requires
        is_identifier_text(params),
        !payload.has_no_content(),
        users.contains_key(identifier_bytes(params)),
        users[identifier_bytes(params)]["updatedAt"@] == FieldValue::Time(before),
        before < now,
    ensures
        ({
            let id = identifier_bytes(params);
            let after = after_update(users, identifier_filter(id), update_fields(payload, now));
            &&& after[id]["updatedAt"@] is Time
            &&& after[id]["updatedAt"@]->Time_0 > before
        }),
{
}

/// Deleting by a well-formed identifier, decided with a client at hand:
/// when no document has the identifier the answer is status 404 and the
/// collection is as before; when one has it the answer is status 200, that
/// document and no other leaves the collection, and deleting with the same
/// identifier once more is answered with status 404.
pub proof fn lemma_delete_removes_one_document_once(users: Users, params: Seq<char>)
    requires
        is_identifier_text(params),
    ensures
        delete_user_plan(true, params) == Plan::DeleteOne(
            identifier_filter(identifier_bytes(params)),
        ),
        ({
            let id = identifier_bytes(params);
            let filter = identifier_filter(id);
            let first = delete_user_response(params, Ok(deleted_count(users, filter)));
            let after = after_delete(users, filter);
            let second = delete_user_response(params, Ok(deleted_count(after, filter)));
            &&& !users.contains_key(id) ==> first.code == 404 && after == users
            &&& users.contains_key(id) ==> first.code == 200 && after == users.remove(id)
            &&& forall|other: Seq<u8>|
                other != id ==> after.contains_key(other) == users.contains_key(other) && (
                users.contains_key(other) ==> after[other] == users[other])
            &&& second.code == 404
        }),
{
    let id = identifier_bytes(params);
    let filter = identifier_filter(id);
    let after = after_delete(users, filter);
    if !users.contains_key(id) {
        assert(after =~= users);
    }
}

} // verus!
