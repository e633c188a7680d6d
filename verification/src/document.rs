use mongodb::bson::Document;
use vstd::prelude::*;

verus! {

/// The BSON document of the driver: an ordered collection of named values.
#[verifier::external_type_specification]
#[verifier::external_body]
pub struct ExDocument(mongodb::bson::Document);

/// What a field of a document holds, as far as this library writes documents.
pub enum FieldValue {
    /// A string.
    Text(Seq<char>),
    /// A date-time, in milliseconds since the Unix epoch.
    Time(i64),
    /// A twelve-byte object identifier.
    Identifier(Seq<u8>),
    /// An embedded document.
    Nested(Map<Seq<char>, FieldValue>),
}

/// The fields of a document, by name.
pub type Fields = Map<Seq<char>, FieldValue>;

/// The fields of a document by name. Left uninterpreted: the trusted
/// functions below say how the driver's operations change it.
pub uninterp spec fn document_fields(doc: Document) -> Map<Seq<char>, FieldValue>;

/// The fields of a document that has none.
pub open spec fn no_fields() -> Fields {
    Map::empty()
}

/// `Document::new` makes a document without fields.
pub assume_specification[ Document::new ]() -> (doc: Document)
    ensures
        document_fields(doc) == no_fields(),
;

/// `Document::is_empty` tells whether the document has no field at all.
pub assume_specification[ Document::is_empty ](doc: &Document) -> (empty: bool)
    ensures
        empty == (forall|name: Seq<char>| !(#[trigger] document_fields(*doc).contains_key(name))),
;

/// `Document::insert` with a string value: the field `key` then holds the
/// string, replacing what it held before, and no other field changes.
#[verifier::external_body]
pub(crate) fn insert_text(doc: &mut Document, key: &str, value: &str)
    ensures
        document_fields(*final(doc)) == document_fields(*old(doc)).insert(
            key@,
            FieldValue::Text(value@),
        ),
{
    doc.insert(key, value);
}

/// `Document::insert` with the date-time that `DateTime::from_millis` makes of
/// `millis`: the field `key` then holds it, and no other field changes.
#[verifier::external_body]
pub(crate) fn insert_time(doc: &mut Document, key: &str, millis: i64)
    ensures
        document_fields(*final(doc)) == document_fields(*old(doc)).insert(
            key@,
            FieldValue::Time(millis),
        ),
{
    doc.insert(key, mongodb::bson::DateTime::from_millis(millis));
}

/// `Document::insert` with the object identifier that `ObjectId::from_bytes`
/// makes of `id`: the field `key` then holds it, and no other field changes.
#[verifier::external_body]
pub(crate) fn insert_identifier(doc: &mut Document, key: &str, id: &[u8; 12])
    ensures
        document_fields(*final(doc)) == document_fields(*old(doc)).insert(
            key@,
            FieldValue::Identifier(id@),
        ),
{
    doc.insert(key, mongodb::bson::oid::ObjectId::from_bytes(*id));
}

/// `Document::insert` with a document as the value: the field `key` then
/// holds `value` as an embedded document, and no other field changes.
#[verifier::external_body]
pub(crate) fn insert_nested(doc: &mut Document, key: &str, value: Document)
    ensures
        document_fields(*final(doc)) == document_fields(*old(doc)).insert(
            key@,
            FieldValue::Nested(document_fields(value)),
        ),
{
    doc.insert(key, value);
}

} // verus!
