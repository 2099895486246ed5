//! What the service asks of the store: which records an operation is about,
//! and what an update does to the record it finds.

use crate::document::boolean_value;
use crate::document::datetime_value;
use crate::document::doc_fields;
use crate::document::insert;
use crate::document::int64_value;
use crate::document::nested_value;
use crate::document::new_document;
use crate::document::no_fields;
use crate::document::Fields;
use crate::document::Value;
use mongodb::bson::Document;
use vstd::prelude::*;

verus! {

/// The records that an operation is about. A record that carries a deletion
/// stamp is soft-deleted and outside every filter.
#[derive(Clone, Copy, Debug, PartialEq, Eq, Structural)]
pub enum JobFilter {
    /// Every record that is not deleted.
    Active,
    /// The records with this id that are not deleted.
    ActiveWithId(i64),
}

/// Whether a record is soft-deleted: it has a deletion stamp, whatever the
/// stamp holds.
pub open spec fn is_deleted(record: Fields) -> bool {
    record.contains_key("deleted_at"@)
}

/// The condition that a field is absent from a record.
pub open spec fn absent_condition() -> Value {
    Value::Nested(no_fields().insert("$exists"@, Value::Boolean(false)))
}

impl JobFilter {
    /// Whether the filter selects `record`.
    pub open spec fn selects(self, record: Fields) -> bool {
        &&& !is_deleted(record)
        &&& match self {
            JobFilter::Active => true,
            JobFilter::ActiveWithId(id) => record.get("id"@) == Some(Value::Int64(id)),
        }
    }

    /// The filter as the document that is sent to the store: the id, where the
    /// filter names one, and the condition that the deletion stamp is absent.
    pub open spec fn fields(self) -> Fields {
        match self {
            JobFilter::Active => no_fields().insert("deleted_at"@, absent_condition()),
            JobFilter::ActiveWithId(id) => no_fields().insert("id"@, Value::Int64(id)).insert(
                "deleted_at"@,
                absent_condition(),
            ),
        }
    }

    /// Builds the document that is sent to the store for this filter.
    pub fn to_document(&self) -> (doc: Document)
        ensures
            doc_fields(doc) == self.fields(),
    {
        let mut doc = new_document();
        match self {
            JobFilter::Active => {},
            JobFilter::ActiveWithId(id) => insert(&mut doc, "id", int64_value(*id)),
        }
        let mut absent = new_document();
        insert(&mut absent, "$exists", boolean_value(false));
        insert(&mut doc, "deleted_at", nested_value(absent));
        doc
    }
}

/// What a condition asks about the presence of a field, where it is a
/// condition on presence: `true` that the field is there, `false` that it is
/// not.
pub open spec fn presence_asked(condition: Value) -> Option<bool> {
    match condition {
        Value::Nested(inner) => match inner.get("$exists"@) {
            Some(Value::Boolean(wanted)) => Some(wanted),
            _ => None,
        },
        _ => None,
    }
}

/// Whether a record meets the condition that a filter document holds under
/// `key`: a condition on presence asks that the field is there or is not;
/// any other value asks that the field holds that value.
pub open spec fn condition_holds(condition: Value, record: Fields, key: Seq<char>) -> bool {
    match presence_asked(condition) {
        Some(wanted) => record.contains_key(key) == wanted,
        None => record.get(key) == Some(condition),
    }
}

/// Whether a filter document selects a record: the record meets every
/// condition of the filter.
pub open spec fn document_selects(filter: Fields, record: Fields) -> bool {
    forall|key: Seq<char>|
        filter.contains_key(key) ==> condition_holds(#[trigger] filter[key], record, key)
}

/// The document of a filter selects the records that the filter selects.
pub proof fn lemma_filter_document(filter: JobFilter, record: Fields)
    ensures
        document_selects(filter.fields(), record) <==> filter.selects(record),
{
    reveal_strlit("id");
    reveal_strlit("deleted_at");
    reveal_strlit("$exists");
    let document = filter.fields();
    assert("id"@.len() != "deleted_at"@.len());
    assert(absent_condition()->Nested_0.get("$exists"@) == Some(Value::Boolean(false)));
    assert(presence_asked(absent_condition()) == Some(false));
    assert(document["deleted_at"@] == absent_condition());
    if document_selects(document, record) {
        assert(condition_holds(document["deleted_at"@], record, "deleted_at"@));
        if let JobFilter::ActiveWithId(id) = filter {
            assert(condition_holds(document["id"@], record, "id"@));
        }
    }
    if filter.selects(record) {
        assert forall|key: Seq<char>| document.contains_key(key) implies condition_holds(
            #[trigger] document[key],
            record,
            key,
        ) by {
            if key != "deleted_at"@ {
                assert(key == "id"@);
            }
        }
    }
}

/// The fields that a soft delete sets: the deletion stamp, at `now`.
pub open spec fn delete_fields(now: i64) -> Fields {
    no_fields().insert("deleted_at"@, Value::DateTime(now))
}

/// The update command that sets the fields `set` and touches no other.
pub open spec fn set_command_fields(set: Fields) -> Fields {
    no_fields().insert("$set"@, Value::Nested(set))
}

/// A record after the fields `set` were set on it: each field of `set` with
/// its new value, every other field as it was.
pub open spec fn record_after_set(record: Fields, set: Fields) -> Fields {
    record.union_prefer_right(set)
}

/// A record after an update command ran on it: the fields that the command
/// sets are set; a command that sets nothing leaves the record as it is.
pub open spec fn record_after_update(record: Fields, command: Fields) -> Fields {
    match command.get("$set"@) {
        Some(Value::Nested(set)) => record_after_set(record, set),
        _ => record,
    }
}

/// Builds the update command that sets the fields of `set`.
pub fn set_command(set: Document) -> (command: Document)
    ensures
        doc_fields(command) == set_command_fields(doc_fields(set)),
{
    let mut command = new_document();
    insert(&mut command, "$set", nested_value(set));
    command
}

/// Builds the fields that a soft delete sets, stamped at `now` (milliseconds
/// since the Unix epoch).
pub fn delete_document(now: i64) -> (doc: Document)
    ensures
        doc_fields(doc) == delete_fields(now),
{
    let mut doc = new_document();
    insert(&mut doc, "deleted_at", datetime_value(now));
    doc
}

} // verus!
