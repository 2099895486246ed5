//! The record mapper: from a stored document to a [`Job`], and from a payload
//! to the document that a create inserts or the fields that an update sets.

use crate::clock::unix_seconds_now;
use crate::document::as_str;
use crate::document::bson_value;
use crate::document::datetime_value;
use crate::document::doc_fields;
use crate::document::get;
use crate::document::get_datetime;
use crate::document::get_double_bits;
use crate::document::get_i32;
use crate::document::get_i64;
use crate::document::get_str;
use crate::document::insert;
use crate::document::int64_value;
use crate::document::new_document;
use crate::document::no_fields;
use crate::document::stored_datetime;
use crate::document::stored_double;
use crate::document::stored_int32;
use crate::document::stored_int64;
use crate::document::stored_text;
use crate::document::text_value;
use crate::document::Fields;
use crate::document::Value;
use crate::job::text_of;
use crate::job::CreateJobDto;
use crate::job::CreateJobDtoView;
use crate::job::Job;
use crate::job::JobView;
use crate::job::Salary;
use mongodb::bson::Bson;
use mongodb::bson::Document;
use vstd::prelude::*;
use vstd::string::*;

verus! {

/// The text under `key`, or the empty text where the field is missing or is
/// no string.
pub open spec fn text_or_empty(fields: Fields, key: Seq<char>) -> Seq<char> {
    match stored_text(fields, key) {
        Some(s) => s,
        None => Seq::empty(),
    }
}

/// The whole number under `key`, where the field holds an integer of either
/// width.
pub open spec fn stored_integer(fields: Fields, key: Seq<char>) -> Option<i64> {
    match stored_int64(fields, key) {
        Some(v) => Some(v),
        None => match stored_int32(fields, key) {
            Some(v) => Some(v as i64),
            None => None,
        },
    }
}

/// The stored salary: an integer where the field holds one of either width,
/// else a float where it holds one, else nothing.
pub open spec fn stored_salary(fields: Fields) -> Option<Salary> {
    match stored_integer(fields, "salary"@) {
        Some(v) => Some(Salary::Integer(v)),
        None => match stored_double(fields, "salary"@) {
            Some(bits) => Some(Salary::Double(bits)),
            None => None,
        },
    }
}

/// The job that a stored record decodes to. Each field is read on its own; one
/// that is missing or of another type becomes its default: the empty text,
/// nothing, and for the id `fallback_id`. The id is read from an integer of
/// either width.
pub open spec fn decoded_job(fields: Fields, fallback_id: i64) -> JobView {
    JobView {
        id: match stored_integer(fields, "id"@) {
            Some(id) => id,
            None => fallback_id,
        },
        title: text_or_empty(fields, "title"@),
        company: text_or_empty(fields, "company"@),
        status: text_or_empty(fields, "status"@),
        applied_at: stored_datetime(fields, "applied_at"@),
        notes: stored_text(fields, "notes"@),
        source: stored_text(fields, "source"@),
        date_applied: stored_text(fields, "date_applied"@),
        place: stored_text(fields, "place"@),
        salary: stored_salary(fields),
    }
}

/// Whether `job` is what the record decodes to, whatever the clock showed: a
/// record without a readable id decodes to a job with any id.
pub open spec fn is_decoding_of(fields: Fields, job: JobView) -> bool {
    job == decoded_job(fields, job.id)
}

fn read_text(doc: &Document, key: &str) -> (text: String)
    ensures
        text@ == text_or_empty(doc_fields(*doc), key@),
{
    match get_str(doc, key) {
        Some(s) => String::from_str(s),
        None => String::new(),
    }
}

fn read_optional_text(doc: &Document, key: &str) -> (text: Option<String>)
    ensures
        text_of(text) == stored_text(doc_fields(*doc), key@),
{
    match get(doc, key) {
        Some(value) => match as_str(value) {
            Some(s) => Some(String::from_str(s)),
            None => None,
        },
        None => None,
    }
}

fn read_integer(doc: &Document, key: &str) -> (number: Option<i64>)
    ensures
        number == stored_integer(doc_fields(*doc), key@),
{
    match get_i64(doc, key) {
        Some(v) => Some(v),
        None => match get_i32(doc, key) {
            Some(v) => Some(v as i64),
            None => None,
        },
    }
}

fn read_salary(doc: &Document) -> (salary: Option<Salary>)
    ensures
        salary == stored_salary(doc_fields(*doc)),
{
    match read_integer(doc, "salary") {
        Some(v) => Some(Salary::Integer(v)),
        None => match get_double_bits(doc, "salary") {
            Some(bits) => Some(Salary::Double(bits)),
            None => None,
        },
    }
}

/// Decodes a stored record, with `fallback_id` as the id of a record that has
/// no readable one.
pub fn decode_job_with(doc: &Document, fallback_id: i64) -> (job: Job)
    ensures
        job@ == decoded_job(doc_fields(*doc), fallback_id),
{
    let id = match read_integer(doc, "id") {
        Some(id) => id,
        None => fallback_id,
    };
    Job {
        id,
        title: read_text(doc, "title"),
        company: read_text(doc, "company"),
        status: read_text(doc, "status"),
        applied_at: get_datetime(doc, "applied_at"),
        notes: read_optional_text(doc, "notes"),
        source: read_optional_text(doc, "source"),
        date_applied: read_optional_text(doc, "date_applied"),
        place: read_optional_text(doc, "place"),
        salary: read_salary(doc),
    }
}

/// Decodes a stored record. Where the record has no readable id, the id is the
/// current time in whole seconds; the clock is read in that case only.
pub fn decode_job(doc: &Document) -> (job: Job)
    ensures
        is_decoding_of(doc_fields(*doc), job@),
{
    match read_integer(doc, "id") {
        Some(id) => decode_job_with(doc, id),
        None => decode_job_with(doc, unix_seconds_now()),
    }
}

/// Decodes every record, in the order given.
pub fn decode_jobs(docs: &Vec<Document>) -> (jobs: Vec<Job>)
    ensures
        jobs.len() == docs.len(),
        forall|i: int|
            0 <= i < docs.len() ==> is_decoding_of(doc_fields(#[trigger] docs[i]), jobs[i]@),
{
    let mut jobs: Vec<Job> = Vec::new();
    let mut i: usize = 0;
    while i < docs.len()
        invariant
            i <= docs.len(),
            jobs.len() == i,
            forall|k: int| 0 <= k < i ==> is_decoding_of(doc_fields(#[trigger] docs[k]), jobs[k]@),
        decreases docs.len() - i,
    {
        let job = decode_job(&docs[i]);
        jobs.push(job);
        i += 1;
    }
    jobs
}

/// The status that a payload asks for: the one it names, else "applied".
pub open spec fn status_or_default(status: Option<Seq<char>>) -> Seq<char> {
    match status {
        Some(s) => s,
        None => "applied"@,
    }
}

/// `fields` with `key` set to `value` where there is one, and as it is where
/// there is none.
pub open spec fn with_field(fields: Fields, key: Seq<char>, value: Option<Value>) -> Fields {
    match value {
        Some(v) => fields.insert(key, v),
        None => fields,
    }
}

/// An optional text as the value that holds it.
pub open spec fn text_field(text: Option<Seq<char>>) -> Option<Value> {
    match text {
        Some(s) => Some(Value::Text(s)),
        None => None,
    }
}

/// `fields` with each optional field that the payload supplies; one that it
/// does not supply is left as `fields` has it.
pub open spec fn with_optional_fields(fields: Fields, body: CreateJobDtoView) -> Fields {
    let fields = with_field(fields, "notes"@, text_field(body.notes));
    let fields = with_field(fields, "source"@, text_field(body.source));
    let fields = with_field(fields, "date_applied"@, text_field(body.date_applied));
    let fields = with_field(fields, "place"@, text_field(body.place));
    with_field(fields, "salary"@, body.salary)
}

/// The fields of the record that a create inserts: the id, the required
/// fields, the status or its default, both stamps at `now`, and the optional
/// fields that the payload supplies.
pub open spec fn create_fields(id: i64, now: i64, body: CreateJobDtoView) -> Fields {
    with_optional_fields(
        no_fields().insert("id"@, Value::Int64(id)).insert("title"@, Value::Text(body.title)).insert(
            "company"@,
            Value::Text(body.company),
        ).insert("status"@, Value::Text(status_or_default(body.status))).insert(
            "created_at"@,
            Value::DateTime(now),
        ).insert("updated_at"@, Value::DateTime(now)),
        body,
    )
}

/// The fields that an update sets: the required fields, the status or its
/// default, the update stamp at `now`, and the optional fields that the
/// payload supplies.
pub open spec fn update_fields(now: i64, body: CreateJobDtoView) -> Fields {
    with_optional_fields(
        no_fields().insert("title"@, Value::Text(body.title)).insert(
            "company"@,
            Value::Text(body.company),
        ).insert("status"@, Value::Text(status_or_default(body.status))).insert(
            "updated_at"@,
            Value::DateTime(now),
        ),
        body,
    )
}

fn status_text(status: Option<String>) -> (text: String)
    ensures
        text@ == status_or_default(text_of(status)),
{
    match status {
        Some(s) => s,
        None => String::from_str("applied"),
    }
}

fn put_optional_text(doc: &mut Document, key: &str, text: Option<String>)
    ensures
        doc_fields(*final(doc)) == with_field(doc_fields(*old(doc)), key@, text_field(text_of(text))),
{
    match text {
        Some(s) => insert(doc, key, text_value(s)),
        None => {},
    }
}

fn put_optional_value(doc: &mut Document, key: &str, value: Option<Bson>)
    ensures
        doc_fields(*final(doc)) == with_field(
            doc_fields(*old(doc)),
            key@,
            match value {
                Some(b) => Some(bson_value(b)),
                None => None,
            },
        ),
{
    match value {
        Some(b) => insert(doc, key, b),
        None => {},
    }
}

/// Builds the record that a create inserts for `body` under `id`, stamped at
/// `now` (milliseconds since the Unix epoch).
pub fn create_document(id: i64, now: i64, body: CreateJobDto) -> (doc: Document)
    ensures
        doc_fields(doc) == create_fields(id, now, body@),
{
    let mut doc = new_document();
    insert(&mut doc, "id", int64_value(id));
    insert(&mut doc, "title", text_value(body.title));
    insert(&mut doc, "company", text_value(body.company));
    insert(&mut doc, "status", text_value(status_text(body.status)));
    insert(&mut doc, "created_at", datetime_value(now));
    insert(&mut doc, "updated_at", datetime_value(now));
    put_optional_text(&mut doc, "notes", body.notes);
    put_optional_text(&mut doc, "source", body.source);
    put_optional_text(&mut doc, "date_applied", body.date_applied);
    put_optional_text(&mut doc, "place", body.place);
    put_optional_value(&mut doc, "salary", body.salary);
    doc
}

/// Builds the fields that an update sets for `body`, stamped at `now`
/// (milliseconds since the Unix epoch).
pub fn update_document(now: i64, body: CreateJobDto) -> (doc: Document)
    ensures
        doc_fields(doc) == update_fields(now, body@),
{
    let mut doc = new_document();
    insert(&mut doc, "title", text_value(body.title));
    insert(&mut doc, "company", text_value(body.company));
    insert(&mut doc, "status", text_value(status_text(body.status)));
    insert(&mut doc, "updated_at", datetime_value(now));
    put_optional_text(&mut doc, "notes", body.notes);
    put_optional_text(&mut doc, "source", body.source);
    put_optional_text(&mut doc, "date_applied", body.date_applied);
    put_optional_text(&mut doc, "place", body.place);
    put_optional_value(&mut doc, "salary", body.salary);
    doc
}

} // verus!
