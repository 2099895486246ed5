//! The job service: list, create, fetch, update and soft delete.
//!
//! The service never talks to the store itself. For each operation one
//! function builds what is sent to the store, and one turns the store's answer
//! into the reply. Each operation makes exactly one store call, so the caller
//! runs the first function, makes the call, and hands the outcome to the second.

use crate::clock::unix_millis_now;
use crate::clock::unix_seconds_now;
use crate::document::doc_fields;
use crate::document::Fields;
use crate::job::CreateJobDto;
use crate::mapper::create_document;
use crate::mapper::create_fields;
use crate::mapper::decode_job;
use crate::mapper::decode_jobs;
use crate::mapper::is_decoding_of;
use crate::mapper::update_document;
use crate::mapper::update_fields;
use crate::query::delete_document;
use crate::query::delete_fields;
use crate::query::set_command;
use crate::query::set_command_fields;
use crate::query::JobFilter;
use crate::reply::not_found_message;
use crate::reply::not_found_text;
use crate::reply::Reply;
use crate::reply::ReplyView;
use crate::reply::StoreError;
use mongodb::bson::Document;
use vstd::prelude::*;

verus! {

/// A record to insert, with the id that it was given.
#[derive(Debug)]
pub struct NewJob {
    pub id: i64,
    pub document: Document,
}

/// An update of at most one record that the filter selects.
#[derive(Debug)]
pub struct UpdateCommand {
    pub filter: Document,
    pub update: Document,
}

/// What the store reports of an update.
#[derive(Clone, Copy, Debug, PartialEq, Eq, Structural)]
pub struct UpdateCounts {
    /// How many records the filter selected.
    pub matched: u64,
    /// How many records the update changed.
    pub modified: u64,
}

/// The fields of each document of a list.
pub open spec fn fields_of_all(docs: Seq<Document>) -> Seq<Fields> {
    docs.map_values(|doc: Document| doc_fields(doc))
}

/// Whether `reply` answers a list whose query had the outcome `found`: every
/// record decoded, in the order in which the store gave them, or the failure.
pub open spec fn is_list_reply(found: Result<Seq<Fields>, StoreError>, reply: ReplyView) -> bool {
    match found {
        Ok(records) => {
            &&& reply matches ReplyView::Listed(jobs)
            &&& jobs.len() == records.len()
            &&& forall|i: int| 0 <= i < records.len() ==> is_decoding_of(records[i], #[trigger] jobs[i])
        },
        Err(error) => reply == ReplyView::StoreFailed(error.message_text()),
    }
}

/// Whether `reply` answers a fetch of `id` whose query had the outcome
/// `found`: the record decoded, not found where there was none, or the
/// failure.
pub open spec fn is_fetch_reply(
    id: i64,
    found: Result<Option<Fields>, StoreError>,
    reply: ReplyView,
) -> bool {
    match found {
        Ok(Some(record)) => {
            &&& reply matches ReplyView::Found(job)
            &&& is_decoding_of(record, job)
        },
        Ok(None) => reply == ReplyView::NotFound(not_found_text(id)),
        Err(error) => reply == ReplyView::StoreFailed(error.message_text()),
    }
}

/// The reply to a create under `id` whose insert had the outcome `inserted`.
pub open spec fn create_reply(id: i64, inserted: Result<(), StoreError>) -> ReplyView {
    match inserted {
        Ok(_) => ReplyView::Saved(id),
        Err(error) => ReplyView::StoreFailed(error.message_text()),
    }
}

/// The reply to an update of `id` whose store call had the outcome `updated`:
/// not found where the filter selected no record.
pub open spec fn update_reply(id: i64, updated: Result<UpdateCounts, StoreError>) -> ReplyView {
    match updated {
        Ok(counts) => if counts.matched == 0 {
            ReplyView::NotFound(not_found_text(id))
        } else {
            ReplyView::Saved(id)
        },
        Err(error) => ReplyView::StoreFailed(error.message_text()),
    }
}

/// The reply to a soft delete of `id` whose store call had the outcome
/// `updated`: not found where no record was changed.
pub open spec fn delete_reply(id: i64, updated: Result<UpdateCounts, StoreError>) -> ReplyView {
    match updated {
        Ok(counts) => if counts.modified == 0 {
            ReplyView::NotFound(not_found_text(id))
        } else {
            ReplyView::Deleted
        },
        Err(error) => ReplyView::StoreFailed(error.message_text()),
    }
}

/// The reply that reports a failure of the store.
fn store_failed(error: &StoreError) -> (reply: Reply)
    ensures
        reply@ == ReplyView::StoreFailed(error.message_text()),
{
    Reply::StoreFailed(error.message())
}

/// The filter of a list: every record that is not deleted.
pub fn get_jobs_query() -> (filter: Document)
    ensures
        doc_fields(filter) == JobFilter::Active.fields(),
{
    JobFilter::Active.to_document()
}

/// The reply to a list, from the documents that the store gave or its
/// failure.
pub fn get_jobs_reply(found: Result<Vec<Document>, StoreError>) -> (reply: Reply)
    ensures
        is_list_reply(
            match found {
                Ok(docs) => Ok(fields_of_all(docs@)),
                Err(error) => Err(error),
            },
            reply@,
        ),
{
    match found {
        Ok(docs) => {
            let jobs = decode_jobs(&docs);
            Reply::Listed(jobs)
        },
        Err(error) => store_failed(&error),
    }
}

/// The record that a create inserts for `body`. The id is the current time in
/// whole seconds, and both stamps are the current time.
pub fn create_job_record(body: CreateJobDto) -> (new: NewJob)
    ensures
        exists|now: i64| doc_fields(new.document) == create_fields(new.id, now, body@),
{
    let id = unix_seconds_now();
    let now = unix_millis_now();
    let ghost payload = body@;
    let new = NewJob { id, document: create_document(id, now, body) };
    assert(doc_fields(new.document) == create_fields(new.id, now, payload));
    new
}

/// The reply to a create under `id`, from the outcome of the insert.
pub fn create_job_reply(id: i64, inserted: Result<(), StoreError>) -> (reply: Reply)
    ensures
        reply@ == create_reply(id, inserted),
{
    match inserted {
        Ok(_) => Reply::Saved(id),
        Err(error) => store_failed(&error),
    }
}

/// The filter of a fetch: the record with this id that is not deleted.
pub fn get_job_query(id: i64) -> (filter: Document)
    ensures
        doc_fields(filter) == JobFilter::ActiveWithId(id).fields(),
{
    JobFilter::ActiveWithId(id).to_document()
}

/// The reply to a fetch of `id`, from the document that the store found, if
/// any, or its failure.
pub fn get_job_reply(id: i64, found: Result<Option<Document>, StoreError>) -> (reply: Reply)
    ensures
        is_fetch_reply(
            id,
            match found {
                Ok(Some(doc)) => Ok(Some(doc_fields(doc))),
                Ok(None) => Ok(None),
                Err(error) => Err(error),
            },
            reply@,
        ),
{
    match found {
        Ok(Some(doc)) => Reply::Found(decode_job(&doc)),
        Ok(None) => Reply::NotFound(not_found_message(id)),
        Err(error) => store_failed(&error),
    }
}

/// The update of the job `id` by `body`, stamped at `now` (milliseconds since
/// the Unix epoch): on the record with this id that is not deleted, set the
/// fields of the payload.
pub fn update_command(id: i64, now: i64, body: CreateJobDto) -> (command: UpdateCommand)
    ensures
        doc_fields(command.filter) == JobFilter::ActiveWithId(id).fields(),
        doc_fields(command.update) == set_command_fields(update_fields(now, body@)),
{
    UpdateCommand {
        filter: JobFilter::ActiveWithId(id).to_document(),
        update: set_command(update_document(now, body)),
    }
}

/// The update of the job `id` by `body`, stamped at the current time.
pub fn update_job_command(id: i64, body: CreateJobDto) -> (command: UpdateCommand)
    ensures
        doc_fields(command.filter) == JobFilter::ActiveWithId(id).fields(),
        exists|now: i64|
            doc_fields(command.update) == set_command_fields(update_fields(now, body@)),
{
    let now = unix_millis_now();
    let ghost payload = body@;
    let command = update_command(id, now, body);
    assert(doc_fields(command.update) == set_command_fields(update_fields(now, payload)));
    command
}

/// The reply to an update of `id`, from the counts that the store reported or
/// its failure.
pub fn update_job_reply(id: i64, updated: Result<UpdateCounts, StoreError>) -> (reply: Reply)
    ensures
        reply@ == update_reply(id, updated),
{
    match updated {
        Ok(counts) => if counts.matched == 0 {
            Reply::NotFound(not_found_message(id))
        } else {
            Reply::Saved(id)
        },
        Err(error) => store_failed(&error),
    }
}

/// The soft delete of the job `id`, stamped at `now` (milliseconds since the
/// Unix epoch): on the record with this id that is not deleted, set the
/// deletion stamp.
pub fn delete_command(id: i64, now: i64) -> (command: UpdateCommand)
    ensures
        doc_fields(command.filter) == JobFilter::ActiveWithId(id).fields(),
        doc_fields(command.update) == set_command_fields(delete_fields(now)),
{
    UpdateCommand {
        filter: JobFilter::ActiveWithId(id).to_document(),
        update: set_command(delete_document(now)),
    }
}

/// The soft delete of the job `id`, stamped at the current time.
pub fn delete_job_command(id: i64) -> (command: UpdateCommand)
    ensures
        doc_fields(command.filter) == JobFilter::ActiveWithId(id).fields(),
        exists|now: i64| doc_fields(command.update) == set_command_fields(delete_fields(now)),
{
    let now = unix_millis_now();
    let command = delete_command(id, now);
    assert(doc_fields(command.update) == set_command_fields(delete_fields(now)));
    command
}

/// The reply to a soft delete of `id`, from the counts that the store
/// reported or its failure.
pub fn delete_job_reply(id: i64, updated: Result<UpdateCounts, StoreError>) -> (reply: Reply)
    ensures
        reply@ == delete_reply(id, updated),
{
    match updated {
        Ok(counts) => if counts.modified == 0 {
            Reply::NotFound(not_found_message(id))
        } else {
            Reply::Deleted
        },
        Err(error) => store_failed(&error),
    }
}

} // verus!
