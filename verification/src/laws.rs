//! What the operations of the service achieve, proved over the model of the
//! store.

use crate::document::Fields;
use crate::document::Value;
use crate::job::CreateJobDtoView;
use crate::job::JobView;
use crate::job::Salary;
use crate::mapper::create_fields;
use crate::mapper::decoded_job;
use crate::mapper::is_decoding_of;
use crate::mapper::status_or_default;
use crate::mapper::update_fields;
use crate::query::delete_fields;
use crate::query::is_deleted;
use crate::query::document_selects;
use crate::query::lemma_filter_document;
use crate::query::record_after_set;
use crate::query::record_after_update;
use crate::query::set_command_fields;
use crate::query::JobFilter;
use crate::reply::not_found_text;
use crate::reply::ReplyView;
use crate::service::delete_reply;
use crate::service::update_reply;
use crate::service::is_fetch_reply;
use crate::service::is_list_reply;
use crate::service::UpdateCounts;
use crate::store::after_insert;
use crate::store::find_many;
use crate::store::is_find_one;
use crate::store::is_update_one;
use crate::store::selects_any;
use crate::store::selects_at_most_one;
use crate::store::Store;
use vstd::prelude::*;

verus! {

/// The length of a name and its first two characters.
spec fn name_mark(name: Seq<char>) -> (nat, char, char) {
    (name.len(), name[0], name[1])
}

/// The field names by their marks, from which it follows that no two of them
/// are the same.
proof fn lemma_field_names_differ()
    ensures
        name_mark("id"@) == (2nat, 'i', 'd'),
        name_mark("title"@) == (5nat, 't', 'i'),
        name_mark("company"@) == (7nat, 'c', 'o'),
        name_mark("status"@) == (6nat, 's', 't'),
        name_mark("applied_at"@) == (10nat, 'a', 'p'),
        name_mark("notes"@) == (5nat, 'n', 'o'),
        name_mark("source"@) == (6nat, 's', 'o'),
        name_mark("date_applied"@) == (12nat, 'd', 'a'),
        name_mark("place"@) == (5nat, 'p', 'l'),
        name_mark("salary"@) == (6nat, 's', 'a'),
        name_mark("created_at"@) == (10nat, 'c', 'r'),
        name_mark("updated_at"@) == (10nat, 'u', 'p'),
        name_mark("deleted_at"@) == (10nat, 'd', 'e'),
{
    reveal_strlit("id");
    reveal_strlit("title");
    reveal_strlit("company");
    reveal_strlit("status");
    reveal_strlit("applied_at");
    reveal_strlit("notes");
    reveal_strlit("source");
    reveal_strlit("date_applied");
    reveal_strlit("place");
    reveal_strlit("salary");
    reveal_strlit("created_at");
    reveal_strlit("updated_at");
    reveal_strlit("deleted_at");
}

/// The salary that a job shows for a stored value: the number where the value
/// is an integer of either width or a 64-bit float, nothing for any other
/// value.
pub open spec fn salary_of(value: Option<Value>) -> Option<Salary> {
    match value {
        Some(Value::Int64(v)) => Some(Salary::Integer(v)),
        Some(Value::Int32(v)) => Some(Salary::Integer(v as i64)),
        Some(Value::Double(bits)) => Some(Salary::Double(bits)),
        _ => None,
    }
}

/// The job that the record of a create decodes to: the id that was given, the
/// payload's fields, and "applied" for a status that the payload left out.
pub open spec fn created_job(id: i64, body: CreateJobDtoView) -> JobView {
    JobView {
        id,
        title: body.title,
        company: body.company,
        status: status_or_default(body.status),
        applied_at: None,
        notes: body.notes,
        source: body.source,
        date_applied: body.date_applied,
        place: body.place,
        salary: salary_of(body.salary),
    }
}

/// The record that a create inserts is not deleted, is selected by the filter
/// of a fetch of its id, and decodes to the payload, whatever the clock shows.
pub proof fn law_created_record_decodes_to_payload(
    id: i64,
    now: i64,
    body: CreateJobDtoView,
    fallback_id: i64,
)
    ensures
        !is_deleted(create_fields(id, now, body)),
        document_selects(JobFilter::ActiveWithId(id).fields(), create_fields(id, now, body)),
        decoded_job(create_fields(id, now, body), fallback_id) == created_job(id, body),
{
    lemma_field_names_differ();
    lemma_filter_document(JobFilter::ActiveWithId(id), create_fields(id, now, body));
}

/// A salary is read whether the store holds it as an integer, of either
/// width, or as a float, and from no other value.
pub proof fn law_salary_is_read_from_integer_or_float(record: Fields, fallback_id: i64)
    ensures
        decoded_job(record, fallback_id).salary == salary_of(record.get("salary"@)),
{
}

/// The record that a soft delete ran on is deleted.
proof fn lemma_delete_command_deletes(record: Fields, now: i64)
    ensures
        is_deleted(record_after_update(record, set_command_fields(delete_fields(now)))),
{
}

/// The update command of a payload sets the fields of the payload on the
/// record that it runs on.
proof fn lemma_update_command_sets(record: Fields, now: i64, body: CreateJobDtoView)
    ensures
        record_after_update(record, set_command_fields(update_fields(now, body)))
            == record_after_set(record, update_fields(now, body)),
{
}

/// A job that was created can be fetched at once. In a store that had no
/// record with the new id that was not deleted, the fetch of that id after the
/// insert finds the new record, and the reply is the job with the id and the
/// payload's fields.
pub proof fn law_created_job_is_fetched(
    store: Store,
    id: i64,
    now: i64,
    body: CreateJobDtoView,
    found: Option<Fields>,
    reply: ReplyView,
)
    requires
        !selects_any(store, JobFilter::ActiveWithId(id).fields()),
        is_find_one(
            after_insert(store, create_fields(id, now, body)),
            JobFilter::ActiveWithId(id).fields(),
            found,
        ),
        is_fetch_reply(id, Ok(found), reply),
    ensures
        found == Some(create_fields(id, now, body)),
        reply == ReplyView::Found(created_job(id, body)),
        reply.status() == 200,
{
    let record = create_fields(id, now, body);
    let filter = JobFilter::ActiveWithId(id).fields();
    let after = after_insert(store, record);
    law_created_record_decodes_to_payload(id, now, body, id);
    assert(after[store.len() as int] == record);
    assert(selects_any(after, filter));
    let hit = found->Some_0;
    let i = choose|i: int| 0 <= i < after.len() && after[i] == hit;
    if i < store.len() {
        assert(document_selects(filter, store[i]));
    }
    let job = reply->Found_0;
    law_created_record_decodes_to_payload(id, now, body, job.id);
}

/// A deleted record is out of reach of every operation: no filter of the
/// service selects it.
pub proof fn law_deleted_record_is_out_of_reach(filter: JobFilter, record: Fields)
    requires
        is_deleted(record),
    ensures
        !document_selects(filter.fields(), record),
{
    lemma_filter_document(filter, record);
}

/// Deletion is final. Whatever update runs under a filter of the service, a
/// record that is deleted stays as it is, and no record that is there is
/// removed.
pub proof fn law_deleted_record_never_changes(
    store: Store,
    filter: JobFilter,
    command: Fields,
    after: Store,
    counts: UpdateCounts,
)
    requires
        is_update_one(store, filter.fields(), command, after, counts),
    ensures
        after.len() == store.len(),
        forall|i: int| 0 <= i < store.len() && is_deleted(#[trigger] store[i]) ==> after[i] == store[i],
{
    if selects_any(store, filter.fields()) {
        let k = choose|k: int|
            {
                &&& 0 <= k < store.len()
                &&& document_selects(filter.fields(), #[trigger] store[k])
                &&& after == store.update(k, record_after_update(store[k], command))
            };
        lemma_filter_document(filter, store[k]);
    }
}

/// A soft delete takes the record out of reach. In a store where at most one
/// record with the id is not deleted, no record with the id is left that is
/// not deleted once a soft delete of the id has run; where there was one, the
/// reply is that it was deleted, with status 204.
pub proof fn law_deleted_job_is_out_of_reach(
    store: Store,
    id: i64,
    now: i64,
    after: Store,
    counts: UpdateCounts,
)
    requires
        selects_at_most_one(store, JobFilter::ActiveWithId(id).fields()),
        is_update_one(
            store,
            JobFilter::ActiveWithId(id).fields(),
            set_command_fields(delete_fields(now)),
            after,
            counts,
        ),
    ensures
        !selects_any(after, JobFilter::ActiveWithId(id).fields()),
        selects_any(store, JobFilter::ActiveWithId(id).fields()) ==> delete_reply(id, Ok(counts))
            == ReplyView::Deleted && delete_reply(id, Ok(counts)).status() == 204,
{
    let filter = JobFilter::ActiveWithId(id).fields();
    let command = set_command_fields(delete_fields(now));
    if selects_any(store, filter) {
        let i = choose|i: int|
            {
                &&& 0 <= i < store.len()
                &&& document_selects(filter, #[trigger] store[i])
                &&& after == store.update(i, record_after_update(store[i], command))
                &&& counts.matched == 1
                &&& counts.modified == if after[i] == store[i] {
                    0u64
                } else {
                    1u64
                }
            };
        lemma_delete_command_deletes(store[i], now);
        lemma_filter_document(JobFilter::ActiveWithId(id), store[i]);
        assert(is_deleted(after[i]));
        assert(!is_deleted(store[i]));
        assert forall|j: int| 0 <= j < after.len() implies !document_selects(
            filter,
            #[trigger] after[j],
        ) by {
            if j != i {
                assert(after[j] == store[j]);
            } else {
                lemma_filter_document(JobFilter::ActiveWithId(id), after[i]);
            }
        }
    } else {
        assert(after == store);
    }
}

/// Deleting a job that is already deleted changes nothing and is answered
/// with not found. In a store where no record with the id is left that is not
/// deleted, a soft delete of the id leaves the store as it is, and its reply
/// is not found, with status 404.
pub proof fn law_delete_of_deleted_job_is_not_found(
    store: Store,
    id: i64,
    now: i64,
    after: Store,
    counts: UpdateCounts,
)
    requires
        !selects_any(store, JobFilter::ActiveWithId(id).fields()),
        is_update_one(
            store,
            JobFilter::ActiveWithId(id).fields(),
            set_command_fields(delete_fields(now)),
            after,
            counts,
        ),
    ensures
        after == store,
        delete_reply(id, Ok(counts)) == ReplyView::NotFound(not_found_text(id)),
        delete_reply(id, Ok(counts)).status() == 404,
{
}

/// Soft delete is idempotent in its effect, not in its reply. In a store
/// where exactly one record with the id is not deleted, the first soft delete
/// of the id is answered with status 204; the second leaves the store as the
/// first left it and is answered with not found, status 404.
pub proof fn law_second_delete_is_not_found(
    store: Store,
    id: i64,
    first_now: i64,
    after_first: Store,
    first_counts: UpdateCounts,
    second_now: i64,
    after_second: Store,
    second_counts: UpdateCounts,
)
    requires
        selects_any(store, JobFilter::ActiveWithId(id).fields()),
        selects_at_most_one(store, JobFilter::ActiveWithId(id).fields()),
        is_update_one(
            store,
            JobFilter::ActiveWithId(id).fields(),
            set_command_fields(delete_fields(first_now)),
            after_first,
            first_counts,
        ),
        is_update_one(
            after_first,
            JobFilter::ActiveWithId(id).fields(),
            set_command_fields(delete_fields(second_now)),
            after_second,
            second_counts,
        ),
    ensures
        delete_reply(id, Ok(first_counts)).status() == 204,
        after_second == after_first,
        delete_reply(id, Ok(second_counts)) == ReplyView::NotFound(not_found_text(id)),
        delete_reply(id, Ok(second_counts)).status() == 404,
{
    law_deleted_job_is_out_of_reach(store, id, first_now, after_first, first_counts);
    law_delete_of_deleted_job_is_not_found(
        after_first,
        id,
        second_now,
        after_second,
        second_counts,
    );
}

/// An update of a job that is deleted, or of an id that no job has, changes
/// nothing and is answered with not found, status 404.
pub proof fn law_update_of_unknown_job_is_not_found(
    store: Store,
    id: i64,
    now: i64,
    body: CreateJobDtoView,
    after: Store,
    counts: UpdateCounts,
)
    requires
        !selects_any(store, JobFilter::ActiveWithId(id).fields()),
        is_update_one(
            store,
            JobFilter::ActiveWithId(id).fields(),
            set_command_fields(update_fields(now, body)),
            after,
            counts,
        ),
    ensures
        after == store,
        update_reply(id, Ok(counts)) == ReplyView::NotFound(not_found_text(id)),
        update_reply(id, Ok(counts)).status() == 404,
{
}

/// An update overwrites only what the payload supplies, but for the status.
/// On the record after the update, the title, the company and the update
/// stamp are those of the update, and the status is the payload's or
/// "applied" where the payload has none. Each optional field that the payload
/// supplies has the payload's value, and each one that it leaves out is as it
/// was, and so is every field that no payload can name.
pub proof fn law_update_merges(record: Fields, now: i64, body: CreateJobDtoView)
    ensures
        ({
            let after = record_after_update(
                record,
                set_command_fields(update_fields(now, body)),
            );
            &&& after.get("title"@) == Some(Value::Text(body.title))
            &&& after.get("company"@) == Some(Value::Text(body.company))
            &&& after.get("status"@) == Some(Value::Text(status_or_default(body.status)))
            &&& after.get("updated_at"@) == Some(Value::DateTime(now))
            &&& after.get("notes"@) == match body.notes {
                Some(text) => Some(Value::Text(text)),
                None => record.get("notes"@),
            }
            &&& after.get("source"@) == match body.source {
                Some(text) => Some(Value::Text(text)),
                None => record.get("source"@),
            }
            &&& after.get("date_applied"@) == match body.date_applied {
                Some(text) => Some(Value::Text(text)),
                None => record.get("date_applied"@),
            }
            &&& after.get("place"@) == match body.place {
                Some(text) => Some(Value::Text(text)),
                None => record.get("place"@),
            }
            &&& after.get("salary"@) == match body.salary {
                Some(value) => Some(value),
                None => record.get("salary"@),
            }
            &&& after.get("id"@) == record.get("id"@)
            &&& after.get("applied_at"@) == record.get("applied_at"@)
            &&& after.get("created_at"@) == record.get("created_at"@)
            &&& after.get("deleted_at"@) == record.get("deleted_at"@)
        }),
{
    lemma_field_names_differ();
    lemma_update_command_sets(record, now, body);
}

/// An update with only a title and a company keeps the notes, the source, the
/// date applied, the place and the salary of the job as they were, and puts
/// its status back to "applied".
pub proof fn law_update_keeps_unsupplied_fields(
    record: Fields,
    now: i64,
    body: CreateJobDtoView,
    fallback_id: i64,
)
    requires
        body.status is None,
        body.notes is None,
        body.source is None,
        body.date_applied is None,
        body.place is None,
        body.salary is None,
    ensures
        ({
            let before = decoded_job(record, fallback_id);
            let after = decoded_job(
                record_after_update(record, set_command_fields(update_fields(now, body))),
                fallback_id,
            );
            &&& after.notes == before.notes
            &&& after.source == before.source
            &&& after.date_applied == before.date_applied
            &&& after.place == before.place
            &&& after.salary == before.salary
            &&& after.id == before.id
            &&& after.applied_at == before.applied_at
            &&& after.title == body.title
            &&& after.company == body.company
            &&& after.status == "applied"@
        }),
{
    law_update_merges(record, now, body);
}

/// A list never shows a deleted job. What the store returns for the filter of
/// a list holds no record that is deleted and every record that is not, and
/// the reply lists as many jobs, each decoded from its record.
pub proof fn law_list_excludes_deleted(store: Store, reply: ReplyView)
    requires
        is_list_reply(Ok(find_many(store, JobFilter::Active.fields())), reply),
    ensures
        forall|i: int|
            0 <= i < find_many(store, JobFilter::Active.fields()).len() ==> !is_deleted(
                #[trigger] find_many(store, JobFilter::Active.fields())[i],
            ),
        forall|i: int|
            0 <= i < store.len() ==> (!is_deleted(#[trigger] store[i]) <==> find_many(
                store,
                JobFilter::Active.fields(),
            ).contains(store[i])),
        reply matches ReplyView::Listed(jobs) && jobs.len() == find_many(
            store,
            JobFilter::Active.fields(),
        ).len() && forall|i: int|
            0 <= i < jobs.len() ==> is_decoding_of(
                find_many(store, JobFilter::Active.fields())[i],
                #[trigger] jobs[i],
            ),
{
    let filter = JobFilter::Active.fields();
    let selects = |record: Fields| document_selects(filter, record);
    let found = store.filter(selects);
    assert forall|i: int| 0 <= i < found.len() implies !is_deleted(#[trigger] found[i]) by {
        store.lemma_filter_pred(selects, i);
        lemma_filter_document(JobFilter::Active, found[i]);
    }
    assert forall|i: int| 0 <= i < store.len() implies (!is_deleted(#[trigger] store[i])
        <==> found.contains(store[i])) by {
        lemma_filter_document(JobFilter::Active, store[i]);
        if !is_deleted(store[i]) {
            store.lemma_filter_contains(selects, i);
        } else if found.contains(store[i]) {
            let k = choose|k: int| 0 <= k < found.len() && found[k] == store[i];
            assert(!is_deleted(found[k]));
        }
    }
}

} // verus!
