use job_tracker::job::CreateJobDto;
use job_tracker::job::Salary;
use job_tracker::mapper::create_document;
use job_tracker::reply::Reply;
use job_tracker::service::create_job_record;
use job_tracker::service::create_job_reply;
use job_tracker::service::delete_command;
use job_tracker::service::delete_job_command;
use job_tracker::service::delete_job_reply;
use job_tracker::service::get_job_query;
use job_tracker::service::get_job_reply;
use job_tracker::service::get_jobs_query;
use job_tracker::service::get_jobs_reply;
use job_tracker::service::update_command;
use job_tracker::service::update_job_command;
use job_tracker::service::update_job_reply;
use job_tracker::service::UpdateCommand;
use job_tracker::service::UpdateCounts;
use mongodb::bson::Bson;
use mongodb::bson::DateTime;
use mongodb::bson::Document;

/// A collection held in memory that answers the filters and update commands
/// of the service as a document store would.
struct Collection {
    records: Vec<Document>,
}

fn condition_holds(record: &Document, key: &str, condition: &Bson) -> bool {
    if let Bson::Document(inner) = condition {
        if let Ok(wanted) = inner.get_bool("$exists") {
            return record.contains_key(key) == wanted;
        }
    }
    record.get(key) == Some(condition)
}

fn selects(filter: &Document, record: &Document) -> bool {
    filter.iter().all(|(key, condition)| condition_holds(record, key, condition))
}

impl Collection {
    fn new() -> Collection {
        Collection { records: Vec::new() }
    }

    fn insert_one(&mut self, record: Document) {
        self.records.push(record);
    }

    fn find(&self, filter: &Document) -> Vec<Document> {
        self.records.iter().filter(|record| selects(filter, record)).cloned().collect()
    }

    fn find_one(&self, filter: &Document) -> Option<Document> {
        self.records.iter().find(|record| selects(filter, record)).cloned()
    }

    fn update_one(&mut self, command: &UpdateCommand) -> UpdateCounts {
        let set = command.update.get_document("$set").unwrap();
        match self.records.iter_mut().find(|record| selects(&command.filter, record)) {
            Some(record) => {
                let before = record.clone();
                for (key, value) in set {
                    record.insert(key.clone(), value.clone());
                }
                let modified = if *record == before { 0 } else { 1 };
                UpdateCounts { matched: 1, modified }
            }
            None => UpdateCounts { matched: 0, modified: 0 },
        }
    }
}

fn post(store: &mut Collection, body: CreateJobDto) -> Reply {
    let new = create_job_record(body);
    store.insert_one(new.document);
    create_job_reply(new.id, Ok(()))
}

fn get(store: &Collection, id: i64) -> Reply {
    get_job_reply(id, Ok(store.find_one(&get_job_query(id))))
}

fn list(store: &Collection) -> Reply {
    get_jobs_reply(Ok(store.find(&get_jobs_query())))
}

fn put(store: &mut Collection, id: i64, body: CreateJobDto) -> Reply {
    let counts = store.update_one(&update_job_command(id, body));
    update_job_reply(id, Ok(counts))
}

fn delete(store: &mut Collection, id: i64) -> Reply {
    let counts = store.update_one(&delete_job_command(id));
    delete_job_reply(id, Ok(counts))
}

fn payload(title: &str, company: &str) -> CreateJobDto {
    CreateJobDto {
        title: title.to_string(),
        company: company.to_string(),
        status: None,
        notes: None,
        source: None,
        date_applied: None,
        place: None,
        salary: None,
    }
}

fn saved_id(reply: Reply) -> i64 {
    match reply {
        Reply::Saved(id) => id,
        other => panic!("unexpected reply {:?}", other),
    }
}

fn not_found_message(reply: Reply) -> String {
    match reply {
        Reply::NotFound(message) => message,
        other => panic!("unexpected reply {:?}", other),
    }
}

#[test]
fn create_fetch_delete_fetch() {
    let mut store = Collection::new();
    let before = chrono::Utc::now().timestamp();
    let created = post(&mut store, payload("Engineer", "Acme"));
    let after = chrono::Utc::now().timestamp();
    assert_eq!(created.status_code(), 200);
    let id = saved_id(created);
    assert!(before <= id && id <= after);

    let fetched = get(&store, id);
    assert_eq!(fetched.status_code(), 200);
    match fetched {
        Reply::Found(job) => {
            assert_eq!(job.id, id);
            assert_eq!(job.title, "Engineer");
            assert_eq!(job.company, "Acme");
            assert_eq!(job.status, "applied");
            assert_eq!(job.applied_at, None);
            assert_eq!(job.notes, None);
            assert_eq!(job.source, None);
            assert_eq!(job.date_applied, None);
            assert_eq!(job.place, None);
            assert_eq!(job.salary, None);
        }
        other => panic!("unexpected reply {:?}", other),
    }

    let deleted = delete(&mut store, id);
    assert_eq!(deleted.status_code(), 204);
    assert!(matches!(deleted, Reply::Deleted));

    let gone = get(&store, id);
    assert_eq!(gone.status_code(), 404);
    assert_eq!(not_found_message(gone), format!("Job {} not found", id));
}

#[test]
fn update_of_unknown_job_is_not_found() {
    let mut store = Collection::new();
    let reply = put(&mut store, 999999, payload("Engineer", "Acme"));
    assert_eq!(reply.status_code(), 404);
    assert_eq!(not_found_message(reply), "Job 999999 not found");
    assert!(store.records.is_empty());
}

#[test]
fn created_job_is_fetched_with_the_payload() {
    let mut store = Collection::new();
    let body = CreateJobDto {
        title: "Analyst".to_string(),
        company: "Globex".to_string(),
        status: Some("offer".to_string()),
        notes: Some("call back".to_string()),
        source: Some("referral".to_string()),
        date_applied: Some("2024-05-05".to_string()),
        place: Some("Lyon".to_string()),
        salary: Some(Bson::Double(61000.25)),
    };
    let id = saved_id(post(&mut store, body));
    match get(&store, id) {
        Reply::Found(job) => {
            assert_eq!(job.id, id);
            assert_eq!(job.title, "Analyst");
            assert_eq!(job.company, "Globex");
            assert_eq!(job.status, "offer");
            assert_eq!(job.notes.as_deref(), Some("call back"));
            assert_eq!(job.source.as_deref(), Some("referral"));
            assert_eq!(job.date_applied.as_deref(), Some("2024-05-05"));
            assert_eq!(job.place.as_deref(), Some("Lyon"));
            assert_eq!(job.salary, Some(Salary::Double(61000.25f64.to_bits())));
        }
        other => panic!("unexpected reply {:?}", other),
    }
}

#[test]
fn created_record_is_stamped_with_the_current_time() {
    let before = DateTime::now();
    let new = create_job_record(payload("Engineer", "Acme"));
    let after = DateTime::now();
    let created_at = new.document.get_datetime("created_at").unwrap();
    let updated_at = new.document.get_datetime("updated_at").unwrap();
    assert_eq!(created_at, updated_at);
    assert!(before <= *created_at && *created_at <= after);
    assert_eq!(new.document.get_i64("id"), Ok(new.id));
}

#[test]
fn second_delete_is_not_found() {
    let mut store = Collection::new();
    store.insert_one(create_document(77, 1000, payload("Engineer", "Acme")));
    let first = delete(&mut store, 77);
    assert_eq!(first.status_code(), 204);
    let after_first = store.records.clone();
    assert!(after_first[0].contains_key("deleted_at"));

    let second = delete(&mut store, 77);
    assert_eq!(second.status_code(), 404);
    assert_eq!(not_found_message(second), "Job 77 not found");
    assert_eq!(store.records, after_first);
}

#[test]
fn delete_of_unknown_job_is_not_found() {
    let mut store = Collection::new();
    let reply = delete(&mut store, 5);
    assert_eq!(reply.status_code(), 404);
    assert_eq!(not_found_message(reply), "Job 5 not found");
}

#[test]
fn delete_stamps_the_record_and_keeps_its_fields() {
    let mut store = Collection::new();
    store.insert_one(create_document(77, 1000, payload("Engineer", "Acme")));
    let counts = store.update_one(&delete_command(77, 2000));
    assert_eq!(counts, UpdateCounts { matched: 1, modified: 1 });
    let record = &store.records[0];
    assert_eq!(record.get("deleted_at"), Some(&Bson::DateTime(DateTime::from_millis(2000))));
    assert_eq!(record.get_str("title"), Ok("Engineer"));
    assert_eq!(record.get_i64("id"), Ok(77));
}

#[test]
fn update_keeps_unsupplied_fields_and_resets_status() {
    let mut store = Collection::new();
    let body = CreateJobDto {
        title: "Analyst".to_string(),
        company: "Globex".to_string(),
        status: Some("offer".to_string()),
        notes: Some("call back".to_string()),
        source: Some("referral".to_string()),
        date_applied: Some("2024-05-05".to_string()),
        place: Some("Lyon".to_string()),
        salary: Some(Bson::Double(61000.25)),
    };
    store.insert_one(create_document(12, 1000, body));

    let reply = put(&mut store, 12, payload("Senior Analyst", "Initech"));
    assert_eq!(reply.status_code(), 200);
    assert_eq!(saved_id(reply), 12);

    match get(&store, 12) {
        Reply::Found(job) => {
            assert_eq!(job.id, 12);
            assert_eq!(job.title, "Senior Analyst");
            assert_eq!(job.company, "Initech");
            assert_eq!(job.status, "applied");
            assert_eq!(job.notes.as_deref(), Some("call back"));
            assert_eq!(job.source.as_deref(), Some("referral"));
            assert_eq!(job.date_applied.as_deref(), Some("2024-05-05"));
            assert_eq!(job.place.as_deref(), Some("Lyon"));
            assert_eq!(job.salary, Some(Salary::Double(61000.25f64.to_bits())));
        }
        other => panic!("unexpected reply {:?}", other),
    }
}

#[test]
fn update_overwrites_supplied_fields_and_restamps() {
    let mut store = Collection::new();
    let mut first = payload("Analyst", "Globex");
    first.notes = Some("old".to_string());
    store.insert_one(create_document(12, 1000, first));

    let mut second = payload("Analyst", "Globex");
    second.status = Some("rejected".to_string());
    second.notes = Some("new".to_string());
    second.salary = Some(Bson::Double(10.5));
    let counts = store.update_one(&update_command(12, 3000, second));
    assert_eq!(counts, UpdateCounts { matched: 1, modified: 1 });

    let record = &store.records[0];
    assert_eq!(record.get_str("status"), Ok("rejected"));
    assert_eq!(record.get_str("notes"), Ok("new"));
    assert_eq!(record.get_f64("salary"), Ok(10.5));
    assert_eq!(record.get("created_at"), Some(&Bson::DateTime(DateTime::from_millis(1000))));
    assert_eq!(record.get("updated_at"), Some(&Bson::DateTime(DateTime::from_millis(3000))));
}

#[test]
fn update_of_deleted_job_is_not_found() {
    let mut store = Collection::new();
    store.insert_one(create_document(12, 1000, payload("Analyst", "Globex")));
    assert_eq!(delete(&mut store, 12).status_code(), 204);
    let reply = put(&mut store, 12, payload("Engineer", "Acme"));
    assert_eq!(reply.status_code(), 404);
    assert_eq!(not_found_message(reply), "Job 12 not found");
    assert_eq!(store.records[0].get_str("title"), Ok("Analyst"));
}

#[test]
fn list_leaves_out_deleted_jobs() {
    let mut store = Collection::new();
    store.insert_one(create_document(1, 1000, payload("A", "X")));
    store.insert_one(create_document(2, 1000, payload("B", "X")));
    store.insert_one(create_document(3, 1000, payload("C", "X")));
    store.insert_one(create_document(4, 1000, payload("D", "X")));
    assert_eq!(delete(&mut store, 2).status_code(), 204);
    assert_eq!(delete(&mut store, 4).status_code(), 204);

    let reply = list(&store);
    assert_eq!(reply.status_code(), 200);
    match reply {
        Reply::Listed(jobs) => {
            let ids: Vec<i64> = jobs.iter().map(|job| job.id).collect();
            assert_eq!(ids, vec![1, 3]);
            assert_eq!(jobs[0].title, "A");
            assert_eq!(jobs[1].title, "C");
        }
        other => panic!("unexpected reply {:?}", other),
    }
    assert_eq!(store.records.len(), 4);
}

#[test]
fn list_of_only_deleted_jobs_is_empty() {
    let mut store = Collection::new();
    store.insert_one(create_document(1, 1000, payload("A", "X")));
    assert_eq!(delete(&mut store, 1).status_code(), 204);
    match list(&store) {
        Reply::Listed(jobs) => assert!(jobs.is_empty()),
        other => panic!("unexpected reply {:?}", other),
    }
}
