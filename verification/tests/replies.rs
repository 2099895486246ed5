use job_tracker::job::Salary;
use job_tracker::reply::not_found_message;
use job_tracker::reply::render_i64;
use job_tracker::reply::Reply;
use job_tracker::reply::StoreError;
use job_tracker::service::create_job_reply;
use job_tracker::service::delete_job_reply;
use job_tracker::service::get_job_reply;
use job_tracker::service::get_jobs_reply;
use job_tracker::service::update_job_reply;
use job_tracker::service::UpdateCounts;
use mongodb::bson::Document;

#[test]
fn render_i64_writes_decimal() {
    assert_eq!(render_i64(0), "0");
    assert_eq!(render_i64(7), "7");
    assert_eq!(render_i64(10), "10");
    assert_eq!(render_i64(999999), "999999");
    assert_eq!(render_i64(1700000000), "1700000000");
    assert_eq!(render_i64(-1), "-1");
    assert_eq!(render_i64(-120), "-120");
    assert_eq!(render_i64(i64::MAX), "9223372036854775807");
    assert_eq!(render_i64(i64::MIN), "-9223372036854775808");
}

#[test]
fn render_i64_agrees_with_the_standard_library() {
    let mut n: i64 = 1;
    while n < i64::MAX / 7 {
        assert_eq!(render_i64(n), n.to_string());
        assert_eq!(render_i64(-n), (-n).to_string());
        assert_eq!(render_i64(n - 1), (n - 1).to_string());
        n *= 7;
    }
}

#[test]
fn not_found_message_names_the_id() {
    assert_eq!(not_found_message(999999), "Job 999999 not found");
    assert_eq!(not_found_message(-3), "Job -3 not found");
}

#[test]
fn store_error_messages() {
    assert_eq!(
        StoreError::Query("connection refused".to_string()).message(),
        "DB error: connection refused"
    );
    assert_eq!(
        StoreError::Cursor("lost".to_string()).message(),
        "Cursor error: lost"
    );
    assert_eq!(StoreError::Query(String::new()).message(), "DB error: ");
}

#[test]
fn status_codes() {
    assert_eq!(Reply::Listed(Vec::new()).status_code(), 200);
    assert_eq!(Reply::Saved(1).status_code(), 200);
    assert_eq!(Reply::Deleted.status_code(), 204);
    assert_eq!(Reply::NotFound("x".to_string()).status_code(), 404);
    assert_eq!(Reply::StoreFailed("x".to_string()).status_code(), 500);
    let found = get_job_reply(1, Ok(Some(Document::new())));
    assert_eq!(found.status_code(), 200);
}

#[test]
fn list_reply_decodes_every_document() {
    let mut first = Document::new();
    first.insert("id", 1i64);
    first.insert("title", "A");
    let mut second = Document::new();
    second.insert("id", 2i64);
    second.insert("title", "B");
    match get_jobs_reply(Ok(vec![first, second])) {
        Reply::Listed(jobs) => {
            assert_eq!(jobs.len(), 2);
            assert_eq!(jobs[0].id, 1);
            assert_eq!(jobs[0].title, "A");
            assert_eq!(jobs[1].id, 2);
            assert_eq!(jobs[1].title, "B");
        }
        other => panic!("unexpected reply {:?}", other),
    }
}

#[test]
fn list_reply_of_no_documents_is_an_empty_list() {
    match get_jobs_reply(Ok(Vec::new())) {
        Reply::Listed(jobs) => assert!(jobs.is_empty()),
        other => panic!("unexpected reply {:?}", other),
    }
}

#[test]
fn list_reply_reports_query_and_cursor_failures() {
    match get_jobs_reply(Err(StoreError::Query("down".to_string()))) {
        Reply::StoreFailed(message) => assert_eq!(message, "DB error: down"),
        other => panic!("unexpected reply {:?}", other),
    }
    let reply = get_jobs_reply(Err(StoreError::Cursor("broken".to_string())));
    assert_eq!(reply.status_code(), 500);
    match reply {
        Reply::StoreFailed(message) => assert_eq!(message, "Cursor error: broken"),
        other => panic!("unexpected reply {:?}", other),
    }
}

#[test]
fn create_reply_is_the_id_or_the_failure() {
    match create_job_reply(1700000000, Ok(())) {
        Reply::Saved(id) => assert_eq!(id, 1700000000),
        other => panic!("unexpected reply {:?}", other),
    }
    match create_job_reply(1700000000, Err(StoreError::Query("down".to_string()))) {
        Reply::StoreFailed(message) => assert_eq!(message, "DB error: down"),
        other => panic!("unexpected reply {:?}", other),
    }
}

#[test]
fn fetch_reply_is_the_job_not_found_or_the_failure() {
    let mut doc = Document::new();
    doc.insert("id", 5i64);
    doc.insert("title", "Engineer");
    match get_job_reply(5, Ok(Some(doc))) {
        Reply::Found(job) => {
            assert_eq!(job.id, 5);
            assert_eq!(job.title, "Engineer");
        }
        other => panic!("unexpected reply {:?}", other),
    }
    let missing = get_job_reply(5, Ok(None));
    assert_eq!(missing.status_code(), 404);
    match missing {
        Reply::NotFound(message) => assert_eq!(message, "Job 5 not found"),
        other => panic!("unexpected reply {:?}", other),
    }
    match get_job_reply(5, Err(StoreError::Query("down".to_string()))) {
        Reply::StoreFailed(message) => assert_eq!(message, "DB error: down"),
        other => panic!("unexpected reply {:?}", other),
    }
}

#[test]
fn update_reply_goes_by_the_matched_count() {
    match update_job_reply(8, Ok(UpdateCounts { matched: 1, modified: 1 })) {
        Reply::Saved(id) => assert_eq!(id, 8),
        other => panic!("unexpected reply {:?}", other),
    }
    match update_job_reply(8, Ok(UpdateCounts { matched: 1, modified: 0 })) {
        Reply::Saved(id) => assert_eq!(id, 8),
        other => panic!("unexpected reply {:?}", other),
    }
    match update_job_reply(8, Ok(UpdateCounts { matched: 0, modified: 0 })) {
        Reply::NotFound(message) => assert_eq!(message, "Job 8 not found"),
        other => panic!("unexpected reply {:?}", other),
    }
    match update_job_reply(8, Err(StoreError::Query("down".to_string()))) {
        Reply::StoreFailed(message) => assert_eq!(message, "DB error: down"),
        other => panic!("unexpected reply {:?}", other),
    }
}

#[test]
fn delete_reply_goes_by_the_modified_count() {
    let deleted = delete_job_reply(8, Ok(UpdateCounts { matched: 1, modified: 1 }));
    assert_eq!(deleted.status_code(), 204);
    assert!(matches!(deleted, Reply::Deleted));
    match delete_job_reply(8, Ok(UpdateCounts { matched: 1, modified: 0 })) {
        Reply::NotFound(message) => assert_eq!(message, "Job 8 not found"),
        other => panic!("unexpected reply {:?}", other),
    }
    match delete_job_reply(8, Ok(UpdateCounts { matched: 0, modified: 0 })) {
        Reply::NotFound(message) => assert_eq!(message, "Job 8 not found"),
        other => panic!("unexpected reply {:?}", other),
    }
    match delete_job_reply(8, Err(StoreError::Query("down".to_string()))) {
        Reply::StoreFailed(message) => assert_eq!(message, "DB error: down"),
        other => panic!("unexpected reply {:?}", other),
    }
}

#[test]
fn fetch_reply_reads_a_salary_stored_as_32_bit_integer() {
    let mut doc = Document::new();
    doc.insert("id", 1i64);
    doc.insert("title", "A");
    doc.insert("company", "B");
    doc.insert("status", "applied");
    doc.insert("salary", 50000i32);
    match get_job_reply(1, Ok(Some(doc))) {
        Reply::Found(job) => {
            assert_eq!(job.id, 1);
            assert_eq!(job.title, "A");
            assert_eq!(job.company, "B");
            assert_eq!(job.status, "applied");
            assert_eq!(job.salary, Some(Salary::Integer(50000)));
            let number = match job.salary {
                Some(Salary::Integer(whole)) => whole as f64,
                Some(Salary::Double(bits)) => f64::from_bits(bits),
                None => panic!("no salary"),
            };
            assert_eq!(number, 50000.0);
        }
        other => panic!("unexpected reply {:?}", other),
    }
}
