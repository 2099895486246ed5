//! The job record as the service hands it out, and the payload that creates or
//! updates one.

use crate::document::bson_value;
use crate::document::Value;
use mongodb::bson::Bson;
use vstd::prelude::*;

verus! {

/// A salary as the store holds it: a whole number, or a 64-bit float given by
/// its IEEE-754 bit pattern.
#[derive(Clone, Copy, Debug, PartialEq, Eq, Structural)]
pub enum Salary {
    Integer(i64),
    Double(u64),
}

/// A job application as read from the store.
#[derive(Clone, Debug)]
pub struct Job {
    pub id: i64,
    pub title: String,
    pub company: String,
    /// A free-form label such as "applied", "interviewing", "offer", "rejected".
    pub status: String,
    /// Milliseconds since the Unix epoch.
    pub applied_at: Option<i64>,
    pub notes: Option<String>,
    /// Where the job was found.
    pub source: Option<String>,
    /// Kept as text; never read as a date.
    pub date_applied: Option<String>,
    pub place: Option<String>,
    pub salary: Option<Salary>,
}

/// The payload of a create or an update. An optional field that is `None` was
/// not supplied, which is not the same as a field supplied as null.
#[derive(Clone, Debug)]
pub struct CreateJobDto {
    pub title: String,
    pub company: String,
    pub status: Option<String>,
    pub notes: Option<String>,
    pub source: Option<String>,
    pub date_applied: Option<String>,
    pub place: Option<String>,
    /// The number as the store will hold it; it is written as it is and never read.
    pub salary: Option<Bson>,
}

/// The text of an optional string.
pub open spec fn text_of(s: Option<String>) -> Option<Seq<char>> {
    match s {
        Some(s) => Some(s@),
        None => None,
    }
}

/// A [`Job`] with its strings as sequences of characters.
pub struct JobView {
    pub id: i64,
    pub title: Seq<char>,
    pub company: Seq<char>,
    pub status: Seq<char>,
    pub applied_at: Option<i64>,
    pub notes: Option<Seq<char>>,
    pub source: Option<Seq<char>>,
    pub date_applied: Option<Seq<char>>,
    pub place: Option<Seq<char>>,
    pub salary: Option<Salary>,
}

impl View for Job {
    type V = JobView;

    open spec fn view(&self) -> JobView {
        JobView {
            id: self.id,
            title: self.title@,
            company: self.company@,
            status: self.status@,
            applied_at: self.applied_at,
            notes: text_of(self.notes),
            source: text_of(self.source),
            date_applied: text_of(self.date_applied),
            place: text_of(self.place),
            salary: self.salary,
        }
    }
}

/// A [`CreateJobDto`] with its strings as sequences of characters and its
/// salary as the value that it stands for.
pub struct CreateJobDtoView {
    pub title: Seq<char>,
    pub company: Seq<char>,
    pub status: Option<Seq<char>>,
    pub notes: Option<Seq<char>>,
    pub source: Option<Seq<char>>,
    pub date_applied: Option<Seq<char>>,
    pub place: Option<Seq<char>>,
    pub salary: Option<Value>,
}

impl View for CreateJobDto {
    type V = CreateJobDtoView;

    open spec fn view(&self) -> CreateJobDtoView {
        CreateJobDtoView {
            title: self.title@,
            company: self.company@,
            status: text_of(self.status),
            notes: text_of(self.notes),
            source: text_of(self.source),
            date_applied: text_of(self.date_applied),
            place: text_of(self.place),
            salary: match self.salary {
                Some(b) => Some(bson_value(b)),
                None => None,
            },
        }
    }
}

} // verus!
