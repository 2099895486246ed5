//! What the service answers: the reply to a request, its status code, and the
//! texts of its error messages.

use crate::job::Job;
use crate::job::JobView;
use vstd::prelude::*;
use vstd::string::*;

verus! {

/// A failure of the store, with the store's own description of it.
#[derive(Clone, Debug)]
pub enum StoreError {
    /// A query or a write failed.
    Query(String),
    /// Reading the results of a query failed part-way.
    Cursor(String),
}

impl StoreError {
    /// The message that reports this failure: what failed, then the store's
    /// description word for word.
    pub open spec fn message_text(self) -> Seq<char> {
        match self {
            StoreError::Query(detail) => "DB error: "@ + detail@,
            StoreError::Cursor(detail) => "Cursor error: "@ + detail@,
        }
    }

    /// The message that reports this failure.
    pub fn message(&self) -> (text: String)
        ensures
            text@ == self.message_text(),
    {
        match self {
            StoreError::Query(detail) => String::from_str("DB error: ").concat(detail.as_str()),
            StoreError::Cursor(detail) => String::from_str("Cursor error: ").concat(
                detail.as_str(),
            ),
        }
    }
}

/// The reply to a request.
#[derive(Clone, Debug)]
pub enum Reply {
    /// The jobs that a list found.
    Listed(Vec<Job>),
    /// The job that a fetch found.
    Found(Job),
    /// The id of the job that was created or updated.
    Saved(i64),
    /// The job was deleted; there is nothing to say.
    Deleted,
    /// No job that is not deleted has the id; with the message.
    NotFound(String),
    /// The store failed; with the message.
    StoreFailed(String),
}

/// A [`Reply`] with its strings as sequences of characters.
pub enum ReplyView {
    Listed(Seq<JobView>),
    Found(JobView),
    Saved(i64),
    Deleted,
    NotFound(Seq<char>),
    StoreFailed(Seq<char>),
}

impl View for Reply {
    type V = ReplyView;

    open spec fn view(&self) -> ReplyView {
        match self {
            Reply::Listed(jobs) => ReplyView::Listed(jobs@.map_values(|job: Job| job@)),
            Reply::Found(job) => ReplyView::Found(job@),
            Reply::Saved(id) => ReplyView::Saved(*id),
            Reply::Deleted => ReplyView::Deleted,
            Reply::NotFound(message) => ReplyView::NotFound(message@),
            Reply::StoreFailed(message) => ReplyView::StoreFailed(message@),
        }
    }
}

impl ReplyView {
    /// The HTTP status of the reply: 204 for a deletion, which has no body, 200
    /// for every other success, 404 where the job was not found, 500 where the
    /// store failed.
    pub open spec fn status(self) -> u16 {
        match self {
            ReplyView::Listed(_) => 200,
            ReplyView::Found(_) => 200,
            ReplyView::Saved(_) => 200,
            ReplyView::Deleted => 204,
            ReplyView::NotFound(_) => 404,
            ReplyView::StoreFailed(_) => 500,
        }
    }
}

impl Reply {
    /// The HTTP status of the reply.
    pub fn status_code(&self) -> (code: u16)
        ensures
            code == self@.status(),
    {
        match self {
            Reply::Listed(_) => 200,
            Reply::Found(_) => 200,
            Reply::Saved(_) => 200,
            Reply::Deleted => 204,
            Reply::NotFound(_) => 404,
            Reply::StoreFailed(_) => 500,
        }
    }
}

/// The character of a decimal digit.
pub open spec fn digit(d: nat) -> char
    recommends
        d < 10,
{
    seq!['0', '1', '2', '3', '4', '5', '6', '7', '8', '9'][d as int]
}

/// The decimal digits of a natural number, without leading zeros.
pub open spec fn digits(n: nat) -> Seq<char>
    decreases n,
{
    if n < 10 {
        seq![digit(n)]
    } else {
        digits(n / 10).push(digit(n % 10))
    }
}

/// An integer in decimal, with a minus sign where it is negative.
pub open spec fn decimal(n: int) -> Seq<char> {
    if n < 0 {
        seq!['-'] + digits((-n) as nat)
    } else {
        digits(n as nat)
    }
}

/// The message that says that no job has the id.
pub open spec fn not_found_text(id: i64) -> Seq<char> {
    "Job "@ + decimal(id as int) + " not found"@
}

fn digit_str(d: u64) -> (text: &'static str)
    requires
        d < 10,
    ensures
        text@ == seq![digit(d as nat)],
{
    proof {
        reveal_strlit("0");
        reveal_strlit("1");
        reveal_strlit("2");
        reveal_strlit("3");
        reveal_strlit("4");
        reveal_strlit("5");
        reveal_strlit("6");
        reveal_strlit("7");
        reveal_strlit("8");
        reveal_strlit("9");
    }
    if d == 0 {
        "0"
    } else if d == 1 {
        "1"
    } else if d == 2 {
        "2"
    } else if d == 3 {
        "3"
    } else if d == 4 {
        "4"
    } else if d == 5 {
        "5"
    } else if d == 6 {
        "6"
    } else if d == 7 {
        "7"
    } else if d == 8 {
        "8"
    } else {
        "9"
    }
}

fn render_u64(n: u64) -> (text: String)
    ensures
        text@ == digits(n as nat),
    decreases n,
{
    if n < 10 {
        String::from_str(digit_str(n))
    } else {
        render_u64(n / 10).concat(digit_str(n % 10))
    }
}

/// Writes an integer in decimal.
pub fn render_i64(n: i64) -> (text: String)
    ensures
        text@ == decimal(n as int),
{
    if n < 0 {
        let magnitude: u64 = if n == i64::MIN {
            9223372036854775808u64
        } else {
            (-n) as u64
        };
        proof {
            reveal_strlit("-");
            assert("-"@ == seq!['-']);
        }
        String::from_str("-").concat(render_u64(magnitude).as_str())
    } else {
        render_u64(n as u64)
    }
}

/// The message that says that no job has the id.
pub fn not_found_message(id: i64) -> (text: String)
    ensures
        text@ == not_found_text(id),
{
    String::from_str("Job ").concat(render_i64(id).as_str()).concat(" not found")
}

} // verus!
