//! The data that the remote client hands over: stories, full items, comments.

use vstd::prelude::*;

verus! {

/// A calendar time, as year, month (1-12), day (1-31), hour (0-23) and minute (0-59).
#[derive(Clone, Copy, Debug, PartialEq, Eq, Structural)]
pub struct Timestamp {
    pub year: u32,
    pub month: u8,
    pub day: u8,
    pub hour: u8,
    pub minute: u8,
}

impl Timestamp {
    /// The fields name a month, a day of a month, an hour of a day and a minute of an hour.
    pub open spec fn wf(&self) -> bool {
        &&& 1 <= self.month <= 12
        &&& 1 <= self.day <= 31
        &&& self.hour < 24
        &&& self.minute < 60
    }

    /// Builds a timestamp, or `None` where a field is out of its range.
    pub fn new(year: u32, month: u8, day: u8, hour: u8, minute: u8) -> (r: Option<Timestamp>)
        ensures
            r matches Some(t) ==> t.wf() && t == (Timestamp { year, month, day, hour, minute }),
            r is None <==> !(Timestamp { year, month, day, hour, minute }).wf(),
    {
        let t = Timestamp { year, month, day, hour, minute };
        if 1 <= month && month <= 12 && 1 <= day && day <= 31 && hour < 24 && minute < 60 {
            Some(t)
        } else {
            None
        }
    }
}

/// One entry of the story list.
#[derive(Clone, Debug)]
pub struct StoryItem {
    pub id: i64,
    pub title: String,
    pub url: Option<String>,
    pub by: String,
    pub score: u64,
    pub time: Timestamp,
    pub kids: Vec<i64>,
    pub kind: String,
}

/// A comment with its replies, already fetched to the full depth of the tree.
#[derive(Debug)]
pub struct Comment {
    pub id: i64,
    pub by: String,
    pub text: String,
    pub time: Timestamp,
    pub kids: Vec<i64>,
    pub sub_comments: Vec<Comment>,
}

/// A story with its body and its whole comment tree.
#[derive(Debug)]
pub struct StoryPageData {
    pub item: StoryItem,
    pub text: Option<String>,
    pub comments: Vec<Comment>,
}

/// Why the remote client could not deliver, in words.
#[derive(Clone, Debug)]
pub struct FetchError {
    pub description: String,
}

impl FetchError {
    pub fn new(description: String) -> (r: FetchError)
        ensures
            r.description@ == description@,
    {
        FetchError { description }
    }
}

} // verus!
