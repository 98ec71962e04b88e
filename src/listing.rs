//! The list pane: one row per story, or the state of the list fetch.

use vstd::prelude::*;
use crate::model::{FetchError, StoryItem, Timestamp};
use crate::text::{decimal, hostname, hostname_of, push_decimal, push_two_digits, two_digits};

verus! {

/// `"{n} point"` for one, `"{n} points"` otherwise.
pub open spec fn score_label_of(score: nat) -> Seq<char> {
    decimal(score) + if score == 1 {
        " point"@
    } else {
        " points"@
    }
}

/// `"{n} comment"` for one, `"{n} comments"` otherwise.
pub open spec fn comments_label_of(n: nat) -> Seq<char> {
    decimal(n) + if n == 1 {
        " comment"@
    } else {
        " comments"@
    }
}

/// The hour on a twelve-hour clock: 12, 1, ..., 11.
pub open spec fn clock_hour(hour: nat) -> nat {
    if hour % 12 == 0 {
        12
    } else {
        hour % 12
    }
}

/// `MM/DD/YY H:MM AM` or `PM`.
pub open spec fn time_label_of(t: Timestamp) -> Seq<char> {
    two_digits(t.month as nat) + "/"@ + two_digits(t.day as nat) + "/"@ + two_digits(
        (t.year % 100) as nat,
    ) + " "@ + decimal(clock_hour(t.hour as nat)) + ":"@ + two_digits(t.minute as nat) + " "@
        + if t.hour < 12 {
        "AM"@
    } else {
        "PM"@
    }
}

/// The text that the list pane shows for a failed list fetch.
pub open spec fn error_text_of(description: Seq<char>) -> Seq<char> {
    "An error occurred while fetching stories "@ + description
}

/// The text that the list pane shows while the list fetch is pending.
pub open spec fn pending_text() -> Seq<char> {
    "Loading items"@
}

/// Where the site link of a row points.
pub open spec fn site_href_of(host: Seq<char>) -> Seq<char> {
    "https://news.ycombinator.com/from?site="@ + host
}

/// The URL of a story, empty where it has none.
pub open spec fn href_of(url: Option<String>) -> Seq<char> {
    match url {
        Some(u) => u@,
        None => Seq::empty(),
    }
}

/// The score label of a row.
pub fn score_label(score: u64) -> (r: String)
    ensures
        r@ == score_label_of(score as nat),
{
    let mut out = String::new();
    push_decimal(&mut out, score);
    if score == 1 {
        out.append(" point");
    } else {
        out.append(" points");
    }
    out
}

/// The comment-count label of a row, from the number of top-level replies.
pub fn comments_label(n: usize) -> (r: String)
    ensures
        r@ == comments_label_of(n as nat),
{
    let mut out = String::new();
    push_decimal(&mut out, n as u64);
    if n == 1 {
        out.append(" comment");
    } else {
        out.append(" comments");
    }
    out
}

/// The time label of a row.
pub fn time_label(t: Timestamp) -> (r: String)
    ensures
        r@ == time_label_of(t),
{
    let mut out = String::new();
    push_two_digits(&mut out, t.month as u64);
    out.append("/");
    push_two_digits(&mut out, t.day as u64);
    out.append("/");
    push_two_digits(&mut out, (t.year % 100) as u64);
    out.append(" ");
    let h: u64 = if t.hour % 12 == 0 {
        12
    } else {
        (t.hour % 12) as u64
    };
    push_decimal(&mut out, h);
    out.append(":");
    push_two_digits(&mut out, t.minute as u64);
    out.append(" ");
    if t.hour < 12 {
        out.append("AM");
    } else {
        out.append("PM");
    }
    assert(out@ =~= time_label_of(t));
    out
}

/// What one row of the list shows.
#[derive(Clone, Debug, PartialEq)]
pub struct StoryRow {
    pub id: i64,
    pub title: String,
    pub href: String,
    pub hostname: String,
    pub site_href: String,
    pub score: String,
    pub author: String,
    pub time: String,
    pub comments: String,
}

/// `row` is what the list shows for `story`.
pub open spec fn row_shows(row: StoryRow, story: StoryItem) -> bool {
    &&& row.id == story.id
    &&& row.title@ == story.title@
    &&& row.href@ == href_of(story.url)
    &&& row.hostname@ == hostname_of(href_of(story.url))
    &&& row.site_href@ == site_href_of(hostname_of(href_of(story.url)))
    &&& row.score@ == score_label_of(story.score as nat)
    &&& row.author@ == "by "@ + story.by@
    &&& row.time@ == time_label_of(story.time)
    &&& row.comments@ == comments_label_of(story.kids@.len())
}

/// Derives the strings of a row from a story.
pub fn story_row(story: &StoryItem) -> (r: StoryRow)
    ensures
        row_shows(r, *story),
{
    let href = match &story.url {
        Some(u) => u.clone(),
        None => String::new(),
    };
    let host = hostname(href.as_str());
    let site_href = String::from_str("https://news.ycombinator.com/from?site=").concat(
        host.as_str(),
    );
    let author = String::from_str("by ").concat(story.by.as_str());
    StoryRow {
        id: story.id,
        title: story.title.clone(),
        href,
        hostname: host,
        site_href,
        score: score_label(story.score),
        author,
        time: time_label(story.time),
        comments: comments_label(story.kids.len()),
    }
}

/// What the list pane shows.
#[derive(Clone, Debug)]
pub enum ListPane {
    /// The list fetch has not settled.
    Pending(String),
    /// The list fetch failed; the text names the error.
    Failed(String),
    /// One row per story, in the order of the list.
    Rows(Vec<StoryRow>),
}

/// The list pane for the state of the list fetch: `None` while it is pending.
pub fn stories_pane(outcome: &Option<Result<Vec<StoryItem>, FetchError>>) -> (r: ListPane)
    ensures
        match *outcome {
            None => r matches ListPane::Pending(t) && t@ == pending_text(),
            Some(Err(e)) => r matches ListPane::Failed(t) && t@ == error_text_of(e.description@),
            Some(Ok(list)) => r matches ListPane::Rows(rows) && rows@.len() == list@.len() && (
            forall|i: int| 0 <= i < list@.len() ==> row_shows(#[trigger] rows@[i], list@[i])),
        },
{
    match outcome {
        None => ListPane::Pending(String::from_str("Loading items")),
        Some(Err(e)) => ListPane::Failed(
            String::from_str("An error occurred while fetching stories ").concat(
                e.description.as_str(),
            ),
        ),
        Some(Ok(list)) => {
            let mut rows: Vec<StoryRow> = Vec::new();
            let mut i: usize = 0;
            while i < list.len()
                invariant
                    i <= list@.len(),
                    rows@.len() == i,
                    forall|j: int| 0 <= j < i ==> row_shows(#[trigger] rows@[j], list@[j]),
                decreases list@.len() - i,
            {
                rows.push(story_row(&list[i]));
                i += 1;
            }
            ListPane::Rows(rows)
        },
    }
}

} // verus!
