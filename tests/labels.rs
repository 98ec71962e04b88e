use hn_preview::listing::{comments_label, score_label, story_row, time_label};
use hn_preview::model::{StoryItem, Timestamp};
use hn_preview::text::{decimal_string, hostname};

fn story(url: Option<&str>, score: u64, kids: Vec<i64>) -> StoryItem {
    StoryItem {
        id: 7,
        title: "A title".to_string(),
        url: url.map(|u| u.to_string()),
        by: "alice".to_string(),
        score,
        time: Timestamp::new(2024, 3, 5, 13, 7).unwrap(),
        kids,
        kind: "story".to_string(),
    }
}

#[test]
fn score_label_singular_and_plural() {
    assert_eq!(score_label(1), "1 point");
    assert_eq!(score_label(0), "0 points");
    assert_eq!(score_label(2), "2 points");
    assert_eq!(score_label(1234), "1234 points");
}

#[test]
fn score_label_largest() {
    assert_eq!(score_label(u64::MAX), "18446744073709551615 points");
}

#[test]
fn comments_label_singular_and_plural() {
    assert_eq!(comments_label(1), "1 comment");
    assert_eq!(comments_label(0), "0 comments");
    assert_eq!(comments_label(10), "10 comments");
}

#[test]
fn decimal_digits() {
    assert_eq!(decimal_string(0), "0");
    assert_eq!(decimal_string(9), "9");
    assert_eq!(decimal_string(10), "10");
    assert_eq!(decimal_string(907), "907");
}

#[test]
fn hostname_strips_scheme_and_www() {
    assert_eq!(hostname("https://www.example.com/a"), "example.com/a");
    assert_eq!(hostname("http://example.org"), "example.org");
    assert_eq!(hostname("www.rust-lang.org"), "rust-lang.org");
    assert_eq!(hostname("ftp://example.org"), "ftp://example.org");
    assert_eq!(hostname(""), "");
}

#[test]
fn hostname_strips_one_scheme_only() {
    assert_eq!(hostname("https://http://x.io"), "http://x.io");
}

#[test]
fn hostname_twice_is_once() {
    for url in ["https://www.example.com/a", "http://b.org", "c.net", ""] {
        let once = hostname(url);
        assert_eq!(hostname(&once), once);
    }
}

#[test]
fn time_label_formats() {
    assert_eq!(time_label(Timestamp::new(2024, 3, 5, 13, 7).unwrap()), "03/05/24 1:07 PM");
    assert_eq!(time_label(Timestamp::new(1999, 12, 31, 0, 0).unwrap()), "12/31/99 12:00 AM");
    assert_eq!(time_label(Timestamp::new(2007, 1, 9, 12, 59).unwrap()), "01/09/07 12:59 PM");
    assert_eq!(time_label(Timestamp::new(2010, 10, 10, 11, 5).unwrap()), "10/10/10 11:05 AM");
}

#[test]
fn timestamp_rejects_out_of_range() {
    assert!(Timestamp::new(2024, 13, 1, 0, 0).is_none());
    assert!(Timestamp::new(2024, 0, 1, 0, 0).is_none());
    assert!(Timestamp::new(2024, 1, 32, 0, 0).is_none());
    assert!(Timestamp::new(2024, 1, 1, 24, 0).is_none());
    assert!(Timestamp::new(2024, 1, 1, 0, 60).is_none());
    assert!(Timestamp::new(2024, 1, 1, 23, 59).is_some());
}

#[test]
fn row_of_story_with_url() {
    let row = story_row(&story(Some("https://www.example.com/post"), 1, vec![3]));
    assert_eq!(row.id, 7);
    assert_eq!(row.title, "A title");
    assert_eq!(row.href, "https://www.example.com/post");
    assert_eq!(row.hostname, "example.com/post");
    assert_eq!(row.site_href, "https://news.ycombinator.com/from?site=example.com/post");
    assert_eq!(row.score, "1 point");
    assert_eq!(row.author, "by alice");
    assert_eq!(row.time, "03/05/24 1:07 PM");
    assert_eq!(row.comments, "1 comment");
}

#[test]
fn row_of_story_without_url() {
    let row = story_row(&story(None, 5, vec![]));
    assert_eq!(row.href, "");
    assert_eq!(row.hostname, "");
    assert_eq!(row.site_href, "https://news.ycombinator.com/from?site=");
    assert_eq!(row.score, "5 points");
    assert_eq!(row.comments, "0 comments");
}
