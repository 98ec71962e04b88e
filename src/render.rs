//! What the preview pane shows: a hint, a loading text, or a story with its
//! comment tree laid out depth first.

use vstd::prelude::*;
use crate::listing::href_of;
use crate::model::Comment;
use crate::preview::{PreviewModel, PreviewState};

verus! {

/// One comment as the pane shows it: id, author line, HTML body, and nesting depth.
#[derive(Clone, Debug)]
pub struct CommentBlock {
    pub id: i64,
    pub author: String,
    pub text: String,
    pub depth: usize,
}

impl View for CommentBlock {
    type V = (i64, Seq<char>, Seq<char>, nat);

    open spec fn view(&self) -> (i64, Seq<char>, Seq<char>, nat) {
        (self.id, self.author@, self.text@, self.depth as nat)
    }
}

/// The views of a sequence of blocks.
pub open spec fn block_views(bs: Seq<CommentBlock>) -> Seq<(i64, Seq<char>, Seq<char>, nat)> {
    bs.map_values(|b: CommentBlock| b@)
}

/// The block of one comment at `depth`.
pub open spec fn block_of(c: Comment, depth: nat) -> (i64, Seq<char>, Seq<char>, nat) {
    (c.id, "by "@ + c.by@, c.text@, depth)
}

/// The blocks of `cs` and of all their replies, depth first: each comment, then
/// its replies one level deeper, then the next comment.
pub open spec fn blocks_of(cs: Seq<Comment>, depth: nat) -> Seq<(i64, Seq<char>, Seq<char>, nat)>
    decreases cs,
{
    if cs.len() == 0 {
        Seq::empty()
    } else {
        let last = cs.last();
        blocks_of(cs.drop_last(), depth) + seq![block_of(last, depth)] + blocks_of(
            last.sub_comments@,
            depth + 1,
        )
    }
}

/// Appends the blocks of `cs` at `depth` to `out`.
fn push_comment_blocks(cs: &Vec<Comment>, depth: usize, out: &mut Vec<CommentBlock>)
    requires
        depth <= old(out)@.len(),
    ensures
        block_views(final(out)@) == block_views(old(out)@) + blocks_of(cs@, depth as nat),
    decreases cs,
{
    let mut i: usize = 0;
    while i < cs.len()
        invariant
            i <= cs@.len(),
            depth <= old(out)@.len() <= out@.len(),
            block_views(out@) == block_views(old(out)@) + blocks_of(
                cs@.subrange(0, i as int),
                depth as nat,
            ),
        decreases cs@.len() - i,
    {
        let c = &cs[i];
        let ghost before = out@;
        let author = String::from_str("by ").concat(c.by.as_str());
        out.push(CommentBlock { id: c.id, author, text: c.text.clone(), depth });
        assert(block_views(out@) =~= block_views(before).push(block_of(*c, depth as nat)));
        // The block count fits a usize and exceeds `depth`, so `depth + 1` does not overflow.
        let count = out.len();
        assert(depth < count);
        proof {
            assert(decreases_to!(cs => cs@));
            assert(decreases_to!(cs@ => cs@[i as int]));
        }
        push_comment_blocks(&c.sub_comments, depth + 1, out);
        proof {
            let s = cs@.subrange(0, i + 1);
            assert(s.drop_last() =~= cs@.subrange(0, i as int));
            assert(s.last() == *c);
        }
        assert(block_views(out@) =~= block_views(old(out)@) + blocks_of(
            cs@.subrange(0, i + 1),
            depth as nat,
        ));
        i += 1;
    }
    assert(cs@.subrange(0, cs@.len() as int) =~= cs@);
}

/// The blocks of a comment tree, depth first, with the top-level comments at depth 0.
pub fn comment_blocks(comments: &Vec<Comment>) -> (r: Vec<CommentBlock>)
    ensures
        block_views(r@) == blocks_of(comments@, 0),
{
    let mut out: Vec<CommentBlock> = Vec::new();
    push_comment_blocks(comments, 0, &mut out);
    assert(block_views(out@) =~= blocks_of(comments@, 0));
    out
}

/// The text of the pane before anything was selected.
pub open spec fn hint_text() -> Seq<char> {
    "Hover over a story to preview it here"@
}

/// The text of the pane while a fetch is in flight.
pub open spec fn loading_text() -> Seq<char> {
    "Loading\u{2026}"@
}

/// The body of an item, empty where it has none.
pub open spec fn body_of(text: Option<String>) -> Seq<char> {
    match text {
        Some(t) => t@,
        None => Seq::empty(),
    }
}

/// A loaded story as the pane shows it: the title linked to the story's URL, the
/// raw HTML body, then the comment blocks.
#[derive(Clone, Debug)]
pub struct StoryPreview {
    pub title: String,
    pub href: String,
    pub body: String,
    pub comments: Vec<CommentBlock>,
}

/// What the preview pane shows.
#[derive(Clone, Debug)]
pub enum PreviewPane {
    Hint(String),
    Loading(String),
    Story(StoryPreview),
}

/// The preview pane for a preview state.
pub fn preview_pane(state: &PreviewState) -> (r: PreviewPane)
    ensures
        match state@ {
            PreviewModel::Unset => r matches PreviewPane::Hint(t) && t@ == hint_text(),
            PreviewModel::Loading => r matches PreviewPane::Loading(t) && t@ == loading_text(),
            PreviewModel::Loaded(d) => r matches PreviewPane::Story(p) && p.title@ == d.item.title@
                && p.href@ == href_of(d.item.url) && p.body@ == body_of(d.text) && block_views(
                p.comments@,
            ) == blocks_of(d.comments@, 0),
        },
{
    match state {
        PreviewState::Unset => PreviewPane::Hint(
            String::from_str("Hover over a story to preview it here"),
        ),
        PreviewState::Loading => PreviewPane::Loading(String::from_str("Loading\u{2026}")),
        PreviewState::Loaded(d) => {
            let href = match &d.item.url {
                Some(u) => u.clone(),
                None => String::new(),
            };
            let body = match &d.text {
                Some(t) => t.clone(),
                None => String::new(),
            };
            PreviewPane::Story(
                StoryPreview {
                    title: d.item.title.clone(),
                    href,
                    body,
                    comments: comment_blocks(&d.comments),
                },
            )
        },
    }
}

} // verus!
