//! The shape of a score response.
//!
//! The score endpoint answers with a list of comment-thread objects; each
//! thread holds `data.children`, and each child is one of exactly four
//! things: a typed comment item carrying `data.score`, a plain string, a
//! nested thread, or an unrecognized value. The score of the first child
//! of the first thread is authoritative; every other shape is a named
//! parse failure.

use vstd::prelude::*;

use crate::json::{json_doc, member, parse_json_text, spec_member, JsonVal};

verus! {

/// What a child of a comment thread turns out to be, tried in this order:
/// a typed comment item, a plain string, a nested thread, anything else.
#[derive(Clone, Copy, Debug, PartialEq, Eq, Structural)]
pub enum CommentChild {
    Item { score: u64 },
    Text,
    Thread,
    Unknown,
}

/// Why a score response was rejected.
#[derive(Clone, Copy, Debug, PartialEq, Eq, Structural)]
pub enum ResponseShapeError {
    /// The body is not JSON at all.
    NotJson,
    /// The body is JSON but not a list of comment-thread objects.
    NotCommentList,
    /// The list of threads is empty.
    EmptyThreads,
    /// The first thread has no children.
    NoChildren,
    /// The first child is a string or a nested thread, not a comment item.
    ChildNotItem,
    /// The first child is of no recognized kind.
    ChildUnknown,
}

/// The children of a comment-thread object: an object whose `data` member
/// is an object whose `children` member is an array. Anything else is not
/// a thread.
pub open spec fn spec_thread_children(v: JsonVal) -> Option<Seq<JsonVal>> {
    match v {
        JsonVal::Obj(ms) => match spec_member(ms@, "data"@) {
            Some(JsonVal::Obj(dms)) => match spec_member(dms@, "children"@) {
                Some(JsonVal::Arr(cs)) => Some(cs@),
                _ => None,
            },
            _ => None,
        },
        _ => None,
    }
}

/// The score of a typed comment item: an object whose `data` member is an
/// object whose `score` member is a number that reads as `u64`. Anything
/// else is not an item.
pub open spec fn spec_item_score(v: JsonVal) -> Option<u64> {
    match v {
        JsonVal::Obj(ms) => match spec_member(ms@, "data"@) {
            Some(JsonVal::Obj(dms)) => match spec_member(dms@, "score"@) {
                Some(JsonVal::Num(n)) => n.as_u64,
                _ => None,
            },
            _ => None,
        },
        _ => None,
    }
}

/// Which of the four child kinds a value is, tried in the order the item
/// kinds are listed: item, string, nested thread, unknown.
pub open spec fn spec_classify_child(v: JsonVal) -> CommentChild {
    match spec_item_score(v) {
        Some(score) => CommentChild::Item { score },
        None => if v is Str {
            CommentChild::Text
        } else if spec_thread_children(v) is Some {
            CommentChild::Thread
        } else {
            CommentChild::Unknown
        },
    }
}

/// Every element of the list is a comment-thread object.
pub open spec fn spec_threads_ok(ts: Seq<JsonVal>) -> bool
    decreases ts.len(),
{
    if ts.len() == 0 {
        true
    } else {
        spec_thread_children(ts[0]) is Some && spec_threads_ok(ts.skip(1))
    }
}

/// The score a parsed document yields, or the error naming what is wrong
/// with its shape.
pub open spec fn spec_extract_score(doc: JsonVal) -> Result<u64, ResponseShapeError> {
    match doc {
        JsonVal::Arr(ts) => if !spec_threads_ok(ts@) {
            Err(ResponseShapeError::NotCommentList)
        } else if ts@.len() == 0 {
            Err(ResponseShapeError::EmptyThreads)
        } else {
            match spec_thread_children(ts@[0]) {
                Some(cs) => if cs.len() == 0 {
                    Err(ResponseShapeError::NoChildren)
                } else {
                    match spec_classify_child(cs[0]) {
                        CommentChild::Item { score } => Ok(score),
                        CommentChild::Text => Err(ResponseShapeError::ChildNotItem),
                        CommentChild::Thread => Err(ResponseShapeError::ChildNotItem),
                        CommentChild::Unknown => Err(ResponseShapeError::ChildUnknown),
                    }
                },
                None => Err(ResponseShapeError::NotCommentList),
            }
        },
        _ => Err(ResponseShapeError::NotCommentList),
    }
}

/// What a score body yields: the parse of the text, then the shape check.
pub open spec fn spec_parse_score_body(s: Seq<char>) -> Result<u64, ResponseShapeError> {
    match json_doc(s) {
        None => Err(ResponseShapeError::NotJson),
        Some(doc) => spec_extract_score(doc),
    }
}

/// The children of a thread-shaped value.
pub fn thread_children<'a>(v: &'a JsonVal) -> (r: Option<&'a Vec<JsonVal>>)
    ensures
        match r {
            Some(cs) => spec_thread_children(*v) == Some(cs@),
            None => spec_thread_children(*v) is None,
        },
{
    let data_key: String = "data".to_owned();
    let children_key: String = "children".to_owned();
    match v {
        JsonVal::Obj(ms) => match member(ms, &data_key) {
            Some(JsonVal::Obj(dms)) => match member(dms, &children_key) {
                Some(JsonVal::Arr(cs)) => Some(cs),
                _ => None,
            },
            _ => None,
        },
        _ => None,
    }
}

/// The score of an item-shaped value.
pub fn item_score(v: &JsonVal) -> (r: Option<u64>)
    ensures
        r == spec_item_score(*v),
{
    let data_key: String = "data".to_owned();
    let score_key: String = "score".to_owned();
    match v {
        JsonVal::Obj(ms) => match member(ms, &data_key) {
            Some(JsonVal::Obj(dms)) => match member(dms, &score_key) {
                Some(JsonVal::Num(n)) => n.as_u64,
                _ => None,
            },
            _ => None,
        },
        _ => None,
    }
}

/// Classifies one child of a thread.
pub fn classify_child(v: &JsonVal) -> (r: CommentChild)
    ensures
        r == spec_classify_child(*v),
{
    match item_score(v) {
        Some(score) => CommentChild::Item { score },
        None => match v {
            JsonVal::Str(_) => CommentChild::Text,
            _ => if thread_children(v).is_some() {
                CommentChild::Thread
            } else {
                CommentChild::Unknown
            },
        },
    }
}

/// Extracts the authoritative score from a parsed document: the document
/// must be a list of thread objects, the list and the first thread's
/// children must be non-empty, and the first child must be a typed
/// comment item.
pub fn extract_score(doc: &JsonVal) -> (r: Result<u64, ResponseShapeError>)
    ensures
        r == spec_extract_score(*doc),
{
    match doc {
        JsonVal::Arr(ts) => {
            proof {
                assert(*doc == JsonVal::Arr(*ts));
            }
            let n = ts.len();
            let mut i: usize = 0;
            proof {
                assert(ts@.skip(0) =~= ts@);
            }
            while i < n
                invariant
                    *doc == JsonVal::Arr(*ts),
                    0 <= i <= n == ts@.len(),
                    spec_threads_ok(ts@) == spec_threads_ok(ts@.skip(i as int)),
                decreases n - i,
            {
                proof {
                    assert(ts@.skip(i as int)[0] == ts@[i as int]);
                    assert(ts@.skip(i as int).skip(1) =~= ts@.skip(i + 1));
                }
                if thread_children(&ts[i]).is_none() {
                    return Err(ResponseShapeError::NotCommentList);
                }
                i = i + 1;
            }
            proof {
                assert(ts@.skip(n as int) =~= Seq::<JsonVal>::empty());
            }
            if n == 0 {
                return Err(ResponseShapeError::EmptyThreads);
            }
            proof {
                assert(ts@.skip(0) =~= ts@);
                assert(spec_thread_children(ts@[0]) is Some);
            }
            let first = &ts[0];
            let cs = match thread_children(first) {
                Some(cs) => cs,
                None => {
                    proof {
                        assert(false);
                    }
                    return Err(ResponseShapeError::NotCommentList);
                },
            };
            if cs.len() == 0 {
                return Err(ResponseShapeError::NoChildren);
            }
            match classify_child(&cs[0]) {
                CommentChild::Item { score } => Ok(score),
                CommentChild::Text => Err(ResponseShapeError::ChildNotItem),
                CommentChild::Thread => Err(ResponseShapeError::ChildNotItem),
                CommentChild::Unknown => Err(ResponseShapeError::ChildUnknown),
            }
        },
        _ => Err(ResponseShapeError::NotCommentList),
    }
}

/// Parses a score body and extracts the score: the exact behaviour of a
/// score lookup on the text of a successful response.
pub fn parse_score_body(body: &str) -> (r: Result<u64, ResponseShapeError>)
    ensures
        r == spec_parse_score_body(body@),
{
    match parse_json_text(body) {
        None => Err(ResponseShapeError::NotJson),
        Some(doc) => extract_score(&doc),
    }
}

} // verus!
