//! The feed pipeline's decisions.
//!
//! A filtered feed is produced in stages: the subreddit's feed document is
//! fetched (a client- or server-error status aborts), parsed, and its
//! entries' links read; every linked entry gets a score lookup, its link
//! first rewritten to the path the score endpoint expects; the entries are
//! then filtered — kept exactly when their resolved score reaches the
//! caller's minimum, in the original order — and the document is written
//! back out with that subset. Entries without a link resolve to no score
//! and are excluded without failing the request. The feed document and its
//! entries are atom_syndication's; what this library reads of an entry is
//! its first link, and what it changes of a feed is its entry list.

use vstd::prelude::*;

verus! {

#[verifier::external_type_specification]
#[verifier::external_body]
pub struct ExFeed(atom_syndication::Feed);

#[verifier::external_type_specification]
#[verifier::external_body]
pub struct ExEntry(atom_syndication::Entry);

/// The entries a feed document holds, in document order.
pub uninterp spec fn entries_of(f: atom_syndication::Feed) -> Seq<atom_syndication::Entry>;

/// The `href` of an entry's first link, when the entry has any link.
pub uninterp spec fn entry_link(e: atom_syndication::Entry) -> Option<Seq<char>>;

/// The feed a text denotes, when it parses as an Atom document.
pub uninterp spec fn feed_of(s: Seq<char>) -> Option<atom_syndication::Feed>;

/// Relies on atom_syndication::Feed::read_from: whether a text parses as
/// an Atom feed, and which document it denotes, depend on the text alone.
#[verifier::external_body]
fn read_feed(text: &str) -> (r: Option<atom_syndication::Feed>)
    ensures
        r == feed_of(text@),
{
    atom_syndication::Feed::read_from(text.as_bytes()).ok()
}

/// Relies on the public `entries` field of atom_syndication::Feed and the
/// derived Clone of Entry, which reproduces an entry field for field.
#[verifier::external_body]
fn feed_entries(f: &atom_syndication::Feed) -> (r: Vec<atom_syndication::Entry>)
    ensures
        r@ == entries_of(*f),
{
    f.entries.clone()
}

/// Relies on the public `entries` field of atom_syndication::Feed: the
/// returned feed is the given one with its entry list replaced.
#[verifier::external_body]
fn feed_with_entries(
    f: atom_syndication::Feed,
    entries: Vec<atom_syndication::Entry>,
) -> (r: atom_syndication::Feed)
    ensures
        entries_of(r) == entries@,
{
    let mut f = f;
    f.entries = entries;
    f
}

/// Relies on the public `links` field of atom_syndication::Entry and the
/// `href` field of its links.
#[verifier::external_body]
fn entry_first_link(e: &atom_syndication::Entry) -> (r: Option<String>)
    ensures
        match r {
            Some(s) => entry_link(*e) == Some(s@),
            None => entry_link(*e) is None,
        },
{
    e.links.first().map(|l| l.href.clone())
}

/// Why no filtered feed could be produced.
#[derive(Clone, Copy, Debug, PartialEq, Eq, Structural)]
pub enum FeedFetchError {
    /// The feed source answered with a client- or server-error status.
    BadStatus { status: u16 },
    /// The body did not parse as an Atom document.
    Unparsable,
}

/// The address of a subreddit's feed document.
pub fn feed_url(subreddit: &str) -> (r: String)
    ensures
        r@ == "https://reddit.com/"@ + subreddit@ + "/.rss"@,
{
    ("https://reddit.com/".to_owned()).concat(subreddit).concat("/.rss")
}

/// Whether the feed source's status allows reading the body: a client or
/// server error aborts the whole operation.
pub fn check_feed_status(status: u16) -> (r: Result<(), FeedFetchError>)
    ensures
        r == if 400 <= status < 600 {
            Err::<(), FeedFetchError>(FeedFetchError::BadStatus { status })
        } else {
            Ok::<(), FeedFetchError>(())
        },
{
    if 400 <= status && status < 600 {
        Err(FeedFetchError::BadStatus { status })
    } else {
        Ok(())
    }
}

/// Parses a feed document's text.
pub fn parse_feed(text: &str) -> (r: Result<atom_syndication::Feed, FeedFetchError>)
    ensures
        match r {
            Ok(f) => feed_of(text@) == Some(f),
            Err(e) => feed_of(text@) is None && e == FeedFetchError::Unparsable,
        },
{
    match read_feed(text) {
        Some(f) => Ok(f),
        None => Err(FeedFetchError::Unparsable),
    }
}

/// The first link of every entry, in entry order.
pub fn feed_links(feed: &atom_syndication::Feed) -> (r: Vec<Option<String>>)
    ensures
        r@.len() == entries_of(*feed).len(),
        forall|i: int|
            0 <= i < r@.len() ==> match #[trigger] r@[i] {
                Some(s) => entry_link(entries_of(*feed)[i]) == Some(s@),
                None => entry_link(entries_of(*feed)[i]) is None,
            },
{
    let entries = feed_entries(feed);
    let n = entries.len();
    let mut r: Vec<Option<String>> = Vec::new();
    let mut i: usize = 0;
    while i < n
        invariant
            0 <= i <= n == entries@.len(),
            entries@ == entries_of(*feed),
            r@.len() == i,
            forall|j: int|
                0 <= j < i ==> match #[trigger] r@[j] {
                    Some(s) => entry_link(entries_of(*feed)[j]) == Some(s@),
                    None => entry_link(entries_of(*feed)[j]) is None,
                },
        decreases n - i,
    {
        r.push(entry_first_link(&entries[i]));
        i = i + 1;
    }
    r
}

/// The entries kept by the filter: those whose score is resolved and at
/// least the minimum, in their original order. An unresolved score — an
/// entry without a link — is excluded and aborts nothing.
pub open spec fn spec_filter_entries(
    entries: Seq<atom_syndication::Entry>,
    scores: Seq<Option<u64>>,
    min_score: u64,
) -> Seq<atom_syndication::Entry>
    decreases entries.len(),
{
    if entries.len() == 0 {
        Seq::empty()
    } else {
        let rest = spec_filter_entries(entries.skip(1), scores.skip(1), min_score);
        match scores[0] {
            Some(s) => if s >= min_score {
                seq![entries[0]] + rest
            } else {
                rest
            },
            None => rest,
        }
    }
}

/// Law (anomaly handling): an entry whose score is unresolved — one
/// without a link — contributes nothing to the filtered feed: filtering
/// with it present equals filtering with it removed, and no such entry
/// fails the operation.
pub proof fn lemma_unscored_entry_excluded(
    entries: Seq<atom_syndication::Entry>,
    scores: Seq<Option<u64>>,
    min_score: u64,
    i: int,
)
    requires
        entries.len() == scores.len(),
        0 <= i < entries.len(),
        scores[i] is None,
    ensures
        spec_filter_entries(entries, scores, min_score) == spec_filter_entries(
            entries.remove(i),
            scores.remove(i),
            min_score,
        ),
    decreases i,
{
    if i == 0 {
        assert(entries.remove(0) =~= entries.skip(1));
        assert(scores.remove(0) =~= scores.skip(1));
    } else {
        lemma_unscored_entry_excluded(entries.skip(1), scores.skip(1), min_score, i - 1);
        assert(entries.remove(i).skip(1) =~= entries.skip(1).remove(i - 1));
        assert(scores.remove(i).skip(1) =~= scores.skip(1).remove(i - 1));
        assert(entries.remove(i)[0] == entries[0]);
        assert(scores.remove(i)[0] == scores[0]);
        assert(entries.skip(1)[i - 1] == entries[i]);
        assert(scores.skip(1)[i - 1] == scores[i]);
    }
}

/// Filters entries by their resolved scores.
pub fn filter_entries(
    entries: Vec<atom_syndication::Entry>,
    scores: &Vec<Option<u64>>,
    min_score: u64,
) -> (r: Vec<atom_syndication::Entry>)
    requires
        entries@.len() == scores@.len(),
    ensures
        r@ == spec_filter_entries(entries@, scores@, min_score),
{
    let ghost orig: Seq<atom_syndication::Entry> = entries@;
    let mut entries = entries;
    let mut r: Vec<atom_syndication::Entry> = Vec::new();
    let mut i: usize = 0;
    let n = scores.len();
    proof {
        assert(entries@.skip(0) =~= entries@);
        assert(scores@.skip(0) =~= scores@);
    }
    while i < n
        invariant
            0 <= i <= n == scores@.len(),
            entries@ =~= orig.skip(i as int),
            orig.len() == n,
            spec_filter_entries(orig, scores@, min_score) == r@ + spec_filter_entries(
                entries@,
                scores@.skip(i as int),
                min_score,
            ),
        decreases n - i,
    {
        proof {
            assert(orig.skip(i as int).skip(1) =~= orig.skip(i + 1));
            assert(scores@.skip(i as int).skip(1) =~= scores@.skip(i + 1));
            assert(orig.skip(i as int)[0] == orig[i as int]);
            assert(scores@.skip(i as int)[0] == scores@[i as int]);
        }
        let e = entries.remove(0);
        proof {
            assert(entries@ =~= orig.skip(i + 1));
        }
        match scores[i] {
            Some(s) => {
                if s >= min_score {
                    r.push(e);
                    proof {
                        assert(r@ =~= r@.drop_last().push(e));
                        assert(r@.drop_last() + (seq![e] + spec_filter_entries(
                            entries@,
                            scores@.skip(i + 1),
                            min_score,
                        )) =~= r@ + spec_filter_entries(entries@, scores@.skip(i + 1), min_score));
                    }
                }
            },
            None => {},
        }
        i = i + 1;
    }
    proof {
        assert(entries@.len() == 0);
        assert(spec_filter_entries(entries@, scores@.skip(n as int), min_score)
            == Seq::<atom_syndication::Entry>::empty());
        assert(r@ + Seq::<atom_syndication::Entry>::empty() =~= r@);
    }
    r
}

/// Produces the feed with exactly the entries whose resolved score is at
/// least `min_score`, in their original order; entries without a resolved
/// score are left out.
pub fn feed_filter(
    feed: atom_syndication::Feed,
    scores: &Vec<Option<u64>>,
    min_score: u64,
) -> (r: atom_syndication::Feed)
    requires
        scores@.len() == entries_of(feed).len(),
    ensures
        entries_of(r) == spec_filter_entries(entries_of(feed), scores@, min_score),
{
    let entries = feed_entries(&feed);
    let kept = filter_entries(entries, scores, min_score);
    feed_with_entries(feed, kept)
}

/// The prefix a post link carries on the public site; the score endpoint
/// wants the path without it.
pub open spec fn spec_site_prefix() -> Seq<char> {
    "https://www.reddit.com/"@
}

/// `s` carries `pat` at position `i`.
pub open spec fn spec_match_at(s: Seq<char>, pat: Seq<char>, i: int) -> bool {
    i + pat.len() <= s.len() && s.subrange(i, i + pat.len()) == pat
}

/// `s` with every occurrence of `pat` removed, scanning left to right.
pub open spec fn spec_strip_all(s: Seq<char>, pat: Seq<char>) -> Seq<char>
    decreases s.len(),
{
    if s.len() == 0 {
        s
    } else if 0 < pat.len() <= s.len() && s.take(pat.len() as int) == pat {
        spec_strip_all(s.skip(pat.len() as int), pat)
    } else {
        seq![s[0]] + spec_strip_all(s.skip(1), pat)
    }
}

/// `pat` read at position `i` of `s`.
fn matches_at(s: &str, pat: &str, i: usize) -> (r: bool)
    requires
        i <= s@.len(),
    ensures
        r == spec_match_at(s@, pat@, i as int),
{
    let n = s.unicode_len();
    let m = pat.unicode_len();
    if m > n - i {
        return false;
    }
    let mut j: usize = 0;
    while j < m
        invariant
            0 <= j <= m == pat@.len(),
            i + m <= n == s@.len(),
            forall|k: int| 0 <= k < j ==> s@[i + k] == pat@[k],
        decreases m - j,
    {
        if s.get_char(i + j) != pat.get_char(j) {
            proof {
                if spec_match_at(s@, pat@, i as int) {
                    assert(s@.subrange(i as int, i + pat@.len())[j as int] == s@[i + j]);
                }
            }
            return false;
        }
        j = j + 1;
    }
    proof {
        assert(s@.subrange(i as int, i + pat@.len()) =~= pat@);
    }
    true
}

/// Rewrites a post's public link to the path the score endpoint expects:
/// every occurrence of the public site prefix is removed. The result is
/// both the cache key and the request path.
pub fn canonicalize_url(url: &str) -> (r: String)
    ensures
        r@ == spec_strip_all(url@, spec_site_prefix()),
{
    let pat = "https://www.reddit.com/";
    let n = url.unicode_len();
    let m = pat.unicode_len();
    proof {
        reveal_strlit("https://www.reddit.com/");
        assert(m > 0);
    }
    let mut out = String::new();
    let mut seg_start: usize = 0;
    let mut i: usize = 0;
    proof {
        assert(url@.skip(0) =~= url@);
        assert(url@.subrange(0, 0) =~= Seq::<char>::empty());
    }
    while i < n
        invariant
            0 <= seg_start <= i <= n == url@.len(),
            m == pat@.len(),
            pat@ == spec_site_prefix(),
            0 < m,
            spec_strip_all(url@, spec_site_prefix()) == out@ + url@.subrange(
                seg_start as int,
                i as int,
            ) + spec_strip_all(url@.skip(i as int), spec_site_prefix()),
        decreases n - i,
    {
        proof {
            assert(url@.skip(i as int).len() == n - i);
        }
        if matches_at(url, pat, i) {
            out.append(url.substring_char(seg_start, i));
            proof {
                let rest = url@.skip(i as int);
                assert(rest.take(m as int) =~= url@.subrange(i as int, i + m));
                assert(rest.take(m as int) == pat@);
                assert(rest.skip(m as int) =~= url@.skip(i + m));
                assert(spec_strip_all(rest, spec_site_prefix()) == spec_strip_all(
                    url@.skip(i + m),
                    spec_site_prefix(),
                ));
                assert(url@.subrange(i + m, i + m) =~= Seq::<char>::empty());
            }
            i = i + m;
            seg_start = i;
        } else {
            proof {
                let rest = url@.skip(i as int);
                assert(rest.len() > 0);
                if 0 < m <= rest.len() && rest.take(m as int) == pat@ {
                    assert(rest.take(m as int) =~= url@.subrange(i as int, i + m));
                    assert(spec_match_at(url@, pat@, i as int));
                }
                assert(rest[0] == url@[i as int]);
                assert(rest.skip(1) =~= url@.skip(i + 1));
                assert(spec_strip_all(rest, spec_site_prefix()) == seq![url@[i as int]]
                    + spec_strip_all(url@.skip(i + 1), spec_site_prefix()));
                assert(url@.subrange(seg_start as int, i + 1) =~= url@.subrange(
                    seg_start as int,
                    i as int,
                ).push(url@[i as int]));
                assert(url@.subrange(seg_start as int, i as int) + (seq![url@[i as int]]
                    + spec_strip_all(url@.skip(i + 1), spec_site_prefix())) =~= url@.subrange(
                    seg_start as int,
                    i + 1,
                ) + spec_strip_all(url@.skip(i + 1), spec_site_prefix()));
            }
            i = i + 1;
        }
    }
    out.append(url.substring_char(seg_start, n));
    proof {
        assert(url@.skip(n as int) =~= Seq::<char>::empty());
        assert(spec_strip_all(url@.skip(n as int), spec_site_prefix())
            == Seq::<char>::empty());
        assert(out@ + url@.subrange(seg_start as int, n as int) + Seq::<char>::empty() =~= out@
            + url@.subrange(seg_start as int, n as int));
    }
    out
}

} // verus!
