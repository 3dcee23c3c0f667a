use vstd::prelude::*;
use crate::musicdata::MusicData;

verus! {

/// ASCII lower case of one character: 'A' to 'Z' become 'a' to 'z', every
/// other character stays.
pub open spec fn ascii_lower_char(c: char) -> char {
    if 'A' <= c && c <= 'Z' {
        ((c as u32) + 32) as char
    } else {
        c
    }
}

pub open spec fn ascii_lower(s: Seq<char>) -> Seq<char> {
    s.map_values(|c: char| ascii_lower_char(c))
}

/// Whether `needle` occurs as a contiguous part of `hay`.
pub open spec fn is_substring(needle: Seq<char>, hay: Seq<char>) -> bool {
    exists|i: int| 0 <= i && i + needle.len() <= hay.len() && #[trigger] hay.subrange(i, i + needle.len()) == needle
}

/// Relies on str::to_ascii_lowercase: ASCII letters are mapped to lower case,
/// all other characters are unchanged.
#[verifier::external_body]
fn to_ascii_lower(s: &str) -> (r: String)
    ensures
        r@ == ascii_lower(s@),
{
    s.to_ascii_lowercase()
}

/// Relies on str::contains with a `&str` pattern: true exactly when the
/// pattern occurs as a sub-slice.
#[verifier::external_body]
fn str_contains(hay: &str, needle: &str) -> (r: bool)
    ensures
        r == is_substring(needle@, hay@),
{
    hay.contains(needle)
}

/// Optional case-insensitive substring constraints on a track's fields; an
/// absent constraint accepts everything.
pub struct Filter {
    pub title: Option<String>,
    pub artist: Option<String>,
    pub album: Option<String>,
}

/// Whether one field value meets one optional constraint.
pub open spec fn field_accepts(constraint: Option<String>, value: Seq<char>) -> bool {
    match constraint {
        None => true,
        Some(c) => is_substring(ascii_lower(c@), ascii_lower(value)),
    }
}

fn field_matches(constraint: &Option<String>, value: &String) -> (r: bool)
    ensures
        r == field_accepts(*constraint, value@),
{
    match constraint {
        None => true,
        Some(c) => {
            let v = to_ascii_lower(value.as_str());
            let n = to_ascii_lower(c.as_str());
            str_contains(v.as_str(), n.as_str())
        },
    }
}

impl Filter {
    /// The filter that accepts every track.
    pub fn new() -> (r: Filter)
        ensures
            r.title is None,
            r.artist is None,
            r.album is None,
    {
        Filter { title: None, artist: None, album: None }
    }

    pub open spec fn accepts(&self, item: MusicData) -> bool {
        &&& field_accepts(self.album, item.album@)
        &&& field_accepts(self.artist, item.artist@)
        &&& field_accepts(self.title, item.title@)
    }

    /// Whether a track passes every constraint of the filter.
    pub fn apply(&self, item: &MusicData) -> (r: bool)
        ensures
            r == self.accepts(*item),
    {
        if !field_matches(&self.album, &item.album) {
            return false;
        }
        if !field_matches(&self.artist, &item.artist) {
            return false;
        }
        field_matches(&self.title, &item.title)
    }
}

/// The tracks of `s` that the filter accepts, in their order: the visible set.
pub open spec fn visible(f: Filter, s: Seq<MusicData>) -> Seq<MusicData>
    decreases s.len(),
{
    if s.len() == 0 {
        Seq::empty()
    } else {
        let rest = visible(f, s.drop_last());
        if f.accepts(s.last()) {
            rest.push(s.last())
        } else {
            rest
        }
    }
}

/// The positions in `s` of the tracks of the visible set, in their order.
pub open spec fn visible_indices(f: Filter, s: Seq<MusicData>) -> Seq<int>
    decreases s.len(),
{
    if s.len() == 0 {
        Seq::empty()
    } else {
        let rest = visible_indices(f, s.drop_last());
        if f.accepts(s.last()) {
            rest.push(s.len() - 1)
        } else {
            rest
        }
    }
}

/// The positions of the visible set are increasing, in bounds, and point at
/// exactly the tracks of the visible set.
pub proof fn lemma_visible_indices(f: Filter, s: Seq<MusicData>)
    ensures
        visible_indices(f, s).len() == visible(f, s).len(),
        forall|k: int|
            0 <= k < visible_indices(f, s).len() ==> 0 <= #[trigger] visible_indices(f, s)[k] < s.len()
                && s[visible_indices(f, s)[k]] == visible(f, s)[k],
        forall|k: int, j: int|
            0 <= k < j < visible_indices(f, s).len() ==> visible_indices(f, s)[k]
                < visible_indices(f, s)[j],
    decreases s.len(),
{
    if s.len() > 0 {
        lemma_visible_indices(f, s.drop_last());
    }
}

proof fn lemma_visible_all_accepted(f: Filter, s: Seq<MusicData>)
    ensures
        forall|k: int| 0 <= k < visible(f, s).len() ==> f.accepts(#[trigger] visible(f, s)[k]),
    decreases s.len(),
{
    if s.len() > 0 {
        let rest = visible(f, s.drop_last());
        lemma_visible_all_accepted(f, s.drop_last());
        assert forall|k: int| 0 <= k < visible(f, s).len() implies f.accepts(
            #[trigger] visible(f, s)[k],
        ) by {
            if k < rest.len() {
                assert(visible(f, s)[k] == rest[k]);
            }
        }
    }
}

proof fn lemma_visible_of_accepted(f: Filter, s: Seq<MusicData>)
    requires
        forall|k: int| 0 <= k < s.len() ==> f.accepts(#[trigger] s[k]),
    ensures
        visible(f, s) == s,
    decreases s.len(),
{
    if s.len() > 0 {
        lemma_visible_of_accepted(f, s.drop_last());
        assert(s.drop_last().push(s.last()) =~= s);
    }
}

/// Filtering is idempotent: filtering the visible set again by the same
/// criteria gives the same set.
pub proof fn lemma_filter_idempotent(f: Filter, s: Seq<MusicData>)
    ensures
        visible(f, visible(f, s)) == visible(f, s),
{
    lemma_visible_all_accepted(f, s);
    lemma_visible_of_accepted(f, visible(f, s));
}

impl Filter {
    /// Positions of the tracks the filter accepts, in library order.
    pub fn visible_rows(&self, tracks: &Vec<MusicData>) -> (r: Vec<usize>)
        ensures
            r@.len() == visible_indices(*self, tracks@).len(),
            forall|k: int| 0 <= k < r@.len() ==> r@[k] as int == #[trigger] visible_indices(*self, tracks@)[k],
    {
        let mut r: Vec<usize> = Vec::new();
        let mut i: usize = 0;
        while i < tracks.len()
            invariant
                i <= tracks@.len(),
                r@.len() == visible_indices(*self, tracks@.subrange(0, i as int)).len(),
                forall|k: int|
                    0 <= k < r@.len() ==> r@[k] as int == #[trigger] visible_indices(
                        *self,
                        tracks@.subrange(0, i as int),
                    )[k],
            decreases tracks@.len() - i,
        {
            let ghost before = tracks@.subrange(0, i as int);
            let ghost after = tracks@.subrange(0, i + 1);
            assert(after.drop_last() =~= before);
            if self.apply(&tracks[i]) {
                r.push(i);
            }
            i = i + 1;
        }
        assert(tracks@.subrange(0, tracks@.len() as int) =~= tracks@);
        r
    }
}

} // verus!
