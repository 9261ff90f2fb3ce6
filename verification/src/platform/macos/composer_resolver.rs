//! Choosing the composer among scored candidates: the best candidate wins
//! only when it clears the threshold and leads every other eligible one by
//! the margin. Which candidates are eligible at all is decided here too,
//! but for the geometry of their frames, which the caller measures.
use crate::targets::opt_text;
use crate::text::{chars_of, str_eq};
use vstd::prelude::*;

verus! {

/// The score a composer must reach.
pub const ABSOLUTE_THRESHOLD: i32 = 75;

/// How far the composer must lead every other candidate.
pub const AMBIGUITY_MARGIN: i32 = 18;

/// Why no composer was chosen.
#[derive(Clone, Copy, Debug, PartialEq, Eq, Structural)]
pub enum ComposerResolutionError {
    NotFound,
    Ambiguous,
}

/// Whether candidate `i` is eligible and reaches the threshold.
pub open spec fn qualifies(scores: Seq<Option<i32>>, i: int, threshold: i32) -> bool {
    0 <= i < scores.len() && match scores[i] {
        Some(s) => s >= threshold,
        None => false,
    }
}

/// Whether candidate `i` qualifies and leads every other qualifying one by
/// at least `margin`.
pub open spec fn clear_winner(scores: Seq<Option<i32>>, i: int, threshold: i32, margin: i32) -> bool {
    &&& qualifies(scores, i, threshold)
    &&& forall|j: int|
        j != i && #[trigger] qualifies(scores, j, threshold) ==> scores[i].unwrap() - scores[j].unwrap()
            >= margin
}

/// The choice among scored candidates (`None` for one that is not eligible):
/// none qualifying is `NotFound`; a clear winner is chosen; anything else is
/// `Ambiguous`.
pub open spec fn selection_spec(
    scores: Seq<Option<i32>>,
    threshold: i32,
    margin: i32,
    r: Result<usize, ComposerResolutionError>,
) -> bool {
    match r {
        Ok(i) => clear_winner(scores, i as int, threshold, margin),
        Err(ComposerResolutionError::NotFound) => forall|i: int| !#[trigger] qualifies(scores, i, threshold),
        Err(ComposerResolutionError::Ambiguous) => (exists|i: int| #[trigger] qualifies(scores, i, threshold))
            && forall|i: int| !#[trigger] clear_winner(scores, i, threshold, margin),
    }
}

/// Chooses the candidate that qualifies and leads every other qualifying one
/// by `margin`.
pub fn select_unambiguous(scores: &Vec<Option<i32>>, threshold: i32, margin: i32) -> (r: Result<usize, ComposerResolutionError>)
    requires
        margin > 0,
    ensures
        selection_spec(scores@, threshold, margin, r),
{
    let mut best: Option<usize> = None;
    let mut i: usize = 0;
    while i < scores.len()
        invariant
            i <= scores.len(),
            best matches Some(b) ==> b < i && qualifies(scores@, b as int, threshold) && forall|j: int|
                0 <= j < i && qualifies(scores@, j, threshold) ==> scores@[j].unwrap() <= scores@[b as int].unwrap(),
            best is None ==> forall|j: int| 0 <= j < i ==> !qualifies(scores@, j, threshold),
        decreases scores.len() - i,
    {
        match scores[i] {
            Some(s) => if s >= threshold {
                match best {
                    Some(b) => {
                        let bs = match scores[b] {
                            Some(v) => v,
                            None => 0,
                        };
                        if s > bs {
                            best = Some(i);
                        }
                    },
                    None => {
                        best = Some(i);
                    },
                }
            },
            None => {},
        }
        i = i + 1;
    }
    let b = match best {
        Some(b) => b,
        None => {
            return Err(ComposerResolutionError::NotFound);
        },
    };
    let best_score: i64 = match scores[b] {
        Some(v) => v as i64,
        None => 0,
    };
    let mut k: usize = 0;
    while k < scores.len()
        invariant
            k <= scores.len(),
            b < scores.len(),
            margin > 0,
            qualifies(scores@, b as int, threshold),
            best_score == scores@[b as int].unwrap(),
            forall|j: int| 0 <= j < scores@.len() && qualifies(scores@, j, threshold) ==> scores@[j].unwrap() <= best_score,
            forall|j: int|
                0 <= j < k && j != b && #[trigger] qualifies(scores@, j, threshold) ==> best_score - scores@[j].unwrap() >= margin,
        decreases scores.len() - k,
    {
        if k != b {
            match scores[k] {
                Some(s) => if s >= threshold && best_score - (s as i64) < margin as i64 {
                    proof {
                        assert forall|w: int| !#[trigger] clear_winner(scores@, w, threshold, margin) by {
                            if clear_winner(scores@, w, threshold, margin) {
                                if w == b as int {
                                    assert(qualifies(scores@, k as int, threshold));
                                } else {
                                    assert(qualifies(scores@, b as int, threshold));
                                    assert(scores@[w].unwrap() <= best_score);
                                    assert(scores@[w].unwrap() - best_score >= margin);
                                }
                            }
                        }
                    }
                    return Err(ComposerResolutionError::Ambiguous);
                },
                None => {},
            }
        }
        k = k + 1;
    }
    Ok(b)
}

/// Chooses the composer among scored candidates with this module's
/// threshold and margin.
pub fn resolve_composer_scores(scores: &Vec<Option<i32>>) -> (r: Result<usize, ComposerResolutionError>)
    ensures
        selection_spec(scores@, ABSOLUTE_THRESHOLD, AMBIGUITY_MARGIN, r),
{
    select_unambiguous(scores, ABSOLUTE_THRESHOLD, AMBIGUITY_MARGIN)
}

/// The lowest score an editable element needs to be chosen natively.
pub const EDITABLE_MIN_SCORE: i32 = 80;

/// How far the chosen editable element must lead the others.
pub const EDITABLE_MIN_SCORE_MARGIN: i32 = 15;

/// Chooses the editable element among scored ones: the clear winner, or
/// none.
pub fn select_editable_candidate(scores: &Vec<Option<i32>>) -> (r: Option<usize>)
    ensures
        match r {
            Some(i) => clear_winner(scores@, i as int, EDITABLE_MIN_SCORE, EDITABLE_MIN_SCORE_MARGIN),
            None => forall|i: int| !#[trigger] clear_winner(scores@, i, EDITABLE_MIN_SCORE, EDITABLE_MIN_SCORE_MARGIN),
        },
{
    match select_unambiguous(scores, EDITABLE_MIN_SCORE, EDITABLE_MIN_SCORE_MARGIN) {
        Ok(i) => Some(i),
        Err(_) => None,
    }
}

/// The candidate a selection chooses is unique: no other candidate is a
/// clear winner too.
pub proof fn lemma_clear_winner_unique(scores: Seq<Option<i32>>, threshold: i32, margin: i32, i: int, j: int)
    requires
        margin > 0,
        clear_winner(scores, i, threshold, margin),
        clear_winner(scores, j, threshold, margin),
    ensures
        i == j,
{
    if i != j {
        assert(qualifies(scores, j, threshold));
        assert(qualifies(scores, i, threshold));
    }
}


/// An element that may be the composer, as the accessibility tree reports
/// it; `F` is the type of its frame.
#[derive(Clone, Debug)]
pub struct ComposerCandidate<F> {
    pub owner_pid: u32,
    pub role: String,
    pub subrole: Option<String>,
    pub identifier: Option<String>,
    pub title: Option<String>,
    pub description: Option<String>,
    pub placeholder: Option<String>,
    pub help: Option<String>,
    pub frame: F,
    pub enabled: bool,
    pub visible: bool,
    pub focused: bool,
    pub window_matches: bool,
    pub editable: bool,
    pub secure: bool,
    pub depth: usize,
}

/// What `str::to_lowercase` gives for a text.
pub uninterp spec fn lowercase_of(s: Seq<char>) -> Seq<char>;

/// Lowercases a text with `str::to_lowercase`. The contract names the
/// result; the Unicode case mapping is not restated.
#[verifier::external_body]
fn to_lowercase(s: &str) -> (r: String)
    ensures
        r@ == lowercase_of(s@),
{
    s.to_lowercase()
}

/// Whether `needle` occurs in `hay`.
pub open spec fn seq_contains(hay: Seq<char>, needle: Seq<char>) -> bool {
    exists|i: int| 0 <= i && i + needle.len() <= hay.len() && #[trigger] hay.subrange(i, i + needle.len()) == needle
}

fn contains_chars(hay: &Vec<char>, needle: &Vec<char>) -> (r: bool)
    ensures
        r == seq_contains(hay@, needle@),
{
    if needle.len() == 0 {
        assert(hay@.subrange(0, 0 + needle@.len() as int) =~= needle@);
        return true;
    }
    if needle.len() > hay.len() {
        return false;
    }
    let last = hay.len() - needle.len();
    let mut i: usize = 0;
    while i <= last
        invariant
            last == hay.len() - needle.len(),
            0 < needle.len() <= hay.len(),
            i <= last + 1,
            forall|k: int| 0 <= k < i ==> #[trigger] hay@.subrange(k, k + needle@.len()) != needle@,
        decreases last + 1 - i,
    {
        let mut j: usize = 0;
        let mut same = true;
        while j < needle.len()
            invariant
                i <= last,
                last == hay.len() - needle.len(),
                j <= needle.len(),
                same == forall|m: int| 0 <= m < j ==> hay@[i + m] == needle@[m],
            decreases needle.len() - j,
        {
            if hay[i + j] != needle[j] {
                same = false;
            }
            j = j + 1;
        }
        if same {
            assert(hay@.subrange(i as int, i + needle@.len()) =~= needle@);
            return true;
        }
        proof {
            let m = choose|m: int| 0 <= m < needle.len() && hay@[i + m] != needle@[m];
            assert(hay@.subrange(i as int, i + needle@.len())[m] != needle@[m]);
        }
        i = i + 1;
    }
    proof {
        assert forall|k: int| 0 <= k && k + needle@.len() <= hay@.len() implies #[trigger] hay@.subrange(
            k,
            k + needle@.len(),
        ) != needle@ by {
            assert(k < i);
        }
    }
    false
}

/// The words that mark a field as a search or filter field.
pub open spec fn search_words() -> Seq<Seq<char>> {
    seq!["search"@, "find"@, "filter"@, "搜索"@, "查找"@, "联系人"@]
}

/// Whether a text, lowercased, holds one of the search words.
pub open spec fn text_has_search_word(text: Seq<char>) -> bool {
    exists|w: int| 0 <= w < search_words().len() && seq_contains(lowercase_of(text), #[trigger] search_words()[w])
}

/// The texts of a candidate that may say what it is for.
pub open spec fn candidate_texts<F>(c: ComposerCandidate<F>) -> Seq<Option<Seq<char>>> {
    seq![opt_text(c.identifier), opt_text(c.title), opt_text(c.description), opt_text(c.placeholder), opt_text(c.help)]
}

/// Whether any text of the candidate marks it as a search field.
pub open spec fn search_semantics_spec<F>(c: ComposerCandidate<F>) -> bool {
    exists|t: int|
        0 <= t < 5 && (#[trigger] candidate_texts(c)[t]) is Some && text_has_search_word(
            candidate_texts(c)[t]->0,
        )
}

fn text_has_search_word_exec(text: &Option<String>) -> (r: bool)
    ensures
        r == (opt_text(*text) matches Some(t) && text_has_search_word(t)),
{
    let t = match text {
        Some(t) => t,
        None => {
            return false;
        },
    };
    let lower = to_lowercase(t.as_str());
    let hay = chars_of(lower.as_str());
    let words: [&str; 6] = ["search", "find", "filter", "搜索", "查找", "联系人"];
    let ghost sw = search_words();
    assert(sw.len() == 6);
    let mut w: usize = 0;
    while w < 6
        invariant
            hay@ == lowercase_of(t@),
            opt_text(*text) == Some(t@),
            words@ == seq!["search", "find", "filter", "搜索", "查找", "联系人"],
            sw == search_words(),
            forall|k: int| 0 <= k < w ==> !seq_contains(lowercase_of(t@), #[trigger] sw[k]),
        decreases 6 - w,
    {
        let needle = chars_of(words[w]);
        assert(sw[w as int] == words@[w as int]@);
        if contains_chars(&hay, &needle) {
            assert(seq_contains(lowercase_of(t@), sw[w as int]));
            assert(text_has_search_word(t@));
            return true;
        }
        w = w + 1;
    }
    false
}

/// Whether any text of the candidate (its identifier, title, description,
/// placeholder or help), lowercased, holds one of the search words.
pub fn candidate_has_search_semantics<F>(candidate: &ComposerCandidate<F>) -> (r: bool)
    ensures
        r == search_semantics_spec(*candidate),
{
    let r = text_has_search_word_exec(&candidate.identifier) || text_has_search_word_exec(&candidate.title)
        || text_has_search_word_exec(&candidate.description) || text_has_search_word_exec(
        &candidate.placeholder,
    ) || text_has_search_word_exec(&candidate.help);
    proof {
        let ts = candidate_texts(*candidate);
        if r {
            if opt_text(candidate.identifier) matches Some(x) && text_has_search_word(x) {
                assert(ts[0] is Some);
            } else if opt_text(candidate.title) matches Some(x) && text_has_search_word(x) {
                assert(ts[1] is Some);
            } else if opt_text(candidate.description) matches Some(x) && text_has_search_word(x) {
                assert(ts[2] is Some);
            } else if opt_text(candidate.placeholder) matches Some(x) && text_has_search_word(x) {
                assert(ts[3] is Some);
            } else {
                assert(ts[4] is Some);
            }
        } else {
            assert forall|t: int| 0 <= t < 5 && (#[trigger] ts[t]) is Some implies !text_has_search_word(
                ts[t]->0,
            ) by {
                if t == 0 {
                } else if t == 1 {
                } else if t == 2 {
                } else if t == 3 {
                } else {
                }
            }
        }
    }
    r
}

/// Whether a candidate may be the composer: it belongs to a trusted
/// process and to the captured window, is enabled, visible, editable and
/// not secure, its frame fits (`frame_fits`, measured by the caller: wider
/// and taller than a point and inside the captured window), it is no web
/// area, search field or secure field, and nothing marks it as a search
/// field.
pub open spec fn candidate_allowed_spec<F>(c: ComposerCandidate<F>, trusted_pids: Seq<u32>, frame_fits: bool) -> bool {
    &&& trusted_pids.contains(c.owner_pid)
    &&& c.window_matches
    &&& c.enabled
    &&& c.visible
    &&& c.editable
    &&& !c.secure
    &&& frame_fits
    &&& c.role@ != "AXWebArea"@
    &&& opt_text(c.subrole) != Some("AXSearchField"@)
    &&& opt_text(c.subrole) != Some("AXSecureTextField"@)
    &&& !search_semantics_spec(c)
}

/// A candidate whose identifier, title, description, placeholder or help
/// text, lowercased, holds one of the words "search", "find", "filter",
/// "搜索", "查找" or "联系人" has search semantics, and is therefore never
/// allowed as the composer, whatever else holds of it.
pub proof fn lemma_search_text_rules_out_candidate<F>(
    c: ComposerCandidate<F>,
    text: Seq<char>,
    word: Seq<char>,
    trusted_pids: Seq<u32>,
    frame_fits: bool,
)
    requires
        opt_text(c.identifier) == Some(text) || opt_text(c.title) == Some(text) || opt_text(c.description)
            == Some(text) || opt_text(c.placeholder) == Some(text) || opt_text(c.help) == Some(text),
        word == "search"@ || word == "find"@ || word == "filter"@ || word == "搜索"@ || word == "查找"@
            || word == "联系人"@,
        seq_contains(lowercase_of(text), word),
    ensures
        search_semantics_spec(c),
        !candidate_allowed_spec(c, trusted_pids, frame_fits),
{
    let ws = search_words();
    let w: int = if word == "search"@ {
        0
    } else if word == "find"@ {
        1
    } else if word == "filter"@ {
        2
    } else if word == "搜索"@ {
        3
    } else if word == "查找"@ {
        4
    } else {
        5
    };
    assert(ws[w] == word);
    assert(text_has_search_word(text));
    let ts = candidate_texts(c);
    let k: int = if opt_text(c.identifier) == Some(text) {
        0
    } else if opt_text(c.title) == Some(text) {
        1
    } else if opt_text(c.description) == Some(text) {
        2
    } else if opt_text(c.placeholder) == Some(text) {
        3
    } else {
        4
    };
    assert(ts[k] == Some(text));
}

fn contains_u32(v: &Vec<u32>, x: u32) -> (r: bool)
    ensures
        r == v@.contains(x),
{
    let mut i: usize = 0;
    while i < v.len()
        invariant
            i <= v.len(),
            forall|j: int| 0 <= j < i ==> v@[j] != x,
        decreases v.len() - i,
    {
        if v[i] == x {
            return true;
        }
        i = i + 1;
    }
    false
}

fn opt_str_is(o: &Option<String>, s: &str) -> (r: bool)
    ensures
        r == (opt_text(*o) == Some(s@)),
{
    match o {
        Some(v) => str_eq(v.as_str(), s),
        None => false,
    }
}

/// Whether a candidate may be the composer, given whether its frame fits.
pub fn candidate_allowed<F>(candidate: &ComposerCandidate<F>, trusted_pids: &Vec<u32>, frame_fits: bool) -> (r: bool)
    ensures
        r == candidate_allowed_spec(*candidate, trusted_pids@, frame_fits),
{
    contains_u32(trusted_pids, candidate.owner_pid) && candidate.window_matches && candidate.enabled
        && candidate.visible && candidate.editable && !candidate.secure && frame_fits && !str_eq(
        candidate.role.as_str(),
        "AXWebArea",
    ) && !opt_str_is(&candidate.subrole, "AXSearchField") && !opt_str_is(
        &candidate.subrole,
        "AXSecureTextField",
    ) && !candidate_has_search_semantics(candidate)
}

} // verus!
