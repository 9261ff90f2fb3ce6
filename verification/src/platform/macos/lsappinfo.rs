//! Reading the output of macOS `lsappinfo`: the front application's ASN, the
//! ASNs of the visible process list, and the name, bundle identifier and pid
//! of an application's `info` record.
use crate::text::{
    chars_of, decimal, find_char, first_index_of, has_prefix, is_whitespace, is_ws, lines, lines_of,
    parse_u32_chars, parse_u32_spec, push_decimal, split_char, starts_with, starts_with_str,
    string_of, subvec, trim, lemma_split_char_nonempty, trim_char, trim_chars, trim_end_char, trim_end_matching, trim_matching,
    trim_start, trim_start_chars,
};
use vstd::string::StringExecFns;
use super::FrontmostApp;
use vstd::prelude::*;

verus! {

/// `lsappinfo front` output: the trimmed text, without trailing colons, when
/// it is an ASN.
pub open spec fn front_asn_of(raw: Seq<char>) -> Option<Seq<char>> {
    let t = trim(raw);
    if has_prefix(t, "ASN:"@) {
        Some(trim_end_char(t, ':'))
    } else {
        None
    }
}

/// Where `p` first occurs in `s` at or after `i`.
pub open spec fn find_from(s: Seq<char>, p: Seq<char>, i: int) -> Option<int>
    decreases s.len() - i,
{
    if i < 0 || i + p.len() > s.len() {
        None
    } else if s.subrange(i, i + p.len()) == p {
        Some(i)
    } else if i >= s.len() {
        None
    } else {
        find_from(s, p, i + 1)
    }
}

/// The pieces of `s` between the non-overlapping occurrences of `p`, scanning
/// from `pos` with the current piece starting at `start` (`str::split`).
pub open spec fn split_scan(s: Seq<char>, p: Seq<char>, pos: int, start: int) -> Seq<Seq<char>>
    decreases s.len() - pos,
{
    if p.len() == 0 || pos < 0 || pos > s.len() {
        seq![s.subrange(start, s.len() as int)]
    } else if pos + p.len() <= s.len() && s.subrange(pos, pos + p.len()) == p {
        seq![s.subrange(start, pos)] + split_scan(s, p, pos + p.len(), pos + p.len())
    } else if pos < s.len() {
        split_scan(s, p, pos + 1, start)
    } else {
        seq![s.subrange(start, s.len() as int)]
    }
}

/// The ASN that one piece of the visible process list names, if any.
pub open spec fn asn_of_piece(piece: Seq<char>) -> Option<Seq<char>> {
    let candidate = "ASN:"@ + trim_start(piece);
    match find_from(candidate, "-\""@, 0) {
        Some(end) => {
            let asn = trim_end_char(trim(candidate.take(end)), ':');
            if has_prefix(asn, "ASN:"@) {
                Some(asn)
            } else {
                None
            }
        },
        None => None,
    }
}

/// The ASNs named by `pieces`, in order.
pub open spec fn asns_of_pieces(pieces: Seq<Seq<char>>) -> Seq<Seq<char>>
    decreases pieces.len(),
{
    if pieces.len() == 0 {
        Seq::empty()
    } else {
        asns_of_pieces(pieces.drop_last()) + match asn_of_piece(pieces.last()) {
            Some(a) => seq![a],
            None => Seq::empty(),
        }
    }
}

/// The ASNs of `lsappinfo visibleProcessList` output, in order.
pub open spec fn visible_asns_of(raw: Seq<char>) -> Seq<Seq<char>> {
    asns_of_pieces(split_scan(raw, "ASN:"@, 0, 0).drop_first())
}

/// The value after the first `=` of a trimmed line that starts with one of
/// the two keys.
pub open spec fn value_after_key(line: Seq<char>, key1: Seq<char>, key2: Seq<char>) -> Option<Seq<char>> {
    if has_prefix(line, key1) || has_prefix(line, key2) {
        match first_index_of(line, '=') {
            Some(eq) => Some(trim(line.skip(eq + 1))),
            None => None,
        }
    } else {
        None
    }
}

/// A bundle identifier on one line: `bundleID` or `CFBundleIdentifier`, a
/// quoted, non-empty value.
pub open spec fn bundle_id_in_line(line: Seq<char>) -> Option<Seq<char>> {
    match value_after_key(trim(line), "bundleID"@, "CFBundleIdentifier"@) {
        Some(raw) => if raw.len() > 0 && raw[0] == '"' && trim(trim_char(raw, '"')).len() > 0 {
            Some(trim(trim_char(raw, '"')))
        } else {
            None
        },
        None => None,
    }
}

/// The bundle identifier of the first line of `ls` that gives one.
pub open spec fn bundle_id_in_lines(ls: Seq<Seq<char>>) -> Option<Seq<char>>
    decreases ls.len(),
{
    if ls.len() == 0 {
        None
    } else if bundle_id_in_line(ls[0]) is Some {
        bundle_id_in_line(ls[0])
    } else {
        bundle_id_in_lines(ls.drop_first())
    }
}

/// The bundle identifier of an `lsappinfo info` record.
pub open spec fn bundle_id_of(s: Seq<char>) -> Option<Seq<char>> {
    bundle_id_in_lines(lines(s))
}

/// An application name on one line: `LSApplicationName` or `CFBundleName`,
/// quotes removed, non-empty.
pub open spec fn app_name_in_line(line: Seq<char>) -> Option<Seq<char>> {
    match value_after_key(trim(line), "LSApplicationName"@, "CFBundleName"@) {
        Some(raw) => if trim_char(trim_char(raw, '"'), '\'').len() > 0 {
            Some(trim_char(trim_char(raw, '"'), '\''))
        } else {
            None
        },
        None => None,
    }
}

/// The name quoted at the start of the record's first line.
pub open spec fn quoted_first_line_name(s: Seq<char>) -> Option<Seq<char>> {
    if lines(s).len() == 0 {
        None
    } else {
        let first = trim(lines(s)[0]);
        if first.len() > 0 && first[0] == '"' {
            let rest = first.drop_first();
            match first_index_of(rest, '"') {
                Some(end) => if trim(rest.take(end)).len() > 0 {
                    Some(trim(rest.take(end)))
                } else {
                    None
                },
                None => None,
            }
        } else {
            None
        }
    }
}

/// The application name of an `lsappinfo info` record: a name key if one
/// gives a value, else the quoted name that opens the record.
pub open spec fn app_name_of(s: Seq<char>) -> Option<Seq<char>> {
    match app_name_in_lines(lines(s)) {
        Some(n) => Some(n),
        None => quoted_first_line_name(s),
    }
}

/// The application name of the first line of `ls` that gives one.
pub open spec fn app_name_in_lines(ls: Seq<Seq<char>>) -> Option<Seq<char>>
    decreases ls.len(),
{
    if ls.len() == 0 {
        None
    } else if app_name_in_line(ls[0]) is Some {
        app_name_in_line(ls[0])
    } else {
        app_name_in_lines(ls.drop_first())
    }
}

/// The first whitespace-free word of `t`.
pub open spec fn first_word(t: Seq<char>) -> Seq<char>
    decreases t.len(),
{
    if t.len() == 0 || is_ws(t[0]) {
        Seq::empty()
    } else {
        seq![t[0]] + first_word(t.drop_first())
    }
}

/// The pid after `pid` on a line: `=` or `:`, then a decimal number.
pub open spec fn pid_after_key(rest: Seq<char>) -> Option<u32> {
    let r = trim_start(rest);
    if r.len() > 0 && (r[0] == '=' || r[0] == ':') {
        let w = first_word(trim_start(r.drop_first()));
        if w.len() == 0 {
            None
        } else {
            parse_u32_spec(w)
        }
    } else {
        None
    }
}

/// The pid of the first line that starts with `pid`.
pub open spec fn pid_in_lines(ls: Seq<Seq<char>>) -> Option<u32>
    decreases ls.len(),
{
    if ls.len() == 0 {
        None
    } else if has_prefix(trim(ls[0]), "pid"@) {
        pid_after_key(trim(ls[0]).skip("pid"@.len() as int))
    } else {
        pid_in_lines(ls.drop_first())
    }
}

/// The pid of an `lsappinfo info` record.
pub open spec fn pid_of(s: Seq<char>) -> Option<u32> {
    pid_in_lines(lines(s))
}

/// Reads the front application's ASN, e.g. `ASN:0x0-0x46046:` gives
/// `ASN:0x0-0x46046`.
pub fn parse_front_asn(raw: &str) -> (r: Option<String>)
    ensures
        r.deep_view() == front_asn_of(raw@),
{
    let v = chars_of(raw);
    let t = trim_chars(&v);
    if starts_with_str(&t, "ASN:") {
        let a = trim_end_matching(&t, ':');
        Some(string_of(&a))
    } else {
        None
    }
}

/// Where `p` first occurs in `v` at or after `from`.
pub fn find_str_from(v: &Vec<char>, p: &Vec<char>, from: usize) -> (r: Option<usize>)
    ensures
        r matches Some(i) ==> find_from(v@, p@, from as int) == Some(i as int),
        r is None ==> find_from(v@, p@, from as int) is None,
    decreases v.len() - from,
{
    if from > v.len() || p.len() > v.len() - from {
        return None;
    }
    let w = subvec(v, from, from + p.len());
    if vec_eq(&w, p) {
        Some(from)
    } else if from >= v.len() {
        None
    } else {
        find_str_from(v, p, from + 1)
    }
}

/// Whether `a` and `b` hold the same characters.
pub fn vec_eq(a: &Vec<char>, b: &Vec<char>) -> (r: bool)
    ensures
        r == (a@ == b@),
{
    if a.len() != b.len() {
        return false;
    }
    let mut i: usize = 0;
    while i < a.len()
        invariant
            i <= a.len() == b.len(),
            forall|j: int| 0 <= j < i ==> a@[j] == b@[j],
        decreases a.len() - i,
    {
        if a[i] != b[i] {
            return false;
        }
        i = i + 1;
    }
    assert(a@ =~= b@);
    true
}

/// The pieces of `v` between the non-overlapping occurrences of `p`.
pub fn split_str(v: &Vec<char>, p: &Vec<char>) -> (r: Vec<Vec<char>>)
    requires
        p.len() > 0,
    ensures
        r@.len() == split_scan(v@, p@, 0, 0).len(),
        forall|i: int| 0 <= i < r@.len() ==> #[trigger] r@[i]@ == split_scan(v@, p@, 0, 0)[i],
{
    let mut out: Vec<Vec<char>> = Vec::new();
    let mut pos: usize = 0;
    let mut start: usize = 0;
    let ghost whole = split_scan(v@, p@, 0, 0);
    loop
        invariant_except_break
            whole.len() == out@.len() + split_scan(v@, p@, pos as int, start as int).len(),
            forall|i: int| 0 <= i < out@.len() ==> #[trigger] out@[i]@ == whole[i],
            forall|i: int|
                0 <= i < split_scan(v@, p@, pos as int, start as int).len() ==> whole[out@.len()
                    + i] == #[trigger] split_scan(v@, p@, pos as int, start as int)[i],
        invariant
            start <= pos <= v.len(),
            p.len() > 0,
            whole == split_scan(v@, p@, 0, 0),
        ensures
            r_done(out, whole),
        decreases v.len() - pos,
    {
        let ghost rest = split_scan(v@, p@, pos as int, start as int);
        if p.len() <= v.len() - pos {
            let w = subvec(v, pos, pos + p.len());
            if vec_eq(&w, p) {
                let piece = subvec(v, start, pos);
                let ghost nrest = split_scan(v@, p@, (pos + p.len()) as int, (pos + p.len()) as int);
                assert(rest == seq![v@.subrange(start as int, pos as int)] + nrest);
                assert(rest[0] == v@.subrange(start as int, pos as int));
                out.push(piece);
                pos = pos + p.len();
                start = pos;
                assert forall|i: int| 0 <= i < nrest.len() implies whole[out@.len() + i]
                    == #[trigger] nrest[i] by {
                    assert(rest[i + 1] == nrest[i]);
                }
                assert forall|i: int| 0 <= i < out@.len() implies #[trigger] out@[i]@ == whole[i] by {
                    if i == out@.len() - 1 {
                        assert(rest[0] == whole[out@.len() - 1]);
                    }
                }
                continue;
            }
        }
        if pos < v.len() {
            pos = pos + 1;
            continue;
        }
        let piece = subvec(v, start, v.len());
        assert(rest == seq![v@.subrange(start as int, v@.len() as int)]);
        assert(rest[0] == whole[out@.len() as int]);
        out.push(piece);
        assert forall|i: int| 0 <= i < out@.len() implies #[trigger] out@[i]@ == whole[i] by {}
        break;
    }
    out
}

/// Whether `out` holds exactly the pieces of `whole`.
pub open spec fn r_done(out: Vec<Vec<char>>, whole: Seq<Seq<char>>) -> bool {
    &&& out@.len() == whole.len()
    &&& forall|i: int| 0 <= i < out@.len() ==> #[trigger] out@[i]@ == whole[i]
}

fn asn_of_piece_exec(piece: &Vec<char>) -> (r: Option<Vec<char>>)
    ensures
        r.deep_view() == asn_of_piece(piece@),
{
    let mut candidate = chars_of("ASN:");
    let rest = trim_start_chars(piece);
    let mut i: usize = 0;
    let ghost c0 = candidate@;
    while i < rest.len()
        invariant
            i <= rest.len(),
            candidate@ == c0 + rest@.take(i as int),
        decreases rest.len() - i,
    {
        candidate.push(rest[i]);
        i = i + 1;
        assert(candidate@ =~= c0 + rest@.take(i as int));
    }
    assert(rest@.take(rest@.len() as int) =~= rest@);
    let marker = chars_of("-\"");
    match find_str_from(&candidate, &marker, 0) {
        Some(end) => {
            proof {
                lemma_find_from_bounds(candidate@, marker@, 0);
            }
            let head = subvec(&candidate, 0, end);
            assert(head@ =~= candidate@.take(end as int));
            let t = trim_chars(&head);
            let asn = trim_end_matching(&t, ':');
            if starts_with_str(&asn, "ASN:") {
                Some(asn)
            } else {
                None
            }
        },
        None => None,
    }
}

proof fn lemma_find_from_bounds(s: Seq<char>, p: Seq<char>, i: int)
    ensures
        find_from(s, p, i) matches Some(k) ==> i <= k && k + p.len() <= s.len(),
    decreases s.len() - i,
{
    if i < 0 || i + p.len() > s.len() {
    } else if s.subrange(i, i + p.len()) == p {
    } else if i >= s.len() {
    } else {
        lemma_find_from_bounds(s, p, i + 1);
    }
}

/// Reads the ASNs of `lsappinfo visibleProcessList` output, in order.
pub fn parse_visible_process_asns(raw: &str) -> (r: Vec<String>)
    ensures
        r@.len() == visible_asns_of(raw@).len(),
        forall|i: int| 0 <= i < r@.len() ==> #[trigger] r@[i]@ == visible_asns_of(raw@)[i],
{
    let v = chars_of(raw);
    let marker = chars_of("ASN:");
    proof {
        reveal_strlit("ASN:");
    }
    let pieces = split_str(&v, &marker);
    let ghost ps = split_scan(v@, marker@, 0, 0);
    let mut out: Vec<String> = Vec::new();
    let mut k: usize = 1;
    proof {
        lemma_split_scan_nonempty(v@, marker@, 0, 0);
        assert(ps.drop_first().take(0) =~= Seq::<Seq<char>>::empty());
    }
    while k < pieces.len()
        invariant
            1 <= k <= pieces.len(),
            pieces@.len() == ps.len(),
            forall|i: int| 0 <= i < pieces@.len() ==> #[trigger] pieces@[i]@ == ps[i],
            out@.len() == asns_of_pieces(ps.drop_first().take(k - 1)).len(),
            forall|i: int|
                0 <= i < out@.len() ==> #[trigger] out@[i]@ == asns_of_pieces(
                    ps.drop_first().take(k - 1),
                )[i],
        decreases pieces.len() - k,
    {
        let ghost before = asns_of_pieces(ps.drop_first().take(k - 1));
        let found = asn_of_piece_exec(&pieces[k]);
        proof {
            let t = ps.drop_first().take(k as int);
            assert(t.drop_last() =~= ps.drop_first().take(k - 1));
            assert(t.last() == ps[k as int]);
        }
        match found {
            Some(a) => {
                out.push(string_of(&a));
            },
            None => {},
        }
        k = k + 1;
        proof {
            let after = asns_of_pieces(ps.drop_first().take(k - 1));
            assert forall|i: int| 0 <= i < out@.len() implies #[trigger] out@[i]@ == after[i] by {
                if i < before.len() {
                    assert(after[i] == before[i]);
                }
            }
        }
    }
    assert(ps.drop_first().take(k - 1) =~= ps.drop_first());
    out
}

proof fn lemma_split_scan_nonempty(s: Seq<char>, p: Seq<char>, pos: int, start: int)
    ensures
        split_scan(s, p, pos, start).len() >= 1,
    decreases s.len() - pos,
{
    if p.len() == 0 || pos < 0 || pos > s.len() {
    } else if pos + p.len() <= s.len() && s.subrange(pos, pos + p.len()) == p {
        lemma_split_scan_nonempty(s, p, pos + p.len(), pos + p.len());
    } else if pos < s.len() {
        lemma_split_scan_nonempty(s, p, pos + 1, start);
    }
}

/// The characters held by `r`, if any.
pub open spec fn opt_chars(r: Option<Vec<char>>) -> Option<Seq<char>> {
    match r {
        Some(v) => Some(v@),
        None => None,
    }
}

fn value_after_key_exec(line: &Vec<char>, key1: &str, key2: &str) -> (r: Option<Vec<char>>)
    ensures
        opt_chars(r) == value_after_key(line@, key1@, key2@),
{
    if starts_with_str(line, key1) || starts_with_str(line, key2) {
        match find_char(line, '=') {
            Some(eq) => {
                assert(eq < line.len());
                let rest = subvec(line, eq + 1, line.len());
                assert(rest@ =~= line@.skip(eq + 1));
                Some(trim_chars(&rest))
            },
            None => None,
        }
    } else {
        None
    }
}

fn bundle_id_in_line_exec(line: &Vec<char>) -> (r: Option<Vec<char>>)
    ensures
        opt_chars(r) == bundle_id_in_line(line@),
{
    let t = trim_chars(line);
    match value_after_key_exec(&t, "bundleID", "CFBundleIdentifier") {
        Some(raw) => {
            if raw.len() > 0 && raw[0] == '"' {
                let unquoted = trim_matching(&raw, '"');
                let val = trim_chars(&unquoted);
                if val.len() > 0 {
                    Some(val)
                } else {
                    None
                }
            } else {
                None
            }
        },
        None => None,
    }
}

fn app_name_in_line_exec(line: &Vec<char>) -> (r: Option<Vec<char>>)
    ensures
        opt_chars(r) == app_name_in_line(line@),
{
    let t = trim_chars(line);
    match value_after_key_exec(&t, "LSApplicationName", "CFBundleName") {
        Some(raw) => {
            let a = trim_matching(&raw, '"');
            let val = trim_matching(&a, '\'');
            if val.len() > 0 {
                Some(val)
            } else {
                None
            }
        },
        None => None,
    }
}

/// Reads the bundle identifier of an `lsappinfo info` record: the first
/// `bundleID` or `CFBundleIdentifier` line with a quoted, non-empty value
/// (`bundleID=[ NULL ]` gives none).
pub fn parse_bundle_id(s: &str) -> (r: Option<String>)
    ensures
        r.deep_view() == bundle_id_of(s@),
{
    let v = chars_of(s);
    let ls = lines_of(&v);
    let ghost lv = lines(v@);
    assert(lv.skip(0) =~= lv);
    let mut i: usize = 0;
    while i < ls.len()
        invariant
            i <= ls@.len() == lv.len(),
            lv == lines(v@),
            v@ == s@,
            forall|k: int| 0 <= k < ls@.len() ==> #[trigger] ls@[k]@ == lv[k],
            bundle_id_in_lines(lv) == bundle_id_in_lines(lv.skip(i as int)),
        decreases ls.len() - i,
    {
        assert(lv.skip(i as int).drop_first() =~= lv.skip(i + 1));
        assert(lv.skip(i as int)[0] == lv[i as int]);
        let found = bundle_id_in_line_exec(&ls[i]);
        assert(ls@[i as int]@ == lv[i as int]);
        match found {
            Some(val) => {
                assert(bundle_id_in_lines(lv.skip(i as int)) == Some(val@));
                return Some(string_of(&val));
            },
            None => {},
        }
        i = i + 1;
    }
    None
}

/// Reads the application name of an `lsappinfo info` record: the first
/// `LSApplicationName` or `CFBundleName` line with a non-empty value, else the
/// quoted name that opens the record.
pub fn parse_app_name(s: &str) -> (r: Option<String>)
    ensures
        r.deep_view() == app_name_of(s@),
{
    let v = chars_of(s);
    let ls = lines_of(&v);
    let ghost lv = lines(v@);
    assert(lv.skip(0) =~= lv);
    let mut i: usize = 0;
    while i < ls.len()
        invariant
            i <= ls@.len() == lv.len(),
            lv == lines(v@),
            v@ == s@,
            forall|k: int| 0 <= k < ls@.len() ==> #[trigger] ls@[k]@ == lv[k],
            app_name_in_lines(lv) == app_name_in_lines(lv.skip(i as int)),
        decreases ls.len() - i,
    {
        assert(lv.skip(i as int).drop_first() =~= lv.skip(i + 1));
        assert(lv.skip(i as int)[0] == lv[i as int]);
        let found = app_name_in_line_exec(&ls[i]);
        assert(ls@[i as int]@ == lv[i as int]);
        match found {
            Some(val) => {
                assert(app_name_in_lines(lv.skip(i as int)) == Some(val@));
                return Some(string_of(&val));
            },
            None => {},
        }
        i = i + 1;
    }
    assert(lv.skip(i as int).len() == 0);
    if ls.len() == 0 {
        return None;
    }
    let first = trim_chars(&ls[0]);
    if first.len() == 0 || first[0] != '"' {
        return None;
    }
    let rest = subvec(&first, 1, first.len());
    assert(rest@ =~= first@.drop_first());
    match find_char(&rest, '"') {
        Some(end) => {
            let head = subvec(&rest, 0, end);
            assert(head@ =~= rest@.take(end as int));
            let name = trim_chars(&head);
            if name.len() == 0 {
                None
            } else {
                Some(string_of(&name))
            }
        },
        None => None,
    }
}

fn first_word_exec(t: &Vec<char>) -> (r: Vec<char>)
    ensures
        r@ == first_word(t@),
{
    let mut k: usize = 0;
    while k < t.len() && !is_whitespace(t[k])
        invariant
            k <= t.len(),
            forall|j: int| 0 <= j < k ==> !is_ws(#[trigger] t@[j]),
        decreases t.len() - k,
    {
        k = k + 1;
    }
    proof {
        lemma_first_word_prefix(t@, k as int);
    }
    subvec(t, 0, k)
}

proof fn lemma_first_word_prefix(t: Seq<char>, k: int)
    requires
        0 <= k <= t.len(),
        forall|j: int| 0 <= j < k ==> !is_ws(#[trigger] t[j]),
        k == t.len() || is_ws(t[k]),
    ensures
        first_word(t) == t.subrange(0, k),
    decreases k,
{
    if k == 0 {
        assert(t.subrange(0, 0) =~= Seq::<char>::empty());
    } else {
        lemma_first_word_prefix(t.drop_first(), k - 1);
        assert(seq![t[0]] + t.drop_first().subrange(0, k - 1) =~= t.subrange(0, k));
    }
}

fn pid_after_key_exec(rest: &Vec<char>) -> (r: Option<u32>)
    ensures
        r == pid_after_key(rest@),
{
    let r = trim_start_chars(rest);
    if r.len() > 0 && (r[0] == '=' || r[0] == ':') {
        let after = subvec(&r, 1, r.len());
        assert(after@ =~= r@.drop_first());
        let t = trim_start_chars(&after);
        let w = first_word_exec(&t);
        if w.len() == 0 {
            None
        } else {
            parse_u32_chars(&w)
        }
    } else {
        None
    }
}

/// Reads the pid of an `lsappinfo info` record from the first line that
/// starts with `pid` (`pid = 123` or `pid: 123`).
pub fn parse_pid(s: &str) -> (r: Option<u32>)
    ensures
        r == pid_of(s@),
{
    let v = chars_of(s);
    let ls = lines_of(&v);
    let ghost lv = lines(v@);
    let key = chars_of("pid");
    assert(lv.skip(0) =~= lv);
    let mut i: usize = 0;
    while i < ls.len()
        invariant
            i <= ls@.len() == lv.len(),
            lv == lines(v@),
            v@ == s@,
            key@ == "pid"@,
            forall|k: int| 0 <= k < ls@.len() ==> #[trigger] ls@[k]@ == lv[k],
            pid_in_lines(lv) == pid_in_lines(lv.skip(i as int)),
        decreases ls.len() - i,
    {
        assert(lv.skip(i as int).drop_first() =~= lv.skip(i + 1));
        assert(lv.skip(i as int)[0] == lv[i as int]);
        let line = trim_chars(&ls[i]);
        assert(ls@[i as int]@ == lv[i as int]);
        if starts_with(&line, &key) {
            let rest = subvec(&line, key.len(), line.len());
            assert(rest@ =~= line@.skip("pid"@.len() as int));
            return pid_after_key_exec(&rest);
        }
        i = i + 1;
    }
    None
}

/// An application record read from `lsappinfo`: its name and bundle
/// identifier, and its pid.
pub struct FrontmostAppInfo {
    pub app: FrontmostApp,
    pub pid: u32,
}

/// The record read from `lsappinfo info` output: no record without a pid; the
/// name falls back to `Unknown` and the bundle identifier to
/// `unknown.pid.<pid>`.
pub open spec fn app_info_of(info: Seq<char>, r: Option<FrontmostAppInfo>) -> bool {
    let t = trim(info);
    match pid_of(t) {
        None => r is None,
        Some(pid) => r matches Some(a) && a.pid == pid && a.app.name@ == (match app_name_of(t) {
            Some(n) => n,
            None => "Unknown"@,
        }) && a.app.bundle_id@ == (match bundle_id_of(t) {
            Some(b) => b,
            None => "unknown.pid."@ + decimal(pid as nat),
        }),
    }
}

/// Reads an application record from `lsappinfo info` output.
pub fn app_info_from_lsappinfo_output(info: &str) -> (r: Option<FrontmostAppInfo>)
    ensures
        app_info_of(info@, r),
{
    let v = chars_of(info);
    let tv = trim_chars(&v);
    let t = string_of(&tv);
    let name = match parse_app_name(t.as_str()) {
        Some(n) => n,
        None => String::from_str("Unknown"),
    };
    let pid = match parse_pid(t.as_str()) {
        Some(p) => p,
        None => {
            return None;
        },
    };
    let bundle_id = match parse_bundle_id(t.as_str()) {
        Some(b) => b,
        None => {
            let mut b = String::from_str("unknown.pid.");
            push_decimal(&mut b, pid as u64);
            b
        },
    };
    Some(FrontmostAppInfo { app: FrontmostApp { name, bundle_id }, pid })
}

/// The value quoted after `key="` in an `lsappinfo` record.
pub open spec fn quoted_value_of(info: Seq<char>, key: Seq<char>) -> Option<Seq<char>> {
    let pieces = split_scan(info, key + "=\""@, 0, 0);
    if pieces.len() >= 2 {
        Some(split_char(pieces[1], '"')[0])
    } else {
        None
    }
}

/// Reads the value quoted after `key="` in an `lsappinfo` record.
pub fn parse_quoted_lsappinfo_value(info: &str, key: &str) -> (r: Option<String>)
    ensures
        r.deep_view() == quoted_value_of(info@, key@),
{
    let v = chars_of(info);
    let mut marker = chars_of(key);
    let ghost k0 = marker@;
    marker.push('=');
    marker.push('"');
    proof {
        reveal_strlit("=\"");
        assert(marker@ =~= k0 + "=\""@);
    }
    let pieces = split_str(&v, &marker);
    if pieces.len() < 2 {
        return None;
    }
    let piece = &pieces[1];
    let mut k: usize = 0;
    while k < piece.len() && piece[k] != '"'
        invariant
            k <= piece.len(),
            forall|j: int| 0 <= j < k ==> #[trigger] piece@[j] != '"',
        decreases piece.len() - k,
    {
        k = k + 1;
    }
    proof {
        lemma_split_char_first(piece@, '"', k as int);
    }
    let head = subvec(piece, 0, k);
    Some(string_of(&head))
}

proof fn lemma_split_char_first(s: Seq<char>, c: char, k: int)
    requires
        0 <= k <= s.len(),
        forall|j: int| 0 <= j < k ==> #[trigger] s[j] != c,
        k == s.len() || s[k] == c,
    ensures
        split_char(s, c)[0] == s.subrange(0, k),
    decreases s.len(),
{
    lemma_split_char_nonempty(s, c);
    if s.len() == 0 {
        assert(s.subrange(0, 0) =~= Seq::<char>::empty());
    } else if k == s.len() {
        lemma_split_char_first(s.drop_last(), c, k - 1);
        lemma_split_char_nonempty(s.drop_last(), c);
        let r = split_char(s.drop_last(), c);
        if r.len() == 1 {
            assert(s.drop_last().subrange(0, k - 1).push(s.last()) =~= s.subrange(0, k));
        } else {
            lemma_split_char_no_sep(s.drop_last(), c);
        }
    } else {
        lemma_split_char_first(s.drop_last(), c, k);
        lemma_split_char_nonempty(s.drop_last(), c);
        assert(s.drop_last().subrange(0, k) =~= s.subrange(0, k));
        if k == s.len() - 1 {
            lemma_split_char_no_sep(s.drop_last(), c);
        } else {
            lemma_split_char_has_sep(s.drop_last(), c, k);
        }
    }
}

proof fn lemma_split_char_no_sep(s: Seq<char>, c: char)
    requires
        forall|j: int| 0 <= j < s.len() ==> #[trigger] s[j] != c,
    ensures
        split_char(s, c).len() == 1,
    decreases s.len(),
{
    if s.len() > 0 {
        lemma_split_char_no_sep(s.drop_last(), c);
    }
}

proof fn lemma_split_char_has_sep(s: Seq<char>, c: char, k: int)
    requires
        0 <= k < s.len(),
        s[k] == c,
    ensures
        split_char(s, c).len() >= 2,
    decreases s.len(),
{
    lemma_split_char_nonempty(s, c);
    if k < s.len() - 1 {
        lemma_split_char_has_sep(s.drop_last(), c, k);
    } else {
        lemma_split_char_nonempty(s.drop_last(), c);
    }
}

} // verus!
