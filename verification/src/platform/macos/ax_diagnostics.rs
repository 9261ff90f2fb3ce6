//! Opt-in diagnostics of a target's accessibility tree: which target to
//! inspect, whether diagnostics are enabled, the process tree under the
//! target, and the stable hash that stands in for any text it reports.
use super::ax_client::AxTraversalLimits;
use super::process_group::{after_first_field, next_field, ps_row};
use crate::text::{
    chars_of, parse_u32_chars, parse_u32_spec, string_of, trim, trim_chars, str_eq, digits_value,
    unsigned_part, all_digits, is_digit, is_whitespace, is_ws, lines, lines_of, subvec, trim_start,
    trim_start_chars,
};
use vstd::prelude::*;
use vstd::string::StringExecFns;
use vstd::string::StringSliceAdditionalSpecFns;

verus! {

/// The target of a diagnostic run: its bundle, optionally its pid, and how
/// long to wait before inspecting it.
#[derive(Clone, Debug, PartialEq, Eq)]
pub struct DiagnosticTargetSelector {
    pub bundle_id: String,
    pub pid: Option<u32>,
    pub wait_ms: u64,
}

/// What `str::parse::<u64>` gives.
pub open spec fn parse_u64_spec(s: Seq<char>) -> Option<u64> {
    let d = unsigned_part(s);
    if d.len() > 0 && all_digits(d) && digits_value(d) <= u64::MAX {
        Some(digits_value(d) as u64)
    } else {
        None
    }
}

proof fn lemma_digits_value_prefix_bound(s: Seq<char>, k: int)
    requires
        0 <= k <= s.len(),
        all_digits(s),
    ensures
        digits_value(s) >= digits_value(s.take(k)),
    decreases s.len() - k,
{
    if k < s.len() {
        assert(s.drop_last().take(k) =~= s.take(k));
        lemma_digits_value_prefix_bound(s.drop_last(), k);
    } else {
        assert(s.take(k) =~= s);
    }
}

/// The value of a decimal number as `str::parse::<u64>` reads it.
pub fn parse_u64_chars(v: &Vec<char>) -> (r: Option<u64>)
    ensures
        r == parse_u64_spec(v@),
{
    let start: usize = if v.len() > 0 && v[0] == '+' {
        1
    } else {
        0
    };
    let ghost d = unsigned_part(v@);
    assert(d =~= v@.subrange(start as int, v@.len() as int));
    if start >= v.len() {
        return None;
    }
    let mut value: u128 = 0;
    let mut i: usize = start;
    while i < v.len()
        invariant
            start <= i <= v.len(),
            start < v.len(),
            d == v@.subrange(start as int, v@.len() as int),
            d == unsigned_part(v@),
            forall|j: int| start <= j < i ==> is_digit(#[trigger] v@[j]),
            value == digits_value(v@.subrange(start as int, i as int)),
            value <= u64::MAX,
        decreases v.len() - i,
    {
        let c = v[i];
        assert(v@.subrange(start as int, (i + 1) as int).drop_last() =~= v@.subrange(
            start as int,
            i as int,
        ));
        if !('0' <= c && c <= '9') {
            assert(d[i - start] == c);
            assert(!is_digit(d[i - start]));
            assert(!all_digits(d));
            return None;
        }
        let digit = (c as u32 - '0' as u32) as u128;
        let next = value * 10 + digit;
        i = i + 1;
        if next > 0xffff_ffff_ffff_ffff {
            proof {
                let k = (i - start) as int;
                assert(d.take(k) =~= v@.subrange(start as int, i as int));
                assert(digits_value(v@.subrange(start as int, i as int)) == next);
                if all_digits(d) {
                    lemma_digits_value_prefix_bound(d, k);
                    assert(digits_value(d) > u64::MAX);
                }
            }
            return None;
        }
        value = next;
    }
    assert(v@.subrange(start as int, i as int) =~= d);
    Some(value as u64)
}

/// An optional setting: its trimmed text, when there is any.
pub open spec fn setting_text(value: Option<&str>) -> Option<Seq<char>> {
    match value {
        Some(v) => if trim(v@).len() > 0 {
            Some(trim(v@))
        } else {
            None
        },
        None => None,
    }
}

fn setting_chars(value: Option<&str>) -> (r: Option<Vec<char>>)
    ensures
        match r {
            Some(v) => setting_text(value) == Some(v@),
            None => setting_text(value) is None,
        },
{
    match value {
        Some(v) => {
            let c = chars_of(v);
            let t = trim_chars(&c);
            if t.len() > 0 {
                Some(t)
            } else {
                None
            }
        },
        None => None,
    }
}

/// The diagnostic target read from the three settings: a bundle is
/// required; a pid, where given, must be a number that fits in 32 bits; the
/// wait, where given, a number that fits in 64 bits, and 3000 ms otherwise.
pub open spec fn selector_spec(
    bundle_id: Option<&str>,
    pid: Option<&str>,
    wait_ms: Option<&str>,
    r: Result<DiagnosticTargetSelector, String>,
) -> bool {
    match setting_text(bundle_id) {
        None => r matches Err(e) && e@ == "PROMPT_DRAWER_AX_TARGET_BUNDLE_ID is required."@,
        Some(b) => match setting_text(pid) {
            Some(p) if parse_u32_spec(p) is None => r matches Err(e) && e@
                == "PROMPT_DRAWER_AX_TARGET_PID must be a positive integer."@,
            _ => match setting_text(wait_ms) {
                Some(w) if parse_u64_spec(w) is None => r matches Err(e) && e@
                    == "PROMPT_DRAWER_AX_WAIT_MS must be a non-negative integer."@,
                _ => r matches Ok(s) && s.bundle_id@ == b && s.pid == match setting_text(pid) {
                    Some(p) => parse_u32_spec(p),
                    None => None,
                } && s.wait_ms == match setting_text(wait_ms) {
                    Some(w) => parse_u64_spec(w).unwrap(),
                    None => 3000,
                },
            },
        },
    }
}

impl DiagnosticTargetSelector {
    /// Reads the diagnostic target from its three settings.
    pub fn from_values(bundle_id: Option<&str>, pid: Option<&str>, wait_ms: Option<&str>) -> (r: Result<Self, String>)
        ensures
            selector_spec(bundle_id, pid, wait_ms, r),
    {
        let bundle = match setting_chars(bundle_id) {
            Some(b) => b,
            None => {
                return Err(String::from_str("PROMPT_DRAWER_AX_TARGET_BUNDLE_ID is required."));
            },
        };
        let pid_value = match setting_chars(pid) {
            Some(p) => match parse_u32_chars(&p) {
                Some(n) => Some(n),
                None => {
                    return Err(
                        String::from_str("PROMPT_DRAWER_AX_TARGET_PID must be a positive integer."),
                    );
                },
            },
            None => None,
        };
        let wait = match setting_chars(wait_ms) {
            Some(w) => match parse_u64_chars(&w) {
                Some(n) => n,
                None => {
                    return Err(
                        String::from_str("PROMPT_DRAWER_AX_WAIT_MS must be a non-negative integer."),
                    );
                },
            },
            None => 3000,
        };
        Ok(DiagnosticTargetSelector { bundle_id: string_of(&bundle), pid: pid_value, wait_ms: wait })
    }
}

/// Diagnostics run only when their setting is exactly `1`.
pub fn diagnostics_enabled(value: Option<&str>) -> (r: bool)
    ensures
        r == (value matches Some(v) && v@ == "1"@),
{
    match value {
        Some(v) => str_eq(v, "1"),
        None => false,
    }
}

/// The comparison that turns on manual accessibility needs diagnostics and
/// its own setting, both exactly `1`.
pub fn manual_accessibility_comparison_enabled(
    diagnostics: Option<&str>,
    manual_accessibility: Option<&str>,
) -> (r: bool)
    ensures
        r == ((diagnostics matches Some(v) && v@ == "1"@) && (manual_accessibility matches Some(m)
            && m@ == "1"@)),
{
    diagnostics_enabled(diagnostics) && match manual_accessibility {
        Some(m) => str_eq(m, "1"),
        None => false,
    }
}

/// The FNV-1a offset basis.
pub const FNV_OFFSET: u64 = 0xcbf2_9ce4_8422_2325;

/// The FNV-1a prime.
pub const FNV_PRIME: u64 = 0x0000_0100_0000_01b3;

/// The 64-bit FNV-1a hash of `bytes`.
pub open spec fn fnv1a(bytes: Seq<u8>) -> u64
    decreases bytes.len(),
{
    if bytes.len() == 0 {
        FNV_OFFSET
    } else {
        vstd::wrapping::u64_specs::wrapping_mul(fnv1a(bytes.drop_last()) ^ (bytes.last() as u64), FNV_PRIME)
    }
}

/// The lowercase hexadecimal digit for `d`.
pub open spec fn hex_digit(d: u64) -> char {
    if d < 10 {
        ((d + 48) as u32) as char
    } else {
        ((d + 87) as u32) as char
    }
}

/// `h` as sixteen lowercase hexadecimal digits, most significant first.
pub open spec fn hex16(h: u64) -> Seq<char> {
    Seq::new(16, |i: int| hex_digit((h >> ((60 - 4 * i) as u64)) & 0xf))
}

fn hex_char(d: u64) -> (c: char)
    requires
        d < 16,
    ensures
        c == hex_digit(d),
{
    if d < 10 {
        let c = match d {
            0 => '0',
            1 => '1',
            2 => '2',
            3 => '3',
            4 => '4',
            5 => '5',
            6 => '6',
            7 => '7',
            8 => '8',
            _ => '9',
        };
        c
    } else {
        let c = match d {
            10 => 'a',
            11 => 'b',
            12 => 'c',
            13 => 'd',
            14 => 'e',
            _ => 'f',
        };
        c
    }
}

/// A stand-in for a text in diagnostics: the FNV-1a hash of its UTF-8 bytes,
/// as sixteen hexadecimal digits.
pub fn stable_hash(value: &str) -> (r: String)
    ensures
        r@ == hex16(fnv1a(value.spec_bytes())),
{
    let bytes = value.as_bytes();
    let mut hash: u64 = FNV_OFFSET;
    let mut i: usize = 0;
    while i < bytes.len()
        invariant
            i <= bytes@.len(),
            bytes@ == value.spec_bytes(),
            hash == fnv1a(bytes@.take(i as int)),
        decreases bytes.len() - i,
    {
        assert(bytes@.take(i + 1).drop_last() =~= bytes@.take(i as int));
        hash = hash ^ (bytes[i] as u64);
        hash = hash.wrapping_mul(FNV_PRIME);
        i = i + 1;
    }
    assert(bytes@.take(bytes@.len() as int) =~= bytes@);
    let mut out: Vec<char> = Vec::new();
    let mut k: u64 = 0;
    while k < 16
        invariant
            k <= 16,
            out@.len() == k,
            forall|j: int| 0 <= j < k ==> out@[j] == hex_digit((hash >> ((60 - 4 * j) as u64)) & 0xf),
        decreases 16 - k,
    {
        let shift: u64 = 60 - 4 * k;
        let d = (hash >> shift) & 0xf;
        assert(d < 16) by (bit_vector)
            requires
                d == (hash >> shift) & 0xf,
        ;
        out.push(hex_char(d));
        k = k + 1;
    }
    assert(out@ =~= hex16(hash));
    string_of(&out)
}


/// A process under the diagnosed target: its pid, its parent and a hash of
/// its command line, when it has one.
#[derive(Clone, Debug, PartialEq, Eq)]
pub struct AxProcessDiagnostic {
    pub pid: u32,
    pub parent_pid: Option<u32>,
    pub command_hash: Option<String>,
}

/// The characters of `t` with each run of whitespace turned into one space
/// before the next word; `pending` is whether such a run precedes `t`.
pub open spec fn collapse_ws(t: Seq<char>, pending: bool) -> Seq<char>
    decreases t.len(),
{
    if t.len() == 0 {
        Seq::empty()
    } else if is_ws(t[0]) {
        collapse_ws(t.drop_first(), true)
    } else {
        (if pending {
            seq![' ']
        } else {
            Seq::empty()
        }) + seq![t[0]] + collapse_ws(t.drop_first(), false)
    }
}

/// The whitespace-separated words of `s` joined by single spaces.
pub open spec fn joined_words(s: Seq<char>) -> Seq<char> {
    collapse_ws(trim_start(s), false)
}

/// The row of a `ps -axo pid=,ppid=,command=` line: its first two fields
/// read as numbers and the words after them; none when either number is
/// missing.
pub open spec fn ps_command_row(line: Seq<char>) -> Option<(u32, u32, Seq<char>)> {
    match ps_row(line) {
        Some((pid, ppid)) => Some((pid, ppid, joined_words(after_first_field(after_first_field(line))))),
        None => None,
    }
}

/// The rows of the lines that have one, in order.
pub open spec fn ps_command_rows(ls: Seq<Seq<char>>) -> Seq<(u32, u32, Seq<char>)>
    decreases ls.len(),
{
    if ls.len() == 0 {
        Seq::empty()
    } else {
        ps_command_rows(ls.drop_last()) + match ps_command_row(ls.last()) {
            Some(row) => seq![row],
            None => Seq::empty(),
        }
    }
}

fn joined_words_of(v: &Vec<char>) -> (r: Vec<char>)
    ensures
        r@ == joined_words(v@),
{
    let t = trim_start_chars(v);
    let mut out: Vec<char> = Vec::new();
    let mut pending = false;
    let mut i: usize = 0;
    assert(t@.skip(0) =~= t@);
    while i < t.len()
        invariant
            i <= t.len(),
            t@ == trim_start(v@),
            collapse_ws(t@, false) == out@ + collapse_ws(t@.skip(i as int), pending),
        decreases t.len() - i,
    {
        let c = t[i];
        assert(t@.skip(i as int).drop_first() =~= t@.skip(i + 1));
        assert(t@.skip(i as int)[0] == c);
        if is_whitespace(c) {
            pending = true;
        } else {
            let ghost before = out@;
            let ghost p = pending;
            if pending {
                out.push(' ');
            }
            out.push(c);
            pending = false;
            proof {
                let pre: Seq<char> = if p {
                    seq![' ']
                } else {
                    Seq::empty()
                };
                assert(out@ =~= before + pre + seq![c]);
                assert(before + (pre + seq![c] + collapse_ws(t@.skip(i + 1), false)) =~= out@
                    + collapse_ws(t@.skip(i + 1), false));
            }
        }
        i = i + 1;
    }
    assert(collapse_ws(t@.skip(i as int), pending) =~= Seq::<char>::empty());
    assert(out@ + Seq::<char>::empty() =~= out@);
    out
}

fn parse_ps_command_row(v: &Vec<char>) -> (r: Option<(u32, u32, Vec<char>)>)
    ensures
        match r {
            Some((p, q, c)) => ps_command_row(v@) == Some((p, q, c@)),
            None => ps_command_row(v@) is None,
        },
{
    assert(v@.skip(0) =~= v@);
    let (a, b) = next_field(v, 0);
    let (c, d) = next_field(v, b);
    let pid = parse_u32_chars(&subvec(v, a, b));
    let ppid = parse_u32_chars(&subvec(v, c, d));
    match (pid, ppid) {
        (Some(p), Some(q)) => {
            let rest = subvec(v, d, v.len());
            assert(rest@ =~= v@.skip(d as int));
            let words = joined_words_of(&rest);
            Some((p, q, words))
        },
        _ => None,
    }
}

/// The rows of `ps -axo pid=,ppid=,command=` output; lines without two
/// numbers are left out.
pub fn parse_ps_command_rows(text: &str) -> (r: Vec<(u32, u32, Vec<char>)>)
    ensures
        r@.len() == ps_command_rows(lines(text@)).len(),
        forall|k: int|
            0 <= k < r@.len() ==> {
                let row = ps_command_rows(lines(text@))[k];
                &&& (#[trigger] r@[k]).0 == row.0
                &&& r@[k].1 == row.1
                &&& r@[k].2@ == row.2
            },
{
    let v = chars_of(text);
    let ls = lines_of(&v);
    let mut rows: Vec<(u32, u32, Vec<char>)> = Vec::new();
    let mut i: usize = 0;
    while i < ls.len()
        invariant
            i <= ls.len(),
            ls@.len() == lines(text@).len(),
            v@ == text@,
            forall|k: int| 0 <= k < ls@.len() ==> #[trigger] ls@[k]@ == lines(text@)[k],
            rows@.len() == ps_command_rows(lines(text@).take(i as int)).len(),
            forall|k: int|
                0 <= k < rows@.len() ==> {
                    let row = ps_command_rows(lines(text@).take(i as int))[k];
                    &&& (#[trigger] rows@[k]).0 == row.0
                    &&& rows@[k].1 == row.1
                    &&& rows@[k].2@ == row.2
                },
        decreases ls.len() - i,
    {
        let row = parse_ps_command_row(&ls[i]);
        proof {
            let t = lines(text@).take(i + 1);
            assert(t.drop_last() =~= lines(text@).take(i as int));
            assert(t.last() == ls@[i as int]@);
        }
        match row {
            Some(r) => rows.push(r),
            None => {},
        }
        i = i + 1;
    }
    assert(lines(text@).take(lines(text@).len() as int) =~= lines(text@));
    rows
}

/// Whether `h` is the hash that stands for the command `cmd`: none for an
/// empty command, else the stable hash of its text.
pub open spec fn command_hash_matches(h: Option<String>, cmd: Seq<char>) -> bool {
    match h {
        Some(s) => cmd.len() > 0 && s@ == hex16(fnv1a(vstd::utf8::encode_utf8(cmd))),
        None => cmd.len() == 0,
    }
}

/// The pids of the diagnostics, in order.
pub open spec fn diagnostic_pids(ds: Seq<AxProcessDiagnostic>) -> Seq<u32> {
    ds.map_values(|d: AxProcessDiagnostic| d.pid)
}

/// Whether `pid` is the target or one of the processes listed so far.
pub open spec fn accepted_pid(main_pid: u32, ds: Seq<AxProcessDiagnostic>, pid: u32) -> bool {
    pid == main_pid || diagnostic_pids(ds).contains(pid)
}

/// Entry `i` of `ds` stands for a row of `rows` whose parent is the target
/// or a process listed before it.
pub open spec fn diagnostic_justified(
    main_pid: u32,
    rows: Seq<(u32, u32, Seq<char>)>,
    ds: Seq<AxProcessDiagnostic>,
    i: int,
) -> bool {
    exists|k: int|
        0 <= k < rows.len() && #[trigger] rows[k].0 == ds[i].pid && ds[i].parent_pid == Some(rows[k].1)
            && command_hash_matches(ds[i].command_hash, rows[k].2) && accepted_pid(
            main_pid,
            ds.take(i),
            rows[k].1,
        )
}

/// The processes under the target: each entry stands for a row whose
/// parent is the target or an earlier entry; no pid is listed twice or is
/// the target's; and every row whose parent is listed (or is the target)
/// is itself listed or is the target. Together: exactly the descendants of
/// the target in the process table.
pub open spec fn descendants_spec(
    main_pid: u32,
    rows: Seq<(u32, u32, Seq<char>)>,
    ds: Seq<AxProcessDiagnostic>,
) -> bool {
    &&& forall|i: int| 0 <= i < ds.len() ==> #[trigger] diagnostic_justified(main_pid, rows, ds, i)
    &&& (seq![main_pid] + diagnostic_pids(ds)).no_duplicates()
    &&& forall|k: int|
        0 <= k < rows.len() && accepted_pid(main_pid, ds, (#[trigger] rows[k]).1) ==> accepted_pid(
            main_pid,
            ds,
            rows[k].0,
        )
}

fn contains_pid(v: &Vec<u32>, x: u32) -> (r: bool)
    ensures
        r == v@.contains(x),
{
    let mut i: usize = 0;
    while i < v.len()
        invariant
            i <= v.len(),
            forall|j: int| 0 <= j < i ==> v@[j] != x,
        decreases v.len() - i,
    {
        if v[i] == x {
            return true;
        }
        i = i + 1;
    }
    false
}

proof fn lemma_accepted_bound(a: Seq<u32>, pids: Seq<u32>, main_pid: u32)
    requires
        a.no_duplicates(),
        forall|j: int| 0 <= j < a.len() ==> #[trigger] a[j] == main_pid || pids.contains(a[j]),
    ensures
        a.len() <= pids.len() + 1,
{
    let p = pids.push(main_pid);
    assert(a.to_set().subset_of(p.to_set())) by {
        assert forall|x: u32| a.to_set().contains(x) implies p.to_set().contains(x) by {
            let j = choose|j: int| 0 <= j < a.len() && a[j] == x;
            if x == main_pid {
                assert(p[pids.len() as int] == x);
            } else {
                let m = choose|m: int| 0 <= m < pids.len() && pids[m] == x;
                assert(p[m] == x);
            }
        }
    }
    a.unique_seq_to_set();
    p.lemma_cardinality_of_set();
    vstd::set_lib::lemma_len_subset(a.to_set(), p.to_set());
}

/// The processes that descend from `main_pid` in `ps -axo pid=,ppid=,command=`
/// output, found by passes over the table until a pass adds none; each with
/// its parent and the stable hash of its command line.
pub fn descendant_process_diagnostics(main_pid: u32, ps_output: &str) -> (r: Vec<AxProcessDiagnostic>)
    ensures
        descendants_spec(main_pid, ps_command_rows(lines(ps_output@)), r@),
{
    let rows = parse_ps_command_rows(ps_output);
    let ghost srows = ps_command_rows(lines(ps_output@));
    let ghost row_pids = srows.map_values(|r: (u32, u32, Seq<char>)| r.0);
    let mut accepted: Vec<u32> = vec![main_pid];
    let mut out: Vec<AxProcessDiagnostic> = Vec::new();
    let mut changed = true;
    assert(accepted@ =~= seq![main_pid] + diagnostic_pids(out@));
    while changed
        invariant
            rows@.len() == srows.len(),
            forall|k: int|
                0 <= k < rows@.len() ==> {
                    &&& (#[trigger] rows@[k]).0 == srows[k].0
                    &&& rows@[k].1 == srows[k].1
                    &&& rows@[k].2@ == srows[k].2
                },
            row_pids == srows.map_values(|r: (u32, u32, Seq<char>)| r.0),
            accepted@ == seq![main_pid] + diagnostic_pids(out@),
            accepted@.no_duplicates(),
            accepted@.len() <= srows.len() + 1,
            forall|i: int| 0 <= i < out@.len() ==> #[trigger] diagnostic_justified(main_pid, srows, out@, i),
            !changed ==> forall|k: int|
                0 <= k < srows.len() && accepted_pid(main_pid, out@, (#[trigger] srows[k]).1)
                    ==> accepted_pid(main_pid, out@, srows[k].0),
        decreases srows.len() + 2 - accepted@.len() + (if changed {
            1int
        } else {
            0int
        }),
    {
        let ghost start_len = accepted@.len();
        changed = false;
        let mut i: usize = 0;
        while i < rows.len()
            invariant
                i <= rows@.len(),
                rows@.len() == srows.len(),
                forall|k: int|
                    0 <= k < rows@.len() ==> {
                        &&& (#[trigger] rows@[k]).0 == srows[k].0
                        &&& rows@[k].1 == srows[k].1
                        &&& rows@[k].2@ == srows[k].2
                    },
                row_pids == srows.map_values(|r: (u32, u32, Seq<char>)| r.0),
                accepted@ == seq![main_pid] + diagnostic_pids(out@),
                accepted@.no_duplicates(),
                accepted@.len() <= srows.len() + 1,
                accepted@.len() >= start_len,
                changed ==> accepted@.len() > start_len,
                !changed ==> accepted@.len() == start_len,
                forall|i: int| 0 <= i < out@.len() ==> #[trigger] diagnostic_justified(main_pid, srows, out@, i),
                !changed ==> forall|k: int|
                    0 <= k < i && accepted_pid(main_pid, out@, (#[trigger] srows[k]).1)
                        ==> accepted_pid(main_pid, out@, srows[k].0),
            decreases rows@.len() - i,
        {
            let pid = rows[i].0;
            let parent = rows[i].1;
            let pid_in = contains_pid(&accepted, pid);
            let parent_in = contains_pid(&accepted, parent);
            proof {
                assert(accepted@.contains(pid) == accepted_pid(main_pid, out@, pid)) by {
                    if accepted@.contains(pid) {
                        let j = choose|j: int| 0 <= j < accepted@.len() && accepted@[j] == pid;
                        if j > 0 {
                            assert(diagnostic_pids(out@)[j - 1] == pid);
                        }
                    }
                    if diagnostic_pids(out@).contains(pid) {
                        let j = choose|j: int| 0 <= j < diagnostic_pids(out@).len() && diagnostic_pids(out@)[j] == pid;
                        assert(accepted@[j + 1] == pid);
                    }
                    if pid == main_pid {
                        assert(accepted@[0] == pid);
                    }
                }
                assert(accepted@.contains(parent) == accepted_pid(main_pid, out@, parent)) by {
                    if accepted@.contains(parent) {
                        let j = choose|j: int| 0 <= j < accepted@.len() && accepted@[j] == parent;
                        if j > 0 {
                            assert(diagnostic_pids(out@)[j - 1] == parent);
                        }
                    }
                    if diagnostic_pids(out@).contains(parent) {
                        let j = choose|j: int|
                            0 <= j < diagnostic_pids(out@).len() && diagnostic_pids(out@)[j] == parent;
                        assert(accepted@[j + 1] == parent);
                    }
                    if parent == main_pid {
                        assert(accepted@[0] == parent);
                    }
                }
            }
            if !pid_in && parent_in {
                let cmd = &rows[i].2;
                let hash = if cmd.len() > 0 {
                    let text = string_of(cmd);
                    Some(stable_hash(text.as_str()))
                } else {
                    None
                };
                let ghost old_out = out@;
                let ghost old_acc = accepted@;
                let d = AxProcessDiagnostic { pid, parent_pid: Some(parent), command_hash: hash };
                out.push(d);
                accepted.push(pid);
                changed = true;
                proof {
                    assert(diagnostic_pids(out@) =~= diagnostic_pids(old_out).push(pid));
                    assert(accepted@ =~= seq![main_pid] + diagnostic_pids(out@));
                    assert(accepted@ =~= old_acc.push(pid));
                    assert(accepted@.no_duplicates()) by {
                        assert forall|a: int, b: int|
                            0 <= a < accepted@.len() && 0 <= b < accepted@.len() && a != b
                                implies accepted@[a] != accepted@[b] by {
                            if a == old_acc.len() {
                                assert(old_acc[b] == accepted@[b]);
                            } else if b == old_acc.len() {
                                assert(old_acc[a] == accepted@[a]);
                            }
                        }
                    }
                    assert(out@.take(old_out.len() as int) =~= old_out);
                    assert forall|j: int| 0 <= j < out@.len() implies #[trigger] diagnostic_justified(
                        main_pid,
                        srows,
                        out@,
                        j,
                    ) by {
                        if j < old_out.len() {
                            assert(diagnostic_justified(main_pid, srows, old_out, j));
                            assert(out@.take(j) =~= old_out.take(j));
                            assert(out@[j] == old_out[j]);
                            let k = choose|k: int|
                                0 <= k < srows.len() && #[trigger] srows[k].0 == old_out[j].pid
                                    && old_out[j].parent_pid == Some(srows[k].1)
                                    && command_hash_matches(old_out[j].command_hash, srows[k].2)
                                    && accepted_pid(main_pid, old_out.take(j), srows[k].1);
                            assert(srows[k].0 == out@[j].pid);
                        } else {
                            assert(j == old_out.len());
                            assert(srows[i as int].0 == out@[j].pid);
                            assert(out@.take(j) =~= old_out);
                            assert(command_hash_matches(out@[j].command_hash, srows[i as int].2));
                        }
                    }
                    assert forall|a: int| 0 <= a < accepted@.len() implies #[trigger] accepted@[a]
                        == main_pid || row_pids.contains(accepted@[a]) by {
                        if a > 0 {
                            let q = a - 1;
                            assert(accepted@[a] == out@[q].pid);
                            assert(diagnostic_justified(main_pid, srows, out@, q));
                            let k = choose|k: int|
                                0 <= k < srows.len() && #[trigger] srows[k].0 == out@[q].pid
                                    && out@[q].parent_pid == Some(srows[k].1)
                                    && command_hash_matches(out@[q].command_hash, srows[k].2)
                                    && accepted_pid(main_pid, out@.take(q), srows[k].1);
                            assert(row_pids[k] == srows[k].0);
                        }
                    }
                    lemma_accepted_bound(accepted@, row_pids, main_pid);
                }
            }
            i = i + 1;
        }
    }
    out
}

/// Whether an element with this role is reported as a candidate input: a
/// text area, text field, combo box or web area.
pub open spec fn diagnostic_role_spec(role: Option<Seq<char>>) -> bool {
    match role {
        Some(r) => r == "AXTextArea"@ || r == "AXTextField"@ || r == "AXComboBox"@ || r == "AXWebArea"@,
        None => false,
    }
}

/// Whether an element with this role is reported as a candidate input.
pub fn is_diagnostic_candidate_role(role: Option<&str>) -> (r: bool)
    ensures
        r == diagnostic_role_spec(
            match role {
                Some(v) => Some(v@),
                None => None,
            },
        ),
{
    match role {
        Some(v) => str_eq(v, "AXTextArea") || str_eq(v, "AXTextField") || str_eq(v, "AXComboBox")
            || str_eq(v, "AXWebArea"),
        None => false,
    }
}

/// Whether the walk goes on into the children of an element at `depth`: only
/// above the depth limit, so that no child lies deeper than it.
pub fn walks_children(limits: &AxTraversalLimits, depth: usize) -> (r: bool)
    ensures
        r == (depth < limits.max_depth),
{
    depth < limits.max_depth
}

} // verus!
