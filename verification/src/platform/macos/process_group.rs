//! Which processes of a target application may own its composer.
use super::ProcessLaunchIdentity;
use crate::targets::opt_text;
use crate::text::{chars_of, is_whitespace, is_ws, lines, lines_of, parse_u32_chars, parse_u32_spec, str_eq, subvec, trim_start};
use vstd::prelude::*;

verus! {

/// The bundle of the WeChat application.
pub const WECHAT_BUNDLE_ID: &'static str = "com.tencent.xinWeChat";

/// The bundle of WeChat's browser helper application.
pub const WECHAT_APP_EX_BUNDLE_ID: &'static str = "com.tencent.flue.WeChatAppEx";

#[derive(Clone, Copy, Debug, PartialEq, Eq, Structural)]
pub enum ProcessScope {
    MainOnly,
    MainAndValidatedBrowserApplications,
}

/// The parent recorded for `pid`: that of the first row naming it.
pub open spec fn parent_of(rows: Seq<(u32, u32)>, pid: u32) -> Option<u32>
    decreases rows.len(),
{
    if rows.len() == 0 {
        None
    } else if rows[0].0 == pid {
        Some(rows[0].1)
    } else {
        parent_of(rows.drop_first(), pid)
    }
}

/// Whether `ancestor` is reached from `pid` within `steps` steps up the
/// recorded parents, stopping at a missing row, at pid 0 and at a process
/// that is its own parent.
pub open spec fn descends_within(rows: Seq<(u32, u32)>, pid: u32, ancestor: u32, steps: nat) -> bool
    decreases steps,
{
    if steps == 0 {
        false
    } else {
        match parent_of(rows, pid) {
            None => false,
            Some(parent) => parent == ancestor || (parent != 0 && parent != pid && descends_within(
                rows,
                parent,
                ancestor,
                (steps - 1) as nat,
            )),
        }
    }
}

/// The parent recorded for `pid`.
pub fn find_parent(rows: &Vec<(u32, u32)>, pid: u32) -> (r: Option<u32>)
    ensures
        r == parent_of(rows@, pid),
{
    let mut i: usize = 0;
    assert(rows@.skip(0) =~= rows@);
    while i < rows.len()
        invariant
            i <= rows.len(),
            parent_of(rows@, pid) == parent_of(rows@.skip(i as int), pid),
        decreases rows.len() - i,
    {
        assert(rows@.skip(i as int).drop_first() =~= rows@.skip(i + 1));
        assert(rows@.skip(i as int)[0] == rows@[i as int]);
        if rows[i].0 == pid {
            return Some(rows[i].1);
        }
        i = i + 1;
    }
    None
}

/// Whether `pid` descends from `ancestor` in the process table `rows`
/// (pid, parent pid), looking at most 32 generations up.
pub fn process_is_descendant(pid: u32, ancestor: u32, processes: &Vec<(u32, u32)>) -> (r: bool)
    ensures
        r == descends_within(processes@, pid, ancestor, 32),
{
    let mut current = pid;
    let mut steps: u32 = 32;
    while steps > 0
        invariant
            descends_within(processes@, pid, ancestor, 32) == descends_within(
                processes@,
                current,
                ancestor,
                steps as nat,
            ),
        decreases steps,
    {
        let parent = match find_parent(processes, current) {
            Some(p) => p,
            None => {
                return false;
            },
        };
        if parent == ancestor {
            return true;
        }
        if parent == 0 || parent == current {
            return false;
        }
        current = parent;
        steps = steps - 1;
    }
    false
}

/// The length of the run of non-whitespace characters that begins `s`.
pub open spec fn field_len(s: Seq<char>) -> nat
    decreases s.len(),
{
    if s.len() == 0 || is_ws(s[0]) {
        0
    } else {
        1 + field_len(s.drop_first())
    }
}

/// The first whitespace-separated field of `s`.
pub open spec fn first_field(s: Seq<char>) -> Seq<char> {
    trim_start(s).take(field_len(trim_start(s)) as int)
}

/// What follows the first whitespace-separated field of `s`.
pub open spec fn after_first_field(s: Seq<char>) -> Seq<char> {
    trim_start(s).skip(field_len(trim_start(s)) as int)
}

/// The row of a `ps -axo pid=,ppid=` line: its first two fields read as
/// numbers; none when either is missing or not a number.
pub open spec fn ps_row(line: Seq<char>) -> Option<(u32, u32)> {
    match (parse_u32_spec(first_field(line)), parse_u32_spec(first_field(after_first_field(line)))) {
        (Some(pid), Some(ppid)) => Some((pid, ppid)),
        _ => None,
    }
}

/// The rows of the lines that have one, in order.
pub open spec fn ps_rows(ls: Seq<Seq<char>>) -> Seq<(u32, u32)>
    decreases ls.len(),
{
    if ls.len() == 0 {
        Seq::empty()
    } else {
        ps_rows(ls.drop_last()) + match ps_row(ls.last()) {
            Some(row) => seq![row],
            None => Seq::empty(),
        }
    }
}

/// The bounds of the first whitespace-separated field of `v` from `from` on.
pub fn next_field(v: &Vec<char>, from: usize) -> (r: (usize, usize))
    requires
        from <= v.len(),
    ensures
        from <= r.0 <= r.1 <= v.len(),
        v@.subrange(r.0 as int, r.1 as int) == first_field(v@.skip(from as int)),
        v@.skip(r.1 as int) == after_first_field(v@.skip(from as int)),
{
    let mut i = from;
    while i < v.len() && is_whitespace(v[i])
        invariant
            from <= i <= v.len(),
            trim_start(v@.skip(from as int)) == trim_start(v@.skip(i as int)),
        decreases v.len() - i,
    {
        assert(v@.skip(i as int).drop_first() =~= v@.skip(i + 1));
        assert(v@.skip(i as int)[0] == v@[i as int]);
        i = i + 1;
    }
    if i < v.len() {
        assert(v@.skip(i as int)[0] == v@[i as int]);
    }
    assert(trim_start(v@.skip(i as int)) == v@.skip(i as int));
    let mut j = i;
    while j < v.len() && !is_whitespace(v[j])
        invariant
            i <= j <= v.len(),
            field_len(v@.skip(i as int)) == (j - i) + field_len(v@.skip(j as int)),
        decreases v.len() - j,
    {
        assert(v@.skip(j as int).drop_first() =~= v@.skip(j + 1));
        assert(v@.skip(j as int)[0] == v@[j as int]);
        j = j + 1;
    }
    if j < v.len() {
        assert(v@.skip(j as int)[0] == v@[j as int]);
    }
    assert(field_len(v@.skip(j as int)) == 0);
    assert(v@.skip(i as int).take((j - i) as int) =~= v@.subrange(i as int, j as int));
    assert(v@.skip(i as int).skip((j - i) as int) =~= v@.skip(j as int));
    (i, j)
}

/// The row of one `ps` line.
fn parse_ps_row(v: &Vec<char>) -> (r: Option<(u32, u32)>)
    ensures
        r == ps_row(v@),
{
    assert(v@.skip(0) =~= v@);
    let (a, b) = next_field(v, 0);
    let (c, d) = next_field(v, b);
    let pid = parse_u32_chars(&subvec(v, a, b));
    let ppid = parse_u32_chars(&subvec(v, c, d));
    match (pid, ppid) {
        (Some(p), Some(q)) => Some((p, q)),
        _ => None,
    }
}

/// The (pid, parent pid) rows of `ps -axo pid=,ppid=` output; lines without
/// two numbers are left out.
pub fn parse_ps_rows(text: &str) -> (r: Vec<(u32, u32)>)
    ensures
        r@ == ps_rows(lines(text@)),
{
    let v = chars_of(text);
    let ls = lines_of(&v);
    let mut rows: Vec<(u32, u32)> = Vec::new();
    let mut i: usize = 0;
    while i < ls.len()
        invariant
            i <= ls.len(),
            ls@.len() == lines(text@).len(),
            v@ == text@,
            forall|k: int| 0 <= k < ls@.len() ==> #[trigger] ls@[k]@ == lines(text@)[k],
            rows@ == ps_rows(lines(text@).take(i as int)),
        decreases ls.len() - i,
    {
        let row = parse_ps_row(&ls[i]);
        proof {
            let t = lines(text@).take(i + 1);
            assert(t.drop_last() =~= lines(text@).take(i as int));
            assert(t.last() == ls@[i as int]@);
        }
        match row {
            Some(r) => rows.push(r),
            None => {},
        }
        i = i + 1;
    }
    assert(lines(text@).take(lines(text@).len() as int) =~= lines(text@));
    rows
}

/// The extension of the last component of a path, as `std::path::Path`
/// reads it.
pub uninterp spec fn path_extension_of(path: Seq<char>) -> Option<Seq<char>>;

/// The path without its last component, as `std::path::Path` reads it.
pub uninterp spec fn path_parent_of(path: Seq<char>) -> Option<Seq<char>>;

/// Reads the extension of a path's last component with `Path::extension`.
/// The contract names the result; what `std` counts as a component and an
/// extension is not restated.
#[verifier::external_body]
fn path_extension(path: &str) -> (r: Option<String>)
    ensures
        opt_text(r) == path_extension_of(path@),
{
    std::path::Path::new(path).extension().map(|e| e.to_string_lossy().into_owned())
}

/// Reads a path without its last component with `Path::parent`. The
/// contract names the result.
#[verifier::external_body]
fn path_parent(path: &str) -> (r: Option<String>)
    ensures
        opt_text(r) == path_parent_of(path@),
{
    std::path::Path::new(path).parent().map(|p| p.to_string_lossy().into_owned())
}

/// The innermost `.app` bundle that holds a path: the path itself or the
/// nearest of its ancestors whose name has the extension `app`, looking at
/// most `fuel` levels up.
pub open spec fn bundle_root_within(path: Seq<char>, fuel: nat) -> Option<Seq<char>>
    decreases fuel,
{
    if fuel == 0 {
        None
    } else if path_extension_of(path) == Some("app"@) {
        Some(path)
    } else {
        match path_parent_of(path) {
            None => None,
            Some(parent) => bundle_root_within(parent, (fuel - 1) as nat),
        }
    }
}

/// The levels a path's bundle is searched for: every parent drops at least
/// one character, so a path has no more ancestors than characters.
pub open spec fn bundle_root_fuel(path: Seq<char>) -> nat {
    path.len() + 2
}

/// The `.app` bundle that holds an executable path.
pub fn app_bundle_root(path: &str) -> (r: Option<String>)
    ensures
        opt_text(r) == bundle_root_within(path@, bundle_root_fuel(path@)),
{
    let mut cursor = String::from_str(path);
    let mut fuel: u128 = path.unicode_len() as u128 + 2;
    while fuel > 0
        invariant
            bundle_root_within(path@, bundle_root_fuel(path@)) == bundle_root_within(cursor@, fuel as nat),
        decreases fuel,
    {
        match path_extension(cursor.as_str()) {
            Some(e) => if str_eq(e.as_str(), "app") {
                return Some(cursor);
            },
            None => {},
        }
        match path_parent(cursor.as_str()) {
            None => {
                return None;
            },
            Some(parent) => {
                cursor = parent;
            },
        }
        fuel = fuel - 1;
    }
    None
}

/// The role of a trusted process of the target.
#[derive(Clone, Copy, Debug, PartialEq, Eq, Structural)]
pub enum ProcessRole {
    MainApplication,
    BrowserApplication,
}

/// A process that may own the target's composer.
pub struct TrustedProcess {
    pub pid: u32,
    pub role: ProcessRole,
    pub bundle_id: String,
    pub executable_path: String,
}

/// What is known of a running process: its pid and parent, bundle,
/// executable path, launch time and the frame of its window, if it has one.
pub struct ProcessSnapshot<W> {
    pub pid: u32,
    pub parent_pid: u32,
    pub bundle_id: String,
    pub executable_path: String,
    pub launch_identity: ProcessLaunchIdentity,
    pub window_frame: Option<W>,
}

/// Why the target's processes could not be resolved.
#[derive(Clone, Copy, Debug, PartialEq, Eq, Structural)]
pub enum ProcessGroupError {
    MainProcessMissing,
    MainProcessReplaced,
    MissingRequiredWindow,
}

/// What a trusted process is: pid, role, bundle and executable path.
pub open spec fn trusted_view(t: TrustedProcess) -> (u32, ProcessRole, Seq<char>, Seq<char>) {
    (t.pid, t.role, t.bundle_id@, t.executable_path@)
}

/// The trusted process a snapshot stands for in a role.
pub open spec fn snapshot_trusted<W>(p: ProcessSnapshot<W>, role: ProcessRole) -> (u32, ProcessRole, Seq<char>, Seq<char>) {
    (p.pid, role, p.bundle_id@, p.executable_path@)
}

/// The process table (pid, parent pid) of the snapshots.
pub open spec fn snapshot_rows<W>(s: Seq<ProcessSnapshot<W>>) -> Seq<(u32, u32)> {
    s.map_values(|p: ProcessSnapshot<W>| (p.pid, p.parent_pid))
}

/// The index of the first snapshot of the main process: its pid and bundle.
pub open spec fn main_index<W>(s: Seq<ProcessSnapshot<W>>, main_pid: u32, main_bundle_id: Seq<char>) -> Option<int>
    decreases s.len(),
{
    if s.len() == 0 {
        None
    } else if s[0].pid == main_pid && s[0].bundle_id@ == main_bundle_id {
        Some(0)
    } else {
        match main_index(s.drop_first(), main_pid, main_bundle_id) {
            Some(i) => Some(i + 1),
            None => None,
        }
    }
}

/// Whether a snapshot may join the main WeChat process as its browser
/// application, before its window is compared with the captured one: it is
/// WeChat's helper, descends from the main process, lives in the main
/// process's bundle, and has a window.
pub open spec fn helper_candidate<W>(
    p: ProcessSnapshot<W>,
    rows: Seq<(u32, u32)>,
    main_pid: u32,
    main_bundle_id: Seq<char>,
    main_root: Seq<char>,
) -> bool {
    &&& p.bundle_id@ == WECHAT_APP_EX_BUNDLE_ID@
    &&& main_bundle_id == WECHAT_BUNDLE_ID@
    &&& descends_within(rows, p.pid, main_pid, 32)
    &&& bundle_root_within(p.executable_path@, bundle_root_fuel(p.executable_path@)) == Some(main_root)
    &&& p.window_frame is Some
}

/// The snapshots marked in `chosen`, as browser applications, in order.
pub open spec fn chosen_helpers<W>(s: Seq<ProcessSnapshot<W>>, chosen: Seq<bool>) -> Seq<(u32, ProcessRole, Seq<char>, Seq<char>)>
    decreases s.len(),
{
    if s.len() == 0 || chosen.len() == 0 {
        Seq::empty()
    } else {
        chosen_helpers(s.drop_last(), chosen.drop_last()) + if chosen.last() {
            seq![snapshot_trusted(s.last(), ProcessRole::BrowserApplication)]
        } else {
            Seq::empty()
        }
    }
}

/// Whether a snapshot is marked exactly when it is a helper candidate whose
/// window `overlaps` found to overlap the captured window.
pub open spec fn marked_exactly<W, M>(
    p: ProcessSnapshot<W>,
    marked: bool,
    rows: Seq<(u32, u32)>,
    main_pid: u32,
    main_bundle_id: Seq<char>,
    main_root: Seq<char>,
    captured: W,
    overlaps: M,
) -> bool where M: Fn(&W, &W) -> bool {
    &&& marked ==> helper_candidate(p, rows, main_pid, main_bundle_id, main_root)
    &&& helper_candidate(p, rows, main_pid, main_bundle_id, main_root) ==> exists|f: &W, c: &W|
        Some(*f) == p.window_frame && *c == captured && #[trigger] call_ensures(overlaps, (f, c), marked)
}

/// `chosen` marks exactly the helper candidates whose window `overlaps`
/// found to overlap the captured window.
pub open spec fn helpers_chosen<W, M>(
    s: Seq<ProcessSnapshot<W>>,
    chosen: Seq<bool>,
    rows: Seq<(u32, u32)>,
    main_pid: u32,
    main_bundle_id: Seq<char>,
    main_root: Seq<char>,
    captured: W,
    overlaps: M,
) -> bool where M: Fn(&W, &W) -> bool {
    &&& chosen.len() == s.len()
    &&& forall|i: int|
        0 <= i < s.len() ==> #[trigger] marked_exactly(
            s[i],
            chosen[i],
            rows,
            main_pid,
            main_bundle_id,
            main_root,
            captured,
            overlaps,
        )
}

/// The main process followed by the helpers marked exactly by some marking.
pub open spec fn with_helpers<W, M>(
    snapshots: Seq<ProcessSnapshot<W>>,
    main_pid: u32,
    main_bundle_id: Seq<char>,
    root: Seq<char>,
    captured: W,
    overlaps: M,
    first: Seq<(u32, ProcessRole, Seq<char>, Seq<char>)>,
    r: Result<Seq<(u32, ProcessRole, Seq<char>, Seq<char>)>, ProcessGroupError>,
) -> bool where M: Fn(&W, &W) -> bool {
    exists|chosen: Seq<bool>|
        #[trigger] helpers_chosen(
            snapshots,
            chosen,
            snapshot_rows(snapshots),
            main_pid,
            main_bundle_id,
            root,
            captured,
            overlaps,
        ) && r == Ok::<Seq<(u32, ProcessRole, Seq<char>, Seq<char>)>, ProcessGroupError>(
            first + chosen_helpers(snapshots, chosen),
        )
}

proof fn lemma_with_helpers<W, M>(
    snapshots: Seq<ProcessSnapshot<W>>,
    main_pid: u32,
    main_bundle_id: Seq<char>,
    root: Seq<char>,
    captured: W,
    overlaps: M,
    first: Seq<(u32, ProcessRole, Seq<char>, Seq<char>)>,
    chosen: Seq<bool>,
    r: Result<Seq<(u32, ProcessRole, Seq<char>, Seq<char>)>, ProcessGroupError>,
) where M: Fn(&W, &W) -> bool
    requires
        helpers_chosen(snapshots, chosen, snapshot_rows(snapshots), main_pid, main_bundle_id, root, captured, overlaps),
        r == Ok::<Seq<(u32, ProcessRole, Seq<char>, Seq<char>)>, ProcessGroupError>(
            first + chosen_helpers(snapshots, chosen),
        ),
    ensures
        with_helpers(snapshots, main_pid, main_bundle_id, root, captured, overlaps, first, r),
{
}

/// The trusted processes of a target: the main process, found by pid and
/// bundle and unchanged since capture; for a target that allows them, also
/// WeChat's browser helpers inside the main bundle, descending from the
/// main process, whose window overlaps the captured one.
pub open spec fn process_group_spec<W, M>(
    snapshots: Seq<ProcessSnapshot<W>>,
    main_pid: u32,
    main_bundle_id: Seq<char>,
    main_launch_identity: ProcessLaunchIdentity,
    captured_window: Option<W>,
    scope: ProcessScope,
    overlaps: M,
    r: Result<Seq<(u32, ProcessRole, Seq<char>, Seq<char>)>, ProcessGroupError>,
) -> bool where M: Fn(&W, &W) -> bool {
    match main_index(snapshots, main_pid, main_bundle_id) {
        None => r == Err::<Seq<(u32, ProcessRole, Seq<char>, Seq<char>)>, ProcessGroupError>(
            ProcessGroupError::MainProcessMissing,
        ),
        Some(m) => {
            let main = snapshots[m];
            let first = seq![snapshot_trusted(main, ProcessRole::MainApplication)];
            if main.launch_identity != main_launch_identity {
                r == Err::<Seq<(u32, ProcessRole, Seq<char>, Seq<char>)>, ProcessGroupError>(
                    ProcessGroupError::MainProcessReplaced,
                )
            } else if scope == ProcessScope::MainOnly {
                r == Ok::<Seq<(u32, ProcessRole, Seq<char>, Seq<char>)>, ProcessGroupError>(first)
            } else {
                match captured_window {
                    None => r == Err::<Seq<(u32, ProcessRole, Seq<char>, Seq<char>)>, ProcessGroupError>(
                        ProcessGroupError::MissingRequiredWindow,
                    ),
                    Some(captured) => match bundle_root_within(
                        main.executable_path@,
                        bundle_root_fuel(main.executable_path@),
                    ) {
                        None => r == Ok::<Seq<(u32, ProcessRole, Seq<char>, Seq<char>)>, ProcessGroupError>(
                            first,
                        ),
                        Some(root) => with_helpers(snapshots, main_pid, main_bundle_id, root, captured, overlaps, first, r),
                    },
                }
            }
        },
    }
}

/// The views of a resolved process group.
pub open spec fn group_view(r: Result<Vec<TrustedProcess>, ProcessGroupError>) -> Result<
    Seq<(u32, ProcessRole, Seq<char>, Seq<char>)>,
    ProcessGroupError,
> {
    match r {
        Ok(v) => Ok(v@.map_values(|t: TrustedProcess| trusted_view(t))),
        Err(e) => Err(e),
    }
}

fn trusted_from<W>(p: &ProcessSnapshot<W>, role: ProcessRole) -> (t: TrustedProcess)
    ensures
        trusted_view(t) == snapshot_trusted(*p, role),
{
    TrustedProcess {
        pid: p.pid,
        role,
        bundle_id: p.bundle_id.clone(),
        executable_path: p.executable_path.clone(),
    }
}

fn snapshot_rows_of<W>(snapshots: &Vec<ProcessSnapshot<W>>) -> (rows: Vec<(u32, u32)>)
    ensures
        rows@ == snapshot_rows(snapshots@),
{
    let mut rows: Vec<(u32, u32)> = Vec::new();
    let mut i: usize = 0;
    while i < snapshots.len()
        invariant
            i <= snapshots.len(),
            rows@ == snapshot_rows(snapshots@.take(i as int)),
        decreases snapshots.len() - i,
    {
        rows.push((snapshots[i].pid, snapshots[i].parent_pid));
        i = i + 1;
        assert(snapshot_rows(snapshots@.take(i as int)) =~= rows@);
    }
    assert(snapshots@.take(snapshots@.len() as int) =~= snapshots@);
    rows
}

fn find_main<W>(snapshots: &Vec<ProcessSnapshot<W>>, main_pid: u32, main_bundle_id: &str) -> (r: Option<usize>)
    ensures
        match r {
            Some(i) => main_index(snapshots@, main_pid, main_bundle_id@) == Some(i as int) && i
                < snapshots.len(),
            None => main_index(snapshots@, main_pid, main_bundle_id@) is None,
        },
{
    let mut i: usize = 0;
    assert(snapshots@.skip(0) =~= snapshots@);
    while i < snapshots.len()
        invariant
            i <= snapshots.len(),
            main_index(snapshots@, main_pid, main_bundle_id@) == match main_index(
                snapshots@.skip(i as int),
                main_pid,
                main_bundle_id@,
            ) {
                Some(k) => Some(k + i),
                None => None::<int>,
            },
        decreases snapshots.len() - i,
    {
        assert(snapshots@.skip(i as int).drop_first() =~= snapshots@.skip(i + 1));
        assert(snapshots@.skip(i as int)[0] == snapshots@[i as int]);
        if snapshots[i].pid == main_pid && str_eq(snapshots[i].bundle_id.as_str(), main_bundle_id) {
            return Some(i);
        }
        i = i + 1;
    }
    None
}

/// Marking one more snapshot keeps the marks exact and adds the snapshot to
/// the chosen helpers when it is marked.
proof fn lemma_extend_chosen<W, M>(
    s: Seq<ProcessSnapshot<W>>,
    chosen: Seq<bool>,
    rows: Seq<(u32, u32)>,
    main_pid: u32,
    main_bundle_id: Seq<char>,
    main_root: Seq<char>,
    captured: W,
    overlaps: M,
    next: ProcessSnapshot<W>,
    take: bool,
) where M: Fn(&W, &W) -> bool
    requires
        helpers_chosen(s, chosen, rows, main_pid, main_bundle_id, main_root, captured, overlaps),
        take ==> helper_candidate(next, rows, main_pid, main_bundle_id, main_root),
        helper_candidate(next, rows, main_pid, main_bundle_id, main_root) ==> exists|f: &W, c: &W|
            Some(*f) == next.window_frame && *c == captured && #[trigger] call_ensures(overlaps, (f, c), take),
    ensures
        helpers_chosen(s.push(next), chosen.push(take), rows, main_pid, main_bundle_id, main_root, captured, overlaps),
        chosen_helpers(s.push(next), chosen.push(take)) == chosen_helpers(s, chosen) + if take {
            seq![snapshot_trusted(next, ProcessRole::BrowserApplication)]
        } else {
            Seq::empty()
        },
{
    let s2 = s.push(next);
    let c2 = chosen.push(take);
    assert(s2.drop_last() =~= s);
    assert(c2.drop_last() =~= chosen);
    assert forall|k: int| 0 <= k < s2.len() implies #[trigger] marked_exactly(
        s2[k],
        c2[k],
        rows,
        main_pid,
        main_bundle_id,
        main_root,
        captured,
        overlaps,
    ) by {
        if k < s.len() {
            assert(s2[k] == s[k]);
            assert(c2[k] == chosen[k]);
            assert(marked_exactly(s[k], chosen[k], rows, main_pid, main_bundle_id, main_root, captured, overlaps));
        } else {
            assert(s2[k] == next);
            assert(c2[k] == take);
        }
    }
}

/// Resolves the trusted processes of a target from the running processes;
/// `overlaps` tells whether two window frames overlap.
pub fn resolve_process_group<W, M>(
    main_pid: u32,
    main_bundle_id: &str,
    main_launch_identity: ProcessLaunchIdentity,
    captured_window: Option<&W>,
    scope: ProcessScope,
    snapshots: &Vec<ProcessSnapshot<W>>,
    overlaps: &M,
) -> (r: Result<Vec<TrustedProcess>, ProcessGroupError>) where M: Fn(&W, &W) -> bool
    requires
        forall|a: &W, b: &W| call_requires(*overlaps, (a, b)),
    ensures
        process_group_spec(
            snapshots@,
            main_pid,
            main_bundle_id@,
            main_launch_identity,
            match captured_window {
                Some(w) => Some(*w),
                None => None,
            },
            scope,
            *overlaps,
            group_view(r),
        ),
{
    let m = match find_main(snapshots, main_pid, main_bundle_id) {
        Some(m) => m,
        None => {
            return Err(ProcessGroupError::MainProcessMissing);
        },
    };
    let main = &snapshots[m];
    if main.launch_identity != main_launch_identity {
        return Err(ProcessGroupError::MainProcessReplaced);
    }
    let mut trusted: Vec<TrustedProcess> = Vec::new();
    trusted.push(trusted_from(main, ProcessRole::MainApplication));
    let ghost first = seq![snapshot_trusted(snapshots@[m as int], ProcessRole::MainApplication)];
    assert(trusted@.map_values(|t: TrustedProcess| trusted_view(t)) =~= first);
    if scope == ProcessScope::MainOnly {
        return Ok(trusted);
    }
    let captured = match captured_window {
        Some(w) => w,
        None => {
            return Err(ProcessGroupError::MissingRequiredWindow);
        },
    };
    let main_root = match app_bundle_root(main.executable_path.as_str()) {
        Some(root) => root,
        None => {
            return Ok(trusted);
        },
    };
    let rows = snapshot_rows_of(snapshots);
    let is_wechat = str_eq(main_bundle_id, WECHAT_BUNDLE_ID);
    let ghost mut chosen: Seq<bool> = Seq::empty();
    let mut i: usize = 0;
    while i < snapshots.len()
        invariant
            i <= snapshots.len(),
            chosen.len() == i,
            rows@ == snapshot_rows(snapshots@),
            is_wechat == (main_bundle_id@ == WECHAT_BUNDLE_ID@),
            forall|a: &W, b: &W| call_requires(*overlaps, (a, b)),
            helpers_chosen(
                snapshots@.take(i as int),
                chosen,
                rows@,
                main_pid,
                main_bundle_id@,
                main_root@,
                *captured,
                *overlaps,
            ),
            trusted@.map_values(|t: TrustedProcess| trusted_view(t)) == first + chosen_helpers(
                snapshots@.take(i as int),
                chosen,
            ),
        decreases snapshots.len() - i,
    {
        let candidate = &snapshots[i];
        let ghost before = trusted@;
        let mut take = false;
        let mut eligible = false;
        let ghost mut witness: Option<&W> = None;
        if is_wechat && str_eq(candidate.bundle_id.as_str(), WECHAT_APP_EX_BUNDLE_ID)
            && process_is_descendant(candidate.pid, main_pid, &rows) {
            match app_bundle_root(candidate.executable_path.as_str()) {
                Some(root) => if str_eq(root.as_str(), main_root.as_str()) {
                    match &candidate.window_frame {
                        Some(frame) => {
                            eligible = true;
                            take = overlaps(frame, captured);
                            proof {
                                witness = Some(frame);
                            }
                            assert(call_ensures(*overlaps, (frame, captured), take));
                        },
                        None => {},
                    }
                },
                None => {},
            }
        }
        assert(eligible == helper_candidate(snapshots@[i as int], rows@, main_pid, main_bundle_id@, main_root@));
        assert(eligible ==> witness is Some && Some(*witness.unwrap()) == snapshots@[i as int].window_frame
            && call_ensures(*overlaps, (witness.unwrap(), captured), take));
        assert(take ==> eligible);
        if take {
            let t = trusted_from(candidate, ProcessRole::BrowserApplication);
            trusted.push(t);
            assert(trusted@.map_values(|t: TrustedProcess| trusted_view(t)) =~= before.map_values(
                |t: TrustedProcess| trusted_view(t),
            ).push(snapshot_trusted(snapshots@[i as int], ProcessRole::BrowserApplication)));
        } else {
            assert(trusted@ == before);
        }
        proof {
            assert(snapshots@.take(i + 1) =~= snapshots@.take(i as int).push(snapshots@[i as int]));
            if eligible {
                let f = witness.unwrap();
                assert(Some(*f) == snapshots@[i as int].window_frame && *captured == *captured
                    && call_ensures(*overlaps, (f, captured), take));
            }
            lemma_extend_chosen(snapshots@.take(i as int), chosen, rows@, main_pid, main_bundle_id@,
                main_root@, *captured, *overlaps, snapshots@[i as int], take);
            chosen = chosen.push(take);
        }
        assert(trusted@.map_values(|t: TrustedProcess| trusted_view(t)) =~= first + chosen_helpers(
            snapshots@.take(i + 1),
            chosen,
        ));
        i = i + 1;
    }
    assert(snapshots@.take(snapshots@.len() as int) =~= snapshots@);
    assert(helpers_chosen(snapshots@, chosen, snapshot_rows(snapshots@), main_pid, main_bundle_id@,
        main_root@, *captured, *overlaps));
    let r = Ok(trusted);
    assert(group_view(r) == Ok::<Seq<(u32, ProcessRole, Seq<char>, Seq<char>)>, ProcessGroupError>(
        first + chosen_helpers(snapshots@, chosen)));
    proof {
        lemma_with_helpers(snapshots@, main_pid, main_bundle_id@, main_root@, *captured, *overlaps, first,
            chosen, group_view(r));
    }
    r
}

/// Whether the numbers of `s` strictly increase.
pub open spec fn strictly_increasing(s: Seq<u32>) -> bool {
    forall|i: int, j: int| 0 <= i < j < s.len() ==> s[i] < s[j]
}

/// Adds `x` to a strictly increasing vector, keeping it so.
fn insert_sorted_unique(v: &mut Vec<u32>, x: u32)
    requires
        strictly_increasing(old(v)@),
    ensures
        strictly_increasing(final(v)@),
        final(v)@.to_set() == old(v)@.to_set().insert(x),
{
    let mut i: usize = 0;
    while i < v.len() && v[i] < x
        invariant
            i <= v.len(),
            forall|k: int| 0 <= k < i ==> v@[k] < x,
        decreases v.len() - i,
    {
        i = i + 1;
    }
    if i < v.len() && v[i] == x {
        assert(v@.to_set().insert(x) =~= v@.to_set());
        return;
    }
    let ghost before = v@;
    v.insert(i, x);
    assert(v@ =~= before.insert(i as int, x));
    assert forall|a: int, b: int| 0 <= a < b < v@.len() implies v@[a] < v@[b] by {
        if b < i {
        } else if b == i {
        } else if a < i {
            assert(v@[b] == before[b - 1]);
        } else if a == i {
            assert(v@[b] == before[b - 1]);
            assert(before[i as int] > x);
            if b - 1 > i {
                assert(before[i as int] < before[b - 1]);
            }
        } else {
            assert(v@[a] == before[a - 1]);
            assert(v@[b] == before[b - 1]);
        }
    }
    assert forall|y: u32| v@.to_set().contains(y) <==> before.to_set().insert(x).contains(y) by {
        if v@.to_set().contains(y) {
            let k = choose|k: int| 0 <= k < v@.len() && v@[k] == y;
            if k < i {
                assert(before[k] == y);
            } else if k > i {
                assert(before[k - 1] == y);
            }
        }
        if before.to_set().contains(y) {
            let k = choose|k: int| 0 <= k < before.len() && before[k] == y;
            if k < i {
                assert(v@[k] == y);
            } else {
                assert(v@[k + 1] == y);
            }
        }
        if y == x {
            assert(v@[i as int] == x);
        }
    }
    assert(v@.to_set() =~= before.to_set().insert(x));
}

/// What checking a process as WeChat's helper found (`ok`): its bundle is
/// the helper's, its launch time can be read, it descends from the main
/// process, and its executable lies in the main bundle `main_root`; when not
/// ok, one of these failed.
pub open spec fn helper_pid_checked<E, B, L>(
    pid: u32,
    rows: Seq<(u32, u32)>,
    main_pid: u32,
    main_root: Seq<char>,
    executable_path_of: E,
    bundle_of: B,
    launch_of: L,
    ok: bool,
) -> bool where
    E: Fn(u32) -> Option<String>,
    B: Fn(u32) -> Option<String>,
    L: Fn(u32) -> Option<ProcessLaunchIdentity>,
 {
    if ok {
        &&& exists|b: String| #[trigger] call_ensures(bundle_of, (pid,), Some(b)) && b@ == WECHAT_APP_EX_BUNDLE_ID@
        &&& exists|l: ProcessLaunchIdentity| #[trigger] call_ensures(launch_of, (pid,), Some(l))
        &&& descends_within(rows, pid, main_pid, 32)
        &&& exists|path: String|
            #[trigger] call_ensures(executable_path_of, (pid,), Some(path)) && bundle_root_within(
                path@,
                bundle_root_fuel(path@),
            ) == Some(main_root)
    } else {
        ||| exists|b: Option<String>|
            #[trigger] call_ensures(bundle_of, (pid,), b) && !(b matches Some(x) && x@ == WECHAT_APP_EX_BUNDLE_ID@)
        ||| call_ensures(launch_of, (pid,), None)
        ||| !descends_within(rows, pid, main_pid, 32)
        ||| exists|path: Option<String>|
            #[trigger] call_ensures(executable_path_of, (pid,), path) && !(path matches Some(x)
                && bundle_root_within(x@, bundle_root_fuel(x@)) == Some(main_root))
    }
}

/// The pids in `rows` marked valid, with `main_pid`.
pub open spec fn candidate_pid_set(main_pid: u32, rows: Seq<(u32, u32)>, valid: Seq<bool>) -> Set<u32> {
    Set::new(|p: u32| p == main_pid || exists|i: int| 0 <= i < rows.len() && #[trigger] valid[i] && rows[i].0 == p)
}

fn check_helper_pid<E, B, L>(
    pid: u32,
    rows: &Vec<(u32, u32)>,
    main_pid: u32,
    main_root: &str,
    executable_path_of: &E,
    bundle_of: &B,
    launch_of: &L,
) -> (ok: bool) where
    E: Fn(u32) -> Option<String>,
    B: Fn(u32) -> Option<String>,
    L: Fn(u32) -> Option<ProcessLaunchIdentity>,

    requires
        forall|p: u32| call_requires(*executable_path_of, (p,)),
        forall|p: u32| call_requires(*bundle_of, (p,)),
        forall|p: u32| call_requires(*launch_of, (p,)),
    ensures
        helper_pid_checked(pid, rows@, main_pid, main_root@, *executable_path_of, *bundle_of, *launch_of, ok),
{
    let b = bundle_of(pid);
    let ghost bg = b;
    let is_helper = match &b {
        Some(x) => str_eq(x.as_str(), WECHAT_APP_EX_BUNDLE_ID),
        None => false,
    };
    assert(call_ensures(*bundle_of, (pid,), bg));
    if !is_helper {
        return false;
    }
    assert(call_ensures(*bundle_of, (pid,), Some(bg.unwrap())) && bg.unwrap()@ == WECHAT_APP_EX_BUNDLE_ID@);
    let l = launch_of(pid);
    let ghost lg = l;
    assert(call_ensures(*launch_of, (pid,), lg));
    if l.is_none() {
        return false;
    }
    assert(call_ensures(*launch_of, (pid,), Some(lg.unwrap())));
    if !process_is_descendant(pid, main_pid, rows) {
        return false;
    }
    let path = executable_path_of(pid);
    let ghost pg = path;
    let in_bundle = match &path {
        Some(x) => match app_bundle_root(x.as_str()) {
            Some(root) => str_eq(root.as_str(), main_root),
            None => false,
        },
        None => false,
    };
    assert(call_ensures(*executable_path_of, (pid,), pg));
    if in_bundle {
        assert(call_ensures(*executable_path_of, (pid,), Some(pg.unwrap())) && bundle_root_within(
            pg.unwrap()@,
            bundle_root_fuel(pg.unwrap()@),
        ) == Some(main_root@));
    }
    in_bundle
}

/// The pids that may own WeChat's composer: the main process and, for
/// WeChat, every running process that passes the helper check against the
/// main process's bundle, sorted and without repeats. `executable_path_of`,
/// `bundle_of` and `launch_of` read a process's executable path, bundle and
/// launch time; `ps_output` runs `ps -axo pid=,ppid=`.
pub fn discover_trusted_candidate_pids<E, F, B, L>(
    main_pid: u32,
    main_bundle_id: &str,
    executable_path_of: &E,
    ps_output: F,
    bundle_of: &B,
    launch_of: &L,
) -> (r: Vec<u32>) where
    E: Fn(u32) -> Option<String>,
    F: FnOnce() -> Option<String>,
    B: Fn(u32) -> Option<String>,
    L: Fn(u32) -> Option<ProcessLaunchIdentity>,

    requires
        forall|p: u32| call_requires(*executable_path_of, (p,)),
        call_requires(ps_output, ()),
        forall|p: u32| call_requires(*bundle_of, (p,)),
        forall|p: u32| call_requires(*launch_of, (p,)),
    ensures
        strictly_increasing(r@),
        main_bundle_id@ != WECHAT_BUNDLE_ID@ ==> r@ == seq![main_pid],
        r@ == seq![main_pid] || exists|
            main_path: String,
            out: String,
            valid: Seq<bool>,
        |
            #[trigger] call_ensures(*executable_path_of, (main_pid,), Some(main_path)) && #[trigger] call_ensures(
                ps_output,
                (),
                Some(out),
            ) && bundle_root_within(main_path@, bundle_root_fuel(main_path@)) is Some && valid.len()
                == ps_rows(lines(out@)).len() && (forall|i: int|
                0 <= i < valid.len() ==> #[trigger] helper_pid_checked(
                    ps_rows(lines(out@))[i].0,
                    ps_rows(lines(out@)),
                    main_pid,
                    bundle_root_within(main_path@, bundle_root_fuel(main_path@)).unwrap(),
                    *executable_path_of,
                    *bundle_of,
                    *launch_of,
                    valid[i],
                )) && r@.to_set() == #[trigger] candidate_pid_set(main_pid, ps_rows(lines(out@)), valid),
{
    let mut result: Vec<u32> = Vec::new();
    result.push(main_pid);
    if !str_eq(main_bundle_id, WECHAT_BUNDLE_ID) {
        return result;
    }
    let main_path = match executable_path_of(main_pid) {
        Some(p) => p,
        None => {
            return result;
        },
    };
    let main_root = match app_bundle_root(main_path.as_str()) {
        Some(root) => root,
        None => {
            return result;
        },
    };
    let out = match ps_output() {
        Some(o) => o,
        None => {
            return result;
        },
    };
    let rows = parse_ps_rows(out.as_str());
    let ghost mut valid: Seq<bool> = Seq::empty();
    let mut i: usize = 0;
    assert forall|p: u32| result@.to_set().contains(p) <==> candidate_pid_set(main_pid, rows@.take(0), valid).contains(p) by {
        if result@.to_set().contains(p) {
            assert(result@.contains(p));
            let k = choose|k: int| 0 <= k < result@.len() && result@[k] == p;
            assert(p == main_pid);
        }
        if p == main_pid {
            assert(result@[0] == p);
            assert(result@.contains(p));
        }
    }
    assert(result@.to_set() =~= candidate_pid_set(main_pid, rows@.take(0), valid));
    while i < rows.len()
        invariant
            i <= rows.len(),
            valid.len() == i,
            strictly_increasing(result@),
            forall|p: u32| call_requires(*executable_path_of, (p,)),
            forall|p: u32| call_requires(*bundle_of, (p,)),
            forall|p: u32| call_requires(*launch_of, (p,)),
            forall|k: int|
                0 <= k < i ==> #[trigger] helper_pid_checked(
                    rows@[k].0,
                    rows@,
                    main_pid,
                    main_root@,
                    *executable_path_of,
                    *bundle_of,
                    *launch_of,
                    valid[k],
                ),
            result@.to_set() == candidate_pid_set(main_pid, rows@.take(i as int), valid),
        decreases rows.len() - i,
    {
        let pid = rows[i].0;
        let ok = check_helper_pid(pid, &rows, main_pid, main_root.as_str(), executable_path_of, bundle_of, launch_of);
        let ghost before = result@.to_set();
        if ok {
            insert_sorted_unique(&mut result, pid);
        }
        proof {
            let v2 = valid.push(ok);
            assert(before == candidate_pid_set(main_pid, rows@.take(i as int), valid));
            assert forall|p: u32| #[trigger] result@.to_set().contains(p) <==> candidate_pid_set(
                main_pid,
                rows@.take(i + 1),
                v2,
            ).contains(p) by {
                if ok {
                    assert(result@.to_set() == before.insert(pid));
                } else {
                    assert(result@.to_set() == before);
                }
                if candidate_pid_set(main_pid, rows@.take(i + 1), v2).contains(p) && p != main_pid {
                    let k = choose|k: int| 0 <= k < rows@.take(i + 1).len() && #[trigger] v2[k] && rows@.take(i + 1)[k].0 == p;
                    if k < i {
                        assert(valid[k] && rows@.take(i as int)[k].0 == p);
                        assert(before.contains(p));
                    }
                }
                if before.contains(p) && p != main_pid {
                    let k = choose|k: int| 0 <= k < rows@.take(i as int).len() && #[trigger] valid[k] && rows@.take(i as int)[k].0 == p;
                    assert(v2[k] && rows@.take(i + 1)[k].0 == p);
                }
                if ok && p == pid {
                    assert(v2[i as int] && rows@.take(i + 1)[i as int].0 == p);
                }
            }
            assert(result@.to_set() =~= candidate_pid_set(main_pid, rows@.take(i + 1), v2));
            valid = v2;
        }
        i = i + 1;
    }
    assert(rows@.take(rows@.len() as int) =~= rows@);
    assert(call_ensures(ps_output, (), Some(out)));
    result
}

} // verus!
