//! The AppleScript texts the app hands to `osascript`, and the wording of
//! the errors it reports when a script fails.
use crate::text::{chars_of, is_ws, push_decimal, push_str, string_of, trim, trim_chars, decimal};
use vstd::prelude::*;
use vstd::string::StringExecFns;

verus! {

/// Prompts longer than this are pasted rather than typed.
pub const DIRECT_TYPE_MAX_CHARS: usize = 500;

/// Activates the target application.
pub const ACTIVATE_PREFIX: &'static str = "tell application id \"";

/// Ends the activation line.
pub const ACTIVATE_SUFFIX: &'static str = "\" to activate";

/// Pastes with Command-V, then presses Return.
pub const PASTE_AND_RETURN: &'static str = "tell application \"System Events\"\n    keystroke \"v\" using command down\n    delay 0.1\n    key code 36\nend tell";

/// Starts typing the prompt's characters.
pub const TYPE_PREFIX: &'static str = "tell application \"System Events\"\n    keystroke \"";

/// Ends typing, then presses Return.
pub const TYPE_SUFFIX: &'static str = "\"\n    delay 0.08\n    key code 36\nend tell";

/// The pause between activating and typing or pasting.
pub const ACTIVATE_DELAY: &'static str = "\ndelay 0.15\n";

/// Command-Tab back to the application used before.
pub const CMD_TAB_REFOCUS: &'static str = "tell application \"System Events\"\n    key down command\n    key code 48\n    key up command\nend tell";

/// Opens the repair script, up to the target's pid.
pub const REPAIR_PREFIX: &'static str = "on run\n\ttell application \"System Events\"\n\t    tell (first process whose unix id is ";

/// The rest of the repair script after the pid: focus the focused editable
/// element if there is one, else the best-scored editable element of the
/// front window.
pub const REPAIR_SUFFIX: &'static str = ")\n\t        set frontWin to front window\n\t        set editableRoles to {\"AXTextArea\", \"AXTextField\", \"AXSearchField\", \"AXComboBox\", \"AXWebArea\"}\n\t        try\n\t            set focusedElem to value of attribute \"AXFocusedUIElement\" of frontWin\n\t            if focusedElem is not missing value then\n\t                try\n\t                    set focusedRole to role of focusedElem as string\n\t                    if focusedRole is in editableRoles then\n\t                        set focused of focusedElem to true\n\t                        return \"focused-current-editable\"\n\t                    end if\n\t                end try\n\t            end if\n\t        end try\n\t        try\n\t            set winPos to position of frontWin\n\t            set winSize to size of frontWin\n\t        on error\n\t            set winPos to {0, 0}\n\t            set winSize to {0, 0}\n\t        end try\n\t        set bestElem to missing value\n\t        set bestScore to -100000\n\t        repeat with elem in entire contents of frontWin\n\t            try\n\t                set elemRole to role of elem as string\n\t                if elemRole is in editableRoles then\n\t                    set elemScore to 0\n\t                    if elemRole is \"AXTextArea\" then\n\t                        set elemScore to elemScore + 60\n\t                    else if elemRole is \"AXTextField\" then\n\t                        set elemScore to elemScore + 35\n\t                    else if elemRole is \"AXComboBox\" then\n\t                        set elemScore to elemScore + 25\n\t                    else if elemRole is \"AXWebArea\" then\n\t                        set elemScore to elemScore + 20\n\t                    else if elemRole is \"AXSearchField\" then\n\t                        set elemScore to elemScore - 35\n\t                    end if\n\t                    try\n\t                        if enabled of elem is true then set elemScore to elemScore + 10\n\t                    end try\n\t                    try\n\t                        set elemPos to position of elem\n\t                        set elemSize to size of elem\n\t                        if item 1 of elemSize > 80 and item 2 of elemSize > 18 then set elemScore to elemScore + 10\n\t                        if item 2 of elemSize > 40 then set elemScore to elemScore + 20\n\t                        if item 2 of elemPos > (item 2 of winPos + (item 2 of winSize * 0.45)) then set elemScore to elemScore + 12\n\t                    end try\n\t                    if elemScore > bestScore then\n\t                        set bestScore to elemScore\n\t                        set bestElem to elem\n\t                    end if\n\t                end if\n\t            end try\n\t        end repeat\n\t        if bestElem is not missing value then\n\t            set focused of bestElem to true\n\t            return \"focused-best-editable\"\n\t        end if\n\t    end tell\n\tend tell\n\terror \"No editable AX element found\"\n\tend run";

/// Opens every autosend error message.
pub const AUTOSEND_FAILED_PREFIX: &'static str = "Autosend failed while using ";

/// How an AppleScript string literal writes `c`.
pub open spec fn escaped_char(c: char) -> Seq<char> {
    if c == '\\' {
        seq!['\\', '\\']
    } else if c == '"' {
        seq!['\\', '"']
    } else {
        seq![c]
    }
}

/// `s` as the inside of an AppleScript string literal: backslashes and double
/// quotes escaped with a backslash.
pub open spec fn escaped(s: Seq<char>) -> Seq<char>
    decreases s.len(),
{
    if s.len() == 0 {
        Seq::empty()
    } else {
        escaped(s.drop_last()) + escaped_char(s.last())
    }
}

/// Escapes backslashes and double quotes for an AppleScript string literal.
pub fn escape_applescript_string(value: &str) -> (r: String)
    ensures
        r@ == escaped(value@),
{
    let v = chars_of(value);
    let mut out: Vec<char> = Vec::new();
    let mut i: usize = 0;
    while i < v.len()
        invariant
            i <= v.len(),
            out@ == escaped(v@.take(i as int)),
        decreases v.len() - i,
    {
        let c = v[i];
        if c == '\\' {
            out.push('\\');
            out.push('\\');
        } else if c == '"' {
            out.push('\\');
            out.push('"');
        } else {
            out.push(c);
        }
        i = i + 1;
        assert(v@.take(i as int).drop_last() =~= v@.take(i - 1));
        assert(out@ =~= escaped(v@.take(i as int)));
    }
    assert(v@.take(v@.len() as int) =~= v@);
    string_of(&out)
}

/// Whether a prompt is typed rather than pasted: ASCII, one line, and at
/// most [`DIRECT_TYPE_MAX_CHARS`] characters.
pub open spec fn direct_type_allowed(body: Seq<char>) -> bool {
    &&& forall|i: int| 0 <= i < body.len() ==> (#[trigger] body[i] as u32) < 128
    &&& !body.contains('\n')
    &&& body.len() <= DIRECT_TYPE_MAX_CHARS
}

/// Whether a prompt is typed rather than pasted.
pub fn should_direct_type(body: &str) -> (r: bool)
    ensures
        r == direct_type_allowed(body@),
{
    let v = chars_of(body);
    if v.len() > DIRECT_TYPE_MAX_CHARS {
        return false;
    }
    let mut i: usize = 0;
    while i < v.len()
        invariant
            i <= v.len(),
            v@ == body@,
            v.len() <= DIRECT_TYPE_MAX_CHARS,
            forall|j: int| 0 <= j < i ==> (#[trigger] v@[j] as u32) < 128 && v@[j] != '\n',
        decreases v.len() - i,
    {
        let c = v[i];
        if (c as u32) >= 128 || c == '\n' {
            if c == '\n' {
                assert(v@.contains('\n'));
            } else {
                assert((v@[i as int] as u32) >= 128);
            }
            return false;
        }
        i = i + 1;
    }
    assert(!v@.contains('\n')) by {
        if v@.contains('\n') {
            let k = choose|k: int| 0 <= k < v@.len() && v@[k] == '\n';
            assert(v@[k] != '\n');
        }
    }
    true
}

/// `tell application id "<bundle_id>" to activate`.
pub open spec fn activate_script_spec(bundle_id: Seq<char>) -> Seq<char> {
    ACTIVATE_PREFIX@ + bundle_id + ACTIVATE_SUFFIX@
}

/// The script that brings the target application to the front.
pub fn activate_target_script(bundle_id: &str) -> (r: String)
    ensures
        r@ == activate_script_spec(bundle_id@),
{
    let mut s = String::from_str(ACTIVATE_PREFIX);
    push_str(&mut s, bundle_id);
    push_str(&mut s, ACTIVATE_SUFFIX);
    s
}

/// Activates the target, then pastes and presses Return.
pub fn paste_and_submit_to_app_script(bundle_id: &str) -> (r: String)
    ensures
        r@ == activate_script_spec(bundle_id@) + ACTIVATE_DELAY@ + PASTE_AND_RETURN@,
{
    let mut s = activate_target_script(bundle_id);
    push_str(&mut s, ACTIVATE_DELAY);
    push_str(&mut s, PASTE_AND_RETURN);
    s
}

/// Pastes into the frontmost application and presses Return.
pub fn foreground_paste_and_submit_script() -> (r: &'static str)
    ensures
        r@ == PASTE_AND_RETURN@,
{
    PASTE_AND_RETURN
}

/// Types `body` into the frontmost application and presses Return.
pub fn foreground_type_and_submit_script(body: &str) -> (r: String)
    ensures
        r@ == TYPE_PREFIX@ + escaped(body@) + TYPE_SUFFIX@,
{
    let escaped_body = escape_applescript_string(body);
    let mut s = String::from_str(TYPE_PREFIX);
    push_str(&mut s, escaped_body.as_str());
    push_str(&mut s, TYPE_SUFFIX);
    s
}

/// Activates the target, types `body` and presses Return.
pub fn direct_type_and_submit_to_app_script(bundle_id: &str, body: &str) -> (r: String)
    ensures
        r@ == activate_script_spec(bundle_id@) + ACTIVATE_DELAY@ + TYPE_PREFIX@ + escaped(body@)
            + TYPE_SUFFIX@,
{
    let escaped_body = escape_applescript_string(body);
    let mut s = activate_target_script(bundle_id);
    push_str(&mut s, ACTIVATE_DELAY);
    push_str(&mut s, TYPE_PREFIX);
    push_str(&mut s, escaped_body.as_str());
    push_str(&mut s, TYPE_SUFFIX);
    s
}

/// Command-Tab back to the application used before.
pub fn cmd_tab_refocus_previous_app_script() -> (r: &'static str)
    ensures
        r@ == CMD_TAB_REFOCUS@,
{
    CMD_TAB_REFOCUS
}

/// The script that focuses an editable element of the front window of the
/// process with this pid.
pub fn repair_focus_to_editable_element_script(pid: u32) -> (r: String)
    ensures
        r@ == REPAIR_PREFIX@ + decimal(pid as nat) + REPAIR_SUFFIX@,
{
    let mut s = String::from_str(REPAIR_PREFIX);
    push_decimal(&mut s, pid as u64);
    push_str(&mut s, REPAIR_SUFFIX);
    s
}

/// The message for a failed autosend step: the method, and the trimmed error
/// output where there is any.
pub open spec fn autosend_error_spec(method: Seq<char>, stderr: Seq<char>) -> Seq<char> {
    if trim(stderr).len() == 0 {
        AUTOSEND_FAILED_PREFIX@ + method + seq!['.']
    } else {
        AUTOSEND_FAILED_PREFIX@ + method + seq![':', ' '] + trim(stderr)
    }
}

/// The message for a failed autosend step.
pub fn format_autosend_error(method: &str, stderr: &str) -> (r: String)
    ensures
        r@ == autosend_error_spec(method@, stderr@),
{
    let v = chars_of(stderr);
    let t = trim_chars(&v);
    let mut s = String::from_str(AUTOSEND_FAILED_PREFIX);
    push_str(&mut s, method);
    if t.len() == 0 {
        crate::text::push_char(&mut s, '.');
        assert(s@ =~= AUTOSEND_FAILED_PREFIX@ + method@ + seq!['.']);
    } else {
        crate::text::push_char(&mut s, ':');
        crate::text::push_char(&mut s, ' ');
        let ghost before = s@;
        crate::text::push_chars(&mut s, &t);
        assert(s@ =~= AUTOSEND_FAILED_PREFIX@ + method@ + seq![':', ' '] + trim(stderr@));
    }
    s
}

} // verus!
