//! Key names and labels on their way between KiCad and the shell.
//!
//! KiCad names a hotkey the way `KeyNameFromKeyCode` writes it (`Ctrl+Shift+S`,
//! `PgUp`, `Esc`) and marks menu mnemonics with `&`; gpui names a keystroke as
//! lowercase, dash-joined parts (`ctrl-shift-s`, `pageup`, `escape`). This
//! module translates one way and renders the other way, and says in each
//! contract exactly which string comes out.

use vstd::prelude::*;
use vstd::string::*;
use crate::text::{
    all_ascii, ascii_lower_char, ascii_lowercase, chars_of, char_to_uppercase, has_prefix_at,
    is_ascii_upper, is_white_space, lowercase, owned, push_char, starts_with, str_eq,
    string_from_chars, to_lowercase, trim, trim_end_spec, trim_start_spec, trimmed,
    uppercase_char, chars_eq_str,
};

verus! {

broadcast use vstd::string::group_string_axioms;

// ---------------------------------------------------------------------------
// Menu labels

/// The part of `s` before its first tab. wx menus put the accelerator text
/// after a tab; the label is what comes before it.
pub open spec fn before_tab(s: Seq<char>) -> Seq<char>
    decreases s.len(),
{
    if s.len() == 0 {
        s
    } else if s[0] == '\t' {
        Seq::empty()
    } else {
        seq![s[0]] + before_tab(s.drop_first())
    }
}

/// `s` with wx mnemonic markup removed: `&&` is a literal ampersand, and any
/// other `&` marks the next character as the mnemonic and disappears.
pub open spec fn unescape_mnemonics(s: Seq<char>) -> Seq<char>
    decreases s.len(),
{
    if s.len() == 0 {
        s
    } else if s[0] != '&' {
        seq![s[0]] + unescape_mnemonics(s.drop_first())
    } else if s.len() >= 2 && s[1] == '&' {
        seq!['&'] + unescape_mnemonics(s.skip(2))
    } else {
        unescape_mnemonics(s.drop_first())
    }
}

/// The presentation label of a wx menu label.
pub open spec fn stripped_label(label: Seq<char>) -> Seq<char> {
    unescape_mnemonics(before_tab(label))
}

/// Drop the accelerator text and the mnemonic markup from a wx menu label:
/// `"&Save && Close\tCtrl+S"` becomes `"Save & Close"`.
pub fn strip_mnemonics(label: &str) -> (plain: String)
    ensures
        plain@ == stripped_label(label@),
{
    let all = chars_of(label);
    // The part before the first tab.
    let mut head: Vec<char> = Vec::new();
    let mut i: usize = 0;
    assert(all@.skip(0) =~= all@);
    assert(head@ + before_tab(all@) =~= before_tab(all@));
    while i < all.len() && all[i] != '\t'
        invariant
            all@ == label@,
            i <= all@.len(),
            head@ == all@.subrange(0, i as int),
            before_tab(all@) == head@ + before_tab(all@.skip(i as int)),
        decreases all@.len() - i,
    {
        assert(all@.skip(i as int).drop_first() =~= all@.skip(i + 1));
        assert(all@.subrange(0, i + 1) =~= all@.subrange(0, i as int).push(all@[i as int]));
        head.push(all[i]);
        i = i + 1;
    }
    assert(before_tab(all@.skip(i as int)) =~= Seq::<char>::empty());
    assert(before_tab(all@) =~= head@);
    // Unescape it.
    let mut out: Vec<char> = Vec::new();
    let mut j: usize = 0;
    assert(head@.skip(0) =~= head@);
    assert(out@ + unescape_mnemonics(head@) =~= unescape_mnemonics(head@));
    while j < head.len()
        invariant
            j <= head@.len(),
            unescape_mnemonics(head@) == out@ + unescape_mnemonics(head@.skip(j as int)),
        decreases head@.len() - j,
    {
        let rest = Ghost(head@.skip(j as int));
        let ch = head[j];
        if ch != '&' {
            assert(rest@.drop_first() =~= head@.skip(j + 1));
            out.push(ch);
            assert(out@ == out@.drop_last().push(ch));
            j = j + 1;
        } else if j + 1 < head.len() && head[j + 1] == '&' {
            assert(rest@.skip(2) =~= head@.skip(j + 2));
            out.push('&');
            j = j + 2;
        } else {
            assert(rest@.drop_first() =~= head@.skip(j + 1));
            j = j + 1;
        }
    }
    assert(head@.skip(j as int) =~= Seq::<char>::empty());
    assert(out@ + Seq::<char>::empty() =~= out@);
    string_from_chars(&out)
}

// ---------------------------------------------------------------------------
// KiCad key names to gpui keystrokes

/// Number of modifier spellings KiCad may put in front of a key name.
pub const MODIFIER_RULE_COUNT: usize = 9;

/// The `k`th modifier spelling KiCad writes, in the order they are tried.
pub open spec fn modifier_prefix(k: int) -> Seq<char> {
    if k == 0 {
        "Ctrl+"@
    } else if k == 1 {
        "Cmd+"@
    } else if k == 2 {
        "RawCtrl+"@
    } else if k == 3 {
        "Alt+"@
    } else if k == 4 {
        "Option+"@
    } else if k == 5 {
        "Meta+"@
    } else if k == 6 {
        "Win+"@
    } else if k == 7 {
        "Super+"@
    } else {
        "Shift+"@
    }
}

/// What the `k`th modifier spelling becomes in gpui notation.
pub open spec fn modifier_translation(k: int) -> Seq<char> {
    if k == 0 {
        "ctrl-"@
    } else if k == 1 {
        "cmd-"@
    } else if k == 2 {
        "ctrl-"@
    } else if k == 3 {
        "alt-"@
    } else if k == 4 {
        "alt-"@
    } else if k == 5 {
        "cmd-"@
    } else if k == 6 {
        "super-"@
    } else if k == 7 {
        "super-"@
    } else {
        "shift-"@
    }
}

/// The first modifier spelling, from rule `k` on, that `s` starts with.
pub open spec fn first_modifier_from(s: Seq<char>, k: int) -> Option<int>
    decreases MODIFIER_RULE_COUNT - k,
{
    if k < 0 || k >= MODIFIER_RULE_COUNT {
        None
    } else if starts_with(s, modifier_prefix(k)) {
        Some(k)
    } else {
        first_modifier_from(s, k + 1)
    }
}

/// Split the leading modifier spellings off `s`: the gpui prefix they
/// translate to, and what is left.
pub open spec fn split_modifiers(s: Seq<char>) -> (Seq<char>, Seq<char>)
    decreases s.len(),
{
    match first_modifier_from(s, 0) {
        Some(k) => if 0 <= k < MODIFIER_RULE_COUNT && modifier_prefix(k).len() > 0 && starts_with(
            s,
            modifier_prefix(k),
        ) {
            let rest = split_modifiers(s.skip(modifier_prefix(k).len() as int));
            (modifier_translation(k) + rest.0, rest.1)
        } else {
            (Seq::empty(), s)
        },
        None => (Seq::empty(), s),
    }
}

/// The gpui name of a KiCad key name, before lowercasing.
pub open spec fn gpui_key_name(key: Seq<char>) -> Seq<char> {
    if key == "Esc"@ {
        "escape"@
    } else if key == "Del"@ {
        "delete"@
    } else if key == "Back"@ {
        "backspace"@
    } else if key == "Ins"@ {
        "insert"@
    } else if key == "PgUp"@ {
        "pageup"@
    } else if key == "PgDn"@ {
        "pagedown"@
    } else if key == "Return"@ {
        "enter"@
    } else {
        key
    }
}

/// Whether `s` is one of the KiCad key names that gpui spells differently.
pub open spec fn is_kicad_key_name(s: Seq<char>) -> bool {
    s == "Esc"@ || s == "Del"@ || s == "Back"@ || s == "Ins"@ || s == "PgUp"@ || s == "PgDn"@ || s == "Return"@
}

/// The key-name translation loses nothing: two different names translate to
/// the same gpui key only when one is a KiCad key name and the other the gpui
/// name it stands for (`"Back"` and `"backspace"`, say). So no two KiCad key
/// names come to mean the same key.
pub proof fn lemma_key_names_translate_apart(a: Seq<char>, b: Seq<char>)
    requires
        a != b,
        gpui_key_name(a) == gpui_key_name(b),
    ensures
        (is_kicad_key_name(a) && b == gpui_key_name(a)) || (is_kicad_key_name(b) && a == gpui_key_name(b)),
{
    reveal_strlit("Esc");
    assert("Esc"@.len() == 3);
    reveal_strlit("Del");
    assert("Del"@.len() == 3);
    reveal_strlit("Back");
    assert("Back"@.len() == 4);
    reveal_strlit("Ins");
    assert("Ins"@.len() == 3);
    reveal_strlit("PgUp");
    assert("PgUp"@.len() == 4);
    reveal_strlit("PgDn");
    assert("PgDn"@.len() == 4);
    reveal_strlit("Return");
    assert("Return"@.len() == 6);
    reveal_strlit("escape");
    assert("escape"@.len() == 6);
    reveal_strlit("delete");
    assert("delete"@.len() == 6);
    reveal_strlit("backspace");
    assert("backspace"@.len() == 9);
    reveal_strlit("insert");
    assert("insert"@.len() == 6);
    reveal_strlit("pageup");
    assert("pageup"@.len() == 6);
    reveal_strlit("pagedown");
    assert("pagedown"@.len() == 8);
    reveal_strlit("enter");
    assert("enter"@.len() == 5);
    assert("Esc"@[0] != "Del"@[0]);
    assert("Esc"@[0] != "Ins"@[0]);
    assert("Del"@[0] != "Ins"@[0]);
    assert("Back"@[0] != "PgUp"@[0]);
    assert("Back"@[0] != "PgDn"@[0]);
    assert("PgUp"@[2] != "PgDn"@[2]);
    assert("Return"@[0] != "escape"@[0]);
    assert("Return"@[0] != "delete"@[0]);
    assert("Return"@[0] != "insert"@[0]);
    assert("Return"@[0] != "pageup"@[0]);
    assert("escape"@[0] != "delete"@[0]);
    assert("escape"@[0] != "insert"@[0]);
    assert("escape"@[0] != "pageup"@[0]);
    assert("delete"@[0] != "insert"@[0]);
    assert("delete"@[0] != "pageup"@[0]);
    assert("insert"@[0] != "pageup"@[0]);
}

/// KiCad's hotkey text `value` in gpui keystroke notation: the modifiers
/// translated in order, then the key name translated and lowercased. No key,
/// or KiCad's `<unassigned>`, gives the empty string.
pub open spec fn normalized_hotkey(value: Seq<char>) -> Seq<char> {
    let (modifiers, key) = split_modifiers(trimmed(value));
    if key.len() == 0 || key == "<unassigned>"@ {
        Seq::empty()
    } else {
        modifiers + key_lowercase(gpui_key_name(key))
    }
}

/// A key name lowercased: with just its capital letters made small when it
/// is all ASCII, by the Unicode lowercase mapping otherwise.
pub open spec fn key_lowercase(name: Seq<char>) -> Seq<char> {
    if all_ascii(name) {
        ascii_lowercase(name)
    } else {
        lowercase(name)
    }
}

/// The `k`th modifier spelling and its translation, as strings.
fn modifier_rule(k: usize) -> (rule: (&'static str, &'static str))
    requires
        k < MODIFIER_RULE_COUNT,
    ensures
        rule.0@ == modifier_prefix(k as int),
        rule.1@ == modifier_translation(k as int),
{
    match k {
        0 => ("Ctrl+", "ctrl-"),
        1 => ("Cmd+", "cmd-"),
        2 => ("RawCtrl+", "ctrl-"),
        3 => ("Alt+", "alt-"),
        4 => ("Option+", "alt-"),
        5 => ("Meta+", "cmd-"),
        6 => ("Win+", "super-"),
        7 => ("Super+", "super-"),
        _ => ("Shift+", "shift-"),
    }
}

/// Every modifier spelling is a non-empty string.
proof fn lemma_modifier_prefixes_nonempty(k: int)
    requires
        0 <= k < MODIFIER_RULE_COUNT,
    ensures
        modifier_prefix(k).len() > 0,
{
    reveal_strlit("Ctrl+");
    reveal_strlit("Cmd+");
    reveal_strlit("RawCtrl+");
    reveal_strlit("Alt+");
    reveal_strlit("Option+");
    reveal_strlit("Meta+");
    reveal_strlit("Win+");
    reveal_strlit("Super+");
    reveal_strlit("Shift+");
}

/// A rule that `first_modifier_from` reports is one whose spelling `s` starts
/// with.
proof fn lemma_first_modifier_found(s: Seq<char>, from: int, k: int)
    requires
        first_modifier_from(s, from) == Some(k),
    ensures
        from <= k < MODIFIER_RULE_COUNT,
        0 <= k,
        starts_with(s, modifier_prefix(k)),
    decreases MODIFIER_RULE_COUNT - from,
{
    if from >= 0 && from < MODIFIER_RULE_COUNT && !starts_with(s, modifier_prefix(from)) {
        lemma_first_modifier_found(s, from + 1, k);
    }
}

/// The first modifier rule whose spelling the characters from `pos` on start
/// with.
fn first_modifier_at(chars: &Vec<char>, pos: usize) -> (found: Option<usize>)
    requires
        pos <= chars@.len(),
    ensures
        match found {
            Some(k) => first_modifier_from(chars@.skip(pos as int), 0) == Some(k as int),
            None => first_modifier_from(chars@.skip(pos as int), 0) == None::<int>,
        },
{
    let ghost here = chars@.skip(pos as int);
    let mut k: usize = 0;
    while k < MODIFIER_RULE_COUNT
        invariant
            pos <= chars@.len(),
            here == chars@.skip(pos as int),
            k <= MODIFIER_RULE_COUNT,
            first_modifier_from(here, 0) == first_modifier_from(here, k as int),
        decreases MODIFIER_RULE_COUNT - k,
    {
        let (prefix, _) = modifier_rule(k);
        if has_prefix_at(chars, pos, prefix) {
            return Some(k);
        }
        k = k + 1;
    }
    None
}

/// The gpui name of a KiCad key name, before lowercasing.
fn translate_key_name(key: &str) -> (name: &str)
    ensures
        name@ == gpui_key_name(key@),
{
    if str_eq(key, "Esc") {
        "escape"
    } else if str_eq(key, "Del") {
        "delete"
    } else if str_eq(key, "Back") {
        "backspace"
    } else if str_eq(key, "Ins") {
        "insert"
    } else if str_eq(key, "PgUp") {
        "pageup"
    } else if str_eq(key, "PgDn") {
        "pagedown"
    } else if str_eq(key, "Return") {
        "enter"
    } else {
        key
    }
}

/// Convert KiCad's `KeyNameFromKeyCode` output into gpui keystroke notation:
/// `"Cmd+Shift+Z"` becomes `"cmd-shift-z"`, `"Ctrl++"` becomes `"ctrl-+"`,
/// `"PgUp"` becomes `"pageup"`, and an empty or `<unassigned>` hotkey becomes
/// the empty string.
pub fn normalize_hotkey(value: &str) -> (keystroke: String)
    ensures
        keystroke@ == normalized_hotkey(value@),
{
    let rest_str = trim(value);
    let chars = chars_of(rest_str);
    let mut modifiers = String::new();
    let mut pos: usize = 0;
    assert(chars@.skip(0) =~= chars@);
    assert(modifiers@ + split_modifiers(chars@).0 =~= split_modifiers(chars@).0);
    loop
        invariant
            chars@ == trimmed(value@),
            rest_str@ == chars@,
            pos <= chars@.len(),
            split_modifiers(chars@).0 == modifiers@ + split_modifiers(chars@.skip(pos as int)).0,
            split_modifiers(chars@).1 == split_modifiers(chars@.skip(pos as int)).1,
        ensures
            pos <= chars@.len(),
            split_modifiers(chars@).0 == modifiers@,
            split_modifiers(chars@).1 == chars@.skip(pos as int),
        decreases chars@.len() - pos,
    {
        let ghost here = chars@.skip(pos as int);
        let found = first_modifier_at(&chars, pos);
        if found.is_none() {
            assert(split_modifiers(here) == (Seq::<char>::empty(), here));
            assert(modifiers@ + Seq::<char>::empty() =~= modifiers@);
            break;
        }
        let k = found.unwrap();
        proof {
            lemma_first_modifier_found(here, 0, k as int);
        }
        let (prefix, translated) = modifier_rule(k);
        proof {
            lemma_modifier_prefixes_nonempty(k as int);
        }
        let plen = prefix.unicode_len();
        assert(plen <= chars@.len() - pos);
        let total = chars.len();
        let ghost before = modifiers@;
        modifiers.append(translated);
        assert(here.skip(plen as int) =~= chars@.skip(pos + plen));
        assert(modifiers@ + split_modifiers(chars@.skip(pos + plen)).0 =~= before + (
        modifier_translation(k as int) + split_modifiers(here.skip(plen as int)).0));
        pos = pos + plen;
    }
    let ghost key = split_modifiers(chars@).1;
    let n = rest_str.unicode_len();
    let key_str = rest_str.substring_char(pos, n);
    assert(key_str@ =~= key);
    proof {
        reveal_strlit("");
        assert(""@.len() == 0);
        if key.len() == 0 {
            assert(key =~= ""@);
        }
    }
    if str_eq(key_str, "") || str_eq(key_str, "<unassigned>") {
        return String::new();
    }
    assert(key.len() != 0);
    let name = translate_key_name(key_str);
    let lower = to_lowercase(name);
    let ghost before = modifiers@;
    modifiers.append(lower.as_str());
    assert(modifiers@ == before + key_lowercase(gpui_key_name(key)));
    modifiers
}

// ---------------------------------------------------------------------------
// Translating twice changes nothing

/// A character of a translated modifier: a small letter or the dash.
pub open spec fn modifier_char(c: char) -> bool {
    ('a' <= c <= 'z') || c == '-'
}

/// Dropping leading white space leaves a tail of `s` that, unless empty,
/// starts with something else.
proof fn lemma_trim_start_shape(s: Seq<char>)
    ensures
        trim_start_spec(s).len() <= s.len(),
        trim_start_spec(s) == s.subrange(s.len() - trim_start_spec(s).len(), s.len() as int),
        trim_start_spec(s).len() > 0 ==> !is_white_space(trim_start_spec(s)[0]),
    decreases s.len(),
{
    if s.len() > 0 && is_white_space(s[0]) {
        lemma_trim_start_shape(s.drop_first());
        let t = trim_start_spec(s.drop_first());
        assert(s.drop_first().subrange(s.drop_first().len() - t.len(), s.drop_first().len() as int)
            =~= s.subrange(s.len() - t.len(), s.len() as int));
    } else {
        assert(s.subrange(0, s.len() as int) =~= s);
    }
}

/// Dropping trailing white space leaves a head of `s` that, unless empty,
/// ends with something else.
proof fn lemma_trim_end_shape(s: Seq<char>)
    ensures
        trim_end_spec(s).len() <= s.len(),
        trim_end_spec(s) == s.subrange(0, trim_end_spec(s).len() as int),
        trim_end_spec(s).len() > 0 ==> !is_white_space(trim_end_spec(s).last()),
    decreases s.len(),
{
    if s.len() > 0 && is_white_space(s.last()) {
        lemma_trim_end_shape(s.drop_last());
        let t = trim_end_spec(s.drop_last());
        assert(s.drop_last().subrange(0, t.len() as int) =~= s.subrange(0, t.len() as int));
    } else {
        assert(s.subrange(0, s.len() as int) =~= s);
    }
}

/// Trimming keeps ASCII text ASCII, and what it leaves neither starts nor
/// ends with white space.
proof fn lemma_trimmed_shape(s: Seq<char>)
    ensures
        all_ascii(s) ==> all_ascii(trimmed(s)),
        trimmed(s).len() > 0 ==> !is_white_space(trimmed(s)[0]) && !is_white_space(trimmed(s).last()),
{
    lemma_trim_start_shape(s);
    let u = trim_start_spec(s);
    lemma_trim_end_shape(u);
    let t = trim_end_spec(u);
    if t.len() > 0 {
        assert(t[0] == u[0]);
    }
    if all_ascii(s) {
        assert forall|i: int| 0 <= i < t.len() implies (#[trigger] t[i] as u32) < 128 by {
            assert(t[i] == u[i]);
            assert(u[i] == s[s.len() - u.len() + i]);
        }
    }
}

/// Text that neither starts nor ends with white space is its own trim.
proof fn lemma_trim_clean(s: Seq<char>)
    requires
        s.len() > 0,
        !is_white_space(s[0]),
        !is_white_space(s.last()),
    ensures
        trimmed(s) == s,
{
}

/// Every modifier spelling starts with a capital letter.
proof fn lemma_prefixes_capitalised(k: int)
    requires
        0 <= k < MODIFIER_RULE_COUNT,
    ensures
        modifier_prefix(k).len() > 0,
        is_ascii_upper(modifier_prefix(k)[0]),
{
    reveal_strlit("Ctrl+");
    reveal_strlit("Cmd+");
    reveal_strlit("RawCtrl+");
    reveal_strlit("Alt+");
    reveal_strlit("Option+");
    reveal_strlit("Meta+");
    reveal_strlit("Win+");
    reveal_strlit("Super+");
    reveal_strlit("Shift+");
}

/// Every modifier translation is made of small letters and dashes.
proof fn lemma_translations_small(k: int)
    requires
        0 <= k < MODIFIER_RULE_COUNT,
    ensures
        forall|i: int| 0 <= i < modifier_translation(k).len() ==> modifier_char(#[trigger] modifier_translation(k)[i]),
        modifier_translation(k).len() > 0,
{
    reveal_strlit("ctrl-");
    reveal_strlit("cmd-");
    reveal_strlit("alt-");
    reveal_strlit("super-");
    reveal_strlit("shift-");
}

/// Text that is empty or does not start with a capital letter starts with no
/// modifier spelling.
proof fn lemma_no_modifier_from(s: Seq<char>, k: int)
    requires
        s.len() == 0 || !is_ascii_upper(s[0]),
        0 <= k,
    ensures
        first_modifier_from(s, k) is None,
    decreases MODIFIER_RULE_COUNT - k,
{
    if k < MODIFIER_RULE_COUNT {
        lemma_prefixes_capitalised(k);
        if starts_with(s, modifier_prefix(k)) {
            assert(s[0] == s.subrange(0, modifier_prefix(k).len() as int)[0]);
        }
        lemma_no_modifier_from(s, k + 1);
    }
}

/// Splitting the modifiers off `s` leaves a tail of `s` as the key, all of
/// `s` when there were none, and gives modifiers made of small letters and
/// dashes.
proof fn lemma_split_shape(s: Seq<char>)
    ensures
        split_modifiers(s).1.len() <= s.len(),
        split_modifiers(s).1 == s.subrange(s.len() - split_modifiers(s).1.len(), s.len() as int),
        split_modifiers(s).0.len() == 0 ==> split_modifiers(s).1 == s,
        forall|i: int| 0 <= i < split_modifiers(s).0.len() ==> modifier_char(#[trigger] split_modifiers(s).0[i]),
    decreases s.len(),
{
    match first_modifier_from(s, 0) {
        Some(k) => {
            if 0 <= k < MODIFIER_RULE_COUNT && modifier_prefix(k).len() > 0 && starts_with(s, modifier_prefix(k)) {
                let rest_in = s.skip(modifier_prefix(k).len() as int);
                lemma_split_shape(rest_in);
                lemma_translations_small(k);
                let rest = split_modifiers(rest_in);
                let m = modifier_translation(k) + rest.0;
                assert(split_modifiers(s) == (m, rest.1));
                assert(rest_in.subrange(rest_in.len() - rest.1.len(), rest_in.len() as int)
                    =~= s.subrange(s.len() - rest.1.len(), s.len() as int));
                assert forall|i: int| 0 <= i < m.len() implies modifier_char(#[trigger] m[i]) by {
                    if i < modifier_translation(k).len() {
                        assert(m[i] == modifier_translation(k)[i]);
                    } else {
                        assert(m[i] == rest.0[i - modifier_translation(k).len()]);
                    }
                }
            } else {
                assert(s.subrange(0, s.len() as int) =~= s);
            }
        },
        None => {
            assert(s.subrange(0, s.len() as int) =~= s);
        },
    }
}

/// Making the capitals of ASCII text small keeps it ASCII, leaves no capital,
/// and keeps white space where it was.
proof fn lemma_ascii_lowercase_shape(s: Seq<char>)
    requires
        all_ascii(s),
    ensures
        ascii_lowercase(s).len() == s.len(),
        all_ascii(ascii_lowercase(s)),
        forall|i: int| 0 <= i < s.len() ==> !is_ascii_upper(#[trigger] ascii_lowercase(s)[i]),
        forall|i: int| 0 <= i < s.len() ==> (is_white_space(#[trigger] ascii_lowercase(s)[i]) == is_white_space(s[i])),
{
    let l = ascii_lowercase(s);
    assert forall|i: int| 0 <= i < s.len() implies (#[trigger] l[i] as u32) < 128 && !is_ascii_upper(l[i])
        && is_white_space(l[i]) == is_white_space(s[i]) by {
        let c = s[i];
        assert((c as u32) < 128);
        if is_ascii_upper(c) {
            assert(l[i] == ((c as u32) + 32) as char);
            assert((l[i] as u32) == (c as u32) + 32);
        }
    }
}

/// ASCII text with no capital letter is its own lowercase.
proof fn lemma_ascii_lowercase_small(s: Seq<char>)
    requires
        forall|i: int| 0 <= i < s.len() ==> !is_ascii_upper(#[trigger] s[i]),
    ensures
        ascii_lowercase(s) == s,
{
    assert(ascii_lowercase(s) =~= s);
}

/// What translating a key name gives when its text is ASCII: ASCII, with no
/// capital letter, and with the ends of the name where white space is
/// concerned.
proof fn lemma_key_name_shape(key: Seq<char>)
    requires
        all_ascii(key),
        key.len() > 0,
    ensures
        all_ascii(gpui_key_name(key)),
        gpui_key_name(key).len() > 0,
        gpui_key_name(key) != key ==> forall|i: int| 0 <= i < gpui_key_name(key).len()
            ==> ('a' <= #[trigger] gpui_key_name(key)[i] <= 'z'),
{
    reveal_strlit("escape");
    reveal_strlit("delete");
    reveal_strlit("backspace");
    reveal_strlit("insert");
    reveal_strlit("pageup");
    reveal_strlit("pagedown");
    reveal_strlit("enter");
}

/// A text that starts with something other than a capital letter is no
/// KiCad key name that translates.
proof fn lemma_no_key_translation(s: Seq<char>)
    requires
        s.len() > 0,
        !is_ascii_upper(s[0]),
    ensures
        gpui_key_name(s) == s,
{
    reveal_strlit("Esc");
    reveal_strlit("Del");
    reveal_strlit("Back");
    reveal_strlit("Ins");
    reveal_strlit("PgUp");
    reveal_strlit("PgDn");
    reveal_strlit("Return");
}

/// Translating an ASCII hotkey text a second time changes nothing, unless the
/// first translation happened to give KiCad's `<unassigned>` (which the
/// second turns into no key at all). What the translation gives holds no
/// capital letter and neither starts nor ends with white space.
pub proof fn lemma_normalized_hotkey_is_stable(value: Seq<char>)
    requires
        all_ascii(value),
        normalized_hotkey(value) != "<unassigned>"@,
    ensures
        normalized_hotkey(normalized_hotkey(value)) == normalized_hotkey(value),
        forall|i: int| 0 <= i < normalized_hotkey(value).len() ==> !is_ascii_upper(#[trigger] normalized_hotkey(value)[i]),
        normalized_hotkey(value).len() > 0 ==> !is_white_space(normalized_hotkey(value)[0])
            && !is_white_space(normalized_hotkey(value).last()),
{
    let out = normalized_hotkey(value);
    let t = trimmed(value);
    lemma_trimmed_shape(value);
    lemma_split_shape(t);
    let (m, key) = split_modifiers(t);
    if key.len() == 0 || key == "<unassigned>"@ {
        assert(out.len() == 0);
        assert(trimmed(out) =~= Seq::<char>::empty());
        lemma_no_modifier_from(Seq::<char>::empty(), 0);
    } else {
        assert forall|i: int| 0 <= i < key.len() implies (#[trigger] key[i] as u32) < 128 by {
            assert(key[i] == t[t.len() - key.len() + i]);
        }
        lemma_key_name_shape(key);
        let g = gpui_key_name(key);
        lemma_ascii_lowercase_shape(g);
        let l = ascii_lowercase(g);
        assert(out == m + l);
        // No capital letter anywhere, and all ASCII.
        assert forall|i: int| 0 <= i < out.len() implies !is_ascii_upper(#[trigger] out[i]) && (out[i] as u32)
            < 128 by {
            if i < m.len() {
                assert(out[i] == m[i]);
                assert(modifier_char(m[i]));
            } else {
                assert(out[i] == l[i - m.len()]);
            }
        }
        // The ends are not white space.
        if g == key {
            assert(key.last() == t.last());
            assert(l.last() == l[l.len() - 1]);
            assert(!is_white_space(l.last()));
            if m.len() == 0 {
                assert(key == t);
                assert(!is_white_space(l[0]));
            }
        } else {
            assert('a' <= g[0] <= 'z');
            assert('a' <= g[g.len() - 1] <= 'z');
            assert(!is_white_space(l[0]));
            assert(!is_white_space(l[l.len() - 1]));
        }
        assert(out.last() == l.last());
        if m.len() > 0 {
            assert(out[0] == m[0]);
            assert(modifier_char(m[0]));
        } else {
            assert(out[0] == l[0]);
        }
        // The second translation.
        lemma_trim_clean(out);
        lemma_no_modifier_from(out, 0);
        assert(split_modifiers(out) == (Seq::<char>::empty(), out));
        lemma_no_key_translation(out);
        assert(all_ascii(out));
        lemma_ascii_lowercase_small(out);
        assert(Seq::<char>::empty() + out =~= out);
    }
}

// ---------------------------------------------------------------------------
// Platform defaults

/// `s` with its first occurrence of `pattern` replaced by `replacement`, or
/// `s` itself when `pattern` does not occur.
pub open spec fn replace_first(s: Seq<char>, pattern: Seq<char>, replacement: Seq<char>) -> Seq<
    char,
>
    decreases s.len(),
{
    if s.len() < pattern.len() {
        s
    } else if s.subrange(0, pattern.len() as int) == pattern {
        replacement + s.skip(pattern.len() as int)
    } else if s.len() == 0 {
        s
    } else {
        seq![s[0]] + replace_first(s.drop_first(), pattern, replacement)
    }
}

/// The keystroke a catalogue default `key` is bound to on this platform. On
/// macOS the first `ctrl-` becomes `cmd-`, and redo's `ctrl-y` becomes
/// `cmd-shift-z`; elsewhere the key is used as written.
pub open spec fn default_key_for(key: Seq<char>, on_macos: bool) -> Seq<char> {
    if !on_macos {
        key
    } else if key == "ctrl-y"@ {
        "cmd-shift-z"@
    } else {
        replace_first(key, "ctrl-"@, "cmd-"@)
    }
}

/// `s` with its first `pattern` replaced by `replacement`.
pub fn replace_first_str(s: &str, pattern: &str, replacement: &str) -> (out: String)
    ensures
        out@ == replace_first(s@, pattern@, replacement@),
{
    let chars = chars_of(s);
    let plen = pattern.unicode_len();
    let total = chars.len();
    let mut i: usize = 0;
    assert(chars@.skip(0) =~= chars@);
    assert(chars@.subrange(0, 0) + replace_first(chars@, pattern@, replacement@) =~= replace_first(
        chars@,
        pattern@,
        replacement@,
    ));
    loop
        invariant
            chars@ == s@,
            total == chars@.len(),
            plen == pattern@.len(),
            i <= total,
            replace_first(chars@, pattern@, replacement@) == chars@.subrange(0, i as int)
                + replace_first(chars@.skip(i as int), pattern@, replacement@),
        ensures
            i <= total,
            replace_first(chars@, pattern@, replacement@) == chars@.subrange(0, i as int)
                + replace_first(chars@.skip(i as int), pattern@, replacement@),
            replace_first(chars@.skip(i as int), pattern@, replacement@) == chars@.skip(i as int),
        decreases total - i,
    {
        let ghost here = chars@.skip(i as int);
        if has_prefix_at(&chars, i, pattern) {
            let mut out = Vec::new();
            let mut j: usize = 0;
            while j < i
                invariant
                    j <= i,
                    i <= chars@.len(),
                    out@ == chars@.subrange(0, j as int),
                decreases i - j,
            {
                out.push(chars[j]);
                assert(chars@.subrange(0, j + 1) =~= chars@.subrange(0, j as int).push(
                    chars@[j as int],
                ));
                j = j + 1;
            }
            let mut result = string_from_chars(&out);
            result.append(replacement);
            let tail = s.substring_char(i + plen, total);
            result.append(tail);
            assert(here.skip(plen as int) =~= chars@.skip(i + plen));
            assert(result@ =~= chars@.subrange(0, i as int) + replace_first(
                here,
                pattern@,
                replacement@,
            ));
            return result;
        }
        if total - i < plen || i == total {
            assert(here.len() < pattern@.len()) by {
                if i == total && pattern@.len() == 0 {
                    assert(here.subrange(0, 0) =~= pattern@);
                }
            }
            break;
        }
        assert(here.drop_first() =~= chars@.skip(i + 1));
        assert(chars@.subrange(0, i + 1) =~= chars@.subrange(0, i as int) + seq![here[0]]);
        i = i + 1;
    }
    assert(chars@.subrange(0, i as int) + chars@.skip(i as int) =~= chars@);
    owned(s)
}

/// Use the native modifier for standalone defaults and shell-owned shortcuts.
/// Host shortcuts have already been translated by KiCad and are left intact.
/// `on_macos` says which platform the shell is running on.
pub fn platform_default_key(key: &str, on_macos: bool) -> (native: String)
    ensures
        native@ == default_key_for(key@, on_macos),
{
    if on_macos {
        if str_eq(key, "ctrl-y") {
            return owned("cmd-shift-z");
        }
        replace_first_str(key, "ctrl-", "cmd-")
    } else {
        owned(key)
    }
}

// ---------------------------------------------------------------------------
// gpui keystrokes as a menu shows them

/// The pieces of `s` between occurrences of `separator`: always at least one
/// piece, empty pieces included, as `str::split` yields them.
pub open spec fn split_on(s: Seq<char>, separator: char) -> Seq<Seq<char>>
    decreases s.len(),
{
    if s.len() == 0 {
        seq![Seq::empty()]
    } else {
        let parts = split_on(s.drop_last(), separator);
        if s.last() == separator {
            parts.push(Seq::empty())
        } else {
            parts.update(parts.len() - 1, parts.last().push(s.last()))
        }
    }
}

/// `parts` joined with `separator` between neighbours.
pub open spec fn join_with(parts: Seq<Seq<char>>, separator: char) -> Seq<char>
    decreases parts.len(),
{
    if parts.len() == 0 {
        Seq::empty()
    } else if parts.len() == 1 {
        parts[0]
    } else {
        join_with(parts.drop_last(), separator).push(separator) + parts.last()
    }
}

/// How a menu shows one dash-separated part of a gpui keystroke.
pub open spec fn pretty_part(part: Seq<char>) -> Seq<char> {
    if part == "ctrl"@ {
        "Ctrl"@
    } else if part == "shift"@ {
        "Shift"@
    } else if part == "alt"@ {
        "Alt"@
    } else if part == "cmd"@ || part == "platform"@ {
        "Cmd"@
    } else if part == "escape"@ {
        "Esc"@
    } else if part.len() == 0 {
        Seq::empty()
    } else {
        uppercase_char(part[0]) + part.drop_first()
    }
}

/// A gpui keystroke the way a menu shows it: every part rendered, joined
/// with `+`.
pub open spec fn pretty_keystroke(key: Seq<char>) -> Seq<char> {
    join_with(split_on(key, '-').map_values(|part: Seq<char>| pretty_part(part)), '+')
}

/// `split_on` always yields at least one piece.
pub proof fn lemma_split_nonempty(s: Seq<char>, separator: char)
    ensures
        split_on(s, separator).len() >= 1,
    decreases s.len(),
{
    if s.len() > 0 {
        lemma_split_nonempty(s.drop_last(), separator);
    }
}

/// The pieces of `chars` between occurrences of `separator`.
pub fn split_chars(chars: &Vec<char>, separator: char) -> (parts: Vec<Vec<char>>)
    ensures
        parts@.map_values(|part: Vec<char>| part@) == split_on(chars@, separator),
{
    let mut parts: Vec<Vec<char>> = Vec::new();
    let mut current: Vec<char> = Vec::new();
    let mut i: usize = 0;
    assert(chars@.subrange(0, 0) =~= Seq::<char>::empty());
    assert(parts@.map_values(|part: Vec<char>| part@).push(current@) =~= split_on(
        chars@.subrange(0, 0),
        separator,
    ));
    while i < chars.len()
        invariant
            i <= chars@.len(),
            parts@.map_values(|part: Vec<char>| part@).push(current@) == split_on(
                chars@.subrange(0, i as int),
                separator,
            ),
        decreases chars@.len() - i,
    {
        let ghost before = chars@.subrange(0, i as int);
        let ghost next = chars@.subrange(0, i + 1);
        assert(next.drop_last() =~= before);
        assert(next.last() == chars@[i as int]);
        let ch = chars[i];
        if ch == separator {
            let finished = current;
            parts.push(finished);
            current = Vec::new();
            assert(parts@.map_values(|part: Vec<char>| part@) =~= split_on(before, separator));
            assert(parts@.map_values(|part: Vec<char>| part@).push(current@) =~= split_on(
                next,
                separator,
            ));
        } else {
            current.push(ch);
            assert(parts@.map_values(|part: Vec<char>| part@).push(current@) =~= split_on(
                next,
                separator,
            ));
        }
        i = i + 1;
    }
    assert(chars@.subrange(0, chars@.len() as int) =~= chars@);
    parts.push(current);
    assert(parts@.map_values(|part: Vec<char>| part@) =~= split_on(chars@, separator));
    parts
}

/// How a menu shows one part of a keystroke.
fn render_part(part: &Vec<char>) -> (shown: String)
    ensures
        shown@ == pretty_part(part@),
{
    if chars_eq_str(part, "ctrl") {
        owned("Ctrl")
    } else if chars_eq_str(part, "shift") {
        owned("Shift")
    } else if chars_eq_str(part, "alt") {
        owned("Alt")
    } else if chars_eq_str(part, "cmd") || chars_eq_str(part, "platform") {
        owned("Cmd")
    } else if chars_eq_str(part, "escape") {
        owned("Esc")
    } else if part.len() == 0 {
        String::new()
    } else {
        let mut shown = char_to_uppercase(part[0]);
        let mut i: usize = 1;
        while i < part.len()
            invariant
                1 <= i <= part@.len(),
                shown@ == uppercase_char(part@[0]) + part@.subrange(1, i as int),
            decreases part@.len() - i,
        {
            push_char(&mut shown, part[i]);
            assert(part@.subrange(1, i + 1) =~= part@.subrange(1, i as int).push(part@[i as int]));
            i = i + 1;
        }
        assert(part@.subrange(1, part@.len() as int) =~= part@.drop_first());
        shown
    }
}

/// Render a gpui keystroke string the way a menu would: `"ctrl-shift-p"`
/// becomes `"Ctrl+Shift+P"` and `"escape"` becomes `"Esc"`.
pub fn pretty_key(key: &str) -> (shown: String)
    ensures
        shown@ == pretty_keystroke(key@),
{
    let chars = chars_of(key);
    let parts = split_chars(&chars, '-');
    let ghost pieces = parts@.map_values(|part: Vec<char>| part@);
    let ghost rendered = pieces.map_values(|part: Seq<char>| pretty_part(part));
    proof {
        lemma_split_nonempty(chars@, '-');
    }
    let mut shown = String::new();
    let mut i: usize = 0;
    assert(rendered.take(0) =~= Seq::<Seq<char>>::empty());
    while i < parts.len()
        invariant
            i <= parts@.len(),
            pieces == parts@.map_values(|part: Vec<char>| part@),
            rendered == pieces.map_values(|part: Seq<char>| pretty_part(part)),
            shown@ == join_with(rendered.take(i as int), '+'),
        decreases parts@.len() - i,
    {
        let piece = render_part(&parts[i]);
        assert(rendered.take(i + 1).drop_last() =~= rendered.take(i as int));
        assert(rendered.take(i + 1).last() == piece@);
        if i > 0 {
            push_char(&mut shown, '+');
        } else {
            assert(shown@ =~= Seq::<char>::empty());
        }
        shown.append(piece.as_str());
        i = i + 1;
    }
    assert(rendered.take(parts@.len() as int) =~= rendered);
    shown
}

} // verus!
