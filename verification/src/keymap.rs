//! The key map: which keystroke is bound to which command, in what order, and
//! whether the binding stays out of focused text inputs.
//!
//! Every command's configured shortcut and its alternate are requested, in
//! catalogue order; on macOS each `ctrl-` shortcut also gets its `cmd-`
//! counterpart and the reverse. The first request for a keystroke wins, and
//! Escape is reserved for cancelling the active tool, bound once, last.
//! Parsing a keystroke into a gpui binding is the toolkit's business; this
//! module decides which bindings to ask for.

use vstd::prelude::*;
use crate::catalogue::{all_commands_with_registry, catalogue, resolved_rows, resolved_rows_view};
use crate::commands::{kind_name, kind_reported_id, ActionInfoView, ActionRegistry, CommandKind, ResolvedView};
use crate::hotkeys::replace_first;
use crate::hotkeys::replace_first_str;
use crate::shell_commands::ShellCommand;
use crate::text::{has_prefix_at, owned, starts_with, str_eq, chars_of};

verus! {

broadcast use vstd::string::group_string_axioms;

/// Whether `pattern` occurs somewhere in `s`.
pub open spec fn contains(s: Seq<char>, pattern: Seq<char>) -> bool {
    exists|i: int| 0 <= i <= s.len() && starts_with(#[trigger] s.skip(i), pattern)
}

/// Whether a keystroke holds a modifier other than Shift.
pub open spec fn is_modified(keys: Seq<char>) -> bool {
    contains(keys, "ctrl-"@) || contains(keys, "alt-"@) || contains(keys, "cmd-"@) || contains(
        keys,
        "super-"@,
    )
}

/// Whether a command of `kind` may run while a text input has focus: only
/// the explicitly global shell commands.
pub open spec fn is_global(kind: CommandKind) -> bool {
    match kind {
        CommandKind::Shell(command) => match command {
            ShellCommand::Quit
            | ShellCommand::OpenCommandPalette
            | ShellCommand::ToggleTheme
            | ShellCommand::ToggleLeftPanel
            | ShellCommand::ToggleRightPanel
            | ShellCommand::ToggleFrameStats => true,
            _ => false,
        },
        _ => false,
    }
}

/// Whether a binding of `keys` to a command of `kind` has to stay out of a
/// focused text input. Host shortcuts must never override one, modified
/// editing shortcuts (select all, clipboard, undo, redo) included; only the
/// global shell commands run from an input, and only with a modifier.
pub open spec fn input_scoped(keys: Seq<char>, kind: CommandKind) -> bool {
    !(is_modified(keys) && is_global(kind))
}

/// Whether `pattern` occurs somewhere in `s`.
pub fn contains_str(s: &str, pattern: &str) -> (found: bool)
    ensures
        found == contains(s@, pattern@),
{
    let chars = chars_of(s);
    let n = chars.len();
    let mut i: usize = 0;
    loop
        invariant
            chars@ == s@,
            n == chars@.len(),
            i <= n,
            forall|j: int| 0 <= j < i ==> !starts_with(#[trigger] s@.skip(j), pattern@),
        ensures
            forall|j: int| 0 <= j <= n ==> !starts_with(#[trigger] s@.skip(j), pattern@),
        decreases n - i,
    {
        if has_prefix_at(&chars, i, pattern) {
            return true;
        }
        if i == n {
            break;
        }
        i = i + 1;
    }
    false
}

/// Whether a binding of `keys` to a command of `kind` has to stay out of a
/// focused text input (the toolkit's `!Input` context).
pub fn context_for(keys: &str, kind: CommandKind) -> (scoped: bool)
    ensures
        scoped == input_scoped(keys@, kind),
{
    let modified = contains_str(keys, "ctrl-") || contains_str(keys, "alt-") || contains_str(
        keys,
        "cmd-",
    ) || contains_str(keys, "super-");
    let global = match kind {
        CommandKind::Shell(command) => match command {
            ShellCommand::Quit
            | ShellCommand::OpenCommandPalette
            | ShellCommand::ToggleTheme
            | ShellCommand::ToggleLeftPanel
            | ShellCommand::ToggleRightPanel
            | ShellCommand::ToggleFrameStats => true,
            _ => false,
        },
        _ => false,
    };
    !(modified && global)
}

// ---------------------------------------------------------------------------
// Which bindings to ask for

/// A request for a binding: the keystroke, the shortcut as configured (which
/// a tool invoked at the cursor is told), and the command.
pub type Request = (Seq<char>, Seq<char>, CommandKind);

/// The bindings one resolved command asks for: its configured shortcut, then
/// the host's alternate shortcut, each only when it is not empty.
pub open spec fn command_requests(
    registry: Map<Seq<char>, ActionInfoView>,
    command: ResolvedView,
) -> Seq<Request> {
    let id = kind_name(command.kind)@;
    let primary = match command.key {
        Some(key) => if key.len() > 0 {
            seq![(key, key, command.kind)]
        } else {
            Seq::empty()
        },
        None => Seq::empty(),
    };
    let alternate = if registry.contains_key(id) && registry[id].hotkey_alt.len() > 0 {
        seq![(registry[id].hotkey_alt, registry[id].hotkey_alt, command.kind)]
    } else {
        Seq::empty()
    };
    primary + alternate
}

/// The bindings every resolved command asks for, in catalogue order.
pub open spec fn requests(
    registry: Map<Seq<char>, ActionInfoView>,
    rows: Seq<(Seq<char>, ResolvedView)>,
) -> Seq<Request>
    decreases rows.len(),
{
    if rows.len() == 0 {
        Seq::empty()
    } else {
        requests(registry, rows.drop_last()) + command_requests(registry, rows.last().1)
    }
}

/// The macOS counterpart of a request: a `ctrl-` shortcut gets its `cmd-`
/// twin (redo's `ctrl-y` gets `cmd-shift-z`), a `cmd-` shortcut its `ctrl-`
/// twin (redo's `cmd-shift-z` gets `ctrl-y`); other shortcuts get none.
pub open spec fn mac_alias(request: Request) -> Option<Request> {
    let (keys, original, kind) = request;
    if starts_with(keys, "ctrl-"@) {
        Some(
            (
                if keys == "ctrl-y"@ {
                    "cmd-shift-z"@
                } else {
                    replace_first(keys, "ctrl-"@, "cmd-"@)
                },
                original,
                kind,
            ),
        )
    } else if starts_with(keys, "cmd-"@) {
        Some(
            (
                if keys == "cmd-shift-z"@ && kind_name(kind)@ == "common.Interactive.redo"@ {
                    "ctrl-y"@
                } else {
                    replace_first(keys, "cmd-"@, "ctrl-"@)
                },
                original,
                kind,
            ),
        )
    } else {
        None
    }
}

/// The macOS counterparts of `requests`, in order.
pub open spec fn mac_aliases(requests: Seq<Request>) -> Seq<Request>
    decreases requests.len(),
{
    if requests.len() == 0 {
        Seq::empty()
    } else {
        let before = mac_aliases(requests.drop_last());
        match mac_alias(requests.last()) {
            Some(alias) => before.push(alias),
            None => before,
        }
    }
}

/// The requests, in order, whose keystroke was not already taken; `taken`
/// holds the keystrokes bound so far.
pub open spec fn first_requests(requests: Seq<Request>, taken: Set<Seq<char>>) -> Seq<Request>
    decreases requests.len(),
{
    if requests.len() == 0 {
        Seq::empty()
    } else if taken.contains(requests[0].0) {
        first_requests(requests.drop_first(), taken)
    } else {
        seq![requests[0]] + first_requests(requests.drop_first(), taken.insert(requests[0].0))
    }
}

/// A binding the shell asks the toolkit for.
#[derive(Debug)]
pub struct PlannedBinding {
    /// The keystroke, in gpui notation.
    pub keys: String,
    /// The shortcut as configured; a tool invoked by it at the cursor is told
    /// this, not the alias it may have been reached by.
    pub original: String,
    /// The command it invokes.
    pub kind: CommandKind,
    /// Whether it stays out of a focused text input.
    pub scoped: bool,
}

/// The content of a [`PlannedBinding`].
pub struct PlannedView {
    /// The keystroke.
    pub keys: Seq<char>,
    /// The shortcut as configured.
    pub original: Seq<char>,
    /// The command it invokes.
    pub kind: CommandKind,
    /// Whether it stays out of a focused text input.
    pub scoped: bool,
}

/// The binding a request becomes.
pub open spec fn planned(request: Request) -> PlannedView {
    PlannedView {
        keys: request.0,
        original: request.1,
        kind: request.2,
        scoped: input_scoped(request.0, request.2),
    }
}

/// The binding that cancels the active tool: Escape, always, last.
pub open spec fn escape_binding() -> PlannedView {
    planned(("escape"@, "escape"@, CommandKind::Shell(ShellCommand::CancelTool)))
}

/// The key map a live host gets: the first request for each keystroke other
/// than Escape, in order, then Escape bound to cancelling the tool.
pub open spec fn keymap_plan(registry: Map<Seq<char>, ActionInfoView>, on_macos: bool) -> Seq<
    PlannedView,
> {
    let own = requests(registry, resolved_rows(registry, catalogue(), on_macos));
    let all = if on_macos {
        own + mac_aliases(own)
    } else {
        own
    };
    first_requests(all, set!["escape"@]).map_values(|request: Request| planned(request)).push(
        escape_binding(),
    )
}

/// The content of planned bindings.
pub open spec fn plan_view(plan: Seq<PlannedBinding>) -> Seq<PlannedView> {
    plan.map_values(
        |binding: PlannedBinding|
            PlannedView {
                keys: binding.keys@,
                original: binding.original@,
                kind: binding.kind,
                scoped: binding.scoped,
            },
    )
}

/// The content of owned requests.
pub open spec fn requests_view(requests: Seq<(String, String, CommandKind)>) -> Seq<Request> {
    requests.map_values(|request: (String, String, CommandKind)| (request.0@, request.1@, request.2))
}

/// The macOS counterpart of one request.
fn alias_of(keys: &String, original: &String, kind: CommandKind) -> (alias: Option<(String, String, CommandKind)>)
    ensures
        match alias {
            Some(a) => mac_alias((keys@, original@, kind)) == Some((a.0@, a.1@, a.2)),
            None => mac_alias((keys@, original@, kind)) is None,
        },
{
    let chars = chars_of(keys.as_str());
    proof {
        assert(chars@.skip(0) =~= chars@);
    }
    if has_prefix_at(&chars, 0, "ctrl-") {
        let twin = if str_eq(keys.as_str(), "ctrl-y") {
            owned("cmd-shift-z")
        } else {
            replace_first_str(keys.as_str(), "ctrl-", "cmd-")
        };
        Some((twin, original.clone(), kind))
    } else if has_prefix_at(&chars, 0, "cmd-") {
        let twin = if str_eq(keys.as_str(), "cmd-shift-z") && str_eq(
            kind_reported_id(kind),
            "common.Interactive.redo",
        ) {
            owned("ctrl-y")
        } else {
            replace_first_str(keys.as_str(), "cmd-", "ctrl-")
        };
        Some((twin, original.clone(), kind))
    } else {
        None
    }
}

/// Whether `keys` is among `taken`.
fn is_taken(taken: &Vec<String>, keys: &String) -> (found: bool)
    ensures
        found == exists|j: int| 0 <= j < taken@.len() && taken@[j]@ == keys@,
{
    let mut j: usize = 0;
    while j < taken.len()
        invariant
            j <= taken@.len(),
            forall|k: int| 0 <= k < j ==> taken@[k]@ != keys@,
        decreases taken@.len() - j,
    {
        if str_eq(taken[j].as_str(), keys.as_str()) {
            return true;
        }
        j = j + 1;
    }
    false
}

/// Decide the key map for a live host: which keystrokes to bind, to what, in
/// which order, and which bindings stay out of a focused text input.
/// `on_macos` adds the `cmd-`/`ctrl-` twins macOS users expect.
pub fn key_binding_plan(registry: &ActionRegistry, on_macos: bool) -> (plan: Vec<PlannedBinding>)
    ensures
        plan_view(plan@) == keymap_plan(registry.view(), on_macos),
{
    let commands = all_commands_with_registry(registry, on_macos);
    let ghost rows = resolved_rows_view(commands@);
    let ghost reg = registry.view();
    // What every command asks for.
    let mut asked: Vec<(String, String, CommandKind)> = Vec::new();
    let mut i: usize = 0;
    assert(rows.take(0) =~= Seq::<(Seq<char>, ResolvedView)>::empty());
    assert(requests_view(asked@) =~= Seq::<Request>::empty());
    while i < commands.len()
        invariant
            i <= commands@.len(),
            rows == resolved_rows_view(commands@),
            reg == registry.view(),
            requests_view(asked@) == requests(reg, rows.take(i as int)),
        decreases commands@.len() - i,
    {
        let ghost before = requests_view(asked@);
        let command = &commands[i].1;
        let ghost cv = rows[i as int].1;
        assert(cv == command@);
        match &command.key {
            Some(key) => {
                if key.as_str().unicode_len() > 0 {
                    asked.push((key.clone(), key.clone(), command.kind));
                }
            },
            None => {},
        }
        let ghost after_primary = requests_view(asked@);
        match registry.get(command.reported_id()) {
            Some(info) => {
                if info.hotkey_alt.as_str().unicode_len() > 0 {
                    asked.push((info.hotkey_alt.clone(), info.hotkey_alt.clone(), command.kind));
                }
            },
            None => {},
        }
        assert(requests_view(asked@) =~= before + command_requests(reg, cv));
        assert(rows.take(i + 1).drop_last() =~= rows.take(i as int));
        assert(rows.take(i + 1).last() == rows[i as int]);
        i = i + 1;
    }
    assert(rows.take(commands@.len() as int) =~= rows);
    let ghost own = requests_view(asked@);
    // On macOS, the twins of every request, after all of them.
    if on_macos {
        let count = asked.len();
        let mut twins: Vec<(String, String, CommandKind)> = Vec::new();
        let mut k: usize = 0;
        assert(own.take(0) =~= Seq::<Request>::empty());
        assert(requests_view(twins@) =~= Seq::<Request>::empty());
        while k < count
            invariant
                k <= count,
                count == asked@.len(),
                own == requests_view(asked@),
                requests_view(twins@) == mac_aliases(own.take(k as int)),
            decreases count - k,
        {
            let ghost before = requests_view(twins@);
            let alias = alias_of(&asked[k].0, &asked[k].1, asked[k].2);
            assert(own[k as int] == (asked@[k as int].0@, asked@[k as int].1@, asked@[k as int].2));
            match alias {
                Some(twin) => {
                    twins.push(twin);
                    assert(requests_view(twins@) =~= before.push(requests_view(twins@).last()));
                },
                None => {},
            }
            assert(own.take(k + 1).drop_last() =~= own.take(k as int));
            assert(own.take(k + 1).last() == own[k as int]);
            k = k + 1;
        }
        assert(own.take(count as int) =~= own);
        asked.append(&mut twins);
    }
    let ghost all = requests_view(asked@);
    assert(all == if on_macos { own + mac_aliases(own) } else { own });
    // The first request for each keystroke wins; Escape is reserved.
    let mut taken: Vec<String> = Vec::new();
    taken.push(owned("escape"));
    let mut plan: Vec<PlannedBinding> = Vec::new();
    let ghost mut bound: Set<Seq<char>> = set!["escape"@];
    let mut j: usize = 0;
    assert(all.skip(0) =~= all);
    assert forall|key: Seq<char>|
        #[trigger] bound.contains(key) <==> exists|t: int|
            0 <= t < taken@.len() && taken@[t]@ == key by {
        if key == "escape"@ {
            assert(taken@[0]@ == key);
        }
    }
    assert(plan_view(plan@) + first_requests(all, bound).map_values(|r: Request| planned(r))
        =~= first_requests(all, set!["escape"@]).map_values(|r: Request| planned(r)));
    while j < asked.len()
        invariant
            j <= asked@.len(),
            all == requests_view(asked@),
            forall|key: Seq<char>|
                #[trigger] bound.contains(key) <==> exists|t: int|
                    0 <= t < taken@.len() && taken@[t]@ == key,
            plan_view(plan@) + first_requests(all.skip(j as int), bound).map_values(
                |r: Request| planned(r),
            ) == first_requests(all, set!["escape"@]).map_values(|r: Request| planned(r)),
        decreases asked@.len() - j,
    {
        let ghost rest = all.skip(j as int);
        assert(rest.drop_first() =~= all.skip(j + 1));
        assert(rest[0] == (asked@[j as int].0@, asked@[j as int].1@, asked@[j as int].2));
        let keys = &asked[j].0;
        if !is_taken(&taken, keys) {
            assert(!bound.contains(keys@));
            let ghost before = plan_view(plan@);
            let ghost old_taken = taken@;
            let ghost old_bound = bound;
            let scoped = context_for(keys.as_str(), asked[j].2);
            plan.push(
                PlannedBinding {
                    keys: keys.clone(),
                    original: asked[j].1.clone(),
                    kind: asked[j].2,
                    scoped,
                },
            );
            taken.push(keys.clone());
            let ghost tail = first_requests(all.skip(j + 1), bound.insert(keys@));
            assert(first_requests(rest, bound) == seq![rest[0]] + tail);
            assert(plan_view(plan@) =~= before.push(planned(rest[0])));
            assert((seq![rest[0]] + tail).map_values(|r: Request| planned(r)) =~= seq![
                planned(rest[0]),
            ] + tail.map_values(|r: Request| planned(r)));
            assert(plan_view(plan@) + tail.map_values(|r: Request| planned(r)) =~= before
                + first_requests(rest, bound).map_values(|r: Request| planned(r)));
            proof {
                bound = bound.insert(keys@);
            }
            assert forall|key: Seq<char>|
                #[trigger] bound.contains(key) <==> exists|t: int|
                    0 <= t < taken@.len() && taken@[t]@ == key by {
                if bound.contains(key) && key != keys@ {
                    assert(old_bound.contains(key));
                    let t = choose|t: int| 0 <= t < old_taken.len() && old_taken[t]@ == key;
                    assert(taken@[t] == old_taken[t]);
                }
                if key == keys@ {
                    assert(taken@[taken@.len() - 1]@ == key);
                }
                if exists|t: int| 0 <= t < taken@.len() && taken@[t]@ == key {
                    let t = choose|t: int| 0 <= t < taken@.len() && taken@[t]@ == key;
                    if t < old_taken.len() {
                        assert(old_taken[t] == taken@[t]);
                        assert(old_bound.contains(key));
                    }
                }
            }
        } else {
            assert(bound.contains(keys@));
        }
        j = j + 1;
    }
    assert(all.skip(asked@.len() as int) =~= Seq::<Request>::empty());
    let ghost chosen = plan_view(plan@);
    assert(chosen + Seq::<PlannedView>::empty() =~= chosen);
    let scoped = context_for("escape", CommandKind::Shell(ShellCommand::CancelTool));
    plan.push(
        PlannedBinding {
            keys: owned("escape"),
            original: owned("escape"),
            kind: CommandKind::Shell(ShellCommand::CancelTool),
            scoped,
        },
    );
    assert(plan_view(plan@) =~= chosen.push(escape_binding()));
    plan
}

/// The requests that win their keystroke take distinct keystrokes, none of
/// them already taken.
pub proof fn lemma_first_requests_distinct(requests: Seq<Request>, taken: Set<Seq<char>>)
    ensures
        forall|i: int|
            0 <= i < first_requests(requests, taken).len() ==> !taken.contains(
                #[trigger] first_requests(requests, taken)[i].0,
            ),
        forall|i: int, j: int|
            0 <= i < j < first_requests(requests, taken).len() ==> #[trigger] first_requests(
                requests,
                taken,
            )[i].0 != #[trigger] first_requests(requests, taken)[j].0,
    decreases requests.len(),
{
    if requests.len() > 0 {
        let rest = requests.drop_first();
        if taken.contains(requests[0].0) {
            lemma_first_requests_distinct(rest, taken);
            assert(first_requests(requests, taken) == first_requests(rest, taken));
        } else {
            let more = taken.insert(requests[0].0);
            lemma_first_requests_distinct(rest, more);
            let tail = first_requests(rest, more);
            let all = first_requests(requests, taken);
            assert(all == seq![requests[0]] + tail);
            assert forall|i: int| 0 <= i < all.len() implies !taken.contains(#[trigger] all[i].0) by {
                if i > 0 {
                    assert(all[i] == tail[i - 1]);
                    assert(!more.contains(tail[i - 1].0));
                }
            }
            assert forall|i: int, j: int| 0 <= i < j < all.len() implies #[trigger] all[i].0
                != #[trigger] all[j].0 by {
                assert(all[j] == tail[j - 1]);
                if i > 0 {
                    assert(all[i] == tail[i - 1]);
                } else {
                    assert(!more.contains(tail[j - 1].0));
                }
            }
        }
    }
}

/// No keystroke is bound twice, and Escape is bound exactly once — last, to
/// cancelling the active tool, not to clearing net highlighting or anything
/// else the catalogue lists under Escape.
pub proof fn lemma_keymap_keys_distinct(registry: Map<Seq<char>, ActionInfoView>, on_macos: bool)
    ensures
        forall|i: int, j: int|
            0 <= i < j < keymap_plan(registry, on_macos).len() ==> #[trigger] keymap_plan(
                registry,
                on_macos,
            )[i].keys != #[trigger] keymap_plan(registry, on_macos)[j].keys,
        keymap_plan(registry, on_macos).last() == escape_binding(),
        forall|i: int|
            0 <= i < keymap_plan(registry, on_macos).len() && #[trigger] keymap_plan(
                registry,
                on_macos,
            )[i].keys == "escape"@ ==> i == keymap_plan(registry, on_macos).len() - 1,
{
    let own = requests(registry, resolved_rows(registry, catalogue(), on_macos));
    let all = if on_macos {
        own + mac_aliases(own)
    } else {
        own
    };
    let taken = set!["escape"@];
    let chosen = first_requests(all, taken);
    lemma_first_requests_distinct(all, taken);
    let plan = keymap_plan(registry, on_macos);
    let body = chosen.map_values(|request: Request| planned(request));
    assert(plan == body.push(escape_binding()));
    assert forall|i: int| 0 <= i < body.len() implies #[trigger] body[i].keys != "escape"@ by {
        assert(body[i].keys == chosen[i].0);
        assert(!taken.contains(chosen[i].0));
    }
    assert forall|i: int, j: int| 0 <= i < j < plan.len() implies #[trigger] plan[i].keys
        != #[trigger] plan[j].keys by {
        assert(plan[i] == body[i]);
        if j < body.len() {
            assert(plan[j] == body[j]);
            assert(body[i].keys == chosen[i].0);
            assert(body[j].keys == chosen[j].0);
        } else {
            assert(plan[j] == escape_binding());
        }
    }
    assert forall|i: int| 0 <= i < plan.len() && #[trigger] plan[i].keys == "escape"@ implies i
        == plan.len() - 1 by {
        if i < body.len() {
            assert(plan[i] == body[i]);
        }
    }
}

/// A binding without Control, Alt, Command or Super never fires inside a
/// focused text input: it would steal typed characters.
pub proof fn lemma_unmodified_bindings_scoped(registry: Map<Seq<char>, ActionInfoView>, on_macos: bool)
    ensures
        forall|i: int|
            0 <= i < keymap_plan(registry, on_macos).len() && !is_modified(
                #[trigger] keymap_plan(registry, on_macos)[i].keys,
            ) ==> keymap_plan(registry, on_macos)[i].scoped,
{
    let own = requests(registry, resolved_rows(registry, catalogue(), on_macos));
    let all = if on_macos {
        own + mac_aliases(own)
    } else {
        own
    };
    let chosen = first_requests(all, set!["escape"@]);
    let plan = keymap_plan(registry, on_macos);
    let body = chosen.map_values(|request: Request| planned(request));
    assert(plan == body.push(escape_binding()));
    assert forall|i: int| 0 <= i < plan.len() && !is_modified(#[trigger] plan[i].keys) implies plan[i].scoped by {
        if i < body.len() {
            assert(plan[i] == planned(chosen[i]));
        }
    }
}

// ---------------------------------------------------------------------------
// Shortcut hints

/// How many times `name` occurs in `names`.
pub open spec fn occurrences(names: Seq<Seq<char>>, name: Seq<char>) -> nat
    decreases names.len(),
{
    if names.len() == 0 {
        0
    } else {
        occurrences(names.drop_last(), name) + if names.last() == name {
            1nat
        } else {
            0nat
        }
    }
}

/// Whether position `i` holds the first occurrence of its name.
pub open spec fn is_first(names: Seq<Seq<char>>, i: int) -> bool {
    forall|j: int| 0 <= j < i ==> names[j] != names[i]
}

/// The positions, among the first `upto`, that hold the first binding of an
/// action that has more than one binding, in order.
pub open spec fn repeated_primaries(names: Seq<Seq<char>>, upto: int) -> Seq<int>
    decreases upto,
{
    if upto <= 0 {
        Seq::empty()
    } else {
        let before = repeated_primaries(names, upto - 1);
        let i = upto - 1;
        if is_first(names, i) && occurrences(names, names[i]) > 1 {
            before.push(i)
        } else {
            before
        }
    }
}

/// The repeats among the first `upto` positions: each is the first binding
/// of an action bound more than once, in increasing order, and every such
/// first binding is among them.
proof fn lemma_repeats_upto(names: Seq<Seq<char>>, upto: int)
    requires
        0 <= upto <= names.len(),
    ensures
        forall|k: int|
            0 <= k < repeated_primaries(names, upto).len() ==> 0 <= #[trigger] repeated_primaries(
                names,
                upto,
            )[k] < upto && is_first(names, repeated_primaries(names, upto)[k]) && occurrences(
                names,
                names[repeated_primaries(names, upto)[k]],
            ) > 1,
        forall|k1: int, k2: int|
            0 <= k1 < k2 < repeated_primaries(names, upto).len() ==> #[trigger] repeated_primaries(
                names,
                upto,
            )[k1] < #[trigger] repeated_primaries(names, upto)[k2],
        forall|i: int|
            0 <= i < upto && is_first(names, i) && occurrences(names, names[i]) > 1 ==> exists|k: int|
                0 <= k < repeated_primaries(names, upto).len() && #[trigger] repeated_primaries(
                    names,
                    upto,
                )[k] == i,
    decreases upto,
{
    if upto > 0 {
        lemma_repeats_upto(names, upto - 1);
        let before = repeated_primaries(names, upto - 1);
        let reps = repeated_primaries(names, upto);
        let i = upto - 1;
        if is_first(names, i) && occurrences(names, names[i]) > 1 {
            assert(reps == before.push(i));
            assert forall|j: int|
                0 <= j < upto && is_first(names, j) && occurrences(names, names[j]) > 1 implies exists|k: int|
                0 <= k < reps.len() && #[trigger] reps[k] == j by {
                if j < i {
                    let k = choose|k: int| 0 <= k < before.len() && #[trigger] before[k] == j;
                    assert(reps[k] == before[k]);
                } else {
                    assert(reps[before.len() as int] == j);
                }
            }
        }
    }
}

/// Native macOS menus show an action's first binding as its shortcut and the
/// toolkit's components its last. With the repeats of
/// [`primary_hint_repeats`] appended, the two agree: every action bound more
/// than once has exactly one repeat, and that repeat is its first binding;
/// an action bound once has none.
pub proof fn lemma_primary_hints_agree(names: Seq<Seq<char>>)
    ensures
        forall|k: int|
            0 <= k < repeated_primaries(names, names.len() as int).len() ==> {
                let i = #[trigger] repeated_primaries(names, names.len() as int)[k];
                &&& 0 <= i < names.len()
                &&& is_first(names, i)
                &&& occurrences(names, names[i]) > 1
            },
        forall|k1: int, k2: int|
            0 <= k1 < k2 < repeated_primaries(names, names.len() as int).len() ==> names[
            #[trigger] repeated_primaries(names, names.len() as int)[k1]] != names[
            #[trigger] repeated_primaries(names, names.len() as int)[k2]],
        forall|i: int|
            0 <= i < names.len() && is_first(names, i) && occurrences(names, names[i]) > 1 ==> exists|k: int|
                0 <= k < repeated_primaries(names, names.len() as int).len()
                    && #[trigger] repeated_primaries(names, names.len() as int)[k] == i,
{
    let n = names.len() as int;
    lemma_repeats_upto(names, n);
    let reps = repeated_primaries(names, n);
    assert forall|k1: int, k2: int| 0 <= k1 < k2 < reps.len() implies names[#[trigger] reps[k1]] != names[
    #[trigger] reps[k2]] by {
        let a = reps[k1];
        let b = reps[k2];
        assert(a < b);
        assert(is_first(names, b));
    }
}

/// How many times `name` occurs in `names`.
fn count_of(names: &Vec<String>, name: &String) -> (count: usize)
    ensures
        count == occurrences(names@.map_values(|n: String| n@), name@),
{
    let ghost all = names@.map_values(|n: String| n@);
    let mut count: usize = 0;
    let mut i: usize = 0;
    assert(all.take(0) =~= Seq::<Seq<char>>::empty());
    while i < names.len()
        invariant
            i <= names@.len(),
            all == names@.map_values(|n: String| n@),
            count == occurrences(all.take(i as int), name@),
            count <= i,
        decreases names@.len() - i,
    {
        assert(all.take(i + 1).drop_last() =~= all.take(i as int));
        assert(all.take(i + 1).last() == names@[i as int]@);
        if str_eq(names[i].as_str(), name.as_str()) {
            count = count + 1;
        }
        i = i + 1;
    }
    assert(all.take(names@.len() as int) =~= all);
    count
}

/// Native macOS menus show the first binding of an action as its shortcut;
/// the toolkit's own components show the last. Given the action of every
/// binding, in order, this names the bindings to repeat at the end — the
/// first binding of every action bound more than once — so both show the
/// same hint. A repeat dispatches exactly the same action and payload.
pub fn primary_hint_repeats(actions: &Vec<String>) -> (repeats: Vec<usize>)
    ensures
        repeats@.map_values(|i: usize| i as int) == repeated_primaries(
            actions@.map_values(|n: String| n@),
            actions@.len() as int,
        ),
{
    let ghost names = actions@.map_values(|n: String| n@);
    let mut repeats: Vec<usize> = Vec::new();
    let mut i: usize = 0;
    assert(repeats@.map_values(|k: usize| k as int) =~= Seq::<int>::empty());
    while i < actions.len()
        invariant
            i <= actions@.len(),
            names == actions@.map_values(|n: String| n@),
            repeats@.map_values(|k: usize| k as int) == repeated_primaries(names, i as int),
        decreases actions@.len() - i,
    {
        let mut first = true;
        let mut j: usize = 0;
        while j < i
            invariant
                j <= i,
                i < actions@.len(),
                names == actions@.map_values(|n: String| n@),
                first == forall|k: int| 0 <= k < j ==> names[k] != names[i as int],
            decreases i - j,
        {
            assert(names[j as int] == actions@[j as int]@);
            assert(names[i as int] == actions@[i as int]@);
            if str_eq(actions[j].as_str(), actions[i].as_str()) {
                first = false;
            }
            j = j + 1;
        }
        let ghost before = repeats@.map_values(|k: usize| k as int);
        if first && count_of(actions, &actions[i]) > 1 {
            repeats.push(i);
            assert(repeats@.map_values(|k: usize| k as int) =~= before.push(i as int));
        }
        i = i + 1;
    }
    repeats
}

} // verus!
