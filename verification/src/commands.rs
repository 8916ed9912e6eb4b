//! The command catalogue's vocabulary, and the snapshot of KiCad's action
//! registry that supplies live labels and configured shortcuts.
//!
//! A command is one of three things: a KiCad `TOOL_ACTION` name handed to the
//! host, a tool to make active, or something the shell does itself. Whatever
//! it is, it reports one name to the host, and the registry is looked up by
//! that name.

use vstd::prelude::*;
pub use crate::hotkeys::{normalize_hotkey, platform_default_key, strip_mnemonics};
use crate::hotkeys::{default_key_for, normalized_hotkey, stripped_label};
pub use crate::shell_commands::ShellCommand;
use crate::shell_commands::{dispatched_by_name, shell_command_name};
use vstd::string::*;
use crate::text::{owned, str_eq};
use crate::tools::{
    lemma_every_tool_has_a_row, lemma_palette_order, palette_index, palette_tool, tool_spec, tools,
    Icon, Tool, TOOL_COUNT,
};

verus! {

/// What a menu entry or palette row does.
#[derive(Clone, Copy, Debug)]
pub enum CommandKind {
    /// Hand a KiCad `TOOL_ACTION` name to the host.
    Kicad(&'static str),
    /// Make a tool active. Reported as a tool activation, not an action.
    Tool(Tool),
    /// Something the shell does itself.
    Shell(ShellCommand),
}

/// The name a command of `kind` reports to the host.
pub open spec fn kind_name(kind: CommandKind) -> &'static str {
    match kind {
        CommandKind::Kicad(id) => id,
        CommandKind::Tool(tool) => tool_spec(tool).id.0,
        CommandKind::Shell(command) => shell_command_name(command),
    }
}

/// The name a command of `kind` reports to the host.
pub fn kind_reported_id(kind: CommandKind) -> (name: &'static str)
    ensures
        name == kind_name(kind),
{
    match kind {
        CommandKind::Kicad(id) => id,
        CommandKind::Tool(tool) => tool.id().as_str(),
        CommandKind::Shell(command) => command.reported_id(),
    }
}

/// The name a command of `kind` is dispatched under when it goes out as a
/// named action: a host command, a tool, or a shell command dispatched by
/// name. A shell command with an action type of its own has none.
pub open spec fn dispatch_name(kind: CommandKind) -> Option<&'static str> {
    match kind {
        CommandKind::Shell(command) => if dispatched_by_name(command) {
            Some(shell_command_name(command))
        } else {
            None
        },
        _ => Some(kind_name(kind)),
    }
}

/// The name a command of `kind` is dispatched under, when it is dispatched
/// as a named action.
pub fn dispatched_name(kind: CommandKind) -> (name: Option<&'static str>)
    ensures
        name == dispatch_name(kind),
{
    match kind {
        CommandKind::Shell(command) => if command.is_dispatched_by_name() {
            Some(command.reported_id())
        } else {
            None
        },
        _ => Some(kind_reported_id(kind)),
    }
}

/// One invocable command.
#[derive(Clone, Copy, Debug)]
pub struct CommandSpec {
    /// Menu and palette label.
    pub label: &'static str,
    /// What invoking it does.
    pub kind: CommandKind,
    /// Default key binding, as a gpui keystroke string.
    pub key: Option<&'static str>,
    /// Icon for the palette row, where one helps.
    pub icon: Option<Icon>,
}

impl CommandSpec {
    /// The name this command reports to the host.
    pub fn reported_id(&self) -> (name: &'static str)
        ensures
            name == kind_name(self.kind),
    {
        kind_reported_id(self.kind)
    }
}

/// The label a command presents: a tool's from the tool table, any other
/// command's its own.
pub open spec fn command_label(spec: CommandSpec) -> &'static str {
    match spec.kind {
        CommandKind::Tool(tool) => tool_spec(tool).label,
        _ => spec.label,
    }
}

/// The default key a command presents: a tool's from the tool table, any
/// other command's its own.
pub open spec fn command_key(spec: CommandSpec) -> Option<&'static str> {
    match spec.kind {
        CommandKind::Tool(tool) => tool_spec(tool).shortcut,
        _ => spec.key,
    }
}

/// The label a command presents, resolving tool entries against the tool table.
pub fn label_of(spec: &CommandSpec) -> (label: &'static str)
    ensures
        label == command_label(*spec),
{
    match spec.kind {
        CommandKind::Tool(tool) => tool.label(),
        _ => spec.label,
    }
}

/// The key binding a command presents, resolving tool entries against the tool
/// table.
pub fn key_of(spec: &CommandSpec) -> (key: Option<&'static str>)
    ensures
        key == command_key(*spec),
{
    match spec.kind {
        CommandKind::Tool(tool) => tool.spec().shortcut,
        _ => spec.key,
    }
}

/// The tool a KiCad action name activates, if it names a tool. (Tool action
/// names are distinct, `lemma_ids_distinct`, so at most one tool matches.)
pub fn tool_for_action(id: &str) -> (found: Option<Tool>)
    ensures
        match found {
            Some(tool) => tool_spec(tool).id.0@ == id@,
            None => forall|tool: Tool| tool_spec(tool).id.0@ != id@,
        },
{
    let specs = tools();
    let mut i: usize = 0;
    while i < TOOL_COUNT
        invariant
            i <= TOOL_COUNT,
            specs@.len() == TOOL_COUNT,
            forall|j: int| 0 <= j < TOOL_COUNT ==> #[trigger] specs@[j] == tool_spec(palette_tool(j)),
            forall|j: int| 0 <= j < i ==> tool_spec(#[trigger] palette_tool(j)).id.0@ != id@,
        decreases TOOL_COUNT - i,
    {
        if str_eq(specs[i].id.as_str(), id) {
            proof {
                lemma_palette_order(i as int);
            }
            return Some(specs[i].tool);
        }
        i = i + 1;
    }
    proof {
        assert forall|tool: Tool| tool_spec(tool).id.0@ != id@ by {
            lemma_every_tool_has_a_row(tool);
            assert(palette_tool(palette_index(tool)) == tool);
        }
    }
    None
}

// ---------------------------------------------------------------------------
// The host's action registry

/// Owned metadata copied from the host's action registry.
#[derive(Debug, Default)]
pub struct ActionInfo {
    /// Stable TOOL_ACTION name.
    pub name: String,
    /// Localized menu label, without wx mnemonic markup.
    pub label: String,
    /// Localized help text.
    pub description: String,
    /// Configured shortcut; normalized to gpui notation by `ActionRegistry::new`.
    pub hotkey: String,
    /// Alternate configured shortcut.
    pub hotkey_alt: String,
}

/// The text of an [`ActionInfo`].
pub struct ActionInfoView {
    /// Stable TOOL_ACTION name.
    pub name: Seq<char>,
    /// Menu label.
    pub label: Seq<char>,
    /// Help text.
    pub description: Seq<char>,
    /// Configured shortcut.
    pub hotkey: Seq<char>,
    /// Alternate configured shortcut.
    pub hotkey_alt: Seq<char>,
}

impl View for ActionInfo {
    type V = ActionInfoView;

    open spec fn view(&self) -> ActionInfoView {
        ActionInfoView {
            name: self.name@,
            label: self.label@,
            description: self.description@,
            hotkey: self.hotkey@,
            hotkey_alt: self.hotkey_alt@,
        }
    }
}

impl ActionInfo {
    /// A copy of this entry.
    pub fn duplicate(&self) -> (copy: ActionInfo)
        ensures
            copy@ == self@,
    {
        ActionInfo {
            name: self.name.clone(),
            label: self.label.clone(),
            description: self.description.clone(),
            hotkey: self.hotkey.clone(),
            hotkey_alt: self.hotkey_alt.clone(),
        }
    }
}

/// How the registry keeps a host entry: label without mnemonic markup, both
/// hotkeys in gpui notation, name and help text as given.
pub open spec fn registered_info(info: ActionInfoView) -> ActionInfoView {
    ActionInfoView {
        name: info.name,
        label: stripped_label(info.label),
        description: info.description,
        hotkey: normalized_hotkey(info.hotkey),
        hotkey_alt: normalized_hotkey(info.hotkey_alt),
    }
}

/// The registry a host snapshot makes: each entry, as kept, under its name,
/// a later entry with the same name replacing an earlier one.
pub open spec fn registry_of(infos: Seq<ActionInfoView>) -> Map<Seq<char>, ActionInfoView>
    decreases infos.len(),
{
    if infos.len() == 0 {
        Map::empty()
    } else {
        registry_of(infos.drop_last()).insert(
            infos.last().name,
            registered_info(infos.last()),
        )
    }
}

/// The map a list of entries with distinct names stands for.
pub open spec fn keyed(entries: Seq<ActionInfoView>) -> Map<Seq<char>, ActionInfoView>
    decreases entries.len(),
{
    if entries.len() == 0 {
        Map::empty()
    } else {
        keyed(entries.drop_last()).insert(entries.last().name, entries.last())
    }
}

/// Whether no two entries share a name.
pub open spec fn names_distinct(entries: Seq<ActionInfoView>) -> bool {
    forall|i: int, j: int|
        0 <= i < entries.len() && 0 <= j < entries.len() && i != j ==> entries[i].name
            != entries[j].name
}

/// Snapshot of KiCad's registered actions for this editor, keyed by name.
#[derive(Debug)]
pub struct ActionRegistry {
    actions: Vec<ActionInfo>,
}

impl ActionRegistry {
    /// The stored entries, in the order they were first registered.
    pub closed spec fn entries(&self) -> Seq<ActionInfoView> {
        self.actions@.map_values(|info: ActionInfo| info@)
    }

    /// Every stored entry has its own name.
    #[verifier::type_invariant]
    spec fn wf(&self) -> bool {
        names_distinct(self.entries())
    }

    /// The registered actions, by name.
    pub closed spec fn view(&self) -> Map<Seq<char>, ActionInfoView> {
        keyed(self.entries())
    }

    /// Copy a host snapshot and translate KiCad's key names once. A later
    /// entry with the same name replaces an earlier one.
    pub fn new(actions: Vec<ActionInfo>) -> (registry: ActionRegistry)
        ensures
            registry.view() == registry_of(actions@.map_values(|info: ActionInfo| info@)),
    {
        let ghost input = actions@.map_values(|info: ActionInfo| info@);
        let mut registry = ActionRegistry { actions: Vec::new() };
        let mut i: usize = 0;
        assert(input.take(0) =~= Seq::<ActionInfoView>::empty());
        assert(registry.entries() =~= Seq::<ActionInfoView>::empty());
        while i < actions.len()
            invariant
                i <= actions@.len(),
                input == actions@.map_values(|info: ActionInfo| info@),
                registry.view() == registry_of(input.take(i as int)),
            decreases actions@.len() - i,
        {
            let info = &actions[i];
            let kept = ActionInfo {
                name: info.name.clone(),
                label: strip_mnemonics(info.label.as_str()),
                description: info.description.clone(),
                hotkey: normalize_hotkey(info.hotkey.as_str()),
                hotkey_alt: normalize_hotkey(info.hotkey_alt.as_str()),
            };
            assert(kept@ == registered_info(input[i as int]));
            assert(input.take(i + 1).drop_last() =~= input.take(i as int));
            registry.store(kept);
            i = i + 1;
        }
        assert(input.take(actions@.len() as int) =~= input);
        registry
    }

    /// Keep `info` under its name, replacing what was there.
    fn store(&mut self, info: ActionInfo)
        ensures
            final(self).view() == old(self).view().insert(info@.name, info@),
    {
        proof {
            use_type_invariant(&*self);
        }
        let ghost before = self.entries();
        let found = self.position(info.name.as_str());
        let mut actions = Vec::new();
        std::mem::swap(&mut actions, &mut self.actions);
        assert(actions@.map_values(|info: ActionInfo| info@) == before);
        match found {
            Some(j) => {
                proof {
                    lemma_keyed_update(before, j as int, info@);
                }
                actions.set(j, info);
                assert(actions@.map_values(|info: ActionInfo| info@) =~= before.update(j as int, info@));
            },
            None => {
                let ghost name = info@.name;
                actions.push(info);
                let ghost after = actions@.map_values(|info: ActionInfo| info@);
                assert(after =~= before.push(after.last()));
                assert(after.drop_last() =~= before);
            },
        }
        self.actions = actions;
    }

    /// Where the entry named `name` is stored, if anywhere.
    fn position(&self, name: &str) -> (found: Option<usize>)
        ensures
            match found {
                Some(j) => j < self.entries().len() && self.entries()[j as int].name == name@,
                None => forall|j: int|
                    0 <= j < self.entries().len() ==> self.entries()[j].name != name@,
            },
    {
        let mut j: usize = 0;
        while j < self.actions.len()
            invariant
                j <= self.actions@.len(),
                forall|k: int| 0 <= k < j ==> self.entries()[k].name != name@,
            decreases self.actions@.len() - j,
        {
            if str_eq(self.actions[j].name.as_str(), name) {
                return Some(j);
            }
            j = j + 1;
        }
        None
    }

    /// Look up a registered action by its stable name.
    pub fn get(&self, name: &str) -> (info: Option<&ActionInfo>)
        ensures
            match info {
                Some(info) => self.view().contains_key(name@) && info@ == self.view()[name@],
                None => !self.view().contains_key(name@),
            },
    {
        proof {
            use_type_invariant(self);
        }
        let found = self.position(name);
        proof {
            lemma_keyed_lookup(self.entries());
        }
        match found {
            Some(j) => Some(&self.actions[j]),
            None => None,
        }
    }
}

impl Default for ActionRegistry {
    /// A registry with nothing registered.
    fn default() -> (registry: ActionRegistry)
        ensures
            registry.view() == Map::<Seq<char>, ActionInfoView>::empty(),
    {
        let registry = ActionRegistry { actions: Vec::new() };
        assert(registry.entries() =~= Seq::<ActionInfoView>::empty());
        registry
    }
}

/// In a list of entries with distinct names, a name is in the map exactly when
/// some entry carries it, and it maps to that entry.
pub proof fn lemma_keyed_lookup(entries: Seq<ActionInfoView>)
    requires
        names_distinct(entries),
    ensures
        forall|n: Seq<char>|
            #[trigger] keyed(entries).contains_key(n) <==> exists|i: int|
                0 <= i < entries.len() && entries[i].name == n,
        forall|i: int|
            0 <= i < entries.len() ==> #[trigger] keyed(entries)[entries[i].name] == entries[i],
    decreases entries.len(),
{
    if entries.len() > 0 {
        let rest = entries.drop_last();
        let last = entries.len() - 1;
        assert(names_distinct(rest));
        lemma_keyed_lookup(rest);
        assert(keyed(entries) == keyed(rest).insert(entries[last].name, entries[last]));
        assert forall|n: Seq<char>|
            #[trigger] keyed(entries).contains_key(n) <==> exists|i: int|
                0 <= i < entries.len() && entries[i].name == n by {
            if n == entries[last].name {
                assert(entries[last].name == n);
            }
            if keyed(entries).contains_key(n) && n != entries.last().name {
                assert(keyed(rest).contains_key(n));
                let i = choose|i: int| 0 <= i < rest.len() && rest[i].name == n;
                assert(entries[i].name == n);
            }
            if exists|i: int| 0 <= i < entries.len() && entries[i].name == n {
                let i = choose|i: int| 0 <= i < entries.len() && entries[i].name == n;
                if i < entries.len() - 1 {
                    assert(rest[i].name == n);
                }
            }
        }
        assert forall|i: int| 0 <= i < entries.len() implies #[trigger] keyed(entries)[entries[i].name]
            == entries[i] by {
            if i < last {
                assert(rest[i] == entries[i]);
                assert(entries[i].name != entries[last].name);
                assert(keyed(rest)[rest[i].name] == rest[i]);
            }
        }
    }
}

/// Replacing an entry by one with the same name replaces it in the map.
pub proof fn lemma_keyed_update(entries: Seq<ActionInfoView>, j: int, info: ActionInfoView)
    requires
        names_distinct(entries),
        0 <= j < entries.len(),
        entries[j].name == info.name,
    ensures
        keyed(entries.update(j, info)) == keyed(entries).insert(info.name, info),
        names_distinct(entries.update(j, info)),
    decreases entries.len(),
{
    let updated = entries.update(j, info);
    if j == entries.len() - 1 {
        assert(updated.drop_last() =~= entries.drop_last());
        assert(keyed(updated) =~= keyed(entries).insert(info.name, info));
    } else {
        let rest = entries.drop_last();
        assert(names_distinct(rest));
        lemma_keyed_update(rest, j, info);
        assert(updated.drop_last() =~= rest.update(j, info));
        assert(entries.last().name != info.name);
        assert(keyed(updated) =~= keyed(entries).insert(info.name, info));
    }
}

// ---------------------------------------------------------------------------
// Resolving layout slots against the registry

/// A layout command enriched with owned registry metadata.
#[derive(Debug)]
pub struct ResolvedCommand {
    /// Localized presentation label.
    pub label: String,
    /// Localized help text.
    pub description: String,
    /// Configured gpui shortcut.
    pub key: Option<String>,
    /// Dispatch target.
    pub kind: CommandKind,
    /// UI-owned icon for this layout slot.
    pub icon: Option<Icon>,
}

/// The text of a [`ResolvedCommand`], with its dispatch target and icon.
pub struct ResolvedView {
    /// Presentation label.
    pub label: Seq<char>,
    /// Help text.
    pub description: Seq<char>,
    /// Shortcut, if any.
    pub key: Option<Seq<char>>,
    /// Dispatch target.
    pub kind: CommandKind,
    /// Icon.
    pub icon: Option<Icon>,
}

/// The view of an optional owned string.
pub open spec fn opt_view(s: Option<String>) -> Option<Seq<char>> {
    match s {
        Some(s) => Some(s@),
        None => None,
    }
}

impl View for ResolvedCommand {
    type V = ResolvedView;

    open spec fn view(&self) -> ResolvedView {
        ResolvedView {
            label: self.label@,
            description: self.description@,
            key: opt_view(self.key),
            kind: self.kind,
            icon: self.icon,
        }
    }
}

impl ResolvedCommand {
    /// Stable action name reported to the host.
    pub fn reported_id(&self) -> (name: &'static str)
        ensures
            name == kind_name(self.kind),
    {
        kind_reported_id(self.kind)
    }
}

/// The icon a layout slot shows: its own, or for a tool the tool's.
pub open spec fn slot_icon(spec: CommandSpec) -> Option<Icon> {
    match spec.icon {
        Some(icon) => Some(icon),
        None => match spec.kind {
            CommandKind::Tool(tool) => Some(tool_spec(tool).icon),
            _ => None,
        },
    }
}

/// What a layout slot resolves to against `registry`. A slot whose action the
/// host does not register is omitted, unless the shell answers it itself.
/// A registered action shows the host's label (its name when the label is
/// empty), help text and configured shortcut; a shell command the host does
/// not know keeps the layout's label and its platform default key.
pub open spec fn resolved(
    registry: Map<Seq<char>, ActionInfoView>,
    spec: CommandSpec,
    on_macos: bool,
) -> Option<ResolvedView> {
    let id = kind_name(spec.kind)@;
    if registry.contains_key(id) {
        let info = registry[id];
        Some(
            ResolvedView {
                label: if info.label.len() == 0 {
                    info.name
                } else {
                    info.label
                },
                description: info.description,
                key: if info.hotkey.len() == 0 {
                    None
                } else {
                    Some(info.hotkey)
                },
                kind: spec.kind,
                icon: slot_icon(spec),
            },
        )
    } else if spec.kind is Shell {
        Some(
            ResolvedView {
                label: command_label(spec)@,
                description: Seq::empty(),
                key: match command_key(spec) {
                    Some(key) => Some(default_key_for(key@, on_macos)),
                    None => None,
                },
                kind: spec.kind,
                icon: slot_icon(spec),
            },
        )
    } else {
        None
    }
}

/// The view of an optional resolved command.
pub open spec fn resolved_view(command: Option<ResolvedCommand>) -> Option<ResolvedView> {
    match command {
        Some(command) => Some(command@),
        None => None,
    }
}

impl ActionRegistry {
    /// Resolve a layout slot against the host, omitting unavailable actions.
    /// `on_macos` says which platform's default keys a shell command falls
    /// back to.
    pub fn resolve(&self, spec: &CommandSpec, on_macos: bool) -> (command: Option<ResolvedCommand>)
        ensures
            resolved_view(command) == resolved(self.view(), *spec, on_macos),
    {
        let icon = match spec.icon {
            Some(icon) => Some(icon),
            None => match spec.kind {
                CommandKind::Tool(tool) => Some(tool.spec().icon),
                _ => None,
            },
        };
        match self.get(spec.reported_id()) {
            Some(info) => {
                let label = if info.label.as_str().unicode_len() == 0 {
                    info.name.clone()
                } else {
                    info.label.clone()
                };
                let key = if info.hotkey.as_str().unicode_len() == 0 {
                    None
                } else {
                    Some(info.hotkey.clone())
                };
                Some(
                    ResolvedCommand {
                        label,
                        description: info.description.clone(),
                        key,
                        kind: spec.kind,
                        icon,
                    },
                )
            },
            None => {
                match spec.kind {
                    CommandKind::Shell(_) => {
                        let key = match key_of(spec) {
                            Some(key) => Some(platform_default_key(key, on_macos)),
                            None => None,
                        };
                        Some(
                            ResolvedCommand {
                                label: owned(label_of(spec)),
                                description: String::new(),
                                key,
                                kind: spec.kind,
                                icon,
                            },
                        )
                    },
                    _ => None,
                }
            },
        }
    }
}

} // verus!
