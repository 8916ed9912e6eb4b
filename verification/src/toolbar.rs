//! The toolbar: which buttons it has and what each dispatches, and how a
//! button that invokes a KiCad action presents itself — its label, its
//! tooltip with the shortcut, whether the host offers it.

use vstd::prelude::*;
use crate::commands::{ActionInfoView, ActionRegistry, CommandKind};
use crate::hotkeys::{default_key_for, platform_default_key, pretty_key, pretty_keystroke};
use crate::shell_commands::ShellCommand;
use crate::text::{owned, push_char, str_eq};

verus! {

/// A toolbar button that invokes a command.
#[derive(Clone, Copy, Debug)]
pub struct ToolbarButton {
    /// The button's element id.
    pub id: &'static str,
    /// The label it shows without a host.
    pub label: &'static str,
    /// What it dispatches.
    pub kind: CommandKind,
    /// Whether it presents itself from the host's registry.
    pub from_registry: bool,
}

/// The content of a toolbar button: id, label, what it dispatches, and
/// whether it presents itself from the registry.
pub open spec fn button_view(button: ToolbarButton) -> (Seq<char>, Seq<char>, CommandKind, bool) {
    (button.id@, button.label@, button.kind, button.from_registry)
}

/// The command buttons of the toolbar, left to right.
pub open spec fn toolbar_layout() -> Seq<(Seq<char>, Seq<char>, CommandKind, bool)> {
    seq![
        ("tb-new"@, "New Schematic"@, CommandKind::Kicad("common.Control.new"), true),
        ("tb-open"@, "Open..."@, CommandKind::Kicad("common.Control.open"), true),
        ("tb-save"@, "Save"@, CommandKind::Kicad("common.Control.save"), true),
        ("tb-undo"@, "Undo"@, CommandKind::Kicad("common.Interactive.undo"), true),
        ("tb-redo"@, "Redo"@, CommandKind::Kicad("common.Interactive.redo"), true),
        ("tb-zoom-in"@, "Zoom In"@, CommandKind::Shell(ShellCommand::ZoomIn), false),
        ("tb-zoom-out"@, "Zoom Out"@, CommandKind::Shell(ShellCommand::ZoomOut), false),
        ("tb-zoom-fit"@, "Zoom to Fit Sheet"@, CommandKind::Shell(ShellCommand::ZoomToFit), false),
        ("tb-erc"@, "Electrical Rules Checker"@, CommandKind::Kicad("eeschema.InspectionTool.runERC"), true),
        ("tb-annotate"@, "Annotate Schematic"@, CommandKind::Kicad("eeschema.EditorControl.annotate"), true),
        (
            "tb-pcb"@,
            "Update PCB from Schematic"@,
            CommandKind::Kicad("common.Control.updatePcbFromSchematic"),
            true,
        ),
    ]
}

/// Push a button.
fn push_button(buttons: &mut Vec<ToolbarButton>, button: ToolbarButton)
    ensures
        final(buttons)@.map_values(|b: ToolbarButton| button_view(b)) == old(buttons)@.map_values(
            |b: ToolbarButton| button_view(b),
        ).push(button_view(button)),
{
    buttons.push(button);
    assert(final(buttons)@.map_values(|b: ToolbarButton| button_view(b)) =~= old(buttons)@.map_values(
        |b: ToolbarButton| button_view(b),
    ).push(button_view(button)));
}

/// The command buttons of the toolbar, left to right.
pub fn toolbar_buttons() -> (buttons: Vec<ToolbarButton>)
    ensures
        buttons@.map_values(|b: ToolbarButton| button_view(b)) == toolbar_layout(),
{
    let mut buttons: Vec<ToolbarButton> = Vec::new();
    push_button(&mut buttons, ToolbarButton { id: "tb-new", label: "New Schematic", kind: CommandKind::Kicad("common.Control.new"), from_registry: true });
    push_button(&mut buttons, ToolbarButton { id: "tb-open", label: "Open...", kind: CommandKind::Kicad("common.Control.open"), from_registry: true });
    push_button(&mut buttons, ToolbarButton { id: "tb-save", label: "Save", kind: CommandKind::Kicad("common.Control.save"), from_registry: true });
    push_button(&mut buttons, ToolbarButton { id: "tb-undo", label: "Undo", kind: CommandKind::Kicad("common.Interactive.undo"), from_registry: true });
    push_button(&mut buttons, ToolbarButton { id: "tb-redo", label: "Redo", kind: CommandKind::Kicad("common.Interactive.redo"), from_registry: true });
    push_button(&mut buttons, ToolbarButton { id: "tb-zoom-in", label: "Zoom In", kind: CommandKind::Shell(ShellCommand::ZoomIn), from_registry: false });
    push_button(&mut buttons, ToolbarButton { id: "tb-zoom-out", label: "Zoom Out", kind: CommandKind::Shell(ShellCommand::ZoomOut), from_registry: false });
    push_button(&mut buttons, ToolbarButton { id: "tb-zoom-fit", label: "Zoom to Fit Sheet", kind: CommandKind::Shell(ShellCommand::ZoomToFit), from_registry: false });
    push_button(&mut buttons, ToolbarButton { id: "tb-erc", label: "Electrical Rules Checker", kind: CommandKind::Kicad("eeschema.InspectionTool.runERC"), from_registry: true });
    push_button(&mut buttons, ToolbarButton { id: "tb-annotate", label: "Annotate Schematic", kind: CommandKind::Kicad("eeschema.EditorControl.annotate"), from_registry: true });
    push_button(&mut buttons, ToolbarButton { id: "tb-pcb", label: "Update PCB from Schematic", kind: CommandKind::Kicad("common.Control.updatePcbFromSchematic"), from_registry: true });
    assert(buttons@.map_values(|b: ToolbarButton| button_view(b)) =~= toolbar_layout());
    buttons
}

/// How a button that invokes a KiCad action presents itself: its label, its
/// tooltip, and whether the host offers the action.
#[derive(Debug)]
pub struct ActionPresentation {
    /// The label.
    pub label: String,
    /// The tooltip: the label with the shortcut as a menu shows it, then the
    /// help text on a line of its own when there is any that differs from
    /// the label.
    pub tooltip: String,
    /// Whether the host offers the action.
    pub available: bool,
}

/// The help text of an action a live host does not offer.
pub open spec fn unavailable_text() -> Seq<char> {
    "Action unavailable in this host"@
}

/// The label, help text, shortcut and availability an action presents: from
/// the host's registry when there is one (unavailable when the host does
/// not register it), from the fallbacks otherwise, the fallback shortcut
/// with the platform's own modifier.
pub open spec fn presented(
    registry: Option<Map<Seq<char>, ActionInfoView>>,
    id: Seq<char>,
    fallback_label: Seq<char>,
    fallback_description: Seq<char>,
    fallback_key: Option<Seq<char>>,
    on_macos: bool,
) -> (Seq<char>, Seq<char>, Option<Seq<char>>, bool) {
    match registry {
        Some(r) => if r.contains_key(id) {
            (
                r[id].label,
                r[id].description,
                if r[id].hotkey.len() == 0 {
                    None
                } else {
                    Some(r[id].hotkey)
                },
                true,
            )
        } else {
            (fallback_label, unavailable_text(), None, false)
        },
        None => (
            fallback_label,
            fallback_description,
            match fallback_key {
                Some(k) => Some(default_key_for(k, on_macos)),
                None => None,
            },
            true,
        ),
    }
}

/// The tooltip for `label`, `description` and `key`.
pub open spec fn tooltip_of(label: Seq<char>, description: Seq<char>, key: Option<Seq<char>>) -> Seq<char> {
    (match key {
        Some(k) => label + " ("@ + pretty_keystroke(k) + ")"@,
        None => label,
    }) + if description.len() > 0 && description != label {
        seq!['\n'] + description
    } else {
        Seq::empty()
    }
}

/// How the action `id` presents itself on a button, given the host's
/// registry if there is one, and the fallbacks a standalone shell uses.
pub fn action_presentation(
    registry: Option<&ActionRegistry>,
    id: &str,
    fallback_label: &str,
    fallback_description: &str,
    fallback_key: Option<&str>,
    on_macos: bool,
) -> (presentation: ActionPresentation)
    ensures
        ({
            let p = presented(
                match registry {
                    Some(r) => Some(r.view()),
                    None => None,
                },
                id@,
                fallback_label@,
                fallback_description@,
                match fallback_key {
                    Some(k) => Some(k@),
                    None => None,
                },
                on_macos,
            );
            &&& presentation.label@ == p.0
            &&& presentation.tooltip@ == tooltip_of(p.0, p.1, p.2)
            &&& presentation.available == p.3
        }),
{
    let (label, description, key, available) = match registry {
        Some(r) => match r.get(id) {
            Some(info) => {
                let key = if info.hotkey.as_str().unicode_len() == 0 {
                    None
                } else {
                    Some(info.hotkey.clone())
                };
                (info.label.clone(), info.description.clone(), key, true)
            },
            None => (owned(fallback_label), owned("Action unavailable in this host"), None, false),
        },
        None => {
            let key = match fallback_key {
                Some(k) => Some(platform_default_key(k, on_macos)),
                None => None,
            };
            (owned(fallback_label), owned(fallback_description), key, true)
        },
    };
    let mut tooltip = label.clone();
    match &key {
        Some(k) => {
            tooltip.append(" (");
            let shown = pretty_key(k.as_str());
            tooltip.append(shown.as_str());
            tooltip.append(")");
        },
        None => {},
    }
    if description.as_str().unicode_len() > 0 && !str_eq(description.as_str(), label.as_str()) {
        push_char(&mut tooltip, '\n');
        tooltip.append(description.as_str());
    }
    ActionPresentation { label, tooltip, available }
}

} // verus!
