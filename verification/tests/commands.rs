use std::collections::HashSet;

use kicad_sch_ui::catalogue::{all_commands, all_commands_with_registry, standalone_registry};
use kicad_sch_ui::commands::{
    key_of, label_of, normalize_hotkey, platform_default_key, strip_mnemonics, tool_for_action,
    ActionInfo, ActionRegistry, CommandKind, ShellCommand,
};
use kicad_sch_ui::keymap::{context_for, key_binding_plan, primary_hint_repeats, PlannedBinding};
use kicad_sch_ui::menubar::{app_menus, app_menus_with_registry, MenuItem};
use kicad_sch_ui::menus::menus;
use kicad_sch_ui::tools::{tools, Tool};

/// The action each planned binding dispatches, then the repeats of the
/// primary hints appended, as the toolkit would end up holding them.
fn bindings_with_repeats(plan: &[PlannedBinding]) -> Vec<(String, String, String)> {
    let mut bindings: Vec<(String, String, String)> = plan
        .iter()
        .map(|b| {
            (
                b.keys.clone(),
                b.original.clone(),
                kicad_sch_ui::commands::kind_reported_id(b.kind).to_string(),
            )
        })
        .collect();
    let actions: Vec<String> = bindings.iter().map(|b| b.2.clone()).collect();
    for i in primary_hint_repeats(&actions) {
        let repeat = bindings[i].clone();
        bindings.push(repeat);
    }
    bindings
}

#[test]
fn tool_hint_matches_menu_action_without_losing_cursor_payload() {
    let registry = ActionRegistry::new(vec![ActionInfo {
        name: Tool::DrawWire.id().as_str().into(),
        label: "Draw Wires".into(),
        hotkey: "W".into(),
        ..Default::default()
    }]);
    let plan = key_binding_plan(&registry, false);
    let binding = plan
        .iter()
        .find(|b| matches!(b.kind, CommandKind::Tool(Tool::DrawWire)))
        .unwrap();
    assert_eq!(binding.keys, "w");
    assert_eq!(binding.original, "w");
    assert_ne!(Tool::DrawWire.id().as_str(), Tool::DrawBus.id().as_str());
}

#[test]
fn primary_hint_wins_for_both_first_and_last_binding_consumers() {
    for on_macos in [false, true] {
        let registry = ActionRegistry::new(vec![ActionInfo {
            name: "common.Control.save".into(),
            hotkey: if on_macos { "Cmd+S" } else { "Ctrl+S" }.into(),
            hotkey_alt: "F2".into(),
            ..Default::default()
        }]);
        let plan = key_binding_plan(&registry, on_macos);
        let bindings = bindings_with_repeats(&plan);
        let matching: Vec<_> = bindings
            .iter()
            .filter(|b| b.2 == "common.Control.save")
            .collect();
        assert_eq!(matching.first().unwrap().0, matching.last().unwrap().0);
        let first = &matching.first().unwrap().0;
        assert!(first.ends_with('s'));
        if on_macos {
            assert_eq!(first, "cmd-s");
            assert!(matching.iter().any(|b| b.0.starts_with("ctrl-")));
        } else {
            assert_eq!(first, "ctrl-s");
        }
    }
}

#[test]
fn registry_metadata_controls_labels_keys_and_availability() {
    let registry = ActionRegistry::new(vec![ActionInfo {
        name: "common.Control.save".into(),
        label: "&Save && Close\tCtrl+S".into(),
        description: "Configured save".into(),
        hotkey: "Ctrl+Shift+S".into(),
        hotkey_alt: "F2".into(),
    }]);
    let commands = all_commands_with_registry(&registry, false);
    let save = commands
        .iter()
        .find(|(_, c)| c.reported_id() == "common.Control.save")
        .unwrap();
    assert_eq!(save.1.label, "Save & Close");
    assert_eq!(save.1.key.as_deref(), Some("ctrl-shift-s"));
    assert_eq!(save.1.description, "Configured save");
    assert!(
        !commands
            .iter()
            .any(|(_, c)| c.reported_id() == "common.Control.open")
    );
    assert!(
        commands
            .iter()
            .any(|(_, c)| c.reported_id() == "kicad.ui.toggleTheme")
    );
    let plan = key_binding_plan(&registry, false);
    assert!(plan.iter().any(|b| b.keys == "f2"));
    let menus = app_menus_with_registry(&registry, false);
    let file = menus.iter().find(|m| m.name == "File").unwrap();
    assert!(matches!(&file.items[0], MenuItem::Action { name, .. } if name == "Save & Close"));
    assert!(!matches!(file.items.last(), Some(MenuItem::Separator)));
}

#[test]
fn registry_tool_shortcut_uses_configured_cursor_hotkey() {
    let registry = ActionRegistry::new(vec![ActionInfo {
        name: Tool::DrawWire.id().as_str().into(),
        label: "Wire from registry".into(),
        hotkey: "Shift+W".into(),
        hotkey_alt: "F4".into(),
        ..Default::default()
    }]);
    let plan = key_binding_plan(&registry, false);
    let bindings = bindings_with_repeats(&plan);
    let wire: Vec<_> = bindings
        .iter()
        .filter(|b| b.2 == Tool::DrawWire.id().as_str())
        .collect();
    assert_eq!(wire.len(), 3);
    assert!(wire.iter().any(|b| b.1 == "shift-w"));
    assert!(wire.iter().any(|b| b.1 == "f4"));
    let unassigned = ActionRegistry::new(vec![ActionInfo {
        name: Tool::DrawWire.id().as_str().into(),
        label: "Wire".into(),
        ..Default::default()
    }]);
    assert!(
        all_commands_with_registry(&unassigned, false)
            .iter()
            .find(|(_, command)| command.reported_id() == Tool::DrawWire.id().as_str())
            .unwrap()
            .1
            .key
            .is_none()
    );
}

#[test]
fn registry_hotkeys_translate_named_keys_and_literal_plus() {
    for (host, gpui) in [
        ("Cmd+Shift+Z", "cmd-shift-z"),
        ("Option+Shift+X", "alt-shift-x"),
        ("Ctrl++", "ctrl-+"),
        ("Shift+Space", "shift-space"),
        ("Esc", "escape"),
        ("Del", "delete"),
        ("PgUp", "pageup"),
        ("", ""),
    ] {
        assert_eq!(normalize_hotkey(host), gpui);
    }
}

#[test]
fn host_shortcuts_are_scoped_away_from_text_inputs() {
    for key in [
        "w",
        "escape",
        "delete",
        "shift-t",
        "ctrl-a",
        "cmd-a",
        "ctrl-c",
        "cmd-x",
        "ctrl-v",
        "cmd-z",
        "cmd-shift-z",
        "ctrl-s",
    ] {
        assert!(
            context_for(key, CommandKind::Kicad("common.Interactive.edit")),
            "{key}"
        );
    }
    assert!(!context_for(
        "cmd-shift-p",
        CommandKind::Shell(ShellCommand::OpenCommandPalette)
    ));
    assert!(!context_for("cmd-q", CommandKind::Shell(ShellCommand::Quit)));
    assert!(context_for(
        "p",
        CommandKind::Shell(ShellCommand::OpenCommandPalette)
    ));
    assert!(context_for("cmd-a", CommandKind::Tool(Tool::PlaceSymbol)));

    for on_macos in [false, true] {
        let plan = key_binding_plan(&standalone_registry(on_macos), on_macos);
        for binding in &plan {
            let modified = ["ctrl-", "alt-", "cmd-"]
                .iter()
                .any(|m| binding.keys.contains(m));
            if !modified {
                assert!(
                    binding.scoped,
                    "{:?} is bound globally and would steal typed characters",
                    binding.keys
                );
            }
        }
    }
}

#[test]
fn every_keystroke_in_the_catalogue_parses() {
    let plan = key_binding_plan(&standalone_registry(false), false);
    assert!(plan.len() > 20, "only {} bindings", plan.len());
    assert!(plan.iter().all(|b| !b.keys.is_empty()));
}

#[test]
fn escape_cancels_rather_than_clearing_highlighting() {
    for on_macos in [false, true] {
        let plan = key_binding_plan(&standalone_registry(on_macos), on_macos);
        let escape: Vec<_> = plan.iter().filter(|b| b.keys == "escape").collect();
        assert_eq!(escape.len(), 1, "escape bound {} times", escape.len());
        assert!(
            matches!(escape[0].kind, CommandKind::Shell(ShellCommand::CancelTool)),
            "escape has to cancel the tool, not clear net highlighting"
        );
    }
}

#[test]
fn the_menu_bar_has_the_eight_expected_menus() {
    let names: Vec<_> = menus().iter().map(|menu| menu.name).collect();
    assert_eq!(
        names,
        [
            "File",
            "Edit",
            "View",
            "Place",
            "Inspect",
            "Tools",
            "Preferences",
            "Help"
        ]
    );
}

#[test]
fn menu_items_all_carry_an_action_and_a_label() {
    fn check_items(items: &[MenuItem]) {
        for item in items {
            match item {
                MenuItem::Separator => {}
                MenuItem::Submenu { name, items } => {
                    assert!(!name.is_empty());
                    check_items(items);
                }
                MenuItem::Action { name, kind } => {
                    assert!(!name.is_empty(), "unlabelled menu item");
                    assert!(!kicad_sch_ui::commands::kind_reported_id(*kind).is_empty());
                }
            }
        }
    }
    for menu in app_menus() {
        assert!(!menu.name.is_empty());
        check_items(&menu.items);
    }
}

#[test]
fn every_tool_is_reachable_from_the_palette() {
    let commands = all_commands();
    for spec in tools() {
        assert!(
            commands
                .iter()
                .any(|(_, command)| command.reported_id() == spec.id.as_str()),
            "{} is not in the catalogue",
            spec.label
        );
    }
}

#[test]
fn shell_commands_all_report_a_distinct_name() {
    let commands = [
        ShellCommand::Quit,
        ShellCommand::ZoomIn,
        ShellCommand::ZoomOut,
        ShellCommand::ZoomToFit,
        ShellCommand::ZoomToObjects,
        ShellCommand::ZoomActualSize,
        ShellCommand::ToggleGrid,
        ShellCommand::CycleGrid,
        ShellCommand::ToggleUnits,
        ShellCommand::ToggleTheme,
        ShellCommand::ToggleLeftPanel,
        ShellCommand::ToggleRightPanel,
        ShellCommand::ToggleFrameStats,
        ShellCommand::OpenCommandPalette,
        ShellCommand::CancelTool,
    ];
    let names: HashSet<_> = commands.iter().map(|c| c.reported_id()).collect();
    assert_eq!(names.len(), commands.len());
}

#[test]
fn tool_actions_round_trip_to_their_tool() {
    assert_eq!(
        tool_for_action("eeschema.InteractiveDrawingLineWireBus.drawWires"),
        Some(Tool::DrawWire)
    );
    assert_eq!(tool_for_action("common.Control.save"), None);
}

#[test]
fn the_palette_labels_tools_from_the_tool_table() {
    let commands = all_commands();
    let wire = commands
        .iter()
        .find(|(_, spec)| spec.reported_id() == Tool::DrawWire.id().as_str())
        .expect("wire tool is listed");
    assert_eq!(label_of(&wire.1), "Draw Wire");
    assert_eq!(key_of(&wire.1), Some("w"));
}

// ---------------------------------------------------------------------------
// Further cases

#[test]
fn mnemonics_and_accelerator_suffixes_are_stripped() {
    assert_eq!(strip_mnemonics("&Save && Close\tCtrl+S"), "Save & Close");
    assert_eq!(strip_mnemonics("&Open..."), "Open...");
    assert_eq!(strip_mnemonics("Plain"), "Plain");
    assert_eq!(strip_mnemonics("A && B"), "A & B");
    assert_eq!(strip_mnemonics(""), "");
}

#[test]
fn hotkeys_are_trimmed_and_lowercased() {
    assert_eq!(normalize_hotkey("  Ctrl+Shift+S  "), "ctrl-shift-s");
    assert_eq!(normalize_hotkey("Alt+F4"), "alt-f4");
    assert_eq!(normalize_hotkey("Meta+K"), "cmd-k");
    assert_eq!(normalize_hotkey("Super+K"), "super-k");
    assert_eq!(normalize_hotkey("Ctrl+PgDn"), "ctrl-pagedown");
    assert_eq!(normalize_hotkey("Ins"), "insert");
    assert_eq!(normalize_hotkey("W"), "w");
    assert_eq!(normalize_hotkey("Ctrl+<unassigned>"), "");
    assert_eq!(normalize_hotkey("RawCtrl+Return"), "ctrl-enter");
}

#[test]
fn default_keys_follow_the_platform() {
    assert_eq!(platform_default_key("ctrl-s", true), "cmd-s");
    assert_eq!(platform_default_key("ctrl-s", false), "ctrl-s");
    assert_eq!(platform_default_key("ctrl-shift-ctrl", true), "cmd-shift-ctrl");
    assert_eq!(platform_default_key("w", true), "w");
    assert_eq!(platform_default_key("ctrl-y", true), "cmd-shift-z");
    assert_eq!(platform_default_key("ctrl-y", false), "ctrl-y");
}

#[test]
fn a_later_registry_entry_replaces_an_earlier_one() {
    let registry = ActionRegistry::new(vec![
        ActionInfo {
            name: "common.Control.save".into(),
            label: "First".into(),
            ..Default::default()
        },
        ActionInfo {
            name: "common.Control.save".into(),
            label: "Second".into(),
            ..Default::default()
        },
    ]);
    assert_eq!(registry.get("common.Control.save").unwrap().label, "Second");
    assert!(registry.get("common.Control.open").is_none());
}

#[test]
fn an_unlabelled_registry_entry_shows_its_name() {
    let registry = ActionRegistry::new(vec![ActionInfo {
        name: "common.Control.save".into(),
        ..Default::default()
    }]);
    let commands = all_commands_with_registry(&registry, false);
    let save = commands
        .iter()
        .find(|(_, c)| c.reported_id() == "common.Control.save")
        .unwrap();
    assert_eq!(save.1.label, "common.Control.save");
    assert!(save.1.key.is_none());
}

#[test]
fn macos_twins_ctrl_and_cmd_shortcuts() {
    let registry = ActionRegistry::new(vec![
        ActionInfo {
            name: "common.Interactive.redo".into(),
            hotkey: "Cmd+Shift+Z".into(),
            ..Default::default()
        },
        ActionInfo {
            name: "common.Interactive.undo".into(),
            hotkey: "Ctrl+Z".into(),
            ..Default::default()
        },
    ]);
    let plan = key_binding_plan(&registry, true);
    let keys: Vec<&str> = plan.iter().map(|b| b.keys.as_str()).collect();
    assert!(keys.contains(&"cmd-shift-z"));
    assert!(keys.contains(&"ctrl-y"));
    assert!(keys.contains(&"ctrl-z"));
    assert!(keys.contains(&"cmd-z"));
    assert_eq!(keys.last(), Some(&"escape"));
    let plain = key_binding_plan(&registry, false);
    assert!(!plain.iter().any(|b| b.keys == "ctrl-y"));
}

#[test]
fn the_first_request_for_a_keystroke_wins() {
    let registry = ActionRegistry::new(vec![
        ActionInfo {
            name: "common.Control.save".into(),
            hotkey: "Ctrl+S".into(),
            ..Default::default()
        },
        ActionInfo {
            name: "common.Control.open".into(),
            hotkey: "Ctrl+S".into(),
            ..Default::default()
        },
    ]);
    let plan = key_binding_plan(&registry, false);
    let bound: Vec<_> = plan.iter().filter(|b| b.keys == "ctrl-s").collect();
    assert_eq!(bound.len(), 1);
    let mut seen = HashSet::new();
    for binding in &plan {
        assert!(seen.insert(binding.keys.clone()), "{} bound twice", binding.keys);
    }
}

#[test]
fn only_actions_bound_twice_repeat_their_primary() {
    let actions: Vec<String> = ["a", "b", "a", "c", "b", "a"]
        .iter()
        .map(|s| s.to_string())
        .collect();
    assert_eq!(primary_hint_repeats(&actions), vec![0, 1]);
    let single: Vec<String> = vec!["x".to_string()];
    assert!(primary_hint_repeats(&single).is_empty());
}

#[test]
fn the_static_menu_bar_keeps_every_entry() {
    let bar = app_menus();
    assert_eq!(bar.len(), 8);
    assert_eq!(bar[0].name, "File");
    let live = app_menus_with_registry(&ActionRegistry::new(Vec::new()), false);
    assert!(live.len() < bar.len());
    for menu in &live {
        assert!(!menu.items.is_empty());
        assert!(!matches!(menu.items.first(), Some(MenuItem::Separator)));
        assert!(!matches!(menu.items.last(), Some(MenuItem::Separator)));
    }
}

#[test]
fn the_file_menu_carries_the_actions_it_should() {
    let bar = app_menus();
    let file = bar.iter().find(|menu| menu.name == "File").expect("there is a File menu");
    match &file.items[0] {
        MenuItem::Action { name, kind } => {
            assert_eq!(name, "New Schematic", "File starts with New Schematic");
            assert_eq!(
                kicad_sch_ui::commands::kind_reported_id(*kind),
                "common.Control.new",
                "the menu item has to invoke KiCad's own action name"
            );
        }
        other => panic!("{other:?}"),
    }
}

#[test]
fn submenu_commands_carry_their_menu_path() {
    let commands = all_commands();
    assert!(commands.iter().any(|(path, _)| path == "File \u{203a} Export"));
    assert!(commands.iter().any(|(path, _)| path == "View \u{203a} Grid"));
    assert!(commands.iter().all(|(path, _)| !path.contains('\\')));
}

#[test]
fn translating_a_hotkey_twice_changes_nothing() {
    for value in ["Cmd+Shift+Z", "  Ctrl+ a ", "PgUp", "Alt+Return", "Win+F4", "Ctrl++", "", "<unassigned>"] {
        let once = normalize_hotkey(value);
        assert_eq!(normalize_hotkey(&once), once, "{value}");
        assert!(!once.chars().any(|c| c.is_ascii_uppercase()), "{value}");
        assert_eq!(once.trim(), once, "{value}");
    }
    assert_eq!(normalize_hotkey("Cmd+Shift+Z"), "cmd-shift-z");
    assert_eq!(normalize_hotkey("  Ctrl+ a "), "ctrl- a");
    assert_eq!(normalize_hotkey("<UNASSIGNED>"), "<unassigned>");
    assert_eq!(normalize_hotkey(&normalize_hotkey("<UNASSIGNED>")), "");
}
