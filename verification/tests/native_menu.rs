use kicad_sch_ui::commands::{ActionInfo, ActionRegistry, CommandKind, ShellCommand};
use kicad_sch_ui::menubar::{app_menus, app_menus_with_registry};
use kicad_sch_ui::native_menu::{macos_menus, ApplicationAction, NativeItem};
use kicad_sch_ui::routing::EditCommand;

fn is_quit(kind: &CommandKind) -> bool {
    matches!(kind, CommandKind::Shell(ShellCommand::Quit))
}

#[test]
fn macos_uses_application_menu_and_preserves_editor_dispatch() {
    let menus = macos_menus(&app_menus());
    assert_eq!(menus[0].name, "KiCad");
    let app = &menus[0].items;
    assert!(app.iter().any(|item| matches!(item, NativeItem::Services)));
    assert!(app
        .iter()
        .any(|item| matches!(item, NativeItem::Action { kind, .. } if is_quit(kind))));
    for id in [
        "common.SuiteControl.about",
        "common.SuiteControl.openPreferences",
    ] {
        assert!(app.iter().any(
            |item| matches!(item, NativeItem::Action { kind: CommandKind::Kicad(name), .. } if *name == id)
        ));
    }
    let file = menus.iter().find(|menu| menu.name == "File").unwrap();
    assert!(!file
        .items
        .iter()
        .any(|item| matches!(item, NativeItem::Action { kind, .. } if is_quit(kind))));
    let edit = menus.iter().find(|menu| menu.name == "Edit").unwrap();
    assert!(edit.items.iter().any(|item| matches!(
        item,
        NativeItem::Action { kind: CommandKind::Kicad("common.Interactive.copy"), os_action: Some(EditCommand::Copy), .. }
    )));
    assert!(menus.iter().any(|menu| menu.name == "Place"));
}

#[test]
fn macos_keeps_registry_filtering_and_localized_action_labels() {
    let registry = ActionRegistry::new(vec![ActionInfo {
        name: "common.Control.save".into(),
        label: "Save localized".into(),
        hotkey: "Cmd+S".into(),
        ..Default::default()
    }]);
    let menus = macos_menus(&app_menus_with_registry(&registry, true));
    assert_eq!(menus[1].name, "File");
    assert_eq!(menus[1].items.len(), 3);
    assert!(matches!(
        &menus[1].items[2],
        NativeItem::Application { action: ApplicationAction::CloseWindow, .. }
    ));
    assert!(
        matches!(&menus[1].items[0], NativeItem::Action { name, kind: CommandKind::Kicad(id), .. } if name == "Save localized" && *id == "common.Control.save")
    );
}

#[test]
fn the_application_menu_ends_in_quit_and_no_menu_ends_in_a_rule() {
    let menus = macos_menus(&app_menus());
    let app = &menus[0].items;
    assert!(matches!(app.last(), Some(NativeItem::Action { name, kind, .. }) if name == "Quit KiCad" && is_quit(kind)));
    for menu in &menus[1..] {
        assert!(!menu.items.is_empty(), "{} is empty", menu.name);
        assert!(!matches!(menu.items.last(), Some(NativeItem::Separator)));
    }
    let files = menus.iter().filter(|menu| menu.name == "File").count();
    assert_eq!(files, 1);
}
