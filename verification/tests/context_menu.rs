use kicad_sch_ui::commands::{ActionInfo, ActionRegistry};
use kicad_sch_ui::context_menu::{context_menu, ContextEntry};

fn describe(entries: &[ContextEntry]) -> Vec<String> {
    entries
        .iter()
        .map(|entry| match entry {
            ContextEntry::Action { label, id } => format!("{label}={id}"),
            ContextEntry::Separator => "-".to_string(),
            ContextEntry::ZoomToFit => "fit".to_string(),
        })
        .collect()
}

#[test]
fn a_standalone_canvas_offers_every_edit_action() {
    let entries = context_menu(None);
    assert_eq!(
        describe(&entries),
        vec![
            "Cut=common.Interactive.cut",
            "Copy=common.Interactive.copy",
            "Paste=common.Interactive.paste",
            "-",
            "Properties...=eeschema.InteractiveEdit.properties",
            "Delete=common.Interactive.delete",
            "-",
            "Select All=common.Interactive.selectAll",
            "-",
            "fit",
        ]
    );
}

#[test]
fn a_host_menu_shows_only_registered_actions_under_their_labels() {
    let registry = ActionRegistry::new(vec![
        ActionInfo {
            name: "common.Interactive.copy".into(),
            label: "Copy Items".into(),
            ..Default::default()
        },
        ActionInfo {
            name: "common.Interactive.selectAll".into(),
            label: "Select Everything".into(),
            ..Default::default()
        },
    ]);
    let entries = context_menu(Some(&registry));
    assert_eq!(
        describe(&entries),
        vec![
            "Copy Items=common.Interactive.copy",
            "-",
            "Select Everything=common.Interactive.selectAll",
            "-",
            "fit",
        ]
    );
}

#[test]
fn an_empty_host_leaves_only_zoom_to_fit() {
    let registry = ActionRegistry::new(Vec::new());
    let entries = context_menu(Some(&registry));
    assert_eq!(describe(&entries), vec!["fit"]);
}
