use kicad_sch_ui::input::{ActionId, Modifiers, ToolId};

#[test]
fn no_modifiers_is_empty_and_any_one_is_not() {
    assert!(Modifiers::none().is_empty());
    assert!(Modifiers::default().is_empty());
    let ctrl = Modifiers { ctrl: true, ..Modifiers::none() };
    let shift = Modifiers { shift: true, ..Modifiers::none() };
    let alt = Modifiers { alt: true, ..Modifiers::none() };
    let meta = Modifiers { meta: true, ..Modifiers::none() };
    for m in [ctrl, shift, alt, meta] {
        assert!(!m.is_empty());
    }
}

#[test]
fn ids_give_back_their_names() {
    let tool = ToolId("eeschema.InteractiveDrawingLineWireBus.drawWires");
    assert_eq!(tool.as_str(), "eeschema.InteractiveDrawingLineWireBus.drawWires");
    let action = ActionId("common.Control.save".to_string());
    assert_eq!(action.as_str(), "common.Control.save");
}

#[test]
fn an_action_id_is_built_from_its_name() {
    assert_eq!(ActionId::new("kicad.ui.toggleTheme").as_str(), "kicad.ui.toggleTheme");
    assert_eq!(ActionId::new("a"), ActionId("a".to_string()));
}
