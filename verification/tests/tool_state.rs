use kicad_sch_ui::input::Modifiers;
use kicad_sch_ui::tool_state::{parse_hotkey, ActiveTool, ToolEvent};
use kicad_sch_ui::tools::Tool;

#[test]
fn activating_the_active_tool_says_nothing() {
    let mut active = ActiveTool::new();
    assert_eq!(active.tool(), Tool::Select);
    assert!(active.set_tool(Tool::Select).is_empty());
    let events = active.set_tool(Tool::DrawWire);
    assert_eq!(events.len(), 1);
    assert!(matches!(&events[0], ToolEvent::ToolActivated(id) if id.as_str() == Tool::DrawWire.id().as_str()));
    assert!(active.set_tool(Tool::DrawWire).is_empty());
}

#[test]
fn a_tool_hotkey_activates_the_tool_and_reaches_the_host_as_a_key_press() {
    let mut active = ActiveTool::new();
    let events = active.tool_hotkey(Tool::DrawWire, "shift-w");
    assert_eq!(active.tool(), Tool::DrawWire);
    assert_eq!(events.len(), 2);
    assert!(matches!(&events[0], ToolEvent::ToolActivated(id) if id.as_str() == Tool::DrawWire.id().as_str()));
    match &events[1] {
        ToolEvent::KeyDown { key, modifiers, repeat } => {
            assert_eq!(key, "w");
            assert_eq!(
                *modifiers,
                Modifiers { shift: true, ..Modifiers::none() }
            );
            assert!(!repeat);
        }
        other => panic!("{other:?}"),
    }
}

#[test]
fn a_repeated_tool_hotkey_is_only_a_key_press() {
    let mut active = ActiveTool::new();
    active.tool_hotkey(Tool::DrawWire, "w");
    let events = active.tool_hotkey(Tool::DrawWire, "w");
    assert_eq!(events.len(), 1);
    assert!(matches!(&events[0], ToolEvent::KeyDown { key, .. } if key == "w"));
}

#[test]
fn key_bindings_activate_tools_and_escape_cancels() {
    let mut active = ActiveTool::new();
    let events = active.tool_hotkey(Tool::DrawBus, "b");
    assert_eq!(active.tool(), Tool::DrawBus);
    let activated: Vec<&str> = events
        .iter()
        .filter_map(|event| match event {
            ToolEvent::ToolActivated(id) => Some(id.as_str()),
            _ => None,
        })
        .collect();
    assert_eq!(activated, vec![Tool::DrawBus.id().as_str()]);
    active.tool_hotkey(Tool::DrawWire, "w");
    assert_eq!(active.tool(), Tool::DrawWire);
    let events = active.cancel_tool();
    assert_eq!(active.tool(), Tool::Select);
    assert!(events.iter().any(|event| matches!(event, ToolEvent::ToolCancelled)));
}

#[test]
fn cancelling_falls_back_to_selection_once() {
    let mut active = ActiveTool::new();
    active.set_tool(Tool::DrawBus);
    let events = active.cancel_tool();
    assert_eq!(events.len(), 2);
    assert!(matches!(events[0], ToolEvent::ToolCancelled));
    assert!(matches!(&events[1], ToolEvent::ToolActivated(id) if id.as_str() == Tool::Select.id().as_str()));
    let again = active.cancel_tool();
    assert_eq!(again.len(), 1);
    assert!(matches!(again[0], ToolEvent::ToolCancelled));
}

#[test]
fn hotkeys_split_into_key_and_modifiers() {
    let (key, modifiers) = parse_hotkey("ctrl-alt-cmd-shift-k");
    assert_eq!(key, "k");
    assert!(modifiers.ctrl && modifiers.alt && modifiers.meta && modifiers.shift);
    let (key, modifiers) = parse_hotkey("ctrl-+");
    assert_eq!(key, "+");
    assert!(modifiers.ctrl && !modifiers.shift);
    let (key, modifiers) = parse_hotkey("w");
    assert_eq!(key, "w");
    assert!(modifiers.is_empty());
    let (key, _) = parse_hotkey("");
    assert_eq!(key, "");
    let (_, modifiers) = parse_hotkey("control-x");
    assert!(!modifiers.ctrl);
}
