use kicad_sch_ui::hotkeys::pretty_key;

#[test]
fn keystrokes_render_the_way_a_menu_shows_them() {
    assert_eq!(pretty_key("ctrl-shift-p"), "Ctrl+Shift+P");
    assert_eq!(pretty_key("w"), "W");
    assert_eq!(pretty_key("escape"), "Esc");
}

#[test]
fn platform_and_alt_render_as_named_modifiers() {
    assert_eq!(pretty_key("cmd-alt-k"), "Cmd+Alt+K");
    assert_eq!(pretty_key("platform-s"), "Cmd+S");
    assert_eq!(pretty_key("pageup"), "Pageup");
    assert_eq!(pretty_key("ctrl-"), "Ctrl+");
    assert_eq!(pretty_key(""), "");
}
