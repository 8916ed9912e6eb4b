use kicad_sch_ui::dialog_windows::{DialogClosed, DialogWindows};
use kicad_sch_ui::dialogs::DialogKind;
use kicad_sch_ui::shell_flow::EscapeAction;

#[test]
fn a_fresh_shell_has_no_dialogs() {
    let windows = DialogWindows::new();
    assert!(!windows.is_open(DialogKind::Erc));
    assert!(!windows.is_open(DialogKind::Properties));
    assert_eq!(windows.escape(), EscapeAction::CancelTool);
}

#[test]
fn an_open_kind_is_raised_not_opened_twice() {
    let mut windows = DialogWindows::new();
    windows.opened(DialogKind::Document(3));
    assert!(windows.is_open(DialogKind::Document(3)));
    assert!(!windows.is_open(DialogKind::Document(4)));
    windows.opened(DialogKind::Document(3));
    let kinds = windows.close_all();
    assert_eq!(kinds, vec![DialogKind::Document(3)]);
}

#[test]
fn closing_removes_only_that_window() {
    let mut windows = DialogWindows::new();
    windows.opened(DialogKind::Erc);
    windows.opened(DialogKind::Search);
    windows.opened(DialogKind::Setup);
    let closed = windows.close(DialogKind::Search);
    assert_eq!(
        closed,
        DialogClosed {
            remove_window: true,
            cancel_tool: false
        }
    );
    assert!(!windows.is_open(DialogKind::Search));
    assert!(windows.is_open(DialogKind::Erc));
    assert!(windows.is_open(DialogKind::Setup));
    let again = windows.close(DialogKind::Search);
    assert!(!again.remove_window);
}

#[test]
fn closing_search_ends_the_search() {
    let mut windows = DialogWindows::new();
    windows.start_search();
    windows.opened(DialogKind::Search);
    assert!(!windows.search_step());
    windows.close(DialogKind::Search);
    assert!(windows.search_step());
}

#[test]
fn closing_awaited_properties_abandons_the_tool() {
    let mut windows = DialogWindows::new();
    windows.opened(DialogKind::Properties);
    windows.await_properties();
    assert_eq!(windows.escape(), EscapeAction::CloseProperties);
    let closed = windows.close(DialogKind::Properties);
    assert_eq!(
        closed,
        DialogClosed {
            remove_window: true,
            cancel_tool: true
        }
    );
    assert_eq!(windows.escape(), EscapeAction::CancelTool);
}

#[test]
fn applying_awaited_properties_closes_without_abandoning() {
    let mut windows = DialogWindows::new();
    windows.opened(DialogKind::Properties);
    windows.await_properties();
    assert_eq!(
        windows.properties_applied(),
        Some(DialogClosed {
            remove_window: true,
            cancel_tool: false
        })
    );
    assert!(!windows.is_open(DialogKind::Properties));
    assert_eq!(windows.properties_applied(), None);
}

#[test]
fn properties_not_shown_are_not_awaited() {
    let mut windows = DialogWindows::new();
    windows.await_properties();
    assert_eq!(windows.begin_workflow(), None);
}

#[test]
fn a_workflow_closes_the_palette_and_awaited_properties() {
    let mut windows = DialogWindows::new();
    windows.opened(DialogKind::Properties);
    windows.await_properties();
    windows.open_palette();
    assert_eq!(windows.escape(), EscapeAction::ClosePalette);
    assert_eq!(
        windows.begin_workflow(),
        Some(DialogClosed {
            remove_window: true,
            cancel_tool: true
        })
    );
    assert!(!windows.close_palette());
    assert!(!windows.is_open(DialogKind::Properties));
}

#[test]
fn starting_a_search_closes_the_palette() {
    let mut windows = DialogWindows::new();
    windows.open_palette();
    windows.start_search();
    assert!(!windows.close_palette());
    assert!(!windows.search_step());
}
