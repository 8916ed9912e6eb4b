use kicad_sch_ui::dialogs::{SearchData, SearchOperation};
use kicad_sch_ui::shell_flow::{
    escape_action, search_message, AnswerStep, CloseFlow, CloseStep, EscapeAction, SearchOutcome,
};

#[test]
fn escape_closes_the_palette_before_it_cancels_the_tool() {
    assert_eq!(escape_action(true, true), EscapeAction::ClosePalette);
    assert_eq!(escape_action(false, true), EscapeAction::CloseProperties);
    assert_eq!(escape_action(false, false), EscapeAction::CancelTool);
}

#[test]
fn unsaved_changes_are_asked_about_once() {
    let mut flow = CloseFlow::new();
    assert_eq!(flow.request(Some(false)), CloseStep::Close);
    assert_eq!(flow.request(None), CloseStep::Close);
    assert_eq!(flow.request(Some(true)), CloseStep::Ask);
    assert_eq!(flow.request(Some(true)), CloseStep::Wait);
    assert_eq!(flow.answered(Some(1)), AnswerStep::Stay);
    assert_eq!(flow.request(Some(true)), CloseStep::Ask);
    assert_eq!(flow.answered(Some(0)), AnswerStep::SaveThenClose);
    assert_eq!(flow.request(Some(true)), CloseStep::Ask);
    assert_eq!(flow.answered(Some(2)), AnswerStep::Close);
    assert_eq!(flow.request(Some(true)), CloseStep::Ask);
    assert_eq!(flow.answered(None), AnswerStep::Stay);
    assert!(!flow.pending);
}

fn outcome(found: bool, wrapped: bool, replaced: u32) -> Result<SearchOutcome, String> {
    Ok(SearchOutcome { found, wrapped, replaced })
}

#[test]
fn search_results_read_as_the_status_line_shows_them() {
    assert_eq!(search_message(SearchOperation::Close, outcome(true, false, 0)), None);
    assert_eq!(
        search_message(SearchOperation::Next, Err("no document loaded".to_string())).as_deref(),
        Some("no document loaded")
    );
    assert_eq!(
        search_message(SearchOperation::ReplaceAll, outcome(false, false, 12)).as_deref(),
        Some("Replaced 12 items")
    );
    assert_eq!(
        search_message(SearchOperation::Next, outcome(true, true, 0)).as_deref(),
        Some("Search wrapped; match found")
    );
    assert_eq!(
        search_message(SearchOperation::Replace, outcome(true, false, 1)).as_deref(),
        Some("Replaced 1 items. Match found")
    );
    assert_eq!(
        search_message(SearchOperation::Replace, outcome(false, false, 3)).as_deref(),
        Some("Replaced 3 items. No further match")
    );
    assert_eq!(
        search_message(SearchOperation::Previous, outcome(false, true, 0)).as_deref(),
        Some("No match found")
    );
}

#[test]
fn a_search_carries_the_typed_texts_and_the_switches() {
    let mut options = SearchData::default();
    options.match_case = true;
    options.search_all_pins = true;
    let data = options
        .submit("R12".to_string(), "R13".to_string(), SearchOperation::Replace)
        .unwrap();
    assert_eq!(data.find, "R12");
    assert_eq!(data.replace, "R13");
    assert!(data.match_case);
    assert!(data.search_all_pins);
    assert!(!data.whole_word);
    assert!(data.active);
}

#[test]
fn an_empty_find_asks_for_text_unless_closing() {
    let options = SearchData::default();
    assert_eq!(
        options.submit(String::new(), String::new(), SearchOperation::Next),
        Err("Enter text to find")
    );
    let closing = options
        .submit(String::new(), String::new(), SearchOperation::Close)
        .unwrap();
    assert!(!closing.active);
    assert_eq!(closing.find, "");
}
