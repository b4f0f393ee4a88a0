use interactive_scrapper::gadget_selector::{
    needs_injection, resolve, FieldProbe, UserSelection, BOOTSTRAP_SCRIPT, GADGET_FIELD_ID,
    NO_SELECTION_TEXT, VALUE_PROPERTY,
};
use interactive_scrapper::HELP_MSG;

#[test]
fn page_without_the_field_is_missing_gadget() {
    assert_eq!(resolve(FieldProbe::Absent), UserSelection::MissingGadget);
}

#[test]
fn placeholder_value_is_empty() {
    let probe = FieldProbe::Present(Some(String::from("No valid path found.")));
    assert_eq!(resolve(probe), UserSelection::Empty);
}

#[test]
fn absent_value_is_empty() {
    assert_eq!(resolve(FieldProbe::Present(None)), UserSelection::Empty);
}

#[test]
fn empty_value_is_empty() {
    assert_eq!(resolve(FieldProbe::Present(Some(String::new()))), UserSelection::Empty);
}

#[test]
fn selector_value_is_selection() {
    let probe = FieldProbe::Present(Some(String::from("div.title")));
    assert_eq!(resolve(probe), UserSelection::Selection(String::from("div.title")));
}

#[test]
fn placeholder_is_compared_letter_for_letter() {
    for text in vec![
        "No valid path found",
        "no valid path found.",
        "No valid path found. ",
        " No valid path found.",
        "No valid path found..",
    ] {
        let probe = FieldProbe::Present(Some(String::from(text)));
        assert_eq!(resolve(probe), UserSelection::Selection(String::from(text)));
    }
}

#[test]
fn short_and_odd_texts_are_selectors() {
    for text in vec!["p", " ", "#content p", "???", "div >"] {
        let probe = FieldProbe::Present(Some(String::from(text)));
        assert_eq!(resolve(probe), UserSelection::Selection(String::from(text)));
    }
}

#[test]
fn resolve_gives_the_same_answer_for_the_same_page() {
    let first = resolve(FieldProbe::Present(Some(String::from("ul li"))));
    let second = resolve(FieldProbe::Present(Some(String::from("ul li"))));
    assert_eq!(first, second);
    assert_eq!(resolve(FieldProbe::Absent), resolve(FieldProbe::Absent));
}

#[test]
fn injection_is_needed_only_when_the_gadget_is_missing() {
    assert!(needs_injection(&UserSelection::MissingGadget));
    assert!(!needs_injection(&UserSelection::Empty));
    assert!(!needs_injection(&UserSelection::Selection(String::from("div.title"))));
}

#[test]
fn in_page_contract_constants() {
    assert_eq!(GADGET_FIELD_ID, "_sg_path_field");
    assert_eq!(VALUE_PROPERTY, "value");
    assert_eq!(NO_SELECTION_TEXT, "No valid path found.");
}

#[test]
fn bootstrap_script_loads_the_tool_and_calls_back() {
    assert!(BOOTSTRAP_SCRIPT.contains("const [callback] = arguments;"));
    assert!(BOOTSTRAP_SCRIPT.contains("selector_gadget_loading"));
    assert!(BOOTSTRAP_SCRIPT
        .contains("https://dv0akt2986vzh.cloudfront.net/unstable/lib/selectorgadget.js"));
    assert!(BOOTSTRAP_SCRIPT.trim_end().ends_with("callback();"));
}

#[test]
fn help_text_names_the_four_chords() {
    assert!(HELP_MSG.starts_with("INSTRUCTIONS:\n1. Navigate"));
    assert!(HELP_MSG.contains("- Alt+S  : Initialize selector gadget.\n"));
    assert!(HELP_MSG.contains("- Alt+A  : Get selected elements. \n"));
    assert!(HELP_MSG.contains("- Alt+H  : Show this help message. \n"));
    assert!(HELP_MSG.ends_with("- Alt+Esc: quit the program."));
    assert_eq!(HELP_MSG.lines().count(), 10);
}
