//! The selection tool in the page: how its input field is read, and when the
//! tool has to be put into the page.

use vstd::prelude::*;

verus! {

/// The identifier of the input field in which the selection tool keeps the
/// selector that the operator chose.
pub const GADGET_FIELD_ID: &'static str = "_sg_path_field";

/// The property of the field that holds the selector.
pub const VALUE_PROPERTY: &'static str = "value";

/// The text that the tool writes into its field while no valid selector is
/// chosen.
pub const NO_SELECTION_TEXT: &'static str = "No valid path found.";

/// The script that puts the selection tool into the page: it shows a
/// loading notice, loads the tool's own script, and calls back at once.
pub const BOOTSTRAP_SCRIPT: &'static str = r#"
const [callback] = arguments;
(function () {
    var s = document.createElement("div");
    s.innerHTML = "Loading...";
    s.style.color = "black";
    s.style.padding = "20px";
    s.style.position = "fixed";
    s.style.zIndex = "9999";
    s.style.fontSize = "3.0em";
    s.style.border = "2px%20solid%20black";
    s.style.right = "40px";
    s.style.top = "40px";
    s.setAttribute("class", "selector_gadget_loading");
    s.style.background = "white";
    document.body.appendChild(s);
    s = document.createElement("script");
    s.setAttribute("type", "text/javascript");
    s.setAttribute(
        "src",
        "https://dv0akt2986vzh.cloudfront.net/unstable/lib/selectorgadget.js"
    );
    document.body.appendChild(s);
})();
callback();
"#;

/// What the operator has selected in the page.
#[derive(Debug, PartialEq, Eq)]
pub enum UserSelection {
    /// The tool is in the page, and no valid selector is chosen yet.
    Empty,
    /// The tool is in the page, and the operator chose this selector.
    Selection(String),
    /// The tool is not in the page.
    MissingGadget,
}

/// What one look at the page shows of the tool's input field.
#[derive(Debug, PartialEq, Eq)]
pub enum FieldProbe {
    /// No element has the field's identifier.
    Absent,
    /// The field is there; its value property is absent or holds a text.
    Present(Option<String>),
}

/// Whether a text of the field names no selector: it is empty, or it is the
/// tool's placeholder, letter for letter.
pub open spec fn names_nothing(text: Seq<char>) -> bool {
    text.len() == 0 || text == NO_SELECTION_TEXT@
}

/// The selection that a look at the page stands for. No text is judged as a
/// selector: every text that names something is one.
pub open spec fn resolution(probe: FieldProbe) -> UserSelection {
    match probe {
        FieldProbe::Absent => UserSelection::MissingGadget,
        FieldProbe::Present(None) => UserSelection::Empty,
        FieldProbe::Present(Some(text)) => if names_nothing(text@) {
            UserSelection::Empty
        } else {
            UserSelection::Selection(text)
        },
    }
}

/// Classifies what a look at the page has shown.
pub fn resolve(probe: FieldProbe) -> (selection: UserSelection)
    ensures
        selection == resolution(probe),
{
    match probe {
        FieldProbe::Absent => UserSelection::MissingGadget,
        FieldProbe::Present(None) => UserSelection::Empty,
        FieldProbe::Present(Some(text)) => {
            if text.as_str().is_empty() || text == NO_SELECTION_TEXT.to_owned() {
                UserSelection::Empty
            } else {
                UserSelection::Selection(text)
            }
        },
    }
}

/// Whether the tool has to be put into the page: only when it is missing.
pub fn needs_injection(selection: &UserSelection) -> (needed: bool)
    ensures
        needed == (*selection is MissingGadget),
{
    match selection {
        UserSelection::MissingGadget => true,
        _ => false,
    }
}

} // verus!
