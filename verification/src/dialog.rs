use vstd::prelude::*;

verus! {

/// One button of a dialog: its label and the key that triggers it.
pub struct DialogAction {
    pub text: String,
    pub key: String,
}

impl DialogAction {
    /// Builds one button.
    pub fn new(text: &str, key: &str) -> (r: DialogAction)
        ensures
            r.text@ == text@,
            r.key@ == key@,
    {
        DialogAction { text: text.to_owned(), key: key.to_owned() }
    }

    /// The plain two-button question.
    pub fn yes_no() -> (r: Vec<DialogAction>)
        ensures
            r@.len() == 2,
            r@[0].text@ == "Yes"@,
            r@[0].key@ == "y"@,
            r@[1].text@ == "No"@,
            r@[1].key@ == "n"@,
    {
        let mut r: Vec<DialogAction> = Vec::new();
        r.push(Self::new("Yes", "y"));
        r.push(Self::new("No", "n"));
        r
    }

    /// The four-button question whose first and last answers also decide the
    /// remainder of the operation: All, Yes, No, Cancel.
    pub fn multi_yes_no() -> (r: Vec<DialogAction>)
        ensures
            multi_buttons(r@),
    {
        let mut r: Vec<DialogAction> = Vec::new();
        r.push(Self::new("All", "!"));
        r.push(Self::new("Yes", "y"));
        r.push(Self::new("No", "n"));
        r.push(Self::new("Cancel", "ctrl-g"));
        r
    }

    /// The single button of an informational message.
    pub fn ok_only() -> (r: Vec<DialogAction>)
        ensures
            one_button(r@),
    {
        let mut r: Vec<DialogAction> = Vec::new();
        r.push(Self::new("OK", "enter"));
        r
    }

    /// The single button of a progress message.
    pub fn cancel_only() -> (r: Vec<DialogAction>)
        ensures
            r@.len() == 1,
            r@[0].text@ == "Cancel"@,
            r@[0].key@ == "ctrl-g"@,
    {
        let mut r: Vec<DialogAction> = Vec::new();
        r.push(Self::new("Cancel", "ctrl-g"));
        r
    }
}

/// The four buttons whose first and last answers also decide the remainder
/// of the operation: the answer indices the engines act on depend on this
/// exact layout.
pub open spec fn multi_buttons(actions: Seq<DialogAction>) -> bool {
    &&& actions.len() == 4
    &&& actions[0].text@ == "All"@ && actions[0].key@ == "!"@
    &&& actions[1].text@ == "Yes"@ && actions[1].key@ == "y"@
    &&& actions[2].text@ == "No"@ && actions[2].key@ == "n"@
    &&& actions[3].text@ == "Cancel"@ && actions[3].key@ == "ctrl-g"@
}

/// The one button of an informational message: nothing is decided by it.
pub open spec fn one_button(actions: Seq<DialogAction>) -> bool {
    &&& actions.len() == 1
    &&& actions[0].text@ == "OK"@
    &&& actions[0].key@ == "enter"@
}

/// One selectable item of a multi-option question.
pub struct DialogOption {
    pub text: String,
    pub icon_name: String,
}

/// A question sent to the user interface: a message, the buttons, and an
/// optional list of options with a preselected one.
pub struct DialogRequest {
    pub msg: Vec<u8>,
    pub actions: Vec<DialogAction>,
    pub sel_option: Option<usize>,
    pub options: Vec<DialogOption>,
}

impl DialogRequest {
    /// Builds a plain question without options.
    pub fn new(msg: Vec<u8>, actions: Vec<DialogAction>) -> (r: DialogRequest)
        ensures
            r.msg@ == msg@,
            r.actions == actions,
            r.sel_option is None,
            r.options@.len() == 0,
    {
        DialogRequest { msg, actions, sel_option: None, options: Vec::new() }
    }
}

/// The user's answer: the chosen button, and the chosen option if any.
pub struct DialogResponse {
    pub action: usize,
    pub sel_option: Option<usize>,
}

impl DialogResponse {
    /// Builds an answer.
    pub fn new(action: usize, sel_option: Option<usize>) -> (r: DialogResponse)
        ensures
            r.action == action,
            r.sel_option == sel_option,
    {
        DialogResponse { action, sel_option }
    }
}

} // verus!
