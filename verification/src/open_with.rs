use vstd::prelude::*;
use vstd::string::*;

use crate::bytes::note;
use crate::dialog::DialogAction;
use crate::dialog::DialogOption;
use crate::dialog::DialogRequest;
use crate::dialog::DialogResponse;
use crate::dir_model::has_mark;

verus! {

/// The "open file with" question: the applications as options, the default
/// one preselected, under the actions Default, Yes and Cancel.
pub fn open_with_request(options: Vec<DialogOption>, sel_option: Option<usize>) -> (r:
    DialogRequest)
    ensures
        r.msg@ == "Open file with:".spec_bytes(),
        r.actions@.len() == 3,
        r.actions@[0].text@ == "Default"@,
        r.actions@[1].text@ == "Yes"@,
        r.actions@[2].text@ == "Cancel"@,
        r.options == options,
        r.sel_option == sel_option,
{
    let mut actions: Vec<DialogAction> = Vec::new();
    actions.push(DialogAction::new("Default", "!"));
    actions.push(DialogAction::new("Yes", "enter"));
    actions.push(DialogAction::new("Cancel", "ctrl-g"));
    let msg = note("Open file with:", &Vec::new(), "");
    proof {
        reveal_strlit("");
        assert("".spec_bytes() =~= Seq::<u8>::empty());
        assert(msg@ =~= "Open file with:".spec_bytes());
    }
    DialogRequest { msg, actions, sel_option, options }
}

/// Where the default application stands among the offered ones: its first
/// position where it is offered, else the front, where it is put.
pub fn default_selection(all: &mut Vec<usize>, default_idx: Option<usize>) -> (r: Option<usize>)
    ensures
        match default_idx {
            None => r is None && final(all)@ == old(all)@,
            Some(d) => match r {
                Some(p) => (if has_mark(old(all)@, d) {
                    &&& final(all)@ == old(all)@
                    &&& 0 <= p < old(all)@.len()
                    &&& old(all)@[p as int] == d
                    &&& forall|j: int| 0 <= j < p ==> old(all)@[j] != d
                } else {
                    &&& p == 0
                    &&& final(all)@ == old(all)@.insert(0, d)
                }),
                None => false,
            },
        },
{
    match default_idx {
        None => None,
        Some(d) => {
            let mut i: usize = 0;
            while i < all.len()
                invariant
                    i <= all@.len(),
                    all@ == old(all)@,
                    default_idx == Some(d),
                    forall|j: int| 0 <= j < i ==> all@[j] != d,
                decreases all@.len() - i,
            {
                if all[i] == d {
                    proof {
                        assert(has_mark(all@, d));
                    }
                    return Some(i);
                }
                i += 1;
            }
            proof {
                assert(!has_mark(all@, d)) by {
                    if has_mark(all@, d) {
                        let j = choose|j: int| 0 <= j < all@.len() && all@[j] == d;
                        assert(all@[j] != d);
                    }
                }
            }
            all.insert(0, d);
            Some(0)
        },
    }
}

/// What the user's answer to the "open file with" question decides.
pub enum OpenWithDecision {
    /// The question was dismissed; nothing is launched.
    Dismiss,
    /// No application was selected; nothing can be launched.
    NoSelection,
    /// Launch the selected application; remember it as the default where
    /// the user said so.
    Launch { option: usize, set_default: bool },
}

/// Reads the answer to the "open file with" question: the last action
/// dismisses it, an answer without a selected application (or with one
/// past the offered ones) selects nothing, and the first action also makes
/// the launched application the default.
pub fn open_file_outcome(response: &DialogResponse, count: usize) -> (r: OpenWithDecision)
    ensures
        response.action == 2 ==> r is Dismiss,
        response.action != 2 && (match response.sel_option {
            None => true,
            Some(i) => i >= count,
        }) ==> r is NoSelection,
        response.action != 2 ==> (response.sel_option matches Some(i) ==> (i < count ==> r == (
        OpenWithDecision::Launch { option: i, set_default: response.action == 0 }))),
{
    if response.action == 2 {
        OpenWithDecision::Dismiss
    } else {
        match response.sel_option {
            None => OpenWithDecision::NoSelection,
            Some(i) => {
                if i < count {
                    OpenWithDecision::Launch { option: i, set_default: response.action == 0 }
                } else {
                    OpenWithDecision::NoSelection
                }
            },
        }
    }
}

} // verus!
