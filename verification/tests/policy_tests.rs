use forg_core::dialog::{DialogAction, DialogRequest, DialogResponse};
use forg_core::policy::{
    policy_update, progress_due, CHOICE_ALL, CHOICE_CANCEL, CHOICE_NO, CHOICE_YES,
};

#[test]
fn all_answers_yes_and_caches_yes() {
    let mut policy: Option<bool> = None;
    let confirmed = policy_update(&mut policy, CHOICE_ALL);
    assert!(confirmed);
    assert_eq!(policy, Some(true));
}

#[test]
fn yes_answers_yes_and_caches_nothing() {
    let mut policy: Option<bool> = None;
    let confirmed = policy_update(&mut policy, CHOICE_YES);
    assert!(confirmed);
    assert_eq!(policy, None);
}

#[test]
fn no_declines_and_caches_nothing() {
    let mut policy: Option<bool> = None;
    let confirmed = policy_update(&mut policy, CHOICE_NO);
    assert!(!confirmed);
    assert_eq!(policy, None);
}

#[test]
fn cancel_declines_and_caches_no() {
    let mut policy: Option<bool> = None;
    let confirmed = policy_update(&mut policy, CHOICE_CANCEL);
    assert!(!confirmed);
    assert_eq!(policy, Some(false));
}

#[test]
fn progress_is_throttled_to_ten_milliseconds() {
    assert!(!progress_due(100, 95));
    assert!(!progress_due(109, 100));
    assert!(progress_due(110, 100));
    assert!(progress_due(500, 100));
    // A clock that moved backwards stays quiet.
    assert!(!progress_due(90, 100));
}

#[test]
fn four_button_question_offers_all_yes_no_cancel() {
    let actions = DialogAction::multi_yes_no();
    let texts: Vec<&str> = actions.iter().map(|a| a.text.as_str()).collect();
    assert_eq!(texts, vec!["All", "Yes", "No", "Cancel"]);
    let keys: Vec<&str> = actions.iter().map(|a| a.key.as_str()).collect();
    assert_eq!(keys, vec!["!", "y", "n", "ctrl-g"]);
}

#[test]
fn two_button_question_offers_yes_no() {
    let actions = DialogAction::yes_no();
    let texts: Vec<&str> = actions.iter().map(|a| a.text.as_str()).collect();
    assert_eq!(texts, vec!["Yes", "No"]);
}

#[test]
fn plain_question_carries_message_and_buttons() {
    let req = DialogRequest::new(b"Sure?".to_vec(), DialogAction::yes_no());
    assert_eq!(req.msg, b"Sure?".to_vec());
    assert_eq!(req.actions.len(), 2);
    assert!(req.sel_option.is_none());
    assert!(req.options.is_empty());
}

#[test]
fn answer_keeps_its_fields() {
    let resp = DialogResponse::new(1, Some(3));
    assert_eq!(resp.action, 1);
    assert_eq!(resp.sel_option, Some(3));
}
