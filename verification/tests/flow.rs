//! Tests of the selection flow: the bounded wait's branches, the
//! confirmation texts, and the prompt notices.

use select_bot::messages::{confirmation_text, label};
use select_bot::selection::{
    decide_after_delivery, decide_selection, menu_custom_id, menu_options, menu_placeholder,
    notice_text, prompt_ephemeral, prompt_text, register, ComponentPayload, FlowError,
    PromptNotice, SelectionStep, SELECTION_TIMEOUT_SECS,
};

#[test]
fn menu_offers_one_through_ten() {
    let opts = menu_options();
    let expected = vec!["1", "2", "3", "4", "5", "6", "7", "8", "9", "10"];
    assert_eq!(opts.len(), 10);
    for i in 0..10 {
        assert_eq!(opts[i].as_str(), expected[i]);
    }
}

#[test]
fn labels_spell_the_values() {
    for n in 1..=10u8 {
        assert_eq!(label(n), n.to_string());
    }
}

#[test]
fn prompt_texts() {
    assert_eq!(
        prompt_text().as_str(),
        "1\u{FF5E}10\u{306E}\u{6570}\u{5B57}\u{3092}\u{9078}\u{3093}\u{3067}\u{304F}\u{3060}\u{3055}\u{3044}\u{FF01}"
    );
    assert_eq!(
        menu_placeholder().as_str(),
        "1\u{FF5E}10\u{306E}\u{6570}\u{5B57}\u{3092}\u{9078}\u{3093}\u{3067}\u{304F}\u{3060}\u{3055}\u{3044}"
    );
    assert!(prompt_ephemeral());
    assert_eq!(menu_custom_id().as_str(), "number_select");
    assert_eq!(SELECTION_TIMEOUT_SECS, 60);
}

#[test]
fn register_declares_the_command() {
    let c = register();
    assert_eq!(c.name.as_str(), "select");
    assert_eq!(c.description.as_str(), "choose a number between 1 and 10.");
}

#[test]
fn each_value_confirmed_exactly() {
    // Selecting value v yields a confirmation whose digit characters are
    // exactly v: no other offered value can be read out of it.
    for n in 1..=10u8 {
        let v = label(n);
        let text = confirmation_text(&v);
        assert_eq!(
            text,
            format!(
                "\u{3042}\u{306A}\u{305F}\u{306F} **{}** \u{3092}\u{9078}\u{3073}\u{307E}\u{3057}\u{305F}\u{FF01}",
                n
            )
        );
        let digits: String = text.chars().filter(|c| c.is_ascii_digit()).collect();
        assert_eq!(digits, v);
    }
}

#[test]
fn selection_resolves_to_first_value() {
    let outcome = Some(ComponentPayload::StringSelect {
        values: vec!["7".to_string()],
    });
    match decide_selection(&outcome) {
        Ok(SelectionStep::Chosen { value }) => assert_eq!(value.as_str(), "7"),
        other => panic!("expected the chosen branch, got {:?}", other),
    }
}

#[test]
fn multi_select_uses_first_value_only() {
    let outcome = Some(ComponentPayload::StringSelect {
        values: vec!["3".to_string(), "9".to_string()],
    });
    match decide_selection(&outcome) {
        Ok(SelectionStep::Chosen { value }) => assert_eq!(value.as_str(), "3"),
        other => panic!("expected the chosen branch, got {:?}", other),
    }
}

#[test]
fn timeout_reaches_timeout_branch() {
    // No selection before the deadline: the timeout branch, never the
    // success or failure branches.
    match decide_selection(&None) {
        Ok(SelectionStep::TimedOut) => {}
        other => panic!("expected the timeout branch, got {:?}", other),
    }
    assert_eq!(
        notice_text(PromptNotice::Timeout).as_str(),
        "\u{30BF}\u{30A4}\u{30E0}\u{30A2}\u{30A6}\u{30C8}\u{3057}\u{307E}\u{3057}\u{305F}\u{3002}\u{3082}\u{3046}\u{4E00}\u{5EA6}\u{8A66}\u{3057}\u{3066}\u{304F}\u{3060}\u{3055}\u{3044}\u{3002}"
    );
}

#[test]
fn unexpected_payload_is_an_error() {
    // A payload that is not a string selection yields an error, never a
    // silently wrong value.
    let outcome = Some(ComponentPayload::Other);
    assert_eq!(decide_selection(&outcome), Err(FlowError::MalformedPayload));
    let empty = Some(ComponentPayload::StringSelect { values: vec![] });
    assert_eq!(decide_selection(&empty), Err(FlowError::MalformedPayload));
    assert_eq!(
        FlowError::MalformedPayload.describe().as_str(),
        "Unexpected interaction data kind"
    );
}

#[test]
fn failed_delivery_shows_failure_notice() {
    // Delivery failed: the failure notice, never a duplicate success
    // notice.
    let notice = decide_after_delivery(false);
    assert_eq!(notice, PromptNotice::DeliveryFailed);
    assert_ne!(notice, PromptNotice::DeliverySucceeded);
    assert_eq!(
        notice_text(notice).as_str(),
        "DM\u{304C}\u{9001}\u{4FE1}\u{3067}\u{304D}\u{307E}\u{305B}\u{3093}\u{3067}\u{3057}\u{305F}\u{3002}"
    );
}

#[test]
fn delivered_confirmation_shows_success_notice() {
    let notice = decide_after_delivery(true);
    assert_eq!(notice, PromptNotice::DeliverySucceeded);
    assert_eq!(
        notice_text(notice).as_str(),
        "DM\u{3092}\u{9001}\u{4FE1}\u{3057}\u{307E}\u{3057}\u{305F}\u{FF01}\u{3054}\u{78BA}\u{8A8D}\u{304F}\u{3060}\u{3055}\u{3044}\u{3002}"
    );
}

#[test]
fn example_scenario_select_seven() {
    // Invocation: the prompt offers "1".."10"; the user selects "7"
    // within the timeout; one direct message containing "7" goes out and
    // the prompt is updated in place with the success notice.
    let opts = menu_options();
    assert!(opts.iter().any(|o| o.as_str() == "7"));
    let outcome = Some(ComponentPayload::StringSelect {
        values: vec!["7".to_string()],
    });
    let value = match decide_selection(&outcome) {
        Ok(SelectionStep::Chosen { value }) => value,
        other => panic!("expected the chosen branch, got {:?}", other),
    };
    let dm = confirmation_text(&value);
    assert!(dm.contains("7"));
    assert_eq!(
        dm.as_str(),
        "\u{3042}\u{306A}\u{305F}\u{306F} **7** \u{3092}\u{9078}\u{3073}\u{307E}\u{3057}\u{305F}\u{FF01}"
    );
    let notice = decide_after_delivery(true);
    assert_eq!(notice, PromptNotice::DeliverySucceeded);
}
