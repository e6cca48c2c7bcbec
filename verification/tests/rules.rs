use ruela::errors::CommandError;
use ruela::rule::{
    check_no_persistent_list, ensure_can_create_persistent_list, instated_message,
    is_not_found_error, last_updated, stored_list_state, FetchedRulesMessage, Rule, Rules,
    RulesMessage, StoredListState, TimestampedText,
};

fn rules_of(texts: &[&str]) -> Rules {
    let mut rules = Rules::empty();
    for (i, text) in texts.iter().enumerate() {
        rules.instate(Rule::with_timestamp(text.to_string(), 1000 + i as u64));
    }
    rules
}

#[test]
fn new_rule_is_in_force_and_unamended() {
    let rule = Rule::new("Be kind.".to_string()).expect("the clock reads a time after the epoch");
    assert_eq!(rule.original.text, "Be kind.");
    assert!(rule.amendments.is_empty());
    assert!(rule.repealed.is_none());
    assert_eq!(rule.current_text(), "Be kind.");
    let text = TimestampedText::new("x".to_string()).unwrap();
    assert_eq!(text.text, "x");
    assert!(text.timestamp > 1700000000);
}

#[test]
fn current_text_is_last_amendment() {
    let mut rule = Rule::with_timestamp("Be kind.".to_string(), 1);
    rule.amendments.push(TimestampedText::at("Be very kind.".to_string(), 2));
    rule.amendments.push(TimestampedText::at("Be kind always.".to_string(), 3));
    assert_eq!(rule.current_text(), "Be kind always.");
}

#[test]
fn instating_numbers_rules() {
    let mut rules = Rules::empty();
    assert_eq!(rules.instate(Rule::with_timestamp("a".to_string(), 1)), 1);
    assert_eq!(rules.instate(Rule::with_timestamp("b".to_string(), 2)), 2);
    assert_eq!(rules.len(), 2);
}

#[test]
fn instated_message_quotes_text() {
    assert_eq!(instated_message(3, "No spam."), "Rule 3, \"No spam.\", has been instated.");
    assert_eq!(
        instated_message(1, "Say \"hi\"\n"),
        "Rule 1, \"Say \\\"hi\\\"\\n\", has been instated."
    );
}

#[test]
fn rule_list_shows_rules_in_force() {
    let mut rules = rules_of(&["Be kind.", "No spam.", "Have fun."]);
    assert_eq!(rules.list_items(), vec!["1\\. Be kind.", "2\\. No spam.", "3\\. Have fun."]);
    rules.repeal(2, 5000).unwrap();
    assert_eq!(rules.list_items(), vec!["1\\. Be kind.", "3\\. Have fun."]);
    assert_eq!(rules.list_text(), "### Rules\n1\\. Be kind.\n3\\. Have fun.");
}

#[test]
fn empty_rule_list() {
    let rules = Rules::empty();
    assert_eq!(rules.list_text(), "### Rules\nThere are none. Let there be anarchy!");
    let mut one = rules_of(&["Only rule."]);
    one.repeal(1, 9).unwrap();
    assert_eq!(one.list_text(), "### Rules\nThere are none. Let there be anarchy!");
}

#[test]
fn compiled_rule_list() {
    let rules = rules_of(&["Be kind."]);
    let (body, footnote) = rules.compile_rule_list(1712345678);
    assert_eq!(body, "### Rules\n1\\. Be kind.");
    assert_eq!(footnote, "-# Last updated <t:1712345678:R>");
    assert_eq!(last_updated(0), "-# Last updated <t:0:R>");
    let (body_now, footnote_now) = rules.compile_rule_list_now().unwrap();
    assert_eq!(body_now, body);
    assert!(footnote_now.starts_with("-# Last updated <t:"));
    assert!(footnote_now.ends_with(":R>"));
}

#[test]
fn repeal_keeps_first_repeal_time() {
    let mut rules = rules_of(&["a", "b"]);
    assert_eq!(rules.repeal(1, 10), Ok(()));
    assert_eq!(rules.0[0].repealed, Some(10));
    assert_eq!(rules.repeal(1, 20), Ok(()));
    assert_eq!(rules.0[0].repealed, Some(10));
    assert_eq!(rules.0[1].repealed, None);
    assert_eq!(rules.repeal(3, 30), Err(CommandError::NoSuchRule { rule_n: 3 }));
    assert_eq!(rules.repeal(0, 30), Err(CommandError::NoSuchRule { rule_n: 0 }));
    assert_eq!(rules.0[1].repealed, None);
}

#[test]
fn describing_rules() {
    let mut rules = rules_of(&["Be kind.", "No spam."]);
    rules.repeal(2, 3).unwrap();
    assert_eq!(rules.describe(0).unwrap(), "1\\. Be kind.");
    assert_eq!(rules.describe(1).unwrap(), "2\\. No spam.");
    assert_eq!(rules.describe(2), Err(CommandError::NoSuchRule { rule_n: 3 }));
}

#[test]
fn autocomplete_filters_by_lowercase_query() {
    let mut rules = rules_of(&["Be KIND.", "No spam.", "Be kind to bots."]);
    assert_eq!(
        rules.autocomplete_choices("kind"),
        vec![("1. Be KIND.".to_string(), 1), ("3. Be kind to bots.".to_string(), 3)]
    );
    assert_eq!(rules.autocomplete_choices("").len(), 3);
    assert_eq!(rules.autocomplete_choices("2."), vec![("2. No spam.".to_string(), 2)]);
    assert_eq!(rules.autocomplete_choices("KIND"), vec![]);
    rules.repeal(1, 1).unwrap();
    assert_eq!(
        rules.autocomplete_choices("kind"),
        vec![("3. Be kind to bots.".to_string(), 3)]
    );
}

#[test]
fn not_found_errors() {
    assert!(is_not_found_error(Some(404)));
    assert!(!is_not_found_error(Some(403)));
    assert!(!is_not_found_error(None));
}

#[test]
fn stored_list_states() {
    assert_eq!(stored_list_state(&FetchedRulesMessage::NotStored), StoredListState::Absent);
    assert_eq!(
        stored_list_state(&FetchedRulesMessage::FetchFailed { status: Some(404) }),
        StoredListState::Absent
    );
    assert_eq!(
        stored_list_state(&FetchedRulesMessage::FetchFailed { status: Some(500) }),
        StoredListState::Failed
    );
    assert_eq!(
        stored_list_state(&FetchedRulesMessage::FetchFailed { status: None }),
        StoredListState::Failed
    );
    assert_eq!(
        stored_list_state(&FetchedRulesMessage::Fetched { link: "l".to_string() }),
        StoredListState::Live
    );
}

#[test]
fn persistent_list_checks() {
    assert_eq!(ensure_can_create_persistent_list(32), Ok(()));
    assert_eq!(ensure_can_create_persistent_list(32 | 8), Ok(()));
    assert_eq!(
        ensure_can_create_persistent_list(8),
        Err(CommandError::CannotCreatePersistentList)
    );
    assert_eq!(check_no_persistent_list(&FetchedRulesMessage::NotStored), Ok(true));
    assert_eq!(
        check_no_persistent_list(&FetchedRulesMessage::FetchFailed { status: Some(404) }),
        Ok(true)
    );
    assert_eq!(
        check_no_persistent_list(&FetchedRulesMessage::FetchFailed { status: Some(401) }),
        Ok(false)
    );
    let link = "https://discord.com/channels/1/2/3".to_string();
    let err = check_no_persistent_list(&FetchedRulesMessage::Fetched { link: link.clone() })
        .unwrap_err();
    assert_eq!(err, CommandError::PersistentListExists { link });
    assert_eq!(
        err.message(),
        "A persistent rule list already exists and there can only be one per server.\n\
         Please delete https://discord.com/channels/1/2/3 if you want to send a new one."
    );
}

#[test]
fn rules_message_locations() {
    assert_eq!(RulesMessage::none().0, None);
    assert_eq!(RulesMessage::sent(11, 22).0, Some((11, 22)));
}

#[test]
fn chosen_rule_number_names_the_chosen_rule() {
    let rules = rules_of(&["Be kind.", "No spam."]);
    for (label, value) in rules.autocomplete_choices("") {
        assert!(label.starts_with(&format!("{value}. ")));
        let rule_i = ruela::strikes::rule_index(Some(value)).unwrap();
        assert_eq!(rules.describe(rule_i).unwrap(), label.replacen(". ", "\\. ", 1));
    }
}
