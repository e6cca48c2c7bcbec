use ruela::convictions::{component_for_conviction, Conviction, Convictions};
use ruela::data::{Attribution, Member};
use ruela::errors::CommandError;
use ruela::rule::{Rule, Rules};
use ruela::strikes::{component_for_strike, ensure_author_has_perms, ensure_not_own_strike, rule_index, Strike, Strikes};

fn rules() -> Rules {
    let mut rules = Rules::empty();
    rules.instate(Rule::with_timestamp("Be kind.".to_string(), 1));
    rules.instate(Rule::with_timestamp("No spam.".to_string(), 2));
    rules
}

#[test]
fn rule_numbers_to_indexes() {
    assert_eq!(rule_index(Some(1)), Some(0));
    assert_eq!(rule_index(Some(12)), Some(11));
    assert_eq!(rule_index(None), None);
}

#[test]
fn new_strike() {
    let s = Strike::new(Some(2), Some("spammed".to_string()), Attribution::new(9, 100));
    assert_eq!(s.rule_i, Some(1));
    assert_eq!(s.notes.as_deref(), Some("spammed"));
    assert_eq!(s.attribution, Attribution::new(9, 100));
    assert!(s.repeal.is_none());
}

#[test]
fn strike_component_text() {
    let member = Member { guild_id: 1, user_id: 42 };
    let s = Strike::new(Some(2), Some("spammed".to_string()), Attribution::new(9, 100));
    let (heading, footnote) = component_for_strike(&rules(), member, 3, &s).unwrap();
    assert_eq!(heading, "### <@42> Strike 3\n**Rule:** 2\\. No spam.\n**Notes:** spammed");
    assert_eq!(footnote, "-# Issued by <@9> on <t:100>");
}

#[test]
fn repealed_strike_is_struck_through() {
    let member = Member { guild_id: 1, user_id: 42 };
    let mut s = Strike::new(None, None, Attribution::new(9, 100));
    s.repeal = Some(Attribution::new(10, 200));
    let (heading, footnote) = component_for_strike(&rules(), member, 1, &s).unwrap();
    assert_eq!(heading, "### ~~<@42> Strike 1~~\n**Rule:** *None*\n**Notes:** *None*");
    assert_eq!(footnote, "-# Issued by <@9> on <t:100>\n-# Repealed by <@10> on <t:200>");
}

#[test]
fn strike_for_missing_rule() {
    let member = Member { guild_id: 1, user_id: 42 };
    let s = Strike::new(Some(5), None, Attribution::new(9, 100));
    let err = component_for_strike(&rules(), member, 1, &s).unwrap_err();
    assert_eq!(err, CommandError::NoSuchRule { rule_n: 5 });
    assert_eq!(err.message(), "There is no rule 5.");
}

#[test]
fn issuing_and_looking_up_strikes() {
    let mut strikes = Strikes::empty();
    assert_eq!(strikes.next_number(), 1);
    assert_eq!(strikes.issue(Strike::new(None, Some("a".to_string()), Attribution::new(1, 1))), 1);
    assert_eq!(strikes.issue(Strike::new(Some(1), None, Attribution::new(2, 2))), 2);
    assert_eq!(strikes.next_number(), 3);
    assert_eq!(strikes.get(1, 42).unwrap().notes.as_deref(), Some("a"));
    assert_eq!(strikes.get(2, 42).unwrap().rule_i, Some(0));
    let err = strikes.get(3, 42).unwrap_err();
    assert_eq!(err, CommandError::NoSuchStrike { strike_n: 3, user: 42 });
    assert_eq!(err.message(), "There is no strike 3 for <@42>.");
}

#[test]
fn repealing_strikes() {
    let mut strikes = Strikes::empty();
    strikes.issue(Strike::new(None, None, Attribution::new(1, 1)));
    strikes.issue(Strike::new(None, None, Attribution::new(1, 2)));
    assert_eq!(strikes.repeal(2, 42, Attribution::new(7, 50)), Ok(()));
    assert_eq!(strikes.0[1].repeal, Some(Attribution::new(7, 50)));
    assert_eq!(strikes.0[0].repeal, None);
    assert_eq!(
        strikes.repeal(3, 42, Attribution::new(7, 50)),
        Err(CommandError::NoSuchStrike { strike_n: 3, user: 42 })
    );
    let err = strikes.repeal(1, 42, Attribution::new(42, 60)).unwrap_err();
    assert_eq!(err, CommandError::SelfRepeal);
    assert_eq!(
        strikes.repeal(0, 42, Attribution::new(42, 60)),
        Err(CommandError::SelfRepeal)
    );
    assert_eq!(err.message(), "You can't repeal a strike issued to yourself.");
    assert_eq!(strikes.0[0].repeal, None);
}

#[test]
fn seeing_strikes_needs_permission_for_others() {
    assert_eq!(ensure_author_has_perms(5, 5, None), Ok(()));
    assert_eq!(ensure_author_has_perms(5, 6, Some(128)), Ok(()));
    assert_eq!(ensure_author_has_perms(5, 6, Some(0xff)), Ok(()));
    let err = ensure_author_has_perms(5, 6, Some(64)).unwrap_err();
    assert_eq!(err, CommandError::CannotSeeOthersStrikes);
    assert_eq!(
        err.message(),
        "You must have permission to View Audit Log for info on other people's strikes."
    );
    assert_eq!(
        CommandError::CannotCreatePersistentList.message(),
        "You must have permission to Manage Guild to create a persistent rule list."
    );
}

#[test]
fn conviction_component_text() {
    let member = Member { guild_id: 1, user_id: 42 };
    let c = Conviction::new(Some(1), None, Attribution::new(9, 100));
    assert_eq!(c.rule_i, Some(0));
    let (heading, footnote) = component_for_conviction(&rules(), member, 2, &c).unwrap();
    assert_eq!(heading, "### <@42> Conviction 2\n**Rule:** 1\\. Be kind.\n**Notes:** *None*");
    assert_eq!(footnote, "-# Issued by <@9> on <t:100>");
    let missing = Conviction::new(Some(3), Some("n".to_string()), Attribution::new(9, 100));
    assert_eq!(
        component_for_conviction(&rules(), member, 1, &missing),
        Err(CommandError::NoSuchRule { rule_n: 3 })
    );
}

#[test]
fn recording_convictions() {
    let mut convictions = Convictions::empty();
    assert_eq!(convictions.next_number(), 1);
    assert_eq!(convictions.record(Conviction::new(None, None, Attribution::new(1, 1))), 1);
    assert_eq!(convictions.len(), 1);
    assert_eq!(convictions.next_number(), 2);
}

#[test]
fn own_strikes_cannot_be_repealed() {
    assert_eq!(ensure_not_own_strike(5, 5), Err(CommandError::SelfRepeal));
    assert_eq!(ensure_not_own_strike(5, 6), Ok(()));
}

#[test]
fn repealed_copy_of_a_strike() {
    let s = Strike::new(Some(1), Some("n".to_string()), Attribution::new(1, 2));
    let r = s.repealed_by(Attribution::new(3, 4));
    assert_eq!(r.rule_i, Some(0));
    assert_eq!(r.notes.as_deref(), Some("n"));
    assert_eq!(r.attribution, Attribution::new(1, 2));
    assert_eq!(r.repeal, Some(Attribution::new(3, 4)));
}

#[test]
fn only_confirmed_records_are_stored() {
    let mut strikes = Strikes::empty();
    assert!(!strikes.issue_if_confirmed(Strike::new(None, None, Attribution::new(1, 1)), false));
    assert_eq!(strikes.len(), 0);
    assert!(strikes.issue_if_confirmed(Strike::new(None, None, Attribution::new(1, 1)), true));
    assert_eq!(strikes.len(), 1);
    assert_eq!(strikes.repeal_if_confirmed(1, 42, Attribution::new(7, 9), false), Ok(false));
    assert_eq!(strikes.0[0].repeal, None);
    assert_eq!(strikes.repeal_if_confirmed(1, 42, Attribution::new(7, 9), true), Ok(true));
    assert_eq!(strikes.0[0].repeal, Some(Attribution::new(7, 9)));
    assert_eq!(
        strikes.repeal_if_confirmed(2, 42, Attribution::new(7, 9), true),
        Err(CommandError::NoSuchStrike { strike_n: 2, user: 42 })
    );
    let mut convictions = Convictions::empty();
    assert!(!convictions.record_if_confirmed(Conviction::new(None, None, Attribution::new(1, 1)), false));
    assert_eq!(convictions.len(), 0);
    assert!(convictions.record_if_confirmed(Conviction::new(None, None, Attribution::new(1, 1)), true));
    assert_eq!(convictions.len(), 1);
}
