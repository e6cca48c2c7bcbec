use ruela::data::{Attribution, Data, GuildId, Member, OrganizationalUnit};
use ruela::rule::{Rules, RulesMessage};
use ruela::strikes::Strikes;
use ruela::convictions::Convictions;
use ruela::text::{contains, decimal_string, join_strings, same_text, user_mention};

#[test]
fn decimal_notation() {
    assert_eq!(decimal_string(0), "0");
    assert_eq!(decimal_string(7), "7");
    assert_eq!(decimal_string(10), "10");
    assert_eq!(decimal_string(1234567890), "1234567890");
    assert_eq!(decimal_string(u64::MAX), u64::MAX.to_string());
}

#[test]
fn mentions() {
    assert_eq!(user_mention(80351110224678912), "<@80351110224678912>");
    assert_eq!(user_mention(0), "<@0>");
}

#[test]
fn substring_search() {
    assert!(contains("1. be kind", "kind"));
    assert!(contains("1. be kind", ""));
    assert!(contains("", ""));
    assert!(!contains("", "a"));
    assert!(!contains("1. be kind", "unkind"));
    assert!(contains("abcabd", "abd"));
    assert!(!contains("ab", "abc"));
    assert!(contains("héllo wörld", "ö"));
}

#[test]
fn joining() {
    let items = vec!["a".to_string(), "bc".to_string(), "d".to_string()];
    assert_eq!(join_strings(&items, "\n"), "a\nbc\nd");
    assert_eq!(join_strings(&vec!["x".to_string()], ", "), "x");
    assert_eq!(join_strings(&Vec::new(), ", "), "");
}

#[test]
fn text_equality() {
    assert!(same_text("cancel", "cancel"));
    assert!(!same_text("cancel", "confirm"));
    assert!(!same_text("cancel", "cancelled"));
    assert!(same_text("", ""));
}

#[test]
fn unit_directories() {
    assert_eq!(GuildId(42).dir(), vec!["guilds".to_string(), "42".to_string()]);
    let member = Member { guild_id: 42, user_id: 7 };
    assert_eq!(
        member.dir(),
        vec!["guilds".to_string(), "42".to_string(), "members".to_string(), "7".to_string()]
    );
}

#[test]
fn data_files() {
    assert_eq!(
        <Rules as Data<GuildId>>::file_for(&GuildId(1)),
        vec!["guilds".to_string(), "1".to_string(), "rules.cbor".to_string()]
    );
    assert_eq!(
        <RulesMessage as Data<GuildId>>::file_for(&GuildId(1)),
        vec!["guilds".to_string(), "1".to_string(), "rules_message.cbor".to_string()]
    );
    let member = Member { guild_id: 3, user_id: 9 };
    assert_eq!(
        <Strikes as Data<Member>>::file_for(&member),
        vec![
            "guilds".to_string(),
            "3".to_string(),
            "members".to_string(),
            "9".to_string(),
            "strikes.cbor".to_string()
        ]
    );
    assert_eq!(
        <Convictions as Data<Member>>::file_for(&member).last().unwrap(),
        "convictions.cbor"
    );
}

#[test]
fn data_failure_contexts() {
    assert_eq!(<Rules as Data<GuildId>>::get_failure_context(), "could not get server rules");
    assert_eq!(<Rules as Data<GuildId>>::set_failure_context(), "could not set server rules");
    assert_eq!(
        <RulesMessage as Data<GuildId>>::get_failure_context(),
        "could not get persistent rule list message"
    );
    assert_eq!(<Strikes as Data<Member>>::set_failure_context(), "could not set member strikes");
    assert_eq!(
        <Convictions as Data<Member>>::get_failure_context(),
        "could not get member convictions"
    );
    assert_eq!(<Rules as Data<GuildId>>::descriptor(), "server rules");
    assert_eq!(<Strikes as Data<Member>>::path(), "strikes.cbor");
}

#[test]
fn attributions() {
    let a = Attribution::new(5, 1700000000);
    assert_eq!(a.user, 5);
    assert_eq!(a.timestamp, 1700000000);
    let now = Attribution::now(6).expect("the clock reads a time after the epoch");
    assert_eq!(now.user, 6);
    assert!(now.timestamp > 1700000000);
}

#[test]
fn distinct_units_have_distinct_directories() {
    assert_ne!(GuildId(1).dir(), GuildId(10).dir());
    let a = Member { guild_id: 1, user_id: 2 };
    let b = Member { guild_id: 1, user_id: 3 };
    let c = Member { guild_id: 12, user_id: 2 };
    assert_ne!(a.dir(), b.dir());
    assert_ne!(a.dir(), c.dir());
    assert_eq!(a.dir()[..2], GuildId(1).dir()[..]);
    assert_ne!(decimal_string(12), decimal_string(21));
}
