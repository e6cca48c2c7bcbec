//! Errors that a command reports to the person who invoked it, and their text.

use vstd::prelude::*;
use vstd::string::*;

use crate::text::{decimal, mention, push_decimal, push_mention};

verus! {

/// The permission to manage the server.
pub const MANAGE_GUILD: u64 = 32;

/// The permission to view the server's audit log.
pub const VIEW_AUDIT_LOG: u64 = 128;

/// What the `Display` of a set of permissions gives: the names of the
/// permissions in `bits`.
pub uninterp spec fn permission_names(bits: u64) -> Seq<char>;

/// Calls `serenity::model::permissions::Permissions::from_bits_truncate` and
/// formats the result with its `Display` impl, which lists the names of the
/// permissions. The result is a function of `bits` alone, written out here for
/// a single permission to manage the server or to view the audit log, whose
/// names are "Manage Guild" and "View Audit Log".
#[verifier::external_body]
pub(crate) fn permission_names_string(bits: u64) -> (s: String)
    ensures
        s@ == permission_names(bits),
        bits == MANAGE_GUILD ==> s@ == "Manage Guild"@,
        bits == VIEW_AUDIT_LOG ==> s@ == "View Audit Log"@,
{
    poise::serenity_prelude::Permissions::from_bits_truncate(bits).to_string()
}

/// Whether a set of permissions holds every permission of `wanted`.
pub open spec fn has_permissions(held: u64, wanted: u64) -> bool {
    held & wanted == wanted
}

/// Whether `held` holds every permission of `wanted`, as `Permissions::contains`.
pub fn holds_permissions(held: u64, wanted: u64) -> (b: bool)
    ensures
        b == has_permissions(held, wanted),
{
    held & wanted == wanted
}

/// The message that someone lacks the permissions named `names`, followed by
/// `reason`.
pub fn permission_required(names: &str, reason: &str) -> (s: String)
    ensures
        s@ == "You must have permission to "@ + names@ + reason@,
{
    let mut s = String::from_str("You must have permission to ");
    s.append(names);
    s.append(reason);
    s
}

/// An error that the person who invoked a command is told about.
#[derive(Debug, PartialEq, Eq)]
pub enum CommandError {
    /// The rule with this number does not exist.
    NoSuchRule { rule_n: usize },
    /// The member has no strike with this number.
    NoSuchStrike { strike_n: usize, user: u64 },
    /// Someone tried to repeal a strike issued to themselves.
    SelfRepeal,
    /// Someone without permission to view the audit log asked about another
    /// member's strikes.
    CannotSeeOthersStrikes,
    /// Someone without permission to manage the server asked for a persistent
    /// rule list.
    CannotCreatePersistentList,
    /// A persistent rule list already exists; `link` leads to it.
    PersistentListExists { link: String },
}

impl CommandError {
    /// The text shown for this error.
    pub open spec fn spec_message(&self) -> Seq<char> {
        match self {
            CommandError::NoSuchRule { rule_n } =>
                "There is no rule "@ + decimal(*rule_n as nat) + "."@,
            CommandError::NoSuchStrike { strike_n, user } =>
                "There is no strike "@ + decimal(*strike_n as nat) + " for "@ + mention(*user) + "."@,
            CommandError::SelfRepeal => "You can't repeal a strike issued to yourself."@,
            CommandError::CannotSeeOthersStrikes =>
                "You must have permission to View Audit Log for info on other people's strikes."@,
            CommandError::CannotCreatePersistentList =>
                "You must have permission to Manage Guild to create a persistent rule list."@,
            CommandError::PersistentListExists { link } =>
                "A persistent rule list already exists and there can only be one per server.\nPlease delete "@
                    + link@ + " if you want to send a new one."@,
        }
    }

    /// The text shown for this error.
    pub fn message(&self) -> (s: String)
        ensures
            s@ == self.spec_message(),
    {
        match self {
            CommandError::NoSuchRule { rule_n } => {
                let mut s = String::from_str("There is no rule ");
                push_decimal(&mut s, *rule_n as u64);
                s.append(".");
                s
            },
            CommandError::NoSuchStrike { strike_n, user } => {
                let mut s = String::from_str("There is no strike ");
                push_decimal(&mut s, *strike_n as u64);
                s.append(" for ");
                push_mention(&mut s, *user);
                s.append(".");
                s
            },
            CommandError::SelfRepeal => String::from_str("You can't repeal a strike issued to yourself."),
            CommandError::CannotSeeOthersStrikes => {
                let names = permission_names_string(VIEW_AUDIT_LOG);
                let s = permission_required(names.as_str(), " for info on other people's strikes.");
                proof {
                    reveal_strlit("You must have permission to ");
                    reveal_strlit("View Audit Log");
                    reveal_strlit(" for info on other people's strikes.");
                    reveal_strlit("You must have permission to View Audit Log for info on other people's strikes.");
                    assert(s@ =~= self.spec_message());
                }
                s
            },
            CommandError::CannotCreatePersistentList => {
                let names = permission_names_string(MANAGE_GUILD);
                let s = permission_required(names.as_str(), " to create a persistent rule list.");
                proof {
                    reveal_strlit("You must have permission to ");
                    reveal_strlit("Manage Guild");
                    reveal_strlit(" to create a persistent rule list.");
                    reveal_strlit("You must have permission to Manage Guild to create a persistent rule list.");
                    assert(s@ =~= self.spec_message());
                }
                s
            },
            CommandError::PersistentListExists { link } => {
                let mut s = String::from_str(
                    "A persistent rule list already exists and there can only be one per server.\nPlease delete ",
                );
                s.append(link.as_str());
                s.append(" if you want to send a new one.");
                s
            },
        }
    }
}

} // verus!
