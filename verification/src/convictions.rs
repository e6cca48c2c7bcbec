//! Convictions of members: recording them, and how a conviction is shown.

use vstd::prelude::*;
use vstd::string::*;

use crate::data::{Attribution, Data, Member};
use crate::errors::CommandError;
use crate::rule::Rules;
use crate::strikes::{
    describe_rule_ref, issued_footnote, missing_rule, notes_part, push_issued, push_notes,
    rule_exists, rule_index, rule_index_of, rule_part,
};
use crate::text::{decimal, mention, push_decimal, push_mention};

verus! {

/// A conviction: the rule it is for, notes, who issued it and when, and who
/// repealed it and when, if anyone did.
#[derive(Debug)]
pub struct Conviction {
    pub rule_i: Option<usize>,
    pub notes: Option<String>,
    pub attribution: Attribution,
    pub repeal: Option<Attribution>,
}

impl Conviction {
    /// A conviction for the rule with number `rule_n` (counted from 1), not
    /// repealed.
    pub fn new(rule_n: Option<u64>, notes: Option<String>, attribution: Attribution) -> (c: Conviction)
        requires
            rule_n != Some(0u64),
        ensures
            c.rule_i == rule_index_of(rule_n),
            c.notes == notes,
            c.attribution == attribution,
            c.repeal is None,
    {
        Conviction { rule_i: rule_index(rule_n), notes, attribution, repeal: None }
    }
}

/// The heading of a conviction as it is shown.
pub open spec fn conviction_heading(user: u64, conviction_n: usize, rule: Seq<char>, notes: Seq<char>) -> Seq<
    char,
> {
    "### "@ + mention(user) + " Conviction "@ + decimal(conviction_n as nat) + "\n**Rule:** "@ + rule
        + "\n**Notes:** "@ + notes
}

/// A conviction's heading ends with the notes label followed by its notes.
pub proof fn lemma_conviction_heading_ends_with_notes(
    user: u64,
    conviction_n: usize,
    rule: Seq<char>,
    notes: Seq<char>,
)
    ensures
        conviction_heading(user, conviction_n, rule, notes).len() >= "\n**Notes:** "@.len() + notes.len(),
        conviction_heading(user, conviction_n, rule, notes).subrange(
            conviction_heading(user, conviction_n, rule, notes).len() - notes.len(),
            conviction_heading(user, conviction_n, rule, notes).len() as int,
        ) == notes,
        conviction_heading(user, conviction_n, rule, notes).subrange(
            conviction_heading(user, conviction_n, rule, notes).len() - notes.len() - "\n**Notes:** "@.len(),
            conviction_heading(user, conviction_n, rule, notes).len() - notes.len(),
        ) == "\n**Notes:** "@,
{
    let h = conviction_heading(user, conviction_n, rule, notes);
    let m = "\n**Notes:** "@;
    let front = "### "@ + mention(user) + " Conviction "@ + decimal(conviction_n as nat) + "\n**Rule:** "@ + rule;
    assert(h =~= front + m + notes);
    assert(h.subrange(h.len() - notes.len(), h.len() as int) =~= notes);
    assert(h.subrange(h.len() - notes.len() - m.len(), h.len() - notes.len()) =~= m);
}

/// The two texts that show conviction number `conviction_n` of `member`: its
/// heading and its footnote. Fails when the conviction refers to a rule that
/// does not exist.
pub fn component_for_conviction(
    rules: &Rules,
    member: Member,
    conviction_n: usize,
    conviction: &Conviction,
) -> (r: Result<(String, String), CommandError>)
    requires
        conviction.rule_i matches Some(i) ==> i < usize::MAX,
    ensures
        rule_exists(rules.0@, conviction.rule_i) ==> (r matches Ok(t) && t.0@ == conviction_heading(
            member.user_id,
            conviction_n,
            rule_part(rules.0@, conviction.rule_i),
            notes_part(conviction.notes),
        ) && t.1@ == issued_footnote(conviction.attribution)),
        !rule_exists(rules.0@, conviction.rule_i) ==> r == Err::<(String, String), CommandError>(
            missing_rule(conviction.rule_i),
        ),
{
    let rule = match describe_rule_ref(rules, conviction.rule_i) {
        Ok(rule) => rule,
        Err(e) => return Err(e),
    };
    let mut heading = String::from_str("### ");
    push_mention(&mut heading, member.user_id);
    heading.append(" Conviction ");
    push_decimal(&mut heading, conviction_n as u64);
    heading.append("\n**Rule:** ");
    heading.append(rule.as_str());
    heading.append("\n**Notes:** ");
    push_notes(&mut heading, &conviction.notes);
    let mut footnote = String::new();
    push_issued(&mut footnote, conviction.attribution);
    Ok((heading, footnote))
}

/// The convictions of a member, in the order they were issued.
#[derive(Debug)]
pub struct Convictions(pub Vec<Conviction>);

impl Convictions {
    /// No convictions at all.
    pub fn empty() -> (c: Convictions)
        ensures
            c.0@.len() == 0,
    {
        Convictions(Vec::new())
    }

    /// How many convictions were ever issued.
    pub fn len(&self) -> (n: usize)
        ensures
            n == self.0@.len(),
    {
        self.0.len()
    }

    /// The number (counted from 1) that the next record will have.
    pub fn next_number(&self) -> (n: usize)
        requires
            self.0@.len() < usize::MAX,
        ensures
            n == self.0@.len() + 1,
    {
        self.0.len() + 1
    }

    /// Adds `conviction` after the others when it was `confirmed`, and says
    /// whether it did: only a confirmed conviction is stored and made known.
    pub fn record_if_confirmed(&mut self, conviction: Conviction, confirmed: bool) -> (stored: bool)
        ensures
            stored == confirmed,
            confirmed ==> final(self).0@ == old(self).0@.push(conviction),
            !confirmed ==> final(self).0@ == old(self).0@,
    {
        if confirmed {
            self.record(conviction);
        }
        confirmed
    }

    /// Adds `conviction` after the others, and returns its number (counted
    /// from 1).
    pub fn record(&mut self, conviction: Conviction) -> (n: usize)
        ensures
            final(self).0@ == old(self).0@.push(conviction),
            n == final(self).0@.len(),
    {
        self.0.push(conviction);
        self.0.len()
    }
}

impl Data<Member> for Convictions {
    open spec fn spec_path() -> Seq<char> {
        "convictions.cbor"@
    }

    open spec fn spec_descriptor() -> Seq<char> {
        "member convictions"@
    }

    fn path() -> (p: &'static str) {
        "convictions.cbor"
    }

    fn descriptor() -> (d: &'static str) {
        "member convictions"
    }
}

} // verus!
