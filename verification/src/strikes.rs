//! Strikes issued to members: issuing, repealing, looking them up, and how a
//! strike is shown.

use vstd::prelude::*;
use vstd::string::*;

use crate::data::{Attribution, Data, Member};
use crate::errors::{has_permissions, holds_permissions, CommandError, VIEW_AUDIT_LOG};
use crate::rule::{list_item, Rules};
use crate::text::{decimal, mention, push_decimal, push_mention};

verus! {

/// The index (counted from 0) of the rule with number `rule_n` (counted from 1).
pub open spec fn rule_index_of(rule_n: Option<u64>) -> Option<usize> {
    match rule_n {
        Some(n) => Some((n - 1) as usize),
        None => None,
    }
}

/// The index (counted from 0) of the rule with number `rule_n` (counted from 1).
pub fn rule_index(rule_n: Option<u64>) -> (r: Option<usize>)
    requires
        rule_n != Some(0u64),
    ensures
        r == rule_index_of(rule_n),
{
    match rule_n {
        Some(n) => Some((n - 1) as usize),
        None => None,
    }
}

/// What a record says of the rule it refers to: the rule as the list shows
/// it, or `*None*`.
pub open spec fn rule_part(rules: Seq<crate::rule::Rule>, rule_i: Option<usize>) -> Seq<char> {
    match rule_i {
        Some(i) => list_item(i as int, rules[i as int]),
        None => "*None*"@,
    }
}

/// Whether a record refers to a rule that exists (or to none).
pub open spec fn rule_exists(rules: Seq<crate::rule::Rule>, rule_i: Option<usize>) -> bool {
    match rule_i {
        Some(i) => i < rules.len(),
        None => true,
    }
}

/// The error for a record that refers to a rule that does not exist.
pub open spec fn missing_rule(rule_i: Option<usize>) -> CommandError {
    CommandError::NoSuchRule { rule_n: (rule_i->0 + 1) as usize }
}

/// What a record says of its notes: the notes, or `*None*`.
pub open spec fn notes_part(notes: Option<String>) -> Seq<char> {
    match notes {
        Some(n) => n@,
        None => "*None*"@,
    }
}

/// What a record says of the rule it refers to.
pub fn describe_rule_ref(rules: &Rules, rule_i: Option<usize>) -> (r: Result<String, CommandError>)
    requires
        rule_i matches Some(i) ==> i < usize::MAX,
    ensures
        rule_exists(rules.0@, rule_i) ==> (r matches Ok(s) && s@ == rule_part(rules.0@, rule_i)),
        !rule_exists(rules.0@, rule_i) ==> r == Err::<String, CommandError>(missing_rule(rule_i)),
{
    match rule_i {
        Some(i) => rules.describe(i),
        None => Ok(String::from_str("*None*")),
    }
}

/// Appends what a record says of its notes to `out`.
pub fn push_notes(out: &mut String, notes: &Option<String>)
    ensures
        final(out)@ == old(out)@ + notes_part(*notes),
{
    match notes {
        Some(n) => out.append(n.as_str()),
        None => out.append("*None*"),
    }
}

/// Appends `<t:timestamp>` (a moment, as the client shows it) to `out`.
pub fn push_time(out: &mut String, timestamp: u64)
    ensures
        final(out)@ == old(out)@ + "<t:"@ + decimal(timestamp as nat) + ">"@,
{
    out.append("<t:");
    push_decimal(out, timestamp);
    out.append(">");
}

/// A strike: the rule it is for, notes, who issued it and when, and who
/// repealed it and when, if anyone did.
#[derive(Debug)]
pub struct Strike {
    pub rule_i: Option<usize>,
    pub notes: Option<String>,
    pub attribution: Attribution,
    pub repeal: Option<Attribution>,
}

/// A copy of optional notes.
fn copy_notes(notes: &Option<String>) -> (c: Option<String>)
    ensures
        c == *notes,
{
    match notes {
        Some(n) => Some(n.clone()),
        None => None,
    }
}

impl Strike {
    /// This strike as it stands once repealed with `attribution`.
    pub fn repealed_by(&self, attribution: Attribution) -> (s: Strike)
        ensures
            s == with_repeal(*self, attribution),
    {
        Strike {
            rule_i: self.rule_i,
            notes: copy_notes(&self.notes),
            attribution: self.attribution,
            repeal: Some(attribution),
        }
    }

    /// A strike for the rule with number `rule_n` (counted from 1), not repealed.
    pub fn new(rule_n: Option<u64>, notes: Option<String>, attribution: Attribution) -> (s: Strike)
        requires
            rule_n != Some(0u64),
        ensures
            s.rule_i == rule_index_of(rule_n),
            s.notes == notes,
            s.attribution == attribution,
            s.repeal is None,
    {
        Strike { rule_i: rule_index(rule_n), notes, attribution, repeal: None }
    }
}

/// The strike with number `strike_n` (counted from 1), if there is one.
pub open spec fn strike_at(strikes: Seq<Strike>, strike_n: usize) -> Option<Strike> {
    if 1 <= strike_n <= strikes.len() {
        Some(strikes[strike_n - 1])
    } else {
        None
    }
}

/// `strike`, repealed with `attribution`.
pub open spec fn with_repeal(strike: Strike, attribution: Attribution) -> Strike {
    Strike {
        rule_i: strike.rule_i,
        notes: strike.notes,
        attribution: strike.attribution,
        repeal: Some(attribution),
    }
}

/// A strike just issued is found under the next number, and the strikes
/// issued before it are found under the numbers they had.
pub proof fn lemma_issued_strike_found(strikes: Seq<Strike>, strike: Strike)
    requires
        strikes.len() < usize::MAX,
    ensures
        strike_at(strikes.push(strike), (strikes.len() + 1) as usize) == Some(strike),
        forall|n: usize| 1 <= n <= strikes.len() ==> #[trigger] strike_at(strikes.push(strike), n)
            == strike_at(strikes, n),
{
}

/// Repealing a strike changes that strike alone: it is found repealed under
/// its number, with everything else about it as it was, and every other
/// strike is found as it was.
pub proof fn lemma_repealed_strike_found(strikes: Seq<Strike>, strike_n: usize, attribution: Attribution)
    requires
        1 <= strike_n <= strikes.len(),
    ensures
        strike_at(strikes.update(strike_n - 1, with_repeal(strikes[strike_n - 1], attribution)), strike_n)
            == Some(with_repeal(strikes[strike_n - 1], attribution)),
        forall|n: usize| n != strike_n ==> #[trigger] strike_at(
            strikes.update(strike_n - 1, with_repeal(strikes[strike_n - 1], attribution)),
            n,
        ) == strike_at(strikes, n),
{
}

/// Rule numbers count from 1 and rule indexes from 0: the rule with number
/// `n` is at index `n - 1`, and is shown under number `n` again.
pub proof fn lemma_rule_number_round_trip(n: u64)
    requires
        1 <= n <= usize::MAX,
    ensures
        rule_index_of(Some(n)) == Some((n - 1) as usize),
        ((n - 1) as usize) + 1 == n,
{
}

/// The heading of a strike as it is shown: struck through when repealed.
pub open spec fn strike_heading(
    user: u64,
    strike_n: usize,
    repealed: bool,
    rule: Seq<char>,
    notes: Seq<char>,
) -> Seq<char> {
    let st = if repealed { "~~"@ } else { Seq::<char>::empty() };
    "### "@ + st + mention(user) + " Strike "@ + decimal(strike_n as nat) + st + "\n**Rule:** "@
        + rule + "\n**Notes:** "@ + notes
}

/// Notes are shown as they were written, and `*None*` stands only where
/// there are none.
pub proof fn lemma_notes_shown(notes: Option<String>)
    ensures
        notes matches Some(t) ==> notes_part(notes) == t@,
        notes is None ==> notes_part(notes) == "*None*"@,
{
}

/// A strike's heading ends with the notes label followed by its notes,
/// whether or not the strike is repealed.
pub proof fn lemma_strike_heading_ends_with_notes(
    user: u64,
    strike_n: usize,
    repealed: bool,
    rule: Seq<char>,
    notes: Seq<char>,
)
    ensures
        strike_heading(user, strike_n, repealed, rule, notes).len() >= "\n**Notes:** "@.len() + notes.len(),
        strike_heading(user, strike_n, repealed, rule, notes).subrange(
            strike_heading(user, strike_n, repealed, rule, notes).len() - notes.len(),
            strike_heading(user, strike_n, repealed, rule, notes).len() as int,
        ) == notes,
        strike_heading(user, strike_n, repealed, rule, notes).subrange(
            strike_heading(user, strike_n, repealed, rule, notes).len() - notes.len() - "\n**Notes:** "@.len(),
            strike_heading(user, strike_n, repealed, rule, notes).len() - notes.len(),
        ) == "\n**Notes:** "@,
{
    let h = strike_heading(user, strike_n, repealed, rule, notes);
    let m = "\n**Notes:** "@;
    let st = if repealed { "~~"@ } else { Seq::<char>::empty() };
    let front = "### "@ + st + mention(user) + " Strike "@ + decimal(strike_n as nat) + st + "\n**Rule:** "@ + rule;
    assert(h =~= front + m + notes);
    assert(h.subrange(h.len() - notes.len(), h.len() as int) =~= notes);
    assert(h.subrange(h.len() - notes.len() - m.len(), h.len() - notes.len()) =~= m);
}

/// Repealing a strike only strikes its heading through: the heading of the
/// repealed strike is the plain heading with `~~` put around the mention and
/// the number, and everything after them (rule and notes) unchanged.
pub proof fn lemma_repeal_only_strikes_through(user: u64, strike_n: usize, rule: Seq<char>, notes: Seq<char>)
    ensures
        strike_heading(user, strike_n, false, rule, notes).take(
            ("### "@ + mention(user) + " Strike "@ + decimal(strike_n as nat)).len() as int,
        ) == "### "@ + mention(user) + " Strike "@ + decimal(strike_n as nat),
        strike_heading(user, strike_n, true, rule, notes) == "### "@ + "~~"@ + mention(user) + " Strike "@
            + decimal(strike_n as nat) + "~~"@ + strike_heading(user, strike_n, false, rule, notes).skip(
            ("### "@ + mention(user) + " Strike "@ + decimal(strike_n as nat)).len() as int,
        ),
{
    let head = "### "@ + mention(user) + " Strike "@ + decimal(strike_n as nat);
    let rest = "\n**Rule:** "@ + rule + "\n**Notes:** "@ + notes;
    let plain = strike_heading(user, strike_n, false, rule, notes);
    assert(plain =~= head + rest);
    assert(plain.take(head.len() as int) =~= head);
    assert(plain.skip(head.len() as int) =~= rest);
    assert(strike_heading(user, strike_n, true, rule, notes) =~= "### "@ + "~~"@ + mention(user) + " Strike "@
        + decimal(strike_n as nat) + "~~"@ + rest);
}

/// The footnote of a record: who issued it and when.
pub open spec fn issued_footnote(attribution: Attribution) -> Seq<char> {
    "-# Issued by "@ + mention(attribution.user) + " on "@ + "<t:"@ + decimal(
        attribution.timestamp as nat,
    ) + ">"@
}

/// The footnote of a strike: who issued it and when, then who repealed it and
/// when, if anyone did.
pub open spec fn strike_footnote(strike: Strike) -> Seq<char> {
    issued_footnote(strike.attribution) + match strike.repeal {
        Some(r) => "\n-# Repealed by "@ + mention(r.user) + " on "@ + "<t:"@ + decimal(
            r.timestamp as nat,
        ) + ">"@,
        None => Seq::<char>::empty(),
    }
}

/// Appends the footnote of a record issued with `attribution` to `out`.
pub fn push_issued(out: &mut String, attribution: Attribution)
    ensures
        final(out)@ == old(out)@ + issued_footnote(attribution),
{
    out.append("-# Issued by ");
    push_mention(out, attribution.user);
    out.append(" on ");
    push_time(out, attribution.timestamp);
}

/// The two texts that show strike number `strike_n` of `member`: its heading
/// and its footnote. Fails when the strike refers to a rule that does not
/// exist.
pub fn component_for_strike(rules: &Rules, member: Member, strike_n: usize, strike: &Strike) -> (r:
    Result<(String, String), CommandError>)
    requires
        strike.rule_i matches Some(i) ==> i < usize::MAX,
    ensures
        rule_exists(rules.0@, strike.rule_i) ==> (r matches Ok(t) && t.0@ == strike_heading(
            member.user_id,
            strike_n,
            strike.repeal is Some,
            rule_part(rules.0@, strike.rule_i),
            notes_part(strike.notes),
        ) && t.1@ == strike_footnote(*strike)),
        !rule_exists(rules.0@, strike.rule_i) ==> r == Err::<(String, String), CommandError>(
            missing_rule(strike.rule_i),
        ),
{
    let rule = match describe_rule_ref(rules, strike.rule_i) {
        Ok(rule) => rule,
        Err(e) => return Err(e),
    };
    let struck = strike.repeal.is_some();
    let mut heading = String::from_str("### ");
    if struck {
        heading.append("~~");
    }
    assert(heading@ =~= "### "@ + if struck { "~~"@ } else { Seq::<char>::empty() });
    push_mention(&mut heading, member.user_id);
    heading.append(" Strike ");
    push_decimal(&mut heading, strike_n as u64);
    let ghost before_mark = heading@;
    if struck {
        heading.append("~~");
    }
    assert(heading@ =~= before_mark + if struck { "~~"@ } else { Seq::<char>::empty() });
    heading.append("\n**Rule:** ");
    heading.append(rule.as_str());
    heading.append("\n**Notes:** ");
    push_notes(&mut heading, &strike.notes);

    let mut footnote = String::new();
    push_issued(&mut footnote, strike.attribution);
    let ghost issued = footnote@;
    if let Some(repeal) = strike.repeal {
        footnote.append("\n-# Repealed by ");
        push_mention(&mut footnote, repeal.user);
        footnote.append(" on ");
        push_time(&mut footnote, repeal.timestamp);
    }
    assert(footnote@ =~= issued + match strike.repeal {
        Some(r) => "\n-# Repealed by "@ + mention(r.user) + " on "@ + "<t:"@ + decimal(r.timestamp as nat) + ">"@,
        None => Seq::<char>::empty(),
    });
    Ok((heading, footnote))
}

/// Whether the invoker (`author`, holding `author_permissions`) may see the
/// strikes of `member_user`: always for their own, and for others' only with
/// permission to view the audit log. The invoker's permissions are only
/// looked at for others' strikes.
pub fn ensure_author_has_perms(member_user: u64, author: u64, author_permissions: Option<u64>) -> (r:
    Result<(), CommandError>)
    requires
        member_user != author ==> author_permissions is Some,
    ensures
        r is Ok <==> (member_user == author || has_permissions(author_permissions->0, VIEW_AUDIT_LOG)),
        r is Err ==> r == Err::<(), CommandError>(CommandError::CannotSeeOthersStrikes),
{
    if member_user != author {
        let permissions = author_permissions.unwrap();
        if !holds_permissions(permissions, VIEW_AUDIT_LOG) {
            return Err(CommandError::CannotSeeOthersStrikes);
        }
    }
    Ok(())
}

/// Refuses a repeal of a strike of `member_user` by that member themselves.
pub fn ensure_not_own_strike(member_user: u64, author: u64) -> (r: Result<(), CommandError>)
    ensures
        member_user == author ==> r == Err::<(), CommandError>(CommandError::SelfRepeal),
        member_user != author ==> r is Ok,
{
    if member_user == author {
        Err(CommandError::SelfRepeal)
    } else {
        Ok(())
    }
}

/// The strikes of a member, in the order they were issued.
#[derive(Debug)]
pub struct Strikes(pub Vec<Strike>);

impl Strikes {
    /// No strikes at all.
    pub fn empty() -> (s: Strikes)
        ensures
            s.0@.len() == 0,
    {
        Strikes(Vec::new())
    }

    /// How many strikes were ever issued, repealed ones included.
    pub fn len(&self) -> (n: usize)
        ensures
            n == self.0@.len(),
    {
        self.0.len()
    }

    /// The number (counted from 1) that the next record will have.
    pub fn next_number(&self) -> (n: usize)
        requires
            self.0@.len() < usize::MAX,
        ensures
            n == self.0@.len() + 1,
    {
        self.0.len() + 1
    }

    /// Adds `strike` after the others when the issue was `confirmed`, and
    /// says whether it did: only a confirmed strike is stored and made known.
    pub fn issue_if_confirmed(&mut self, strike: Strike, confirmed: bool) -> (stored: bool)
        ensures
            stored == confirmed,
            confirmed ==> final(self).0@ == old(self).0@.push(strike),
            !confirmed ==> final(self).0@ == old(self).0@,
    {
        if confirmed {
            self.issue(strike);
        }
        confirmed
    }

    /// Repeals strike number `strike_n` of `member_user` with `attribution`
    /// when the repeal was `confirmed`, as `repeal` does, and says whether it
    /// did: only a confirmed repeal is stored and made known. An unconfirmed
    /// one changes nothing.
    pub fn repeal_if_confirmed(
        &mut self,
        strike_n: usize,
        member_user: u64,
        attribution: Attribution,
        confirmed: bool,
    ) -> (r: Result<bool, CommandError>)
        requires
            member_user == attribution.user || strike_n >= 1,
        ensures
            !confirmed ==> r == Ok::<bool, CommandError>(false) && final(self).0@ == old(self).0@,
            confirmed && member_user == attribution.user ==> r == Err::<bool, CommandError>(
                CommandError::SelfRepeal,
            ) && final(self).0@ == old(self).0@,
            confirmed && member_user != attribution.user && strike_at(old(self).0@, strike_n) is None ==> r
                == Err::<bool, CommandError>(CommandError::NoSuchStrike { strike_n, user: member_user })
                && final(self).0@ == old(self).0@,
            confirmed && member_user != attribution.user && strike_at(old(self).0@, strike_n) is Some ==> r
                == Ok::<bool, CommandError>(true) && final(self).0@ == old(self).0@.update(
                strike_n - 1,
                with_repeal(old(self).0@[strike_n - 1], attribution),
            ),
    {
        if !confirmed {
            return Ok(false);
        }
        match self.repeal(strike_n, member_user, attribution) {
            Ok(()) => Ok(true),
            Err(e) => Err(e),
        }
    }

    /// Adds `strike` after the others, and returns its number (counted from 1).
    pub fn issue(&mut self, strike: Strike) -> (n: usize)
        ensures
            final(self).0@ == old(self).0@.push(strike),
            n == final(self).0@.len(),
    {
        self.0.push(strike);
        self.0.len()
    }

    /// The strike with number `strike_n` (counted from 1) of the member
    /// `user`, or the error that names it as missing.
    pub fn get(&self, strike_n: usize, user: u64) -> (r: Result<&Strike, CommandError>)
        requires
            strike_n >= 1,
        ensures
            strike_at(self.0@, strike_n) matches Some(s) ==> r == Ok::<&Strike, CommandError>(&s),
            strike_at(self.0@, strike_n) is None ==> r == Err::<&Strike, CommandError>(
                CommandError::NoSuchStrike { strike_n, user },
            ),
    {
        if strike_n - 1 < self.0.len() {
            Ok(&self.0[strike_n - 1])
        } else {
            Err(CommandError::NoSuchStrike { strike_n, user })
        }
    }

    /// Repeals strike number `strike_n` (counted from 1) of the member
    /// `member_user`, attributing the repeal to `attribution`. Nobody may
    /// repeal a strike issued to themselves.
    pub fn repeal(&mut self, strike_n: usize, member_user: u64, attribution: Attribution) -> (r:
        Result<(), CommandError>)
        requires
            member_user == attribution.user || strike_n >= 1,
        ensures
            member_user == attribution.user ==> r == Err::<(), CommandError>(CommandError::SelfRepeal),
            member_user != attribution.user && strike_at(old(self).0@, strike_n) is None ==> r == Err::<
                (),
                CommandError,
            >(CommandError::NoSuchStrike { strike_n, user: member_user }),
            r is Err ==> final(self).0@ == old(self).0@,
            r is Ok <==> member_user != attribution.user && strike_at(old(self).0@, strike_n) is Some,
            r is Ok ==> final(self).0@ == old(self).0@.update(
                strike_n - 1,
                with_repeal(old(self).0@[strike_n - 1], attribution),
            ),
    {
        if member_user == attribution.user {
            return Err(CommandError::SelfRepeal);
        }
        let i = strike_n - 1;
        if i >= self.0.len() {
            return Err(CommandError::NoSuchStrike { strike_n, user: member_user });
        }
        let mut strike = self.0.remove(i);
        strike.repeal = Some(attribution);
        self.0.insert(i, strike);
        Ok(())
    }
}

impl Data<Member> for Strikes {
    open spec fn spec_path() -> Seq<char> {
        "strikes.cbor"@
    }

    open spec fn spec_descriptor() -> Seq<char> {
        "member strikes"@
    }

    fn path() -> (p: &'static str) {
        "strikes.cbor"
    }

    fn descriptor() -> (d: &'static str) {
        "member strikes"
    }
}

} // verus!
