//! The rules of a server: how they are numbered, listed and offered for
//! completion, and where the persistent rule list lives.

use vstd::prelude::*;
use vstd::string::*;

use crate::data::{unix_time_secs, Data, GuildId};
use crate::errors::CommandError;
use crate::text::{
    contains, contains_text, debug_quoted, debug_string, decimal, is_digit, join, join_strings,
    lemma_decimal_prefix_determines, lowercase, push_decimal, to_lowercase, views,
};

verus! {

/// A text and the moment (seconds since the Unix epoch) it was written.
#[derive(Debug)]
pub struct TimestampedText {
    pub text: String,
    pub timestamp: u64,
}

impl TimestampedText {
    /// `text`, written at `timestamp`.
    pub fn at(text: String, timestamp: u64) -> (t: TimestampedText)
        ensures
            t.text@ == text@,
            t.timestamp == timestamp,
    {
        TimestampedText { text, timestamp }
    }

    /// `text`, written at the present moment of the system clock; `None` when
    /// the clock reads a time before the Unix epoch.
    pub fn new(text: String) -> (t: Option<TimestampedText>)
        ensures
            t matches Some(t) ==> t.text@ == text@,
    {
        match unix_time_secs() {
            Some(timestamp) => Some(TimestampedText::at(text, timestamp)),
            None => None,
        }
    }
}

/// A rule: its original text, its amendments in order, and when it was
/// repealed, if it was.
#[derive(Debug)]
pub struct Rule {
    pub original: TimestampedText,
    pub amendments: Vec<TimestampedText>,
    pub repealed: Option<u64>,
}

impl Rule {
    /// The text of the rule as it stands: its last amendment, or its original
    /// text where it was never amended.
    pub open spec fn spec_current_text(&self) -> Seq<char> {
        if self.amendments@.len() > 0 {
            self.amendments@.last().text@
        } else {
            self.original.text@
        }
    }

    /// Whether the rule is still in force.
    pub open spec fn in_force(&self) -> bool {
        self.repealed is None
    }

    /// A new rule, written at `timestamp`: never amended, not repealed.
    pub fn with_timestamp(text: String, timestamp: u64) -> (r: Rule)
        ensures
            r.original.text@ == text@,
            r.original.timestamp == timestamp,
            r.amendments@.len() == 0,
            r.repealed is None,
            r.spec_current_text() == text@,
    {
        Rule { original: TimestampedText::at(text, timestamp), amendments: Vec::new(), repealed: None }
    }

    /// A new rule, written at the present moment of the system clock; `None`
    /// when the clock reads a time before the Unix epoch.
    pub fn new(text: String) -> (r: Option<Rule>)
        ensures
            r matches Some(r) ==> {
                &&& r.original.text@ == text@
                &&& r.amendments@.len() == 0
                &&& r.repealed is None
                &&& r.spec_current_text() == text@
            },
    {
        match unix_time_secs() {
            Some(timestamp) => Some(Rule::with_timestamp(text, timestamp)),
            None => None,
        }
    }

    /// The text of the rule as it stands.
    pub fn current_text(&self) -> (s: &String)
        ensures
            s@ == self.spec_current_text(),
    {
        let n = self.amendments.len();
        if n > 0 {
            &self.amendments[n - 1].text
        } else {
            &self.original.text
        }
    }
}

/// How rule `i` (counted from 0) is shown in the rule list: its number
/// (counted from 1), an escaped period, and its text as it stands.
pub open spec fn list_item(i: int, r: Rule) -> Seq<char> {
    decimal((i + 1) as nat) + "\\. "@ + r.spec_current_text()
}

/// How rule `i` is offered when completing a rule option: its number, a
/// period, and its text as it stands.
pub open spec fn choice_label(i: int, r: Rule) -> Seq<char> {
    decimal((i + 1) as nat) + ". "@ + r.spec_current_text()
}

/// The items of the rule list: one for each rule in force, in order.
pub open spec fn list_items(rules: Seq<Rule>) -> Seq<Seq<char>>
    decreases rules.len(),
{
    if rules.len() == 0 {
        seq![]
    } else {
        let i = rules.len() - 1;
        let before = list_items(rules.drop_last());
        if rules[i].in_force() {
            before.push(list_item(i, rules[i]))
        } else {
            before
        }
    }
}

/// The body of the rule list: a heading, then the items one per line, or a
/// remark that there are none.
pub open spec fn list_text(rules: Seq<Rule>) -> Seq<char> {
    let items = list_items(rules);
    "### Rules\n"@ + if items.len() == 0 {
        "There are none. Let there be anarchy!"@
    } else {
        join(items, "\n"@)
    }
}

/// The footnote of the rule list, naming the moment it was compiled.
pub open spec fn last_updated_text(now: u64) -> Seq<char> {
    "-# Last updated <t:"@ + decimal(now as nat) + ":R>"@
}

/// The choices offered when completing a rule option with `query`: for each
/// rule in force whose label, in lowercase, contains `query`, the label and
/// the rule's number (counted from 1), the number its label shows.
pub open spec fn choices(rules: Seq<Rule>, query: Seq<char>) -> Seq<(Seq<char>, u64)>
    decreases rules.len(),
{
    if rules.len() == 0 {
        seq![]
    } else {
        let i = rules.len() - 1;
        let before = choices(rules.drop_last(), query);
        let label = choice_label(i, rules[i]);
        if rules[i].in_force() && contains_text(lowercase(label), query) {
            before.push((label, (i + 1) as u64))
        } else {
            before
        }
    }
}

/// Items of the rule list for distinct rules are distinct: the number that
/// starts an item tells which rule it shows.
pub proof fn lemma_list_item_number(i: int, j: int, ri: Rule, rj: Rule)
    requires
        0 <= i,
        0 <= j,
        list_item(i, ri) == list_item(j, rj),
    ensures
        i == j,
{
    reveal_strlit("\\. ");
    let rest_i = seq!['.', ' '] + ri.spec_current_text();
    let rest_j = seq!['.', ' '] + rj.spec_current_text();
    assert(list_item(i, ri) =~= decimal((i + 1) as nat).push('\\') + rest_i);
    assert(list_item(j, rj) =~= decimal((j + 1) as nat).push('\\') + rest_j);
    assert(!is_digit('\\'));
    lemma_decimal_prefix_determines((i + 1) as nat, (j + 1) as nat, '\\', rest_i, rest_j);
}

/// `item` shows a rule in force of `rules`.
pub open spec fn shows_rule_in_force(rules: Seq<Rule>, item: Seq<char>) -> bool {
    exists|i: int| 0 <= i < rules.len() && rules[i].in_force() && item == #[trigger] list_item(i, rules[i])
}

/// The rule list shows exactly the rules in force, each under its own number
/// with its text as it stands: every item shows a rule in force, every rule in
/// force is shown, and no repealed rule is shown.
pub proof fn lemma_list_shows_rules_in_force(rules: Seq<Rule>)
    ensures
        forall|k: int| 0 <= k < list_items(rules).len() ==> shows_rule_in_force(rules, #[trigger] list_items(rules)[k]),
        forall|i: int| 0 <= i < rules.len() && rules[i].in_force() ==> list_items(rules).contains(
            #[trigger] list_item(i, rules[i]),
        ),
        forall|i: int| 0 <= i < rules.len() && !rules[i].in_force() ==> !list_items(rules).contains(
            #[trigger] list_item(i, rules[i]),
        ),
    decreases rules.len(),
{
    if rules.len() == 0 {
        return;
    }
    let n = rules.len() - 1;
    let prefix = rules.drop_last();
    lemma_list_shows_rules_in_force(prefix);
    let before = list_items(prefix);
    let items = list_items(rules);
    assert forall|k: int| 0 <= k < items.len() implies shows_rule_in_force(rules, #[trigger] items[k]) by {
        if k < before.len() {
            assert(items[k] == before[k]);
            assert(shows_rule_in_force(prefix, before[k]));
            let i = choose|i: int| 0 <= i < prefix.len() && prefix[i].in_force() && before[k] == list_item(i, prefix[i]);
            assert(prefix[i] == rules[i]);
            assert(rules[i].in_force() && items[k] == list_item(i, rules[i]));
        } else {
            assert(rules[n].in_force() && items[k] == list_item(n, rules[n]));
        }
    }
    assert forall|i: int| 0 <= i < rules.len() && rules[i].in_force() implies items.contains(
        #[trigger] list_item(i, rules[i]),
    ) by {
        if i < n {
            assert(prefix[i] == rules[i]);
            let k = choose|k: int| 0 <= k < before.len() && before[k] == list_item(i, prefix[i]);
            assert(items[k] == before[k]);
        } else {
            assert(items[items.len() - 1] == list_item(n, rules[n]));
        }
    }
    assert forall|i: int| 0 <= i < rules.len() && !rules[i].in_force() implies !items.contains(
        #[trigger] list_item(i, rules[i]),
    ) by {
        if items.contains(list_item(i, rules[i])) {
            let k = choose|k: int| 0 <= k < items.len() && items[k] == list_item(i, rules[i]);
            assert(shows_rule_in_force(rules, items[k]));
            let j = choose|j: int| 0 <= j < rules.len() && rules[j].in_force() && items[k] == list_item(j, rules[j]);
            lemma_list_item_number(i, j, rules[i], rules[j]);
        }
    }
}

/// A rule just instated appears at the end of the rule list, under the next
/// number; the items before it stay as they were.
pub proof fn lemma_instated_rule_listed_last(rules: Seq<Rule>, rule: Rule)
    requires
        rule.in_force(),
    ensures
        list_items(rules.push(rule)) == list_items(rules).push(list_item(rules.len() as int, rule)),
{
    assert(rules.push(rule).drop_last() =~= rules);
}

/// A repealed rule adds nothing to the rule list.
pub proof fn lemma_repealed_rule_not_listed(rules: Seq<Rule>, rule: Rule)
    requires
        !rule.in_force(),
    ensures
        list_items(rules.push(rule)) == list_items(rules),
{
    assert(rules.push(rule).drop_last() =~= rules);
}

/// No item appears twice in the rule list: each rule in force is listed
/// once.
pub proof fn lemma_list_items_distinct(rules: Seq<Rule>)
    ensures
        forall|j: int, k: int| 0 <= j < k < list_items(rules).len() ==> list_items(rules)[j] != list_items(rules)[k],
    decreases rules.len(),
{
    if rules.len() == 0 {
        return;
    }
    let n = rules.len() - 1;
    let prefix = rules.drop_last();
    lemma_list_items_distinct(prefix);
    lemma_list_shows_rules_in_force(prefix);
    let before = list_items(prefix);
    let items = list_items(rules);
    assert forall|j: int, k: int| 0 <= j < k < items.len() implies items[j] != items[k] by {
        if k < before.len() {
            assert(items[j] == before[j]);
            assert(items[k] == before[k]);
        } else {
            assert(rules[n].in_force());
            assert(items[k] == list_item(n, rules[n]));
            assert(items[j] == before[j]);
            assert(shows_rule_in_force(prefix, before[j]));
            let i = choose|i: int| 0 <= i < prefix.len() && prefix[i].in_force() && before[j] == list_item(i, prefix[i]);
            if items[j] == items[k] {
                lemma_list_item_number(i, n, prefix[i], rules[n]);
            }
        }
    }
}

/// Completion choices come in rule order: those for a longer list of rules
/// are those for the shorter one, with at most the choice for the added rule
/// at the end.
pub proof fn lemma_choices_extend_at_end(rules: Seq<Rule>, rule: Rule, query: Seq<char>)
    ensures
        choices(rules.push(rule), query) == choices(rules, query) || choices(rules.push(rule), query)
            == choices(rules, query).push((choice_label(rules.len() as int, rule), (rules.len() + 1) as u64)),
{
    assert(rules.push(rule).drop_last() =~= rules);
}

/// Completion choices come in rule order: their numbers strictly increase.
pub proof fn lemma_choices_increasing(rules: Seq<Rule>, query: Seq<char>)
    requires
        rules.len() <= usize::MAX,
    ensures
        forall|j: int, k: int| 0 <= j < k < choices(rules, query).len() ==> choices(rules, query)[j].1 < choices(
            rules,
            query,
        )[k].1,
    decreases rules.len(),
{
    if rules.len() == 0 {
        return;
    }
    let n = rules.len() - 1;
    let prefix = rules.drop_last();
    lemma_choices_increasing(prefix, query);
    lemma_choices_are_matching_rules(prefix, query);
    let before = choices(prefix, query);
    let all = choices(rules, query);
    assert forall|j: int, k: int| 0 <= j < k < all.len() implies all[j].1 < all[k].1 by {
        if k < before.len() {
            assert(all[j] == before[j]);
            assert(all[k] == before[k]);
        } else {
            assert(all[k] == (choice_label(n, rules[n]), (n + 1) as u64));
            assert(all[j] == before[j]);
            assert(before[j].1 <= prefix.len());
        }
    }
}

/// `rule` with its repeal recorded as of `timestamp`.
pub open spec fn repealed_rule(rule: Rule, timestamp: u64) -> Rule {
    Rule { original: rule.original, amendments: rule.amendments, repealed: Some(timestamp) }
}

/// Repealing a rule takes exactly that rule off the rule list: it is no longer
/// shown, and every other rule in force still is.
pub proof fn lemma_repealed_rule_leaves_list(rules: Seq<Rule>, i: int, timestamp: u64)
    requires
        0 <= i < rules.len(),
    ensures
        !list_items(rules.update(i, repealed_rule(rules[i], timestamp))).contains(list_item(i, rules[i])),
        forall|j: int| 0 <= j < rules.len() && j != i && rules[j].in_force() ==> list_items(
            rules.update(i, repealed_rule(rules[i], timestamp)),
        ).contains(#[trigger] list_item(j, rules[j])),
{
    let after = rules.update(i, repealed_rule(rules[i], timestamp));
    lemma_list_shows_rules_in_force(after);
    assert(list_item(i, after[i]) == list_item(i, rules[i]));
    assert forall|j: int| 0 <= j < rules.len() && j != i && rules[j].in_force() implies list_items(after).contains(
        #[trigger] list_item(j, rules[j]),
    ) by {
        assert(after[j] == rules[j]);
    }
}

/// The choices offered when completing a rule option are exactly the rules in
/// force whose label, in lowercase, contains the query: each choice carries
/// the number of such a rule (the number its label shows) and its label, and
/// every such rule is offered.
pub proof fn lemma_choices_are_matching_rules(rules: Seq<Rule>, query: Seq<char>)
    requires
        rules.len() <= usize::MAX,
    ensures
        forall|k: int| 0 <= k < choices(rules, query).len() ==> {
            let c = #[trigger] choices(rules, query)[k];
            &&& 1 <= c.1 <= rules.len()
            &&& rules[c.1 - 1].in_force()
            &&& c.0 == choice_label(c.1 - 1, rules[c.1 - 1])
            &&& contains_text(lowercase(c.0), query)
        },
        forall|i: int| 0 <= i < rules.len() && rules[i].in_force() && contains_text(
            lowercase(choice_label(i, rules[i])),
            query,
        ) ==> choices(rules, query).contains((#[trigger] choice_label(i, rules[i]), (i + 1) as u64)),
    decreases rules.len(),
{
    if rules.len() == 0 {
        return;
    }
    let n = rules.len() - 1;
    let prefix = rules.drop_last();
    lemma_choices_are_matching_rules(prefix, query);
    let before = choices(prefix, query);
    let all = choices(rules, query);
    assert forall|k: int| 0 <= k < all.len() implies {
        let c = #[trigger] all[k];
        &&& 1 <= c.1 <= rules.len()
        &&& rules[c.1 - 1].in_force()
        &&& c.0 == choice_label(c.1 - 1, rules[c.1 - 1])
        &&& contains_text(lowercase(c.0), query)
    } by {
        if k < before.len() {
            assert(all[k] == before[k]);
            assert(prefix[before[k].1 - 1] == rules[before[k].1 - 1]);
        } else {
            assert(all[k] == (choice_label(n, rules[n]), (n + 1) as u64));
            assert((n + 1) as u64 == n + 1);
        }
    }
    assert forall|i: int| 0 <= i < rules.len() && rules[i].in_force() && contains_text(
        lowercase(choice_label(i, rules[i])),
        query,
    ) implies all.contains((#[trigger] choice_label(i, rules[i]), (i + 1) as u64)) by {
        if i < n {
            assert(prefix[i] == rules[i]);
            let k = choose|k: int| 0 <= k < before.len() && before[k] == (choice_label(i, prefix[i]), (i + 1) as u64);
            assert(all[k] == before[k]);
        } else {
            assert(all[all.len() - 1] == (choice_label(n, rules[n]), (n + 1) as u64));
        }
    }
}

/// The views of a vector of completion choices.
pub open spec fn choice_views(v: Seq<(String, u64)>) -> Seq<(Seq<char>, u64)> {
    v.map_values(|c: (String, u64)| (c.0@, c.1))
}

/// The message that confirms that rule number `n` was instated with `text`.
pub open spec fn instated_text(n: usize, text: Seq<char>) -> Seq<char> {
    "Rule "@ + decimal(n as nat) + ", "@ + debug_quoted(text) + ", has been instated."@
}

/// Appends how rule `i` is shown in the list to `out`.
fn push_list_item(out: &mut String, i: usize, r: &Rule)
    requires
        i < usize::MAX,
    ensures
        final(out)@ == old(out)@ + list_item(i as int, *r),
{
    push_decimal(out, (i + 1) as u64);
    out.append("\\. ");
    out.append(r.current_text().as_str());
}

/// The rules of a server, in the order they were instated.
#[derive(Debug)]
pub struct Rules(pub Vec<Rule>);

impl Rules {
    /// No rules at all.
    pub fn empty() -> (r: Rules)
        ensures
            r.0@.len() == 0,
    {
        Rules(Vec::new())
    }

    /// How many rules were ever instated, repealed ones included.
    pub fn len(&self) -> (n: usize)
        ensures
            n == self.0@.len(),
    {
        self.0.len()
    }

    /// Adds `rule` after the others, and returns its number (counted from 1).
    pub fn instate(&mut self, rule: Rule) -> (n: usize)
        ensures
            final(self).0@ == old(self).0@.push(rule),
            n == final(self).0@.len(),
    {
        self.0.push(rule);
        self.0.len()
    }

    /// Declares the rule with number `rule_n` (counted from 1, as the rule
    /// list and the completion choices show it) no longer in force, as of
    /// `timestamp`. A rule already repealed keeps the moment it was first
    /// repealed.
    pub fn repeal(&mut self, rule_n: usize, timestamp: u64) -> (r: Result<(), CommandError>)
        ensures
            1 <= rule_n <= old(self).0@.len() ==> r is Ok,
            1 <= rule_n <= old(self).0@.len() && old(self).0@[rule_n - 1].in_force() ==> final(self).0@
                == old(self).0@.update(rule_n - 1, repealed_rule(old(self).0@[rule_n - 1], timestamp)),
            1 <= rule_n <= old(self).0@.len() && !old(self).0@[rule_n - 1].in_force() ==> final(self).0@
                == old(self).0@,
            !(1 <= rule_n <= old(self).0@.len()) ==> {
                &&& r == Err::<(), CommandError>(CommandError::NoSuchRule { rule_n })
                &&& final(self).0@ == old(self).0@
            },
    {
        if rule_n == 0 || rule_n > self.0.len() {
            return Err(CommandError::NoSuchRule { rule_n });
        }
        let rule_i = rule_n - 1;
        let mut rule = self.0.remove(rule_i);
        if rule.repealed.is_none() {
            rule.repealed = Some(timestamp);
        }
        self.0.insert(rule_i, rule);
        Ok(())
    }

    /// How the rule at index `rule_i` is named where a record refers to it:
    /// its number, an escaped period and its text as it stands. Fails when
    /// there is no such rule (repealed rules are still named).
    pub fn describe(&self, rule_i: usize) -> (r: Result<String, CommandError>)
        requires
            rule_i < usize::MAX,
        ensures
            rule_i < self.0@.len() ==> (r matches Ok(s) && s@ == list_item(rule_i as int, self.0@[rule_i as int])),
            rule_i >= self.0@.len() ==> r == Err::<String, CommandError>(
                CommandError::NoSuchRule { rule_n: (rule_i + 1) as usize },
            ),
    {
        let rule_n = rule_i + 1;
        if rule_i < self.0.len() {
            let mut s = String::new();
            push_list_item(&mut s, rule_i, &self.0[rule_i]);
            Ok(s)
        } else {
            Err(CommandError::NoSuchRule { rule_n })
        }
    }

    /// The items of the rule list: one for each rule in force, in order.
    pub fn list_items(&self) -> (v: Vec<String>)
        ensures
            views(v@) == list_items(self.0@),
    {
        let mut v: Vec<String> = Vec::new();
        let mut i: usize = 0;
        while i < self.0.len()
            invariant
                i <= self.0@.len(),
                views(v@) == list_items(self.0@.take(i as int)),
            decreases self.0@.len() - i,
        {
            let ghost before = v@;
            let rule = &self.0[i];
            assert(self.0@.take(i + 1).drop_last() =~= self.0@.take(i as int));
            assert(self.0@.take(i + 1)[i as int] == self.0@[i as int]);
            if rule.repealed.is_none() {
                let mut item = String::new();
                push_list_item(&mut item, i, rule);
                v.push(item);
                assert(views(v@) =~= views(before).push(list_item(i as int, self.0@[i as int])));
            }
            i = i + 1;
        }
        assert(self.0@.take(self.0@.len() as int) =~= self.0@);
        v
    }

    /// The body of the rule list.
    pub fn list_text(&self) -> (s: String)
        ensures
            s@ == list_text(self.0@),
    {
        let items = self.list_items();
        let mut s = String::from_str("### Rules\n");
        if items.len() == 0 {
            s.append("There are none. Let there be anarchy!");
        } else {
            let joined = join_strings(&items, "\n");
            s.append(joined.as_str());
        }
        s
    }

    /// The two texts of the rule list, compiled at `now`: its body and its
    /// footnote.
    pub fn compile_rule_list(&self, now: u64) -> (r: (String, String))
        ensures
            r.0@ == list_text(self.0@),
            r.1@ == last_updated_text(now),
    {
        (self.list_text(), last_updated(now))
    }

    /// The two texts of the rule list, compiled at the present moment of the
    /// system clock; `None` when the clock reads a time before the Unix epoch.
    pub fn compile_rule_list_now(&self) -> (r: Option<(String, String)>)
        ensures
            r matches Some(r) ==> r.0@ == list_text(self.0@) && exists|now: u64| r.1@ == #[trigger] last_updated_text(now),
    {
        match unix_time_secs() {
            Some(now) => Some(self.compile_rule_list(now)),
            None => None,
        }
    }

    /// The choices offered when completing a rule option with `query`.
    pub fn autocomplete_choices(&self, query: &str) -> (v: Vec<(String, u64)>)
        ensures
            choice_views(v@) == choices(self.0@, query@),
    {
        let mut v: Vec<(String, u64)> = Vec::new();
        let mut i: usize = 0;
        while i < self.0.len()
            invariant
                i <= self.0@.len(),
                choice_views(v@) == choices(self.0@.take(i as int), query@),
            decreases self.0@.len() - i,
        {
            let ghost before = v@;
            let rule = &self.0[i];
            assert(self.0@.take(i + 1).drop_last() =~= self.0@.take(i as int));
            assert(self.0@.take(i + 1)[i as int] == self.0@[i as int]);
            if rule.repealed.is_none() {
                let mut label = String::new();
                push_decimal(&mut label, (i + 1) as u64);
                label.append(". ");
                label.append(rule.current_text().as_str());
                let lowered = to_lowercase(label.as_str());
                if contains(lowered.as_str(), query) {
                    v.push((label, (i + 1) as u64));
                    assert(choice_views(v@) =~= choice_views(before).push(
                        (choice_label(i as int, self.0@[i as int]), (i + 1) as u64),
                    ));
                }
            }
            i = i + 1;
        }
        assert(self.0@.take(self.0@.len() as int) =~= self.0@);
        v
    }
}

/// The footnote of the rule list, naming `now`.
pub fn last_updated(now: u64) -> (s: String)
    ensures
        s@ == last_updated_text(now),
{
    let mut s = String::from_str("-# Last updated <t:");
    push_decimal(&mut s, now);
    s.append(":R>");
    s
}

/// The confirmation names the number the rule was instated under: it starts
/// with `Rule `, that number and a comma, so confirmations for different
/// numbers differ.
pub proof fn lemma_instated_text_names_number(n1: usize, n2: usize, text: Seq<char>)
    ensures
        instated_text(n1, text).take(("Rule "@ + decimal(n1 as nat)).len() as int + 1) == "Rule "@ + decimal(
            n1 as nat,
        ).push(','),
        instated_text(n1, text) == instated_text(n2, text) ==> n1 == n2,
{
    reveal_strlit(", ");
    let p = "Rule "@;
    let tail = seq![' '] + debug_quoted(text) + ", has been instated."@;
    assert(instated_text(n1, text) =~= p + (decimal(n1 as nat).push(',') + tail));
    assert(instated_text(n2, text) =~= p + (decimal(n2 as nat).push(',') + tail));
    assert(instated_text(n1, text).take((p.len() + decimal(n1 as nat).len()) as int + 1) =~= p + decimal(n1 as nat).push(','));
    assert((p + decimal(n1 as nat)).len() == p.len() + decimal(n1 as nat).len());
    if instated_text(n1, text) == instated_text(n2, text) {
        assert((decimal(n1 as nat).push(',') + tail) =~= instated_text(n1, text).skip(p.len() as int));
        assert((decimal(n2 as nat).push(',') + tail) =~= instated_text(n2, text).skip(p.len() as int));
        assert(!is_digit(','));
        lemma_decimal_prefix_determines(n1 as nat, n2 as nat, ',', tail, tail);
    }
}

/// The message that confirms that rule number `n` was instated, given its
/// text already quoted as `Debug` quotes it.
pub fn instated_message_quoted(n: usize, quoted: &str) -> (s: String)
    ensures
        s@ == "Rule "@ + decimal(n as nat) + ", "@ + quoted@ + ", has been instated."@,
{
    let mut s = String::from_str("Rule ");
    push_decimal(&mut s, n as u64);
    s.append(", ");
    s.append(quoted);
    s.append(", has been instated.");
    s
}

/// The message that confirms that rule number `n` was instated with `text`.
pub fn instated_message(n: usize, text: &str) -> (s: String)
    ensures
        s@ == instated_text(n, text@),
        s@ == "Rule "@ + decimal(n as nat) + ", "@ + debug_quoted(text@) + ", has been instated."@,
{
    let quoted = debug_string(text);
    instated_message_quoted(n, quoted.as_str())
}

impl Data<GuildId> for Rules {
    open spec fn spec_path() -> Seq<char> {
        "rules.cbor"@
    }

    open spec fn spec_descriptor() -> Seq<char> {
        "server rules"@
    }

    fn path() -> (p: &'static str) {
        "rules.cbor"
    }

    fn descriptor() -> (d: &'static str) {
        "server rules"
    }
}

/// Where the persistent rule list of a server was sent: its channel and
/// message ids, if one was sent.
#[derive(Clone, Copy, Debug, PartialEq, Eq)]
pub struct RulesMessage(pub Option<(u64, u64)>);

impl RulesMessage {
    /// No persistent rule list.
    pub fn none() -> (m: RulesMessage)
        ensures
            m.0 is None,
    {
        RulesMessage(None)
    }

    /// The persistent rule list sent as message `message_id` in channel
    /// `channel_id`.
    pub fn sent(channel_id: u64, message_id: u64) -> (m: RulesMessage)
        ensures
            m.0 == Some((channel_id, message_id)),
    {
        RulesMessage(Some((channel_id, message_id)))
    }
}

impl Data<GuildId> for RulesMessage {
    open spec fn spec_path() -> Seq<char> {
        "rules_message.cbor"@
    }

    open spec fn spec_descriptor() -> Seq<char> {
        "persistent rule list message"@
    }

    fn path() -> (p: &'static str) {
        "rules_message.cbor"
    }

    fn descriptor() -> (d: &'static str) {
        "persistent rule list message"
    }
}

/// The HTTP status that means a resource was not found.
pub const NOT_FOUND: u16 = 404;

/// Whether a failed request failed because what it asked for does not exist:
/// an HTTP error with status 404.
pub fn is_not_found_error(status: Option<u16>) -> (b: bool)
    ensures
        b == (status == Some(NOT_FOUND)),
{
    match status {
        Some(code) => code == NOT_FOUND,
        None => false,
    }
}

/// What came of looking for the persistent rule list of a server.
#[derive(Debug)]
pub enum FetchedRulesMessage {
    /// No persistent rule list was ever recorded.
    NotStored,
    /// The recorded message was fetched; `link` leads to it.
    Fetched { link: String },
    /// Fetching the recorded message failed, with this HTTP status if the
    /// failure was an HTTP error.
    FetchFailed { status: Option<u16> },
}

/// The state of the persistent rule list of a server, as far as a command is
/// concerned.
#[derive(Clone, Copy, Debug, PartialEq, Eq, Structural)]
pub enum StoredListState {
    /// There is none: none was recorded, or the recorded message is gone.
    Absent,
    /// It exists.
    Live,
    /// Looking for it failed for another reason; the failure is reported.
    Failed,
}

/// The state of the persistent rule list, given what came of looking for it.
pub open spec fn spec_stored_list_state(fetched: FetchedRulesMessage) -> StoredListState {
    match fetched {
        FetchedRulesMessage::NotStored => StoredListState::Absent,
        FetchedRulesMessage::Fetched { .. } => StoredListState::Live,
        FetchedRulesMessage::FetchFailed { status } => if status == Some(NOT_FOUND) {
            StoredListState::Absent
        } else {
            StoredListState::Failed
        },
    }
}

/// The state of the persistent rule list, given what came of looking for it.
pub fn stored_list_state(fetched: &FetchedRulesMessage) -> (s: StoredListState)
    ensures
        s == spec_stored_list_state(*fetched),
{
    match fetched {
        FetchedRulesMessage::NotStored => StoredListState::Absent,
        FetchedRulesMessage::Fetched { .. } => StoredListState::Live,
        FetchedRulesMessage::FetchFailed { status } => if is_not_found_error(*status) {
            StoredListState::Absent
        } else {
            StoredListState::Failed
        },
    }
}

/// Whether someone holding `author_permissions` may create a persistent rule
/// list: only with permission to manage the server.
pub fn ensure_can_create_persistent_list(author_permissions: u64) -> (r: Result<(), CommandError>)
    ensures
        r is Ok <==> crate::errors::has_permissions(author_permissions, crate::errors::MANAGE_GUILD),
        r is Err ==> r == Err::<(), CommandError>(CommandError::CannotCreatePersistentList),
{
    if crate::errors::holds_permissions(author_permissions, crate::errors::MANAGE_GUILD) {
        Ok(())
    } else {
        Err(CommandError::CannotCreatePersistentList)
    }
}

/// Whether a new persistent rule list may be sent and recorded: only when
/// there is none, that is, none was recorded or the recorded message is gone.
pub open spec fn may_send_persistent_list(fetched: FetchedRulesMessage) -> bool {
    spec_stored_list_state(fetched) == StoredListState::Absent
}

/// A server has at most one live persistent rule list. The server records a
/// single list message (`RulesMessage` holds one location at most), and a new
/// list is sent and recorded in its place only when no list was recorded or
/// the recorded message no longer exists (fetching it gave 404). While the
/// recorded list can be fetched, or when fetching it failed otherwise, no new
/// list is sent.
pub proof fn lemma_one_live_persistent_list(fetched: FetchedRulesMessage)
    ensures
        may_send_persistent_list(fetched) <==> (fetched is NotStored || fetched
            == FetchedRulesMessage::FetchFailed { status: Some(NOT_FOUND) }),
        fetched is Fetched ==> !may_send_persistent_list(fetched),
{
}

/// Whether a new persistent rule list may be sent, given what came of looking
/// for the existing one: `Ok(true)` when there is none, the error that points
/// to it when there is one, and `Ok(false)` when looking for it failed, in
/// which case that failure is reported instead.
pub fn check_no_persistent_list(fetched: &FetchedRulesMessage) -> (r: Result<bool, CommandError>)
    ensures
        r == Ok::<bool, CommandError>(true) <==> may_send_persistent_list(*fetched),
        spec_stored_list_state(*fetched) == StoredListState::Absent ==> r == Ok::<bool, CommandError>(true),
        spec_stored_list_state(*fetched) == StoredListState::Failed ==> r == Ok::<bool, CommandError>(false),
        fetched matches FetchedRulesMessage::Fetched { link } ==> (r matches Err(CommandError::PersistentListExists { link: l }) && l@ == link@),
{
    match fetched {
        FetchedRulesMessage::Fetched { link } => Err(CommandError::PersistentListExists { link: link.clone() }),
        _ => match stored_list_state(fetched) {
            StoredListState::Absent => Ok(true),
            _ => Ok(false),
        },
    }
}

} // verus!
