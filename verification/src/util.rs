//! The confirmation prompt shown before irreversible actions: its texts, and
//! what each answer (or silence) leads to.

use vstd::prelude::*;
use vstd::string::*;

use crate::text::{same_text, views};

verus! {

/// A text, or `default` when there is none.
pub open spec fn text_or(text: Option<String>, default: Seq<char>) -> Seq<char> {
    match text {
        Some(t) => t@,
        None => default,
    }
}

/// Appends `text`, or `default` when there is none, to `out`.
fn push_text_or(out: &mut String, text: &Option<String>, default: &str)
    ensures
        final(out)@ == old(out)@ + text_or(*text, default@),
{
    match text {
        Some(t) => out.append(t.as_str()),
        None => out.append(default),
    }
}

/// A text in bold.
pub open spec fn bold(text: Seq<char>) -> Seq<char> {
    "**"@ + text + "**"@
}

/// The two answers to a confirmation prompt.
#[derive(Clone, Copy, Debug, PartialEq, Eq, Structural)]
pub enum Choice {
    Cancel,
    Confirm,
}

impl Choice {
    /// The id of the button that gives this answer.
    pub open spec fn spec_custom_id(&self) -> Seq<char> {
        match self {
            Choice::Cancel => "cancel"@,
            Choice::Confirm => "confirm"@,
        }
    }

    /// The id of the button that gives this answer.
    pub fn custom_id(&self) -> (id: &'static str)
        ensures
            id@ == self.spec_custom_id(),
    {
        match self {
            Choice::Cancel => "cancel",
            Choice::Confirm => "confirm",
        }
    }

    /// The answer given by the button with id `id`, if it is one of the two.
    pub fn from_custom_id(id: &str) -> (c: Option<Choice>)
        ensures
            c matches Some(c) ==> c.spec_custom_id() == id@,
            c is None ==> id@ != "cancel"@ && id@ != "confirm"@,
    {
        if same_text(id, "cancel") {
            Some(Choice::Cancel)
        } else if same_text(id, "confirm") {
            Some(Choice::Confirm)
        } else {
            None
        }
    }
}

/// How the prompt message is updated once it is settled.
#[derive(Clone, Copy, Debug, PartialEq, Eq, Structural)]
pub enum PromptUpdate {
    /// Replaced by the note that the action was canceled.
    Canceled,
    /// Replaced by the note that the action was confirmed.
    Confirmed,
    /// Shown again with its buttons disabled and a note that time ran out.
    TimedOut,
}

/// What a confirmation prompt comes to: how its message is updated, and
/// whether the action may go ahead.
#[derive(Clone, Copy, Debug, PartialEq, Eq, Structural)]
pub struct PromptOutcome {
    pub update: PromptUpdate,
    pub confirmed: bool,
}

/// What a confirmation prompt comes to when `choice` is the answer given
/// within the time allowed (`None` when none was).
pub open spec fn spec_outcome(choice: Option<Choice>) -> PromptOutcome {
    match choice {
        Some(Choice::Cancel) => PromptOutcome { update: PromptUpdate::Canceled, confirmed: false },
        Some(Choice::Confirm) => PromptOutcome { update: PromptUpdate::Confirmed, confirmed: true },
        None => PromptOutcome { update: PromptUpdate::TimedOut, confirmed: false },
    }
}

/// The action behind a prompt goes ahead only when the confirm button was
/// pressed in time; when time runs out the prompt is shown as timed out, and
/// a press of cancel cancels.
pub proof fn lemma_only_confirm_confirms(choice: Option<Choice>)
    ensures
        spec_outcome(choice).confirmed <==> choice == Some(Choice::Confirm),
        spec_outcome(choice).update == PromptUpdate::TimedOut <==> choice is None,
        spec_outcome(choice).update == PromptUpdate::Canceled <==> choice == Some(Choice::Cancel),
{
}

/// What a confirmation prompt comes to when `choice` is the answer given
/// within the time allowed (`None` when none was).
pub fn outcome(choice: Option<Choice>) -> (o: PromptOutcome)
    ensures
        o == spec_outcome(choice),
{
    match choice {
        Some(Choice::Cancel) => PromptOutcome { update: PromptUpdate::Canceled, confirmed: false },
        Some(Choice::Confirm) => PromptOutcome { update: PromptUpdate::Confirmed, confirmed: true },
        None => PromptOutcome { update: PromptUpdate::TimedOut, confirmed: false },
    }
}

/// The note added to a prompt whose time ran out.
pub fn timed_out_notice() -> (s: &'static str)
    ensures
        s@ == "You've run out of time to choose."@,
{
    "You've run out of time to choose."
}

/// The heading above the changes that a prompt previews.
pub fn preview_heading() -> (s: &'static str)
    ensures
        s@ == "-# *Preview of Changes*"@,
{
    "-# *Preview of Changes*"
}

/// The accent colour of the frame around a prompt message's text.
#[derive(Clone, Copy, Debug, PartialEq, Eq, Structural)]
pub enum Accent {
    /// The colour of a warning, while the prompt waits for an answer.
    Warning,
    /// The colour of danger, once the action is canceled.
    Danger,
    /// The colour of success, once the action is confirmed.
    Positive,
}

/// The look of a button.
#[derive(Clone, Copy, Debug, PartialEq, Eq, Structural)]
pub enum ButtonStyle {
    /// A plain button.
    Secondary,
    /// A button that warns of its consequences.
    Danger,
}

/// A button of the prompt: the id its presses carry, its label, its look,
/// and whether it is disabled.
#[derive(Debug)]
pub struct Button {
    pub custom_id: &'static str,
    pub label: String,
    pub style: ButtonStyle,
    pub disabled: bool,
}

/// What the prompt message shows: its text, its two buttons, the colour of
/// its frame, and the note that time ran out, if it did.
#[derive(Debug)]
pub struct PromptView {
    pub text: String,
    pub cancel: Button,
    pub confirm: Button,
    pub accent: Accent,
    pub notice: Option<String>,
}

/// The note that settles a prompt, and the colour of its frame.
#[derive(Debug)]
pub struct Note {
    pub text: String,
    pub accent: Accent,
}

/// The spacing around a dividing line.
#[derive(Clone, Copy, Debug, PartialEq, Eq, Structural)]
pub enum Spacing {
    Small,
    Large,
}

/// A part of a prompt message, from top to bottom.
#[derive(Debug, PartialEq, Eq)]
pub enum ReplyPart {
    /// A block of text.
    Text(String),
    /// A dividing line, with the given spacing around it.
    Separator { spacing: Spacing },
}

/// What a part of a prompt message shows: its text, or `None` for a
/// dividing line.
pub open spec fn part_view(part: ReplyPart) -> Option<Seq<char>> {
    match part {
        ReplyPart::Text(t) => Some(t@),
        ReplyPart::Separator { .. } => None,
    }
}

/// The parts of a prompt message: the preview heading, the previewed
/// changes, a dividing line, then `body` (the prompt, or the note that
/// settles it).
pub open spec fn reply_parts(previews: Seq<Seq<char>>, body: Seq<char>) -> Seq<Option<Seq<char>>> {
    seq![Some("-# *Preview of Changes*"@)] + previews.map_values(|t: Seq<char>| Some(t)) + seq![
        None,
        Some(body),
    ]
}

/// A prompt message: its parts from top to bottom, and whether it may
/// mention (and so notify) no one.
#[derive(Debug)]
pub struct Reply {
    pub parts: Vec<ReplyPart>,
    pub no_mentions: bool,
}

/// Should be shown before actions which are irreversible: the changes it
/// previews, the texts of the prompt, each replaced by a default where it is
/// not given, and whether its messages may mention no one.
#[derive(Debug)]
pub struct ConfirmationPrompt {
    pub components: Vec<String>,
    pub no_mentions: bool,
    pub prompt: Option<String>,
    pub elaboration: Option<String>,
    pub cancel_text: Option<String>,
    pub confirm_text: Option<String>,
    pub canceled_text: Option<String>,
    pub confirmed_text: Option<String>,
}

impl Default for ConfirmationPrompt {
    fn default() -> (p: ConfirmationPrompt)
        ensures
            p.components@.len() == 0,
            !p.no_mentions,
            p.prompt is None,
            p.elaboration is None,
            p.cancel_text is None,
            p.confirm_text is None,
            p.canceled_text is None,
            p.confirmed_text is None,
    {
        ConfirmationPrompt {
            components: Vec::new(),
            no_mentions: false,
            prompt: None,
            elaboration: None,
            cancel_text: None,
            confirm_text: None,
            canceled_text: None,
            confirmed_text: None,
        }
    }
}

impl ConfirmationPrompt {
    /// The text of the prompt: the question in bold, then the elaboration, if
    /// any, and the warning that the action is irreversible.
    pub open spec fn spec_prompt_text(&self) -> Seq<char> {
        bold(text_or(self.prompt, "Are you sure?"@)) + "\n"@ + match self.elaboration {
            Some(e) => e@ + " "@,
            None => Seq::<char>::empty(),
        } + "This action is irreversible."@
    }

    /// What the prompt message shows, before an answer (`timed_out` false) or
    /// after time ran out without one (`timed_out` true).
    pub fn prompt_component(&self, timed_out: bool) -> (v: PromptView)
        ensures
            v.text@ == self.spec_prompt_text(),
            v.cancel.custom_id@ == Choice::Cancel.spec_custom_id(),
            v.cancel.label@ == text_or(self.cancel_text, "Cancel"@),
            v.cancel.style == ButtonStyle::Secondary,
            v.cancel.disabled == timed_out,
            v.confirm.custom_id@ == Choice::Confirm.spec_custom_id(),
            v.confirm.label@ == text_or(self.confirm_text, "Confirm"@),
            v.confirm.style == ButtonStyle::Danger,
            v.confirm.disabled == timed_out,
            v.accent == Accent::Warning,
            timed_out ==> (v.notice matches Some(n) && n@ == "You've run out of time to choose."@),
            !timed_out ==> v.notice is None,
    {
        let mut text = String::from_str("**");
        push_text_or(&mut text, &self.prompt, "Are you sure?");
        text.append("**");
        text.append("\n");
        let ghost heading = text@;
        if let Some(e) = &self.elaboration {
            text.append(e.as_str());
            text.append(" ");
        }
        assert(text@ =~= heading + match self.elaboration {
            Some(e) => e@ + " "@,
            None => Seq::<char>::empty(),
        });
        text.append("This action is irreversible.");
        let mut cancel_label = String::new();
        push_text_or(&mut cancel_label, &self.cancel_text, "Cancel");
        let mut confirm_label = String::new();
        push_text_or(&mut confirm_label, &self.confirm_text, "Confirm");
        let notice = if timed_out {
            Some(String::from_str(timed_out_notice()))
        } else {
            None
        };
        PromptView {
            text,
            cancel: Button {
                custom_id: Choice::Cancel.custom_id(),
                label: cancel_label,
                style: ButtonStyle::Secondary,
                disabled: timed_out,
            },
            confirm: Button {
                custom_id: Choice::Confirm.custom_id(),
                label: confirm_label,
                style: ButtonStyle::Danger,
                disabled: timed_out,
            },
            accent: Accent::Warning,
            notice,
        }
    }

    /// The prompt message with `body` at the bottom. Its parts: the preview
    /// heading, the previewed changes, a dividing line with large spacing,
    /// then `body`.
    pub fn create_reply(&self, body: String) -> (r: Reply)
        ensures
            r.parts@.map_values(|p: ReplyPart| part_view(p)) == reply_parts(views(self.components@), body@),
            forall|k: int| 0 <= k < r.parts@.len() && r.parts@[k] is Separator ==> r.parts@[k]->spacing
                == Spacing::Large,
            r.no_mentions == self.no_mentions,
    {
        let ghost previews = views(self.components@);
        let mut v: Vec<ReplyPart> = Vec::new();
        v.push(ReplyPart::Text(String::from_str(preview_heading())));
        let mut i: usize = 0;
        while i < self.components.len()
            invariant
                i <= self.components@.len(),
                previews == views(self.components@),
                v@.map_values(|p: ReplyPart| part_view(p)) == seq![Some("-# *Preview of Changes*"@)]
                    + previews.take(i as int).map_values(|t: Seq<char>| Some(t)),
                forall|k: int| 0 <= k < v@.len() ==> v@[k] is Text,
            decreases self.components@.len() - i,
        {
            let ghost before = v@;
            v.push(ReplyPart::Text(self.components[i].clone()));
            assert(v@.map_values(|p: ReplyPart| part_view(p)) =~= before.map_values(|p: ReplyPart| part_view(p)).push(Some(previews[i as int])));
            assert(previews.take(i + 1).map_values(|t: Seq<char>| Some(t)) =~= previews.take(i as int).map_values(|t: Seq<char>| Some(t)).push(Some(previews[i as int])));
            i = i + 1;
        }
        let ghost middle = v@;
        v.push(ReplyPart::Separator { spacing: Spacing::Large });
        v.push(ReplyPart::Text(body));
        assert(previews.take(previews.len() as int) =~= previews);
        assert(v@.map_values(|p: ReplyPart| part_view(p)) =~= middle.map_values(|p: ReplyPart| part_view(p)) + seq![None, Some(body@)]);
        Reply { parts: v, no_mentions: self.no_mentions }
    }

    /// The note that replaces the prompt once the action is canceled.
    pub fn canceled_component(&self) -> (n: Note)
        ensures
            n.text@ == bold(text_or(self.canceled_text, "Canceled"@)),
            n.accent == Accent::Danger,
    {
        let mut s = String::from_str("**");
        push_text_or(&mut s, &self.canceled_text, "Canceled");
        s.append("**");
        Note { text: s, accent: Accent::Danger }
    }

    /// The note that replaces the prompt once the action is confirmed.
    pub fn confirmed_component(&self) -> (n: Note)
        ensures
            n.text@ == bold(text_or(self.confirmed_text, "Confirmed"@)),
            n.accent == Accent::Positive,
    {
        let mut s = String::from_str("**");
        push_text_or(&mut s, &self.confirmed_text, "Confirmed");
        s.append("**");
        Note { text: s, accent: Accent::Positive }
    }
}

} // verus!
