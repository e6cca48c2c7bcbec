use ruela::util::{
    outcome, preview_heading, timed_out_notice, Accent, ButtonStyle, Choice, ConfirmationPrompt,
    PromptOutcome, PromptUpdate, ReplyPart, Spacing,
};

#[test]
fn default_prompt_texts() {
    let prompt = ConfirmationPrompt::default();
    let view = prompt.prompt_component(false);
    assert_eq!(view.text, "**Are you sure?**\nThis action is irreversible.");
    assert_eq!(view.cancel.label, "Cancel");
    assert_eq!(view.confirm.label, "Confirm");
    assert_eq!(view.cancel.custom_id, "cancel");
    assert_eq!(view.confirm.custom_id, "confirm");
    assert_eq!(view.cancel.style, ButtonStyle::Secondary);
    assert_eq!(view.confirm.style, ButtonStyle::Danger);
    assert!(!view.cancel.disabled);
    assert!(!view.confirm.disabled);
    assert_eq!(view.accent, Accent::Warning);
    assert!(view.notice.is_none());
    let canceled = prompt.canceled_component();
    assert_eq!(canceled.text, "**Canceled**");
    assert_eq!(canceled.accent, Accent::Danger);
    let confirmed = prompt.confirmed_component();
    assert_eq!(confirmed.text, "**Confirmed**");
    assert_eq!(confirmed.accent, Accent::Positive);
}

#[test]
fn custom_prompt_texts() {
    let prompt = ConfirmationPrompt {
        prompt: Some("Are you sure you want issue this strike?".to_string()),
        elaboration: Some("The member will be notified and you will be attributed.".to_string()),
        confirm_text: Some("Issue it".to_string()),
        confirmed_text: Some("Strike issued".to_string()),
        ..Default::default()
    };
    let view = prompt.prompt_component(true);
    assert_eq!(
        view.text,
        "**Are you sure you want issue this strike?**\nThe member will be notified and you will be \
         attributed. This action is irreversible."
    );
    assert_eq!(view.confirm.label, "Issue it");
    assert_eq!(view.cancel.label, "Cancel");
    assert!(view.cancel.disabled);
    assert!(view.confirm.disabled);
    assert_eq!(view.notice.as_deref(), Some("You've run out of time to choose."));
    assert_eq!(prompt.confirmed_component().text, "**Strike issued**");
    assert_eq!(prompt.canceled_component().text, "**Canceled**");
}

#[test]
fn prompt_constants() {
    assert_eq!(timed_out_notice(), "You've run out of time to choose.");
    assert_eq!(preview_heading(), "-# *Preview of Changes*");
}

#[test]
fn button_ids() {
    assert_eq!(Choice::Cancel.custom_id(), "cancel");
    assert_eq!(Choice::Confirm.custom_id(), "confirm");
    assert_eq!(Choice::from_custom_id("cancel"), Some(Choice::Cancel));
    assert_eq!(Choice::from_custom_id("confirm"), Some(Choice::Confirm));
    assert_eq!(Choice::from_custom_id("other"), None);
}

#[test]
fn prompt_outcomes() {
    assert_eq!(
        outcome(Some(Choice::Confirm)),
        PromptOutcome { update: PromptUpdate::Confirmed, confirmed: true }
    );
    assert_eq!(
        outcome(Some(Choice::Cancel)),
        PromptOutcome { update: PromptUpdate::Canceled, confirmed: false }
    );
    assert_eq!(outcome(None), PromptOutcome { update: PromptUpdate::TimedOut, confirmed: false });
}

#[test]
fn reply_parts_in_order() {
    let prompt = ConfirmationPrompt {
        components: vec!["first".to_string(), "second".to_string()],
        no_mentions: true,
        ..Default::default()
    };
    let reply = prompt.create_reply("body".to_string());
    assert!(reply.no_mentions);
    assert_eq!(
        reply.parts,
        vec![
            ReplyPart::Text("-# *Preview of Changes*".to_string()),
            ReplyPart::Text("first".to_string()),
            ReplyPart::Text("second".to_string()),
            ReplyPart::Separator { spacing: Spacing::Large },
            ReplyPart::Text("body".to_string()),
        ]
    );
    assert_eq!(
        ConfirmationPrompt::default().create_reply(prompt.confirmed_component().text).parts,
        vec![
            ReplyPart::Text("-# *Preview of Changes*".to_string()),
            ReplyPart::Separator { spacing: Spacing::Large },
            ReplyPart::Text("**Confirmed**".to_string()),
        ]
    );
}
