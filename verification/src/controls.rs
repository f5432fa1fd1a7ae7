//! The controls that a wizard and a poll put under their messages.

use crate::ids::{
    mention_control, mention_control_id, not_ready_button, not_ready_button_id, ready_button,
    ready_button_id, submit_control, submit_control_id, timeout_control, timeout_control_id,
};
use crate::setup::{MAX_SELECTIONS, MIN_SELECTIONS};
use crate::status::{status_emoji, Emoji, EmojiView, ReadyState};
use vstd::prelude::*;

verus! {

/// How a button looks.
#[derive(Clone, Copy, Debug, PartialEq, Eq, Structural)]
pub enum ButtonStyle {
    /// The platform's plain look.
    Primary,
    /// The look of an agreeing answer.
    Success,
    /// The look of a refusing answer.
    Danger,
}

/// A button under a message.
#[derive(Clone, Debug)]
pub struct Button {
    /// The id that an interaction with this button carries.
    pub custom_id: String,
    pub label: String,
    pub emoji: Option<Emoji>,
    pub style: ButtonStyle,
}

/// The mathematical value of a [`Button`].
pub struct ButtonView {
    pub custom_id: Seq<char>,
    pub label: Seq<char>,
    pub emoji: Option<EmojiView>,
    pub style: ButtonStyle,
}

impl View for Button {
    type V = ButtonView;

    open spec fn view(&self) -> ButtonView {
        ButtonView {
            custom_id: self.custom_id@,
            label: self.label@,
            emoji: match self.emoji {
                Some(e) => Some(e@),
                None => None,
            },
            style: self.style,
        }
    }
}

/// One choice of the menu of durations.
#[derive(Clone, Debug)]
pub struct DurationOption {
    pub label: String,
    /// What an interaction carries when this choice is made: the seconds, in decimal.
    pub value: String,
    /// Whether the menu shows this choice as made before the user chooses.
    pub default_selection: bool,
}

/// The mathematical value of a [`DurationOption`].
pub struct DurationOptionView {
    pub label: Seq<char>,
    pub value: Seq<char>,
    pub default_selection: bool,
}

impl View for DurationOption {
    type V = DurationOptionView;

    open spec fn view(&self) -> DurationOptionView {
        DurationOptionView {
            label: self.label@,
            value: self.value@,
            default_selection: self.default_selection,
        }
    }
}

/// The values of a list of choices.
pub open spec fn option_views(options: Seq<DurationOption>) -> Seq<DurationOptionView> {
    options.map_values(|o: DurationOption| o@)
}

/// The form of a wizard: a prompt, a menu of users and roles, a menu of durations and a
/// submit button.
#[derive(Clone, Debug)]
pub struct SetupForm {
    pub prompt: String,
    /// The id of the menu of users and roles.
    pub mention_id: String,
    /// The fewest users and roles that the menu lets the user pick.
    pub min_values: u8,
    /// The most users and roles that the menu lets the user pick.
    pub max_values: u8,
    /// The id of the menu of durations.
    pub timeout_id: String,
    pub durations: Vec<DurationOption>,
    pub submit: Button,
}

/// The mathematical value of a [`SetupForm`].
pub struct SetupFormView {
    pub prompt: Seq<char>,
    pub mention_id: Seq<char>,
    pub min_values: u8,
    pub max_values: u8,
    pub timeout_id: Seq<char>,
    pub durations: Seq<DurationOptionView>,
    pub submit: ButtonView,
}

impl View for SetupForm {
    type V = SetupFormView;

    open spec fn view(&self) -> SetupFormView {
        SetupFormView {
            prompt: self.prompt@,
            mention_id: self.mention_id@,
            min_values: self.min_values,
            max_values: self.max_values,
            timeout_id: self.timeout_id@,
            durations: option_views(self.durations@),
            submit: self.submit@,
        }
    }
}

/// The button by which a participant of the poll `id` answers "ready".
pub open spec fn ready_button_of(id: u64) -> ButtonView {
    ButtonView {
        custom_id: ready_button_id(id),
        label: "Ready"@,
        emoji: Some(status_emoji(ReadyState::Ready)),
        style: ButtonStyle::Success,
    }
}

/// The button by which a participant of the poll `id` answers "not ready".
pub open spec fn not_ready_button_of(id: u64) -> ButtonView {
    ButtonView {
        custom_id: not_ready_button_id(id),
        label: "Not ready"@,
        emoji: Some(status_emoji(ReadyState::NotReady)),
        style: ButtonStyle::Danger,
    }
}

/// The button that submits the form of the wizard `id`.
pub open spec fn submit_button_of(id: u64) -> ButtonView {
    ButtonView {
        custom_id: submit_control_id(id),
        label: "Start readycheck!"@,
        emoji: None,
        style: ButtonStyle::Primary,
    }
}

/// The durations that the form offers: one minute, which is the default, five minutes and
/// one hour.
pub open spec fn duration_options() -> Seq<DurationOptionView> {
    seq![
        DurationOptionView { label: "1 minute"@, value: "60"@, default_selection: true },
        DurationOptionView { label: "5 minutes"@, value: "300"@, default_selection: false },
        DurationOptionView { label: "1 hour"@, value: "3600"@, default_selection: false },
    ]
}

/// The form of the wizard `id`.
pub open spec fn form_of(id: u64) -> SetupFormView {
    SetupFormView {
        prompt: "Select the roles/users you wish to include in this readycheck."@,
        mention_id: mention_control_id(id),
        min_values: MIN_SELECTIONS,
        max_values: MAX_SELECTIONS,
        timeout_id: timeout_control_id(id),
        durations: duration_options(),
        submit: submit_button_of(id),
    }
}

/// The two buttons of the poll that the invocation `id` started: "ready", then "not ready".
pub fn poll_buttons(id: u64) -> (buttons: (Button, Button))
    ensures
        buttons.0@ == ready_button_of(id),
        buttons.1@ == not_ready_button_of(id),
{
    let ready = Button {
        custom_id: ready_button(id),
        label: "Ready".to_string(),
        emoji: Some(ReadyState::Ready.to_emoji()),
        style: ButtonStyle::Success,
    };
    let not_ready = Button {
        custom_id: not_ready_button(id),
        label: "Not ready".to_string(),
        emoji: Some(ReadyState::NotReady.to_emoji()),
        style: ButtonStyle::Danger,
    };
    (ready, not_ready)
}

/// One choice of the menu of durations.
fn duration_option(label: &str, value: &str, default_selection: bool) -> (option: DurationOption)
    ensures
        option@ == (DurationOptionView { label: label@, value: value@, default_selection }),
{
    DurationOption { label: label.to_string(), value: value.to_string(), default_selection }
}

/// The form of the wizard that the invocation `id` started.
pub fn setup_form(id: u64) -> (form: SetupForm)
    ensures
        form@ == form_of(id),
{
    let mut durations: Vec<DurationOption> = Vec::new();
    durations.push(duration_option("1 minute", "60", true));
    durations.push(duration_option("5 minutes", "300", false));
    durations.push(duration_option("1 hour", "3600", false));
    assert(option_views(durations@) =~= duration_options());
    SetupForm {
        prompt: "Select the roles/users you wish to include in this readycheck.".to_string(),
        mention_id: mention_control(id),
        min_values: MIN_SELECTIONS,
        max_values: MAX_SELECTIONS,
        timeout_id: timeout_control(id),
        durations,
        submit: Button {
            custom_id: submit_control(id),
            label: "Start readycheck!".to_string(),
            emoji: None,
            style: ButtonStyle::Primary,
        },
    }
}

} // verus!
