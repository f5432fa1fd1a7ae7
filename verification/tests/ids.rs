use readycheck::controls::{poll_buttons, setup_form, ButtonStyle};
use readycheck::ids::{
    mention_control, not_ready_button, read_button, ready_button, session_prefix_string,
    submit_control, timeout_control,
};
use readycheck::status::{Emoji, ReadyState};
use readycheck::text::parse_u64;

#[test]
fn the_prefix_of_a_poll_carries_its_id() {
    assert_eq!(session_prefix_string(42), "rc_42_");
    assert_eq!(session_prefix_string(0), "rc_0_");
    assert_eq!(session_prefix_string(1234567890123456789), "rc_1234567890123456789_");
}

#[test]
fn the_buttons_of_a_poll_end_in_their_markers() {
    assert_eq!(ready_button(42), "rc_42_1");
    assert_eq!(not_ready_button(42), "rc_42_0");
}

#[test]
fn the_controls_of_a_wizard_carry_its_id() {
    assert_eq!(mention_control(42), "rou_42_mention");
    assert_eq!(timeout_control(42), "rou_42_timeout");
    assert_eq!(submit_control(42), "rou_42_submit");
}

#[test]
fn a_button_is_read_back_as_its_answer() {
    assert_eq!(read_button("rc_42_", "rc_42_1"), Some(ReadyState::Ready));
    assert_eq!(read_button("rc_42_", "rc_42_0"), Some(ReadyState::NotReady));
    assert_eq!(read_button(&session_prefix_string(7), &ready_button(7)), Some(ReadyState::Ready));
    assert_eq!(
        read_button(&session_prefix_string(7), &not_ready_button(7)),
        Some(ReadyState::NotReady)
    );
}

#[test]
fn another_marker_is_no_answer() {
    assert_eq!(read_button("rc_42_", "rc_42_2"), None);
    assert_eq!(read_button("rc_42_", "rc_42_"), None);
    assert_eq!(read_button("rc_42_", "rc_42_10"), None);
    assert_eq!(read_button("rc_42_", "rc_42_01"), None);
    assert_eq!(read_button("rc_42_", "rc_42_ready"), None);
}

#[test]
fn another_prefix_is_no_answer() {
    assert_eq!(read_button("rc_42_", "rc_43_1"), None);
    assert_eq!(read_button("rc_42_", "rc_4_1"), None);
    assert_eq!(read_button("rc_42_", "rc_421_1"), None);
    assert_eq!(read_button("rc_4_", "rc_42_1"), None);
    assert_eq!(read_button("rc_42_", "rou_42_submit"), None);
    assert_eq!(read_button("rc_42_", "role_42"), None);
    assert_eq!(read_button("rc_42_", ""), None);
    assert_eq!(read_button("rc_42_", "1"), None);
}

#[test]
fn the_poll_has_a_ready_and_a_not_ready_button() {
    let (ready, not_ready) = poll_buttons(42);
    assert_eq!(ready.custom_id, "rc_42_1");
    assert_eq!(ready.label, "Ready");
    assert_eq!(ready.style, ButtonStyle::Success);
    assert!(matches!(ready.emoji, Some(Emoji::Unicode(ref g)) if g == "\u{2705}"));
    assert_eq!(not_ready.custom_id, "rc_42_0");
    assert_eq!(not_ready.label, "Not ready");
    assert_eq!(not_ready.style, ButtonStyle::Danger);
    assert!(matches!(not_ready.emoji, Some(Emoji::Custom { id: 1108310596660772944, .. })));
}

#[test]
fn the_form_has_three_controls() {
    let form = setup_form(42);
    assert_eq!(form.prompt, "Select the roles/users you wish to include in this readycheck.");
    assert_eq!(form.mention_id, "rou_42_mention");
    assert_eq!(form.min_values, 1);
    assert_eq!(form.max_values, 25);
    assert_eq!(form.timeout_id, "rou_42_timeout");
    assert_eq!(form.submit.custom_id, "rou_42_submit");
    assert_eq!(form.submit.label, "Start readycheck!");
    assert_eq!(form.submit.style, ButtonStyle::Primary);
    assert!(form.submit.emoji.is_none());
}

#[test]
fn the_form_offers_three_durations_and_the_first_is_the_default() {
    let form = setup_form(42);
    let offered: Vec<(&str, &str, bool)> = form
        .durations
        .iter()
        .map(|d| (d.label.as_str(), d.value.as_str(), d.default_selection))
        .collect();
    assert_eq!(
        offered,
        vec![("1 minute", "60", true), ("5 minutes", "300", false), ("1 hour", "3600", false)]
    );
    let seconds: Vec<Option<u64>> = form.durations.iter().map(|d| parse_u64(&d.value)).collect();
    assert_eq!(seconds, vec![Some(60), Some(300), Some(3600)]);
}
