use readycheck::event::{Event, Interaction, Payload};
use readycheck::flow::{FlowAction, FlowEvent, Readycheck, CLEANUP_DELAY_SECS};
use readycheck::roster::Member;
use readycheck::session::Phase;
use readycheck::status::ReadyState;

const INVOKER: u64 = 9;

fn signal(custom_id: &str, user: u64, payload: Payload) -> FlowEvent {
    FlowEvent::Signal(Event::Interaction(Interaction {
        custom_id: custom_id.to_string(),
        user,
        payload,
    }))
}

fn press(custom_id: &str, user: u64) -> FlowEvent {
    signal(custom_id, user, Payload::Button)
}

fn guild(n: u64) -> Vec<Member> {
    (1..=n)
        .map(|i| Member { id: i, name: format!("m{:02}", i), nick: None, role_ids: vec![100] })
        .collect()
}

fn alice_and_bob() -> Vec<Member> {
    vec![
        Member { id: 2, name: "Bob".to_string(), nick: None, role_ids: vec![] },
        Member { id: 3, name: "Carol".to_string(), nick: None, role_ids: vec![] },
        Member { id: 1, name: "Alice".to_string(), nick: None, role_ids: vec![] },
    ]
}

fn check_with_selection(ids: Vec<u64>, known: Vec<bool>) -> Readycheck {
    let (mut check, _) = Readycheck::begin(42, INVOKER, true);
    let selected = signal("rou_42_mention", INVOKER, Payload::Mentionables(ids));
    assert!(matches!(check.step_classified(&selected, &known), FlowAction::Acknowledge));
    let submitted = check.step_classified(&press("rou_42_submit", INVOKER), &vec![]);
    assert!(matches!(submitted, FlowAction::FetchMembers));
    check
}

fn running_poll() -> Readycheck {
    let mut check = check_with_selection(vec![1, 2], vec![false, false]);
    let started = check.step_classified(&FlowEvent::Members(alice_and_bob()), &vec![]);
    assert!(matches!(started, FlowAction::Start { .. }));
    check
}

#[test]
fn outside_a_guild_the_command_is_refused() {
    let (check, action) = Readycheck::begin(42, INVOKER, false);
    match action {
        FlowAction::Refuse { message } => {
            assert_eq!(message, "This command can only be used in servers.")
        }
        other => panic!("a refusal was expected, not {:?}", other),
    }
    assert!(check.is_done());
}

#[test]
fn in_a_guild_the_form_is_opened_for_a_minute() {
    let (check, action) = Readycheck::begin(42, INVOKER, true);
    match action {
        FlowAction::OpenForm { form, window } => {
            assert_eq!(window, 60);
            assert_eq!(form.mention_id, "rou_42_mention");
            assert_eq!(form.timeout_id, "rou_42_timeout");
            assert_eq!(form.submit.custom_id, "rou_42_submit");
        }
        other => panic!("a form was expected, not {:?}", other),
    }
    assert!(!check.is_done());
    assert!(check.session().is_none());
}

#[test]
fn an_empty_submission_ends_the_check_without_a_roster() {
    let (mut check, _) = Readycheck::begin(42, INVOKER, true);
    match check.step_classified(&press("rou_42_submit", INVOKER), &vec![]) {
        FlowAction::Abandon { message, clear_controls } => {
            assert_eq!(message, "No users and/or roles selected.");
            assert!(clear_controls);
        }
        other => panic!("the check should have been abandoned, not {:?}", other),
    }
    assert!(check.is_done());
    assert!(check.session().is_none());
    let late = check.step_classified(&FlowEvent::Members(guild(3)), &vec![]);
    assert!(matches!(late, FlowAction::Nothing));
    assert!(check.session().is_none());
}

#[test]
fn the_setup_deadline_ends_the_check() {
    let (mut check, _) = Readycheck::begin(42, INVOKER, true);
    match check.step_classified(&FlowEvent::Signal(Event::Deadline), &vec![]) {
        FlowAction::Abandon { message, clear_controls } => {
            assert_eq!(message, "Readycheck setup time expired");
            assert!(clear_controls);
        }
        other => panic!("the check should have been abandoned, not {:?}", other),
    }
    assert!(check.is_done());
}

#[test]
fn a_selection_that_matches_nobody_starts_no_poll() {
    let mut check = check_with_selection(vec![777], vec![false]);
    match check.step_classified(&FlowEvent::Members(guild(5)), &vec![]) {
        FlowAction::Abandon { message, clear_controls } => {
            assert_eq!(message, "Can't send a readycheck to zero people.");
            assert!(!clear_controls);
        }
        other => panic!("the check should have been abandoned, not {:?}", other),
    }
    assert!(check.is_done());
    assert!(check.session().is_none());
}

#[test]
fn a_selection_that_matches_26_starts_no_poll() {
    let mut check = check_with_selection(vec![100], vec![true]);
    match check.step_classified(&FlowEvent::Members(guild(26)), &vec![]) {
        FlowAction::Abandon { message, clear_controls } => {
            assert_eq!(message, "The readycheck only works for up to 25 people.");
            assert!(!clear_controls);
        }
        other => panic!("the check should have been abandoned, not {:?}", other),
    }
    assert!(check.is_done());
    assert!(check.session().is_none());
}

#[test]
fn a_selection_that_matches_25_starts_the_poll() {
    let mut check = check_with_selection(vec![100], vec![true]);
    match check.step_classified(&FlowEvent::Members(guild(25)), &vec![]) {
        FlowAction::Start { embed, mentions, duration, .. } => {
            assert_eq!(embed.fields.len(), 25);
            assert_eq!(mentions, "<@&100>");
            assert_eq!(duration, 60);
        }
        other => panic!("the poll should have started, not {:?}", other),
    }
    assert_eq!(check.session().unwrap().participants().len(), 25);
}

#[test]
fn the_poll_starts_with_roster_buttons_and_mentions() {
    let mut check = check_with_selection(vec![50, 2, 1], vec![true, false, false]);
    check.step_classified(
        &signal("rou_42_timeout", INVOKER, Payload::Strings(vec!["3600".to_string()])),
        &vec![],
    );
    let mut check2 = check_with_selection(vec![50, 2, 1], vec![true, false, false]);
    match check2.step_classified(&FlowEvent::Members(alice_and_bob()), &vec![]) {
        FlowAction::Start { embed, ready, not_ready, mentions, duration } => {
            let labels: Vec<&str> = embed.fields.iter().map(|f| f.name.as_str()).collect();
            assert_eq!(labels, vec!["\u{2754} Alice", "\u{2754} Bob"]);
            assert_eq!(ready.custom_id, "rc_42_1");
            assert_eq!(not_ready.custom_id, "rc_42_0");
            assert_eq!(mentions, "<@&50> <@2> <@1>");
            assert_eq!(duration, 60);
        }
        other => panic!("the poll should have started, not {:?}", other),
    }
    let session = check2.session().unwrap();
    assert_eq!(session.id(), 42);
    assert_eq!(session.invoker(), INVOKER);
    assert_eq!(session.phase(), Phase::Active);
}

#[test]
fn the_chosen_duration_reaches_the_poll() {
    let (mut check, _) = Readycheck::begin(42, INVOKER, true);
    check.step_classified(&signal("rou_42_mention", INVOKER, Payload::Mentionables(vec![1])), &vec![
        false,
    ]);
    check.step_classified(
        &signal("rou_42_timeout", INVOKER, Payload::Strings(vec!["300".to_string()])),
        &vec![],
    );
    check.step_classified(&press("rou_42_submit", INVOKER), &vec![]);
    match check.step_classified(&FlowEvent::Members(alice_and_bob()), &vec![]) {
        FlowAction::Start { duration, .. } => assert_eq!(duration, 300),
        other => panic!("the poll should have started, not {:?}", other),
    }
}

#[test]
fn everyone_ready_ends_in_announcement_grace_and_deletion() {
    let mut check = running_poll();
    match check.step_classified(&press("rc_42_1", 1), &vec![]) {
        FlowAction::Refresh { embed } => {
            assert_eq!(embed.fields[0].name, "\u{2705} Alice");
            assert_eq!(embed.fields[1].name, "\u{2754} Bob");
        }
        other => panic!("a refresh was expected, not {:?}", other),
    }
    match check.step_classified(&press("rc_42_1", 2), &vec![]) {
        FlowAction::Announce { text, grace } => {
            assert_eq!(text, "<@9>, everyone is ready!");
            assert_eq!(grace, 600);
            assert_eq!(grace, CLEANUP_DELAY_SECS);
        }
        other => panic!("an announcement was expected, not {:?}", other),
    }
    assert_eq!(check.session().unwrap().phase(), Phase::AllReady);
    assert!(!check.is_done());
    assert!(matches!(check.step_classified(&press("rc_42_0", 1), &vec![]), FlowAction::Nothing));
    assert!(matches!(
        check.step_classified(&FlowEvent::Signal(Event::Deadline), &vec![]),
        FlowAction::DeleteStatus
    ));
    assert!(check.is_done());
    assert!(matches!(check.step_classified(&FlowEvent::Signal(Event::Deadline), &vec![]), FlowAction::Nothing));
}

#[test]
fn the_deadline_ends_in_final_render_grace_and_deletion() {
    let mut check = running_poll();
    match check.step_classified(&FlowEvent::Signal(Event::Deadline), &vec![]) {
        FlowAction::Finalize { embed, grace } => {
            assert_eq!(grace, 600);
            assert_eq!(embed.colour, 0x607D8B);
            assert_eq!(embed.fields[0].name, "<:redcross:1108310596660772944> Alice");
            assert_eq!(embed.fields[1].name, "<:redcross:1108310596660772944> Bob");
        }
        other => panic!("a final render was expected, not {:?}", other),
    }
    let session = check.session().unwrap();
    assert_eq!(session.phase(), Phase::Expired);
    assert!(session.participants().iter().all(|p| p.status == ReadyState::NotReady));
    assert!(matches!(
        check.step_classified(&FlowEvent::Signal(Event::Deadline), &vec![]),
        FlowAction::DeleteStatus
    ));
    assert!(check.is_done());
}

#[test]
fn an_outsider_is_rejected_and_the_poll_goes_on() {
    let mut check = running_poll();
    match check.step_classified(&press("rc_42_1", 3), &vec![]) {
        FlowAction::Reject { reply } => assert_eq!(reply, "This readycheck is not for you!"),
        other => panic!("a rejection was expected, not {:?}", other),
    }
    assert_eq!(check.session().unwrap().phase(), Phase::Active);
}

#[test]
fn events_that_a_stage_does_not_wait_for_change_nothing() {
    let (mut check, _) = Readycheck::begin(42, INVOKER, true);
    assert!(matches!(
        check.step_classified(&FlowEvent::Members(guild(3)), &vec![]),
        FlowAction::Nothing
    ));
    assert!(matches!(check.step_classified(&press("rc_42_1", 1), &vec![]), FlowAction::Nothing));
    assert!(!check.is_done());

    let mut resolving = check_with_selection(vec![1], vec![false]);
    assert!(matches!(
        resolving.step_classified(&press("rou_42_submit", INVOKER), &vec![]),
        FlowAction::Nothing
    ));
    assert!(matches!(
        resolving.step_classified(&FlowEvent::Signal(Event::Deadline), &vec![]),
        FlowAction::Nothing
    ));
    assert!(matches!(
        resolving.step_classified(&FlowEvent::Members(alice_and_bob()), &vec![]),
        FlowAction::Start { .. }
    ));

    let mut polling = running_poll();
    assert!(matches!(
        polling.step_classified(&FlowEvent::Members(guild(3)), &vec![]),
        FlowAction::Nothing
    ));
    assert!(matches!(
        polling.step_classified(&press("rou_42_submit", INVOKER), &vec![]),
        FlowAction::Nothing
    ));
    assert_eq!(polling.session().unwrap().phase(), Phase::Active);
}

#[test]
fn a_check_listens_while_wizard_or_poll_runs() {
    let (refused, _) = Readycheck::begin(42, INVOKER, false);
    assert!(!refused.listens());
    assert!(!refused.has_deadline());

    let (setup, _) = Readycheck::begin(42, INVOKER, true);
    assert!(setup.listens());
    assert!(setup.has_deadline());
    assert_eq!(setup.id(), 42);
    assert_eq!(setup.invoker(), INVOKER);

    let resolving = check_with_selection(vec![1], vec![false]);
    assert!(!resolving.listens());
    assert!(!resolving.has_deadline());

    let mut check = running_poll();
    assert!(check.listens());
    assert!(check.has_deadline());

    check.step_classified(&FlowEvent::Signal(Event::Deadline), &vec![]);
    assert!(!check.listens());
    assert!(check.has_deadline());

    check.step_classified(&FlowEvent::Signal(Event::Deadline), &vec![]);
    assert!(!check.listens());
    assert!(!check.has_deadline());
    assert!(check.is_done());
}

#[test]
fn what_sets_a_check_up_must_succeed_and_what_a_poll_asks_for_need_not() {
    let (_, refused) = Readycheck::begin(42, INVOKER, false);
    assert!(refused.must_succeed());
    let (mut check, opened) = Readycheck::begin(42, INVOKER, true);
    assert!(opened.must_succeed());
    let selected = signal("rou_42_mention", INVOKER, Payload::Mentionables(vec![1, 2]));
    assert!(check.step_classified(&selected, &vec![false, false]).must_succeed());
    assert!(check.step_classified(&press("rou_42_submit", INVOKER), &vec![]).must_succeed());
    assert!(check
        .step_classified(&FlowEvent::Members(alice_and_bob()), &vec![])
        .must_succeed());
    assert!(!check.step_classified(&press("rc_42_1", 3), &vec![]).must_succeed());
    assert!(!check.step_classified(&press("rc_42_1", 1), &vec![]).must_succeed());
    assert!(!check.step_classified(&press("rc_42_9", 1), &vec![]).must_succeed());
    assert!(!check.step_classified(&FlowEvent::Signal(Event::Deadline), &vec![]).must_succeed());
    assert!(!check.step_classified(&FlowEvent::Signal(Event::Deadline), &vec![]).must_succeed());

    let (mut abandoned, _) = Readycheck::begin(42, INVOKER, true);
    assert!(abandoned.step_classified(&press("rou_42_submit", INVOKER), &vec![]).must_succeed());
}
