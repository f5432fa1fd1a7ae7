//! What holds of polls, wizards and whole checks whatever happens to them.

use crate::controls::duration_options;
use crate::event::{EventView, InteractionView, PayloadView};
use crate::flow::{
    lemma_step_outcomes, FlowActionView, FlowEventView, ReadycheckView, StageView,
    CLEANUP_DELAY_SECS,
};
use crate::ids::{
    control_id, lemma_controls_differ, mention_control_id, not_ready_button_id, pressed_button,
    ready_button_id, session_prefix, submit_control_id, timeout_control_id,
};
use crate::mention::{mention_list, role_mention, user_mention};
use crate::render::embed_of;
use crate::roster::{
    candidates, enrol, is_selected, lemma_filter_counts, lemma_map_keeps_multisets,
    lemma_roster_exists, lemma_roster_of, roster_error_text, roster_of, roster_valid, selector,
    MemberView, ParticipantView, RosterError, MAX_PARTICIPANTS,
};
use crate::session::{
    all_ready, answered, is_participant, lemma_answer_keeps_seats, lemma_participant_has_seat,
    lemma_step_settles, none_unknown, seat_of, Phase, Press, SessionView,
};
use crate::setup::{
    chosen_duration, setup_error_text, SetupActionView, SetupError, SetupPhase, SetupResultView,
    SetupView, DEFAULT_DURATION_SECS,
};
use crate::status::ReadyState;
use crate::text::{
    decimal_digits, digits_value, is_digit, lemma_decimal_digits_are_digits,
    lemma_decimal_digits_value, parse_decimal,
};
use vstd::prelude::*;
use vstd::seq_lib::*;

verus! {

// Polls.

/// The poll after a run of events, taken in their order.
pub open spec fn run(session: SessionView, events: Seq<EventView>) -> SessionView
    decreases events.len(),
{
    if events.len() == 0 {
        session
    } else {
        run(session, events.drop_last()).step(events.last())
    }
}

/// A poll that has just been opened is valid.
pub proof fn law_opened_is_valid(id: u64, invoker: u64, roster: Seq<ParticipantView>)
    requires
        roster_valid(roster),
    ensures
        SessionView::opened(id, invoker, roster).valid(),
{
}

/// No event takes a poll out of its invariant: it keeps its participants, their names and
/// their order, it is all-ready only with everyone ready, and expired only with everyone's
/// answer settled.
pub proof fn law_step_keeps_valid(session: SessionView, event: EventView)
    requires
        session.valid(),
    ensures
        session.step(event).valid(),
        session.step(event).id == session.id,
        session.step(event).participants.len() == session.participants.len(),
        forall|i: int|
            0 <= i < session.participants.len() ==> {
                &&& (#[trigger] session.step(event).participants[i]).id == session.participants[i].id
                &&& session.step(event).participants[i].display_name
                    == session.participants[i].display_name
            },
{
    if session.phase == Phase::Active {
        match event {
            EventView::Interaction(interaction) => {
                match session.read(interaction) {
                    Press::Answer { seat, status } => {
                        lemma_participant_has_seat(session.participants, interaction.user);
                    },
                    _ => {},
                }
            },
            _ => {},
        }
    }
}

/// A poll for a roster stays valid through every run of events.
pub proof fn law_polls_stay_valid(
    id: u64,
    invoker: u64,
    roster: Seq<ParticipantView>,
    events: Seq<EventView>,
)
    requires
        roster_valid(roster),
    ensures
        run(SessionView::opened(id, invoker, roster), events).valid(),
        run(SessionView::opened(id, invoker, roster), events).participants.len() == roster.len(),
    decreases events.len(),
{
    if events.len() > 0 {
        law_polls_stay_valid(id, invoker, roster, events.drop_last());
        law_step_keeps_valid(
            run(SessionView::opened(id, invoker, roster), events.drop_last()),
            events.last(),
        );
    }
}

/// However a poll got there, and whomever it asks: when it is all-ready, every participant
/// is ready, and when it has expired, no participant is without an answer.
pub proof fn law_ended_polls_are_settled(
    id: u64,
    invoker: u64,
    roster: Seq<ParticipantView>,
    events: Seq<EventView>,
)
    ensures
        run(SessionView::opened(id, invoker, roster), events).phase == Phase::AllReady
            ==> all_ready(run(SessionView::opened(id, invoker, roster), events).participants),
        run(SessionView::opened(id, invoker, roster), events).phase == Phase::Expired
            ==> none_unknown(run(SessionView::opened(id, invoker, roster), events).participants),
    decreases events.len(),
{
    if events.len() > 0 {
        law_ended_polls_are_settled(id, invoker, roster, events.drop_last());
        let before = run(SessionView::opened(id, invoker, roster), events.drop_last());
        lemma_step_settles(before, events.last());
    }
}

/// A poll that is over stays as it is, and asks for nothing more.
pub proof fn law_ended_polls_rest(session: SessionView, event: EventView)
    requires
        session.phase != Phase::Active,
    ensures
        session.step(event) == session,
        session.respond(event) is Ignore,
{
}

/// Taking the same event twice in a row leaves a poll as taking it once does. So a
/// participant who presses the same button again changes nothing.
pub proof fn law_repeated_event_changes_nothing(session: SessionView, event: EventView)
    requires
        session.valid(),
    ensures
        session.step(event).step(event) == session.step(event),
{
    let once = session.step(event);
    if session.phase == Phase::Active && once.phase == Phase::Active {
        match event {
            EventView::Interaction(interaction) => {
                match session.read(interaction) {
                    Press::Answer { seat, status } => {
                        lemma_participant_has_seat(session.participants, interaction.user);
                        lemma_answer_keeps_seats(
                            session.participants,
                            seat,
                            status,
                            interaction.user,
                        );
                        assert(answered(once.participants, seat, status) =~= once.participants);
                    },
                    _ => {},
                }
            },
            _ => {},
        }
    }
}

/// The last press counts: a participant of an active poll who presses "not ready" and then
/// "ready" stands as ready, and everybody else stands as before.
pub proof fn law_last_press_wins(
    session: SessionView,
    first: InteractionView,
    second: InteractionView,
)
    requires
        session.valid(),
        session.phase == Phase::Active,
        is_participant(session.participants, first.user),
        second.user == first.user,
        pressed_button(session_prefix(session.id), first.custom_id) == Some(ReadyState::NotReady),
        pressed_button(session_prefix(session.id), second.custom_id) == Some(ReadyState::Ready),
    ensures
        session.step(EventView::Interaction(first)).step(EventView::Interaction(second)).participants
            == answered(
            session.participants,
            seat_of(session.participants, first.user),
            ReadyState::Ready,
        ),
{
    let user = first.user;
    lemma_participant_has_seat(session.participants, user);
    let seat = seat_of(session.participants, user);
    let between = session.step(EventView::Interaction(first));
    assert(between.participants == answered(session.participants, seat, ReadyState::NotReady));
    assert(between.participants[seat].status == ReadyState::NotReady);
    assert(!all_ready(between.participants));
    lemma_answer_keeps_seats(session.participants, seat, ReadyState::NotReady, user);
    assert(answered(between.participants, seat, ReadyState::Ready) =~= answered(
        session.participants,
        seat,
        ReadyState::Ready,
    ));
}

/// A poll reads its own buttons: the id of its "ready" button stands for "ready", that of
/// its "not ready" button for "not ready".
pub proof fn law_own_buttons_are_read(id: u64)
    ensures
        pressed_button(session_prefix(id), ready_button_id(id)) == Some(ReadyState::Ready),
        pressed_button(session_prefix(id), not_ready_button_id(id)) == Some(ReadyState::NotReady),
{
    let prefix = session_prefix(id);
    assert(ready_button_id(id).subrange(0, prefix.len() as int) =~= prefix);
    assert(ready_button_id(id).skip(prefix.len() as int) =~= seq!['1']);
    assert(not_ready_button_id(id).subrange(0, prefix.len() as int) =~= prefix);
    assert(not_ready_button_id(id).skip(prefix.len() as int) =~= seq!['0']);
    assert(seq!['0'] != seq!['1']) by {
        assert(seq!['0'][0] != seq!['1'][0]);
    }
}

/// A participant who presses the poll's own "ready" button stands as ready after it.
pub proof fn law_ready_press_is_recorded(session: SessionView, interaction: InteractionView)
    requires
        session.phase == Phase::Active,
        is_participant(session.participants, interaction.user),
        interaction.custom_id == ready_button_id(session.id),
    ensures
        session.step(EventView::Interaction(interaction)).participants[seat_of(
            session.participants,
            interaction.user,
        )].status == ReadyState::Ready,
        !(session.respond(EventView::Interaction(interaction)) is Ignore),
        !(session.respond(EventView::Interaction(interaction)) is Reject),
{
    law_own_buttons_are_read(session.id);
    lemma_participant_has_seat(session.participants, interaction.user);
}

// Many polls and wizards on one bus.

/// An interaction whose id does not start with the poll's prefix leaves the poll as it is,
/// and the poll asks for nothing.
pub proof fn law_foreign_interactions_are_ignored(session: SessionView, interaction: InteractionView)
    requires
        !session_prefix(session.id).is_prefix_of(interaction.custom_id),
    ensures
        session.step(EventView::Interaction(interaction)) == session,
        session.respond(EventView::Interaction(interaction)) is Ignore,
{
}

/// No id under the prefix of one invocation starts with the prefix of another.
pub proof fn law_prefixes_do_not_overlap(a: u64, b: u64, rest: Seq<char>)
    requires
        a != b,
    ensures
        !session_prefix(b).is_prefix_of(session_prefix(a) + rest),
{
    let da = decimal_digits(a as nat);
    let db = decimal_digits(b as nat);
    let id = session_prefix(a) + rest;
    let pb = session_prefix(b);
    lemma_decimal_digits_are_digits(a as nat);
    lemma_decimal_digits_are_digits(b as nat);
    if pb.is_prefix_of(id) {
        assert(pb =~= id.subrange(0, pb.len() as int));
        let la = da.len() as int;
        let lb = db.len() as int;
        if lb < la {
            assert(pb[3 + lb] == '_');
            assert(id[3 + lb] == da[lb]);
            assert(is_digit(da[lb]));
            assert(id.subrange(0, pb.len() as int)[3 + lb] == id[3 + lb]);
        } else if lb > la {
            assert(pb[3 + la] == db[la]);
            assert(is_digit(db[la]));
            assert(id[3 + la] == '_');
            assert(id.subrange(0, pb.len() as int)[3 + la] == id[3 + la]);
        } else {
            assert forall|k: int| 0 <= k < da.len() implies da[k] == db[k] by {
                assert(pb[3 + k] == db[k]);
                assert(id[3 + k] == da[k]);
                assert(id.subrange(0, pb.len() as int)[3 + k] == id[3 + k]);
            }
            assert(da =~= db);
            lemma_decimal_digits_value(a as nat);
            lemma_decimal_digits_value(b as nat);
        }
    }
}

/// Polls do not hear each other: the buttons of one poll mean nothing to another.
pub proof fn law_polls_are_isolated(session: SessionView, other: u64, interaction: InteractionView)
    requires
        other != session.id,
        interaction.custom_id == ready_button_id(other) || interaction.custom_id
            == not_ready_button_id(other),
    ensures
        session.step(EventView::Interaction(interaction)) == session,
        session.respond(EventView::Interaction(interaction)) is Ignore,
{
    law_prefixes_do_not_overlap(other, session.id, seq!['1']);
    law_prefixes_do_not_overlap(other, session.id, seq!['0']);
}

/// The controls of a wizard mean nothing to any poll.
pub proof fn law_wizards_do_not_reach_polls(
    session: SessionView,
    wizard: u64,
    name: Seq<char>,
    interaction: InteractionView,
)
    requires
        interaction.custom_id == control_id(wizard, name),
    ensures
        session.step(EventView::Interaction(interaction)) == session,
        session.respond(EventView::Interaction(interaction)) is Ignore,
{
    let prefix = session_prefix(session.id);
    if prefix.is_prefix_of(interaction.custom_id) {
        assert(prefix =~= interaction.custom_id.subrange(0, prefix.len() as int));
        assert(prefix[1] == 'c');
        assert(interaction.custom_id.subrange(0, prefix.len() as int)[1] == interaction.custom_id[1]);
        assert(interaction.custom_id[1] == 'o');
    }
}

/// No control of one wizard has the id of a control of another.
pub proof fn law_wizards_are_isolated(a: u64, b: u64, name_a: Seq<char>, name_b: Seq<char>)
    requires
        a != b,
    ensures
        control_id(a, name_a) != control_id(b, name_b),
{
    let da = decimal_digits(a as nat);
    let db = decimal_digits(b as nat);
    let la = da.len() as int;
    let lb = db.len() as int;
    let x = control_id(a, name_a);
    let y = control_id(b, name_b);
    lemma_decimal_digits_are_digits(a as nat);
    lemma_decimal_digits_are_digits(b as nat);
    if x == y {
        if la < lb {
            assert(x[4 + la] == '_');
            assert(y[4 + la] == db[la]);
            assert(is_digit(db[la]));
        } else if lb < la {
            assert(y[4 + lb] == '_');
            assert(x[4 + lb] == da[lb]);
            assert(is_digit(da[lb]));
        } else {
            assert forall|k: int| 0 <= k < la implies da[k] == db[k] by {
                assert(x[4 + k] == da[k]);
                assert(y[4 + k] == db[k]);
            }
            assert(da =~= db);
            lemma_decimal_digits_value(a as nat);
            lemma_decimal_digits_value(b as nat);
        }
    }
}

// Wizards.

/// No event takes a wizard out of its invariant, and a wizard that is over stays as it is.
pub proof fn law_wizard_keeps_valid(wizard: SetupView, event: EventView, known: Seq<bool>)
    requires
        wizard.valid(),
    ensures
        wizard.react(event, known).0.valid(),
        wizard.phase != SetupPhase::AwaitingInput ==> wizard.react(event, known) == (
            wizard,
            SetupActionView::Ignore,
        ),
{
}

/// A wizard leaves alone every interaction that is not with one of its three controls.
pub proof fn law_wizard_ignores_foreign_controls(
    wizard: SetupView,
    interaction: InteractionView,
    known: Seq<bool>,
)
    requires
        interaction.custom_id != mention_control_id(wizard.id),
        interaction.custom_id != timeout_control_id(wizard.id),
        interaction.custom_id != submit_control_id(wizard.id),
    ensures
        wizard.react(EventView::Interaction(interaction), known) == (
            wizard,
            SetupActionView::Ignore,
        ),
{
}

/// Submitting with no user and no role selected ends the wizard as invalid, with the
/// reason that nothing was selected; no selection comes out of it.
pub proof fn law_empty_submission_is_invalid(
    wizard: SetupView,
    interaction: InteractionView,
    known: Seq<bool>,
)
    requires
        wizard.phase == SetupPhase::AwaitingInput,
        wizard.roles.len() == 0,
        wizard.users.len() == 0,
        interaction.custom_id == submit_control_id(wizard.id),
    ensures
        wizard.react(EventView::Interaction(interaction), known).0.phase == SetupPhase::Invalid,
        wizard.react(EventView::Interaction(interaction), known).1 == SetupActionView::Finish(
            SetupResultView::Invalid(SetupError::NoSelection),
        ),
{
    lemma_controls_differ(wizard.id);
}

/// A wizard hands out a selection only with somebody selected, and only on the submit
/// button.
pub proof fn law_selection_is_never_empty(wizard: SetupView, event: EventView, known: Seq<bool>)
    requires
        wizard.react(event, known).1 matches SetupActionView::Finish(SetupResultView::Valid { .. }),
    ensures
        wizard.react(event, known).1 matches SetupActionView::Finish(
            SetupResultView::Valid { roles, users, .. },
        ) && roles.len() + users.len() > 0,
        event matches EventView::Interaction(interaction) && interaction.custom_id
            == submit_control_id(wizard.id),
{
}

/// Every duration that the form offers is read as a number of seconds, and the one that the
/// form shows as chosen is the duration that a wizard starts with.
pub proof fn law_offered_durations_are_read()
    ensures
        forall|i: int|
            0 <= i < duration_options().len() ==> chosen_duration(
                PayloadView::Strings(seq![#[trigger] duration_options()[i].value]),
            ) is Some,
        duration_options()[0].default_selection,
        chosen_duration(PayloadView::Strings(seq![duration_options()[0].value])) == Some(
            DEFAULT_DURATION_SECS,
        ),
{
    reveal_strlit("60");
    reveal_strlit("300");
    reveal_strlit("3600");
    reveal_with_fuel(digits_value, 6);
    assert(digits_value("60"@) == 60) by {
        assert("60"@.drop_last() =~= seq!['6']);
        assert(seq!['6'].drop_last() =~= Seq::<char>::empty());
    }
    assert(digits_value("300"@) == 300) by {
        assert("300"@.drop_last() =~= seq!['3', '0']);
        assert(seq!['3', '0'].drop_last() =~= seq!['3']);
        assert(seq!['3'].drop_last() =~= Seq::<char>::empty());
    }
    assert(digits_value("3600"@) == 3600) by {
        assert("3600"@.drop_last() =~= seq!['3', '6', '0']);
        assert(seq!['3', '6', '0'].drop_last() =~= seq!['3', '6']);
        assert(seq!['3', '6'].drop_last() =~= seq!['3']);
        assert(seq!['3'].drop_last() =~= Seq::<char>::empty());
    }
    assert(seq!["60"@][0] == "60"@);
    assert(seq!["300"@][0] == "300"@);
    assert(seq!["3600"@][0] == "3600"@);
}

// Whole checks.

/// No event takes a readiness check out of its invariant, and a check that is done stays
/// done and asks for nothing.
pub proof fn law_check_keeps_valid(check: ReadycheckView, event: FlowEventView, known: Seq<bool>)
    requires
        check.valid(),
    ensures
        check.react(event, known).0.valid(),
        check.react(event, known).0.id == check.id,
        check.react(event, known).0.invoker == check.invoker,
        check.stage is Done ==> check.react(event, known) == (check, FlowActionView::Nothing),
{
    match (check.stage, event) {
        (StageView::Polling(session), FlowEventView::Signal(signal)) => {
            law_step_keeps_valid(session, signal);
            lemma_step_outcomes(session, signal);
        },
        (StageView::Resolving { duration, roles, users }, FlowEventView::Members(members)) => {
            let asked = candidates(members, roles, users);
            if 1 <= asked.len() <= MAX_PARTICIPANTS {
                lemma_roster_exists(asked);
                lemma_roster_of(roster_of(asked), asked);
                to_multiset_len(roster_of(asked));
                to_multiset_len(asked);
            }
        },
        _ => {},
    }
}

/// Submitting the form with no user and no role selected ends the check: the user is told
/// that nothing was selected, and no member list is asked for.
pub proof fn law_empty_submission_ends_the_check(
    check: ReadycheckView,
    interaction: InteractionView,
    known: Seq<bool>,
)
    requires
        check.valid(),
        check.stage matches StageView::Setup(wizard) && wizard.roles.len() == 0
            && wizard.users.len() == 0,
        interaction.custom_id == submit_control_id(check.id),
    ensures
        check.react(FlowEventView::Signal(EventView::Interaction(interaction)), known) == (
            check.at(StageView::Done),
            FlowActionView::Abandon {
                message: setup_error_text(SetupError::NoSelection),
                clear_controls: true,
            },
        ),
{
    lemma_controls_differ(check.id);
}

/// A selection that matches nobody, or more members than a poll can show, starts no poll:
/// the check ends, and tells the invoking user why. Every other selection starts the poll,
/// with its roster.
pub proof fn law_roster_guards_the_poll(check: ReadycheckView, members: Seq<MemberView>, known: Seq<bool>)
    requires
        check.stage is Resolving,
    ensures
        ({
            let asked = candidates(members, check.stage->roles, check.stage->users);
            let (next, action) = check.react(FlowEventView::Members(members), known);
            &&& asked.len() == 0 ==> next.stage is Done && action == (FlowActionView::Abandon {
                message: roster_error_text(RosterError::Empty),
                clear_controls: false,
            })
            &&& asked.len() > MAX_PARTICIPANTS ==> next.stage is Done && action == (
            FlowActionView::Abandon {
                message: roster_error_text(RosterError::TooMany),
                clear_controls: false,
            })
            &&& 1 <= asked.len() <= MAX_PARTICIPANTS ==> next.stage == StageView::Polling(
                SessionView::opened(check.id, check.invoker, roster_of(asked)),
            ) && action is Start
        }),
{
}

/// A poll starts in one way only: from a member list that the selection matches between
/// one and the most participants of.
pub proof fn law_polls_start_from_rosters(check: ReadycheckView, event: FlowEventView, known: Seq<bool>)
    requires
        check.valid(),
        !(check.stage is Polling),
        check.react(event, known).0.stage is Polling,
    ensures
        check.stage is Resolving,
        event matches FlowEventView::Members(members) && 1 <= candidates(
            members,
            check.stage->roles,
            check.stage->users,
        ).len() <= MAX_PARTICIPANTS,
{
}

/// When the time for the form is up, the check ends, and the invoking user is told so.
pub proof fn law_setup_deadline_ends_the_check(check: ReadycheckView, known: Seq<bool>)
    requires
        check.valid(),
        check.stage is Setup,
    ensures
        check.react(FlowEventView::Signal(EventView::Deadline), known) == (
            check.at(StageView::Done),
            FlowActionView::Abandon {
                message: setup_error_text(SetupError::TimedOut),
                clear_controls: true,
            },
        ),
{
}

/// The deadline ends every poll that runs: the answers are settled and shown, and the grace
/// period begins.
pub proof fn law_poll_deadline_ends_the_poll(check: ReadycheckView, known: Seq<bool>)
    requires
        check.valid(),
        check.stage is Polling,
    ensures
        ({
            let (next, action) = check.react(FlowEventView::Signal(EventView::Deadline), known);
            &&& next.stage matches StageView::Cleanup(session)
            &&& session.phase == Phase::Expired
            &&& none_unknown(session.participants)
            &&& action == (FlowActionView::Finalize {
                embed: embed_of(session.participants, true),
                grace: CLEANUP_DELAY_SECS,
            })
        }),
{
}

/// However a poll ends, the grace period follows, and at its end the status message is
/// deleted: a check leaves the poll only for the cleanup, with the announcement or with the
/// final summary, and it leaves the cleanup only at the deadline, with the deletion.
pub proof fn law_cleanup_follows_every_poll(check: ReadycheckView, event: FlowEventView, known: Seq<bool>)
    requires
        check.valid(),
    ensures
        check.stage is Polling && !(check.react(event, known).0.stage is Polling) ==> {
            &&& check.react(event, known).0.stage is Cleanup
            &&& match check.react(event, known).1 {
                FlowActionView::Announce { grace, .. } => grace == CLEANUP_DELAY_SECS,
                FlowActionView::Finalize { grace, .. } => grace == CLEANUP_DELAY_SECS,
                _ => false,
            }
        },
        check.stage is Cleanup ==> if event == FlowEventView::Signal(EventView::Deadline) {
            check.react(event, known) == (check.at(StageView::Done), FlowActionView::DeleteStatus)
        } else {
            check.react(event, known) == (check, FlowActionView::Nothing)
        },
{
    match (check.stage, event) {
        (StageView::Polling(session), FlowEventView::Signal(signal)) => {
            lemma_step_outcomes(session, signal);
        },
        _ => {},
    }
}

/// A poll that runs, and the cleanup after it, survive every failure of the caller: nothing
/// that they ask for must succeed.
pub proof fn law_polls_survive_failures(check: ReadycheckView, event: FlowEventView, known: Seq<bool>)
    requires
        check.stage is Polling || check.stage is Cleanup,
    ensures
        !check.react(event, known).1.must_succeed(),
{
}

/// The ping reaches everybody who is asked: the line of mentions holds, for every member
/// that the selection asks, the mention of that member or the mention of a role that the
/// member holds.
pub proof fn law_ping_reaches_everyone_asked(member: MemberView, roles: Seq<u64>, users: Seq<u64>)
    requires
        is_selected(member, roles, users),
    ensures
        mention_list(roles, users).contains(user_mention(member.id)) || exists|role: u64|
            member.role_ids.contains(role) && #[trigger] mention_list(roles, users).contains(
                role_mention(role),
            ),
{
    let list = mention_list(roles, users);
    if users.contains(member.id) {
        let i = choose|i: int| 0 <= i < users.len() && users[i] == member.id;
        assert(list[roles.len() + i] == user_mention(member.id));
    } else {
        let k = choose|k: int| 0 <= k < roles.len() && member.role_ids.contains(#[trigger] roles[k]);
        assert(list[k] == role_mention(roles[k]));
        assert(list.contains(role_mention(roles[k])));
    }
}

// Rosters.

/// The order of the member list does not matter: two lists that hold the same members give
/// the same roster, or fail in the same way.
pub proof fn law_roster_ignores_member_order(
    first: Seq<MemberView>,
    second: Seq<MemberView>,
    roles: Seq<u64>,
    users: Seq<u64>,
)
    requires
        first.to_multiset() == second.to_multiset(),
    ensures
        candidates(first, roles, users).len() == candidates(second, roles, users).len(),
        roster_of(candidates(first, roles, users)) == roster_of(candidates(second, roles, users)),
{
    let pred = selector(roles, users);
    assert(first.filter(pred).to_multiset() =~= second.filter(pred).to_multiset()) by {
        assert forall|m: MemberView|
            first.filter(pred).to_multiset().count(m) == second.filter(pred).to_multiset().count(
                m,
            ) by {
            lemma_filter_counts(first, pred, m);
            lemma_filter_counts(second, pred, m);
        }
    }
    lemma_map_keeps_multisets(
        first.filter(pred),
        second.filter(pred),
        |m: MemberView| enrol(m),
    );
    let a = candidates(first, roles, users);
    let b = candidates(second, roles, users);
    assert(a.to_multiset() == b.to_multiset());
    to_multiset_len(a);
    to_multiset_len(b);
    lemma_roster_exists(a);
    lemma_roster_exists(b);
    lemma_roster_of(roster_of(a), a);
    lemma_roster_of(roster_of(a), b);
}

// Numbers in ids.

/// What is written in decimal reads back as the same number.
pub proof fn law_decimal_reads_back(n: u64)
    ensures
        parse_decimal(decimal_digits(n as nat)) == Some(n),
{
    lemma_decimal_digits_are_digits(n as nat);
    lemma_decimal_digits_value(n as nat);
    assert(is_digit(decimal_digits(n as nat)[0]));
}

} // verus!
