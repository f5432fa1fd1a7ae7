//! One readiness check from the command to the cleanup: the wizard, the resolution of the
//! roster, the poll, and the grace period after which the status message goes away.
//!
//! The caller owns everything that waits or that talks to the platform. It hands this
//! machine each thing that happened, and does what the machine then asks for.

use crate::controls::{
    form_of, not_ready_button_of, poll_buttons, ready_button_of, setup_form, Button, ButtonView,
    SetupForm, SetupFormView,
};
use crate::event::{Event, EventView};
use crate::mention::{mentions_line, mentions_text};
use crate::render::{embed_of, Embed, EmbedView};
use crate::roster::{
    candidates, member_views, resolve_roster, roster_error_text, roster_of, Member, MemberView,
    RosterError, MAX_PARTICIPANTS,
};
use crate::session::{Phase, Session, SessionAction, SessionActionView, SessionView};
use crate::setup::{
    findings_on, probe_roles, selected_ids, setup_error_text, SetupAction, SetupActionView, SetupPhase, SetupResult,
    SetupResultView, SetupView, SetupWizard, SETUP_WINDOW_SECS,
};
use serenity::client::Context;
use vstd::prelude::*;

verus! {

/// How long the status message of a poll that is over stays, in seconds.
pub const CLEANUP_DELAY_SECS: u64 = 600;

/// What the invoking user is told when the command is used outside a guild.
pub open spec fn guild_only_text() -> Seq<char> {
    "This command can only be used in servers."@
}

/// What can happen to a readiness check.
#[derive(Clone, Debug)]
pub enum FlowEvent {
    /// The bus delivered something, or the deadline that the last action set has passed:
    /// that of the wizard, that of the poll, or the end of the grace period.
    Signal(Event),
    /// The member list of the guild has arrived.
    Members(Vec<Member>),
}

/// The mathematical value of a [`FlowEvent`].
pub enum FlowEventView {
    Signal(EventView),
    Members(Seq<MemberView>),
}

impl View for FlowEvent {
    type V = FlowEventView;

    open spec fn view(&self) -> FlowEventView {
        match self {
            FlowEvent::Signal(event) => FlowEventView::Signal(event@),
            FlowEvent::Members(members) => FlowEventView::Members(member_views(members@)),
        }
    }
}

/// What a readiness check asks the caller to do.
#[derive(Clone, Debug)]
pub enum FlowAction {
    /// Nothing.
    Nothing,
    /// Tell the invoking user `message`, privately. The check is over.
    Refuse { message: String },
    /// Show `form` to the invoking user, privately. The deadline of the wizard is `window`
    /// seconds from now.
    OpenForm { form: SetupForm, window: u64 },
    /// Acknowledge the interaction, without anything visible.
    Acknowledge,
    /// Put `message` in place of the form's prompt, and take the form's controls away if
    /// `clear_controls` says so. The check is over.
    Abandon { message: String, clear_controls: bool },
    /// Fetch the member list of the guild and hand it over.
    FetchMembers,
    /// Post the status message with `embed` and the two buttons, and take the form away.
    /// Then, without waiting for it, post `mentions` in a message of its own and delete that
    /// message at once, so that everybody asked is notified once and nothing is left behind;
    /// a failure of this is no failure of the poll. The deadline of the poll is `duration`
    /// seconds from now.
    Start { embed: Embed, ready: Button, not_ready: Button, mentions: String, duration: u64 },
    /// Answer the interaction with `reply`, visible to its user only, without waiting for
    /// the answer to go out; a failure of it is no failure of the poll.
    Reject { reply: String },
    /// Acknowledge the interaction and show `embed` in the status message, in place. The
    /// poll goes on even where that fails: the answers are kept here, not in the message.
    Refresh { embed: Embed },
    /// Acknowledge the interaction and post `text` in the channel. The poll is over; the
    /// grace period begins, and its deadline is `grace` seconds from now.
    Announce { text: String, grace: u64 },
    /// Show `embed` in the status message and take its buttons away. The poll is over; the
    /// grace period begins, and its deadline is `grace` seconds from now.
    Finalize { embed: Embed, grace: u64 },
    /// Delete the status message. The check is over, whether or not the deletion succeeds.
    DeleteStatus,
}

/// The mathematical value of a [`FlowAction`].
pub enum FlowActionView {
    Nothing,
    Refuse { message: Seq<char> },
    OpenForm { form: SetupFormView, window: u64 },
    Acknowledge,
    Abandon { message: Seq<char>, clear_controls: bool },
    FetchMembers,
    Start {
        embed: EmbedView,
        ready: ButtonView,
        not_ready: ButtonView,
        mentions: Seq<char>,
        duration: u64,
    },
    Reject { reply: Seq<char> },
    Refresh { embed: EmbedView },
    Announce { text: Seq<char>, grace: u64 },
    Finalize { embed: EmbedView, grace: u64 },
    DeleteStatus,
}

impl FlowActionView {
    /// Whether the check cannot go on where the caller fails to do this. What sets a check
    /// up must succeed: the refusal, the form and the acknowledgements of its controls, the
    /// note that abandons it, the member list, and the status message. What a running poll
    /// asks for need not: the poll keeps the answers itself, and goes on to its end.
    pub open spec fn must_succeed(self) -> bool {
        ||| self is Refuse
        ||| self is OpenForm
        ||| self is Acknowledge
        ||| self is Abandon
        ||| self is FetchMembers
        ||| self is Start
    }
}

impl FlowAction {
    /// Whether the check cannot go on where the caller fails to do this. A failure of
    /// anything else is to be noted, and the check goes on.
    pub fn must_succeed(&self) -> (must: bool)
        ensures
            must == self@.must_succeed(),
    {
        match self {
            FlowAction::Refuse { .. } => true,
            FlowAction::OpenForm { .. } => true,
            FlowAction::Acknowledge => true,
            FlowAction::Abandon { .. } => true,
            FlowAction::FetchMembers => true,
            FlowAction::Start { .. } => true,
            _ => false,
        }
    }
}

impl View for FlowAction {
    type V = FlowActionView;

    open spec fn view(&self) -> FlowActionView {
        match self {
            FlowAction::Nothing => FlowActionView::Nothing,
            FlowAction::Refuse { message } => FlowActionView::Refuse { message: message@ },
            FlowAction::OpenForm { form, window } => FlowActionView::OpenForm {
                form: form@,
                window: *window,
            },
            FlowAction::Acknowledge => FlowActionView::Acknowledge,
            FlowAction::Abandon { message, clear_controls } => FlowActionView::Abandon {
                message: message@,
                clear_controls: *clear_controls,
            },
            FlowAction::FetchMembers => FlowActionView::FetchMembers,
            FlowAction::Start { embed, ready, not_ready, mentions, duration } => {
                FlowActionView::Start {
                    embed: embed@,
                    ready: ready@,
                    not_ready: not_ready@,
                    mentions: mentions@,
                    duration: *duration,
                }
            },
            FlowAction::Reject { reply } => FlowActionView::Reject { reply: reply@ },
            FlowAction::Refresh { embed } => FlowActionView::Refresh { embed: embed@ },
            FlowAction::Announce { text, grace } => FlowActionView::Announce {
                text: text@,
                grace: *grace,
            },
            FlowAction::Finalize { embed, grace } => FlowActionView::Finalize {
                embed: embed@,
                grace: *grace,
            },
            FlowAction::DeleteStatus => FlowActionView::DeleteStatus,
        }
    }
}

/// Where a readiness check stands, with what it holds there.
pub enum StageView {
    /// The wizard runs.
    Setup(SetupView),
    /// The wizard gave a selection; the member list is awaited.
    Resolving { duration: u64, roles: Seq<u64>, users: Seq<u64> },
    /// The poll runs.
    Polling(SessionView),
    /// The poll is over; its status message still stands.
    Cleanup(SessionView),
    /// Nothing is left to do.
    Done,
}

/// The mathematical value of a [`Readycheck`].
pub struct ReadycheckView {
    /// The id of the invocation, unique to it.
    pub id: u64,
    /// Who invoked the command.
    pub invoker: u64,
    pub stage: StageView,
}

impl ReadycheckView {
    /// What holds of every readiness check: its wizard and its poll carry its id, a wizard
    /// that runs has its form open, and a poll that runs is active.
    pub open spec fn valid(self) -> bool {
        match self.stage {
            StageView::Setup(wizard) => wizard.id == self.id && wizard.phase
                == SetupPhase::AwaitingInput,
            StageView::Resolving { roles, users, .. } => roles.len() + users.len() > 0,
            StageView::Polling(session) => session.valid() && session.id == self.id
                && session.invoker == self.invoker && session.phase == Phase::Active,
            StageView::Cleanup(session) => session.valid() && session.id == self.id
                && session.phase != Phase::Active,
            StageView::Done => true,
        }
    }

    /// A readiness check at the moment of the command, and what it asks for first. Outside
    /// a guild there is nothing to check.
    pub open spec fn begun(id: u64, invoker: u64, in_guild: bool) -> (
        ReadycheckView,
        FlowActionView,
    ) {
        if in_guild {
            (
                ReadycheckView { id, invoker, stage: StageView::Setup(SetupView::initial(id)) },
                FlowActionView::OpenForm { form: form_of(id), window: SETUP_WINDOW_SECS },
            )
        } else {
            (
                ReadycheckView { id, invoker, stage: StageView::Done },
                FlowActionView::Refuse { message: guild_only_text() },
            )
        }
    }

    /// The check at another stage.
    pub open spec fn at(self, stage: StageView) -> ReadycheckView {
        ReadycheckView { stage, ..self }
    }

    /// The check after an event, and what it asks the caller to do. `known` says of each id
    /// that the event selects whether it was found to be a role.
    pub open spec fn react(self, event: FlowEventView, known: Seq<bool>) -> (
        ReadycheckView,
        FlowActionView,
    ) {
        match (self.stage, event) {
            (StageView::Setup(wizard), FlowEventView::Signal(signal)) => {
                let (next, action) = wizard.react(signal, known);
                match action {
                    SetupActionView::Ignore => (
                        self.at(StageView::Setup(next)),
                        FlowActionView::Nothing,
                    ),
                    SetupActionView::Acknowledge => (
                        self.at(StageView::Setup(next)),
                        FlowActionView::Acknowledge,
                    ),
                    SetupActionView::Finish(SetupResultView::Invalid(error)) => (
                        self.at(StageView::Done),
                        FlowActionView::Abandon {
                            message: setup_error_text(error),
                            clear_controls: true,
                        },
                    ),
                    SetupActionView::Finish(SetupResultView::Valid { duration, roles, users }) => (
                        self.at(StageView::Resolving { duration, roles, users }),
                        FlowActionView::FetchMembers,
                    ),
                }
            },
            (StageView::Resolving { duration, roles, users }, FlowEventView::Members(members)) => {
                let asked = candidates(members, roles, users);
                if asked.len() == 0 {
                    (
                        self.at(StageView::Done),
                        FlowActionView::Abandon {
                            message: roster_error_text(RosterError::Empty),
                            clear_controls: false,
                        },
                    )
                } else if asked.len() > MAX_PARTICIPANTS {
                    (
                        self.at(StageView::Done),
                        FlowActionView::Abandon {
                            message: roster_error_text(RosterError::TooMany),
                            clear_controls: false,
                        },
                    )
                } else {
                    (
                        self.at(
                            StageView::Polling(
                                SessionView::opened(self.id, self.invoker, roster_of(asked)),
                            ),
                        ),
                        FlowActionView::Start {
                            embed: embed_of(roster_of(asked), false),
                            ready: ready_button_of(self.id),
                            not_ready: not_ready_button_of(self.id),
                            mentions: mentions_text(roles, users),
                            duration,
                        },
                    )
                }
            },
            (StageView::Polling(session), FlowEventView::Signal(signal)) => {
                let next = session.step(signal);
                match session.respond(signal) {
                    SessionActionView::Ignore => (
                        self.at(StageView::Polling(next)),
                        FlowActionView::Nothing,
                    ),
                    SessionActionView::Reject { reply } => (
                        self.at(StageView::Polling(next)),
                        FlowActionView::Reject { reply },
                    ),
                    SessionActionView::Refresh { embed } => (
                        self.at(StageView::Polling(next)),
                        FlowActionView::Refresh { embed },
                    ),
                    SessionActionView::Announce { text } => (
                        self.at(StageView::Cleanup(next)),
                        FlowActionView::Announce { text, grace: CLEANUP_DELAY_SECS },
                    ),
                    SessionActionView::Finalize { embed } => (
                        self.at(StageView::Cleanup(next)),
                        FlowActionView::Finalize { embed, grace: CLEANUP_DELAY_SECS },
                    ),
                }
            },
            (StageView::Cleanup(_), FlowEventView::Signal(EventView::Deadline)) => (
                self.at(StageView::Done),
                FlowActionView::DeleteStatus,
            ),
            _ => (self, FlowActionView::Nothing),
        }
    }

    /// Whether the check listens to the bus: it does while its wizard or its poll runs, and
    /// at no other time.
    pub open spec fn listens(self) -> bool {
        self.stage is Setup || self.stage is Polling
    }

    /// Whether the check waits for a deadline: that of the wizard, that of the poll, or the
    /// end of the grace period.
    pub open spec fn has_deadline(self) -> bool {
        self.stage is Setup || self.stage is Polling || self.stage is Cleanup
    }

    /// Whether the check has to tell roles from users to take the event.
    pub open spec fn asks_cache(self, event: FlowEventView) -> bool {
        &&& self.stage matches StageView::Setup(wizard)
        &&& event matches FlowEventView::Signal(signal)
        &&& wizard.asks_cache(signal)
    }
}

/// Where a readiness check stands, with what it holds there.
#[derive(Debug)]
enum Stage {
    Setup(SetupWizard),
    Resolving { duration: u64, roles: Vec<u64>, users: Vec<u64> },
    Polling(Session),
    Cleanup(Session),
    Done,
}

impl View for Stage {
    type V = StageView;

    closed spec fn view(&self) -> StageView {
        match self {
            Stage::Setup(wizard) => StageView::Setup(wizard@),
            Stage::Resolving { duration, roles, users } => StageView::Resolving {
                duration: *duration,
                roles: roles@,
                users: users@,
            },
            Stage::Polling(session) => StageView::Polling(session@),
            Stage::Cleanup(session) => StageView::Cleanup(session@),
            Stage::Done => StageView::Done,
        }
    }
}

/// One readiness check, from the command to the cleanup.
#[derive(Debug)]
pub struct Readycheck {
    id: u64,
    invoker: u64,
    stage: Stage,
}

impl View for Readycheck {
    type V = ReadycheckView;

    closed spec fn view(&self) -> ReadycheckView {
        ReadycheckView { id: self.id, invoker: self.invoker, stage: self.stage@ }
    }
}

impl Readycheck {
    /// The invariant of a readiness check, which holds of every check there is.
    #[verifier::type_invariant]
    spec fn wf(&self) -> bool {
        self@.valid()
    }

    /// Takes the command: `id` is the id of the invocation, `invoker` the user, and
    /// `in_guild` whether the command was used in a guild.
    pub fn begin(id: u64, invoker: u64, in_guild: bool) -> (begun: (Readycheck, FlowAction))
        ensures
            (begun.0@, begun.1@) == ReadycheckView::begun(id, invoker, in_guild),
            begun.0@.valid(),
    {
        if in_guild {
            let wizard = SetupWizard::new(id);
            (
                Readycheck { id, invoker, stage: Stage::Setup(wizard) },
                FlowAction::OpenForm { form: setup_form(id), window: SETUP_WINDOW_SECS },
            )
        } else {
            (
                Readycheck { id, invoker, stage: Stage::Done },
                FlowAction::Refuse {
                    message: "This command can only be used in servers.".to_string(),
                },
            )
        }
    }

    /// The id of the invocation.
    pub fn id(&self) -> (id: u64)
        ensures
            id == self@.id,
    {
        self.id
    }

    /// Who invoked the command.
    pub fn invoker(&self) -> (invoker: u64)
        ensures
            invoker == self@.invoker,
    {
        self.invoker
    }

    /// Whether the check listens to the bus. The caller subscribes before it does what
    /// opens the form or starts the poll, and drops the subscription as soon as the check
    /// listens no more.
    pub fn listens(&self) -> (listens: bool)
        ensures
            listens == self@.listens(),
    {
        match &self.stage {
            Stage::Setup(_) => true,
            Stage::Polling(_) => true,
            _ => false,
        }
    }

    /// Whether the check waits for a deadline.
    pub fn has_deadline(&self) -> (waits: bool)
        ensures
            waits == self@.has_deadline(),
    {
        match &self.stage {
            Stage::Setup(_) => true,
            Stage::Polling(_) => true,
            Stage::Cleanup(_) => true,
            _ => false,
        }
    }

    /// Whether nothing is left to do.
    pub fn is_done(&self) -> (done: bool)
        ensures
            done == (self@.stage is Done),
    {
        match &self.stage {
            Stage::Done => true,
            _ => false,
        }
    }

    /// The poll, while it runs and through the grace period after it.
    pub fn session(&self) -> (session: Option<&Session>)
        ensures
            match session {
                Some(s) => self@.stage == StageView::Polling(s@) || self@.stage
                    == StageView::Cleanup(s@),
                None => !(self@.stage is Polling) && !(self@.stage is Cleanup),
            },
    {
        match &self.stage {
            Stage::Polling(session) => Some(session),
            Stage::Cleanup(session) => Some(session),
            _ => None,
        }
    }

    /// Takes one event, with what is known of the ids that it selects, and says what the
    /// caller is to do about it.
    ///
    /// The wizard runs first. Its selection is resolved against the member list when that
    /// arrives; where the roster is empty or too large the check ends there, else the poll
    /// starts. When the poll is over, the grace period runs, and the check ends with the
    /// deletion of the status message. An event that the stage does not wait for changes
    /// nothing.
    pub fn step_classified(&mut self, event: &FlowEvent, known: &Vec<bool>) -> (action: FlowAction)
        ensures
            (final(self)@, action@) == old(self)@.react(event@, known@),
            old(self)@.valid(),
            final(self)@.valid(),
    {
        proof {
            use_type_invariant(&*self);
        }
        let mut stage = Stage::Done;
        core::mem::swap(&mut self.stage, &mut stage);
        let ghost before = ReadycheckView { id: self.id, invoker: self.invoker, stage: stage@ };
        let (next, action) = match (stage, event) {
            (Stage::Setup(wizard), FlowEvent::Signal(signal)) => setup_signal(
                Ghost(before),
                wizard,
                signal,
                known,
            ),
            (Stage::Resolving { duration, roles, users }, FlowEvent::Members(members)) => {
                members_arrived(
                    Ghost(before),
                    self.id,
                    self.invoker,
                    duration,
                    roles,
                    users,
                    members,
                    Ghost(known@),
                )
            },
            (Stage::Polling(session), FlowEvent::Signal(signal)) => poll_signal(
                Ghost(before),
                session,
                signal,
                Ghost(known@),
            ),
            (Stage::Cleanup(_), FlowEvent::Signal(Event::Deadline)) => (
                Stage::Done,
                FlowAction::DeleteStatus,
            ),
            (stage, _) => (stage, FlowAction::Nothing),
        };
        self.stage = next;
        action
    }

    /// Takes one event, and says what the caller is to do about it. Where the event is a
    /// selection from the wizard's menu of users and roles, the cache of `ctx` tells which
    /// of the selected ids are roles: an id that it knows as a role is one, every other is a
    /// user.
    ///
    /// The check reacts as [`Readycheck::step_classified`] does with the findings of the
    /// cache. No other event depends on them.
    pub fn step(&mut self, ctx: &Context, event: &FlowEvent) -> (action: FlowAction)
        ensures
            old(self)@.valid(),
            final(self)@.valid(),
            old(self)@.asks_cache(event@) ==> exists|known: Seq<bool>| #[trigger]
                findings_on(selected_ids(event@->Signal_0), known) && (final(self)@, action@)
                    == old(self)@.react(event@, known),
            !old(self)@.asks_cache(event@) ==> (final(self)@, action@) == old(self)@.react(
                event@,
                Seq::<bool>::empty(),
            ),
    {
        let known = match (&self.stage, event) {
            (Stage::Setup(wizard), FlowEvent::Signal(signal)) => {
                match wizard.pending_selection(signal) {
                    Some(ids) => probe_roles(ctx, ids),
                    None => Vec::new(),
                }
            },
            _ => Vec::new(),
        };
        let action = self.step_classified(event, &known);
        assert(old(self)@.asks_cache(event@) ==> findings_on(
            selected_ids(event@->Signal_0),
            known@,
        ));
        action
    }
}

/// A signal reaches the wizard.
fn setup_signal(
    Ghost(before): Ghost<ReadycheckView>,
    wizard: SetupWizard,
    signal: &Event,
    known: &Vec<bool>,
) -> (out: (Stage, FlowAction))
    requires
        before.valid(),
        before.stage == StageView::Setup(wizard@),
    ensures
        before.at(out.0@).valid(),
        (before.at(out.0@), out.1@) == before.react(FlowEventView::Signal(signal@), known@),
{
    let mut wizard = wizard;
    match wizard.step_classified(signal, known) {
        SetupAction::Ignore => (Stage::Setup(wizard), FlowAction::Nothing),
        SetupAction::Acknowledge => (Stage::Setup(wizard), FlowAction::Acknowledge),
        SetupAction::Finish(SetupResult::Invalid(error)) => (
            Stage::Done,
            FlowAction::Abandon { message: error.message().to_string(), clear_controls: true },
        ),
        SetupAction::Finish(SetupResult::Valid { duration, roles, users }) => (
            Stage::Resolving { duration, roles, users },
            FlowAction::FetchMembers,
        ),
    }
}

/// The member list arrives for a selection.
fn members_arrived(
    Ghost(before): Ghost<ReadycheckView>,
    id: u64,
    invoker: u64,
    duration: u64,
    roles: Vec<u64>,
    users: Vec<u64>,
    members: &Vec<Member>,
    Ghost(known): Ghost<Seq<bool>>,
) -> (out: (Stage, FlowAction))
    requires
        before.id == id,
        before.invoker == invoker,
        before.stage == (StageView::Resolving { duration, roles: roles@, users: users@ }),
    ensures
        before.at(out.0@).valid(),
        (before.at(out.0@), out.1@) == before.react(
            FlowEventView::Members(member_views(members@)),
            known,
        ),
{
    match resolve_roster(members, &roles, &users) {
        Err(error) => (
            Stage::Done,
            FlowAction::Abandon { message: error.message().to_string(), clear_controls: false },
        ),
        Ok(roster) => {
            let session = Session::open(id, invoker, roster);
            let embed = session.render();
            let (ready, not_ready) = poll_buttons(id);
            let mentions = mentions_line(&roles, &users);
            (
                Stage::Polling(session),
                FlowAction::Start { embed, ready, not_ready, mentions, duration },
            )
        },
    }
}

/// A signal reaches the poll.
fn poll_signal(
    Ghost(before): Ghost<ReadycheckView>,
    session: Session,
    signal: &Event,
    Ghost(known): Ghost<Seq<bool>>,
) -> (out: (Stage, FlowAction))
    requires
        before.valid(),
        before.stage == StageView::Polling(session@),
    ensures
        before.at(out.0@).valid(),
        (before.at(out.0@), out.1@) == before.react(FlowEventView::Signal(signal@), known),
{
    let mut session = session;
    let ghost old_view = session@;
    let action = session.step(signal);
    proof {
        lemma_step_outcomes(old_view, signal@);
    }
    match action {
        SessionAction::Ignore => (Stage::Polling(session), FlowAction::Nothing),
        SessionAction::Reject { reply } => (Stage::Polling(session), FlowAction::Reject { reply }),
        SessionAction::Refresh { embed } => (
            Stage::Polling(session),
            FlowAction::Refresh { embed },
        ),
        SessionAction::Announce { text } => (
            Stage::Cleanup(session),
            FlowAction::Announce { text, grace: CLEANUP_DELAY_SECS },
        ),
        SessionAction::Finalize { embed } => (
            Stage::Cleanup(session),
            FlowAction::Finalize { embed, grace: CLEANUP_DELAY_SECS },
        ),
    }
}

/// What a step of an active poll asks for tells where the poll stands after it: it is over
/// exactly when the step announces or finalizes. Its id and its invoker never change.
pub proof fn lemma_step_outcomes(session: SessionView, event: EventView)
    requires
        session.phase == Phase::Active,
    ensures
        session.step(event).id == session.id,
        session.step(event).invoker == session.invoker,
        session.respond(event) is Announce <==> session.step(event).phase == Phase::AllReady,
        session.respond(event) is Finalize <==> session.step(event).phase == Phase::Expired,
{
}

} // verus!
