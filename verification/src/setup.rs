//! The setup wizard: it collects whom a poll asks and for how long, from the controls of a
//! form that only the invoking user sees, until the user submits or the time is up.

use crate::event::{string_views, Event, EventView, Interaction, Payload, PayloadView};
use crate::ids::{
    mention_control, mention_control_id, submit_control, submit_control_id, timeout_control,
    timeout_control_id,
};
use crate::text::{parse_decimal, parse_u64};
use serenity::client::Context;
use serenity::model::id::RoleId;
use vstd::prelude::*;

verus! {

/// How long a poll runs when the user does not choose, in seconds.
pub const DEFAULT_DURATION_SECS: u64 = 60;

/// How long the wizard waits for the user to submit, in seconds.
pub const SETUP_WINDOW_SECS: u64 = 60;

/// The fewest users and roles that the form lets the user pick.
pub const MIN_SELECTIONS: u8 = 1;

/// The most users and roles that the form lets the user pick.
pub const MAX_SELECTIONS: u8 = 25;

/// Where a wizard stands.
#[derive(Clone, Copy, Debug, PartialEq, Eq, Structural)]
pub enum SetupPhase {
    /// The form is open.
    AwaitingInput,
    /// The user submitted a selection.
    Submitted,
    /// The wizard gave up on what it was sent.
    Invalid,
    /// The time was up before the user submitted.
    TimedOut,
}

/// Why a wizard ended without a selection.
#[derive(Clone, Copy, Debug, PartialEq, Eq, Structural)]
pub enum SetupError {
    /// The user submitted with no user and no role selected.
    NoSelection,
    /// The time was up before the user submitted.
    TimedOut,
    /// The menu of users and roles sent something other than a list of them.
    BadSelection,
    /// The menu of durations sent something other than a number of seconds.
    BadDuration,
}

/// What the invoking user is told when a wizard ends without a selection.
pub open spec fn setup_error_text(e: SetupError) -> Seq<char> {
    match e {
        SetupError::NoSelection => "No users and/or roles selected."@,
        SetupError::TimedOut => "Readycheck setup time expired"@,
        SetupError::BadSelection => "Could not parse users/roles."@,
        SetupError::BadDuration => "Could not parse duration."@,
    }
}

impl SetupError {
    /// What the invoking user is told.
    pub fn message(&self) -> (text: &'static str)
        ensures
            text@ == setup_error_text(*self),
    {
        match self {
            SetupError::NoSelection => "No users and/or roles selected.",
            SetupError::TimedOut => "Readycheck setup time expired",
            SetupError::BadSelection => "Could not parse users/roles.",
            SetupError::BadDuration => "Could not parse duration.",
        }
    }
}

/// How a wizard ended.
#[derive(Clone, Debug)]
pub enum SetupResult {
    /// The poll is to run for `duration` seconds and ask `users` and the holders of `roles`.
    Valid { duration: u64, roles: Vec<u64>, users: Vec<u64> },
    /// No poll is to run.
    Invalid(SetupError),
}

/// The mathematical value of a [`SetupResult`].
pub enum SetupResultView {
    Valid { duration: u64, roles: Seq<u64>, users: Seq<u64> },
    Invalid(SetupError),
}

impl View for SetupResult {
    type V = SetupResultView;

    open spec fn view(&self) -> SetupResultView {
        match self {
            SetupResult::Valid { duration, roles, users } => SetupResultView::Valid {
                duration: *duration,
                roles: roles@,
                users: users@,
            },
            SetupResult::Invalid(e) => SetupResultView::Invalid(*e),
        }
    }
}

/// What a step of a wizard asks the caller to do.
#[derive(Clone, Debug)]
pub enum SetupAction {
    /// Nothing: the event is left to the other subscribers.
    Ignore,
    /// Acknowledge the interaction, without anything visible.
    Acknowledge,
    /// Close the form; the wizard is over with this result.
    Finish(SetupResult),
}

/// The mathematical value of a [`SetupAction`].
pub enum SetupActionView {
    Ignore,
    Acknowledge,
    Finish(SetupResultView),
}

impl View for SetupAction {
    type V = SetupActionView;

    open spec fn view(&self) -> SetupActionView {
        match self {
            SetupAction::Ignore => SetupActionView::Ignore,
            SetupAction::Acknowledge => SetupActionView::Acknowledge,
            SetupAction::Finish(result) => SetupActionView::Finish(result@),
        }
    }
}

/// Whether the id at `i` was found to be a role. An id without a finding counts as a user.
pub open spec fn is_known_role(known: Seq<bool>, i: int) -> bool {
    0 <= i < known.len() && known[i]
}

/// The ids that were found to be roles (`want`), or not to be (`!want`), in their order.
pub open spec fn picked(ids: Seq<u64>, known: Seq<bool>, want: bool) -> Seq<u64>
    decreases ids.len(),
{
    if ids.len() == 0 {
        Seq::<u64>::empty()
    } else {
        let rest = picked(ids.drop_last(), known, want);
        if is_known_role(known, ids.len() - 1) == want {
            rest.push(ids.last())
        } else {
            rest
        }
    }
}

/// The duration that the menu of durations sent: its first value, read as a number of
/// seconds.
pub open spec fn chosen_duration(payload: PayloadView) -> Option<u64> {
    match payload {
        PayloadView::Strings(values) => if values.len() > 0 {
            parse_decimal(values[0])
        } else {
            None
        },
        _ => None,
    }
}

/// The mathematical value of a [`SetupWizard`].
pub struct SetupView {
    /// The id of the invocation that opened the wizard, unique to it.
    pub id: u64,
    /// The duration chosen so far, in seconds.
    pub duration: u64,
    /// The roles selected so far.
    pub roles: Seq<u64>,
    /// The users selected so far.
    pub users: Seq<u64>,
    pub phase: SetupPhase,
}

impl SetupView {
    /// A wizard that has just opened its form.
    pub open spec fn initial(id: u64) -> SetupView {
        SetupView {
            id,
            duration: DEFAULT_DURATION_SECS,
            roles: Seq::<u64>::empty(),
            users: Seq::<u64>::empty(),
            phase: SetupPhase::AwaitingInput,
        }
    }

    /// What holds of every wizard: it has been submitted only with somebody selected.
    pub open spec fn valid(self) -> bool {
        self.phase == SetupPhase::Submitted ==> self.roles.len() + self.users.len() > 0
    }

    /// Whether the wizard has to tell roles from users to take the event: the form is open
    /// and the event is a selection from its menu of users and roles.
    pub open spec fn asks_cache(self, event: EventView) -> bool {
        &&& self.phase == SetupPhase::AwaitingInput
        &&& event matches EventView::Interaction(interaction)
        &&& interaction.custom_id == mention_control_id(self.id)
        &&& interaction.payload is Mentionables
    }

    /// The wizard after an event, and what it asks the caller to do. `known` says of each
    /// selected id whether it was found to be a role.
    pub open spec fn react(self, event: EventView, known: Seq<bool>) -> (
        SetupView,
        SetupActionView,
    ) {
        if self.phase != SetupPhase::AwaitingInput {
            (self, SetupActionView::Ignore)
        } else {
            match event {
                EventView::Deadline => (
                    SetupView { phase: SetupPhase::TimedOut, ..self },
                    SetupActionView::Finish(SetupResultView::Invalid(SetupError::TimedOut)),
                ),
                EventView::Missed(_) => (self, SetupActionView::Ignore),
                EventView::Closed => (self, SetupActionView::Ignore),
                EventView::Interaction(interaction) => {
                    if interaction.custom_id == mention_control_id(self.id) {
                        match interaction.payload {
                            PayloadView::Mentionables(ids) => (
                                SetupView {
                                    roles: picked(ids, known, true),
                                    users: picked(ids, known, false),
                                    ..self
                                },
                                SetupActionView::Acknowledge,
                            ),
                            _ => self.fail(SetupError::BadSelection),
                        }
                    } else if interaction.custom_id == timeout_control_id(self.id) {
                        match chosen_duration(interaction.payload) {
                            Some(duration) => (
                                SetupView { duration, ..self },
                                SetupActionView::Acknowledge,
                            ),
                            None => self.fail(SetupError::BadDuration),
                        }
                    } else if interaction.custom_id == submit_control_id(self.id) {
                        if self.roles.len() == 0 && self.users.len() == 0 {
                            self.fail(SetupError::NoSelection)
                        } else {
                            (
                                SetupView { phase: SetupPhase::Submitted, ..self },
                                SetupActionView::Finish(
                                    SetupResultView::Valid {
                                        duration: self.duration,
                                        roles: self.roles,
                                        users: self.users,
                                    },
                                ),
                            )
                        }
                    } else {
                        (self, SetupActionView::Ignore)
                    }
                },
            }
        }
    }

    /// The wizard gives up with `error`.
    pub open spec fn fail(self, error: SetupError) -> (SetupView, SetupActionView) {
        (
            SetupView { phase: SetupPhase::Invalid, ..self },
            SetupActionView::Finish(SetupResultView::Invalid(error)),
        )
    }
}

/// serenity's `RoleId::to_role_cached`, which looks the role up in the guilds that the
/// client's cache holds at this moment. Nothing is promised of the answer: the cache changes
/// with what the gateway has sent. `RoleId::new` panics on zero, which the precondition
/// leaves out.
#[allow(deprecated)]
#[verifier::external_body]
fn role_is_cached(ctx: &Context, id: u64) -> (known: bool)
    requires
        id != 0,
{
    RoleId::new(id).to_role_cached(ctx).is_some()
}

/// Sorts `ids` into roles and users by the findings in `known`.
pub fn partition_mentionables(ids: &Vec<u64>, known: &Vec<bool>) -> (sorted: (Vec<u64>, Vec<u64>))
    ensures
        sorted.0@ == picked(ids@, known@, true),
        sorted.1@ == picked(ids@, known@, false),
{
    let mut roles: Vec<u64> = Vec::new();
    let mut users: Vec<u64> = Vec::new();
    let mut i: usize = 0;
    assert(ids@.take(0) =~= Seq::<u64>::empty());
    while i < ids.len()
        invariant
            i <= ids.len(),
            roles@ == picked(ids@.take(i as int), known@, true),
            users@ == picked(ids@.take(i as int), known@, false),
        decreases ids.len() - i,
    {
        let is_role = i < known.len() && known[i];
        proof {
            assert(ids@.take(i + 1).drop_last() =~= ids@.take(i as int));
        }
        if is_role {
            roles.push(ids[i]);
        } else {
            users.push(ids[i]);
        }
        i += 1;
    }
    assert(ids@.take(ids.len() as int) =~= ids@);
    (roles, users)
}

/// What findings on `ids` can be: there is one for each id, and the id 0 is never found to
/// be a role.
pub open spec fn findings_on(ids: Seq<u64>, known: Seq<bool>) -> bool {
    &&& known.len() == ids.len()
    &&& forall|i: int| 0 <= i < ids.len() && #[trigger] known[i] ==> ids[i] != 0
}

/// The ids that an event selects from a menu of users and roles.
pub open spec fn selected_ids(event: EventView) -> Seq<u64> {
    match event {
        EventView::Interaction(interaction) => match interaction.payload {
            PayloadView::Mentionables(ids) => ids,
            _ => Seq::<u64>::empty(),
        },
        _ => Seq::<u64>::empty(),
    }
}

/// Asks the cache of each id whether it is a role. The id 0 is never one. This is a best
/// effort: a role that the cache does not hold yet is taken for a user.
pub fn probe_roles(ctx: &Context, ids: &Vec<u64>) -> (known: Vec<bool>)
    ensures
        findings_on(ids@, known@),
{
    let mut known: Vec<bool> = Vec::new();
    let mut i: usize = 0;
    while i < ids.len()
        invariant
            i <= ids.len(),
            known@.len() == i,
            forall|k: int| 0 <= k < i && #[trigger] known@[k] ==> ids@[k] != 0,
        decreases ids.len() - i,
    {
        let id = ids[i];
        let is_role = if id == 0 {
            false
        } else {
            role_is_cached(ctx, id)
        };
        known.push(is_role);
        i += 1;
    }
    known
}

/// The duration that the menu of durations sent.
fn read_duration(payload: &Payload) -> (duration: Option<u64>)
    ensures
        duration == chosen_duration(payload@),
{
    match payload {
        Payload::Strings(values) => {
            if values.len() > 0 {
                assert(string_views(values@)[0] == values@[0]@);
                parse_u64(values[0].as_str())
            } else {
                None
            }
        },
        _ => None,
    }
}

/// One running setup wizard.
#[derive(Debug)]
pub struct SetupWizard {
    id: u64,
    mention_id: String,
    timeout_id: String,
    submit_id: String,
    duration: u64,
    roles: Vec<u64>,
    users: Vec<u64>,
    phase: SetupPhase,
}

impl View for SetupWizard {
    type V = SetupView;

    closed spec fn view(&self) -> SetupView {
        SetupView {
            id: self.id,
            duration: self.duration,
            roles: self.roles@,
            users: self.users@,
            phase: self.phase,
        }
    }
}

impl SetupWizard {
    /// The invariant of a wizard, which holds of every wizard there is.
    #[verifier::type_invariant]
    spec fn wf(&self) -> bool {
        &&& self@.valid()
        &&& self.mention_id@ == mention_control_id(self.id)
        &&& self.timeout_id@ == timeout_control_id(self.id)
        &&& self.submit_id@ == submit_control_id(self.id)
    }

    /// Opens a wizard for the invocation `id`: nobody selected, the default duration.
    pub fn new(id: u64) -> (wizard: SetupWizard)
        ensures
            wizard@ == SetupView::initial(id),
    {
        SetupWizard {
            id,
            mention_id: mention_control(id),
            timeout_id: timeout_control(id),
            submit_id: submit_control(id),
            duration: DEFAULT_DURATION_SECS,
            roles: Vec::new(),
            users: Vec::new(),
            phase: SetupPhase::AwaitingInput,
        }
    }

    /// The id of the invocation that opened the wizard.
    pub fn id(&self) -> (id: u64)
        ensures
            id == self@.id,
    {
        self.id
    }

    /// Where the wizard stands.
    pub fn phase(&self) -> (phase: SetupPhase)
        ensures
            phase == self@.phase,
    {
        self.phase
    }

    /// The duration chosen so far, in seconds.
    pub fn duration(&self) -> (duration: u64)
        ensures
            duration == self@.duration,
    {
        self.duration
    }

    /// The roles selected so far.
    pub fn roles(&self) -> (roles: &Vec<u64>)
        ensures
            roles@ == self@.roles,
    {
        &self.roles
    }

    /// The users selected so far.
    pub fn users(&self) -> (users: &Vec<u64>)
        ensures
            users@ == self@.users,
    {
        &self.users
    }

    /// Ends the wizard with `error`.
    fn give_up(&mut self, error: SetupError) -> (action: SetupAction)
        ensures
            (final(self)@, action@) == old(self)@.fail(error),
    {
        proof {
            use_type_invariant(&*self);
        }
        self.phase = SetupPhase::Invalid;
        SetupAction::Finish(SetupResult::Invalid(error))
    }

    /// Takes one event, with what is known of the ids that it selects, and says what the
    /// caller is to do about it.
    ///
    /// Only a wizard whose form is open reacts. A selection from the menu of users and roles
    /// replaces what was selected before; a choice from the menu of durations replaces the
    /// duration; the submit button ends the wizard, with the selection if there is one; the
    /// deadline ends it without. An interaction with another control is left alone.
    pub fn step_classified(&mut self, event: &Event, known: &Vec<bool>) -> (action: SetupAction)
        ensures
            (final(self)@, action@) == old(self)@.react(event@, known@),
            old(self)@.valid(),
            final(self)@.valid(),
    {
        proof {
            use_type_invariant(&*self);
        }
        if self.phase != SetupPhase::AwaitingInput {
            return SetupAction::Ignore;
        }
        match event {
            Event::Deadline => {
                self.phase = SetupPhase::TimedOut;
                SetupAction::Finish(SetupResult::Invalid(SetupError::TimedOut))
            },
            Event::Missed(_) => SetupAction::Ignore,
            Event::Closed => SetupAction::Ignore,
            Event::Interaction(interaction) => {
                if interaction.custom_id == self.mention_id {
                    match &interaction.payload {
                        Payload::Mentionables(ids) => {
                            let (roles, users) = partition_mentionables(ids, known);
                            self.roles = roles;
                            self.users = users;
                            SetupAction::Acknowledge
                        },
                        _ => self.give_up(SetupError::BadSelection),
                    }
                } else if interaction.custom_id == self.timeout_id {
                    match read_duration(&interaction.payload) {
                        Some(duration) => {
                            self.duration = duration;
                            SetupAction::Acknowledge
                        },
                        None => self.give_up(SetupError::BadDuration),
                    }
                } else if interaction.custom_id == self.submit_id {
                    if self.roles.len() == 0 && self.users.len() == 0 {
                        self.give_up(SetupError::NoSelection)
                    } else {
                        self.phase = SetupPhase::Submitted;
                        SetupAction::Finish(
                            SetupResult::Valid {
                                duration: self.duration,
                                roles: self.roles.clone(),
                                users: self.users.clone(),
                            },
                        )
                    }
                } else {
                    SetupAction::Ignore
                }
            },
        }
    }

    /// The ids that `event` selects, where the wizard has to tell roles from users among them
    /// to take the event.
    pub fn pending_selection<'a>(&self, event: &'a Event) -> (needed: Option<&'a Vec<u64>>)
        ensures
            match needed {
                Some(ids) => {
                    &&& self@.asks_cache(event@)
                    &&& event@ matches EventView::Interaction(i)
                    &&& i.payload == PayloadView::Mentionables(ids@)
                },
                None => !self@.asks_cache(event@),
            },
    {
        proof {
            use_type_invariant(self);
        }
        if self.phase != SetupPhase::AwaitingInput {
            return None;
        }
        match event {
            Event::Interaction(interaction) => {
                if interaction.custom_id == self.mention_id {
                    match &interaction.payload {
                        Payload::Mentionables(ids) => Some(ids),
                        _ => None,
                    }
                } else {
                    None
                }
            },
            _ => None,
        }
    }

    /// Takes one event, and says what the caller is to do about it. Where the event is a
    /// selection from the menu of users and roles, the cache of `ctx` tells which of the
    /// selected ids are roles: an id that it knows as a role is one, every other is a user.
    ///
    /// The wizard reacts as [`SetupWizard::step_classified`] does with the findings of the
    /// cache. No other event depends on them.
    pub fn step(&mut self, ctx: &Context, event: &Event) -> (action: SetupAction)
        ensures
            old(self)@.valid(),
            final(self)@.valid(),
            old(self)@.asks_cache(event@) ==> exists|known: Seq<bool>| #[trigger]
                findings_on(selected_ids(event@), known) && (final(self)@, action@) == old(
                    self,
                )@.react(event@, known),
            !old(self)@.asks_cache(event@) ==> (final(self)@, action@) == old(self)@.react(
                event@,
                Seq::<bool>::empty(),
            ),
    {
        let known = match self.pending_selection(event) {
            Some(ids) => probe_roles(ctx, ids),
            None => Vec::new(),
        };
        let action = self.step_classified(event, &known);
        assert(old(self)@.asks_cache(event@) ==> findings_on(selected_ids(event@), known@));
        action
    }
}

} // verus!
