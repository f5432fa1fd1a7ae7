//! The poll itself: it owns the roster, takes the answers of its participants from the
//! interactions that are addressed to it, and ends when everyone is ready or when its
//! deadline passes. The caller waits for the events and performs what each step asks for.
//!
//! The roster is fixed when the poll opens. Who leaves the guild afterwards stays on it, and
//! counts as not ready at the deadline unless they have answered.

use crate::event::{Event, EventView, InteractionView};
use crate::ids::{pressed_button, read_button, session_prefix, session_prefix_string};
use crate::mention::{mention_user, user_mention};
use crate::render::{create_embed, embed_of, Embed, EmbedView};
use crate::roster::{
    participant_views, Participant, ParticipantView, Roster, MAX_PARTICIPANTS,
};
use crate::status::ReadyState;
use vstd::prelude::*;
use vstd::string::*;

verus! {

/// Where a poll stands.
#[derive(Clone, Copy, Debug, PartialEq, Eq, Structural)]
pub enum Phase {
    /// The poll takes answers.
    Active,
    /// Every participant has answered "ready"; the poll is over.
    AllReady,
    /// The deadline passed before everyone was ready; the poll is over.
    Expired,
}

/// Whether every participant has answered "ready".
pub open spec fn all_ready(ps: Seq<ParticipantView>) -> bool {
    forall|i: int| 0 <= i < ps.len() ==> (#[trigger] ps[i]).status == ReadyState::Ready
}

/// Whether every participant has an answer.
pub open spec fn none_unknown(ps: Seq<ParticipantView>) -> bool {
    forall|i: int| 0 <= i < ps.len() ==> (#[trigger] ps[i]).status != ReadyState::Unknown
}

/// A participant at the deadline: who has not answered counts as not ready.
pub open spec fn settle(p: ParticipantView) -> ParticipantView {
    if p.status == ReadyState::Unknown {
        ParticipantView { status: ReadyState::NotReady, ..p }
    } else {
        p
    }
}

/// The roster at the deadline.
pub open spec fn settled(ps: Seq<ParticipantView>) -> Seq<ParticipantView> {
    ps.map_values(|p: ParticipantView| settle(p))
}

/// Whether `user` is one of the participants.
pub open spec fn is_participant(ps: Seq<ParticipantView>, user: u64) -> bool {
    exists|i: int| 0 <= i < ps.len() && (#[trigger] ps[i]).id == user
}

/// Whether `seat` is the first place in the roster that `user` holds.
pub open spec fn is_seat_of(ps: Seq<ParticipantView>, user: u64, seat: int) -> bool {
    &&& 0 <= seat < ps.len()
    &&& ps[seat].id == user
    &&& forall|k: int| 0 <= k < seat ==> (#[trigger] ps[k]).id != user
}

/// The first place in the roster that `user` holds, where they are a participant.
pub open spec fn seat_of(ps: Seq<ParticipantView>, user: u64) -> int {
    choose|seat: int| is_seat_of(ps, user, seat)
}

/// The roster after the participant at `seat` has answered `status`.
pub open spec fn answered(ps: Seq<ParticipantView>, seat: int, status: ReadyState) -> Seq<
    ParticipantView,
> {
    ps.update(seat, ParticipantView { status, ..ps[seat] })
}

/// What an interaction means to a poll.
pub enum Press {
    /// It is not addressed to this poll, or to none of its buttons.
    Foreign,
    /// One of the poll's buttons was pressed by somebody the poll does not ask.
    Outsider,
    /// The participant at `seat` answers `status`.
    Answer { seat: int, status: ReadyState },
}

/// What the private reply to an outsider says.
pub open spec fn outsider_reply() -> Seq<char> {
    "This readycheck is not for you!"@
}

/// What the public announcement says when everyone is ready: it mentions the invoker.
pub open spec fn announcement(invoker: u64) -> Seq<char> {
    user_mention(invoker) + ", everyone is ready!"@
}

/// What a step of a poll asks the caller to do.
#[derive(Clone, Debug)]
pub enum SessionAction {
    /// Nothing.
    Ignore,
    /// Answer the interaction with `reply`, visible to its user only. The poll goes on
    /// without waiting for that.
    Reject { reply: String },
    /// Acknowledge the interaction silently and show `embed` in the status message, in place.
    Refresh { embed: Embed },
    /// Acknowledge the interaction silently and post `text` in the channel. The poll is over
    /// and the status message stays as it is.
    Announce { text: String },
    /// Show `embed` in the status message and take its buttons away. The poll is over.
    Finalize { embed: Embed },
}

/// The mathematical value of a [`SessionAction`].
pub enum SessionActionView {
    Ignore,
    Reject { reply: Seq<char> },
    Refresh { embed: EmbedView },
    Announce { text: Seq<char> },
    Finalize { embed: EmbedView },
}

impl View for SessionAction {
    type V = SessionActionView;

    open spec fn view(&self) -> SessionActionView {
        match self {
            SessionAction::Ignore => SessionActionView::Ignore,
            SessionAction::Reject { reply } => SessionActionView::Reject { reply: reply@ },
            SessionAction::Refresh { embed } => SessionActionView::Refresh { embed: embed@ },
            SessionAction::Announce { text } => SessionActionView::Announce { text: text@ },
            SessionAction::Finalize { embed } => SessionActionView::Finalize { embed: embed@ },
        }
    }
}

/// The mathematical value of a [`Session`].
pub struct SessionView {
    /// The id of the invocation that started the poll, unique to it.
    pub id: u64,
    /// Who started the poll.
    pub invoker: u64,
    pub participants: Seq<ParticipantView>,
    pub phase: Phase,
}

impl SessionView {
    /// The poll that has just been opened for a roster.
    pub open spec fn opened(id: u64, invoker: u64, roster: Seq<ParticipantView>) -> SessionView {
        SessionView { id, invoker, participants: roster, phase: Phase::Active }
    }

    /// What holds of every poll: it asks between one and [`MAX_PARTICIPANTS`] people, it is
    /// all-ready only with everyone ready, and expired only with everyone's answer settled.
    pub open spec fn valid(self) -> bool {
        &&& 1 <= self.participants.len() <= MAX_PARTICIPANTS
        &&& self.phase == Phase::AllReady ==> all_ready(self.participants)
        &&& self.phase == Phase::Expired ==> none_unknown(self.participants)
    }

    /// What an interaction means to this poll.
    pub open spec fn read(self, interaction: InteractionView) -> Press {
        match pressed_button(session_prefix(self.id), interaction.custom_id) {
            None => Press::Foreign,
            Some(status) => if is_participant(self.participants, interaction.user) {
                Press::Answer { seat: seat_of(self.participants, interaction.user), status }
            } else {
                Press::Outsider
            },
        }
    }

    /// The poll after an event.
    pub open spec fn step(self, event: EventView) -> SessionView {
        if self.phase != Phase::Active {
            self
        } else {
            match event {
                EventView::Deadline => SessionView {
                    participants: settled(self.participants),
                    phase: Phase::Expired,
                    ..self
                },
                EventView::Missed(_) => self,
                EventView::Closed => self,
                EventView::Interaction(interaction) => match self.read(interaction) {
                    Press::Answer { seat, status } => {
                        let participants = answered(self.participants, seat, status);
                        SessionView {
                            participants,
                            phase: if all_ready(participants) {
                                Phase::AllReady
                            } else {
                                Phase::Active
                            },
                            ..self
                        }
                    },
                    Press::Outsider => self,
                    Press::Foreign => self,
                },
            }
        }
    }

    /// What the poll asks the caller to do on an event.
    pub open spec fn respond(self, event: EventView) -> SessionActionView {
        if self.phase != Phase::Active {
            SessionActionView::Ignore
        } else {
            match event {
                EventView::Deadline => SessionActionView::Finalize {
                    embed: embed_of(settled(self.participants), true),
                },
                EventView::Missed(_) => SessionActionView::Ignore,
                EventView::Closed => SessionActionView::Ignore,
                EventView::Interaction(interaction) => match self.read(interaction) {
                    Press::Answer { seat, status } => {
                        let participants = answered(self.participants, seat, status);
                        if all_ready(participants) {
                            SessionActionView::Announce { text: announcement(self.invoker) }
                        } else {
                            SessionActionView::Refresh { embed: embed_of(participants, false) }
                        }
                    },
                    Press::Outsider => SessionActionView::Reject { reply: outsider_reply() },
                    Press::Foreign => SessionActionView::Ignore,
                },
            }
        }
    }
}

/// A seat is the only first place of its holder.
pub proof fn lemma_seat_unique(ps: Seq<ParticipantView>, user: u64, seat: int)
    requires
        is_seat_of(ps, user, seat),
    ensures
        is_participant(ps, user),
        seat_of(ps, user) == seat,
{
    let chosen = seat_of(ps, user);
    assert(is_seat_of(ps, user, chosen));
    if chosen < seat {
        assert(ps[chosen].id != user);
    }
    if seat < chosen {
        assert(ps[seat].id != user);
    }
}

/// One running readiness poll.
#[derive(Debug)]
pub struct Session {
    id: u64,
    invoker: u64,
    prefix: String,
    participants: Vec<Participant>,
    phase: Phase,
}

impl View for Session {
    type V = SessionView;

    closed spec fn view(&self) -> SessionView {
        SessionView {
            id: self.id,
            invoker: self.invoker,
            participants: participant_views(self.participants@),
            phase: self.phase,
        }
    }
}

/// The first place in the roster that `user` holds.
fn find_seat(participants: &Vec<Participant>, user: u64) -> (found: Option<usize>)
    ensures
        match found {
            Some(seat) => is_seat_of(participant_views(participants@), user, seat as int),
            None => !is_participant(participant_views(participants@), user),
        },
{
    let mut i: usize = 0;
    while i < participants.len()
        invariant
            i <= participants.len(),
            forall|k: int| 0 <= k < i ==> (#[trigger] participant_views(participants@)[k]).id != user,
        decreases participants.len() - i,
    {
        if participants[i].id == user {
            return Some(i);
        }
        i += 1;
    }
    None
}

/// Whether every participant has answered "ready".
fn everyone_ready(participants: &Vec<Participant>) -> (ready: bool)
    ensures
        ready == all_ready(participant_views(participants@)),
{
    let mut i: usize = 0;
    while i < participants.len()
        invariant
            i <= participants.len(),
            forall|k: int| 0 <= k < i ==> (#[trigger] participant_views(participants@)[k]).status
                == ReadyState::Ready,
        decreases participants.len() - i,
    {
        if participants[i].status != ReadyState::Ready {
            assert(participant_views(participants@)[i as int].status != ReadyState::Ready);
            return false;
        }
        i += 1;
    }
    true
}

impl Session {
    /// The invariant of a poll, which holds of every poll there is.
    #[verifier::type_invariant]
    spec fn wf(&self) -> bool {
        self@.valid() && self.prefix@ == session_prefix(self.id)
    }

    /// Starts a poll for `roster`. `id` is the id of the invocation, by which the poll's
    /// buttons are told from those of every other poll.
    pub fn open(id: u64, invoker: u64, roster: Roster) -> (session: Session)
        ensures
            session@ == SessionView::opened(id, invoker, roster@),
            session@.valid(),
    {
        let prefix = session_prefix_string(id);
        let participants = roster.into_participants();
        Session { id, invoker, prefix, participants, phase: Phase::Active }
    }

    /// The id of the invocation that started the poll.
    pub fn id(&self) -> (id: u64)
        ensures
            id == self@.id,
    {
        self.id
    }

    /// Who started the poll.
    pub fn invoker(&self) -> (invoker: u64)
        ensures
            invoker == self@.invoker,
    {
        self.invoker
    }

    /// Where the poll stands.
    pub fn phase(&self) -> (phase: Phase)
        ensures
            phase == self@.phase,
    {
        self.phase
    }

    /// The participants with their answers, in roster order.
    pub fn participants(&self) -> (participants: &Vec<Participant>)
        ensures
            participant_views(participants@) == self@.participants,
    {
        &self.participants
    }

    /// The namespace of the poll's buttons.
    pub fn interaction_prefix(&self) -> (prefix: &String)
        ensures
            prefix@ == session_prefix(self@.id),
    {
        proof {
            use_type_invariant(self);
        }
        &self.prefix
    }

    /// The summary of the poll as it stands: muted once the poll has expired.
    pub fn render(&self) -> (embed: Embed)
        ensures
            embed@ == embed_of(self@.participants, self@.phase == Phase::Expired),
    {
        create_embed(&self.participants, self.phase == Phase::Expired)
    }

    /// Counts everyone who has not answered as not ready.
    fn settle_all(&mut self)
        requires
            old(self).phase == Phase::Active,
        ensures
            final(self).id == old(self).id,
            final(self).invoker == old(self).invoker,
            final(self).prefix == old(self).prefix,
            final(self).phase == Phase::Active,
            participant_views(final(self).participants@) == settled(
                participant_views(old(self).participants@),
            ),
    {
        proof {
            use_type_invariant(&*self);
        }
        let mut i: usize = 0;
        while i < self.participants.len()
            invariant
                i <= self.participants.len(),
                self.id == old(self).id,
                self.invoker == old(self).invoker,
                self.prefix == old(self).prefix,
                self.phase == Phase::Active,
                self.prefix@ == session_prefix(self.id),
                self.participants.len() == old(self).participants.len(),
                1 <= self.participants.len() <= MAX_PARTICIPANTS,
                forall|k: int|
                    0 <= k < i ==> (#[trigger] self.participants@[k])@ == settle(
                        old(self).participants@[k]@,
                    ),
                forall|k: int|
                    i <= k < self.participants.len() ==> (#[trigger] self.participants@[k])@ == old(
                        self,
                    ).participants@[k]@,
            decreases self.participants.len() - i,
        {
            if self.participants[i].status == ReadyState::Unknown {
                let settled_one = Participant {
                    id: self.participants[i].id,
                    display_name: self.participants[i].display_name.clone(),
                    status: ReadyState::NotReady,
                };
                self.participants[i] = settled_one;
            }
            i += 1;
        }
        assert(participant_views(self.participants@) =~= settled(
            participant_views(old(self).participants@),
        ));
    }

    /// Takes one event, and says what the caller is to do about it.
    ///
    /// Only an active poll reacts. A press of one of its buttons by a participant records
    /// the answer, and ends the poll where it makes everyone ready; a press by anybody else
    /// is rejected; the deadline ends the poll and settles the answers. Everything else
    /// leaves the poll as it is.
    pub fn step(&mut self, event: &Event) -> (action: SessionAction)
        ensures
            final(self)@ == old(self)@.step(event@),
            action@ == old(self)@.respond(event@),
            old(self)@.valid(),
            final(self)@.valid(),
    {
        proof {
            use_type_invariant(&*self);
        }
        if self.phase != Phase::Active {
            return SessionAction::Ignore;
        }
        match event {
            Event::Deadline => {
                self.settle_all();
                self.phase = Phase::Expired;
                let embed = create_embed(&self.participants, true);
                SessionAction::Finalize { embed }
            },
            Event::Missed(_) => SessionAction::Ignore,
            Event::Closed => SessionAction::Ignore,
            Event::Interaction(interaction) => {
                match read_button(self.prefix.as_str(), interaction.custom_id.as_str()) {
                    None => SessionAction::Ignore,
                    Some(status) => match find_seat(&self.participants, interaction.user) {
                        None => SessionAction::Reject {
                            reply: "This readycheck is not for you!".to_string(),
                        },
                        Some(seat) => {
                            proof {
                                lemma_seat_unique(
                                    participant_views(self.participants@),
                                    interaction.user,
                                    seat as int,
                                );
                            }
                            let answer = Participant {
                                id: self.participants[seat].id,
                                display_name: self.participants[seat].display_name.clone(),
                                status,
                            };
                            self.participants[seat] = answer;
                            assert(participant_views(self.participants@) =~= answered(
                                participant_views(old(self).participants@),
                                seat as int,
                                status,
                            ));
                            if everyone_ready(&self.participants) {
                                self.phase = Phase::AllReady;
                                let mut text = mention_user(self.invoker);
                                text.append(", everyone is ready!");
                                SessionAction::Announce { text }
                            } else {
                                let embed = create_embed(&self.participants, false);
                                SessionAction::Refresh { embed }
                            }
                        },
                    },
                }
            },
        }
    }
}

/// Every participant has a first seat.
pub proof fn lemma_participant_has_seat(ps: Seq<ParticipantView>, user: u64)
    requires
        is_participant(ps, user),
    ensures
        is_seat_of(ps, user, seat_of(ps, user)),
{
    let i = choose|i: int| 0 <= i < ps.len() && (#[trigger] ps[i]).id == user;
    lemma_first_seat_exists(ps, user, i);
}

/// A step ends a poll as all-ready only with everyone ready, and as expired only with
/// everyone's answer settled.
pub proof fn lemma_step_settles(session: SessionView, event: EventView)
    requires
        session.phase == Phase::AllReady ==> all_ready(session.participants),
        session.phase == Phase::Expired ==> none_unknown(session.participants),
    ensures
        session.step(event).phase == Phase::AllReady ==> all_ready(session.step(event).participants),
        session.step(event).phase == Phase::Expired ==> none_unknown(
            session.step(event).participants,
        ),
{
}

/// Answering does not move anybody: who held which seat before holds it after.
pub proof fn lemma_answer_keeps_seats(
    ps: Seq<ParticipantView>,
    seat: int,
    status: ReadyState,
    user: u64,
)
    requires
        0 <= seat < ps.len(),
    ensures
        is_participant(answered(ps, seat, status), user) == is_participant(ps, user),
        is_participant(ps, user) ==> seat_of(answered(ps, seat, status), user) == seat_of(ps, user),
{
    let after = answered(ps, seat, status);
    if is_participant(ps, user) {
        lemma_participant_has_seat(ps, user);
        let s = seat_of(ps, user);
        assert(is_seat_of(ps, user, s));
        assert(after[s].id == user);
        assert forall|k: int| 0 <= k < s implies (#[trigger] after[k]).id != user by {
            assert(ps[k].id != user);
        }
        assert(is_seat_of(after, user, s));
        lemma_seat_unique(after, user, s);
    }
    if is_participant(after, user) {
        let i = choose|i: int| 0 <= i < after.len() && (#[trigger] after[i]).id == user;
        assert(ps[i].id == user);
    }
}

/// Whoever holds a place in the roster has a first seat, at that place or before it.
pub proof fn lemma_first_seat_exists(ps: Seq<ParticipantView>, user: u64, i: int)
    requires
        0 <= i < ps.len(),
        ps[i].id == user,
    ensures
        is_participant(ps, user),
        is_seat_of(ps, user, seat_of(ps, user)),
        seat_of(ps, user) <= i,
    decreases i,
{
    if exists|k: int| 0 <= k < i && (#[trigger] ps[k]).id == user {
        let k = choose|k: int| 0 <= k < i && (#[trigger] ps[k]).id == user;
        lemma_first_seat_exists(ps, user, k);
    } else {
        assert(is_seat_of(ps, user, i));
        lemma_seat_unique(ps, user, i);
    }
}

} // verus!
