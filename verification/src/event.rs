//! What a subscriber of the interaction bus can be handed: an interaction of a user with a
//! control, a notice of the bus itself, or the expiry of the subscriber's own timer.

use vstd::prelude::*;

verus! {

/// What an interaction carries besides its id, by the kind of control it came from.
#[derive(Clone, Debug)]
pub enum Payload {
    /// A button was pressed.
    Button,
    /// Options of a menu of strings were chosen.
    Strings(Vec<String>),
    /// Users were chosen.
    Users(Vec<u64>),
    /// Roles were chosen.
    Roles(Vec<u64>),
    /// Users and roles were chosen from one menu, which tells only their ids.
    Mentionables(Vec<u64>),
    /// Channels were chosen.
    Channels(Vec<u64>),
    /// A kind of control that this library does not know, by the platform's number for it.
    Unknown(u8),
}

/// The mathematical value of a [`Payload`].
pub enum PayloadView {
    Button,
    Strings(Seq<Seq<char>>),
    Users(Seq<u64>),
    Roles(Seq<u64>),
    Mentionables(Seq<u64>),
    Channels(Seq<u64>),
    Unknown(u8),
}

/// The values of a list of strings.
pub open spec fn string_views(strings: Seq<String>) -> Seq<Seq<char>> {
    strings.map_values(|s: String| s@)
}

impl View for Payload {
    type V = PayloadView;

    open spec fn view(&self) -> PayloadView {
        match self {
            Payload::Button => PayloadView::Button,
            Payload::Strings(values) => PayloadView::Strings(string_views(values@)),
            Payload::Users(ids) => PayloadView::Users(ids@),
            Payload::Roles(ids) => PayloadView::Roles(ids@),
            Payload::Mentionables(ids) => PayloadView::Mentionables(ids@),
            Payload::Channels(ids) => PayloadView::Channels(ids@),
            Payload::Unknown(kind) => PayloadView::Unknown(*kind),
        }
    }
}

/// One interaction of a user with a control of a message.
#[derive(Clone, Debug)]
pub struct Interaction {
    /// The id that the control was created with.
    pub custom_id: String,
    /// Who interacted.
    pub user: u64,
    pub payload: Payload,
}

/// The mathematical value of an [`Interaction`].
pub struct InteractionView {
    pub custom_id: Seq<char>,
    pub user: u64,
    pub payload: PayloadView,
}

impl View for Interaction {
    type V = InteractionView;

    open spec fn view(&self) -> InteractionView {
        InteractionView { custom_id: self.custom_id@, user: self.user, payload: self.payload@ }
    }
}

/// What a wizard or a poll is woken with.
#[derive(Clone, Debug)]
pub enum Event {
    /// The bus delivered an interaction.
    Interaction(Interaction),
    /// The bus dropped this many interactions because the subscriber fell behind.
    Missed(u64),
    /// The bus has closed.
    Closed,
    /// The subscriber's deadline has passed.
    Deadline,
}

/// The mathematical value of an [`Event`].
pub enum EventView {
    Interaction(InteractionView),
    Missed(u64),
    Closed,
    Deadline,
}

impl View for Event {
    type V = EventView;

    open spec fn view(&self) -> EventView {
        match self {
            Event::Interaction(interaction) => EventView::Interaction(interaction@),
            Event::Missed(n) => EventView::Missed(*n),
            Event::Closed => EventView::Closed,
            Event::Deadline => EventView::Deadline,
        }
    }
}

} // verus!
