//! The interaction bus: one broadcast channel for the whole process, which hands every
//! interaction with a control to every wizard and poll that has subscribed. Each of them
//! picks out its own by the ids in [`crate::ids`].

use serenity::client::Context;
use serenity::model::application::ComponentInteraction;
use tokio::sync::broadcast::{channel, Receiver, Sender};
use vstd::prelude::*;

verus! {

/// serenity's `Context`, by which an event can be answered. It is carried through as it is.
#[verifier::external_type_specification]
#[verifier::external_body]
pub struct ExContext(Context);

/// serenity's `ComponentInteraction`, an interaction as the gateway delivers it. It is
/// carried through as it is.
#[verifier::external_type_specification]
#[verifier::external_body]
pub struct ExComponentInteraction(ComponentInteraction);

/// tokio's `broadcast::Sender`, the sending half of a broadcast channel.
#[verifier::external_type_specification]
#[verifier::external_body]
#[verifier::reject_recursive_types(T)]
pub struct ExSender<T>(Sender<T>);

/// tokio's `broadcast::Receiver`, one subscription to a broadcast channel.
#[verifier::external_type_specification]
#[verifier::external_body]
#[verifier::reject_recursive_types(T)]
pub struct ExReceiver<T>(Receiver<T>);

/// How many interactions the bus keeps for a subscriber that has fallen behind. Older ones
/// are dropped, and the subscriber is told how many it missed.
pub const BUS_CAPACITY: usize = 16;

/// The room that a channel was asked to have when it was opened: the number of values it
/// keeps for a receiver that has fallen behind. This is the limit that was asked for; the
/// channel may allocate more.
pub uninterp spec fn bus_room(sender: Sender<(Context, ComponentInteraction)>) -> nat;

/// Whether a receiver is a subscription to the channel of this sender: it was made from the
/// state that the sender shares with its receivers, and so is handed what this sender sends.
pub uninterp spec fn listens_to(
    receiver: Receiver<(Context, ComponentInteraction)>,
    sender: Sender<(Context, ComponentInteraction)>,
) -> bool;

/// tokio's `broadcast::channel`, of which only the sending half is kept: receivers come
/// from `subscribe`. The channel is made with the room that is asked for. The call panics
/// on a capacity of zero or of more than `usize::MAX / 2`, which the precondition leaves
/// out.
#[verifier::external_body]
fn open_channel(capacity: usize) -> (sender: Sender<(Context, ComponentInteraction)>)
    requires
        0 < capacity <= usize::MAX / 2,
    ensures
        bus_room(sender) == capacity,
{
    channel(capacity).0
}

/// tokio's `Sender::subscribe`: a new receiver on the channel of this sender, which sees
/// what is sent from now on.
#[verifier::external_body]
fn new_receiver(sender: &Sender<(Context, ComponentInteraction)>) -> (receiver: Receiver<
    (Context, ComponentInteraction),
>)
    ensures
        listens_to(receiver, *sender),
{
    sender.subscribe()
}

/// tokio's `Sender::send`. It returns at once. With no receiver subscribed the value is
/// dropped, and the call says so by an error, here `None`; else it tells how many receivers
/// are subscribed, which is one at least.
#[verifier::external_body]
fn send_to_all(
    sender: &Sender<(Context, ComponentInteraction)>,
    value: (Context, ComponentInteraction),
) -> (receivers: Option<usize>)
    ensures
        receivers matches Some(n) ==> n >= 1,
{
    sender.send(value).ok()
}

/// The broadcast channel of interactions: what is published goes to every subscriber, not
/// to one of them. Each interaction travels with the context to answer it in.
pub struct Bus {
    sender: Sender<(Context, ComponentInteraction)>,
}

impl Bus {
    /// The room that the bus was opened with: how many interactions it keeps for a
    /// subscriber that has fallen behind.
    pub closed spec fn room(&self) -> nat {
        bus_room(self.sender)
    }

    /// Whether `receiver` is a subscription to this bus.
    pub closed spec fn hears(&self, receiver: Receiver<(Context, ComponentInteraction)>) -> bool {
        listens_to(receiver, self.sender)
    }

    /// Opens a bus with room for [`BUS_CAPACITY`] interactions and no subscriber yet.
    pub fn new() -> (bus: Bus)
        ensures
            bus.room() == BUS_CAPACITY,
    {
        Bus { sender: open_channel(BUS_CAPACITY) }
    }

    /// Subscribes to the bus: the receiver is a new subscription to this bus, and is handed
    /// every interaction that is published from now on, whoever else receives it.
    pub fn subscribe(&self) -> (receiver: Receiver<(Context, ComponentInteraction)>)
        ensures
            self.hears(receiver),
    {
        new_receiver(&self.sender)
    }

    /// Publishes an interaction to every subscriber, without waiting for any of them. Says
    /// how many subscribers there are, or `None` where there is none and the interaction is
    /// lost.
    pub fn publish(&self, value: (Context, ComponentInteraction)) -> (receivers: Option<usize>)
        ensures
            receivers matches Some(n) ==> n >= 1,
    {
        send_to_all(&self.sender, value)
    }
}

/// The owner of the interaction bus of the process.
pub struct Handler {
    component_interactions: Bus,
}

impl Handler {
    /// The room of the handler's bus.
    pub closed spec fn room(&self) -> nat {
        self.component_interactions.room()
    }

    /// Whether `receiver` is a subscription to the handler's bus.
    pub closed spec fn hears(&self, receiver: Receiver<(Context, ComponentInteraction)>) -> bool {
        self.component_interactions.hears(receiver)
    }

    /// Opens the interaction bus, with room for [`BUS_CAPACITY`] interactions.
    pub fn new() -> (handler: Handler)
        ensures
            handler.room() == BUS_CAPACITY,
    {
        Handler { component_interactions: Bus::new() }
    }

    /// Subscribes to the interactions with the controls of messages: the receiver is a new
    /// subscription to the handler's bus.
    pub fn subscribe_to_component_interactions(&self) -> (receiver: Receiver<
        (Context, ComponentInteraction),
    >)
        ensures
            self.hears(receiver),
    {
        self.component_interactions.subscribe()
    }

    /// Publishes an interaction, together with the context to answer it in. Says how many
    /// subscribers there are, or `None` where there is none and the interaction is lost.
    pub fn publish(&self, ctx: Context, interaction: ComponentInteraction) -> (receivers: Option<
        usize,
    >)
        ensures
            receivers matches Some(n) ==> n >= 1,
    {
        self.component_interactions.publish((ctx, interaction))
    }
}

} // verus!
