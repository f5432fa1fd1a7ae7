//! Readiness answers and the glyphs that stand for them.

use crate::text::decimal_digits;
use serenity::model::channel::ReactionType;
use serenity::model::id::EmojiId;
use vstd::prelude::*;

verus! {

/// The answer a participant has given to a readiness poll.
#[derive(Clone, Copy, Debug, PartialEq, Eq, Structural)]
pub enum ReadyState {
    /// No answer yet.
    Unknown,
    Ready,
    NotReady,
}

/// An emoji as the chat platform knows it: a unicode glyph, or a custom emoji of a guild.
#[derive(Clone, Debug)]
pub enum Emoji {
    Unicode(String),
    Custom { animated: bool, name: Option<String>, id: u64 },
}

/// The mathematical value of an [`Emoji`].
pub enum EmojiView {
    Unicode(Seq<char>),
    Custom { animated: bool, name: Option<Seq<char>>, id: u64 },
}

impl View for Emoji {
    type V = EmojiView;

    open spec fn view(&self) -> EmojiView {
        match self {
            Emoji::Unicode(glyph) => EmojiView::Unicode(glyph@),
            Emoji::Custom { animated, name, id } => EmojiView::Custom {
                animated: *animated,
                name: match name {
                    Some(n) => Some(n@),
                    None => None,
                },
                id: *id,
            },
        }
    }
}

/// The id of the custom emoji that marks a participant as not ready.
pub const NOT_READY_EMOJI_ID: u64 = 1108310596660772944;

/// The text by which a message shows an emoji: the glyph itself, or for a custom emoji
/// `<:name:id>`, with an `a` before the first colon when it is animated.
pub open spec fn emoji_text(e: EmojiView) -> Seq<char> {
    match e {
        EmojiView::Unicode(glyph) => glyph,
        EmojiView::Custom { animated, name, id } => {
            let open = if animated {
                seq!['<', 'a', ':']
            } else {
                seq!['<', ':']
            };
            let label = match name {
                Some(n) => n,
                None => Seq::<char>::empty(),
            };
            open + label + seq![':'] + decimal_digits(id as nat) + seq!['>']
        },
    }
}

/// The emoji that stands for each answer.
pub open spec fn status_emoji(status: ReadyState) -> EmojiView {
    match status {
        ReadyState::Unknown => EmojiView::Unicode("\u{2754}"@),
        ReadyState::Ready => EmojiView::Unicode("\u{2705}"@),
        ReadyState::NotReady => EmojiView::Custom {
            animated: false,
            name: Some("redcross"@),
            id: NOT_READY_EMOJI_ID,
        },
    }
}

/// The text that stands for an answer in a rendered roster.
pub open spec fn status_glyph(status: ReadyState) -> Seq<char> {
    emoji_text(status_emoji(status))
}

/// serenity's `Display` for `ReactionType`. A unicode reaction prints its glyph. A custom one
/// prints `<:` (`<a:` when animated), the name if it has one, a colon, the emoji id in decimal
/// and `>`. `EmojiId::new` panics on zero, which the precondition leaves out.
#[verifier::external_body]
fn reaction_text(emoji: &Emoji) -> (text: String)
    requires
        emoji matches Emoji::Custom { id, .. } ==> id != 0,
    ensures
        text@ == emoji_text(emoji@),
{
    let reaction = match emoji {
        Emoji::Unicode(glyph) => ReactionType::Unicode(glyph.clone()),
        Emoji::Custom { animated, name, id } => {
            ReactionType::Custom { animated: *animated, id: EmojiId::new(*id), name: name.clone() }
        },
    };
    reaction.to_string()
}

impl ReadyState {
    /// The emoji that stands for this answer.
    pub fn to_emoji(&self) -> (emoji: Emoji)
        ensures
            emoji@ == status_emoji(*self),
    {
        match self {
            ReadyState::Unknown => Emoji::Unicode("\u{2754}".to_string()),
            ReadyState::Ready => Emoji::Unicode("\u{2705}".to_string()),
            ReadyState::NotReady => Emoji::Custom {
                animated: false,
                name: Some("redcross".to_string()),
                id: NOT_READY_EMOJI_ID,
            },
        }
    }

    /// The text that stands for this answer in a rendered roster.
    pub fn glyph(&self) -> (text: String)
        ensures
            text@ == status_glyph(*self),
    {
        let emoji = self.to_emoji();
        reaction_text(&emoji)
    }
}

} // verus!
