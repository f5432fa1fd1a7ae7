use readycheck::status::{Emoji, ReadyState, NOT_READY_EMOJI_ID};
use serenity::model::channel::ReactionType;
use serenity::model::id::EmojiId;

#[test]
fn unknown_shows_a_question_mark() {
    assert_eq!(ReadyState::Unknown.glyph(), "\u{2754}");
    assert!(matches!(ReadyState::Unknown.to_emoji(), Emoji::Unicode(g) if g == "\u{2754}"));
}

#[test]
fn ready_shows_a_check_mark() {
    assert_eq!(ReadyState::Ready.glyph(), "\u{2705}");
    assert!(matches!(ReadyState::Ready.to_emoji(), Emoji::Unicode(g) if g == "\u{2705}"));
}

#[test]
fn not_ready_shows_the_custom_cross() {
    assert_eq!(ReadyState::NotReady.glyph(), "<:redcross:1108310596660772944>");
    match ReadyState::NotReady.to_emoji() {
        Emoji::Custom { animated, name, id } => {
            assert!(!animated);
            assert_eq!(name, Some("redcross".to_string()));
            assert_eq!(id, 1108310596660772944);
            assert_eq!(id, NOT_READY_EMOJI_ID);
        }
        Emoji::Unicode(_) => panic!("a custom emoji was expected"),
    }
}

#[test]
fn glyphs_are_what_the_platform_library_prints() {
    let cross = ReactionType::Custom {
        animated: false,
        id: EmojiId::new(NOT_READY_EMOJI_ID),
        name: Some("redcross".to_string()),
    };
    assert_eq!(ReadyState::NotReady.glyph(), cross.to_string());
    assert_eq!(
        ReadyState::Ready.glyph(),
        ReactionType::Unicode("\u{2705}".to_string()).to_string()
    );
}

#[test]
fn the_three_glyphs_differ() {
    let unknown = ReadyState::Unknown.glyph();
    let ready = ReadyState::Ready.glyph();
    let not_ready = ReadyState::NotReady.glyph();
    assert_ne!(unknown, ready);
    assert_ne!(unknown, not_ready);
    assert_ne!(ready, not_ready);
}
