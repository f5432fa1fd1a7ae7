use readycheck::render::{create_embed, LIVE_ACCENT, MUTED_ACCENT};
use readycheck::roster::Participant;
use readycheck::status::ReadyState;
use serenity::model::Colour;

fn participant(id: u64, name: &str, status: ReadyState) -> Participant {
    Participant { id, display_name: name.to_string(), status }
}

#[test]
fn the_summary_has_title_and_description() {
    let embed = create_embed(&vec![participant(1, "alice", ReadyState::Unknown)], false);
    assert_eq!(embed.title, "Readycheck!");
    assert_eq!(embed.description, "Ready the feck up <a:catreeee:1110171057853300766>");
}

#[test]
fn a_running_poll_is_pink_and_an_expired_one_grey() {
    let ps = vec![participant(1, "alice", ReadyState::Unknown)];
    assert_eq!(create_embed(&ps, false).colour, 0xFAB1ED);
    assert_eq!(create_embed(&ps, true).colour, 0x607D8B);
    assert_eq!(LIVE_ACCENT, Colour::FABLED_PINK.0);
    assert_eq!(MUTED_ACCENT, Colour::DARK_GREY.0);
    assert_ne!(create_embed(&ps, false).colour, create_embed(&ps, true).colour);
}

#[test]
fn every_participant_has_a_field_in_order() {
    let ps = vec![
        participant(1, "alice", ReadyState::Ready),
        participant(2, "bob", ReadyState::Unknown),
        participant(3, "carol", ReadyState::NotReady),
    ];
    let embed = create_embed(&ps, false);
    let labels: Vec<&str> = embed.fields.iter().map(|f| f.name.as_str()).collect();
    assert_eq!(
        labels,
        vec!["\u{2705} alice", "\u{2754} bob", "<:redcross:1108310596660772944> carol"]
    );
    assert!(embed.fields.iter().all(|f| f.value.is_empty() && f.inline));
}

#[test]
fn no_participants_give_no_fields() {
    assert!(create_embed(&vec![], true).fields.is_empty());
}

#[test]
fn the_expired_flag_changes_the_colour_only() {
    let ps = vec![participant(1, "alice", ReadyState::NotReady)];
    let live = create_embed(&ps, false);
    let muted = create_embed(&ps, true);
    assert_eq!(live.title, muted.title);
    assert_eq!(live.description, muted.description);
    assert_eq!(live.fields[0].name, muted.fields[0].name);
}
