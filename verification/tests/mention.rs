use readycheck::mention::{mention_role, mention_user, mentions_line};
use serenity::model::id::{RoleId, UserId};
use serenity::model::mention::Mentionable;

#[test]
fn a_role_is_mentioned_with_an_ampersand() {
    assert_eq!(mention_role(3), "<@&3>");
    assert_eq!(mention_role(1108310596660772944), "<@&1108310596660772944>");
}

#[test]
fn a_user_is_mentioned_without() {
    assert_eq!(mention_user(1), "<@1>");
    assert_eq!(mention_user(u64::MAX), "<@18446744073709551615>");
}

#[test]
fn the_null_id_is_written_in_the_same_form() {
    assert_eq!(mention_role(0), "<@&0>");
    assert_eq!(mention_user(0), "<@0>");
}

#[test]
fn mentions_are_what_the_platform_library_prints() {
    for id in [1u64, 42, 999_999_999_999, u64::MAX] {
        assert_eq!(mention_role(id), RoleId::new(id).mention().to_string());
        assert_eq!(mention_user(id), UserId::new(id).mention().to_string());
    }
}

#[test]
fn the_line_lists_roles_before_users() {
    assert_eq!(mentions_line(&vec![10, 11], &vec![1, 2]), "<@&10> <@&11> <@1> <@2>");
}

#[test]
fn the_line_of_one_mention_has_no_space() {
    assert_eq!(mentions_line(&vec![10], &vec![]), "<@&10>");
    assert_eq!(mentions_line(&vec![], &vec![7]), "<@7>");
}

#[test]
fn the_line_of_nothing_is_empty() {
    assert_eq!(mentions_line(&vec![], &vec![]), "");
}

#[test]
fn the_line_keeps_order_and_repeats() {
    assert_eq!(mentions_line(&vec![5, 3, 5], &vec![9, 9]), "<@&5> <@&3> <@&5> <@9> <@9>");
}
