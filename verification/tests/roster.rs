use readycheck::roster::{
    contains_id, member_selected, precedes, resolve_roster, Member, Participant, RosterError,
    MAX_PARTICIPANTS,
};
use readycheck::status::ReadyState;

fn member(id: u64, name: &str, nick: Option<&str>, roles: Vec<u64>) -> Member {
    Member { id, name: name.to_string(), nick: nick.map(|n| n.to_string()), role_ids: roles }
}

fn guild(n: u64) -> Vec<Member> {
    (1..=n).map(|i| member(i, &format!("member{:03}", i), None, vec![100])).collect()
}

fn names(members: &[Member], roles: &[u64], users: &[u64]) -> Vec<(u64, String)> {
    let roster = resolve_roster(&members.to_vec(), &roles.to_vec(), &users.to_vec()).unwrap();
    roster.participants().iter().map(|p| (p.id, p.display_name.clone())).collect()
}

#[test]
fn a_selection_of_nobody_gives_the_zero_people_error() {
    let result = resolve_roster(&guild(5), &vec![200], &vec![77]);
    assert!(matches!(result, Err(RosterError::Empty)));
    assert_eq!(RosterError::Empty.message(), "Can't send a readycheck to zero people.");
}

#[test]
fn no_selection_at_all_gives_the_zero_people_error() {
    assert!(matches!(resolve_roster(&guild(5), &vec![], &vec![]), Err(RosterError::Empty)));
    assert!(matches!(resolve_roster(&vec![], &vec![100], &vec![1]), Err(RosterError::Empty)));
}

#[test]
fn twenty_six_people_give_the_up_to_25_error() {
    let result = resolve_roster(&guild(26), &vec![100], &vec![]);
    assert!(matches!(result, Err(RosterError::TooMany)));
    assert_eq!(RosterError::TooMany.message(), "The readycheck only works for up to 25 people.");
}

#[test]
fn twenty_five_people_give_a_roster() {
    let roster = resolve_roster(&guild(25), &vec![100], &vec![]).unwrap();
    assert_eq!(roster.len(), 25);
    assert_eq!(roster.len(), MAX_PARTICIPANTS);
}

#[test]
fn one_person_gives_a_roster() {
    let roster = resolve_roster(&guild(40), &vec![], &vec![17]).unwrap();
    assert_eq!(roster.len(), 1);
    assert_eq!(roster.participants()[0].id, 17);
}

#[test]
fn everybody_starts_without_an_answer() {
    let roster = resolve_roster(&guild(10), &vec![100], &vec![]).unwrap();
    assert!(roster.participants().iter().all(|p| p.status == ReadyState::Unknown));
}

#[test]
fn members_are_selected_by_id_or_by_role() {
    let members = vec![
        member(1, "alice", None, vec![10]),
        member(2, "bob", None, vec![20]),
        member(3, "carol", None, vec![]),
        member(4, "dave", None, vec![30, 20]),
    ];
    assert_eq!(
        names(&members, &[20], &[3]),
        vec![(2, "bob".to_string()), (3, "carol".to_string()), (4, "dave".to_string())]
    );
}

#[test]
fn a_member_selected_twice_is_asked_once() {
    let members = vec![member(1, "alice", None, vec![10, 11]), member(2, "bob", None, vec![])];
    assert_eq!(names(&members, &[10, 11], &[1, 1]), vec![(1, "alice".to_string())]);
}

#[test]
fn the_roster_is_sorted_by_display_name() {
    let members = vec![
        member(1, "zoe", None, vec![10]),
        member(2, "adam", None, vec![10]),
        member(3, "mia", None, vec![10]),
    ];
    assert_eq!(
        names(&members, &[10], &[]),
        vec![(2, "adam".to_string()), (3, "mia".to_string()), (1, "zoe".to_string())]
    );
}

#[test]
fn the_nickname_is_the_display_name_where_there_is_one() {
    let members = vec![
        member(1, "zoe", Some("anna"), vec![10]),
        member(2, "bert", None, vec![10]),
        member(3, "carl", Some("zed"), vec![10]),
    ];
    assert_eq!(
        names(&members, &[10], &[]),
        vec![(1, "anna".to_string()), (2, "bert".to_string()), (3, "zed".to_string())]
    );
    assert_eq!(members[0].display_name(), "anna");
    assert_eq!(members[1].display_name(), "bert");
}

#[test]
fn equal_names_are_sorted_by_id() {
    let members = vec![
        member(30, "sam", None, vec![10]),
        member(10, "sam", None, vec![10]),
        member(20, "sam", None, vec![10]),
        member(5, "tom", None, vec![10]),
    ];
    assert_eq!(
        names(&members, &[10], &[]),
        vec![
            (10, "sam".to_string()),
            (20, "sam".to_string()),
            (30, "sam".to_string()),
            (5, "tom".to_string())
        ]
    );
}

#[test]
fn capital_letters_sort_before_small_ones() {
    let members = vec![member(1, "bob", None, vec![10]), member(2, "Zed", None, vec![10])];
    assert_eq!(names(&members, &[10], &[]), vec![(2, "Zed".to_string()), (1, "bob".to_string())]);
}

#[test]
fn the_order_of_the_member_list_does_not_matter() {
    let mut members = guild(12);
    let forward = names(&members, &[100], &[]);
    members.reverse();
    let backward = names(&members, &[100], &[]);
    assert_eq!(forward, backward);
}

#[test]
fn selection_is_told_member_by_member() {
    let m = member(7, "gil", None, vec![1, 2, 3]);
    assert!(member_selected(&m, &vec![], &vec![7]));
    assert!(member_selected(&m, &vec![9, 3], &vec![]));
    assert!(!member_selected(&m, &vec![9, 8], &vec![6]));
    assert!(!member_selected(&m, &vec![], &vec![]));
    assert!(contains_id(&vec![4, 5], 5));
    assert!(!contains_id(&vec![4, 5], 6));
    assert!(!contains_id(&vec![], 0));
}

#[test]
fn precedence_is_by_name_then_by_id() {
    let p = |id: u64, name: &str| Participant {
        id,
        display_name: name.to_string(),
        status: ReadyState::Unknown,
    };
    assert!(precedes(&p(9, "a"), &p(1, "b")));
    assert!(!precedes(&p(1, "b"), &p(9, "a")));
    assert!(precedes(&p(1, "a"), &p(2, "a")));
    assert!(!precedes(&p(2, "a"), &p(1, "a")));
    assert!(precedes(&p(2, "a"), &p(2, "a")));
}

#[test]
fn enrolment_keeps_id_and_name() {
    let p = member(4, "dora", Some("dee"), vec![]).enrol();
    assert_eq!(p.id, 4);
    assert_eq!(p.display_name, "dee");
    assert_eq!(p.status, ReadyState::Unknown);
}

#[test]
fn random_guilds_give_sorted_rosters_of_the_members_asked() {
    let mut seed = 7u64;
    let mut next = || {
        seed = seed.wrapping_mul(6364136223846793005).wrapping_add(1442695040888963407);
        seed >> 33
    };
    for _ in 0..300 {
        let size = next() % 40;
        let members: Vec<Member> = (0..size)
            .map(|i| {
                let name = format!("n{}", next() % 6);
                let nick = if next() % 3 == 0 { Some(format!("k{}", next() % 4)) } else { None };
                let roles = (0..next() % 3).map(|_| 100 + next() % 4).collect();
                Member { id: 1 + (i * 13) % 50, name, nick, role_ids: roles }
            })
            .collect();
        let roles: Vec<u64> = (0..next() % 3).map(|_| 100 + next() % 4).collect();
        let users: Vec<u64> = (0..next() % 4).map(|_| 1 + next() % 50).collect();
        let mut expected: Vec<(String, u64)> = members
            .iter()
            .filter(|m| users.contains(&m.id) || roles.iter().any(|r| m.role_ids.contains(r)))
            .map(|m| (m.nick.clone().unwrap_or(m.name.clone()), m.id))
            .collect();
        expected.sort();
        match resolve_roster(&members, &roles, &users) {
            Ok(roster) => {
                let got: Vec<(String, u64)> = roster
                    .participants()
                    .iter()
                    .map(|p| (p.display_name.clone(), p.id))
                    .collect();
                assert_eq!(got, expected);
                assert!(!got.is_empty() && got.len() <= 25);
            }
            Err(RosterError::Empty) => assert!(expected.is_empty()),
            Err(RosterError::TooMany) => assert!(expected.len() > 25),
        }
    }
}
