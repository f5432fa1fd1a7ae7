//! Mentions: the markup by which a message notifies a user or the holders of a role.

use crate::text::decimal_digits;
use serenity::model::id::{RoleId, UserId};
use serenity::model::mention::Mentionable;
use vstd::prelude::*;
use vstd::string::*;

verus! {

/// The mention of a role: `<@&`, the id in decimal, `>`.
pub open spec fn role_mention(id: u64) -> Seq<char> {
    seq!['<', '@', '&'] + decimal_digits(id as nat) + seq!['>']
}

/// The mention of a user: `<@`, the id in decimal, `>`.
pub open spec fn user_mention(id: u64) -> Seq<char> {
    seq!['<', '@'] + decimal_digits(id as nat) + seq!['>']
}

/// The mentions of the selected roles, in their order, then those of the selected users.
pub open spec fn mention_list(roles: Seq<u64>, users: Seq<u64>) -> Seq<Seq<char>> {
    roles.map_values(|id: u64| role_mention(id)) + users.map_values(|id: u64| user_mention(id))
}

/// The parts in their order, with `sep` between each two neighbours.
pub open spec fn joined(parts: Seq<Seq<char>>, sep: Seq<char>) -> Seq<char>
    decreases parts.len(),
{
    if parts.len() == 0 {
        Seq::<char>::empty()
    } else if parts.len() == 1 {
        parts[0]
    } else {
        joined(parts.drop_last(), sep) + sep + parts.last()
    }
}

/// The one line that mentions every selected role and user, separated by single spaces.
pub open spec fn mentions_text(roles: Seq<u64>, users: Seq<u64>) -> Seq<char> {
    joined(mention_list(roles, users), seq![' '])
}

/// serenity's `Display` for the `Mention` of a role, which prints `<@&{id}>` with the id in
/// decimal. `RoleId::new` panics on zero, which the precondition leaves out.
#[verifier::external_body]
fn role_mention_text(id: u64) -> (text: String)
    requires
        id != 0,
    ensures
        text@ == role_mention(id),
{
    RoleId::new(id).mention().to_string()
}

/// serenity's `Display` for the `Mention` of a user, which prints `<@{id}>` with the id in
/// decimal. `UserId::new` panics on zero, which the precondition leaves out.
#[verifier::external_body]
fn user_mention_text(id: u64) -> (text: String)
    requires
        id != 0,
    ensures
        text@ == user_mention(id),
{
    UserId::new(id).mention().to_string()
}

/// The mention of the role `id`. The platform issues no id 0 and serenity's id types cannot
/// hold one; it is written here in the same form.
pub fn mention_role(id: u64) -> (text: String)
    ensures
        text@ == role_mention(id),
{
    if id == 0 {
        proof {
            reveal_strlit("<@&0>");
            assert("<@&0>"@ =~= role_mention(0));
        }
        String::from_str("<@&0>")
    } else {
        role_mention_text(id)
    }
}

/// The mention of the user `id`. The platform issues no id 0 and serenity's id types cannot
/// hold one; it is written here in the same form.
pub fn mention_user(id: u64) -> (text: String)
    ensures
        text@ == user_mention(id),
{
    if id == 0 {
        proof {
            reveal_strlit("<@0>");
            assert("<@0>"@ =~= user_mention(0));
        }
        String::from_str("<@0>")
    } else {
        user_mention_text(id)
    }
}

/// Appends one more part to a line that holds `parts` already, behind a space unless it is
/// the first.
fn push_part(line: &mut String, part: &str, first: bool, Ghost(parts): Ghost<Seq<Seq<char>>>)
    requires
        old(line)@ == joined(parts, seq![' ']),
        first == (parts.len() == 0),
    ensures
        final(line)@ == joined(parts.push(part@), seq![' ']),
{
    proof {
        reveal_strlit(" ");
        assert(parts.push(part@).drop_last() =~= parts);
        assert(" "@ =~= seq![' ']);
    }
    if !first {
        line.append(" ");
    }
    line.append(part);
    assert(line@ =~= joined(parts.push(part@), seq![' ']));
}

/// The line that mentions every selected role, then every selected user, each once and
/// separated by single spaces.
pub fn mentions_line(roles: &Vec<u64>, users: &Vec<u64>) -> (line: String)
    ensures
        line@ == mentions_text(roles@, users@),
{
    let mut line = String::new();
    let ghost mut parts: Seq<Seq<char>> = Seq::empty();
    let mut first = true;
    let mut i: usize = 0;
    while i < roles.len()
        invariant
            i <= roles.len(),
            parts == roles@.take(i as int).map_values(|id: u64| role_mention(id)),
            line@ == joined(parts, seq![' ']),
            first == (parts.len() == 0),
        decreases roles.len() - i,
    {
        let part = mention_role(roles[i]);
        push_part(&mut line, part.as_str(), first, Ghost(parts));
        proof {
            assert(roles@.take(i + 1).map_values(|id: u64| role_mention(id)) =~= parts.push(part@));
            parts = parts.push(part@);
        }
        first = false;
        i += 1;
    }
    assert(roles@.take(roles.len() as int) =~= roles@);
    let ghost role_parts = parts;
    let mut j: usize = 0;
    while j < users.len()
        invariant
            j <= users.len(),
            role_parts == roles@.map_values(|id: u64| role_mention(id)),
            parts == role_parts + users@.take(j as int).map_values(|id: u64| user_mention(id)),
            line@ == joined(parts, seq![' ']),
            first == (parts.len() == 0),
        decreases users.len() - j,
    {
        let part = mention_user(users[j]);
        push_part(&mut line, part.as_str(), first, Ghost(parts));
        proof {
            assert(role_parts + users@.take(j + 1).map_values(|id: u64| user_mention(id))
                =~= parts.push(part@));
            parts = parts.push(part@);
        }
        first = false;
        j += 1;
    }
    assert(users@.take(users.len() as int) =~= users@);
    line
}

} // verus!
