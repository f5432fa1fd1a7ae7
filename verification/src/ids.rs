//! The ids that route interactions: every control of a wizard or a poll carries the id of
//! the invocation it belongs to, so that many of them can share one stream of events.

use crate::status::ReadyState;
use crate::text::{decimal_digits, decimal_string, strip_prefix, without_prefix};
use vstd::prelude::*;
use vstd::string::*;

verus! {

/// The namespace of a poll's buttons: `rc_`, the invocation id in decimal, `_`.
pub open spec fn session_prefix(id: u64) -> Seq<char> {
    seq!['r', 'c', '_'] + decimal_digits(id as nat) + seq!['_']
}

/// The id of the button that answers "ready".
pub open spec fn ready_button_id(id: u64) -> Seq<char> {
    session_prefix(id) + seq!['1']
}

/// The id of the button that answers "not ready".
pub open spec fn not_ready_button_id(id: u64) -> Seq<char> {
    session_prefix(id) + seq!['0']
}

/// The answer that a custom id stands for under the namespace `prefix`: the id must start
/// with the prefix, and what follows must be the marker `1` (ready) or `0` (not ready).
pub open spec fn pressed_button(prefix: Seq<char>, custom_id: Seq<char>) -> Option<ReadyState> {
    match without_prefix(custom_id, prefix) {
        Some(marker) => if marker == seq!['1'] {
            Some(ReadyState::Ready)
        } else if marker == seq!['0'] {
            Some(ReadyState::NotReady)
        } else {
            None
        },
        None => None,
    }
}

/// The id of a wizard's control: `rou_`, the invocation id in decimal, `_` and the
/// control's name.
pub open spec fn control_id(id: u64, name: Seq<char>) -> Seq<char> {
    seq!['r', 'o', 'u', '_'] + decimal_digits(id as nat) + seq!['_'] + name
}

/// The id of the wizard's menu of users and roles.
pub open spec fn mention_control_id(id: u64) -> Seq<char> {
    control_id(id, "mention"@)
}

/// The id of the wizard's menu of durations.
pub open spec fn timeout_control_id(id: u64) -> Seq<char> {
    control_id(id, "timeout"@)
}

/// The id of the wizard's submit button.
pub open spec fn submit_control_id(id: u64) -> Seq<char> {
    control_id(id, "submit"@)
}

/// The namespace of the buttons of the poll that the invocation `id` started.
pub fn session_prefix_string(id: u64) -> (prefix: String)
    ensures
        prefix@ == session_prefix(id),
{
    proof {
        reveal_strlit("rc_");
        reveal_strlit("_");
    }
    let mut prefix = String::from_str("rc_");
    let digits = decimal_string(id);
    prefix.append(digits.as_str());
    prefix.append("_");
    assert(prefix@ =~= session_prefix(id));
    prefix
}

/// The id of the "ready" button of the poll that the invocation `id` started.
pub fn ready_button(id: u64) -> (custom_id: String)
    ensures
        custom_id@ == ready_button_id(id),
{
    proof {
        reveal_strlit("1");
    }
    let mut custom_id = session_prefix_string(id);
    custom_id.append("1");
    assert(custom_id@ =~= ready_button_id(id));
    custom_id
}

/// The id of the "not ready" button of the poll that the invocation `id` started.
pub fn not_ready_button(id: u64) -> (custom_id: String)
    ensures
        custom_id@ == not_ready_button_id(id),
{
    proof {
        reveal_strlit("0");
    }
    let mut custom_id = session_prefix_string(id);
    custom_id.append("0");
    assert(custom_id@ =~= not_ready_button_id(id));
    custom_id
}

/// Reads a custom id under the namespace `prefix`.
pub fn read_button(prefix: &str, custom_id: &str) -> (pressed: Option<ReadyState>)
    ensures
        pressed == pressed_button(prefix@, custom_id@),
{
    match strip_prefix(custom_id, prefix) {
        None => None,
        Some(marker) => {
            if marker.unicode_len() != 1 {
                return None;
            }
            let c = marker.get_char(0);
            if c == '1' {
                assert(marker@ =~= seq!['1']);
                Some(ReadyState::Ready)
            } else if c == '0' {
                assert(marker@ =~= seq!['0']);
                Some(ReadyState::NotReady)
            } else {
                None
            }
        },
    }
}

/// The id of the control `name` of the wizard that the invocation `id` started.
fn control(id: u64, name: &str) -> (custom_id: String)
    ensures
        custom_id@ == control_id(id, name@),
{
    proof {
        reveal_strlit("rou_");
        reveal_strlit("_");
    }
    let mut custom_id = String::from_str("rou_");
    let digits = decimal_string(id);
    custom_id.append(digits.as_str());
    custom_id.append("_");
    custom_id.append(name);
    assert(custom_id@ =~= control_id(id, name@));
    custom_id
}

/// The id of the menu of users and roles of the wizard that the invocation `id` started.
pub fn mention_control(id: u64) -> (custom_id: String)
    ensures
        custom_id@ == mention_control_id(id),
{
    control(id, "mention")
}

/// The id of the menu of durations of the wizard that the invocation `id` started.
pub fn timeout_control(id: u64) -> (custom_id: String)
    ensures
        custom_id@ == timeout_control_id(id),
{
    control(id, "timeout")
}

/// The id of the submit button of the wizard that the invocation `id` started.
pub fn submit_control(id: u64) -> (custom_id: String)
    ensures
        custom_id@ == submit_control_id(id),
{
    control(id, "submit")
}

/// The three controls of a wizard have three different ids.
pub proof fn lemma_controls_differ(id: u64)
    ensures
        mention_control_id(id) != timeout_control_id(id),
        mention_control_id(id) != submit_control_id(id),
        timeout_control_id(id) != submit_control_id(id),
{
    reveal_strlit("mention");
    reveal_strlit("timeout");
    reveal_strlit("submit");
    let stem = seq!['r', 'o', 'u', '_'] + decimal_digits(id as nat) + seq!['_'];
    assert(mention_control_id(id).len() == stem.len() + 7);
    assert(timeout_control_id(id).len() == stem.len() + 7);
    assert(submit_control_id(id).len() == stem.len() + 6);
    assert(mention_control_id(id)[stem.len() as int] == 'm');
    assert(timeout_control_id(id)[stem.len() as int] == 't');
}

} // verus!
