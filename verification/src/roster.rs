//! The roster of a poll: who is asked, and in which order they are shown.

use crate::status::ReadyState;
use crate::text::{
    lemma_bytes_le_reflexive, lemma_bytes_le_total, lemma_bytes_le_transitive,
    lemma_text_le_antisymmetric, str_le, text_le,
};
use vstd::prelude::*;
use vstd::relations::total_ordering;
use vstd::seq_lib::*;
use vstd::utf8::encode_utf8;

verus! {

/// The most participants one poll can show.
pub const MAX_PARTICIPANTS: usize = 25;

/// A member of a guild, as the membership lookup reports it.
#[derive(Clone, Debug)]
pub struct Member {
    pub id: u64,
    /// The account's name.
    pub name: String,
    /// The name the member goes by in this guild, if they chose one.
    pub nick: Option<String>,
    /// The roles the member holds.
    pub role_ids: Vec<u64>,
}

/// The mathematical value of a [`Member`].
pub struct MemberView {
    pub id: u64,
    pub name: Seq<char>,
    pub nick: Option<Seq<char>>,
    pub role_ids: Seq<u64>,
}

impl View for Member {
    type V = MemberView;

    open spec fn view(&self) -> MemberView {
        MemberView {
            id: self.id,
            name: self.name@,
            nick: match self.nick {
                Some(n) => Some(n@),
                None => None,
            },
            role_ids: self.role_ids@,
        }
    }
}

impl MemberView {
    /// The name a member is shown under: the nickname where there is one, else the
    /// account's name.
    pub open spec fn display_name(self) -> Seq<char> {
        match self.nick {
            Some(n) => n,
            None => self.name,
        }
    }
}

/// One member tracked by a poll, with the answer they have given.
#[derive(Clone, Debug)]
pub struct Participant {
    pub id: u64,
    pub display_name: String,
    pub status: ReadyState,
}

/// The mathematical value of a [`Participant`].
pub struct ParticipantView {
    pub id: u64,
    pub display_name: Seq<char>,
    pub status: ReadyState,
}

impl View for Participant {
    type V = ParticipantView;

    open spec fn view(&self) -> ParticipantView {
        ParticipantView { id: self.id, display_name: self.display_name@, status: self.status }
    }
}

/// The values of a list of members.
pub open spec fn member_views(members: Seq<Member>) -> Seq<MemberView> {
    members.map_values(|m: Member| m@)
}

/// The values of a list of participants.
pub open spec fn participant_views(participants: Seq<Participant>) -> Seq<ParticipantView> {
    participants.map_values(|p: Participant| p@)
}

/// Whether a member holds at least one of the roles in `roles`.
pub open spec fn holds_any(role_ids: Seq<u64>, roles: Seq<u64>) -> bool {
    exists|k: int| 0 <= k < roles.len() && role_ids.contains(#[trigger] roles[k])
}

/// Whether a poll for `roles` and `users` asks the member `m`: they are named among the
/// users, or hold one of the roles.
pub open spec fn is_selected(m: MemberView, roles: Seq<u64>, users: Seq<u64>) -> bool {
    users.contains(m.id) || holds_any(m.role_ids, roles)
}

/// [`is_selected`] for fixed roles and users, as a predicate on members.
pub open spec fn selector(roles: Seq<u64>, users: Seq<u64>) -> spec_fn(MemberView) -> bool {
    |m: MemberView| is_selected(m, roles, users)
}

/// The participant a member becomes when a poll starts: nothing answered yet.
pub open spec fn enrol(m: MemberView) -> ParticipantView {
    ParticipantView { id: m.id, display_name: m.display_name(), status: ReadyState::Unknown }
}

/// Each of the members as a participant who has not answered.
pub open spec fn enrolled(members: Seq<MemberView>) -> Seq<ParticipantView> {
    members.map_values(|m: MemberView| enrol(m))
}

/// The members a poll for `roles` and `users` asks, in the order of the member list, each
/// as a participant who has not answered.
pub open spec fn candidates(members: Seq<MemberView>, roles: Seq<u64>, users: Seq<u64>) -> Seq<
    ParticipantView,
> {
    enrolled(members.filter(selector(roles, users)))
}

/// The order of a roster: by display name, and by id among equal names.
pub open spec fn roster_le(a: ParticipantView, b: ParticipantView) -> bool {
    text_le(a.display_name, b.display_name) && (a.display_name == b.display_name ==> a.id <= b.id)
}

/// Whether a list of participants stands in roster order.
pub open spec fn roster_sorted(ps: Seq<ParticipantView>) -> bool {
    forall|i: int, j: int| 0 <= i < j < ps.len() ==> roster_le(#[trigger] ps[i], #[trigger] ps[j])
}

/// Whether nobody in the list has answered.
pub open spec fn all_unknown(ps: Seq<ParticipantView>) -> bool {
    forall|i: int| 0 <= i < ps.len() ==> (#[trigger] ps[i]).status == ReadyState::Unknown
}

/// Of two participants, one comes at or before the other in roster order.
pub proof fn lemma_roster_le_total(a: ParticipantView, b: ParticipantView)
    ensures
        roster_le(a, b) || roster_le(b, a),
{
    lemma_bytes_le_total(encode_utf8(a.display_name), encode_utf8(b.display_name));
    lemma_bytes_le_reflexive(encode_utf8(a.display_name));
}

/// Roster order is transitive.
pub proof fn lemma_roster_le_transitive(a: ParticipantView, b: ParticipantView, c: ParticipantView)
    requires
        roster_le(a, b),
        roster_le(b, c),
    ensures
        roster_le(a, c),
{
    lemma_bytes_le_transitive(
        encode_utf8(a.display_name),
        encode_utf8(b.display_name),
        encode_utf8(c.display_name),
    );
    if a.display_name == c.display_name {
        lemma_text_le_antisymmetric(a.display_name, b.display_name);
    }
}

impl Member {
    /// The name this member is shown under.
    pub fn display_name(&self) -> (name: &String)
        ensures
            name@ == self@.display_name(),
    {
        match &self.nick {
            Some(n) => n,
            None => &self.name,
        }
    }

    /// This member as a participant who has not answered.
    pub fn enrol(&self) -> (p: Participant)
        ensures
            p@ == enrol(self@),
    {
        Participant { id: self.id, display_name: self.display_name().clone(), status: ReadyState::Unknown }
    }
}

/// Whether `id` occurs in `ids`.
pub fn contains_id(ids: &Vec<u64>, id: u64) -> (found: bool)
    ensures
        found == ids@.contains(id),
{
    let mut i: usize = 0;
    while i < ids.len()
        invariant
            i <= ids.len(),
            forall|k: int| 0 <= k < i ==> ids@[k] != id,
        decreases ids.len() - i,
    {
        if ids[i] == id {
            return true;
        }
        i += 1;
    }
    false
}

/// Whether a poll for `roles` and `users` asks `member`.
pub fn member_selected(member: &Member, roles: &Vec<u64>, users: &Vec<u64>) -> (selected: bool)
    ensures
        selected == is_selected(member@, roles@, users@),
{
    if contains_id(users, member.id) {
        return true;
    }
    let mut k: usize = 0;
    while k < roles.len()
        invariant
            k <= roles.len(),
            forall|j: int| 0 <= j < k ==> !member.role_ids@.contains(#[trigger] roles@[j]),
        decreases roles.len() - k,
    {
        if contains_id(&member.role_ids, roles[k]) {
            return true;
        }
        k += 1;
    }
    false
}

/// Whether `a` comes at or before `b` in roster order.
pub fn precedes(a: &Participant, b: &Participant) -> (r: bool)
    ensures
        r == roster_le(a@, b@),
{
    if a.display_name == b.display_name {
        proof {
            lemma_bytes_le_reflexive(encode_utf8(a.display_name@));
        }
        a.id <= b.id
    } else {
        str_le(a.display_name.as_str(), b.display_name.as_str())
    }
}

/// Why a selection gives no roster.
#[derive(Clone, Copy, Debug, PartialEq, Eq, Structural)]
pub enum RosterError {
    /// Nobody in the guild matches the selection.
    Empty,
    /// More members match than one poll can show.
    TooMany,
}

/// What the invoking user is told when a selection gives no roster.
pub open spec fn roster_error_text(e: RosterError) -> Seq<char> {
    match e {
        RosterError::Empty => "Can't send a readycheck to zero people."@,
        RosterError::TooMany => "The readycheck only works for up to 25 people."@,
    }
}

impl RosterError {
    /// What the invoking user is told.
    pub fn message(&self) -> (text: &'static str)
        ensures
            text@ == roster_error_text(*self),
    {
        match self {
            RosterError::Empty => "Can't send a readycheck to zero people.",
            RosterError::TooMany => "The readycheck only works for up to 25 people.",
        }
    }
}

/// The participants of one poll: at least one and at most [`MAX_PARTICIPANTS`], in roster
/// order, none of whom has answered.
#[derive(Debug)]
pub struct Roster {
    participants: Vec<Participant>,
}

impl View for Roster {
    type V = Seq<ParticipantView>;

    closed spec fn view(&self) -> Seq<ParticipantView> {
        participant_views(self.participants@)
    }
}

/// Whether `ps` can be the roster of a poll.
pub open spec fn roster_valid(ps: Seq<ParticipantView>) -> bool {
    &&& 1 <= ps.len() <= MAX_PARTICIPANTS
    &&& roster_sorted(ps)
    &&& all_unknown(ps)
}

impl Roster {
    /// The invariant of a roster, which holds of every roster there is.
    #[verifier::type_invariant]
    spec fn wf(&self) -> bool {
        roster_valid(self@)
    }

    /// How many participants the roster has: one at least, and no more than a poll can show.
    pub fn len(&self) -> (n: usize)
        ensures
            n == self@.len(),
            1 <= n <= MAX_PARTICIPANTS,
    {
        proof {
            use_type_invariant(self);
        }
        self.participants.len()
    }

    /// The participants, in roster order.
    pub fn participants(&self) -> (ps: &Vec<Participant>)
        ensures
            participant_views(ps@) == self@,
            roster_valid(participant_views(ps@)),
    {
        proof {
            use_type_invariant(self);
        }
        &self.participants
    }

    /// Gives up the roster for its participants.
    pub fn into_participants(self) -> (ps: Vec<Participant>)
        ensures
            participant_views(ps@) == self@,
            roster_valid(participant_views(ps@)),
    {
        proof {
            use_type_invariant(&self);
        }
        self.participants
    }
}

/// The members that the selection asks, as participants, in the order of the member list.
fn select_members(members: &Vec<Member>, roles: &Vec<u64>, users: &Vec<u64>) -> (matched: Vec<
    Participant,
>)
    ensures
        participant_views(matched@) == candidates(member_views(members@), roles@, users@),
{
    let mut matched: Vec<Participant> = Vec::new();
    let mut i: usize = 0;
    proof {
        reveal(Seq::filter);
        assert(member_views(members@).take(0) =~= Seq::<MemberView>::empty());
        assert(participant_views(matched@) =~= candidates(
            member_views(members@).take(0),
            roles@,
            users@,
        ));
    }
    while i < members.len()
        invariant
            i <= members.len(),
            participant_views(matched@) == candidates(
                member_views(members@).take(i as int),
                roles@,
                users@,
            ),
        decreases members.len() - i,
    {
        let member = &members[i];
        let ghost seen = member_views(members@).take(i as int);
        proof {
            assert(member_views(members@).take(i + 1) =~= seen.push(member@));
            seen.lemma_filter_push(member@, selector(roles@, users@));
        }
        if member_selected(member, roles, users) {
            let ghost asked = seen.filter(selector(roles@, users@));
            let p = member.enrol();
            matched.push(p);
            assert(enrolled(asked.push(member@)) =~= enrolled(asked).push(enrol(member@)));
            assert(participant_views(matched@) =~= enrolled(asked).push(p@));
        }
        i += 1;
    }
    assert(member_views(members@).take(members.len() as int) =~= member_views(members@));
    matched
}

/// Puts participants in roster order.
fn sort_roster(matched: Vec<Participant>) -> (out: Vec<Participant>)
    ensures
        roster_sorted(participant_views(out@)),
        participant_views(out@).to_multiset() == participant_views(matched@).to_multiset(),
        all_unknown(participant_views(matched@)) ==> all_unknown(participant_views(out@)),
{
    broadcast use group_to_multiset_ensures;

    let mut rest = matched;
    let mut out: Vec<Participant> = Vec::new();
    assert(participant_views(out@) =~= Seq::<ParticipantView>::empty());
    assert(participant_views(out@).to_multiset().add(participant_views(rest@).to_multiset())
        =~= participant_views(matched@).to_multiset());
    while rest.len() > 0
        invariant
            roster_sorted(participant_views(out@)),
            participant_views(out@).to_multiset().add(participant_views(rest@).to_multiset())
                == participant_views(matched@).to_multiset(),
            all_unknown(participant_views(matched@)) ==> all_unknown(participant_views(out@))
                && all_unknown(participant_views(rest@)),
        decreases rest.len(),
    {
        let ghost rest_before = participant_views(rest@);
        let ghost sorted_before = participant_views(out@);
        let p = rest.pop().unwrap();
        assert(rest_before =~= participant_views(rest@).push(p@));
        let mut pos: usize = 0;
        while pos < out.len() && precedes(&out[pos], &p)
            invariant
                pos <= out.len(),
                sorted_before == participant_views(out@),
                forall|k: int| 0 <= k < pos ==> roster_le(#[trigger] sorted_before[k], p@),
            decreases out.len() - pos,
        {
            pos += 1;
        }
        proof {
            assert forall|k: int| pos <= k < sorted_before.len() implies roster_le(
                p@,
                #[trigger] sorted_before[k],
            ) by {
                lemma_roster_le_total(sorted_before[pos as int], p@);
                if k > pos {
                    lemma_roster_le_transitive(p@, sorted_before[pos as int], sorted_before[k]);
                }
            }
        }
        out.insert(pos, p);
        proof {
            let sorted_after = participant_views(out@);
            assert(sorted_after =~= sorted_before.insert(pos as int, p@));
            to_multiset_insert(sorted_before, pos as int, p@);
            to_multiset_build(participant_views(rest@), p@);
            if all_unknown(participant_views(matched@)) {
                assert(p@ == rest_before[rest_before.len() - 1]);
                assert forall|k: int| 0 <= k < participant_views(rest@).len() implies (
                #[trigger] participant_views(rest@)[k]).status == ReadyState::Unknown by {
                    assert(participant_views(rest@)[k] == rest_before[k]);
                }
                assert forall|k: int| 0 <= k < sorted_after.len() implies (
                #[trigger] sorted_after[k]).status == ReadyState::Unknown by {
                    if k < pos {
                        assert(sorted_after[k] == sorted_before[k]);
                    } else if k > pos {
                        assert(sorted_after[k] == sorted_before[k - 1]);
                    }
                }
            }
            assert forall|i: int, j: int| 0 <= i < j < sorted_after.len() implies roster_le(
                #[trigger] sorted_after[i],
                #[trigger] sorted_after[j],
            ) by {
                if i < pos && j > pos {
                    assert(sorted_after[i] == sorted_before[i]);
                    assert(sorted_after[j] == sorted_before[j - 1]);
                } else if i < pos && j == pos {
                    assert(sorted_after[i] == sorted_before[i]);
                } else if i < pos {
                    assert(sorted_after[i] == sorted_before[i]);
                    assert(sorted_after[j] == sorted_before[j]);
                } else if i == pos {
                    assert(sorted_after[j] == sorted_before[j - 1]);
                } else {
                    assert(sorted_after[i] == sorted_before[i - 1]);
                    assert(sorted_after[j] == sorted_before[j - 1]);
                }
            }
            assert(sorted_after.to_multiset().add(participant_views(rest@).to_multiset())
                =~= sorted_before.to_multiset().add(rest_before.to_multiset()));
        }
    }
    assert(participant_views(rest@) =~= Seq::<ParticipantView>::empty());
    assert(participant_views(out@).to_multiset() =~= participant_views(out@).to_multiset().add(
        participant_views(rest@).to_multiset(),
    ));
    out
}

/// Whether `roster` holds exactly the participants of `asked`, in roster order.
pub open spec fn is_roster_of(roster: Seq<ParticipantView>, asked: Seq<ParticipantView>) -> bool {
    roster_sorted(roster) && roster.to_multiset() == asked.to_multiset()
}

/// The participants of `asked` in roster order. Where nobody in `asked` has answered there
/// is one such list only, see [`lemma_roster_unique`].
pub open spec fn roster_of(asked: Seq<ParticipantView>) -> Seq<ParticipantView> {
    choose|roster: Seq<ParticipantView>| is_roster_of(roster, asked)
}

/// Two lists in roster order that hold the same participants, none of whom has answered,
/// are the same list.
pub proof fn lemma_roster_unique(x: Seq<ParticipantView>, y: Seq<ParticipantView>)
    requires
        roster_sorted(x),
        roster_sorted(y),
        all_unknown(x),
        all_unknown(y),
        x.to_multiset() == y.to_multiset(),
    ensures
        x == y,
    decreases x.len(),
{
    broadcast use group_to_multiset_ensures;

    to_multiset_len(x);
    to_multiset_len(y);
    if x.len() == 0 {
        assert(x =~= y);
    } else {
        assert(x.to_multiset().count(x[0]) > 0) by {
            assert(x.contains(x[0]));
        }
        assert(y.to_multiset().count(y[0]) > 0) by {
            assert(y.contains(y[0]));
        }
        let i = choose|i: int| 0 <= i < x.len() && x[i] == y[0];
        let j = choose|j: int| 0 <= j < y.len() && y[j] == x[0];
        lemma_bytes_le_reflexive(encode_utf8(x[0].display_name));
        lemma_bytes_le_reflexive(encode_utf8(y[0].display_name));
        assert(roster_le(x[0], x[i]));
        assert(roster_le(y[0], y[j]));
        lemma_text_le_antisymmetric(x[0].display_name, y[0].display_name);
        assert(x[0] == y[0]);
        assert(x.drop_first() =~= x.remove(0));
        assert(y.drop_first() =~= y.remove(0));
        lemma_roster_unique(x.drop_first(), y.drop_first());
        assert(x =~= seq![x[0]] + x.drop_first());
        assert(y =~= seq![y[0]] + y.drop_first());
    }
}

/// A list in roster order that holds the participants of `asked`, none of whom has
/// answered, is the roster of `asked`.
pub proof fn lemma_roster_of(roster: Seq<ParticipantView>, asked: Seq<ParticipantView>)
    requires
        is_roster_of(roster, asked),
        all_unknown(asked),
    ensures
        roster == roster_of(asked),
        all_unknown(roster),
{
    broadcast use group_to_multiset_ensures;

    let chosen = roster_of(asked);
    assert(is_roster_of(chosen, asked));
    assert forall|r: Seq<ParticipantView>| r.to_multiset() == asked.to_multiset() implies all_unknown(
        r,
    ) by {
        assert forall|k: int| 0 <= k < r.len() implies (#[trigger] r[k]).status
            == ReadyState::Unknown by {
            assert(r.contains(r[k]));
            assert(asked.to_multiset().count(r[k]) > 0);
            assert(asked.contains(r[k]));
        }
    }
    lemma_roster_unique(roster, chosen);
}

/// Resolves a selection of roles and users against the member list of a guild.
///
/// The roster holds every member who is named among `users` or holds one of `roles`, each
/// once for each time the member list holds them, none having answered, sorted by display
/// name and by id among equal names. A selection that matches nobody, or more than
/// [`MAX_PARTICIPANTS`] members, gives no roster.
pub fn resolve_roster(members: &Vec<Member>, roles: &Vec<u64>, users: &Vec<u64>) -> (result: Result<
    Roster,
    RosterError,
>)
    ensures
        match result {
            Ok(roster) => {
                &&& roster_valid(roster@)
                &&& is_roster_of(roster@, candidates(member_views(members@), roles@, users@))
                &&& roster@ == roster_of(candidates(member_views(members@), roles@, users@))
                &&& roster@.len() == candidates(member_views(members@), roles@, users@).len()
            },
            Err(RosterError::Empty) => candidates(member_views(members@), roles@, users@).len()
                == 0,
            Err(RosterError::TooMany) => candidates(member_views(members@), roles@, users@).len()
                > MAX_PARTICIPANTS,
        },
{
    let matched = select_members(members, roles, users);
    if matched.len() == 0 {
        return Err(RosterError::Empty);
    }
    if matched.len() > MAX_PARTICIPANTS {
        return Err(RosterError::TooMany);
    }
    let ghost asked = participant_views(matched@);
    let participants = sort_roster(matched);
    proof {
        broadcast use group_to_multiset_ensures;

        to_multiset_len(participant_views(participants@));
        to_multiset_len(asked);
        lemma_roster_of(participant_views(participants@), asked);
    }
    Ok(Roster { participants })
}

/// Every list of participants can be put in roster order.
pub proof fn lemma_roster_exists(asked: Seq<ParticipantView>)
    ensures
        is_roster_of(roster_of(asked), asked),
{
    let leq = |a: ParticipantView, b: ParticipantView| key_le(a, b);
    assert(total_ordering(leq)) by {
        assert forall|a: ParticipantView| #[trigger] leq(a, a) by {
            lemma_key_le(a, a, a);
        }
        assert forall|a: ParticipantView, b: ParticipantView| #[trigger]
            leq(a, b) && leq(b, a) implies a == b by {
            lemma_key_le(a, b, a);
        }
        assert forall|a: ParticipantView, b: ParticipantView, c: ParticipantView| #[trigger]
            leq(a, b) && #[trigger] leq(b, c) implies leq(a, c) by {
            lemma_key_le(a, b, c);
        }
        assert forall|a: ParticipantView, b: ParticipantView| #[trigger]
            leq(a, b) || #[trigger] leq(b, a) by {
            lemma_key_le(a, b, a);
        }
    }
    asked.lemma_sort_by_ensures(leq);
    let sorted = asked.sort_by(leq);
    assert forall|i: int, j: int| 0 <= i < j < sorted.len() implies roster_le(
        #[trigger] sorted[i],
        #[trigger] sorted[j],
    ) by {
        assert(leq(sorted[i], sorted[j]));
    }
    assert(is_roster_of(sorted, asked));
}

/// The rank of an answer, by which [`key_le`] tells participants apart that share a name
/// and an id.
pub open spec fn status_rank(status: ReadyState) -> int {
    match status {
        ReadyState::Unknown => 0,
        ReadyState::Ready => 1,
        ReadyState::NotReady => 2,
    }
}

/// Roster order, made total on all participants: among participants of one name and one id
/// the answer decides.
pub open spec fn key_le(a: ParticipantView, b: ParticipantView) -> bool {
    roster_le(a, b) && (roster_le(b, a) ==> status_rank(a.status) <= status_rank(b.status))
}

/// [`key_le`] is a total order.
pub proof fn lemma_key_le(a: ParticipantView, b: ParticipantView, c: ParticipantView)
    ensures
        key_le(a, a),
        key_le(a, b) || key_le(b, a),
        key_le(a, b) && key_le(b, a) ==> a == b,
        key_le(a, b) && key_le(b, c) ==> key_le(a, c),
{
    lemma_roster_le_total(a, a);
    lemma_roster_le_total(a, b);
    if roster_le(a, b) && roster_le(b, a) {
        lemma_text_le_antisymmetric(a.display_name, b.display_name);
    }
    if roster_le(a, b) && roster_le(b, c) {
        lemma_roster_le_transitive(a, b, c);
        if roster_le(c, a) {
            lemma_roster_le_transitive(c, a, b);
            lemma_roster_le_transitive(b, c, a);
        }
    }
}

/// How often a list holds a value that the predicate picks is how often the picked part of
/// the list holds it.
pub proof fn lemma_filter_counts<A>(s: Seq<A>, pred: spec_fn(A) -> bool, a: A)
    ensures
        s.filter(pred).to_multiset().count(a) == if pred(a) {
            s.to_multiset().count(a)
        } else {
            0
        },
    decreases s.len(),
{
    broadcast use group_to_multiset_ensures;

    reveal(Seq::filter);
    if s.len() == 0 {
        assert(s.to_multiset().count(a) == 0) by {
            assert(!s.contains(a));
        }
    } else {
        lemma_filter_counts(s.drop_last(), pred, a);
        assert(s =~= s.drop_last().push(s.last()));
        to_multiset_build(s.drop_last(), s.last());
        if pred(s.last()) {
            to_multiset_build(s.drop_last().filter(pred), s.last());
        }
    }
}

/// Two lists that hold the same values hold the same images of them.
pub proof fn lemma_map_keeps_multisets<A, B>(x: Seq<A>, y: Seq<A>, f: spec_fn(A) -> B)
    requires
        x.to_multiset() == y.to_multiset(),
    ensures
        x.map_values(f).to_multiset() == y.map_values(f).to_multiset(),
    decreases x.len(),
{
    broadcast use group_to_multiset_ensures;

    to_multiset_len(x);
    to_multiset_len(y);
    if x.len() == 0 {
        assert(x.map_values(f) =~= y.map_values(f));
    } else {
        assert(y.to_multiset().count(x[0]) > 0) by {
            assert(x.contains(x[0]));
        }
        let j = choose|j: int| 0 <= j < y.len() && y[j] == x[0];
        to_multiset_remove(x, 0);
        to_multiset_remove(y, j);
        lemma_map_keeps_multisets(x.remove(0), y.remove(j), f);
        assert(x.map_values(f).remove(0) =~= x.remove(0).map_values(f));
        assert(y.map_values(f).remove(j) =~= y.remove(j).map_values(f));
        to_multiset_remove(x.map_values(f), 0);
        to_multiset_remove(y.map_values(f), j);
        assert(x.map_values(f).to_multiset() =~= x.map_values(f).remove(0).to_multiset().insert(
            f(x[0]),
        ));
        assert(y.map_values(f).to_multiset() =~= y.map_values(f).remove(j).to_multiset().insert(
            f(y[j]),
        ));
    }
}

} // verus!
