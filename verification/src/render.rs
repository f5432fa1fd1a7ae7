//! The presentational summary of a poll: a pure function of the roster.

use crate::roster::{participant_views, Participant, ParticipantView};
use crate::status::status_glyph;
use serenity::model::Colour;
use vstd::prelude::*;
use vstd::string::*;

verus! {

/// One labelled entry of an [`Embed`].
#[derive(Clone, Debug)]
pub struct EmbedField {
    pub name: String,
    pub value: String,
    pub inline: bool,
}

/// The mathematical value of an [`EmbedField`].
pub struct EmbedFieldView {
    pub name: Seq<char>,
    pub value: Seq<char>,
    pub inline: bool,
}

impl View for EmbedField {
    type V = EmbedFieldView;

    open spec fn view(&self) -> EmbedFieldView {
        EmbedFieldView { name: self.name@, value: self.value@, inline: self.inline }
    }
}

/// A structured summary to show in a message: a title, a description, an accent colour as
/// an RGB value and a list of fields.
#[derive(Clone, Debug)]
pub struct Embed {
    pub title: String,
    pub description: String,
    pub colour: u32,
    pub fields: Vec<EmbedField>,
}

/// The mathematical value of an [`Embed`].
pub struct EmbedView {
    pub title: Seq<char>,
    pub description: Seq<char>,
    pub colour: u32,
    pub fields: Seq<EmbedFieldView>,
}

impl View for Embed {
    type V = EmbedView;

    open spec fn view(&self) -> EmbedView {
        EmbedView {
            title: self.title@,
            description: self.description@,
            colour: self.colour,
            fields: field_views(self.fields@),
        }
    }
}

/// The values of a list of fields.
pub open spec fn field_views(fields: Seq<EmbedField>) -> Seq<EmbedFieldView> {
    fields.map_values(|f: EmbedField| f@)
}

/// The accent of a poll that still runs.
pub const LIVE_ACCENT: u32 = 0xFAB1ED;

/// The muted accent of a poll that has expired.
pub const MUTED_ACCENT: u32 = 0x607D8B;

/// The accent colour of a summary.
pub open spec fn accent(expired: bool) -> u32 {
    if expired {
        MUTED_ACCENT
    } else {
        LIVE_ACCENT
    }
}

/// The label of a participant: the glyph of their answer, a space, their display name.
pub open spec fn field_label(p: ParticipantView) -> Seq<char> {
    status_glyph(p.status) + seq![' '] + p.display_name
}

/// The field that shows one participant: the label as its name, no value, laid out inline.
pub open spec fn roster_field(p: ParticipantView) -> EmbedFieldView {
    EmbedFieldView { name: field_label(p), value: Seq::<char>::empty(), inline: true }
}

/// The fields of a roster, one for each participant and in their order.
pub open spec fn roster_fields(ps: Seq<ParticipantView>) -> Seq<EmbedFieldView> {
    ps.map_values(|p: ParticipantView| roster_field(p))
}

/// The summary of a poll with the participants `ps`.
pub open spec fn embed_of(ps: Seq<ParticipantView>, expired: bool) -> EmbedView {
    EmbedView {
        title: "Readycheck!"@,
        description: "Ready the feck up <a:catreeee:1110171057853300766>"@,
        colour: accent(expired),
        fields: roster_fields(ps),
    }
}

/// serenity's `Colour::FABLED_PINK`, the constant with the RGB value `0xFAB1ED`.
#[verifier::external_body]
fn fabled_pink() -> (rgb: u32)
    ensures
        rgb == LIVE_ACCENT,
{
    Colour::FABLED_PINK.0
}

/// serenity's `Colour::DARK_GREY`, the constant with the RGB value `0x607D8B`.
#[verifier::external_body]
fn dark_grey() -> (rgb: u32)
    ensures
        rgb == MUTED_ACCENT,
{
    Colour::DARK_GREY.0
}

/// The field that shows one participant.
fn create_field(p: &Participant) -> (field: EmbedField)
    ensures
        field@ == roster_field(p@),
{
    proof {
        reveal_strlit(" ");
        assert(" "@ =~= seq![' ']);
    }
    let mut name = p.status.glyph();
    name.append(" ");
    name.append(p.display_name.as_str());
    EmbedField { name, value: String::new(), inline: true }
}

/// Renders the roster: a title, one field for each participant in their order, and an
/// accent that tells a running poll from an expired one.
pub fn create_embed(participants: &Vec<Participant>, expired: bool) -> (embed: Embed)
    ensures
        embed@ == embed_of(participant_views(participants@), expired),
{
    let colour = if expired {
        dark_grey()
    } else {
        fabled_pink()
    };
    let mut fields: Vec<EmbedField> = Vec::new();
    let mut i: usize = 0;
    while i < participants.len()
        invariant
            i <= participants.len(),
            field_views(fields@) == roster_fields(
                participant_views(participants@).take(i as int),
            ),
        decreases participants.len() - i,
    {
        let ghost shown = participant_views(participants@).take(i as int);
        let field = create_field(&participants[i]);
        fields.push(field);
        proof {
            assert(participant_views(participants@).take(i + 1) =~= shown.push(participants@[i as int]@));
            assert(roster_fields(shown.push(participants@[i as int]@)) =~= roster_fields(shown).push(
                roster_field(participants@[i as int]@),
            ));
            assert(field_views(fields@) =~= roster_fields(shown).push(field@));
        }
        i += 1;
    }
    assert(participant_views(participants@).take(participants.len() as int) =~= participant_views(
        participants@,
    ));
    Embed {
        title: "Readycheck!".to_string(),
        description: "Ready the feck up <a:catreeee:1110171057853300766>".to_string(),
        colour,
        fields,
    }
}

} // verus!
