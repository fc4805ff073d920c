//! The outbound card message and its construction from an inbound event.
//!
//! A card is a header (a colour tag and a title line) followed by a fixed
//! ordering of display elements: the issue title in bold, a block of three
//! labelled fields (status, priority, assignee), and a button linking back
//! to the source record. The construction is a total, pure mapping from the
//! event model, stated by [`build_card_spec`] and realised by
//! [`build_lark_card`].

use vstd::prelude::*;

use crate::event::{LinearPayload, PayloadModel};
use crate::text::str_eq;

verus! {

/// One short labelled field inside the fields block.
pub struct CardField {
    pub content: String,
}

/// One display element of a card, in the closed set the wire format knows.
pub enum CardElement {
    /// A bold text block holding the issue title.
    TitleBlock { content: String },
    /// A block of short labelled fields.
    FieldsBlock { fields: Vec<CardField> },
    /// A block with one button linking to the source record.
    ActionBlock { url: String },
}

/// The card header: a colour template tag and a title line.
pub struct LarkHeader {
    pub template: String,
    pub title: String,
}

/// The card itself: a header and its ordered display elements.
pub struct LarkCard {
    pub header: LarkHeader,
    pub elements: Vec<CardElement>,
}

/// A complete outbound message: one interactive card.
pub struct LarkMessage {
    pub card: LarkCard,
}

/// Mathematical model of one [`CardElement`].
#[verifier::ext_equal]
pub enum ElemModel {
    Title(Seq<char>),
    Fields(Seq<Seq<char>>),
    Action(Seq<char>),
}

/// Mathematical model of a [`LarkMessage`].
#[verifier::ext_equal]
pub struct MessageModel {
    pub template: Seq<char>,
    pub title: Seq<char>,
    pub elements: Seq<ElemModel>,
}

impl View for CardElement {
    type V = ElemModel;

    open spec fn view(&self) -> ElemModel {
        match self {
            CardElement::TitleBlock { content } => ElemModel::Title(content@),
            CardElement::FieldsBlock { fields } => ElemModel::Fields(
                fields@.map_values(|f: CardField| f.content@),
            ),
            CardElement::ActionBlock { url } => ElemModel::Action(url@),
        }
    }
}

impl View for LarkMessage {
    type V = MessageModel;

    open spec fn view(&self) -> MessageModel {
        MessageModel {
            template: self.card.header.template@,
            title: self.card.header.title@,
            elements: self.card.elements@.map_values(|e: CardElement| e@),
        }
    }
}

/// The colour tag a priority maps to. Total over all byte values.
pub open spec fn priority_color_spec(priority: u8) -> Seq<char> {
    if priority == 1 {
        "red"@
    } else if priority == 2 {
        "orange"@
    } else if priority == 3 {
        "yellow"@
    } else {
        "blue"@
    }
}

/// The human label a priority maps to. Total over all byte values.
pub open spec fn priority_label_spec(priority: u8) -> Seq<char> {
    if priority == 1 {
        "Urgent"@
    } else if priority == 2 {
        "High"@
    } else if priority == 3 {
        "Medium"@
    } else if priority == 4 {
        "Low"@
    } else {
        "None"@
    }
}

/// The human label an action maps to; an unrecognised action passes through
/// verbatim (the filter admits only the first two, so the last arm is a
/// defensive default).
pub open spec fn action_label_spec(action: Seq<char>) -> Seq<char> {
    if action == "create"@ {
        "Created"@
    } else if action == "update"@ {
        "Updated"@
    } else {
        action
    }
}

/// The display name for an optional assignee.
pub open spec fn assignee_display_spec(assignee: Option<Seq<char>>) -> Seq<char> {
    match assignee {
        Some(name) => name,
        None => "Unassigned"@,
    }
}

/// The header title line of the card built from a payload.
pub open spec fn card_title_spec(p: PayloadModel) -> Seq<char> {
    "[Linear] "@ + action_label_spec(p.action) + ": "@ + p.data.identifier
}

/// The complete card built from a payload: colour from the priority, the
/// title line in the header, then the three elements in their fixed order.
pub open spec fn build_card_spec(p: PayloadModel) -> MessageModel {
    MessageModel {
        template: priority_color_spec(p.data.priority),
        title: card_title_spec(p),
        elements: seq![
            ElemModel::Title("**"@ + p.data.title + "**"@),
            ElemModel::Fields(
                seq![
                    "**Status:** "@ + p.data.state_name,
                    "**Priority:** "@ + priority_label_spec(p.data.priority),
                    "**Assignee:** "@ + assignee_display_spec(p.data.assignee),
                ],
            ),
            ElemModel::Action(p.url),
        ],
    }
}

/// Maps a priority to its colour tag.
pub fn priority_color(priority: u8) -> (r: &'static str)
    ensures
        r@ == priority_color_spec(priority),
{
    match priority {
        1 => "red",
        2 => "orange",
        3 => "yellow",
        _ => "blue",
    }
}

/// Maps a priority to its human label.
pub fn priority_label(priority: u8) -> (r: &'static str)
    ensures
        r@ == priority_label_spec(priority),
{
    match priority {
        1 => "Urgent",
        2 => "High",
        3 => "Medium",
        4 => "Low",
        _ => "None",
    }
}

/// Maps an action to its human label.
pub fn action_label(action: &str) -> (r: String)
    ensures
        r@ == action_label_spec(action@),
{
    if str_eq(action, "create") {
        String::from_str("Created")
    } else if str_eq(action, "update") {
        String::from_str("Updated")
    } else {
        action.to_owned()
    }
}

/// Builds the outbound card for a payload, exactly as [`build_card_spec`]
/// states it: colour and priority label from the priority, the header title
/// line, then the bold title block, the three fields, and the link button.
pub fn build_lark_card(payload: &LinearPayload) -> (r: LarkMessage)
    ensures
        r@ == build_card_spec(payload@),
{
    let color = priority_color(payload.data.priority);
    let label = action_label(payload.action.as_str());

    let mut title = String::from_str("[Linear] ");
    title.append(label.as_str());
    title.append(": ");
    title.append(payload.data.identifier.as_str());

    let mut bold_title = String::from_str("**");
    bold_title.append(payload.data.title.as_str());
    bold_title.append("**");

    let mut status_field = String::from_str("**Status:** ");
    status_field.append(payload.data.state.name.as_str());

    let mut priority_field = String::from_str("**Priority:** ");
    priority_field.append(priority_label(payload.data.priority));

    let mut assignee_field = String::from_str("**Assignee:** ");
    match payload.data.assignee {
        Some(ref a) => assignee_field.append(a.name.as_str()),
        None => assignee_field.append("Unassigned"),
    }

    let mut fields: Vec<CardField> = Vec::new();
    fields.push(CardField { content: status_field });
    fields.push(CardField { content: priority_field });
    fields.push(CardField { content: assignee_field });

    let mut elements: Vec<CardElement> = Vec::new();
    elements.push(CardElement::TitleBlock { content: bold_title });
    elements.push(CardElement::FieldsBlock { fields });
    elements.push(CardElement::ActionBlock { url: payload.url.clone() });

    let message = LarkMessage {
        card: LarkCard {
            header: LarkHeader { template: color.to_owned(), title },
            elements,
        },
    };
    proof {
        assert(message@.elements =~~= build_card_spec(payload@).elements);
        assert(message@ =~~= build_card_spec(payload@));
    }
    message
}

} // verus!
