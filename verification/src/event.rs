//! The inbound event data model.
//!
//! An event arrives as a JSON object; the surrounding application decodes it
//! into these plain structures before handing it to the library. Every field
//! the relay reads is held here as an owned value, and each type carries a
//! mathematical view over which the contracts of the filter and the card
//! builder are stated.

use vstd::prelude::*;

verus! {

/// The assignee of an issue, when one is set.
pub struct Assignee {
    pub name: String,
}

/// The workflow state an issue sits in.
pub struct IssueState {
    pub name: String,
}

/// The issue record nested inside an inbound event.
pub struct Issue {
    pub id: String,
    pub title: String,
    pub priority: u8,
    pub state: IssueState,
    pub assignee: Option<Assignee>,
    pub identifier: String,
}

/// One inbound change event from the issue tracker.
pub struct LinearPayload {
    pub action: String,
    pub kind: String,
    pub data: Issue,
    pub url: String,
}

/// Mathematical model of an [`Issue`].
pub struct IssueModel {
    pub id: Seq<char>,
    pub title: Seq<char>,
    pub priority: u8,
    pub state_name: Seq<char>,
    pub assignee: Option<Seq<char>>,
    pub identifier: Seq<char>,
}

/// Mathematical model of a [`LinearPayload`].
pub struct PayloadModel {
    pub action: Seq<char>,
    pub kind: Seq<char>,
    pub data: IssueModel,
    pub url: Seq<char>,
}

impl View for Issue {
    type V = IssueModel;

    open spec fn view(&self) -> IssueModel {
        IssueModel {
            id: self.id@,
            title: self.title@,
            priority: self.priority,
            state_name: self.state.name@,
            assignee: match self.assignee {
                Some(ref a) => Some(a.name@),
                None => None,
            },
            identifier: self.identifier@,
        }
    }
}

impl View for LinearPayload {
    type V = PayloadModel;

    open spec fn view(&self) -> PayloadModel {
        PayloadModel {
            action: self.action@,
            kind: self.kind@,
            data: self.data@,
            url: self.url@,
        }
    }
}

} // verus!
