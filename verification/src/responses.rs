//! Decoded API responses, as plain records.

use vstd::prelude::*;

pub mod auth;
pub mod comment;
pub mod listing;
pub mod messages;
pub mod user;

verus! {

/// One flair that can be picked for a post or a user.
#[derive(Debug, Clone, Default)]
pub struct FlairChoice {
    /// The text shown for the flair.
    pub flair_text: String,
    /// The identifier to send when the flair is selected.
    pub flair_template_id: String,
    /// The CSS class that styles the flair.
    pub flair_css_class: String,
    /// `true` if the user may edit the flair's text.
    pub flair_text_editable: bool,
}

/// The answer of the flair selector.
#[derive(Debug, Clone, Default)]
pub struct FlairSelectorResponse {
    /// The flairs on offer.
    pub choices: Vec<FlairChoice>,
}

} // verus!
