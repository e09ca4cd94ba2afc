//! What each command does to the settings and what it tells the user.

pub mod alias;
pub mod provider;
pub mod weather;

use crate::config::{SaveRequest, SaveView};
use vstd::prelude::*;

verus! {

/// A change of the settings together with what the user is told about it.
#[derive(Debug, PartialEq, Eq)]
pub struct Change {
    /// Shown at once.
    pub notice: String,
    /// The writing of the settings file that has to follow.
    pub save: SaveRequest,
    /// Shown once the file was written.
    pub report: String,
}

/// A change as plain values.
pub struct ChangeView {
    pub notice: Seq<char>,
    pub save: SaveView,
    pub report: Seq<char>,
}

impl View for Change {
    type V = ChangeView;

    open spec fn view(&self) -> ChangeView {
        ChangeView { notice: self.notice@, save: self.save@, report: self.report@ }
    }
}

} // verus!
