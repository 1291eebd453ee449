use vstd::prelude::*;

pub mod history;
pub mod settings;

verus! {

/// A live window of the application, borrowed with the state of its kind.
pub enum Window<'a> {
    History(&'a history::State),
    Settings(&'a settings::State),
}

} // verus!
