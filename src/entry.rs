use vstd::prelude::*;

verus! {

/// One clipboard-history record, as the storage collaborator hands it out.
///
/// `added_at` is the insertion time in milliseconds since the Unix epoch (UTC);
/// the storage lists records newest first.
#[derive(Clone, Debug, PartialEq, Eq)]
pub struct Entry {
    pub id: i32,
    pub data: String,
    pub added_at: i64,
}

impl Entry {
    /// A copy of this record, equal to it.
    pub fn duplicate(&self) -> (r: Entry)
        ensures
            r == *self,
    {
        Entry { id: self.id, data: self.data.clone(), added_at: self.added_at }
    }
}

} // verus!
