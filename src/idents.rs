use vstd::prelude::*;

verus! {

/// The names in the storage schema: the table of records and its columns.
#[derive(Clone, Copy, Debug, PartialEq, Eq, Structural)]
pub enum I {
    Id,
    Entry,
    Data,
    AddedAt,
}

impl I {
    /// The identifier as it is written in the schema, in snake case.
    pub open spec fn name_text(self) -> Seq<char> {
        match self {
            I::Id => "id"@,
            I::Entry => "entry"@,
            I::Data => "data"@,
            I::AddedAt => "added_at"@,
        }
    }

    pub fn name(&self) -> (r: &'static str)
        ensures
            r@ == self.name_text(),
    {
        match self {
            I::Id => "id",
            I::Entry => "entry",
            I::Data => "data",
            I::AddedAt => "added_at",
        }
    }
}

} // verus!
