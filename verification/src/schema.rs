//! The token standards and their names.

use vstd::prelude::*;

verus! {

/// The token standard whose transfer event produced a record.
#[derive(Clone, Copy, Debug, PartialEq, Eq, Structural, Hash, PartialOrd, Ord)]
pub enum Schema {
    Erc20,
    Erc721,
    Erc1155,
}

impl Schema {
    /// The name under which the standard appears in a record's `schema` field.
    pub open spec fn name(self) -> Seq<char> {
        match self {
            Schema::Erc20 => "erc20"@,
            Schema::Erc721 => "erc721"@,
            Schema::Erc1155 => "erc1155"@,
        }
    }

    /// The standard's name as a static string.
    pub fn as_str_name(&self) -> (name: &'static str)
        ensures
            name@ == self.name(),
    {
        match self {
            Schema::Erc20 => "erc20",
            Schema::Erc721 => "erc721",
            Schema::Erc1155 => "erc1155",
        }
    }
}

/// The standard's name as an owned string.
pub fn schema_to_string(schema: Schema) -> (name: String)
    ensures
        name@ == schema.name(),
{
    schema.as_str_name().to_owned()
}

/// No two standards share a name, and no name is empty.
pub proof fn lemma_schema_names_distinct(a: Schema, b: Schema)
    ensures
        a.name().len() > 0,
        a.name() == b.name() <==> a == b,
{
    reveal_strlit("erc20");
    reveal_strlit("erc721");
    reveal_strlit("erc1155");
    if a != b {
        assert(a.name().len() != b.name().len());
    }
}

} // verus!
