//! What can be wrong with a schema.

use crate::validate::Rule;
use vstd::prelude::*;

verus! {

/// Why a schema is refused, as plain values.
pub enum SchemaFault {
    Construction { token: Seq<char> },
    Lookup { arena: Seq<char>, target: Seq<char> },
    Validation { rule: Rule, arena: Seq<char>, target: Seq<char> },
}

/// Why a schema is refused.
#[derive(Debug)]
pub enum SchemaError {
    /// `token` is not a well-formed name.
    Construction { token: String },
    /// The arena `arena` has an edge to `target`, and no arena of that
    /// name is declared.
    Lookup { arena: String, target: String },
    /// The edge from `arena` to `target` is one that `rule` forbids.
    Validation { rule: Rule, arena: String, target: String },
}

impl SchemaError {
    pub open spec fn view(&self) -> SchemaFault {
        match self {
            SchemaError::Construction { token } => SchemaFault::Construction { token: token@ },
            SchemaError::Lookup { arena, target } => SchemaFault::Lookup {
                arena: arena@,
                target: target@,
            },
            SchemaError::Validation { rule, arena, target } => SchemaFault::Validation {
                rule: *rule,
                arena: arena@,
                target: target@,
            },
        }
    }
}

} // verus!
