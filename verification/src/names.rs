//! Names of arenas and components: identifier tokens.

use crate::errors::{SchemaError, SchemaFault};
use vstd::prelude::*;

verus! {

/// A character that may open a name: an ASCII letter or the underscore.
pub open spec fn name_start(c: char) -> bool {
    ||| 'a' <= c <= 'z'
    ||| 'A' <= c <= 'Z'
    ||| c == '_'
}

/// A character that may follow in a name: one that may open it, or an
/// ASCII digit.
pub open spec fn name_part(c: char) -> bool {
    name_start(c) || '0' <= c <= '9'
}

/// A well-formed name is an identifier token: it is not empty, opens with
/// a letter or an underscore, and goes on with letters, digits and
/// underscores.
pub open spec fn valid_name(name: Seq<char>) -> bool {
    &&& name.len() > 0
    &&& name_start(name[0])
    &&& forall|i: int| 0 <= i < name.len() ==> name_part(#[trigger] name[i])
}

fn is_name_start(c: char) -> (ok: bool)
    ensures
        ok == name_start(c),
{
    ('a' <= c && c <= 'z') || ('A' <= c && c <= 'Z') || c == '_'
}

fn is_name_part(c: char) -> (ok: bool)
    ensures
        ok == name_part(c),
{
    is_name_start(c) || ('0' <= c && c <= '9')
}

/// Whether `name` is a well-formed name.
pub fn is_valid_name(name: &str) -> (ok: bool)
    ensures
        ok == valid_name(name@),
{
    let n = name.unicode_len();
    if n == 0 {
        return false;
    }
    if !is_name_start(name.get_char(0)) {
        return false;
    }
    let mut i: usize = 1;
    while i < n
        invariant
            1 <= i <= n,
            n == name@.len(),
            forall|j: int| 0 <= j < i ==> name_part(#[trigger] name@[j]),
        decreases n - i,
    {
        if !is_name_part(name.get_char(i)) {
            return false;
        }
        i += 1;
    }
    true
}

/// The name as an owned string, or the reason why it is refused: a token
/// that is not a well-formed name.
pub fn parse_name(name: &str) -> (parsed: Result<String, SchemaError>)
    ensures
        parsed is Ok <==> valid_name(name@),
        parsed matches Ok(text) ==> text@ == name@,
        parsed matches Err(e) ==> e@ == (SchemaFault::Construction { token: name@ }),
{
    if is_valid_name(name) {
        Ok(String::from_str(name))
    } else {
        Err(SchemaError::Construction { token: String::from_str(name) })
    }
}

} // verus!
