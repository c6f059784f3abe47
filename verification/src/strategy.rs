use vstd::prelude::*;

use crate::render::str_eq;
use crate::schema::GenError;

verus! {

/// The two storage strategies a layout can be compiled to. The choice is
/// made once, at generation time; there is no runtime layout switching.
#[derive(Debug, Copy, Clone, PartialEq, Eq, Structural)]
pub enum Strategy {
    /// Struct-of-arrays: one vector per field.
    Columnar,
    /// Array-of-structs: one vector of whole records.
    RowMajor,
}

/// The strategy a configuration token stands for, or `None` for a token
/// that names no strategy.
pub open spec fn strategy_of_token(tok: Seq<char>) -> Option<Strategy> {
    if tok == "soa"@ || tok == "struct-of-arrays"@ {
        Some(Strategy::Columnar)
    } else if tok == "aos"@ || tok == "array-of-structs"@ {
        Some(Strategy::RowMajor)
    } else {
        None
    }
}

/// Resolve a configuration token to a strategy: `"soa"` and
/// `"struct-of-arrays"` select the columnar layout, `"aos"` and
/// `"array-of-structs"` the row-major one. Any other token is a
/// generation-time configuration error.
pub fn parse_strategy(token: &str) -> (r: Result<Strategy, GenError>)
    ensures
        r == match strategy_of_token(token@) {
            Some(s) => Ok::<Strategy, GenError>(s),
            None => Err::<Strategy, GenError>(GenError::UnknownStrategy),
        },
{
    if str_eq(token, "soa") || str_eq(token, "struct-of-arrays") {
        Ok(Strategy::Columnar)
    } else if str_eq(token, "aos") || str_eq(token, "array-of-structs") {
        Ok(Strategy::RowMajor)
    } else {
        Err(GenError::UnknownStrategy)
    }
}

} // verus!
