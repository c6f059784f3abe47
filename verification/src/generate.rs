use vstd::prelude::*;

use crate::names::{synthesize, GeneratedNames};
use crate::schema::{GenError, Schema};
use crate::strategy::{parse_strategy, strategy_of_token, Strategy};

verus! {

/// The outcome of a successful generation request: the resolved strategy
/// and the full set of synthesized identifiers. Nothing is produced for a
/// request that fails.
#[derive(Debug, Clone)]
pub struct LayoutPlan {
    pub strategy: Strategy,
    pub names: GeneratedNames,
}

/// Resolve a generation request: validate the strategy token, then the
/// schema, then synthesize every derived identifier. The token is examined
/// first, so an unknown token is reported even for a broken schema; a
/// recognised token with an invalid schema reports the schema error; and a
/// well-formed request yields the plan and nothing fails.
pub fn layout(schema: &Schema, strategy_token: &str) -> (r: Result<LayoutPlan, GenError>)
    ensures
        strategy_of_token(strategy_token@) is None ==> r == Err::<LayoutPlan, GenError>(
            GenError::UnknownStrategy,
        ),
        strategy_of_token(strategy_token@) is Some && schema.fields@.len() == 0 ==> r == Err::<
            LayoutPlan,
            GenError,
        >(GenError::SchemaWithoutFields),
        strategy_of_token(strategy_token@) is Some && schema.fields@.len() > 0 && !schema.valid()
            ==> r == Err::<LayoutPlan, GenError>(GenError::UnnamedField),
        strategy_of_token(strategy_token@) is Some && schema.valid() ==> {
            &&& r is Ok
            &&& Some(r->Ok_0.strategy) == strategy_of_token(strategy_token@)
            &&& r->Ok_0.names.derived_from(*schema)
        },
{
    let strategy = match parse_strategy(strategy_token) {
        Ok(s) => s,
        Err(e) => {
            return Err(e);
        },
    };
    match schema.validate() {
        Ok(_) => {},
        Err(e) => {
            return Err(e);
        },
    }
    Ok(LayoutPlan { strategy, names: synthesize(schema) })
}

} // verus!
