//! Lowering of a source contract into the target intermediate
//! representation.

pub mod ast;
pub mod converter;

use vstd::prelude::*;
use crate::errors::TranspileError;
use crate::transpiler::ast::Contract;
use crate::transpiler::converter::{ClarityContract, convert_contract, sp_convert_contract};

verus! {

/// Lowering of one parsed contract into the target representation.
/// Lowering is total: the result is always the lowered contract.
pub fn convert(contract: Contract) -> (r: Result<ClarityContract, TranspileError>)
    ensures
        r matches Result::Ok(cc) && cc.deep_view() == sp_convert_contract(contract.deep_view()),
{
    convert_contract(contract)
}

} // verus!
