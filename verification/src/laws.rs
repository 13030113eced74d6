//! Laws of the pipeline, stated and proved over the spec-level meaning of
//! parsing, lowering and rendering.

use vstd::prelude::*;
use crate::lexer::TokV;
use crate::parser::{POut, sp_p_term, sp_p_expression, sp_p_binop_chain, sp_parse_all};
use crate::text::{
    sp_all_digits, sp_is_digit, sp_starts_with, sp_contains, lemma_contains_self,
    lemma_contains_concat_left, lemma_contains_concat_right,
};
use crate::transpiler::ast::{ContractV, ExpressionV, MappingTypeV, StateVariableV};
use crate::transpiler::converter::{
    ClarityDataVarV, ClarityExpressionV, sp_map_type, sp_convert_contract,
    sp_convert_expression, sp_convert_mapping, sp_nested_key_value, sp_is_mapping,
};
use crate::generator::{
    sp_render, sp_render_header, sp_render_consts, sp_render_const, sp_render_vars, sp_render_var,
    sp_render_var_getter, sp_is_public_var,
};

verus! {

/// Rendering the lowering of any contract a successful parse returns
/// yields non-empty text that opens with the header comment naming that
/// contract.  Every stage is a total function, so the whole pipeline
/// terminates by construction.
pub proof fn lemma_pipeline_header(src: Seq<char>, k: int)
    requires
        sp_parse_all(src) is Ok,
        0 <= k < sp_parse_all(src)->Ok_0.len(),
    ensures
        ({
            let c = sp_parse_all(src)->Ok_0[k];
            let text = sp_render(sp_convert_contract(c));
            text.len() > 0 && sp_starts_with(text, ";; Contract: "@ + c.name + "\n"@)
        }),
{
    let c = sp_parse_all(src)->Ok_0[k];
    let lowered = sp_convert_contract(c);
    let text = sp_render(lowered);
    let pfx = ";; Contract: "@ + c.name + "\n"@;
    reveal_strlit(";; Contract: ");
    reveal_strlit("\n");
    assert(lowered.name == c.name);
    assert(sp_render_header(c.name).subrange(0, pfx.len() as int) =~= pfx);
    assert(text.subrange(0, pfx.len() as int) =~= pfx);
}

/// The type-mapping table is idempotent: mapping an already-mapped type
/// changes nothing.  The two source spellings whose targets re-map to the
/// default integer type are the only exceptions and are left out.
pub proof fn lemma_map_type_idempotent(t: Seq<char>)
    requires
        t != "address"@,
        t != "string"@,
    ensures
        sp_map_type(sp_map_type(t)) == sp_map_type(t),
{
    reveal_strlit("uint256");
    reveal_strlit("uint");
    reveal_strlit("bool");
    reveal_strlit("address");
    reveal_strlit("string");
    reveal_strlit("principal");
    reveal_strlit("string-ascii");
    reveal_strlit("mapping");
    if t == "uint256"@ || t == "uint"@ {
        assert(sp_map_type(t) == "uint"@);
        assert(sp_map_type("uint"@) == "uint"@);
    } else if t == "bool"@ {
        assert(sp_map_type("bool"@) == "bool"@);
    } else if sp_starts_with(t, "mapping"@) {
        assert(sp_map_type(t) == t);
    } else {
        assert(sp_map_type(t) == "uint"@);
        assert(sp_map_type("uint"@) == "uint"@);
    }
}

/// Appending one element at the back extends the data-var section by that
/// element's piece.
proof fn lemma_render_vars_push(s: Seq<ClarityDataVarV>, v: ClarityDataVarV)
    ensures
        sp_render_vars(s.push(v)) == sp_render_vars(s) + (if !v.is_constant {
            sp_render_var(v)
        } else {
            Seq::<char>::empty()
        }),
{
    assert(s.push(v).drop_last() =~= s);
    assert(s.push(v).last() == v);
}

/// The data-var section is built from the non-constant variables alone:
/// a constant variable contributes nothing there, so it is never declared
/// as a mutable data var and never receives a generated getter.
pub proof fn lemma_render_vars_skip_constants(vs: Seq<ClarityDataVarV>)
    ensures
        sp_render_vars(vs) == sp_render_vars(
            vs.filter(|v: ClarityDataVarV| !v.is_constant),
        ),
    decreases vs.len(),
{
    reveal(Seq::filter);
    if vs.len() > 0 {
        let dl = vs.drop_last();
        let last = vs.last();
        lemma_render_vars_skip_constants(dl);
        assert(vs.filter(|v: ClarityDataVarV| !v.is_constant) == dl.filter(
            |v: ClarityDataVarV| !v.is_constant,
        ) + (if !last.is_constant {
            seq![last]
        } else {
            Seq::<ClarityDataVarV>::empty()
        })) by {
            assert(vs.drop_last() == dl);
            if !last.is_constant {
                assert(dl.filter(|v: ClarityDataVarV| !v.is_constant).push(last) =~= dl.filter(
                    |v: ClarityDataVarV| !v.is_constant,
                ) + seq![last]);
            } else {
                assert(dl.filter(|v: ClarityDataVarV| !v.is_constant) + Seq::<
                    ClarityDataVarV,
                >::empty() =~= dl.filter(|v: ClarityDataVarV| !v.is_constant));
            }
        }
        if !last.is_constant {
            lemma_render_vars_push(dl.filter(|v: ClarityDataVarV| !v.is_constant), last);
            assert(dl.filter(|v: ClarityDataVarV| !v.is_constant).push(last) =~= dl.filter(
                |v: ClarityDataVarV| !v.is_constant,
            ) + seq![last]);
        } else {
            assert(sp_render_vars(vs) == sp_render_vars(dl) + Seq::<char>::empty());
            assert(sp_render_vars(dl) + Seq::<char>::empty() =~= sp_render_vars(dl));
        }
    }
}

/// Every constant state variable appears in the constants section as a
/// constant definition.
pub proof fn lemma_constant_rendered(vs: Seq<ClarityDataVarV>, k: int)
    requires
        0 <= k < vs.len(),
        vs[k].is_constant,
    ensures
        sp_contains(sp_render_consts(vs), sp_render_const(vs[k])),
    decreases vs.len(),
{
    let dl = vs.drop_last();
    let last = vs.last();
    if k == vs.len() - 1 {
        lemma_contains_self(sp_render_const(last));
        lemma_contains_concat_left(sp_render_consts(dl), sp_render_const(last), sp_render_const(
            last,
        ));
    } else {
        lemma_constant_rendered(dl, k);
        assert(dl[k] == vs[k]);
        lemma_contains_concat_right(sp_render_consts(dl), (if last.is_constant {
            sp_render_const(last)
        } else {
            Seq::<char>::empty()
        }), sp_render_const(vs[k]));
    }
}

/// Every public non-constant state variable's read-only getter appears in
/// the data-var section; by the shape of [`sp_render_var`] each such
/// variable contributes exactly one getter, named after the variable.
pub proof fn lemma_public_var_getter(vs: Seq<ClarityDataVarV>, k: int)
    requires
        0 <= k < vs.len(),
        !vs[k].is_constant,
        sp_is_public_var(vs[k]),
    ensures
        sp_contains(sp_render_vars(vs), sp_render_var_getter(vs[k])),
    decreases vs.len(),
{
    let dl = vs.drop_last();
    let last = vs.last();
    if k == vs.len() - 1 {
        let piece = sp_render_var(last);
        let getter = sp_render_var_getter(last);
        let pre = ";; @desc Stores the "@ + last.name + " value\n"@ + ";; @access public\n"@
            + "(define-data-var "@ + last.name + " "@ + last.var_type + " "@ + last.initial_value
            + ")\n"@;
        assert(piece =~= pre + getter);
        lemma_contains_self(getter);
        lemma_contains_concat_left(pre, getter, getter);
        lemma_contains_concat_left(sp_render_vars(dl), piece, getter);
    } else {
        lemma_public_var_getter(dl, k);
        assert(dl[k] == vs[k]);
        lemma_contains_concat_right(sp_render_vars(dl), (if !last.is_constant {
            sp_render_var(last)
        } else {
            Seq::<char>::empty()
        }), sp_render_var_getter(vs[k]));
    }
}

/// The innermost value type of a nested mapping chain, already mapped to
/// its target spelling.
pub open spec fn sp_innermost_value(m: MappingTypeV) -> Seq<char>
    decreases m,
{
    match m.nested {
        Option::Some(n) => sp_innermost_value(*n),
        Option::None => sp_map_type(m.value_type),
    }
}

/// Flattening a nested chain always yields the innermost value type.
pub proof fn lemma_nested_value_innermost(m: MappingTypeV)
    ensures
        sp_nested_key_value(m).1 == sp_innermost_value(m),
    decreases m,
{
    match m.nested {
        Option::Some(n) => {
            lemma_nested_value_innermost(*n);
        },
        Option::None => {},
    }
}

/// A mapping declared with at least two levels of nesting lowers to one
/// single-level map whose key is the composite record combining the outer
/// key with the flattening of the inner levels, and whose value is the
/// innermost value type.
pub proof fn lemma_nested_mapping_flattens(v: StateVariableV, n: MappingTypeV, inner: MappingTypeV)
    requires
        v.is_mapping,
        v.nested_mapping == Option::Some(Box::new(n)),
        n.nested == Option::Some(Box::new(inner)),
    ensures
        sp_convert_mapping(v).key_type == "{owner: "@ + sp_map_type(n.key_type) + ", token-id: "@
            + sp_nested_key_value(inner).0 + "}"@,
        sp_convert_mapping(v).value_type == sp_innermost_value(inner),
{
    lemma_nested_value_innermost(inner);
}

/// Lowering makes exactly one map out of every mapping declaration, in
/// declaration order.
pub proof fn lemma_one_map_per_mapping(c: ContractV)
    ensures
        sp_convert_contract(c).maps.len() == c.state_variables.filter(
            |v: StateVariableV| sp_is_mapping(v),
        ).len(),
        forall|k: int|
            0 <= k < sp_convert_contract(c).maps.len() ==> sp_convert_contract(c).maps[k]
                == sp_convert_mapping(
                c.state_variables.filter(|v: StateVariableV| sp_is_mapping(v))[k],
            ),
{
}

/// Binary-expression parsing is left-associative with uniform precedence:
/// three terms joined by two operators parse as the left pair first.
pub proof fn lemma_left_associative(
    t: Seq<TokV>,
    i: int,
    e1: ExpressionV,
    j: int,
    e2: ExpressionV,
    k: int,
    e3: ExpressionV,
    m: int,
)
    requires
        sp_p_term(t, i) == POut::Good(e1, j),
        i < j,
        j < t.len(),
        t[j] is Op,
        sp_p_term(t, j + 1) == POut::Good(e2, k),
        j < k,
        k < t.len(),
        t[k] is Op,
        sp_p_term(t, k + 1) == POut::Good(e3, m),
        k < m,
        m <= t.len(),
        !(m < t.len() && t[m] is Op),
    ensures
        sp_p_expression(t, i) == POut::Good(
            ExpressionV::BinaryOp(
                Box::new(ExpressionV::BinaryOp(Box::new(e1), t[j]->Op_0, Box::new(e2))),
                t[k]->Op_0,
                Box::new(e3),
            ),
            m,
        ),
{
    let b1 = ExpressionV::BinaryOp(Box::new(e1), t[j]->Op_0, Box::new(e2));
    let b2 = ExpressionV::BinaryOp(Box::new(b1), t[k]->Op_0, Box::new(e3));
    assert(sp_p_binop_chain(t, m, b2) == POut::Good(b2, m));
    assert(sp_p_binop_chain(t, k, b1) == POut::Good(b2, m));
    assert(sp_p_binop_chain(t, j, e1) == POut::Good(b2, m));
}

/// An all-digit literal lowers with the unsigned-integer prefix; the two
/// boolean literals pass through unchanged.
pub proof fn lemma_literal_lowering(s: Seq<char>)
    ensures
        sp_convert_expression(ExpressionV::Literal("true"@)) == ClarityExpressionV::Literal(
            "true"@,
        ),
        sp_convert_expression(ExpressionV::Literal("false"@)) == ClarityExpressionV::Literal(
            "false"@,
        ),
        sp_all_digits(s) ==> sp_convert_expression(ExpressionV::Literal(s))
            == ClarityExpressionV::Literal("u"@ + s),
{
    reveal_strlit("true");
    reveal_strlit("false");
    if sp_all_digits(s) {
        if s == "true"@ {
            assert(sp_is_digit(s[0]));
            assert(false);
        }
        if s == "false"@ {
            assert(sp_is_digit(s[0]));
            assert(false);
        }
    }
}

} // verus!
