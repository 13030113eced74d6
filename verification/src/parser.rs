//! Parsing of source text into contract syntax trees.
//!
//! The grammar recognizes top-level contract declarations holding state
//! variables (scalar or arbitrarily nested mappings), functions, at most
//! one constructor, and events.  Expressions fold left-associatively with
//! uniform precedence.  Parsing is fail-fast: the first error aborts the
//! whole file.
//!
//! The grammar's meaning is the family of `sp_p_*` spec functions over the
//! token models; the executable parser returns exactly what they describe.

use vstd::prelude::*;
use vstd::string::StringExecFns;
use crate::errors::TranspileError;
use crate::lexer::{Tok, TokV, LexOut, sp_lex, tokenize};
use crate::text::str_eq;
use crate::transpiler::ast::{
    Contract, ContractV, Function, FunctionV, Constructor, ConstructorV, Parameter, ParameterV,
    StateVariable, StateVariableV, MappingType, MappingTypeV, Event, EventV, EventParameter,
    EventParameterV, Statement, StatementV, Expression, ExpressionV, deep_opt_mapping,
};

verus! {

broadcast use vstd::std_specs::vec::group_vec_axioms, crate::views::lemma_vec_deep_view;

/// The outcome of one grammar production: a value and the position after
/// it, or a failure.
#[verifier::ext_equal]
pub enum POut<T> {
    Good(T, int),
    Fail(TranspileError),
}

/// Whether position `i` holds the identifier `w`.
pub open spec fn sp_at_kw(t: Seq<TokV>, i: int, w: Seq<char>) -> bool {
    0 <= i < t.len() && t[i] is Ident && t[i]->Ident_0 == w
}

/// Whether position `i` holds any identifier.
pub open spec fn sp_at_ident(t: Seq<TokV>, i: int) -> bool {
    0 <= i < t.len() && t[i] is Ident
}

/// A member-access chain: `.` and an identifier, repeated, folding left.
pub open spec fn sp_p_member_chain(t: Seq<TokV>, i: int, acc: ExpressionV) -> POut<ExpressionV>
    decreases t.len() - i, 0int,
{
    if 0 <= i && i + 1 < t.len() && t[i] is Dot && t[i + 1] is Ident {
        sp_p_member_chain(t, i + 2, ExpressionV::MemberAccess(Box::new(acc), t[i + 1]->Ident_0))
    } else {
        POut::Good(acc, i)
    }
}

/// A member access: an identifier followed by a member chain.
pub open spec fn sp_p_member(t: Seq<TokV>, i: int) -> POut<ExpressionV>
    decreases t.len() - i, 1int,
{
    if 0 <= i < t.len() && t[i] is Ident {
        sp_p_member_chain(t, i + 1, ExpressionV::Identifier(t[i]->Ident_0))
    } else {
        POut::Fail(TranspileError::Syntax)
    }
}

/// An index chain: `[expr]` suffixes after a base expression.  A first
/// index turns an identifier into a map access; a further index folds into
/// a composite key built with the synthetic `,` operator.
pub open spec fn sp_p_index_chain(t: Seq<TokV>, i: int, acc: ExpressionV) -> POut<ExpressionV>
    decreases t.len() - i, 1int,
{
    if 0 <= i < t.len() && t[i] is LBrack {
        match sp_p_expression(t, i + 1) {
            POut::Good(idx, j) => if i + 1 <= j && j < t.len() && t[j] is RBrack {
                match acc {
                    ExpressionV::Identifier(name) => sp_p_index_chain(
                        t,
                        j + 1,
                        ExpressionV::MapAccess(name, Box::new(idx)),
                    ),
                    ExpressionV::MapAccess(name, prev) => sp_p_index_chain(
                        t,
                        j + 1,
                        ExpressionV::MapAccess(
                            name,
                            Box::new(ExpressionV::BinaryOp(prev, ","@, Box::new(idx))),
                        ),
                    ),
                    _ => POut::Fail(TranspileError::Syntax),
                }
            } else {
                POut::Fail(TranspileError::Syntax)
            },
            POut::Fail(er) => POut::Fail(er),
        }
    } else {
        POut::Good(acc, i)
    }
}

/// An indexed access: a member access with optional index suffixes.
pub open spec fn sp_p_index(t: Seq<TokV>, i: int) -> POut<ExpressionV>
    decreases t.len() - i, 2int,
{
    match sp_p_member(t, i) {
        POut::Good(e, j) => if i < j <= t.len() {
            sp_p_index_chain(t, j, e)
        } else {
            POut::Fail(TranspileError::Syntax)
        },
        POut::Fail(er) => POut::Fail(er),
    }
}

/// A term: a literal, an indexed access, or a parenthesized sub-term.
pub open spec fn sp_p_term(t: Seq<TokV>, i: int) -> POut<ExpressionV>
    decreases t.len() - i, 3int,
{
    if !(0 <= i < t.len()) {
        POut::Fail(TranspileError::MissingSubexpression)
    } else {
        match t[i] {
            TokV::Num(v) => POut::Good(ExpressionV::Literal(v), i + 1),
            TokV::Str(v) => POut::Good(ExpressionV::Literal(v), i + 1),
            TokV::Ident(name) => if name == "true"@ || name == "false"@ {
                POut::Good(ExpressionV::Literal(name), i + 1)
            } else {
                sp_p_index(t, i)
            },
            TokV::LParen => match sp_p_term(t, i + 1) {
                POut::Good(e, j) => if i + 1 <= j && j < t.len() && t[j] is RParen {
                    POut::Good(e, j + 1)
                } else {
                    POut::Fail(TranspileError::Syntax)
                },
                POut::Fail(er) => POut::Fail(er),
            },
            _ => POut::Fail(TranspileError::MissingSubexpression),
        }
    }
}

/// A chain of operator-term pairs, folded left-associatively with uniform
/// precedence.
pub open spec fn sp_p_binop_chain(t: Seq<TokV>, i: int, acc: ExpressionV) -> POut<ExpressionV>
    decreases t.len() - i, 0int,
{
    if 0 <= i < t.len() && t[i] is Op {
        match sp_p_term(t, i + 1) {
            POut::Good(e2, j) => if i < j <= t.len() {
                sp_p_binop_chain(
                    t,
                    j,
                    ExpressionV::BinaryOp(Box::new(acc), t[i]->Op_0, Box::new(e2)),
                )
            } else {
                POut::Fail(TranspileError::Syntax)
            },
            POut::Fail(er) => POut::Fail(er),
        }
    } else {
        POut::Good(acc, i)
    }
}

/// An expression: a first term and zero or more operator-term pairs.
pub open spec fn sp_p_expression(t: Seq<TokV>, i: int) -> POut<ExpressionV>
    decreases t.len() - i, 4int,
{
    match sp_p_term(t, i) {
        POut::Good(e, j) => if i < j <= t.len() {
            sp_p_binop_chain(t, j, e)
        } else {
            POut::Fail(TranspileError::Syntax)
        },
        POut::Fail(er) => POut::Fail(er),
    }
}

/// Further call arguments: `, expr` repeated, then the closing parenthesis.
pub open spec fn sp_p_more_args(t: Seq<TokV>, i: int, acc: Seq<ExpressionV>) -> POut<
    Seq<ExpressionV>,
>
    decreases t.len() - i,
{
    if 0 <= i < t.len() && t[i] is Comma {
        match sp_p_expression(t, i + 1) {
            POut::Good(e, j) => if i < j <= t.len() {
                sp_p_more_args(t, j, acc.push(e))
            } else {
                POut::Fail(TranspileError::Syntax)
            },
            POut::Fail(er) => POut::Fail(er),
        }
    } else if 0 <= i < t.len() && t[i] is RParen {
        POut::Good(acc, i + 1)
    } else {
        POut::Fail(TranspileError::Syntax)
    }
}

/// A call argument list after the opening parenthesis, consuming the
/// closing one.
pub open spec fn sp_p_call_args(t: Seq<TokV>, i: int) -> POut<Seq<ExpressionV>>
    decreases t.len() - i, 5int,
{
    if 0 <= i < t.len() && t[i] is RParen {
        POut::Good(Seq::empty(), i + 1)
    } else {
        match sp_p_expression(t, i) {
            POut::Good(e, j) => if i < j <= t.len() {
                sp_p_more_args(t, j, seq![e])
            } else {
                POut::Fail(TranspileError::Syntax)
            },
            POut::Fail(er) => POut::Fail(er),
        }
    }
}

/// One statement.  A bare `return;` contributes no statement, so the
/// result is optional.
pub open spec fn sp_p_statement(t: Seq<TokV>, i: int) -> POut<Option<StatementV>>
    decreases t.len() - i, 5int,
{
    if !(0 <= i < t.len()) {
        POut::Fail(TranspileError::Syntax)
    } else if sp_at_kw(t, i, "return"@) {
        if i + 1 < t.len() && t[i + 1] is Semi {
            POut::Good(Option::None, i + 2)
        } else {
            match sp_p_expression(t, i + 1) {
                POut::Good(e, j) => if 0 <= j < t.len() && t[j] is Semi {
                    POut::Good(Option::Some(StatementV::Return(e)), j + 1)
                } else {
                    POut::Fail(TranspileError::Syntax)
                },
                POut::Fail(er) => POut::Fail(er),
            }
        }
    } else if sp_at_kw(t, i, "emit"@) {
        if i + 1 < t.len() && t[i + 1] is Ident {
            if i + 2 < t.len() && t[i + 2] is LParen {
                match sp_p_call_args(t, i + 3) {
                    POut::Good(args, j) => if 0 <= j < t.len() && t[j] is Semi {
                        POut::Good(
                            Option::Some(StatementV::Emit(t[i + 1]->Ident_0, args)),
                            j + 1,
                        )
                    } else {
                        POut::Fail(TranspileError::Syntax)
                    },
                    POut::Fail(er) => POut::Fail(er),
                }
            } else {
                POut::Fail(TranspileError::Syntax)
            }
        } else {
            POut::Fail(TranspileError::Syntax)
        }
    } else if sp_at_ident(t, i) && !sp_at_kw(t, i, "true"@) && !sp_at_kw(t, i, "false"@) {
        match sp_p_index(t, i) {
            POut::Good(target, j) => if i < j <= t.len() {
                if j < t.len() && t[j] is Assign {
                    match sp_p_expression(t, j + 1) {
                        POut::Good(v, k) => if 0 <= k < t.len() && t[k] is Semi {
                            match target {
                                ExpressionV::Identifier(name) => POut::Good(
                                    Option::Some(StatementV::Assignment(name, v)),
                                    k + 1,
                                ),
                                ExpressionV::MapAccess(name, key) => POut::Good(
                                    Option::Some(StatementV::MapAccessAssignment(name, *key, v)),
                                    k + 1,
                                ),
                                _ => POut::Fail(TranspileError::InvalidAssignmentTarget),
                            }
                        } else {
                            POut::Fail(TranspileError::Syntax)
                        },
                        POut::Fail(er) => POut::Fail(er),
                    }
                } else {
                    match sp_p_binop_chain(t, j, target) {
                        POut::Good(e, k) => if 0 <= k < t.len() && t[k] is Semi {
                            POut::Good(Option::Some(StatementV::Expression(e)), k + 1)
                        } else {
                            POut::Fail(TranspileError::Syntax)
                        },
                        POut::Fail(er) => POut::Fail(er),
                    }
                }
            } else {
                POut::Fail(TranspileError::Syntax)
            },
            POut::Fail(er) => POut::Fail(er),
        }
    } else {
        match sp_p_expression(t, i) {
            POut::Good(e, j) => if 0 <= j < t.len() && t[j] is Semi {
                POut::Good(Option::Some(StatementV::Expression(e)), j + 1)
            } else {
                POut::Fail(TranspileError::Syntax)
            },
            POut::Fail(er) => POut::Fail(er),
        }
    }
}

/// The statements of a body, up to (not consuming) the closing brace.
pub open spec fn sp_p_statements(t: Seq<TokV>, i: int) -> POut<Seq<StatementV>>
    decreases t.len() - i, 6int,
{
    if 0 <= i < t.len() && !(t[i] is RBrace) {
        match sp_p_statement(t, i) {
            POut::Good(opt, j) => if i < j <= t.len() {
                match sp_p_statements(t, j) {
                    POut::Good(rest, k) => match opt {
                        Option::Some(st) => POut::Good(seq![st] + rest, k),
                        Option::None => POut::Good(rest, k),
                    },
                    POut::Fail(er) => POut::Fail(er),
                }
            } else {
                POut::Fail(TranspileError::Syntax)
            },
            POut::Fail(er) => POut::Fail(er),
        }
    } else {
        POut::Good(Seq::empty(), i)
    }
}

/// The canonical spelling of a mapping type, used for diagnostics and for
/// parameter and return types.
pub open spec fn sp_mapping_str(k: Seq<char>, v: Seq<char>) -> Seq<char> {
    "mapping("@ + k + " => "@ + v + ")"@
}

/// A mapping type: `mapping(K => V)`, where `V` may itself be a mapping.
/// The result is the outer key type, the value type's spelling, and the
/// nested levels, if any.
pub open spec fn sp_p_mapping(t: Seq<TokV>, i: int) -> POut<
    (Seq<char>, Seq<char>, Option<Box<MappingTypeV>>),
>
    decreases t.len() - i,
{
    if !(sp_at_kw(t, i, "mapping"@) && i + 1 < t.len() && t[i + 1] is LParen) {
        POut::Fail(TranspileError::Syntax)
    } else if !(i + 2 < t.len() && t[i + 2] is Ident) {
        POut::Fail(TranspileError::MissingSubexpression)
    } else if !(i + 3 < t.len() && t[i + 3] is Arrow) {
        POut::Fail(TranspileError::Syntax)
    } else {
        let key = t[i + 2]->Ident_0;
        if sp_at_kw(t, i + 4, "mapping"@) {
            match sp_p_mapping(t, i + 4) {
                POut::Good(inner, j) => if 0 <= j < t.len() && t[j] is RParen {
                    POut::Good(
                        (
                            key,
                            sp_mapping_str(inner.0, inner.1),
                            Option::Some(
                                Box::new(
                                    MappingTypeV {
                                        key_type: inner.0,
                                        value_type: inner.1,
                                        nested: inner.2,
                                    },
                                ),
                            ),
                        ),
                        j + 1,
                    )
                } else {
                    POut::Fail(TranspileError::Syntax)
                },
                POut::Fail(er) => POut::Fail(er),
            }
        } else if i + 4 < t.len() && t[i + 4] is Ident {
            if i + 5 < t.len() && t[i + 5] is RParen {
                POut::Good((key, t[i + 4]->Ident_0, Option::None), i + 6)
            } else {
                POut::Fail(TranspileError::Syntax)
            }
        } else {
            POut::Fail(TranspileError::MissingSubexpression)
        }
    }
}

/// A type spelling: a basic type name, or a mapping type's canonical
/// spelling.
pub open spec fn sp_p_type(t: Seq<TokV>, i: int) -> POut<Seq<char>>
    decreases t.len() - i, 1int,
{
    if sp_at_kw(t, i, "mapping"@) {
        match sp_p_mapping(t, i) {
            POut::Good(m, j) => POut::Good(sp_mapping_str(m.0, m.1), j),
            POut::Fail(er) => POut::Fail(er),
        }
    } else if 0 <= i < t.len() && t[i] is Ident {
        POut::Good(t[i]->Ident_0, i + 1)
    } else {
        POut::Fail(TranspileError::Syntax)
    }
}

/// The parameters after the first: `, type name` repeated, then the
/// closing parenthesis.
pub open spec fn sp_p_param_list(t: Seq<TokV>, i: int, acc: Seq<ParameterV>) -> POut<
    Seq<ParameterV>,
>
    decreases t.len() - i, 2int,
{
    match sp_p_type(t, i) {
        POut::Good(ty, j) => if i < j && j < t.len() && t[j] is Ident {
            let acc2 = acc.push(ParameterV { name: t[j]->Ident_0, param_type: ty });
            if j + 1 < t.len() && t[j + 1] is Comma {
                sp_p_param_list(t, j + 2, acc2)
            } else if j + 1 < t.len() && t[j + 1] is RParen {
                POut::Good(acc2, j + 2)
            } else {
                POut::Fail(TranspileError::Syntax)
            }
        } else {
            POut::Fail(TranspileError::Syntax)
        },
        POut::Fail(er) => POut::Fail(er),
    }
}

/// A parenthesized parameter list, consuming both parentheses.
pub open spec fn sp_p_params(t: Seq<TokV>, i: int) -> POut<Seq<ParameterV>>
    decreases t.len() - i, 3int,
{
    if 0 <= i < t.len() && t[i] is LParen {
        if i + 1 < t.len() && t[i + 1] is RParen {
            POut::Good(Seq::empty(), i + 2)
        } else {
            sp_p_param_list(t, i + 1, Seq::empty())
        }
    } else {
        POut::Fail(TranspileError::Syntax)
    }
}

/// Whether `w` is a visibility modifier.
pub open spec fn sp_is_visibility(w: Seq<char>) -> bool {
    w == "public"@ || w == "private"@ || w == "internal"@ || w == "external"@
}

/// Whether `w` is a state-mutability modifier.
pub open spec fn sp_is_mutability(w: Seq<char>) -> bool {
    w == "view"@ || w == "pure"@ || w == "payable"@
}

/// A function's modifier list: visibility and mutability tags in any
/// order, each later tag replacing the earlier of its kind.
pub open spec fn sp_p_fn_mods(
    t: Seq<TokV>,
    i: int,
    vis: Option<Seq<char>>,
    mu: Option<Seq<char>>,
) -> (Option<Seq<char>>, Option<Seq<char>>, int)
    decreases t.len() - i,
{
    if 0 <= i < t.len() && t[i] is Ident && sp_is_visibility(t[i]->Ident_0) {
        sp_p_fn_mods(t, i + 1, Option::Some(t[i]->Ident_0), mu)
    } else if 0 <= i < t.len() && t[i] is Ident && sp_is_mutability(t[i]->Ident_0) {
        sp_p_fn_mods(t, i + 1, vis, Option::Some(t[i]->Ident_0))
    } else {
        (vis, mu, i)
    }
}

/// An optional return type: `returns (type)`.
pub open spec fn sp_p_returns(t: Seq<TokV>, i: int) -> POut<Option<Seq<char>>>
    decreases t.len() - i, 2int,
{
    if sp_at_kw(t, i, "returns"@) {
        if i + 1 < t.len() && t[i + 1] is LParen {
            match sp_p_type(t, i + 2) {
                POut::Good(ty, j) => if 0 <= j < t.len() && t[j] is RParen {
                    POut::Good(Option::Some(ty), j + 1)
                } else {
                    POut::Fail(TranspileError::Syntax)
                },
                POut::Fail(er) => POut::Fail(er),
            }
        } else {
            POut::Fail(TranspileError::Syntax)
        }
    } else {
        POut::Good(Option::None, i)
    }
}

/// A brace-delimited body of statements, consuming both braces.
pub open spec fn sp_p_body_block(t: Seq<TokV>, i: int) -> POut<Seq<StatementV>>
    decreases t.len() - i, 7int,
{
    if 0 <= i < t.len() && t[i] is LBrace {
        match sp_p_statements(t, i + 1) {
            POut::Good(ss, j) => if 0 <= j < t.len() && t[j] is RBrace {
                POut::Good(ss, j + 1)
            } else {
                POut::Fail(TranspileError::Syntax)
            },
            POut::Fail(er) => POut::Fail(er),
        }
    } else {
        POut::Fail(TranspileError::Syntax)
    }
}

/// A function definition, after dispatch on the `function` keyword.
pub open spec fn sp_p_function(t: Seq<TokV>, i: int) -> POut<FunctionV>
    decreases t.len() - i, 8int,
{
    if !sp_at_kw(t, i, "function"@) {
        POut::Fail(TranspileError::Syntax)
    } else if !(i + 1 < t.len() && t[i + 1] is Ident) {
        POut::Fail(TranspileError::MissingName)
    } else {
        let name = t[i + 1]->Ident_0;
        match sp_p_params(t, i + 2) {
            POut::Good(params, j) => if i + 2 < j && j <= t.len() {
                let mods = sp_p_fn_mods(t, j, Option::None, Option::None);
                if j <= mods.2 && mods.2 <= t.len() {
                    match sp_p_returns(t, mods.2) {
                        POut::Good(ret, k) => if mods.2 <= k && k <= t.len() {
                            match sp_p_body_block(t, k) {
                                POut::Good(body, m) => POut::Good(
                                    FunctionV {
                                        name,
                                        params,
                                        return_type: ret,
                                        visibility: mods.0,
                                        mutability: mods.1,
                                        body,
                                    },
                                    m,
                                ),
                                POut::Fail(er) => POut::Fail(er),
                            }
                        } else {
                            POut::Fail(TranspileError::Syntax)
                        },
                        POut::Fail(er) => POut::Fail(er),
                    }
                } else {
                    POut::Fail(TranspileError::Syntax)
                }
            } else {
                POut::Fail(TranspileError::Syntax)
            },
            POut::Fail(er) => POut::Fail(er),
        }
    }
}

/// An optional single visibility modifier.
pub open spec fn sp_p_opt_visibility(t: Seq<TokV>, i: int) -> (Option<Seq<char>>, int) {
    if 0 <= i < t.len() && t[i] is Ident && sp_is_visibility(t[i]->Ident_0) {
        (Option::Some(t[i]->Ident_0), i + 1)
    } else {
        (Option::None, i)
    }
}

/// A constructor definition: parameters, optional visibility, body.  It is
/// recognized structurally by its keyword, not by name matching.
pub open spec fn sp_p_constructor(t: Seq<TokV>, i: int) -> POut<ConstructorV>
    decreases t.len() - i, 8int,
{
    if !sp_at_kw(t, i, "constructor"@) {
        POut::Fail(TranspileError::Syntax)
    } else {
        match sp_p_params(t, i + 1) {
            POut::Good(params, j) => if i + 1 < j && j <= t.len() {
                let vis = sp_p_opt_visibility(t, j);
                match sp_p_body_block(t, vis.1) {
                    POut::Good(body, m) => POut::Good(
                        ConstructorV { params, visibility: vis.0, body },
                        m,
                    ),
                    POut::Fail(er) => POut::Fail(er),
                }
            } else {
                POut::Fail(TranspileError::Syntax)
            },
            POut::Fail(er) => POut::Fail(er),
        }
    }
}

/// The event parameters after the opening parenthesis: `type indexed? name`
/// separated by commas, consuming the closing parenthesis.
pub open spec fn sp_p_event_params(t: Seq<TokV>, i: int, acc: Seq<EventParameterV>) -> POut<
    Seq<EventParameterV>,
>
    decreases t.len() - i, 2int,
{
    match sp_p_type(t, i) {
        POut::Good(ty, j) => if i < j && j <= t.len() {
            let after_indexed: (bool, int) = if sp_at_kw(t, j, "indexed"@) {
                (true, j + 1)
            } else {
                (false, j)
            };
            if after_indexed.1 < t.len() && t[after_indexed.1] is Ident {
                let acc2 = acc.push(
                    EventParameterV {
                        name: t[after_indexed.1]->Ident_0,
                        param_type: ty,
                        indexed: after_indexed.0,
                    },
                );
                if after_indexed.1 + 1 < t.len() && t[after_indexed.1 + 1] is Comma {
                    sp_p_event_params(t, after_indexed.1 + 2, acc2)
                } else if after_indexed.1 + 1 < t.len() && t[after_indexed.1 + 1] is RParen {
                    POut::Good(acc2, after_indexed.1 + 2)
                } else {
                    POut::Fail(TranspileError::Syntax)
                }
            } else {
                POut::Fail(TranspileError::Syntax)
            }
        } else {
            POut::Fail(TranspileError::Syntax)
        },
        POut::Fail(er) => POut::Fail(er),
    }
}

/// An event definition: name, parameter list, semicolon.
pub open spec fn sp_p_event(t: Seq<TokV>, i: int) -> POut<EventV>
    decreases t.len() - i, 8int,
{
    if !sp_at_kw(t, i, "event"@) {
        POut::Fail(TranspileError::Syntax)
    } else if !(i + 1 < t.len() && t[i + 1] is Ident) {
        POut::Fail(TranspileError::Syntax)
    } else if !(i + 2 < t.len() && t[i + 2] is LParen) {
        POut::Fail(TranspileError::Syntax)
    } else {
        let name = t[i + 1]->Ident_0;
        let params_out: POut<Seq<EventParameterV>> = if i + 3 < t.len() && t[i + 3] is RParen {
            POut::Good(Seq::empty(), i + 4)
        } else {
            sp_p_event_params(t, i + 3, Seq::empty())
        };
        match params_out {
            POut::Good(params, j) => if 0 <= j < t.len() && t[j] is Semi {
                POut::Good(EventV { name, params }, j + 1)
            } else {
                POut::Fail(TranspileError::Syntax)
            },
            POut::Fail(er) => POut::Fail(er),
        }
    }
}

/// The modifiers of a state variable: visibility tags and the `constant`
/// tag, in any order.
pub open spec fn sp_p_var_mods(
    t: Seq<TokV>,
    i: int,
    vis: Option<Seq<char>>,
    konst: bool,
) -> (Option<Seq<char>>, bool, int)
    decreases t.len() - i,
{
    if 0 <= i < t.len() && t[i] is Ident && (t[i]->Ident_0 == "public"@ || t[i]->Ident_0
        == "private"@ || t[i]->Ident_0 == "internal"@) {
        sp_p_var_mods(t, i + 1, Option::Some(t[i]->Ident_0), konst)
    } else if sp_at_kw(t, i, "constant"@) {
        sp_p_var_mods(t, i + 1, vis, true)
    } else {
        (vis, konst, i)
    }
}

/// A state-variable declaration: a basic or mapping type, modifiers, the
/// variable's name, an optional initializer, and the closing semicolon.
pub open spec fn sp_p_state_var(t: Seq<TokV>, i: int) -> POut<StateVariableV>
    decreases t.len() - i, 8int,
{
    let type_out: POut<(Seq<char>, bool, Option<Seq<char>>, Option<Seq<char>>, Option<
        Box<MappingTypeV>,
    >)> = if sp_at_kw(t, i, "mapping"@) {
        match sp_p_mapping(t, i) {
            POut::Good(m, j) => POut::Good(
                (
                    sp_mapping_str(m.0, m.1),
                    true,
                    Option::Some(m.0),
                    Option::Some(m.1),
                    match m.2 {
                        Option::Some(inner) => Option::Some(
                            Box::new(
                                MappingTypeV {
                                    key_type: m.0,
                                    value_type: m.1,
                                    nested: Option::Some(inner),
                                },
                            ),
                        ),
                        Option::None => Option::None,
                    },
                ),
                j,
            ),
            POut::Fail(er) => POut::Fail(er),
        }
    } else if 0 <= i < t.len() && t[i] is Ident {
        POut::Good((t[i]->Ident_0, false, Option::None, Option::None, Option::None), i + 1)
    } else {
        POut::Fail(TranspileError::Syntax)
    };
    match type_out {
        POut::Good(typ, j) => if i < j && j <= t.len() {
            let mods = sp_p_var_mods(t, j, Option::None, false);
            if j <= mods.2 && mods.2 <= t.len() {
                if mods.2 < t.len() && t[mods.2] is Ident {
                    let name = t[mods.2]->Ident_0;
                    if mods.2 + 1 < t.len() && t[mods.2 + 1] is Assign {
                        match sp_p_expression(t, mods.2 + 2) {
                            POut::Good(e, k) => if 0 <= k < t.len() && t[k] is Semi {
                                POut::Good(
                                    StateVariableV {
                                        name,
                                        var_type: typ.0,
                                        visibility: mods.0,
                                        is_mapping: typ.1,
                                        mapping_key_type: typ.2,
                                        mapping_value_type: typ.3,
                                        is_constant: mods.1,
                                        initial_value: Option::Some(e),
                                        nested_mapping: typ.4,
                                    },
                                    k + 1,
                                )
                            } else {
                                POut::Fail(TranspileError::Syntax)
                            },
                            POut::Fail(er) => POut::Fail(er),
                        }
                    } else if mods.2 + 1 < t.len() && t[mods.2 + 1] is Semi {
                        POut::Good(
                            StateVariableV {
                                name,
                                var_type: typ.0,
                                visibility: mods.0,
                                is_mapping: typ.1,
                                mapping_key_type: typ.2,
                                mapping_value_type: typ.3,
                                is_constant: mods.1,
                                initial_value: Option::None,
                                nested_mapping: typ.4,
                            },
                            mods.2 + 2,
                        )
                    } else {
                        POut::Fail(TranspileError::Syntax)
                    }
                } else {
                    POut::Fail(TranspileError::MissingName)
                }
            } else {
                POut::Fail(TranspileError::Syntax)
            }
        } else {
            POut::Fail(TranspileError::Syntax)
        },
        POut::Fail(er) => POut::Fail(er),
    }
}

/// One contract-body declaration.
#[verifier::ext_equal]
pub enum BodyItemV {
    Var(StateVariableV),
    Func(FunctionV),
    Ctor(ConstructorV),
    Ev(EventV),
}

/// Dispatch on a contract-body declaration: function, constructor, event,
/// or state variable.
pub open spec fn sp_p_body_item(t: Seq<TokV>, i: int) -> POut<BodyItemV>
    decreases t.len() - i, 9int,
{
    if !(0 <= i < t.len()) {
        POut::Fail(TranspileError::Syntax)
    } else if sp_at_kw(t, i, "function"@) {
        match sp_p_function(t, i) {
            POut::Good(f, j) => POut::Good(BodyItemV::Func(f), j),
            POut::Fail(er) => POut::Fail(er),
        }
    } else if sp_at_kw(t, i, "constructor"@) {
        match sp_p_constructor(t, i) {
            POut::Good(c, j) => POut::Good(BodyItemV::Ctor(c), j),
            POut::Fail(er) => POut::Fail(er),
        }
    } else if sp_at_kw(t, i, "event"@) {
        match sp_p_event(t, i) {
            POut::Good(e, j) => POut::Good(BodyItemV::Ev(e), j),
            POut::Fail(er) => POut::Fail(er),
        }
    } else {
        match sp_p_state_var(t, i) {
            POut::Good(v, j) => POut::Good(BodyItemV::Var(v), j),
            POut::Fail(er) => POut::Fail(er),
        }
    }
}

/// Adding one parsed declaration to a contract under construction.
pub open spec fn sp_add_item(c: ContractV, item: BodyItemV) -> ContractV {
    match item {
        BodyItemV::Var(v) => ContractV { state_variables: c.state_variables.push(v), ..c },
        BodyItemV::Func(f) => ContractV { functions: c.functions.push(f), ..c },
        BodyItemV::Ctor(k) => ContractV { constructor: Option::Some(k), ..c },
        BodyItemV::Ev(e) => ContractV { events: c.events.push(e), ..c },
    }
}

/// The declarations of a contract body, up to (not consuming) the closing
/// brace.
pub open spec fn sp_p_body(t: Seq<TokV>, i: int, acc: ContractV) -> POut<ContractV>
    decreases t.len() - i, 10int,
{
    if 0 <= i < t.len() && !(t[i] is RBrace) {
        match sp_p_body_item(t, i) {
            POut::Good(item, j) => if i < j && j <= t.len() {
                sp_p_body(t, j, sp_add_item(acc, item))
            } else {
                POut::Fail(TranspileError::Syntax)
            },
            POut::Fail(er) => POut::Fail(er),
        }
    } else {
        POut::Good(acc, i)
    }
}

/// An empty contract with the given name.
pub open spec fn sp_empty_contract(name: Seq<char>) -> ContractV {
    ContractV {
        name,
        functions: Seq::empty(),
        state_variables: Seq::empty(),
        events: Seq::empty(),
        constructor: Option::None,
    }
}

/// One top-level contract declaration.
pub open spec fn sp_p_contract(t: Seq<TokV>, i: int) -> POut<ContractV>
    decreases t.len() - i, 11int,
{
    if !sp_at_kw(t, i, "contract"@) {
        POut::Fail(TranspileError::Syntax)
    } else if !(i + 1 < t.len() && t[i + 1] is Ident) {
        POut::Fail(TranspileError::MissingName)
    } else if !(i + 2 < t.len() && t[i + 2] is LBrace) {
        POut::Fail(TranspileError::Syntax)
    } else {
        let name = t[i + 1]->Ident_0;
        match sp_p_body(t, i + 3, sp_empty_contract(name)) {
            POut::Good(c, j) => if 0 <= j < t.len() && t[j] is RBrace {
                POut::Good(c, j + 1)
            } else {
                POut::Fail(TranspileError::Syntax)
            },
            POut::Fail(er) => POut::Fail(er),
        }
    }
}

/// All top-level contract declarations, to the end of the token stream.
pub open spec fn sp_p_contracts(t: Seq<TokV>, i: int, acc: Seq<ContractV>) -> POut<Seq<ContractV>>
    decreases t.len() - i, 12int,
{
    if !(0 <= i < t.len()) {
        POut::Good(acc, i)
    } else if sp_at_kw(t, i, "contract"@) {
        match sp_p_contract(t, i) {
            POut::Good(c, j) => if i < j && j <= t.len() {
                sp_p_contracts(t, j, acc.push(c))
            } else {
                POut::Fail(TranspileError::Syntax)
            },
            POut::Fail(er) => POut::Fail(er),
        }
    } else {
        POut::Fail(TranspileError::Syntax)
    }
}

/// The recursive-descent parser over a token stream.
pub struct SolidityParser {
    pub toks: Vec<Tok>,
}

impl SolidityParser {
    /// The token models the parser reads.
    pub open spec fn td(&self) -> Seq<TokV> {
        self.toks.deep_view()
    }

    /// Whether the token at `k` is the identifier `w`.
    fn tok_ident_eq(&self, k: usize, w: &str) -> (r: bool)
        ensures
            r == sp_at_kw(self.td(), k as int, w@),
    {
        if k < self.toks.len() {
            proof {
                assert(self.td()[k as int] == self.toks@[k as int].deep_view());
            }
            match &self.toks[k] {
                Tok::Ident(s) => str_eq(s.as_str(), w),
                _ => false,
            }
        } else {
            false
        }
    }

    /// Whether the token at `k` is any identifier.
    fn tok_is_ident(&self, k: usize) -> (r: bool)
        ensures
            r == sp_at_ident(self.td(), k as int),
    {
        if k < self.toks.len() {
            proof {
                assert(self.td()[k as int] == self.toks@[k as int].deep_view());
            }
            match &self.toks[k] {
                Tok::Ident(_) => true,
                _ => false,
            }
        } else {
            false
        }
    }

    /// The lexeme of the identifier at `k`.
    fn ident_lexeme(&self, k: usize) -> (r: String)
        requires
            k < self.td().len(),
            self.td()[k as int] is Ident,
        ensures
            r@ == self.td()[k as int]->Ident_0,
    {
        proof {
            assert(self.td()[k as int] == self.toks@[k as int].deep_view());
        }
        match &self.toks[k] {
            Tok::Ident(s) => s.clone(),
            _ => {
                proof {
                    assert(false);
                }
                String::new()
            },
        }
    }

    /// The lexeme of the operator at `k`.
    fn op_lexeme(&self, k: usize) -> (r: String)
        requires
            k < self.td().len(),
            self.td()[k as int] is Op,
        ensures
            r@ == self.td()[k as int]->Op_0,
    {
        proof {
            assert(self.td()[k as int] == self.toks@[k as int].deep_view());
        }
        match &self.toks[k] {
            Tok::Op(s) => s.clone(),
            _ => {
                proof {
                    assert(false);
                }
                String::new()
            },
        }
    }

    /// The lexeme of the literal (number or string) at `k`.
    fn lit_lexeme(&self, k: usize) -> (r: String)
        requires
            k < self.td().len(),
            self.td()[k as int] is Num || self.td()[k as int] is Str,
        ensures
            self.td()[k as int] is Num ==> r@ == self.td()[k as int]->Num_0,
            self.td()[k as int] is Str ==> r@ == self.td()[k as int]->Str_0,
    {
        proof {
            assert(self.td()[k as int] == self.toks@[k as int].deep_view());
        }
        match &self.toks[k] {
            Tok::Num(s) => s.clone(),
            Tok::Str(s) => s.clone(),
            _ => {
                proof {
                    assert(false);
                }
                String::new()
            },
        }
    }

    /// Whether the token at `k` is a dot.
    fn tok_is_dot(&self, k: usize) -> (r: bool)
        ensures
            r == (k < self.td().len() && self.td()[k as int] is Dot),
    {
        if k < self.toks.len() {
            proof {
                assert(self.td()[k as int] == self.toks@[k as int].deep_view());
            }
            match &self.toks[k] {
                Tok::Dot => true,
                _ => false,
            }
        } else {
            false
        }
    }

    /// Whether the token at `k` is an opening bracket.
    fn tok_is_lbrack(&self, k: usize) -> (r: bool)
        ensures
            r == (k < self.td().len() && self.td()[k as int] is LBrack),
    {
        if k < self.toks.len() {
            proof {
                assert(self.td()[k as int] == self.toks@[k as int].deep_view());
            }
            match &self.toks[k] {
                Tok::LBrack => true,
                _ => false,
            }
        } else {
            false
        }
    }

    /// Whether the token at `k` is a closing bracket.
    fn tok_is_rbrack(&self, k: usize) -> (r: bool)
        ensures
            r == (k < self.td().len() && self.td()[k as int] is RBrack),
    {
        if k < self.toks.len() {
            proof {
                assert(self.td()[k as int] == self.toks@[k as int].deep_view());
            }
            match &self.toks[k] {
                Tok::RBrack => true,
                _ => false,
            }
        } else {
            false
        }
    }

    /// Whether the token at `k` is an opening parenthesis.
    fn tok_is_lparen(&self, k: usize) -> (r: bool)
        ensures
            r == (k < self.td().len() && self.td()[k as int] is LParen),
    {
        if k < self.toks.len() {
            proof {
                assert(self.td()[k as int] == self.toks@[k as int].deep_view());
            }
            match &self.toks[k] {
                Tok::LParen => true,
                _ => false,
            }
        } else {
            false
        }
    }

    /// Whether the token at `k` is a closing parenthesis.
    fn tok_is_rparen(&self, k: usize) -> (r: bool)
        ensures
            r == (k < self.td().len() && self.td()[k as int] is RParen),
    {
        if k < self.toks.len() {
            proof {
                assert(self.td()[k as int] == self.toks@[k as int].deep_view());
            }
            match &self.toks[k] {
                Tok::RParen => true,
                _ => false,
            }
        } else {
            false
        }
    }

    /// Whether the token at `k` is an opening brace.
    fn tok_is_lbrace(&self, k: usize) -> (r: bool)
        ensures
            r == (k < self.td().len() && self.td()[k as int] is LBrace),
    {
        if k < self.toks.len() {
            proof {
                assert(self.td()[k as int] == self.toks@[k as int].deep_view());
            }
            match &self.toks[k] {
                Tok::LBrace => true,
                _ => false,
            }
        } else {
            false
        }
    }

    /// Whether the token at `k` is a closing brace.
    fn tok_is_rbrace(&self, k: usize) -> (r: bool)
        ensures
            r == (k < self.td().len() && self.td()[k as int] is RBrace),
    {
        if k < self.toks.len() {
            proof {
                assert(self.td()[k as int] == self.toks@[k as int].deep_view());
            }
            match &self.toks[k] {
                Tok::RBrace => true,
                _ => false,
            }
        } else {
            false
        }
    }

    /// Whether the token at `k` is a semicolon.
    fn tok_is_semi(&self, k: usize) -> (r: bool)
        ensures
            r == (k < self.td().len() && self.td()[k as int] is Semi),
    {
        if k < self.toks.len() {
            proof {
                assert(self.td()[k as int] == self.toks@[k as int].deep_view());
            }
            match &self.toks[k] {
                Tok::Semi => true,
                _ => false,
            }
        } else {
            false
        }
    }

    /// Whether the token at `k` is a comma.
    fn tok_is_comma(&self, k: usize) -> (r: bool)
        ensures
            r == (k < self.td().len() && self.td()[k as int] is Comma),
    {
        if k < self.toks.len() {
            proof {
                assert(self.td()[k as int] == self.toks@[k as int].deep_view());
            }
            match &self.toks[k] {
                Tok::Comma => true,
                _ => false,
            }
        } else {
            false
        }
    }

    /// Whether the token at `k` is the assignment sign.
    fn tok_is_assign(&self, k: usize) -> (r: bool)
        ensures
            r == (k < self.td().len() && self.td()[k as int] is Assign),
    {
        if k < self.toks.len() {
            proof {
                assert(self.td()[k as int] == self.toks@[k as int].deep_view());
            }
            match &self.toks[k] {
                Tok::Assign => true,
                _ => false,
            }
        } else {
            false
        }
    }

    /// Whether the token at `k` is the mapping arrow.
    fn tok_is_arrow(&self, k: usize) -> (r: bool)
        ensures
            r == (k < self.td().len() && self.td()[k as int] is Arrow),
    {
        if k < self.toks.len() {
            proof {
                assert(self.td()[k as int] == self.toks@[k as int].deep_view());
            }
            match &self.toks[k] {
                Tok::Arrow => true,
                _ => false,
            }
        } else {
            false
        }
    }

    /// Whether the token at `k` is an operator.
    fn tok_is_op(&self, k: usize) -> (r: bool)
        ensures
            r == (k < self.td().len() && self.td()[k as int] is Op),
    {
        if k < self.toks.len() {
            proof {
                assert(self.td()[k as int] == self.toks@[k as int].deep_view());
            }
            match &self.toks[k] {
                Tok::Op(_) => true,
                _ => false,
            }
        } else {
            false
        }
    }

    /// Whether the token at `k` is a numeric literal.
    fn tok_is_num(&self, k: usize) -> (r: bool)
        ensures
            r == (k < self.td().len() && self.td()[k as int] is Num),
    {
        if k < self.toks.len() {
            proof {
                assert(self.td()[k as int] == self.toks@[k as int].deep_view());
            }
            match &self.toks[k] {
                Tok::Num(_) => true,
                _ => false,
            }
        } else {
            false
        }
    }

    /// Whether the token at `k` is a string literal.
    fn tok_is_str(&self, k: usize) -> (r: bool)
        ensures
            r == (k < self.td().len() && self.td()[k as int] is Str),
    {
        if k < self.toks.len() {
            proof {
                assert(self.td()[k as int] == self.toks@[k as int].deep_view());
            }
            match &self.toks[k] {
                Tok::Str(_) => true,
                _ => false,
            }
        } else {
            false
        }
    }

    /// A member chain after its base expression.
    fn p_member_chain(&self, pos: usize, acc: Expression) -> (r: (
        Result<Expression, TranspileError>,
        usize,
    ))
        requires
            pos <= self.td().len(),
        ensures
            r.0 matches Result::Ok(e) ==> sp_p_member_chain(self.td(), pos as int, acc.deep_view())
                == POut::Good(e.deep_view(), r.1 as int) && pos <= r.1 <= self.td().len(),
            r.0 matches Result::Err(er) ==> sp_p_member_chain(self.td(), pos as int, acc.deep_view())
                == POut::<ExpressionV>::Fail(er),
        decreases self.toks@.len() - pos, 0int,
    {
        let n = self.toks.len();
        proof {
            assert(self.td().len() == self.toks@.len());
            assert(n == self.toks@.len());
        }
        if self.tok_is_dot(pos) && self.tok_is_ident(pos + 1) {
            let name = self.ident_lexeme(pos + 1);
            self.p_member_chain(pos + 2, Expression::MemberAccess(Box::new(acc), name))
        } else {
            (Result::Ok(acc), pos)
        }
    }

    /// A member access.
    fn p_member(&self, pos: usize) -> (r: (Result<Expression, TranspileError>, usize))
        requires
            pos <= self.td().len(),
        ensures
            r.0 matches Result::Ok(e) ==> sp_p_member(self.td(), pos as int) == POut::Good(
                e.deep_view(),
                r.1 as int,
            ) && pos < r.1 <= self.td().len(),
            r.0 matches Result::Err(er) ==> sp_p_member(self.td(), pos as int) == POut::<ExpressionV>::Fail(er),
        decreases self.toks@.len() - pos, 1int,
    {
        let n = self.toks.len();
        proof {
            assert(self.td().len() == self.toks@.len());
            assert(n == self.toks@.len());
        }
        if self.tok_is_ident(pos) {
            let name = self.ident_lexeme(pos);
            self.p_member_chain(pos + 1, Expression::Identifier(name))
        } else {
            (Result::Err(TranspileError::Syntax), pos)
        }
    }

    /// An index chain after its base expression.
    fn p_index_chain(&self, pos: usize, acc: Expression) -> (r: (
        Result<Expression, TranspileError>,
        usize,
    ))
        requires
            pos <= self.td().len(),
        ensures
            r.0 matches Result::Ok(e) ==> sp_p_index_chain(self.td(), pos as int, acc.deep_view())
                == POut::Good(e.deep_view(), r.1 as int) && pos <= r.1 <= self.td().len(),
            r.0 matches Result::Err(er) ==> sp_p_index_chain(self.td(), pos as int, acc.deep_view())
                == POut::<ExpressionV>::Fail(er),
        decreases self.toks@.len() - pos, 1int,
    {
        let n = self.toks.len();
        proof {
            assert(self.td().len() == self.toks@.len());
            assert(n == self.toks@.len());
        }
        let ghost accv = acc.deep_view();
        if self.tok_is_lbrack(pos) {
            let (idx_r, j) = self.p_expression(pos + 1);
            match idx_r {
                Result::Ok(idx) => {
                    let ghost idxv = idx.deep_view();
                    if self.tok_is_rbrack(j) {
                        match acc {
                            Expression::Identifier(name) => {
                                let acc2 = Expression::MapAccess(name, Box::new(idx));
                                proof {
                                    assert(acc2.deep_view() == ExpressionV::MapAccess(
                                        accv->Identifier_0,
                                        Box::new(idxv),
                                    ));
                                }
                                self.p_index_chain(j + 1, acc2)
                            },
                            Expression::MapAccess(name, prev) => {
                                proof {
                                    assert(accv == ExpressionV::MapAccess(
                                        name@,
                                        Box::new(prev.deep_view()),
                                    ));
                                }
                                let ghost prevv = prev.deep_view();
                                let comma = String::from_str(",");
                                let key2 = Expression::BinaryOp(prev, comma, Box::new(idx));
                                proof {
                                    assert(key2.deep_view() == ExpressionV::BinaryOp(
                                        Box::new(prevv),
                                        ","@,
                                        Box::new(idxv),
                                    ));
                                }
                                let acc2 = Expression::MapAccess(name, Box::new(key2));
                                proof {
                                    assert(acc2.deep_view() == ExpressionV::MapAccess(
                                        accv->MapAccess_0,
                                        Box::new(ExpressionV::BinaryOp(
                                            accv->MapAccess_1,
                                            ","@,
                                            Box::new(idxv),
                                        )),
                                    ));
                                }
                                self.p_index_chain(j + 1, acc2)
                            },
                            other => {
                                proof {
                                    match &other {
                                        Expression::Literal(_) => {},
                                        Expression::Identifier(_) => {},
                                        Expression::BinaryOp(_, _, _) => {},
                                        Expression::MapAccess(_, _) => {},
                                        Expression::MemberAccess(_, _) => {},
                                    }
                                    assert(!(accv matches ExpressionV::Identifier(_)));
                                    assert(!(accv matches ExpressionV::MapAccess(_, _)));
                                }
                                (Result::Err(TranspileError::Syntax), pos)
                            },
                        }
                    } else {
                        (Result::Err(TranspileError::Syntax), pos)
                    }
                },
                Result::Err(er) => (Result::Err(er), pos),
            }
        } else {
            (Result::Ok(acc), pos)
        }
    }

    /// An indexed access.
    fn p_index(&self, pos: usize) -> (r: (Result<Expression, TranspileError>, usize))
        requires
            pos <= self.td().len(),
        ensures
            r.0 matches Result::Ok(e) ==> sp_p_index(self.td(), pos as int) == POut::Good(
                e.deep_view(),
                r.1 as int,
            ) && pos < r.1 <= self.td().len(),
            r.0 matches Result::Err(er) ==> sp_p_index(self.td(), pos as int) == POut::<ExpressionV>::Fail(er),
        decreases self.toks@.len() - pos, 2int,
    {
        let n = self.toks.len();
        proof {
            assert(self.td().len() == self.toks@.len());
            assert(n == self.toks@.len());
        }
        let (base_r, j) = self.p_member(pos);
        match base_r {
            Result::Ok(e) => self.p_index_chain(j, e),
            Result::Err(er) => (Result::Err(er), pos),
        }
    }

    /// A term.
    fn p_term(&self, pos: usize) -> (r: (Result<Expression, TranspileError>, usize))
        requires
            pos <= self.td().len(),
        ensures
            r.0 matches Result::Ok(e) ==> sp_p_term(self.td(), pos as int) == POut::Good(
                e.deep_view(),
                r.1 as int,
            ) && pos < r.1 <= self.td().len(),
            r.0 matches Result::Err(er) ==> sp_p_term(self.td(), pos as int) == POut::<ExpressionV>::Fail(er),
        decreases self.toks@.len() - pos, 3int,
    {
        let n = self.toks.len();
        proof {
            assert(self.td().len() == self.toks@.len());
            assert(n == self.toks@.len());
        }
        if self.tok_is_num(pos) || self.tok_is_str(pos) {
            let v = self.lit_lexeme(pos);
            (Result::Ok(Expression::Literal(v)), pos + 1)
        } else if self.tok_ident_eq(pos, "true") || self.tok_ident_eq(pos, "false") {
            let v = self.ident_lexeme(pos);
            (Result::Ok(Expression::Literal(v)), pos + 1)
        } else if self.tok_is_ident(pos) {
            self.p_index(pos)
        } else if self.tok_is_lparen(pos) {
            let (inner_r, j) = self.p_term(pos + 1);
            match inner_r {
                Result::Ok(e) => {
                    if self.tok_is_rparen(j) {
                        (Result::Ok(e), j + 1)
                    } else {
                        (Result::Err(TranspileError::Syntax), pos)
                    }
                },
                Result::Err(er) => (Result::Err(er), pos),
            }
        } else {
            (Result::Err(TranspileError::MissingSubexpression), pos)
        }
    }

    /// A chain of operator-term pairs after the first term.
    fn p_binop_chain(&self, pos: usize, acc: Expression) -> (r: (
        Result<Expression, TranspileError>,
        usize,
    ))
        requires
            pos <= self.td().len(),
        ensures
            r.0 matches Result::Ok(e) ==> sp_p_binop_chain(self.td(), pos as int, acc.deep_view())
                == POut::Good(e.deep_view(), r.1 as int) && pos <= r.1 <= self.td().len(),
            r.0 matches Result::Err(er) ==> sp_p_binop_chain(self.td(), pos as int, acc.deep_view())
                == POut::<ExpressionV>::Fail(er),
        decreases self.toks@.len() - pos, 0int,
    {
        let n = self.toks.len();
        proof {
            assert(self.td().len() == self.toks@.len());
            assert(n == self.toks@.len());
        }
        if self.tok_is_op(pos) {
            let op = self.op_lexeme(pos);
            let (t_r, j) = self.p_term(pos + 1);
            match t_r {
                Result::Ok(e2) => self.p_binop_chain(
                    j,
                    Expression::BinaryOp(Box::new(acc), op, Box::new(e2)),
                ),
                Result::Err(er) => (Result::Err(er), pos),
            }
        } else {
            (Result::Ok(acc), pos)
        }
    }

    /// An expression.
    fn p_expression(&self, pos: usize) -> (r: (Result<Expression, TranspileError>, usize))
        requires
            pos <= self.td().len(),
        ensures
            r.0 matches Result::Ok(e) ==> sp_p_expression(self.td(), pos as int) == POut::Good(
                e.deep_view(),
                r.1 as int,
            ) && pos < r.1 <= self.td().len(),
            r.0 matches Result::Err(er) ==> sp_p_expression(self.td(), pos as int)
                == POut::<ExpressionV>::Fail(er),
        decreases self.toks@.len() - pos, 4int,
    {
        let n = self.toks.len();
        proof {
            assert(self.td().len() == self.toks@.len());
            assert(n == self.toks@.len());
        }
        let (t_r, j) = self.p_term(pos);
        match t_r {
            Result::Ok(e) => self.p_binop_chain(j, e),
            Result::Err(er) => (Result::Err(er), pos),
        }
    }

    /// The call arguments after the first.
    fn p_more_args(&self, pos: usize, acc: Vec<Expression>) -> (r: (
        Result<Vec<Expression>, TranspileError>,
        usize,
    ))
        requires
            pos <= self.td().len(),
        ensures
            r.0 matches Result::Ok(es) ==> sp_p_more_args(self.td(), pos as int, acc.deep_view())
                == POut::Good(es.deep_view(), r.1 as int) && pos < r.1 <= self.td().len(),
            r.0 matches Result::Err(er) ==> sp_p_more_args(self.td(), pos as int, acc.deep_view())
                == POut::<Seq<ExpressionV>>::Fail(er),
        decreases self.toks@.len() - pos,
    {
        let n = self.toks.len();
        proof {
            assert(self.td().len() == self.toks@.len());
            assert(n == self.toks@.len());
        }
        let ghost accv = acc.deep_view();
        if self.tok_is_comma(pos) {
            let (e_r, j) = self.p_expression(pos + 1);
            match e_r {
                Result::Ok(e) => {
                    let ghost ev = e.deep_view();
                    let mut acc2 = acc;
                    acc2.push(e);
                    proof {
                        assert(acc2.deep_view() =~= accv.push(ev));
                    }
                    self.p_more_args(j, acc2)
                },
                Result::Err(er) => (Result::Err(er), pos),
            }
        } else if self.tok_is_rparen(pos) {
            (Result::Ok(acc), pos + 1)
        } else {
            (Result::Err(TranspileError::Syntax), pos)
        }
    }

    /// A call argument list, consuming the closing parenthesis.
    fn p_call_args(&self, pos: usize) -> (r: (Result<Vec<Expression>, TranspileError>, usize))
        requires
            pos <= self.td().len(),
        ensures
            r.0 matches Result::Ok(es) ==> sp_p_call_args(self.td(), pos as int) == POut::Good(
                es.deep_view(),
                r.1 as int,
            ) && pos < r.1 <= self.td().len(),
            r.0 matches Result::Err(er) ==> sp_p_call_args(self.td(), pos as int)
                == POut::<Seq<ExpressionV>>::Fail(er),
        decreases self.toks@.len() - pos, 5int,
    {
        let n = self.toks.len();
        proof {
            assert(self.td().len() == self.toks@.len());
            assert(n == self.toks@.len());
        }
        if self.tok_is_rparen(pos) {
            let empty: Vec<Expression> = Vec::new();
            proof {
                assert(empty.deep_view() =~= Seq::<ExpressionV>::empty());
            }
            (Result::Ok(empty), pos + 1)
        } else {
            let (e_r, j) = self.p_expression(pos);
            match e_r {
                Result::Ok(e) => {
                    let ghost ev = e.deep_view();
                    let mut acc: Vec<Expression> = Vec::new();
                    acc.push(e);
                    proof {
                        assert(acc.deep_view() =~= seq![ev]);
                    }
                    self.p_more_args(j, acc)
                },
                Result::Err(er) => (Result::Err(er), pos),
            }
        }
    }

    /// One statement; a bare `return;` contributes none.
    fn p_statement(&self, pos: usize) -> (r: (
        Result<Option<Statement>, TranspileError>,
        usize,
    ))
        requires
            pos <= self.td().len(),
        ensures
            r.0 matches Result::Ok(opt) ==> sp_p_statement(self.td(), pos as int) == POut::Good(
                opt.deep_view(),
                r.1 as int,
            ) && pos < r.1 <= self.td().len(),
            r.0 matches Result::Err(er) ==> sp_p_statement(self.td(), pos as int)
                == POut::<Option<StatementV>>::Fail(er),
        decreases self.toks@.len() - pos, 5int,
    {
        let n = self.toks.len();
        proof {
            assert(self.td().len() == self.toks@.len());
            assert(n == self.toks@.len());
        }
        if pos >= n {
            return (Result::Err(TranspileError::Syntax), pos);
        }
        if self.tok_ident_eq(pos, "return") {
            if self.tok_is_semi(pos + 1) {
                (Result::Ok(Option::None), pos + 2)
            } else {
                let (e_r, j) = self.p_expression(pos + 1);
                match e_r {
                    Result::Ok(e) => {
                        if self.tok_is_semi(j) {
                            let st = Statement::Return(e);
                            (Result::Ok(Option::Some(st)), j + 1)
                        } else {
                            (Result::Err(TranspileError::Syntax), pos)
                        }
                    },
                    Result::Err(er) => (Result::Err(er), pos),
                }
            }
        } else if self.tok_ident_eq(pos, "emit") {
            if self.tok_is_ident(pos + 1) {
                if self.tok_is_lparen(pos + 2) {
                    let ev_name = self.ident_lexeme(pos + 1);
                    let (args_r, j) = self.p_call_args(pos + 3);
                    match args_r {
                        Result::Ok(args) => {
                            if self.tok_is_semi(j) {
                                let st = Statement::Emit(ev_name, args);
                                (Result::Ok(Option::Some(st)), j + 1)
                            } else {
                                (Result::Err(TranspileError::Syntax), pos)
                            }
                        },
                        Result::Err(er) => (Result::Err(er), pos),
                    }
                } else {
                    (Result::Err(TranspileError::Syntax), pos)
                }
            } else {
                (Result::Err(TranspileError::Syntax), pos)
            }
        } else if self.tok_is_ident(pos) && !self.tok_ident_eq(pos, "true") && !self.tok_ident_eq(
            pos,
            "false",
        ) {
            let (t_r, j) = self.p_index(pos);
            match t_r {
                Result::Ok(target) => {
                    let ghost targetv = target.deep_view();
                    if self.tok_is_assign(j) {
                        let (v_r, k) = self.p_expression(j + 1);
                        match v_r {
                            Result::Ok(v) => {
                                if self.tok_is_semi(k) {
                                    match target {
                                        Expression::Identifier(name) => {
                                            let st = Statement::Assignment(name, v);
                                            (Result::Ok(Option::Some(st)), k + 1)
                                        },
                                        Expression::MapAccess(name, key) => {
                                            proof {
                                                assert(targetv == ExpressionV::MapAccess(
                                                    name@,
                                                    Box::new(key.deep_view()),
                                                ));
                                            }
                                            let st = Statement::MapAccessAssignment(name, key, v);
                                            (Result::Ok(Option::Some(st)), k + 1)
                                        },
                                        other => {
                                            proof {
                                                match &other {
                                                    Expression::Literal(_) => {},
                                                    Expression::Identifier(_) => {},
                                                    Expression::BinaryOp(_, _, _) => {},
                                                    Expression::MapAccess(_, _) => {},
                                                    Expression::MemberAccess(_, _) => {},
                                                }
                                                assert(!(targetv
                                                    matches ExpressionV::Identifier(_)));
                                                assert(!(targetv
                                                    matches ExpressionV::MapAccess(_, _)));
                                            }
                                            (
                                                Result::Err(
                                                    TranspileError::InvalidAssignmentTarget,
                                                ),
                                                pos,
                                            )
                                        },
                                    }
                                } else {
                                    (Result::Err(TranspileError::Syntax), pos)
                                }
                            },
                            Result::Err(er) => (Result::Err(er), pos),
                        }
                    } else {
                        let (e_r, k) = self.p_binop_chain(j, target);
                        match e_r {
                            Result::Ok(e) => {
                                if self.tok_is_semi(k) {
                                    let st = Statement::Expression(e);
                                    (Result::Ok(Option::Some(st)), k + 1)
                                } else {
                                    (Result::Err(TranspileError::Syntax), pos)
                                }
                            },
                            Result::Err(er) => (Result::Err(er), pos),
                        }
                    }
                },
                Result::Err(er) => (Result::Err(er), pos),
            }
        } else {
            let (e_r, j) = self.p_expression(pos);
            match e_r {
                Result::Ok(e) => {
                    if self.tok_is_semi(j) {
                        let st = Statement::Expression(e);
                        (Result::Ok(Option::Some(st)), j + 1)
                    } else {
                        (Result::Err(TranspileError::Syntax), pos)
                    }
                },
                Result::Err(er) => (Result::Err(er), pos),
            }
        }
    }

    /// The statements of a body, up to the closing brace.
    fn p_statements(&self, pos: usize) -> (r: (
        Result<Vec<Statement>, TranspileError>,
        usize,
    ))
        requires
            pos <= self.td().len(),
        ensures
            r.0 matches Result::Ok(ss) ==> sp_p_statements(self.td(), pos as int) == POut::Good(
                ss.deep_view(),
                r.1 as int,
            ) && pos <= r.1 <= self.td().len(),
            r.0 matches Result::Err(er) ==> sp_p_statements(self.td(), pos as int)
                == POut::<Seq<StatementV>>::Fail(er),
        decreases self.toks@.len() - pos, 6int,
    {
        let n = self.toks.len();
        proof {
            assert(self.td().len() == self.toks@.len());
            assert(n == self.toks@.len());
        }
        if pos < n && !self.tok_is_rbrace(pos) {
            let (st_r, j) = self.p_statement(pos);
            match st_r {
                Result::Ok(opt) => {
                    let ghost optv = opt.deep_view();
                    let (rest_r, k) = self.p_statements(j);
                    match rest_r {
                        Result::Ok(rest) => {
                            let ghost restv = rest.deep_view();
                            match opt {
                                Option::Some(st) => {
                                    let ghost stv = st.deep_view();
                                    let mut out = rest;
                                    out.insert(0, st);
                                    proof {
                                        assert(out.deep_view() =~= seq![stv] + restv);
                                    }
                                    (Result::Ok(out), k)
                                },
                                Option::None => (Result::Ok(rest), k),
                            }
                        },
                        Result::Err(er) => (Result::Err(er), pos),
                    }
                },
                Result::Err(er) => (Result::Err(er), pos),
            }
        } else {
            let empty: Vec<Statement> = Vec::new();
            proof {
                assert(empty.deep_view() =~= Seq::<StatementV>::empty());
            }
            (Result::Ok(empty), pos)
        }
    }

    /// A mapping type, returning the outer key type, the value type's
    /// spelling, and the nested levels.
    fn p_mapping(&self, pos: usize) -> (r: (
        Result<(String, String, Option<Box<MappingType>>), TranspileError>,
        usize,
    ))
        requires
            pos <= self.td().len(),
        ensures
            r.0 matches Result::Ok(m) ==> sp_p_mapping(self.td(), pos as int) == POut::Good(
                (m.0@, m.1@, deep_opt_mapping(m.2)),
                r.1 as int,
            ) && pos < r.1 <= self.td().len(),
            r.0 matches Result::Err(er) ==> sp_p_mapping(self.td(), pos as int) == POut::<
                (Seq<char>, Seq<char>, Option<Box<MappingTypeV>>),
            >::Fail(er),
        decreases self.toks@.len() - pos,
    {
        let n = self.toks.len();
        proof {
            assert(self.td().len() == self.toks@.len());
            assert(n == self.toks@.len());
        }
        if !(self.tok_ident_eq(pos, "mapping") && self.tok_is_lparen(pos + 1)) {
            return (Result::Err(TranspileError::Syntax), pos);
        }
        if !self.tok_is_ident(pos + 2) {
            return (Result::Err(TranspileError::MissingSubexpression), pos);
        }
        if !self.tok_is_arrow(pos + 3) {
            return (Result::Err(TranspileError::Syntax), pos);
        }
        let key = self.ident_lexeme(pos + 2);
        if self.tok_ident_eq(pos + 4, "mapping") {
            let (inner_r, j) = self.p_mapping(pos + 4);
            match inner_r {
                Result::Ok(inner) => {
                    if self.tok_is_rparen(j) {
                        let (nk, nv, more) = inner;
                        let ghost nkv = nk@;
                        let ghost nvv = nv@;
                        let ghost morev = deep_opt_mapping(more);
                        let value = mapping_str(nk.as_str(), nv.as_str());
                        let nested = MappingType { key_type: nk, value_type: nv, nested: more };
                        proof {
                            assert(nested.deep_view() == MappingTypeV {
                                key_type: nkv,
                                value_type: nvv,
                                nested: morev,
                            });
                        }
                        (Result::Ok((key, value, Option::Some(Box::new(nested)))), j + 1)
                    } else {
                        (Result::Err(TranspileError::Syntax), pos)
                    }
                },
                Result::Err(er) => (Result::Err(er), pos),
            }
        } else if self.tok_is_ident(pos + 4) {
            if self.tok_is_rparen(pos + 5) {
                let value = self.ident_lexeme(pos + 4);
                (Result::Ok((key, value, Option::None)), pos + 6)
            } else {
                (Result::Err(TranspileError::Syntax), pos)
            }
        } else {
            (Result::Err(TranspileError::MissingSubexpression), pos)
        }
    }

    /// A type spelling: a basic type name or a mapping type.
    fn p_type(&self, pos: usize) -> (r: (Result<String, TranspileError>, usize))
        requires
            pos <= self.td().len(),
        ensures
            r.0 matches Result::Ok(ty) ==> sp_p_type(self.td(), pos as int) == POut::Good(
                ty@,
                r.1 as int,
            ) && pos < r.1 <= self.td().len(),
            r.0 matches Result::Err(er) ==> sp_p_type(self.td(), pos as int) == POut::<
                Seq<char>,
            >::Fail(er),
        decreases self.toks@.len() - pos, 1int,
    {
        let n = self.toks.len();
        proof {
            assert(self.td().len() == self.toks@.len());
            assert(n == self.toks@.len());
        }
        if self.tok_ident_eq(pos, "mapping") {
            let (m_r, j) = self.p_mapping(pos);
            match m_r {
                Result::Ok(m) => (Result::Ok(mapping_str(m.0.as_str(), m.1.as_str())), j),
                Result::Err(er) => (Result::Err(er), pos),
            }
        } else if self.tok_is_ident(pos) {
            (Result::Ok(self.ident_lexeme(pos)), pos + 1)
        } else {
            (Result::Err(TranspileError::Syntax), pos)
        }
    }

    /// The parameters after the opening parenthesis's first entry.
    fn p_param_list(&self, pos: usize, acc: Vec<Parameter>) -> (r: (
        Result<Vec<Parameter>, TranspileError>,
        usize,
    ))
        requires
            pos <= self.td().len(),
        ensures
            r.0 matches Result::Ok(ps) ==> sp_p_param_list(self.td(), pos as int, acc.deep_view())
                == POut::Good(ps.deep_view(), r.1 as int) && pos < r.1 <= self.td().len(),
            r.0 matches Result::Err(er) ==> sp_p_param_list(self.td(), pos as int, acc.deep_view())
                == POut::<Seq<ParameterV>>::Fail(er),
        decreases self.toks@.len() - pos, 2int,
    {
        let n = self.toks.len();
        proof {
            assert(self.td().len() == self.toks@.len());
            assert(n == self.toks@.len());
        }
        let ghost accv = acc.deep_view();
        let (ty_r, j) = self.p_type(pos);
        match ty_r {
            Result::Ok(ty) => {
                if self.tok_is_ident(j) {
                    let pname = self.ident_lexeme(j);
                    let ghost tyv = ty@;
                    let ghost pnamev = pname@;
                    let mut acc2 = acc;
                    acc2.push(Parameter { name: pname, param_type: ty });
                    proof {
                        assert(acc2.deep_view() =~= accv.push(
                            ParameterV { name: pnamev, param_type: tyv },
                        ));
                    }
                    if self.tok_is_comma(j + 1) {
                        self.p_param_list(j + 2, acc2)
                    } else if self.tok_is_rparen(j + 1) {
                        (Result::Ok(acc2), j + 2)
                    } else {
                        (Result::Err(TranspileError::Syntax), pos)
                    }
                } else {
                    (Result::Err(TranspileError::Syntax), pos)
                }
            },
            Result::Err(er) => (Result::Err(er), pos),
        }
    }

    /// A parenthesized parameter list.
    fn p_params(&self, pos: usize) -> (r: (Result<Vec<Parameter>, TranspileError>, usize))
        requires
            pos <= self.td().len(),
        ensures
            r.0 matches Result::Ok(ps) ==> sp_p_params(self.td(), pos as int) == POut::Good(
                ps.deep_view(),
                r.1 as int,
            ) && pos < r.1 <= self.td().len(),
            r.0 matches Result::Err(er) ==> sp_p_params(self.td(), pos as int) == POut::<
                Seq<ParameterV>,
            >::Fail(er),
        decreases self.toks@.len() - pos, 3int,
    {
        let n = self.toks.len();
        proof {
            assert(self.td().len() == self.toks@.len());
            assert(n == self.toks@.len());
        }
        if self.tok_is_lparen(pos) {
            if self.tok_is_rparen(pos + 1) {
                let empty: Vec<Parameter> = Vec::new();
                proof {
                    assert(empty.deep_view() =~= Seq::<ParameterV>::empty());
                }
                (Result::Ok(empty), pos + 2)
            } else {
                let empty: Vec<Parameter> = Vec::new();
                proof {
                    assert(empty.deep_view() =~= Seq::<ParameterV>::empty());
                }
                self.p_param_list(pos + 1, empty)
            }
        } else {
            (Result::Err(TranspileError::Syntax), pos)
        }
    }

    /// A function's modifier list.
    fn p_fn_mods(&self, pos: usize, vis: Option<String>, mu: Option<String>) -> (r: (
        Option<String>,
        Option<String>,
        usize,
    ))
        requires
            pos <= self.td().len(),
        ensures
            ({
                let m = sp_p_fn_mods(self.td(), pos as int, vis.deep_view(), mu.deep_view());
                r.0.deep_view() == m.0 && r.1.deep_view() == m.1 && r.2 as int == m.2 && pos <= r.2
                    <= self.td().len()
            }),
        decreases self.toks@.len() - pos,
    {
        let n = self.toks.len();
        proof {
            assert(self.td().len() == self.toks@.len());
            assert(n == self.toks@.len());
        }
        if self.tok_ident_eq(pos, "public") || self.tok_ident_eq(pos, "private")
            || self.tok_ident_eq(pos, "internal") || self.tok_ident_eq(pos, "external") {
            let w = self.ident_lexeme(pos);
            self.p_fn_mods(pos + 1, Option::Some(w), mu)
        } else if self.tok_ident_eq(pos, "view") || self.tok_ident_eq(pos, "pure")
            || self.tok_ident_eq(pos, "payable") {
            let w = self.ident_lexeme(pos);
            self.p_fn_mods(pos + 1, vis, Option::Some(w))
        } else {
            (vis, mu, pos)
        }
    }

    /// An optional `returns (type)` clause.
    fn p_returns(&self, pos: usize) -> (r: (Result<Option<String>, TranspileError>, usize))
        requires
            pos <= self.td().len(),
        ensures
            r.0 matches Result::Ok(ret) ==> sp_p_returns(self.td(), pos as int) == POut::Good(
                ret.deep_view(),
                r.1 as int,
            ) && pos <= r.1 <= self.td().len(),
            r.0 matches Result::Err(er) ==> sp_p_returns(self.td(), pos as int) == POut::<
                Option<Seq<char>>,
            >::Fail(er),
        decreases self.toks@.len() - pos, 2int,
    {
        let n = self.toks.len();
        proof {
            assert(self.td().len() == self.toks@.len());
            assert(n == self.toks@.len());
        }
        if self.tok_ident_eq(pos, "returns") {
            if self.tok_is_lparen(pos + 1) {
                let (ty_r, j) = self.p_type(pos + 2);
                match ty_r {
                    Result::Ok(ty) => {
                        if self.tok_is_rparen(j) {
                            (Result::Ok(Option::Some(ty)), j + 1)
                        } else {
                            (Result::Err(TranspileError::Syntax), pos)
                        }
                    },
                    Result::Err(er) => (Result::Err(er), pos),
                }
            } else {
                (Result::Err(TranspileError::Syntax), pos)
            }
        } else {
            (Result::Ok(Option::None), pos)
        }
    }

    /// A brace-delimited statement body.
    fn p_body_block(&self, pos: usize) -> (r: (
        Result<Vec<Statement>, TranspileError>,
        usize,
    ))
        requires
            pos <= self.td().len(),
        ensures
            r.0 matches Result::Ok(ss) ==> sp_p_body_block(self.td(), pos as int) == POut::Good(
                ss.deep_view(),
                r.1 as int,
            ) && pos < r.1 <= self.td().len(),
            r.0 matches Result::Err(er) ==> sp_p_body_block(self.td(), pos as int) == POut::<
                Seq<StatementV>,
            >::Fail(er),
        decreases self.toks@.len() - pos, 7int,
    {
        let n = self.toks.len();
        proof {
            assert(self.td().len() == self.toks@.len());
            assert(n == self.toks@.len());
        }
        if self.tok_is_lbrace(pos) {
            let (ss_r, j) = self.p_statements(pos + 1);
            match ss_r {
                Result::Ok(ss) => {
                    if self.tok_is_rbrace(j) {
                        (Result::Ok(ss), j + 1)
                    } else {
                        (Result::Err(TranspileError::Syntax), pos)
                    }
                },
                Result::Err(er) => (Result::Err(er), pos),
            }
        } else {
            (Result::Err(TranspileError::Syntax), pos)
        }
    }

    /// A function definition.
    fn p_function(&self, pos: usize) -> (r: (Result<Function, TranspileError>, usize))
        requires
            pos <= self.td().len(),
        ensures
            r.0 matches Result::Ok(f) ==> sp_p_function(self.td(), pos as int) == POut::Good(
                f.deep_view(),
                r.1 as int,
            ) && pos < r.1 <= self.td().len(),
            r.0 matches Result::Err(er) ==> sp_p_function(self.td(), pos as int) == POut::<
                FunctionV,
            >::Fail(er),
        decreases self.toks@.len() - pos, 8int,
    {
        let n = self.toks.len();
        proof {
            assert(self.td().len() == self.toks@.len());
            assert(n == self.toks@.len());
        }
        if !self.tok_ident_eq(pos, "function") {
            return (Result::Err(TranspileError::Syntax), pos);
        }
        if !self.tok_is_ident(pos + 1) {
            return (Result::Err(TranspileError::MissingName), pos);
        }
        let name = self.ident_lexeme(pos + 1);
        let (ps_r, j) = self.p_params(pos + 2);
        match ps_r {
            Result::Ok(params) => {
                let (vis, mu, k) = self.p_fn_mods(j, Option::None, Option::None);
                let (ret_r, m) = self.p_returns(k);
                match ret_r {
                    Result::Ok(ret) => {
                        let (body_r, end) = self.p_body_block(m);
                        match body_r {
                            Result::Ok(body) => {
                                let f = Function {
                                    name,
                                    params,
                                    return_type: ret,
                                    visibility: vis,
                                    mutability: mu,
                                    body,
                                };
                                proof {
                                    assert(f.deep_view() =~~= sp_p_function(
                                        self.td(),
                                        pos as int,
                                    )->Good_0);
                                }
                                (Result::Ok(f), end)
                            },
                            Result::Err(er) => (Result::Err(er), pos),
                        }
                    },
                    Result::Err(er) => (Result::Err(er), pos),
                }
            },
            Result::Err(er) => (Result::Err(er), pos),
        }
    }

    /// An optional single visibility modifier.
    fn p_opt_visibility(&self, pos: usize) -> (r: (Option<String>, usize))
        requires
            pos <= self.td().len(),
        ensures
            ({
                let m = sp_p_opt_visibility(self.td(), pos as int);
                r.0.deep_view() == m.0 && r.1 as int == m.1 && pos <= r.1 <= self.td().len()
            }),
    {
        let n = self.toks.len();
        proof {
            assert(self.td().len() == self.toks@.len());
            assert(n == self.toks@.len());
        }
        if self.tok_ident_eq(pos, "public") || self.tok_ident_eq(pos, "private")
            || self.tok_ident_eq(pos, "internal") || self.tok_ident_eq(pos, "external") {
            (Option::Some(self.ident_lexeme(pos)), pos + 1)
        } else {
            (Option::None, pos)
        }
    }

    /// A constructor definition.
    fn p_constructor(&self, pos: usize) -> (r: (Result<Constructor, TranspileError>, usize))
        requires
            pos <= self.td().len(),
        ensures
            r.0 matches Result::Ok(c) ==> sp_p_constructor(self.td(), pos as int) == POut::Good(
                c.deep_view(),
                r.1 as int,
            ) && pos < r.1 <= self.td().len(),
            r.0 matches Result::Err(er) ==> sp_p_constructor(self.td(), pos as int) == POut::<
                ConstructorV,
            >::Fail(er),
        decreases self.toks@.len() - pos, 8int,
    {
        let n = self.toks.len();
        proof {
            assert(self.td().len() == self.toks@.len());
            assert(n == self.toks@.len());
        }
        if !self.tok_ident_eq(pos, "constructor") {
            return (Result::Err(TranspileError::Syntax), pos);
        }
        let (ps_r, j) = self.p_params(pos + 1);
        match ps_r {
            Result::Ok(params) => {
                let (vis, k) = self.p_opt_visibility(j);
                let (body_r, end) = self.p_body_block(k);
                match body_r {
                    Result::Ok(body) => {
                        let c = Constructor { params, visibility: vis, body };
                        proof {
                            assert(c.deep_view() =~~= sp_p_constructor(
                                self.td(),
                                pos as int,
                            )->Good_0);
                        }
                        (Result::Ok(c), end)
                    },
                    Result::Err(er) => (Result::Err(er), pos),
                }
            },
            Result::Err(er) => (Result::Err(er), pos),
        }
    }

    /// The event parameters after the opening parenthesis.
    fn p_event_params(&self, pos: usize, acc: Vec<EventParameter>) -> (r: (
        Result<Vec<EventParameter>, TranspileError>,
        usize,
    ))
        requires
            pos <= self.td().len(),
        ensures
            r.0 matches Result::Ok(ps) ==> sp_p_event_params(self.td(), pos as int, acc.deep_view())
                == POut::Good(ps.deep_view(), r.1 as int) && pos < r.1 <= self.td().len(),
            r.0 matches Result::Err(er) ==> sp_p_event_params(
                self.td(),
                pos as int,
                acc.deep_view(),
            ) == POut::<Seq<EventParameterV>>::Fail(er),
        decreases self.toks@.len() - pos, 2int,
    {
        let n = self.toks.len();
        proof {
            assert(self.td().len() == self.toks@.len());
            assert(n == self.toks@.len());
        }
        let ghost accv = acc.deep_view();
        let (ty_r, j) = self.p_type(pos);
        match ty_r {
            Result::Ok(ty) => {
                let (indexed, after) = if self.tok_ident_eq(j, "indexed") {
                    (true, j + 1)
                } else {
                    (false, j)
                };
                if self.tok_is_ident(after) {
                    let pname = self.ident_lexeme(after);
                    let ghost tyv = ty@;
                    let ghost pnamev = pname@;
                    let mut acc2 = acc;
                    acc2.push(EventParameter { name: pname, param_type: ty, indexed });
                    proof {
                        assert(acc2.deep_view() =~= accv.push(
                            EventParameterV { name: pnamev, param_type: tyv, indexed },
                        ));
                    }
                    if self.tok_is_comma(after + 1) {
                        self.p_event_params(after + 2, acc2)
                    } else if self.tok_is_rparen(after + 1) {
                        (Result::Ok(acc2), after + 2)
                    } else {
                        (Result::Err(TranspileError::Syntax), pos)
                    }
                } else {
                    (Result::Err(TranspileError::Syntax), pos)
                }
            },
            Result::Err(er) => (Result::Err(er), pos),
        }
    }

    /// An event definition.
    fn p_event(&self, pos: usize) -> (r: (Result<Event, TranspileError>, usize))
        requires
            pos <= self.td().len(),
        ensures
            r.0 matches Result::Ok(e) ==> sp_p_event(self.td(), pos as int) == POut::Good(
                e.deep_view(),
                r.1 as int,
            ) && pos < r.1 <= self.td().len(),
            r.0 matches Result::Err(er) ==> sp_p_event(self.td(), pos as int) == POut::<
                EventV,
            >::Fail(er),
        decreases self.toks@.len() - pos, 8int,
    {
        let n = self.toks.len();
        proof {
            assert(self.td().len() == self.toks@.len());
            assert(n == self.toks@.len());
        }
        if !self.tok_ident_eq(pos, "event") {
            return (Result::Err(TranspileError::Syntax), pos);
        }
        if !self.tok_is_ident(pos + 1) {
            return (Result::Err(TranspileError::Syntax), pos);
        }
        if !self.tok_is_lparen(pos + 2) {
            return (Result::Err(TranspileError::Syntax), pos);
        }
        let name = self.ident_lexeme(pos + 1);
        let (ps_r, j) = if self.tok_is_rparen(pos + 3) {
            let empty: Vec<EventParameter> = Vec::new();
            proof {
                assert(empty.deep_view() =~= Seq::<EventParameterV>::empty());
            }
            (Result::Ok(empty), pos + 4)
        } else {
            let empty: Vec<EventParameter> = Vec::new();
            proof {
                assert(empty.deep_view() =~= Seq::<EventParameterV>::empty());
            }
            self.p_event_params(pos + 3, empty)
        };
        match ps_r {
            Result::Ok(params) => {
                if self.tok_is_semi(j) {
                    let e = Event { name, params };
                    proof {
                        assert(e.deep_view() =~~= sp_p_event(self.td(), pos as int)->Good_0);
                    }
                    (Result::Ok(e), j + 1)
                } else {
                    (Result::Err(TranspileError::Syntax), pos)
                }
            },
            Result::Err(er) => (Result::Err(er), pos),
        }
    }

    /// A state variable's modifier list.
    fn p_var_mods(&self, pos: usize, vis: Option<String>, konst: bool) -> (r: (
        Option<String>,
        bool,
        usize,
    ))
        requires
            pos <= self.td().len(),
        ensures
            ({
                let m = sp_p_var_mods(self.td(), pos as int, vis.deep_view(), konst);
                r.0.deep_view() == m.0 && r.1 == m.1 && r.2 as int == m.2 && pos <= r.2
                    <= self.td().len()
            }),
        decreases self.toks@.len() - pos,
    {
        let n = self.toks.len();
        proof {
            assert(self.td().len() == self.toks@.len());
            assert(n == self.toks@.len());
        }
        if self.tok_ident_eq(pos, "public") || self.tok_ident_eq(pos, "private")
            || self.tok_ident_eq(pos, "internal") {
            let w = self.ident_lexeme(pos);
            self.p_var_mods(pos + 1, Option::Some(w), konst)
        } else if self.tok_ident_eq(pos, "constant") {
            self.p_var_mods(pos + 1, vis, true)
        } else {
            (vis, konst, pos)
        }
    }

    /// A state-variable declaration.
    fn p_state_var(&self, pos: usize) -> (r: (Result<StateVariable, TranspileError>, usize))
        requires
            pos <= self.td().len(),
        ensures
            r.0 matches Result::Ok(v) ==> sp_p_state_var(self.td(), pos as int) == POut::Good(
                v.deep_view(),
                r.1 as int,
            ) && pos < r.1 <= self.td().len(),
            r.0 matches Result::Err(er) ==> sp_p_state_var(self.td(), pos as int) == POut::<
                StateVariableV,
            >::Fail(er),
        decreases self.toks@.len() - pos, 8int,
    {
        let n = self.toks.len();
        proof {
            assert(self.td().len() == self.toks@.len());
            assert(n == self.toks@.len());
        }
        let (ty_r, j): (Result<(String, bool, Option<String>, Option<String>, Option<
            Box<MappingType>,
        >), TranspileError>, usize) = if self.tok_ident_eq(pos, "mapping") {
            let (m_r, j) = self.p_mapping(pos);
            match m_r {
                Result::Ok(m) => {
                    let (mk, mv, nested_inner) = m;
                    let ghost mkv = mk@;
                    let ghost mvv = mv@;
                    let ghost inner_v = deep_opt_mapping(nested_inner);
                    let spelled = mapping_str(mk.as_str(), mv.as_str());
                    let nested_full: Option<Box<MappingType>> = match nested_inner {
                        Option::Some(inner) => {
                            let full = MappingType {
                                key_type: mk.clone(),
                                value_type: mv.clone(),
                                nested: Option::Some(inner),
                            };
                            proof {
                                assert(full.deep_view() == MappingTypeV {
                                    key_type: mkv,
                                    value_type: mvv,
                                    nested: inner_v,
                                });
                            }
                            Option::Some(Box::new(full))
                        },
                        Option::None => Option::None,
                    };
                    (
                        Result::Ok(
                            (spelled, true, Option::Some(mk), Option::Some(mv), nested_full),
                        ),
                        j,
                    )
                },
                Result::Err(er) => (Result::Err(er), pos),
            }
        } else if self.tok_is_ident(pos) {
            (
                Result::Ok(
                    (self.ident_lexeme(pos), false, Option::None, Option::None, Option::None),
                ),
                pos + 1,
            )
        } else {
            (Result::Err(TranspileError::Syntax), pos)
        };
        match ty_r {
            Result::Ok(typ) => {
                let (vis, konst, k) = self.p_var_mods(j, Option::None, false);
                if self.tok_is_ident(k) {
                    let name = self.ident_lexeme(k);
                    let (typ0, typ1, typ2, typ3, typ4) = typ;
                    if self.tok_is_assign(k + 1) {
                        let (e_r, m) = self.p_expression(k + 2);
                        match e_r {
                            Result::Ok(e) => {
                                if self.tok_is_semi(m) {
                                    let v = StateVariable {
                                        name,
                                        var_type: typ0,
                                        visibility: vis,
                                        is_mapping: typ1,
                                        mapping_key_type: typ2,
                                        mapping_value_type: typ3,
                                        is_constant: konst,
                                        initial_value: Option::Some(e),
                                        nested_mapping: typ4,
                                    };
                                    proof {
                                        assert(v.deep_view() =~~= sp_p_state_var(
                                            self.td(),
                                            pos as int,
                                        )->Good_0);
                                    }
                                    (Result::Ok(v), m + 1)
                                } else {
                                    (Result::Err(TranspileError::Syntax), pos)
                                }
                            },
                            Result::Err(er) => (Result::Err(er), pos),
                        }
                    } else if self.tok_is_semi(k + 1) {
                        let v = StateVariable {
                            name,
                            var_type: typ0,
                            visibility: vis,
                            is_mapping: typ1,
                            mapping_key_type: typ2,
                            mapping_value_type: typ3,
                            is_constant: konst,
                            initial_value: Option::None,
                            nested_mapping: typ4,
                        };
                        proof {
                            assert(v.deep_view() =~~= sp_p_state_var(
                                self.td(),
                                pos as int,
                            )->Good_0);
                        }
                        (Result::Ok(v), k + 2)
                    } else {
                        (Result::Err(TranspileError::Syntax), pos)
                    }
                } else {
                    (Result::Err(TranspileError::MissingName), pos)
                }
            },
            Result::Err(er) => (Result::Err(er), pos),
        }
    }

    /// The declarations of a contract body, folded into the contract.
    fn p_body(&self, pos: usize, acc: Contract) -> (r: (
        Result<Contract, TranspileError>,
        usize,
    ))
        requires
            pos <= self.td().len(),
        ensures
            r.0 matches Result::Ok(c) ==> sp_p_body(self.td(), pos as int, acc.deep_view())
                == POut::Good(c.deep_view(), r.1 as int) && pos <= r.1 <= self.td().len(),
            r.0 matches Result::Err(er) ==> sp_p_body(self.td(), pos as int, acc.deep_view())
                == POut::<ContractV>::Fail(er),
        decreases self.toks@.len() - pos, 10int,
    {
        let n = self.toks.len();
        proof {
            assert(self.td().len() == self.toks@.len());
            assert(n == self.toks@.len());
        }
        let ghost accv = acc.deep_view();
        if pos < n && !self.tok_is_rbrace(pos) {
            if self.tok_ident_eq(pos, "function") {
                let (f_r, j) = self.p_function(pos);
                match f_r {
                    Result::Ok(f) => {
                        let ghost fv = f.deep_view();
                        let mut acc2 = acc;
                        acc2.functions.push(f);
                        proof {
                            assert(acc2.deep_view() =~~= sp_add_item(accv, BodyItemV::Func(fv)));
                        }
                        self.p_body(j, acc2)
                    },
                    Result::Err(er) => (Result::Err(er), pos),
                }
            } else if self.tok_ident_eq(pos, "constructor") {
                let (c_r, j) = self.p_constructor(pos);
                match c_r {
                    Result::Ok(c) => {
                        let ghost cv = c.deep_view();
                        let mut acc2 = acc;
                        acc2.constructor = Option::Some(c);
                        proof {
                            assert(acc2.deep_view() =~~= sp_add_item(accv, BodyItemV::Ctor(cv)));
                        }
                        self.p_body(j, acc2)
                    },
                    Result::Err(er) => (Result::Err(er), pos),
                }
            } else if self.tok_ident_eq(pos, "event") {
                let (e_r, j) = self.p_event(pos);
                match e_r {
                    Result::Ok(e) => {
                        let ghost ev = e.deep_view();
                        let mut acc2 = acc;
                        acc2.events.push(e);
                        proof {
                            assert(acc2.deep_view() =~~= sp_add_item(accv, BodyItemV::Ev(ev)));
                        }
                        self.p_body(j, acc2)
                    },
                    Result::Err(er) => (Result::Err(er), pos),
                }
            } else {
                let (v_r, j) = self.p_state_var(pos);
                match v_r {
                    Result::Ok(v) => {
                        let ghost vv = v.deep_view();
                        let mut acc2 = acc;
                        acc2.state_variables.push(v);
                        proof {
                            assert(acc2.deep_view() =~~= sp_add_item(accv, BodyItemV::Var(vv)));
                        }
                        self.p_body(j, acc2)
                    },
                    Result::Err(er) => (Result::Err(er), pos),
                }
            }
        } else {
            (Result::Ok(acc), pos)
        }
    }

    /// One top-level contract declaration.
    fn p_contract(&self, pos: usize) -> (r: (Result<Contract, TranspileError>, usize))
        requires
            pos <= self.td().len(),
        ensures
            r.0 matches Result::Ok(c) ==> sp_p_contract(self.td(), pos as int) == POut::Good(
                c.deep_view(),
                r.1 as int,
            ) && pos < r.1 <= self.td().len(),
            r.0 matches Result::Err(er) ==> sp_p_contract(self.td(), pos as int) == POut::<
                ContractV,
            >::Fail(er),
        decreases self.toks@.len() - pos, 11int,
    {
        let n = self.toks.len();
        proof {
            assert(self.td().len() == self.toks@.len());
            assert(n == self.toks@.len());
        }
        if !self.tok_ident_eq(pos, "contract") {
            return (Result::Err(TranspileError::Syntax), pos);
        }
        if !self.tok_is_ident(pos + 1) {
            return (Result::Err(TranspileError::MissingName), pos);
        }
        if !self.tok_is_lbrace(pos + 2) {
            return (Result::Err(TranspileError::Syntax), pos);
        }
        let name = self.ident_lexeme(pos + 1);
        let ghost namev = name@;
        let seed = Contract {
            name,
            functions: Vec::new(),
            state_variables: Vec::new(),
            events: Vec::new(),
            constructor: Option::None,
        };
        proof {
            assert(seed.deep_view() =~~= sp_empty_contract(namev));
        }
        let (c_r, j) = self.p_body(pos + 3, seed);
        match c_r {
            Result::Ok(c) => {
                if self.tok_is_rbrace(j) {
                    (Result::Ok(c), j + 1)
                } else {
                    (Result::Err(TranspileError::Syntax), pos)
                }
            },
            Result::Err(er) => (Result::Err(er), pos),
        }
    }

    /// All top-level contracts, to the end of the token stream.
    fn p_contracts(&self, pos: usize, acc: Vec<Contract>) -> (r: Result<
        Vec<Contract>,
        TranspileError,
    >)
        requires
            pos <= self.td().len(),
        ensures
            r matches Result::Ok(cs) ==> sp_p_contracts(self.td(), pos as int, acc.deep_view())
                matches POut::Good(csv, _j) && csv == cs.deep_view(),
            r matches Result::Err(er) ==> sp_p_contracts(self.td(), pos as int, acc.deep_view())
                == POut::<Seq<ContractV>>::Fail(er),
        decreases self.toks@.len() - pos,
    {
        let n = self.toks.len();
        proof {
            assert(self.td().len() == self.toks@.len());
            assert(n == self.toks@.len());
        }
        let ghost accv = acc.deep_view();
        if pos >= n {
            return Result::Ok(acc);
        }
        if self.tok_ident_eq(pos, "contract") {
            let (c_r, j) = self.p_contract(pos);
            match c_r {
                Result::Ok(c) => {
                    let ghost cv = c.deep_view();
                    let mut acc2 = acc;
                    acc2.push(c);
                    proof {
                        assert(acc2.deep_view() =~= accv.push(cv));
                    }
                    self.p_contracts(j, acc2)
                },
                Result::Err(er) => Result::Err(er),
            }
        } else {
            Result::Err(TranspileError::Syntax)
        }
    }
}

/// The canonical spelling of a mapping type.
fn mapping_str(k: &str, v: &str) -> (r: String)
    ensures
        r@ == sp_mapping_str(k@, v@),
{
    let mut out = String::from_str("mapping(");
    out.append(k);
    out.append(" => ");
    out.append(v);
    out.append(")");
    out
}

/// Parsing of a whole source text into its contract declarations.
///
/// The result is `Ok` exactly when the text tokenizes and matches the
/// grammar and holds at least one contract declaration; each error case of
/// [`TranspileError`] surfaces exactly as [`sp_parse_all`] describes.
pub fn parse_all(source: &str) -> (r: Result<Vec<Contract>, TranspileError>)
    ensures
        r matches Result::Ok(cs) ==> sp_parse_all(source@) == Result::<
            Seq<ContractV>,
            TranspileError,
        >::Ok(cs.deep_view()) && cs@.len() > 0,
        r matches Result::Err(er) ==> sp_parse_all(source@) == Result::<
            Seq<ContractV>,
            TranspileError,
        >::Err(er),
{
    let toks = match tokenize(source) {
        Result::Ok(ts) => ts,
        Result::Err(er) => {
            return Result::Err(er);
        },
    };
    let parser = SolidityParser { toks };
    let empty: Vec<Contract> = Vec::new();
    proof {
        assert(empty.deep_view() =~= Seq::<ContractV>::empty());
    }
    match parser.p_contracts(0, empty) {
        Result::Ok(cs) => {
            if cs.len() == 0 {
                Result::Err(TranspileError::EmptySource)
            } else {
                Result::Ok(cs)
            }
        },
        Result::Err(er) => Result::Err(er),
    }
}

/// The meaning of parsing a whole source text: tokenize, parse every
/// contract declaration, and reject a file with none.
pub open spec fn sp_parse_all(s: Seq<char>) -> Result<Seq<ContractV>, TranspileError> {
    match sp_lex(s, 0) {
        LexOut::Fail => Result::Err(TranspileError::Syntax),
        LexOut::Toks(toks) => match sp_p_contracts(toks, 0, Seq::empty()) {
            POut::Good(cs, _j) => if cs.len() == 0 {
                Result::Err(TranspileError::EmptySource)
            } else {
                Result::Ok(cs)
            },
            POut::Fail(er) => Result::Err(er),
        },
    }
}

} // verus!
