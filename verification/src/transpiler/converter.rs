//! Lowering of the source syntax tree into the target intermediate
//! representation.
//!
//! Lowering is a total, pure structural transform: it cannot fail for any
//! tree the parser can produce.  Each executable function returns exactly
//! the value of its spec-level counterpart (`sp_convert_*`), stated through
//! the deep views of the types involved.

use vstd::prelude::*;
use vstd::string::StrSliceExecFns;
use vstd::string::StringExecFns;
use crate::errors::TranspileError;
use crate::text::{sp_starts_with, sp_all_digits, str_eq, str_starts_with, str_all_digits};
use crate::views::{
    seq_deep_view, lemma_vec_deep_view, lemma_seq_deep_view_push, lemma_seq_deep_view_add,
    lemma_remove_front_step, lemma_map_values_push, lemma_filter_take_succ, lemma_take_all,
};
use crate::transpiler::ast::{
    Contract, ContractV, Function, FunctionV, Constructor, ConstructorV, Parameter, ParameterV,
    StateVariable, StateVariableV, MappingType, MappingTypeV, Event, EventV, EventParameter,
    EventParameterV, Statement, StatementV, Expression, ExpressionV,
};

verus! {

broadcast use vstd::std_specs::vec::group_vec_axioms, lemma_vec_deep_view;

/// Model of [`ClarityExpression`].
#[verifier::ext_equal]
pub enum ClarityExpressionV {
    Literal(Seq<char>),
    Var(Seq<char>),
    FunctionCall(Seq<char>, Seq<ClarityExpressionV>),
    MapGet(Seq<char>, Seq<ClarityExpressionV>),
    MapSet(Seq<char>, Seq<ClarityExpressionV>, Box<ClarityExpressionV>),
    Print(Seq<ClarityExpressionV>),
}

/// Model of [`ClarityParameter`].
#[verifier::ext_equal]
pub struct ClarityParameterV {
    pub name: Seq<char>,
    pub param_type: Seq<char>,
}

/// Model of [`ClarityFunction`].
#[verifier::ext_equal]
pub struct ClarityFunctionV {
    pub name: Seq<char>,
    pub params: Seq<ClarityParameterV>,
    pub public: bool,
    pub read_only: bool,
    pub body: Seq<ClarityExpressionV>,
}

/// Model of [`ClarityDataVar`].
#[verifier::ext_equal]
pub struct ClarityDataVarV {
    pub name: Seq<char>,
    pub var_type: Seq<char>,
    pub initial_value: Seq<char>,
    pub is_constant: bool,
    pub visibility: Option<Seq<char>>,
}

/// Model of [`ClarityMap`].
#[verifier::ext_equal]
pub struct ClarityMapV {
    pub name: Seq<char>,
    pub key_type: Seq<char>,
    pub value_type: Seq<char>,
}

/// Model of [`ClarityEventField`].
#[verifier::ext_equal]
pub struct ClarityEventFieldV {
    pub name: Seq<char>,
    pub field_type: Seq<char>,
    pub indexed: bool,
}

/// Model of [`ClarityEvent`].
#[verifier::ext_equal]
pub struct ClarityEventV {
    pub name: Seq<char>,
    pub fields: Seq<ClarityEventFieldV>,
}

/// Model of [`ClarityContract`].
#[verifier::ext_equal]
pub struct ClarityContractV {
    pub name: Seq<char>,
    pub functions: Seq<ClarityFunctionV>,
    pub data_vars: Seq<ClarityDataVarV>,
    pub maps: Seq<ClarityMapV>,
    pub events: Seq<ClarityEventV>,
}

/// An expression of the target language's prefix-call form.
#[derive(Debug)]
pub enum ClarityExpression {
    Literal(String),
    Var(String),
    FunctionCall(String, Vec<ClarityExpression>),
    MapGet(String, Vec<ClarityExpression>),
    MapSet(String, Vec<ClarityExpression>, Box<ClarityExpression>),
    Print(Vec<ClarityExpression>),
}

/// A parameter of a lowered function.
#[derive(Debug)]
pub struct ClarityParameter {
    pub name: String,
    pub param_type: String,
}

/// A lowered function: public and read-only flags plus a body of ordered
/// expressions.
#[derive(Debug)]
pub struct ClarityFunction {
    pub name: String,
    pub params: Vec<ClarityParameter>,
    pub public: bool,
    pub read_only: bool,
    pub body: Vec<ClarityExpression>,
}

/// A lowered scalar state variable with its rendered initial value.
#[derive(Debug)]
pub struct ClarityDataVar {
    pub name: String,
    pub var_type: String,
    pub initial_value: String,
    pub is_constant: bool,
    pub visibility: Option<String>,
}

/// A lowered map: key and value types are already flattened to one level.
#[derive(Debug)]
pub struct ClarityMap {
    pub name: String,
    pub key_type: String,
    pub value_type: String,
}

/// A field of a lowered event.
#[derive(Debug)]
pub struct ClarityEventField {
    pub name: String,
    pub field_type: String,
    pub indexed: bool,
}

/// A lowered event; the target language renders it as documentation only.
#[derive(Debug)]
pub struct ClarityEvent {
    pub name: String,
    pub fields: Vec<ClarityEventField>,
}

/// A lowered contract, ready for rendering.
#[derive(Debug)]
pub struct ClarityContract {
    pub name: String,
    pub functions: Vec<ClarityFunction>,
    pub data_vars: Vec<ClarityDataVar>,
    pub maps: Vec<ClarityMap>,
    pub events: Vec<ClarityEvent>,
}

/// The model of one target expression; mutually recursive with
/// [`cexprs_deep_view`] because call arguments are held in a vector.
pub open spec fn cexpr_deep_view(e: ClarityExpression) -> ClarityExpressionV
    decreases e,
{
    match e {
        ClarityExpression::Literal(s) => ClarityExpressionV::Literal(s@),
        ClarityExpression::Var(s) => ClarityExpressionV::Var(s@),
        ClarityExpression::FunctionCall(n, args) => {
            proof {
                assert(decreases_to!(args => args@));
            }
            ClarityExpressionV::FunctionCall(n@, cexprs_deep_view(args@))
        },
        ClarityExpression::MapGet(n, keys) => {
            proof {
                assert(decreases_to!(keys => keys@));
            }
            ClarityExpressionV::MapGet(n@, cexprs_deep_view(keys@))
        },
        ClarityExpression::MapSet(n, keys, v) => {
            proof {
                assert(decreases_to!(keys => keys@));
            }
            ClarityExpressionV::MapSet(
                n@,
                cexprs_deep_view(keys@),
                Box::new(cexpr_deep_view(*v)),
            )
        },
        ClarityExpression::Print(args) => {
            proof {
                assert(decreases_to!(args => args@));
            }
            ClarityExpressionV::Print(cexprs_deep_view(args@))
        },
    }
}

/// The models of a sequence of target expressions, elementwise and in
/// order.
pub open spec fn cexprs_deep_view(s: Seq<ClarityExpression>) -> Seq<ClarityExpressionV>
    decreases s,
{
    if s.len() == 0 {
        Seq::empty()
    } else {
        proof {
            assert(decreases_to!(s => s[0]));
        }
        seq![cexpr_deep_view(s[0])] + cexprs_deep_view(s.drop_first())
    }
}

impl DeepView for ClarityExpression {
    type V = ClarityExpressionV;

    open spec fn deep_view(&self) -> ClarityExpressionV {
        cexpr_deep_view(*self)
    }
}

impl DeepView for ClarityParameter {
    type V = ClarityParameterV;

    open spec fn deep_view(&self) -> ClarityParameterV {
        ClarityParameterV { name: self.name.deep_view(), param_type: self.param_type.deep_view() }
    }
}

impl DeepView for ClarityFunction {
    type V = ClarityFunctionV;

    open spec fn deep_view(&self) -> ClarityFunctionV {
        ClarityFunctionV {
            name: self.name.deep_view(),
            params: self.params.deep_view(),
            public: self.public,
            read_only: self.read_only,
            body: self.body.deep_view(),
        }
    }
}

impl DeepView for ClarityDataVar {
    type V = ClarityDataVarV;

    open spec fn deep_view(&self) -> ClarityDataVarV {
        ClarityDataVarV {
            name: self.name.deep_view(),
            var_type: self.var_type.deep_view(),
            initial_value: self.initial_value.deep_view(),
            is_constant: self.is_constant,
            visibility: self.visibility.deep_view(),
        }
    }
}

impl DeepView for ClarityMap {
    type V = ClarityMapV;

    open spec fn deep_view(&self) -> ClarityMapV {
        ClarityMapV {
            name: self.name.deep_view(),
            key_type: self.key_type.deep_view(),
            value_type: self.value_type.deep_view(),
        }
    }
}

impl DeepView for ClarityEventField {
    type V = ClarityEventFieldV;

    open spec fn deep_view(&self) -> ClarityEventFieldV {
        ClarityEventFieldV {
            name: self.name.deep_view(),
            field_type: self.field_type.deep_view(),
            indexed: self.indexed,
        }
    }
}

impl DeepView for ClarityEvent {
    type V = ClarityEventV;

    open spec fn deep_view(&self) -> ClarityEventV {
        ClarityEventV { name: self.name.deep_view(), fields: self.fields.deep_view() }
    }
}

impl DeepView for ClarityContract {
    type V = ClarityContractV;

    open spec fn deep_view(&self) -> ClarityContractV {
        ClarityContractV {
            name: self.name.deep_view(),
            functions: self.functions.deep_view(),
            data_vars: self.data_vars.deep_view(),
            maps: self.maps.deep_view(),
            events: self.events.deep_view(),
        }
    }
}

/// The type-mapping table: the single source of truth for how a source
/// type spells in the target language.  Unrecognized scalar types fall back
/// to the unsigned-integer type; a canonical `mapping(...)` spelling passes
/// through unchanged.
pub open spec fn sp_map_type(t: Seq<char>) -> Seq<char> {
    if t == "uint256"@ || t == "uint"@ {
        "uint"@
    } else if t == "bool"@ {
        "bool"@
    } else if t == "address"@ {
        "principal"@
    } else if t == "string"@ {
        "string-ascii"@
    } else if sp_starts_with(t, "mapping"@) {
        t
    } else {
        "uint"@
    }
}

/// The composite key and innermost value of a nested mapping, flattened to
/// a single level.  The two key fields carry the fixed labels of the
/// ownership/token shape the target idiom expects.
pub open spec fn sp_nested_key_value(m: MappingTypeV) -> (Seq<char>, Seq<char>)
    decreases m,
{
    match m.nested {
        Option::Some(n) => {
            let inner = sp_nested_key_value(*n);
            (
                "{owner: "@ + sp_map_type(m.key_type) + ", token-id: "@ + inner.0 + "}"@,
                inner.1,
            )
        },
        Option::None => (sp_map_type(m.key_type), sp_map_type(m.value_type)),
    }
}

/// The default initial value of a target type.
pub open spec fn sp_default_value(t: Seq<char>) -> Seq<char> {
    if t == "uint"@ {
        "u0"@
    } else if t == "bool"@ {
        "false"@
    } else if t == "principal"@ {
        "tx-sender"@
    } else if t == "string-ascii"@ {
        "\"\""@
    } else {
        "u0"@
    }
}

/// The textual spelling of a source expression, used when a member access
/// has no recognized translation and falls back to a synthetic name.
pub open spec fn sp_expr_text(e: ExpressionV) -> Seq<char>
    decreases e,
{
    match e {
        ExpressionV::Identifier(name) => name,
        ExpressionV::Literal(val) => val,
        ExpressionV::BinaryOp(l, op, r) => "("@ + sp_expr_text(*l) + " "@ + op + " "@
            + sp_expr_text(*r) + ")"@,
        ExpressionV::MapAccess(m, k) => m + "["@ + sp_expr_text(*k) + "]"@,
        ExpressionV::MemberAccess(b, m) => sp_expr_text(*b) + "."@ + m,
    }
}

/// Lowering of one source expression.
///
/// A bare identifier becomes a state read; an all-digit literal gains the
/// unsigned-integer prefix; the synthetic `,` operator becomes a tuple
/// constructor; the caller-identity member pattern becomes the caller
/// sentinel.
pub open spec fn sp_convert_expression(e: ExpressionV) -> ClarityExpressionV
    decreases e,
{
    match e {
        ExpressionV::Literal(val) => if val == "true"@ {
            ClarityExpressionV::Literal("true"@)
        } else if val == "false"@ {
            ClarityExpressionV::Literal("false"@)
        } else if sp_all_digits(val) {
            ClarityExpressionV::Literal("u"@ + val)
        } else {
            ClarityExpressionV::Literal(val)
        },
        ExpressionV::Identifier(name) => ClarityExpressionV::FunctionCall(
            "var-get"@,
            seq![ClarityExpressionV::Var(name)],
        ),
        ExpressionV::BinaryOp(l, op, r) => if op == ","@ {
            ClarityExpressionV::FunctionCall(
                "tuple"@,
                seq![sp_convert_expression(*l), sp_convert_expression(*r)],
            )
        } else {
            ClarityExpressionV::FunctionCall(
                op,
                seq![sp_convert_expression(*l), sp_convert_expression(*r)],
            )
        },
        ExpressionV::MapAccess(m, k) => ClarityExpressionV::MapGet(
            m,
            seq![sp_convert_expression(*k)],
        ),
        ExpressionV::MemberAccess(b, m) => match *b {
            ExpressionV::Identifier(name) => if name == "msg"@ && m == "sender"@ {
                ClarityExpressionV::Var("tx-sender"@)
            } else {
                ClarityExpressionV::Var(name + "-"@ + m)
            },
            _ => ClarityExpressionV::Var(sp_expr_text(*b) + "-"@ + m),
        },
    }
}

/// Lowering of one source statement.
pub open spec fn sp_convert_statement(s: StatementV) -> ClarityExpressionV {
    match s {
        StatementV::Expression(e) => sp_convert_expression(e),
        StatementV::Return(e) => sp_convert_expression(e),
        StatementV::Assignment(n, e) => ClarityExpressionV::FunctionCall(
            "var-set"@,
            seq![ClarityExpressionV::Var(n), sp_convert_expression(e)],
        ),
        StatementV::MapAccessAssignment(m, k, v) => ClarityExpressionV::MapSet(
            m,
            seq![sp_convert_expression(k)],
            Box::new(sp_convert_expression(v)),
        ),
        StatementV::Emit(n, args) => ClarityExpressionV::Print(
            seq![ClarityExpressionV::Literal("\""@ + n + "\""@)] + args.map_values(
                |a: ExpressionV| sp_convert_expression(a),
            ),
        ),
    }
}

/// Lowering of a statement list, one expression per statement, in order.
pub open spec fn sp_convert_statements(ss: Seq<StatementV>) -> Seq<ClarityExpressionV> {
    ss.map_values(|s: StatementV| sp_convert_statement(s))
}

/// Lowering of a scalar state variable.  An explicit literal initializer is
/// kept (with the unsigned prefix when the resolved type asks for it); any
/// other initializer, or none, falls back to the type's default.
pub open spec fn sp_convert_state_variable(v: StateVariableV) -> ClarityDataVarV {
    let var_type = sp_map_type(v.var_type);
    let initial_value = match v.initial_value {
        Option::Some(e) => match e {
            ExpressionV::Literal(val) => if var_type == "uint"@ && sp_all_digits(val) {
                "u"@ + val
            } else {
                val
            },
            _ => sp_default_value(var_type),
        },
        Option::None => sp_default_value(var_type),
    };
    ClarityDataVarV {
        name: v.name,
        var_type,
        initial_value,
        is_constant: v.is_constant,
        visibility: v.visibility,
    }
}

/// Lowering of a mapping declaration to a single-level map.  A declaration
/// without deeper nesting maps its two types directly; a nested one is
/// flattened through [`sp_nested_key_value`].
pub open spec fn sp_convert_mapping(v: StateVariableV) -> ClarityMapV {
    match v.nested_mapping {
        Option::Some(n) => {
            let kv = sp_nested_key_value(*n);
            ClarityMapV { name: v.name, key_type: kv.0, value_type: kv.1 }
        },
        Option::None => ClarityMapV {
            name: v.name,
            key_type: match v.mapping_key_type {
                Option::Some(k) => sp_map_type(k),
                Option::None => "uint"@,
            },
            value_type: match v.mapping_value_type {
                Option::Some(vt) => sp_map_type(vt),
                Option::None => "uint"@,
            },
        },
    }
}

/// Lowering of one function parameter.
pub open spec fn sp_convert_parameter(p: ParameterV) -> ClarityParameterV {
    ClarityParameterV { name: p.name, param_type: sp_map_type(p.param_type) }
}

/// Lowering of a function definition: `public` holds exactly for source
/// visibility `public` or `external`; `read_only` holds exactly for source
/// mutability `view` or `pure`.
pub open spec fn sp_convert_function(f: FunctionV) -> ClarityFunctionV {
    ClarityFunctionV {
        name: f.name,
        params: f.params.map_values(|p: ParameterV| sp_convert_parameter(p)),
        public: match f.visibility {
            Option::Some(v) => v == "public"@ || v == "external"@,
            Option::None => false,
        },
        read_only: match f.mutability {
            Option::Some(m) => m == "view"@ || m == "pure"@,
            Option::None => false,
        },
        body: sp_convert_statements(f.body),
    }
}

/// Lowering of the constructor: a public, non-read-only function named
/// `init`.
pub open spec fn sp_convert_constructor(k: ConstructorV) -> ClarityFunctionV {
    ClarityFunctionV {
        name: "init"@,
        params: k.params.map_values(|p: ParameterV| sp_convert_parameter(p)),
        public: true,
        read_only: false,
        body: sp_convert_statements(k.body),
    }
}

/// Lowering of one event declaration.
pub open spec fn sp_convert_event(e: EventV) -> ClarityEventV {
    ClarityEventV {
        name: e.name,
        fields: e.params.map_values(
            |p: EventParameterV| ClarityEventFieldV {
                name: p.name,
                field_type: sp_map_type(p.param_type),
                indexed: p.indexed,
            },
        ),
    }
}

/// The deep view of a sequence of target expressions is elementwise.
pub broadcast proof fn lemma_cexprs_deep_view(s: Seq<ClarityExpression>)
    ensures
        (#[trigger] cexprs_deep_view(s)).len() == s.len(),
        forall|i: int| 0 <= i < s.len() ==> cexprs_deep_view(s)[i] == cexpr_deep_view(s[i]),
    decreases s.len(),
{
    if s.len() > 0 {
        lemma_cexprs_deep_view(s.drop_first());
    }
}

/// Translation of one source type into its target spelling.
pub fn convert_solidity_type(solidity_type: &str) -> (r: String)
    ensures
        r@ == sp_map_type(solidity_type@),
{
    if str_eq(solidity_type, "uint256") || str_eq(solidity_type, "uint") {
        String::from_str("uint")
    } else if str_eq(solidity_type, "bool") {
        String::from_str("bool")
    } else if str_eq(solidity_type, "address") {
        String::from_str("principal")
    } else if str_eq(solidity_type, "string") {
        String::from_str("string-ascii")
    } else if str_starts_with(solidity_type, "mapping") {
        solidity_type.to_owned()
    } else {
        String::from_str("uint")
    }
}

/// The default initial value of a target type.
fn default_value(t: &str) -> (r: String)
    ensures
        r@ == sp_default_value(t@),
{
    if str_eq(t, "uint") {
        String::from_str("u0")
    } else if str_eq(t, "bool") {
        String::from_str("false")
    } else if str_eq(t, "principal") {
        String::from_str("tx-sender")
    } else if str_eq(t, "string-ascii") {
        String::from_str("\"\"")
    } else {
        String::from_str("u0")
    }
}

/// The textual spelling of a source expression, for the synthetic-name
/// fallback of member accesses.
fn expr_text(e: &Expression) -> (r: String)
    ensures
        r@ == sp_expr_text(e.deep_view()),
    decreases e,
{
    match e {
        Expression::Identifier(name) => name.clone(),
        Expression::Literal(val) => val.clone(),
        Expression::BinaryOp(l, op, rhs) => {
            let mut out = String::from_str("(");
            let lt = expr_text(l);
            out.append(lt.as_str());
            out.append(" ");
            out.append(op.as_str());
            out.append(" ");
            let rt = expr_text(rhs);
            out.append(rt.as_str());
            out.append(")");
            out
        },
        Expression::MapAccess(m, k) => {
            let mut out = m.clone();
            out.append("[");
            let kt = expr_text(k);
            out.append(kt.as_str());
            out.append("]");
            out
        },
        Expression::MemberAccess(b, m) => {
            let mut out = expr_text(b);
            out.append(".");
            out.append(m.as_str());
            out
        },
    }
}

/// Lowering of one source expression.
fn convert_expression(expr: Expression) -> (r: ClarityExpression)
    ensures
        r.deep_view() == sp_convert_expression(expr.deep_view()),
    decreases expr,
{
    broadcast use lemma_cexprs_deep_view;

    match expr {
        Expression::Literal(val) => {
            if str_eq(val.as_str(), "true") {
                ClarityExpression::Literal(val)
            } else if str_eq(val.as_str(), "false") {
                ClarityExpression::Literal(val)
            } else if str_all_digits(val.as_str()) {
                let mut s = String::from_str("u");
                s.append(val.as_str());
                ClarityExpression::Literal(s)
            } else {
                ClarityExpression::Literal(val)
            }
        },
        Expression::Identifier(name) => {
            let args = vec![ClarityExpression::Var(name)];
            proof {
                assert(args@.len() == 1);
                assert(cexprs_deep_view(args@) =~= seq![args@[0].deep_view()]);
            }
            let r = ClarityExpression::FunctionCall(String::from_str("var-get"), args);
            proof {
                assert(r.deep_view() =~~= sp_convert_expression(expr.deep_view()));
            }
            r
        },
        Expression::BinaryOp(l, op, rhs) => {
            let cl = convert_expression(*l);
            let cr = convert_expression(*rhs);
            let callee = if str_eq(op.as_str(), ",") {
                String::from_str("tuple")
            } else {
                op
            };
            let args = vec![cl, cr];
            proof {
                assert(args@.len() == 2);
                assert(cexprs_deep_view(args@) =~= seq![
                    args@[0].deep_view(),
                    args@[1].deep_view(),
                ]);
            }
            let r = ClarityExpression::FunctionCall(callee, args);
            proof {
                assert(r.deep_view() =~~= sp_convert_expression(expr.deep_view()));
            }
            r
        },
        Expression::MapAccess(m, k) => {
            let ck = convert_expression(*k);
            let keys = vec![ck];
            proof {
                assert(keys@.len() == 1);
                assert(cexprs_deep_view(keys@) =~= seq![keys@[0].deep_view()]);
            }
            let r = ClarityExpression::MapGet(m, keys);
            proof {
                assert(r.deep_view() =~~= sp_convert_expression(expr.deep_view()));
            }
            r
        },
        Expression::MemberAccess(b, m) => {
            let inner = *b;
            proof {
                assert(expr.deep_view() == ExpressionV::MemberAccess(
                    Box::new(inner.deep_view()),
                    m@,
                ));
            }
            match inner {
                Expression::Identifier(name) => {
                    if str_eq(name.as_str(), "msg") && str_eq(m.as_str(), "sender") {
                        ClarityExpression::Var(String::from_str("tx-sender"))
                    } else {
                        let mut s = name;
                        s.append("-");
                        s.append(m.as_str());
                        let r = ClarityExpression::Var(s);
                        proof {
                            assert(expr.deep_view() == ExpressionV::MemberAccess(
                                Box::new(ExpressionV::Identifier(name@)),
                                m@,
                            ));
                            assert(r.deep_view() =~~= sp_convert_expression(expr.deep_view()));
                        }
                        r
                    }
                },
                other => {
                    proof {
                        match &other {
                            Expression::Literal(_) => {},
                            Expression::Identifier(_) => {},
                            Expression::BinaryOp(_, _, _) => {},
                            Expression::MapAccess(_, _) => {},
                            Expression::MemberAccess(_, _) => {},
                        }
                        assert(!(other.deep_view() matches ExpressionV::Identifier(_)));
                    }
                    let mut s = expr_text(&other);
                    s.append("-");
                    s.append(m.as_str());
                    let r = ClarityExpression::Var(s);
                    proof {
                        assert(r.deep_view() =~~= sp_convert_expression(expr.deep_view()));
                    }
                    r
                },
            }
        },
    }
}

/// Whether a state variable is a mapping declaration.
pub open spec fn sp_is_mapping(v: StateVariableV) -> bool {
    v.is_mapping
}

/// Lowering of one source statement.
fn convert_statement(stmt: Statement) -> (r: ClarityExpression)
    ensures
        r.deep_view() == sp_convert_statement(stmt.deep_view()),
{
    broadcast use lemma_cexprs_deep_view;

    match stmt {
        Statement::Expression(expr) => convert_expression(expr),
        Statement::Return(expr) => convert_expression(expr),
        Statement::Assignment(var_name, expr) => {
            let ce = convert_expression(expr);
            let args = vec![ClarityExpression::Var(var_name), ce];
            proof {
                assert(args@.len() == 2);
                assert(cexprs_deep_view(args@) =~= seq![
                    args@[0].deep_view(),
                    args@[1].deep_view(),
                ]);
            }
            let r = ClarityExpression::FunctionCall(String::from_str("var-set"), args);
            proof {
                assert(r.deep_view() =~~= sp_convert_statement(stmt.deep_view()));
            }
            r
        },
        Statement::MapAccessAssignment(map_name, key, value) => {
            let key_inner = *key;
            let ck = convert_expression(key_inner);
            let cv = convert_expression(value);
            let keys = vec![ck];
            proof {
                assert(keys@.len() == 1);
                assert(cexprs_deep_view(keys@) =~= seq![keys@[0].deep_view()]);
            }
            let r = ClarityExpression::MapSet(map_name, keys, Box::new(cv));
            proof {
                assert(r.deep_view() =~~= sp_convert_statement(stmt.deep_view()));
            }
            r
        },
        Statement::Emit(event_name, args) => {
            let ghost sv = stmt.deep_view();
            let mut quoted = String::from_str("\"");
            quoted.append(event_name.as_str());
            quoted.append("\"");
            let mut print_args: Vec<ClarityExpression> = Vec::new();
            print_args.push(ClarityExpression::Literal(quoted));
            let ghost first = print_args.deep_view();
            let ghost pa0 = print_args@;
            let ghost argsd0 = args.deep_view();
            let mut cargs = convert_expressions(args);
            let ghost cargsd = cargs.deep_view();
            let ghost cargsv = cargs@;
            print_args.append(&mut cargs);
            let r = ClarityExpression::Print(print_args);
            proof {
                lemma_seq_deep_view_add(pa0, cargsv);
                assert(first =~= seq![ClarityExpressionV::Literal(quoted@)]);
                assert(print_args.deep_view() =~= first + cargsd);
                assert(sv == StatementV::Emit(event_name@, argsd0));
                assert(cargsd == argsd0.map_values(|a: ExpressionV| sp_convert_expression(a)));
                assert(quoted@ == "\""@ + event_name@ + "\""@);
                assert(cexprs_deep_view(print_args@) =~= seq_deep_view(print_args@));
                assert(r.deep_view() =~~= sp_convert_statement(sv));
            }
            r
        },
    }
}

/// Lowering of an expression list, in order.
fn convert_expressions(args: Vec<Expression>) -> (r: Vec<ClarityExpression>)
    ensures
        r.deep_view() == args.deep_view().map_values(|a: ExpressionV| sp_convert_expression(a)),
{
    let ghost orig = args.deep_view();
    let mut rest = args;
    let mut out: Vec<ClarityExpression> = Vec::new();
    let ghost mut k: int = 0;
    proof {
        assert(rest.deep_view() =~= orig.skip(0));
        assert(out.deep_view() =~= orig.take(0).map_values(
            |a: ExpressionV| sp_convert_expression(a),
        ));
    }
    while rest.len() > 0
        invariant
            0 <= k <= orig.len(),
            rest.deep_view() == orig.skip(k),
            out.deep_view() == orig.take(k).map_values(|a: ExpressionV| sp_convert_expression(a)),
        decreases rest.len(),
    {
        let ghost beforev = rest@;
        let a = rest.remove(0);
        proof {
            lemma_remove_front_step(beforev, rest@, orig, k);
        }
        let ca = convert_expression(a);
        let ghost outv = out@;
        out.push(ca);
        proof {
            k = k + 1;
            lemma_seq_deep_view_push(outv, ca);
            lemma_map_values_push(
                orig.take(k - 1),
                orig[k - 1],
                |a: ExpressionV| sp_convert_expression(a),
            );
            assert(orig.take(k - 1).push(orig[k - 1]) =~= orig.take(k));
        }
    }
    proof {
        lemma_take_all(orig, k);
    }
    out
}

/// Lowering of a statement list, in order.
fn convert_statements(statements: Vec<Statement>) -> (r: Vec<ClarityExpression>)
    ensures
        r.deep_view() == sp_convert_statements(statements.deep_view()),
{
    let ghost orig = statements.deep_view();
    let mut ss = statements;
    let mut out: Vec<ClarityExpression> = Vec::new();
    let ghost mut k: int = 0;
    proof {
        assert(ss.deep_view() =~= orig.skip(0));
        assert(out.deep_view() =~= sp_convert_statements(orig.take(0)));
    }
    while ss.len() > 0
        invariant
            0 <= k <= orig.len(),
            ss.deep_view() == orig.skip(k),
            out.deep_view() == sp_convert_statements(orig.take(k)),
        decreases ss.len(),
    {
        let ghost beforev = ss@;
        let stmt = ss.remove(0);
        proof {
            lemma_remove_front_step(beforev, ss@, orig, k);
        }
        let ce = convert_statement(stmt);
        let ghost outv = out@;
        out.push(ce);
        proof {
            k = k + 1;
            lemma_seq_deep_view_push(outv, ce);
            lemma_map_values_push(
                orig.take(k - 1),
                orig[k - 1],
                |s: StatementV| sp_convert_statement(s),
            );
            assert(orig.take(k - 1).push(orig[k - 1]) =~= orig.take(k));
        }
    }
    proof {
        lemma_take_all(orig, k);
    }
    out
}

/// Lowering of one scalar state variable.
fn convert_state_variable(var: StateVariable) -> (r: ClarityDataVar)
    ensures
        r.deep_view() == sp_convert_state_variable(var.deep_view()),
{
    let ghost vv = var.deep_view();
    let var_type = convert_solidity_type(var.var_type.as_str());
    let initial_value = match var.initial_value {
        Option::Some(expr) => {
            match expr {
                Expression::Literal(val) => {
                    if str_eq(var_type.as_str(), "uint") && str_all_digits(val.as_str()) {
                        let mut s = String::from_str("u");
                        s.append(val.as_str());
                        s
                    } else {
                        val
                    }
                },
                _ => default_value(var_type.as_str()),
            }
        },
        Option::None => default_value(var_type.as_str()),
    };
    let r = ClarityDataVar {
        name: var.name,
        var_type,
        initial_value,
        is_constant: var.is_constant,
        visibility: var.visibility,
    };
    proof {
        assert(r.deep_view() =~~= sp_convert_state_variable(vv));
    }
    r
}

/// Flattening of a nested mapping into its composite key and innermost
/// value type.
fn convert_nested_mapping_type(mapping: &MappingType) -> (r: (String, String))
    ensures
        r.0@ == sp_nested_key_value(mapping.deep_view()).0,
        r.1@ == sp_nested_key_value(mapping.deep_view()).1,
    decreases mapping,
{
    match &mapping.nested {
        Option::Some(nested) => {
            let (nested_key, nested_value) = convert_nested_mapping_type(nested);
            let mut key = String::from_str("{owner: ");
            let kt = convert_solidity_type(mapping.key_type.as_str());
            key.append(kt.as_str());
            key.append(", token-id: ");
            key.append(nested_key.as_str());
            key.append("}");
            (key, nested_value)
        },
        Option::None => {
            (
                convert_solidity_type(mapping.key_type.as_str()),
                convert_solidity_type(mapping.value_type.as_str()),
            )
        },
    }
}

/// Lowering of a mapping state variable to a single-level map.
fn convert_mapping(var: StateVariable) -> (r: ClarityMap)
    ensures
        r.deep_view() == sp_convert_mapping(var.deep_view()),
{
    let ghost vv = var.deep_view();
    match &var.nested_mapping {
        Option::Some(nested) => {
            let kv = convert_nested_mapping_type(nested);
            ClarityMap { name: var.name, key_type: kv.0, value_type: kv.1 }
        },
        Option::None => {
            let key_type = match &var.mapping_key_type {
                Option::Some(k) => convert_solidity_type(k.as_str()),
                Option::None => String::from_str("uint"),
            };
            let value_type = match &var.mapping_value_type {
                Option::Some(vt) => convert_solidity_type(vt.as_str()),
                Option::None => String::from_str("uint"),
            };
            ClarityMap { name: var.name, key_type, value_type }
        },
    }
}

/// Lowering of a parameter list, in order.
fn convert_parameters(params: Vec<Parameter>) -> (r: Vec<ClarityParameter>)
    ensures
        r.deep_view() == params.deep_view().map_values(
            |p: ParameterV| sp_convert_parameter(p),
        ),
{
    let ghost orig = params.deep_view();
    let mut ps = params;
    let mut out: Vec<ClarityParameter> = Vec::new();
    let ghost mut k: int = 0;
    proof {
        assert(ps.deep_view() =~= orig.skip(0));
        assert(out.deep_view() =~= orig.take(0).map_values(
            |p: ParameterV| sp_convert_parameter(p),
        ));
    }
    while ps.len() > 0
        invariant
            0 <= k <= orig.len(),
            ps.deep_view() == orig.skip(k),
            out.deep_view() == orig.take(k).map_values(|p: ParameterV| sp_convert_parameter(p)),
        decreases ps.len(),
    {
        let ghost beforev = ps@;
        let p = ps.remove(0);
        proof {
            lemma_remove_front_step(beforev, ps@, orig, k);
        }
        let cp = ClarityParameter {
            name: p.name,
            param_type: convert_solidity_type(p.param_type.as_str()),
        };
        proof {
            assert(cp.deep_view() == sp_convert_parameter(orig[k]));
        }
        let ghost outv = out@;
        out.push(cp);
        proof {
            k = k + 1;
            lemma_seq_deep_view_push(outv, cp);
            lemma_map_values_push(
                orig.take(k - 1),
                orig[k - 1],
                |p: ParameterV| sp_convert_parameter(p),
            );
            assert(orig.take(k - 1).push(orig[k - 1]) =~= orig.take(k));
        }
    }
    proof {
        lemma_take_all(orig, k);
    }
    out
}

/// Lowering of one function definition.  Lowering is total: the result is
/// always the lowered function.
pub fn convert_function(func: Function) -> (r: Result<ClarityFunction, TranspileError>)
    ensures
        r matches Result::Ok(f) && f.deep_view() == sp_convert_function(func.deep_view()),
{
    let ghost fv = func.deep_view();
    let public = match &func.visibility {
        Option::Some(v) => str_eq(v.as_str(), "public") || str_eq(v.as_str(), "external"),
        Option::None => false,
    };
    let read_only = match &func.mutability {
        Option::Some(m) => str_eq(m.as_str(), "view") || str_eq(m.as_str(), "pure"),
        Option::None => false,
    };
    let cf = ClarityFunction {
        name: func.name,
        params: convert_parameters(func.params),
        public,
        read_only,
        body: convert_statements(func.body),
    };
    proof {
        assert(cf.deep_view() =~~= sp_convert_function(fv));
    }
    Result::Ok(cf)
}

/// Lowering of a whole contract: state variables split into data vars and
/// maps, events lower to documentation records, the constructor (when
/// present) becomes the public `init` function, and every function lowers
/// in declaration order.  Lowering is total: the result is always the
/// lowered contract.
pub fn convert_contract(contract: Contract) -> (r: Result<ClarityContract, TranspileError>)
    ensures
        r matches Result::Ok(cc) && cc.deep_view() == sp_convert_contract(contract.deep_view()),
{
    let ghost cv = contract.deep_view();
    let Contract { name, functions, state_variables, events, constructor } = contract;

    let ghost varsd = state_variables.deep_view();
    let mut vars = state_variables;
    let mut data_vars: Vec<ClarityDataVar> = Vec::new();
    let mut maps: Vec<ClarityMap> = Vec::new();
    let ghost mut k: int = 0;
    proof {
        assert(vars.deep_view() =~= varsd.skip(0));
        assert(varsd.take(0) =~= Seq::<StateVariableV>::empty());
        reveal(Seq::filter);
        assert(data_vars.deep_view() =~= varsd.take(0).filter(
            |v: StateVariableV| !sp_is_mapping(v),
        ).map_values(|v: StateVariableV| sp_convert_state_variable(v)));
        assert(maps.deep_view() =~= varsd.take(0).filter(|v: StateVariableV| sp_is_mapping(v))
            .map_values(|v: StateVariableV| sp_convert_mapping(v)));
    }
    while vars.len() > 0
        invariant
            0 <= k <= varsd.len(),
            vars.deep_view() == varsd.skip(k),
            data_vars.deep_view() == varsd.take(k).filter(
                |v: StateVariableV| !sp_is_mapping(v),
            ).map_values(|v: StateVariableV| sp_convert_state_variable(v)),
            maps.deep_view() == varsd.take(k).filter(|v: StateVariableV| sp_is_mapping(v))
                .map_values(|v: StateVariableV| sp_convert_mapping(v)),
        decreases vars.len(),
    {
        let ghost beforev = vars@;
        let var = vars.remove(0);
        proof {
            lemma_remove_front_step(beforev, vars@, varsd, k);
            lemma_filter_take_succ(varsd, |v: StateVariableV| sp_is_mapping(v), k);
            lemma_filter_take_succ(varsd, |v: StateVariableV| !sp_is_mapping(v), k);
        }
        if var.is_mapping {
            let cm = convert_mapping(var);
            let ghost mapsv = maps@;
            maps.push(cm);
            proof {
                k = k + 1;
                lemma_seq_deep_view_push(mapsv, cm);
                lemma_map_values_push(
                    varsd.take(k - 1).filter(|v: StateVariableV| sp_is_mapping(v)),
                    varsd[k - 1],
                    |v: StateVariableV| sp_convert_mapping(v),
                );
            }
        } else {
            let dv = convert_state_variable(var);
            let ghost dvsv = data_vars@;
            data_vars.push(dv);
            proof {
                k = k + 1;
                lemma_seq_deep_view_push(dvsv, dv);
                lemma_map_values_push(
                    varsd.take(k - 1).filter(|v: StateVariableV| !sp_is_mapping(v)),
                    varsd[k - 1],
                    |v: StateVariableV| sp_convert_state_variable(v),
                );
            }
        }
    }
    proof {
        lemma_take_all(varsd, k);
    }

    let ghost eventsd = events.deep_view();
    let mut evs = events;
    let mut cevents: Vec<ClarityEvent> = Vec::new();
    let ghost mut j: int = 0;
    proof {
        assert(evs.deep_view() =~= eventsd.skip(0));
        assert(cevents.deep_view() =~= eventsd.take(0).map_values(
            |e: EventV| sp_convert_event(e),
        ));
    }
    while evs.len() > 0
        invariant
            0 <= j <= eventsd.len(),
            evs.deep_view() == eventsd.skip(j),
            cevents.deep_view() == eventsd.take(j).map_values(|e: EventV| sp_convert_event(e)),
        decreases evs.len(),
    {
        let ghost beforev = evs@;
        let ev = evs.remove(0);
        proof {
            lemma_remove_front_step(beforev, evs@, eventsd, j);
        }
        let ghost evd = ev.deep_view();
        let Event { name: ev_name, params: ev_params } = ev;
        let fields = convert_event_fields(ev_params);
        let ce = ClarityEvent { name: ev_name, fields };
        proof {
            assert(ce.deep_view() =~~= sp_convert_event(evd));
        }
        let ghost cevsv = cevents@;
        cevents.push(ce);
        proof {
            j = j + 1;
            lemma_seq_deep_view_push(cevsv, ce);
            lemma_map_values_push(eventsd.take(j - 1), eventsd[j - 1], |e: EventV| sp_convert_event(e));
            assert(eventsd.take(j - 1).push(eventsd[j - 1]) =~= eventsd.take(j));
        }
    }
    proof {
        lemma_take_all(eventsd, j);
    }

    let mut cfunctions: Vec<ClarityFunction> = Vec::new();
    match constructor {
        Option::Some(ctor) => {
            let ghost ctord = ctor.deep_view();
            let Constructor { params: c_params, visibility: _, body: c_body } = ctor;
            let cf = ClarityFunction {
                name: String::from_str("init"),
                params: convert_parameters(c_params),
                public: true,
                read_only: false,
                body: convert_statements(c_body),
            };
            proof {
                assert(cf.deep_view() =~~= sp_convert_constructor(ctord));
            }
            cfunctions.push(cf);
        },
        Option::None => {},
    }
    let ghost ctor_prefix = match cv.constructor {
        Option::Some(ctorv) => seq![sp_convert_constructor(ctorv)],
        Option::None => Seq::<ClarityFunctionV>::empty(),
    };
    proof {
        assert(cfunctions.deep_view() =~= ctor_prefix);
    }

    let ghost funcsd = functions.deep_view();
    let mut fns = functions;
    let ghost mut fj: int = 0;
    proof {
        assert(fns.deep_view() =~= funcsd.skip(0));
        assert(cfunctions.deep_view() =~= ctor_prefix + funcsd.take(0).map_values(
            |f: FunctionV| sp_convert_function(f),
        ));
    }
    while fns.len() > 0
        invariant
            0 <= fj <= funcsd.len(),
            fns.deep_view() == funcsd.skip(fj),
            cfunctions.deep_view() == ctor_prefix + funcsd.take(fj).map_values(
                |f: FunctionV| sp_convert_function(f),
            ),
        decreases fns.len(),
    {
        let ghost beforev = fns@;
        let func = fns.remove(0);
        proof {
            lemma_remove_front_step(beforev, fns@, funcsd, fj);
        }
        let cf = convert_function(func)?;
        let ghost cfsv = cfunctions@;
        cfunctions.push(cf);
        proof {
            fj = fj + 1;
            lemma_seq_deep_view_push(cfsv, cf);
            lemma_map_values_push(
                funcsd.take(fj - 1),
                funcsd[fj - 1],
                |f: FunctionV| sp_convert_function(f),
            );
            assert(funcsd.take(fj - 1).push(funcsd[fj - 1]) =~= funcsd.take(fj));
            assert(cfunctions.deep_view() =~= ctor_prefix + funcsd.take(fj).map_values(
                |f: FunctionV| sp_convert_function(f),
            ));
        }
    }
    proof {
        lemma_take_all(funcsd, fj);
    }

    let cc = ClarityContract {
        name,
        functions: cfunctions,
        data_vars,
        maps,
        events: cevents,
    };
    proof {
        assert(cc.deep_view() =~~= sp_convert_contract(cv));
    }
    Result::Ok(cc)
}

/// Lowering of an event's parameter list into its documentation fields.
fn convert_event_fields(params: Vec<EventParameter>) -> (r: Vec<ClarityEventField>)
    ensures
        r.deep_view() == params.deep_view().map_values(
            |p: EventParameterV| ClarityEventFieldV {
                name: p.name,
                field_type: sp_map_type(p.param_type),
                indexed: p.indexed,
            },
        ),
{
    let ghost orig = params.deep_view();
    let mut ps = params;
    let mut out: Vec<ClarityEventField> = Vec::new();
    let ghost mut k: int = 0;
    proof {
        assert(ps.deep_view() =~= orig.skip(0));
        assert(out.deep_view() =~= orig.take(0).map_values(
            |p: EventParameterV| ClarityEventFieldV {
                name: p.name,
                field_type: sp_map_type(p.param_type),
                indexed: p.indexed,
            },
        ));
    }
    while ps.len() > 0
        invariant
            0 <= k <= orig.len(),
            ps.deep_view() == orig.skip(k),
            out.deep_view() == orig.take(k).map_values(
                |p: EventParameterV| ClarityEventFieldV {
                    name: p.name,
                    field_type: sp_map_type(p.param_type),
                    indexed: p.indexed,
                },
            ),
        decreases ps.len(),
    {
        let ghost beforev = ps@;
        let p = ps.remove(0);
        proof {
            lemma_remove_front_step(beforev, ps@, orig, k);
        }
        let cf = ClarityEventField {
            name: p.name,
            field_type: convert_solidity_type(p.param_type.as_str()),
            indexed: p.indexed,
        };
        let ghost outv = out@;
        out.push(cf);
        proof {
            k = k + 1;
            lemma_seq_deep_view_push(outv, cf);
            lemma_map_values_push(
                orig.take(k - 1),
                orig[k - 1],
                |p: EventParameterV| ClarityEventFieldV {
                    name: p.name,
                    field_type: sp_map_type(p.param_type),
                    indexed: p.indexed,
                },
            );
            assert(orig.take(k - 1).push(orig[k - 1]) =~= orig.take(k));
        }
    }
    proof {
        lemma_take_all(orig, k);
    }
    out
}

/// Lowering of a whole contract.  State variables split into maps and data
/// vars, keeping their declaration order within each group; the constructor,
/// when present, leads the function list as `init`.
pub open spec fn sp_convert_contract(c: ContractV) -> ClarityContractV {
    ClarityContractV {
        name: c.name,
        functions: (match c.constructor {
            Option::Some(k) => seq![sp_convert_constructor(k)],
            Option::None => Seq::<ClarityFunctionV>::empty(),
        }) + c.functions.map_values(|f: FunctionV| sp_convert_function(f)),
        data_vars: c.state_variables.filter(|v: StateVariableV| !sp_is_mapping(v)).map_values(
            |v: StateVariableV| sp_convert_state_variable(v),
        ),
        maps: c.state_variables.filter(|v: StateVariableV| sp_is_mapping(v)).map_values(
            |v: StateVariableV| sp_convert_mapping(v),
        ),
        events: c.events.map_values(|e: EventV| sp_convert_event(e)),
    }
}

} // verus!
