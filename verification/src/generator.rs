//! Rendering of the target intermediate representation as source text.
//!
//! Rendering is total and purely syntactic: a fixed section order (header,
//! constants, maps with their getters, data vars with getters for public
//! ones, events as documentation, functions), with every section preceded
//! by a documentation comment.  The executable renderer returns exactly the
//! text of [`sp_render`].

use vstd::prelude::*;
use vstd::string::StrSliceExecFns;
use vstd::string::StringExecFns;
use crate::errors::TranspileError;
use crate::text::{sp_is_upper, sp_is_digit, sp_lower_char, push_char, lower_char};
use crate::transpiler::converter::{
    ClarityContract, ClarityContractV, ClarityFunction, ClarityFunctionV, ClarityParameterV,
    ClarityDataVar, ClarityDataVarV, ClarityMap, ClarityMapV, ClarityEvent, ClarityEventV,
    ClarityEventFieldV, ClarityExpression, ClarityExpressionV, cexprs_deep_view,
    lemma_cexprs_deep_view,
};

verus! {

broadcast use vstd::std_specs::vec::group_vec_axioms, crate::views::lemma_vec_deep_view;

/// Whether a name is an all-upper-case token (letters, digits and
/// underscores only), which the casing transform leaves unchanged.
pub open spec fn sp_is_screaming(s: Seq<char>) -> bool {
    forall|i: int| 0 <= i < s.len() ==> sp_is_upper(s[i]) || sp_is_digit(s[i]) || s[i] == '_'
}

/// The hyphenated piece contributed by the character at position `i`: an
/// upper-case letter starts a new segment (with a hyphen unless it is the
/// first character) and is lowered; anything else passes through.
pub open spec fn sp_kebab_piece(s: Seq<char>, i: int) -> Seq<char> {
    if sp_is_upper(s[i]) {
        (if i != 0 {
            seq!['-']
        } else {
            Seq::empty()
        }) + seq![sp_lower_char(s[i])]
    } else {
        seq![s[i]]
    }
}

/// The hyphenation of the first `i` characters of `s`.
pub open spec fn sp_kebab_prefix(s: Seq<char>, i: int) -> Seq<char>
    decreases i,
{
    if i <= 0 {
        Seq::empty()
    } else {
        sp_kebab_prefix(s, i - 1) + sp_kebab_piece(s, i - 1)
    }
}

/// The name-casing transform shared by map definitions and their getters:
/// an all-upper token passes through; otherwise each internal upper-case
/// letter starts a new hyphen-separated, lower-case segment.
pub open spec fn sp_kebab(s: Seq<char>) -> Seq<char> {
    if sp_is_screaming(s) {
        s
    } else {
        sp_kebab_prefix(s, s.len() as int)
    }
}

/// The rendering of one target expression in prefix-call syntax.
pub open spec fn sp_render_expr(e: ClarityExpressionV) -> Seq<char>
    decreases e,
{
    match e {
        ClarityExpressionV::Literal(val) => val,
        ClarityExpressionV::Var(name) => name,
        ClarityExpressionV::FunctionCall(name, args) => "("@ + name + sp_render_args(args) + ")"@,
        ClarityExpressionV::MapGet(name, keys) => "(map-get? "@ + name + " "@ + sp_render_joined(
            keys,
        ) + ")"@,
        ClarityExpressionV::MapSet(name, keys, v) => "(map-set "@ + name + " "@ + sp_render_joined(
            keys,
        ) + " "@ + sp_render_expr(*v) + ")"@,
        ClarityExpressionV::Print(args) => "(print"@ + sp_render_args(args) + ")"@,
    }
}

/// The rendering of a call's arguments: one space before each argument.
pub open spec fn sp_render_args(args: Seq<ClarityExpressionV>) -> Seq<char>
    decreases args,
{
    if args.len() == 0 {
        Seq::empty()
    } else {
        proof {
            assert(decreases_to!(args => args[args.len() - 1]));
        }
        sp_render_args(args.drop_last()) + " "@ + sp_render_expr(args.last())
    }
}

/// The rendering of a key list, joined by single spaces.
pub open spec fn sp_render_joined(keys: Seq<ClarityExpressionV>) -> Seq<char>
    decreases keys,
{
    if keys.len() == 0 {
        Seq::empty()
    } else if keys.len() == 1 {
        proof {
            assert(decreases_to!(keys => keys[0]));
        }
        sp_render_expr(keys[0])
    } else {
        proof {
            assert(decreases_to!(keys => keys[keys.len() - 1]));
        }
        sp_render_joined(keys.drop_last()) + " "@ + sp_render_expr(keys.last())
    }
}

/// The constant definition a constant data var renders as.
pub open spec fn sp_render_const(v: ClarityDataVarV) -> Seq<char> {
    ";; @desc Constant value for "@ + v.name + "\n"@ + "(define-constant "@ + v.name + " "@
        + v.initial_value + ")\n"@
}

/// The constants section: one definition per constant data var, in order;
/// non-constant vars contribute nothing here.
pub open spec fn sp_render_consts(vs: Seq<ClarityDataVarV>) -> Seq<char>
    decreases vs,
{
    if vs.len() == 0 {
        Seq::empty()
    } else {
        sp_render_consts(vs.drop_last()) + (if vs.last().is_constant {
            sp_render_const(vs.last())
        } else {
            Seq::empty()
        })
    }
}

/// The definition and read-only getter a map renders as.
pub open spec fn sp_render_map(m: ClarityMapV) -> Seq<char> {
    let kname = sp_kebab(m.name);
    ";; @desc Map storing "@ + m.name + " values\n"@ + "(define-map "@ + kname + " "@ + m.key_type
        + " "@ + m.value_type + ")\n"@ + ";; @desc Getter for map "@ + m.name + "\n"@
        + "(define-read-only (get-"@ + kname + " (key "@ + m.key_type + "))\n"@ + "  (ok (map-get? "@
        + kname + " key)))\n\n"@
}

/// The maps section, in order.
pub open spec fn sp_render_maps(ms: Seq<ClarityMapV>) -> Seq<char>
    decreases ms,
{
    if ms.len() == 0 {
        Seq::empty()
    } else {
        sp_render_maps(ms.drop_last()) + sp_render_map(ms.last())
    }
}

/// Whether a data var's source visibility was public, which earns it a
/// generated getter.
pub open spec fn sp_is_public_var(v: ClarityDataVarV) -> bool {
    match v.visibility {
        Option::Some(vis) => vis == "public"@,
        Option::None => false,
    }
}

/// The declaration (and, for a public var, the getter) a non-constant data
/// var renders as.
pub open spec fn sp_render_var(v: ClarityDataVarV) -> Seq<char> {
    ";; @desc Stores the "@ + v.name + " value\n"@ + (if sp_is_public_var(v) {
        ";; @access public\n"@
    } else {
        Seq::<char>::empty()
    }) + "(define-data-var "@ + v.name + " "@ + v.var_type + " "@ + v.initial_value + ")\n"@ + (
    if sp_is_public_var(v) {
        sp_render_var_getter(v)
    } else {
        Seq::<char>::empty()
    })
}

/// The read-only getter of a public data var.
pub open spec fn sp_render_var_getter(v: ClarityDataVarV) -> Seq<char> {
    ";; @desc Getter for public variable "@ + v.name + "\n"@ + "(define-read-only (get-"@ + v.name
        + ")\n"@ + "  (ok (var-get "@ + v.name + ")))\n\n"@
}

/// The data-var section: one declaration per non-constant var, in order,
/// with a getter after each public one; constants contribute nothing here.
pub open spec fn sp_render_vars(vs: Seq<ClarityDataVarV>) -> Seq<char>
    decreases vs,
{
    if vs.len() == 0 {
        Seq::empty()
    } else {
        sp_render_vars(vs.drop_last()) + (if !vs.last().is_constant {
            sp_render_var(vs.last())
        } else {
            Seq::empty()
        })
    }
}

/// The documentation piece of one event field.
pub open spec fn sp_render_event_field(f: ClarityEventFieldV) -> Seq<char> {
    (if f.indexed {
        "(indexed) "@
    } else {
        Seq::<char>::empty()
    }) + f.name + ": "@ + f.field_type + ", "@
}

/// The field list of one event's documentation block.
pub open spec fn sp_render_event_fields(fs: Seq<ClarityEventFieldV>) -> Seq<char>
    decreases fs,
{
    if fs.len() == 0 {
        Seq::empty()
    } else {
        sp_render_event_fields(fs.drop_last()) + sp_render_event_field(fs.last())
    }
}

/// The documentation block one event renders as; events have no executable
/// form in the target language.
pub open spec fn sp_render_event(e: ClarityEventV) -> Seq<char> {
    ";; @desc Event: "@ + e.name + "\n"@ + ";; @fields "@ + sp_render_event_fields(e.fields)
        + "\n\n"@
}

/// The events section, in order.
pub open spec fn sp_render_events(es: Seq<ClarityEventV>) -> Seq<char>
    decreases es,
{
    if es.len() == 0 {
        Seq::empty()
    } else {
        sp_render_events(es.drop_last()) + sp_render_event(es.last())
    }
}

/// The rendering of one function parameter: ` (name type)`.
pub open spec fn sp_render_param(p: ClarityParameterV) -> Seq<char> {
    " ("@ + p.name + " "@ + p.param_type + ")"@
}

/// The rendering of a parameter list, in order.
pub open spec fn sp_render_params(ps: Seq<ClarityParameterV>) -> Seq<char>
    decreases ps,
{
    if ps.len() == 0 {
        Seq::empty()
    } else {
        sp_render_params(ps.drop_last()) + sp_render_param(ps.last())
    }
}

/// The leading statements of a multi-statement body, each followed by a
/// line break and the block indentation.
pub open spec fn sp_render_body_lead(es: Seq<ClarityExpressionV>) -> Seq<char>
    decreases es,
{
    if es.len() == 0 {
        Seq::empty()
    } else {
        proof {
            assert(decreases_to!(es => es[es.len() - 1]));
        }
        sp_render_body_lead(es.drop_last()) + sp_render_expr(es.last()) + "\n    "@
    }
}

/// The rendering of a function body: no statements give the trivial
/// success value; one statement is success-wrapped; several sequence in a
/// block whose last statement is success-wrapped.
pub open spec fn sp_render_body(body: Seq<ClarityExpressionV>) -> Seq<char> {
    if body.len() > 1 {
        "(begin\n    "@ + sp_render_body_lead(body.drop_last()) + "(ok "@ + sp_render_expr(
            body.last(),
        ) + "))"@
    } else if body.len() == 1 {
        "(ok "@ + sp_render_expr(body.last()) + ")"@
    } else {
        "(ok true)"@
    }
}

/// The text one function renders as.
pub open spec fn sp_render_function(f: ClarityFunctionV) -> Seq<char> {
    ";; Function: "@ + f.name + "\n"@ + (if f.read_only {
        ";; @access read-only\n"@
    } else {
        Seq::<char>::empty()
    }) + (if f.public {
        "(define-public ("@
    } else {
        "(define-private ("@
    }) + f.name + sp_render_params(f.params) + ")\n"@ + "  "@ + sp_render_body(f.body) + ")\n"@
}

/// The functions section: each function's text followed by a blank line.
pub open spec fn sp_render_functions(fs: Seq<ClarityFunctionV>) -> Seq<char>
    decreases fs,
{
    if fs.len() == 0 {
        Seq::empty()
    } else {
        sp_render_functions(fs.drop_last()) + sp_render_function(fs.last()) + "\n"@
    }
}

/// The header naming the contract and declaring its origin.
pub open spec fn sp_render_header(name: Seq<char>) -> Seq<char> {
    ";; Contract: "@ + name + "\n"@ + ";; Auto-generated Clarity contract from Solidity source\n\n"@
}

/// The full rendering of one lowered contract, in the fixed section order.
pub open spec fn sp_render(c: ClarityContractV) -> Seq<char> {
    sp_render_header(c.name) + sp_render_consts(c.data_vars) + "\n"@ + sp_render_maps(c.maps)
        + sp_render_vars(c.data_vars) + "\n"@ + sp_render_events(c.events) + sp_render_functions(
        c.functions,
    )
}

/// The name-casing transform, shared by map definitions and their getters.
fn to_kebab_case(s: &str) -> (r: String)
    ensures
        r@ == sp_kebab(s@),
{
    let n = s.unicode_len();
    let mut all_up = true;
    let mut i: usize = 0;
    while i < n
        invariant
            n == s@.len(),
            0 <= i <= n,
            all_up == (forall|j: int|
                0 <= j < i ==> sp_is_upper(s@[j]) || sp_is_digit(s@[j]) || s@[j] == '_'),
        decreases n - i,
    {
        let c = s.get_char(i);
        let ok = (('A' as u32) <= (c as u32) && (c as u32) <= ('Z' as u32)) || (('0' as u32) <= (
        c as u32) && (c as u32) <= ('9' as u32)) || c == '_';
        all_up = all_up && ok;
        i += 1;
    }
    if all_up {
        return s.to_owned();
    }
    let mut out = String::new();
    let mut i: usize = 0;
    while i < n
        invariant
            n == s@.len(),
            0 <= i <= n,
            !sp_is_screaming(s@),
            out@ == sp_kebab_prefix(s@, i as int),
        decreases n - i,
    {
        let c = s.get_char(i);
        if ('A' as u32) <= (c as u32) && (c as u32) <= ('Z' as u32) {
            if i != 0 {
                push_char(&mut out, '-');
            }
            let lc = lower_char(c);
            push_char(&mut out, lc);
        } else {
            push_char(&mut out, c);
        }
        proof {
            assert(out@ =~= sp_kebab_prefix(s@, i as int + 1));
        }
        i += 1;
    }
    out
}

/// Rendering of one target expression into prefix-call syntax.
#[verifier::loop_isolation(false)]
fn generate_expression(expr: &ClarityExpression) -> (r: String)
    ensures
        r@ == sp_render_expr(expr.deep_view()),
    decreases expr,
{
    broadcast use lemma_cexprs_deep_view;

    match expr {
        ClarityExpression::Literal(val) => val.clone(),
        ClarityExpression::Var(name) => name.clone(),
        ClarityExpression::FunctionCall(name, args) => {
            let ghost argsd = cexprs_deep_view(args@);
            let mut out = String::from_str("(");
            out.append(name.as_str());
            let mut i: usize = 0;
            proof {
                assert(argsd.take(0) =~= Seq::<ClarityExpressionV>::empty());
            }
            while i < args.len()
                invariant
                    argsd == cexprs_deep_view(args@),
                    argsd.len() == args@.len(),
                    0 <= i <= args@.len(),
                    out@ == "("@ + name@ + sp_render_args(argsd.take(i as int)),
                decreases args@.len() - i,
            {
                proof {
                    assert(decreases_to!(*args => args@));
                    assert(decreases_to!(args@ => args@[i as int]));
                }
                let piece = generate_expression(&args[i]);
                out.append(" ");
                out.append(piece.as_str());
                proof {
                    let gi = i as int;
                    assert(argsd.take(gi + 1).drop_last() =~= argsd.take(gi));
                    assert(argsd.take(gi + 1).last() == argsd[gi]);
                    assert(argsd[gi] == args@[gi].deep_view());
                    assert(out@ =~= "("@ + name@ + sp_render_args(argsd.take(gi + 1)));
                }
                i += 1;
            }
            out.append(")");
            proof {
                assert(argsd.take(args@.len() as int) =~= argsd);
                assert(out@ =~= sp_render_expr(expr.deep_view()));
            }
            out
        },
        ClarityExpression::MapGet(name, keys) => {
            let ghost keysd = cexprs_deep_view(keys@);
            let mut out = String::from_str("(map-get? ");
            out.append(name.as_str());
            out.append(" ");
            let joined = generate_joined(keys);
            out.append(joined.as_str());
            out.append(")");
            proof {
                assert(out@ =~= sp_render_expr(expr.deep_view()));
            }
            out
        },
        ClarityExpression::MapSet(name, keys, v) => {
            let mut out = String::from_str("(map-set ");
            out.append(name.as_str());
            out.append(" ");
            let joined = generate_joined(keys);
            out.append(joined.as_str());
            out.append(" ");
            let vt = generate_expression(v);
            out.append(vt.as_str());
            out.append(")");
            proof {
                assert(out@ =~= sp_render_expr(expr.deep_view()));
            }
            out
        },
        ClarityExpression::Print(args) => {
            let ghost argsd = cexprs_deep_view(args@);
            let mut out = String::from_str("(print");
            let mut i: usize = 0;
            proof {
                assert(argsd.take(0) =~= Seq::<ClarityExpressionV>::empty());
            }
            while i < args.len()
                invariant
                    argsd == cexprs_deep_view(args@),
                    argsd.len() == args@.len(),
                    0 <= i <= args@.len(),
                    out@ == "(print"@ + sp_render_args(argsd.take(i as int)),
                decreases args@.len() - i,
            {
                proof {
                    assert(decreases_to!(*args => args@));
                    assert(decreases_to!(args@ => args@[i as int]));
                }
                let piece = generate_expression(&args[i]);
                out.append(" ");
                out.append(piece.as_str());
                proof {
                    let gi = i as int;
                    assert(argsd.take(gi + 1).drop_last() =~= argsd.take(gi));
                    assert(argsd.take(gi + 1).last() == argsd[gi]);
                    assert(argsd[gi] == args@[gi].deep_view());
                    assert(out@ =~= "(print"@ + sp_render_args(argsd.take(gi + 1)));
                }
                i += 1;
            }
            out.append(")");
            proof {
                assert(argsd.take(args@.len() as int) =~= argsd);
                assert(out@ =~= sp_render_expr(expr.deep_view()));
            }
            out
        },
    }
}

/// Rendering of a key list, joined by single spaces.
#[verifier::loop_isolation(false)]
fn generate_joined(keys: &Vec<ClarityExpression>) -> (r: String)
    ensures
        r@ == sp_render_joined(cexprs_deep_view(keys@)),
    decreases keys,
{
    broadcast use lemma_cexprs_deep_view;

    let ghost keysd = cexprs_deep_view(keys@);
    let mut out = String::new();
    let mut i: usize = 0;
    proof {
        assert(keysd.take(0) =~= Seq::<ClarityExpressionV>::empty());
    }
    while i < keys.len()
        invariant
            keysd == cexprs_deep_view(keys@),
            keysd.len() == keys@.len(),
            0 <= i <= keys@.len(),
            out@ == sp_render_joined(keysd.take(i as int)),
        decreases keys@.len() - i,
    {
        proof {
            assert(decreases_to!(*keys => keys@));
            assert(decreases_to!(keys@ => keys@[i as int]));
        }
        let piece = generate_expression(&keys[i]);
        if i != 0 {
            out.append(" ");
        }
        out.append(piece.as_str());
        proof {
            let gi = i as int;
            assert(keysd.take(gi + 1).drop_last() =~= keysd.take(gi));
            assert(keysd.take(gi + 1).last() == keysd[gi]);
            assert(keysd[gi] == keys@[gi].deep_view());
            assert(out@ =~= sp_render_joined(keysd.take(gi + 1)));
        }
        i += 1;
    }
    proof {
        assert(keysd.take(keys@.len() as int) =~= keysd);
    }
    out
}

/// Rendering of one function: name comment, access comment for read-only
/// functions, public or private declaration, parameters, and the
/// success-wrapped body.
#[verifier::loop_isolation(false)]
fn generate_function(func: &ClarityFunction) -> (r: String)
    ensures
        r@ == sp_render_function(func.deep_view()),
{
    broadcast use lemma_cexprs_deep_view;

    let ghost fv = func.deep_view();
    let mut out = String::from_str(";; Function: ");
    out.append(func.name.as_str());
    out.append("\n");
    if func.read_only {
        out.append(";; @access read-only\n");
    }
    if func.public {
        out.append("(define-public (");
    } else {
        out.append("(define-private (");
    }
    out.append(func.name.as_str());
    let ghost paramsd = func.params.deep_view();
    let ghost prefix0 = out@;
    let mut i: usize = 0;
    proof {
        assert(paramsd.take(0) =~= Seq::<ClarityParameterV>::empty());
        assert(out@ =~= prefix0 + sp_render_params(paramsd.take(0)));
    }
    while i < func.params.len()
        invariant
            paramsd == func.params.deep_view(),
            paramsd.len() == func.params@.len(),
            0 <= i <= func.params@.len(),
            out@ == prefix0 + sp_render_params(paramsd.take(i as int)),
        decreases func.params@.len() - i,
    {
        out.append(" (");
        out.append(func.params[i].name.as_str());
        out.append(" ");
        out.append(func.params[i].param_type.as_str());
        out.append(")");
        proof {
            let gi = i as int;
            assert(paramsd.take(gi + 1).drop_last() =~= paramsd.take(gi));
            assert(paramsd.take(gi + 1).last() == paramsd[gi]);
            assert(paramsd[gi] == func.params@[gi].deep_view());
            assert(out@ =~= prefix0 + sp_render_params(paramsd.take(gi + 1)));
        }
        i += 1;
    }
    proof {
        assert(paramsd.take(func.params@.len() as int) =~= paramsd);
    }
    out.append(")\n");
    out.append("  ");
    let ghost bodyd = func.body.deep_view();
    let ghost prefix1 = out@;
    if func.body.len() > 1 {
        out.append("(begin\n    ");
        let ghost lead = bodyd.drop_last();
        let ghost prefix2 = out@;
        let mut i: usize = 0;
        proof {
            assert(lead.take(0) =~= Seq::<ClarityExpressionV>::empty());
            assert(out@ =~= prefix2 + sp_render_body_lead(lead.take(0)));
        }
        while i < func.body.len() - 1
            invariant
                func.body@.len() > 1,
                bodyd == func.body.deep_view(),
                lead == bodyd.drop_last(),
                bodyd.len() == func.body@.len(),
                0 <= i <= func.body@.len() - 1,
                out@ == prefix2 + sp_render_body_lead(lead.take(i as int)),
            decreases func.body@.len() - 1 - i,
        {
            let piece = generate_expression(&func.body[i]);
            out.append(piece.as_str());
            out.append("\n    ");
            proof {
                let gi = i as int;
                assert(lead.take(gi + 1).drop_last() =~= lead.take(gi));
                assert(lead.take(gi + 1).last() == lead[gi]);
                assert(lead[gi] == bodyd[gi]);
                assert(bodyd[gi] == func.body@[gi].deep_view());
                assert(out@ =~= prefix2 + sp_render_body_lead(lead.take(gi + 1)));
            }
            i += 1;
        }
        proof {
            assert(lead.take(func.body@.len() - 1) =~= lead);
        }
        out.append("(ok ");
        let last = generate_expression(&func.body[func.body.len() - 1]);
        out.append(last.as_str());
        out.append("))");
        proof {
            assert(bodyd.last() == func.body@[func.body@.len() - 1].deep_view());
            assert(out@ =~= prefix1 + sp_render_body(bodyd));
        }
    } else if func.body.len() == 1 {
        out.append("(ok ");
        let last = generate_expression(&func.body[0]);
        out.append(last.as_str());
        out.append(")");
        proof {
            assert(bodyd.last() == func.body@[0].deep_view());
            assert(out@ =~= prefix1 + sp_render_body(bodyd));
        }
    } else {
        out.append("(ok true)");
        proof {
            assert(out@ =~= prefix1 + sp_render_body(bodyd));
        }
    }
    out.append(")\n");
    proof {
        assert(out@ =~= sp_render_function(fv));
    }
    out
}

/// The constants section of the output.
#[verifier::loop_isolation(false)]
#[verifier::rlimit(60)]
fn generate_consts(vars: &Vec<ClarityDataVar>) -> (r: String)
    ensures
        r@ == sp_render_consts(vars.deep_view()),
{
    let ghost varsd = vars.deep_view();
    let mut out = String::new();
    let mut i: usize = 0;
    proof {
        assert(out@ =~= sp_render_consts(varsd.take(0)));
    }
    while i < vars.len()
        invariant
            0 <= i <= vars@.len(),
            out@ == sp_render_consts(varsd.take(i as int)),
        decreases vars@.len() - i,
    {
        let var = &vars[i];
        if var.is_constant {
            out.append(";; @desc Constant value for ");
            out.append(var.name.as_str());
            out.append("\n");
            out.append("(define-constant ");
            out.append(var.name.as_str());
            out.append(" ");
            out.append(var.initial_value.as_str());
            out.append(")\n");
        }
        proof {
            let gi = i as int;
            assert(varsd.take(gi + 1).drop_last() =~= varsd.take(gi));
            assert(varsd.take(gi + 1).last() == varsd[gi]);
            assert(varsd[gi] == vars@[gi].deep_view());
            assert(out@ =~= sp_render_consts(varsd.take(gi + 1)));
        }
        i += 1;
    }
    proof {
        assert(varsd.take(vars@.len() as int) =~= varsd);
    }
    out
}

/// The maps section of the output: each map's definition and getter.
#[verifier::loop_isolation(false)]
#[verifier::rlimit(60)]
fn generate_maps(maps: &Vec<ClarityMap>) -> (r: String)
    ensures
        r@ == sp_render_maps(maps.deep_view()),
{
    let ghost mapsd = maps.deep_view();
    let mut out = String::new();
    let mut i: usize = 0;
    proof {
        assert(out@ =~= sp_render_maps(mapsd.take(0)));
    }
    while i < maps.len()
        invariant
            0 <= i <= maps@.len(),
            out@ == sp_render_maps(mapsd.take(i as int)),
        decreases maps@.len() - i,
    {
        let map = &maps[i];
        out.append(";; @desc Map storing ");
        out.append(map.name.as_str());
        out.append(" values\n");
        let map_name = to_kebab_case(map.name.as_str());
        out.append("(define-map ");
        out.append(map_name.as_str());
        out.append(" ");
        out.append(map.key_type.as_str());
        out.append(" ");
        out.append(map.value_type.as_str());
        out.append(")\n");
        out.append(";; @desc Getter for map ");
        out.append(map.name.as_str());
        out.append("\n");
        out.append("(define-read-only (get-");
        out.append(map_name.as_str());
        out.append(" (key ");
        out.append(map.key_type.as_str());
        out.append("))\n");
        out.append("  (ok (map-get? ");
        out.append(map_name.as_str());
        out.append(" key)))\n\n");
        proof {
            let gi = i as int;
            assert(mapsd.take(gi + 1).drop_last() =~= mapsd.take(gi));
            assert(mapsd.take(gi + 1).last() == mapsd[gi]);
            assert(mapsd[gi] == maps@[gi].deep_view());
            assert(out@ =~= sp_render_maps(mapsd.take(gi + 1)));
        }
        i += 1;
    }
    proof {
        assert(mapsd.take(maps@.len() as int) =~= mapsd);
    }
    out
}

/// The data-var section of the output: declarations and getters for the
/// public ones.
#[verifier::loop_isolation(false)]
#[verifier::rlimit(60)]
fn generate_vars(vars: &Vec<ClarityDataVar>) -> (r: String)
    ensures
        r@ == sp_render_vars(vars.deep_view()),
{
    let ghost varsd = vars.deep_view();
    let mut out = String::new();
    let mut i: usize = 0;
    proof {
        assert(out@ =~= sp_render_vars(varsd.take(0)));
    }
    while i < vars.len()
        invariant
            0 <= i <= vars@.len(),
            out@ == sp_render_vars(varsd.take(i as int)),
        decreases vars@.len() - i,
    {
        let var = &vars[i];
        if !var.is_constant {
            out.append(";; @desc Stores the ");
            out.append(var.name.as_str());
            out.append(" value\n");
            let is_public = match &var.visibility {
                Option::Some(v) => crate::text::str_eq(v.as_str(), "public"),
                Option::None => false,
            };
            if is_public {
                out.append(";; @access public\n");
            }
            out.append("(define-data-var ");
            out.append(var.name.as_str());
            out.append(" ");
            out.append(var.var_type.as_str());
            out.append(" ");
            out.append(var.initial_value.as_str());
            out.append(")\n");
            if is_public {
                out.append(";; @desc Getter for public variable ");
                out.append(var.name.as_str());
                out.append("\n");
                out.append("(define-read-only (get-");
                out.append(var.name.as_str());
                out.append(")\n");
                out.append("  (ok (var-get ");
                out.append(var.name.as_str());
                out.append(")))\n\n");
            }
        }
        proof {
            let gi = i as int;
            assert(varsd.take(gi + 1).drop_last() =~= varsd.take(gi));
            assert(varsd.take(gi + 1).last() == varsd[gi]);
            assert(varsd[gi] == vars@[gi].deep_view());
            assert(out@ =~= sp_render_vars(varsd.take(gi + 1)));
        }
        i += 1;
    }
    proof {
        assert(varsd.take(vars@.len() as int) =~= varsd);
    }
    out
}

/// The events section of the output: documentation blocks only.
#[verifier::loop_isolation(false)]
#[verifier::rlimit(60)]
fn generate_events(events: &Vec<ClarityEvent>) -> (r: String)
    ensures
        r@ == sp_render_events(events.deep_view()),
{
    let ghost eventsd = events.deep_view();
    let mut out = String::new();
    let mut i: usize = 0;
    proof {
        assert(out@ =~= sp_render_events(eventsd.take(0)));
    }
    while i < events.len()
        invariant
            0 <= i <= events@.len(),
            out@ == sp_render_events(eventsd.take(i as int)),
        decreases events@.len() - i,
    {
        let event = &events[i];
        out.append(";; @desc Event: ");
        out.append(event.name.as_str());
        out.append("\n");
        out.append(";; @fields ");
        let ghost fieldsd = event.fields.deep_view();
        let ghost eprefix = out@;
        let mut j: usize = 0;
        proof {
            assert(out@ =~= eprefix + sp_render_event_fields(fieldsd.take(0)));
        }
        while j < event.fields.len()
            invariant
                0 <= j <= event.fields@.len(),
                out@ == eprefix + sp_render_event_fields(fieldsd.take(j as int)),
            decreases event.fields@.len() - j,
        {
            let field = &event.fields[j];
            if field.indexed {
                out.append("(indexed) ");
            }
            out.append(field.name.as_str());
            out.append(": ");
            out.append(field.field_type.as_str());
            out.append(", ");
            proof {
                let gj = j as int;
                assert(fieldsd.take(gj + 1).drop_last() =~= fieldsd.take(gj));
                assert(fieldsd.take(gj + 1).last() == fieldsd[gj]);
                assert(fieldsd[gj] == event.fields@[gj].deep_view());
                assert(out@ =~= eprefix + sp_render_event_fields(fieldsd.take(gj + 1)));
            }
            j += 1;
        }
        proof {
            assert(fieldsd.take(event.fields@.len() as int) =~= fieldsd);
        }
        out.append("\n\n");
        proof {
            let gi = i as int;
            assert(eventsd.take(gi + 1).drop_last() =~= eventsd.take(gi));
            assert(eventsd.take(gi + 1).last() == eventsd[gi]);
            assert(eventsd[gi] == events@[gi].deep_view());
            assert(out@ =~= sp_render_events(eventsd.take(gi + 1)));
        }
        i += 1;
    }
    proof {
        assert(eventsd.take(events@.len() as int) =~= eventsd);
    }
    out
}

/// The functions section of the output.
#[verifier::loop_isolation(false)]
#[verifier::rlimit(60)]
fn generate_functions(funcs: &Vec<ClarityFunction>) -> (r: String)
    ensures
        r@ == sp_render_functions(funcs.deep_view()),
{
    let ghost funcsd = funcs.deep_view();
    let mut out = String::new();
    let mut i: usize = 0;
    proof {
        assert(out@ =~= sp_render_functions(funcsd.take(0)));
    }
    while i < funcs.len()
        invariant
            0 <= i <= funcs@.len(),
            out@ == sp_render_functions(funcsd.take(i as int)),
        decreases funcs@.len() - i,
    {
        let ftext = generate_function(&funcs[i]);
        out.append(ftext.as_str());
        out.append("\n");
        proof {
            let gi = i as int;
            assert(funcsd.take(gi + 1).drop_last() =~= funcsd.take(gi));
            assert(funcsd.take(gi + 1).last() == funcsd[gi]);
            assert(funcsd[gi] == funcs@[gi].deep_view());
            assert(out@ =~= sp_render_functions(funcsd.take(gi + 1)));
        }
        i += 1;
    }
    proof {
        assert(funcsd.take(funcs@.len() as int) =~= funcsd);
    }
    out
}

/// Rendering of a whole lowered contract.  Rendering is total: the result
/// is always the generated text.
pub fn generate(contract: ClarityContract) -> (r: Result<String, TranspileError>)
    ensures
        r matches Result::Ok(text) && text@ == sp_render(contract.deep_view()),
{
    let ghost cv = contract.deep_view();
    let mut out = String::from_str(";; Contract: ");
    out.append(contract.name.as_str());
    out.append("\n");
    out.append(";; Auto-generated Clarity contract from Solidity source\n\n");
    proof {
        assert(out@ =~= sp_render_header(cv.name));
    }
    let consts = generate_consts(&contract.data_vars);
    out.append(consts.as_str());
    out.append("\n");
    let maps = generate_maps(&contract.maps);
    out.append(maps.as_str());
    let vars = generate_vars(&contract.data_vars);
    out.append(vars.as_str());
    out.append("\n");
    let events = generate_events(&contract.events);
    out.append(events.as_str());
    let funcs = generate_functions(&contract.functions);
    out.append(funcs.as_str());
    proof {
        assert(out@ =~= sp_render(cv));
    }
    Result::Ok(out)
}

} // verus!
