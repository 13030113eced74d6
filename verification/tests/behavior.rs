use sol2clarity::errors::TranspileError;
use sol2clarity::generator;
use sol2clarity::parser;
use sol2clarity::transpiler;
use sol2clarity::transpiler::ast::{Expression, Statement};
use sol2clarity::transpiler::converter::convert_solidity_type;

fn pipeline(source: &str) -> Result<String, TranspileError> {
    let contract = parser::parse_all(source)?.remove(0);
    let lowered = transpiler::convert(contract)?;
    generator::generate(lowered)
}

#[test]
fn pipeline_output_opens_with_header() -> Result<(), TranspileError> {
    let source = "contract Counter { uint256 count; }";
    let out = pipeline(source)?;
    assert!(!out.is_empty());
    assert!(out.starts_with(";; Contract: Counter\n"));
    Ok(())
}

#[test]
fn type_mapping_is_idempotent_on_mapped_types() {
    for t in ["uint256", "uint", "bool", "unknown", "mapping(uint => bool)"] {
        let once = convert_solidity_type(t);
        let twice = convert_solidity_type(&once);
        assert_eq!(once, twice);
    }
}

#[test]
fn unrecognized_types_default_to_uint() {
    assert_eq!(convert_solidity_type("principal"), "uint");
    assert_eq!(convert_solidity_type("bytes32"), "uint");
    assert_eq!(
        convert_solidity_type("mapping(address => uint256)"),
        "mapping(address => uint256)"
    );
}

#[test]
fn constant_definition_gets_no_var_and_no_getter() -> Result<(), TranspileError> {
    let source = "contract Test { uint256 constant LIMIT = 100; }";
    let out = pipeline(source)?;
    assert!(out.contains("(define-constant LIMIT u100)"));
    assert!(!out.contains("(define-data-var LIMIT"));
    assert!(!out.contains("(define-read-only (get-LIMIT"));
    Ok(())
}

#[test]
fn public_variable_gets_exactly_one_getter() -> Result<(), TranspileError> {
    let source = "contract Test { uint256 public count; uint256 hidden; }";
    let out = pipeline(source)?;
    assert_eq!(out.matches("(define-read-only (get-count)").count(), 1);
    assert!(!out.contains("(define-read-only (get-hidden)"));
    Ok(())
}

#[test]
fn doubly_nested_mapping_flattens_to_one_map() -> Result<(), TranspileError> {
    let source = "contract Test { mapping(address => mapping(uint256 => bool)) public approvals; }";
    let out = pipeline(source)?;
    assert_eq!(out.matches("(define-map ").count(), 1);
    assert!(out.contains("(define-map approvals {owner: principal, token-id: uint} bool)"));
    Ok(())
}

#[test]
fn triply_nested_mapping_flattens_recursively() -> Result<(), TranspileError> {
    let source =
        "contract Test { mapping(address => mapping(uint256 => mapping(uint256 => bool))) deep; }";
    let out = pipeline(source)?;
    assert_eq!(out.matches("(define-map ").count(), 1);
    assert!(out.contains(
        "(define-map deep {owner: principal, token-id: {owner: uint, token-id: uint}} bool)"
    ));
    Ok(())
}

#[test]
fn binary_chain_parses_left_associative() -> Result<(), TranspileError> {
    let source = "contract Test { uint256 x; function f() { x = a - b - c; } }";
    let contract = parser::parse_all(source)?.remove(0);
    match &contract.functions[0].body[0] {
        Statement::Assignment(_, Expression::BinaryOp(left, op2, right)) => {
            assert_eq!(op2, "-");
            match right.as_ref() {
                Expression::Identifier(r) => assert_eq!(r, "c"),
                _ => panic!("expected identifier on the right"),
            }
            match left.as_ref() {
                Expression::BinaryOp(ll, op1, lr) => {
                    assert_eq!(op1, "-");
                    assert!(matches!(ll.as_ref(), Expression::Identifier(a) if a == "a"));
                    assert!(matches!(lr.as_ref(), Expression::Identifier(b) if b == "b"));
                }
                _ => panic!("expected the left pair to fold first"),
            }
        }
        _ => panic!("expected an assignment"),
    }
    Ok(())
}

#[test]
fn uniform_precedence_ignores_mathematical_rules() -> Result<(), TranspileError> {
    let source = "contract Test { uint256 x; function f() { x = a + b * c; } }";
    let out = pipeline(source)?;
    assert!(out.contains("(* (+ (var-get a) (var-get b)) (var-get c))"));
    Ok(())
}

#[test]
fn numeric_literal_gets_unsigned_prefix() -> Result<(), TranspileError> {
    let source = "contract Test { uint256 x; function f() { x = 100; } }";
    let out = pipeline(source)?;
    assert!(out.contains("(var-set x u100)"));
    Ok(())
}

#[test]
fn boolean_literals_pass_through() -> Result<(), TranspileError> {
    let source = "contract Test { bool flag; function f() { flag = true; } function g() { flag = false; } }";
    let out = pipeline(source)?;
    assert!(out.contains("(var-set flag true)"));
    assert!(out.contains("(var-set flag false)"));
    Ok(())
}

#[test]
fn event_renders_as_documentation_block() -> Result<(), TranspileError> {
    let source =
        "contract Test { event Transfer(address indexed from, address indexed to, uint256 amount); }";
    let out = pipeline(source)?;
    assert!(out.contains(";; @desc Event: Transfer"));
    assert!(out.contains("(indexed) from: principal, (indexed) to: principal, amount: uint, "));
    Ok(())
}

#[test]
fn private_function_with_empty_body_wraps_default() -> Result<(), TranspileError> {
    let source = "contract Test { function noop() private { } }";
    let out = pipeline(source)?;
    assert!(out.contains("(define-private (noop)\n  (ok true))"));
    Ok(())
}

#[test]
fn counter_scenario_end_to_end() -> Result<(), TranspileError> {
    let source = "contract Counter { uint256 count; function increment() public { count = count + 1; } }";
    let out = pipeline(source)?;
    assert!(out.contains("(define-data-var count uint u0)"));
    assert!(out.contains("(ok (var-set count (+ (var-get count) u1)))"));
    Ok(())
}

#[test]
fn simple_public_mapping_gets_map_and_getter() -> Result<(), TranspileError> {
    let source = "contract Test { mapping(address => uint256) public balances; }";
    let out = pipeline(source)?;
    assert!(out.contains("(define-map balances principal uint)"));
    assert!(out.contains("(define-read-only (get-balances (key principal))"));
    assert!(out.contains("  (ok (map-get? balances key)))"));
    Ok(())
}

#[test]
fn caller_identity_member_access_becomes_sentinel() -> Result<(), TranspileError> {
    let source = "contract Test { address owner; function claim() { owner = msg.sender; } }";
    let out = pipeline(source)?;
    assert!(out.contains("(var-set owner tx-sender)"));
    Ok(())
}

#[test]
fn other_member_access_becomes_hyphenated_name() -> Result<(), TranspileError> {
    let source = "contract Test { uint256 x; function f() { x = block.number; } }";
    let out = pipeline(source)?;
    assert!(out.contains("(var-set x block-number)"));
    Ok(())
}

#[test]
fn constructor_lowers_to_public_init() -> Result<(), TranspileError> {
    let source = "contract Test { uint256 count; constructor(uint256 start) { count = start; } }";
    let out = pipeline(source)?;
    assert!(out.contains("(define-public (init (start uint))"));
    assert!(out.contains("(ok (var-set count (var-get start)))"));
    Ok(())
}

#[test]
fn emit_statement_lowers_to_print() -> Result<(), TranspileError> {
    let source = "contract Test { uint256 a; function f() { emit Transfer(a, 1); } }";
    let out = pipeline(source)?;
    assert!(out.contains("(print \"Transfer\" (var-get a) u1)"));
    Ok(())
}

#[test]
fn multi_statement_body_sequences_in_begin_block() -> Result<(), TranspileError> {
    let source = "contract Test { uint256 a; uint256 b; function f() { a = 1; b = 2; } }";
    let out = pipeline(source)?;
    assert!(out.contains("(begin\n    (var-set a u1)\n    (ok (var-set b u2)))"));
    Ok(())
}

#[test]
fn view_function_is_marked_read_only() -> Result<(), TranspileError> {
    let source =
        "contract Test { uint256 x; function peek() public view returns (uint256) { return x; } }";
    let out = pipeline(source)?;
    assert!(out.contains(";; @access read-only\n(define-public (peek)"));
    Ok(())
}

#[test]
fn composite_key_access_lowers_to_tuple() -> Result<(), TranspileError> {
    let source = "contract Test { mapping(address => mapping(uint256 => bool)) approvals; function f(address who, uint256 id) { approvals[who][id] = true; } }";
    let out = pipeline(source)?;
    assert!(out.contains("(map-set approvals (tuple (var-get who) (var-get id)) true)"));
    Ok(())
}

#[test]
fn map_read_lowers_to_map_get() -> Result<(), TranspileError> {
    let source = "contract Test { mapping(address => uint256) balances; uint256 x; function f(address who) { x = balances[who]; } }";
    let out = pipeline(source)?;
    assert!(out.contains("(var-set x (map-get? balances (var-get who)))"));
    Ok(())
}

#[test]
fn screaming_case_map_name_passes_through() -> Result<(), TranspileError> {
    let source = "contract Test { mapping(uint256 => bool) FLAGS; }";
    let out = pipeline(source)?;
    assert!(out.contains("(define-map FLAGS uint bool)"));
    assert!(out.contains("(define-read-only (get-FLAGS (key uint))"));
    Ok(())
}

#[test]
fn camel_case_map_name_is_hyphenated() -> Result<(), TranspileError> {
    let source = "contract Test { mapping(uint256 => address) tokenOwners; }";
    let out = pipeline(source)?;
    assert!(out.contains("(define-map token-owners uint principal)"));
    assert!(out.contains("(define-read-only (get-token-owners (key uint))"));
    Ok(())
}

#[test]
fn multiple_contracts_parse_in_order() -> Result<(), TranspileError> {
    let source = "contract First { } contract Second { }";
    let contracts = parser::parse_all(source)?;
    assert_eq!(contracts.len(), 2);
    assert_eq!(contracts[0].name, "First");
    assert_eq!(contracts[1].name, "Second");
    Ok(())
}

#[test]
fn empty_source_is_rejected() {
    assert!(matches!(
        parser::parse_all(""),
        Err(TranspileError::EmptySource)
    ));
    assert!(matches!(
        parser::parse_all("   // nothing here\n"),
        Err(TranspileError::EmptySource)
    ));
}

#[test]
fn stray_token_is_a_syntax_error() {
    assert!(matches!(
        parser::parse_all("contract Test { } stray"),
        Err(TranspileError::Syntax)
    ));
    assert!(matches!(
        parser::parse_all("contract Test { uint256 x; } #"),
        Err(TranspileError::Syntax)
    ));
}

#[test]
fn unclosed_contract_is_a_syntax_error() {
    assert!(matches!(
        parser::parse_all("contract Test {"),
        Err(TranspileError::Syntax)
    ));
}

#[test]
fn missing_names_are_reported() {
    assert!(matches!(
        parser::parse_all("contract { }"),
        Err(TranspileError::MissingName)
    ));
    assert!(matches!(
        parser::parse_all("contract Test { uint256 ; }"),
        Err(TranspileError::MissingName)
    ));
    assert!(matches!(
        parser::parse_all("contract Test { function () { } }"),
        Err(TranspileError::MissingName)
    ));
}

#[test]
fn invalid_assignment_target_is_reported() {
    assert!(matches!(
        parser::parse_all("contract Test { function f() { a.b = 1; } }"),
        Err(TranspileError::InvalidAssignmentTarget)
    ));
}

#[test]
fn malformed_mapping_is_reported() {
    assert!(matches!(
        parser::parse_all("contract Test { mapping( => uint256) m; }"),
        Err(TranspileError::MissingSubexpression)
    ));
    assert!(matches!(
        parser::parse_all("contract Test { mapping(address => ) m; }"),
        Err(TranspileError::MissingSubexpression)
    ));
}

#[test]
fn empty_expression_is_reported() {
    assert!(matches!(
        parser::parse_all("contract Test { uint256 x; function f() { x = ; } }"),
        Err(TranspileError::MissingSubexpression)
    ));
}

#[test]
fn unterminated_string_is_a_syntax_error() {
    assert!(matches!(
        parser::parse_all("contract Test { string s = \"oops; }"),
        Err(TranspileError::Syntax)
    ));
}

#[test]
fn string_variable_defaults_to_empty_literal() -> Result<(), TranspileError> {
    let source = "contract Test { string name; }";
    let out = pipeline(source)?;
    assert!(out.contains("(define-data-var name string-ascii \"\")"));
    Ok(())
}

#[test]
fn bare_return_contributes_no_statement() -> Result<(), TranspileError> {
    let source = "contract Test { function f() { return; } }";
    let contract = parser::parse_all(source)?.remove(0);
    assert_eq!(contract.functions[0].body.len(), 0);
    Ok(())
}
