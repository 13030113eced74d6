//! The source-language abstract syntax tree.
//!
//! These are passive data structures: the parser builds them, the converter
//! consumes them, and nothing mutates them in between.  Each executable type
//! has a mathematical model (the `...V` types, over `Seq<char>`), reached
//! through `DeepView`; all contracts in the pipeline speak of those models.

use vstd::prelude::*;

verus! {

/// Model of [`Expression`].
#[verifier::ext_equal]
pub enum ExpressionV {
    Literal(Seq<char>),
    Identifier(Seq<char>),
    BinaryOp(Box<ExpressionV>, Seq<char>, Box<ExpressionV>),
    MapAccess(Seq<char>, Box<ExpressionV>),
    MemberAccess(Box<ExpressionV>, Seq<char>),
}

/// Model of [`Statement`].
#[verifier::ext_equal]
pub enum StatementV {
    Expression(ExpressionV),
    Return(ExpressionV),
    Assignment(Seq<char>, ExpressionV),
    MapAccessAssignment(Seq<char>, ExpressionV, ExpressionV),
    Emit(Seq<char>, Seq<ExpressionV>),
}

/// Model of [`Parameter`].
#[verifier::ext_equal]
pub struct ParameterV {
    pub name: Seq<char>,
    pub param_type: Seq<char>,
}

/// Model of [`MappingType`].
#[verifier::ext_equal]
pub struct MappingTypeV {
    pub key_type: Seq<char>,
    pub value_type: Seq<char>,
    pub nested: Option<Box<MappingTypeV>>,
}

/// Model of [`StateVariable`].
#[verifier::ext_equal]
pub struct StateVariableV {
    pub name: Seq<char>,
    pub var_type: Seq<char>,
    pub visibility: Option<Seq<char>>,
    pub is_mapping: bool,
    pub mapping_key_type: Option<Seq<char>>,
    pub mapping_value_type: Option<Seq<char>>,
    pub is_constant: bool,
    pub initial_value: Option<ExpressionV>,
    pub nested_mapping: Option<Box<MappingTypeV>>,
}

/// Model of [`EventParameter`].
#[verifier::ext_equal]
pub struct EventParameterV {
    pub name: Seq<char>,
    pub param_type: Seq<char>,
    pub indexed: bool,
}

/// Model of [`Event`].
#[verifier::ext_equal]
pub struct EventV {
    pub name: Seq<char>,
    pub params: Seq<EventParameterV>,
}

/// Model of [`Function`].
#[verifier::ext_equal]
pub struct FunctionV {
    pub name: Seq<char>,
    pub params: Seq<ParameterV>,
    pub return_type: Option<Seq<char>>,
    pub visibility: Option<Seq<char>>,
    pub mutability: Option<Seq<char>>,
    pub body: Seq<StatementV>,
}

/// Model of [`Constructor`].
#[verifier::ext_equal]
pub struct ConstructorV {
    pub params: Seq<ParameterV>,
    pub visibility: Option<Seq<char>>,
    pub body: Seq<StatementV>,
}

/// Model of [`Contract`].
#[verifier::ext_equal]
pub struct ContractV {
    pub name: Seq<char>,
    pub functions: Seq<FunctionV>,
    pub state_variables: Seq<StateVariableV>,
    pub events: Seq<EventV>,
    pub constructor: Option<ConstructorV>,
}

/// An expression of the source language.
///
/// A binary operation keeps the operator's lexeme; a map access keeps the
/// accessed name and the key expression.  The synthetic `,` operator encodes
/// a composite key built from repeated indexing.
#[derive(Debug)]
pub enum Expression {
    Literal(String),
    Identifier(String),
    BinaryOp(Box<Expression>, String, Box<Expression>),
    MapAccess(String, Box<Expression>),
    MemberAccess(Box<Expression>, String),
}

/// A statement of the source language.
#[derive(Debug)]
pub enum Statement {
    Expression(Expression),
    Return(Expression),
    Assignment(String, Expression),
    MapAccessAssignment(String, Box<Expression>, Expression),
    Emit(String, Vec<Expression>),
}

/// A function parameter: type then name.
#[derive(Debug)]
pub struct Parameter {
    pub name: String,
    pub param_type: String,
}

/// A possibly-nested mapping type: key type, value type, and a further
/// nesting level when the value is itself a mapping.
#[derive(Debug)]
pub struct MappingType {
    pub key_type: String,
    pub value_type: String,
    pub nested: Option<Box<MappingType>>,
}

/// A contract-level state variable declaration.
///
/// When `is_mapping` holds, the key and value type fields are populated and
/// `nested_mapping` describes any deeper levels.
#[derive(Debug)]
pub struct StateVariable {
    pub name: String,
    pub var_type: String,
    pub visibility: Option<String>,
    pub is_mapping: bool,
    pub mapping_key_type: Option<String>,
    pub mapping_value_type: Option<String>,
    pub is_constant: bool,
    pub initial_value: Option<Expression>,
    pub nested_mapping: Option<Box<MappingType>>,
}

/// One parameter of an event declaration.
#[derive(Debug)]
pub struct EventParameter {
    pub name: String,
    pub param_type: String,
    pub indexed: bool,
}

/// An event declaration: name plus ordered parameters.
#[derive(Debug)]
pub struct Event {
    pub name: String,
    pub params: Vec<EventParameter>,
}

/// A function definition of the source language.
#[derive(Debug)]
pub struct Function {
    pub name: String,
    pub params: Vec<Parameter>,
    pub return_type: Option<String>,
    pub visibility: Option<String>,
    pub mutability: Option<String>,
    pub body: Vec<Statement>,
}

/// A constructor definition: like a function, but without name or return
/// type.  A contract has at most one.
#[derive(Debug)]
pub struct Constructor {
    pub params: Vec<Parameter>,
    pub visibility: Option<String>,
    pub body: Vec<Statement>,
}

/// A top-level contract declaration.
#[derive(Debug)]
pub struct Contract {
    pub name: String,
    pub functions: Vec<Function>,
    pub state_variables: Vec<StateVariable>,
    pub events: Vec<Event>,
    pub constructor: Option<Constructor>,
}

impl DeepView for Expression {
    type V = ExpressionV;

    open spec fn deep_view(&self) -> ExpressionV
        decreases self,
    {
        match self {
            Expression::Literal(s) => ExpressionV::Literal(s.deep_view()),
            Expression::Identifier(s) => ExpressionV::Identifier(s.deep_view()),
            Expression::BinaryOp(l, op, r) => ExpressionV::BinaryOp(
                Box::new((**l).deep_view()),
                op.deep_view(),
                Box::new((**r).deep_view()),
            ),
            Expression::MapAccess(m, k) => ExpressionV::MapAccess(
                m.deep_view(),
                Box::new((**k).deep_view()),
            ),
            Expression::MemberAccess(b, m) => ExpressionV::MemberAccess(
                Box::new((**b).deep_view()),
                m.deep_view(),
            ),
        }
    }
}

impl DeepView for Statement {
    type V = StatementV;

    open spec fn deep_view(&self) -> StatementV {
        match self {
            Statement::Expression(e) => StatementV::Expression(e.deep_view()),
            Statement::Return(e) => StatementV::Return(e.deep_view()),
            Statement::Assignment(n, e) => StatementV::Assignment(n.deep_view(), e.deep_view()),
            Statement::MapAccessAssignment(m, k, v) => StatementV::MapAccessAssignment(
                m.deep_view(),
                k.deep_view(),
                v.deep_view(),
            ),
            Statement::Emit(n, args) => StatementV::Emit(n.deep_view(), args.deep_view()),
        }
    }
}

impl DeepView for Parameter {
    type V = ParameterV;

    open spec fn deep_view(&self) -> ParameterV {
        ParameterV { name: self.name.deep_view(), param_type: self.param_type.deep_view() }
    }
}

impl DeepView for MappingType {
    type V = MappingTypeV;

    open spec fn deep_view(&self) -> MappingTypeV
        decreases self,
    {
        MappingTypeV {
            key_type: self.key_type.deep_view(),
            value_type: self.value_type.deep_view(),
            nested: match &self.nested {
                Option::Some(b) => Option::Some(Box::new((**b).deep_view())),
                Option::None => Option::None,
            },
        }
    }
}

/// The model of an optional boxed nesting level.
pub open spec fn deep_opt_mapping(o: Option<Box<MappingType>>) -> Option<Box<MappingTypeV>> {
    match o {
        Option::Some(b) => Option::Some(Box::new((*b).deep_view())),
        Option::None => Option::None,
    }
}

impl DeepView for StateVariable {
    type V = StateVariableV;

    open spec fn deep_view(&self) -> StateVariableV {
        StateVariableV {
            name: self.name.deep_view(),
            var_type: self.var_type.deep_view(),
            visibility: self.visibility.deep_view(),
            is_mapping: self.is_mapping,
            mapping_key_type: self.mapping_key_type.deep_view(),
            mapping_value_type: self.mapping_value_type.deep_view(),
            is_constant: self.is_constant,
            initial_value: self.initial_value.deep_view(),
            nested_mapping: match &self.nested_mapping {
                Option::Some(b) => Option::Some(Box::new((**b).deep_view())),
                Option::None => Option::None,
            },
        }
    }
}

impl DeepView for EventParameter {
    type V = EventParameterV;

    open spec fn deep_view(&self) -> EventParameterV {
        EventParameterV {
            name: self.name.deep_view(),
            param_type: self.param_type.deep_view(),
            indexed: self.indexed,
        }
    }
}

impl DeepView for Event {
    type V = EventV;

    open spec fn deep_view(&self) -> EventV {
        EventV { name: self.name.deep_view(), params: self.params.deep_view() }
    }
}

impl DeepView for Function {
    type V = FunctionV;

    open spec fn deep_view(&self) -> FunctionV {
        FunctionV {
            name: self.name.deep_view(),
            params: self.params.deep_view(),
            return_type: self.return_type.deep_view(),
            visibility: self.visibility.deep_view(),
            mutability: self.mutability.deep_view(),
            body: self.body.deep_view(),
        }
    }
}

impl DeepView for Constructor {
    type V = ConstructorV;

    open spec fn deep_view(&self) -> ConstructorV {
        ConstructorV {
            params: self.params.deep_view(),
            visibility: self.visibility.deep_view(),
            body: self.body.deep_view(),
        }
    }
}

impl DeepView for Contract {
    type V = ContractV;

    open spec fn deep_view(&self) -> ContractV {
        ContractV {
            name: self.name.deep_view(),
            functions: self.functions.deep_view(),
            state_variables: self.state_variables.deep_view(),
            events: self.events.deep_view(),
            constructor: self.constructor.deep_view(),
        }
    }
}

} // verus!
