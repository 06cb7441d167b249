use vstd::prelude::*;

verus! {

/// An expression, reduced to what the rules inspect.
pub enum Expression {
    /// `$target = right`
    Assignment { right: Box<Expression> },
    /// `new Target(...)`
    New { target: String },
    /// `$target->method(...)`
    MethodCall,
    /// Any other expression.
    Other,
}

/// The body of an `if`, `while`, `for` or `foreach`: a list of statements
/// (braces or alternative syntax), or exactly one statement.
pub enum Body {
    Block(Vec<Statement>),
    Single(Box<Statement>),
}

/// One `case` (or `default`) arm of a `switch`.
pub struct SwitchCase {
    pub body: Vec<Statement>,
}

/// One `catch` clause of a `try`.
pub struct CatchBlock {
    pub body: Vec<Statement>,
}

/// A member of a class body.
pub enum ClassMember {
    ConcreteMethod { body: Vec<Statement> },
    ConcreteConstructor { body: Vec<Statement> },
    AbstractMethod,
    AbstractConstructor,
    Property,
    Constant,
    Other,
}

/// A member of a trait body.
pub enum TraitMember {
    ConcreteMethod { body: Vec<Statement> },
    AbstractMethod,
    Property,
    Constant,
    Other,
}

/// A statement of a parsed source file, with the fields that traversal reads.
#[allow(inconsistent_fields)]
pub enum Statement {
    Expression { line: usize, expression: Expression },
    If { body: Body },
    While { body: Body },
    For { body: Body },
    Foreach { body: Body },
    Switch { cases: Vec<SwitchCase> },
    Try { body: Vec<Statement>, catches: Vec<CatchBlock>, finally: Option<Vec<Statement>> },
    Block { statements: Vec<Statement> },
    Class { members: Vec<ClassMember> },
    Trait { members: Vec<TraitMember> },
    Namespace { braced: bool, statements: Vec<Statement> },
    /// Any statement that holds no nested statements.
    Other,
}

/// Whether `s` is an expression statement that assigns a `new` expression
/// (`$x = new Foo();`).
pub open spec fn is_new_assignment(s: Statement) -> bool {
    match s {
        Statement::Expression { expression: Expression::Assignment { right }, .. } => match *right {
            Expression::New { .. } => true,
            _ => false,
        },
        _ => false,
    }
}

/// The statements that a loop or conditional body holds directly.
pub open spec fn body_statements(b: Body) -> Seq<Statement> {
    match b {
        Body::Block(v) => v@,
        Body::Single(s) => seq![*s],
    }
}

/// The statements of the cases, in declaration order.
pub open spec fn case_statements(cases: Seq<SwitchCase>) -> Seq<Statement>
    decreases cases.len(),
{
    if cases.len() == 0 {
        Seq::empty()
    } else {
        case_statements(cases.drop_last()) + cases.last().body@
    }
}

/// The statements of the catch clauses, in declaration order.
pub open spec fn catch_statements(catches: Seq<CatchBlock>) -> Seq<Statement>
    decreases catches.len(),
{
    if catches.len() == 0 {
        Seq::empty()
    } else {
        catch_statements(catches.drop_last()) + catches.last().body@
    }
}

/// The body statements a class member contributes: only concrete methods and
/// concrete constructors have one.
pub open spec fn class_member_statements(m: ClassMember) -> Seq<Statement> {
    match m {
        ClassMember::ConcreteMethod { body } => body@,
        ClassMember::ConcreteConstructor { body } => body@,
        _ => Seq::empty(),
    }
}

/// The body statements a trait member contributes: only concrete methods have one.
pub open spec fn trait_member_statements(m: TraitMember) -> Seq<Statement> {
    match m {
        TraitMember::ConcreteMethod { body } => body@,
        _ => Seq::empty(),
    }
}

pub open spec fn class_statements(members: Seq<ClassMember>) -> Seq<Statement>
    decreases members.len(),
{
    if members.len() == 0 {
        Seq::empty()
    } else {
        class_statements(members.drop_last()) + class_member_statements(members.last())
    }
}

pub open spec fn trait_statements(members: Seq<TraitMember>) -> Seq<Statement>
    decreases members.len(),
{
    if members.len() == 0 {
        Seq::empty()
    } else {
        trait_statements(members.drop_last()) + trait_member_statements(members.last())
    }
}

pub open spec fn finally_statements(finally: Option<Vec<Statement>>) -> Seq<Statement> {
    match finally {
        Some(v) => v@,
        None => Seq::empty(),
    }
}

/// The immediate child statements of `s`, in source order.
pub open spec fn children(s: Statement) -> Seq<Statement> {
    match s {
        Statement::If { body } => body_statements(body),
        Statement::While { body } => body_statements(body),
        Statement::For { body } => body_statements(body),
        Statement::Foreach { body } => body_statements(body),
        Statement::Switch { cases } => case_statements(cases@),
        Statement::Try { body, catches, finally } =>
            body@ + catch_statements(catches@) + finally_statements(finally),
        Statement::Block { statements } => statements@,
        Statement::Class { members } => class_statements(members@),
        Statement::Trait { members } => trait_statements(members@),
        Statement::Namespace { statements, .. } => statements@,
        _ => Seq::empty(),
    }
}

} // verus!
