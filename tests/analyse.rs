use phpanalyse::analyse::{expand, Analyse, BuiltinRule, Rule, Suggestion};
use phpanalyse::ast::{
    Body, CatchBlock, ClassMember, Expression, Statement, SwitchCase, TraitMember,
};
use phpanalyse::rules::ast_child_statements::AstChildStatements;
use phpanalyse::rules::e0010::E0010;

fn new_assignment(line: usize, class: &str) -> Statement {
    Statement::Expression {
        line,
        expression: Expression::Assignment {
            right: Box::new(Expression::New { target: class.to_string() }),
        },
    }
}

fn plain(line: usize) -> Statement {
    Statement::Expression { line, expression: Expression::Other }
}

fn lines(s: &[Suggestion]) -> Vec<usize> {
    s.iter().map(|x| x.line).collect()
}

fn child_lines(s: &Statement) -> Vec<usize> {
    AstChildStatements::from_statement(s)
        .statements
        .iter()
        .map(|c| match c {
            Statement::Expression { line, .. } => *line,
            _ => 0,
        })
        .collect()
}

/// The lines of the expression statements reachable from `s`, in pre-order,
/// descending through the child extractor.
fn preorder_lines(s: &Statement, out: &mut Vec<usize>) {
    if let Statement::Expression { line, .. } = s {
        out.push(*line);
    }
    for child in AstChildStatements::from_statement(s).statements {
        preorder_lines(child, out);
    }
}

fn reachable_lines(s: &Statement) -> Vec<usize> {
    let mut out = Vec::new();
    preorder_lines(s, &mut out);
    out
}

fn class_with_bar() -> Statement {
    let if_statement = Statement::If {
        body: Body::Block(vec![new_assignment(5, "Bar")]),
    };
    Statement::Class {
        members: vec![ClassMember::ConcreteMethod { body: vec![if_statement] }],
    }
}

#[test]
fn new_assignment_in_method_if_is_reached() {
    let class = class_with_bar();
    let children = AstChildStatements::from_statement(&class).statements;
    assert_eq!(children.len(), 1);
    assert!(matches!(children[0], Statement::If { .. }));
    assert_eq!(child_lines(children[0]), vec![5]);
    assert_eq!(reachable_lines(&class), vec![5]);
    assert!(Analyse::new(vec![]).statement(class).is_empty());
}

#[test]
fn switch_children_count_all_cases() {
    let s = Statement::Switch {
        cases: vec![
            SwitchCase { body: vec![plain(1), plain(2)] },
            SwitchCase { body: vec![] },
            SwitchCase { body: vec![plain(3), plain(4), plain(5)] },
        ],
    };
    assert_eq!(AstChildStatements::from_statement(&s).statements.len(), 5);
    assert_eq!(child_lines(&s), vec![1, 2, 3, 4, 5]);
}

#[test]
fn try_children_in_declared_order() {
    let s = Statement::Try {
        body: vec![plain(1), plain(2)],
        catches: vec![
            CatchBlock { body: vec![plain(3)] },
            CatchBlock { body: vec![plain(4), plain(5), plain(6)] },
        ],
        finally: Some(vec![plain(7)]),
    };
    assert_eq!(child_lines(&s), vec![1, 2, 3, 4, 5, 6, 7]);
}

#[test]
fn try_without_finally() {
    let s = Statement::Try {
        body: vec![plain(1)],
        catches: vec![CatchBlock { body: vec![] }, CatchBlock { body: vec![plain(2)] }],
        finally: None,
    };
    assert_eq!(child_lines(&s), vec![1, 2]);
}

#[test]
fn abstract_members_contribute_nothing() {
    let s = Statement::Class {
        members: vec![
            ClassMember::AbstractMethod,
            ClassMember::ConcreteMethod { body: vec![plain(8), plain(9)] },
            ClassMember::Property,
            ClassMember::Constant,
        ],
    };
    assert_eq!(child_lines(&s), vec![8, 9]);
}

#[test]
fn constructor_body_is_traversed_in_classes() {
    let s = Statement::Class {
        members: vec![
            ClassMember::ConcreteConstructor { body: vec![plain(1)] },
            ClassMember::AbstractConstructor,
            ClassMember::ConcreteMethod { body: vec![plain(2)] },
        ],
    };
    assert_eq!(child_lines(&s), vec![1, 2]);
}

#[test]
fn trait_concrete_methods_only() {
    let s = Statement::Trait {
        members: vec![
            TraitMember::AbstractMethod,
            TraitMember::ConcreteMethod { body: vec![plain(3)] },
            TraitMember::Property,
        ],
    };
    assert_eq!(child_lines(&s), vec![3]);
}

#[test]
fn single_statement_bodies() {
    let forms = vec![
        Statement::If { body: Body::Single(Box::new(plain(4))) },
        Statement::While { body: Body::Single(Box::new(plain(4))) },
        Statement::For { body: Body::Single(Box::new(plain(4))) },
        Statement::Foreach { body: Body::Single(Box::new(plain(4))) },
    ];
    for s in &forms {
        assert_eq!(child_lines(s), vec![4]);
    }
}

#[test]
fn namespace_forms_and_leaves() {
    let braced = Statement::Namespace { braced: true, statements: vec![plain(1), plain(2)] };
    let unbraced = Statement::Namespace { braced: false, statements: vec![plain(1), plain(2)] };
    assert_eq!(child_lines(&braced), vec![1, 2]);
    assert_eq!(child_lines(&unbraced), vec![1, 2]);
    assert!(AstChildStatements::from_statement(&plain(3)).statements.is_empty());
    assert!(AstChildStatements::from_statement(&Statement::Other).statements.is_empty());
}

#[test]
fn innermost_statement_reached_at_any_depth() {
    let foreach = Statement::Foreach { body: Body::Block(vec![new_assignment(11, "Foo")]) };
    let while_statement = Statement::While { body: Body::Block(vec![foreach]) };
    let if_statement = Statement::If { body: Body::Single(Box::new(while_statement)) };
    let class = Statement::Class {
        members: vec![ClassMember::ConcreteMethod { body: vec![if_statement] }],
    };
    assert_eq!(reachable_lines(&class), vec![11]);
    assert_eq!(reachable_lines(&new_assignment(11, "Foo")), vec![11]);
    assert!(Analyse::new(vec![]).statement(class).is_empty());
}

#[test]
fn disabling_every_rule_gives_nothing() {
    let analyse = Analyse::new(vec!["E0010".to_string()]);
    assert!(analyse.statement(class_with_bar()).is_empty());
}

#[test]
fn unknown_disabled_ids_are_ignored() {
    let analyse = Analyse::new(vec!["E9999".to_string(), "e0010".to_string()]);
    assert!(analyse.statement(class_with_bar()).is_empty());
}

#[test]
fn same_tree_twice_same_result() {
    let analyse = Analyse::new(vec![]);
    let a = analyse.statement(class_with_bar());
    let b = analyse.statement(class_with_bar());
    assert_eq!(a.len(), b.len());
    for (x, y) in a.iter().zip(b.iter()) {
        assert_eq!(x.rule, y.rule);
        assert_eq!(x.message, y.message);
        assert_eq!(x.line, y.line);
    }
}

#[test]
fn disabling_a_rule_removes_its_findings_only() {
    let tree = class_with_bar();
    let all = Analyse::new(vec![]).statement(class_with_bar());
    let without = Analyse::new(vec!["E0010".to_string()]).statement(class_with_bar());
    let alone = expand(&tree, &E0010 {});
    assert_eq!(all.len(), without.len() + alone.len());
    assert_eq!(lines(&all), lines(&alone));
    assert!(without.is_empty());
}

#[test]
fn preorder_parent_before_children() {
    let tree = Statement::Block {
        statements: vec![
            new_assignment(1, "A"),
            Statement::Block { statements: vec![new_assignment(2, "B"), plain(3)] },
            new_assignment(4, "C"),
        ],
    };
    assert_eq!(reachable_lines(&tree), vec![1, 2, 3, 4]);
    assert!(expand(&tree, &BuiltinRule::E0010(E0010 {})).is_empty());
}

#[test]
fn e0010_reports_nothing() {
    let rule = E0010 {};
    let call = Statement::Expression { line: 1, expression: Expression::MethodCall };
    let assign_other = Statement::Expression {
        line: 2,
        expression: Expression::Assignment { right: Box::new(Expression::Other) },
    };
    let bare_new = Statement::Expression {
        line: 3,
        expression: Expression::New { target: "X".to_string() },
    };
    assert!(rule.validate(&call).is_empty());
    assert!(rule.validate(&assign_other).is_empty());
    assert!(rule.validate(&bare_new).is_empty());
    assert!(rule.validate(&new_assignment(4, "X")).is_empty());
    assert!(rule.validate(&class_with_bar()).is_empty());
    assert!(rule.validate(&Statement::Other).is_empty());
}

#[test]
fn if_block_body_is_visited() {
    let s = Statement::If {
        body: Body::Block(vec![plain(1), new_assignment(2, "Y")]),
    };
    assert_eq!(child_lines(&s), vec![1, 2]);
    assert_eq!(reachable_lines(&s), vec![1, 2]);
    assert!(Analyse::new(vec![]).statement(s).is_empty());
}
