use vstd::prelude::*;
use vstd::seq_lib::lemma_multiset_commutative;
use crate::analyse::{
    Analyse, Rule, SuggestionView, analysis, visit, visit_body, visit_cases, visit_catches,
    visit_class, visit_member, visit_seq, visit_trait, visit_trait_member,
};
use crate::ast::{
    Body, CatchBlock, ClassMember, Statement, SwitchCase, TraitMember, body_statements,
    case_statements, catch_statements, children, class_member_statements, class_statements,
    finally_statements, is_new_assignment, trait_member_statements, trait_statements,
};

verus! {

/// Visiting a concatenation visits the first part, then the second.
pub proof fn lemma_visit_seq_append<R: Rule>(rule: R, a: Seq<Statement>, b: Seq<Statement>)
    ensures
        visit_seq(rule, a + b) == visit_seq(rule, a) + visit_seq(rule, b),
    decreases b.len(),
{
    if b.len() == 0 {
        assert(a + b =~= a);
        assert(visit_seq(rule, a) + visit_seq(rule, b) =~= visit_seq(rule, a));
    } else {
        let ab = a + b;
        let b0 = b.subrange(0, b.len() - 1);
        assert(ab.subrange(0, ab.len() - 1) =~= a + b0);
        assert(ab[ab.len() - 1] == b[b.len() - 1]);
        lemma_visit_seq_append(rule, a, b0);
        assert(visit_seq(rule, a + b) =~= visit_seq(rule, a) + visit_seq(rule, b));
    }
}

proof fn lemma_visit_single<R: Rule>(rule: R, s: Statement)
    ensures
        visit_seq(rule, seq![s]) == visit(rule, s),
{
    assert(seq![s].subrange(0, 0) =~= Seq::<Statement>::empty());
    assert(seq![s][0] == s);
    assert(visit_seq(rule, Seq::<Statement>::empty()) == Seq::<SuggestionView>::empty());
    assert(visit_seq(rule, seq![s]) =~= visit(rule, s));
}

proof fn lemma_visit_body<R: Rule>(rule: R, b: Body)
    ensures
        visit_body(rule, b) == visit_seq(rule, body_statements(b)),
{
    if let Body::Single(s) = b {
        lemma_visit_single(rule, *s);
    }
}

proof fn lemma_visit_cases<R: Rule>(rule: R, cs: Seq<SwitchCase>)
    ensures
        visit_cases(rule, cs) == visit_seq(rule, case_statements(cs)),
    decreases cs.len(),
{
    if cs.len() > 0 {
        let init = cs.subrange(0, cs.len() - 1);
        assert(cs.drop_last() == init);
        lemma_visit_cases(rule, init);
        lemma_visit_seq_append(rule, case_statements(init), cs.last().body@);
    }
}

proof fn lemma_visit_catches<R: Rule>(rule: R, cs: Seq<CatchBlock>)
    ensures
        visit_catches(rule, cs) == visit_seq(rule, catch_statements(cs)),
    decreases cs.len(),
{
    if cs.len() > 0 {
        let init = cs.subrange(0, cs.len() - 1);
        assert(cs.drop_last() == init);
        lemma_visit_catches(rule, init);
        lemma_visit_seq_append(rule, catch_statements(init), cs.last().body@);
    }
}

proof fn lemma_visit_class<R: Rule>(rule: R, ms: Seq<ClassMember>)
    ensures
        visit_class(rule, ms) == visit_seq(rule, class_statements(ms)),
    decreases ms.len(),
{
    if ms.len() > 0 {
        let init = ms.subrange(0, ms.len() - 1);
        assert(ms.drop_last() == init);
        lemma_visit_class(rule, init);
        assert(visit_member(rule, ms.last()) == visit_seq(rule, class_member_statements(ms.last())));
        lemma_visit_seq_append(rule, class_statements(init), class_member_statements(ms.last()));
    }
}

proof fn lemma_visit_trait<R: Rule>(rule: R, ms: Seq<TraitMember>)
    ensures
        visit_trait(rule, ms) == visit_seq(rule, trait_statements(ms)),
    decreases ms.len(),
{
    if ms.len() > 0 {
        let init = ms.subrange(0, ms.len() - 1);
        assert(ms.drop_last() == init);
        lemma_visit_trait(rule, init);
        assert(visit_trait_member(rule, ms.last()) == visit_seq(rule, trait_member_statements(ms.last())));
        lemma_visit_seq_append(rule, trait_statements(init), trait_member_statements(ms.last()));
    }
}

/// The walk checks a statement, then walks each of its immediate children
/// (as the child extractor lists them) in source order.
pub proof fn lemma_visit_children<R: Rule>(rule: R, s: Statement)
    ensures
        visit(rule, s) == rule.spec_validate(s) + visit_seq(rule, children(s)),
{
    match s {
        Statement::If { body } => lemma_visit_body(rule, body),
        Statement::While { body } => lemma_visit_body(rule, body),
        Statement::For { body } => lemma_visit_body(rule, body),
        Statement::Foreach { body } => lemma_visit_body(rule, body),
        Statement::Switch { cases } => lemma_visit_cases(rule, cases@),
        Statement::Try { body, catches, finally } => {
            lemma_visit_catches(rule, catches@);
            let fin: Seq<Statement> = match finally {
                Some(f) => f@,
                None => Seq::empty(),
            };
            lemma_visit_seq_append(rule, body@, catch_statements(catches@));
            lemma_visit_seq_append(rule, body@ + catch_statements(catches@), fin);
            assert(visit_seq(rule, Seq::<Statement>::empty()) == Seq::<SuggestionView>::empty());
        },
        Statement::Class { members } => lemma_visit_class(rule, members@),
        Statement::Trait { members } => lemma_visit_trait(rule, members@),
        _ => {
            assert(visit_seq(rule, Seq::<Statement>::empty()) == Seq::<SuggestionView>::empty());
        },
    }
}

/// Analysing one tree twice with the same rule set gives the same suggestions.
pub proof fn lemma_analysis_deterministic(a: Analyse, b: Analyse, s: Statement, t: Statement)
    requires
        a.entries() == b.entries(),
        s == t,
    ensures
        analysis(a.active(), s) == analysis(b.active(), t),
        analysis(a.active(), s).to_multiset() == analysis(b.active(), t).to_multiset(),
{
}

/// With no active rule, no tree gives any suggestion.
pub proof fn lemma_no_rules<R: Rule>(s: Statement)
    ensures
        analysis(Seq::<R>::empty(), s) == Seq::<SuggestionView>::empty(),
{
}

/// Taking one rule out of a rule set removes exactly what that rule alone
/// reports for the tree, and nothing else.
pub proof fn lemma_rule_independence<R: Rule>(rules: Seq<R>, k: int, s: Statement)
    requires
        0 <= k < rules.len(),
    ensures
        analysis(rules, s).to_multiset() == analysis(rules.remove(k), s).to_multiset().add(
            visit(rules[k], s).to_multiset(),
        ),
    decreases rules.len(),
{
    let n = rules.len();
    lemma_multiset_commutative(analysis(rules.drop_last(), s), visit(rules.last(), s));
    if k == n - 1 {
        assert(rules.remove(k) =~= rules.drop_last());
    } else {
        let rest = rules.remove(k);
        assert(rest.drop_last() =~= rules.drop_last().remove(k));
        assert(rest.last() == rules.last());
        lemma_rule_independence(rules.drop_last(), k, s);
        lemma_multiset_commutative(analysis(rest.drop_last(), s), visit(rest.last(), s));
        assert(analysis(rules, s).to_multiset() =~= analysis(rest, s).to_multiset().add(
            visit(rules[k], s).to_multiset(),
        ));
    }
}

/// The number of statements in all catch clauses together.
pub open spec fn catch_total(cs: Seq<CatchBlock>) -> nat
    decreases cs.len(),
{
    if cs.len() == 0 {
        0
    } else {
        catch_total(cs.drop_last()) + cs.last().body@.len()
    }
}

proof fn lemma_catch_statements_len(cs: Seq<CatchBlock>)
    ensures
        catch_statements(cs).len() == catch_total(cs),
    decreases cs.len(),
{
    if cs.len() > 0 {
        lemma_catch_statements_len(cs.drop_last());
    }
}

/// The children of a `try` are the try body, then each catch clause's
/// statements in declaration order, then the finally body if present; their
/// number is the sum of those bodies' lengths.
pub proof fn lemma_try_children(
    body: Vec<Statement>,
    catches: Vec<CatchBlock>,
    finally: Option<Vec<Statement>>,
)
    ensures
        children(Statement::Try { body, catches, finally }) == body@ + catch_statements(catches@)
            + finally_statements(finally),
        children(Statement::Try { body, catches, finally }).len() == body@.len() + catch_total(
            catches@,
        ) + finally_statements(finally).len(),
{
    lemma_catch_statements_len(catches@);
}

/// A class with one abstract method and one concrete method, in either
/// order, has exactly the concrete method's body as children.
pub proof fn lemma_member_filtering(members: Vec<ClassMember>, body: Vec<Statement>)
    requires
        members@ == seq![ClassMember::AbstractMethod, ClassMember::ConcreteMethod { body }]
            || members@ == seq![ClassMember::ConcreteMethod { body }, ClassMember::AbstractMethod],
    ensures
        children(Statement::Class { members }) == body@,
{
    let ms = members@;
    assert(ms.drop_last().drop_last() =~= Seq::<ClassMember>::empty());
    assert(ms.drop_last() =~= seq![ms[0]]);
    assert(ms.drop_last().last() == ms[0]);
    assert(class_statements(Seq::<ClassMember>::empty()) == Seq::<Statement>::empty());
    assert(class_statements(ms.drop_last()) =~= class_member_statements(ms[0]));
    assert(class_statements(ms) =~= body@);
}

/// Wrapping a statement in a container that holds only it, and on which the
/// rule reports nothing, does not change what the rule reports: findings
/// do not depend on nesting depth.
pub proof fn lemma_depth_independence<R: Rule>(rule: R, outer: Statement, inner: Statement)
    requires
        children(outer) == seq![inner],
        rule.spec_validate(outer) == Seq::<SuggestionView>::empty(),
    ensures
        visit(rule, outer) == visit(rule, inner),
{
    lemma_visit_children(rule, outer);
    lemma_visit_single(rule, inner);
    assert(visit(rule, outer) =~= visit(rule, inner));
}

/// A class whose one method holds `if (...) { $x = new Bar(); }`, analysed
/// with a rule that reports one finding at that assignment and nothing
/// anywhere else, yields exactly that one finding.
pub proof fn lemma_new_assignment_in_method<R: Rule>(
    rule: R,
    class: Statement,
    members: Vec<ClassMember>,
    method_body: Vec<Statement>,
    if_statement: Statement,
    if_body: Vec<Statement>,
    assignment: Statement,
)
    requires
        class == (Statement::Class { members }),
        members@ == seq![ClassMember::ConcreteMethod { body: method_body }],
        method_body@ == seq![if_statement],
        if_statement == (Statement::If { body: Body::Block(if_body) }),
        if_body@ == seq![assignment],
        is_new_assignment(assignment),
        rule.spec_validate(assignment).len() == 1,
        forall|x: Statement| x != assignment ==> rule.spec_validate(x) == Seq::<SuggestionView>::empty(),
    ensures
        analysis(seq![rule], class) == rule.spec_validate(assignment),
        analysis(seq![rule], class).len() == 1,
{
    let ms = members@;
    assert(ms.drop_last() =~= Seq::<ClassMember>::empty());
    assert(class_statements(Seq::<ClassMember>::empty()) == Seq::<Statement>::empty());
    assert(class_statements(ms) =~= seq![if_statement]);
    lemma_depth_independence(rule, class, if_statement);
    assert(children(if_statement) == seq![assignment]);
    lemma_depth_independence(rule, if_statement, assignment);
    lemma_visit_children(rule, assignment);
    assert(children(assignment) == Seq::<Statement>::empty());
    assert(visit_seq(rule, Seq::<Statement>::empty()) == Seq::<SuggestionView>::empty());
    assert(visit(rule, assignment) =~= rule.spec_validate(assignment));
    assert(seq![rule].drop_last() =~= Seq::<R>::empty());
    assert(seq![rule].last() == rule);
    assert(analysis(Seq::<R>::empty(), class) == Seq::<SuggestionView>::empty());
    assert(analysis(seq![rule], class) =~= visit(rule, class));
}

} // verus!
