use vstd::prelude::*;
use crate::ast::{
    Body, CatchBlock, ClassMember, Statement, SwitchCase, TraitMember, body_statements,
    case_statements, catch_statements, children, class_member_statements, class_statements,
    trait_member_statements, trait_statements,
};

verus! {

/// The immediate child statements of one statement, in source order.
pub struct AstChildStatements<'a> {
    pub statements: Vec<&'a Statement>,
}

/// The statements that a list of references points to.
pub open spec fn derefs(s: Seq<&Statement>) -> Seq<Statement> {
    s.map_values(|x: &Statement| *x)
}

/// Pushes a reference to each statement of `v`, in order.
fn push_all<'a>(out: &mut Vec<&'a Statement>, v: &'a Vec<Statement>)
    ensures
        derefs(final(out)@) == derefs(old(out)@) + v@,
{
    let mut i: usize = 0;
    while i < v.len()
        invariant
            i <= v.len(),
            derefs(out@) == derefs(old(out)@) + v@.subrange(0, i as int),
        decreases v.len() - i,
    {
        let ghost before = out@;
        out.push(&v[i]);
        proof {
            assert(derefs(out@) =~= derefs(before).push(v@[i as int]));
            assert(v@.subrange(0, i + 1) =~= v@.subrange(0, i as int).push(v@[i as int]));
        }
        i += 1;
    }
    proof { assert(v@.subrange(0, v.len() as int) =~= v@); }
}

fn push_body<'a>(out: &mut Vec<&'a Statement>, b: &'a Body)
    ensures
        derefs(final(out)@) == derefs(old(out)@) + body_statements(*b),
{
    match b {
        Body::Block(v) => push_all(out, v),
        Body::Single(s) => {
            let ghost before = out@;
            out.push(&**s);
            proof { assert(derefs(out@) =~= derefs(before) + seq![**s]); }
        },
    }
}

fn push_cases<'a>(out: &mut Vec<&'a Statement>, cs: &'a Vec<SwitchCase>)
    ensures
        derefs(final(out)@) == derefs(old(out)@) + case_statements(cs@),
{
    let mut i: usize = 0;
    while i < cs.len()
        invariant
            i <= cs.len(),
            derefs(out@) == derefs(old(out)@) + case_statements(cs@.subrange(0, i as int)),
        decreases cs.len() - i,
    {
        push_all(out, &cs[i].body);
        proof {
            let next = cs@.subrange(0, i + 1);
            assert(next.drop_last() == cs@.subrange(0, i as int));
            assert(next.last() == cs@[i as int]);
        }
        i += 1;
    }
    proof { assert(cs@.subrange(0, cs.len() as int) == cs@); }
}

fn push_catches<'a>(out: &mut Vec<&'a Statement>, cs: &'a Vec<CatchBlock>)
    ensures
        derefs(final(out)@) == derefs(old(out)@) + catch_statements(cs@),
{
    let mut i: usize = 0;
    while i < cs.len()
        invariant
            i <= cs.len(),
            derefs(out@) == derefs(old(out)@) + catch_statements(cs@.subrange(0, i as int)),
        decreases cs.len() - i,
    {
        push_all(out, &cs[i].body);
        proof {
            let next = cs@.subrange(0, i + 1);
            assert(next.drop_last() == cs@.subrange(0, i as int));
            assert(next.last() == cs@[i as int]);
        }
        i += 1;
    }
    proof { assert(cs@.subrange(0, cs.len() as int) == cs@); }
}

fn push_class<'a>(out: &mut Vec<&'a Statement>, ms: &'a Vec<ClassMember>)
    ensures
        derefs(final(out)@) == derefs(old(out)@) + class_statements(ms@),
{
    let mut i: usize = 0;
    while i < ms.len()
        invariant
            i <= ms.len(),
            derefs(out@) == derefs(old(out)@) + class_statements(ms@.subrange(0, i as int)),
        decreases ms.len() - i,
    {
        match &ms[i] {
            ClassMember::ConcreteMethod { body } => push_all(out, body),
            ClassMember::ConcreteConstructor { body } => push_all(out, body),
            _ => {},
        }
        proof {
            let next = ms@.subrange(0, i + 1);
            assert(next.drop_last() == ms@.subrange(0, i as int));
            assert(next.last() == ms@[i as int]);
            assert(class_member_statements(ms@[i as int]).len() == 0 ==> derefs(out@) =~= derefs(old(out)@) + class_statements(next));
        }
        i += 1;
    }
    proof { assert(ms@.subrange(0, ms.len() as int) == ms@); }
}

fn push_trait<'a>(out: &mut Vec<&'a Statement>, ms: &'a Vec<TraitMember>)
    ensures
        derefs(final(out)@) == derefs(old(out)@) + trait_statements(ms@),
{
    let mut i: usize = 0;
    while i < ms.len()
        invariant
            i <= ms.len(),
            derefs(out@) == derefs(old(out)@) + trait_statements(ms@.subrange(0, i as int)),
        decreases ms.len() - i,
    {
        match &ms[i] {
            TraitMember::ConcreteMethod { body } => push_all(out, body),
            _ => {},
        }
        proof {
            let next = ms@.subrange(0, i + 1);
            assert(next.drop_last() == ms@.subrange(0, i as int));
            assert(next.last() == ms@[i as int]);
            assert(trait_member_statements(ms@[i as int]).len() == 0 ==> derefs(out@) =~= derefs(old(out)@) + trait_statements(next));
        }
        i += 1;
    }
    proof { assert(ms@.subrange(0, ms.len() as int) == ms@); }
}

impl<'a> AstChildStatements<'a> {
    /// Collects the immediate child statements of `statement`; a statement
    /// that holds none gives an empty list.
    pub fn from_statement(statement: &'a Statement) -> (r: Self)
        ensures
            derefs(r.statements@) == children(*statement),
    {
        let mut statements: Vec<&'a Statement> = Vec::new();
        proof { assert(derefs(statements@) =~= Seq::empty()); }
        match statement {
            Statement::If { body } => push_body(&mut statements, body),
            Statement::While { body } => push_body(&mut statements, body),
            Statement::For { body } => push_body(&mut statements, body),
            Statement::Foreach { body } => push_body(&mut statements, body),
            Statement::Switch { cases } => push_cases(&mut statements, cases),
            Statement::Try { body, catches, finally } => {
                push_all(&mut statements, body);
                push_catches(&mut statements, catches);
                match finally {
                    Some(f) => push_all(&mut statements, f),
                    None => {},
                }
            },
            Statement::Block { statements: inner } => push_all(&mut statements, inner),
            Statement::Class { members } => push_class(&mut statements, members),
            Statement::Trait { members } => push_trait(&mut statements, members),
            Statement::Namespace { statements: inner, .. } => push_all(&mut statements, inner),
            _ => {},
        }
        proof { assert(derefs(statements@) =~= children(*statement)); }
        AstChildStatements { statements }
    }
}

} // verus!
