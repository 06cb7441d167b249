use vstd::prelude::*;
use crate::rules::e0010::E0010;
use crate::ast::{Body, CatchBlock, ClassMember, Statement, SwitchCase, TraitMember};

verus! {

/// A finding that a rule reports about one statement.
pub struct Suggestion {
    pub rule: String,
    pub message: String,
    pub line: usize,
}

/// The mathematical value of a [`Suggestion`].
pub struct SuggestionView {
    pub rule: Seq<char>,
    pub message: Seq<char>,
    pub line: usize,
}

impl View for Suggestion {
    type V = SuggestionView;

    open spec fn view(&self) -> SuggestionView {
        SuggestionView { rule: self.rule@, message: self.message@, line: self.line }
    }
}

/// The values of a sequence of suggestions.
pub open spec fn views(s: Seq<Suggestion>) -> Seq<SuggestionView> {
    s.map_values(|x: Suggestion| x@)
}

/// The file whose statements are about to be checked.
pub struct File {
    pub path: String,
}

/// A checker that inspects one statement at a time.
pub trait Rule {
    /// The suggestions this rule reports for `statement` alone (not its descendants).
    spec fn spec_validate(&self, statement: Statement) -> Seq<SuggestionView>;

    fn validate(&self, statement: &Statement) -> (r: Vec<Suggestion>)
        ensures
            views(r@) == self.spec_validate(*statement),
    ;

    /// Receives the file whose statements follow; rules without per-file
    /// context ignore it.
    fn set_file(&self, file: File) {
    }
}

/// What `rule` reports for `s` and every statement nested in it, in pre-order.
pub open spec fn visit<R: Rule>(rule: R, s: Statement) -> Seq<SuggestionView>
    decreases s,
{
    rule.spec_validate(s) + match s {
        Statement::If { body } => visit_body(rule, body),
        Statement::While { body } => visit_body(rule, body),
        Statement::For { body } => visit_body(rule, body),
        Statement::Foreach { body } => visit_body(rule, body),
        Statement::Switch { cases } => visit_cases(rule, cases@),
        Statement::Try { body, catches, finally } =>
            visit_seq(rule, body@) + visit_catches(rule, catches@) + match finally {
                Some(f) => visit_seq(rule, f@),
                None => Seq::empty(),
            },
        Statement::Block { statements } => visit_seq(rule, statements@),
        Statement::Class { members } => visit_class(rule, members@),
        Statement::Trait { members } => visit_trait(rule, members@),
        Statement::Namespace { statements, .. } => visit_seq(rule, statements@),
        _ => Seq::empty(),
    }
}

pub open spec fn visit_body<R: Rule>(rule: R, b: Body) -> Seq<SuggestionView>
    decreases b,
{
    match b {
        Body::Block(v) => visit_seq(rule, v@),
        Body::Single(s) => visit(rule, *s),
    }
}

/// What `rule` reports for each statement of `ss` and its descendants, in order.
pub open spec fn visit_seq<R: Rule>(rule: R, ss: Seq<Statement>) -> Seq<SuggestionView>
    decreases ss,
{
    if ss.len() == 0 {
        Seq::empty()
    } else {
        visit_seq(rule, ss.subrange(0, ss.len() - 1)) + visit(rule, ss[ss.len() - 1])
    }
}

pub open spec fn visit_cases<R: Rule>(rule: R, cs: Seq<SwitchCase>) -> Seq<SuggestionView>
    decreases cs,
{
    if cs.len() == 0 {
        Seq::empty()
    } else {
        visit_cases(rule, cs.subrange(0, cs.len() - 1)) + visit_seq(rule, cs[cs.len() - 1].body@)
    }
}

pub open spec fn visit_catches<R: Rule>(rule: R, cs: Seq<CatchBlock>) -> Seq<SuggestionView>
    decreases cs,
{
    if cs.len() == 0 {
        Seq::empty()
    } else {
        visit_catches(rule, cs.subrange(0, cs.len() - 1)) + visit_seq(rule, cs[cs.len() - 1].body@)
    }
}

pub open spec fn visit_member<R: Rule>(rule: R, m: ClassMember) -> Seq<SuggestionView>
    decreases m,
{
    match m {
        ClassMember::ConcreteMethod { body } => visit_seq(rule, body@),
        ClassMember::ConcreteConstructor { body } => visit_seq(rule, body@),
        _ => Seq::empty(),
    }
}

pub open spec fn visit_class<R: Rule>(rule: R, ms: Seq<ClassMember>) -> Seq<SuggestionView>
    decreases ms,
{
    if ms.len() == 0 {
        Seq::empty()
    } else {
        visit_class(rule, ms.subrange(0, ms.len() - 1)) + visit_member(rule, ms[ms.len() - 1])
    }
}

pub open spec fn visit_trait_member<R: Rule>(rule: R, m: TraitMember) -> Seq<SuggestionView>
    decreases m,
{
    match m {
        TraitMember::ConcreteMethod { body } => visit_seq(rule, body@),
        _ => Seq::empty(),
    }
}

pub open spec fn visit_trait<R: Rule>(rule: R, ms: Seq<TraitMember>) -> Seq<SuggestionView>
    decreases ms,
{
    if ms.len() == 0 {
        Seq::empty()
    } else {
        visit_trait(rule, ms.subrange(0, ms.len() - 1)) + visit_trait_member(rule, ms[ms.len() - 1])
    }
}

} // verus!

verus! {

proof fn lemma_views_append(a: Seq<Suggestion>, b: Seq<Suggestion>)
    ensures
        views(a + b) == views(a) + views(b),
{
    assert(views(a + b) =~= views(a) + views(b));
}

/// Appends `b` to `a`, stating the effect on the suggestions' values.
fn append_all(a: &mut Vec<Suggestion>, b: Vec<Suggestion>)
    ensures
        views(final(a)@) == views(old(a)@) + views(b@),
{
    let mut b = b;
    proof { lemma_views_append(old(a)@, b@); }
    a.append(&mut b);
}

/// Applies `rule` to every statement of `ss` and their descendants.
pub fn expand_seq<R: Rule>(ss: &Vec<Statement>, rule: &R) -> (r: Vec<Suggestion>)
    ensures
        views(r@) == visit_seq(*rule, ss@),
    decreases ss,
{
    let mut out: Vec<Suggestion> = Vec::new();
    let mut i: usize = 0;
    while i < ss.len()
        invariant
            i <= ss.len(),
            views(out@) == visit_seq(*rule, ss@.subrange(0, i as int)),
        decreases ss.len() - i,
    {
        let sub = expand(&ss[i], rule);
        proof {
            let next = ss@.subrange(0, i + 1);
            assert(next.subrange(0, i as int) == ss@.subrange(0, i as int));
            assert(next[i as int] == ss@[i as int]);
        }
        append_all(&mut out, sub);
        i += 1;
    }
    proof { assert(ss@.subrange(0, ss.len() as int) == ss@); }
    out
}

fn expand_body<R: Rule>(b: &Body, rule: &R) -> (r: Vec<Suggestion>)
    ensures
        views(r@) == visit_body(*rule, *b),
    decreases b,
{
    match b {
        Body::Block(v) => expand_seq(v, rule),
        Body::Single(s) => expand(s, rule),
    }
}

fn expand_cases<R: Rule>(cs: &Vec<SwitchCase>, rule: &R) -> (r: Vec<Suggestion>)
    ensures
        views(r@) == visit_cases(*rule, cs@),
    decreases cs,
{
    let mut out: Vec<Suggestion> = Vec::new();
    let mut i: usize = 0;
    while i < cs.len()
        invariant
            i <= cs.len(),
            views(out@) == visit_cases(*rule, cs@.subrange(0, i as int)),
        decreases cs.len() - i,
    {
        let sub = expand_seq(&cs[i].body, rule);
        proof {
            let next = cs@.subrange(0, i + 1);
            assert(next.subrange(0, i as int) == cs@.subrange(0, i as int));
            assert(next[i as int] == cs@[i as int]);
        }
        append_all(&mut out, sub);
        i += 1;
    }
    proof { assert(cs@.subrange(0, cs.len() as int) == cs@); }
    out
}

fn expand_catches<R: Rule>(cs: &Vec<CatchBlock>, rule: &R) -> (r: Vec<Suggestion>)
    ensures
        views(r@) == visit_catches(*rule, cs@),
    decreases cs,
{
    let mut out: Vec<Suggestion> = Vec::new();
    let mut i: usize = 0;
    while i < cs.len()
        invariant
            i <= cs.len(),
            views(out@) == visit_catches(*rule, cs@.subrange(0, i as int)),
        decreases cs.len() - i,
    {
        let sub = expand_seq(&cs[i].body, rule);
        proof {
            let next = cs@.subrange(0, i + 1);
            assert(next.subrange(0, i as int) == cs@.subrange(0, i as int));
            assert(next[i as int] == cs@[i as int]);
        }
        append_all(&mut out, sub);
        i += 1;
    }
    proof { assert(cs@.subrange(0, cs.len() as int) == cs@); }
    out
}

fn expand_member<R: Rule>(m: &ClassMember, rule: &R) -> (r: Vec<Suggestion>)
    ensures
        views(r@) == visit_member(*rule, *m),
    decreases m,
{
    match m {
        ClassMember::ConcreteMethod { body } => expand_seq(body, rule),
        ClassMember::ConcreteConstructor { body } => expand_seq(body, rule),
        _ => {
            proof { assert(views(Seq::<Suggestion>::empty()) =~= Seq::empty()); }
            Vec::new()
        },
    }
}

fn expand_trait_member<R: Rule>(m: &TraitMember, rule: &R) -> (r: Vec<Suggestion>)
    ensures
        views(r@) == visit_trait_member(*rule, *m),
    decreases m,
{
    match m {
        TraitMember::ConcreteMethod { body } => expand_seq(body, rule),
        _ => {
            proof { assert(views(Seq::<Suggestion>::empty()) =~= Seq::empty()); }
            Vec::new()
        },
    }
}

fn expand_class<R: Rule>(ms: &Vec<ClassMember>, rule: &R) -> (r: Vec<Suggestion>)
    ensures
        views(r@) == visit_class(*rule, ms@),
    decreases ms,
{
    let mut out: Vec<Suggestion> = Vec::new();
    let mut i: usize = 0;
    while i < ms.len()
        invariant
            i <= ms.len(),
            views(out@) == visit_class(*rule, ms@.subrange(0, i as int)),
        decreases ms.len() - i,
    {
        let sub = expand_member(&ms[i], rule);
        proof {
            let next = ms@.subrange(0, i + 1);
            assert(next.subrange(0, i as int) == ms@.subrange(0, i as int));
            assert(next[i as int] == ms@[i as int]);
        }
        append_all(&mut out, sub);
        i += 1;
    }
    proof { assert(ms@.subrange(0, ms.len() as int) == ms@); }
    out
}

fn expand_trait<R: Rule>(ms: &Vec<TraitMember>, rule: &R) -> (r: Vec<Suggestion>)
    ensures
        views(r@) == visit_trait(*rule, ms@),
    decreases ms,
{
    let mut out: Vec<Suggestion> = Vec::new();
    let mut i: usize = 0;
    while i < ms.len()
        invariant
            i <= ms.len(),
            views(out@) == visit_trait(*rule, ms@.subrange(0, i as int)),
        decreases ms.len() - i,
    {
        let sub = expand_trait_member(&ms[i], rule);
        proof {
            let next = ms@.subrange(0, i + 1);
            assert(next.subrange(0, i as int) == ms@.subrange(0, i as int));
            assert(next[i as int] == ms@[i as int]);
        }
        append_all(&mut out, sub);
        i += 1;
    }
    proof { assert(ms@.subrange(0, ms.len() as int) == ms@); }
    out
}

/// Applies `rule` to `statement` and to every statement nested in it, in pre-order.
pub fn expand<R: Rule>(statement: &Statement, rule: &R) -> (r: Vec<Suggestion>)
    ensures
        views(r@) == visit(*rule, *statement),
    decreases statement,
{
    let mut out = rule.validate(statement);
    let nested = match statement {
        Statement::If { body } => expand_body(body, rule),
        Statement::While { body } => expand_body(body, rule),
        Statement::For { body } => expand_body(body, rule),
        Statement::Foreach { body } => expand_body(body, rule),
        Statement::Switch { cases } => expand_cases(cases, rule),
        Statement::Try { body, catches, finally } => {
            let mut v = expand_seq(body, rule);
            append_all(&mut v, expand_catches(catches, rule));
            match finally {
                Some(f) => append_all(&mut v, expand_seq(f, rule)),
                None => {
                    proof { assert(views(Seq::<Suggestion>::empty()) =~= Seq::empty()); }
                },
            }
            v
        },
        Statement::Block { statements } => expand_seq(statements, rule),
        Statement::Class { members } => expand_class(members, rule),
        Statement::Trait { members } => expand_trait(members, rule),
        Statement::Namespace { statements, .. } => expand_seq(statements, rule),
        _ => {
            proof { assert(views(Seq::<Suggestion>::empty()) =~= Seq::empty()); }
            Vec::new()
        },
    };
    append_all(&mut out, nested);
    out
}

} // verus!

verus! {

/// The rules that ship with the library, dispatched by pattern match.
pub enum BuiltinRule {
    E0010(E0010),
}

impl Rule for BuiltinRule {
    open spec fn spec_validate(&self, statement: Statement) -> Seq<SuggestionView> {
        match self {
            BuiltinRule::E0010(r) => r.spec_validate(statement),
        }
    }

    fn validate(&self, statement: &Statement) -> (r: Vec<Suggestion>) {
        match self {
            BuiltinRule::E0010(r) => r.validate(statement),
        }
    }
}

/// What the rules of `rules` report for `s`, rule by rule, each in pre-order.
pub open spec fn analysis<R: Rule>(rules: Seq<R>, s: Statement) -> Seq<SuggestionView>
    decreases rules.len(),
{
    if rules.len() == 0 {
        Seq::empty()
    } else {
        analysis(rules.drop_last(), s) + visit(rules.last(), s)
    }
}

/// Whether `id` is one of the identifiers in `disable`.
pub open spec fn is_disabled(disable: Seq<String>, id: Seq<char>) -> bool {
    exists|i: int| 0 <= i < disable.len() && #[trigger] disable[i]@ == id
}

/// The active rules for a disable-list, ordered by identifier: every built-in
/// rule whose identifier the list does not name.
pub open spec fn registry(disable: Seq<String>) -> Seq<(Seq<char>, BuiltinRule)> {
    if is_disabled(disable, "E0010"@) {
        Seq::empty()
    } else {
        seq![("E0010"@, BuiltinRule::E0010(E0010 {}))]
    }
}

/// Whether `disable` names `id`.
fn contains_id(disable: &Vec<String>, id: &String) -> (r: bool)
    ensures
        r == is_disabled(disable@, id@),
{
    let mut i: usize = 0;
    while i < disable.len()
        invariant
            i <= disable.len(),
            forall|j: int| 0 <= j < i ==> disable@[j]@ != id@,
        decreases disable.len() - i,
    {
        if disable[i] == *id {
            return true;
        }
        i += 1;
    }
    false
}

/// The active rule set of a run, built once from a disable-list.
pub struct Analyse {
    rules: Vec<(String, BuiltinRule)>,
}

impl Analyse {
    /// The active rules with their identifiers, in the order they are applied.
    pub closed spec fn entries(&self) -> Seq<(Seq<char>, BuiltinRule)> {
        self.rules@.map_values(|e: (String, BuiltinRule)| (e.0@, e.1))
    }

    /// The active rules, in the order they are applied.
    pub open spec fn active(&self) -> Seq<BuiltinRule> {
        self.entries().map_values(|e: (Seq<char>, BuiltinRule)| e.1)
    }

    /// Builds the rule set: every built-in rule whose identifier `disable`
    /// does not name. Identifiers that name no rule are ignored.
    pub fn new(disable: Vec<String>) -> (r: Self)
        ensures
            r.entries() == registry(disable@),
    {
        let mut rules: Vec<(String, BuiltinRule)> = Vec::new();
        let id = "E0010".to_owned();
        if !contains_id(&disable, &id) {
            rules.push((id, BuiltinRule::E0010(E0010 {})));
        }
        let r = Self { rules };
        proof { assert(r.entries() =~= registry(disable@)); }
        r
    }

    /// Applies every active rule to `statement` and to every statement nested
    /// in it: grouped by rule, each group in pre-order.
    pub fn statement(&self, statement: Statement) -> (r: Vec<Suggestion>)
        ensures
            views(r@) == analysis(self.active(), statement),
    {
        let mut suggestions: Vec<Suggestion> = Vec::new();
        let mut i: usize = 0;
        proof { assert(views(suggestions@) =~= Seq::empty()); }
        while i < self.rules.len()
            invariant
                i <= self.rules.len(),
                views(suggestions@) == analysis(self.active().subrange(0, i as int), statement),
            decreases self.rules.len() - i,
        {
            let sub = expand(&statement, &self.rules[i].1);
            proof {
                let next = self.active().subrange(0, i + 1);
                assert(next.drop_last() == self.active().subrange(0, i as int));
                assert(next.last() == self.rules@[i as int].1);
            }
            append_all(&mut suggestions, sub);
            i += 1;
        }
        proof { assert(self.active().subrange(0, i as int) == self.active()); }
        suggestions
    }
}

} // verus!
