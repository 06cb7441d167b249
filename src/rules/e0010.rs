use vstd::prelude::*;
use crate::analyse::{Rule, Suggestion, SuggestionView, views};
use crate::ast::Statement;

verus! {

/// The rule registered as `E0010`; as it stands it reports no finding for
/// any statement.
pub struct E0010 {}

impl Rule for E0010 {
    open spec fn spec_validate(&self, statement: Statement) -> Seq<SuggestionView> {
        Seq::empty()
    }

    fn validate(&self, statement: &Statement) -> (r: Vec<Suggestion>) {
        let out: Vec<Suggestion> = Vec::new();
        proof { assert(views(out@) =~= Seq::empty()); }
        out
    }
}

} // verus!
