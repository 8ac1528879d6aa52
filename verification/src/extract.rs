//! Quad extraction: walks the expanded statement sequence once and turns
//! every default-graph statement into exactly one store-bound quad.
//!
//! The pipeline answers only for the default graph context, so a statement
//! in a named context is discarded here, by stated contract — not folded
//! into the default graph, and not skipped silently.

use vstd::prelude::*;

use crate::model::{
    in_default_graph, quad_repr, quad_views, resolvable, NodeId, ObjectTerm, QuadData, QuadObject,
    Statement,
};

verus! {

/// Raised when a default-graph statement's subject, predicate or
/// node-valued object is not an absolute identifier. `index` is the
/// position of the first such statement.
#[derive(Clone, Debug, PartialEq, Eq)]
pub struct ExtractError {
    pub index: usize,
}

/// Whether the whole statement sequence extracts without error: every
/// default-graph statement is resolvable.
pub open spec fn extract_ok(stmts: Seq<Statement>) -> bool {
    forall|i: int|
        0 <= i < stmts.len() ==> (in_default_graph(#[trigger] stmts[i]) ==> resolvable(stmts[i]))
}

/// The quads a statement sequence extracts to, in view form: one per
/// default-graph statement, in input order; named-graph statements are
/// discarded.
pub open spec fn quads_of(stmts: Seq<Statement>) -> Seq<(Seq<char>, Seq<char>, bool, Seq<char>)>
    decreases stmts.len(),
{
    if stmts.len() == 0 {
        Seq::empty()
    } else if in_default_graph(stmts.last()) {
        quads_of(stmts.drop_last()).push(quad_repr(stmts.last()))
    } else {
        quads_of(stmts.drop_last())
    }
}

/// Extracts the store-bound quads of a statement sequence.
///
/// Succeeds exactly when every default-graph statement is resolvable, and
/// then yields one quad per default-graph statement, in input order, with
/// each literal reduced to its lexical value. Fails on the first
/// default-graph statement whose subject, predicate or node-valued object
/// is not an absolute identifier.
pub fn extract_quads(statements: &Vec<Statement>) -> (r: Result<Vec<QuadData>, ExtractError>)
    ensures
        r is Ok <==> extract_ok(statements@),
        r matches Ok(quads) ==> quad_views(quads@) == quads_of(statements@),
        r matches Err(e) ==> {
            &&& e.index < statements@.len()
            &&& in_default_graph(statements@[e.index as int])
            &&& !resolvable(statements@[e.index as int])
            &&& forall|j: int|
                0 <= j < e.index ==> (in_default_graph(#[trigger] statements@[j])
                    ==> resolvable(statements@[j]))
        },
{
    let mut quads: Vec<QuadData> = Vec::new();
    let n = statements.len();
    let mut i: usize = 0;
    while i < n
        invariant
            n == statements@.len(),
            i <= n,
            quad_views(quads@) == quads_of(statements@.take(i as int)),
            forall|j: int|
                0 <= j < i ==> (in_default_graph(#[trigger] statements@[j])
                    ==> resolvable(statements@[j])),
        decreases n - i,
    {
        let stmt = &statements[i];
        proof {
            assert(statements@.take(i + 1).drop_last() =~= statements@.take(i as int));
            assert(statements@.take(i + 1).last() == statements@[i as int]);
        }
        if stmt.graph.is_none() {
            let subject = match &stmt.subject {
                NodeId::Iri(iri) => iri.clone(),
                NodeId::Blank(_) => {
                    return Err(ExtractError { index: i });
                },
            };
            let predicate = match &stmt.predicate {
                NodeId::Iri(iri) => iri.clone(),
                NodeId::Blank(_) => {
                    return Err(ExtractError { index: i });
                },
            };
            let object = match &stmt.object {
                ObjectTerm::Node(NodeId::Iri(iri)) => QuadObject::Node(iri.clone()),
                ObjectTerm::Node(NodeId::Blank(_)) => {
                    return Err(ExtractError { index: i });
                },
                ObjectTerm::Literal { lexical, .. } => QuadObject::Literal(lexical.clone()),
            };
            let quad = QuadData { subject, predicate, object };
            proof {
                assert(quad@ == quad_repr(statements@[i as int]));
                assert(quad_views(quads@).push(quad@) =~= quad_views(quads@.push(quad)));
            }
            quads.push(quad);
        }
        i += 1;
    }
    proof {
        assert(statements@.take(n as int) =~= statements@);
    }
    Ok(quads)
}

} // verus!
