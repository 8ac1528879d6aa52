//! The statement and quad shapes the pipeline works on.

use vstd::prelude::*;

verus! {

/// A node identifier: an absolute IRI, or a blank-node label that was
/// assigned by the expander and cannot stand in a store-bound quad.
#[derive(Clone, Debug, PartialEq, Eq)]
pub enum NodeId {
    Iri(String),
    Blank(String),
}

/// The object position of an expanded statement: a node reference, or a
/// literal carrying its lexical value with an optional datatype identifier
/// and an optional language tag.
#[derive(Clone, Debug, PartialEq, Eq)]
pub enum ObjectTerm {
    Node(NodeId),
    Literal { lexical: String, datatype: Option<String>, language: Option<String> },
}

/// One statement of the expanded document. `graph` is `None` for the
/// default graph context and `Some` for a named context.
#[derive(Clone, Debug, PartialEq, Eq)]
pub struct Statement {
    pub subject: NodeId,
    pub predicate: NodeId,
    pub object: ObjectTerm,
    pub graph: Option<NodeId>,
}

/// The object of a store-bound quad: a node IRI, or a literal reduced to
/// its lexical value (datatype and language tag are dropped on extraction).
#[derive(Clone, Debug, PartialEq, Eq)]
pub enum QuadObject {
    Node(String),
    Literal(String),
}

/// A store-bound quad. Subject and predicate are absolute IRIs; every quad
/// belongs to the default graph context.
#[derive(Clone, Debug, PartialEq, Eq)]
pub struct QuadData {
    pub subject: String,
    pub predicate: String,
    pub object: QuadObject,
}

impl View for QuadData {
    /// (subject, predicate, object-is-literal, object value).
    type V = (Seq<char>, Seq<char>, bool, Seq<char>);

    open spec fn view(&self) -> Self::V {
        (
            self.subject@,
            self.predicate@,
            self.object is Literal,
            match self.object {
                QuadObject::Node(iri) => iri@,
                QuadObject::Literal(lexical) => lexical@,
            },
        )
    }
}

/// The views of a quad sequence, in order.
pub open spec fn quad_views(quads: Seq<QuadData>) -> Seq<(Seq<char>, Seq<char>, bool, Seq<char>)> {
    quads.map_values(|q: QuadData| q@)
}

/// Whether a statement belongs to the default graph context; only these
/// become quads.
pub open spec fn in_default_graph(s: Statement) -> bool {
    s.graph is None
}

/// Whether a statement's subject, predicate and node-valued object are all
/// absolute identifiers. A default-graph statement that fails this is a
/// fatal input error.
pub open spec fn resolvable(s: Statement) -> bool {
    &&& s.subject is Iri
    &&& s.predicate is Iri
    &&& (s.object matches ObjectTerm::Node(n) ==> n is Iri)
}

/// The quad a resolvable statement extracts to, in view form.
pub open spec fn quad_repr(s: Statement) -> (Seq<char>, Seq<char>, bool, Seq<char>) {
    (
        s.subject->Iri_0@,
        s.predicate->Iri_0@,
        s.object matches ObjectTerm::Literal { .. },
        match s.object {
            ObjectTerm::Node(n) => n->Iri_0@,
            ObjectTerm::Literal { lexical, .. } => lexical@,
        },
    )
}

} // verus!
