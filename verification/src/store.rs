//! The graph store adapter: trusted declarations around the outside
//! pattern-matching engine, and the verified loading of quads into it.

use vstd::prelude::*;

use crate::model::{quad_views, QuadData, QuadObject};

use vstd::multiset::Multiset;

use oxigraph::model::GraphNameRef;
use oxigraph::model::LiteralRef;
use oxigraph::model::NamedNodeRef;
use oxigraph::model::QuadRef;
use oxigraph::sparql::EvaluationError;
use oxigraph::sparql::QueryResults;
use oxigraph::sparql::QuerySolution;
use oxigraph::store::StorageError;
use oxigraph::store::Store;

verus! {

#[verifier::external_type_specification]
#[verifier::external_body]
pub struct ExStore(Store);

#[verifier::external_type_specification]
#[verifier::external_body]
pub struct ExStorageError(StorageError);

#[verifier::external_type_specification]
#[verifier::external_body]
pub struct ExEvaluationError(EvaluationError);

#[verifier::external_type_specification]
#[verifier::external_body]
pub struct ExQuerySolution(QuerySolution);

/// The graph store. Its one field is private to this module, so every
/// `GraphStore` value the contracts below quantify over was created empty
/// by `store_new` and changed only by `store_insert`: its dataset holds
/// exactly the default-graph quads that `store_quads` names, every one
/// with named-node subject and predicate and a named-node or plain string
/// literal object.
pub struct GraphStore {
    store: Store,
}

/// The default-graph quads a store holds, each in the view form of
/// `QuadData`: (subject, predicate, object-is-literal, object value).
pub uninterp spec fn store_quads(s: GraphStore) -> Set<(Seq<char>, Seq<char>, bool, Seq<char>)>;

/// Whether a string is accepted as an absolute IRI by the store's
/// identifier parser.
pub uninterp spec fn is_iri(s: Seq<char>) -> bool;

/// The variable bindings one solution row holds: a map from variable name
/// to the display text of the bound term; an unbound variable is not in
/// the map.
pub uninterp spec fn row_bindings(row: QuerySolution) -> Map<Seq<char>, Seq<char>>;

/// The solution multiset that the query language fixes for the fixed
/// location query over a dataset holding exactly the given default-graph
/// quads. The query holds no random, clock or other impure function, so
/// its solutions are a function of the dataset; only the order rows come
/// back in is the engine's, and that carries no name.
pub uninterp spec fn location_solutions(
    quads: Set<(Seq<char>, Seq<char>, bool, Seq<char>)>,
) -> Multiset<Map<Seq<char>, Seq<char>>>;

/// The fixed location pattern: every node typed `Location`, optionally
/// joined to the latitude and longitude literals of a
/// `LatLongCoordinatesFacet` and to the six address literals of a
/// `SimpleAddressFacet`, each sub-pattern independently optional.
pub const LOCATION_QUERY_TEXT: &'static str = "\
PREFIX uco-core: <https://ontology.unifiedcyberontology.org/uco/core/>\n\
PREFIX uco-location: <https://ontology.unifiedcyberontology.org/uco/location/>\n\
SELECT ?lLatitude ?lLongitude ?lAddressType ?lCountry ?lLocality ?lPostalCode ?lRegion ?lStreet\n\
WHERE\n\
{\n\
    ?nLocation a uco-location:Location .\n\
    OPTIONAL\n\
    {\n\
        ?nLocation uco-core:hasFacet ?nLatLongFacet .\n\
        ?nLatLongFacet a uco-location:LatLongCoordinatesFacet .\n\
        OPTIONAL { ?nLatLongFacet uco-location:latitude ?lLatitude . }\n\
        OPTIONAL { ?nLatLongFacet uco-location:longitude ?lLongitude . }\n\
    }\n\
    OPTIONAL {\n\
        ?nLocation uco-core:hasFacet ?nSimpleAddressFacet .\n\
        ?nSimpleAddressFacet a uco-location:SimpleAddressFacet .\n\
        OPTIONAL { ?nSimpleAddressFacet uco-location:addressType ?lAddressType . }\n\
        OPTIONAL { ?nSimpleAddressFacet uco-location:country ?lCountry . }\n\
        OPTIONAL { ?nSimpleAddressFacet uco-location:locality ?lLocality . }\n\
        OPTIONAL { ?nSimpleAddressFacet uco-location:postalCode ?lPostalCode . }\n\
        OPTIONAL { ?nSimpleAddressFacet uco-location:region ?lRegion . }\n\
        OPTIONAL { ?nSimpleAddressFacet uco-location:street ?lStreet . }\n\
    }\n\
}\n";

/// The binding maps of a row sequence, in row order.
pub open spec fn bindings_of_rows(rows: Seq<QuerySolution>) -> Seq<Map<Seq<char>, Seq<char>>> {
    rows.map_values(|row: QuerySolution| row_bindings(row))
}

/// Whether the store accepts every identifier field of a quad.
pub open spec fn quad_iri_ok(q: (Seq<char>, Seq<char>, bool, Seq<char>)) -> bool {
    &&& is_iri(q.0)
    &&& is_iri(q.1)
    &&& (!q.2 ==> is_iri(q.3))
}

/// Relies on oxigraph::model::NamedNodeRef::new: it accepts exactly the
/// strings that parse as absolute IRIs, and acceptance depends on the
/// string alone.
#[verifier::external_body]
pub(crate) fn iri_accepted(s: &str) -> (r: bool)
    ensures
        r == is_iri(s@),
{
    NamedNodeRef::new(s).is_ok()
}

/// Relies on oxigraph::store::Store::new: it creates an empty in-memory
/// store.
#[verifier::external_body]
pub(crate) fn store_new() -> (r: Result<GraphStore, StorageError>)
    ensures
        r matches Ok(s) ==> store_quads(s) == Set::<(Seq<char>, Seq<char>, bool, Seq<char>)>::empty(),
{
    Ok(GraphStore { store: Store::new()? })
}

/// Relies on oxigraph::store::Store::insert: it adds one quad to the
/// default graph with set semantics, returning whether the quad was newly
/// added (a duplicate is a no-op reported as `false`). The insert runs in
/// a transaction that is rolled back on failure, so on an error the store
/// is unchanged.
#[verifier::external_body]
pub(crate) fn store_insert(store: &mut GraphStore, q: &QuadData) -> (r: Result<bool, StorageError>)
    requires
        quad_iri_ok(q@),
    ensures
        r matches Ok(added) ==> {
            &&& store_quads(*final(store)) == store_quads(*old(store)).insert(q@)
            &&& added == !store_quads(*old(store)).contains(q@)
        },
        r is Err ==> store_quads(*final(store)) == store_quads(*old(store)),
{
    let s = NamedNodeRef::new(&q.subject).expect("subject accepted as IRI");
    let p = NamedNodeRef::new(&q.predicate).expect("predicate accepted as IRI");
    match &q.object {
        QuadObject::Node(iri) => {
            let o = NamedNodeRef::new(iri).expect("object accepted as IRI");
            store.store.insert(QuadRef::new(s, p, o, GraphNameRef::DefaultGraph))
        },
        QuadObject::Literal(lexical) => {
            let o = LiteralRef::new_simple_literal(lexical);
            store.store.insert(QuadRef::new(s, p, o, GraphNameRef::DefaultGraph))
        },
    }
}

/// Relies on oxigraph::store::Store::query: it evaluates the fixed
/// location query — the only query text admitted here — over the store's
/// dataset; the solution rows, as a multiset of binding maps, are fixed by
/// the store's quads, and only their order is the engine's.
#[verifier::external_body]
pub(crate) fn store_select(store: &GraphStore, query: &str) -> (r: Result<
    Vec<QuerySolution>,
    EvaluationError,
>)
    requires
        query@ == LOCATION_QUERY_TEXT@,
    ensures
        r matches Ok(rows) ==> bindings_of_rows(rows@).to_multiset() == location_solutions(
            store_quads(*store),
        ),
{
    match store.store.query(query) {
        Ok(QueryResults::Solutions(rows)) => rows.collect(),
        Ok(_) => Ok(Vec::new()),
        Err(e) => Err(e),
    }
}

/// Relies on sparesults::QuerySolution::get and on the bound terms'
/// display form (an IRI in angle brackets; a simple literal's lexical
/// value wrapped in one leading and one trailing double-quote character,
/// with backslash escapes applied inside the value to quote, backslash
/// and control characters): it returns the display text of the term
/// bound to the named variable, or `None` where the variable is unbound
/// in this row.
#[verifier::external_body]
pub(crate) fn binding_text(row: &QuerySolution, name: &str) -> (r: Option<String>)
    ensures
        r is Some <==> row_bindings(*row).contains_key(name@),
        r matches Some(text) ==> text@ == row_bindings(*row)[name@],
{
    row.get(name).map(|term| term.to_string())
}

/// Why loading the extracted quads into the store failed.
#[derive(Clone, Debug, PartialEq, Eq)]
pub enum LoadError {
    /// A quad field the store refused as an IRI; `index` is the position
    /// of the first such quad.
    InvalidIri { index: usize },
    /// The store reported a storage fault.
    Storage,
}

/// The set of quads a quad sequence loads into a store.
pub open spec fn quad_set(qs: Seq<(Seq<char>, Seq<char>, bool, Seq<char>)>) -> Set<
    (Seq<char>, Seq<char>, bool, Seq<char>),
>
    decreases qs.len(),
{
    if qs.len() == 0 {
        Set::empty()
    } else {
        quad_set(qs.drop_last()).insert(qs.last())
    }
}

/// Inserts the extracted quads into the store, in input order, with set
/// semantics. Succeeds when the store accepts every identifier field of
/// every quad and no storage fault occurs — always, for an empty quad
/// sequence — and the store then holds exactly its old quads and the
/// given ones. Fails on the first quad the store's identifier parser
/// refuses, with the store holding its old quads and the quads before
/// that one; a storage fault likewise leaves the store with its old quads
/// and some prefix of the given ones.
pub fn load_quads(store: &mut GraphStore, quads: &Vec<QuadData>) -> (r: Result<(), LoadError>)
    ensures
        quads@.len() == 0 ==> r is Ok,
        r is Ok ==> {
            &&& forall|i: int|
                0 <= i < quads@.len() ==> quad_iri_ok(#[trigger] quads@[i]@)
            &&& store_quads(*final(store)) == store_quads(*old(store)).union(
                quad_set(quad_views(quads@)),
            )
        },
        r matches Err(LoadError::InvalidIri { index }) ==> {
            &&& index < quads@.len()
            &&& !quad_iri_ok(quads@[index as int]@)
            &&& forall|j: int| 0 <= j < index ==> quad_iri_ok(#[trigger] quads@[j]@)
            &&& store_quads(*final(store)) == store_quads(*old(store)).union(
                quad_set(quad_views(quads@.take(index as int))),
            )
        },
        r matches Err(LoadError::Storage { .. }) ==> exists|k: int|
            0 <= k <= quads@.len() && store_quads(*final(store)) == store_quads(
                *old(store),
            ).union(#[trigger] quad_set(quad_views(quads@.take(k)))),
        (exists|i: int|
            0 <= i < quads@.len() && !quad_iri_ok(#[trigger] quads@[i]@)) ==> r is Err,
{
    let ghost old_quads = store_quads(*store);
    let n = quads.len();
    let mut i: usize = 0;
    while i < n
        invariant
            n == quads@.len(),
            i <= n,
            old_quads == store_quads(*old(store)),
            forall|j: int| 0 <= j < i ==> quad_iri_ok(#[trigger] quads@[j]@),
            store_quads(*store) == old_quads.union(quad_set(quad_views(quads@.take(i as int)))),
        decreases n - i,
    {
        let quad = &quads[i];
        let subject_ok = iri_accepted(quad.subject.as_str());
        let predicate_ok = iri_accepted(quad.predicate.as_str());
        let object_ok = match &quad.object {
            QuadObject::Node(iri) => iri_accepted(iri.as_str()),
            QuadObject::Literal(_) => true,
        };
        if !(subject_ok && predicate_ok && object_ok) {
            return Err(LoadError::InvalidIri { index: i });
        }
        let insert_result = store_insert(store, quad);
        if insert_result.is_err() {
            proof {
                assert(exists|k: int|
                    0 <= k <= quads@.len() && store_quads(*store) == old_quads.union(
                        #[trigger] quad_set(quad_views(quads@.take(k))),
                    )) by {
                    assert(0 <= i as int <= quads@.len() && store_quads(*store)
                        == old_quads.union(quad_set(quad_views(quads@.take(i as int)))));
                }
            }
            return Err(LoadError::Storage);
        }
        proof {
            assert(quad_views(quads@.take(i + 1)).drop_last() =~= quad_views(
                quads@.take(i as int),
            ));
            assert(quad_views(quads@.take(i + 1)).last() == quads@[i as int]@);
            assert(old_quads.union(quad_set(quad_views(quads@.take(i + 1)))) =~= old_quads.union(
                quad_set(quad_views(quads@.take(i as int))),
            ).insert(quads@[i as int]@));
        }
        i += 1;
    }
    proof {
        assert(quads@.take(n as int) =~= quads@);
    }
    Ok(())
}

} // verus!

