//! The whole conversion run: expanded statements in, output features out.

use vstd::prelude::*;

use vstd::multiset::Multiset;

use crate::extract::{extract_ok, extract_quads, quads_of};
use crate::feature::{build_features, feature_matches, Feature, Solution};
use crate::model::{in_default_graph, quad_views, resolvable, Statement};
use crate::store::{
    binding_text, bindings_of_rows, load_quads, location_solutions, quad_iri_ok, quad_set,
    row_bindings, store_new, store_select, LoadError, LOCATION_QUERY_TEXT,
};

use oxigraph::sparql::QuerySolution;

verus! {

/// Why a conversion run failed. Every failure is fatal to the whole run:
/// no partial feature list is returned.
#[derive(Clone, Debug, PartialEq, Eq)]
pub enum ConvertError {
    /// A default-graph statement whose subject, predicate or node-valued
    /// object is not an absolute identifier; `index` is the position of
    /// the first such statement.
    UnresolvableStatement { index: usize },
    /// A quad field the store's identifier parser refused; `index` is the
    /// position of the first such quad.
    InvalidIri { index: usize },
    /// The store could not be created or reported a storage fault.
    Store,
    /// The engine failed to evaluate the fixed location query.
    Query,
}

/// Whether an optional binding value agrees with a row's binding map at
/// one variable: bound exactly when the map has the variable, and then to
/// its display text.
pub open spec fn bound_to(b: Map<Seq<char>, Seq<char>>, var: Seq<char>, v: Option<String>) -> bool {
    match v {
        Some(text) => b.contains_key(var) && text@ == b[var],
        None => !b.contains_key(var),
    }
}

/// Whether a solution value is exactly the eight query variables read off
/// one row's binding map.
pub open spec fn solution_matches_bindings(b: Map<Seq<char>, Seq<char>>, sol: Solution) -> bool {
    &&& bound_to(b, "lLatitude"@, sol.latitude)
    &&& bound_to(b, "lLongitude"@, sol.longitude)
    &&& bound_to(b, "lAddressType"@, sol.address_type)
    &&& bound_to(b, "lCountry"@, sol.country)
    &&& bound_to(b, "lLocality"@, sol.locality)
    &&& bound_to(b, "lPostalCode"@, sol.postal_code)
    &&& bound_to(b, "lRegion"@, sol.region)
    &&& bound_to(b, "lStreet"@, sol.street)
}

/// Reads the eight query variables of one solution row. An unbound
/// variable stays `None`; a bound one carries its term's display text.
fn solution_of_row(row: &QuerySolution) -> (r: Solution)
    ensures
        solution_matches_bindings(row_bindings(*row), r),
{
    Solution {
        latitude: binding_text(row, "lLatitude"),
        longitude: binding_text(row, "lLongitude"),
        address_type: binding_text(row, "lAddressType"),
        country: binding_text(row, "lCountry"),
        locality: binding_text(row, "lLocality"),
        postal_code: binding_text(row, "lPostalCode"),
        region: binding_text(row, "lRegion"),
        street: binding_text(row, "lStreet"),
    }
}

/// Whether a feature is built from one row's binding map: some solution
/// value reads the map's eight variables, and the feature is exactly the
/// one that solution calls for.
pub open spec fn feature_of_row(b: Map<Seq<char>, Seq<char>>, f: Feature) -> bool {
    exists|sol: Solution| solution_matches_bindings(b, sol) && feature_matches(sol, f)
}

/// Whether a feature list is exactly what one sequence of binding maps
/// calls for, where those maps are, as a multiset, the solutions of the
/// fixed query over the given quads: one feature per solution row, in the
/// sequence's order, each built from its row's bindings.
pub open spec fn bindings_match(
    quads: Set<(Seq<char>, Seq<char>, bool, Seq<char>)>,
    bindings: Seq<Map<Seq<char>, Seq<char>>>,
    features: Seq<Feature>,
) -> bool {
    &&& bindings.to_multiset() == location_solutions(quads)
    &&& features.len() == bindings.len()
    &&& forall|i: int|
        0 <= i < bindings.len() ==> feature_of_row(bindings[i], #[trigger] features[i])
}

/// Whether a feature list holds exactly one feature per solution of the
/// fixed query over the given quads, each built from its row's bindings,
/// in the engine's row order.
pub open spec fn features_of_solutions(
    quads: Set<(Seq<char>, Seq<char>, bool, Seq<char>)>,
    features: Seq<Feature>,
) -> bool {
    exists|bindings: Seq<Map<Seq<char>, Seq<char>>>|
        #[trigger] bindings_match(quads, bindings, features)
}

/// Law: on success the pipeline emits exactly one feature per solution of
/// the fixed query over the extracted quads — no solution row is dropped
/// and none is duplicated.
pub proof fn lemma_one_feature_per_solution(
    quads: Set<(Seq<char>, Seq<char>, bool, Seq<char>)>,
    features: Seq<Feature>,
)
    requires
        features_of_solutions(quads, features),
    ensures
        features.len() == location_solutions(quads).len(),
{
    broadcast use vstd::seq_lib::group_to_multiset_ensures;

    let bindings = choose|bindings: Seq<Map<Seq<char>, Seq<char>>>|
        #[trigger] bindings_match(quads, bindings, features);
    assert(bindings.len() == bindings.to_multiset().len());
}

/// Runs the whole conversion: extracts one quad per default-graph
/// statement, loads them into a fresh store, evaluates the fixed location
/// query, and builds exactly one feature per solution row.
///
/// The run fails on the first unresolvable statement, on the first quad
/// the store refuses, or where the outside store or engine reports a
/// fault; otherwise the returned features are exactly the built features
/// of the query's solution rows over the extracted quads, one per row, in
/// the engine's row order.
pub fn convert_statements(statements: &Vec<Statement>) -> (r: Result<Vec<Feature>, ConvertError>)
    ensures
        r matches Err(ConvertError::UnresolvableStatement { .. }) <==> !extract_ok(statements@),
        r matches Err(ConvertError::UnresolvableStatement { index }) ==> {
            &&& index < statements@.len()
            &&& in_default_graph(statements@[index as int])
            &&& !resolvable(statements@[index as int])
            &&& forall|j: int|
                0 <= j < index ==> (in_default_graph(#[trigger] statements@[j])
                    ==> resolvable(statements@[j]))
        },
        r matches Err(ConvertError::InvalidIri { index }) ==> {
            &&& index < quads_of(statements@).len()
            &&& !quad_iri_ok(quads_of(statements@)[index as int])
            &&& forall|j: int| 0 <= j < index ==> quad_iri_ok(#[trigger] quads_of(statements@)[j])
        },
        (extract_ok(statements@) && exists|i: int|
            0 <= i < quads_of(statements@).len() && !quad_iri_ok(
                #[trigger] quads_of(statements@)[i],
            )) ==> r is Err,
        r matches Err(ConvertError::Query { .. }) ==> extract_ok(statements@) && forall|i: int|
            0 <= i < quads_of(statements@).len() ==> quad_iri_ok(
                #[trigger] quads_of(statements@)[i],
            ),
        r is Ok ==> extract_ok(statements@),
        r is Ok ==> forall|i: int|
            0 <= i < quads_of(statements@).len() ==> quad_iri_ok(
                #[trigger] quads_of(statements@)[i],
            ),
        r matches Ok(features) ==> features_of_solutions(
            quad_set(quads_of(statements@)),
            features@,
        ),
{
    let quads = match extract_quads(statements) {
        Ok(quads) => quads,
        Err(e) => {
            return Err(ConvertError::UnresolvableStatement { index: e.index });
        },
    };
    let mut store = match store_new() {
        Ok(store) => store,
        Err(_) => {
            return Err(ConvertError::Store);
        },
    };
    match load_quads(&mut store, &quads) {
        Ok(()) => (),
        Err(LoadError::InvalidIri { index }) => {
            return Err(ConvertError::InvalidIri { index });
        },
        Err(LoadError::Storage) => {
            return Err(ConvertError::Store);
        },
    }
    proof {
        assert forall|i: int|
            0 <= i < quads_of(statements@).len() implies quad_iri_ok(
            #[trigger] quads_of(statements@)[i],
        ) by {
            assert(quads_of(statements@)[i] == quad_views(quads@)[i]);
            assert(quad_views(quads@)[i] == quads@[i]@);
        }
        assert(Set::<(Seq<char>, Seq<char>, bool, Seq<char>)>::empty().union(
            quad_set(quad_views(quads@)),
        ) =~= quad_set(quad_views(quads@)));
    }
    let rows = match store_select(&store, LOCATION_QUERY_TEXT) {
        Ok(rows) => rows,
        Err(_) => {
            return Err(ConvertError::Query);
        },
    };
    let mut solutions: Vec<Solution> = Vec::new();
    let n = rows.len();
    let mut i: usize = 0;
    while i < n
        invariant
            n == rows@.len(),
            i <= n,
            solutions@.len() == i,
            forall|j: int|
                0 <= j < i ==> solution_matches_bindings(
                    row_bindings(rows@[j]),
                    #[trigger] solutions@[j],
                ),
        decreases n - i,
    {
        solutions.push(solution_of_row(&rows[i]));
        i += 1;
    }
    let features = build_features(&solutions);
    proof {
        let quads_view = quad_set(quads_of(statements@));
        let bindings = bindings_of_rows(rows@);
        assert(quad_set(quad_views(quads@)) == quads_view);
        assert(bindings.to_multiset() == location_solutions(quads_view));
        assert forall|j: int|
            0 <= j < bindings.len() implies feature_of_row(bindings[j], #[trigger] features@[j]) by {
            assert(bindings[j] == row_bindings(rows@[j]));
            assert(solution_matches_bindings(bindings[j], solutions@[j]));
            assert(feature_matches(solutions@[j], features@[j]));
        }
        assert(bindings_match(quads_view, bindings, features@));
        assert(features_of_solutions(quads_view, features@));
    }
    Ok(features)
}

} // verus!

