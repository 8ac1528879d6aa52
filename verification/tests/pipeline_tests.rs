use case2geojson::extract::extract_quads;
use case2geojson::model::{NodeId, ObjectTerm, QuadData, QuadObject, Statement};
use case2geojson::pipeline::{convert_statements, ConvertError};

const RDF_TYPE: &str = "http://www.w3.org/1999/02/22-rdf-syntax-ns#type";
const UCO_LOCATION: &str = "https://ontology.unifiedcyberontology.org/uco/location/Location";
const UCO_HAS_FACET: &str = "https://ontology.unifiedcyberontology.org/uco/core/hasFacet";
const UCO_LATLONG_FACET: &str =
    "https://ontology.unifiedcyberontology.org/uco/location/LatLongCoordinatesFacet";
const UCO_ADDRESS_FACET: &str =
    "https://ontology.unifiedcyberontology.org/uco/location/SimpleAddressFacet";

fn loc_pred(name: &str) -> String {
    format!("https://ontology.unifiedcyberontology.org/uco/location/{}", name)
}

fn node_stmt(subject: &str, predicate: &str, object: &str) -> Statement {
    Statement {
        subject: NodeId::Iri(subject.to_string()),
        predicate: NodeId::Iri(predicate.to_string()),
        object: ObjectTerm::Node(NodeId::Iri(object.to_string())),
        graph: None,
    }
}

fn literal_stmt(subject: &str, predicate: &str, lexical: &str) -> Statement {
    Statement {
        subject: NodeId::Iri(subject.to_string()),
        predicate: NodeId::Iri(predicate.to_string()),
        object: ObjectTerm::Literal {
            lexical: lexical.to_string(),
            datatype: None,
            language: None,
        },
        graph: None,
    }
}

fn paris_statements() -> Vec<Statement> {
    let loc = "http://example.org/kb/location-b579264d-6e30-4055-bf9b-72390364f224";
    let addr = "http://example.org/kb/simple-address-facet-258f169e-1e9c-4936-ba65-eed0f0c60788";
    let ll = "http://example.org/kb/lat-long-coordinates-facet-36126f9c-0273-48fe-ad4d-6a4e2848458f";
    vec![
        node_stmt(loc, RDF_TYPE, UCO_LOCATION),
        node_stmt(loc, UCO_HAS_FACET, addr),
        node_stmt(addr, RDF_TYPE, UCO_ADDRESS_FACET),
        literal_stmt(addr, &loc_pred("locality"), "Paris"),
        literal_stmt(addr, &loc_pred("country"), "France"),
        literal_stmt(addr, &loc_pred("postalCode"), "F-75002"),
        literal_stmt(addr, &loc_pred("street"), "38 Bad Guy Headquarters st."),
        node_stmt(loc, UCO_HAS_FACET, ll),
        node_stmt(ll, RDF_TYPE, UCO_LATLONG_FACET),
        literal_stmt(ll, &loc_pred("latitude"), "48.860346"),
        literal_stmt(ll, &loc_pred("longitude"), "2.331199"),
    ]
}

#[test]
fn paris_location_end_to_end() {
    let features = convert_statements(&paris_statements()).expect("conversion should succeed");
    assert_eq!(features.len(), 1);
    let feature = &features[0];
    let geometry = feature.geometry.as_ref().expect("geometry expected");
    let pair = geometry.coordinate_pair();
    assert_eq!(pair, vec![String::from("2.331199"), String::from("48.860346")]);
    assert_eq!(
        feature.properties,
        vec![
            (String::from("street"), String::from("38 Bad Guy Headquarters st.")),
            (String::from("locality"), String::from("Paris")),
            (String::from("postalCode"), String::from("F-75002")),
            (String::from("country"), String::from("France")),
        ],
    );
}

#[test]
fn document_without_locations_gives_empty_collection() {
    let statements = vec![
        node_stmt(
            "http://example.org/kb/file-1",
            RDF_TYPE,
            "https://ontology.unifiedcyberontology.org/uco/observable/File",
        ),
        literal_stmt("http://example.org/kb/file-1", &loc_pred("locality"), "nowhere"),
    ];
    let features = convert_statements(&statements).expect("conversion should succeed");
    assert!(features.is_empty());
}

#[test]
fn every_location_appears_as_a_feature() {
    let seattle_loc = "http://example.org/kb/location-4511219e-a924-4ba5-aee7-dfad5a2c9c05";
    let seattle_addr =
        "http://example.org/kb/simple-address-facet-59334948-00b9-4370-85b0-4dc8e07f5384";
    let mut statements = paris_statements();
    statements.push(node_stmt(seattle_loc, RDF_TYPE, UCO_LOCATION));
    statements.push(node_stmt(seattle_loc, UCO_HAS_FACET, seattle_addr));
    statements.push(node_stmt(seattle_addr, RDF_TYPE, UCO_ADDRESS_FACET));
    statements.push(literal_stmt(seattle_addr, &loc_pred("locality"), "Seattle"));
    let features = convert_statements(&statements).expect("conversion should succeed");
    assert_eq!(features.len(), 2);
    let mut localities: Vec<String> = features
        .iter()
        .flat_map(|f| f.properties.iter())
        .filter(|p| p.0 == "locality")
        .map(|p| p.1.clone())
        .collect();
    localities.sort();
    assert_eq!(localities, vec![String::from("Paris"), String::from("Seattle")]);
}

#[test]
fn location_without_facets_still_yields_a_feature() {
    let statements = vec![node_stmt(
        "http://example.org/kb/location-bare",
        RDF_TYPE,
        UCO_LOCATION,
    )];
    let features = convert_statements(&statements).expect("conversion should succeed");
    assert_eq!(features.len(), 1);
    assert!(features[0].geometry.is_none());
    assert!(features[0].properties.is_empty());
}

#[test]
fn conversion_is_deterministic() {
    let statements = paris_statements();
    let first = convert_statements(&statements).expect("conversion should succeed");
    let second = convert_statements(&statements).expect("conversion should succeed");
    assert_eq!(first, second);
}

#[test]
fn blank_subject_is_fatal() {
    let mut statements = paris_statements();
    statements.insert(
        1,
        Statement {
            subject: NodeId::Blank("b0".to_string()),
            predicate: NodeId::Iri(RDF_TYPE.to_string()),
            object: ObjectTerm::Node(NodeId::Iri(UCO_LOCATION.to_string())),
            graph: None,
        },
    );
    let err = convert_statements(&statements).expect_err("conversion should fail");
    assert_eq!(err, ConvertError::UnresolvableStatement { index: 1 });
}

#[test]
fn unparseable_iri_is_fatal() {
    let statements = vec![node_stmt("not an iri", RDF_TYPE, UCO_LOCATION)];
    let err = convert_statements(&statements).expect_err("conversion should fail");
    assert_eq!(err, ConvertError::InvalidIri { index: 0 });
}

#[test]
fn named_graph_statements_are_discarded() {
    let mut stmt = node_stmt("http://example.org/kb/location-named", RDF_TYPE, UCO_LOCATION);
    stmt.graph = Some(NodeId::Iri("http://example.org/kb/graph-1".to_string()));
    let features = convert_statements(&vec![stmt]).expect("conversion should succeed");
    assert!(features.is_empty());
}

#[test]
fn extraction_drops_datatype_and_keeps_lexical_value() {
    let statements = vec![Statement {
        subject: NodeId::Iri("http://example.org/kb/ll-1".to_string()),
        predicate: NodeId::Iri(loc_pred("latitude")),
        object: ObjectTerm::Literal {
            lexical: "48.860346".to_string(),
            datatype: Some("http://www.w3.org/2001/XMLSchema#decimal".to_string()),
            language: None,
        },
        graph: None,
    }];
    let quads = extract_quads(&statements).expect("extraction should succeed");
    assert_eq!(
        quads,
        vec![QuadData {
            subject: "http://example.org/kb/ll-1".to_string(),
            predicate: loc_pred("latitude"),
            object: QuadObject::Literal("48.860346".to_string()),
        }],
    );
}

#[test]
fn extraction_skips_named_graph_statements() {
    let mut named = node_stmt("http://example.org/kb/a", RDF_TYPE, UCO_LOCATION);
    named.graph = Some(NodeId::Blank("g0".to_string()));
    let statements = vec![named, node_stmt("http://example.org/kb/b", RDF_TYPE, UCO_LOCATION)];
    let quads = extract_quads(&statements).expect("extraction should succeed");
    assert_eq!(quads.len(), 1);
    assert_eq!(quads[0].subject, "http://example.org/kb/b");
}
