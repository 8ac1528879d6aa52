//! Translation of semantic-graph case records into geospatial features.
//!
//! The pipeline takes the expanded statement sequence of a linked-data
//! document, loads it as quads into a graph store, runs the fixed
//! location/facet pattern query, and builds one output feature per solution
//! row: a point geometry when both coordinates are bound, and one property
//! per bound address field.

pub mod extract;
pub mod feature;
pub mod model;
pub mod pipeline;
pub mod store;
