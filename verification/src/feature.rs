//! Feature building: one solution row in, one feature out.

use vstd::prelude::*;

verus! {

/// Strips the store's display wrapping from a bound literal: where the
/// first character is a double quote, that leading quote is removed, and
/// the trailing character is removed only where it is itself a double
/// quote; any other string is returned unchanged.
pub open spec fn unquoted(s: Seq<char>) -> Seq<char> {
    if s.len() == 0 || s[0] != '"' {
        s
    } else {
        let t = s.subrange(1, s.len() as int);
        if t.len() > 0 && t[t.len() - 1] == '"' {
            t.drop_last()
        } else {
            t
        }
    }
}

/// Recovers a literal's lexical value from the display form the store
/// round-trips it through, which wraps the value in one leading and one
/// trailing double-quote character. Each of the two quotes is stripped
/// only where it is present.
pub fn unquote_string(s: String) -> (r: String)
    ensures
        r@ == unquoted(s@),
{
    let len = s.as_str().unicode_len();
    if len == 0 {
        return s;
    }
    if s.as_str().get_char(0) != '"' {
        return s;
    }
    if len >= 2 && s.as_str().get_char(len - 1) == '"' {
        let inner = s.as_str().substring_char(1, len - 1);
        proof {
            assert(inner@ =~= unquoted(s@));
        }
        inner.to_owned()
    } else {
        let inner = s.as_str().substring_char(1, len);
        proof {
            assert(inner@ =~= unquoted(s@));
        }
        inner.to_owned()
    }
}

/// One solution row of the location query: each variable is either bound
/// to a term's display string or unbound.
#[derive(Clone, Debug, PartialEq, Eq)]
pub struct Solution {
    pub latitude: Option<String>,
    pub longitude: Option<String>,
    pub address_type: Option<String>,
    pub country: Option<String>,
    pub locality: Option<String>,
    pub postal_code: Option<String>,
    pub region: Option<String>,
    pub street: Option<String>,
}

/// A point geometry, held as the two decoded coordinate lexical values.
#[derive(Clone, Debug, PartialEq, Eq)]
pub struct PointGeometry {
    pub longitude: String,
    pub latitude: String,
}

impl PointGeometry {
    /// The coordinate pair in output order: longitude first, then
    /// latitude, never the reverse.
    pub fn coordinate_pair(&self) -> (r: Vec<String>)
        ensures
            r@.len() == 2,
            r@[0]@ == self.longitude@,
            r@[1]@ == self.latitude@,
    {
        let mut pair: Vec<String> = Vec::new();
        pair.push(self.longitude.clone());
        pair.push(self.latitude.clone());
        pair
    }
}

/// One output feature: an optional point geometry and the emitted address
/// properties as (key, value) pairs, in emission order.
#[derive(Clone, Debug, PartialEq, Eq)]
pub struct Feature {
    pub geometry: Option<PointGeometry>,
    pub properties: Vec<(String, String)>,
}

/// Whether a solution binds both coordinates, which is the only case in
/// which a geometry is emitted.
pub open spec fn geometry_emitted(sol: Solution) -> bool {
    sol.latitude is Some && sol.longitude is Some
}

/// The property entries one optional binding contributes: one decoded
/// (key, value) pair where bound, none where unbound.
pub open spec fn prop_entry(key: Seq<char>, v: Option<String>) -> Seq<(Seq<char>, Seq<char>)> {
    match v {
        Some(s) => seq![(key, unquoted(s@))],
        None => Seq::empty(),
    }
}

/// The properties a solution emits, in order: street, locality, region,
/// postalCode, country — each only where bound. The extracted addressType
/// binding is deliberately never emitted.
pub open spec fn properties_of(sol: Solution) -> Seq<(Seq<char>, Seq<char>)> {
    prop_entry("street"@, sol.street) + prop_entry("locality"@, sol.locality) + prop_entry(
        "region"@,
        sol.region,
    ) + prop_entry("postalCode"@, sol.postal_code) + prop_entry("country"@, sol.country)
}

/// The view of an emitted property list.
pub open spec fn props_view(props: Seq<(String, String)>) -> Seq<(Seq<char>, Seq<char>)> {
    props.map_values(|p: (String, String)| (p.0@, p.1@))
}

/// Whether a feature is exactly the one its solution row calls for:
/// geometry present iff both coordinates are bound, coordinates decoded
/// from their bound literals, and properties exactly the decoded bound
/// address fields.
pub open spec fn feature_matches(sol: Solution, f: Feature) -> bool {
    &&& f.geometry is Some <==> geometry_emitted(sol)
    &&& (f.geometry matches Some(g) ==> g.longitude@ == unquoted(sol.longitude->0@)
        && g.latitude@ == unquoted(sol.latitude->0@))
    &&& props_view(f.properties@) == properties_of(sol)
}

/// Builds the one feature of a solution row: a point geometry only if both
/// latitude and longitude are bound (longitude listed first), and one
/// property per bound address field, each decoded from its display form.
pub fn build_feature(sol: &Solution) -> (r: Feature)
    ensures
        feature_matches(*sol, r),
{
    let mut geometry: Option<PointGeometry> = None;
    if let Some(lon) = &sol.longitude {
        if let Some(lat) = &sol.latitude {
            geometry = Some(
                PointGeometry {
                    longitude: unquote_string(lon.clone()),
                    latitude: unquote_string(lat.clone()),
                },
            );
        }
    }
    let mut properties: Vec<(String, String)> = Vec::new();
    if let Some(x) = &sol.street {
        properties.push(("street".to_owned(), unquote_string(x.clone())));
    }
    if let Some(x) = &sol.locality {
        properties.push(("locality".to_owned(), unquote_string(x.clone())));
    }
    if let Some(x) = &sol.region {
        properties.push(("region".to_owned(), unquote_string(x.clone())));
    }
    if let Some(x) = &sol.postal_code {
        properties.push(("postalCode".to_owned(), unquote_string(x.clone())));
    }
    if let Some(x) = &sol.country {
        properties.push(("country".to_owned(), unquote_string(x.clone())));
    }
    proof {
        assert(props_view(properties@) =~= properties_of(*sol));
    }
    Feature { geometry, properties }
}

/// Builds one feature per solution row — never zero, never more — in
/// solution order.
pub fn build_features(solutions: &Vec<Solution>) -> (r: Vec<Feature>)
    ensures
        r@.len() == solutions@.len(),
        forall|i: int| 0 <= i < solutions@.len() ==> feature_matches(solutions@[i], r@[i]),
{
    let mut features: Vec<Feature> = Vec::new();
    let n = solutions.len();
    let mut i: usize = 0;
    while i < n
        invariant
            n == solutions@.len(),
            i <= n,
            features@.len() == i,
            forall|j: int| 0 <= j < i ==> feature_matches(solutions@[j], features@[j]),
        decreases n - i,
    {
        features.push(build_feature(&solutions[i]));
        i += 1;
    }
    features
}

/// The display form the store wraps a literal's lexical value in: one
/// leading and one trailing double-quote character. This models the
/// display of values that hold no character the store escapes (a quote,
/// a backslash, a control character); for those the display also inserts
/// backslash escapes, which decoding does not undo.
pub open spec fn quoted(s: Seq<char>) -> Seq<char> {
    seq!['"'] + s + seq!['"']
}

/// Law: decoding the stored representation of a literal recovers exactly
/// the original lexical value.
pub proof fn lemma_decode_round_trip(s: Seq<char>)
    ensures
        unquoted(quoted(s)) == s,
{
    assert(quoted(s)[0] == '"');
    assert(unquoted(quoted(s)) =~= s);
}

/// Law: a built feature carries a geometry exactly when both the latitude
/// and the longitude variables were bound; a row with only one coordinate
/// yields a feature with absent geometry, never a one-coordinate one.
pub proof fn lemma_geometry_gating(sol: Solution, f: Feature)
    requires
        feature_matches(sol, f),
    ensures
        f.geometry is Some <==> (sol.latitude is Some && sol.longitude is Some),
{
}

/// Whether an emitted property list holds an entry under the given key.
pub open spec fn has_key(props: Seq<(Seq<char>, Seq<char>)>, key: Seq<char>) -> bool {
    exists|i: int| 0 <= i < props.len() && #[trigger] props[i].0 == key
}

/// Law: a built feature holds a key for an address field exactly when that
/// field was bound in its solution row — never a key for an absent field,
/// always one for a present field.
pub proof fn lemma_property_gating(sol: Solution, f: Feature)
    requires
        feature_matches(sol, f),
    ensures
        has_key(props_view(f.properties@), "street"@) <==> sol.street is Some,
        has_key(props_view(f.properties@), "locality"@) <==> sol.locality is Some,
        has_key(props_view(f.properties@), "region"@) <==> sol.region is Some,
        has_key(props_view(f.properties@), "postalCode"@) <==> sol.postal_code is Some,
        has_key(props_view(f.properties@), "country"@) <==> sol.country is Some,
{
    reveal_strlit("street");
    reveal_strlit("locality");
    reveal_strlit("region");
    reveal_strlit("postalCode");
    reveal_strlit("country");
    assert("street"@.len() == 6);
    assert("locality"@.len() == 8);
    assert("region"@.len() == 6);
    assert("postalCode"@.len() == 10);
    assert("country"@.len() == 7);
    assert("street"@ != "region"@) by {
        assert("street"@[0] != "region"@[0]);
    }
    let props = properties_of(sol);
    assert(sol.street is Some ==> has_key(props, "street"@)) by {
        if sol.street is Some {
            assert(props[0].0 == "street"@);
        }
    }
    assert(sol.locality is Some ==> has_key(props, "locality"@)) by {
        if sol.locality is Some {
            let i = prop_entry("street"@, sol.street).len() as int;
            assert(props[i].0 == "locality"@);
        }
    }
    assert(sol.region is Some ==> has_key(props, "region"@)) by {
        if sol.region is Some {
            let i = (prop_entry("street"@, sol.street) + prop_entry(
                "locality"@,
                sol.locality,
            )).len() as int;
            assert(props[i].0 == "region"@);
        }
    }
    assert(sol.postal_code is Some ==> has_key(props, "postalCode"@)) by {
        if sol.postal_code is Some {
            let i = (prop_entry("street"@, sol.street) + prop_entry("locality"@, sol.locality)
                + prop_entry("region"@, sol.region)).len() as int;
            assert(props[i].0 == "postalCode"@);
        }
    }
    assert(sol.country is Some ==> has_key(props, "country"@)) by {
        if sol.country is Some {
            let i = (prop_entry("street"@, sol.street) + prop_entry("locality"@, sol.locality)
                + prop_entry("region"@, sol.region) + prop_entry(
                "postalCode"@,
                sol.postal_code,
            )).len() as int;
            assert(props[i].0 == "country"@);
        }
    }
}

/// Law: feature building is a function of the solution row alone: two
/// features built from equal rows agree on geometry
/// presence, on the decoded coordinate values, and on their properties.
pub proof fn lemma_feature_deterministic(sol1: Solution, sol2: Solution, f1: Feature, f2: Feature)
    requires
        sol1 == sol2,
        feature_matches(sol1, f1),
        feature_matches(sol2, f2),
    ensures
        f1.geometry is Some <==> f2.geometry is Some,
        (f1.geometry is Some && f2.geometry is Some) ==> (f1.geometry->0.longitude@
            == f2.geometry->0.longitude@ && f1.geometry->0.latitude@ == f2.geometry->0.latitude@),
        props_view(f1.properties@) == props_view(f2.properties@),
{
}

} // verus!
