//! Query-DSL value objects.
//!
//! Each query kind is a value built by a `Query` constructor, optionally
//! changed by chained, self-returning modifiers, and serialized under its
//! fixed wrapper key. A query gated by a dynamic field key is skipped
//! entirely when that key is empty.

use vstd::prelude::*;

use crate::geo::GeoBoundingBox;
use crate::geo::geo_bounding_box_jv;
use crate::json::Jv;
use crate::json::Json;
use crate::json::jv;
use crate::json::jv_text;
use crate::json::render;
use crate::json::lemma_jv_entries_push;
use crate::json::lemma_jv_items_push;
use crate::key_is_empty;
use crate::number::Number;

verus! {

/// Namespace for the query constructors.
pub struct Query;

/// How geo coordinates outside the valid range are treated.
pub enum ValidationMethod {
    /// Reject malformed coordinates (the default behaviour of the service).
    Strict,
    /// Accept geo points with invalid latitude or longitude.
    IgnoreMalformed,
    /// Additionally try to infer the correct latitude or longitude.
    Coerce,
}

/// The exact uppercase token a validation method serializes to.
pub open spec fn validation_method_token(m: ValidationMethod) -> Seq<char> {
    match m {
        ValidationMethod::Strict => "STRICT"@,
        ValidationMethod::IgnoreMalformed => "IGNORE_MALFORMED"@,
        ValidationMethod::Coerce => "COERCE"@,
    }
}

impl ValidationMethod {
    /// The token text, as an owned string.
    pub fn token_string(&self) -> (s: String)
        ensures
            s@ == validation_method_token(*self),
    {
        match self {
            ValidationMethod::Strict => "STRICT".to_owned(),
            ValidationMethod::IgnoreMalformed => "IGNORE_MALFORMED".to_owned(),
            ValidationMethod::Coerce => "COERCE".to_owned(),
        }
    }
}

/// Matches geo-point and geo-shape values that intersect a bounding box.
///
/// The field name is user data: it becomes a JSON key of the query object
/// itself, beside the optional modifier fields.
pub struct GeoBoundingBoxQuery {
    /// Field to search; the dynamic key of the flattened pair.
    pub field: String,
    /// The bounding box searched for.
    pub value: GeoBoundingBox,
    /// Optional validation mode for the coordinates.
    pub validation_method: Option<ValidationMethod>,
    /// Optional boost weight of the query.
    pub boost: Option<Number>,
    /// Optional query name, serialized under `_name`.
    pub name: Option<String>,
}

/// The optional-modifier entries that are present, in serialization order.
pub open spec fn modifier_entries(q: GeoBoundingBoxQuery) -> Seq<(Seq<char>, Jv)> {
    (match q.validation_method {
        Some(m) => seq![("validation_method"@, Jv::Str(validation_method_token(m)))],
        None => Seq::<(Seq<char>, Jv)>::empty(),
    }) + (match q.name {
        Some(n) => seq![("_name"@, Jv::Str(n@))],
        None => Seq::<(Seq<char>, Jv)>::empty(),
    }) + (match q.boost {
        Some(b) => seq![("boost"@, Jv::Num(b.token()))],
        None => Seq::<(Seq<char>, Jv)>::empty(),
    })
}

/// The object under the wrapper key: present modifiers, then the flattened
/// dynamic pair, whose key is the field name itself.
pub open spec fn query_body_jv(q: GeoBoundingBoxQuery) -> Jv {
    Jv::Obj(modifier_entries(q).push((q.field@, geo_bounding_box_jv(q.value))))
}

/// The whole query document: one fixed wrapper key naming the query kind.
pub open spec fn geo_bounding_box_query_jv(q: GeoBoundingBoxQuery) -> Jv {
    Jv::Obj(seq![("geo_bounding_box"@, query_body_jv(q))])
}

/// The documents of the queries of `qs` that are not skipped, in order.
pub open spec fn queries_jv(qs: Seq<GeoBoundingBoxQuery>) -> Seq<Jv>
    decreases qs,
{
    if qs.len() == 0 {
        Seq::empty()
    } else {
        let rest = queries_jv(qs.subrange(0, qs.len() - 1));
        let q = qs[qs.len() - 1];
        if key_is_empty(q.field@) {
            rest
        } else {
            rest.push(geo_bounding_box_query_jv(q))
        }
    }
}

impl Query {
    /// Creates a geo-bounding-box query searching `field` for `value`, with
    /// no optional modifiers applied.
    pub fn geo_bounding_box(field: String, value: GeoBoundingBox) -> (q: GeoBoundingBoxQuery)
        ensures
            q == (GeoBoundingBoxQuery {
                field,
                value,
                validation_method: None,
                boost: None,
                name: None,
            }),
    {
        GeoBoundingBoxQuery { field, value, validation_method: None, boost: None, name: None }
    }
}

impl GeoBoundingBoxQuery {
    /// The value after setting the validation method; all else unchanged.
    pub open spec fn spec_validation_method(self, m: ValidationMethod) -> Self {
        GeoBoundingBoxQuery { validation_method: Some(m), ..self }
    }

    /// The value after setting the boost; all else unchanged.
    pub open spec fn spec_boost(self, b: Number) -> Self {
        GeoBoundingBoxQuery { boost: Some(b), ..self }
    }

    /// The value after setting the name; all else unchanged.
    pub open spec fn spec_name(self, n: String) -> Self {
        GeoBoundingBoxQuery { name: Some(n), ..self }
    }

    /// Sets how malformed coordinates are treated (the service defaults to
    /// `STRICT`).
    pub fn validation_method(self, validation_method: ValidationMethod) -> (q: Self)
        ensures
            q == self.spec_validation_method(validation_method),
    {
        GeoBoundingBoxQuery { validation_method: Some(validation_method), ..self }
    }

    /// Sets the boost weight.
    pub fn boost(self, boost: Number) -> (q: Self)
        ensures
            q == self.spec_boost(boost),
    {
        GeoBoundingBoxQuery { boost: Some(boost), ..self }
    }

    /// Sets the query name, serialized under `_name`.
    pub fn name(self, name: String) -> (q: Self)
        ensures
            q == self.spec_name(name),
    {
        GeoBoundingBoxQuery { name: Some(name), ..self }
    }

    /// True when this query is skipped entirely: its dynamic field key is
    /// empty.
    pub fn should_skip(&self) -> (r: bool)
        ensures
            r == key_is_empty(self.field@),
    {
        self.field.as_str().is_empty()
    }

    /// Renders this query to its exact JSON text.
    pub fn serialize(&self) -> (s: String)
        ensures
            s@ == jv_text(geo_bounding_box_query_jv(*self)),
    {
        let j = self.to_json();
        render(&j)
    }

    /// Builds the JSON document of this query.
    pub fn to_json(&self) -> (j: Json)
        ensures
            jv(j) == geo_bounding_box_query_jv(*self),
    {
        let mut entries: Vec<(String, Json)> = Vec::new();
        match &self.validation_method {
            Some(m) => {
                let e = ("validation_method".to_owned(), Json::Str(m.token_string()));
                let ghost ge = e;
                entries.push(e);
                proof {
                    lemma_jv_entries_push(Seq::<(String, Json)>::empty(), ge);
                }
            }
            None => {}
        }
        let ghost after_vm = entries@;
        match &self.name {
            Some(n) => {
                let e = ("_name".to_owned(), Json::Str(n.clone()));
                let ghost ge = e;
                entries.push(e);
                proof {
                    lemma_jv_entries_push(after_vm, ge);
                }
            }
            None => {}
        }
        let ghost after_name = entries@;
        match &self.boost {
            Some(b) => {
                let e = ("boost".to_owned(), Json::Num(b.token_string()));
                let ghost ge = e;
                entries.push(e);
                proof {
                    lemma_jv_entries_push(after_name, ge);
                }
            }
            None => {}
        }
        proof {
            assert(crate::json::jv_entries(entries@) =~= modifier_entries(*self));
        }
        let ghost after_mods = entries@;
        let pair = (self.field.clone(), self.value.to_json());
        let ghost gpair = pair;
        entries.push(pair);
        proof {
            lemma_jv_entries_push(after_mods, gpair);
        }
        let body = Json::Obj(entries);
        let mut outer: Vec<(String, Json)> = Vec::new();
        let we = ("geo_bounding_box".to_owned(), body);
        let ghost gwe = we;
        outer.push(we);
        proof {
            lemma_jv_entries_push(Seq::<(String, Json)>::empty(), gwe);
            assert(Seq::<(Seq<char>, Jv)>::empty().push((gwe.0@, jv(gwe.1))) =~= seq![
                ("geo_bounding_box"@, query_body_jv(*self)),
            ]);
        }
        Json::Obj(outer)
    }
}

/// Serializes a parent collection of queries: the document of each query in
/// order, except those whose dynamic field key is empty, which are excluded
/// entirely.
pub fn queries_json(qs: &Vec<GeoBoundingBoxQuery>) -> (j: Json)
    ensures
        jv(j) == Jv::Arr(queries_jv(qs@)),
{
    let mut items: Vec<Json> = Vec::new();
    let n = qs.len();
    let mut i: usize = 0;
    while i < n
        invariant
            i <= n,
            n == qs@.len(),
            crate::json::jv_items(items@) == queries_jv(qs@.subrange(0, i as int)),
        decreases n - i,
    {
        if !qs[i].should_skip() {
            let ghost before = items@;
            let d = qs[i].to_json();
            let ghost gd = d;
            items.push(d);
            proof {
                lemma_jv_items_push(before, gd);
            }
        }
        proof {
            assert(qs@.subrange(0, i + 1).subrange(0, i as int) =~= qs@.subrange(0, i as int));
            assert(qs@.subrange(0, i + 1)[i as int] == qs@[i as int]);
        }
        i += 1;
    }
    proof {
        assert(qs@.subrange(0, n as int) =~= qs@);
    }
    Json::Arr(items)
}

/// Setting distinct modifiers commutes: `boost` then `name` yields the same
/// value, and so the same document, as `name` then `boost`.
pub proof fn law_modifier_order_independent(q: GeoBoundingBoxQuery, b: Number, n: String)
    ensures
        q.spec_boost(b).spec_name(n) == q.spec_name(n).spec_boost(b),
        geo_bounding_box_query_jv(q.spec_boost(b).spec_name(n)) == geo_bounding_box_query_jv(
            q.spec_name(n).spec_boost(b),
        ),
{
}

/// Setting the same modifier twice keeps the last value only.
pub proof fn law_modifier_last_write_wins(q: GeoBoundingBoxQuery, b1: Number, b2: Number)
    ensures
        q.spec_boost(b1).spec_boost(b2) == q.spec_boost(b2),
{
}

/// A freshly constructed query serializes with no optional fields: its body
/// holds the flattened dynamic pair alone.
pub proof fn law_fresh_query_omits_optionals(field: String, value: GeoBoundingBox)
    ensures
        geo_bounding_box_query_jv(
            GeoBoundingBoxQuery { field, value, validation_method: None, boost: None, name: None },
        ) == Jv::Obj(
            seq![
                (
                    "geo_bounding_box"@,
                    Jv::Obj(seq![(field@, geo_bounding_box_jv(value))]),
                ),
            ],
        ),
{
    let q = GeoBoundingBoxQuery { field, value, validation_method: None, boost: None, name: None };
    assert(modifier_entries(q) =~= Seq::<(Seq<char>, Jv)>::empty());
    assert(modifier_entries(q).push((field@, geo_bounding_box_jv(value))) =~= seq![
        (field@, geo_bounding_box_jv(value)),
    ]);
}

/// A query whose dynamic field key is empty is excluded entirely when its
/// parent collection is serialized.
pub proof fn law_empty_key_excluded(qs: Seq<GeoBoundingBoxQuery>, q: GeoBoundingBoxQuery)
    requires
        key_is_empty(q.field@),
    ensures
        queries_jv(qs.push(q)) == queries_jv(qs),
{
    let t = qs.push(q);
    assert(t.subrange(0, t.len() - 1) =~= qs);
    assert(t[t.len() - 1] == q);
}

} // verus!
