//! Geometry values for geo queries.
//!
//! A bounding box may be given as well-known text, as the two corners of its
//! main diagonal, or as four named edges; each representation serializes to
//! its own JSON shape. Geometry text and coordinates are passed through
//! uninspected: only the remote service judges their validity.

use vstd::prelude::*;

use crate::json::Jv;
use crate::json::Json;
use crate::json::jv;
use crate::json::lemma_jv_items_push;
use crate::json::lemma_jv_entries_push;
use crate::number::Number;

verus! {

/// A geographic point.
pub enum GeoPoint {
    /// A longitude/latitude pair, serialized as a two-element array.
    Coordinates { longitude: Number, latitude: Number },
}

/// A series of vertex coordinates of a geo bounding box.
pub enum GeoBoundingBox {
    /// The box as a well-known-text string, e.g. `BBOX (...)`.
    WellKnownText { wkt: String },
    /// The box as its main diagonal: top-left and bottom-right corners.
    MainDiagonal { top_left: GeoPoint, bottom_right: GeoPoint },
    /// The box as its four edges.
    Vertices { top: Number, left: Number, bottom: Number, right: Number },
}

/// The JSON shape of a geographic point.
pub open spec fn geo_point_jv(p: GeoPoint) -> Jv {
    match p {
        GeoPoint::Coordinates { longitude, latitude } => Jv::Arr(
            seq![Jv::Num(longitude.token()), Jv::Num(latitude.token())],
        ),
    }
}

/// The JSON shape of a bounding box: each representation has its own keys.
pub open spec fn geo_bounding_box_jv(b: GeoBoundingBox) -> Jv {
    match b {
        GeoBoundingBox::WellKnownText { wkt } => Jv::Obj(seq![("wkt"@, Jv::Str(wkt@))]),
        GeoBoundingBox::MainDiagonal { top_left, bottom_right } => Jv::Obj(
            seq![
                ("top_left"@, geo_point_jv(top_left)),
                ("bottom_right"@, geo_point_jv(bottom_right)),
            ],
        ),
        GeoBoundingBox::Vertices { top, left, bottom, right } => Jv::Obj(
            seq![
                ("top"@, Jv::Num(top.token())),
                ("left"@, Jv::Num(left.token())),
                ("bottom"@, Jv::Num(bottom.token())),
                ("right"@, Jv::Num(right.token())),
            ],
        ),
    }
}

impl GeoPoint {
    /// Builds the JSON document of this point.
    pub fn to_json(&self) -> (j: Json)
        ensures
            jv(j) == geo_point_jv(*self),
    {
        match self {
            GeoPoint::Coordinates { longitude, latitude } => {
                let mut items: Vec<Json> = Vec::new();
                let a = Json::Num(longitude.token_string());
                let ghost ga = a;
                items.push(a);
                let b = Json::Num(latitude.token_string());
                let ghost gb = b;
                items.push(b);
                proof {
                    lemma_jv_items_push(Seq::<Json>::empty(), ga);
                    assert(Seq::<Json>::empty().push(ga) =~= seq![ga]);
                    lemma_jv_items_push(seq![ga], gb);
                    assert(seq![ga].push(gb) =~= items@);
                    assert(Seq::<Jv>::empty().push(jv(ga)).push(jv(gb)) =~= seq![
                        Jv::Num(longitude.token()),
                        Jv::Num(latitude.token()),
                    ]);
                }
                Json::Arr(items)
            }
        }
    }
}

impl GeoBoundingBox {
    /// Builds the JSON document of this bounding box.
    pub fn to_json(&self) -> (j: Json)
        ensures
            jv(j) == geo_bounding_box_jv(*self),
    {
        let mut entries: Vec<(String, Json)> = Vec::new();
        match self {
            GeoBoundingBox::WellKnownText { wkt } => {
                let e = ("wkt".to_owned(), Json::Str(wkt.clone()));
                let ghost ge = e;
                entries.push(e);
                proof {
                    lemma_jv_entries_push(Seq::<(String, Json)>::empty(), ge);
                    assert(entries@ =~= Seq::<(String, Json)>::empty().push(ge));
                    assert(Seq::<(Seq<char>, Jv)>::empty().push((ge.0@, jv(ge.1))) =~= seq![
                        ("wkt"@, Jv::Str(wkt@)),
                    ]);
                }
            }
            GeoBoundingBox::MainDiagonal { top_left, bottom_right } => {
                let e1 = ("top_left".to_owned(), top_left.to_json());
                let ghost g1 = e1;
                entries.push(e1);
                let e2 = ("bottom_right".to_owned(), bottom_right.to_json());
                let ghost g2 = e2;
                entries.push(e2);
                proof {
                    lemma_jv_entries_push(Seq::<(String, Json)>::empty(), g1);
                    assert(Seq::<(String, Json)>::empty().push(g1) =~= seq![g1]);
                    lemma_jv_entries_push(seq![g1], g2);
                    assert(seq![g1].push(g2) =~= entries@);
                    assert(Seq::<(Seq<char>, Jv)>::empty().push((g1.0@, jv(g1.1))).push(
                        (g2.0@, jv(g2.1)),
                    ) =~= seq![
                        ("top_left"@, geo_point_jv(*top_left)),
                        ("bottom_right"@, geo_point_jv(*bottom_right)),
                    ]);
                }
            }
            GeoBoundingBox::Vertices { top, left, bottom, right } => {
                let e1 = ("top".to_owned(), Json::Num(top.token_string()));
                let ghost g1 = e1;
                entries.push(e1);
                let e2 = ("left".to_owned(), Json::Num(left.token_string()));
                let ghost g2 = e2;
                entries.push(e2);
                let e3 = ("bottom".to_owned(), Json::Num(bottom.token_string()));
                let ghost g3 = e3;
                entries.push(e3);
                let e4 = ("right".to_owned(), Json::Num(right.token_string()));
                let ghost g4 = e4;
                entries.push(e4);
                proof {
                    lemma_jv_entries_push(Seq::<(String, Json)>::empty(), g1);
                    assert(Seq::<(String, Json)>::empty().push(g1) =~= seq![g1]);
                    lemma_jv_entries_push(seq![g1], g2);
                    assert(seq![g1].push(g2) =~= seq![g1, g2]);
                    lemma_jv_entries_push(seq![g1, g2], g3);
                    assert(seq![g1, g2].push(g3) =~= seq![g1, g2, g3]);
                    lemma_jv_entries_push(seq![g1, g2, g3], g4);
                    assert(seq![g1, g2, g3].push(g4) =~= entries@);
                    assert(Seq::<(Seq<char>, Jv)>::empty().push((g1.0@, jv(g1.1))).push(
                        (g2.0@, jv(g2.1)),
                    ).push((g3.0@, jv(g3.1))).push((g4.0@, jv(g4.1))) =~= seq![
                        ("top"@, Jv::Num(top.token())),
                        ("left"@, Jv::Num(left.token())),
                        ("bottom"@, Jv::Num(bottom.token())),
                        ("right"@, Jv::Num(right.token())),
                    ]);
                }
            }
        }
        Json::Obj(entries)
    }
}

/// The keys of an object document, in order; empty for any other shape.
pub open spec fn obj_keys(v: Jv) -> Seq<Seq<char>> {
    match v {
        Jv::Obj(es) => es.map_values(|e: (Seq<char>, Jv)| e.0),
        _ => Seq::empty(),
    }
}

/// Each geometry representation serializes to its own JSON shape: the keys
/// under the dynamic field key are fixed by the representation alone.
pub proof fn law_geometry_shape_keys(b: GeoBoundingBox)
    ensures
        match b {
            GeoBoundingBox::WellKnownText { .. } => obj_keys(geo_bounding_box_jv(b)) == seq![
                "wkt"@,
            ],
            GeoBoundingBox::MainDiagonal { .. } => obj_keys(geo_bounding_box_jv(b)) == seq![
                "top_left"@,
                "bottom_right"@,
            ],
            GeoBoundingBox::Vertices { .. } => obj_keys(geo_bounding_box_jv(b)) == seq![
                "top"@,
                "left"@,
                "bottom"@,
                "right"@,
            ],
        },
{
    match b {
        GeoBoundingBox::WellKnownText { .. } => {
            assert(obj_keys(geo_bounding_box_jv(b)) =~= seq!["wkt"@]);
        }
        GeoBoundingBox::MainDiagonal { .. } => {
            assert(obj_keys(geo_bounding_box_jv(b)) =~= seq!["top_left"@, "bottom_right"@]);
        }
        GeoBoundingBox::Vertices { .. } => {
            assert(obj_keys(geo_bounding_box_jv(b)) =~= seq!["top"@, "left"@, "bottom"@, "right"@]);
        }
    }
}

/// Different geometry representations share no key: under the same dynamic
/// field key, no field of one shape can leak into another.
pub proof fn law_geometry_shapes_distinct(b1: GeoBoundingBox, b2: GeoBoundingBox)
    requires
        !(b1 is WellKnownText && b2 is WellKnownText),
        !(b1 is MainDiagonal && b2 is MainDiagonal),
        !(b1 is Vertices && b2 is Vertices),
    ensures
        forall|x: int, y: int|
            0 <= x < obj_keys(geo_bounding_box_jv(b1)).len() && 0 <= y < obj_keys(
                geo_bounding_box_jv(b2),
            ).len() ==> obj_keys(geo_bounding_box_jv(b1))[x] != obj_keys(geo_bounding_box_jv(b2))[y],
{
    law_geometry_shape_keys(b1);
    law_geometry_shape_keys(b2);
    reveal_strlit("wkt");
    reveal_strlit("top_left");
    reveal_strlit("bottom_right");
    reveal_strlit("top");
    reveal_strlit("left");
    reveal_strlit("bottom");
    reveal_strlit("right");
    assert("wkt"@.len() == 3);
    assert("top_left"@.len() == 8);
    assert("bottom_right"@.len() == 12);
    assert("top"@.len() == 3);
    assert("left"@.len() == 4);
    assert("bottom"@.len() == 6);
    assert("right"@.len() == 5);
    assert("wkt"@[0] == 'w');
    assert("top"@[0] == 't');
    assert("wkt"@ != "top"@);
}

} // verus!
