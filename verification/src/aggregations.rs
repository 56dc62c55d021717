//! Aggregation-DSL value objects.
//!
//! Each aggregation kind is a value built by an `Aggregation` constructor
//! and serialized under its fixed wrapper key. An aggregation carries a
//! collection of named sub-aggregations, empty by default; the collection
//! serializes under an `aggs` key only when it is non-empty.

use vstd::prelude::*;

use crate::json::Jv;
use crate::json::Json;
use crate::json::jv;
use crate::json::jv_entries;
use crate::json::jv_text;
use crate::json::render;
use crate::json::lemma_jv_entries_push;

verus! {

/// A named collection of sub-aggregations, ordered by insertion.
pub struct Aggregations {
    /// The named children, in insertion order; names are unique.
    pub entries: Vec<(String, Aggregation)>,
}

/// One aggregation of any kind.
pub enum Aggregation {
    /// A nested-field aggregation.
    Nested(NestedAggregation),
    /// A reverse-nested aggregation.
    ReverseNested(ReverseNestedAggregation),
}

/// A multi-bucket aggregation over nested documents under a path.
pub struct NestedAggregation {
    /// The path of the nested field to aggregate under.
    pub path: String,
    /// Named sub-aggregations.
    pub aggs: Aggregations,
}

/// An aggregation that joins back to parent documents out of a nested
/// aggregation; without a path it joins back to the root.
pub struct ReverseNestedAggregation {
    /// Optional path to join back to; absent means the root.
    pub path: Option<String>,
    /// Named sub-aggregations.
    pub aggs: Aggregations,
}

/// The entries of an aggregation collection with every occurrence of one
/// name taken out; order of the rest is kept.
pub open spec fn remove_name(es: Seq<(String, Aggregation)>, name: Seq<char>) -> Seq<
    (String, Aggregation),
>
    decreases es,
{
    if es.len() == 0 {
        Seq::empty()
    } else {
        let rest = remove_name(es.subrange(0, es.len() - 1), name);
        if es[es.len() - 1].0@ == name {
            rest
        } else {
            rest.push(es[es.len() - 1])
        }
    }
}

/// True when no two entries carry the same name.
pub open spec fn names_unique(es: Seq<(String, Aggregation)>) -> bool {
    forall|i: int, j: int| 0 <= i < j < es.len() ==> es[i].0@ != es[j].0@
}

/// The JSON document of one aggregation.
pub open spec fn aggregation_jv(a: Aggregation) -> Jv
    decreases a,
{
    match a {
        Aggregation::Nested(n) => nested_aggregation_jv(n),
        Aggregation::ReverseNested(r) => reverse_nested_aggregation_jv(r),
    }
}

/// The JSON document of a nested aggregation: its wrapper key, then the
/// child collection when non-empty.
pub open spec fn nested_aggregation_jv(n: NestedAggregation) -> Jv
    decreases n,
{
    Jv::Obj(
        seq![("nested"@, Jv::Obj(seq![("path"@, Jv::Str(n.path@))]))] + aggs_entry_jv(n.aggs),
    )
}

/// The JSON document of a reverse-nested aggregation: its wrapper key maps
/// to an object holding the path only when one is present.
pub open spec fn reverse_nested_aggregation_jv(r: ReverseNestedAggregation) -> Jv
    decreases r,
{
    Jv::Obj(
        seq![
            (
                "reverse_nested"@,
                Jv::Obj(
                    match r.path {
                        Some(p) => seq![("path"@, Jv::Str(p@))],
                        None => Seq::<(Seq<char>, Jv)>::empty(),
                    },
                ),
            ),
        ] + aggs_entry_jv(r.aggs),
    )
}

/// The `aggs` entry of a parent object: absent when there are no children.
pub open spec fn aggs_entry_jv(ag: Aggregations) -> Seq<(Seq<char>, Jv)>
    decreases ag,
{
    if ag.entries@.len() == 0 {
        Seq::empty()
    } else {
        seq![("aggs"@, Jv::Obj(aggs_entries_jv(ag.entries@)))]
    }
}

/// The object entries of a child collection: name to child document, in
/// insertion order.
pub open spec fn aggs_entries_jv(es: Seq<(String, Aggregation)>) -> Seq<(Seq<char>, Jv)>
    decreases es,
{
    if es.len() == 0 {
        Seq::empty()
    } else {
        aggs_entries_jv(es.subrange(0, es.len() - 1)).push(
            (es[es.len() - 1].0@, aggregation_jv(es[es.len() - 1].1)),
        )
    }
}

pub(crate) proof fn lemma_remove_name_push(
    es: Seq<(String, Aggregation)>,
    e: (String, Aggregation),
    name: Seq<char>,
)
    ensures
        remove_name(es.push(e), name) == if e.0@ == name {
            remove_name(es, name)
        } else {
            remove_name(es, name).push(e)
        },
{
    let t = es.push(e);
    assert(t.subrange(0, t.len() - 1) =~= es);
    assert(t[t.len() - 1] == e);
}

impl Aggregations {
    /// An empty collection.
    pub fn new() -> (ag: Aggregations)
        ensures
            ag.entries@ == Seq::<(String, Aggregation)>::empty(),
    {
        Aggregations { entries: Vec::new() }
    }

    /// Adds a named sub-aggregation. A child already carried under the same
    /// name is replaced: the last write wins, and the new child stands at
    /// the end of the insertion order.
    #[verifier::loop_isolation(false)]
    pub fn aggregate(self, name: String, agg: Aggregation) -> (r: Aggregations)
        ensures
            r.entries@ == remove_name(self.entries@, name@).push((name, agg)),
    {
        let ghost es0 = self.entries@;
        let mut src = self.entries;
        let mut rev: Vec<(String, Aggregation)> = Vec::new();
        assert(src@ + rev@.reverse() =~= es0);
        while src.len() > 0
            invariant
                src@ + rev@.reverse() == es0,
            decreases src.len(),
        {
            let e = src.pop().unwrap();
            let ghost ge = e;
            rev.push(e);
            proof {
                assert(rev@.reverse() =~= seq![ge] + rev@.subrange(0, rev@.len() - 1).reverse());
                assert(src@ + rev@.reverse() =~= es0);
            }
        }
        assert(rev@.reverse() =~= es0);
        let mut out: Vec<(String, Aggregation)> = Vec::new();
        let ghost n0 = es0.len() as int;
        assert(es0.subrange(0, n0 - rev@.len()) =~= Seq::<(String, Aggregation)>::empty());
        while rev.len() > 0
            invariant
                rev@.len() <= n0,
                es0 == es0.subrange(0, n0 - rev@.len()) + rev@.reverse(),
                out@ == remove_name(es0.subrange(0, n0 - rev@.len()), name@),
            decreases rev.len(),
        {
            let ghost i = n0 - rev@.len();
            let ghost rev_old = rev@;
            let e = rev.pop().unwrap();
            let ghost ge = e;
            proof {
                assert(ge == rev_old[rev_old.len() - 1]);
                assert(rev_old.reverse()[0] == ge);
                assert(es0[i] == ge);
                assert(es0.subrange(0, i + 1) =~= es0.subrange(0, i).push(ge));
                lemma_remove_name_push(es0.subrange(0, i), ge, name@);
                assert(es0 =~= es0.subrange(0, i + 1) + rev@.reverse());
            }
            if !(e.0 == name) {
                out.push(e);
            }
        }
        assert(es0.subrange(0, n0) =~= es0);
        let pair = (name, agg);
        let ghost gpair = pair;
        let mut out2 = out;
        out2.push(pair);
        assert(out2@ =~= remove_name(es0, gpair.0@).push(gpair));
        Aggregations { entries: out2 }
    }

    /// Builds the JSON object of the child collection: one key per child
    /// name, each mapping to the child's document.
    #[verifier::loop_isolation(false)]
    pub fn to_json(&self) -> (j: Json)
        ensures
            jv(j) == Jv::Obj(aggs_entries_jv(self.entries@)),
        decreases *self,
    {
        let mut out: Vec<(String, Json)> = Vec::new();
        let n = self.entries.len();
        let mut i: usize = 0;
        while i < n
            invariant
                i <= n,
                n == self.entries@.len(),
                jv_entries(out@) == aggs_entries_jv(self.entries@.subrange(0, i as int)),
            decreases n - i,
        {
            let ghost before = out@;
            let key = self.entries[i].0.clone();
            proof {
                broadcast use vstd::seq::axiom_seq_index_decreases;

                let ss = *self;
                assert(decreases_to!(ss => ss.entries));
                assert(decreases_to!(ss.entries => ss.entries@));
                assert(decreases_to!(ss.entries@ => ss.entries@[i as int]));
                assert(decreases_to!(ss.entries@[i as int] => ss.entries@[i as int].1));
                assert(decreases_to!(*self => self.entries@[i as int].1));
            }
            let child = self.entries[i].1.to_json();
            let e = (key, child);
            let ghost ge = e;
            out.push(e);
            proof {
                lemma_jv_entries_push(before, ge);
                assert(self.entries@.subrange(0, i + 1).subrange(0, i as int) =~= self.entries@
                    .subrange(0, i as int));
                assert(self.entries@.subrange(0, i + 1)[i as int] == self.entries@[i as int]);
            }
            i += 1;
        }
        proof {
            assert(self.entries@.subrange(0, n as int) =~= self.entries@);
        }
        Json::Obj(out)
    }
}

impl Aggregation {
    /// Creates a nested-field aggregation under `path`, with no children.
    pub fn nested(path: String) -> (a: NestedAggregation)
        ensures
            a.path == path,
            a.aggs.entries@ == Seq::<(String, Aggregation)>::empty(),
    {
        NestedAggregation { path, aggs: Aggregations::new() }
    }

    /// Creates a reverse-nested aggregation; the path is present or absent
    /// as given, and there are no children.
    pub fn reversed_nested(path: Option<String>) -> (a: ReverseNestedAggregation)
        ensures
            a.path == path,
            a.aggs.entries@ == Seq::<(String, Aggregation)>::empty(),
    {
        ReverseNestedAggregation { path, aggs: Aggregations::new() }
    }

    /// Builds the JSON document of this aggregation.
    pub fn to_json(&self) -> (j: Json)
        ensures
            jv(j) == aggregation_jv(*self),
        decreases *self,
    {
        match self {
            Aggregation::Nested(n) => n.to_json(),
            Aggregation::ReverseNested(r) => r.to_json(),
        }
    }
}

impl NestedAggregation {
    /// Renders this aggregation to its exact JSON text.
    pub fn serialize(&self) -> (s: String)
        ensures
            s@ == jv_text(nested_aggregation_jv(*self)),
    {
        let j = self.to_json();
        render(&j)
    }

    /// Adds a named sub-aggregation; a child of the same name is replaced.
    pub fn aggregate(self, name: String, agg: Aggregation) -> (r: Self)
        ensures
            r.path == self.path,
            r.aggs.entries@ == remove_name(self.aggs.entries@, name@).push((name, agg)),
    {
        NestedAggregation { path: self.path, aggs: self.aggs.aggregate(name, agg) }
    }

    /// Builds the JSON document of this aggregation.
    pub fn to_json(&self) -> (j: Json)
        ensures
            jv(j) == nested_aggregation_jv(*self),
        decreases *self,
    {
        let mut inner: Vec<(String, Json)> = Vec::new();
        let pe = ("path".to_owned(), Json::Str(self.path.clone()));
        let ghost gpe = pe;
        inner.push(pe);
        proof {
            lemma_jv_entries_push(Seq::<(String, Json)>::empty(), gpe);
            assert(jv_entries(inner@) =~= seq![("path"@, Jv::Str(self.path@))]);
        }
        let mut outer: Vec<(String, Json)> = Vec::new();
        let we = ("nested".to_owned(), Json::Obj(inner));
        let ghost gwe = we;
        outer.push(we);
        proof {
            lemma_jv_entries_push(Seq::<(String, Json)>::empty(), gwe);
        }
        let ghost after_wrap = outer@;
        if self.aggs.entries.len() > 0 {
            proof {
                assert(decreases_to!(*self => self.aggs));
            }
            let ae = ("aggs".to_owned(), self.aggs.to_json());
            let ghost gae = ae;
            outer.push(ae);
            proof {
                lemma_jv_entries_push(after_wrap, gae);
            }
        }
        proof {
            assert(jv_entries(outer@) =~= seq![
                ("nested"@, Jv::Obj(seq![("path"@, Jv::Str(self.path@))])),
            ] + aggs_entry_jv(self.aggs));
        }
        Json::Obj(outer)
    }

}

impl ReverseNestedAggregation {
    /// Renders this aggregation to its exact JSON text.
    pub fn serialize(&self) -> (s: String)
        ensures
            s@ == jv_text(reverse_nested_aggregation_jv(*self)),
    {
        let j = self.to_json();
        render(&j)
    }

    /// Adds a named sub-aggregation; a child of the same name is replaced.
    pub fn aggregate(self, name: String, agg: Aggregation) -> (r: Self)
        ensures
            r.path == self.path,
            r.aggs.entries@ == remove_name(self.aggs.entries@, name@).push((name, agg)),
    {
        ReverseNestedAggregation { path: self.path, aggs: self.aggs.aggregate(name, agg) }
    }

    /// Builds the JSON document of this aggregation.
    pub fn to_json(&self) -> (j: Json)
        ensures
            jv(j) == reverse_nested_aggregation_jv(*self),
        decreases *self,
    {
        let mut inner: Vec<(String, Json)> = Vec::new();
        match &self.path {
            Some(p) => {
                let pe = ("path".to_owned(), Json::Str(p.clone()));
                let ghost gpe = pe;
                inner.push(pe);
                proof {
                    lemma_jv_entries_push(Seq::<(String, Json)>::empty(), gpe);
                }
            }
            None => {}
        }
        let mut outer: Vec<(String, Json)> = Vec::new();
        let we = ("reverse_nested".to_owned(), Json::Obj(inner));
        let ghost gwe = we;
        outer.push(we);
        proof {
            lemma_jv_entries_push(Seq::<(String, Json)>::empty(), gwe);
        }
        let ghost after_wrap = outer@;
        if self.aggs.entries.len() > 0 {
            proof {
                assert(decreases_to!(*self => self.aggs));
            }
            let ae = ("aggs".to_owned(), self.aggs.to_json());
            let ghost gae = ae;
            outer.push(ae);
            proof {
                lemma_jv_entries_push(after_wrap, gae);
            }
        }
        proof {
            assert(jv_entries(outer@) =~= seq![
                (
                    "reverse_nested"@,
                    Jv::Obj(
                        match self.path {
                            Some(p) => seq![("path"@, Jv::Str(p@))],
                            None => Seq::<(Seq<char>, Jv)>::empty(),
                        },
                    ),
                ),
            ] + aggs_entry_jv(self.aggs));
        }
        Json::Obj(outer)
    }

}

/// A freshly constructed nested aggregation serializes to its wrapper key
/// and path alone: the child-collection key is omitted while no child was
/// added.
pub proof fn law_fresh_nested_omits_children(n: NestedAggregation)
    requires
        n.aggs.entries@.len() == 0,
    ensures
        nested_aggregation_jv(n) == Jv::Obj(
            seq![("nested"@, Jv::Obj(seq![("path"@, Jv::Str(n.path@))]))],
        ),
{
    assert(seq![("nested"@, Jv::Obj(seq![("path"@, Jv::Str(n.path@))]))] + aggs_entry_jv(n.aggs)
        =~= seq![("nested"@, Jv::Obj(seq![("path"@, Jv::Str(n.path@))]))]);
}

/// A freshly constructed reverse-nested aggregation with no path serializes
/// to its wrapper key over an empty object: the optional path and the
/// child-collection key are both omitted.
pub proof fn law_fresh_reverse_nested_omits_all(r: ReverseNestedAggregation)
    requires
        r.aggs.entries@.len() == 0,
        r.path is None,
    ensures
        reverse_nested_aggregation_jv(r) == Jv::Obj(
            seq![("reverse_nested"@, Jv::Obj(Seq::<(Seq<char>, Jv)>::empty()))],
        ),
{
    assert(seq![("reverse_nested"@, Jv::Obj(Seq::<(Seq<char>, Jv)>::empty()))] + aggs_entry_jv(
        r.aggs,
    ) =~= seq![("reverse_nested"@, Jv::Obj(Seq::<(Seq<char>, Jv)>::empty()))]);
}

proof fn lemma_remove_name_props(es: Seq<(String, Aggregation)>, n: Seq<char>)
    requires
        names_unique(es),
    ensures
        names_unique(remove_name(es, n)),
        forall|k: int|
            0 <= k < remove_name(es, n).len() ==> (#[trigger] remove_name(es, n)[k]).0@ != n,
        forall|k: int|
            0 <= k < remove_name(es, n).len() ==> exists|m: int|
                0 <= m < es.len() && es[m] == #[trigger] remove_name(es, n)[k],
    decreases es,
{
    if es.len() > 0 {
        let front = es.subrange(0, es.len() - 1);
        let last = es[es.len() - 1];
        assert forall|i: int, j: int| 0 <= i < j < front.len() implies front[i].0@
            != front[j].0@ by {
            assert(front[i] == es[i]);
            assert(front[j] == es[j]);
        }
        lemma_remove_name_props(front, n);
        let rest = remove_name(front, n);
        let rm = remove_name(es, n);
        if last.0@ == n {
            assert(rm == rest);
            assert forall|k: int| 0 <= k < rm.len() implies exists|m: int|
                0 <= m < es.len() && es[m] == #[trigger] rm[k] by {
                let m = choose|m: int| 0 <= m < front.len() && front[m] == rm[k];
                assert(es[m] == rm[k]);
            }
        } else {
            assert(rm == rest.push(last));
            assert forall|i: int, j: int| 0 <= i < j < rm.len() implies rm[i].0@ != rm[j].0@ by {
                if j < rest.len() {
                    assert(rm[i] == rest[i] && rm[j] == rest[j]);
                } else {
                    assert(rm[j] == last);
                    assert(rm[i] == rest[i]);
                    let m = choose|m: int| 0 <= m < front.len() && front[m] == rest[i];
                    assert(es[m] == rm[i]);
                    assert(es[m].0@ != es[es.len() - 1].0@);
                }
            }
            assert forall|k: int| 0 <= k < rm.len() implies exists|m: int|
                0 <= m < es.len() && es[m] == #[trigger] rm[k] by {
                if k < rest.len() {
                    let m = choose|m: int| 0 <= m < front.len() && front[m] == rest[k];
                    assert(es[m] == rm[k]);
                } else {
                    assert(es[es.len() - 1] == rm[k]);
                }
            }
        }
    }
}

/// The collection invariant: child names are unique. It holds of a fresh
/// collection, and `aggregate` preserves it, so every collection the
/// library builds serializes to an object without duplicate keys.
pub proof fn law_aggregate_keeps_names_unique(
    es: Seq<(String, Aggregation)>,
    name: String,
    agg: Aggregation,
)
    requires
        names_unique(es),
    ensures
        names_unique(remove_name(es, name@).push((name, agg))),
{
    lemma_remove_name_props(es, name@);
    let r = remove_name(es, name@).push((name, agg));
    assert forall|i: int, j: int| 0 <= i < j < r.len() implies r[i].0@ != r[j].0@ by {
        if j < r.len() - 1 {
            assert(r[i] == remove_name(es, name@)[i]);
            assert(r[j] == remove_name(es, name@)[j]);
        } else {
            assert(r[i] == remove_name(es, name@)[i]);
            assert(r[i].0@ != name@);
        }
    }
}

} // verus!
