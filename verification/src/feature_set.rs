//! Sets of features and custom queries.

use vstd::prelude::*;
use vstd::std_specs::convert::FromSpecImpl;
use crate::features::{
    feature_queries, insert_sorted, query_views, strictly_sorted, OsmFeature, OsmTagQuery,
    QueryView,
};

verus! {

/// The features and the custom queries that a grid is to be made of.
#[derive(Debug)]
pub struct FeatureSet {
    features: Vec<OsmFeature>,
    custom_queries: Vec<OsmTagQuery>,
}

/// The mathematical model of a [`FeatureSet`]: a set of features and a
/// list of queries.
pub struct FeatureSetView {
    pub features: Set<OsmFeature>,
    pub custom_queries: Seq<QueryView>,
}

/// The queries of a list of features, one feature after the other.
pub open spec fn all_feature_queries(features: Seq<OsmFeature>) -> Seq<QueryView>
    decreases features.len(),
{
    if features.len() == 0 {
        Seq::empty()
    } else {
        all_feature_queries(features.drop_last()) + feature_queries(features.last())
    }
}

/// Whether one of the features of the list is selected by the query.
pub open spec fn selects_any(features: Seq<OsmFeature>, q: QueryView) -> bool {
    exists|i: int| 0 <= i < features.len() && feature_queries(#[trigger] features[i]).contains(q)
}

/// A query is among the queries of a list of features exactly if one of
/// the features is selected by it.
pub proof fn lemma_all_feature_queries(features: Seq<OsmFeature>, q: QueryView)
    ensures
        all_feature_queries(features).contains(q) == selects_any(features, q),
    decreases features.len(),
{
    if features.len() > 0 {
        let rest = features.drop_last();
        let last = features.last();
        lemma_all_feature_queries(rest, q);
        let all = all_feature_queries(features);
        let head = all_feature_queries(rest);
        let tail = feature_queries(last);
        assert(all == head + tail);
        if all.contains(q) {
            let k = choose|k: int| 0 <= k < all.len() && all[k] == q;
            if k < head.len() {
                assert(head[k] == q);
                assert(head.contains(q));
                let i = choose|i: int|
                    0 <= i < rest.len() && feature_queries(#[trigger] rest[i]).contains(q);
                assert(features[i] == rest[i]);
            } else {
                assert(tail[k - head.len()] == q);
                assert(tail.contains(q));
                assert(features[features.len() - 1] == last);
            }
            assert(selects_any(features, q));
        }
        if selects_any(features, q) {
            let i = choose|i: int|
                0 <= i < features.len() && feature_queries(#[trigger] features[i]).contains(q);
            if i < rest.len() {
                assert(rest[i] == features[i]);
                assert(selects_any(rest, q));
                let k = choose|k: int| 0 <= k < head.len() && head[k] == q;
                assert(all[k] == q);
            } else {
                let k = choose|k: int| 0 <= k < tail.len() && tail[k] == q;
                assert(all[head.len() + k] == q);
            }
            assert(all.contains(q));
        }
    }
}

/// The model of a list with one more query is the model of the list with
/// one more model.
pub proof fn lemma_views_push(list: Seq<OsmTagQuery>, query: OsmTagQuery)
    ensures
        query_views(list.push(query)) == query_views(list).push(query@),
{
    assert(query_views(list.push(query)) =~= query_views(list).push(query@));
}

impl FeatureSetView {
    /// Whether the set asks for a query: one of its features is selected
    /// by it, or it is one of the custom queries.
    pub open spec fn asks(self, q: QueryView) -> bool {
        (exists|f: OsmFeature|
            self.features.contains(f) && #[trigger] feature_queries(f).contains(q))
            || self.custom_queries.contains(q)
    }
}

impl View for FeatureSet {
    type V = FeatureSetView;

    closed spec fn view(&self) -> FeatureSetView {
        FeatureSetView {
            features: self.features@.to_set(),
            custom_queries: query_views(self.custom_queries@),
        }
    }
}

impl FeatureSet {
    #[verifier::type_invariant]
    spec fn distinct(self) -> bool {
        self.features@.no_duplicates()
    }

    /// The features of a town: roads, buildings, parks and water.
    pub open spec fn urban_view() -> FeatureSetView {
        FeatureSetView {
            features: set![
                OsmFeature::Roads,
                OsmFeature::Buildings,
                OsmFeature::Parks,
                OsmFeature::Water,
            ],
            custom_queries: Seq::empty(),
        }
    }

    /// The features of transport: roads, highways, railways, footpaths
    /// and parking.
    pub open spec fn transportation_view() -> FeatureSetView {
        FeatureSetView {
            features: set![
                OsmFeature::Roads,
                OsmFeature::Highways,
                OsmFeature::Railways,
                OsmFeature::Footpaths,
                OsmFeature::Parking,
            ],
            custom_queries: Seq::empty(),
        }
    }

    /// The features of nature: water, rivers, lakes, forests, parks and
    /// grassland.
    pub open spec fn natural_view() -> FeatureSetView {
        FeatureSetView {
            features: set![
                OsmFeature::Water,
                OsmFeature::Rivers,
                OsmFeature::Lakes,
                OsmFeature::Forests,
                OsmFeature::Parks,
                OsmFeature::Grassland,
            ],
            custom_queries: Seq::empty(),
        }
    }

    /// The most common features.
    pub open spec fn comprehensive_view() -> FeatureSetView {
        FeatureSetView {
            features: set![
                OsmFeature::Roads,
                OsmFeature::Highways,
                OsmFeature::Buildings,
                OsmFeature::Residential,
                OsmFeature::Commercial,
                OsmFeature::Water,
                OsmFeature::Parks,
                OsmFeature::Forests,
                OsmFeature::Railways,
                OsmFeature::Amenities,
            ],
            custom_queries: Seq::empty(),
        }
    }

    /// The set without features and without queries.
    pub fn new() -> (r: Self)
        ensures
            r@.features == Set::<OsmFeature>::empty(),
            r@.custom_queries == Seq::<QueryView>::empty(),
    {
        let r = FeatureSet { features: Vec::new(), custom_queries: Vec::new() };
        assert(r@.features =~= Set::<OsmFeature>::empty());
        assert(r@.custom_queries =~= Seq::<QueryView>::empty());
        r
    }

    /// The features of a town: roads, buildings, parks and water.
    pub fn urban() -> (r: Self)
        ensures
            r@ == Self::urban_view(),
    {
        let r = FeatureSet::new().with_feature(OsmFeature::Roads).with_feature(
            OsmFeature::Buildings,
        ).with_feature(OsmFeature::Parks).with_feature(OsmFeature::Water);
        assert(r@.features =~= set![
            OsmFeature::Roads,
            OsmFeature::Buildings,
            OsmFeature::Parks,
            OsmFeature::Water,
        ]);
        r
    }

    /// The features of transport: roads, highways, railways, footpaths
    /// and parking.
    pub fn transportation() -> (r: Self)
        ensures
            r@ == Self::transportation_view(),
    {
        let r = FeatureSet::new().with_feature(OsmFeature::Roads).with_feature(
            OsmFeature::Highways,
        ).with_feature(OsmFeature::Railways).with_feature(OsmFeature::Footpaths).with_feature(
            OsmFeature::Parking,
        );
        assert(r@.features =~= set![
            OsmFeature::Roads,
            OsmFeature::Highways,
            OsmFeature::Railways,
            OsmFeature::Footpaths,
            OsmFeature::Parking,
        ]);
        r
    }

    /// The features of nature: water, rivers, lakes, forests, parks and
    /// grassland.
    pub fn natural() -> (r: Self)
        ensures
            r@ == Self::natural_view(),
    {
        let r = FeatureSet::new().with_feature(OsmFeature::Water).with_feature(
            OsmFeature::Rivers,
        ).with_feature(OsmFeature::Lakes).with_feature(OsmFeature::Forests).with_feature(
            OsmFeature::Parks,
        ).with_feature(OsmFeature::Grassland);
        assert(r@.features =~= set![
            OsmFeature::Water,
            OsmFeature::Rivers,
            OsmFeature::Lakes,
            OsmFeature::Forests,
            OsmFeature::Parks,
            OsmFeature::Grassland,
        ]);
        r
    }

    /// The most common features.
    pub fn comprehensive() -> (r: Self)
        ensures
            r@ == Self::comprehensive_view(),
    {
        let r = FeatureSet::new().with_feature(OsmFeature::Roads).with_feature(
            OsmFeature::Highways,
        ).with_feature(OsmFeature::Buildings).with_feature(OsmFeature::Residential).with_feature(
            OsmFeature::Commercial,
        ).with_feature(OsmFeature::Water).with_feature(OsmFeature::Parks).with_feature(
            OsmFeature::Forests,
        ).with_feature(OsmFeature::Railways).with_feature(OsmFeature::Amenities);
        assert(r@.features =~= set![
            OsmFeature::Roads,
            OsmFeature::Highways,
            OsmFeature::Buildings,
            OsmFeature::Residential,
            OsmFeature::Commercial,
            OsmFeature::Water,
            OsmFeature::Parks,
            OsmFeature::Forests,
            OsmFeature::Railways,
            OsmFeature::Amenities,
        ]);
        r
    }

    /// The position of a feature in the list, if it is there.
    fn position(&self, feature: &OsmFeature) -> (r: Option<usize>)
        ensures
            match r {
                Some(i) => i < self.features@.len() && self.features@[i as int] == *feature,
                None => !self.features@.contains(*feature),
            },
    {
        let mut i: usize = 0;
        while i < self.features.len()
            invariant
                i <= self.features@.len(),
                forall|j: int| 0 <= j < i ==> self.features@[j] != *feature,
            decreases self.features@.len() - i,
        {
            if self.features[i] == *feature {
                return Some(i);
            }
            i += 1;
        }
        None
    }

    /// The set with the given features added.
    pub fn with_features(self, features: Vec<OsmFeature>) -> (r: Self)
        ensures
            r@.features == self@.features.union(features@.to_set()),
            r@.custom_queries == self@.custom_queries,
    {
        let mut set = self;
        let ghost start = set@;
        let mut i: usize = 0;
        assert(features@.take(0).to_set() =~= Set::<OsmFeature>::empty());
        assert(set@.features =~= start.features.union(features@.take(0).to_set()));
        while i < features.len()
            invariant
                i <= features@.len(),
                set@.features == start.features.union(features@.take(i as int).to_set()),
                set@.custom_queries == start.custom_queries,
            decreases features@.len() - i,
        {
            let ghost before = set@.features;
            set = set.with_feature(features[i]);
            proof {
                let next = features@.take(i + 1);
                let prev = features@.take(i as int);
                assert(next.to_set() =~= prev.to_set().insert(features@[i as int])) by {
                    assert forall|f: OsmFeature| next.to_set().contains(f) == prev.to_set().insert(
                        features@[i as int],
                    ).contains(f) by {
                        if next.contains(f) {
                            let k = choose|k: int| 0 <= k < next.len() && next[k] == f;
                            if k < i {
                                assert(prev[k] == f);
                            }
                        }
                        if prev.contains(f) {
                            let k = choose|k: int| 0 <= k < prev.len() && prev[k] == f;
                            assert(next[k] == f);
                        }
                        assert(next[i as int] == features@[i as int]);
                    }
                }
                assert(set@.features =~= start.features.union(next.to_set()));
            }
            i += 1;
        }
        assert(features@.take(features@.len() as int) =~= features@);
        set
    }

    /// The set with one feature added.
    pub fn with_feature(self, feature: OsmFeature) -> (r: Self)
        ensures
            r@.features == self@.features.insert(feature),
            r@.custom_queries == self@.custom_queries,
    {
        proof {
            use_type_invariant(&self);
        }
        match self.position(&feature) {
            Some(_) => {
                assert(self@.features =~= self@.features.insert(feature));
                self
            },
            None => {
                let ghost before = self.features@;
                let mut features = self.features;
                features.push(feature);
                proof {
                    assert(features@.no_duplicates()) by {
                        assert forall|a: int, b: int|
                            0 <= a < features@.len() && 0 <= b < features@.len() && a
                                != b implies features@[a] != features@[b] by {
                            if a < before.len() && b < before.len() {
                                assert(before[a] != before[b]);
                            } else if a < before.len() {
                                assert(before[a] != feature);
                            } else {
                                assert(before[b] != feature);
                            }
                        }
                    }
                    assert(features@.to_set() =~= before.to_set().insert(feature)) by {
                        assert forall|f: OsmFeature|
                            features@.to_set().contains(f) == before.to_set().insert(
                                feature,
                            ).contains(f) by {
                            if features@.contains(f) {
                                let k = choose|k: int| 0 <= k < features@.len() && features@[k] == f;
                                if k < before.len() {
                                    assert(before[k] == f);
                                }
                            }
                            if before.contains(f) {
                                let k = choose|k: int| 0 <= k < before.len() && before[k] == f;
                                assert(features@[k] == f);
                            }
                            assert(features@[before.len() as int] == feature);
                        }
                    }
                }
                FeatureSet { features, custom_queries: self.custom_queries }
            },
        }
    }

    /// The set with the given queries added after its own.
    pub fn with_custom_queries(self, queries: Vec<OsmTagQuery>) -> (r: Self)
        ensures
            r@.features == self@.features,
            r@.custom_queries == self@.custom_queries + query_views(queries@),
    {
        proof {
            use_type_invariant(&self);
        }
        let ghost before = self.custom_queries@;
        let mut custom_queries = self.custom_queries;
        let mut queries = queries;
        let ghost added = queries@;
        custom_queries.append(&mut queries);
        assert(query_views(custom_queries@) =~= query_views(before) + query_views(added));
        FeatureSet { features: self.features, custom_queries }
    }

    /// The set with one query added after its own.
    pub fn with_custom_query(self, query: OsmTagQuery) -> (r: Self)
        ensures
            r@.features == self@.features,
            r@.custom_queries == self@.custom_queries.push(query@),
    {
        proof {
            use_type_invariant(&self);
        }
        let ghost before = self.custom_queries@;
        let mut custom_queries = self.custom_queries;
        custom_queries.push(query);
        assert(query_views(custom_queries@) =~= query_views(before).push(query@));
        FeatureSet { features: self.features, custom_queries }
    }

    /// The set without the given feature.
    pub fn without_feature(self, feature: &OsmFeature) -> (r: Self)
        ensures
            r@.features == self@.features.remove(*feature),
            r@.custom_queries == self@.custom_queries,
    {
        proof {
            use_type_invariant(&self);
        }
        match self.position(feature) {
            None => {
                assert(self@.features =~= self@.features.remove(*feature));
                self
            },
            Some(i) => {
                let ghost before = self.features@;
                let mut features = self.features;
                features.remove(i);
                proof {
                    let after = features@;
                    assert(after =~= before.remove(i as int));
                    assert(after.no_duplicates()) by {
                        assert forall|a: int, b: int|
                            0 <= a < after.len() && 0 <= b < after.len() && a != b implies after[a]
                            != after[b] by {
                            let a0 = if a < i {
                                a
                            } else {
                                a + 1
                            };
                            let b0 = if b < i {
                                b
                            } else {
                                b + 1
                            };
                            assert(after[a] == before[a0] && after[b] == before[b0]);
                            assert(before[a0] != before[b0]);
                        }
                    }
                    assert(after.to_set() =~= before.to_set().remove(*feature)) by {
                        assert forall|f: OsmFeature|
                            after.to_set().contains(f) == before.to_set().remove(*feature).contains(
                                f,
                            ) by {
                            if after.contains(f) {
                                let k = choose|k: int| 0 <= k < after.len() && after[k] == f;
                                let k0 = if k < i {
                                    k
                                } else {
                                    k + 1
                                };
                                assert(before[k0] == f);
                                assert(before[k0] != before[i as int]);
                            }
                            if before.contains(f) && f != *feature {
                                let k = choose|k: int| 0 <= k < before.len() && before[k] == f;
                                if k < i {
                                    assert(after[k] == f);
                                } else {
                                    assert(after[k - 1] == f);
                                }
                            }
                        }
                    }
                }
                FeatureSet { features, custom_queries: self.custom_queries }
            },
        }
    }

    /// Whether the feature is in the set.
    pub fn contains_feature(&self, feature: &OsmFeature) -> (r: bool)
        ensures
            r == self@.features.contains(*feature),
    {
        self.position(feature).is_some()
    }

    /// The queries that the set asks for, each once, in the order of
    /// their keys and, among equal keys, of their values.
    pub fn to_osm_queries(&self) -> (r: Vec<OsmTagQuery>)
        ensures
            strictly_sorted(query_views(r@)),
            forall|q: QueryView| query_views(r@).contains(q) <==> self@.asks(q),
    {
        let mut all: Vec<OsmTagQuery> = Vec::new();
        let mut i: usize = 0;
        assert(query_views(all@) =~= all_feature_queries(self.features@.take(0)));
        while i < self.features.len()
            invariant
                i <= self.features@.len(),
                query_views(all@) == all_feature_queries(self.features@.take(i as int)),
            decreases self.features@.len() - i,
        {
            let mut queries = self.features[i].to_osm_queries();
            let ghost before = all@;
            let ghost added = queries@;
            all.append(&mut queries);
            proof {
                let next = self.features@.take(i + 1);
                assert(next.drop_last() =~= self.features@.take(i as int));
                assert(next.last() == self.features@[i as int]);
                assert(query_views(all@) =~= query_views(before) + query_views(added));
            }
            i += 1;
        }
        assert(self.features@.take(self.features@.len() as int) =~= self.features@);
        let ghost from_features = query_views(all@);
        let mut j: usize = 0;
        assert(query_views(all@) =~= from_features + query_views(self.custom_queries@.take(0)));
        while j < self.custom_queries.len()
            invariant
                j <= self.custom_queries@.len(),
                from_features == all_feature_queries(self.features@),
                query_views(all@) == from_features + query_views(
                    self.custom_queries@.take(j as int),
                ),
            decreases self.custom_queries@.len() - j,
        {
            let ghost before = all@;
            let copy = self.custom_queries[j].clone();
            all.push(copy);
            proof {
                let prev = self.custom_queries@.take(j as int);
                let next = self.custom_queries@.take(j + 1);
                assert(next =~= prev.push(self.custom_queries@[j as int]));
                lemma_views_push(prev, self.custom_queries@[j as int]);
                lemma_views_push(before, copy);
                assert(query_views(all@) =~= from_features + query_views(next));
            }
            j += 1;
        }
        assert(self.custom_queries@.take(self.custom_queries@.len() as int)
            =~= self.custom_queries@);
        let ghost wanted = query_views(all@);
        let mut result: Vec<OsmTagQuery> = Vec::new();
        let mut k: usize = 0;
        while k < all.len()
            invariant
                k <= all@.len(),
                wanted == query_views(all@),
                strictly_sorted(query_views(result@)),
                forall|q: QueryView|
                    query_views(result@).contains(q) <==> wanted.take(k as int).contains(q),
            decreases all@.len() - k,
        {
            let ghost before = query_views(result@);
            insert_sorted(&mut result, all[k].clone());
            proof {
                let prev = wanted.take(k as int);
                let next = wanted.take(k + 1);
                assert(wanted[k as int] == all@[k as int]@);
                assert forall|q: QueryView| query_views(result@).contains(q) <==> next.contains(
                    q,
                ) by {
                    if next.contains(q) {
                        let n = choose|n: int| 0 <= n < next.len() && next[n] == q;
                        if n < k {
                            assert(prev[n] == q);
                        }
                    }
                    if prev.contains(q) {
                        let n = choose|n: int| 0 <= n < prev.len() && prev[n] == q;
                        assert(next[n] == q);
                    }
                    assert(next[k as int] == wanted[k as int]);
                }
            }
            k += 1;
        }
        proof {
            assert(wanted.take(all@.len() as int) =~= wanted);
            let custom = query_views(self.custom_queries@);
            assert forall|q: QueryView| wanted.contains(q) <==> self@.asks(q) by {
                lemma_all_feature_queries(self.features@, q);
                if selects_any(self.features@, q) {
                    let n = choose|n: int|
                        0 <= n < self.features@.len() && feature_queries(
                            #[trigger] self.features@[n],
                        ).contains(q);
                    assert(self.features@.contains(self.features@[n]));
                }
                if exists|f: OsmFeature|
                    self@.features.contains(f) && #[trigger] feature_queries(f).contains(q) {
                    let f = choose|f: OsmFeature|
                        self@.features.contains(f) && #[trigger] feature_queries(f).contains(q);
                    let n = choose|n: int| 0 <= n < self.features@.len() && self.features@[n] == f;
                    assert(feature_queries(self.features@[n]).contains(q));
                }
                if wanted.contains(q) {
                    let n = choose|n: int| 0 <= n < wanted.len() && wanted[n] == q;
                    if n < from_features.len() {
                        assert(from_features[n] == q);
                    } else {
                        assert(custom[n - from_features.len()] == q);
                    }
                }
                if from_features.contains(q) {
                    let n = choose|n: int| 0 <= n < from_features.len() && from_features[n] == q;
                    assert(wanted[n] == q);
                }
                if custom.contains(q) {
                    let n = choose|n: int| 0 <= n < custom.len() && custom[n] == q;
                    assert(wanted[from_features.len() + n] == q);
                }
            }
        }
        result
    }

    /// The features of the set, each once, in the order in which they
    /// were added.
    pub fn features(&self) -> (r: &Vec<OsmFeature>)
        ensures
            r@.no_duplicates(),
            r@.to_set() == self@.features,
    {
        proof {
            use_type_invariant(self);
        }
        &self.features
    }

    /// The custom queries in the order in which they were added.
    pub fn custom_queries(&self) -> (r: &Vec<OsmTagQuery>)
        ensures
            query_views(r@) == self@.custom_queries,
    {
        &self.custom_queries
    }

    /// Whether the set has neither a feature nor a query.
    pub fn is_empty(&self) -> (r: bool)
        ensures
            r == (self@.features == Set::<OsmFeature>::empty() && self@.custom_queries.len() == 0),
    {
        let r = self.features.len() == 0 && self.custom_queries.len() == 0;
        proof {
            if self.features@.len() == 0 {
                assert(self@.features =~= Set::<OsmFeature>::empty());
            } else {
                assert(self.features@.contains(self.features@[0]));
                assert(self@.features.contains(self.features@[0]));
            }
        }
        r
    }

    /// The number of features and queries together.
    pub fn len(&self) -> (r: usize)
        requires
            self@.features.len() + self@.custom_queries.len() <= usize::MAX,
        ensures
            r == self@.features.len() + self@.custom_queries.len(),
    {
        proof {
            use_type_invariant(self);
            self.features@.unique_seq_to_set();
        }
        self.features.len() + self.custom_queries.len()
    }
}

impl Clone for FeatureSet {
    fn clone(&self) -> (r: Self)
        ensures
            r@ == self@,
    {
        proof {
            use_type_invariant(self);
        }
        let mut features: Vec<OsmFeature> = Vec::new();
        let mut i: usize = 0;
        while i < self.features.len()
            invariant
                i <= self.features@.len(),
                features@ == self.features@.take(i as int),
            decreases self.features@.len() - i,
        {
            features.push(self.features[i]);
            assert(features@ =~= self.features@.take(i + 1));
            i += 1;
        }
        assert(features@ =~= self.features@);
        let mut custom_queries: Vec<OsmTagQuery> = Vec::new();
        let mut j: usize = 0;
        assert(query_views(custom_queries@) =~= query_views(self.custom_queries@.take(0)));
        while j < self.custom_queries.len()
            invariant
                j <= self.custom_queries@.len(),
                query_views(custom_queries@) == query_views(self.custom_queries@.take(j as int)),
            decreases self.custom_queries@.len() - j,
        {
            let ghost before = custom_queries@;
            let copy = self.custom_queries[j].clone();
            custom_queries.push(copy);
            proof {
                let prev = self.custom_queries@.take(j as int);
                let next = self.custom_queries@.take(j + 1);
                assert(next =~= prev.push(self.custom_queries@[j as int]));
                lemma_views_push(prev, self.custom_queries@[j as int]);
                lemma_views_push(before, copy);
            }
            j += 1;
        }
        assert(self.custom_queries@.take(self.custom_queries@.len() as int)
            =~= self.custom_queries@);
        FeatureSet { features, custom_queries }
    }
}

impl Default for FeatureSet {
    fn default() -> (r: Self)
        ensures
            r@ == FeatureSet::urban_view(),
    {
        FeatureSet::urban()
    }
}

impl From<Vec<OsmFeature>> for FeatureSet {
    fn from(features: Vec<OsmFeature>) -> (r: Self)
        ensures
            r@.features == features@.to_set(),
            r@.custom_queries == Seq::<QueryView>::empty(),
    {
        let r = FeatureSet::new().with_features(features);
        assert(r@.features =~= features@.to_set());
        r
    }
}

impl FromSpecImpl<Vec<OsmFeature>> for FeatureSet {
    open spec fn obeys_from_spec() -> bool {
        false
    }

    open spec fn from_spec(features: Vec<OsmFeature>) -> Self {
        arbitrary()
    }
}

impl From<OsmFeature> for FeatureSet {
    fn from(feature: OsmFeature) -> (r: Self)
        ensures
            r@.features == set![feature],
            r@.custom_queries == Seq::<QueryView>::empty(),
    {
        let r = FeatureSet::new().with_feature(feature);
        assert(r@.features =~= set![feature]);
        r
    }
}

impl FromSpecImpl<OsmFeature> for FeatureSet {
    open spec fn obeys_from_spec() -> bool {
        false
    }

    open spec fn from_spec(feature: OsmFeature) -> Self {
        arbitrary()
    }
}

} // verus!
