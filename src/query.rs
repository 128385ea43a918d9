use vstd::prelude::*;

use crate::params::{
    opt_string_view, with_column, with_distance_type, with_nprobes, with_post_filter,
    with_refine_factor, with_serevictah_type, DistanceType, ParamsView, SerevictahParams,
    SerevictahType,
};

verus! {

/// The store's entry point that a nearest-neighbour query starts from.
#[derive(Debug, Clone, Copy, PartialEq, Eq, Structural)]
pub enum QueryEntry {
    /// A typed vector search; rows report their distance under `_distance`.
    VectorSearch,
    /// The plain query's nearest-neighbour step; rows report it under `distance`.
    NearestTo,
}

/// Mathematical model of the tuning options set on a query.
pub struct SettingsView {
    pub distance_type: Option<DistanceType>,
    pub bypass_vector_index: bool,
    pub nprobes: Option<usize>,
    pub refine_factor: Option<u32>,
    pub postfilter: bool,
    pub column: Option<Seq<char>>,
}

/// A nearest-neighbour query to be run against the store: where it starts, which
/// columns it projects (`None`: all), how many rows it returns at most, and the
/// tuning options set on it. The query vector itself is attached by the caller.
#[derive(Debug, Clone)]
pub struct QueryPlan {
    pub entry: QueryEntry,
    pub select: Option<Vec<String>>,
    pub limit: Option<usize>,
    pub distance_type: Option<DistanceType>,
    pub bypass_vector_index: bool,
    pub nprobes: Option<usize>,
    pub refine_factor: Option<u32>,
    pub postfilter: bool,
    pub column: Option<String>,
}

impl QueryPlan {
    pub open spec fn settings(&self) -> SettingsView {
        SettingsView {
            distance_type: self.distance_type,
            bypass_vector_index: self.bypass_vector_index,
            nprobes: self.nprobes,
            refine_factor: self.refine_factor,
            postfilter: self.postfilter,
            column: opt_string_view(self.column),
        }
    }

    /// A query from `entry` with no projection, no limit and no option set.
    pub fn new(entry: QueryEntry) -> (r: Self)
        ensures
            r.entry == entry,
            r.select.is_none(),
            r.limit.is_none(),
            r.settings() == untouched_settings(),
    {
        QueryPlan {
            entry,
            select: None,
            limit: None,
            distance_type: None,
            bypass_vector_index: false,
            nprobes: None,
            refine_factor: None,
            postfilter: false,
            column: None,
        }
    }

    /// Restricts the query to the given columns.
    pub fn select(self, columns: Vec<String>) -> (r: Self)
        ensures
            r.select == Some(columns),
            r.entry == self.entry,
            r.limit == self.limit,
            r.settings() == self.settings(),
    {
        QueryPlan { select: Some(columns), ..self }
    }

    /// Caps the number of rows returned.
    pub fn limit(self, n: usize) -> (r: Self)
        ensures
            r.limit == Some(n),
            r.entry == self.entry,
            r.select == self.select,
            r.settings() == self.settings(),
    {
        QueryPlan { limit: Some(n), ..self }
    }
}

/// Tuning options of a query on which nothing was set.
pub open spec fn untouched_settings() -> SettingsView {
    SettingsView {
        distance_type: None,
        bypass_vector_index: false,
        nprobes: None,
        refine_factor: None,
        postfilter: false,
        column: None,
    }
}

/// The options of `q` once the parameters `p` are applied to it: a distance type
/// and a column replace the query's own; a flat search bypasses the index; probes
/// and refine factor are set only for an approximate search; post-filtering is
/// switched on only by an explicit `true`.
pub open spec fn configured(p: ParamsView, q: SettingsView) -> SettingsView {
    SettingsView {
        distance_type: if p.distance_type.is_some() { p.distance_type } else { q.distance_type },
        bypass_vector_index: q.bypass_vector_index || p.serevictah_type == Some(SerevictahType::Flat),
        nprobes: if p.serevictah_type == Some(SerevictahType::Approximate) && p.nprobes.is_some() {
            p.nprobes
        } else {
            q.nprobes
        },
        refine_factor: if p.serevictah_type == Some(SerevictahType::Approximate)
            && p.refine_factor.is_some() {
            p.refine_factor
        } else {
            q.refine_factor
        },
        postfilter: q.postfilter || p.post_filter == Some(true),
        column: if p.column.is_some() { p.column } else { q.column },
    }
}

impl SerevictahParams {
    /// Applies these parameters to a query. Entry point, projection and limit
    /// are kept; only the tuning options change.
    pub fn apply(&self, query: QueryPlan) -> (r: QueryPlan)
        ensures
            r.settings() == configured(self@, query.settings()),
            r.entry == query.entry,
            r.select == query.select,
            r.limit == query.limit,
    {
        let mut query = query;
        if let Some(distance_type) = self.distance_type {
            query.distance_type = Some(distance_type);
        }
        if let Some(SerevictahType::Flat) = self.serevictah_type {
            query.bypass_vector_index = true;
        }
        if let Some(SerevictahType::Approximate) = self.serevictah_type {
            if let Some(nprobes) = self.nprobes {
                query.nprobes = Some(nprobes);
            }
            if let Some(refine_factor) = self.refine_factor {
                query.refine_factor = Some(refine_factor);
            }
        }
        if let Some(true) = self.post_filter {
            query.postfilter = true;
        }
        if let Some(column) = &self.column {
            query.column = Some(column.clone());
        }
        query
    }
}

/// An approximate search with a probe count sets that count and leaves the
/// index bypass as the query had it.
pub proof fn lemma_approximate_sets_probes(p: ParamsView, q: SettingsView, k: usize)
    requires
        p.serevictah_type == Some(SerevictahType::Approximate),
        p.nprobes == Some(k),
    ensures
        configured(p, q).nprobes == Some(k),
        configured(p, q).bypass_vector_index == q.bypass_vector_index,
{
}

/// A flat search always bypasses the index, and leaves probe count and refine
/// factor as the query had them, whatever the parameters say of those.
pub proof fn lemma_flat_bypasses_index(p: ParamsView, q: SettingsView)
    requires
        p.serevictah_type == Some(SerevictahType::Flat),
    ensures
        configured(p, q).bypass_vector_index,
        configured(p, q).nprobes == q.nprobes,
        configured(p, q).refine_factor == q.refine_factor,
{
}

/// Setting every parameter through the builders gives the same configured query
/// whichever order the builders are called in.
pub proof fn lemma_builder_order_irrelevant(
    p: ParamsView,
    q: SettingsView,
    d: DistanceType,
    t: SerevictahType,
    k: usize,
    f: u32,
    b: bool,
    c: Seq<char>,
)
    ensures
        configured(
            with_column(
                with_post_filter(
                    with_refine_factor(
                        with_nprobes(with_serevictah_type(with_distance_type(p, d), t), k),
                        f,
                    ),
                    b,
                ),
                c,
            ),
            q,
        ) == configured(
            with_distance_type(
                with_serevictah_type(
                    with_nprobes(with_refine_factor(with_post_filter(with_column(p, c), b), f), k),
                    t,
                ),
                d,
            ),
            q,
        ),
{
}

} // verus!
