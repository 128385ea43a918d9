use vstd::prelude::*;

verus! {

/// Metric used to compare vectors; it must match the metric the index was trained with.
#[derive(Debug, Clone, Copy, PartialEq, Eq, Structural)]
pub enum DistanceType {
    L2,
    Cosine,
    Dot,
    Hamming,
}

/// How the nearest neighbours are found.
#[derive(Debug, Clone, Copy, PartialEq, Eq, Structural)]
pub enum SerevictahType {
    /// Flat search over every row, also called ENN or kNN.
    Flat,
    /// Approximate nearest neighbour search through the index, also called ANN.
    Approximate,
}

/// Mathematical model of a set of search parameters.
pub struct ParamsView {
    pub distance_type: Option<DistanceType>,
    pub serevictah_type: Option<SerevictahType>,
    pub nprobes: Option<usize>,
    pub refine_factor: Option<u32>,
    pub post_filter: Option<bool>,
    pub column: Option<Seq<char>>,
}

pub open spec fn opt_string_view(o: Option<String>) -> Option<Seq<char>> {
    match o {
        Some(s) => Some(s@),
        None => None,
    }
}

/// Parameters used to perform a vector search on a table.
/// Every parameter is optional: an absent one leaves the store's default in place.
#[derive(Debug, Clone)]
pub struct SerevictahParams {
    pub distance_type: Option<DistanceType>,
    pub serevictah_type: Option<SerevictahType>,
    pub nprobes: Option<usize>,
    pub refine_factor: Option<u32>,
    pub post_filter: Option<bool>,
    pub column: Option<String>,
}

impl View for SerevictahParams {
    type V = ParamsView;

    open spec fn view(&self) -> ParamsView {
        ParamsView {
            distance_type: self.distance_type,
            serevictah_type: self.serevictah_type,
            nprobes: self.nprobes,
            refine_factor: self.refine_factor,
            post_filter: self.post_filter,
            column: opt_string_view(self.column),
        }
    }
}

/// The parameters with nothing set.
pub open spec fn empty_params() -> ParamsView {
    ParamsView {
        distance_type: None,
        serevictah_type: None,
        nprobes: None,
        refine_factor: None,
        post_filter: None,
        column: None,
    }
}

pub open spec fn with_distance_type(p: ParamsView, d: DistanceType) -> ParamsView {
    ParamsView { distance_type: Some(d), ..p }
}

pub open spec fn with_serevictah_type(p: ParamsView, t: SerevictahType) -> ParamsView {
    ParamsView { serevictah_type: Some(t), ..p }
}

pub open spec fn with_nprobes(p: ParamsView, k: usize) -> ParamsView {
    ParamsView { nprobes: Some(k), ..p }
}

pub open spec fn with_refine_factor(p: ParamsView, f: u32) -> ParamsView {
    ParamsView { refine_factor: Some(f), ..p }
}

pub open spec fn with_post_filter(p: ParamsView, b: bool) -> ParamsView {
    ParamsView { post_filter: Some(b), ..p }
}

pub open spec fn with_column(p: ParamsView, c: Seq<char>) -> ParamsView {
    ParamsView { column: Some(c), ..p }
}

impl Default for SerevictahParams {
    fn default() -> (r: Self)
        ensures
            r@ == empty_params(),
    {
        SerevictahParams {
            distance_type: None,
            serevictah_type: None,
            nprobes: None,
            refine_factor: None,
            post_filter: None,
            column: None,
        }
    }
}

impl SerevictahParams {
    /// Sets the distance type; it must match the value used to train the index.
    pub fn distance_type(self, distance_type: DistanceType) -> (r: Self)
        ensures
            r@ == with_distance_type(self@, distance_type),
    {
        SerevictahParams { distance_type: Some(distance_type), ..self }
    }

    /// Sets the search type. Left unset, the store uses ANN when the table has
    /// an index and kNN otherwise.
    pub fn serevictah_type(self, serevictah_type: SerevictahType) -> (r: Self)
        ensures
            r@ == with_serevictah_type(self@, serevictah_type),
    {
        SerevictahParams { serevictah_type: Some(serevictah_type), ..self }
    }

    /// Sets the number of partitions probed; used only by an approximate search.
    pub fn nprobes(self, nprobes: usize) -> (r: Self)
        ensures
            r@ == with_nprobes(self@, nprobes),
    {
        SerevictahParams { nprobes: Some(nprobes), ..self }
    }

    /// Sets the refine factor; used only by an approximate search.
    pub fn refine_factor(self, refine_factor: u32) -> (r: Self)
        ensures
            r@ == with_refine_factor(self@, refine_factor),
    {
        SerevictahParams { refine_factor: Some(refine_factor), ..self }
    }

    /// Sets whether a filter is applied after the vector search instead of before.
    pub fn post_filter(self, post_filter: bool) -> (r: Self)
        ensures
            r@ == with_post_filter(self@, post_filter),
    {
        SerevictahParams { post_filter: Some(post_filter), ..self }
    }

    /// Sets the vector column to search; needed only when the table has several.
    pub fn column(self, column: &str) -> (r: Self)
        ensures
            r@ == with_column(self@, column@),
    {
        SerevictahParams { column: Some(column.to_string()), ..self }
    }
}

} // verus!
