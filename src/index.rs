use vstd::prelude::*;

use crate::error::VectorStoreError;
use crate::params::{ParamsView, SerevictahParams};
use crate::query::{configured, untouched_settings, QueryEntry, QueryPlan};
use crate::row::{decimal, lookup, push_decimal, score_of, text_of, Row};

verus! {

/// Key under which a typed vector search reports a row's distance.
pub open spec fn payload_distance_key() -> Seq<char> {
    seq!['_', 'd', 'i', 's', 't', 'a', 'n', 'c', 'e']
}

/// Key under which the plain query's nearest-neighbour step reports it.
pub open spec fn ids_distance_key() -> Seq<char> {
    seq!['d', 'i', 's', 't', 'a', 'n', 'c', 'e']
}

pub open spec fn unknown_prefix() -> Seq<char> {
    seq!['u', 'n', 'k', 'n', 'o', 'w', 'n']
}

/// Id of the `i`-th row of a search with payload: the row's string under the id
/// field, or `unknown` followed by `i` in decimal.
pub open spec fn payload_row_id(row: Row, id_field: Seq<char>, i: nat) -> Seq<char> {
    match text_of(row, id_field) {
        Some(s) => s,
        None => unknown_prefix() + decimal(i),
    }
}

/// Id of a row of an id-only search: the row's string under the id field, or
/// the empty string.
pub open spec fn ids_row_id(row: Row, id_field: Seq<char>) -> Seq<char> {
    match text_of(row, id_field) {
        Some(s) => s,
        None => Seq::empty(),
    }
}

pub open spec fn min(a: int, b: int) -> int {
    if a <= b { a } else { b }
}

/// Names of the columns that are not vector-valued, in schema order.
pub open spec fn non_vector_columns(fields: Seq<(String, bool)>) -> Seq<Seq<char>>
    decreases fields.len(),
{
    if fields.len() == 0 {
        Seq::empty()
    } else {
        let rest = non_vector_columns(fields.drop_last());
        if fields.last().1 {
            rest
        } else {
            rest.push(fields.last().0@)
        }
    }
}

/// The names of the columns a search with payload projects: every column of the
/// schema that is not vector-valued, in schema order. Each entry of `fields` is a
/// column name and whether the column holds vectors.
pub fn payload_columns(fields: &Vec<(String, bool)>) -> (r: Vec<String>)
    ensures
        r@.map_values(|s: String| s@) == non_vector_columns(fields@),
{
    let mut r: Vec<String> = Vec::new();
    let mut i: usize = 0;
    while i < fields.len()
        invariant
            i <= fields@.len(),
            r@.map_values(|s: String| s@) == non_vector_columns(fields@.subrange(0, i as int)),
        decreases fields@.len() - i,
    {
        proof {
            assert(fields@.subrange(0, i as int + 1).drop_last() =~= fields@.subrange(0, i as int));
        }
        if !fields[i].1 {
            r.push(fields[i].0.clone());
            proof {
                assert(r@.map_values(|s: String| s@) =~= non_vector_columns(
                    fields@.subrange(0, i as int),
                ).push(fields@[i as int].0@));
            }
        }
        i = i + 1;
    }
    proof {
        assert(fields@.subrange(0, fields@.len() as int) =~= fields@);
    }
    r
}

/// A vector index over a store table: the embedding model that turns query text
/// into vectors, the table, the column holding each record's id, and the search
/// parameters applied to every query.
pub struct LanceDbVectorIndex<M, B> {
    model: M,
    table: B,
    id_field: String,
    serevictah_params: SerevictahParams,
}

impl<M, B> LanceDbVectorIndex<M, B> {
    pub closed spec fn spec_model(&self) -> M {
        self.model
    }

    pub closed spec fn spec_table(&self) -> B {
        self.table
    }

    pub closed spec fn spec_id_field(&self) -> Seq<char> {
        self.id_field@
    }

    pub closed spec fn spec_params(&self) -> ParamsView {
        self.serevictah_params@
    }

    /// An index over `table` with `model`, reading ids from the column `id_field`
    /// and applying `serevictah_params` to every search.
    pub fn new(table: B, model: M, id_field: &str, serevictah_params: SerevictahParams) -> (r: Self)
        ensures
            r.spec_model() == model,
            r.spec_table() == table,
            r.spec_id_field() == id_field@,
            r.spec_params() == serevictah_params@,
    {
        LanceDbVectorIndex { table, model, id_field: id_field.to_string(), serevictah_params }
    }

    pub fn model(&self) -> (r: &M)
        ensures
            *r == self.spec_model(),
    {
        &self.model
    }

    pub fn table(&self) -> (r: &B)
        ensures
            *r == self.spec_table(),
    {
        &self.table
    }

    pub fn id_field(&self) -> (r: &String)
        ensures
            r@ == self.spec_id_field(),
    {
        &self.id_field
    }

    pub fn serevictah_params(&self) -> (r: &SerevictahParams)
        ensures
            r@ == self.spec_params(),
    {
        &self.serevictah_params
    }

    /// Applies this index's search parameters to a query.
    pub fn build_query(&self, query: QueryPlan) -> (r: QueryPlan)
        ensures
            r.settings() == configured(self.spec_params(), query.settings()),
            r.entry == query.entry,
            r.select == query.select,
            r.limit == query.limit,
    {
        self.serevictah_params.apply(query)
    }
    /// First step of a search with payload, taken once the embedding model has
    /// answered. A failed embedding ends the search before the store is asked
    /// anything. Otherwise the query is a typed vector search for at most `n`
    /// rows with this index's parameters applied; the caller then restricts it to
    /// the non-vector columns (see `payload_columns`).
    pub fn top_n_query(&self, embedding: Result<(), String>, n: usize) -> (r: Result<
        QueryPlan,
        VectorStoreError,
    >)
        ensures
            match embedding {
                Err(m) => r == Err::<QueryPlan, VectorStoreError>(
                    VectorStoreError::EmbeddingError(m),
                ),
                Ok(_) => r.is_ok() && r.unwrap().entry == QueryEntry::VectorSearch
                    && r.unwrap().limit == Some(n) && r.unwrap().select.is_none()
                    && r.unwrap().settings() == configured(
                    self.spec_params(),
                    untouched_settings(),
                ),
            },
    {
        match embedding {
            Err(m) => Err(VectorStoreError::EmbeddingError(m)),
            Ok(()) => Ok(self.build_query(QueryPlan::new(QueryEntry::VectorSearch).limit(n))),
        }
    }

    /// First step of an id-only search, taken once the embedding model has
    /// answered. A failed embedding ends the search before the store is asked
    /// anything. Otherwise the query projects the id column alone, runs through
    /// the plain query's nearest-neighbour step for at most `n` rows, and has this
    /// index's parameters applied.
    pub fn top_n_ids_query(&self, embedding: Result<(), String>, n: usize) -> (r: Result<
        QueryPlan,
        VectorStoreError,
    >)
        ensures
            match embedding {
                Err(m) => r == Err::<QueryPlan, VectorStoreError>(
                    VectorStoreError::EmbeddingError(m),
                ),
                Ok(_) => r.is_ok() && r.unwrap().entry == QueryEntry::NearestTo
                    && r.unwrap().limit == Some(n) && r.unwrap().select.is_some()
                    && r.unwrap().select.unwrap()@.len() == 1
                    && r.unwrap().select.unwrap()@[0]@ == self.spec_id_field()
                    && r.unwrap().settings() == configured(
                    self.spec_params(),
                    untouched_settings(),
                ),
            },
    {
        match embedding {
            Err(m) => Err(VectorStoreError::EmbeddingError(m)),
            Ok(()) => {
                let columns: Vec<String> = vec![self.id_field.clone()];
                Ok(self.build_query(QueryPlan::new(QueryEntry::NearestTo).select(columns).limit(n)))
            },
        }
    }

    /// Last step of a search with payload: turns the rows the store returned,
    /// each with its payload as decoded from the whole row, into results. At most
    /// `n` rows are taken, in the store's order. Each result holds the row's
    /// `_distance` (as the bits of a double, `0.0` when absent or not a number),
    /// its id (`unknown` and the row's index when absent or not a string), and the
    /// payload. If any payload among those rows failed to decode, the first such
    /// error is returned and no result at all.
    pub fn top_n_results<T>(&self, n: usize, rows: Vec<(Row, Result<T, serde_json::Error>)>) -> (r:
        Result<Vec<(u64, String, T)>, VectorStoreError>)
        ensures
            n == 0 ==> r.is_ok() && r.unwrap()@.len() == 0,
            r.is_ok() <==> forall|i: int|
                0 <= i < min(n as int, rows@.len() as int) ==> (#[trigger] rows@[i]).1.is_ok(),
            r.is_ok() ==> {
                let v = r.unwrap()@;
                &&& v.len() == min(n as int, rows@.len() as int)
                &&& v.len() <= n
                &&& forall|i: int|
                    0 <= i < v.len() ==> {
                        &&& (#[trigger] v[i]).0 == score_of(rows@[i].0, payload_distance_key())
                        &&& v[i].1@ == payload_row_id(rows@[i].0, self.spec_id_field(), i as nat)
                        &&& rows@[i].1 == Ok::<T, serde_json::Error>(v[i].2)
                    }
            },
            r.is_err() ==> exists|i: int|
                0 <= i < min(n as int, rows@.len() as int) && (#[trigger] rows@[i]).1.is_err()
                    && (forall|j: int| 0 <= j < i ==> (#[trigger] rows@[j]).1.is_ok()) && r
                    == Err::<Vec<(u64, String, T)>, VectorStoreError>(
                    VectorStoreError::JsonError(rows@[i].1->Err_0),
                ),
    {
        let ghost all = rows@;
        let mut rest = rows;
        let mut out: Vec<(u64, String, T)> = Vec::new();
        let distance_key = String::from_str("_distance");
        proof {
            reveal_strlit("_distance");
            assert(all.skip(0) =~= all);
        }
        let take: usize = if n < rest.len() { n } else { rest.len() };
        let mut i: usize = 0;
        while i < take
            invariant
                take == min(n as int, all.len() as int),
                all == rows@,
                i <= take,
                rest@ == all.skip(i as int),
                distance_key@ == payload_distance_key(),
                out@.len() == i,
                forall|j: int| 0 <= j < i ==> (#[trigger] all[j]).1.is_ok(),
                forall|j: int|
                    0 <= j < i ==> {
                        &&& (#[trigger] out@[j]).0 == score_of(all[j].0, payload_distance_key())
                        &&& out@[j].1@ == payload_row_id(all[j].0, self.spec_id_field(), j as nat)
                        &&& all[j].1 == Ok::<T, serde_json::Error>(out@[j].2)
                    },
            decreases take - i,
        {
            let item = rest.remove(0);
            proof {
                assert(rest@ =~= all.skip(i as int + 1));
            }
            let (row, payload) = item;
            let score = row.score_field(&distance_key);
            let id = match row.text_field(&self.id_field) {
                Some(id) => id,
                None => {
                    let mut id = String::from_str("unknown");
                    proof {
                        reveal_strlit("unknown");
                    }
                    push_decimal(&mut id, i);
                    id
                },
            };
            match payload {
                Ok(value) => {
                    proof {
                        assert(id@ == payload_row_id(all[i as int].0, self.spec_id_field(), i as nat));
                    }
                    out.push((score, id, value));
                },
                Err(e) => {
                    let r = Err(crate::error::serde_to_revicta_error(e));
                    proof {
                        let k = i as int;
                        assert(all[k].1 == Err::<T, serde_json::Error>(e));
                        assert(!(forall|j: int|
                            0 <= j < min(n as int, all.len() as int) ==> (#[trigger] all[j]).1.is_ok()));
                    }
                    return r;
                },
            }
            i = i + 1;
        }
        Ok(out)
    }

    /// Last step of an id-only search: turns the rows the store returned into
    /// results. At most `n` rows are taken, in the store's order. Each result
    /// holds the row's `distance` (as the bits of a double, `0.0` when absent or
    /// not a number) and its id (the empty string when absent or not a string).
    pub fn top_n_ids_results(&self, n: usize, rows: &Vec<Row>) -> (r: Vec<(u64, String)>)
        ensures
            r@.len() == min(n as int, rows@.len() as int),
            r@.len() <= n,
            forall|i: int|
                0 <= i < r@.len() ==> {
                    &&& (#[trigger] r@[i]).0 == score_of(rows@[i], ids_distance_key())
                    &&& r@[i].1@ == ids_row_id(rows@[i], self.spec_id_field())
                },
    {
        let mut out: Vec<(u64, String)> = Vec::new();
        let distance_key = String::from_str("distance");
        proof {
            reveal_strlit("distance");
        }
        let take: usize = if n < rows.len() { n } else { rows.len() };
        let mut i: usize = 0;
        while i < take
            invariant
                take == min(n as int, rows@.len() as int),
                i <= take,
                distance_key@ == ids_distance_key(),
                out@.len() == i,
                forall|j: int|
                    0 <= j < i ==> {
                        &&& (#[trigger] out@[j]).0 == score_of(rows@[j], ids_distance_key())
                        &&& out@[j].1@ == ids_row_id(rows@[j], self.spec_id_field())
                    },
            decreases take - i,
        {
            let row = &rows[i];
            let score = row.score_field(&distance_key);
            let id = match row.text_field(&self.id_field) {
                Some(id) => id,
                None => String::new(),
            };
            out.push((score, id));
            i = i + 1;
        }
        out
    
    }
}

/// A row without a number under the distance key scores exactly `0.0`.
pub proof fn lemma_missing_distance_scores_zero(row: Row, key: Seq<char>)
    requires
        lookup(row.fields@, key).is_none(),
    ensures
        score_of(row, key) == 0,
{
}

/// In a search with payload, a row without a string id gets `unknown` followed
/// by its index; at index `0` that is `unknown0`.
pub proof fn lemma_payload_missing_id(row: Row, id_field: Seq<char>, i: nat)
    requires
        text_of(row, id_field).is_none(),
    ensures
        payload_row_id(row, id_field, i) == unknown_prefix() + decimal(i),
        payload_row_id(row, id_field, 0) == unknown_prefix() + seq!['0'],
{
}

/// In an id-only search, a row without a string id gets the empty id, which is
/// never the placeholder a search with payload gives the same row.
pub proof fn lemma_ids_missing_id(row: Row, id_field: Seq<char>, i: nat)
    requires
        text_of(row, id_field).is_none(),
    ensures
        ids_row_id(row, id_field) == Seq::<char>::empty(),
        ids_row_id(row, id_field) != payload_row_id(row, id_field, i),
{
    assert(payload_row_id(row, id_field, i).len() > 0);
}

} // verus!
