//! The vector index: embeddings stored by identifier, each with its
//! vector, content, model and metadata.
//!
//! A vector holds `f32` values, kept here as their bit patterns
//! (`f32::to_bits`); similarity search, which is floating-point work, is
//! done by the caller over the stored vectors.

use vstd::prelude::*;
use crate::ids::now_timestamp;
use crate::str_map::{kv_insert, kv_remove, lookup, values_of, StrMap};
use crate::text::{append_chars, decimal, decimal_chars, from_chars, owned, to_chars};

verus! {

/// An embedding vector with metadata.
#[derive(Debug)]
pub struct Embedding {
    /// Unique identifier.
    pub id: String,
    /// The vector's values, as `f32` bits.
    pub vector_bits: Vec<u32>,
    /// Original text or content.
    pub content: String,
    /// Embedding model used.
    pub model: String,
    /// Dimension of the vector.
    pub dimension: usize,
    /// Additional metadata.
    pub metadata: StrMap<String>,
}

/// Vector index statistics.
#[derive(Debug, Clone, Copy)]
pub struct VectorIndexStats {
    pub total_embeddings: usize,
    pub total_dimension: usize,
    /// Unix time, in seconds, of the last change.
    pub last_updated: Option<i64>,
}

/// Vector index for semantic search: embeddings by identifier, in the
/// order their identifiers were first added.
#[derive(Debug)]
pub struct VectorIndex {
    embeddings: StrMap<Embedding>,
    dimension: usize,
    model: String,
    stats: VectorIndexStats,
}

/// The embeddings after adding each of `batch` whose vector has `dimension`
/// values, in order; the others are skipped.
pub open spec fn batch_added(
    kv: Seq<(Seq<char>, Embedding)>,
    batch: Seq<Embedding>,
    dimension: usize,
) -> Seq<(Seq<char>, Embedding)>
    decreases batch.len(),
{
    if batch.len() == 0 {
        kv
    } else {
        let prev = batch_added(kv, batch.drop_last(), dimension);
        let e = batch.last();
        if e.vector_bits@.len() == dimension {
            kv_insert(prev, e.id@, e)
        } else {
            prev
        }
    }
}

/// How many of `batch` have vectors of `dimension` values.
pub open spec fn fitting(batch: Seq<Embedding>, dimension: usize) -> nat {
    batch.filter(|e: Embedding| e.vector_bits@.len() == dimension).len()
}

/// The metadata of `e` maps `key` to `value`.
pub open spec fn has_metadata(e: Embedding, key: Seq<char>, value: Seq<char>) -> bool {
    lookup(e.metadata@, key) matches Some(v) && v@ == value
}

/// The error for a vector of the wrong dimension.
pub open spec fn dimension_error(expected: usize, got: usize) -> Seq<char> {
    "Vector dimension mismatch: expected "@ + decimal(expected as nat) + ", got "@ + decimal(got as nat)
}

impl VectorIndex {
    /// The stored embeddings by identifier, in the order of first addition.
    pub closed spec fn entries(&self) -> Seq<(Seq<char>, Embedding)> {
        self.embeddings@
    }

    /// The dimension of the vectors the index takes.
    pub closed spec fn dimension_spec(&self) -> usize {
        self.dimension
    }

    /// The name of the embedding model.
    pub closed spec fn model_spec(&self) -> Seq<char> {
        self.model@
    }

    /// The statistics.
    pub closed spec fn stats_spec(&self) -> VectorIndexStats {
        self.stats
    }

    /// An empty index for vectors of `dimension` values from `model`.
    pub fn new(dimension: usize, model: &str) -> (r: Self)
        ensures
            r.entries().len() == 0,
            r.dimension_spec() == dimension,
            r.model_spec() == model@,
            r.stats_spec().total_embeddings == 0,
            r.stats_spec().total_dimension == dimension,
            r.stats_spec().last_updated is Some,
    {
        VectorIndex {
            embeddings: StrMap::new(),
            dimension,
            model: owned(model),
            stats: VectorIndexStats {
                total_embeddings: 0,
                total_dimension: dimension,
                last_updated: Some(now_timestamp()),
            },
        }
    }

    /// Add an embedding, replacing one with the same identifier. A vector
    /// of another dimension is refused and nothing changes.
    pub fn add(&mut self, embedding: Embedding) -> (r: Result<(), String>)
        ensures
            embedding.vector_bits@.len() != old(self).dimension_spec() ==> {
                &&& r matches Err(m) && m@ == dimension_error(
                    old(self).dimension_spec(),
                    embedding.vector_bits@.len() as usize,
                )
                &&& final(self).entries() == old(self).entries()
                &&& final(self).stats_spec() == old(self).stats_spec()
            },
            embedding.vector_bits@.len() == old(self).dimension_spec() ==> {
                &&& r is Ok
                &&& final(self).entries() == kv_insert(old(self).entries(), embedding.id@, embedding)
                &&& final(self).stats_spec().total_embeddings == final(self).entries().len()
                &&& final(self).stats_spec().total_dimension == old(self).stats_spec().total_dimension
                &&& final(self).stats_spec().last_updated is Some
            },
            final(self).dimension_spec() == old(self).dimension_spec(),
            final(self).model_spec() == old(self).model_spec(),
    {
        if embedding.vector_bits.len() != self.dimension {
            let mut v = to_chars("Vector dimension mismatch: expected ");
            append_chars(&mut v, decimal_chars(self.dimension as u64).as_slice());
            append_chars(&mut v, to_chars(", got ").as_slice());
            append_chars(&mut v, decimal_chars(embedding.vector_bits.len() as u64).as_slice());
            return Err(from_chars(v.as_slice()));
        }
        let id = embedding.id.clone();
        self.embeddings.insert(id, embedding);
        self.stats.total_embeddings = self.embeddings.len();
        self.stats.last_updated = Some(now_timestamp());
        Ok(())
    }

    /// The embedding with the given identifier.
    pub fn get(&self, id: &str) -> (r: Option<&Embedding>)
        ensures
            match r {
                Some(e) => lookup(self.entries(), id@) == Some(*e),
                None => lookup(self.entries(), id@) is None,
            },
    {
        self.embeddings.get(id)
    }

    /// Delete the embedding with the given identifier; returns whether
    /// there was one. Nothing changes when there was none.
    pub fn delete(&mut self, id: &str) -> (r: bool)
        ensures
            r == (lookup(old(self).entries(), id@) is Some),
            final(self).entries() == kv_remove(old(self).entries(), id@),
            lookup(final(self).entries(), id@) is None,
            r ==> final(self).stats_spec().total_embeddings == final(self).entries().len()
                && final(self).stats_spec().total_dimension == old(self).stats_spec().total_dimension
                && final(self).stats_spec().last_updated is Some,
            !r ==> final(self).stats_spec() == old(self).stats_spec(),
            final(self).dimension_spec() == old(self).dimension_spec(),
            final(self).model_spec() == old(self).model_spec(),
    {
        let removed = self.embeddings.remove(id);
        match removed {
            Some(_) => {
                self.stats.total_embeddings = self.embeddings.len();
                self.stats.last_updated = Some(now_timestamp());
                true
            },
            None => {
                assert(kv_remove(old(self).entries(), id@) == old(self).entries());
                false
            },
        }
    }

    /// All embeddings, in the order of first addition.
    pub fn get_all(&self) -> (r: Vec<&Embedding>)
        ensures
            r@.map_values(|e: &Embedding| *e) == values_of(self.entries()),
    {
        let mut r: Vec<&Embedding> = Vec::new();
        let mut i: usize = 0;
        while i < self.embeddings.len()
            invariant
                i <= self.entries().len(),
                r@.map_values(|e: &Embedding| *e) == values_of(self.entries()).take(i as int),
            decreases self.entries().len() - i,
        {
            let ghost before = r@.map_values(|e: &Embedding| *e);
            r.push(self.embeddings.value_at(i));
            assert(r@.map_values(|e: &Embedding| *e) =~= before.push(self.entries()[i as int].1));
            assert(values_of(self.entries()).take(i + 1) =~= values_of(self.entries()).take(
                i as int,
            ).push(self.entries()[i as int].1));
            i += 1;
        }
        assert(values_of(self.entries()).take(self.entries().len() as int) =~= values_of(
            self.entries(),
        ));
        r
    }

    /// The index statistics.
    pub fn stats(&self) -> (r: &VectorIndexStats)
        ensures
            *r == self.stats_spec(),
    {
        &self.stats
    }

    /// The dimension of the vectors the index takes.
    pub fn dimension(&self) -> (r: usize)
        ensures
            r == self.dimension_spec(),
    {
        self.dimension
    }

    /// The name of the embedding model.
    pub fn model(&self) -> (r: &str)
        ensures
            r@ == self.model_spec(),
    {
        self.model.as_str()
    }

    /// Remove every embedding.
    pub fn clear(&mut self)
        ensures
            final(self).entries().len() == 0,
            final(self).stats_spec().total_embeddings == 0,
            final(self).stats_spec().total_dimension == old(self).stats_spec().total_dimension,
            final(self).stats_spec().last_updated is Some,
            final(self).dimension_spec() == old(self).dimension_spec(),
            final(self).model_spec() == old(self).model_spec(),
    {
        self.embeddings.clear();
        self.stats.total_embeddings = 0;
        self.stats.last_updated = Some(now_timestamp());
    }

    /// Add embeddings in order, skipping those of the wrong dimension;
    /// returns how many were added.
    pub fn add_batch(&mut self, embeddings: Vec<Embedding>) -> (r: Result<usize, String>)
        ensures
            final(self).entries() == batch_added(old(self).entries(), embeddings@, old(self).dimension_spec()),
            r == Ok::<usize, String>(fitting(embeddings@, old(self).dimension_spec()) as usize),
            final(self).dimension_spec() == old(self).dimension_spec(),
            final(self).model_spec() == old(self).model_spec(),
    {
        let ghost start = self.entries();
        let ghost all = embeddings@;
        let ghost dim = self.dimension;
        let n = embeddings.len();
        let mut added: usize = 0;
        let mut rest = embeddings;
        let ghost mut taken: Seq<Embedding> = Seq::empty();
        assert(rest@ =~= all.skip(0));
        while rest.len() > 0
            invariant
                dim == self.dimension_spec(),
                self.model_spec() == old(self).model_spec(),
                all.len() == n,
                taken.len() + rest@.len() == all.len(),
                taken =~= all.take(taken.len() as int),
                rest@ =~= all.skip(taken.len() as int),
                self.entries() == batch_added(start, taken, dim),
                added == fitting(taken, dim),
                added <= taken.len(),
            decreases rest@.len(),
        {
            let e = rest.remove(0);
            let ghost k = taken.len() as int;
            assert(e == all[k]);
            let fits = e.vector_bits.len() == self.dimension;
            let ghost ev = e;
            let _ = self.add(e);
            proof {
                taken = taken.push(ev);
                assert(taken.drop_last() =~= all.take(k));
                assert(taken =~= all.take(k + 1));
                assert(rest@ =~= all.skip(k + 1));
                reveal_with_fuel(Seq::filter, 1);
            }
            if fits {
                added = added + 1;
            }
        }
        assert(taken =~= all);
        Ok(added)
    }

    /// The embeddings whose metadata maps `key` to `value`, in the order of
    /// first addition.
    pub fn get_by_metadata(&self, key: &str, value: &str) -> (r: Vec<&Embedding>)
        ensures
            r@.map_values(|e: &Embedding| *e) == values_of(self.entries()).filter(
                |e: Embedding| has_metadata(e, key@, value@),
            ),
    {
        let ghost vals = values_of(self.entries());
        let mut r: Vec<&Embedding> = Vec::new();
        let mut i: usize = 0;
        while i < self.embeddings.len()
            invariant
                i <= self.entries().len(),
                vals == values_of(self.entries()),
                r@.map_values(|e: &Embedding| *e) == vals.take(i as int).filter(
                    |e: Embedding| has_metadata(e, key@, value@),
                ),
            decreases self.entries().len() - i,
        {
            proof {
                assert(vals.take(i + 1).drop_last() =~= vals.take(i as int));
                reveal_with_fuel(Seq::filter, 1);
            }
            let e = self.embeddings.value_at(i);
            assert(vals[i as int] == *e);
            let hit = match e.metadata.get(key) {
                Some(v) => crate::text::str_eq(v.as_str(), value),
                None => false,
            };
            if hit {
                let ghost before = r@.map_values(|x: &Embedding| *x);
                r.push(e);
                assert(r@.map_values(|x: &Embedding| *x) =~= before.push(*e));
            }
            i += 1;
        }
        assert(vals.take(self.entries().len() as int) =~= vals);
        r
    }
}

} // verus!
