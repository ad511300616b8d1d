//! Batching of a stream of decoded rows.
//!
//! The source is read one row at a time by the caller, who offers each
//! outcome to a `Chunker`: a decoded row, or nothing for a row that failed
//! to decode. Every `chunk_size` attempts close a window; the rows decoded
//! within it form a batch, and a window without any is passed over. When the
//! source is exhausted the rows of the open window form the last batch.

use vstd::prelude::*;

verus! {

/// The rows that were decoded, in order, out of the outcomes of a sequence
/// of attempts.
pub open spec fn decoded<R>(outcomes: Seq<Option<R>>) -> Seq<R>
    decreases outcomes.len(),
{
    if outcomes.len() == 0 {
        Seq::empty()
    } else {
        let before = decoded(outcomes.drop_last());
        match outcomes.last() {
            Some(row) => before.push(row),
            None => before,
        }
    }
}

/// The batch, if any, that a closed window leaves: its rows, unless there
/// are none.
pub open spec fn batch_of<R>(rows: Seq<R>) -> Seq<Seq<R>> {
    if rows.len() == 0 {
        Seq::empty()
    } else {
        seq![rows]
    }
}

/// The batches of a whole source: the outcomes are cut into windows of
/// `chunk_size` attempts, the last one possibly shorter; each window gives
/// the batch of the rows decoded within it.
pub open spec fn batches_of<R>(outcomes: Seq<Option<R>>, chunk_size: nat) -> Seq<Seq<R>>
    decreases outcomes.len(),
{
    if outcomes.len() == 0 || chunk_size == 0 {
        Seq::empty()
    } else if outcomes.len() <= chunk_size {
        batch_of(decoded(outcomes))
    } else {
        batch_of(decoded(outcomes.take(chunk_size as int))) + batches_of(
            outcomes.skip(chunk_size as int),
            chunk_size,
        )
    }
}

/// The views of the batches of a vector of batches.
pub open spec fn batch_views<R>(batches: Seq<Vec<R>>) -> Seq<Seq<R>> {
    batches.map_values(|batch: Vec<R>| batch@)
}

/// Decoding distributes over concatenation.
pub proof fn lemma_decoded_concat<R>(a: Seq<Option<R>>, b: Seq<Option<R>>)
    ensures
        decoded(a + b) == decoded(a) + decoded(b),
    decreases b.len(),
{
    if b.len() == 0 {
        assert(a + b =~= a);
        assert(decoded(a) + decoded(b) =~= decoded(a));
    } else {
        lemma_decoded_concat(a, b.drop_last());
        assert((a + b).drop_last() =~= a + b.drop_last());
        assert((a + b).last() == b.last());
        assert(decoded(a + b) =~= decoded(a) + decoded(b));
    }
}

/// No more rows are decoded than attempts were made.
pub proof fn lemma_decoded_len<R>(outcomes: Seq<Option<R>>)
    ensures
        decoded(outcomes).len() <= outcomes.len(),
    decreases outcomes.len(),
{
    if outcomes.len() > 0 {
        lemma_decoded_len(outcomes.drop_last());
    }
}

/// Batching is a lossless partition: the batches, laid end to end, are the
/// decoded rows in the order in which they were read; no batch is empty and none holds
/// more than `chunk_size` rows.
pub proof fn lemma_batches_partition<R>(outcomes: Seq<Option<R>>, chunk_size: nat)
    requires
        chunk_size > 0,
    ensures
        batches_of(outcomes, chunk_size).flatten() == decoded(outcomes),
        forall|j: int|
            0 <= j < batches_of(outcomes, chunk_size).len() ==> 0 < (#[trigger] batches_of(
                outcomes,
                chunk_size,
            )[j]).len() <= chunk_size,
    decreases outcomes.len(),
{
    let all = batches_of(outcomes, chunk_size);
    if outcomes.len() == 0 {
        assert(all.flatten() =~= decoded(outcomes));
    } else if outcomes.len() <= chunk_size {
        lemma_decoded_len(outcomes);
        let rows = decoded(outcomes);
        if rows.len() > 0 {
            seq![rows].lemma_flatten_one_element();
        }
        assert(all.flatten() =~= rows);
    } else {
        let head = outcomes.take(chunk_size as int);
        let tail = outcomes.skip(chunk_size as int);
        let rows = decoded(head);
        let rest = batches_of(tail, chunk_size);
        lemma_batches_partition(tail, chunk_size);
        lemma_decoded_len(head);
        lemma_decoded_concat(head, tail);
        assert(head + tail =~= outcomes);
        vstd::seq_lib::lemma_flatten_concat(batch_of(rows), rest);
        if rows.len() > 0 {
            seq![rows].lemma_flatten_one_element();
        }
        assert(batch_of(rows).flatten() =~= rows);
        assert forall|j: int| 0 <= j < all.len() implies 0 < (#[trigger] all[j]).len()
            <= chunk_size by {
            if rows.len() > 0 && j > 0 {
                assert(all[j] == rest[j - 1]);
            } else if rows.len() == 0 {
                assert(all[j] == rest[j]);
            }
        }
    }
}

/// Where the first part of a source ends on a window boundary, its batches
/// are those of the first part followed by those of the rest.
pub proof fn lemma_batches_concat<R>(a: Seq<Option<R>>, b: Seq<Option<R>>, chunk_size: nat)
    requires
        chunk_size > 0,
        a.len() % chunk_size == 0,
    ensures
        batches_of(a + b, chunk_size) == batches_of(a, chunk_size) + batches_of(b, chunk_size),
    decreases a.len(),
{
    let n = chunk_size as int;
    if a.len() == 0 {
        assert(a + b =~= b);
        assert(batches_of(a, chunk_size) + batches_of(b, chunk_size) =~= batches_of(
            b,
            chunk_size,
        ));
    } else {
        assert(a.len() >= n) by {
            if a.len() < n {
                vstd::arithmetic::div_mod::lemma_small_mod(a.len(), chunk_size);
            }
        }
        let tail = a.skip(n);
        assert(tail.len() % chunk_size == 0) by {
            vstd::arithmetic::div_mod::lemma_mod_sub_multiples_vanish(a.len() as int, n);
            assert(tail.len() == -n + a.len());
        }
        lemma_batches_concat(tail, b, chunk_size);
        assert((a + b).take(n) =~= a.take(n));
        assert((a + b).skip(n) =~= tail + b);
        if b.len() == 0 {
            assert(a + b =~= a);
            assert(batches_of(a, chunk_size) + batches_of(b, chunk_size) =~= batches_of(
                a,
                chunk_size,
            ));
        } else if a.len() == n {
            assert(a.take(n) =~= a);
            assert(tail =~= Seq::<Option<R>>::empty());
            assert(tail + b =~= b);
        } else {
            assert(batches_of(a + b, chunk_size) =~= batches_of(a, chunk_size) + batches_of(
                b,
                chunk_size,
            ));
        }
    }
}

/// The state of a `Chunker`, as contracts see it.
pub ghost struct ChunkerView<R> {
    /// Attempts to the window.
    pub chunk_size: nat,
    /// Attempts made in the open window.
    pub attempts: nat,
    /// Rows decoded in the open window.
    pub rows: Seq<R>,
}

/// Groups the rows of a source into batches.
pub struct Chunker<R> {
    chunk_size: usize,
    attempts: usize,
    rows: Vec<R>,
}

impl<R> View for Chunker<R> {
    type V = ChunkerView<R>;

    closed spec fn view(&self) -> ChunkerView<R> {
        ChunkerView {
            chunk_size: self.chunk_size as nat,
            attempts: self.attempts as nat,
            rows: self.rows@,
        }
    }
}

impl<R> Chunker<R> {
    #[verifier::type_invariant]
    spec fn well_formed(self) -> bool {
        self.attempts < self.chunk_size && self.rows@.len() <= self.attempts
    }

    /// A chunker with an empty open window.
    pub fn new(chunk_size: usize) -> (chunker: Self)
        requires
            chunk_size > 0,
        ensures
            chunker@ == (ChunkerView::<R> {
                chunk_size: chunk_size as nat,
                attempts: 0,
                rows: Seq::empty(),
            }),
    {
        Chunker { chunk_size, attempts: 0, rows: Vec::new() }
    }

    /// The number of attempts that close a window.
    pub fn chunk_size(&self) -> (n: usize)
        ensures
            n == self@.chunk_size,
            n > 0,
    {
        proof {
            use_type_invariant(self);
        }
        self.chunk_size
    }

    /// Takes the outcome of one attempt to read a row: the row, or `None`
    /// where it could not be decoded. Returns the batch of the window if
    /// this attempt closes it and a row was decoded within it.
    pub fn offer(&mut self, outcome: Option<R>) -> (batch: Option<Vec<R>>)
        ensures
            final(self)@.chunk_size == old(self)@.chunk_size,
            ({
                let rows = match outcome {
                    Some(row) => old(self)@.rows.push(row),
                    None => old(self)@.rows,
                };
                if old(self)@.attempts + 1 == old(self)@.chunk_size {
                    &&& final(self)@.attempts == 0
                    &&& final(self)@.rows == Seq::<R>::empty()
                    &&& rows.len() == 0 ==> batch is None
                    &&& rows.len() > 0 ==> (batch matches Some(b) && b@ == rows)
                } else {
                    &&& final(self)@.attempts == old(self)@.attempts + 1
                    &&& final(self)@.rows == rows
                    &&& batch is None
                }
            }),
            batch matches Some(b) ==> 0 < b@.len() <= old(self)@.chunk_size,
    {
        proof {
            use_type_invariant(&*self);
        }
        let mut rows: Vec<R> = Vec::new();
        std::mem::swap(&mut rows, &mut self.rows);
        if let Some(row) = outcome {
            rows.push(row);
        }
        if self.attempts + 1 == self.chunk_size {
            self.attempts = 0;
            if rows.len() == 0 {
                None
            } else {
                Some(rows)
            }
        } else {
            self.attempts = self.attempts + 1;
            self.rows = rows;
            None
        }
    }

    /// Closes the open window at the end of the source. Returns its rows
    /// as the last batch, unless there are none.
    pub fn finish(&mut self) -> (batch: Option<Vec<R>>)
        ensures
            final(self)@.chunk_size == old(self)@.chunk_size,
            final(self)@.attempts == 0,
            final(self)@.rows == Seq::<R>::empty(),
            old(self)@.rows.len() == 0 ==> batch is None,
            old(self)@.rows.len() > 0 ==> (batch matches Some(b) && b@ == old(self)@.rows),
            batch matches Some(b) ==> 0 < b@.len() <= old(self)@.chunk_size,
    {
        proof {
            use_type_invariant(&*self);
        }
        let mut rows: Vec<R> = Vec::new();
        std::mem::swap(&mut rows, &mut self.rows);
        self.attempts = 0;
        if rows.len() == 0 {
            None
        } else {
            Some(rows)
        }
    }
}

/// Batches a source of which every outcome is at hand: offers them to a
/// fresh chunker one by one and closes the last window.
pub fn batch_all<R>(outcomes: Vec<Option<R>>, chunk_size: usize) -> (batches: Vec<Vec<R>>)
    requires
        chunk_size > 0,
    ensures
        batch_views(batches@) == batches_of(outcomes@, chunk_size as nat),
{
    let ghost all = outcomes@;
    let ghost n = chunk_size as nat;
    let ghost mut start: int = 0;
    let mut chunker: Chunker<R> = Chunker::new(chunk_size);
    let mut batches: Vec<Vec<R>> = Vec::new();
    proof {
        assert(all.subrange(0, 0) =~= Seq::<Option<R>>::empty());
        assert(all.take(0) =~= Seq::<Option<R>>::empty());
        assert(batch_views(batches@) =~= batches_of(all.take(0), n));
    }
    for outcome in it: outcomes
        invariant
            it.seq() == all,
            n == chunk_size,
            n > 0,
            chunker@.chunk_size == n,
            chunker@.attempts < n,
            0 <= start,
            start % (n as int) == 0,
            start + chunker@.attempts == it.index(),
            chunker@.rows == decoded(all.subrange(start, it.index() as int)),
            batch_views(batches@) == batches_of(all.take(start), n),
    {
        let ghost i = it.index() as int;
        let ghost before = batches@;
        let ghost window = all.subrange(start, i + 1);
        proof {
            assert(window.drop_last() =~= all.subrange(start, i));
            assert(window.last() == all[i]);
        }
        let closed = chunker.offer(outcome);
        proof {
            if chunker@.attempts == 0 {
                // The window is closed: it held `n` attempts.
                assert(window.len() == n);
                lemma_batches_concat(all.take(start), window, n);
                assert(all.take(start) + window =~= all.take(start + n));
                vstd::arithmetic::div_mod::lemma_mod_add_multiples_vanish(start, n as int);
                start = start + n;
                assert(all.subrange(start, i + 1) =~= Seq::<Option<R>>::empty());
            }
        }
        match closed {
            Some(batch) => {
                batches.push(batch);
                proof {
                    assert(batch_views(batches@) =~= batch_views(before) + seq![batch@]);
                }
            },
            None => {
                proof {
                    assert(batch_views(before) + Seq::<Seq<R>>::empty() =~= batch_views(before));
                }
            },
        }
    }
    let ghost before = batches@;
    let ghost last = all.subrange(start, all.len() as int);
    proof {
        lemma_batches_concat(all.take(start), last, n);
        assert(all.take(start) + last =~= all);
    }
    match chunker.finish() {
        Some(batch) => {
            batches.push(batch);
            proof {
                assert(batch_views(batches@) =~= batch_views(before) + seq![batch@]);
            }
        },
        None => {
            proof {
                assert(batch_views(before) + Seq::<Seq<R>>::empty() =~= batch_views(before));
            }
        },
    }
    batches
}

} // verus!
