//! Combinatorial actors that enable larger systems to be built by connecting
//! actors together, and the decision that each of them takes on a message.

use core::marker::PhantomData;
use vstd::prelude::*;

verus! {

/// Pipes the output of one actor into another.
///
/// The output of `first` is sent as input to `second`.
#[derive(Clone)]
pub struct Pipe<A, B> {
    pub first: A,
    pub second: B,
}

/// Pipe the output of one actor into another.
pub fn pipe<A, B>(first: A, second: B) -> (res: Pipe<A, B>)
    ensures
        res.first == first,
        res.second == second,
{
    Pipe { first, second }
}

/// Collect the outputs of an actor into fixed-size chunks.
#[derive(Clone)]
pub struct Chunk<A> {
    pub actor: A,
    pub size: usize,
}

/// Collect the outputs of `actor` into chunks of `size` items.
pub fn chunk<A>(actor: A, size: usize) -> (res: Chunk<A>)
    ensures
        res.actor == actor,
        res.size == size,
{
    Chunk { actor, size }
}

/// Run `workers` instances of the given actor in parallel.
#[derive(Clone)]
pub struct Parallel<A> {
    pub actor: A,
    pub workers: usize,
}

/// Creates a `Parallel` actor that runs `workers` instances of the given actor
/// in parallel.
pub fn parallel<A>(actor: A, workers: usize) -> (res: Parallel<A>)
    ensures
        res.actor == actor,
        res.workers == workers,
{
    Parallel { actor, workers }
}

/// Transform the output of an actor using a mapping function.
#[derive(Clone)]
pub struct MapActor<A, F> {
    pub actor: A,
    pub func: F,
}

/// Apply a mapping function to the output of an actor.
pub fn map<A, F>(actor: A, mapper: F) -> (res: MapActor<A, F>)
    ensures
        res.actor == actor,
        res.func == mapper,
{
    MapActor { actor, func: mapper }
}

/// Filter the outputs of an actor using a predicate.
#[derive(Clone)]
pub struct Filter<A, P> {
    pub actor: A,
    pub predicate: P,
}

/// Pipe the output of one actor through a predicate.
pub fn filter<A, P>(actor: A, predicate: P) -> (res: Filter<A, P>)
    ensures
        res.actor == actor,
        res.predicate == predicate,
{
    Filter { actor, predicate }
}

/// Transform the output of an actor using a filter and mapping function.
#[derive(Clone)]
pub struct FilterMap<A, F> {
    pub actor: A,
    pub func: F,
}

/// Apply a filter and mapping function to the output of an actor.
pub fn filter_map<A, F>(actor: A, filter_mapper: F) -> (res: FilterMap<A, F>)
    ensures
        res.actor == actor,
        res.func == filter_mapper,
{
    FilterMap { actor, func: filter_mapper }
}

/// Broadcasts each input to multiple output receivers.
///
/// Useful where several consumers need to receive the same data.
pub struct Broadcast<I, O, A> {
    pub __marker: PhantomData<(I, O)>,
    pub actors: A,
}

/// What a filter actor does with one output of its inner actor: it passes the
/// item on when the predicate holds of it, and drops it otherwise.
pub fn filter_item<T, P: Fn(&T) -> bool>(predicate: &P, item: T) -> (res: Option<T>)
    requires
        predicate.requires((&item,)),
    ensures
        exists|keep: bool|
            #[trigger] predicate.ensures((&item,), keep) && res == (if keep {
                Some(item)
            } else {
                None
            }),
{
    if predicate(&item) {
        Some(item)
    } else {
        None
    }
}

/// What a map actor does with one output of its inner actor: the mapped
/// value is what it sends on.
pub fn map_item<T, B, F: Fn(T) -> B>(func: &F, item: T) -> (res: B)
    requires
        func.requires((item,)),
    ensures
        func.ensures((item,), res),
{
    func(item)
}

/// What a filter-map actor does with one output of its inner actor: `Some`
/// value is sent on, `None` means that nothing is sent.
pub fn filter_map_item<T, B, F: Fn(T) -> Option<B>>(func: &F, item: T) -> (res: Option<B>)
    requires
        func.requires((item,)),
    ensures
        func.ensures((item,), res),
{
    func(item)
}

/// The messages an actor sends when, for each message it receives in turn,
/// its step yields either `Some` value to send or `None`, for nothing.
pub open spec fn sent_values<T>(outcomes: Seq<Option<T>>) -> Seq<T>
    decreases outcomes.len(),
{
    if outcomes.len() == 0 {
        Seq::empty()
    } else {
        let before = sent_values(outcomes.drop_last());
        match outcomes.last() {
            Some(v) => before.push(v),
            None => before,
        }
    }
}

/// What [`filter_item`] gives for `item` when the predicate's verdict on
/// every item `x` is `keep(x)`.
pub open spec fn filter_outcome<T>(keep: spec_fn(T) -> bool, item: T) -> Option<T> {
    if keep(item) {
        Some(item)
    } else {
        None
    }
}

/// The outcomes of a filter actor's steps over `items`.
pub open spec fn filter_outcomes<T>(keep: spec_fn(T) -> bool, items: Seq<T>) -> Seq<Option<T>> {
    items.map_values(|x: T| filter_outcome(keep, x))
}

/// A filter actor sends exactly the items that pass its predicate, each once,
/// in the order they came.
pub proof fn lemma_filter_sends_what_passes<T>(keep: spec_fn(T) -> bool, items: Seq<T>)
    ensures
        sent_values(filter_outcomes(keep, items)) == items.filter(keep),
    decreases items.len(),
{
    reveal(Seq::filter);
    if items.len() > 0 {
        lemma_filter_sends_what_passes(keep, items.drop_last());
        assert(filter_outcomes(keep, items).drop_last() =~= filter_outcomes(
            keep,
            items.drop_last(),
        ));
    } else {
        assert(filter_outcomes(keep, items) =~= Seq::<Option<T>>::empty());
    }
}

/// Filtering with `p` and then with `q` keeps what filtering once with
/// "`p` and `q`" keeps; in particular filtering twice with `p` is filtering
/// once.
pub proof fn lemma_filter_twice<T>(p: spec_fn(T) -> bool, q: spec_fn(T) -> bool, items: Seq<T>)
    ensures
        sent_values(filter_outcomes(q, sent_values(filter_outcomes(p, items)))) == sent_values(
            filter_outcomes(|x: T| p(x) && q(x), items),
        ),
    decreases items.len(),
{
    reveal(Seq::filter);
    let both = |x: T| p(x) && q(x);
    lemma_filter_sends_what_passes(p, items);
    lemma_filter_sends_what_passes(q, items.filter(p));
    lemma_filter_sends_what_passes(both, items);
    if items.len() > 0 {
        lemma_filter_twice(p, q, items.drop_last());
        lemma_filter_sends_what_passes(p, items.drop_last());
        lemma_filter_sends_what_passes(q, items.drop_last().filter(p));
        lemma_filter_sends_what_passes(both, items.drop_last());
        let x = items.last();
        if p(x) {
            assert(items.filter(p).drop_last() =~= items.drop_last().filter(p));
            assert(items.filter(p).last() == x);
        } else {
            assert(items.filter(p) == items.drop_last().filter(p));
        }
    }
}

/// An actor whose step always yields `Some(f(x))`, such as a map actor,
/// sends one message per item received, `f` of it, in the same order.
pub proof fn lemma_every_item_mapped<T, B>(f: spec_fn(T) -> B, items: Seq<T>)
    ensures
        sent_values(items.map_values(|x: T| Some(f(x)))) == items.map_values(f),
    decreases items.len(),
{
    if items.len() > 0 {
        lemma_every_item_mapped(f, items.drop_last());
        assert(items.map_values(|x: T| Some(f(x))).drop_last() =~= items.drop_last().map_values(
            |x: T| Some(f(x)),
        ));
        assert(items.map_values(f) =~= items.drop_last().map_values(f).push(f(items.last())));
    } else {
        assert(items.map_values(|x: T| Some(f(x))) =~= Seq::<Option<B>>::empty());
        assert(items.map_values(f) =~= Seq::<B>::empty());
    }
}

/// A filter-map actor whose function gives `Some(g(y))` where `p(y)` holds
/// and `None` elsewhere sends what a filter actor with `p` followed by a map
/// actor with `g` sends.
pub proof fn lemma_filter_map_is_filter_then_map<T, B>(
    p: spec_fn(T) -> bool,
    g: spec_fn(T) -> B,
    items: Seq<T>,
)
    ensures
        sent_values(
            items.map_values(
                |y: T|
                    if p(y) {
                        Some(g(y))
                    } else {
                        None
                    },
            ),
        ) == sent_values(sent_values(filter_outcomes(p, items)).map_values(|x: T| Some(g(x)))),
    decreases items.len(),
{
    reveal(Seq::filter);
    let fm = |y: T|
        if p(y) {
            Some(g(y))
        } else {
            None
        };
    lemma_filter_sends_what_passes(p, items);
    lemma_every_item_mapped(g, items.filter(p));
    if items.len() > 0 {
        lemma_filter_map_is_filter_then_map(p, g, items.drop_last());
        lemma_filter_sends_what_passes(p, items.drop_last());
        lemma_every_item_mapped(g, items.drop_last().filter(p));
        assert(items.map_values(fm).drop_last() =~= items.drop_last().map_values(fm));
        let x = items.last();
        if p(x) {
            assert(items.filter(p) == items.drop_last().filter(p).push(x));
            assert(items.filter(p).map_values(g) =~= items.drop_last().filter(p).map_values(
                g,
            ).push(g(x)));
        } else {
            assert(items.filter(p) == items.drop_last().filter(p));
        }
    } else {
        assert(items.map_values(fm) =~= Seq::<Option<B>>::empty());
        assert(items.filter(p).map_values(g) =~= Seq::<B>::empty());
    }
}

/// One step of a chunk actor with chunk size `size`: the item joins the
/// pending items, and once they number `size` they leave as one chunk. A
/// chunk holds at most `size` items, so with a size of zero no chunk can hold
/// the item: it is dropped and nothing is sent.
pub open spec fn chunk_step<T>(size: nat, pending: Seq<T>, item: T) -> (Seq<T>, Option<Seq<T>>) {
    if size == 0 {
        (pending, None)
    } else {
        let gathered = pending.push(item);
        if gathered.len() < size {
            (gathered, None)
        } else {
            (Seq::empty(), Some(gathered))
        }
    }
}

/// The pending items and the chunks sent after a chunk actor with the given
/// pending items has received `items`, in order.
pub open spec fn chunk_run<T>(size: nat, pending: Seq<T>, items: Seq<T>) -> (Seq<T>, Seq<Seq<T>>)
    decreases items.len(),
{
    if items.len() == 0 {
        (pending, Seq::empty())
    } else {
        let (before, sent) = chunk_run(size, pending, items.drop_last());
        let (after, out) = chunk_step(size, before, items.last());
        match out {
            Some(c) => (after, sent.push(c)),
            None => (after, sent),
        }
    }
}

/// The state of a running chunk actor: its chunk size and the items gathered
/// since the last chunk was sent.
pub struct ChunkBuffer<T> {
    size: usize,
    items: Vec<T>,
}

impl<T> View for ChunkBuffer<T> {
    type V = (nat, Seq<T>);

    /// The chunk size, and the items gathered since the last chunk was sent.
    closed spec fn view(&self) -> (nat, Seq<T>) {
        (self.size as nat, self.items@)
    }
}

impl<T> ChunkBuffer<T> {
    /// An empty buffer for chunks of `size` items.
    pub fn new(size: usize) -> (res: Self)
        ensures
            res@ == (size as nat, Seq::<T>::empty()),
    {
        ChunkBuffer { size, items: Vec::new() }
    }

    /// Take in one item; hand back a chunk once `size` items are gathered.
    pub fn push(&mut self, item: T) -> (res: Option<Vec<T>>)
        ensures
            final(self)@.0 == old(self)@.0,
            final(self)@.1 == chunk_step(old(self)@.0, old(self)@.1, item).0,
            match chunk_step(old(self)@.0, old(self)@.1, item).1 {
                Some(c) => res is Some && res->0@ == c,
                None => res is None,
            },
    {
        if self.size == 0 {
            return None;
        }
        self.items.push(item);
        if self.items.len() < self.size {
            None
        } else {
            let mut full = Vec::new();
            core::mem::swap(&mut full, &mut self.items);
            Some(full)
        }
    }
}

/// With a positive chunk size, chunking loses no item and keeps their order:
/// the chunks sent, one after the other, followed by the items still pending,
/// are the items that were pending before followed by the items received.
pub proof fn lemma_chunks_keep_items<T>(size: nat, pending: Seq<T>, items: Seq<T>)
    requires
        size > 0,
    ensures
        chunk_run(size, pending, items).1.flatten() + chunk_run(size, pending, items).0
            == pending + items,
    decreases items.len(),
{
    broadcast use Seq::lemma_flatten_push;

    if items.len() == 0 {
        assert(chunk_run(size, pending, items).1 =~= Seq::<Seq<T>>::empty());
        assert(pending + items =~= pending);
        assert(Seq::<Seq<T>>::empty().flatten() =~= Seq::<T>::empty());
        assert(Seq::<T>::empty() + pending =~= pending);
    } else {
        lemma_chunks_keep_items(size, pending, items.drop_last());
        let (before, sent) = chunk_run(size, pending, items.drop_last());
        let x = items.last();
        assert(items =~= items.drop_last().push(x));
        let gathered = before.push(x);
        if gathered.len() < size {
            assert(sent.flatten() + gathered =~= (sent.flatten() + before).push(x));
        } else {
            assert(sent.push(gathered).flatten() =~= sent.flatten() + gathered);
            assert(sent.flatten() + gathered + Seq::<T>::empty() =~= (sent.flatten()
                + before).push(x));
        }
        assert((pending + items.drop_last()).push(x) =~= pending + items);
    }
}

/// Every chunk that is sent holds exactly `size` items, and fewer than that
/// are ever left pending, provided fewer than that were pending to begin
/// with.
pub proof fn lemma_chunks_are_full<T>(size: nat, pending: Seq<T>, items: Seq<T>)
    requires
        pending.len() < size,
    ensures
        chunk_run(size, pending, items).0.len() < size,
        forall|i: int|
            0 <= i < chunk_run(size, pending, items).1.len() ==> (#[trigger] chunk_run(
                size,
                pending,
                items,
            ).1[i]).len() == size,
    decreases items.len(),
{
    if items.len() > 0 {
        lemma_chunks_are_full(size, pending, items.drop_last());
    }
}

/// With a chunk size of zero nothing is ever sent, and nothing joins the
/// pending items.
pub proof fn lemma_size_zero_sends_nothing<T>(pending: Seq<T>, items: Seq<T>)
    ensures
        chunk_run(0, pending, items) == (pending, Seq::<Seq<T>>::empty()),
    decreases items.len(),
{
    if items.len() > 0 {
        lemma_size_zero_sends_nothing(pending, items.drop_last());
    }
}

/// Starting from nothing pending, a chunk actor with chunk size `size > 0`
/// sends the received items cut into consecutive runs of `size`: the `i`-th
/// chunk is items `i * size` up to `(i + 1) * size`, there are
/// `items.len() / size` chunks, and the items after the last full chunk stay
/// pending rather than being sent as a partial chunk.
pub proof fn lemma_chunks_are_consecutive_runs<T>(size: nat, items: Seq<T>)
    requires
        size > 0,
    ensures
        chunk_run(size, Seq::empty(), items).1.len() as int == items.len() as int / (size as int),
        chunk_run(size, Seq::empty(), items).0 == items.subrange(
            (chunk_run(size, Seq::empty(), items).1.len() * size) as int,
            items.len() as int,
        ),
        forall|i: int|
            0 <= i < chunk_run(size, Seq::empty(), items).1.len() ==> #[trigger] chunk_run(
                size,
                Seq::empty(),
                items,
            ).1[i] == items.subrange(i * size, i * size + size),
    decreases items.len(),
{
    let n = size as int;
    let (rest, sent) = chunk_run(size, Seq::empty(), items);
    lemma_chunks_are_full(size, Seq::<T>::empty(), items);
    if items.len() == 0 {
        assert(rest =~= items.subrange(0, 0));
        vstd::arithmetic::div_mod::lemma_fundamental_div_mod_converse_div(0, n, 0, 0);
    } else {
        let prefix = items.drop_last();
        let x = items.last();
        lemma_chunks_are_consecutive_runs(size, prefix);
        lemma_chunks_are_full(size, Seq::<T>::empty(), prefix);
        let (before, old_sent) = chunk_run(size, Seq::empty(), prefix);
        let k = old_sent.len() as int;
        vstd::arithmetic::div_mod::lemma_fundamental_div_mod(prefix.len() as int, n);
        vstd::arithmetic::mul::lemma_mul_is_commutative(k, n);
        assert(prefix.len() == k * n + before.len()) by {
            vstd::arithmetic::div_mod::lemma_fundamental_div_mod_converse_div(
                prefix.len() as int,
                n,
                prefix.len() as int / n,
                prefix.len() as int % n,
            );
        }
        assert forall|i: int| 0 <= i < k implies #[trigger] (i * n) + n <= k * n by {
            vstd::arithmetic::mul::lemma_mul_inequality(i + 1, k, n);
            vstd::arithmetic::mul::lemma_mul_is_distributive_add_other_way(n, i, 1);
        }
        assert forall|i: int| 0 <= i < k implies 0 <= #[trigger] (i * n) by {
            vstd::arithmetic::mul::lemma_mul_nonnegative(i, n);
        }
        let gathered = before.push(x);
        if gathered.len() < n {
            assert(rest == gathered);
            assert(sent == old_sent);
            assert(gathered =~= items.subrange(k * n, items.len() as int));
            assert forall|i: int| 0 <= i < k implies #[trigger] sent[i] == items.subrange(
                i * n,
                i * n + n,
            ) by {
                assert(prefix.subrange(i * n, i * n + n) =~= items.subrange(i * n, i * n + n));
            }
            vstd::arithmetic::div_mod::lemma_fundamental_div_mod_converse_div(
                items.len() as int,
                n,
                k,
                gathered.len() as int,
            );
            vstd::arithmetic::mul::lemma_mul_is_commutative(k, n);
        } else {
            assert(gathered.len() == n);
            assert(sent == old_sent.push(gathered));
            assert(rest =~= Seq::<T>::empty());
            vstd::arithmetic::mul::lemma_mul_is_distributive_add_other_way(n, k, 1);
            assert(items.len() == (k + 1) * n);
            assert(gathered =~= items.subrange(k * n, k * n + n));
            assert(rest =~= items.subrange((k + 1) * n, items.len() as int));
            assert forall|i: int| 0 <= i < k + 1 implies #[trigger] sent[i] == items.subrange(
                i * n,
                i * n + n,
            ) by {
                if i < k {
                    assert(prefix.subrange(i * n, i * n + n) =~= items.subrange(
                        i * n,
                        i * n + n,
                    ));
                }
            }
            vstd::arithmetic::div_mod::lemma_fundamental_div_mod_converse_div(
                items.len() as int,
                n,
                k + 1,
                0,
            );
            vstd::arithmetic::mul::lemma_mul_is_commutative(k + 1, n);
        }
    }
}

} // verus!
