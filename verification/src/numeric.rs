//! General purpose actors for numerical processing.

use vstd::prelude::*;

verus! {

/// Actors that can be wrapped with a cumulative sum of their outputs.
pub trait NumericActor {
    /// Wraps the actor with a cumulative sum processor.
    ///
    /// Returns a [`Sum`] actor that accumulates the outputs of `self`.
    fn sum(self) -> (res: Sum<Self>) where Self: Sized
        ensures
            res.inner == self,
    {
        Sum { inner: self }
    }
}

impl<A> NumericActor for A {}

/// Actor that accumulates a cumulative sum of outputs from an inner actor.
///
/// The sum is updated each time the inner actor produces a new output, and
/// the updated sum is the actor's output.
pub struct Sum<A> {
    pub inner: A,
}

/// Creates a cumulative sum actor from any actor.
pub fn sum<A>(actor: A) -> (res: Sum<A>)
    ensures
        res.inner == actor,
{
    Sum { inner: actor }
}

/// Numbers that a sum actor can total: the integer types, each with its
/// range.
pub trait RunningTotal: Sized + Copy {
    /// The number this value stands for.
    spec fn value(self) -> int;

    /// Whether the type can hold the number `v`.
    spec fn holds(v: int) -> bool;

    /// The total before anything was added, the type's default value.
    fn zero() -> (res: Self)
        ensures
            res.value() == 0,
    ;

    /// Whether `total + item` can be held by the type.
    fn fits_sum(total: Self, item: Self) -> (res: bool)
        ensures
            res == Self::holds(total.value() + item.value()),
    ;

    /// `self + item`, where the type holds it.
    fn plus(self, item: Self) -> (res: Self)
        requires
            Self::holds(self.value() + item.value()),
        ensures
            res.value() == self.value() + item.value(),
    ;
}

impl RunningTotal for u8 {
    open spec fn value(self) -> int {
        self as int
    }

    open spec fn holds(v: int) -> bool {
        u8::MIN <= v <= u8::MAX
    }

    fn zero() -> (res: Self) {
        0
    }

    fn fits_sum(total: Self, item: Self) -> (res: bool) {
        total.checked_add(item).is_some()
    }

    fn plus(self, item: Self) -> (res: Self) {
        self + item
    }
}

impl RunningTotal for u16 {
    open spec fn value(self) -> int {
        self as int
    }

    open spec fn holds(v: int) -> bool {
        u16::MIN <= v <= u16::MAX
    }

    fn zero() -> (res: Self) {
        0
    }

    fn fits_sum(total: Self, item: Self) -> (res: bool) {
        total.checked_add(item).is_some()
    }

    fn plus(self, item: Self) -> (res: Self) {
        self + item
    }
}

impl RunningTotal for u32 {
    open spec fn value(self) -> int {
        self as int
    }

    open spec fn holds(v: int) -> bool {
        u32::MIN <= v <= u32::MAX
    }

    fn zero() -> (res: Self) {
        0
    }

    fn fits_sum(total: Self, item: Self) -> (res: bool) {
        total.checked_add(item).is_some()
    }

    fn plus(self, item: Self) -> (res: Self) {
        self + item
    }
}

impl RunningTotal for u64 {
    open spec fn value(self) -> int {
        self as int
    }

    open spec fn holds(v: int) -> bool {
        u64::MIN <= v <= u64::MAX
    }

    fn zero() -> (res: Self) {
        0
    }

    fn fits_sum(total: Self, item: Self) -> (res: bool) {
        total.checked_add(item).is_some()
    }

    fn plus(self, item: Self) -> (res: Self) {
        self + item
    }
}

impl RunningTotal for u128 {
    open spec fn value(self) -> int {
        self as int
    }

    open spec fn holds(v: int) -> bool {
        u128::MIN <= v <= u128::MAX
    }

    fn zero() -> (res: Self) {
        0
    }

    fn fits_sum(total: Self, item: Self) -> (res: bool) {
        total.checked_add(item).is_some()
    }

    fn plus(self, item: Self) -> (res: Self) {
        self + item
    }
}

impl RunningTotal for usize {
    open spec fn value(self) -> int {
        self as int
    }

    open spec fn holds(v: int) -> bool {
        usize::MIN <= v <= usize::MAX
    }

    fn zero() -> (res: Self) {
        0
    }

    fn fits_sum(total: Self, item: Self) -> (res: bool) {
        total.checked_add(item).is_some()
    }

    fn plus(self, item: Self) -> (res: Self) {
        self + item
    }
}

impl RunningTotal for i8 {
    open spec fn value(self) -> int {
        self as int
    }

    open spec fn holds(v: int) -> bool {
        i8::MIN <= v <= i8::MAX
    }

    fn zero() -> (res: Self) {
        0
    }

    fn fits_sum(total: Self, item: Self) -> (res: bool) {
        total.checked_add(item).is_some()
    }

    fn plus(self, item: Self) -> (res: Self) {
        self + item
    }
}

impl RunningTotal for i16 {
    open spec fn value(self) -> int {
        self as int
    }

    open spec fn holds(v: int) -> bool {
        i16::MIN <= v <= i16::MAX
    }

    fn zero() -> (res: Self) {
        0
    }

    fn fits_sum(total: Self, item: Self) -> (res: bool) {
        total.checked_add(item).is_some()
    }

    fn plus(self, item: Self) -> (res: Self) {
        self + item
    }
}

impl RunningTotal for i32 {
    open spec fn value(self) -> int {
        self as int
    }

    open spec fn holds(v: int) -> bool {
        i32::MIN <= v <= i32::MAX
    }

    fn zero() -> (res: Self) {
        0
    }

    fn fits_sum(total: Self, item: Self) -> (res: bool) {
        total.checked_add(item).is_some()
    }

    fn plus(self, item: Self) -> (res: Self) {
        self + item
    }
}

impl RunningTotal for i64 {
    open spec fn value(self) -> int {
        self as int
    }

    open spec fn holds(v: int) -> bool {
        i64::MIN <= v <= i64::MAX
    }

    fn zero() -> (res: Self) {
        0
    }

    fn fits_sum(total: Self, item: Self) -> (res: bool) {
        total.checked_add(item).is_some()
    }

    fn plus(self, item: Self) -> (res: Self) {
        self + item
    }
}

impl RunningTotal for i128 {
    open spec fn value(self) -> int {
        self as int
    }

    open spec fn holds(v: int) -> bool {
        i128::MIN <= v <= i128::MAX
    }

    fn zero() -> (res: Self) {
        0
    }

    fn fits_sum(total: Self, item: Self) -> (res: bool) {
        total.checked_add(item).is_some()
    }

    fn plus(self, item: Self) -> (res: Self) {
        self + item
    }
}

impl RunningTotal for isize {
    open spec fn value(self) -> int {
        self as int
    }

    open spec fn holds(v: int) -> bool {
        isize::MIN <= v <= isize::MAX
    }

    fn zero() -> (res: Self) {
        0
    }

    fn fits_sum(total: Self, item: Self) -> (res: bool) {
        total.checked_add(item).is_some()
    }

    fn plus(self, item: Self) -> (res: Self) {
        self + item
    }
}

/// Every integer type totals as the integers do: a value stands for the
/// number it is, and a sum can be held exactly when it lies between the
/// type's `MIN` and `MAX`, negative sums of signed types included. So
/// `fits_sum(a, b)` answers whether `a + b` stays clear of overflow, `plus`
/// adds, and `zero` is `0`.
pub proof fn lemma_totals_are_integer_sums()
    ensures
        forall|x: u8| #[trigger] x.value() == x as int,
        forall|v: int| #[trigger] <u8 as RunningTotal>::holds(v) <==> u8::MIN <= v <= u8::MAX,
        forall|x: u16| #[trigger] x.value() == x as int,
        forall|v: int| #[trigger] <u16 as RunningTotal>::holds(v) <==> u16::MIN <= v <= u16::MAX,
        forall|x: u32| #[trigger] x.value() == x as int,
        forall|v: int| #[trigger] <u32 as RunningTotal>::holds(v) <==> u32::MIN <= v <= u32::MAX,
        forall|x: u64| #[trigger] x.value() == x as int,
        forall|v: int| #[trigger] <u64 as RunningTotal>::holds(v) <==> u64::MIN <= v <= u64::MAX,
        forall|x: u128| #[trigger] x.value() == x as int,
        forall|v: int| #[trigger] <u128 as RunningTotal>::holds(v) <==> u128::MIN <= v <= u128::MAX,
        forall|x: usize| #[trigger] x.value() == x as int,
        forall|v: int| #[trigger] <usize as RunningTotal>::holds(v) <==> usize::MIN <= v <= usize::MAX,
        forall|x: i8| #[trigger] x.value() == x as int,
        forall|v: int| #[trigger] <i8 as RunningTotal>::holds(v) <==> i8::MIN <= v <= i8::MAX,
        forall|x: i16| #[trigger] x.value() == x as int,
        forall|v: int| #[trigger] <i16 as RunningTotal>::holds(v) <==> i16::MIN <= v <= i16::MAX,
        forall|x: i32| #[trigger] x.value() == x as int,
        forall|v: int| #[trigger] <i32 as RunningTotal>::holds(v) <==> i32::MIN <= v <= i32::MAX,
        forall|x: i64| #[trigger] x.value() == x as int,
        forall|v: int| #[trigger] <i64 as RunningTotal>::holds(v) <==> i64::MIN <= v <= i64::MAX,
        forall|x: i128| #[trigger] x.value() == x as int,
        forall|v: int| #[trigger] <i128 as RunningTotal>::holds(v) <==> i128::MIN <= v <= i128::MAX,
        forall|x: isize| #[trigger] x.value() == x as int,
        forall|v: int| #[trigger] <isize as RunningTotal>::holds(v) <==> isize::MIN <= v <= isize::MAX,
{
}

/// What a sum actor does with one output of its inner actor: the item is
/// added to the running total, and the new total is what it sends.
pub fn add_to_total<T: RunningTotal>(total: &mut T, item: T) -> (out: T)
    requires
        T::holds(old(total).value() + item.value()),
    ensures
        final(total).value() == old(total).value() + item.value(),
        out == *final(total),
{
    *total = total.plus(item);
    *total
}

/// The sum of a sequence of numbers.
pub open spec fn seq_sum(items: Seq<int>) -> int
    decreases items.len(),
{
    if items.len() == 0 {
        0
    } else {
        seq_sum(items.drop_last()) + items.last()
    }
}

/// The outputs of a sum actor that starts from `start` and receives `items`.
pub open spec fn running_totals(start: int, items: Seq<int>) -> Seq<int>
    decreases items.len(),
{
    if items.len() == 0 {
        Seq::empty()
    } else {
        let before = running_totals(start, items.drop_last());
        let total = if before.len() == 0 {
            start
        } else {
            before.last()
        };
        before.push(total + items.last())
    }
}

/// A sum actor's `n`-th output is its starting total plus the sum of the first
/// `n` items it received.
pub proof fn lemma_totals_are_prefix_sums(start: int, items: Seq<int>)
    ensures
        running_totals(start, items).len() == items.len(),
        forall|i: int|
            0 <= i < items.len() ==> #[trigger] running_totals(start, items)[i] == start + seq_sum(
                items.take(i + 1),
            ),
    decreases items.len(),
{
    if items.len() > 0 {
        let prefix = items.drop_last();
        lemma_totals_are_prefix_sums(start, prefix);
        assert forall|i: int| 0 <= i < items.len() implies #[trigger] running_totals(start, items)[i]
            == start + seq_sum(items.take(i + 1)) by {
            if i < items.len() - 1 {
                assert(items.take(i + 1) =~= prefix.take(i + 1));
            } else {
                assert(items.take(i + 1) =~= items);
                if i > 0 {
                    assert(prefix.take(i) =~= prefix);
                    assert(running_totals(start, prefix)[i - 1] == start + seq_sum(prefix));
                } else {
                    assert(prefix =~= Seq::<int>::empty());
                }
                assert(seq_sum(items) == seq_sum(prefix) + items.last());
            }
        }
    }
}

} // verus!
