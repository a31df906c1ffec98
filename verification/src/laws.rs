//! The laws of the writer, stated over the step that each append performs.
//!
//! The contract of every append in [`crate::kernel_vec`] says that one append
//! of a value of byte size `s` takes the cursor from `c` to `c + s` and the
//! element count from `n` to `n + 1`, and overwrites exactly the bytes
//! `[c, c + s)` of the memory region. The spec functions here fold that step
//! over a whole sequence of appends, and the proof functions state what holds
//! of the result.

use vstd::prelude::*;

use crate::kernel_vec::write_bytes;

verus! {

/// The total byte size of a sequence of appended values.
pub open spec fn sum_sizes(sizes: Seq<nat>) -> int
    decreases sizes.len(),
{
    if sizes.len() == 0 {
        0
    } else {
        sum_sizes(sizes.drop_last()) + sizes.last()
    }
}

/// The cursor after appending values of the given byte sizes, in order, to a
/// writer based at `base`: each append moves the cursor forward by the size
/// of its value.
pub open spec fn cursor_after(base: int, sizes: Seq<nat>) -> int
    decreases sizes.len(),
{
    if sizes.len() == 0 {
        base
    } else {
        cursor_after(base, sizes.drop_last()) + sizes.last()
    }
}

/// The element count after appending values of the given byte sizes: each
/// append counts one more element, whatever its size.
pub open spec fn length_after(sizes: Seq<nat>) -> int
    decreases sizes.len(),
{
    if sizes.len() == 0 {
        0
    } else {
        length_after(sizes.drop_last()) + 1
    }
}

/// Law: for any base address and any sequence of appended values, once all
/// appends are done the cursor stands at the base plus the sum of the byte
/// sizes, and the element count equals the number of appends.
pub proof fn lemma_cursor_and_length_after_appends(base: int, sizes: Seq<nat>)
    ensures
        cursor_after(base, sizes) == base + sum_sizes(sizes),
        length_after(sizes) == sizes.len(),
    decreases sizes.len(),
{
    if sizes.len() > 0 {
        lemma_cursor_and_length_after_appends(base, sizes.drop_last());
    }
}

/// Law: each single append raises the element count by exactly one — the
/// count never decreases, and nothing but an append moves it.
pub proof fn lemma_length_step(sizes: Seq<nat>, size: nat)
    ensures
        length_after(sizes.push(size)) == length_after(sizes) + 1,
{
    assert(sizes.push(size).drop_last() =~= sizes);
}

/// Law: the cursor is monotonically non-decreasing over the lifetime of a
/// writer — after any further appends it is at least where any earlier
/// prefix of the appends left it.
pub proof fn lemma_cursor_monotonic(base: int, sizes: Seq<nat>, k: int)
    requires
        0 <= k <= sizes.len(),
    ensures
        cursor_after(base, sizes.take(k)) <= cursor_after(base, sizes),
    decreases sizes.len(),
{
    if k == sizes.len() {
        assert(sizes.take(k) =~= sizes);
    } else {
        assert(sizes.drop_last().take(k) =~= sizes.take(k));
        lemma_cursor_monotonic(base, sizes.drop_last(), k);
    }
}

/// Law: appending one value of byte size `size` to a freshly constructed
/// writer based at `base` leaves the element count at one and the cursor at
/// `base + size`.
pub proof fn lemma_first_append(base: int, size: nat)
    ensures
        cursor_after(base, seq![size]) == base + size,
        length_after(seq![size]) == 1,
{
    let s: Seq<nat> = seq![size];
    assert(s.drop_last() =~= Seq::<nat>::empty());
    assert(cursor_after(base, Seq::<nat>::empty()) == base);
    assert(length_after(Seq::<nat>::empty()) == 0);
    assert(cursor_after(base, s) == cursor_after(base, s.drop_last()) + s.last());
    assert(length_after(s) == length_after(s.drop_last()) + 1);
}

/// Law: a write leaves every byte outside its target range exactly as it
/// was.
pub proof fn lemma_write_outside_range_unchanged(mem: Seq<u8>, off: int, data: Seq<u8>, i: int)
    requires
        0 <= i < mem.len(),
        !(off <= i < off + data.len()),
    ensures
        write_bytes(mem, off, data)[i] == mem[i],
{
}

/// Law: two writers with disjoint target ranges do not interfere — after
/// both have written, each range holds exactly its own bytes, in whichever
/// order the two writes happened.
pub proof fn lemma_disjoint_writes_no_interference(
    mem: Seq<u8>,
    off_a: int,
    data_a: Seq<u8>,
    off_b: int,
    data_b: Seq<u8>,
)
    requires
        0 <= off_a,
        0 <= off_b,
        off_a + data_a.len() <= mem.len(),
        off_b + data_b.len() <= mem.len(),
        off_a + data_a.len() <= off_b || off_b + data_b.len() <= off_a,
    ensures
        forall|i: int|
            off_a <= i < off_a + data_a.len() ==> write_bytes(
                write_bytes(mem, off_a, data_a),
                off_b,
                data_b,
            )[i] == data_a[i - off_a],
        forall|i: int|
            off_b <= i < off_b + data_b.len() ==> write_bytes(
                write_bytes(mem, off_a, data_a),
                off_b,
                data_b,
            )[i] == data_b[i - off_b],
{
}

} // verus!
