//! Copy, overlapping move, fill and swap over an address space of bytes (or,
//! for single elements, of any copyable type).
use vstd::prelude::*;

use crate::ptr::Ptr;

verus! {

/// Whether the `n` elements from `start` lie inside a space of `len` elements.
pub open spec fn in_bounds(start: nat, n: nat, len: nat) -> bool {
    start + n <= len
}

/// Whether the spans `[a, a + n)` and `[b, b + n)` share no element.
pub open spec fn disjoint(a: nat, b: nat, n: nat) -> bool {
    n == 0 || a + n <= b || b + n <= a
}

/// `mem` after element `dest + k` took the value that element `src + k` had
/// before the copy, for every `k < n`; every other element is kept.
pub open spec fn copied<T>(mem: Seq<T>, dest: nat, src: nat, n: nat) -> Seq<T> {
    Seq::new(
        mem.len(),
        |p: int|
            if dest <= p < dest + n {
                mem[src + (p - dest)]
            } else {
                mem[p]
            },
    )
}

/// `mem` after its span at `src` was first read out into a separate buffer
/// and that buffer was then written over the span at `dest`.
pub open spec fn copied_through_buffer<T>(mem: Seq<T>, dest: nat, src: nat, n: nat) -> Seq<T> {
    let buffer = mem.subrange(src as int, (src + n) as int);
    mem.subrange(0, dest as int) + buffer + mem.subrange((dest + n) as int, mem.len() as int)
}

/// `mem` with every element of the span `[dest, dest + n)` set to `value`.
pub open spec fn filled<T>(mem: Seq<T>, dest: nat, value: T, n: nat) -> Seq<T> {
    Seq::new(mem.len(), |p: int| if dest <= p < dest + n { value } else { mem[p] })
}

/// `mem` with the elements at `x` and `y` exchanged.
pub open spec fn swapped<T>(mem: Seq<T>, x: nat, y: nat) -> Seq<T> {
    mem.update(x as int, mem[y as int]).update(y as int, mem[x as int])
}

/// Copies `n` bytes from `src` to `dest`, front to back. The two spans must
/// not overlap.
pub fn memcpy(mem: &mut Vec<u8>, dest: Ptr, src: Ptr, n: usize)
    requires
        in_bounds(dest.addr as nat, n as nat, old(mem)@.len()),
        in_bounds(src.addr as nat, n as nat, old(mem)@.len()),
        disjoint(dest.addr as nat, src.addr as nat, n as nat),
    ensures
        final(mem)@ == copied(old(mem)@, dest.addr as nat, src.addr as nat, n as nat),
{
    let ghost before = mem@;
    let len: usize = mem.len();
    let mut i: usize = 0;
    while i < n
        invariant
            i <= n,
            dest.addr + n <= before.len(),
            src.addr + n <= before.len(),
            disjoint(dest.addr as nat, src.addr as nat, n as nat),
            mem@.len() == before.len(),
            before.len() == len,
            forall|p: int|
                0 <= p < mem@.len() ==> #[trigger] mem@[p] == (if dest.addr <= p < dest.addr + i {
                    before[src.addr + (p - dest.addr)]
                } else {
                    before[p]
                }),
        decreases n - i,
    {
        let b = mem[src.addr + i];
        mem.set(dest.addr + i, b);
        i = i + 1;
    }
    assert(mem@ =~= copied(before, dest.addr as nat, src.addr as nat, n as nat));
}

/// Copies `n` bytes from `src` to `dest`, where the two spans may overlap:
/// the result is that of copying through a separate buffer. When `src` lies
/// below `dest` the copy runs back to front, so that no byte of the source is
/// overwritten before it is read.
pub fn memmove(mem: &mut Vec<u8>, dest: Ptr, src: Ptr, n: usize)
    requires
        in_bounds(dest.addr as nat, n as nat, old(mem)@.len()),
        in_bounds(src.addr as nat, n as nat, old(mem)@.len()),
    ensures
        final(mem)@ == copied(old(mem)@, dest.addr as nat, src.addr as nat, n as nat),
{
    let ghost before = mem@;
    let len: usize = mem.len();
    if src.addr < dest.addr {
        let mut i: usize = n;
        while i != 0
            invariant
                i <= n,
                src.addr < dest.addr,
                dest.addr + n <= before.len(),
                src.addr + n <= before.len(),
                mem@.len() == before.len(),
                before.len() == len,
            before.len() == len,
                forall|p: int|
                    0 <= p < mem@.len() ==> #[trigger] mem@[p] == (if dest.addr + i <= p
                        < dest.addr + n {
                        before[src.addr + (p - dest.addr)]
                    } else {
                        before[p]
                    }),
            decreases i,
        {
            i = i - 1;
            let b = mem[src.addr + i];
            mem.set(dest.addr + i, b);
        }
    } else {
        let mut i: usize = 0;
        while i < n
            invariant
                i <= n,
                src.addr >= dest.addr,
                dest.addr + n <= before.len(),
                src.addr + n <= before.len(),
                mem@.len() == before.len(),
                before.len() == len,
            before.len() == len,
                forall|p: int|
                    0 <= p < mem@.len() ==> #[trigger] mem@[p] == (if dest.addr <= p < dest.addr
                        + i {
                        before[src.addr + (p - dest.addr)]
                    } else {
                        before[p]
                    }),
            decreases n - i,
        {
            let b = mem[src.addr + i];
            mem.set(dest.addr + i, b);
            i = i + 1;
        }
    }
    assert(mem@ =~= copied(before, dest.addr as nat, src.addr as nat, n as nat));
}

/// Writes the low byte of `c` into each of the `n` bytes from `s`.
pub fn memset(mem: &mut Vec<u8>, s: Ptr, c: i32, n: usize)
    requires
        in_bounds(s.addr as nat, n as nat, old(mem)@.len()),
    ensures
        final(mem)@ == filled(old(mem)@, s.addr as nat, (#[verifier::truncate] (c as u8)), n as nat),
{
    let ghost before = mem@;
    let len: usize = mem.len();
    let byte = #[verifier::truncate] (c as u8);
    let mut i: usize = 0;
    while i < n
        invariant
            i <= n,
            s.addr + n <= before.len(),
            byte == (#[verifier::truncate] (c as u8)),
            mem@.len() == before.len(),
            before.len() == len,
            forall|p: int|
                0 <= p < mem@.len() ==> #[trigger] mem@[p] == (if s.addr <= p < s.addr + i {
                    byte
                } else {
                    before[p]
                }),
        decreases n - i,
    {
        mem.set(s.addr + i, byte);
        i = i + 1;
    }
    assert(mem@ =~= filled(before, s.addr as nat, byte, n as nat));
}

/// Reads the element at `src`.
pub fn read_ptr<T: Copy>(mem: &Vec<T>, src: Ptr) -> (r: T)
    requires
        src.addr < mem@.len(),
    ensures
        r == mem@[src.addr as int],
{
    mem[src.addr]
}

/// Exchanges the elements at `x` and `y` through a temporary; `x` and `y` may
/// be the same address.
pub fn swap_ptr<T: Copy>(mem: &mut Vec<T>, x: Ptr, y: Ptr)
    requires
        x.addr < old(mem)@.len(),
        y.addr < old(mem)@.len(),
    ensures
        final(mem)@ == swapped(old(mem)@, x.addr as nat, y.addr as nat),
{
    let tmp = read_ptr(mem, x);
    let from_y = read_ptr(mem, y);
    mem.set(x.addr, from_y);
    mem.set(y.addr, tmp);
}

/// An overlap-safe copy gives the same contents as a copy through a separate
/// buffer, whether or not the two spans overlap.
pub proof fn lemma_copy_matches_buffered_copy<T>(mem: Seq<T>, dest: nat, src: nat, n: nat)
    requires
        in_bounds(dest, n, mem.len()),
        in_bounds(src, n, mem.len()),
    ensures
        copied(mem, dest, src, n) == copied_through_buffer(mem, dest, src, n),
{
    assert(copied(mem, dest, src, n) =~= copied_through_buffer(mem, dest, src, n));
}

/// Swapping the same two elements twice restores the original contents.
pub proof fn lemma_swap_twice_restores<T>(mem: Seq<T>, x: nat, y: nat)
    requires
        x < mem.len(),
        y < mem.len(),
    ensures
        swapped(swapped(mem, x, y), x, y) == mem,
{
    assert(swapped(swapped(mem, x, y), x, y) =~= mem);
}

/// A copy of no elements leaves the space as it was.
pub proof fn lemma_empty_copy_writes_nothing<T>(mem: Seq<T>, dest: nat, src: nat)
    ensures
        copied(mem, dest, src, 0) == mem,
{
    assert(copied(mem, dest, src, 0) =~= mem);
}

} // verus!
