//! Rearranging a list of blocks: cipher suites, protocol names, versions.

use vstd::prelude::*;
use crate::probe::CipherOrder;

verus! {

/// For a list of `n` blocks in middle-out order: the place in the given
/// list of the block that stands at place `j`.
///
/// With an odd `n` the middle block comes first, then its right and left
/// neighbours by turns; with an even `n` the block right of the middle comes
/// first, then the block left of it, and so on outwards.
pub open spec fn middle_out_source(n: int, j: int) -> int {
    let middle = n / 2;
    if n % 2 == 1 {
        if j % 2 == 1 {
            middle + (j + 1) / 2
        } else {
            middle - j / 2
        }
    } else {
        if j % 2 == 0 {
            middle + j / 2
        } else {
            middle - 1 - j / 2
        }
    }
}

/// The list `blocks` rearranged in the given order.
///
/// * `FORWARD`: the list itself.
/// * `REVERSE`: the list from its end to its start.
/// * `BOTTOM_HALF`: the list without its first `ceil(n / 2)` blocks.
/// * `TOP_HALF`: the first `ceil(n / 2)` blocks, from the last to the first.
/// * `MIDDLE_OUT`: the blocks from the middle outwards, see
///   [`middle_out_source`].
pub open spec fn permuted<T>(blocks: Seq<T>, order: CipherOrder) -> Seq<T> {
    let n = blocks.len() as int;
    match order {
        CipherOrder::FORWARD => blocks,
        CipherOrder::REVERSE => blocks.reverse(),
        CipherOrder::BOTTOM_HALF => blocks.skip((n + 1) / 2),
        CipherOrder::TOP_HALF => blocks.take((n + 1) / 2).reverse(),
        CipherOrder::MIDDLE_OUT => Seq::new(
            blocks.len(),
            |j: int| blocks[middle_out_source(n, j)],
        ),
    }
}

/// A copy of the first `end` blocks, from the last to the first.
fn copy_reversed(blocks: &Vec<Vec<u8>>, end: usize) -> (out: Vec<Vec<u8>>)
    requires
        end <= blocks@.len(),
    ensures
        out.deep_view() == blocks.deep_view().take(end as int).reverse(),
{
    let mut out: Vec<Vec<u8>> = Vec::new();
    let mut i: usize = 0;
    while i < end
        invariant
            i <= end <= blocks@.len(),
            out@.len() == i,
            forall|j: int| 0 <= j < i ==> (#[trigger] out@[j])@ == blocks@[end - 1 - j]@,
        decreases end - i,
    {
        out.push(blocks[end - 1 - i].clone());
        i = i + 1;
    }
    out
}

/// A copy of the blocks from place `start` on.
fn copy_tail(blocks: &Vec<Vec<u8>>, start: usize) -> (out: Vec<Vec<u8>>)
    requires
        start <= blocks@.len(),
    ensures
        out.deep_view() == blocks.deep_view().skip(start as int),
{
    let mut out: Vec<Vec<u8>> = Vec::new();
    let mut i: usize = start;
    while i < blocks.len()
        invariant
            start <= i <= blocks@.len(),
            out@.len() == i - start,
            forall|j: int| 0 <= j < i - start ==> (#[trigger] out@[j])@ == blocks@[start + j]@,
        decreases blocks@.len() - i,
    {
        out.push(blocks[i].clone());
        i = i + 1;
    }
    out
}

/// A copy of the blocks from the middle outwards.
fn copy_middle_out(blocks: &Vec<Vec<u8>>) -> (out: Vec<Vec<u8>>)
    ensures
        out.deep_view() == permuted(blocks.deep_view(), CipherOrder::MIDDLE_OUT),
{
    let n = blocks.len();
    let middle = n / 2;
    let odd = n % 2 == 1;
    let mut out: Vec<Vec<u8>> = Vec::new();
    let mut j: usize = 0;
    while j < n
        invariant
            j <= n,
            n == blocks@.len(),
            middle == n / 2,
            odd == (n % 2 == 1),
            out@.len() == j,
            forall|k: int|
                0 <= k < j ==> (#[trigger] out@[k])@ == blocks@[middle_out_source(n as int, k)]@,
        decreases n - j,
    {
        let source = if odd {
            if j % 2 == 1 {
                middle + (j + 1) / 2
            } else {
                middle - j / 2
            }
        } else {
            if j % 2 == 0 {
                middle + j / 2
            } else {
                middle - 1 - j / 2
            }
        };
        out.push(blocks[source].clone());
        j = j + 1;
    }
    out
}

/// Rearranges `ciphers` in the given order.
///
/// `FORWARD` leaves the list as it is.
pub fn cipher_mung(ciphers: &mut Vec<Vec<u8>>, cipher_order: &CipherOrder)
    ensures
        final(ciphers).deep_view() == permuted(old(ciphers).deep_view(), *cipher_order),
        *cipher_order == CipherOrder::FORWARD ==> *final(ciphers) == *old(ciphers),
{
    let n = ciphers.len();
    let upper = n / 2 + n % 2;
    match cipher_order {
        CipherOrder::FORWARD => {},
        CipherOrder::REVERSE => {
            let out = copy_reversed(ciphers, n);
            *ciphers = out;
        },
        CipherOrder::TOP_HALF => {
            let out = copy_reversed(ciphers, upper);
            *ciphers = out;
        },
        CipherOrder::BOTTOM_HALF => {
            let out = copy_tail(ciphers, upper);
            *ciphers = out;
        },
        CipherOrder::MIDDLE_OUT => {
            let out = copy_middle_out(ciphers);
            *ciphers = out;
        },
    }
}

/// `FORWARD` changes nothing.
pub proof fn lemma_forward_is_identity<T>(blocks: Seq<T>)
    ensures
        permuted(blocks, CipherOrder::FORWARD) == blocks,
{
}

/// Reversing twice gives the list back.
pub proof fn lemma_reverse_twice<T>(blocks: Seq<T>)
    ensures
        permuted(permuted(blocks, CipherOrder::REVERSE), CipherOrder::REVERSE) == blocks,
{
}

/// The two halves share no block and leave none out: the top half, read
/// backwards, followed by the bottom half is the list. With an odd length
/// the middle block belongs to the top half.
pub proof fn lemma_halves_partition<T>(blocks: Seq<T>)
    ensures
        permuted(blocks, CipherOrder::TOP_HALF).reverse() + permuted(
            blocks,
            CipherOrder::BOTTOM_HALF,
        ) == blocks,
        permuted(blocks, CipherOrder::TOP_HALF).len() == (blocks.len() + 1) / 2,
        permuted(blocks, CipherOrder::BOTTOM_HALF).len() == blocks.len() / 2,
{
}

/// The top half can be had in steps: reverse the list, keep the bottom half
/// of that, and with an odd length put the middle block in front.
pub proof fn lemma_top_half_in_steps<T>(blocks: Seq<T>)
    ensures
        permuted(blocks, CipherOrder::TOP_HALF) == (if blocks.len() % 2 == 1 {
            seq![blocks[blocks.len() as int / 2]]
        } else {
            Seq::<T>::empty()
        }) + permuted(permuted(blocks, CipherOrder::REVERSE), CipherOrder::BOTTOM_HALF),
{
}

/// A list of at most one block is its own middle-out order.
pub proof fn lemma_middle_out_of_short_list<T>(blocks: Seq<T>)
    requires
        blocks.len() <= 1,
    ensures
        permuted(blocks, CipherOrder::MIDDLE_OUT) == blocks,
{
}

/// Middle-out order moves blocks and neither drops nor repeats one: every
/// place of the result takes its block from a place of the list, and no two
/// places take it from the same.
pub proof fn lemma_middle_out_rearranges(n: int, j: int, k: int)
    requires
        0 <= j < n,
        0 <= k < n,
    ensures
        0 <= middle_out_source(n, j) < n,
        middle_out_source(n, j) == middle_out_source(n, k) ==> j == k,
{
}

} // verus!
