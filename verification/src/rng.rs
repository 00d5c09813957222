//! Sources of the random values that a ClientHello carries.

use rand::seq::SliceRandom;
use rand::Rng;
use vstd::prelude::*;

verus! {

/// A GREASE value: two equal bytes whose low half is `0xa`.
pub open spec fn is_grease(value: Seq<u8>) -> bool {
    &&& value.len() == 2
    &&& value[0] == value[1]
    &&& value[0] % 16 == 0x0a
}

/// The block that [`TestRng`] hands out: 32 bytes of value 42.
pub open spec fn test_block() -> Seq<u8> {
    Seq::new(32, |i: int| 42u8)
}

/// The GREASE value that [`TestRng`] hands out.
pub open spec fn test_grease() -> Seq<u8> {
    seq![0x0au8, 0x0au8]
}

/// Supplies the random parts of a packet.
///
/// `yields_bytes` and `yields_grease` say which values a source can hand out.
/// A source that says nothing of its own admits every value of the right
/// length; a source that always hands out the same values pins them.
pub trait JarmRng {
    /// Whether `random_bytes` can return `bytes`.
    open spec fn yields_bytes(&self, bytes: Seq<u8>) -> bool {
        bytes.len() == 32
    }

    /// Whether `random_grease` can return `grease`.
    open spec fn yields_grease(&self, grease: Seq<u8>) -> bool {
        grease.len() == 2
    }

    /// A block of 32 random bytes.
    fn random_bytes(&self) -> (res: Vec<u8>)
        ensures
            res@.len() == 32,
            self.yields_bytes(res@),
    ;

    /// A GREASE value of two bytes.
    fn random_grease(&self) -> (res: Vec<u8>)
        ensures
            res@.len() == 2,
            self.yields_grease(res@),
    ;
}

/// A source without randomness: always the same block, always the same
/// GREASE value.
pub struct TestRng {}

/// A source that draws from the generator of the current thread.
pub struct PseudoRng {}

impl JarmRng for TestRng {
    open spec fn yields_bytes(&self, bytes: Seq<u8>) -> bool {
        bytes == test_block()
    }

    open spec fn yields_grease(&self, grease: Seq<u8>) -> bool {
        grease == test_grease()
    }

    fn random_bytes(&self) -> (res: Vec<u8>) {
        let block = vec![42u8; 32];
        assert(block@ =~= test_block());
        block
    }

    fn random_grease(&self) -> (res: Vec<u8>) {
        vec![0x0au8, 0x0au8]
    }
}

/// The sixteen GREASE values, in rising order: `0a0a`, `1a1a`, up to `fafa`.
pub open spec fn grease_values() -> Seq<Seq<u8>> {
    Seq::new(16, |k: int| seq![(16 * k + 10) as u8, (16 * k + 10) as u8])
}

/// Builds the list of the sixteen GREASE values.
fn grease_list() -> (list: Vec<Vec<u8>>)
    ensures
        list@.len() == 16,
        forall|k: int| 0 <= k < 16 ==> (#[trigger] list@[k])@ == grease_values()[k],
{
    let mut list: Vec<Vec<u8>> = Vec::new();
    let mut k: u8 = 0;
    while k < 16
        invariant
            k <= 16,
            list@.len() == k,
            forall|j: int| 0 <= j < k ==> (#[trigger] list@[j])@ == grease_values()[j],
        decreases 16 - k,
    {
        let value: u8 = 16 * k + 10;
        let entry = vec![value, value];
        list.push(entry);
        k = k + 1;
    }
    list
}

/// Calls `rand::thread_rng` and asks it, through `rand::Rng::gen`, for an
/// array of 32 bytes, which is handed out as a vector. The contract claims
/// the length and nothing about the bytes. `thread_rng` aborts where the
/// operating system gives it no seed.
#[verifier::external_body]
fn thread_random_block() -> (res: Vec<u8>)
    ensures
        res@.len() == 32,
{
    rand::thread_rng().gen::<[u8; 32]>().to_vec()
}

/// Calls `rand::seq::SliceRandom::choose` on `blocks` with the generator of
/// `rand::thread_rng`, and copies the block that was chosen. The contract
/// claims what the documentation of `choose` says: nothing is chosen from an
/// empty list, and otherwise the result is one of the list's items; which one
/// is left open. `thread_rng` aborts where the operating system gives it no
/// seed.
#[verifier::external_body]
fn choose_block(blocks: &Vec<Vec<u8>>) -> (res: Option<Vec<u8>>)
    ensures
        res is None <==> blocks@.len() == 0,
        res matches Some(block) ==> exists|i: int|
            0 <= i < blocks@.len() && (#[trigger] blocks@[i])@ == block@,
{
    blocks.choose(&mut rand::thread_rng()).cloned()
}

impl JarmRng for PseudoRng {
    open spec fn yields_bytes(&self, bytes: Seq<u8>) -> bool {
        bytes.len() == 32
    }

    open spec fn yields_grease(&self, grease: Seq<u8>) -> bool {
        is_grease(grease)
    }

    fn random_bytes(&self) -> (res: Vec<u8>) {
        thread_random_block()
    }

    fn random_grease(&self) -> (res: Vec<u8>) {
        let list = grease_list();
        match choose_block(&list) {
            Some(grease) => grease,
            None => vec![0x0au8, 0x0au8],
        }
    }
}

} // verus!
