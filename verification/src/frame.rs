//! Saved register images, laid out as little-endian words in a stack's bytes.
//!
//! A saved register image is a run of `FRAME_WORDS` machine words: the
//! address to resume at, then the callee-preserved registers in order.
//! Addresses are byte offsets from the bottom of the stack that holds them.

use vstd::prelude::*;
use vstd::bytes::{
    lemma_auto_spec_u64_to_from_le_bytes, spec_u64_from_le_bytes, spec_u64_to_le_bytes,
    u64_from_le_bytes, u64_to_le_bytes,
};
use crate::layout::{SAVED_REGS, STACK_SIZE, WORD_SIZE};

verus! {

/// The machine word held in the eight bytes of `mem` that start at `off`.
pub open spec fn word_at(mem: Seq<u8>, off: int) -> u64 {
    spec_u64_from_le_bytes(mem.subrange(off, off + WORD_SIZE))
}

/// `mem` with `words` written, one after another, from offset `off` up.
pub open spec fn store_words(mem: Seq<u8>, off: int, words: Seq<u64>) -> Seq<u8> {
    Seq::new(
        mem.len(),
        |i: int|
            if off <= i < off + WORD_SIZE * words.len() {
                spec_u64_to_le_bytes(words[(i - off) / (WORD_SIZE as int)])[(i - off) % (
                WORD_SIZE as int)]
            } else {
                mem[i]
            },
    )
}

/// The `n` machine words that `mem` holds from offset `off` up.
pub open spec fn load_words(mem: Seq<u8>, off: int, n: nat) -> Seq<u64> {
    Seq::new(n, |k: int| word_at(mem, off + WORD_SIZE * k))
}

/// The words of a saved register image: the resume address, then the registers.
pub open spec fn image(resume: u64, regs: Seq<u64>) -> Seq<u64> {
    seq![resume] + regs
}

/// The image that starts a thread at `entry`: every register slot is zero.
pub open spec fn initial_image(entry: u64) -> Seq<u64> {
    image(entry, Seq::new(SAVED_REGS as nat, |k: int| 0u64))
}

/// Writing no words leaves the memory as it was.
pub proof fn lemma_store_no_words(mem: Seq<u8>, off: int)
    ensures
        store_words(mem, off, Seq::<u64>::empty()) == mem,
{
    assert(store_words(mem, off, Seq::<u64>::empty()) =~= mem);
}

/// Writing one more word after a run of words is writing the longer run.
pub proof fn lemma_store_words_push(mem: Seq<u8>, off: int, words: Seq<u64>, w: u64)
    requires
        0 <= off,
        off + WORD_SIZE * (words.len() + 1) <= mem.len(),
    ensures
        store_words(store_words(mem, off, words), off + WORD_SIZE * words.len(), seq![w])
            == store_words(mem, off, words.push(w)),
{
    let n = words.len() as int;
    let a = store_words(store_words(mem, off, words), off + 8 * n, seq![w]);
    let b = store_words(mem, off, words.push(w));
    assert forall|i: int| 0 <= i < mem.len() implies a[i] == b[i] by {
        if off + 8 * n <= i < off + 8 * n + 8 {
            assert((i - off) / 8 == n);
            assert((i - off) % 8 == i - off - 8 * n);
            assert((i - (off + 8 * n)) / 8 == 0);
            assert((i - (off + 8 * n)) % 8 == i - off - 8 * n);
            assert(words.push(w)[n] == w);
        } else if off <= i < off + 8 * n {
            let k = (i - off) / 8;
            assert(0 <= k < n);
            assert(words.push(w)[k] == words[k]);
        }
    }
    assert(a =~= b);
}

/// Words read back from where they were written are the words written.
pub proof fn lemma_load_stored_words(mem: Seq<u8>, off: int, words: Seq<u64>)
    requires
        0 <= off,
        off + WORD_SIZE * words.len() <= mem.len(),
    ensures
        load_words(store_words(mem, off, words), off, words.len()) == words,
{
    lemma_auto_spec_u64_to_from_le_bytes();
    let m = store_words(mem, off, words);
    assert forall|k: int| 0 <= k < words.len() implies word_at(m, off + 8 * k) == words[k] by {
        let s = m.subrange(off + 8 * k, off + 8 * k + 8);
        let t = spec_u64_to_le_bytes(words[k]);
        assert forall|j: int| 0 <= j < 8 implies s[j] == t[j] by {
            let i = off + 8 * k + j;
            assert((i - off) / 8 == k);
            assert((i - off) % 8 == j);
        }
        assert(s =~= t);
    }
    assert(load_words(m, off, words.len()) =~= words);
}

/// Writes `value` into the eight bytes of `stack` that start at `off`.
pub fn write_word(stack: &mut [u8; STACK_SIZE], off: usize, value: u64)
    requires
        off + WORD_SIZE <= STACK_SIZE,
    ensures
        final(stack)@ == store_words(old(stack)@, off as int, seq![value]),
{
    let bytes = u64_to_le_bytes(value);
    let mut j: usize = 0;
    while j < WORD_SIZE
        invariant
            j <= WORD_SIZE,
            off + WORD_SIZE <= STACK_SIZE,
            bytes@ == spec_u64_to_le_bytes(value),
            bytes@.len() == 8,
            forall|i: int| 0 <= i < STACK_SIZE ==> stack@[i] == if off <= i < off + j {
                bytes@[i - off]
            } else {
                old(stack)@[i]
            },
        decreases WORD_SIZE - j,
    {
        stack[off + j] = bytes[j];
        j += 1;
    }
    proof {
        let want = store_words(old(stack)@, off as int, seq![value]);
        assert forall|i: int| 0 <= i < STACK_SIZE implies stack@[i] == want[i] by {
            if off <= i < off + 8 {
                assert((i - off) / 8 == 0);
                assert((i - off) % 8 == i - off);
            }
        }
        assert(stack@ =~= want);
    }
}

/// Reads the machine word in the eight bytes of `stack` that start at `off`.
pub fn read_word(stack: &[u8; STACK_SIZE], off: usize) -> (value: u64)
    requires
        off + WORD_SIZE <= STACK_SIZE,
    ensures
        value == word_at(stack@, off as int),
{
    let mut bytes: Vec<u8> = Vec::new();
    let mut j: usize = 0;
    while j < WORD_SIZE
        invariant
            j <= WORD_SIZE,
            off + WORD_SIZE <= STACK_SIZE,
            bytes@ == stack@.subrange(off as int, off + j),
        decreases WORD_SIZE - j,
    {
        bytes.push(stack[off + j]);
        j += 1;
        assert(bytes@ =~= stack@.subrange(off as int, off + j));
    }
    u64_from_le_bytes(bytes.as_slice())
}

} // verus!
