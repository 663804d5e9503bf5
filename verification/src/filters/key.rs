//! Keys of filter stacks: equal keys are taken for equal stacks, so that a
//! preview is not computed twice.
use std::collections::hash_map::DefaultHasher;
use std::hash::Hasher;
use vstd::prelude::*;
use vstd::std_specs::hash::DefaultHasherAdditionalSpecFns;
use crate::filters::feed::flag;
use crate::filters::kind::StudioVisibility;
use crate::filters::params::FilterParams;

verus! {

/// A filter in a stack.
pub struct StackEntry {
    pub params: FilterParams,
    /// Whether the advanced settings are unfolded.
    pub advanced_open: bool,
}

/// The last `n` digits of a number in base 256, the lowest first.
pub open spec fn low_bytes(x: nat, n: nat) -> Seq<u8>
    decreases n,
{
    if n == 0 {
        Seq::empty()
    } else {
        seq![(x % 256) as u8] + low_bytes(x / 256, (n - 1) as nat)
    }
}

/// A number as bytes: its sign and sixteen digits.
pub open spec fn word_bytes(v: i128) -> Seq<u8> {
    if v < 0 {
        seq![1u8] + low_bytes((-(v + 1)) as nat, 16)
    } else {
        seq![0u8] + low_bytes(v as nat, 16)
    }
}

fn bytes_of_word(v: i128) -> (r: Vec<u8>)
    ensures
        r@ == word_bytes(v),
{
    let mut out: Vec<u8> = Vec::new();
    let mut x: u128 = if v < 0 {
        out.push(1);
        (-(v + 1)) as u128
    } else {
        out.push(0);
        v as u128
    };
    let ghost full = word_bytes(v);
    let mut i: usize = 0;
    assert(out@ + low_bytes(x as nat, 16) =~= full);
    while i < 16
        invariant
            i <= 16,
            full == out@ + low_bytes(x as nat, (16 - i) as nat),
        decreases 16 - i,
    {
        let ghost before = out@;
        let digit: u8 = (x % 256) as u8;
        out.push(digit);
        assert(before + (seq![digit] + low_bytes(x as nat / 256, (15 - i) as nat)) =~= out@
            + low_bytes(x as nat / 256, (15 - i) as nat));
        x = x / 256;
        i += 1;
    }
    assert(out@ =~= full);
    out
}

/// What a hasher has been given after a list of numbers.
pub open spec fn chunks(words: Seq<i128>) -> Seq<Seq<u8>> {
    words.map_values(|v: i128| word_bytes(v))
}

/// The hash of a list of numbers.
pub open spec fn hashed(words: Seq<i128>) -> u64 {
    DefaultHasher::spec_finish(chunks(words))
}

pub fn hash_words(words: &Vec<i128>) -> (r: u64)
    ensures
        r == hashed(words@),
{
    let mut h = DefaultHasher::new();
    let n: usize = words.len();
    let mut i: usize = 0;
    assert(h@ =~= chunks(words@.take(0)));
    while i < n
        invariant
            i <= n,
            n == words.len(),
            h@ == chunks(words@.take(i as int)),
        decreases n - i,
    {
        let bytes = bytes_of_word(words[i]);
        h.write(bytes.as_slice());
        i += 1;
        assert(h@ =~= chunks(words@.take(i as int)));
    }
    assert(words@.take(n as int) =~= words@);
    h.finish()
}

/// A filter as a value: its parameters and whether advanced settings count.
pub open spec fn entry_feed(e: StackEntry) -> Seq<i128> {
    e.params.feed() + seq![flag(e.advanced_open)]
}

/// The numbers of all filters of a stack, in order.
pub open spec fn entries_feed(stack: Seq<StackEntry>) -> Seq<i128>
    decreases stack.len(),
{
    if stack.len() == 0 {
        Seq::empty()
    } else {
        entries_feed(stack.drop_last()) + entry_feed(stack.last())
    }
}

pub open spec fn visibility_ord(v: StudioVisibility) -> i128 {
    match v {
        StudioVisibility::AllLayers => 0,
        StudioVisibility::ThisLayer => 1,
    }
}

/// The numbers that a preview depends on.
pub open spec fn stack_feed(v: StudioVisibility, stack: Seq<StackEntry>) -> Seq<i128> {
    seq![visibility_ord(v), stack.len() as i128] + entries_feed(stack)
}

/// The key of a preview.
pub open spec fn spec_stack_key(v: StudioVisibility, stack: Seq<StackEntry>) -> u64 {
    hashed(stack_feed(v, stack))
}

fn entry_words(e: &StackEntry) -> (r: Vec<i128>)
    ensures
        r@ == entry_feed(*e),
{
    let mut values = e.params.value_list();
    let mut out: Vec<i128> = Vec::new();
    out.push(e.params.kind().ordinal());
    out.push(values.len() as i128);
    out.append(&mut values);
    out.push(
        if e.advanced_open {
            1
        } else {
            0
        },
    );
    assert(out@ =~= entry_feed(*e));
    out
}

/// The key of the preview of a stack.
pub fn stack_key(v: StudioVisibility, stack: &Vec<StackEntry>) -> (r: u64)
    ensures
        r == spec_stack_key(v, stack@),
{
    let n: usize = stack.len();
    let mut out: Vec<i128> = Vec::new();
    out.push(
        match v {
            StudioVisibility::AllLayers => 0,
            StudioVisibility::ThisLayer => 1,
        },
    );
    out.push(n as i128);
    let ghost head = seq![visibility_ord(v), stack.len() as i128];
    let mut i: usize = 0;
    assert(out@ =~= head + entries_feed(stack@.take(0)));
    while i < n
        invariant
            i <= n,
            n == stack.len(),
            out@ == head + entries_feed(stack@.take(i as int)),
        decreases n - i,
    {
        let mut more = entry_words(&stack[i]);
        out.append(&mut more);
        i += 1;
        assert(stack@.take(i as int).drop_last() =~= stack@.take(i - 1));
        assert(out@ =~= head + entries_feed(stack@.take(i as int)));
    }
    assert(stack@.take(n as int) =~= stack@);
    hash_words(&out)
}

/// The key of the plate after the first `n` filters: it depends on all of them.
pub open spec fn prefix_key(stack: Seq<StackEntry>, n: nat) -> u64
    decreases n,
{
    if n == 0 {
        0
    } else {
        hashed(seq![prefix_key(stack, (n - 1) as nat) as i128] + entry_feed(stack[n - 1]))
    }
}

/// The keys of the plates after each filter.
pub fn prefix_keys(stack: &Vec<StackEntry>) -> (r: Vec<u64>)
    ensures
        r.len() == stack.len(),
        forall|i: int| 0 <= i < r.len() ==> #[trigger] r@[i] == prefix_key(stack@, (i + 1) as nat),
{
    let n: usize = stack.len();
    let mut out: Vec<u64> = Vec::new();
    let mut chain: u64 = 0;
    let mut i: usize = 0;
    while i < n
        invariant
            i <= n,
            n == stack.len(),
            chain == prefix_key(stack@, i as nat),
            out.len() == i,
            forall|j: int| 0 <= j < i ==> #[trigger] out@[j] == prefix_key(stack@, (j + 1) as nat),
        decreases n - i,
    {
        let mut words: Vec<i128> = Vec::new();
        words.push(chain as i128);
        let mut more = entry_words(&stack[i]);
        words.append(&mut more);
        assert(words@ =~= seq![chain as i128] + entry_feed(stack@[i as int]));
        chain = hash_words(&words);
        out.push(chain);
        i += 1;
    }
    out
}

} // verus!
