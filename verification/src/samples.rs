//! Buffers of samples: appending a block, keeping the newest, taking all.
//!
//! A sample is whatever the caller's audio is made of; nothing here computes on one.

use vstd::prelude::*;

verus! {

/// The newest `n` samples of `s`, or all of them where there are fewer.
pub open spec fn newest<T>(s: Seq<T>, n: nat) -> Seq<T> {
    if s.len() > n {
        s.skip(s.len() - n)
    } else {
        s
    }
}

/// The blocks one behind the other.
pub open spec fn concatenated<T>(blocks: Seq<Seq<T>>) -> Seq<T>
    decreases blocks.len(),
{
    if blocks.len() == 0 {
        Seq::empty()
    } else {
        concatenated(blocks.drop_last()) + blocks.last()
    }
}

/// Put `block` behind what `buf` holds.
pub fn extend<T: Copy>(buf: &mut Vec<T>, block: &[T])
    ensures
        final(buf)@ == old(buf)@ + block@,
{
    let n: usize = block.len();
    let mut i: usize = 0;
    while i < n
        invariant
            i <= n,
            n == block@.len(),
            buf@ =~= old(buf)@ + block@.take(i as int),
        decreases n - i,
    {
        buf.push(block[i]);
        i = i + 1;
    }
    assert(block@.take(n as int) =~= block@);
}

/// Drop the oldest samples beyond the newest `n`.
pub fn keep_newest<T>(buf: &mut Vec<T>, n: usize)
    ensures
        final(buf)@ == newest(old(buf)@, n as nat),
{
    if buf.len() > n {
        let excess: usize = buf.len() - n;
        let tail = buf.split_off(excess);
        *buf = tail;
    }
}

/// Drop the first `n` samples.
pub fn drop_oldest<T>(buf: &mut Vec<T>, n: usize)
    requires
        n <= old(buf)@.len(),
    ensures
        final(buf)@ == old(buf)@.skip(n as int),
{
    let tail = buf.split_off(n);
    *buf = tail;
}

/// Hand out what `buf` holds and leave it empty.
pub fn take_all<T>(buf: &mut Vec<T>) -> (all: Vec<T>)
    ensures
        all@ == old(buf)@,
        final(buf)@.len() == 0,
{
    let mut all: Vec<T> = Vec::new();
    core::mem::swap(&mut all, buf);
    all
}

/// The newest samples are the end of the buffer, as long as the limit allows.
pub proof fn law_newest_is_the_end<T>(s: Seq<T>, n: nat)
    ensures
        newest(s, n).len() == (if s.len() < n {
            s.len()
        } else {
            n
        }),
        newest(s, n) == s.skip(s.len() - newest(s, n).len()),
{
    assert(newest(s, n) =~= s.skip(s.len() - newest(s, n).len()));
}

/// Blocks one behind the other are as long as all of them, and lists of blocks add up.
pub proof fn law_concatenation_adds_up<T>(a: Seq<Seq<T>>, b: Seq<Seq<T>>, block: Seq<T>)
    ensures
        concatenated(seq![block]) == block,
        concatenated(a + b) == concatenated(a) + concatenated(b),
    decreases b.len(),
{
    assert(seq![block].drop_last() =~= Seq::<Seq<T>>::empty());
    assert(concatenated(Seq::<Seq<T>>::empty()) =~= Seq::<T>::empty());
    assert(concatenated(seq![block]) =~= block);
    if b.len() == 0 {
        assert(a + b =~= a);
        assert(concatenated(a) + concatenated(b) =~= concatenated(a));
    } else {
        law_concatenation_adds_up(a, b.drop_last(), block);
        assert((a + b).drop_last() =~= a + b.drop_last());
        assert(concatenated(a + b) =~= concatenated(a) + concatenated(b));
    }
}

} // verus!
