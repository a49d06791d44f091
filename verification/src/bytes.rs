//! Little-endian integers and 16-bit PCM as bytes.

use vstd::prelude::*;

verus! {

/// The two bytes of a 16-bit number, lowest first.
pub open spec fn le16(n: int) -> Seq<u8> {
    seq![(n % 256) as u8, (n / 256 % 256) as u8]
}

/// The four bytes of a 32-bit number, lowest first.
pub open spec fn le32(n: int) -> Seq<u8> {
    seq![
        (n % 256) as u8,
        (n / 256 % 256) as u8,
        (n / 65_536 % 256) as u8,
        (n / 16_777_216 % 256) as u8,
    ]
}

/// A 16-bit sample in two's complement, as a number from 0 to 65 535.
pub open spec fn twos(sample: i16) -> int {
    if sample < 0 {
        sample + 65_536
    } else {
        sample as int
    }
}

/// The sample that two bytes spell, lowest first.
pub open spec fn s16(low: u8, high: u8) -> int {
    let n = low + 256 * high;
    if n < 32_768 {
        n
    } else {
        n - 65_536
    }
}

/// The bytes of a list of samples, two for each.
pub open spec fn pcm16(samples: Seq<i16>) -> Seq<u8> {
    Seq::new(samples.len() * 2, |k: int| le16(twos(samples[k / 2]))[k % 2])
}

/// The samples that a list of bytes spells; an odd last byte is left out.
pub open spec fn samples_of(bytes: Seq<u8>) -> Seq<i16> {
    Seq::new(bytes.len() / 2, |k: int| s16(bytes[2 * k], bytes[2 * k + 1]) as i16)
}

/// Put a 16-bit number behind `out`, lowest byte first.
pub fn push_le16(out: &mut Vec<u8>, n: u16)
    ensures
        final(out)@ == old(out)@ + le16(n as int),
{
    out.push((n % 256) as u8);
    out.push((n / 256 % 256) as u8);
    assert(out@ =~= old(out)@ + le16(n as int));
}

/// Put a 32-bit number behind `out`, lowest byte first.
pub fn push_le32(out: &mut Vec<u8>, n: u32)
    ensures
        final(out)@ == old(out)@ + le32(n as int),
{
    out.push((n % 256) as u8);
    out.push((n / 256 % 256) as u8);
    out.push((n / 65_536 % 256) as u8);
    out.push((n / 16_777_216 % 256) as u8);
    assert(out@ =~= old(out)@ + le32(n as int));
}

/// Put samples behind `out`, each as two bytes, lowest first.
pub fn push_pcm16(out: &mut Vec<u8>, samples: &[i16])
    ensures
        final(out)@ == old(out)@ + pcm16(samples@),
{
    let mut i: usize = 0;
    assert(out@ =~= old(out)@ + pcm16(samples@.take(0)));
    while i < samples.len()
        invariant
            i <= samples@.len(),
            out@ == old(out)@ + pcm16(samples@.take(i as int)),
        decreases samples@.len() - i,
    {
        let sample: i16 = samples[i];
        let n: u16 = if sample < 0 {
            (sample as i32 + 65_536) as u16
        } else {
            sample as u16
        };
        push_le16(out, n);
        proof {
            let less = samples@.take(i as int);
            let more = samples@.take(i + 1);
            assert forall|k: int| 0 <= k < pcm16(more).len() implies pcm16(more)[k] == (pcm16(less)
                + le16(n as int))[k] by {
                if k < 2 * i {
                    assert(more[k / 2] == less[k / 2]);
                } else {
                    assert(k / 2 == i);
                    assert(k % 2 == k - 2 * i);
                }
            }
            assert(pcm16(more) =~= pcm16(less) + le16(n as int));
            assert(out@ =~= old(out)@ + pcm16(more));
        }
        i = i + 1;
    }
    assert(samples@.take(i as int) =~= samples@);
}

/// The samples that `bytes` spells; an odd last byte is left out.
pub fn decode_pcm16(bytes: &[u8]) -> (samples: Vec<i16>)
    ensures
        samples@ == samples_of(bytes@),
{
    let mut samples: Vec<i16> = Vec::new();
    let len: usize = bytes.len();
    let n: usize = len / 2;
    let mut i: usize = 0;
    while i < n
        invariant
            i <= n,
            n == len / 2,
            len == bytes@.len(),
            samples@ =~= samples_of(bytes@).take(i as int),
        decreases n - i,
    {
        let word: i32 = bytes[2 * i] as i32 + 256 * (bytes[2 * i + 1] as i32);
        let sample: i16 = if word < 32_768 {
            word as i16
        } else {
            (word - 65_536) as i16
        };
        samples.push(sample);
        i = i + 1;
    }
    samples
}

/// Samples survive the trip into bytes and back.
pub proof fn law_pcm16_round_trip(samples: Seq<i16>)
    ensures
        samples_of(pcm16(samples)) == samples,
{
    let bytes = pcm16(samples);
    assert forall|k: int| 0 <= k < samples.len() implies samples_of(bytes)[k] == samples[k] by {
        assert(bytes[2 * k] == le16(twos(samples[k]))[0]);
        assert(bytes[2 * k + 1] == le16(twos(samples[k]))[1]) by {
            assert((2 * k + 1) / 2 == k);
            assert((2 * k + 1) % 2 == 1);
        }
    }
    assert(samples_of(bytes) =~= samples);
}

/// The bytes of a number, each weighed by its place, make up the number.
pub proof fn law_bytes_weigh_the_number(n: int)
    ensures
        0 <= n < 0x1_0000 ==> {
            &&& le16(n).len() == 2
            &&& le16(n)[0] + 0x100 * le16(n)[1] == n
        },
        0 <= n < 0x1_0000_0000 ==> {
            &&& le32(n).len() == 4
            &&& le32(n)[0] + 0x100 * le32(n)[1] + 0x1_0000 * le32(n)[2] + 0x100_0000 * le32(n)[3]
                == n
        },
{
}

/// Every sample takes two bytes at its place, which weigh the sample or, where it is
/// negative, the sample and 65 536.
pub proof fn law_samples_lie_in_order(samples: Seq<i16>, k: int)
    requires
        0 <= k < samples.len(),
    ensures
        pcm16(samples).len() == 2 * samples.len(),
        pcm16(samples)[2 * k] + 0x100 * pcm16(samples)[2 * k + 1] == (if samples[k] >= 0 {
            samples[k] as int
        } else {
            samples[k] + 0x1_0000
        }),
{
    assert((2 * k) / 2 == k && (2 * k) % 2 == 0);
    assert((2 * k + 1) / 2 == k && (2 * k + 1) % 2 == 1);
}

/// Every two bytes are one sample, whose weight they hold up to 65 536.
pub proof fn law_bytes_spell_samples(bytes: Seq<u8>, k: int)
    requires
        0 <= k < bytes.len() / 2,
    ensures
        samples_of(bytes).len() == bytes.len() / 2,
        ({
            let weight = bytes[2 * k] + 0x100 * bytes[2 * k + 1];
            samples_of(bytes)[k] == weight || samples_of(bytes)[k] == weight - 0x1_0000
        }),
{
}

} // verus!
