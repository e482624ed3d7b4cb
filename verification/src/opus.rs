//! Estimates the playback duration of a raw Opus packet from its framing
//! alone: the leading TOC (table-of-contents) byte selects a per-frame
//! sample count, and its low two bits select how the frame count is encoded.

use vstd::arithmetic::div_mod::{
    lemma_div_by_self, lemma_div_is_ordered, lemma_div_is_ordered_by_denominator,
    lemma_div_nonincreasing, lemma_fundamental_div_mod, lemma_mod_division_less_than_divisor,
};
use vstd::arithmetic::mul::{lemma_mul_inequality, lemma_mul_upper_bound};
use vstd::prelude::*;

verus! {

/// Samples per frame selected by the configuration bits of the TOC byte
/// `toc` at sample rate `fs`: one of the four frame-size classes
/// 2.5 ms, 20 ms, 10 ms and 5 ms of the sample rate.
pub open spec fn spec_samples_per_frame(toc: u8, fs: u32) -> nat {
    if toc & 0x80 != 0 {
        fs as nat / 400
    } else if toc & 0x60 == 0x60 {
        fs as nat / 50
    } else if toc & 0x60 != 0 {
        fs as nat / 100
    } else {
        fs as nat / 200
    }
}

/// Number of frames held by an Opus packet: the TOC byte's low two bits
/// give one frame (code 0), two frames (codes 1 and 2), or an explicit
/// count in the next byte's low six bits (code 3), clamped to at least 1
/// so that a packet always makes forward progress.
pub open spec fn spec_nb_frames(packet: Seq<u8>) -> Option<u32> {
    if packet.len() == 0 {
        None
    } else {
        let code = packet[0] & 0x03;
        if code == 0 {
            Some(1u32)
        } else if code != 3 {
            Some(2u32)
        } else if packet.len() < 2 {
            None
        } else {
            let n = (packet[1] & 0x3f) as u32;
            if n == 0 {
                Some(1u32)
            } else {
                Some(n)
            }
        }
    }
}

/// Duration of the packet in microseconds:
/// samples-per-frame times frame count, scaled to the sample rate.
/// `None` for an empty packet, a zero sample rate, a zero sample count,
/// or a truncated explicit frame count.
pub open spec fn spec_packet_duration_us(packet: Seq<u8>, sample_rate: u32) -> Option<u64> {
    if packet.len() == 0 || sample_rate == 0 {
        None
    } else {
        match spec_nb_frames(packet) {
            None => None,
            Some(nbf) => {
                let samples = spec_samples_per_frame(packet[0], sample_rate) * nbf as nat;
                if samples == 0 {
                    None
                } else {
                    Some((samples * 1_000_000 / sample_rate as nat) as u64)
                }
            },
        }
    }
}

/// A decodable frame count is always between 1 and 63.
pub proof fn lemma_nb_frames_bounds(packet: Seq<u8>)
    requires
        spec_nb_frames(packet) is Some,
    ensures
        1 <= spec_nb_frames(packet)->Some_0 <= 63,
{
    if packet.len() >= 2 {
        let cb = packet[1];
        assert(cb & 0x3f <= 63) by (bit_vector);
    }
}

/// A successfully estimated packet duration is at least one microsecond:
/// the smallest frame-size class holds 1/400th of a second of samples, so
/// a nonzero sample count always spans at least a microsecond. This is
/// what lets the audio cursor always make forward progress.
pub proof fn lemma_packet_duration_positive(packet: Seq<u8>, rate: u32)
    requires
        spec_packet_duration_us(packet, rate) is Some,
    ensures
        1 <= spec_packet_duration_us(packet, rate)->Some_0,
{
    let toc = packet[0];
    let spf = spec_samples_per_frame(toc, rate);
    let nbf = spec_nb_frames(packet)->Some_0;
    lemma_nb_frames_bounds(packet);
    let samples = spf * nbf as nat;
    assert(packet.len() > 0 && rate > 0);
    assert(samples != 0);
    // every frame-size class holds at least rate / 400 samples
    lemma_div_is_ordered_by_denominator(rate as int, 50, 400);
    lemma_div_is_ordered_by_denominator(rate as int, 100, 400);
    lemma_div_is_ordered_by_denominator(rate as int, 200, 400);
    assert(spf >= rate as nat / 400);
    lemma_mul_inequality(1, nbf as int, spf as int);
    assert(samples >= spf);
    // samples * 1_000_000 >= rate
    if rate <= 1_000_000 {
        lemma_mul_inequality(1, samples as int, 1_000_000);
        assert(samples * 1_000_000 >= rate as nat);
    } else {
        let q = rate as int / 400;
        lemma_fundamental_div_mod(rate as int, 400);
        lemma_mod_division_less_than_divisor(rate as int, 400);
        assert(400 * q >= rate - 399);
        assert(q * 1_000_000 >= rate) by (nonlinear_arith)
            requires
                400 * q >= rate - 399,
                rate > 1_000_000,
        ;
        assert(samples as int >= q);
        lemma_mul_inequality(q, samples as int, 1_000_000);
        assert(samples * 1_000_000 >= rate as nat);
    }
    let num = samples * 1_000_000;
    lemma_div_is_ordered(rate as int, num as int, rate as int);
    lemma_div_by_self(rate as int);
    assert(num / rate as nat >= 1);
    // the quotient fits in u64, so the cast in the spec keeps its value
    lemma_div_nonincreasing(rate as int / 400, 1);
    lemma_div_nonincreasing(rate as int, 50);
    lemma_div_nonincreasing(rate as int, 100);
    lemma_div_nonincreasing(rate as int, 200);
    lemma_div_nonincreasing(rate as int, 400);
    assert(spf <= rate as nat);
    lemma_mul_upper_bound(spf as int, rate as int, nbf as int, 63);
    assert(samples <= rate as nat * 63);
    lemma_mul_inequality(samples as int, rate as int * 63, 1_000_000);
    lemma_div_nonincreasing(num as int, rate as int);
    assert(num / rate as nat <= num);
    assert(num / rate as nat <= u64::MAX);
}

pub fn opus_samples_per_frame(toc: u8, fs: u32) -> (r: u32)
    ensures
        r == spec_samples_per_frame(toc, fs),
{
    if toc & 0x80 != 0 {
        fs / 400
    } else if toc & 0x60 == 0x60 {
        fs / 50
    } else if toc & 0x60 != 0 {
        fs / 100
    } else {
        fs / 200
    }
}

pub fn opus_nb_frames(packet: &[u8]) -> (r: Option<u32>)
    ensures
        r == spec_nb_frames(packet@),
        r matches Some(n) ==> 1 <= n <= 63,
{
    if packet.len() == 0 {
        return None;
    }
    let toc = packet[0];
    let code = toc & 0x03;
    proof {
        assert(toc & 0x03 <= 3) by (bit_vector);
    }
    if code == 0 {
        Some(1)
    } else if code != 3 {
        Some(2)
    } else {
        if packet.len() < 2 {
            return None;
        }
        let count_byte = packet[1];
        let n = (count_byte & 0x3f) as u32;
        proof {
            assert(count_byte & 0x3f <= 63) by (bit_vector);
        }
        if n == 0 {
            Some(1)
        } else {
            Some(n)
        }
    }
}

/// The 19-byte OpusHead codec-private block: the magic `OpusHead`,
/// version 1, channel count, pre-skip, input sample rate and output gain
/// (little-endian), and the mapping family.
pub open spec fn spec_opus_head(
    channels: u8,
    sample_rate: u32,
    pre_skip: u16,
    output_gain_q8: i16,
    mapping_family: u8,
) -> Seq<u8> {
    let gain = output_gain_q8 as u16;
    seq![
        0x4fu8,
        0x70,
        0x75,
        0x73,
        0x48,
        0x65,
        0x61,
        0x64,
        1,
        channels,
        (pre_skip & 0xff) as u8,
        ((pre_skip >> 8) & 0xff) as u8,
        (sample_rate & 0xff) as u8,
        ((sample_rate >> 8) & 0xff) as u8,
        ((sample_rate >> 16) & 0xff) as u8,
        ((sample_rate >> 24) & 0xff) as u8,
        (gain & 0xff) as u8,
        ((gain >> 8) & 0xff) as u8,
        mapping_family,
    ]
}

/// Builds the OpusHead codec-private metadata attached to the software
/// muxer's audio track so that players can identify and decode the
/// stream.
pub fn opus_head_bytes(
    channels: u8,
    sample_rate: u32,
    pre_skip: u16,
    output_gain_q8: i16,
    mapping_family: u8,
) -> (r: Vec<u8>)
    ensures
        r@ == spec_opus_head(channels, sample_rate, pre_skip, output_gain_q8, mapping_family),
{
    let gain = #[verifier::truncate] (output_gain_q8 as u16);
    let mut v: Vec<u8> = Vec::new();
    v.push(0x4f);  // 'O'
    v.push(0x70);  // 'p'
    v.push(0x75);  // 'u'
    v.push(0x73);  // 's'
    v.push(0x48);  // 'H'
    v.push(0x65);  // 'e'
    v.push(0x61);  // 'a'
    v.push(0x64);  // 'd'
    v.push(1);
    v.push(channels);
    v.push(#[verifier::truncate] ((pre_skip & 0xff) as u8));
    v.push(#[verifier::truncate] (((pre_skip >> 8) & 0xff) as u8));
    v.push(#[verifier::truncate] ((sample_rate & 0xff) as u8));
    v.push(#[verifier::truncate] (((sample_rate >> 8) & 0xff) as u8));
    v.push(#[verifier::truncate] (((sample_rate >> 16) & 0xff) as u8));
    v.push(#[verifier::truncate] (((sample_rate >> 24) & 0xff) as u8));
    v.push(#[verifier::truncate] ((gain & 0xff) as u8));
    v.push(#[verifier::truncate] (((gain >> 8) & 0xff) as u8));
    v.push(mapping_family);
    proof {
        assert(v@ =~= spec_opus_head(channels, sample_rate, pre_skip, output_gain_q8,
            mapping_family));
    }
    v
}

pub fn opus_packet_duration_us(packet: &[u8], sample_rate: u32) -> (r: Option<u64>)
    ensures
        r == spec_packet_duration_us(packet@, sample_rate),
{
    if packet.len() == 0 || sample_rate == 0 {
        return None;
    }
    let toc = packet[0];
    let spf = opus_samples_per_frame(toc, sample_rate) as u64;
    let nbf: u64 = match opus_nb_frames(packet) {
        Some(n) => n as u64,
        None => {
            return None;
        },
    };
    proof {
        assert(spf * nbf <= 0xFFFF_FFFFu64 * 63) by (nonlinear_arith)
            requires
                spf <= 0xFFFF_FFFFu64,
                nbf <= 63,
        ;
    }
    let samples = spf * nbf;
    if samples == 0 {
        return None;
    }
    Some(samples * 1_000_000 / (sample_rate as u64))
}

} // verus!
