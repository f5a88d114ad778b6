//! Encoding of recordings as 16-bit mono PCM WAV files at 16 kHz.

use vstd::prelude::*;

verus! {

/// The sampling rate of recordings, in Hz.
pub const SAMPLE_RATE: u32 = 16000u32;

/// Length of the WAV header, in bytes.
pub const WAV_HEADER_LEN: usize = 44usize;

/// The two little-endian bytes of `x` (taken modulo 2^16).
pub open spec fn le16(x: int) -> Seq<u8> {
    seq![(x % 256) as u8, ((x / 256) % 256) as u8]
}

/// The four little-endian bytes of `x` (taken modulo 2^32).
pub open spec fn le32(x: int) -> Seq<u8> {
    seq![
        (x % 256) as u8,
        ((x / 256) % 256) as u8,
        ((x / 65536) % 256) as u8,
        ((x / 16777216) % 256) as u8,
    ]
}

/// The two's-complement little-endian bytes of a sample.
pub open spec fn sample_le(s: i16) -> Seq<u8> {
    le16(if s < 0 { s + 65536 } else { s as int })
}

/// The little-endian bytes of all samples, in order.
pub open spec fn pcm_bytes(s: Seq<i16>) -> Seq<u8>
    decreases s.len(),
{
    if s.len() == 0 {
        Seq::empty()
    } else {
        pcm_bytes(s.drop_last()) + sample_le(s.last())
    }
}

/// The header of a WAV file holding `n` samples: RIFF/WAVE, a PCM format
/// chunk (one channel, 16 kHz, 16 bits), and the data chunk's header.
pub open spec fn wav_header(n: nat) -> Seq<u8> {
    seq![82u8, 73, 70, 70] + le32(36 + 2 * n as int) + seq![87u8, 65, 86, 69]
        + seq![102u8, 109, 116, 32] + le32(16) + le16(1) + le16(1) + le32(SAMPLE_RATE as int)
        + le32(SAMPLE_RATE * 2) + le16(2) + le16(16)
        + seq![100u8, 97, 116, 97] + le32(2 * n as int)
}

fn push_le16(out: &mut Vec<u8>, x: u32)
    requires
        x < 65536,
    ensures
        final(out)@ == old(out)@ + le16(x as int),
{
    out.push((x % 256) as u8);
    out.push(((x / 256) % 256) as u8);
}

fn push_le32(out: &mut Vec<u8>, x: u32)
    ensures
        final(out)@ == old(out)@ + le32(x as int),
{
    out.push((x % 256) as u8);
    out.push(((x / 256) % 256) as u8);
    out.push(((x / 65536) % 256) as u8);
    out.push(((x / 16777216) % 256) as u8);
}

fn push_ascii4(out: &mut Vec<u8>, a: u8, b: u8, c: u8, d: u8)
    ensures
        final(out)@ == old(out)@ + seq![a, b, c, d],
{
    out.push(a);
    out.push(b);
    out.push(c);
    out.push(d);
}

/// The bytes of a 16-bit mono 16 kHz WAV file holding `samples`.
pub fn wav_bytes(samples: &[i16]) -> (r: Vec<u8>)
    requires
        36 + 2 * samples@.len() <= u32::MAX,
    ensures
        r@ == wav_header(samples@.len()) + pcm_bytes(samples@),
{
    let n = samples.len();
    let data_len: u32 = (n * 2) as u32;
    let mut out: Vec<u8> = Vec::new();
    push_ascii4(&mut out, 82, 73, 70, 70);
    push_le32(&mut out, 36 + data_len);
    push_ascii4(&mut out, 87, 65, 86, 69);
    push_ascii4(&mut out, 102, 109, 116, 32);
    push_le32(&mut out, 16);
    push_le16(&mut out, 1);
    push_le16(&mut out, 1);
    push_le32(&mut out, SAMPLE_RATE);
    push_le32(&mut out, SAMPLE_RATE * 2);
    push_le16(&mut out, 2);
    push_le16(&mut out, 16);
    push_ascii4(&mut out, 100, 97, 116, 97);
    push_le32(&mut out, data_len);
    assert(out@ =~= wav_header(n as nat));
    let ghost header = out@;
    let mut i: usize = 0;
    assert(samples@.take(0) =~= Seq::<i16>::empty());
    while i < n
        invariant
            i <= n == samples@.len(),
            out@ == header + pcm_bytes(samples@.take(i as int)),
        decreases n - i,
    {
        let s = samples[i];
        let u: u32 = if s < 0 { (s as i32 + 65536) as u32 } else { s as u32 };
        push_le16(&mut out, u);
        assert(samples@.take(i + 1).drop_last() =~= samples@.take(i as int));
        assert(out@ =~= header + pcm_bytes(samples@.take(i + 1)));
        i = i + 1;
    }
    assert(samples@.take(n as int) =~= samples@);
    out
}

/// Where a recording made at `timestamp` is saved.
pub fn recording_path(out_dir: &str, timestamp: &str) -> (r: String)
    ensures
        r@ == out_dir@ + "/recording_"@ + timestamp@ + ".wav"@,
{
    let mut s = String::from_str(out_dir);
    s.append("/recording_");
    s.append(timestamp);
    s.append(".wav");
    s
}

/// The little-endian 16-bit value at `at`.
pub open spec fn read_le16(b: Seq<u8>, at: int) -> int {
    b[at] as int + 256 * b[at + 1]
}

/// The little-endian 32-bit value at `at`.
pub open spec fn read_le32(b: Seq<u8>, at: int) -> int {
    b[at] as int + 256 * b[at + 1] + 65536 * b[at + 2] + 16777216 * b[at + 3]
}

/// The two's-complement 16-bit sample at `at`.
pub open spec fn read_sample(b: Seq<u8>, at: int) -> int {
    let u = read_le16(b, at);
    if u >= 32768 { u - 65536 } else { u }
}

proof fn lemma_le16(x: int)
    requires
        0 <= x < 65536,
    ensures
        read_le16(le16(x), 0) == x,
{
}

proof fn lemma_le32(x: int)
    requires
        0 <= x <= u32::MAX,
    ensures
        read_le32(le32(x), 0) == x,
{
}

proof fn lemma_pcm_bytes(s: Seq<i16>)
    ensures
        pcm_bytes(s).len() == 2 * s.len(),
        forall|i: int| 0 <= i < s.len() ==> #[trigger] read_sample(pcm_bytes(s), 2 * i) == s[i],
    decreases s.len(),
{
    if s.len() > 0 {
        let d = s.drop_last();
        lemma_pcm_bytes(d);
        let last = s.last();
        let u: int = if last < 0 { last + 65536 } else { last as int };
        lemma_le16(u);
        assert forall|i: int| 0 <= i < s.len() implies #[trigger] read_sample(pcm_bytes(s), 2 * i) == s[i] by {
            if i < d.len() {
                assert(pcm_bytes(s)[2 * i] == pcm_bytes(d)[2 * i]);
                assert(pcm_bytes(s)[2 * i + 1] == pcm_bytes(d)[2 * i + 1]);
                assert(read_sample(pcm_bytes(d), 2 * i) == d[i]);
            } else {
                assert(pcm_bytes(s)[2 * i] == sample_le(last)[0]);
                assert(pcm_bytes(s)[2 * i + 1] == sample_le(last)[1]);
            }
        }
    }
}

/// A WAV file as encoded here reads back: its length is the header plus two
/// bytes per sample, its RIFF size is the file length less 8, its data size
/// is two bytes per sample, its rate is `SAMPLE_RATE`, and every sample
/// decodes to the sample that was written.
pub proof fn law_wav_round_trip(samples: Seq<i16>)
    requires
        36 + 2 * samples.len() <= u32::MAX,
    ensures
        ({
            let w = wav_header(samples.len()) + pcm_bytes(samples);
            &&& w.len() == WAV_HEADER_LEN + 2 * samples.len()
            &&& read_le32(w, 4) == w.len() - 8
            &&& read_le32(w, 24) == SAMPLE_RATE
            &&& read_le32(w, 40) == 2 * samples.len()
            &&& forall|i: int| 0 <= i < samples.len() ==> #[trigger] read_sample(w, WAV_HEADER_LEN + 2 * i)
                == samples[i]
        }),
{
    let n: int = samples.len() as int;
    let h = wav_header(samples.len());
    let p = pcm_bytes(samples);
    let w = h + p;
    lemma_pcm_bytes(samples);
    assert(h.len() == 44);
    lemma_le32(36 + 2 * n);
    lemma_le32(2 * n);
    lemma_le32(SAMPLE_RATE as int);
    assert(w.subrange(4, 8) =~= le32(36 + 2 * n));
    assert(read_le32(w, 4) == read_le32(le32(36 + 2 * n), 0));
    assert(w.subrange(24, 28) =~= le32(SAMPLE_RATE as int));
    assert(read_le32(w, 24) == read_le32(le32(SAMPLE_RATE as int), 0));
    assert(w.subrange(40, 44) =~= le32(2 * n));
    assert(read_le32(w, 40) == read_le32(le32(2 * n), 0));
    assert forall|i: int| 0 <= i < n implies #[trigger] read_sample(w, WAV_HEADER_LEN + 2 * i) == samples[i] by {
        assert(w[44 + 2 * i] == p[2 * i]);
        assert(w[44 + 2 * i + 1] == p[2 * i + 1]);
        assert(read_sample(p, 2 * i) == samples[i]);
    }
}

} // verus!
