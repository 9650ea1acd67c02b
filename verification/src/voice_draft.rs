//! Voice-note drafts: what the on-disk half of a recording holds.
//!
//! A recording is raw PCM, mono, 16-bit, little endian. Beside it stands a descriptor of fixed
//! layout: how long the recording had run, and the amplitudes sampled so far.

use vstd::prelude::*;

use crate::room_bridge::{beside_of, directory, under};
use crate::text::join;
use crate::wire::pow256;

verus! {

/// The directory beside the vault that holds the drafts.
pub const VOICE_DRAFTS_DIR: &'static str = "voice-note-drafts";

/// One draft, as the composer meets it.
pub struct VoiceDraft {
    /// The playing time the descriptor last stated.
    pub duration_ms: u64,
    /// The sampled amplitude bars, unfolded.
    pub amplitudes: Vec<u8>,
}

impl VoiceDraft {
    /// The fixed-width waveform the message carries. `folded` is the fold of the sampled bars;
    /// a draft without bars has none.
    pub fn waveform(&self, folded: Vec<u8>) -> (waveform: Option<Vec<u8>>)
        ensures
            waveform == (if self.amplitudes@.len() == 0 {
                None::<Vec<u8>>
            } else {
                Some(folded)
            }),
    {
        if self.amplitudes.len() == 0 {
            None
        } else {
            Some(folded)
        }
    }
}

/// The draft store: one draft per conversation, beside the vault.
pub struct VoiceDraftStore {
    /// The directory that holds the drafts.
    pub dir: String,
}

impl VoiceDraftStore {
    /// The store beside a vault, whose directory is given; a vault without one lives here.
    pub fn beside(parent: Option<&str>) -> (store: Self)
        ensures
            store.dir@ == under(beside_of(parent), VOICE_DRAFTS_DIR@),
    {
        VoiceDraftStore { dir: directory(parent, VOICE_DRAFTS_DIR) }
    }

    /// The name of the directory that holds the drafts.
    pub fn dir_name() -> (name: String)
        ensures
            name@ == VOICE_DRAFTS_DIR@,
    {
        VOICE_DRAFTS_DIR.to_owned()
    }

    /// The file a conversation's recording is written to, named by the text of its id.
    pub fn pcm_path(conversation: &str) -> (name: String)
        ensures
            name@ == conversation@ + ".pcm"@,
    {
        join(conversation, ".pcm")
    }

    /// The file a conversation's descriptor is written to.
    pub fn descriptor_path(conversation: &str) -> (name: String)
        ensures
            name@ == conversation@ + ".draft"@,
    {
        join(conversation, ".draft")
    }
}

/// The number that a little-endian run of bytes spells.
pub open spec fn le(bytes: Seq<u8>) -> int
    decreases bytes.len(),
{
    if bytes.len() == 0 {
        0
    } else {
        le(bytes.drop_last()) + bytes.last() * pow256((bytes.len() - 1) as nat)
    }
}

/// A number as so many little-endian bytes.
pub open spec fn le_bytes(n: int, size: nat) -> Seq<u8>
    decreases size,
{
    if size == 0 {
        Seq::empty()
    } else {
        seq![(n % 256) as u8] + le_bytes(n / 256, (size - 1) as nat)
    }
}

/// The count a descriptor states for so many amplitudes.
pub open spec fn stated_count(len: nat) -> int {
    if len > u32::MAX {
        u32::MAX as int
    } else {
        len as int
    }
}

/// A descriptor: the duration in eight bytes, the count in four, the amplitudes.
pub open spec fn descriptor_of(duration_ms: u64, amplitudes: Seq<u8>) -> Seq<u8> {
    le_bytes(duration_ms as int, 8) + le_bytes(stated_count(amplitudes.len()), 4) + amplitudes
}

/// Appends a number as so many little-endian bytes.
fn push_le(out: &mut Vec<u8>, n: u64, size: usize)
    ensures
        final(out)@ == old(out)@ + le_bytes(n as int, size as nat),
{
    let ghost before = out@;
    let mut rest: u64 = n;
    let mut left: usize = size;
    assert(out@ + le_bytes(n as int, size as nat) =~= before + le_bytes(n as int, size as nat));
    while left > 0
        invariant
            out@ + le_bytes(rest as int, left as nat) == before + le_bytes(n as int, size as nat),
        decreases left,
    {
        let ghost held = out@;
        out.push((rest % 256) as u8);
        assert(held + (seq![(rest as int % 256) as u8] + le_bytes(rest as int / 256, (left - 1) as nat))
            =~= out@ + le_bytes(rest as int / 256, (left - 1) as nat));
        rest = rest / 256;
        left = left - 1;
    }
    assert(out@ + Seq::<u8>::empty() =~= out@);
}

/// Writes a draft's descriptor.
pub fn save(duration_ms: u64, amplitudes: &Vec<u8>) -> (descriptor: Vec<u8>)
    ensures
        descriptor@ == descriptor_of(duration_ms, amplitudes@),
{
    let mut descriptor: Vec<u8> = Vec::new();
    push_le(&mut descriptor, duration_ms, 8);
    let count: u64 = if amplitudes.len() as u64 > 4_294_967_295 {
        4_294_967_295
    } else {
        amplitudes.len() as u64
    };
    push_le(&mut descriptor, count, 4);
    let ghost head = descriptor@;
    let mut i: usize = 0;
    while i < amplitudes.len()
        invariant
            i <= amplitudes@.len(),
            descriptor@ == head + amplitudes@.take(i as int),
        decreases amplitudes.len() - i,
    {
        descriptor.push(amplitudes[i]);
        assert(descriptor@ =~= head + amplitudes@.take(i + 1));
        i = i + 1;
    }
    assert(amplitudes@.take(amplitudes@.len() as int) =~= amplitudes@);
    assert(descriptor@ =~= descriptor_of(duration_ms, amplitudes@));
    descriptor
}

/// The number at some place of a descriptor.
fn read_le(bytes: &Vec<u8>, from: usize, size: usize) -> (n: u64)
    requires
        from + size <= bytes@.len(),
        size <= 8,
    ensures
        n == le(bytes@.subrange(from as int, from + size)),
{
    let mut n: u64 = 0;
    let mut scale: u128 = 1;
    let mut sum: u128 = 0;
    let mut i: usize = 0;
    assert(bytes@.subrange(from as int, from as int) =~= Seq::<u8>::empty());
    proof {
        lemma_pow256_8();
    }
    while i < size
        invariant
            i <= size <= 8,
            from + size <= bytes.len(),
            scale == pow256(i as nat),
            sum == le(bytes@.subrange(from as int, from + i)),
            sum < scale,
            scale <= pow256(8),
        decreases size - i,
    {
        proof {
            lemma_pow256_8();
            let part = bytes@.subrange(from as int, from + i + 1);
            assert(part.drop_last() =~= bytes@.subrange(from as int, from + i));
            assert(part.last() == bytes@[from + i]);
            assert(bytes@[from + i] * scale <= 255 * scale) by (nonlinear_arith)
                requires
                    0 <= bytes@[from + i] <= 255,
                    0 <= scale,
            ;
            lemma_pow256_step(i as nat);
        }
        let byte: u128 = bytes[from + i] as u128;
        assert(byte * scale <= 255 * scale) by (nonlinear_arith)
            requires
                byte <= 255,
                0 <= scale,
        ;
        sum = sum + byte * scale;
        scale = scale * 256;
        i = i + 1;
        proof {
            lemma_pow256_up_to_8(i as nat);
        }
    }
    proof {
        lemma_pow256_8();
    }
    n = sum as u64;
    n
}

proof fn lemma_pow256_8()
    ensures
        pow256(8) == 18_446_744_073_709_551_616,
        pow256(4) == 4_294_967_296,
{
    reveal_with_fuel(pow256, 9);
}

proof fn lemma_pow256_step(n: nat)
    ensures
        pow256(n + 1) == 256 * pow256(n),
{
}

proof fn lemma_pow256_up_to_8(n: nat)
    requires
        n <= 8,
    ensures
        pow256(n) <= pow256(8),
{
    reveal_with_fuel(pow256, 9);
}

/// The draft a descriptor describes, if its recording is there to be described.
pub open spec fn described(descriptor: Seq<u8>, recorded: bool) -> Option<(int, Seq<u8>)> {
    if descriptor.len() < 12 || !recorded {
        None
    } else {
        let count = le(descriptor.subrange(8, 12));
        if descriptor.len() < 12 + count {
            None
        } else {
            Some((le(descriptor.subrange(0, 8)), descriptor.subrange(12, 12 + count)))
        }
    }
}

/// Reads a draft's descriptor. `recorded` says whether the recording's own file is there: a
/// descriptor without it, and one cut short, is no draft at all.
pub fn load(descriptor: &Vec<u8>, recorded: bool) -> (draft: Option<VoiceDraft>)
    ensures
        match described(descriptor@, recorded) {
            Some((duration, amplitudes)) => draft matches Some(held) && held.duration_ms == duration
                && held.amplitudes@ == amplitudes,
            None => draft is None,
        },
{
    if descriptor.len() < 12 || !recorded {
        return None;
    }
    let duration_ms: u64 = read_le(descriptor, 0, 8);
    let count: u64 = read_le(descriptor, 8, 4);
    proof {
        lemma_le_bound(descriptor@.subrange(8, 12));
        lemma_pow256_8();
    }
    if ((descriptor.len() - 12) as u64) < count {
        return None;
    }
    let size: usize = count as usize;
    let mut amplitudes: Vec<u8> = Vec::new();
    let mut i: usize = 0;
    while i < size
        invariant
            i <= size,
            12 + size <= descriptor.len(),
            amplitudes@ == descriptor@.subrange(12, 12 + i),
        decreases size - i,
    {
        amplitudes.push(descriptor[12 + i]);
        assert(amplitudes@ =~= descriptor@.subrange(12, 12 + i + 1));
        i = i + 1;
    }
    Some(VoiceDraft { duration_ms, amplitudes })
}

proof fn lemma_le_bound(bytes: Seq<u8>)
    ensures
        0 <= le(bytes) < pow256(bytes.len()),
    decreases bytes.len(),
{
    if bytes.len() > 0 {
        lemma_le_bound(bytes.drop_last());
        let scale = pow256((bytes.len() - 1) as nat);
        assert(bytes.last() * scale <= 255 * scale) by (nonlinear_arith)
            requires
                0 <= bytes.last() <= 255,
                scale >= 0,
        ;
        assert(0 <= bytes.last() * scale) by (nonlinear_arith)
            requires
                0 <= bytes.last(),
                scale >= 0,
        ;
        lemma_pow256_step((bytes.len() - 1) as nat);
    }
}

proof fn lemma_le_from_the_front(first: u8, rest: Seq<u8>)
    ensures
        le(seq![first] + rest) == first + 256 * le(rest),
    decreases rest.len(),
{
    let all = seq![first] + rest;
    if rest.len() == 0 {
        assert(all.drop_last() =~= Seq::<u8>::empty());
        reveal_with_fuel(pow256, 2);
        assert(all.last() == first);
        assert(le(all.drop_last()) == 0);
        assert(pow256(0) == 1);
    } else {
        lemma_le_from_the_front(first, rest.drop_last());
        assert(all.drop_last() =~= seq![first] + rest.drop_last());
        assert(all.last() == rest.last());
        let scale = pow256((rest.len() - 1) as nat);
        lemma_pow256_step((rest.len() - 1) as nat);
        assert(rest.last() * (256 * scale) == 256 * (rest.last() * scale)) by (nonlinear_arith);
    }
}

proof fn lemma_le_round_trip(n: int, size: nat)
    requires
        0 <= n < pow256(size),
    ensures
        le_bytes(n, size).len() == size,
        le(le_bytes(n, size)) == n,
    decreases size,
{
    if size > 0 {
        lemma_pow256_step((size - 1) as nat);
        assert(n / 256 < pow256((size - 1) as nat)) by (nonlinear_arith)
            requires
                n < 256 * pow256((size - 1) as nat),
        ;
        lemma_le_round_trip(n / 256, (size - 1) as nat);
        lemma_le_from_the_front((n % 256) as u8, le_bytes(n / 256, (size - 1) as nat));
    }
}

/// A draft that was written reads back as what was written, as long as its recording is there.
/// Amplitudes beyond what the count can state are left out.
pub proof fn law_a_draft_round_trips(duration_ms: u64, amplitudes: Seq<u8>)
    requires
        amplitudes.len() <= u32::MAX,
    ensures
        described(descriptor_of(duration_ms, amplitudes), true) == Some(
            (duration_ms as int, amplitudes),
        ),
        described(descriptor_of(duration_ms, amplitudes), false) is None,
{
    lemma_pow256_8();
    lemma_le_round_trip(duration_ms as int, 8);
    lemma_le_round_trip(amplitudes.len() as int, 4);
    let all = descriptor_of(duration_ms, amplitudes);
    assert(all.subrange(0, 8) =~= le_bytes(duration_ms as int, 8));
    assert(all.subrange(8, 12) =~= le_bytes(amplitudes.len() as int, 4));
    assert(all.subrange(12, 12 + amplitudes.len() as int) =~= amplitudes);
}

/// The sample that two bytes hold.
pub open spec fn sample_of(low: u8, high: u8) -> int {
    let n = low + 256 * high;
    if n >= 32_768 {
        n - 65_536
    } else {
        n as int
    }
}

/// Some bytes as samples: two bytes each, low byte first.
pub open spec fn samples_of(bytes: Seq<u8>) -> Seq<i16> {
    Seq::new(bytes.len() / 2, |i: int| sample_of(bytes[2 * i], bytes[2 * i + 1]) as i16)
}

/// Reads a draft's samples back, whole. A file that ends inside a sample is refused: which half to
/// drop is not this store's to judge.
pub fn read_samples(bytes: &Vec<u8>) -> (samples: Option<Vec<i16>>)
    ensures
        samples is Some <==> bytes@.len() % 2 == 0,
        samples matches Some(held) ==> held@ == samples_of(bytes@),
{
    if bytes.len() % 2 != 0 {
        return None;
    }
    let mut samples: Vec<i16> = Vec::new();
    let count: usize = bytes.len() / 2;
    let mut i: usize = 0;
    while i < count
        invariant
            i <= count,
            count == bytes.len() / 2,
            bytes.len() % 2 == 0,
            samples@.len() == i,
            forall|j: int|
                0 <= j < i ==> #[trigger] samples@[j] == sample_of(bytes@[2 * j], bytes@[2 * j + 1]),
        decreases count - i,
    {
        let n: i32 = bytes[2 * i] as i32 + 256 * (bytes[2 * i + 1] as i32);
        let sample: i32 = if n >= 32_768 {
            n - 65_536
        } else {
            n
        };
        samples.push(sample as i16);
        i = i + 1;
    }
    assert(samples@ =~= samples_of(bytes@));
    Some(samples)
}

/// The bytes that samples are written as.
pub open spec fn bytes_of(samples: Seq<i16>) -> Seq<u8>
    decreases samples.len(),
{
    if samples.len() == 0 {
        Seq::empty()
    } else {
        bytes_of(samples.drop_last()) + sample_bytes(samples.last())
    }
}

pub open spec fn sample_bytes(sample: i16) -> Seq<u8> {
    let n = if sample < 0 {
        sample + 65_536
    } else {
        sample as int
    };
    seq![(n % 256) as u8, (n / 256) as u8]
}

/// Appends one sample to a recording.
pub fn push_sample(out: &mut Vec<u8>, sample: i16)
    ensures
        final(out)@ == old(out)@ + sample_bytes(sample),
{
    let n: i32 = if sample < 0 {
        sample as i32 + 65_536
    } else {
        sample as i32
    };
    let ghost before = out@;
    out.push((n % 256) as u8);
    out.push((n / 256) as u8);
    assert(out@ =~= before + sample_bytes(sample));
}

/// A recording reads back as the samples that were written to it.
pub proof fn law_a_recording_round_trips(samples: Seq<i16>)
    ensures
        bytes_of(samples).len() == 2 * samples.len(),
        samples_of(bytes_of(samples)) == samples,
    decreases samples.len(),
{
    if samples.len() > 0 {
        let front = samples.drop_last();
        law_a_recording_round_trips(front);
        let bytes = bytes_of(samples);
        assert forall|i: int| 0 <= i < samples.len() implies samples_of(bytes)[i] == samples[i] by {
            if i < front.len() {
                assert(samples_of(bytes_of(front))[i] == front[i]);
                assert(bytes[2 * i] == bytes_of(front)[2 * i]);
                assert(bytes[2 * i + 1] == bytes_of(front)[2 * i + 1]);
            } else {
                assert(bytes[2 * i] == sample_bytes(samples.last())[0]);
                assert(bytes[2 * i + 1] == sample_bytes(samples.last())[1]);
            }
        }
        assert(samples_of(bytes) =~= samples);
    }
}

/// A descriptor is twelve bytes and the amplitudes. Each number has its least significant byte
/// first, and a count beyond what four bytes hold is stated as the most that they do.
pub proof fn law_a_descriptor_starts_with_its_duration(duration_ms: u64, amplitudes: Seq<u8>)
    ensures
        ({
            let all = descriptor_of(duration_ms, amplitudes);
            &&& all.len() == 12 + amplitudes.len()
            &&& all.skip(12) == amplitudes
            &&& all[0] == duration_ms % 256
            &&& all[1] == duration_ms / 256 % 256
            &&& all[2] == duration_ms / 256 / 256 % 256
            &&& all[3] == duration_ms / 256 / 256 / 256 % 256
            &&& amplitudes.len() < 256 ==> all[8] == amplitudes.len() && all[9] == 0 && all[10] == 0
                && all[11] == 0
            &&& amplitudes.len() > u32::MAX ==> all[8] == 255 && all[9] == 255 && all[10] == 255
                && all[11] == 255
        }),
{
    let d = duration_ms as int;
    let c = stated_count(amplitudes.len());
    reveal_with_fuel(le_bytes, 9);
    let all = descriptor_of(duration_ms, amplitudes);
    assert(all.skip(12) =~= amplitudes);
    assert(all[8] == c % 256 && all[9] == c / 256 % 256 && all[10] == c / 256 / 256 % 256 && all[11]
        == c / 256 / 256 / 256 % 256);
}

/// A sample lies in two bytes, low byte first, in two's complement.
pub proof fn law_a_sample_is_two_bytes(sample: i16)
    ensures
        sample_bytes(sample).len() == 2,
        sample >= 0 ==> sample_bytes(sample)[0] + 256 * sample_bytes(sample)[1] == sample,
        sample < 0 ==> sample_bytes(sample)[0] + 256 * sample_bytes(sample)[1] == sample + 65_536,
{
}

/// A descriptor that is cut short, or whose recording is not there, is no draft.
pub proof fn law_a_cut_descriptor_is_no_draft(descriptor: Seq<u8>, recorded: bool)
    ensures
        !recorded ==> described(descriptor, recorded) is None,
        descriptor.len() < 12 ==> described(descriptor, recorded) is None,
        described(descriptor, recorded) matches Some(draft) ==> 12 + draft.1.len()
            <= descriptor.len() && draft.1 == descriptor.subrange(12, 12 + draft.1.len() as int),
{
    if descriptor.len() >= 12 && recorded {
        let count = le(descriptor.subrange(8, 12));
        lemma_le_is_not_negative(descriptor.subrange(8, 12));
        assert(count >= 0);
    }
}

proof fn lemma_le_is_not_negative(bytes: Seq<u8>)
    ensures
        le(bytes) >= 0,
    decreases bytes.len(),
{
    if bytes.len() > 0 {
        let unit = pow256((bytes.len() - 1) as nat);
        let top = bytes.last();
        lemma_le_is_not_negative(bytes.drop_last());
        lemma_pow256_is_positive((bytes.len() - 1) as nat);
        assert(top * unit >= 0) by (nonlinear_arith)
            requires
                unit > 0,
        ;
    }
}

proof fn lemma_pow256_is_positive(n: nat)
    ensures
        pow256(n) > 0,
    decreases n,
{
    if n > 0 {
        lemma_pow256_is_positive((n - 1) as nat);
    }
}

/// Drafts lie in a directory of their own.
pub proof fn law_where_drafts_lie()
    ensures
        VOICE_DRAFTS_DIR@ == "voice-note-drafts"@,
{
}

} // verus!
