//! True Random Number Generator (TRNG)
//!
//! The software health tests run on every block of hardware entropy before it
//! is handed out follow NIST SP 800-90B with alpha = 2^-20, H = 0.8 and a
//! window of 512 samples.

use vstd::prelude::*;

verus! {

/// Longest run of identical bits tolerated is one less than this.
pub const REPETITION_THRESHOLD: usize = 26;

/// Number of ones (or zeros) in the window at which the block is rejected.
pub const ADAPTIVE_PROPORTION_THRESHOLD: usize = 348;

/// Window size of the adaptive proportion test, in bits.
pub const ADAPTIVE_PROPORTION_WINDOW_SIZE: usize = 512;

/// RNG error
#[derive(Debug, PartialEq, Eq, Clone, Copy, Structural)]
pub enum Error {
    /// Seed error.
    SeedError,
    /// HW Error.
    HwError,
    /// Frequency Count Fail
    FreqCountFail,
}

/// Bit `k` of a block of entropy words, taking the least significant bit of
/// the first word first.
pub open spec fn entropy_bit(words: Seq<u32>, k: int) -> u32 {
    (words[k / 32] >> ((k % 32) as u32)) & 1u32
}

/// The `REPETITION_THRESHOLD` bits starting at bit `i` are all equal.
pub open spec fn run_from(words: Seq<u32>, i: int) -> bool {
    forall|j: int| #![trigger entropy_bit(words, j)]
        i <= j < i + REPETITION_THRESHOLD ==> entropy_bit(words, j) == entropy_bit(words, i)
}

/// Some run of `REPETITION_THRESHOLD` equal bits ends before bit `n`.
pub open spec fn long_run_before(words: Seq<u32>, n: int) -> bool {
    exists|i: int| 0 <= i && i + REPETITION_THRESHOLD <= n && #[trigger] run_from(words, i)
}

/// Number of ones among the first `n` bits.
pub open spec fn ones_before(words: Seq<u32>, n: int) -> int
    decreases n,
{
    if n <= 0 {
        0
    } else {
        ones_before(words, n - 1) + entropy_bit(words, n - 1)
    }
}

/// Total number of bits in a block.
pub open spec fn bit_len(words: Seq<u32>) -> int {
    (words.len() * 32) as int
}

/// The adaptive proportion test rejects a block with this many ones.
pub open spec fn adaptive_proportion_fails(ones: int) -> bool {
    ones >= ADAPTIVE_PROPORTION_THRESHOLD || ADAPTIVE_PROPORTION_WINDOW_SIZE - ones
        >= ADAPTIVE_PROPORTION_THRESHOLD
}

/// The adaptive proportion test accepts a block of 512 bits exactly when
/// it holds between 165 and 347 ones.
pub proof fn lemma_adaptive_proportion_window(ones: int)
    ensures
        !adaptive_proportion_fails(ones) <==> 165 <= ones <= 347,
{
}

/// A block passes both software health tests.
pub open spec fn passes_health_tests(words: Seq<u32>) -> bool {
    &&& !long_run_before(words, bit_len(words))
    &&& !adaptive_proportion_fails(ones_before(words, bit_len(words)))
}

/// The `len` bits of a block starting at bit `i` are all equal.
pub open spec fn equal_bits_from(words: Seq<u32>, i: int, len: int) -> bool {
    forall|j: int| #![trigger entropy_bit(words, j)] i <= j < i + len ==> entropy_bit(words, j) == entropy_bit(words, i)
}

/// What the health tests accept, for a block of 16 words (512 bits): no run
/// of 26 equal consecutive bits anywhere in the block (a run of 25 is
/// tolerated), and between 165 and 347 ones in it.
pub proof fn lemma_health_tests_accept(words: Seq<u32>)
    requires
        words.len() == ENTROPY_WORDS,
    ensures
        passes_health_tests(words) <==> {
            &&& !exists|i: int| 0 <= i && i + 26 <= 512 && #[trigger] equal_bits_from(words, i, 26)
            &&& 165 <= ones_before(words, 512) <= 347
        },
{
    assert(bit_len(words) == 512);
    lemma_adaptive_proportion_window(ones_before(words, 512));
    if long_run_before(words, 512) {
        let i = choose|i: int| 0 <= i && i + REPETITION_THRESHOLD <= 512 && #[trigger] run_from(words, i);
        assert(equal_bits_from(words, i, 26));
    }
    if !long_run_before(words, 512) {
        assert forall|i: int| 0 <= i && i + 26 <= 512 implies !#[trigger] equal_bits_from(words, i, 26) by {
            assert(!run_from(words, i));
        }
    }
}

/// A block with every bit inverted.
pub open spec fn complement(words: Seq<u32>) -> Seq<u32> {
    words.map_values(|w: u32| !w)
}

proof fn lemma_inverted_bit(x: u32, i: u32)
    requires
        i < 32,
    ensures
        ((!x) >> i) & 1u32 == 1u32 - ((x >> i) & 1u32),
{
    assert(((!x) >> i) & 1u32 == 1u32 - ((x >> i) & 1u32)) by (bit_vector)
        requires
            i < 32,
    ;
}

proof fn lemma_complement_bit(words: Seq<u32>, k: int)
    requires
        0 <= k < bit_len(words),
    ensures
        entropy_bit(complement(words), k) == 1 - entropy_bit(words, k),
{
    assert(0 <= k / 32 < words.len()) by (nonlinear_arith)
        requires
            0 <= k < words.len() * 32,
    ;
    lemma_inverted_bit(words[k / 32], (k % 32) as u32);
    lemma_entropy_bit_binary(words, k);
}

proof fn lemma_complement_ones(words: Seq<u32>, n: int)
    requires
        0 <= n <= bit_len(words),
    ensures
        ones_before(complement(words), n) == n - ones_before(words, n),
    decreases n,
{
    if n > 0 {
        lemma_complement_ones(words, n - 1);
        lemma_complement_bit(words, n - 1);
    }
}

proof fn lemma_complement_run(words: Seq<u32>, i: int)
    requires
        0 <= i,
        i + REPETITION_THRESHOLD <= bit_len(words),
    ensures
        run_from(complement(words), i) == run_from(words, i),
{
    let c = complement(words);
    lemma_complement_bit(words, i);
    if run_from(words, i) {
        assert forall|j: int| #![trigger entropy_bit(c, j)]
            i <= j < i + REPETITION_THRESHOLD implies entropy_bit(c, j) == entropy_bit(c, i) by {
            lemma_complement_bit(words, j);
            assert(entropy_bit(words, j) == entropy_bit(words, i));
        }
    }
    if run_from(c, i) {
        assert forall|j: int| #![trigger entropy_bit(words, j)]
            i <= j < i + REPETITION_THRESHOLD implies entropy_bit(words, j) == entropy_bit(words, i) by {
            lemma_complement_bit(words, j);
            assert(entropy_bit(c, j) == entropy_bit(c, i));
        }
    }
}

/// The health tests treat a block of entropy and its bitwise complement
/// alike: inverting every bit changes neither the runs of equal bits nor,
/// over the 512-bit window, whether ones or zeros are too frequent.
pub proof fn lemma_health_tests_symmetric(words: Seq<u32>)
    requires
        words.len() == ENTROPY_WORDS,
    ensures
        passes_health_tests(complement(words)) == passes_health_tests(words),
{
    let c = complement(words);
    let n = bit_len(words);
    assert(bit_len(c) == n);
    lemma_complement_ones(words, n);
    if long_run_before(words, n) {
        let i = choose|i: int| 0 <= i && i + REPETITION_THRESHOLD <= n && #[trigger] run_from(words, i);
        lemma_complement_run(words, i);
        assert(long_run_before(c, n));
    }
    if long_run_before(c, n) {
        let i = choose|i: int| 0 <= i && i + REPETITION_THRESHOLD <= n && #[trigger] run_from(c, i);
        lemma_complement_run(words, i);
        assert(long_run_before(words, n));
    }
}

/// State of the repetition counter after scanning the first `k` bits: the
/// current run has length `count` and consists of copies of `bit`.
pub open spec fn run_state(words: Seq<u32>, k: int, count: int, bit: u32) -> bool {
    if k == 0 {
        count == 0 && bit == 0
    } else {
        &&& 1 <= count <= k
        &&& bit == entropy_bit(words, k - 1)
        &&& forall|j: int| #![trigger entropy_bit(words, j)]
            k - count <= j < k ==> entropy_bit(words, j) == bit
        &&& count < k ==> entropy_bit(words, k - count - 1) != bit
    }
}

proof fn lemma_bit_is_binary(x: u32, i: u32)
    ensures
        (x >> i) & 1u32 == 0u32 || (x >> i) & 1u32 == 1u32,
{
    assert((x >> i) & 1u32 == 0u32 || (x >> i) & 1u32 == 1u32) by (bit_vector);
}

proof fn lemma_entropy_bit_binary(words: Seq<u32>, k: int)
    requires
        0 <= k < bit_len(words),
    ensures
        entropy_bit(words, k) == 0u32 || entropy_bit(words, k) == 1u32,
{
    lemma_bit_is_binary(words[k / 32], (k % 32) as u32);
}

proof fn lemma_ones_bounded(words: Seq<u32>, n: int)
    requires
        0 <= n <= bit_len(words),
    ensures
        0 <= ones_before(words, n) <= n,
    decreases n,
{
    if n > 0 {
        lemma_ones_bounded(words, n - 1);
        lemma_entropy_bit_binary(words, n - 1);
    }
}

proof fn lemma_bit_index(idx: int, i: int)
    requires
        0 <= idx,
        0 <= i < 32,
    ensures
        (idx * 32 + i) / 32 == idx,
        (idx * 32 + i) % 32 == i,
{
    assert((idx * 32 + i) / 32 == idx && (idx * 32 + i) % 32 == i) by (nonlinear_arith)
        requires
            0 <= idx,
            0 <= i < 32,
    ;
}

/// Runs the repetition count test and the adaptive proportion test on a
/// block of entropy words.
pub fn sw_entropy_test(entropy: &[u32]) -> (r: Result<(), Error>)
    requires
        entropy@.len() * 32 <= u32::MAX,
    ensures
        r == (if passes_health_tests(entropy@) {
            Ok::<(), Error>(())
        } else {
            Err(Error::SeedError)
        }),
{
    let ghost words = entropy@;
    let mut repetition_count: usize = 0;
    let mut adaptive_proportion_count: u32 = 0;
    let mut repetition_bit: u32 = 0;
    let n: usize = entropy.len();
    let mut idx: usize = 0;
    while idx < n
        invariant
            words == entropy@,
            n == words.len(),
            n * 32 <= u32::MAX,
            idx <= n,
            adaptive_proportion_count == ones_before(words, idx * 32),
            run_state(words, idx * 32, repetition_count as int, repetition_bit),
            !long_run_before(words, idx * 32),
        decreases n - idx,
    {
        let item: u32 = entropy[idx];
        let mut i: u32 = 0;
        while i < 32
            invariant
                words == entropy@,
                n == words.len(),
                n * 32 <= u32::MAX,
                idx < n,
                item == words[idx as int],
                i <= 32,
                adaptive_proportion_count == ones_before(words, idx * 32 + i),
                run_state(words, idx * 32 + i, repetition_count as int, repetition_bit),
                !long_run_before(words, idx * 32 + i),
            decreases 32 - i,
        {
            let ghost k: int = idx * 32 + i;
            let bit: u32 = (item >> i) & 1;
            proof {
                lemma_bit_index(idx as int, i as int);
                assert(bit == entropy_bit(words, k));
                lemma_entropy_bit_binary(words, k);
                lemma_ones_bounded(words, k);
                assert(k < n * 32) by (nonlinear_arith)
                    requires
                        k == idx * 32 + i,
                        idx < n,
                        i < 32,
                ;
            }
            adaptive_proportion_count = adaptive_proportion_count + bit;
            if bit == repetition_bit {
                repetition_count = repetition_count + 1;
                if repetition_count >= REPETITION_THRESHOLD {
                    proof {
                        let start = k + 1 - REPETITION_THRESHOLD;
                        assert(run_from(words, start));
                        assert(long_run_before(words, bit_len(words)));
                    }
                    return Err(Error::SeedError);
                }
                proof {
                    assert forall|s: int|
                        0 <= s && s + REPETITION_THRESHOLD <= k + 1 implies !#[trigger] run_from(
                        words,
                        s,
                    ) by {
                        if s + REPETITION_THRESHOLD <= k {
                            assert(!long_run_before(words, k));
                        } else {
                            let brk = k - (repetition_count - 1) - 1;
                            assert(entropy_bit(words, brk) != repetition_bit);
                            assert(entropy_bit(words, k) == repetition_bit);
                            if run_from(words, s) {
                                assert(entropy_bit(words, brk) == entropy_bit(words, s));
                                assert(entropy_bit(words, k) == entropy_bit(words, s));
                            }
                        }
                    }
                }
            } else {
                proof {
                    assert forall|s: int|
                        0 <= s && s + REPETITION_THRESHOLD <= k + 1 implies !#[trigger] run_from(
                        words,
                        s,
                    ) by {
                        if s + REPETITION_THRESHOLD <= k {
                            assert(!long_run_before(words, k));
                        } else {
                            if run_from(words, s) {
                                assert(entropy_bit(words, k - 1) == entropy_bit(words, s));
                                assert(entropy_bit(words, k) == entropy_bit(words, s));
                            }
                        }
                    }
                }
                repetition_count = 1;
                repetition_bit = bit;
            }
            i = i + 1;
        }
        proof {
            assert(idx * 32 + 32 == (idx + 1) * 32);
        }
        idx = idx + 1;
    }
    proof {
        lemma_ones_bounded(words, n * 32);
    }
    if adaptive_proportion_count as usize >= ADAPTIVE_PROPORTION_THRESHOLD || (
    ADAPTIVE_PROPORTION_WINDOW_SIZE - adaptive_proportion_count as usize)
        >= ADAPTIVE_PROPORTION_THRESHOLD {
        return Err(Error::SeedError);
    }
    Ok(())
}


/// Byte `b` of a block of entropy words as it lies in memory on this
/// little-endian target.
pub open spec fn entropy_byte(words: Seq<u32>, b: int) -> u8 {
    ((words[b / 4] >> ((8 * (b % 4)) as u32)) & 0xffu32) as u8
}

/// The first `n` bytes of a block of entropy words.
pub open spec fn entropy_bytes(words: Seq<u32>, n: int) -> Seq<u8> {
    Seq::new(n as nat, |b: int| entropy_byte(words, b))
}

proof fn lemma_word_digits(x: u32)
    ensures
        ((x >> 0u32) & 0xffu32) as u8 as int == x as int % 256,
        ((x >> 8u32) & 0xffu32) as u8 as int == (x as int / 256) % 256,
        ((x >> 16u32) & 0xffu32) as u8 as int == (x as int / 65536) % 256,
        ((x >> 24u32) & 0xffu32) as u8 as int == (x as int / 16777216) % 256,
        x as int % 256 + 256 * ((x as int / 256) % 256) + 65536 * ((x as int / 65536) % 256)
            + 16777216 * ((x as int / 16777216) % 256) == x as int,
{
    assert(((x >> 0u32) & 0xffu32) as u8 as int == x as int % 256) by (bit_vector);
    assert(((x >> 8u32) & 0xffu32) as u8 as int == (x as int / 256) % 256) by (bit_vector);
    assert(((x >> 16u32) & 0xffu32) as u8 as int == (x as int / 65536) % 256) by (bit_vector);
    assert(((x >> 24u32) & 0xffu32) as u8 as int == (x as int / 16777216) % 256) by (bit_vector);
    assert(x as int % 256 + 256 * ((x as int / 256) % 256) + 65536 * ((x as int / 65536) % 256)
        + 16777216 * ((x as int / 16777216) % 256) == x as int) by (nonlinear_arith);
}

/// The place value of byte `i` of a little-endian word.
pub open spec fn byte_weight(i: int) -> int {
    if i == 0 {
        1
    } else if i == 1 {
        256
    } else if i == 2 {
        65536
    } else {
        16777216
    }
}

/// A filled chunk is the start of the block's bytes in memory order: byte
/// `b` is digit `b % 4` (base 256, least significant first) of word `b / 4`,
/// so each whole group of four bytes read little-endian gives back its
/// word, and bytes `4k..4k+4` come from word `k` alone.
pub proof fn lemma_chunk_is_block_prefix(entropy: Seq<u32>, n: int)
    requires
        entropy.len() == ENTROPY_WORDS,
        0 <= n <= CHUNK_SIZE,
    ensures
        entropy_bytes(entropy, n).len() == n,
        forall|b: int|
            0 <= b < n ==> #[trigger] entropy_bytes(entropy, n)[b] as int == (entropy[b / 4] as int
                / byte_weight(b % 4)) % 256,
        forall|k: int|
            0 <= k && 4 * k + 4 <= n ==> {
                let c = entropy_bytes(entropy, n);
                c[4 * k] + 256 * c[4 * k + 1] + 65536 * c[4 * k + 2] + 16777216 * c[4 * k + 3]
                    == #[trigger] entropy[k]
            },
{
    let c = entropy_bytes(entropy, n);
    assert forall|b: int| 0 <= b < n implies #[trigger] c[b] as int == (entropy[b / 4] as int
        / byte_weight(b % 4)) % 256 by {
        lemma_word_digits(entropy[b / 4]);
    }
    assert forall|k: int| 0 <= k && 4 * k + 4 <= n implies c[4 * k] + 256 * c[4 * k + 1] + 65536 * c[4
        * k + 2] + 16777216 * c[4 * k + 3] == #[trigger] entropy[k] by {
        lemma_word_digits(entropy[k]);
        assert((4 * k) / 4 == k && (4 * k) % 4 == 0);
        assert((4 * k + 1) / 4 == k && (4 * k + 1) % 4 == 1);
        assert((4 * k + 2) / 4 == k && (4 * k + 2) % 4 == 2);
        assert((4 * k + 3) / 4 == k && (4 * k + 3) % 4 == 3);
    }
}

/// Number of entropy words delivered by the TRNG in one block (512 bits).
pub const ENTROPY_WORDS: usize = 16;

/// Largest chunk filled from one block of entropy, in bytes.
pub const CHUNK_SIZE: usize = 64;

/// A block of hardware entropy is handed out only if no word of it is zero
/// and it passes both software health tests.
pub open spec fn block_accepted(words: Seq<u32>) -> bool {
    !words.contains(0u32) && passes_health_tests(words)
}

/// A block is handed out only when every one of its words is non-zero and
/// it passes the health tests; a single zero word rejects it.
pub proof fn lemma_block_accepted_words(words: Seq<u32>)
    ensures
        block_accepted(words) <==> (forall|k: int| 0 <= k < words.len() ==> #[trigger] words[k] != 0)
            && passes_health_tests(words),
{
    if !words.contains(0u32) {
        assert forall|k: int| 0 <= k < words.len() implies #[trigger] words[k] != 0 by {
            if words[k] == 0 {
                assert(words.contains(0u32));
            }
        }
    }
}

/// Checks a freshly read block of entropy and, if it is acceptable, copies
/// its first `chunk.len()` bytes into `chunk`.
pub fn fill_chunk_from_entropy(entropy: &[u32], chunk: &mut [u8]) -> (r: Result<(), Error>)
    requires
        entropy@.len() == ENTROPY_WORDS,
        old(chunk)@.len() <= CHUNK_SIZE,
    ensures
        r == (if block_accepted(entropy@) {
            Ok::<(), Error>(())
        } else {
            Err(Error::SeedError)
        }),
        r is Ok ==> final(chunk)@ == entropy_bytes(entropy@, old(chunk)@.len() as int),
        r is Err ==> final(chunk)@ == old(chunk)@,
{
    let mut w: usize = 0;
    while w < entropy.len()
        invariant
            w <= entropy@.len(),
            forall|j: int| 0 <= j < w ==> entropy@[j] != 0u32,
        decreases entropy@.len() - w,
    {
        if entropy[w] == 0 {
            proof {
                assert(entropy@.contains(0u32)) by {
                    assert(entropy@[w as int] == 0u32);
                }
            }
            return Err(Error::SeedError);
        }
        w = w + 1;
    }
    let tested = sw_entropy_test(entropy);
    if tested.is_err() {
        return Err(Error::SeedError);
    }
    let len: usize = chunk.len();
    let ghost before = chunk@;
    let mut b: usize = 0;
    while b < len
        invariant
            len == chunk@.len(),
            len <= CHUNK_SIZE,
            entropy@.len() == ENTROPY_WORDS,
            b <= len,
            forall|j: int| 0 <= j < b ==> chunk@[j] == entropy_byte(entropy@, j),
        decreases len - b,
    {
        let word: u32 = entropy[b / 4];
        let shift: u32 = (8 * (b % 4)) as u32;
        chunk[b] = ((word >> shift) & 0xff) as u8;
        b = b + 1;
    }
    proof {
        assert(chunk@ =~= entropy_bytes(entropy@, len as int));
    }
    Ok(())
}

/// What one poll of the entropy-valid condition yields, once the waker is
/// registered and the interrupts are unmasked, given the MCTL status flags:
/// `None` while the hardware is still working.
pub fn entropy_poll_result(ent_val: bool, err: bool, fct_fail: bool) -> (r: Option<
    Result<(), Error>,
>)
    ensures
        r == (if ent_val {
            Some(Ok::<(), Error>(()))
        } else if err {
            Some(Err(Error::HwError))
        } else if fct_fail {
            Some(Err(Error::FreqCountFail))
        } else {
            None
        }),
{
    if ent_val {
        Some(Ok(()))
    } else if err {
        Some(Err(Error::HwError))
    } else if fct_fail {
        Some(Err(Error::FreqCountFail))
    } else {
        None
    }
}

/// Whether the TRNG interrupt handler has to mask the interrupt sources and
/// wake the waiting task, given the INT_STATUS flags.
pub fn interrupt_wakes(ent_val: bool, hw_err: bool, frq_ct_fail: bool) -> (r: bool)
    ensures
        r == (ent_val || hw_err || frq_ct_fail),
{
    ent_val || hw_err || frq_ct_fail
}

/// Values programmed into the TRNG while it is in programming mode.
///
/// The hardware statistical checks are opened wide (the frequency count and
/// the poker, monobit and run limits) because of a hardware issue when the
/// main clock runs at a high rate; the software health tests stand in for
/// them.
#[derive(Debug, Clone, Copy, PartialEq, Eq, Structural)]
pub struct TrngInitValues {
    pub frq_min: u32,
    pub frq_max: u32,
    pub pkr_max: u32,
    pub pkr_rng: u16,
    pub mono_max: u16,
    pub mono_rng: u16,
    pub run1_max: u16,
    pub run1_rng: u16,
    pub run2_max: u16,
    pub run2_rng: u16,
    pub run3_max: u16,
    pub run3_rng: u16,
    pub run4_max: u16,
    pub run4_rng: u16,
    pub run5_max: u16,
    pub run5_rng: u16,
    pub run6p_max: u16,
    pub run6p_rng: u16,
    pub lrun_max: u8,
    pub ent_dly: u16,
    pub samp_size: u16,
}

/// The programming-mode values that the driver writes on initialisation.
pub fn trng_init_values() -> (r: TrngInitValues)
    ensures
        r.frq_min == 0,
        r.frq_max == 0x3F_FFFF,
        r.pkr_max == 0x0000_FFFE,
        r.pkr_rng == 0xFFFF,
        r.mono_max == 0xFFFE,
        r.mono_rng == 0xFFFF,
        r.run1_max == 0x7FFE,
        r.run1_rng == 0x7FFF,
        r.run2_max == 0x3FFE,
        r.run2_rng == 0x3FFF,
        r.run3_max == 0x1FFE,
        r.run3_rng == 0x1FFF,
        r.run4_max == 0x0FFE,
        r.run4_rng == 0x0FFF,
        r.run5_max == 0x07FE,
        r.run5_rng == 0x07FF,
        r.run6p_max == 0x07FE,
        r.run6p_rng == 0x07FF,
        r.lrun_max == 0xFF,
        r.ent_dly == 0xc80,
        r.samp_size == 0x200,
{
    TrngInitValues {
        frq_min: 0,
        frq_max: 0x3F_FFFF,
        pkr_max: 0x0000_FFFE,
        pkr_rng: 0xFFFF,
        mono_max: 0xFFFE,
        mono_rng: 0xFFFF,
        run1_max: 0x7FFE,
        run1_rng: 0x7FFF,
        run2_max: 0x3FFE,
        run2_rng: 0x3FFF,
        run3_max: 0x1FFE,
        run3_rng: 0x1FFF,
        run4_max: 0x0FFE,
        run4_rng: 0x0FFF,
        run5_max: 0x07FE,
        run5_rng: 0x07FF,
        run6p_max: 0x07FE,
        run6p_rng: 0x07FF,
        lrun_max: 0xFF,
        ent_dly: 0xc80,
        samp_size: 0x200,
    }
}

} // verus!
