//! Hashcrypt
//!
//! The decisions of the Hashcrypt driver: how a hash is started on the
//! engine and how the interrupt handler reacts to the engine's status.

use vstd::prelude::*;

verus! {

trait Sealed {}

/// Asynchronous or blocking mode
#[allow(private_bounds)]
pub trait Mode: Sealed {}

/// Blocking mode
pub struct Blocking {}

impl Sealed for Blocking {}

impl Mode for Blocking {}

/// Asynchronous mode
pub struct Async {}

impl Sealed for Async {}

impl Mode for Async {}

/// Trait for compatible DMA channels
#[allow(private_bounds)]
pub trait HashcryptDma: Sealed {}

/// Hashcrypt mode
#[derive(Debug, Copy, Clone)]
#[non_exhaustive]
pub enum Algorithm {
    /// SHA256
    SHA256,
}

/// CTRL[MODE] value of an algorithm.
pub open spec fn algorithm_mode(value: Algorithm) -> u8 {
    match value {
        Algorithm::SHA256 => 0x2,
    }
}

impl From<Algorithm> for u8 {
    fn from(value: Algorithm) -> (r: Self) {
        match value {
            Algorithm::SHA256 => 0x2,
        }
    }
}

impl vstd::std_specs::convert::FromSpecImpl<Algorithm> for u8 {
    open spec fn obeys_from_spec() -> bool {
        true
    }

    open spec fn from_spec(value: Algorithm) -> u8 {
        algorithm_mode(value)
    }
}

/// CTRL[MODE] value that disables the engine.
pub const MODE_DISABLED: u8 = 0;

/// A value written to the CTRL register.
#[derive(Debug, Clone, Copy, PartialEq, Eq, Structural)]
pub struct CtrlWrite {
    /// CTRL[MODE].
    pub mode: u8,
    /// CTRL[NEW_HASH]: start a new hash.
    pub new_hash: bool,
    /// CTRL[DMA_I]: input is fed by DMA.
    pub dma_input: bool,
}

/// Starting an algorithm: the engine is first disabled with a new hash
/// requested, then set to the algorithm's mode with a new hash requested
/// and, for a DMA-fed hash, DMA input enabled.
pub open spec fn start_sequence(algorithm: Algorithm, dma: bool) -> Seq<CtrlWrite> {
    seq![
        CtrlWrite { mode: MODE_DISABLED, new_hash: true, dma_input: false },
        CtrlWrite { mode: algorithm_mode(algorithm), new_hash: true, dma_input: dma },
    ]
}

/// The CTRL writes that start a new hash with `algorithm`.
pub fn start_algorithm(algorithm: Algorithm, dma: bool) -> (r: Vec<CtrlWrite>)
    ensures
        r@ == start_sequence(algorithm, dma),
{
    let mode: u8 = u8::from(algorithm);
    let mut v: Vec<CtrlWrite> = Vec::new();
    v.push(CtrlWrite { mode: MODE_DISABLED, new_hash: true, dma_input: false });
    v.push(CtrlWrite { mode, new_hash: true, dma_input: dma });
    proof {
        assert(v@ =~= start_sequence(algorithm, dma));
    }
    v
}

/// Every start of a hash, fed by the CPU or by DMA, ends with a CTRL write
/// that requests a new hash in the algorithm's mode (SHA-256 is mode 2),
/// after a write that disables the engine (mode 0) with a new hash
/// requested. Whether the input comes by DMA changes nothing but the DMA_I
/// bit of the final write.
pub proof fn lemma_start_requests_new_hash(algorithm: Algorithm, dma: bool)
    ensures
        start_sequence(algorithm, dma).len() == 2,
        start_sequence(algorithm, dma)[0] == (CtrlWrite { mode: 0, new_hash: true, dma_input: false }),
        start_sequence(algorithm, dma)[1].new_hash,
        start_sequence(algorithm, dma)[1].dma_input == dma,
        algorithm matches Algorithm::SHA256 ==> start_sequence(algorithm, dma)[1].mode == 2,
        start_sequence(algorithm, true)[0] == start_sequence(algorithm, false)[0],
        start_sequence(algorithm, true)[1].mode == start_sequence(algorithm, false)[1].mode,
        start_sequence(algorithm, true)[1].new_hash == start_sequence(algorithm, false)[1].new_hash,
{
}

/// What the Hashcrypt interrupt handler does.
#[derive(Debug, Clone, Copy, PartialEq, Eq, Structural)]
pub struct InterruptResponse {
    /// Disable the error interrupt (INTENCLR[ERROR]).
    pub disable_error: bool,
    /// Disable the digest interrupt (INTENCLR[DIGEST]).
    pub disable_digest: bool,
    /// Wake the task waiting on the engine.
    pub wake: bool,
}

/// The interrupt handler's response to the STATUS flags: each raised
/// condition has its interrupt disabled and wakes the waiting task.
pub fn interrupt_response(error: bool, digest_ready: bool) -> (r: InterruptResponse)
    ensures
        r.disable_error == error,
        r.disable_digest == digest_ready,
        r.wake == (error || digest_ready),
{
    InterruptResponse { disable_error: error, disable_digest: digest_ready, wake: error || digest_ready }
}

} // verus!
