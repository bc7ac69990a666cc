//! The buffer handling behind `readlinkat`.
//!
//! The kernel's `readlinkat` writes at most as many bytes as the buffer holds
//! and does not say whether the link target was cut short. The caller
//! therefore starts with a buffer of `READLINK_START_LEN` bytes and, while
//! the kernel fills the buffer completely, doubles it and asks again; a read
//! that leaves room to spare holds the whole target. The functions here make
//! those decisions; the caller performs the system call in between.

use crate::io::Error;
use vstd::arithmetic::power2::{lemma_pow2_pos, lemma_pow2_unfold, pow2};
use vstd::prelude::*;

verus! {

/// The length of the first buffer handed to `readlinkat`.
pub const READLINK_START_LEN: usize = 256;

/// `n` zero bytes.
pub open spec fn zeros(n: nat) -> Seq<u8> {
    Seq::new(n, |i: int| 0u8)
}

/// What to do after one `readlinkat` call.
pub enum ReadlinkStep {
    /// The link target was read whole: these are its bytes.
    Done(Vec<u8>),
    /// The target may not have fitted: call `readlinkat` again with this
    /// larger buffer.
    Retry(Vec<u8>),
    /// The system call failed with this error.
    Failed(Error),
}

/// The mathematical form of a `ReadlinkStep`.
pub enum ReadlinkAction {
    Done(Seq<u8>),
    Retry(Seq<u8>),
    Failed(Error),
}

impl View for ReadlinkStep {
    type V = ReadlinkAction;

    open spec fn view(&self) -> ReadlinkAction {
        match self {
            ReadlinkStep::Done(b) => ReadlinkAction::Done(b@),
            ReadlinkStep::Retry(b) => ReadlinkAction::Retry(b@),
            ReadlinkStep::Failed(e) => ReadlinkAction::Failed(*e),
        }
    }
}

/// The buffer for the first `readlinkat` call.
pub open spec fn readlink_start_spec() -> Seq<u8> {
    zeros(READLINK_START_LEN as nat)
}

/// The decision after a `readlinkat` call on `buffer` that returned
/// `outcome`: an error is passed on; a count below the buffer's length means
/// the target is those first bytes; a full buffer is doubled with zeros.
pub open spec fn readlink_step_spec(buffer: Seq<u8>, outcome: Result<usize, Error>) -> ReadlinkAction {
    match outcome {
        Err(e) => ReadlinkAction::Failed(e),
        Ok(nread) => if nread < buffer.len() {
            ReadlinkAction::Done(buffer.take(nread as int))
        } else {
            ReadlinkAction::Retry(buffer + zeros(buffer.len()))
        },
    }
}

/// Prepares the buffer for the first `readlinkat` call, reusing the
/// allocation of `reuse`: its contents are dropped and it is filled with
/// `READLINK_START_LEN` zero bytes.
pub fn readlink_start(reuse: Vec<u8>) -> (buffer: Vec<u8>)
    ensures
        buffer@ == readlink_start_spec(),
{
    let mut buffer = reuse;
    buffer.clear();
    buffer.resize(READLINK_START_LEN, 0u8);
    assert(buffer@ =~= readlink_start_spec());
    buffer
}

/// Decides what follows a `readlinkat` call that was given `buffer` and
/// returned `outcome`.
///
/// The kernel never reports more bytes than the buffer holds; and a buffer
/// that must grow has to fit twice over in the address space.
pub fn readlink_step(buffer: Vec<u8>, outcome: Result<usize, Error>) -> (step: ReadlinkStep)
    requires
        outcome is Ok ==> outcome->Ok_0 <= buffer.len(),
        outcome is Ok && outcome->Ok_0 == buffer.len() ==> 2 * buffer.len() <= usize::MAX,
    ensures
        step@ == readlink_step_spec(buffer@, outcome),
        outcome matches Err(e) ==> step@ == ReadlinkAction::Failed(e),
        outcome is Ok && outcome->Ok_0 < buffer.len() ==> step@ == ReadlinkAction::Done(
            buffer@.take(outcome->Ok_0 as int),
        ),
        outcome is Ok && outcome->Ok_0 == buffer.len() ==> (step@ matches ReadlinkAction::Retry(b) && b.len()
            == 2 * buffer.len() && b.take(buffer.len() as int) == buffer@ && forall|j: int|
            buffer.len() <= j < b.len() ==> b[j] == 0),
{
    match outcome {
        Err(e) => ReadlinkStep::Failed(e),
        Ok(nread) => {
            let mut buffer = buffer;
            let len = buffer.len();
            if nread < len {
                buffer.resize(nread, 0u8);
                ReadlinkStep::Done(buffer)
            } else {
                let ghost before = buffer@;
                buffer.resize(len * 2, 0u8);
                assert(buffer@ =~= before + zeros(before.len()));
                ReadlinkStep::Retry(buffer)
            }
        }
    }
}

/// What each `readlinkat` outcome leads to: a failed call is reported with
/// the very error the kernel gave; a count below the buffer's length ends the
/// loop with exactly the bytes the kernel wrote; a full buffer is kept and
/// followed by as many zero bytes.
pub proof fn lemma_readlink_step_outcomes(buffer: Seq<u8>, outcome: Result<usize, Error>)
    ensures
        outcome matches Err(e) ==> readlink_step_spec(buffer, outcome) == ReadlinkAction::Failed(e),
        outcome is Ok && outcome->Ok_0 < buffer.len() ==> readlink_step_spec(buffer, outcome)
            == ReadlinkAction::Done(buffer.take(outcome->Ok_0 as int)),
        outcome is Ok && outcome->Ok_0 >= buffer.len() ==> (readlink_step_spec(buffer, outcome)
            matches ReadlinkAction::Retry(b) && b.len() == 2 * buffer.len() && b.take(
            buffer.len() as int,
        ) == buffer && forall|j: int| buffer.len() <= j < b.len() ==> b[j] == 0),
{
    if let Ok(n) = outcome {
        if n >= buffer.len() {
            let b = buffer + zeros(buffer.len());
            assert(b.take(buffer.len() as int) =~= buffer);
        }
    }
}

/// What the kernel's `readlinkat` does to `buffer` for a link whose target
/// is `target`: it writes as much of the target as fits at the start of the
/// buffer, leaves the rest of the buffer alone, and returns the count.
pub open spec fn kernel_readlink(buffer: Seq<u8>, target: Seq<u8>) -> (Seq<u8>, nat) {
    let n = if target.len() < buffer.len() { target.len() } else { buffer.len() };
    (target.take(n as int) + buffer.skip(n as int), n)
}

/// Runs the `readlinkat` loop for `rounds` more calls at most, starting from
/// `buffer`, against a kernel that behaves as `kernel_readlink` says.
pub open spec fn readlink_rounds(buffer: Seq<u8>, target: Seq<u8>, rounds: nat) -> ReadlinkAction
    decreases rounds,
{
    let (filled, n) = kernel_readlink(buffer, target);
    if n > usize::MAX {
        ReadlinkAction::Retry(buffer)
    } else {
        match readlink_step_spec(filled, Ok(n as usize)) {
            ReadlinkAction::Retry(next) => if rounds == 0 {
                ReadlinkAction::Retry(next)
            } else {
                readlink_rounds(next, target, (rounds - 1) as nat)
            },
            other => other,
        }
    }
}

/// One round: when the target fits with room to spare, the step hands back
/// exactly the target; otherwise it asks again with twice the buffer.
pub proof fn lemma_readlink_round(buffer: Seq<u8>, target: Seq<u8>)
    requires
        buffer.len() <= usize::MAX,
    ensures
        ({
            let (filled, n) = kernel_readlink(buffer, target);
            &&& n <= usize::MAX
            &&& target.len() < buffer.len() ==> readlink_step_spec(filled, Ok(n as usize))
                == ReadlinkAction::Done(target)
            &&& target.len() >= buffer.len() ==> (readlink_step_spec(filled, Ok(n as usize))
                matches ReadlinkAction::Retry(next) && next.len() == 2 * buffer.len()
                && next.take(buffer.len() as int) == target.take(buffer.len() as int))
        }),
{
    let (filled, n) = kernel_readlink(buffer, target);
    if target.len() < buffer.len() {
        assert(filled.take(n as int) =~= target);
    } else {
        let next = filled + zeros(filled.len());
        assert(next.take(buffer.len() as int) =~= target.take(buffer.len() as int));
    }
}

/// `readlinkat` gives back the whole link target: starting from a non-empty
/// buffer that can double `rounds` times without leaving the address space,
/// the loop ends with exactly the target once the target is shorter than
/// the buffer grown `rounds` times.
pub proof fn lemma_readlink_reads_whole_target(buffer: Seq<u8>, target: Seq<u8>, rounds: nat)
    requires
        buffer.len() > 0,
        buffer.len() * pow2(rounds) <= usize::MAX,
        target.len() < buffer.len() * pow2(rounds),
    ensures
        readlink_rounds(buffer, target, rounds) == ReadlinkAction::Done(target),
    decreases rounds,
{
    lemma_pow2_pos(rounds);
    assert(buffer.len() <= buffer.len() * pow2(rounds)) by (nonlinear_arith)
        requires
            pow2(rounds) > 0,
    ;
    lemma_readlink_round(buffer, target);
    let (filled, n) = kernel_readlink(buffer, target);
    if target.len() >= buffer.len() {
        assert(rounds > 0) by {
            if rounds == 0 {
                assert(pow2(0) == 1) by {
                    vstd::arithmetic::power2::lemma2_to64();
                }
            }
        }
        let next = filled + zeros(filled.len());
        lemma_pow2_unfold(rounds);
        let r1 = (rounds - 1) as nat;
        assert(buffer.len() * pow2(rounds) == (2 * buffer.len()) * pow2(r1)) by (nonlinear_arith)
            requires
                pow2(rounds) == 2 * pow2(r1),
        ;
        lemma_readlink_reads_whole_target(next, target, r1);
    }
}

/// From the first buffer on, `readlinkat` gives back the whole link target
/// of any length below `READLINK_START_LEN` times `2^rounds`, within `rounds`
/// doublings, as long as the buffer so grown fits in the address space.
pub proof fn lemma_readlink_from_start(target: Seq<u8>, rounds: nat)
    requires
        READLINK_START_LEN * pow2(rounds) <= usize::MAX,
        target.len() < READLINK_START_LEN * pow2(rounds),
    ensures
        readlink_rounds(readlink_start_spec(), target, rounds) == ReadlinkAction::Done(target),
{
    lemma_readlink_reads_whole_target(readlink_start_spec(), target, rounds);
}

} // verus!
