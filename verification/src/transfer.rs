//! The reliable transfer loop: exact-length transfers over a primitive
//! that may move fewer bytes than asked or be interrupted by a signal.
//!
//! A single call of the transport primitive is summed up by a
//! [`TransferEvent`]. The loop logic is a step function per direction
//! ([`send_step`], [`recv_step`]) applied until the target length is
//! reached, together with runners ([`send_exact`], [`recv_exact`]) that
//! drive the steps over a script of events, as a simulated transport
//! hands them out. The runners are proved against [`run_model`], the
//! mathematical account of the loop, about which the transfer laws at
//! the end of this module are stated.

use vstd::prelude::*;

verus! {

/// What one call of the transport primitive reported.
#[derive(Debug)]
pub enum TransferEvent {
    /// The call moved this many bytes; possibly fewer than asked.
    Transferred(usize),
    /// The call was interrupted by a signal before moving anything.
    Interrupted,
    /// The transport failed with the given cause.
    Failed(String),
}

/// Why a transfer did not complete.
#[derive(Debug)]
pub enum TransferError {
    /// The requested length does not fit the native size type.
    Validation,
    /// The transport failed with the given cause.
    Transport(String),
    /// The peer closed the stream before the full length was received.
    PeerClosedEarly,
}

/// How a run of the loop over a script of events ended.
#[derive(Debug)]
pub enum SimOutcome {
    /// The full length was transferred, consuming `calls` primitive calls.
    Completed { calls: usize },
    /// The script ran out of events before the full length was reached.
    OutOfEvents { transferred: usize, calls: usize },
    /// The transport failed, or the peer closed early, at call `calls`.
    Failed { calls: usize, error: TransferError },
}

/// Mathematical account of a finished run: bytes moved, primitive calls
/// consumed, and the error if one stopped the run.
pub struct RunModel {
    pub transferred: int,
    pub calls: int,
    pub error: Option<TransferError>,
}

/// Two errors that carry the same cause.
pub open spec fn same_error(a: TransferError, b: TransferError) -> bool {
    match (a, b) {
        (TransferError::Validation, TransferError::Validation) => true,
        (TransferError::Transport(x), TransferError::Transport(y)) => x@ == y@,
        (TransferError::PeerClosedEarly, TransferError::PeerClosedEarly) => true,
        _ => false,
    }
}

/// Bytes one report moves when `remaining` bytes are outstanding: each
/// call is made on the remaining suffix alone, so the primitive can
/// never move more than that.
pub open spec fn clamped(n: int, remaining: int) -> int {
    if n <= remaining {
        n
    } else {
        remaining
    }
}

/// One direction of the reliable transfer loop, run over a script of
/// primitive reports: starting `done` bytes into a transfer of `len`
/// with `calls` calls already made, consume events until the target is
/// reached, the script is exhausted, or the transport fails.
/// `stop_on_zero` is true for the receiving direction, where a zero-byte
/// read before the target length means the peer closed the stream.
pub open spec fn run_model(
    len: int,
    done: int,
    calls: int,
    script: Seq<TransferEvent>,
    stop_on_zero: bool,
) -> RunModel
    decreases script.len(),
{
    if done >= len {
        RunModel { transferred: done, calls, error: None }
    } else if script.len() == 0 {
        RunModel { transferred: done, calls, error: None }
    } else {
        match script[0] {
            TransferEvent::Interrupted => run_model(
                len,
                done,
                calls + 1,
                script.drop_first(),
                stop_on_zero,
            ),
            TransferEvent::Transferred(n) => if stop_on_zero && n == 0 {
                RunModel {
                    transferred: done,
                    calls: calls + 1,
                    error: Some(TransferError::PeerClosedEarly),
                }
            } else {
                run_model(
                    len,
                    done + clamped(n as int, len - done),
                    calls + 1,
                    script.drop_first(),
                    stop_on_zero,
                )
            },
            TransferEvent::Failed(m) => RunModel {
                transferred: done,
                calls: calls + 1,
                error: Some(TransferError::Transport(m)),
            },
        }
    }
}

/// The exec outcome of a runner agrees with the mathematical run of the
/// same script: completion exactly at `len` bytes, the same call count,
/// and the same error with the same cause.
pub open spec fn outcome_matches(r: SimOutcome, m: RunModel, len: int) -> bool {
    match r {
        SimOutcome::Completed { calls } => m.error is None && m.transferred == len && calls
            == m.calls,
        SimOutcome::OutOfEvents { transferred, calls } => m.error is None && transferred
            == m.transferred && transferred < len && calls == m.calls,
        SimOutcome::Failed { calls, error } => m.error matches Some(e) && same_error(error, e)
            && calls == m.calls,
    }
}

/// The target length must fit the native size type before any transfer
/// is attempted.
pub fn validate_len(len: u64) -> (r: Result<usize, TransferError>)
    ensures
        len <= usize::MAX ==> r == Ok::<usize, TransferError>(len as usize),
        len > usize::MAX ==> r == Err::<usize, TransferError>(TransferError::Validation),
{
    if len <= usize::MAX as u64 {
        Ok(len as usize)
    } else {
        Err(TransferError::Validation)
    }
}

/// Apply one primitive report to the sending side, `done` bytes into a
/// transfer of `len`: an interruption is transparent and keeps the
/// offset, a report of `n` bytes advances it by `n`, and any other
/// failure aborts carrying its cause.
pub fn send_step(done: usize, len: usize, event: &TransferEvent) -> (r: Result<
    usize,
    TransferError,
>)
    requires
        done < len,
        *event matches TransferEvent::Transferred(n) ==> n <= len - done,
    ensures
        match *event {
            TransferEvent::Transferred(n) => r == Ok::<usize, TransferError>((done + n) as usize),
            TransferEvent::Interrupted => r == Ok::<usize, TransferError>(done),
            TransferEvent::Failed(m) => r matches Err(TransferError::Transport(c)) && c@ == m@,
        },
{
    match event {
        TransferEvent::Transferred(n) => Ok(done + *n),
        TransferEvent::Interrupted => Ok(done),
        TransferEvent::Failed(msg) => Err(TransferError::Transport(msg.clone())),
    }
}

/// Apply one primitive report to the receiving side. As for sending,
/// except that a read of zero bytes while bytes are still outstanding
/// means the peer closed the stream: a failure of its own, never a
/// reason to keep looping.
pub fn recv_step(done: usize, len: usize, event: &TransferEvent) -> (r: Result<
    usize,
    TransferError,
>)
    requires
        done < len,
        *event matches TransferEvent::Transferred(n) ==> n <= len - done,
    ensures
        match *event {
            TransferEvent::Transferred(n) => if n == 0 {
                r == Err::<usize, TransferError>(TransferError::PeerClosedEarly)
            } else {
                r == Ok::<usize, TransferError>((done + n) as usize)
            },
            TransferEvent::Interrupted => r == Ok::<usize, TransferError>(done),
            TransferEvent::Failed(m) => r matches Err(TransferError::Transport(c)) && c@ == m@,
        },
{
    match event {
        TransferEvent::Transferred(n) => if *n == 0 {
            Err(TransferError::PeerClosedEarly)
        } else {
            Ok(done + *n)
        },
        TransferEvent::Interrupted => Ok(done),
        TransferEvent::Failed(msg) => Err(TransferError::Transport(msg.clone())),
    }
}

/// Run the sending side of the loop over a script of primitive reports,
/// until `len` bytes are sent, the script is exhausted, or the
/// transport fails.
pub fn send_exact(len: usize, script: &Vec<TransferEvent>) -> (r: SimOutcome)
    ensures
        outcome_matches(r, run_model(len as int, 0, 0, script@, false), len as int),
{
    run_exact(len, script, false)
}

/// Run the receiving side of the loop over a script of primitive
/// reports, until `len` bytes are received, the script is exhausted, or
/// the transport fails or closes the stream early.
pub fn recv_exact(len: usize, script: &Vec<TransferEvent>) -> (r: SimOutcome)
    ensures
        outcome_matches(r, run_model(len as int, 0, 0, script@, true), len as int),
{
    run_exact(len, script, true)
}

/// The shared runner behind [`send_exact`] and [`recv_exact`].
fn run_exact(len: usize, script: &Vec<TransferEvent>, stop_on_zero: bool) -> (r: SimOutcome)
    ensures
        outcome_matches(r, run_model(len as int, 0, 0, script@, stop_on_zero), len as int),
{
    let n: usize = script.len();
    let mut done: usize = 0;
    let mut i: usize = 0;
    proof {
        assert(script@.skip(0) =~= script@);
    }
    while done < len && i < n
        invariant
            n == script@.len(),
            done <= len,
            i <= n,
            run_model(len as int, 0, 0, script@, stop_on_zero) == run_model(
                len as int,
                done as int,
                i as int,
                script@.skip(i as int),
                stop_on_zero,
            ),
        decreases n - i,
    {
        proof {
            assert(script@.skip(i as int)[0] == script@[i as int]);
            assert(script@.skip(i as int).drop_first() =~= script@.skip(i as int + 1));
        }
        let remaining: usize = len - done;
        let event = match &script[i] {
            TransferEvent::Transferred(moved) => TransferEvent::Transferred(
                if *moved <= remaining {
                    *moved
                } else {
                    remaining
                },
            ),
            TransferEvent::Interrupted => TransferEvent::Interrupted,
            TransferEvent::Failed(msg) => TransferEvent::Failed(msg.clone()),
        };
        let step = if stop_on_zero {
            recv_step(done, len, &event)
        } else {
            send_step(done, len, &event)
        };
        match step {
            Ok(new_done) => {
                done = new_done;
            },
            Err(error) => {
                return SimOutcome::Failed { calls: i + 1, error };
            },
        }
        i = i + 1;
    }
    if done == len {
        SimOutcome::Completed { calls: i }
    } else {
        SimOutcome::OutOfEvents { transferred: done, calls: i }
    }
}

/// A script of plain partial transfers for a target of `len` bytes,
/// `done` of which are already moved: every report moves at least one
/// byte and never more than remains, and the script ends exactly when
/// the target is reached.
pub open spec fn partial_steps(len: int, done: int, script: Seq<TransferEvent>) -> bool
    decreases script.len(),
{
    if done >= len {
        script.len() == 0
    } else if script.len() == 0 {
        false
    } else {
        match script[0] {
            TransferEvent::Transferred(n) => 1 <= n && done + n <= len && partial_steps(
                len,
                done + n,
                script.drop_first(),
            ),
            _ => false,
        }
    }
}

proof fn lemma_exact_transfer_from(
    len: int,
    done: int,
    calls: int,
    script: Seq<TransferEvent>,
    stop_on_zero: bool,
)
    requires
        0 <= done <= len,
        partial_steps(len, done, script),
    ensures
        run_model(len, done, calls, script, stop_on_zero) == (RunModel {
            transferred: len,
            calls: calls + script.len(),
            error: None,
        }),
    decreases script.len(),
{
    if done < len {
        match script[0] {
            TransferEvent::Transferred(n) => {
                lemma_exact_transfer_from(len, done + n, calls + 1, script.drop_first(), stop_on_zero);
            },
            _ => {},
        }
    }
}

/// Exact-transfer invariant: over any script of partial transfers that
/// each move between one byte and what remains, and that together sum to
/// `len`, both directions of the loop complete having moved exactly
/// `len` bytes, in exactly one primitive call per partial step.
pub proof fn lemma_exact_transfer(len: int, script: Seq<TransferEvent>, stop_on_zero: bool)
    requires
        0 <= len,
        partial_steps(len, 0, script),
    ensures
        ({
            let m = run_model(len, 0, 0, script, stop_on_zero);
            m.error is None && m.transferred == len && m.calls == script.len()
        }),
{
    lemma_exact_transfer_from(len, 0, 0, script, stop_on_zero);
}

/// The same script with a signal interruption injected before every
/// report.
pub open spec fn with_interruptions(script: Seq<TransferEvent>) -> Seq<TransferEvent>
    decreases script.len(),
{
    if script.len() == 0 {
        script
    } else {
        seq![TransferEvent::Interrupted, script[0]] + with_interruptions(script.drop_first())
    }
}

proof fn lemma_interruption_transparency_from(
    len: int,
    done: int,
    calls: int,
    script: Seq<TransferEvent>,
    stop_on_zero: bool,
)
    requires
        0 <= done <= len,
        partial_steps(len, done, script),
    ensures
        run_model(len, done, calls, with_interruptions(script), stop_on_zero) == (RunModel {
            transferred: len,
            calls: calls + 2 * script.len(),
            error: None,
        }),
    decreases script.len(),
{
    if done >= len {
        assert(with_interruptions(script).len() == 0);
    } else {
        let wi = with_interruptions(script);
        let rest = script.drop_first();
        assert(wi == seq![TransferEvent::Interrupted, script[0]] + with_interruptions(rest));
        assert(wi.len() == 2 + with_interruptions(rest).len());
        assert(wi[0] == TransferEvent::Interrupted);
        let after_int = wi.drop_first();
        assert(after_int =~= seq![script[0]] + with_interruptions(rest));
        assert(after_int[0] == script[0]);
        assert(after_int.drop_first() =~= with_interruptions(rest));
        match script[0] {
            TransferEvent::Transferred(n) => {
                assert(run_model(len, done, calls, wi, stop_on_zero) == run_model(
                    len,
                    done,
                    calls + 1,
                    after_int,
                    stop_on_zero,
                ));
                assert(run_model(len, done, calls + 1, after_int, stop_on_zero) == run_model(
                    len,
                    done + n,
                    calls + 2,
                    with_interruptions(rest),
                    stop_on_zero,
                ));
                lemma_interruption_transparency_from(len, done + n, calls + 2, rest, stop_on_zero);
            },
            _ => {},
        }
    }
}

/// Interruption transparency: a transport that is interrupted by a
/// signal before every single call still completes the transfer with
/// the same final byte count, using exactly twice the calls.
pub proof fn lemma_interruption_transparency(
    len: int,
    script: Seq<TransferEvent>,
    stop_on_zero: bool,
)
    requires
        0 <= len,
        partial_steps(len, 0, script),
    ensures
        ({
            let m = run_model(len, 0, 0, script, stop_on_zero);
            let mi = run_model(len, 0, 0, with_interruptions(script), stop_on_zero);
            mi.error is None && mi.transferred == m.transferred && mi.transferred == len
                && mi.calls == 2 * m.calls
        }),
{
    lemma_exact_transfer_from(len, 0, 0, script, stop_on_zero);
    lemma_interruption_transparency_from(len, 0, 0, script, stop_on_zero);
}

/// A script on which the receiving loop sees the peer close: reports
/// (with interruptions allowed between them) keep the transfer short of
/// the target until a read of zero bytes arrives.
pub open spec fn closes_early(len: int, done: int, script: Seq<TransferEvent>) -> bool
    decreases script.len(),
{
    if done >= len || script.len() == 0 {
        false
    } else {
        match script[0] {
            TransferEvent::Transferred(n) => n == 0 || (done + n < len && closes_early(
                len,
                done + n,
                script.drop_first(),
            )),
            TransferEvent::Interrupted => closes_early(len, done, script.drop_first()),
            _ => false,
        }
    }
}

proof fn lemma_peer_closed_detected_from(
    len: int,
    done: int,
    calls: int,
    script: Seq<TransferEvent>,
)
    requires
        closes_early(len, done, script),
    ensures
        run_model(len, done, calls, script, true).error matches Some(e) && e
            is PeerClosedEarly,
    decreases script.len(),
{
    match script[0] {
        TransferEvent::Transferred(n) => {
            if n != 0 {
                lemma_peer_closed_detected_from(len, done + n, calls + 1, script.drop_first());
            }
        },
        TransferEvent::Interrupted => {
            lemma_peer_closed_detected_from(len, done, calls + 1, script.drop_first());
        },
        _ => {},
    }
}

/// Peer-closed detection: a transport that returns zero bytes on
/// receive before the target length is reached makes the receiving loop
/// fail with `PeerClosedEarly`; it can neither report completion nor
/// keep consuming events past the zero-byte read.
pub proof fn lemma_peer_closed_detected(len: int, script: Seq<TransferEvent>)
    requires
        closes_early(len, 0, script),
    ensures
        run_model(len, 0, 0, script, true).error matches Some(e) && e is PeerClosedEarly,
{
    lemma_peer_closed_detected_from(len, 0, 0, script);
}

} // verus!
