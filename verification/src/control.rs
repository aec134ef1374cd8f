//! Control-request state machine: the class-specific control requests, the
//! interpretation of their status responses, and the clear handshake's
//! decision logic.

use vstd::prelude::*;

use crate::errors::ClassError;
use crate::status::Status;
use crate::status::spec_status_of;

verus! {

/// The class-specific control requests the session issues.
#[derive(Clone, Copy, Debug, PartialEq, Eq, Structural)]
pub enum ControlRequest {
    InitiateClear,
    CheckClearStatus,
    GetCapabilities,
    IndicatorPulse,
    Tmc488ReadStatusByte,
}

/// The request code of each control request, as the class specification
/// assigns them.
pub open spec fn spec_request_code(r: ControlRequest) -> u8 {
    match r {
        ControlRequest::InitiateClear => 5,
        ControlRequest::CheckClearStatus => 6,
        ControlRequest::GetCapabilities => 7,
        ControlRequest::IndicatorPulse => 64,
        ControlRequest::Tmc488ReadStatusByte => 128,
    }
}

impl ControlRequest {
    /// The request code placed in the control transfer's `bRequest` field.
    pub fn code(&self) -> (r: u8)
        ensures
            r == spec_request_code(*self),
    {
        match self {
            ControlRequest::InitiateClear => 5,
            ControlRequest::CheckClearStatus => 6,
            ControlRequest::GetCapabilities => 7,
            ControlRequest::IndicatorPulse => 64,
            ControlRequest::Tmc488ReadStatusByte => 128,
        }
    }
}

/// Reads the status code from the first byte of a control response; an empty
/// response is truncated.
pub fn read_response_status(buf: &[u8]) -> (r: Result<Status, ClassError>)
    ensures
        buf@.len() == 0 ==> r == Err::<Status, ClassError>(ClassError::TruncatedControlResponse),
        buf@.len() > 0 ==> r == Ok::<Status, ClassError>(spec_status_of(buf@[0])),
{
    if buf.len() == 0 {
        return Err(ClassError::TruncatedControlResponse);
    }
    Ok(Status::from_byte(buf[0]))
}

/// Reads the status code of a control response and requires it to be
/// success; any other terminal code is surfaced as an unexpected status.
pub fn check_response_status(buf: &[u8]) -> (r: Result<(), ClassError>)
    ensures
        buf@.len() == 0 ==> r == Err::<(), ClassError>(ClassError::TruncatedControlResponse),
        buf@.len() > 0 && spec_status_of(buf@[0]) == Status::Success ==> r == Ok::<
            (),
            ClassError,
        >(()),
        buf@.len() > 0 && spec_status_of(buf@[0]) != Status::Success ==> r == Err::<
            (),
            ClassError,
        >(ClassError::UnexpectedStatus(spec_status_of(buf@[0]))),
{
    let status = read_response_status(buf)?;
    status.check()
}

/// Interprets the INITIATE_CLEAR response: success and pending both accept
/// the command — pending means the device is still working and the poll
/// loop must follow — while any other status is surfaced as an
/// unexpected-status error.
pub fn initiate_clear_step(buf: &[u8]) -> (r: Result<(), ClassError>)
    ensures
        buf@.len() == 0 ==> r == Err::<(), ClassError>(ClassError::TruncatedControlResponse),
        buf@.len() > 0 ==> r == match spec_status_of(buf@[0]) {
            Status::Success => Ok::<(), ClassError>(()),
            Status::Pending => Ok::<(), ClassError>(()),
            s => Err::<(), ClassError>(ClassError::UnexpectedStatus(s)),
        },
{
    let status = read_response_status(buf)?;
    match status {
        Status::Success => Ok(()),
        Status::Pending => Ok(()),
        s => Err(ClassError::UnexpectedStatus(s)),
    }
}

/// The decision after one CHECK_CLEAR_STATUS response: the handshake is
/// finished, or the device is still working and must be polled again.
#[derive(Clone, Copy, Debug, PartialEq, Eq, Structural)]
pub enum ClearPoll {
    Done,
    Again,
}

/// Interprets one CHECK_CLEAR_STATUS response: success finishes the
/// handshake, pending asks for another poll after the fixed interval, and
/// every other status is a terminal error.
pub fn clear_status_step(buf: &[u8]) -> (r: Result<ClearPoll, ClassError>)
    ensures
        buf@.len() == 0 ==> r == Err::<ClearPoll, ClassError>(
            ClassError::TruncatedControlResponse,
        ),
        buf@.len() > 0 ==> r == match spec_status_of(buf@[0]) {
            Status::Success => Ok::<ClearPoll, ClassError>(ClearPoll::Done),
            Status::Pending => Ok::<ClearPoll, ClassError>(ClearPoll::Again),
            s => Err::<ClearPoll, ClassError>(ClassError::UnexpectedStatus(s)),
        },
{
    let status = read_response_status(buf)?;
    match status {
        Status::Success => Ok(ClearPoll::Done),
        Status::Pending => Ok(ClearPoll::Again),
        s => Err(ClassError::UnexpectedStatus(s)),
    }
}

/// What the clear poll loop does on a scripted sequence of
/// CHECK_CLEAR_STATUS responses: the number of round trips consumed up to
/// and including the first success; pending consumes a round trip and goes
/// on; any other status is that terminal error; a script that ends while the
/// device still reports pending is a truncated exchange.
pub open spec fn spec_clear_poll(responses: Seq<Seq<u8>>) -> Result<int, ClassError>
    decreases responses.len(),
{
    if responses.len() == 0 {
        Err(ClassError::TruncatedControlResponse)
    } else if responses[0].len() == 0 {
        Err(ClassError::TruncatedControlResponse)
    } else {
        match spec_status_of(responses[0][0]) {
            Status::Success => Ok(1),
            Status::Pending => match spec_clear_poll(responses.drop_first()) {
                Err(e) => Err(e),
                Ok(k) => Ok(1 + k),
            },
            s => Err(ClassError::UnexpectedStatus(s)),
        }
    }
}

/// Clear handshake law: where the device answers pending `k` times and then
/// success, the poll loop performs exactly `k + 1` CHECK_CLEAR_STATUS round
/// trips and finishes successfully; what follows the success plays no part.
pub proof fn lemma_clear_poll_pending_then_success(responses: Seq<Seq<u8>>, k: int)
    requires
        0 <= k < responses.len(),
        forall|j: int|
            0 <= j < k ==> (#[trigger] responses[j]).len() > 0 && spec_status_of(responses[j][0])
                == Status::Pending,
        responses[k].len() > 0,
        spec_status_of(responses[k][0]) == Status::Success,
    ensures
        spec_clear_poll(responses) == Ok::<int, ClassError>(k + 1),
    decreases k,
{
    if k > 0 {
        let rest = responses.drop_first();
        assert forall|j: int| 0 <= j < k - 1 implies (#[trigger] rest[j]).len() > 0
            && spec_status_of(rest[j][0]) == Status::Pending by {
            assert(rest[j] == responses[j + 1]);
        }
        assert(rest[k - 1] == responses[k]);
        lemma_clear_poll_pending_then_success(rest, k - 1);
    }
}

/// A successful poll consumes at least one and at most all responses.
pub proof fn lemma_clear_poll_count(responses: Seq<Seq<u8>>)
    ensures
        spec_clear_poll(responses) matches Ok(k) ==> 1 <= k <= responses.len(),
    decreases responses.len(),
{
    if responses.len() > 0 {
        lemma_clear_poll_count(responses.drop_first());
    }
}

fn clear_poll_from(responses: &Vec<Vec<u8>>, start: usize) -> (r: Result<usize, ClassError>)
    requires
        start <= responses@.len(),
    ensures
        match spec_clear_poll(crate::codec::spec_views(responses@).skip(start as int)) {
            Ok(k) => r matches Ok(n) && n == k,
            Err(e) => r matches Err(e2) && e2 == e,
        },
    decreases responses@.len() - start,
{
    if start >= responses.len() {
        return Err(ClassError::TruncatedControlResponse);
    }
    assert(crate::codec::spec_views(responses@).skip(start as int)[0] == responses@[start as int]@);
    match clear_status_step(responses[start].as_slice()) {
        Err(e) => Err(e),
        Ok(ClearPoll::Done) => Ok(1),
        Ok(ClearPoll::Again) => {
            assert(crate::codec::spec_views(responses@).skip(start as int).drop_first()
                =~= crate::codec::spec_views(responses@).skip(start as int + 1));
            match clear_poll_from(responses, start + 1) {
                Err(e) => Err(e),
                Ok(k) => {
                    proof {
                        lemma_clear_poll_count(
                            crate::codec::spec_views(responses@).skip(start as int + 1),
                        );
                    }
                    Ok(1 + k)
                },
            }
        },
    }
}

/// Runs the clear handshake's poll loop over a scripted sequence of
/// CHECK_CLEAR_STATUS responses and returns how many round trips it takes
/// until the device reports success.  The session's live loop takes the same
/// decision, one response at a time, through `clear_status_step`.
pub fn clear_poll_outcome(responses: &Vec<Vec<u8>>) -> (r: Result<usize, ClassError>)
    ensures
        match spec_clear_poll(crate::codec::spec_views(responses@)) {
            Ok(k) => r matches Ok(n) && n == k,
            Err(e) => r matches Err(e2) && e2 == e,
        },
{
    assert(crate::codec::spec_views(responses@).skip(0) =~= crate::codec::spec_views(responses@));
    clear_poll_from(responses, 0)
}

/// The views of a scripted sequence of status-byte poll round trips, each a
/// READ_STATUS_BYTE control response paired with the interrupt notification
/// bytes that followed it.
pub open spec fn spec_poll_views(polls: Seq<(Vec<u8>, Vec<u8>)>) -> Seq<(Seq<u8>, Seq<u8>)> {
    polls.map_values(|p: (Vec<u8>, Vec<u8>)| (p.0@, p.1@))
}

/// What the status-byte poll does on a scripted sequence of round trips:
/// how many it consumes, and whether a notification was observed.  The poll
/// stops, reporting true, exactly at the first round trip whose control
/// status is success and whose notification carries the message-available
/// bit — immediately, performing no further round trip; a round trip with
/// any other status or without the bit is skipped; only a script that runs
/// out (the deadline elapsing) yields false.
pub open spec fn spec_stb_poll(polls: Seq<(Seq<u8>, Seq<u8>)>) -> (int, bool)
    decreases polls.len(),
{
    if polls.len() == 0 {
        (0, false)
    } else if polls[0].0.len() > 0 && spec_status_of(polls[0].0[0]) == Status::Success
        && spec_stb_notified(polls[0].1) {
        (1, true)
    } else {
        let rest = spec_stb_poll(polls.drop_first());
        (1 + rest.0, rest.1)
    }
}

/// The poll consumes at most the whole script.
pub proof fn lemma_stb_poll_count(polls: Seq<(Seq<u8>, Seq<u8>)>)
    ensures
        0 <= spec_stb_poll(polls).0 <= polls.len(),
    decreases polls.len(),
{
    if polls.len() > 0 {
        lemma_stb_poll_count(polls.drop_first());
    }
}

fn stb_poll_from(polls: &Vec<(Vec<u8>, Vec<u8>)>, start: usize) -> (r: (usize, bool))
    requires
        start <= polls@.len(),
    ensures
        ({
            let s = spec_stb_poll(spec_poll_views(polls@).skip(start as int));
            r.0 == s.0 && r.1 == s.1
        }),
    decreases polls@.len() - start,
{
    if start >= polls.len() {
        return (0, false);
    }
    assert(spec_poll_views(polls@).skip(start as int)[0] == (
        polls@[start as int].0@,
        polls@[start as int].1@,
    ));
    let p = &polls[start];
    let status_success = match read_response_status(p.0.as_slice()) {
        Ok(Status::Success) => true,
        _ => false,
    };
    if status_success && stb_notified(p.1.as_slice()) {
        (1, true)
    } else {
        assert(spec_poll_views(polls@).skip(start as int).drop_first() =~= spec_poll_views(
            polls@,
        ).skip(start as int + 1));
        let rest = stb_poll_from(polls, start + 1);
        proof {
            lemma_stb_poll_count(spec_poll_views(polls@).skip(start as int + 1));
        }
        (1 + rest.0, rest.1)
    }
}

/// Runs the status-byte poll over a scripted sequence of round trips and
/// returns how many it consumed with whether a notification was observed:
/// true exactly at the first notifying round trip, with none after it;
/// false only once the script — standing for the deadline — runs out.  The
/// session's live loop takes the same decision, one round trip at a time,
/// through `read_stb_once`.
pub fn stb_poll_outcome(polls: &Vec<(Vec<u8>, Vec<u8>)>) -> (r: (usize, bool))
    ensures
        ({
            let s = spec_stb_poll(spec_poll_views(polls@));
            r.0 == s.0 && r.1 == s.1
        }),
{
    assert(spec_poll_views(polls@).skip(0) =~= spec_poll_views(polls@));
    stb_poll_from(polls, 0)
}

/// Whether an interrupt-endpoint notification reports "message available":
/// the last byte read, if any, has the bit of value 16 set.
pub open spec fn spec_stb_notified(data: Seq<u8>) -> bool {
    data.len() > 0 && data[data.len() - 1] & 16 != 0
}

/// Tests a status-byte notification for the "message available" bit.
pub fn stb_notified(data: &[u8]) -> (r: bool)
    ensures
        r == spec_stb_notified(data@),
{
    if data.len() == 0 {
        return false;
    }
    data[data.len() - 1] & 16 != 0
}

} // verus!
