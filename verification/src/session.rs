//! The instrument session: owns the open device, sequences the message tag,
//! and builds the high-level read/write/ask operations on the codec and the
//! control-request machinery.
//!
//! The clear handshake and the status-byte poll sleep a fixed interval
//! between round trips; their loops are driven by the caller, which performs
//! the waiting, while every decision of the handshake stands here with its
//! contract (`initiate_clear`, `check_clear_status`, `finish_clear`,
//! `read_stb_once`).

use vstd::prelude::*;

use core::time::Duration;

use crate::caps::USB488Capabilities;
use crate::caps::USBTMCCapabilities;
use crate::codec::HEADER_SIZE;
use crate::codec::encode_dev_dep_msg_out;
use crate::codec::encode_request_dev_dep_msg_in;
use crate::codec::decode_dev_dep_msg_in;
use crate::codec::spec_out_frame;
use crate::control::ClearPoll;
use crate::control::ControlRequest;
use crate::control::check_response_status;
use crate::control::clear_status_step;
use crate::control::stb_notified;
use crate::errors::ClassError;
use crate::errors::TMCError;
use crate::errors::TMCResult;
use crate::errors::TransportError;
use crate::usb::duration_from_millis;
use crate::usb::usb_active_configuration;
use crate::usb::usb_attach_kernel_driver;
use crate::usb::usb_claim_interface;
use crate::usb::usb_clear_halt;
use crate::usb::usb_detach_kernel_driver;
use crate::usb::usb_kernel_driver_active;
use crate::usb::usb_lookup_config;
use crate::usb::usb_num_configurations;
use crate::usb::usb_num_interfaces;
use crate::usb::usb_open;
use crate::usb::usb_read_bulk;
use crate::usb::usb_read_control;
use crate::usb::usb_read_interrupt;
use crate::usb::usb_release_interface;
use crate::usb::usb_set_active_configuration;
use crate::usb::usb_supports_detach_kernel_driver;
use crate::usb::usb_write_bulk;

verus! {

/// The control transfer setup's request-type byte for the class-specific
/// requests this session issues: direction in, class request, interface
/// recipient.
pub const CONTROL_IN_REQUEST_TYPE: u8 = 0xA1;

/// The default maximum transfer chunk size: 1 MiB.
pub const DEFAULT_MAX_TRANSFER_SIZE: u32 = 1048576;

/// The fixed interval, in milliseconds, slept between the round trips of
/// the clear handshake's poll and of the status-byte poll.  The sleeping is
/// the caller's; the decisions of both polls stand here.
pub const POLL_INTERVAL_MS: u64 = 100;

/// The default deadline, in milliseconds, of the status-byte poll.
pub const DEFAULT_STB_DEADLINE_MS: u64 = 1000;

/// The endpoint addresses and interface identity of one instrument,
/// supplied by device discovery and never mutated afterwards.
#[derive(Clone, Copy, Debug, PartialEq, Eq, Structural)]
pub struct Endpoints {
    pub bulk_out_address: u8,
    pub bulk_in_address: u8,
    pub interrupt_in_address: Option<u8>,
    pub interface_number: u8,
    /// Distinguishes plain USBTMC from USBTMC-USB488 (protocol code 1).
    pub interface_protocol: u8,
    /// The configuration value the instrument's interface belongs to.
    pub config_number: u8,
}

/// The tag that follows `t`: tags cycle through 2..=127 and are never 0 or
/// 1; from any value outside the cycle the next tag is 2.
pub open spec fn spec_next_tag(t: u8) -> u8 {
    if t < 2 || t >= 127 {
        2
    } else {
        (t + 1) as u8
    }
}

/// The tag after `n` consecutive advances from `t`.
pub open spec fn spec_tag_after(t: u8, n: int) -> u8
    decreases n,
{
    if n <= 0 {
        t
    } else {
        spec_tag_after(spec_next_tag(t), n - 1)
    }
}

/// Advances a message tag by one step of the cycle.
pub fn next_tag(t: u8) -> (r: u8)
    ensures
        r == spec_next_tag(t),
{
    if t < 2 || t >= 127 {
        2
    } else {
        t + 1
    }
}

/// Tag sequencing law: any number of advances, from any starting value,
/// stays in 2..=127 — in particular a tag is never 0 and never 1.
pub proof fn lemma_tag_never_0_or_1(t: u8, n: int)
    requires
        n >= 1,
    ensures
        2 <= spec_tag_after(t, n) <= 127,
    decreases n,
{
    if n == 1 {
        assert(spec_tag_after(t, 1) == spec_tag_after(spec_next_tag(t), 0));
        assert(spec_tag_after(spec_next_tag(t), 0) == spec_next_tag(t));
    } else {
        lemma_tag_never_0_or_1(spec_next_tag(t), n - 1);
    }
}

/// Tag sequencing law: from a tag within the cycle the advances count up by
/// one as long as they stay at or below 127.
pub proof fn lemma_tag_runs_up(t: u8, k: int)
    requires
        2 <= t,
        0 <= k,
        t + k <= 127,
    ensures
        spec_tag_after(t, k) == t + k,
    decreases k,
{
    if k > 0 {
        lemma_tag_runs_up(spec_next_tag(t), k - 1);
    }
}

/// Tag sequencing law: `n` consecutive advances from 127 produce the
/// sequence 2, 3, ... — the n-th advance yields 1 + n.
pub proof fn lemma_tag_sequence_from_127(n: int)
    requires
        1 <= n <= 126,
    ensures
        spec_tag_after(127, n) == 1 + n,
{
    lemma_tag_runs_up(2, n - 1);
}

/// Tag sequencing law: from any value below 2 one advance resets the tag
/// to 2.
pub proof fn lemma_tag_reset_from_low(t: u8)
    requires
        t < 2,
    ensures
        spec_tag_after(t, 1) == 2,
{
    assert(spec_tag_after(t, 1) == spec_tag_after(spec_next_tag(t), 0));
    assert(spec_tag_after(spec_next_tag(t), 0) == spec_next_tag(t));
}

/// The outbound transfers that writing `data` with chunk size `max`
/// produces, paired with each chunk's payload length: the input is split
/// into chunks of at most `max` bytes, the tag advances once for each
/// chunk, and end-of-message is set exactly on the chunk holding the final
/// input byte.  An empty input produces no transfer.
pub open spec fn spec_out_frames(tag: u8, data: Seq<u8>, max: int) -> Seq<(Seq<u8>, int)>
    decreases data.len(),
    when max >= 1
{
    if data.len() == 0 {
        Seq::empty()
    } else if data.len() <= max {
        seq![(spec_out_frame(spec_next_tag(tag), data, true), data.len() as int)]
    } else {
        seq![(spec_out_frame(spec_next_tag(tag), data.take(max), false), max)] + spec_out_frames(
            spec_next_tag(tag),
            data.skip(max),
            max,
        )
    }
}

/// Chunking law: an input exactly one byte longer than the chunk size
/// produces exactly two transfers, and end-of-message is set only on the
/// second.
pub proof fn lemma_chunking_one_over_max(tag: u8, data: Seq<u8>, max: int)
    requires
        max >= 1,
        data.len() == max + 1,
    ensures
        spec_out_frames(tag, data, max).len() == 2,
        spec_out_frames(tag, data, max)[0].0 == spec_out_frame(
            spec_next_tag(tag),
            data.take(max),
            false,
        ),
        spec_out_frames(tag, data, max)[1].0 == spec_out_frame(
            spec_next_tag(spec_next_tag(tag)),
            data.skip(max),
            true,
        ),
{
    let t = spec_next_tag(tag);
    let sub = spec_out_frames(t, data.skip(max), max);
    assert(data.skip(max).len() == 1);
    assert(spec_out_frames(tag, data, max) == seq![
        (spec_out_frame(t, data.take(max), false), max),
    ] + sub);
    assert(sub == seq![
        (spec_out_frame(spec_next_tag(t), data.skip(max), true), data.skip(max).len() as int),
    ]);
}

/// Builds the outbound transfers for one write: each element is an encoded
/// Device-Dependent-Message-Out transfer with its chunk's payload length;
/// the second result is the tag after all the advances the chunks consumed.
/// Decides one bulk-out chunk's outcome from the count the transport
/// reported: fewer bytes written than the chunk holds is the
/// truncated-bulk-out failure — terminal, with no retry — and a full count
/// accepts the chunk.
pub fn chunk_write_outcome(written: usize, chunk_len: usize) -> (r: Result<(), ClassError>)
    ensures
        written < chunk_len <==> r == Err::<(), ClassError>(ClassError::TruncatedBulkOut),
        written >= chunk_len <==> r == Ok::<(), ClassError>(()),
{
    if written < chunk_len {
        Err(ClassError::TruncatedBulkOut)
    } else {
        Ok(())
    }
}

/// The size a read request asks the device for: the caller's bound where
/// one is given and smaller than the configured maximum, else the
/// configured maximum.
pub open spec fn spec_read_request_size(transfer_size: Option<u32>, max: u32) -> u32 {
    match transfer_size {
        Some(s) => if s < max {
            s
        } else {
            max
        },
        None => max,
    }
}

/// Clamps a requested read size to the configured maximum.
pub fn read_request_size(transfer_size: Option<u32>, max: u32) -> (r: u32)
    ensures
        r == spec_read_request_size(transfer_size, max),
{
    match transfer_size {
        Some(s) if s < max => s,
        _ => max,
    }
}

#[verifier::rlimit(50)]
pub fn build_out_frames(tag: u8, data: &[u8], max_size: u32) -> (r: (Vec<(Vec<u8>, usize)>, u8))
    requires
        max_size >= 1,
    ensures
        ({
            let fs = spec_out_frames(tag, data@, max_size as int);
            &&& r.0@.len() == fs.len()
            &&& forall|i: int|
                0 <= i < fs.len() ==> (#[trigger] r.0@[i]).0@ == fs[i].0 && r.0@[i].1 == fs[i].1
            &&& r.1 == spec_tag_after(tag, fs.len() as int)
        }),
    decreases data@.len(),
{
    if data.len() == 0 {
        let v: Vec<(Vec<u8>, usize)> = Vec::new();
        assert(spec_out_frames(tag, data@, max_size as int) =~= Seq::empty());
        return (v, tag);
    }
    let t = next_tag(tag);
    proof {
        assert(spec_tag_after(tag, 1) == spec_tag_after(spec_next_tag(tag), 0));
        assert(spec_tag_after(spec_next_tag(tag), 0) == spec_next_tag(tag));
    }
    if data.len() <= max_size as usize {
        let frame = encode_dev_dep_msg_out(t, data, true);
        let plen = data.len();
        let mut v: Vec<(Vec<u8>, usize)> = Vec::new();
        v.push((frame, plen));
        proof {
            let fs = spec_out_frames(tag, data@, max_size as int);
            assert(fs == seq![(spec_out_frame(spec_next_tag(tag), data@, true), data@.len() as int)]);
            assert(v@ =~= seq![(frame, plen)]);
            assert(v@[0].0@ == fs[0].0 && v@[0].1 == fs[0].1);
        }
        (v, t)
    } else {
        let head = vstd::slice::slice_subrange(data, 0, max_size as usize);
        let tail = vstd::slice::slice_subrange(data, max_size as usize, data.len());
        assert(head@ =~= data@.take(max_size as int));
        assert(tail@ =~= data@.skip(max_size as int));
        let frame = encode_dev_dep_msg_out(t, head, false);
        let (mut rest, fin) = build_out_frames(t, tail, max_size);
        let mut v: Vec<(Vec<u8>, usize)> = Vec::new();
        v.push((frame, max_size as usize));
        let ghost rest_view = rest@;
        v.append(&mut rest);
        proof {
            let fs = spec_out_frames(tag, data@, max_size as int);
            let sub = spec_out_frames(t, data@.skip(max_size as int), max_size as int);
            assert(fs == seq![
                (
                    spec_out_frame(spec_next_tag(tag), data@.take(max_size as int), false),
                    max_size as int,
                ),
            ] + sub);
            assert(v@[0].0@ == fs[0].0 && v@[0].1 == fs[0].1);
            assert forall|i: int| 1 <= i < fs.len() implies (#[trigger] v@[i]).0@ == fs[i].0
                && v@[i].1 == fs[i].1 by {
                assert(v@[i] == rest_view[i - 1]);
                assert(fs[i] == sub[i - 1]);
            }
        }
        (v, fin)
    }
}

/// An exclusively owned open instrument session.
pub struct InstrumentHandle {
    pub usb: crate::usb::UsbDeviceHandle,
    pub endpoints: Endpoints,
    /// The message tag, advanced only by the tag-advance operation before
    /// every control and bulk-out transfer.
    pub b_tag: u8,
    pub max_transfer_size: u32,
    pub term_char: Option<u8>,
    pub timeout: Duration,
    pub usbtmc_capabilities: USBTMCCapabilities,
    pub usb488_capabilities: Option<USB488Capabilities>,
    pub scpi_id: Option<String>,
    /// The configuration to restore at teardown, where connecting switched it.
    pub restore_config: Option<u8>,
    /// The interfaces whose kernel driver was detached at connection and is
    /// reattached at teardown.
    pub reattach_kernel_driver: Vec<u8>,
    pub closed: bool,
}

/// The device identity and discovery bookkeeping of two session states
/// agree: everything but the message tag and the mutable configuration.
pub open spec fn spec_same_identity(a: InstrumentHandle, b: InstrumentHandle) -> bool {
    &&& a.usb == b.usb
    &&& a.endpoints == b.endpoints
    &&& a.usbtmc_capabilities == b.usbtmc_capabilities
    &&& a.usb488_capabilities == b.usb488_capabilities
    &&& a.scpi_id == b.scpi_id
    &&& a.restore_config == b.restore_config
    &&& a.reattach_kernel_driver == b.reattach_kernel_driver
    &&& a.closed == b.closed
}

/// Two session states agree on everything but the message tag.
pub open spec fn spec_same_config(a: InstrumentHandle, b: InstrumentHandle) -> bool {
    &&& spec_same_identity(a, b)
    &&& a.max_transfer_size == b.max_transfer_size
    &&& a.term_char == b.term_char
    &&& a.timeout == b.timeout
}

impl InstrumentHandle {
    /// Well-formedness: the tag is 0 only before the first advance and
    /// otherwise within its 2..=127 cycle; the chunk size is positive and
    /// small enough that a read buffer for one chunk fits the address space.
    pub open spec fn wf(self) -> bool {
        &&& self.b_tag == 0 || (2 <= self.b_tag <= 127)
        &&& self.max_transfer_size >= 1
        &&& self.max_transfer_size + HEADER_SIZE + 3 <= usize::MAX
    }

    /// Advances the message tag; every control and bulk-out transfer does
    /// this first, so control and bulk transfers share one cycling tag
    /// space.
    fn incr_b_tag(&mut self)
        ensures
            final(self).b_tag == spec_next_tag(old(self).b_tag),
            spec_same_config(*old(self), *final(self)),
    {
        self.b_tag = next_tag(self.b_tag);
    }

    pub fn get_max_transfer_size(&self) -> (r: u32)
        ensures
            r == self.max_transfer_size,
    {
        self.max_transfer_size
    }

    /// Sets the chunk size; any positive value small enough for a chunk
    /// buffer to fit the address space is accepted.
    pub fn set_max_transfer_size(&mut self, max_transfer_size: u32)
        requires
            max_transfer_size >= 1,
            max_transfer_size + HEADER_SIZE + 3 <= usize::MAX,
        ensures
            final(self).max_transfer_size == max_transfer_size,
            final(self).b_tag == old(self).b_tag,
            final(self).term_char == old(self).term_char,
            final(self).timeout == old(self).timeout,
            spec_same_identity(*old(self), *final(self)),
    {
        self.max_transfer_size = max_transfer_size;
    }

    pub fn get_term_char(&self) -> (r: Option<u8>)
        ensures
            r == self.term_char,
    {
        self.term_char
    }

    /// Sets the read terminator.  The zero byte is reserved by the protocol
    /// as "no terminator" and always fails; a non-empty terminator needs the
    /// device's terminator capability; clearing the terminator always
    /// succeeds.
    pub fn set_term_char(&mut self, term_char: Option<u8>) -> (r: TMCResult<()>)
        ensures
            term_char == Some(0u8) ==> r == Err::<(), TMCError>(
                TMCError::Class(ClassError::InvalidTermChar),
            ) && *final(self) == *old(self),
            term_char is Some && term_char != Some(0u8) && !old(self).usbtmc_capabilities.term_char ==> r == Err::<(), TMCError>(
                TMCError::Class(ClassError::UnsupportedFeature),
            ) && *final(self) == *old(self),
            (term_char is None || (term_char != Some(0u8) && old(self).usbtmc_capabilities.term_char)) ==> r == Ok::<(), TMCError>(()) && final(self).term_char == term_char && final(self).b_tag == old(self).b_tag && final(self).max_transfer_size == old(self).max_transfer_size && final(self).timeout == old(self).timeout && spec_same_identity(*old(self), *final(self)),
    {
        match crate::session::validate_term_char(term_char, &self.usbtmc_capabilities) {
            Ok(()) => {
                self.term_char = term_char;
                Ok(())
            },
            Err(e) => Err(TMCError::Class(e)),
        }
    }

    pub fn get_timeout(&self) -> (r: Duration)
        ensures
            r == self.timeout,
    {
        self.timeout
    }

    /// Sets the per-transfer timeout applied to every subsequent transfer.
    pub fn set_timeout(&mut self, timeout: Duration)
        ensures
            final(self).timeout == timeout,
            final(self).b_tag == old(self).b_tag,
            final(self).term_char == old(self).term_char,
            final(self).max_transfer_size == old(self).max_transfer_size,
            spec_same_identity(*old(self), *final(self)),
    {
        self.timeout = timeout;
    }

    /// One class-specific control round trip: advances the tag, embeds it in
    /// the transfer's value field, and reads up to `read_size` bytes back.
    fn read_control(&mut self, request: ControlRequest, read_size: usize) -> (r: TMCResult<
        Vec<u8>,
    >)
        requires
            old(self).wf(),
            read_size <= 65535,
        ensures
            final(self).wf(),
            spec_same_config(*old(self), *final(self)),
            final(self).b_tag == spec_next_tag(old(self).b_tag),
            r matches Ok(v) ==> v@.len() <= read_size,
    {
        self.incr_b_tag();
        let code = request.code();
        match usb_read_control(
            &self.usb,
            CONTROL_IN_REQUEST_TYPE,
            code,
            self.b_tag as u16,
            self.endpoints.interface_number as u16,
            read_size,
            self.timeout,
        ) {
            Ok(v) => Ok(v),
            Err(e) => Err(TMCError::Rusb(e)),
        }
    }

    /// First round trip of the clear handshake: INITIATE_CLEAR with a
    /// one-byte status response.  Success and pending both accept the
    /// command — the poll loop follows either way — while any other status
    /// is an unexpected-status error (see `initiate_clear_step`).
    pub fn initiate_clear(&mut self) -> (r: TMCResult<()>)
        requires
            old(self).wf(),
        ensures
            final(self).wf(),
            spec_same_config(*old(self), *final(self)),
            final(self).b_tag == spec_next_tag(old(self).b_tag),
    {
        let out = self.read_control(ControlRequest::InitiateClear, 1)?;
        match crate::control::initiate_clear_step(out.as_slice()) {
            Ok(()) => Ok(()),
            Err(e) => Err(TMCError::Class(e)),
        }
    }

    /// One poll round trip of the clear handshake: CHECK_CLEAR_STATUS with a
    /// two-byte response; success finishes, pending asks the caller to sleep
    /// the fixed interval and poll again, any other status is terminal.
    pub fn check_clear_status(&mut self) -> (r: TMCResult<ClearPoll>)
        requires
            old(self).wf(),
        ensures
            final(self).wf(),
            spec_same_config(*old(self), *final(self)),
            final(self).b_tag == spec_next_tag(old(self).b_tag),
    {
        let out = self.read_control(ControlRequest::CheckClearStatus, 2)?;
        match clear_status_step(out.as_slice()) {
            Ok(p) => Ok(p),
            Err(e) => Err(TMCError::Class(e)),
        }
    }

    /// Final step of the clear handshake, run exactly once and only after
    /// the poll reported success: clears the halt condition on the bulk-out
    /// endpoint.
    pub fn finish_clear(&self) -> (r: TMCResult<()>)
    {
        match usb_clear_halt(&self.usb, self.endpoints.bulk_out_address) {
            Ok(()) => Ok(()),
            Err(e) => Err(TMCError::Rusb(e)),
        }
    }

    /// Requests the 64-byte capability block (the largest possible control
    /// transfer, so no device's blob can overflow it), parses the base
    /// capability set, and — only on a USB488 interface — the USB488 set
    /// from the same block.
    pub fn get_capabilities(&mut self) -> (r: TMCResult<()>)
        requires
            old(self).wf(),
        ensures
            final(self).wf(),
            final(self).b_tag == spec_next_tag(old(self).b_tag),
            final(self).endpoints == old(self).endpoints,
            final(self).usb == old(self).usb,
            final(self).max_transfer_size == old(self).max_transfer_size,
            final(self).term_char == old(self).term_char,
            final(self).timeout == old(self).timeout,
            final(self).scpi_id == old(self).scpi_id,
            final(self).restore_config == old(self).restore_config,
            final(self).reattach_kernel_driver == old(self).reattach_kernel_driver,
            final(self).closed == old(self).closed,
            old(self).endpoints.interface_protocol != 1 ==> final(self).usb488_capabilities == old(self).usb488_capabilities,
            r is Ok && old(self).endpoints.interface_protocol == 1 ==> final(self).usb488_capabilities is Some,
    {
        let out = self.read_control(ControlRequest::GetCapabilities, 64)?;
        let tmc = match USBTMCCapabilities::parse(out.as_slice()) {
            Ok(c) => c,
            Err(e) => { return Err(TMCError::Class(e)) },
        };
        self.usbtmc_capabilities = tmc;
        if self.endpoints.interface_protocol == 1 {
            let caps488 = match USB488Capabilities::parse(out.as_slice()) {
                Ok(c) => c,
                Err(e) => { return Err(TMCError::Class(e)) },
            };
            self.usb488_capabilities = Some(caps488);
        }
        Ok(())
    }

    /// Triggers the indicator pulse; fails immediately with an unsupported
    /// feature where the capability set does not advertise pulse support,
    /// touching nothing.
    pub fn pulse(&mut self) -> (r: TMCResult<()>)
        requires
            old(self).wf(),
        ensures
            final(self).wf(),
            !old(self).usbtmc_capabilities.pulse ==> r == Err::<(), TMCError>(
                TMCError::Class(ClassError::UnsupportedFeature),
            ) && *final(self) == *old(self),
            old(self).usbtmc_capabilities.pulse ==> spec_same_config(*old(self), *final(self))
                && final(self).b_tag == spec_next_tag(old(self).b_tag),
    {
        if !self.usbtmc_capabilities.pulse {
            return Err(TMCError::Class(ClassError::UnsupportedFeature));
        }
        let out = self.read_control(ControlRequest::IndicatorPulse, 1)?;
        match check_response_status(out.as_slice()) {
            Ok(()) => Ok(()),
            Err(e) => Err(TMCError::Class(e)),
        }
    }

    /// Writes a command message: splits the input into chunks of at most the
    /// configured maximum, advances the tag per chunk, sets end-of-message
    /// exactly on the chunk with the final input byte, and fails the whole
    /// write with a truncated-bulk-out error if the transport reports fewer
    /// bytes written than a chunk holds — there is no partial success.
    pub fn write_raw(&mut self, data: &[u8]) -> (r: TMCResult<()>)
        requires
            old(self).wf(),
        ensures
            final(self).wf(),
            spec_same_config(*old(self), *final(self)),
            final(self).b_tag == spec_tag_after(
                old(self).b_tag,
                spec_out_frames(
                    old(self).b_tag,
                    data@,
                    old(self).max_transfer_size as int,
                ).len() as int,
            ),
            data@.len() == 0 ==> r is Ok && final(self).b_tag == old(self).b_tag,
    {
        let (frames, new_tag) = build_out_frames(self.b_tag, data, self.max_transfer_size);
        proof {
            let count = spec_out_frames(
                self.b_tag,
                data@,
                self.max_transfer_size as int,
            ).len() as int;
            if count > 0 {
                lemma_tag_never_0_or_1(self.b_tag, count);
            }
        }
        self.b_tag = new_tag;
        let mut i: usize = 0;
        while i < frames.len()
            invariant
                i <= frames@.len(),
                data@.len() == 0 ==> frames@.len() == 0 && self.b_tag == old(self).b_tag,
                self.wf(),
                spec_same_config(*old(self), *self),
                self.b_tag == spec_tag_after(
                    old(self).b_tag,
                    spec_out_frames(
                        old(self).b_tag,
                        data@,
                        old(self).max_transfer_size as int,
                    ).len() as int,
                ),
            decreases frames@.len() - i,
        {
            let pair = &frames[i];
            let n = match usb_write_bulk(
                &self.usb,
                self.endpoints.bulk_out_address,
                pair.0.as_slice(),
                self.timeout,
            ) {
                Ok(n) => n,
                Err(e) => { return Err(TMCError::Rusb(e)) },
            };
            match chunk_write_outcome(n, pair.1) {
                Ok(()) => {},
                Err(e) => { return Err(TMCError::Class(e)) },
            }
            i = i + 1;
        }
        Ok(())
    }

    /// Builds the next read-request transfer: advances the tag and encodes
    /// a header asking the device for exactly `size` bytes, carrying the
    /// session's current terminator configuration.
    fn next_read_request(&mut self, size: u32) -> (r: Vec<u8>)
        requires
            old(self).wf(),
        ensures
            final(self).wf(),
            spec_same_config(*old(self), *final(self)),
            final(self).b_tag == spec_next_tag(old(self).b_tag),
            r@ == crate::codec::spec_in_request(
                spec_next_tag(old(self).b_tag),
                size,
                old(self).term_char,
            ),
    {
        self.incr_b_tag();
        encode_request_dev_dep_msg_in(self.b_tag, size, self.term_char)
    }

    /// Reads one logical message: each round trip requests exactly
    /// `spec_read_request_size(transfer_size, max)` bytes with the current
    /// terminator configuration (see `next_read_request`), decodes the
    /// inbound transfer, concatenates the payloads, and stops exactly at
    /// the chunk whose header declares end-of-message.
    pub fn read_raw(&mut self, transfer_size: Option<u32>) -> (r: TMCResult<Vec<u8>>)
        requires
            old(self).wf(),
        ensures
            final(self).wf(),
            spec_same_config(*old(self), *final(self)),
    {
        let size: u32 = read_request_size(transfer_size, self.max_transfer_size);
        let mut read_data: Vec<u8> = Vec::new();
        // The chunk counter bounds the loop; no physical device can send
        // this many chunks before the one declaring end-of-message.
        let mut budget: u64 = 0xFFFF_FFFF_FFFF_FFFF;
        while budget > 0
            invariant
                old(self).wf(),
                self.wf(),
                spec_same_config(*old(self), *self),
                size <= self.max_transfer_size,
            decreases budget,
        {
            budget = budget - 1;
            let req = self.next_read_request(size);
            match usb_write_bulk(
                &self.usb,
                self.endpoints.bulk_out_address,
                req.as_slice(),
                self.timeout,
            ) {
                Ok(_) => {},
                Err(e) => { return Err(TMCError::Rusb(e)) },
            }
            let buf = match usb_read_bulk(
                &self.usb,
                self.endpoints.bulk_in_address,
                HEADER_SIZE + size as usize + 3,
                self.timeout,
            ) {
                Ok(b) => b,
                Err(e) => { return Err(TMCError::Rusb(e)) },
            };
            let (header, payload) = match decode_dev_dep_msg_in(buf.as_slice()) {
                Ok(hp) => hp,
                Err(e) => { return Err(TMCError::Class(e)) },
            };
            crate::codec::push_all(&mut read_data, &payload);
            if header.is_eom() {
                return Ok(read_data);
            }
        }
        Err(TMCError::Class(ClassError::TruncatedHeader))
    }

    /// Writes a command message and reads the response, with no intervening
    /// request between the write half and the read half: the bytes returned
    /// are exactly what a `write_raw` followed immediately by a `read_raw`
    /// yields.
    pub fn ask_raw(&mut self, data: &[u8]) -> (r: TMCResult<Vec<u8>>)
        requires
            old(self).wf(),
        ensures
            final(self).wf(),
            spec_same_config(*old(self), *final(self)),
    {
        self.write_raw(data)?;
        self.read_raw(None)
    }

    /// Writes a UTF-8 command message.
    pub fn write(&mut self, message: &str) -> (r: TMCResult<()>)
        requires
            old(self).wf(),
        ensures
            final(self).wf(),
            spec_same_config(*old(self), *final(self)),
    {
        self.write_raw(message.as_bytes())
    }

    /// Reads one logical message and decodes it as UTF-8 text; data that is
    /// not valid UTF-8 surfaces as a text-encoding error, not a protocol
    /// error.
    pub fn read(&mut self, transfer_size: Option<u32>) -> (r: TMCResult<String>)
        requires
            old(self).wf(),
        ensures
            final(self).wf(),
            spec_same_config(*old(self), *final(self)),
    {
        let data = self.read_raw(transfer_size)?;
        utf8_string(data)
    }

    /// Writes a UTF-8 command message and reads a UTF-8 response, the write
    /// and read halves back to back with no intervening request.
    pub fn ask(&mut self, data: &str) -> (r: TMCResult<String>)
        requires
            old(self).wf(),
        ensures
            final(self).wf(),
            spec_same_config(*old(self), *final(self)),
    {
        self.write_raw(data.as_bytes())?;
        let response = self.read_raw(None)?;
        utf8_string(response)
    }

    /// One status-byte poll round trip: the READ_STATUS_BYTE control request
    /// with a three-byte response, followed — only on a success status — by
    /// a short (10 ms) interrupt-endpoint read; reports whether the
    /// notification byte had the message-available bit (value 16) set.  A
    /// non-success status is not an error: the caller polls again until its
    /// deadline.
    pub fn read_stb_once(&mut self) -> (r: TMCResult<bool>)
        requires
            old(self).wf(),
        ensures
            final(self).wf(),
            spec_same_config(*old(self), *final(self)),
            final(self).b_tag == spec_next_tag(old(self).b_tag),
    {
        let status_buf = self.read_control(ControlRequest::Tmc488ReadStatusByte, 3)?;
        let status_ok = match check_response_status(status_buf.as_slice()) {
            Ok(()) => true,
            Err(_) => false,
        };
        if !status_ok {
            return Ok(false);
        }
        let ep = match self.endpoints.interrupt_in_address {
            Some(e) => e,
            None => 0,
        };
        let data = match usb_read_interrupt(&self.usb, ep, 2, duration_from_millis(10)) {
            Ok(d) => d,
            Err(e) => { return Err(TMCError::Rusb(e)) },
        };
        Ok(stb_notified(data.as_slice()))
    }

    /// Opportunistic identification: asks `"*IDN?"` and stores the trimmed
    /// reply; a failure of this query is not fatal and stores nothing.
    /// Only the identification string and the message tag may change.
    pub fn identify(&mut self)
        requires
            old(self).wf(),
        ensures
            final(self).wf(),
            final(self).usb == old(self).usb,
            final(self).endpoints == old(self).endpoints,
            final(self).max_transfer_size == old(self).max_transfer_size,
            final(self).term_char == old(self).term_char,
            final(self).timeout == old(self).timeout,
            final(self).usbtmc_capabilities == old(self).usbtmc_capabilities,
            final(self).usb488_capabilities == old(self).usb488_capabilities,
            final(self).restore_config == old(self).restore_config,
            final(self).reattach_kernel_driver == old(self).reattach_kernel_driver,
            final(self).closed == old(self).closed,
    {
        let query = "*IDN?";
        match self.ask_raw(query.as_bytes()) {
            Err(_) => {},
            Ok(data) => {
                let trimmed = trim_ascii_ws(&data);
                match utf8_string(trimmed) {
                    Ok(s) => { self.scpi_id = Some(s) },
                    Err(_) => {},
                }
            },
        }
    }

    /// Best-effort, idempotent teardown: releases the claimed interface,
    /// restores the saved configuration where one was recorded, reattaches
    /// every kernel driver recorded as detached.  Each step swallows its own
    /// failure and the next is attempted regardless; nothing is surfaced.
    pub fn close(&mut self)
        ensures
            final(self).closed,
            old(self).closed ==> *final(self) == *old(self),
    {
        if self.closed {
            return ;
        }
        let _ = usb_release_interface(&self.usb, self.endpoints.interface_number);
        if let Some(old_config) = self.restore_config {
            let _ = usb_set_active_configuration(&self.usb, old_config);
        }
        let mut i: usize = 0;
        while i < self.reattach_kernel_driver.len()
            invariant
                i <= self.reattach_kernel_driver@.len(),
            decreases self.reattach_kernel_driver@.len() - i,
        {
            let _ = usb_attach_kernel_driver(&self.usb, self.reattach_kernel_driver[i]);
            i = i + 1;
        }
        self.closed = true;
    }
}

/// Opens the device and prepares the session state up to the claimed
/// interface: captures the active configuration, detaches kernel drivers
/// from every interface of every configuration where the platform allows
/// (recording them for reattachment), keeps the defensive lookup of the old
/// configuration's descriptor (a missing descriptor is tolerated, any other
/// lookup failure propagates), switches and records the configuration where
/// it differs, and claims the interface.  The caller then runs the clear
/// handshake, capability discovery, and the opportunistic identification.
pub fn establish(device: &crate::usb::UsbDevice, endpoints: Endpoints) -> (r:
    TMCResult<InstrumentHandle>)
    ensures
        r matches Ok(h) ==> h.wf() && h.b_tag == 0 && h.max_transfer_size
            == DEFAULT_MAX_TRANSFER_SIZE && h.term_char is None && h.endpoints == endpoints
            && h.usb488_capabilities is None && h.scpi_id is None && !h.closed,
        r matches Ok(h) ==> (h.restore_config matches Some(c) ==> c != endpoints.config_number),
{
    let usb = match usb_open(device) {
        Ok(u) => u,
        Err(e) => { return Err(TMCError::Rusb(e)) },
    };
    let mut handle = InstrumentHandle {
        usb,
        endpoints,
        b_tag: 0,
        max_transfer_size: DEFAULT_MAX_TRANSFER_SIZE,
        term_char: None,
        timeout: duration_from_millis(1000),
        usbtmc_capabilities: USBTMCCapabilities::new(),
        usb488_capabilities: None,
        scpi_id: None,
        restore_config: None,
        reattach_kernel_driver: Vec::new(),
        closed: false,
    };
    let old_config = match usb_active_configuration(&handle.usb) {
        Ok(c) => c,
        Err(e) => { return Err(TMCError::Rusb(e)) },
    };
    if usb_supports_detach_kernel_driver() {
        let num_configs = match usb_num_configurations(device) {
            Ok(n) => n,
            Err(e) => { return Err(TMCError::Rusb(e)) },
        };
        let mut config: u8 = 0;
        while config < num_configs
            invariant
                handle.b_tag == 0,
                handle.max_transfer_size == DEFAULT_MAX_TRANSFER_SIZE,
                handle.term_char is None,
                handle.endpoints == endpoints,
                handle.usb488_capabilities is None,
                handle.scpi_id is None,
                handle.restore_config is None,
                !handle.closed,
                handle.wf(),
            decreases num_configs - config,
        {
            let num_ifaces = match usb_num_interfaces(device, config) {
                Ok(n) => n,
                Err(e) => { return Err(TMCError::Rusb(e)) },
            };
            let mut iface: u8 = 0;
            while iface < num_ifaces
                invariant
                    handle.b_tag == 0,
                    handle.max_transfer_size == DEFAULT_MAX_TRANSFER_SIZE,
                    handle.term_char is None,
                    handle.endpoints == endpoints,
                    handle.usb488_capabilities is None,
                    handle.scpi_id is None,
                    handle.restore_config is None,
                    !handle.closed,
                    handle.wf(),
                decreases num_ifaces - iface,
            {
                let active = match usb_kernel_driver_active(&handle.usb, iface) {
                    Ok(a) => a,
                    Err(e) => { return Err(TMCError::Rusb(e)) },
                };
                if active {
                    handle.reattach_kernel_driver.push(iface);
                    match usb_detach_kernel_driver(&handle.usb, iface) {
                        Ok(()) => {},
                        Err(e) => { return Err(TMCError::Rusb(e)) },
                    }
                }
                iface = iface + 1;
            }
            config = config + 1;
        }
    }
    if old_config != 0 {
        // Defensive check kept from the connection procedure: a missing
        // descriptor for the old configuration is tolerated, any other
        // lookup failure propagates; a found descriptor is not used.
        match usb_lookup_config(device, old_config) {
            Ok(()) => {},
            Err(TransportError::NotFound) => {},
            Err(e) => { return Err(TMCError::Rusb(e)) },
        }
    }
    match config_switch_plan(old_config, endpoints.config_number) {
        Some(previous) => {
            handle.restore_config = Some(previous);
            match usb_set_active_configuration(&handle.usb, endpoints.config_number) {
                Ok(()) => {},
                Err(e) => { return Err(TMCError::Rusb(e)) },
            }
        },
        None => {},
    }
    match usb_claim_interface(&handle.usb, endpoints.interface_number) {
        Ok(()) => {},
        Err(e) => { return Err(TMCError::Rusb(e)) },
    }
    Ok(handle)
}

/// Decides the configuration switch at connection: the previously active
/// configuration is recorded for restoration at teardown exactly when it
/// differs from the target, which is then made active; matching
/// configurations need no switch and record nothing.
pub fn config_switch_plan(active_config: u8, target_config: u8) -> (r: Option<u8>)
    ensures
        active_config != target_config ==> r == Some(active_config),
        active_config == target_config ==> r == None::<u8>,
{
    if active_config != target_config {
        Some(active_config)
    } else {
        None
    }
}

/// Validates a terminator choice against the capability set: the zero byte
/// is always invalid, a non-empty terminator needs terminator support, and
/// clearing the terminator is always accepted.
pub fn validate_term_char(term_char: Option<u8>, caps: &USBTMCCapabilities) -> (r: Result<
    (),
    ClassError,
>)
    ensures
        term_char == Some(0u8) ==> r == Err::<(), ClassError>(ClassError::InvalidTermChar),
        term_char is Some && term_char != Some(0u8) && !caps.term_char ==> r == Err::<
            (),
            ClassError,
        >(ClassError::UnsupportedFeature),
        term_char is None || (term_char != Some(0u8) && caps.term_char) ==> r == Ok::<
            (),
            ClassError,
        >(()),
{
    match term_char {
        None => Ok(()),
        Some(t) => {
            if t == 0 {
                Err(ClassError::InvalidTermChar)
            } else if !caps.term_char {
                Err(ClassError::UnsupportedFeature)
            } else {
                Ok(())
            }
        },
    }
}

/// Whether a byte is ASCII whitespace: space, tab, line feed, carriage
/// return.
pub open spec fn spec_is_ascii_ws(b: u8) -> bool {
    b == 32 || b == 9 || b == 10 || b == 13
}

/// `s` with its leading ASCII whitespace removed.
pub open spec fn spec_trim_front(s: Seq<u8>) -> Seq<u8>
    decreases s.len(),
{
    if s.len() > 0 && spec_is_ascii_ws(s[0]) {
        spec_trim_front(s.drop_first())
    } else {
        s
    }
}

/// `s` with its trailing ASCII whitespace removed.
pub open spec fn spec_trim_back(s: Seq<u8>) -> Seq<u8>
    decreases s.len(),
{
    if s.len() > 0 && spec_is_ascii_ws(s[s.len() - 1]) {
        spec_trim_back(s.drop_last())
    } else {
        s
    }
}

/// `s` with ASCII whitespace removed from both ends.
pub open spec fn spec_trim(s: Seq<u8>) -> Seq<u8> {
    spec_trim_back(spec_trim_front(s))
}

proof fn lemma_trim_front_skip(s: Seq<u8>, i: int)
    requires
        0 <= i <= s.len(),
        forall|k: int| 0 <= k < i ==> spec_is_ascii_ws(s[k]),
        i < s.len() ==> !spec_is_ascii_ws(s[i]),
    ensures
        spec_trim_front(s) == s.skip(i),
    decreases i,
{
    if i == 0 {
        assert(s.skip(0) =~= s);
    } else {
        assert(spec_is_ascii_ws(s[0]));
        lemma_trim_front_skip(s.drop_first(), i - 1);
        assert(s.drop_first().skip(i - 1) =~= s.skip(i));
    }
}

proof fn lemma_trim_back_take(s: Seq<u8>, j: int)
    requires
        0 <= j <= s.len(),
        forall|k: int| j <= k < s.len() ==> spec_is_ascii_ws(s[k]),
        j > 0 ==> !spec_is_ascii_ws(s[j - 1]),
    ensures
        spec_trim_back(s) == s.take(j),
    decreases s.len() - j,
{
    if j == s.len() {
        assert(s.take(j) =~= s);
        if s.len() > 0 {
            assert(!spec_is_ascii_ws(s[s.len() - 1]));
        }
    } else {
        assert(spec_is_ascii_ws(s[s.len() - 1]));
        lemma_trim_back_take(s.drop_last(), j);
        assert(s.drop_last().take(j) =~= s.take(j));
    }
}

/// Removes ASCII whitespace from both ends of a byte string.
pub fn trim_ascii_ws(data: &Vec<u8>) -> (r: Vec<u8>)
    ensures
        r@ == spec_trim(data@),
{
    let mut start: usize = 0;
    while start < data.len() && (data[start] == 32 || data[start] == 9 || data[start] == 10
        || data[start] == 13)
        invariant
            start <= data@.len(),
            forall|k: int| 0 <= k < start ==> spec_is_ascii_ws(data@[k]),
        decreases data@.len() - start,
    {
        start = start + 1;
    }
    proof {
        lemma_trim_front_skip(data@, start as int);
    }
    let mut end: usize = data.len();
    while end > start && (data[end - 1] == 32 || data[end - 1] == 9 || data[end - 1] == 10 || data[
        end - 1] == 13)
        invariant
            start <= end <= data@.len(),
            forall|k: int| end <= k < data@.len() ==> spec_is_ascii_ws(data@[k]),
        decreases end,
    {
        end = end - 1;
    }
    let mut out: Vec<u8> = Vec::new();
    let mut i: usize = start;
    while i < end
        invariant
            start <= i <= end <= data@.len(),
            out@ == data@.subrange(start as int, i as int),
        decreases end - i,
    {
        out.push(data[i]);
        i = i + 1;
        assert(out@ =~= data@.subrange(start as int, i as int));
    }
    proof {
        let front = data@.skip(start as int);
        if end > start {
            assert(!spec_is_ascii_ws(data@[end - 1]));
        }
        lemma_trim_back_take(front, end - start);
        assert(front.take(end - start) =~= data@.subrange(start as int, end as int));
    }
    out
}

/// Relies on String::from_utf8: it succeeds exactly on valid UTF-8 and the
/// string's characters are the decoding of the bytes.
#[verifier::external_body]
fn utf8_string(data: Vec<u8>) -> (r: TMCResult<String>)
    ensures
        r matches Ok(s) ==> vstd::utf8::valid_utf8(data@) && s@ == vstd::utf8::decode_utf8(data@),
        r matches Err(e) ==> !vstd::utf8::valid_utf8(data@) && e == TMCError::FromUtf8Error,
{
    String::from_utf8(data).map_err(|_| TMCError::FromUtf8Error)
}

} // verus!
