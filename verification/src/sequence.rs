//! Whole operations: the session's transitions chained over the answers of
//! the transport. Nothing here runs; it states what every caller that
//! drives the session step by step will see.

use vstd::prelude::*;
use crate::constants::{GS_CAN_FEATURE_FD, GS_CAN_MODE_START};
use crate::device::{
    lemma_effective_flags_supported, mode_command, spec_effective_flags, SessionState,
};
use crate::error::{GsUsbError, UsbError};
use crate::structures::{DeviceBitTiming, DeviceCapability};
use crate::timing::{
    lemma_resolve_data_supported, lemma_resolve_supported, spec_resolve, spec_resolve_data,
};
use crate::transfer::{AfterCommand, AfterFetch, CommandView, Goal, OutcomeView, StepView};

verus! {

/// What the transport answers to one request. Of the four answers, the one
/// that fits the request is looked at.
pub struct Answer {
    /// To a command.
    pub command: Result<(), UsbError>,
    /// To the question whether a kernel driver is active.
    pub driver_active: Result<bool, UsbError>,
    /// To a fetch.
    pub bytes: Result<Seq<u8>, UsbError>,
    /// To the serial number request.
    pub serial_number: Result<Option<Seq<char>>, UsbError>,
}

/// Largest number of transfers that an operation can still take once the
/// capability is known.
pub open spec fn transfers_after_capability(goal: Goal) -> nat {
    match goal {
        Goal::Capability => 0,
        Goal::SupportsFd => 0,
        Goal::SupportsGetState => 0,
        Goal::ExtendedCapability => 1,
        Goal::GetState { .. } => 1,
        Goal::Bitrate { .. } => 1,
        Goal::DataBitrate { .. } => 1,
    }
}

/// Largest number of transfers that an operation can still take from a
/// step on: six at the outset of `start`, two for an operation that reads
/// the capability first, one for every other, none once it is over.
pub open spec fn transfers_left(step: StepView) -> nat {
    match step {
        StepView::Finished(_) => 0,
        StepView::SerialNumber => 1,
        StepView::KernelDriverQuery { .. } => 5,
        StepView::Command(_, after) => match after {
            AfterCommand::StartReset { .. } => 6,
            AfterCommand::StartDetach { .. } => 4,
            AfterCommand::StartClaim { .. } => 3,
            _ => 1,
        },
        StepView::Fetch(_, after) => match after {
            AfterFetch::Capability(goal) => 1 + transfers_after_capability(goal),
            AfterFetch::StartCapability { .. } => 2,
            _ => 1,
        },
    }
}

impl SessionState {
    /// The session and the next step after the transport answered the
    /// request of `step`. A finished operation stays as it is.
    pub open spec fn advance(self, step: StepView, answer: Answer) -> (SessionState, StepView) {
        match step {
            StepView::Finished(_) => (self, step),
            StepView::Command(_, after) => self.after_command(after, answer.command),
            StepView::KernelDriverQuery { interface, flags } => self.after_kernel_driver_query(
                flags,
                answer.driver_active,
            ),
            StepView::Fetch(_, after) => self.after_fetch(after, answer.bytes),
            StepView::SerialNumber => self.after_serial_number(answer.serial_number),
        }
    }

    /// The session and the step reached from `step` after at most `limit`
    /// transfers, the transport's answers being `answers(from)`,
    /// `answers(from + 1)` and so on.
    pub open spec fn run(
        self,
        step: StepView,
        answers: spec_fn(nat) -> Answer,
        from: nat,
        limit: nat,
    ) -> (SessionState, StepView)
        decreases limit,
    {
        if limit == 0 || step is Finished {
            (self, step)
        } else {
            let (next, then) = self.advance(step, answers(from));
            next.run(then, answers, from + 1, (limit - 1) as nat)
        }
    }
}

/// Every transfer brings an operation nearer to its end, whatever the
/// transport answers.
pub proof fn lemma_advance_makes_progress(s: SessionState, step: StepView, answer: Answer)
    requires
        !(step is Finished),
    ensures
        transfers_left(s.advance(step, answer).1) < transfers_left(step),
        transfers_left(step) <= 6,
{
}

/// Every operation comes to an end, whatever the transport answers: from a
/// step on, it is over after at most `transfers_left` transfers, so after
/// six at the most.
pub proof fn lemma_run_finishes(
    s: SessionState,
    step: StepView,
    answers: spec_fn(nat) -> Answer,
    from: nat,
    limit: nat,
)
    requires
        limit >= transfers_left(step),
    ensures
        s.run(step, answers, from, limit).1 is Finished,
    decreases limit,
{
    if limit != 0 && !(step is Finished) {
        let (next, then) = s.advance(step, answers(from));
        lemma_advance_makes_progress(s, step, answers(from));
        lemma_run_finishes(next, then, answers, from + 1, (limit - 1) as nat);
    }
}

/// The first step of `start`.
pub open spec fn start_step(flags: u32) -> StepView {
    StepView::Command(CommandView::Reset, AfterCommand::StartReset { flags })
}

/// What `start` comes to, whatever the transport answers. Where it
/// succeeds, the session is started, the capability is cached, and the
/// flags in effect are exactly the requested ones that the cached
/// capability's features and the driver's mask both hold: no flag that the
/// device lacks is ever in effect. Where it fails, the session is as
/// started as it was before.
pub proof fn lemma_start_outcome(s: SessionState, flags: u32, answers: spec_fn(nat) -> Answer)
    ensures
        ({
            let (t, end) = s.run(start_step(flags), answers, 0, 6);
            &&& end is Finished
            &&& end == StepView::Finished(Ok(OutcomeView::Done)) ==> {
                &&& t.started
                &&& t.capability matches Some(cap)
                &&& t.device_flags == spec_effective_flags(flags, cap.feature)
                &&& t.device_flags & !cap.feature == 0
                &&& s.capability is Some ==> t.capability == s.capability
            }
            &&& end != StepView::Finished(Ok(OutcomeView::Done)) ==> {
                &&& end matches StepView::Finished(Err(_))
                &&& t.started == s.started
            }
            &&& t.last_timing == s.last_timing
            &&& t.last_data_timing == s.last_data_timing
            &&& t.serial_number == s.serial_number
        }),
{
    reveal_with_fuel(SessionState::run, 7);
    lemma_run_finishes(s, start_step(flags), answers, 0, 6);
    let (t, end) = s.run(start_step(flags), answers, 0, 6);
    if let Some(cap) = t.capability {
        lemma_effective_flags_supported(flags, cap.feature);
    }
}

/// A `start` in which every transfer succeeds, and the capability response
/// has its forty bytes, succeeds; the start mode that is sent last carries
/// the flags that take effect.
pub proof fn lemma_start_succeeds(
    s: SessionState,
    flags: u32,
    answers: spec_fn(nat) -> Answer,
    bytes: Seq<u8>,
)
    requires
        bytes.len() >= 40,
        forall|i: nat| #[trigger] answers(i).command is Ok,
        forall|i: nat| #[trigger] answers(i).bytes == Ok::<Seq<u8>, UsbError>(bytes),
    ensures
        ({
            let cap = match s.capability {
                Some(cap) => cap,
                None => DeviceCapability::spec_unpack(bytes),
            };
            let effective = spec_effective_flags(flags, cap.feature);
            &&& s.run(start_step(flags), answers, 0, 6) == (
                SessionState {
                    capability: Some(cap),
                    device_flags: effective,
                    started: true,
                    ..s
                },
                StepView::Finished(Ok(OutcomeView::Done)),
            )
            &&& exists|n: nat|
                n < 6 && (#[trigger] s.run(start_step(flags), answers, 0, n)).1
                    == StepView::Command(
                    mode_command(GS_CAN_MODE_START, effective),
                    AfterCommand::StartMode,
                )
        }),
{
    reveal_with_fuel(SessionState::run, 7);
    assert(answers(0).command is Ok);
    assert(answers(1).command is Ok);
    assert(answers(2).command is Ok);
    assert(answers(3).command is Ok);
    assert(answers(4).command is Ok);
    assert(answers(5).command is Ok);
    assert(answers(3).bytes == Ok::<Seq<u8>, UsbError>(bytes));
    assert(answers(4).bytes == Ok::<Seq<u8>, UsbError>(bytes));
    let cap = match s.capability {
        Some(cap) => cap,
        None => DeviceCapability::spec_unpack(bytes),
    };
    let effective = spec_effective_flags(flags, cap.feature);
    let mode = StepView::Command(
        mode_command(GS_CAN_MODE_START, effective),
        AfterCommand::StartMode,
    );
    let detached = answers(1).driver_active == Ok::<bool, UsbError>(true);
    let fetched = s.capability is None;
    let n: nat = if detached && fetched {
        5
    } else if detached || fetched {
        4
    } else {
        3
    };
    assert(s.run(start_step(flags), answers, 0, n).1 == mode);
}

/// What applying a nominal bitrate comes to, whatever the transport
/// answers. Where it succeeds, the timing recorded as applied last is the
/// one that the resolver gives for the cached capability's clock. Where it
/// fails, the recorded timing is what it was; a bitrate that the tables
/// lack fails with `UnsupportedBitrate` once the capability is known.
pub proof fn lemma_set_bitrate_outcome(
    s: SessionState,
    bitrate: u32,
    sample_point_tenths: u32,
    answers: spec_fn(nat) -> Answer,
)
    ensures
        ({
            let first = s.with_capability(Goal::Bitrate { bitrate, sample_point_tenths });
            let (t, end) = s.run(first, answers, 0, 2);
            &&& end is Finished
            &&& end == StepView::Finished(Ok(OutcomeView::Done)) ==> {
                &&& t.capability matches Some(cap)
                &&& spec_resolve(cap.fclk_can, bitrate, sample_point_tenths)
                    == Ok::<DeviceBitTiming, GsUsbError>(
                    t.last_timing->Some_0,
                )
                &&& t.last_timing is Some
            }
            &&& end != StepView::Finished(Ok(OutcomeView::Done)) ==> {
                &&& end matches StepView::Finished(Err(_))
                &&& t.last_timing == s.last_timing
            }
            &&& t.capability matches Some(cap) ==> (spec_resolve(
                cap.fclk_can,
                bitrate,
                sample_point_tenths,
            ) is Err ==> end == StepView::Finished(
                Err(GsUsbError::UnsupportedBitrate { bitrate, clock_hz: cap.fclk_can }),
            ))
            &&& t.last_data_timing == s.last_data_timing
            &&& t.device_flags == s.device_flags
            &&& t.started == s.started
        }),
{
    reveal_with_fuel(SessionState::run, 3);
    let first = s.with_capability(Goal::Bitrate { bitrate, sample_point_tenths });
    lemma_run_finishes(s, first, answers, 0, 2);
    let (t, end) = s.run(first, answers, 0, 2);
    if let Some(cap) = t.capability {
        lemma_resolve_supported(cap.fclk_can, bitrate, sample_point_tenths);
    }
}

/// What applying a data phase bitrate comes to, whatever the transport
/// answers. A device whose capability lacks the CAN FD feature refuses
/// with `FdNotSupported`, whatever its clock. Where the operation
/// succeeds, the device has the feature and the data phase timing recorded
/// as applied last is the one that the resolver gives for the cached
/// capability's clock. Where it fails, the recorded timing is what it was.
pub proof fn lemma_set_data_bitrate_outcome(
    s: SessionState,
    bitrate: u32,
    sample_point_tenths: u32,
    answers: spec_fn(nat) -> Answer,
)
    ensures
        ({
            let first = s.with_capability(Goal::DataBitrate { bitrate, sample_point_tenths });
            let (t, end) = s.run(first, answers, 0, 2);
            &&& end is Finished
            &&& end == StepView::Finished(Ok(OutcomeView::Done)) ==> {
                &&& t.capability matches Some(cap)
                &&& cap.feature & GS_CAN_FEATURE_FD != 0
                &&& spec_resolve_data(cap.fclk_can, bitrate, sample_point_tenths)
                    == Ok::<DeviceBitTiming, GsUsbError>(
                    t.last_data_timing->Some_0,
                )
                &&& t.last_data_timing is Some
            }
            &&& end != StepView::Finished(Ok(OutcomeView::Done)) ==> {
                &&& end matches StepView::Finished(Err(_))
                &&& t.last_data_timing == s.last_data_timing
            }
            &&& t.capability matches Some(cap) ==> (cap.feature & GS_CAN_FEATURE_FD == 0 ==> end
                == StepView::Finished(Err(GsUsbError::FdNotSupported)))
            &&& t.last_timing == s.last_timing
            &&& t.device_flags == s.device_flags
            &&& t.started == s.started
        }),
{
    reveal_with_fuel(SessionState::run, 3);
    let first = s.with_capability(Goal::DataBitrate { bitrate, sample_point_tenths });
    lemma_run_finishes(s, first, answers, 0, 2);
    let (t, end) = s.run(first, answers, 0, 2);
    if let Some(cap) = t.capability {
        lemma_resolve_data_supported(cap.fclk_can, bitrate, sample_point_tenths);
    }
}

} // verus!
