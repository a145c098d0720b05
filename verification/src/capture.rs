//! The capture engine: the state machine that finds the target process,
//! acquires a capture device for it, streams from it, and starts over after
//! any failure.
//!
//! The engine decides; the caller acts. Each state has one pending action,
//! which the caller performs before reporting what happened as an event.

use vstd::prelude::*;
use crate::chunking::{chunk_bytes, chunk_len};

verus! {

/// Pause before the process listing is searched again, in milliseconds.
pub const TARGET_POLL_BACKOFF_MS: u64 = 1500;

/// Pause after the device could not be set up, in milliseconds.
pub const DEVICE_RETRY_BACKOFF_MS: u64 = 1500;

/// Pause after a running stream broke, in milliseconds.
pub const STREAM_RESTART_BACKOFF_MS: u64 = 1000;

/// Longest wait for the device to signal new data, in milliseconds.
pub const DATA_WAIT_TIMEOUT_MS: u32 = 1_000_000;

/// Number of chunks that the queue between capture and sender holds.
pub const CAPTURE_QUEUE_CAPACITY: usize = 128;

/// Bits that one sample of one channel takes, all of them significant.
pub const SAMPLE_BITS: u16 = 16;

/// Length of the device buffer, in units of 100 nanoseconds.
pub const BUFFER_DURATION_HNS: i64 = 200_000;

/// Number of chunks that the byte queue is given room for.
pub const BYTE_QUEUE_CHUNKS: usize = 8;

/// What the capture engine is told once, when it is made.
#[derive(Clone, Copy, Debug, PartialEq, Eq, Structural)]
pub struct CaptureConfig {
    /// The target process, if the operator named one.
    pub process_id: Option<u32>,
    /// Whether the target's descendant processes are captured too.
    pub include_tree: bool,
    /// Number of interleaved channels.
    pub channels: u8,
    /// Samples per second.
    pub sample_rate: u16,
    /// Frame duration in milliseconds.
    pub frame_ms: u16,
}

/// How one sample is stored.
#[derive(Clone, Copy, Debug, PartialEq, Eq, Structural)]
pub enum SampleKind {
    /// A signed integer.
    Int,
    /// A floating-point number.
    Float,
}

/// Which way a stream runs.
#[derive(Clone, Copy, Debug, PartialEq, Eq, Structural)]
pub enum StreamDirection {
    /// From the device to the program.
    Capture,
    /// From the program to the device.
    Render,
}

/// Whether the device is shared with other programs.
#[derive(Clone, Copy, Debug, PartialEq, Eq, Structural)]
pub enum SharingMode {
    /// Other programs use the device too.
    Shared,
    /// The stream has the device to itself.
    Exclusive,
}

/// How the program learns that the device has data.
#[derive(Clone, Copy, Debug, PartialEq, Eq, Structural)]
pub enum TimingMode {
    /// The device signals an event.
    Events,
    /// The program asks at intervals.
    Polling,
}

/// The stream that is requested of the capture device.
#[derive(Clone, Copy, Debug, PartialEq, Eq, Structural)]
pub struct StreamFormat {
    /// Bits that one sample is stored in.
    pub store_bits: u16,
    /// Bits of a stored sample that are significant.
    pub valid_bits: u16,
    /// How one sample is stored.
    pub sample_kind: SampleKind,
    /// Samples per second.
    pub sample_rate: u16,
    /// Number of interleaved channels.
    pub channels: u8,
    /// Which way the stream runs.
    pub direction: StreamDirection,
    /// Whether the device is shared.
    pub sharing: SharingMode,
    /// How the program learns of new data.
    pub timing: TimingMode,
    /// Whether the device converts between its own format and this one.
    pub autoconvert: bool,
    /// Length of the device buffer, in units of 100 nanoseconds.
    pub buffer_duration_hns: i64,
}

/// The steps of setting up the device, in the order they are taken.
#[derive(Clone, Copy, Debug, PartialEq, Eq, Structural)]
pub enum InitStage {
    /// Joining the multithreaded apartment.
    InitializeMta,
    /// Creating the loopback client bound to the target process.
    CreateClient,
    /// Configuring the stream format and buffering mode.
    InitializeClient,
    /// Obtaining the event handle that signals new data.
    EventHandle,
    /// Obtaining the capture client.
    CaptureClient,
    /// Starting the stream.
    StartStream,
}

/// Where a running stream stands in its cycle.
#[derive(Clone, Copy, Debug, PartialEq, Eq, Structural)]
pub enum StreamPhase {
    /// Starting on an empty byte queue.
    Starting,
    /// Reading what the device has into the byte queue.
    Reading,
    /// Handing full chunks from the byte queue to the sender.
    Draining,
    /// Waiting for the device to signal new data.
    Waiting,
}

/// Why the engine is backing off.
#[derive(Clone, Copy, Debug, PartialEq, Eq, Structural)]
pub enum FailureCause {
    /// A step of setting up the device failed.
    Device(InitStage),
    /// Reading from the device failed.
    Read,
    /// Waiting for the device's signal failed.
    Wait,
}

impl FailureCause {
    /// What failed, in the words of the operator's log.
    pub open spec fn spec_label(self) -> Seq<char> {
        match self {
            FailureCause::Device(InitStage::InitializeMta) => "initialize_mta"@,
            FailureCause::Device(InitStage::CreateClient) => "Loopback client create"@,
            FailureCause::Device(InitStage::InitializeClient) => "initialize_client"@,
            FailureCause::Device(InitStage::EventHandle) => "set_get_eventhandle"@,
            FailureCause::Device(InitStage::CaptureClient) => "get_audiocaptureclient"@,
            FailureCause::Device(InitStage::StartStream) => "start_stream"@,
            FailureCause::Read => "read_from_device_to_deque"@,
            FailureCause::Wait => "event wait"@,
        }
    }

    /// What failed, for the operator's log.
    pub fn label(self) -> (r: &'static str)
        ensures
            r@ == self.spec_label(),
    {
        match self {
            FailureCause::Device(stage) => match stage {
                InitStage::InitializeMta => "initialize_mta",
                InitStage::CreateClient => "Loopback client create",
                InitStage::InitializeClient => "initialize_client",
                InitStage::EventHandle => "set_get_eventhandle",
                InitStage::CaptureClient => "get_audiocaptureclient",
                InitStage::StartStream => "start_stream",
            },
            FailureCause::Read => "read_from_device_to_deque",
            FailureCause::Wait => "event wait",
        }
    }
}

/// The states of the capture engine.
#[derive(Clone, Copy, Debug, PartialEq, Eq, Structural)]
pub enum CaptureState {
    /// Not started.
    Idle,
    /// Looking for the target process; `missed` once a search found none.
    ResolvingTarget { missed: bool },
    /// Setting up the capture device for the target.
    InitializingDevice { pid: u32 },
    /// Capturing.
    Streaming { pid: u32, phase: StreamPhase },
    /// Backing off after a failure, before starting over.
    Failed { cause: FailureCause },
    /// The consumer is gone; the engine has ended.
    Stopped,
    /// The platform has no native capture; the engine never produces a chunk.
    Unsupported,
}

/// What the caller reports to the engine.
#[derive(Clone, Copy, Debug, PartialEq, Eq, Structural)]
pub enum CaptureEvent {
    /// The engine is started.
    Start,
    /// The running processes were listed afresh and searched for the target,
    /// with this result.
    TargetSearched(Option<u32>),
    /// Every step of the device setup succeeded.
    DeviceReady,
    /// The byte queue was replaced by an empty one.
    QueueReset,
    /// The given step of the device setup failed.
    DeviceFailed(InitStage),
    /// The device's bytes were appended to the byte queue.
    ReadDone,
    /// Reading from the device failed.
    ReadFailed,
    /// A chunk was handed to the sender.
    ChunkSent,
    /// The byte queue holds less than one chunk.
    QueueDrained,
    /// The sender's side of the chunk queue is closed for good.
    ConsumerClosed,
    /// The device signalled new data.
    WaitDone,
    /// Waiting for the device's signal failed.
    WaitFailed,
    /// The pause of a back-off is over.
    BackoffElapsed,
}

/// What the engine asks of the caller.
#[derive(Clone, Copy, Debug, PartialEq, Eq, Structural)]
pub enum CaptureAction {
    /// Nothing, until the engine is started.
    AwaitStart,
    /// Pause for `delay_ms`, then list the running processes afresh and
    /// search them for the target.
    SearchTarget { delay_ms: u64 },
    /// Set the capture device up for process `pid`, with a stream of the
    /// given format.
    OpenDevice { pid: u32, include_tree: bool, format: StreamFormat },
    /// Replace the byte queue by an empty one with room for `capacity` bytes:
    /// nothing read from an earlier stream is carried over.
    ResetQueue { capacity: usize },
    /// Append what the device has to the byte queue.
    ReadDevice,
    /// Take the next chunk off the byte queue and hand it to the sender,
    /// waiting for room if the chunk queue is full.
    SendChunk,
    /// Wait up to `timeout_ms` for the device to signal new data.
    WaitForData { timeout_ms: u32 },
    /// Stop the stream if `stop_stream`, tell the operator the cause, and
    /// pause for `delay_ms`.
    Backoff { cause: FailureCause, delay_ms: u64, stop_stream: bool },
    /// Stop the stream and end.
    Shutdown,
    /// Tell the operator that capture is unavailable, and end.
    ReportUnsupported,
}

/// The state in which the search for the target begins: with a target named
/// by the operator there is nothing to search for.
pub open spec fn resolution_entry(config: CaptureConfig) -> CaptureState {
    match config.process_id {
        Some(pid) => CaptureState::InitializingDevice { pid },
        None => CaptureState::ResolvingTarget { missed: false },
    }
}

/// The stream that is requested of the device: 16-bit signed integer samples
/// at the configured rate and channel count, captured in shared mode with
/// event-driven timing, the device converting where its own format differs.
pub open spec fn format_of(config: CaptureConfig) -> StreamFormat {
    StreamFormat {
        store_bits: SAMPLE_BITS,
        valid_bits: SAMPLE_BITS,
        sample_kind: SampleKind::Int,
        sample_rate: config.sample_rate,
        channels: config.channels,
        direction: StreamDirection::Capture,
        sharing: SharingMode::Shared,
        timing: TimingMode::Events,
        autoconvert: true,
        buffer_duration_hns: BUFFER_DURATION_HNS,
    }
}

/// The room that a fresh byte queue is given: eight chunks, or as much as a
/// size can say where eight chunks are more.
pub open spec fn queue_capacity(config: CaptureConfig) -> usize {
    let wanted = chunk_len(config.channels, config.sample_rate, config.frame_ms) * 8;
    if wanted > usize::MAX {
        usize::MAX
    } else {
        wanted as usize
    }
}

/// The state that follows `state` on `event`. An event that the state does
/// not wait for changes nothing.
pub open spec fn next_state(
    config: CaptureConfig,
    native: bool,
    state: CaptureState,
    event: CaptureEvent,
) -> CaptureState {
    match (state, event) {
        (CaptureState::Idle, CaptureEvent::Start) => if native {
            resolution_entry(config)
        } else {
            CaptureState::Unsupported
        },
        (CaptureState::ResolvingTarget { .. }, CaptureEvent::TargetSearched(found)) => match found {
            Some(pid) => CaptureState::InitializingDevice { pid },
            None => CaptureState::ResolvingTarget { missed: true },
        },
        (CaptureState::InitializingDevice { pid }, CaptureEvent::DeviceReady) => {
            CaptureState::Streaming { pid, phase: StreamPhase::Starting }
        },
        (
            CaptureState::Streaming { pid, phase: StreamPhase::Starting },
            CaptureEvent::QueueReset,
        ) => CaptureState::Streaming { pid, phase: StreamPhase::Reading },
        (CaptureState::InitializingDevice { .. }, CaptureEvent::DeviceFailed(stage)) => {
            CaptureState::Failed { cause: FailureCause::Device(stage) }
        },
        (
            CaptureState::Streaming { pid, phase: StreamPhase::Reading },
            CaptureEvent::ReadDone,
        ) => CaptureState::Streaming { pid, phase: StreamPhase::Draining },
        (
            CaptureState::Streaming { phase: StreamPhase::Reading, .. },
            CaptureEvent::ReadFailed,
        ) => CaptureState::Failed { cause: FailureCause::Read },
        (
            CaptureState::Streaming { pid, phase: StreamPhase::Draining },
            CaptureEvent::QueueDrained,
        ) => CaptureState::Streaming { pid, phase: StreamPhase::Waiting },
        (
            CaptureState::Streaming { phase: StreamPhase::Draining, .. },
            CaptureEvent::ConsumerClosed,
        ) => CaptureState::Stopped,
        (
            CaptureState::Streaming { pid, phase: StreamPhase::Waiting },
            CaptureEvent::WaitDone,
        ) => CaptureState::Streaming { pid, phase: StreamPhase::Reading },
        (
            CaptureState::Streaming { phase: StreamPhase::Waiting, .. },
            CaptureEvent::WaitFailed,
        ) => CaptureState::Failed { cause: FailureCause::Wait },
        (CaptureState::Failed { .. }, CaptureEvent::BackoffElapsed) => resolution_entry(config),
        _ => state,
    }
}

/// The pause that a failure is followed by, in milliseconds.
pub open spec fn backoff_ms(cause: FailureCause) -> u64 {
    match cause {
        FailureCause::Device(_) => DEVICE_RETRY_BACKOFF_MS,
        FailureCause::Read => STREAM_RESTART_BACKOFF_MS,
        FailureCause::Wait => STREAM_RESTART_BACKOFF_MS,
    }
}

/// The action that a state waits on.
pub open spec fn action_of(config: CaptureConfig, state: CaptureState) -> CaptureAction {
    match state {
        CaptureState::Idle => CaptureAction::AwaitStart,
        CaptureState::ResolvingTarget { missed } => CaptureAction::SearchTarget {
            delay_ms: if missed {
                TARGET_POLL_BACKOFF_MS
            } else {
                0
            },
        },
        CaptureState::InitializingDevice { pid } => CaptureAction::OpenDevice {
            pid,
            include_tree: config.include_tree,
            format: format_of(config),
        },
        CaptureState::Streaming { phase: StreamPhase::Starting, .. } => CaptureAction::ResetQueue {
            capacity: queue_capacity(config),
        },
        CaptureState::Streaming { phase: StreamPhase::Reading, .. } => CaptureAction::ReadDevice,
        CaptureState::Streaming { phase: StreamPhase::Draining, .. } => CaptureAction::SendChunk,
        CaptureState::Streaming { phase: StreamPhase::Waiting, .. } => CaptureAction::WaitForData {
            timeout_ms: DATA_WAIT_TIMEOUT_MS,
        },
        CaptureState::Failed { cause } => CaptureAction::Backoff {
            cause,
            delay_ms: backoff_ms(cause),
            stop_stream: !(cause is Device),
        },
        CaptureState::Stopped => CaptureAction::Shutdown,
        CaptureState::Unsupported => CaptureAction::ReportUnsupported,
    }
}

/// Where the search for the target begins.
fn enter_resolution(config: &CaptureConfig) -> (r: CaptureState)
    ensures
        r == resolution_entry(*config),
{
    match config.process_id {
        Some(pid) => CaptureState::InitializingDevice { pid },
        None => CaptureState::ResolvingTarget { missed: false },
    }
}

/// The state that follows `state` on `event`.
pub fn advance(config: &CaptureConfig, native: bool, state: CaptureState, event: CaptureEvent) -> (r:
    CaptureState)
    ensures
        r == next_state(*config, native, state, event),
{
    match state {
        CaptureState::Idle => match event {
            CaptureEvent::Start => if native {
                enter_resolution(config)
            } else {
                CaptureState::Unsupported
            },
            _ => state,
        },
        CaptureState::ResolvingTarget { .. } => match event {
            CaptureEvent::TargetSearched(found) => match found {
                Some(pid) => CaptureState::InitializingDevice { pid },
                None => CaptureState::ResolvingTarget { missed: true },
            },
            _ => state,
        },
        CaptureState::InitializingDevice { pid } => match event {
            CaptureEvent::DeviceReady => CaptureState::Streaming {
                pid,
                phase: StreamPhase::Starting,
            },
            CaptureEvent::DeviceFailed(stage) => CaptureState::Failed {
                cause: FailureCause::Device(stage),
            },
            _ => state,
        },
        CaptureState::Streaming { pid, phase } => match phase {
            StreamPhase::Starting => match event {
                CaptureEvent::QueueReset => CaptureState::Streaming {
                    pid,
                    phase: StreamPhase::Reading,
                },
                _ => state,
            },
            StreamPhase::Reading => match event {
                CaptureEvent::ReadDone => CaptureState::Streaming {
                    pid,
                    phase: StreamPhase::Draining,
                },
                CaptureEvent::ReadFailed => CaptureState::Failed { cause: FailureCause::Read },
                _ => state,
            },
            StreamPhase::Draining => match event {
                CaptureEvent::QueueDrained => CaptureState::Streaming {
                    pid,
                    phase: StreamPhase::Waiting,
                },
                CaptureEvent::ConsumerClosed => CaptureState::Stopped,
                _ => state,
            },
            StreamPhase::Waiting => match event {
                CaptureEvent::WaitDone => CaptureState::Streaming {
                    pid,
                    phase: StreamPhase::Reading,
                },
                CaptureEvent::WaitFailed => CaptureState::Failed { cause: FailureCause::Wait },
                _ => state,
            },
        },
        CaptureState::Failed { .. } => match event {
            CaptureEvent::BackoffElapsed => enter_resolution(config),
            _ => state,
        },
        CaptureState::Stopped => state,
        CaptureState::Unsupported => state,
    }
}

/// The stream to request of the capture device.
pub fn stream_format(config: &CaptureConfig) -> (r: StreamFormat)
    ensures
        r == format_of(*config),
{
    StreamFormat {
        store_bits: SAMPLE_BITS,
        valid_bits: SAMPLE_BITS,
        sample_kind: SampleKind::Int,
        sample_rate: config.sample_rate,
        channels: config.channels,
        direction: StreamDirection::Capture,
        sharing: SharingMode::Shared,
        timing: TimingMode::Events,
        autoconvert: true,
        buffer_duration_hns: BUFFER_DURATION_HNS,
    }
}

/// The room to give a fresh byte queue, in bytes.
pub fn byte_queue_capacity(config: &CaptureConfig) -> (r: usize)
    ensures
        r == queue_capacity(*config),
{
    let chunk: usize = chunk_bytes(config.channels, config.sample_rate, config.frame_ms);
    if chunk > usize::MAX / BYTE_QUEUE_CHUNKS {
        usize::MAX
    } else {
        chunk * BYTE_QUEUE_CHUNKS
    }
}

/// The action that `state` waits on.
pub fn pending_action(config: &CaptureConfig, state: CaptureState) -> (r: CaptureAction)
    ensures
        r == action_of(*config, state),
{
    match state {
        CaptureState::Idle => CaptureAction::AwaitStart,
        CaptureState::ResolvingTarget { missed } => CaptureAction::SearchTarget {
            delay_ms: if missed {
                TARGET_POLL_BACKOFF_MS
            } else {
                0
            },
        },
        CaptureState::InitializingDevice { pid } => CaptureAction::OpenDevice {
            pid,
            include_tree: config.include_tree,
            format: stream_format(config),
        },
        CaptureState::Streaming { phase, .. } => match phase {
            StreamPhase::Starting => CaptureAction::ResetQueue {
                capacity: byte_queue_capacity(config),
            },
            StreamPhase::Reading => CaptureAction::ReadDevice,
            StreamPhase::Draining => CaptureAction::SendChunk,
            StreamPhase::Waiting => CaptureAction::WaitForData { timeout_ms: DATA_WAIT_TIMEOUT_MS },
        },
        CaptureState::Failed { cause } => match cause {
            FailureCause::Device(_) => CaptureAction::Backoff {
                cause,
                delay_ms: DEVICE_RETRY_BACKOFF_MS,
                stop_stream: false,
            },
            FailureCause::Read => CaptureAction::Backoff {
                cause,
                delay_ms: STREAM_RESTART_BACKOFF_MS,
                stop_stream: true,
            },
            FailureCause::Wait => CaptureAction::Backoff {
                cause,
                delay_ms: STREAM_RESTART_BACKOFF_MS,
                stop_stream: true,
            },
        },
        CaptureState::Stopped => CaptureAction::Shutdown,
        CaptureState::Unsupported => CaptureAction::ReportUnsupported,
    }
}

/// A capture engine: its configuration and the state it is in.
#[derive(Clone, Copy, Debug)]
pub struct CaptureEngine {
    /// What the engine was made with.
    pub config: CaptureConfig,
    /// Whether the platform has native capture.
    pub native: bool,
    /// The current state.
    pub state: CaptureState,
}

impl CaptureEngine {
    /// An engine that has not been started.
    pub fn new(config: CaptureConfig, native: bool) -> (r: CaptureEngine)
        ensures
            r.config == config,
            r.native == native,
            r.state == CaptureState::Idle,
    {
        CaptureEngine { config, native, state: CaptureState::Idle }
    }

    /// The action that the engine waits on.
    pub fn action(&self) -> (r: CaptureAction)
        ensures
            r == action_of(self.config, self.state),
    {
        pending_action(&self.config, self.state)
    }

    /// Takes in what the caller reports, moves to the state that follows, and
    /// gives the action to perform next.
    pub fn step(&mut self, event: CaptureEvent) -> (r: CaptureAction)
        ensures
            final(self).config == old(self).config,
            final(self).native == old(self).native,
            final(self).state == next_state(
                old(self).config,
                old(self).native,
                old(self).state,
                event,
            ),
            r == action_of(final(self).config, final(self).state),
    {
        self.state = advance(&self.config, self.native, self.state, event);
        pending_action(&self.config, self.state)
    }

    /// Whether the engine has ended: no event moves it again.
    pub fn is_finished(&self) -> (r: bool)
        ensures
            r == (self.state == CaptureState::Stopped || self.state == CaptureState::Unsupported),
    {
        match self.state {
            CaptureState::Stopped => true,
            CaptureState::Unsupported => true,
            _ => false,
        }
    }
}

/// No failure ends the engine: once the pause is over, the engine starts over
/// from the search for the target, whatever failed.
pub proof fn lemma_failure_restarts(config: CaptureConfig, native: bool, cause: FailureCause)
    ensures
        next_state(config, native, CaptureState::Failed { cause }, CaptureEvent::BackoffElapsed)
            == resolution_entry(config),
        resolution_entry(config) is ResolvingTarget || resolution_entry(config)
            is InitializingDevice,
        action_of(config, CaptureState::Failed { cause }) is Backoff,
{
}

/// An engine that has ended stays as it is, whatever is reported to it.
pub proof fn lemma_finished_is_final(config: CaptureConfig, native: bool, event: CaptureEvent)
    ensures
        next_state(config, native, CaptureState::Stopped, event) == CaptureState::Stopped,
        next_state(config, native, CaptureState::Unsupported, event) == CaptureState::Unsupported,
{
}

/// The engine stops only when the consumer is gone while chunks are handed
/// over.
pub proof fn lemma_stops_only_on_closed_consumer(
    config: CaptureConfig,
    native: bool,
    state: CaptureState,
    event: CaptureEvent,
)
    requires
        state != CaptureState::Stopped,
        next_state(config, native, state, event) == CaptureState::Stopped,
    ensures
        event is ConsumerClosed,
        state matches CaptureState::Streaming { phase, .. } && phase == StreamPhase::Draining,
{
}

} // verus!
