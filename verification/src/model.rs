//! The subsystem controller and its dispatch logic: classifying incoming
//! frames into the telemetry cache or a bounded delivery queue, correlating
//! command issuance with a timed response, and aggregating multi-entry
//! configuration outcomes. The transport itself (the serial bus) lives
//! outside; its read loop feeds frames in through [`Subsystem::handle_log`],
//! and the outcome of each command write is handed in as a plain
//! `Result<(), String>`.

use vstd::prelude::*;
use vstd::string::{StringExecFns, StrSliceExecFns};
use crate::queue::{BoundedQueue, SendOutcome, RecvError, delivered};
use crate::telemetry::{OEMTime, Vector3, LockStatus, LockInfo, LockData};
use crate::text::{dec_rep, bool_label, u64_dec, bool_string};
use crate::hex::{valid_hex, decode_hex};

verus! {

/// How many error records the delivery queue buffers before it sheds load.
pub const ERROR_QUEUE_CAPACITY: usize = 10;

/// Only the most recent version record matters, so its queue holds one.
pub const VERSION_QUEUE_CAPACITY: usize = 1;

/// How long, in milliseconds, a caller waits on the version queue before a
/// request is counted as unanswered. The wait itself happens at the
/// boundary; the library only interprets its outcome.
pub const RECV_TIMEOUT_MS: u64 = 300;

/// A decoded position/velocity frame.
#[derive(Clone, Copy, PartialEq, Eq, Structural, Debug)]
pub struct BestXYZLog {
    pub pos_status: u32,
    pub pos_type: u32,
    pub position: Vector3,
    pub vel_status: u32,
    pub vel_type: u32,
    pub velocity: Vector3,
    pub time_status: u8,
    pub week: u16,
    pub ms: u32,
}

/// A decoded hardware error/event frame.
#[derive(Debug)]
pub struct RxStatusEventLog {
    pub word: u32,
    pub bit: u32,
    pub event: u32,
    pub description: String,
}

/// A decoded version/build-metadata frame.
#[derive(Debug)]
pub struct VersionLog {
    pub num_components: i32,
    pub components: Vec<String>,
}

/// One incoming frame, already decoded by the transport.
pub enum Log {
    BestXYZ(BestXYZLog),
    RxStatusEvent(RxStatusEventLog),
    Version(VersionLog),
}

/// An unrecoverable condition: a delivery queue whose reading side has been
/// torn down. The supervisor above must stop or restart the subsystem.
#[derive(Clone, Copy, PartialEq, Eq, Structural, Debug)]
pub enum FatalError {
    ErrorReceiverDisconnected,
    VersionReceiverDisconnected,
}

/// A frame whose position and velocity solutions are both reported valid.
pub open spec fn lock_valid(l: BestXYZLog) -> bool {
    l.pos_status == 0 && l.vel_status == 0
}

/// The status snapshot a frame carries.
pub open spec fn status_of(l: BestXYZLog) -> LockStatus {
    LockStatus {
        time_status: l.time_status,
        time: OEMTime { week: l.week as i32, ms: l.ms },
        position_status: l.pos_status,
        position_type: l.pos_type,
        velocity_status: l.vel_status,
        velocity_type: l.vel_type,
    }
}

/// The info snapshot a frame carries.
pub open spec fn info_of(l: BestXYZLog) -> LockInfo {
    LockInfo {
        time: OEMTime { week: l.week as i32, ms: l.ms },
        position: l.position,
        velocity: l.velocity,
    }
}

/// What one position/velocity frame does to the cache: the status slot is
/// always replaced, the info slot only when the frame is trustworthy.
pub open spec fn dispatched_lock_data(d: LockData, l: BestXYZLog) -> LockData {
    LockData {
        status: status_of(l),
        info: if lock_valid(l) {
            info_of(l)
        } else {
            d.info
        },
    }
}

/// The cache after a whole sequence of position/velocity frames.
pub open spec fn run_frames(d: LockData, logs: Seq<BestXYZLog>) -> LockData
    decreases logs.len(),
{
    if logs.len() == 0 {
        d
    } else {
        dispatched_lock_data(run_frames(d, logs.drop_last()), logs.last())
    }
}

/// Law: the status slot always reflects the newest frame, whether or not its
/// solutions were valid.
pub proof fn lemma_status_tracks_latest(d: LockData, logs: Seq<BestXYZLog>)
    requires
        logs.len() > 0,
    ensures
        run_frames(d, logs).status == status_of(logs.last()),
{
}

/// Law: two consecutive frames with invalid solutions leave the info slot
/// exactly as it was before either of them.
pub proof fn lemma_invalid_frames_keep_info(d: LockData, l1: BestXYZLog, l2: BestXYZLog)
    requires
        !lock_valid(l1),
        !lock_valid(l2),
    ensures
        dispatched_lock_data(dispatched_lock_data(d, l1), l2).info == d.info,
{
}

/// Law: the info slot never regresses. Once a valid frame has been seen, the
/// slot holds the newest valid frame's fix, however many invalid frames
/// follow it.
pub proof fn lemma_info_last_known_good(d: LockData, logs: Seq<BestXYZLog>, k: int)
    requires
        0 <= k < logs.len(),
        lock_valid(logs[k]),
        forall|j: int| k < j < logs.len() ==> !lock_valid(#[trigger] logs[j]),
    ensures
        run_frames(d, logs).info == info_of(logs[k]),
    decreases logs.len(),
{
    if k == logs.len() - 1 {
    } else {
        assert(!lock_valid(logs.last()));
        lemma_info_last_known_good(d, logs.drop_last(), k);
    }
}

/// The controller's state: the telemetry cache, the rolling diagnostic log,
/// and the two bounded delivery queues the dispatcher feeds.
pub struct Subsystem {
    pub lock_data: LockData,
    pub errors: Vec<String>,
    pub error_queue: BoundedQueue<RxStatusEventLog>,
    pub version_queue: BoundedQueue<VersionLog>,
}

impl Subsystem {
    /// The rolling diagnostic log as the text it holds.
    pub open spec fn log_view(&self) -> Seq<Seq<char>> {
        self.errors@.map_values(|s: String| s@)
    }

    /// Both delivery queues respect their capacities.
    pub open spec fn wf(&self) -> bool {
        self.error_queue.wf() && self.version_queue.wf()
    }

    /// The queue bookkeeping (capacities, attachment of both sides) that no
    /// controller operation changes.
    pub open spec fn queues_framed(pre: &Subsystem, post: &Subsystem) -> bool {
        post.error_queue.cap() == pre.error_queue.cap()
            && post.error_queue.sender_connected() == pre.error_queue.sender_connected()
            && post.error_queue.receiver_connected() == pre.error_queue.receiver_connected()
            && post.version_queue.cap() == pre.version_queue.cap()
            && post.version_queue.sender_connected() == pre.version_queue.sender_connected()
            && post.version_queue.receiver_connected() == pre.version_queue.receiver_connected()
    }

    pub fn new() -> (s: Self)
        ensures
            s.wf(),
            s.lock_data == (LockData {
                status: LockStatus {
                    time_status: 0,
                    time: OEMTime { week: 0, ms: 0 },
                    position_status: 0,
                    position_type: 0,
                    velocity_status: 0,
                    velocity_type: 0,
                },
                info: LockInfo {
                    time: OEMTime { week: 0, ms: 0 },
                    position: Vector3 { x: 0, y: 0, z: 0 },
                    velocity: Vector3 { x: 0, y: 0, z: 0 },
                },
            }),
            s.log_view() == Seq::<Seq<char>>::empty(),
            s.error_queue.contents() == Seq::<RxStatusEventLog>::empty(),
            s.error_queue.cap() == ERROR_QUEUE_CAPACITY,
            s.error_queue.sender_connected() && s.error_queue.receiver_connected(),
            s.version_queue.contents() == Seq::<VersionLog>::empty(),
            s.version_queue.cap() == VERSION_QUEUE_CAPACITY,
            s.version_queue.sender_connected() && s.version_queue.receiver_connected(),
    {
        let s = Subsystem {
            lock_data: LockData::new(),
            errors: Vec::new(),
            error_queue: BoundedQueue::new(ERROR_QUEUE_CAPACITY),
            version_queue: BoundedQueue::new(VERSION_QUEUE_CAPACITY),
        };
        assert(s.log_view() =~= Seq::<Seq<char>>::empty());
        s
    }

    /// The latest coarse status snapshot; always succeeds.
    pub fn get_lock_status(&self) -> (s: LockStatus)
        ensures
            s == self.lock_data.status,
    {
        self.lock_data.read_status()
    }

    /// The latest trustworthy fix; always succeeds.
    pub fn get_lock_info(&self) -> (i: LockInfo)
        ensures
            i == self.lock_data.info,
    {
        self.lock_data.read_info()
    }

    /// Classifies one incoming frame: a position/velocity frame replaces the
    /// cached status (and, when trustworthy, the cached fix); an error or
    /// version frame is delivered without blocking into its bounded queue,
    /// dropped when the queue is full, and fatal when the queue's reading
    /// side has been torn down.
    pub fn handle_log(&mut self, log: Log) -> (r: Result<(), FatalError>)
        requires
            old(self).wf(),
        ensures
            final(self).wf(),
            final(self).errors == old(self).errors,
            Self::queues_framed(old(self), final(self)),
            match log {
                Log::BestXYZ(l) => r is Ok
                    && final(self).lock_data == dispatched_lock_data(old(self).lock_data, l)
                    && final(self).error_queue.contents() == old(self).error_queue.contents()
                    && final(self).version_queue.contents() == old(self).version_queue.contents(),
                Log::RxStatusEvent(l) => final(self).lock_data == old(self).lock_data
                    && final(self).version_queue.contents() == old(self).version_queue.contents()
                    && (if !old(self).error_queue.receiver_connected() {
                        r == Err::<(), FatalError>(FatalError::ErrorReceiverDisconnected)
                            && final(self).error_queue.contents()
                            == old(self).error_queue.contents()
                    } else {
                        r is Ok && final(self).error_queue.contents() == delivered(
                            old(self).error_queue.contents(),
                            old(self).error_queue.cap(),
                            l,
                        )
                    }),
                Log::Version(l) => final(self).lock_data == old(self).lock_data
                    && final(self).error_queue.contents() == old(self).error_queue.contents()
                    && (if !old(self).version_queue.receiver_connected() {
                        r == Err::<(), FatalError>(FatalError::VersionReceiverDisconnected)
                            && final(self).version_queue.contents()
                            == old(self).version_queue.contents()
                    } else {
                        r is Ok && final(self).version_queue.contents() == delivered(
                            old(self).version_queue.contents(),
                            old(self).version_queue.cap(),
                            l,
                        )
                    }),
            },
    {
        match log {
            Log::BestXYZ(l) => {
                if l.pos_status == 0 && l.vel_status == 0 {
                    self.lock_data.update_info(
                        LockInfo {
                            time: OEMTime { week: l.week as i32, ms: l.ms },
                            position: l.position,
                            velocity: l.velocity,
                        },
                    );
                }
                self.lock_data.update_status(
                    LockStatus {
                        time_status: l.time_status,
                        time: OEMTime { week: l.week as i32, ms: l.ms },
                        position_status: l.pos_status,
                        position_type: l.pos_type,
                        velocity_status: l.vel_status,
                        velocity_type: l.vel_type,
                    },
                );
                Ok(())
            },
            Log::RxStatusEvent(l) => {
                match self.error_queue.try_send(l) {
                    SendOutcome::Sent => Ok(()),
                    SendOutcome::Full => Ok(()),
                    SendOutcome::Disconnected => Err(FatalError::ErrorReceiverDisconnected),
                }
            },
            Log::Version(l) => {
                match self.version_queue.try_send(l) {
                    SendOutcome::Sent => Ok(()),
                    SendOutcome::Full => Ok(()),
                    SendOutcome::Disconnected => Err(FatalError::VersionReceiverDisconnected),
                }
            },
        }
    }
}

/// Result of a single mutating operation: an explicit success flag and a
/// human-readable error string, empty on success.
#[derive(Debug)]
pub struct GenericResponse {
    pub success: bool,
    pub errors: String,
}

/// Result of a configuration batch: overall success, the failing entries'
/// messages, and a description of every requested entry.
#[derive(Debug)]
pub struct ConfigureHardwareResponse {
    pub success: bool,
    pub errors: String,
    pub config: String,
}

/// Decoded version metadata surfaced to a caller.
#[derive(Debug)]
pub struct VersionInfo {
    pub num_components: i32,
    pub components: Vec<String>,
}

/// Outcome of a self-test: success flag, error text, and the version
/// payload when one arrived.
#[derive(Debug)]
pub struct IntegrationTestResults {
    pub success: bool,
    pub errors: String,
    pub telemetry_debug: Option<VersionInfo>,
}

/// The version payload as a caller sees it.
pub open spec fn version_info_of(l: VersionLog) -> VersionInfo {
    VersionInfo { num_components: l.num_components, components: l.components }
}

/// One requested configuration change.
#[derive(Clone, Copy, PartialEq, Eq, Structural, Debug)]
pub enum ConfigOption {
    /// Ask the hardware to report error events.
    LogErrorData,
    /// Ask the hardware to report position data at an interval.
    LogPositionData,
    /// Stop all reporting.
    UnlogAll,
    /// Stop error-event reporting.
    UnlogErrorData,
    /// Stop position reporting.
    UnlogPositionData,
}

/// One entry of a configuration batch: the option, the reporting interval
/// and offset in seconds, and whether the setting should hold over resets.
#[derive(Clone, Copy, PartialEq, Eq, Structural, Debug)]
pub struct ConfigStruct {
    pub option: ConfigOption,
    pub hold: bool,
    pub interval: u64,
    pub offset: u64,
}

/// Identifier of a log kind that can be switched off selectively.
#[derive(Clone, Copy, PartialEq, Eq, Structural, Debug)]
pub enum MessageID {
    BestXYZ,
    RxStatusEvent,
}

/// The transport command a configuration entry asks for. The boundary layer
/// performs it and hands the outcome back.
#[derive(Clone, Copy, PartialEq, Eq, Structural, Debug)]
pub enum OemCommand {
    RequestErrors { hold: bool },
    RequestPosition { interval: u64, offset: u64, hold: bool },
    RequestUnlogAll { hold: bool },
    RequestUnlog { id: MessageID },
}

/// Which transport command a configuration entry maps to.
pub open spec fn command_for(e: ConfigStruct) -> OemCommand {
    match e.option {
        ConfigOption::LogErrorData => OemCommand::RequestErrors { hold: e.hold },
        ConfigOption::LogPositionData => OemCommand::RequestPosition {
            interval: e.interval,
            offset: e.offset,
            hold: e.hold,
        },
        ConfigOption::UnlogAll => OemCommand::RequestUnlogAll { hold: e.hold },
        ConfigOption::UnlogErrorData => OemCommand::RequestUnlog { id: MessageID::RxStatusEvent },
        ConfigOption::UnlogPositionData => OemCommand::RequestUnlog { id: MessageID::BestXYZ },
    }
}

/// Picks the transport command for one configuration entry.
pub fn entry_command(entry: &ConfigStruct) -> (c: OemCommand)
    ensures
        c == command_for(*entry),
{
    match entry.option {
        ConfigOption::LogErrorData => OemCommand::RequestErrors { hold: entry.hold },
        ConfigOption::LogPositionData => OemCommand::RequestPosition {
            interval: entry.interval,
            offset: entry.offset,
            hold: entry.hold,
        },
        ConfigOption::UnlogAll => OemCommand::RequestUnlogAll { hold: entry.hold },
        ConfigOption::UnlogErrorData => OemCommand::RequestUnlog { id: MessageID::RxStatusEvent },
        ConfigOption::UnlogPositionData => OemCommand::RequestUnlog { id: MessageID::BestXYZ },
    }
}

/// The diagnostic line one error record turns into.
pub open spec fn error_text(e: RxStatusEventLog) -> Seq<char> {
    "RxStatusEvent("@ + dec_rep(e.word as nat) + ", "@ + dec_rep(e.bit as nat) + ", "@ + dec_rep(
        e.event as nat,
    ) + "): "@ + e.description@
}

/// The diagnostic lines a queue of error records turns into, in order.
pub open spec fn error_texts(items: Seq<RxStatusEventLog>) -> Seq<Seq<char>> {
    items.map_values(|e: RxStatusEventLog| error_text(e))
}

/// The line recorded when the error queue's sending side has gone away.
pub open spec fn errors_disconnected_text() -> Seq<char> {
    "Errors sender disconnected"@
}

/// The error string a failed wait on the version queue produces.
pub open spec fn recv_error_text(k: RecvError) -> Seq<char> {
    match k {
        RecvError::Empty => "timed out waiting on channel"@,
        RecvError::Disconnected => "channel is empty and sending half is closed"@,
    }
}

/// The rolling-log line for a no-op that got no version response.
pub open spec fn noop_log_text(k: RecvError) -> Seq<char> {
    "Noop: Failed to receive version info - "@ + recv_error_text(k)
}

/// The rolling-log line for a self-test that got no version response.
pub open spec fn self_test_log_text(k: RecvError) -> Seq<char> {
    "Self-Test: Failed to receive version info - "@ + recv_error_text(k)
}

/// The error string a malformed passthrough command produces.
pub open spec fn invalid_hex_text() -> Seq<char> {
    "invalid hex command"@
}

/// The label an option carries in diagnostic text.
pub open spec fn option_label(o: ConfigOption) -> Seq<char> {
    match o {
        ConfigOption::LogErrorData => "LogErrorData"@,
        ConfigOption::LogPositionData => "LogPositionData"@,
        ConfigOption::UnlogAll => "UnlogAll"@,
        ConfigOption::UnlogErrorData => "UnlogErrorData"@,
        ConfigOption::UnlogPositionData => "UnlogPositionData"@,
    }
}

/// The description of one configuration entry: its option, its hold flag,
/// and — when an interval was requested — the interval and offset.
pub open spec fn entry_text(e: ConfigStruct) -> Seq<char> {
    option_label(e.option) + "(Hold: "@ + bool_label(e.hold) + ")"@ + (if e.interval != 0 {
        ": "@ + dec_rep(e.interval as nat) + "+"@ + dec_rep(e.offset as nat) + "sec"@
    } else {
        Seq::<char>::empty()
    })
}

/// The comma-joined description of a whole batch, in entry order.
pub open spec fn config_text(entries: Seq<ConfigStruct>) -> Seq<char>
    decreases entries.len(),
{
    if entries.len() == 0 {
        Seq::empty()
    } else if entries.len() == 1 {
        entry_text(entries[0])
    } else {
        config_text(entries.drop_last()) + ", "@ + entry_text(entries.last())
    }
}

/// The message one failing entry contributes.
pub open spec fn failure_text(e: ConfigStruct, msg: Seq<char>) -> Seq<char> {
    option_label(e.option) + ": "@ + msg
}

/// The joined messages of the failing entries only, in entry order.
pub open spec fn errors_text(entries: Seq<ConfigStruct>, results: Seq<Result<(), String>>) -> Seq<
    char,
>
    recommends
        entries.len() == results.len(),
    decreases entries.len(),
{
    if entries.len() == 0 {
        Seq::empty()
    } else {
        let rest = errors_text(entries.drop_last(), results.drop_last());
        match results.last() {
            Ok(_) => rest,
            Err(m) => if rest.len() == 0 {
                failure_text(entries.last(), m@)
            } else {
                rest + ". "@ + failure_text(entries.last(), m@)
            },
        }
    }
}

/// Whether every entry of a batch succeeded.
pub open spec fn all_ok(results: Seq<Result<(), String>>) -> bool {
    forall|i: int| 0 <= i < results.len() ==> results[i] is Ok
}

/// The raw failure messages a batch appends to the rolling log, in order.
pub open spec fn failure_logs(results: Seq<Result<(), String>>) -> Seq<Seq<char>>
    decreases results.len(),
{
    if results.len() == 0 {
        Seq::empty()
    } else {
        failure_logs(results.drop_last()) + (match results.last() {
            Ok(_) => Seq::<Seq<char>>::empty(),
            Err(m) => seq![m@],
        })
    }
}

fn format_error(e: &RxStatusEventLog) -> (s: String)
    ensures
        s@ == error_text(*e),
{
    let mut s = String::from_str("RxStatusEvent(");
    let word = u64_dec(e.word as u64);
    s.append(word.as_str());
    s.append(", ");
    let bit = u64_dec(e.bit as u64);
    s.append(bit.as_str());
    s.append(", ");
    let event = u64_dec(e.event as u64);
    s.append(event.as_str());
    s.append("): ");
    s.append(e.description.as_str());
    assert(s@ =~= error_text(*e));
    s
}

fn recv_error_string(k: RecvError) -> (s: String)
    ensures
        s@ == recv_error_text(k),
{
    match k {
        RecvError::Empty => String::from_str("timed out waiting on channel"),
        RecvError::Disconnected => String::from_str("channel is empty and sending half is closed"),
    }
}

fn option_string(o: ConfigOption) -> (s: String)
    ensures
        s@ == option_label(o),
{
    match o {
        ConfigOption::LogErrorData => String::from_str("LogErrorData"),
        ConfigOption::LogPositionData => String::from_str("LogPositionData"),
        ConfigOption::UnlogAll => String::from_str("UnlogAll"),
        ConfigOption::UnlogErrorData => String::from_str("UnlogErrorData"),
        ConfigOption::UnlogPositionData => String::from_str("UnlogPositionData"),
    }
}

fn entry_string(e: &ConfigStruct) -> (s: String)
    ensures
        s@ == entry_text(*e),
{
    let mut s = option_string(e.option);
    s.append("(Hold: ");
    let hold = bool_string(e.hold);
    s.append(hold.as_str());
    s.append(")");
    if e.interval != 0 {
        s.append(": ");
        let interval = u64_dec(e.interval);
        s.append(interval.as_str());
        s.append("+");
        let offset = u64_dec(e.offset);
        s.append(offset.as_str());
        s.append("sec");
    }
    assert(s@ =~= entry_text(*e));
    s
}

proof fn lemma_option_label_nonempty(o: ConfigOption)
    ensures
        option_label(o).len() > 0,
{
    reveal_strlit("LogErrorData");
    reveal_strlit("LogPositionData");
    reveal_strlit("UnlogAll");
    reveal_strlit("UnlogErrorData");
    reveal_strlit("UnlogPositionData");
}

proof fn lemma_entry_text_nonempty(e: ConfigStruct)
    ensures
        entry_text(e).len() > 0,
{
    lemma_option_label_nonempty(e.option);
}

proof fn lemma_config_text_nonempty(entries: Seq<ConfigStruct>)
    requires
        entries.len() > 0,
    ensures
        config_text(entries).len() > 0,
{
    if entries.len() == 1 {
        lemma_entry_text_nonempty(entries[0]);
    } else {
        lemma_entry_text_nonempty(entries.last());
    }
}

impl Subsystem {
    /// The shared outcome-recording step every mutating operation uses: a
    /// failed transport write is appended to the rolling log exactly once,
    /// and the outcome is handed back unchanged.
    pub fn record_io(&mut self, result: Result<(), String>) -> (r: Result<(), String>)
        ensures
            r == result,
            final(self).lock_data == old(self).lock_data,
            final(self).error_queue == old(self).error_queue,
            final(self).version_queue == old(self).version_queue,
            result is Ok ==> final(self).log_view() == old(self).log_view(),
            result matches Err(e) ==> final(self).log_view() == old(self).log_view().push(e@),
    {
        match result {
            Ok(u) => Ok(u),
            Err(e) => {
                let entry = e.clone();
                self.errors.push(entry);
                assert(self.log_view() =~= old(self).log_view().push(e@));
                Err(e)
            },
        }
    }

    /// Drains every currently queued error record into the rolling log as a
    /// readable line; returns at once when the queue is empty, and records a
    /// torn-down sending side as a diagnostic line instead of failing.
    pub fn get_errors(&mut self)
        requires
            old(self).wf(),
        ensures
            final(self).wf(),
            Self::queues_framed(old(self), final(self)),
            final(self).lock_data == old(self).lock_data,
            final(self).version_queue.contents() == old(self).version_queue.contents(),
            final(self).error_queue.contents() == Seq::<RxStatusEventLog>::empty(),
            old(self).error_queue.contents().len() > 0 ==> final(self).log_view() == old(self).log_view() + error_texts(old(self).error_queue.contents()),
            old(self).error_queue.contents().len() == 0
                && old(self).error_queue.sender_connected() ==> final(self).log_view() == old(self).log_view(),
            old(self).error_queue.contents().len() == 0
                && !old(self).error_queue.sender_connected() ==> final(self).log_view() == old(self).log_view().push(errors_disconnected_text()),
    {
        let ghost orig = old(self).error_queue.contents();
        match self.error_queue.try_recv() {
            Ok(first) => {
                let line = format_error(&first);
                self.errors.push(line);
                let ghost mut k: int = 1;
                proof {
                    assert(self.log_view() =~= old(self).log_view() + error_texts(orig.take(1)));
                }
                let mut done = false;
                while !done
                    invariant
                        old(self).wf(),
                        self.wf(),
                        1 <= k <= orig.len(),
                        Self::queues_framed(old(self), self),
                        self.lock_data == old(self).lock_data,
                        self.version_queue.contents() == old(self).version_queue.contents(),
                        !done ==> self.error_queue.contents() == orig.skip(k),
                        done ==> self.error_queue.contents().len() == 0 && k == orig.len(),
                        self.log_view() == old(self).log_view() + error_texts(orig.take(k)),
                    decreases orig.len() - k + (if done {
                        0int
                    } else {
                        1int
                    }),
                {
                    match self.error_queue.try_recv() {
                        Ok(e) => {
                            let ghost pre = self.log_view();
                            let line = format_error(&e);
                            self.errors.push(line);
                            proof {
                                assert(orig.skip(k)[0] == orig[k]);
                                assert(orig.skip(k).skip(1) =~= orig.skip(k + 1));
                                assert(self.log_view() =~= pre.push(error_text(orig[k])));
                                assert(orig.take(k + 1).drop_last() =~= orig.take(k));
                                assert(orig.take(k + 1).last() == orig[k]);
                                assert(error_texts(orig.take(k + 1)) =~= error_texts(
                                    orig.take(k),
                                ).push(error_text(orig[k])));
                                assert(self.log_view() =~= old(self).log_view() + error_texts(
                                    orig.take(k + 1),
                                ));
                                k = k + 1;
                            }
                        },
                        Err(_) => {
                            done = true;
                            proof {
                                assert(orig.skip(k).len() == 0);
                            }
                        },
                    }
                }
                proof {
                    assert(orig.take(orig.len() as int) =~= orig);
                }
            },
            Err(kind) => {
                match kind {
                    RecvError::Empty => {},
                    RecvError::Disconnected => {
                        let line = String::from_str("Errors sender disconnected");
                        self.errors.push(line);
                        assert(self.log_view() =~= old(self).log_view().push(
                            errors_disconnected_text(),
                        ));
                    },
                }
            },
        }
    }

    /// Issues nothing itself: interprets the outcome of the version-request
    /// write performed at the boundary, then polls the version queue, whose
    /// emptiness means the bounded wait elapsed without a response.
    pub fn noop(&mut self, issue: Result<(), String>) -> (r: GenericResponse)
        requires
            old(self).wf(),
        ensures
            final(self).wf(),
            Self::queues_framed(old(self), final(self)),
            final(self).lock_data == old(self).lock_data,
            final(self).error_queue.contents() == old(self).error_queue.contents(),
            issue matches Err(e) ==> !r.success && r.errors@ == e@ && final(self).log_view() == old(self).log_view().push(e@) && final(self).version_queue.contents() == old(self).version_queue.contents(),
            issue is Ok && old(self).version_queue.contents().len() > 0 ==> r.success
                && r.errors@ == Seq::<char>::empty() && final(self).version_queue.contents() == old(self).version_queue.contents().skip(1) && final(self).log_view() == old(self).log_view(),
            issue is Ok && old(self).version_queue.contents().len() == 0 ==> ({
                let kind = if old(self).version_queue.sender_connected() {
                    RecvError::Empty
                } else {
                    RecvError::Disconnected
                };
                !r.success && r.errors@ == recv_error_text(kind)
                    && final(self).version_queue.contents() == old(self).version_queue.contents()
                    && final(self).log_view() == old(self).log_view().push(noop_log_text(kind))
            }),
    {
        let result = self.record_io(issue);
        match result {
            Err(e) => GenericResponse { success: false, errors: e },
            Ok(_) => {
                match self.version_queue.try_recv() {
                    Ok(_log) => GenericResponse { success: true, errors: String::new() },
                    Err(kind) => {
                        let text = recv_error_string(kind);
                        let mut line = String::from_str("Noop: Failed to receive version info - ");
                        line.append(text.as_str());
                        assert(line@ =~= noop_log_text(kind));
                        self.errors.push(line);
                        assert(self.log_view() =~= old(self).log_view().push(noop_log_text(kind)));
                        GenericResponse { success: false, errors: text }
                    },
                }
            },
        }
    }

    /// Like [`Self::noop`], but surfaces the decoded version payload when
    /// one arrived within the bounded wait.
    pub fn get_test_results(&mut self, issue: Result<(), String>) -> (r: IntegrationTestResults)
        requires
            old(self).wf(),
        ensures
            final(self).wf(),
            Self::queues_framed(old(self), final(self)),
            final(self).lock_data == old(self).lock_data,
            final(self).error_queue.contents() == old(self).error_queue.contents(),
            issue matches Err(e) ==> !r.success && r.errors@ == e@ && r.telemetry_debug is None
                && final(self).log_view() == old(self).log_view().push(e@) && final(self).version_queue.contents() == old(self).version_queue.contents(),
            issue is Ok && old(self).version_queue.contents().len() > 0 ==> r.success
                && r.errors@ == Seq::<char>::empty() && r.telemetry_debug == Some(
                version_info_of(old(self).version_queue.contents()[0]),
            ) && final(self).version_queue.contents() == old(self).version_queue.contents().skip(1)
                && final(self).log_view() == old(self).log_view(),
            issue is Ok && old(self).version_queue.contents().len() == 0 ==> ({
                let kind = if old(self).version_queue.sender_connected() {
                    RecvError::Empty
                } else {
                    RecvError::Disconnected
                };
                !r.success && r.errors@ == recv_error_text(kind) && r.telemetry_debug is None
                    && final(self).version_queue.contents() == old(self).version_queue.contents()
                    && final(self).log_view() == old(self).log_view().push(self_test_log_text(kind))
            }),
    {
        let result = self.record_io(issue);
        match result {
            Err(e) => IntegrationTestResults { success: false, errors: e, telemetry_debug: None },
            Ok(_) => {
                match self.version_queue.try_recv() {
                    Ok(log) => {
                        let info = VersionInfo {
                            num_components: log.num_components,
                            components: log.components,
                        };
                        IntegrationTestResults {
                            success: true,
                            errors: String::new(),
                            telemetry_debug: Some(info),
                        }
                    },
                    Err(kind) => {
                        let text = recv_error_string(kind);
                        let mut line = String::from_str(
                            "Self-Test: Failed to receive version info - ",
                        );
                        line.append(text.as_str());
                        assert(line@ =~= self_test_log_text(kind));
                        self.errors.push(line);
                        assert(self.log_view() =~= old(self).log_view().push(
                            self_test_log_text(kind),
                        ));
                        IntegrationTestResults {
                            success: false,
                            errors: text,
                            telemetry_debug: None,
                        }
                    },
                }
            },
        }
    }

    /// Processes every entry of a configuration batch, never stopping early:
    /// the overall success is the conjunction of the entries' outcomes, the
    /// error text joins exactly the failing entries' messages, and the
    /// config text describes every entry in its original order. The boundary
    /// layer performs each entry's transport command (see
    /// [`entry_command`]) and hands the outcomes in, one per entry.
    pub fn configure_hardware(
        &mut self,
        input: Vec<ConfigStruct>,
        results: Vec<Result<(), String>>,
    ) -> (r: ConfigureHardwareResponse)
        requires
            old(self).wf(),
            input@.len() == results@.len(),
        ensures
            final(self).wf(),
            Self::queues_framed(old(self), final(self)),
            final(self).lock_data == old(self).lock_data,
            final(self).error_queue.contents() == old(self).error_queue.contents(),
            final(self).version_queue.contents() == old(self).version_queue.contents(),
            r.success == all_ok(results@),
            r.errors@ == errors_text(input@, results@),
            r.config@ == config_text(input@),
            final(self).log_view() == old(self).log_view() + failure_logs(results@),
    {
        let mut success = true;
        let mut errors = String::new();
        let mut config = String::new();
        let n = input.len();
        let mut i: usize = 0;
        proof {
            assert(self.log_view() =~= old(self).log_view() + failure_logs(results@.take(0)));
        }
        while i < n
            invariant
                n == input@.len(),
                n == results@.len(),
                i <= n,
                old(self).wf(),
                self.wf(),
                Self::queues_framed(old(self), self),
                self.lock_data == old(self).lock_data,
                self.error_queue.contents() == old(self).error_queue.contents(),
                self.version_queue.contents() == old(self).version_queue.contents(),
                success == all_ok(results@.take(i as int)),
                errors@ == errors_text(input@.take(i as int), results@.take(i as int)),
                config@ == config_text(input@.take(i as int)),
                self.log_view() == old(self).log_view() + failure_logs(results@.take(i as int)),
            decreases n - i,
        {
            let ghost ii = i as int;
            let entry = input[i];
            match &results[i] {
                Ok(_) => {
                    proof {
                        assert(results@.take(ii + 1).drop_last() =~= results@.take(ii));
                        assert(results@.take(ii + 1).last() == results@[ii]);
                        assert(failure_logs(results@.take(ii + 1)) =~= failure_logs(
                            results@.take(ii),
                        ));
                        assert(self.log_view() =~= old(self).log_view() + failure_logs(
                            results@.take(ii + 1),
                        ));
                    }
                },
                Err(m) => {
                    success = false;
                    let ghost pre = self.log_view();
                    let logged = m.clone();
                    self.errors.push(logged);
                    proof {
                        assert(self.log_view() =~= pre.push(m@));
                    }
                    if !errors.as_str().is_empty() {
                        errors.append(". ");
                    }
                    let label = option_string(entry.option);
                    errors.append(label.as_str());
                    errors.append(": ");
                    errors.append(m.as_str());
                    proof {
                        assert(results@.take(ii + 1).drop_last() =~= results@.take(ii));
                        assert(results@.take(ii + 1).last() == results@[ii]);
                        assert(failure_logs(results@.take(ii + 1)) =~= failure_logs(
                            results@.take(ii),
                        ).push(m@));
                        assert(self.log_view() =~= old(self).log_view() + failure_logs(
                            results@.take(ii + 1),
                        ));
                    }
                },
            }
            proof {
                if ii > 0 {
                    lemma_config_text_nonempty(input@.take(ii));
                }
            }
            if !config.as_str().is_empty() {
                config.append(", ");
            }
            let described = entry_string(&entry);
            config.append(described.as_str());
            proof {
                assert(input@.take(ii + 1).drop_last() =~= input@.take(ii));
                assert(results@.take(ii + 1).drop_last() =~= results@.take(ii));
                assert(input@.take(ii + 1).last() == input@[ii]);
                assert(results@.take(ii + 1).last() == results@[ii]);
                assert(forall|j: int|
                    0 <= j < ii + 1 ==> results@.take(ii + 1)[j] == #[trigger] results@[j]);
                assert(all_ok(results@.take(ii)) && results@[ii] is Ok ==> all_ok(
                    results@.take(ii + 1),
                ));
                assert(success == all_ok(results@.take(ii + 1)));
                assert(errors@ =~= errors_text(input@.take(ii + 1), results@.take(ii + 1)));
                assert(config@ =~= config_text(input@.take(ii + 1)));
            }
            i = i + 1;
        }
        proof {
            assert(input@.take(n as int) =~= input@);
            assert(results@.take(n as int) =~= results@);
        }
        ConfigureHardwareResponse { success, errors, config }
    }

    /// Forwards a caller-supplied hex command: malformed hex (odd length or
    /// a character that is no hex digit) is a caller error, rejected with no
    /// transport traffic and no state change; otherwise the decoded bytes
    /// (see [`crate::hex::decode_hex`]) are written at the boundary and the
    /// outcome of that write is interpreted here.
    pub fn passthrough(&mut self, command: String, issue: Result<(), String>) -> (r:
        GenericResponse)
        requires
            old(self).wf(),
        ensures
            final(self).wf(),
            Self::queues_framed(old(self), final(self)),
            final(self).lock_data == old(self).lock_data,
            final(self).error_queue.contents() == old(self).error_queue.contents(),
            final(self).version_queue.contents() == old(self).version_queue.contents(),
            !valid_hex(command@) ==> !r.success && r.errors@ == invalid_hex_text() && final(self).log_view() == old(self).log_view(),
            valid_hex(command@) && issue is Ok ==> r.success && r.errors@ == Seq::<char>::empty()
                && final(self).log_view() == old(self).log_view(),
            issue matches Err(e) ==> valid_hex(command@) ==> !r.success && r.errors@ == e@
                && final(self).log_view() == old(self).log_view().push(e@),
    {
        match decode_hex(command.as_str()) {
            None => GenericResponse {
                success: false,
                errors: String::from_str("invalid hex command"),
            },
            Some(_tx) => {
                let result = self.record_io(issue);
                match result {
                    Ok(_) => GenericResponse { success: true, errors: String::new() },
                    Err(e) => GenericResponse { success: false, errors: e },
                }
            },
        }
    }
}

} // verus!
