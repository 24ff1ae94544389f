//! The suspend conductor: the ordered decisions of one hibernation attempt.
//!
//! The conductor does no platform work itself. Each call hands back the next
//! `Action` for the caller to perform; the caller reports its outcome as an
//! `Event`, until the attempt ends with `Step::Finished`.
use vstd::prelude::*;

use crate::disk::{low_on_space, FsStats};
use crate::error::{HibernateError, SnapshotOp, IoPhase, ERR_INVALID};
use crate::metadata::{
    empty_metadata, flags_valid, written_metadata, zero_tag, HibernateMetadata, META_TAG_SIZE,
};
use crate::pipeline::{
    body_move, body_stage, check_geometry, first_page, first_page_stage, geometry_ok,
    header_left, header_move, header_remaining, header_stage, MoveKind, MoveStage,
};

verus! {

/// Swappiness set for the duration of the attempt.
pub const SUSPEND_SWAPPINESS: u32 = 100;

/// Value kept at the fixed offset of the stateful block device.
#[derive(Clone, Copy, Debug, PartialEq, Eq, Structural)]
pub enum CookieValue {
    NoResume,
    ResumeReady,
}

/// Where log records go.
#[derive(Clone, Copy, Debug, PartialEq, Eq, Structural)]
pub enum LogSink {
    Syslog,
    File,
    BufferInMemory,
}

/// Options of one attempt.
#[derive(Clone, Copy, Debug, PartialEq, Eq, Structural)]
pub struct HibernateOptions {
    /// Run the whole suspend path but leave the machine powered on.
    pub dry_run: bool,
}

/// Work for the caller, in the order the conductor hands it out.
#[derive(Clone, Copy, Debug, PartialEq, Eq, Structural)]
pub enum Action {
    /// Set up the hibernate volume and its snapshots, then report whether the
    /// system uses LVM and whether the hibernate files exist (`Probed`).
    SetupVolume,
    /// Preallocate every backing file, zero-filled when `should_zero`, and
    /// attach the suspend metrics file to the metrics sink.
    Preallocate { should_zero: bool },
    /// Ask the update engine whether it is idle (`UpdateEngine`).
    QueryUpdateEngine,
    /// Stop the suspend log file from logging about itself, then read the
    /// stateful file system's block counts (`FsStatsRead`).
    ReadFsStats,
    /// Lock the process's memory resident.
    LockMemory,
    /// Set the kernel's swappiness.
    SetSwappiness { swappiness: u32 },
    /// Load the public key and install a new metadata key.
    LoadKeys,
    /// Send log records to `sink`.
    RedirectLog { sink: LogSink },
    /// Sync the file systems.
    Sync,
    /// Preallocate the working memory of the image mover.
    PreallocMemory,
    /// Open the snapshot device and freeze userspace.
    FreezeUserspace,
    /// Take the atomic snapshot (`Snapshot`).
    AtomicSnapshot,
    /// Read the image size and the splitter's header size (`ImageSize`).
    GetImageSize,
    /// Run the image mover on one stage (`HeaderParsed` after the first
    /// page, `BodyWritten` after the body).
    MoveImage { stage: MoveStage },
    /// Send the image write's I/O sample.
    ReportImageWrite { bytes: u64 },
    /// Rewind the metadata file, write the conductor's metadata, close it.
    WriteMetadata,
    /// Write the hibernate cookie.
    SetCookie { value: CookieValue },
    /// Flush the metrics sink; a failure is only a warning.
    FlushMetrics,
    /// Power the machine off (`PowerOffReturned` if it comes back).
    PowerOff,
    /// Drop the log routing state left from before the snapshot.
    ResetLog,
    /// Release the frozen-userspace guard.
    Thaw,
    /// Replay the suspend and resume log files.
    ReplayLogs { push_to_syslog: bool, mark_resumed: bool },
    /// Read both metrics files and send their samples.
    SendMetrics,
    /// Release the hiber data files to free disk space.
    DeleteHiberData,
}

/// Outcome of the last action.
#[derive(Clone, Copy, Debug)]
pub enum Event {
    /// The action completed.
    Done,
    /// The action failed.
    Failed(HibernateError),
    Probed { is_lvm: bool, files_exist: bool },
    UpdateEngine { idle: bool },
    FsStatsRead(FsStats),
    /// `true` on the suspending side, `false` once resumed.
    Snapshot { in_snapshot: bool },
    /// Image size, the splitter's header size on entry (0 when unknown) and
    /// the page size.
    ImageSize { image_size: u64, meta_size: u64, page_size: u64 },
    /// Header size parsed by the splitter from the first page.
    HeaderParsed { meta_size: u64 },
    /// Authentication tag the splitter computed over the body.
    BodyWritten { data_tag: [u8; META_TAG_SIZE] },
    /// The power-off call returned with this error code.
    PowerOffReturned { errno: i32 },
}

/// What the caller does next.
#[derive(Clone, Copy, Debug)]
pub enum Step {
    Run(Action),
    Finished(Result<(), HibernateError>),
}

/// State of the conductor between two steps.
#[derive(Clone, Copy, Debug)]
pub struct SuspendConductor {
    pub options: HibernateOptions,
    pub metadata: HibernateMetadata,
    /// The action handed out and not yet reported on; `None` between attempts.
    pub pending: Option<Action>,
    pub should_zero: bool,
    pub fs_stats: FsStats,
    /// Side of the fork: `true` on the suspending kernel.
    pub in_snapshot: bool,
    pub image_size: u64,
    pub page_size: u64,
    /// The image was written completely and recorded in the metadata.
    pub image_written: bool,
    /// Outcome of the attempt so far.
    pub result: Result<(), HibernateError>,
    /// Last value handed out to be written to the cookie.
    pub cookie: CookieValue,
    /// Last log sink handed out.
    pub log_sink: LogSink,
    /// The metrics sink was flushed in this attempt.
    pub metrics_flushed: bool,
    /// Userspace is frozen.
    pub frozen: bool,
}

/// Error carried by a failure event; any other unexpected event counts as
/// an invalid report.
pub open spec fn failure_of(e: Event) -> HibernateError {
    match e {
        Event::Failed(err) => err,
        _ => HibernateError::Environment(ERR_INVALID),
    }
}

/// Hands out `a`, noting what it changes in the conductor's own records.
pub open spec fn issue(c: SuspendConductor, a: Action) -> (SuspendConductor, Step) {
    let log_sink = match a {
        Action::RedirectLog { sink } => sink,
        _ => c.log_sink,
    };
    let cookie = match a {
        Action::SetCookie { value } => value,
        _ => c.cookie,
    };
    let frozen = if a is Thaw {
        false
    } else {
        c.frozen
    };
    (
        SuspendConductor { pending: Some(a), log_sink, cookie, frozen, ..c },
        Step::Run(a),
    )
}

/// Ends the attempt with `r`.
pub open spec fn finish(c: SuspendConductor, r: Result<(), HibernateError>) -> (
    SuspendConductor,
    Step,
) {
    (SuspendConductor { pending: None, result: r, ..c }, Step::Finished(r))
}

/// Before userspace is frozen: go on with `a` if the action completed, else
/// end the attempt with its error.
pub open spec fn proceed(c: SuspendConductor, e: Event, a: Action) -> (SuspendConductor, Step) {
    if e is Done {
        issue(c, a)
    } else {
        finish(c, Err(failure_of(e)))
    }
}

/// After the fork: record the error and clear the cookie.
pub open spec fn fail_after_fork(c: SuspendConductor, err: HibernateError) -> (
    SuspendConductor,
    Step,
) {
    issue(SuspendConductor { result: Err(err), ..c }, Action::SetCookie { value: CookieValue::NoResume })
}

/// Thaw userspace if frozen, then hand logging back to syslog.
pub open spec fn drain(c: SuspendConductor) -> (SuspendConductor, Step) {
    if c.frozen {
        issue(c, Action::Thaw)
    } else {
        issue(c, Action::RedirectLog { sink: LogSink::Syslog })
    }
}

/// Outcome of freezing userspace.
pub open spec fn next_freeze(c: SuspendConductor, e: Event) -> (SuspendConductor, Step) {
    if e is Done {
        issue(SuspendConductor { frozen: true, ..c }, Action::AtomicSnapshot)
    } else {
        drain(SuspendConductor { result: Err(failure_of(e)), ..c })
    }
}

/// The fork: the suspending side writes the image, the resumed side resets
/// its logging; a failed snapshot thaws and drains.
pub open spec fn next_fork(c: SuspendConductor, e: Event) -> (SuspendConductor, Step) {
    match e {
        Event::Snapshot { in_snapshot } => if in_snapshot {
            issue(SuspendConductor { in_snapshot: true, ..c }, Action::GetImageSize)
        } else {
            issue(SuspendConductor { in_snapshot: false, ..c }, Action::ResetLog)
        },
        _ => drain(SuspendConductor { result: Err(failure_of(e)), ..c }),
    }
}

/// Image size known: move a first page when the header size is unknown,
/// else the header.
pub open spec fn next_image_size(c: SuspendConductor, e: Event) -> (SuspendConductor, Step) {
    match e {
        Event::ImageSize { image_size, meta_size, page_size } => if !geometry_ok(
            image_size,
            page_size,
        ) || meta_size > image_size {
            fail_after_fork(c, HibernateError::Snapshot(SnapshotOp::ImageSize, ERR_INVALID))
        } else {
            let c2 = SuspendConductor {
                image_size,
                page_size,
                metadata: HibernateMetadata { meta_size, ..c.metadata },
                ..c
            };
            if meta_size == 0 {
                issue(c2, Action::MoveImage { stage: first_page(page_size) })
            } else {
                issue(c2, Action::MoveImage { stage: header_move(meta_size, page_size) })
            }
        },
        _ => fail_after_fork(c, failure_of(e)),
    }
}

/// Outcome of one stage of the image mover.
pub open spec fn next_move(c: SuspendConductor, kind: MoveKind, e: Event) -> (
    SuspendConductor,
    Step,
) {
    match kind {
        MoveKind::FirstPage => match e {
            Event::HeaderParsed { meta_size } => if meta_size == 0 || meta_size > c.image_size {
                fail_after_fork(c, HibernateError::Io(IoPhase::Header, c.page_size))
            } else {
                let c2 = SuspendConductor {
                    metadata: HibernateMetadata { meta_size, ..c.metadata },
                    ..c
                };
                issue(
                    c2,
                    Action::MoveImage {
                        stage: header_move(header_left(meta_size, c.page_size, true), c.page_size),
                    },
                )
            },
            _ => fail_after_fork(c, failure_of(e)),
        },
        MoveKind::Header => if e is Done {
            issue(
                c,
                Action::MoveImage {
                    stage: body_move(c.image_size, c.metadata.meta_size, c.page_size),
                },
            )
        } else {
            fail_after_fork(c, failure_of(e))
        },
        MoveKind::Body => match e {
            Event::BodyWritten { data_tag } => next_write_image(c, data_tag),
            _ => fail_after_fork(c, failure_of(e)),
        },
    }
}

/// The body is written: record the image in the metadata, or fail on a
/// missing tag.
pub open spec fn next_write_image(c: SuspendConductor, data_tag: [u8; META_TAG_SIZE]) -> (
    SuspendConductor,
    Step,
) {
    if zero_tag(data_tag@) || c.image_size == 0 {
        fail_after_fork(c, HibernateError::Io(IoPhase::Body, c.image_size))
    } else {
        issue(
            SuspendConductor {
                metadata: written_metadata(c.metadata, c.image_size, data_tag),
                image_written: true,
                ..c
            },
            Action::ReportImageWrite { bytes: c.image_size },
        )
    }
}

/// The power-off call came back: that is a failure.
pub open spec fn next_power_off(c: SuspendConductor, e: Event) -> (SuspendConductor, Step) {
    match e {
        Event::PowerOffReturned { errno } => fail_after_fork(c, HibernateError::Shutdown(errno)),
        _ => fail_after_fork(c, failure_of(e)),
    }
}

/// After the log replay and the metrics: release the hiber data when the
/// disk is low on space, else end.
pub open spec fn next_cleanup(c: SuspendConductor) -> (SuspendConductor, Step) {
    if low_on_space(c.fs_stats) {
        issue(c, Action::DeleteHiberData)
    } else {
        finish(c, c.result)
    }
}

/// The conductor's transition: its state and its answer after event `e`.
pub open spec fn next(c: SuspendConductor, e: Event) -> (SuspendConductor, Step) {
    match c.pending {
        None => (c, Step::Finished(c.result)),
        Some(a) => match a {
            Action::SetupVolume => match e {
                Event::Probed { is_lvm, files_exist } => issue(
                    SuspendConductor { should_zero: is_lvm && !files_exist, ..c },
                    Action::Preallocate { should_zero: is_lvm && !files_exist },
                ),
                _ => finish(c, Err(failure_of(e))),
            },
            Action::Preallocate { .. } => proceed(c, e, Action::QueryUpdateEngine),
            Action::QueryUpdateEngine => match e {
                Event::UpdateEngine { idle } => if idle {
                    issue(c, Action::ReadFsStats)
                } else {
                    finish(c, Err(HibernateError::UpdateEngineBusy))
                },
                _ => finish(c, Err(failure_of(e))),
            },
            Action::ReadFsStats => match e {
                Event::FsStatsRead(s) => issue(
                    SuspendConductor { fs_stats: s, ..c },
                    Action::LockMemory,
                ),
                _ => finish(c, Err(failure_of(e))),
            },
            Action::LockMemory => proceed(
                c,
                e,
                Action::SetSwappiness { swappiness: SUSPEND_SWAPPINESS },
            ),
            Action::SetSwappiness { .. } => proceed(c, e, Action::LoadKeys),
            Action::LoadKeys => proceed(c, e, Action::RedirectLog { sink: LogSink::File }),
            Action::Sync => issue(c, Action::PreallocMemory),
            Action::PreallocMemory => proceed(c, e, Action::FreezeUserspace),
            Action::FreezeUserspace => next_freeze(c, e),
            Action::AtomicSnapshot => next_fork(c, e),
            Action::GetImageSize => next_image_size(c, e),
            Action::MoveImage { stage } => next_move(c, stage.kind, e),
            Action::ReportImageWrite { .. } => issue(c, Action::WriteMetadata),
            Action::WriteMetadata => if e is Done {
                issue(c, Action::SetCookie { value: CookieValue::ResumeReady })
            } else {
                fail_after_fork(c, failure_of(e))
            },
            Action::SetCookie { value } => match value {
                CookieValue::ResumeReady => if e is Done {
                    issue(c, Action::FlushMetrics)
                } else {
                    fail_after_fork(c, failure_of(e))
                },
                CookieValue::NoResume => drain(c),
            },
            Action::FlushMetrics => issue(
                SuspendConductor { metrics_flushed: true, ..c },
                Action::RedirectLog { sink: LogSink::BufferInMemory },
            ),
            Action::PowerOff => next_power_off(c, e),
            Action::ResetLog => issue(c, Action::RedirectLog { sink: LogSink::BufferInMemory }),
            Action::Thaw => issue(c, Action::RedirectLog { sink: LogSink::Syslog }),
            Action::RedirectLog { sink } => match sink {
                LogSink::File => issue(c, Action::Sync),
                LogSink::BufferInMemory => if c.in_snapshot && !c.options.dry_run {
                    issue(c, Action::PowerOff)
                } else {
                    issue(c, Action::SetCookie { value: CookieValue::NoResume })
                },
                LogSink::Syslog => issue(
                    c,
                    Action::ReplayLogs {
                        push_to_syslog: c.result is Ok && !c.options.dry_run,
                        mark_resumed: !c.options.dry_run,
                    },
                ),
            },
            Action::ReplayLogs { .. } => issue(c, Action::SendMetrics),
            Action::SendMetrics => next_cleanup(c),
            Action::DeleteHiberData => finish(c, c.result),
        },
    }
}

/// The state in which an attempt with `options` starts.
pub open spec fn started(c: SuspendConductor, options: HibernateOptions) -> bool {
    c == SuspendConductor {
        options,
        metadata: empty_metadata(),
        pending: Some(Action::SetupVolume),
        should_zero: false,
        fs_stats: FsStats { free_blocks: 0, total_blocks: 0 },
        in_snapshot: false,
        image_size: 0,
        page_size: 0,
        image_written: false,
        result: Ok(()),
        cookie: CookieValue::NoResume,
        log_sink: LogSink::Syslog,
        metrics_flushed: false,
        frozen: false,
    }
}

/// Position of an action in the order of an attempt's effects. The
/// suspending and the resumed side share numbers but never meet in one run.
pub open spec fn rank(a: Action) -> int {
    match a {
        Action::SetupVolume => 0,
        Action::Preallocate { .. } => 1,
        Action::QueryUpdateEngine => 2,
        Action::ReadFsStats => 3,
        Action::LockMemory => 4,
        Action::SetSwappiness { .. } => 5,
        Action::LoadKeys => 6,
        Action::RedirectLog { sink: LogSink::File } => 7,
        Action::Sync => 8,
        Action::PreallocMemory => 9,
        Action::FreezeUserspace => 10,
        Action::AtomicSnapshot => 11,
        Action::GetImageSize => 12,
        Action::MoveImage { stage } => match stage.kind {
            MoveKind::FirstPage => 13,
            MoveKind::Header => 14,
            MoveKind::Body => 15,
        },
        Action::ReportImageWrite { .. } => 16,
        Action::WriteMetadata => 17,
        Action::SetCookie { value: CookieValue::ResumeReady } => 18,
        Action::FlushMetrics => 19,
        Action::ResetLog => 19,
        Action::RedirectLog { sink: LogSink::BufferInMemory } => 20,
        Action::PowerOff => 21,
        Action::SetCookie { value: CookieValue::NoResume } => 22,
        Action::Thaw => 23,
        Action::RedirectLog { sink: LogSink::Syslog } => 24,
        Action::ReplayLogs { .. } => 25,
        Action::SendMetrics => 26,
        Action::DeleteHiberData => 27,
    }
}

/// The suspending side's image work, from reading its size to writing the
/// metadata.
pub open spec fn image_phase(a: Action) -> bool {
    12 <= rank(a) <= 17
}

/// The suspending side between setting the cookie and clearing it.
pub open spec fn in_cookie_window(c: SuspendConductor) -> bool {
    c.in_snapshot && match c.pending {
        Some(Action::SetCookie { value: CookieValue::ResumeReady }) => true,
        Some(Action::FlushMetrics) => true,
        Some(Action::RedirectLog { sink: LogSink::BufferInMemory }) => true,
        Some(Action::PowerOff) => true,
        _ => false,
    }
}

impl SuspendConductor {
    /// The conductor's invariant.
    pub open spec fn wf(self) -> bool {
        &&& self.metadata.wf()
        &&& self.image_written ==> flags_valid(self.metadata.flags) && !zero_tag(
            self.metadata.data_tag@,
        ) && self.metadata.image_size == self.image_size
        &&& (self.pending matches Some(Action::MoveImage { .. })) ==> geometry_ok(
            self.image_size,
            self.page_size,
        ) && self.metadata.meta_size <= self.image_size
        &&& self.cookie == CookieValue::ResumeReady <==> in_cookie_window(self)
        &&& (self.pending matches Some(a) && rank(a) <= 15) ==> !self.image_written
        &&& (self.pending matches Some(a) && image_phase(a)) ==> self.in_snapshot
        &&& self.pending == Some(Action::ResetLog) ==> !self.in_snapshot
        &&& (self.in_snapshot && self.result is Ok && (self.pending matches Some(a) ==> rank(a)
            >= 16)) ==> self.image_written
        &&& (self.pending matches Some(Action::RedirectLog { sink: LogSink::BufferInMemory })
            && self.in_snapshot) ==> self.metrics_flushed && self.log_sink
            == LogSink::BufferInMemory
        &&& self.pending == Some(Action::PowerOff) ==> self.metrics_flushed && self.log_sink
            == LogSink::BufferInMemory && !self.options.dry_run
    }
}

impl SuspendConductor {
    /// A conductor with no attempt running.
    pub fn new() -> (r: Self)
        ensures
            r.wf(),
            r.pending is None,
            r.result == Ok::<(), HibernateError>(()),
            r.cookie == CookieValue::NoResume,
            r.log_sink == LogSink::Syslog,
            r.metadata == empty_metadata(),
            !r.options.dry_run,
    {
        SuspendConductor {
            options: HibernateOptions { dry_run: false },
            metadata: HibernateMetadata::new(),
            pending: None,
            should_zero: false,
            fs_stats: FsStats { free_blocks: 0, total_blocks: 0 },
            in_snapshot: false,
            image_size: 0,
            page_size: 0,
            image_written: false,
            result: Ok(()),
            cookie: CookieValue::NoResume,
            log_sink: LogSink::Syslog,
            metrics_flushed: false,
            frozen: false,
        }
    }

    /// Starts an attempt with `options`, whatever state the conductor was
    /// left in: the first action is always the volume setup.
    pub fn hibernate(&mut self, options: HibernateOptions) -> (r: Step)
        ensures
            started(*final(self), options),
            r == Step::Run(Action::SetupVolume),
            final(self).wf(),
    {
        *self = SuspendConductor {
            options,
            metadata: HibernateMetadata::new(),
            pending: Some(Action::SetupVolume),
            should_zero: false,
            fs_stats: FsStats { free_blocks: 0, total_blocks: 0 },
            in_snapshot: false,
            image_size: 0,
            page_size: 0,
            image_written: false,
            result: Ok(()),
            cookie: CookieValue::NoResume,
            log_sink: LogSink::Syslog,
            metrics_flushed: false,
            frozen: false,
        };
        Step::Run(Action::SetupVolume)
    }

    fn issue(&mut self, a: Action) -> (r: Step)
        ensures
            (*final(self), r) == issue(*old(self), a),
    {
        match a {
            Action::RedirectLog { sink } => self.log_sink = sink,
            Action::SetCookie { value } => self.cookie = value,
            Action::Thaw => self.frozen = false,
            _ => {},
        }
        self.pending = Some(a);
        Step::Run(a)
    }

    fn finish(&mut self, r: Result<(), HibernateError>) -> (s: Step)
        ensures
            (*final(self), s) == finish(*old(self), r),
    {
        self.pending = None;
        self.result = r;
        Step::Finished(r)
    }

    fn failure_of(e: Event) -> (r: HibernateError)
        ensures
            r == failure_of(e),
    {
        match e {
            Event::Failed(err) => err,
            _ => HibernateError::Environment(ERR_INVALID),
        }
    }

    fn proceed(&mut self, e: Event, a: Action) -> (r: Step)
        ensures
            (*final(self), r) == proceed(*old(self), e, a),
    {
        if let Event::Done = e {
            self.issue(a)
        } else {
            self.finish(Err(Self::failure_of(e)))
        }
    }

    fn fail_after_fork(&mut self, err: HibernateError) -> (r: Step)
        ensures
            (*final(self), r) == fail_after_fork(*old(self), err),
    {
        self.result = Err(err);
        self.issue(Action::SetCookie { value: CookieValue::NoResume })
    }

    fn drain(&mut self) -> (r: Step)
        ensures
            (*final(self), r) == drain(*old(self)),
    {
        if self.frozen {
            self.issue(Action::Thaw)
        } else {
            self.issue(Action::RedirectLog { sink: LogSink::Syslog })
        }
    }

    /// Outcome of freezing userspace: take the snapshot, or record the
    /// failure and drain.
    pub fn suspend_system(&mut self, e: Event) -> (r: Step)
        requires
            old(self).pending == Some(Action::FreezeUserspace),
        ensures
            (*final(self), r) == next(*old(self), e),
    {
        if let Event::Done = e {
            self.frozen = true;
            self.issue(Action::AtomicSnapshot)
        } else {
            self.result = Err(Self::failure_of(e));
            self.drain()
        }
    }

    /// The fork point: on the suspending side write the image, on the
    /// resumed side reset the logger; a failed snapshot thaws and drains.
    pub fn snapshot_and_save(&mut self, e: Event) -> (r: Step)
        requires
            old(self).pending == Some(Action::AtomicSnapshot),
        ensures
            (*final(self), r) == next(*old(self), e),
    {
        match e {
            Event::Snapshot { in_snapshot } => {
                if in_snapshot {
                    self.in_snapshot = true;
                    self.issue(Action::GetImageSize)
                } else {
                    self.in_snapshot = false;
                    self.issue(Action::ResetLog)
                }
            },
            _ => {
                self.result = Err(Self::failure_of(e));
                self.drain()
            },
        }
    }

    /// Stages the image transfer: after the image size, a first page when
    /// the header size is unknown, else the header; after the first page,
    /// the rest of the header; after the header, the body.
    pub fn move_image(&mut self, e: Event) -> (r: Step)
        requires
            old(self).wf(),
            old(self).pending == Some(Action::GetImageSize) || (old(self).pending matches Some(
                Action::MoveImage { stage },
            ) && stage.kind != MoveKind::Body),
        ensures
            (*final(self), r) == next(*old(self), e),
    {
        match self.pending {
            Some(Action::MoveImage { stage }) => {
                match stage.kind {
                    MoveKind::FirstPage => {
                        match e {
                            Event::HeaderParsed { meta_size } => {
                                if meta_size == 0 || meta_size > self.image_size {
                                    self.fail_after_fork(
                                        HibernateError::Io(IoPhase::Header, self.page_size),
                                    )
                                } else {
                                    self.metadata.meta_size = meta_size;
                                    let left = header_remaining(meta_size, self.page_size, true);
                                    let st = header_stage(left, self.page_size);
                                    self.issue(Action::MoveImage { stage: st })
                                }
                            },
                            _ => self.fail_after_fork(Self::failure_of(e)),
                        }
                    },
                    _ => {
                        if let Event::Done = e {
                            let st = body_stage(
                                self.image_size,
                                self.metadata.meta_size,
                                self.page_size,
                            );
                            self.issue(Action::MoveImage { stage: st })
                        } else {
                            self.fail_after_fork(Self::failure_of(e))
                        }
                    },
                }
            },
            _ => {
                match e {
                    Event::ImageSize { image_size, meta_size, page_size } => {
                        if !check_geometry(image_size, page_size) || meta_size > image_size {
                            self.fail_after_fork(
                                HibernateError::Snapshot(SnapshotOp::ImageSize, ERR_INVALID),
                            )
                        } else {
                            self.image_size = image_size;
                            self.page_size = page_size;
                            self.metadata.meta_size = meta_size;
                            if meta_size == 0 {
                                let st = first_page_stage(page_size);
                                self.issue(Action::MoveImage { stage: st })
                            } else {
                                let st = header_stage(meta_size, page_size);
                                self.issue(Action::MoveImage { stage: st })
                            }
                        }
                    },
                    _ => self.fail_after_fork(Self::failure_of(e)),
                }
            },
        }
    }

    /// The body is written with tag `data_tag`: record the image size, the
    /// tag and the valid bit in the metadata. A zero tag fails the attempt
    /// and leaves the metadata as it was.
    pub fn write_image(&mut self, data_tag: [u8; META_TAG_SIZE]) -> (r: Step)
        requires
            old(self).wf(),
            old(self).pending matches Some(Action::MoveImage { stage }) && stage.kind
                == MoveKind::Body,
        ensures
            (*final(self), r) == next_write_image(*old(self), data_tag),
            !zero_tag(data_tag@) ==> final(self).metadata == written_metadata(
                old(self).metadata,
                old(self).image_size,
                data_tag,
            ) && final(self).image_written && r == Step::Run(
                Action::ReportImageWrite { bytes: old(self).image_size },
            ),
            zero_tag(data_tag@) ==> final(self).metadata == old(self).metadata
                && final(self).result == Err::<(), HibernateError>(
                HibernateError::Io(IoPhase::Body, old(self).image_size),
            ),
            final(self).image_written ==> flags_valid(final(self).metadata.flags)
                && !zero_tag(final(self).metadata.data_tag@)
                && final(self).metadata.image_size == final(self).image_size,
    {
        let image_size = self.image_size;
        let mut m = self.metadata;
        if m.mark_written(image_size, data_tag) {
            self.metadata = m;
            self.image_written = true;
            self.issue(Action::ReportImageWrite { bytes: image_size })
        } else {
            self.fail_after_fork(HibernateError::Io(IoPhase::Body, image_size))
        }
    }

    /// The power-off call returned: fail with its error code and clear the
    /// cookie.
    pub fn power_off(&mut self, e: Event) -> (r: Step)
        requires
            old(self).pending == Some(Action::PowerOff),
        ensures
            (*final(self), r) == next(*old(self), e),
    {
        match e {
            Event::PowerOffReturned { errno } => self.fail_after_fork(
                HibernateError::Shutdown(errno),
            ),
            _ => self.fail_after_fork(Self::failure_of(e)),
        }
    }

    /// Last step of an attempt: release the hiber data when the stateful
    /// file system is low on space, else end the attempt.
    pub fn delete_data_if_disk_full(&mut self) -> (r: Step)
        ensures
            (*final(self), r) == next_cleanup(*old(self)),
    {
        if self.fs_stats.is_low_on_space() {
            self.issue(Action::DeleteHiberData)
        } else {
            let res = self.result;
            self.finish(res)
        }
    }
    /// Takes the outcome of the pending action and hands out the next one,
    /// or ends the attempt. With no attempt running it only repeats the last
    /// outcome.
    pub fn step(&mut self, e: Event) -> (r: Step)
        requires
            old(self).wf(),
        ensures
            (*final(self), r) == next(*old(self), e),
            final(self).wf(),
    {
        proof {
            lemma_next_wf(*self, e);
        }
        let a = match self.pending {
            None => {
                return Step::Finished(self.result);
            },
            Some(a) => a,
        };
        match a {
            Action::SetupVolume => match e {
                Event::Probed { is_lvm, files_exist } => {
                    let should_zero = is_lvm && !files_exist;
                    self.should_zero = should_zero;
                    self.issue(Action::Preallocate { should_zero })
                },
                _ => self.finish(Err(Self::failure_of(e))),
            },
            Action::Preallocate { .. } => self.proceed(e, Action::QueryUpdateEngine),
            Action::QueryUpdateEngine => match e {
                Event::UpdateEngine { idle } => {
                    if idle {
                        self.issue(Action::ReadFsStats)
                    } else {
                        self.finish(Err(HibernateError::UpdateEngineBusy))
                    }
                },
                _ => self.finish(Err(Self::failure_of(e))),
            },
            Action::ReadFsStats => match e {
                Event::FsStatsRead(st) => {
                    self.fs_stats = st;
                    self.issue(Action::LockMemory)
                },
                _ => self.finish(Err(Self::failure_of(e))),
            },
            Action::LockMemory => self.proceed(
                e,
                Action::SetSwappiness { swappiness: SUSPEND_SWAPPINESS },
            ),
            Action::SetSwappiness { .. } => self.proceed(e, Action::LoadKeys),
            Action::LoadKeys => self.proceed(e, Action::RedirectLog { sink: LogSink::File }),
            Action::Sync => self.issue(Action::PreallocMemory),
            Action::PreallocMemory => self.proceed(e, Action::FreezeUserspace),
            Action::FreezeUserspace => self.suspend_system(e),
            Action::AtomicSnapshot => self.snapshot_and_save(e),
            Action::GetImageSize => self.move_image(e),
            Action::MoveImage { stage } => match stage.kind {
                MoveKind::Body => match e {
                    Event::BodyWritten { data_tag } => self.write_image(data_tag),
                    _ => self.fail_after_fork(Self::failure_of(e)),
                },
                _ => self.move_image(e),
            },
            Action::ReportImageWrite { .. } => self.issue(Action::WriteMetadata),
            Action::WriteMetadata => {
                if let Event::Done = e {
                    self.issue(Action::SetCookie { value: CookieValue::ResumeReady })
                } else {
                    self.fail_after_fork(Self::failure_of(e))
                }
            },
            Action::SetCookie { value } => match value {
                CookieValue::ResumeReady => {
                    if let Event::Done = e {
                        self.issue(Action::FlushMetrics)
                    } else {
                        self.fail_after_fork(Self::failure_of(e))
                    }
                },
                CookieValue::NoResume => self.drain(),
            },
            Action::FlushMetrics => {
                self.metrics_flushed = true;
                self.issue(Action::RedirectLog { sink: LogSink::BufferInMemory })
            },
            Action::PowerOff => self.power_off(e),
            Action::ResetLog => self.issue(Action::RedirectLog { sink: LogSink::BufferInMemory }),
            Action::Thaw => self.issue(Action::RedirectLog { sink: LogSink::Syslog }),
            Action::RedirectLog { sink } => match sink {
                LogSink::File => self.issue(Action::Sync),
                LogSink::BufferInMemory => {
                    if self.in_snapshot && !self.options.dry_run {
                        self.issue(Action::PowerOff)
                    } else {
                        self.issue(Action::SetCookie { value: CookieValue::NoResume })
                    }
                },
                LogSink::Syslog => {
                    let push_to_syslog = self.result.is_ok() && !self.options.dry_run;
                    let mark_resumed = !self.options.dry_run;
                    self.issue(Action::ReplayLogs { push_to_syslog, mark_resumed })
                },
            },
            Action::ReplayLogs { .. } => self.issue(Action::SendMetrics),
            Action::SendMetrics => self.delete_data_if_disk_full(),
            Action::DeleteHiberData => {
                let res = self.result;
                self.finish(res)
            },
        }
    }
}

/// Every transition keeps the invariant.
#[verifier::rlimit(100)]
pub proof fn lemma_next_wf(c: SuspendConductor, e: Event)
    requires
        c.wf(),
    ensures
        next(c, e).0.wf(),
{
    match c.pending {
        None => {},
        Some(a) => {
            if let Action::MoveImage { stage } = a {
                if stage.kind == MoveKind::Body {
                    if let Event::BodyWritten { data_tag } = e {
                        let f = c.metadata.flags;
                        assert((f | 1u32) & 1u32 != 0) by (bit_vector);
                        assert(next(c, e) == next_write_image(c, data_tag));
                    } else {
                        assert(next(c, e) == fail_after_fork(c, failure_of(e)));
                    }
                } else {
                    assert(next(c, e) == next_move(c, stage.kind, e));
                }
            } else if a is GetImageSize {
                assert(next(c, e) == next_image_size(c, e));
            } else if rank(a) <= 11 {
                assert(next(c, e).0.wf());
            } else {
                assert(next(c, e).0.wf());
            }
        },
    }
}


/// Actions handed out when the events `evs` are reported one by one,
/// up to the end of the attempt.
pub open spec fn actions_of(c: SuspendConductor, evs: Seq<Event>) -> Seq<Action>
    decreases evs.len(),
{
    if evs.len() == 0 {
        Seq::empty()
    } else {
        match next(c, evs[0]).1 {
            Step::Run(a) => seq![a] + actions_of(next(c, evs[0]).0, evs.drop_first()),
            Step::Finished(_) => Seq::empty(),
        }
    }
}

/// Every action of an attempt started in `c`, the first one included.
pub open spec fn trace_of(c: SuspendConductor, evs: Seq<Event>) -> Seq<Action> {
    seq![Action::SetupVolume] + actions_of(c, evs)
}

/// Wherever both `a` and `b` occur in `t`, `a` comes first.
pub open spec fn comes_before(t: Seq<Action>, a: Action, b: Action) -> bool {
    forall|i: int, j: int| 0 <= i < t.len() && 0 <= j < t.len() && t[i] == a && t[j] == b ==> i < j
}

/// Each action handed out ranks above the one reported on.
#[verifier::rlimit(100)]
pub proof fn lemma_next_rank(c: SuspendConductor, e: Event)
    requires
        c.pending is Some,
    ensures
        next(c, e).1 matches Step::Run(a) ==> rank(a) > rank(c.pending->0)
            && next(c, e).0.pending == Some(a),
        next(c, e).1 is Finished ==> next(c, e).0.pending is None,
{
    let a = c.pending->0;
    if let Action::MoveImage { stage } = a {
        if stage.kind == MoveKind::Body {
            if let Event::BodyWritten { data_tag } = e {
                assert(next(c, e) == next_write_image(c, data_tag));
            }
        } else {
            assert(next(c, e) == next_move(c, stage.kind, e));
        }
    } else if a is GetImageSize {
        assert(next(c, e) == next_image_size(c, e));
    }
}

/// The actions of a run rank strictly upwards from the pending one.
pub proof fn lemma_actions_ascend(c: SuspendConductor, evs: Seq<Event>)
    requires
        c.pending is Some,
    ensures
        forall|i: int|
            0 <= i < actions_of(c, evs).len() ==> rank(#[trigger] actions_of(c, evs)[i]) > rank(
                c.pending->0,
            ),
        forall|i: int, j: int|
            0 <= i < j < actions_of(c, evs).len() ==> rank(actions_of(c, evs)[i]) < rank(
                actions_of(c, evs)[j],
            ),
    decreases evs.len(),
{
    if evs.len() > 0 {
        lemma_next_rank(c, evs[0]);
        if let Step::Run(a) = next(c, evs[0]).1 {
            let c2 = next(c, evs[0]).0;
            let rest = evs.drop_first();
            lemma_actions_ascend(c2, rest);
            let t = actions_of(c, evs);
            assert(t == seq![a] + actions_of(c2, rest));
            assert forall|i: int, j: int| 0 <= i < j < t.len() implies rank(t[i]) < rank(t[j]) by {
                if i > 0 {
                    assert(t[i] == actions_of(c2, rest)[i - 1]);
                }
                assert(t[j] == actions_of(c2, rest)[j - 1]);
            }
            assert forall|i: int| 0 <= i < t.len() implies rank(#[trigger] t[i]) > rank(
                c.pending->0,
            ) by {
                if i > 0 {
                    assert(t[i] == actions_of(c2, rest)[i - 1]);
                }
            }
        }
    }
}

/// An attempt's effects come in order: the sync before the freeze, the
/// freeze before the snapshot, the metadata write before the cookie is set
/// to `ResumeReady`, and that cookie write before the power-off.
pub proof fn lemma_effects_in_order(c: SuspendConductor, evs: Seq<Event>)
    requires
        started(c, c.options),
    ensures
        comes_before(trace_of(c, evs), Action::Sync, Action::FreezeUserspace),
        comes_before(trace_of(c, evs), Action::FreezeUserspace, Action::AtomicSnapshot),
        comes_before(
            trace_of(c, evs),
            Action::WriteMetadata,
            Action::SetCookie { value: CookieValue::ResumeReady },
        ),
        comes_before(
            trace_of(c, evs),
            Action::SetCookie { value: CookieValue::ResumeReady },
            Action::PowerOff,
        ),
{
    lemma_actions_ascend(c, evs);
    let t = trace_of(c, evs);
    let u = actions_of(c, evs);
    assert forall|i: int, j: int| 0 <= i < j < t.len() implies rank(t[i]) < rank(t[j]) by {
        assert(t[j] == u[j - 1]);
        if i > 0 {
            assert(t[i] == u[i - 1]);
        }
    }
}

/// An attempt that ends leaves the cookie cleared: the last value handed
/// out to be written to it is `NoResume`, whatever happened after the fork.
pub proof fn lemma_finished_cookie_cleared(c: SuspendConductor)
    requires
        c.wf(),
        c.pending is None,
    ensures
        c.cookie == CookieValue::NoResume,
{
}

/// When the power-off is handed out, the metrics have been flushed and the
/// log goes to the in-memory buffer.
pub proof fn lemma_power_off_after_flush(c: SuspendConductor)
    requires
        c.wf(),
        c.pending == Some(Action::PowerOff),
    ensures
        c.metrics_flushed,
        c.log_sink == LogSink::BufferInMemory,
{
}

/// An attempt that wrote the image and ended in success holds valid
/// metadata: the valid bit, a computed tag and the reported image size.
pub proof fn lemma_success_has_valid_image(c: SuspendConductor)
    requires
        c.wf(),
        c.pending is None,
        c.in_snapshot,
        c.result is Ok,
    ensures
        flags_valid(c.metadata.flags),
        !zero_tag(c.metadata.data_tag@),
        c.metadata.image_size == c.image_size,
        c.image_size > 0,
{
}

/// Backing files are asked to be zero-filled exactly on an LVM system whose
/// hibernate files did not exist yet.
pub proof fn lemma_zero_fill_request(c: SuspendConductor, is_lvm: bool, files_exist: bool)
    requires
        c.pending == Some(Action::SetupVolume),
    ensures
        next(c, Event::Probed { is_lvm, files_exist }).1 == Step::Run(
            Action::Preallocate { should_zero: is_lvm && !files_exist },
        ),
{
}

/// A new attempt does not depend on earlier ones: two conductors started
/// with the same options, whatever they did before, answer every sequence
/// of events alike.
pub proof fn lemma_attempt_repeatable(
    x: SuspendConductor,
    y: SuspendConductor,
    options: HibernateOptions,
    evs: Seq<Event>,
)
    requires
        started(x, options),
        started(y, options),
    ensures
        actions_of(x, evs) == actions_of(y, evs),
{
}

} // verus!
