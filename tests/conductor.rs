use hiberman::disk::FsStats;
use hiberman::error::{HibernateError, IoPhase, SnapshotOp};
use hiberman::metadata::META_FLAG_VALID;
use hiberman::pipeline::MoveKind;
use hiberman::suspend::{
    Action, CookieValue, Event, HibernateOptions, LogSink, Step, SuspendConductor,
};

/// A scripted platform that answers every action and records what it saw.
struct Platform {
    idle: bool,
    is_lvm: bool,
    files_exist: bool,
    stats: FsStats,
    snapshot: Result<bool, HibernateError>,
    image_size: u64,
    meta_on_entry: u64,
    meta_parsed: u64,
    page_size: u64,
    tag: [u8; 16],
    flush_fails: bool,
    trace: Vec<Action>,
    cookie_writes: Vec<CookieValue>,
    flushed_before_power_off: Option<bool>,
    sink_at_power_off: Option<LogSink>,
    warnings: u32,
    metadata_bytes: Vec<u8>,
}

impl Platform {
    fn new() -> Platform {
        Platform {
            idle: true,
            is_lvm: true,
            files_exist: false,
            stats: FsStats { free_blocks: 50, total_blocks: 100 },
            snapshot: Ok(true),
            image_size: 268435456,
            meta_on_entry: 0,
            meta_parsed: 9000,
            page_size: 4096,
            tag: [7u8; 16],
            flush_fails: false,
            trace: Vec::new(),
            cookie_writes: Vec::new(),
            flushed_before_power_off: None,
            sink_at_power_off: None,
            warnings: 0,
            metadata_bytes: Vec::new(),
        }
    }

    fn answer(&mut self, c: &SuspendConductor, a: Action) -> Event {
        self.trace.push(a);
        match a {
            Action::SetupVolume => Event::Probed { is_lvm: self.is_lvm, files_exist: self.files_exist },
            Action::QueryUpdateEngine => Event::UpdateEngine { idle: self.idle },
            Action::ReadFsStats => Event::FsStatsRead(self.stats),
            Action::AtomicSnapshot => match self.snapshot {
                Ok(s) => Event::Snapshot { in_snapshot: s },
                Err(e) => Event::Failed(e),
            },
            Action::GetImageSize => Event::ImageSize {
                image_size: self.image_size,
                meta_size: self.meta_on_entry,
                page_size: self.page_size,
            },
            Action::MoveImage { stage } => match stage.kind {
                MoveKind::FirstPage => Event::HeaderParsed { meta_size: self.meta_parsed },
                MoveKind::Header => Event::Done,
                MoveKind::Body => Event::BodyWritten { data_tag: self.tag },
            },
            Action::WriteMetadata => {
                self.metadata_bytes = c.metadata.to_bytes();
                Event::Done
            },
            Action::SetCookie { value } => {
                self.cookie_writes.push(value);
                Event::Done
            },
            Action::FlushMetrics => {
                if self.flush_fails {
                    self.warnings += 1;
                    Event::Failed(HibernateError::Environment(5))
                } else {
                    Event::Done
                }
            },
            Action::PowerOff => {
                self.flushed_before_power_off = Some(c.metrics_flushed);
                self.sink_at_power_off = Some(c.log_sink);
                Event::PowerOffReturned { errno: 1 }
            },
            _ => Event::Done,
        }
    }
}

fn run(c: &mut SuspendConductor, p: &mut Platform, options: HibernateOptions) -> Result<(), HibernateError> {
    let mut step = c.hibernate(options);
    let mut n = 0;
    loop {
        match step {
            Step::Finished(r) => return r,
            Step::Run(a) => {
                let e = p.answer(c, a);
                step = c.step(e);
            },
        }
        n += 1;
        assert!(n < 100);
    }
}

fn position(t: &[Action], a: Action) -> Option<usize> {
    t.iter().position(|x| *x == a)
}

#[test]
fn dry_run_happy_path() {
    let mut c = SuspendConductor::new();
    let mut p = Platform::new();
    let r = run(&mut c, &mut p, HibernateOptions { dry_run: true });
    assert_eq!(r, Ok(()));
    assert_eq!(c.metadata.image_size, 268435456);
    assert!(c.metadata.flags & META_FLAG_VALID != 0);
    assert_eq!(c.metadata.data_tag, [7u8; 16]);
    assert_eq!(p.cookie_writes, vec![CookieValue::ResumeReady, CookieValue::NoResume]);
    assert_eq!(c.cookie, CookieValue::NoResume);
    assert!(position(&p.trace, Action::PowerOff).is_none());
    assert!(p.trace.contains(&Action::Preallocate { should_zero: true }));
    assert!(p.trace.contains(&Action::SetSwappiness { swappiness: 100 }));
    assert!(p.trace.contains(&Action::ReplayLogs { push_to_syslog: false, mark_resumed: false }));
    assert_eq!(c.log_sink, LogSink::Syslog);
}

#[test]
fn update_engine_busy() {
    let mut c = SuspendConductor::new();
    let mut p = Platform::new();
    p.idle = false;
    let r = run(&mut c, &mut p, HibernateOptions { dry_run: false });
    assert_eq!(r, Err(HibernateError::UpdateEngineBusy));
    assert!(p.cookie_writes.is_empty());
    assert!(position(&p.trace, Action::FreezeUserspace).is_none());
    assert_eq!(p.trace.last(), Some(&Action::QueryUpdateEngine));
}

#[test]
fn snapshot_ioctl_fails() {
    let mut c = SuspendConductor::new();
    let mut p = Platform::new();
    let err = HibernateError::Snapshot(SnapshotOp::AtomicSnapshot, 16);
    p.snapshot = Err(err);
    let r = run(&mut c, &mut p, HibernateOptions { dry_run: false });
    assert_eq!(r, Err(err));
    assert!(p.trace.contains(&Action::Thaw));
    assert!(p.cookie_writes.is_empty());
    assert_eq!(c.cookie, CookieValue::NoResume);
    assert!(position(&p.trace, Action::GetImageSize).is_none());
}

#[test]
fn low_disk_cleanup() {
    let mut c = SuspendConductor::new();
    let mut p = Platform::new();
    p.stats = FsStats { free_blocks: 7, total_blocks: 100 };
    let r = run(&mut c, &mut p, HibernateOptions { dry_run: true });
    assert_eq!(r, Ok(()));
    assert_eq!(p.trace.last(), Some(&Action::DeleteHiberData));

    let mut c = SuspendConductor::new();
    let mut p = Platform::new();
    p.stats = FsStats { free_blocks: 10, total_blocks: 100 };
    run(&mut c, &mut p, HibernateOptions { dry_run: true }).unwrap();
    assert!(position(&p.trace, Action::DeleteHiberData).is_none());
}

#[test]
fn header_size_unknown_on_entry() {
    let mut c = SuspendConductor::new();
    let mut p = Platform::new();
    run(&mut c, &mut p, HibernateOptions { dry_run: true }).unwrap();
    let stages: Vec<_> = p
        .trace
        .iter()
        .filter_map(|a| match a {
            Action::MoveImage { stage } => Some(*stage),
            _ => None,
        })
        .collect();
    assert_eq!(stages.len(), 3);
    assert_eq!(stages[0].kind, MoveKind::FirstPage);
    assert_eq!(stages[0].transfer_bytes, 4096);
    assert_eq!(stages[1].kind, MoveKind::Header);
    assert_eq!(stages[1].source_bytes, 4904);
    assert_eq!(stages[1].transfer_bytes, 8192);
    assert_eq!(stages[1].chunk_bytes, 4096 * 32);
    assert_eq!(stages[2].kind, MoveKind::Body);
    assert_eq!(stages[2].source_bytes, 268435456 - 9000);
    assert_eq!(stages[2].transfer_bytes, 268427264);
    assert!(stages[2].pad_output);
    assert_eq!(c.metadata.meta_size, 9000);
}

#[test]
fn header_size_known_on_entry() {
    let mut c = SuspendConductor::new();
    let mut p = Platform::new();
    p.meta_on_entry = 4096;
    run(&mut c, &mut p, HibernateOptions { dry_run: true }).unwrap();
    let kinds: Vec<_> = p
        .trace
        .iter()
        .filter_map(|a| match a {
            Action::MoveImage { stage } => Some(stage.kind),
            _ => None,
        })
        .collect();
    assert_eq!(kinds, vec![MoveKind::Header, MoveKind::Body]);
}

#[test]
fn metrics_flush_failure() {
    let mut c = SuspendConductor::new();
    let mut p = Platform::new();
    p.flush_fails = true;
    let r = run(&mut c, &mut p, HibernateOptions { dry_run: false });
    assert_eq!(p.warnings, 1);
    assert!(p.trace.contains(&Action::PowerOff));
    // The scripted power-off returns, which is the only failure here.
    assert_eq!(r, Err(HibernateError::Shutdown(1)));
}

#[test]
fn power_off_after_flush_and_memory_log() {
    let mut c = SuspendConductor::new();
    let mut p = Platform::new();
    let r = run(&mut c, &mut p, HibernateOptions { dry_run: false });
    assert_eq!(r, Err(HibernateError::Shutdown(1)));
    assert_eq!(p.flushed_before_power_off, Some(true));
    assert_eq!(p.sink_at_power_off, Some(LogSink::BufferInMemory));
    assert_eq!(p.cookie_writes, vec![CookieValue::ResumeReady, CookieValue::NoResume]);
    assert_eq!(c.cookie, CookieValue::NoResume);
}

#[test]
fn effects_in_order() {
    let mut c = SuspendConductor::new();
    let mut p = Platform::new();
    let _ = run(&mut c, &mut p, HibernateOptions { dry_run: false });
    let t = &p.trace;
    let sync = position(t, Action::Sync).unwrap();
    let freeze = position(t, Action::FreezeUserspace).unwrap();
    let snap = position(t, Action::AtomicSnapshot).unwrap();
    let meta = position(t, Action::WriteMetadata).unwrap();
    let ready = position(t, Action::SetCookie { value: CookieValue::ResumeReady }).unwrap();
    let off = position(t, Action::PowerOff).unwrap();
    assert!(sync < freeze && freeze < snap && meta < ready && ready < off);
}

#[test]
fn resume_side_clears_cookie() {
    let mut c = SuspendConductor::new();
    let mut p = Platform::new();
    p.snapshot = Ok(false);
    let r = run(&mut c, &mut p, HibernateOptions { dry_run: false });
    assert_eq!(r, Ok(()));
    assert_eq!(p.cookie_writes, vec![CookieValue::NoResume]);
    let reset = position(&p.trace, Action::ResetLog).unwrap();
    let mem = position(&p.trace, Action::RedirectLog { sink: LogSink::BufferInMemory }).unwrap();
    assert!(reset < mem);
    assert!(p.trace.contains(&Action::ReplayLogs { push_to_syslog: true, mark_resumed: true }));
}

#[test]
fn second_attempt_like_first() {
    let mut c = SuspendConductor::new();
    let mut p = Platform::new();
    run(&mut c, &mut p, HibernateOptions { dry_run: true }).unwrap();
    let first = p.trace.clone();
    let mut p2 = Platform::new();
    run(&mut c, &mut p2, HibernateOptions { dry_run: true }).unwrap();
    assert_eq!(first, p2.trace);
    assert_eq!(c.metadata.image_size, 268435456);
}

#[test]
fn existing_files_not_zeroed() {
    let mut c = SuspendConductor::new();
    let mut p = Platform::new();
    p.files_exist = true;
    run(&mut c, &mut p, HibernateOptions { dry_run: true }).unwrap();
    assert!(p.trace.contains(&Action::Preallocate { should_zero: false }));
    let mut p = Platform::new();
    p.is_lvm = false;
    run(&mut c, &mut p, HibernateOptions { dry_run: true }).unwrap();
    assert!(p.trace.contains(&Action::Preallocate { should_zero: false }));
}

#[test]
fn zero_tag_fails_after_fork() {
    let mut c = SuspendConductor::new();
    let mut p = Platform::new();
    p.tag = [0u8; 16];
    let r = run(&mut c, &mut p, HibernateOptions { dry_run: true });
    assert_eq!(r, Err(HibernateError::Io(IoPhase::Body, 268435456)));
    assert_eq!(c.metadata.flags & META_FLAG_VALID, 0);
    assert_eq!(p.cookie_writes, vec![CookieValue::NoResume]);
}

#[test]
fn bad_page_size_fails() {
    let mut c = SuspendConductor::new();
    let mut p = Platform::new();
    p.page_size = 0;
    let r = run(&mut c, &mut p, HibernateOptions { dry_run: true });
    assert_eq!(r, Err(HibernateError::Snapshot(SnapshotOp::ImageSize, 22)));
    assert_eq!(c.cookie, CookieValue::NoResume);
}

#[test]
fn unparsed_header_fails() {
    let mut c = SuspendConductor::new();
    let mut p = Platform::new();
    p.meta_parsed = 0;
    let r = run(&mut c, &mut p, HibernateOptions { dry_run: true });
    assert_eq!(r, Err(HibernateError::Io(IoPhase::Header, 4096)));
}

#[test]
fn early_failure_ends_attempt() {
    let mut c = SuspendConductor::new();
    assert!(matches!(c.hibernate(HibernateOptions { dry_run: false }), Step::Run(Action::SetupVolume)));
    let err = HibernateError::Preallocation(28);
    match c.step(Event::Probed { is_lvm: true, files_exist: true }) {
        Step::Run(Action::Preallocate { should_zero }) => assert!(!should_zero),
        _ => panic!("expected preallocation"),
    }
    match c.step(Event::Failed(err)) {
        Step::Finished(r) => assert_eq!(r, Err(err)),
        _ => panic!("expected the end of the attempt"),
    }
    assert!(c.pending.is_none());
}

#[test]
fn freeze_failure_drains_without_thaw() {
    let mut c = SuspendConductor::new();
    let mut p = Platform::new();
    c.hibernate(HibernateOptions { dry_run: false });
    let mut step = Step::Run(Action::SetupVolume);
    let err = HibernateError::Snapshot(SnapshotOp::Freeze, 16);
    loop {
        match step {
            Step::Finished(r) => {
                assert_eq!(r, Err(err));
                break;
            },
            Step::Run(Action::FreezeUserspace) => {
                p.trace.push(Action::FreezeUserspace);
                step = c.step(Event::Failed(err));
            },
            Step::Run(a) => {
                let e = p.answer(&c, a);
                step = c.step(e);
            },
        }
    }
    assert!(!p.trace.contains(&Action::Thaw));
    assert!(p.trace.contains(&Action::RedirectLog { sink: LogSink::Syslog }));
}

#[test]
fn unexpected_report_is_an_error() {
    let mut c = SuspendConductor::new();
    c.hibernate(HibernateOptions { dry_run: false });
    match c.step(Event::UpdateEngine { idle: true }) {
        Step::Finished(r) => assert_eq!(r, Err(HibernateError::Environment(22))),
        _ => panic!("expected the end of the attempt"),
    }
}

#[test]
fn idle_conductor_repeats_outcome() {
    let mut c = SuspendConductor::new();
    match c.step(Event::Done) {
        Step::Finished(r) => assert_eq!(r, Ok(())),
        _ => panic!("no attempt is running"),
    }
    assert!(c.pending.is_none());
}
