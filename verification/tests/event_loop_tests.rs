use coretools::event_loop::{
    decode_event, format_line, render_mask, LoopState, RawEvent, WatcherSession,
};
use coretools::mask;
use coretools::registry::WatchRegistry;

use inotify::EventMask;

fn sample_registry() -> WatchRegistry {
    let mut reg = WatchRegistry::new();
    reg.register(1, "watched/dir".to_string());
    reg.register(2, "other".to_string());
    reg
}

fn ev(handle: u64, m: u32, name: Option<&str>) -> RawEvent {
    RawEvent { handle, mask: m, child_name: name.map(|n| n.to_string()) }
}

#[test]
fn rendering_matches_the_native_debug_form() {
    for m in [
        0u32,
        mask::CREATE,
        mask::CREATE | 0x4000_0000,
        mask::DELETE | mask::MODIFY | mask::OPEN,
        0x8000 | 0x2000 | 0x4000,
        mask::ACCESS | 0x0100_0000, // an unknown bit
        0x0100_0000,
        mask::DEFAULT_MASK,
    ] {
        let native = format!("{:?}", EventMask::from_bits_retain(m));
        assert_eq!(render_mask(m), native, "mask {:#x}", m);
    }
}

#[test]
fn lines_carry_path_mask_and_child() {
    let reg = sample_registry();
    let line = format_line(&reg, &ev(1, mask::CREATE, Some("new.txt")));
    assert_eq!(line, "watched/dir\tEventMask(CREATE) new.txt");
    let line = format_line(&reg, &ev(2, mask::DELETE | mask::MODIFY, None));
    assert_eq!(line, "other\tEventMask(DELETE | MODIFY) ");
}

/// A handle that no registration produced decodes to an empty path and does
/// not stop anything.
#[test]
fn unknown_handle_decodes_to_empty_path() {
    let reg = sample_registry();
    let rec = decode_event(&reg, ev(99, mask::OPEN, None));
    assert_eq!(rec.source_path, "");
    assert_eq!(rec.kinds, mask::OPEN);
    let line = format_line(&reg, &ev(99, mask::OPEN, None));
    assert_eq!(line, "\tEventMask(OPEN) ");
    // the loop keeps going: a later event still decodes normally
    let mut session = WatcherSession::new(reg, mask::DEFAULT_MASK, true);
    session.begin_watching();
    let batch = vec![ev(99, mask::OPEN, None), ev(1, mask::CREATE, Some("f"))];
    let lines = session.process_batch(&batch);
    assert_eq!(lines.len(), 2);
    assert_eq!(lines[1], "watched/dir\tEventMask(CREATE) f");
    assert!(matches!(session.state, LoopState::Watching));
}

/// One-shot mode emits exactly one line of a two-event batch and ends;
/// monitor mode emits both and keeps watching.
#[test]
fn one_shot_stops_mid_batch_monitor_does_not() {
    let batch = vec![
        ev(1, mask::CREATE, Some("a.txt")),
        ev(1, mask::DELETE, Some("b.txt")),
    ];

    let mut one_shot = WatcherSession::new(sample_registry(), mask::DEFAULT_MASK, false);
    one_shot.begin_watching();
    let lines = one_shot.process_batch(&batch);
    assert_eq!(lines.len(), 1);
    assert_eq!(lines[0], "watched/dir\tEventMask(CREATE) a.txt");
    assert!(matches!(one_shot.state, LoopState::TerminatedOneShot));

    let mut monitor = WatcherSession::new(sample_registry(), mask::DEFAULT_MASK, true);
    monitor.begin_watching();
    let lines = monitor.process_batch(&batch);
    assert_eq!(lines.len(), 2);
    assert_eq!(lines[0], "watched/dir\tEventMask(CREATE) a.txt");
    assert_eq!(lines[1], "watched/dir\tEventMask(DELETE) b.txt");
    assert!(matches!(monitor.state, LoopState::Watching));
    // the next batch is processed as well
    let more = monitor.process_batch(&vec![ev(2, mask::OPEN, None)]);
    assert_eq!(more.len(), 1);
    assert_eq!(more[0], "other\tEventMask(OPEN) ");
}

#[test]
fn empty_batch_keeps_one_shot_waiting() {
    let mut session = WatcherSession::new(sample_registry(), mask::DEFAULT_MASK, false);
    session.begin_watching();
    let lines = session.process_batch(&Vec::new());
    assert!(lines.is_empty());
    assert!(matches!(session.state, LoopState::Watching));
}

#[test]
fn a_channel_failure_ends_the_session() {
    let mut session = WatcherSession::new(sample_registry(), mask::DEFAULT_MASK, true);
    session.begin_watching();
    let e = session.channel_failed();
    assert_eq!(e.message(), "failed to read inotify event");
    assert!(matches!(session.state, LoopState::TerminatedError));
}
