//! The blocking read/decode/print cycle of the watcher, as a state machine
//! over plain values.
//!
//! The blocking read against the notification channel happens outside this
//! library; each batch of raw events is handed in as plain values, and
//! `process_batch` is verified for every batch the channel could return. The
//! termination policy — one-shot mode stops after the first event of a batch,
//! even mid-batch; monitor mode emits the whole batch and blocks again — is
//! part of the contract.

use vstd::prelude::*;

use crate::errors::WatchError;
use crate::mask::{
    ACCESS, ATTRIB, CLOSE_NOWRITE, CLOSE_WRITE, CREATE, DELETE, DELETE_SELF, MODIFY, MOVED_FROM,
    MOVED_TO, MOVE_SELF, OPEN,
};
use crate::numfmt::{hex_spec, u32_to_hex};
use crate::registry::{resolve_spec, WatchRegistry};

verus! {

/// Event-only mask bits reported by the facility beside the watchable kinds.
pub const IGNORED: u32 = 0x8000;
pub const ISDIR: u32 = 0x40000000;
pub const Q_OVERFLOW: u32 = 0x4000;
pub const UNMOUNT: u32 = 0x2000;

/// Every mask bit with a kind name.
pub const KNOWN_BITS: u32 = ACCESS | ATTRIB | CLOSE_WRITE | CLOSE_NOWRITE | CREATE | DELETE
    | DELETE_SELF | MODIFY | MOVE_SELF | MOVED_FROM | MOVED_TO | OPEN | IGNORED | ISDIR
    | Q_OVERFLOW | UNMOUNT;

/// One raw unit from the notification channel: the handle of the watch that
/// fired, the native mask of the event, and the optional name of the child
/// entry the event concerns.
pub struct RawEvent {
    pub handle: u64,
    pub mask: u32,
    pub child_name: Option<String>,
}

/// One decoded unit of observation.
pub struct EventRecord {
    pub source_path: String,
    pub kinds: u32,
    pub child_name: Option<String>,
}

/// The kind-name table, in the facility's declaration order.
pub open spec fn kind_table() -> Seq<(u32, Seq<char>)> {
    seq![
        (ACCESS, "ACCESS"@),
        (ATTRIB, "ATTRIB"@),
        (CLOSE_WRITE, "CLOSE_WRITE"@),
        (CLOSE_NOWRITE, "CLOSE_NOWRITE"@),
        (CREATE, "CREATE"@),
        (DELETE, "DELETE"@),
        (DELETE_SELF, "DELETE_SELF"@),
        (MODIFY, "MODIFY"@),
        (MOVE_SELF, "MOVE_SELF"@),
        (MOVED_FROM, "MOVED_FROM"@),
        (MOVED_TO, "MOVED_TO"@),
        (OPEN, "OPEN"@),
        (IGNORED, "IGNORED"@),
        (ISDIR, "ISDIR"@),
        (Q_OVERFLOW, "Q_OVERFLOW"@),
        (UNMOUNT, "UNMOUNT"@),
    ]
}

pub open spec fn maybe_name(m: u32, bit: u32, name: Seq<char>) -> Seq<Seq<char>> {
    if m & bit != 0 {
        seq![name]
    } else {
        Seq::empty()
    }
}

pub open spec fn parts_from(m: u32, tbl: Seq<(u32, Seq<char>)>) -> Seq<Seq<char>>
    decreases tbl.len(),
{
    if tbl.len() == 0 {
        Seq::empty()
    } else {
        parts_from(m, tbl.drop_last()) + maybe_name(m, tbl.last().0, tbl.last().1)
    }
}

/// The kind names set in a mask, in declaration order.
pub open spec fn mask_name_parts(m: u32) -> Seq<Seq<char>> {
    parts_from(m, kind_table())
}

/// The trailing hexadecimal part for bits with no kind name.
pub open spec fn hex_part(m: u32) -> Seq<Seq<char>> {
    if m & !KNOWN_BITS != 0 {
        seq!["0x"@ + hex_spec((m & !KNOWN_BITS) as nat)]
    } else {
        Seq::empty()
    }
}

pub open spec fn join_bar(parts: Seq<Seq<char>>) -> Seq<char>
    decreases parts.len(),
{
    if parts.len() == 0 {
        Seq::empty()
    } else if parts.len() == 1 {
        parts[0]
    } else {
        join_bar(parts.drop_last()) + " | "@ + parts.last()
    }
}

/// The native textual rendering of an event mask: the set kind names joined
/// by bars, unknown bits as one trailing hexadecimal item, and `0x0` for an
/// empty mask, wrapped in the mask type's name.
pub open spec fn render_mask_spec(m: u32) -> Seq<char> {
    if m == 0 {
        "EventMask(0x0)"@
    } else {
        "EventMask("@ + join_bar(mask_name_parts(m) + hex_part(m)) + ")"@
    }
}

/// One output line: watched path, a tab, the rendered mask, a space, and the
/// child name if the event named one.
pub open spec fn line_spec(reg: Map<u64, Seq<char>>, ev: RawEvent) -> Seq<char> {
    resolve_spec(reg, ev.handle) + "\t"@ + render_mask_spec(ev.mask) + " "@ + (match ev
        .child_name {
        Some(n) => n@,
        None => Seq::empty(),
    })
}

/// The kind names set in a mask, in declaration order.
pub fn mask_kind_names(m: u32) -> (r: Vec<String>)
    ensures
        r.deep_view() == mask_name_parts(m),
{
    let mut tbl: Vec<(u32, &str)> = Vec::new();
    tbl.push((ACCESS, "ACCESS"));
    tbl.push((ATTRIB, "ATTRIB"));
    tbl.push((CLOSE_WRITE, "CLOSE_WRITE"));
    tbl.push((CLOSE_NOWRITE, "CLOSE_NOWRITE"));
    tbl.push((CREATE, "CREATE"));
    tbl.push((DELETE, "DELETE"));
    tbl.push((DELETE_SELF, "DELETE_SELF"));
    tbl.push((MODIFY, "MODIFY"));
    tbl.push((MOVE_SELF, "MOVE_SELF"));
    tbl.push((MOVED_FROM, "MOVED_FROM"));
    tbl.push((MOVED_TO, "MOVED_TO"));
    tbl.push((OPEN, "OPEN"));
    tbl.push((IGNORED, "IGNORED"));
    tbl.push((ISDIR, "ISDIR"));
    tbl.push((Q_OVERFLOW, "Q_OVERFLOW"));
    tbl.push((UNMOUNT, "UNMOUNT"));
    proof {
        assert forall|i: int| 0 <= i < 16 implies tbl@[i].0 == kind_table()[i].0 && tbl@[i].1@
            == kind_table()[i].1 by {
            if i == 0 {
            } else if i == 1 {
            } else if i == 2 {
            } else if i == 3 {
            } else if i == 4 {
            } else if i == 5 {
            } else if i == 6 {
            } else if i == 7 {
            } else if i == 8 {
            } else if i == 9 {
            } else if i == 10 {
            } else if i == 11 {
            } else if i == 12 {
            } else if i == 13 {
            } else if i == 14 {
            } else {
            }
        }
    }
    let mut parts: Vec<String> = Vec::new();
    let mut i: usize = 0;
    while i < tbl.len()
        invariant
            tbl@.len() == 16,
            kind_table().len() == 16,
            forall|j: int| 0 <= j < 16 ==> tbl@[j].0 == kind_table()[j].0 && tbl@[j].1@
                == kind_table()[j].1,
            0 <= i <= 16,
            parts.deep_view() == parts_from(m, kind_table().take(i as int)),
        decreases 16 - i,
    {
        proof {
            let pre = kind_table().take(i as int);
            let post = kind_table().take(i + 1 as int);
            assert(post.drop_last() =~= pre);
            assert(post.last() == kind_table()[i as int]);
        }
        if m & tbl[i].0 != 0 {
            parts.push(String::from_str(tbl[i].1));
            proof {
                assert(parts.deep_view() =~= parts_from(m, kind_table().take(i + 1 as int)));
            }
        } else {
            proof {
                assert(parts.deep_view() =~= parts_from(m, kind_table().take(i + 1 as int)));
            }
        }
        i = i + 1;
    }
    proof {
        assert(kind_table().take(16) =~= kind_table());
    }
    parts
}

/// Render an event mask as the facility's textual form.
pub fn render_mask(m: u32) -> (r: String)
    ensures
        r@ == render_mask_spec(m),
{
    if m == 0 {
        return String::from_str("EventMask(0x0)");
    }
    let mut parts = mask_kind_names(m);
    if m & !KNOWN_BITS != 0 {
        let mut h = String::from_str("0x");
        let hx = u32_to_hex(m & !KNOWN_BITS);
        h.append(hx.as_str());
        parts.push(h);
    }
    assert(parts.deep_view() =~= mask_name_parts(m) + hex_part(m));
    let ghost all = mask_name_parts(m) + hex_part(m);
    let mut out = String::from_str("EventMask(");
    let mut i: usize = 0;
    while i < parts.len()
        invariant
            parts.deep_view() == all,
            0 <= i <= parts@.len(),
            parts@.len() == all.len(),
            out@ == "EventMask("@ + join_bar(all.take(i as int)),
        decreases parts@.len() - i,
    {
        proof {
            let pre = all.take(i as int);
            let post = all.take(i + 1 as int);
            assert(post.drop_last() =~= pre);
            assert(post.last() == all[i as int]);
        }
        if i > 0 {
            out.append(" | ");
        }
        out.append(parts[i].as_str());
        i = i + 1;
    }
    proof {
        assert(all.take(all.len() as int) =~= all);
    }
    out.append(")");
    out
}

/// Decode one raw event against the registry: a handle that no registration
/// produced decodes to an empty source path, never to a failure.
pub fn decode_event(reg: &WatchRegistry, ev: RawEvent) -> (r: EventRecord)
    ensures
        r.source_path@ == resolve_spec(reg@, ev.handle),
        r.kinds == ev.mask,
        r.child_name == ev.child_name,
{
    let source_path = reg.resolve(ev.handle);
    EventRecord { source_path, kinds: ev.mask, child_name: ev.child_name }
}

/// Format one decoded event as its output line.
pub fn format_line(reg: &WatchRegistry, ev: &RawEvent) -> (r: String)
    ensures
        r@ == line_spec(reg@, *ev),
{
    let mut out = reg.resolve(ev.handle);
    out.append("\t");
    let rendered = render_mask(ev.mask);
    out.append(rendered.as_str());
    out.append(" ");
    match &ev.child_name {
        Some(n) => out.append(n.as_str()),
        None => {},
    }
    out
}

/// The loop's state: watching begins only after setup has completed, and
/// ends either by the one-shot policy or on a channel failure.
pub enum LoopState {
    Idle,
    Watching,
    TerminatedOneShot,
    TerminatedError,
}

/// Process-wide state for one run: the registry filled during setup, the
/// session mask, the termination mode, and the loop state.
pub struct WatcherSession {
    pub registry: WatchRegistry,
    pub mask: u32,
    pub monitor: bool,
    pub state: LoopState,
}

impl WatcherSession {
    pub fn new(registry: WatchRegistry, mask: u32, monitor: bool) -> (r: WatcherSession)
        ensures
            r.registry == registry,
            r.mask == mask,
            r.monitor == monitor,
            r.state is Idle,
    {
        WatcherSession { registry, mask, monitor, state: LoopState::Idle }
    }

    /// Enter the watching state; setup must be complete.
    pub fn begin_watching(&mut self)
        requires
            old(self).state is Idle,
        ensures
            final(self).state is Watching,
            final(self).registry == old(self).registry,
            final(self).mask == old(self).mask,
            final(self).monitor == old(self).monitor,
    {
        self.state = LoopState::Watching;
    }

    /// Decode and format one batch, applying the termination policy: in
    /// one-shot mode the first event of the batch ends the session, emitting
    /// exactly one line; in monitor mode every event of the batch is emitted
    /// and the session keeps watching.
    pub fn process_batch(&mut self, events: &Vec<RawEvent>) -> (lines: Vec<String>)
        requires
            old(self).state is Watching,
        ensures
            final(self).registry == old(self).registry,
            final(self).mask == old(self).mask,
            final(self).monitor == old(self).monitor,
            old(self).monitor ==> {
                &&& final(self).state is Watching
                &&& lines@.len() == events@.len()
                &&& forall|i: int| 0 <= i < events@.len() ==> lines.deep_view()[i] == line_spec(
                    old(self).registry@,
                    events@[i],
                )
            },
            (!old(self).monitor && events@.len() == 0) ==> {
                &&& final(self).state is Watching
                &&& lines@.len() == 0
            },
            (!old(self).monitor && events@.len() > 0) ==> {
                &&& final(self).state is TerminatedOneShot
                &&& lines@.len() == 1
                &&& lines.deep_view()[0] == line_spec(old(self).registry@, events@[0])
            },
    {
        let mut lines: Vec<String> = Vec::new();
        let mut i: usize = 0;
        while i < events.len()
            invariant
                *self == *old(self),
                0 <= i <= events@.len(),
                lines@.len() == i,
                forall|j: int| 0 <= j < i ==> lines.deep_view()[j] == line_spec(
                    old(self).registry@,
                    events@[j],
                ),
                !old(self).monitor ==> i == 0,
            decreases events@.len() - i,
        {
            let line = format_line(&self.registry, &events[i]);
            let ghost prev = lines.deep_view();
            lines.push(line);
            proof {
                assert(lines.deep_view() =~= prev.push(line@));
            }
            if !self.monitor {
                self.state = LoopState::TerminatedOneShot;
                return lines;
            }
            i = i + 1;
        }
        lines
    }

    /// A failed blocking read is fatal: there is no recovery path for a
    /// broken notification channel mid-session.
    pub fn channel_failed(&mut self) -> (e: WatchError)
        requires
            old(self).state is Watching,
        ensures
            final(self).state is TerminatedError,
            final(self).registry == old(self).registry,
            final(self).mask == old(self).mask,
            final(self).monitor == old(self).monitor,
            e is ChannelRead,
    {
        self.state = LoopState::TerminatedError;
        WatchError::ChannelRead
    }
}

} // verus!
