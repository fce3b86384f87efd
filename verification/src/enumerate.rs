//! The recursive enumerator: the setup phase that walks every input path,
//! creates a watch for each discovered node, and fills the watch registry.
//!
//! All filesystem queries — stat, directory listing, watch creation — happen
//! outside this library. The enumerator is a state machine: it hands out one
//! request at a time and is stepped with the result, so its decisions are
//! verified for every answer the system could give. The failure policy is
//! part of the contracts: a path that cannot be queried and a watch that
//! cannot be created are reported and skipped, while a directory whose
//! contents cannot be listed aborts the whole run.

use vstd::prelude::*;

use crate::errors::WatchError;
use crate::registry::WatchRegistry;

verus! {

/// Where the machine stands: `Ready` between paths, one of the `*Sent`
/// states while a request is outstanding, `Done` when every path has been
/// handled, `Failed` after a fatal listing error.
pub enum Phase {
    Ready,
    StatSent { path: String },
    WatchSent { path: String, is_dir: bool },
    ListSent { path: String },
    Done,
    Failed,
}

/// The path a pending request concerns.
pub open spec fn phase_target(p: Phase) -> String {
    match p {
        Phase::StatSent { path } => path,
        Phase::WatchSent { path, .. } => path,
        Phase::ListSent { path } => path,
        _ => arbitrary(),
    }
}

/// The names of the directory entries of one listing, in listing order.
pub open spec fn dir_names(cs: Seq<(String, bool)>) -> Seq<String>
    decreases cs.len(),
{
    if cs.len() == 0 {
        Seq::empty()
    } else {
        dir_names(cs.drop_last()) + (if cs.last().1 {
            seq![cs.last().0]
        } else {
            Seq::empty()
        })
    }
}

/// The setup state machine: the paths still to visit (next one first), the
/// registry filled so far, and the outstanding request.
pub struct Enumerator {
    pub pending: Vec<String>,
    pub registry: WatchRegistry,
    pub recursive: bool,
    pub phase: Phase,
}

impl Enumerator {
    pub fn new(roots: Vec<String>, recursive: bool) -> (r: Enumerator)
        ensures
            r.pending == roots,
            r.recursive == recursive,
            r.registry@ == Map::<u64, Seq<char>>::empty(),
            r.phase is Ready,
    {
        Enumerator { pending: roots, registry: WatchRegistry::new(), recursive, phase: Phase::Ready }
    }

    /// Take the next path to visit, to be queried for metadata; `None` when
    /// every path has been handled and the machine is done.
    pub fn next_request(&mut self) -> (r: Option<String>)
        requires
            old(self).phase is Ready,
        ensures
            final(self).registry == old(self).registry,
            final(self).recursive == old(self).recursive,
            old(self).pending@.len() == 0 ==> {
                &&& r is None
                &&& final(self).phase is Done
                &&& final(self).pending == old(self).pending
            },
            old(self).pending@.len() > 0 ==> {
                &&& r == Some(old(self).pending@[0])
                &&& final(self).phase == (Phase::StatSent { path: old(self).pending@[0] })
                &&& final(self).pending@ == old(self).pending@.drop_first()
            },
    {
        if self.pending.len() == 0 {
            self.phase = Phase::Done;
            None
        } else {
            let p = self.pending.remove(0);
            assert(self.pending@ =~= old(self).pending@.drop_first());
            self.phase = Phase::StatSent { path: p.clone() };
            Some(p)
        }
    }

    /// Step with the metadata answer for the outstanding path. A path that
    /// cannot be queried is reported and skipped — per-path failures never
    /// abort the run. A reachable path is watched next, whether it is a file
    /// or a directory.
    pub fn on_stat(&mut self, found: bool, is_dir: bool) -> (r: Option<WatchError>)
        requires
            old(self).phase matches Phase::StatSent { .. },
        ensures
            final(self).registry == old(self).registry,
            final(self).recursive == old(self).recursive,
            final(self).pending == old(self).pending,
            !found ==> {
                &&& final(self).phase is Ready
                &&& r == Some(
                    WatchError::PathUnavailable { path: phase_target(old(self).phase) },
                )
            },
            found ==> {
                &&& final(self).phase == (Phase::WatchSent {
                    path: phase_target(old(self).phase),
                    is_dir,
                })
                &&& r is None
            },
    {
        let path = match &self.phase {
            Phase::StatSent { path } => path.clone(),
            _ => unreached(),
        };
        if !found {
            self.phase = Phase::Ready;
            Some(WatchError::PathUnavailable { path })
        } else {
            self.phase = Phase::WatchSent { path, is_dir };
            None
        }
    }

    /// Step with the handle of the freshly created watch, or `None` when the
    /// facility refused one. A successful watch is registered at once; a
    /// refused watch is reported and skipped. Either way a directory is
    /// listed next when recursion is on.
    pub fn on_watch(&mut self, handle: Option<u64>) -> (r: Option<WatchError>)
        requires
            old(self).phase matches Phase::WatchSent { .. },
        ensures
            final(self).recursive == old(self).recursive,
            final(self).pending == old(self).pending,
            handle matches Some(h) ==> {
                &&& final(self).registry@ == old(self).registry@.insert(
                    h,
                    phase_target(old(self).phase)@,
                )
                &&& r is None
            },
            handle is None ==> {
                &&& final(self).registry == old(self).registry
                &&& r == Some(WatchError::WatchCreation { path: phase_target(old(self).phase) })
            },
            final(self).phase == (if (old(self).phase matches Phase::WatchSent { is_dir: true, .. })
                && old(self).recursive {
                Phase::ListSent { path: phase_target(old(self).phase) }
            } else {
                Phase::Ready
            }),
    {
        let (path, is_dir) = match &self.phase {
            Phase::WatchSent { path, is_dir } => (path.clone(), *is_dir),
            _ => unreached(),
        };
        let r = match handle {
            Some(h) => {
                self.registry.register(h, path.clone());
                None
            },
            None => Some(WatchError::WatchCreation { path: path.clone() }),
        };
        if is_dir && self.recursive {
            self.phase = Phase::ListSent { path };
        } else {
            self.phase = Phase::Ready;
        }
        r
    }

    /// Step with the listing of the outstanding directory: each child entry
    /// as its path and whether it is itself a directory. Child directories
    /// are visited next, before the remaining pending paths (depth first);
    /// other children are not individually watched. A directory whose
    /// contents cannot be listed is fatal for the whole run.
    pub fn on_list(&mut self, children: Option<Vec<(String, bool)>>) -> (r: Option<WatchError>)
        requires
            old(self).phase matches Phase::ListSent { .. },
        ensures
            final(self).registry == old(self).registry,
            final(self).recursive == old(self).recursive,
            children matches Some(cs) ==> {
                &&& final(self).phase is Ready
                &&& final(self).pending@ == dir_names(cs@) + old(self).pending@
                &&& r is None
            },
            children is None ==> {
                &&& final(self).phase is Failed
                &&& final(self).pending == old(self).pending
                &&& r == Some(WatchError::Enumeration { path: phase_target(old(self).phase) })
            },
    {
        let path = match &self.phase {
            Phase::ListSent { path } => path.clone(),
            _ => unreached(),
        };
        match children {
            Some(cs) => {
                let ghost cseq = cs@;
                let mut front: Vec<String> = Vec::new();
                let mut i: usize = 0;
                let n = cs.len();
                let mut rest = cs;
                // take the entries in order from the front
                while i < n
                    invariant
                        n == cseq.len(),
                        0 <= i <= n,
                        rest@ == cseq.skip(i as int),
                        front@ == dir_names(cseq.take(i as int)),
                    decreases n - i,
                {
                    proof {
                        let pre = cseq.take(i as int);
                        let post = cseq.take(i + 1 as int);
                        assert(post.drop_last() =~= pre);
                        assert(post.last() == cseq[i as int]);
                    }
                    let (child, child_is_dir) = rest.remove(0);
                    assert(rest@ =~= cseq.skip(i + 1 as int));
                    if child_is_dir {
                        front.push(child);
                    }
                    i = i + 1;
                }
                proof {
                    assert(cseq.take(n as int) =~= cseq);
                }
                front.append(&mut self.pending);
                self.pending = front;
                self.phase = Phase::Ready;
                None
            },
            None => {
                self.phase = Phase::Failed;
                Some(WatchError::Enumeration { path })
            },
        }
    }
}

} // verus!
