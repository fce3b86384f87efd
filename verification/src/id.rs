//! The identity utility's decision and formatting logic.
//!
//! The process's user, group and supplementary-group identifiers, and the
//! account and group names looked up for them, come from outside this
//! library; the functions here decide which report to produce and build its
//! exact text from those plain values.

use vstd::prelude::*;

use crate::numfmt::{dec_spec, u64_to_dec};

verus! {

#[derive(PartialEq, Eq, Debug)]
pub struct IdArgs {
    pub user: bool,
    pub real: bool,
    pub group: bool,
    pub groups: bool,
    pub name: bool,
    pub zero: bool,
    pub ids: Vec<String>,
}

/// Which report one run produces.
#[derive(Clone, Copy, PartialEq, Eq, Structural, Debug)]
pub enum IdTask {
    UserOnly,
    GroupOnly,
    GroupsOnly,
    FullInfo,
    Nothing,
}

/// Printing only names or real identifiers makes sense only together with
/// one of the user, group or groups selections.
pub open spec fn valid_args(a: IdArgs) -> bool {
    !((a.real || a.name) && !(a.user || a.group || a.groups))
}

/// The report a valid argument set selects; explicit identifier operands
/// select no report at all.
pub open spec fn task_of(a: IdArgs) -> IdTask {
    if a.ids@.len() > 0 {
        IdTask::Nothing
    } else if a.user {
        IdTask::UserOnly
    } else if a.group {
        IdTask::GroupOnly
    } else if a.groups {
        IdTask::GroupsOnly
    } else {
        IdTask::FullInfo
    }
}

pub open spec fn user_msg(id: u32) -> Seq<char> {
    "cannot find name for user ID "@ + dec_spec(id as nat)
}

pub open spec fn group_msg(id: u32) -> Seq<char> {
    "cannot find name for group ID "@ + dec_spec(id as nat)
}

/// An account name, or the fallback message for an unknown user identifier.
pub open spec fn uname_or(id: u32, n: Option<String>) -> Seq<char> {
    match n {
        Some(s) => s@,
        None => user_msg(id),
    }
}

/// A group name, or the fallback message for an unknown group identifier.
pub open spec fn gname_or(id: u32, n: Option<String>) -> Seq<char> {
    match n {
        Some(s) => s@,
        None => group_msg(id),
    }
}

/// The groups-only report from entry `i` on: names or numbers separated by
/// single spaces; a missing name ends the report with the parenthesized
/// message, everything before it already emitted.
pub open spec fn groups_only_spec(want_name: bool, gs: Seq<(u32, Option<String>)>, i: int) -> Result<
    Seq<char>,
    Seq<char>,
>
    decreases gs.len() - i,
{
    if i < 0 || i >= gs.len() {
        Ok(Seq::empty())
    } else {
        let entry: Result<Seq<char>, Seq<char>> = if want_name {
            match gs[i].1 {
                Some(n) => Ok(n@),
                None => Err("("@ + group_msg(gs[i].0) + ")"@),
            }
        } else {
            Ok(dec_spec(gs[i].0 as nat))
        };
        match entry {
            Err(e) => Err(e),
            Ok(t) => {
                let sepd = if i < gs.len() - 1 {
                    t + seq![' ']
                } else {
                    t
                };
                match groups_only_spec(want_name, gs, i + 1) {
                    Err(e) => Err(sepd + e),
                    Ok(rest) => Ok(sepd + rest),
                }
            },
        }
    }
}

/// What the supplementary-group lookup gave: nothing to report, a failed
/// query, or the list of identifiers with their names.
pub enum GroupsLookup {
    Unavailable,
    Failed,
    Found(Vec<(u32, Option<String>)>),
}

/// The groups section's entries: `gid(name)` joined by commas.
pub open spec fn groups_entries(gs: Seq<(u32, Option<String>)>, i: int) -> Seq<char>
    decreases gs.len() - i,
{
    if i < 0 || i >= gs.len() {
        Seq::empty()
    } else {
        dec_spec(gs[i].0 as nat) + "("@ + gname_or(gs[i].0, gs[i].1) + ")"@ + (if i < gs.len() - 1 {
            seq![',']
        } else {
            Seq::empty()
        }) + groups_entries(gs, i + 1)
    }
}

/// The full identity report: `uid=`, `gid=`, the effective pair where it
/// differs from the real one, and the groups section, separated by the
/// session separator. The fallback for an effective group with no name uses
/// the user wording, as the tool has always printed it.
pub open spec fn user_info_spec(
    sep: Seq<char>,
    uid: u32,
    gid: u32,
    euid: u32,
    egid: u32,
    un: Option<String>,
    gn: Option<String>,
    eun: Option<String>,
    egn: Option<String>,
    gl: GroupsLookup,
) -> Seq<char> {
    "uid="@ + dec_spec(uid as nat) + "("@ + uname_or(uid, un) + ")"@ + sep + "gid="@ + dec_spec(
        gid as nat,
    ) + "("@ + gname_or(gid, gn) + ")"@ + (if euid != uid {
        sep + "euid="@ + dec_spec(euid as nat) + "("@ + uname_or(euid, eun) + ")"@
    } else {
        Seq::empty()
    }) + (if egid != gid {
        sep + "egid="@ + dec_spec(egid as nat) + "("@ + uname_or(egid, egn) + ")"@
    } else {
        Seq::empty()
    }) + (match gl {
        GroupsLookup::Unavailable => Seq::empty(),
        GroupsLookup::Failed => "failed to get groups\n"@,
        GroupsLookup::Found(gs) => sep + "groups="@ + groups_entries(gs@, 0),
    })
}

pub struct IdCmd {
    pub arg: IdArgs,
    pub sep: String,
}

fn dec_string(id: u32) -> (r: String)
    ensures
        r@ == dec_spec(id as nat),
{
    u64_to_dec(id as u64)
}

impl IdCmd {
    pub fn new(arg: IdArgs) -> (r: IdCmd)
        ensures
            r.arg == arg,
            r.sep@ == (if arg.zero {
                "\0"@
            } else {
                " "@
            }),
    {
        let sep = if arg.zero {
            String::from_str("\0")
        } else {
            String::from_str(" ")
        };
        IdCmd { arg, sep }
    }

    /// Decide which report to produce; an invalid flag combination fails
    /// with its message before anything is looked up.
    pub fn run(&self) -> (r: Result<IdTask, String>)
        ensures
            !valid_args(self.arg) ==> (r matches Err(m) && m@
                == "cannot print only names or real IDs in default format"@),
            valid_args(self.arg) ==> r == Ok::<IdTask, String>(task_of(self.arg)),
    {
        if (self.arg.real || self.arg.name) && !(self.arg.user || self.arg.group
            || self.arg.groups) {
            return Err(String::from_str("cannot print only names or real IDs in default format"));
        }
        if self.arg.ids.len() > 0 {
            Ok(IdTask::Nothing)
        } else if self.arg.user {
            Ok(IdTask::UserOnly)
        } else if self.arg.group {
            Ok(IdTask::GroupOnly)
        } else if self.arg.groups {
            Ok(IdTask::GroupsOnly)
        } else {
            Ok(IdTask::FullInfo)
        }
    }

    /// The user-only report: the identifier, or its account name, or the
    /// parenthesized message when the name is wanted and missing.
    pub fn user_only_line(&self, uid: u32, name: Option<String>) -> (r: Result<String, String>)
        ensures
            self.arg.name ==> match name {
                Some(n) => r matches Ok(s) && s@ == n@,
                None => r matches Err(m) && m@ == "("@ + user_msg(uid) + ")"@,
            },
            !self.arg.name ==> (r matches Ok(s) && s@ == dec_spec(uid as nat)),
    {
        if self.arg.name {
            match name {
                Some(n) => Ok(n),
                None => {
                    let mut m = String::from_str("(");
                    m.append("cannot find name for user ID ");
                    let d = dec_string(uid);
                    m.append(d.as_str());
                    m.append(")");
                    Err(m)
                },
            }
        } else {
            Ok(dec_string(uid))
        }
    }

    /// The group-only report, as the user-only one with the group wording.
    pub fn group_only_line(&self, gid: u32, name: Option<String>) -> (r: Result<String, String>)
        ensures
            self.arg.name ==> match name {
                Some(n) => r matches Ok(s) && s@ == n@,
                None => r matches Err(m) && m@ == "("@ + group_msg(gid) + ")"@,
            },
            !self.arg.name ==> (r matches Ok(s) && s@ == dec_spec(gid as nat)),
    {
        if self.arg.name {
            match name {
                Some(n) => Ok(n),
                None => {
                    let mut m = String::from_str("(");
                    m.append("cannot find name for group ID ");
                    let d = dec_string(gid);
                    m.append(d.as_str());
                    m.append(")");
                    Err(m)
                },
            }
        } else {
            Ok(dec_string(gid))
        }
    }

    /// The groups-only report over the looked-up list.
    pub fn groups_only_line(&self, groups: &Vec<(u32, Option<String>)>) -> (r: Result<
        String,
        String,
    >)
        ensures
            match groups_only_spec(self.arg.name, groups@, 0) {
                Ok(t) => r matches Ok(s) && s@ == t,
                Err(e) => r matches Err(m) && m@ == e,
            },
    {
        let want_name = self.arg.name;
        let ghost gs = groups@;
        let mut out = String::new();
        let mut i: usize = 0;
        while i < groups.len()
            invariant
                gs == groups@,
                0 <= i <= gs.len(),
                want_name == self.arg.name,
                match groups_only_spec(want_name, gs, i as int) {
                    Ok(t) => groups_only_spec(want_name, gs, 0) == Ok::<Seq<char>, Seq<char>>(
                        out@ + t,
                    ),
                    Err(e) => groups_only_spec(want_name, gs, 0) == Err::<Seq<char>, Seq<char>>(
                        out@ + e,
                    ),
                },
            decreases gs.len() - i,
        {
            let ghost before = out@;
            let entry: String = if want_name {
                match &groups[i].1 {
                    Some(n) => n.clone(),
                    None => {
                        let mut m = out;
                        m.append("(");
                        m.append("cannot find name for group ID ");
                        let d = dec_string(groups[i].0);
                        m.append(d.as_str());
                        m.append(")");
                        proof {
                            assert(m@ =~= before + ("("@ + group_msg(gs[i as int].0) + ")"@));
                        }
                        return Err(m);
                    },
                }
            } else {
                dec_string(groups[i].0)
            };
            let ghost entry_t = if want_name {
                gs[i as int].1.unwrap()@
            } else {
                dec_spec(gs[i as int].0 as nat)
            };
            assert(entry@ == entry_t);
            out.append(entry.as_str());
            if i < groups.len() - 1 {
                out.append(" ");
            }
            proof {
                reveal_strlit(" ");
                let sepd = if i < gs.len() - 1 {
                    entry_t + seq![' ']
                } else {
                    entry_t
                };
                assert(" "@ =~= seq![' ']);
                assert(out@ =~= before + sepd);
                match groups_only_spec(want_name, gs, i + 1 as int) {
                    Ok(t) => {
                        assert(before + sepd + t =~= before + (sepd + t));
                    },
                    Err(e) => {
                        assert(before + sepd + e =~= before + (sepd + e));
                    },
                }
            }
            i = i + 1;
        }
        proof {
            assert(out@ + Seq::<char>::empty() =~= out@);
        }
        Ok(out)
    }

    /// The full identity report from the looked-up values.
    pub fn format_user_info(
        &self,
        uid: u32,
        gid: u32,
        euid: u32,
        egid: u32,
        un: Option<String>,
        gn: Option<String>,
        eun: Option<String>,
        egn: Option<String>,
        gl: GroupsLookup,
    ) -> (r: String)
        ensures
            r@ == user_info_spec(self.sep@, uid, gid, euid, egid, un, gn, eun, egn, gl),
    {
        let mut out = String::new();
        append_user_field(&mut out, "uid=", uid, &un);
        out.append(self.sep.as_str());
        append_group_field(&mut out, "gid=", gid, &gn);
        let ghost head = "uid="@ + dec_spec(uid as nat) + "("@ + uname_or(uid, un) + ")"@
            + self.sep@ + "gid="@ + dec_spec(gid as nat) + "("@ + gname_or(gid, gn) + ")"@;
        proof {
            assert(out@ =~= head);
        }
        if euid != uid {
            out.append(self.sep.as_str());
            append_user_field(&mut out, "euid=", euid, &eun);
        }
        let ghost head2 = head + (if euid != uid {
            self.sep@ + "euid="@ + dec_spec(euid as nat) + "("@ + uname_or(euid, eun) + ")"@
        } else {
            Seq::<char>::empty()
        });
        proof {
            assert(out@ =~= head2);
        }
        if egid != gid {
            out.append(self.sep.as_str());
            append_user_field(&mut out, "egid=", egid, &egn);
        }
        let ghost head3 = head2 + (if egid != gid {
            self.sep@ + "egid="@ + dec_spec(egid as nat) + "("@ + uname_or(egid, egn) + ")"@
        } else {
            Seq::<char>::empty()
        });
        proof {
            assert(out@ =~= head3);
        }
        match gl {
            GroupsLookup::Unavailable => {
                proof {
                    assert(out@ =~= head3 + Seq::<char>::empty());
                }
                out
            },
            GroupsLookup::Failed => {
                out.append("failed to get groups\n");
                proof {
                    assert(out@ =~= head3 + "failed to get groups\n"@);
                }
                out
            },
            GroupsLookup::Found(gs) => {
                out.append(self.sep.as_str());
                out.append("groups=");
                let ghost head4 = head3 + self.sep@ + "groups="@;
                proof {
                    assert(out@ =~= head4);
                }
                let mut i: usize = 0;
                while i < gs.len()
                    invariant
                        0 <= i <= gs@.len(),
                        out@ + groups_entries(gs@, i as int) == head4 + groups_entries(gs@, 0),
                    decreases gs@.len() - i,
                {
                    let ghost before = out@;
                    let last = i == gs.len() - 1;
                    append_group_entry(&mut out, gs[i].0, &gs[i].1, !last);
                    proof {
                        let piece = dec_spec(gs@[i as int].0 as nat) + "("@ + gname_or(
                            gs@[i as int].0,
                            gs@[i as int].1,
                        ) + ")"@ + (if i < gs@.len() - 1 {
                            seq![',']
                        } else {
                            Seq::<char>::empty()
                        });
                        assert(out@ =~= before + piece);
                        assert(before + piece + groups_entries(gs@, i + 1 as int) =~= before
                            + groups_entries(gs@, i as int));
                    }
                    i = i + 1;
                }
                proof {
                    assert(out@ + Seq::<char>::empty() =~= out@);
                    assert(out@ =~= head4 + groups_entries(gs@, 0));
                }
                out
            },
        }
    }
}

/// Append `label`, the identifier, and the parenthesized account name or
/// its fallback message.
fn append_user_field(out: &mut String, label: &str, id: u32, n: &Option<String>)
    ensures
        final(out)@ == old(out)@ + label@ + dec_spec(id as nat) + "("@ + uname_or(id, *n) + ")"@,
{
    let ghost base = out@;
    out.append(label);
    let d = dec_string(id);
    out.append(d.as_str());
    out.append("(");
    match n {
        Some(s) => out.append(s.as_str()),
        None => {
            out.append("cannot find name for user ID ");
            let d2 = dec_string(id);
            out.append(d2.as_str());
        },
    }
    out.append(")");
    proof {
        assert(out@ =~= base + label@ + dec_spec(id as nat) + "("@ + uname_or(id, *n) + ")"@);
    }
}

/// Append `label`, the identifier, and the parenthesized group name or its
/// fallback message.
fn append_group_field(out: &mut String, label: &str, id: u32, n: &Option<String>)
    ensures
        final(out)@ == old(out)@ + label@ + dec_spec(id as nat) + "("@ + gname_or(id, *n) + ")"@,
{
    let ghost base = out@;
    out.append(label);
    let d = dec_string(id);
    out.append(d.as_str());
    out.append("(");
    match n {
        Some(s) => out.append(s.as_str()),
        None => {
            out.append("cannot find name for group ID ");
            let d2 = dec_string(id);
            out.append(d2.as_str());
        },
    }
    out.append(")");
    proof {
        assert(out@ =~= base + label@ + dec_spec(id as nat) + "("@ + gname_or(id, *n) + ")"@);
    }
}

/// Append one `gid(name)` entry of the groups section, with its separating
/// comma unless it is the last.
fn append_group_entry(out: &mut String, id: u32, n: &Option<String>, comma: bool)
    ensures
        final(out)@ == old(out)@ + dec_spec(id as nat) + "("@ + gname_or(id, *n) + ")"@ + (
        if comma {
            seq![',']
        } else {
            Seq::<char>::empty()
        }),
{
    let ghost base = out@;
    let d = dec_string(id);
    out.append(d.as_str());
    out.append("(");
    match n {
        Some(s) => out.append(s.as_str()),
        None => {
            out.append("cannot find name for group ID ");
            let d2 = dec_string(id);
            out.append(d2.as_str());
        },
    }
    out.append(")");
    if comma {
        out.append(",");
    }
    proof {
        reveal_strlit(",");
        assert(","@ =~= seq![',']);
        assert(out@ =~= base + dec_spec(id as nat) + "("@ + gname_or(id, *n) + ")"@ + (if comma {
            seq![',']
        } else {
            Seq::<char>::empty()
        }));
    }
}

} // verus!
