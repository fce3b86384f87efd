//! The pure text transformation of the file concatenator: flag
//! normalization, line numbering, blank-line squeezing, and the visible
//! renderings of tabs, line ends and control characters.
//!
//! Reading files happens outside this library; the lines of one input are
//! handed in as plain values and the rendered output is returned as one
//! text.

use vstd::prelude::*;
use vstd::string::StrSliceExecFns;

use crate::numfmt::{dec_spec, push_char, u64_to_dec};

verus! {

#[derive(Clone, Copy, PartialEq, Eq, Structural, Debug)]
pub struct CatArgs {
    pub number: bool,
    pub number_nonblank: bool,
    pub show_tabs: bool,
    pub show_ends: bool,
    pub squeeze_blank: bool,
    pub show_nonprinting: bool,
    pub show_nonprinting_and_ends: bool,
    pub show_nonprinting_and_tabs: bool,
}

/// Flag normalization: numbering nonblank lines overrides numbering all
/// lines, and each combined flag switches its two parts on.
pub open spec fn normalize(a: CatArgs) -> CatArgs {
    CatArgs {
        number: if a.number_nonblank {
            false
        } else {
            a.number
        },
        number_nonblank: a.number_nonblank,
        show_tabs: a.show_tabs || a.show_nonprinting_and_tabs,
        show_ends: a.show_ends || a.show_nonprinting_and_ends,
        squeeze_blank: a.squeeze_blank,
        show_nonprinting: a.show_nonprinting || a.show_nonprinting_and_ends
            || a.show_nonprinting_and_tabs,
        show_nonprinting_and_ends: a.show_nonprinting_and_ends,
        show_nonprinting_and_tabs: a.show_nonprinting_and_tabs,
    }
}

/// A line is blank when it is nothing but its line break.
pub open spec fn is_empty_line(s: Seq<char>) -> bool {
    s == "\n"@ || s == "\r\n"@
}

/// The visible rendering of one character under the given flags.
pub open spec fn render_char(a: CatArgs, c: char) -> Seq<char> {
    if c == '\t' {
        if a.show_tabs {
            "^I"@
        } else {
            seq!['\t']
        }
    } else if c == '\n' {
        if a.show_ends {
            "$\n"@
        } else {
            seq!['\n']
        }
    } else {
        if a.show_nonprinting && (c as u32) % 256 < 0x20 {
            seq!['^', ((((c as u32) % 256) + 64) as u8) as char]
        } else {
            seq![c]
        }
    }
}

pub open spec fn render_text(a: CatArgs, s: Seq<char>) -> Seq<char>
    decreases s.len(),
{
    if s.len() == 0 {
        Seq::empty()
    } else {
        render_char(a, s[0]) + render_text(a, s.skip(1))
    }
}

pub open spec fn pad_spaces(n: nat) -> Seq<char> {
    Seq::new(n, |i: int| ' ')
}

/// The numbering prefix of one line: the number padded to six columns,
/// followed by a tab.
pub open spec fn number_prefix(num: nat) -> Seq<char> {
    let ds = dec_spec(num);
    pad_spaces(if ds.len() < 6 {
        (6 - ds.len()) as nat
    } else {
        0
    }) + ds + seq!['\t']
}

/// One line's output and the numbering/squeeze state it leaves behind. A
/// squeezed repeat blank line still receives its numbering prefix, but its
/// text is dropped.
pub open spec fn line_render(a: CatArgs, line: Seq<char>, num: nat, has_empty: bool) -> (
    Seq<char>,
    nat,
    bool,
) {
    let numbered = a.number || (a.number_nonblank && !is_empty_line(line));
    let prefix = if numbered {
        number_prefix(num)
    } else {
        Seq::empty()
    };
    let num2 = if numbered {
        (num + 1) as nat
    } else {
        num
    };
    if is_empty_line(line) && a.squeeze_blank {
        if has_empty {
            (prefix, num2, true)
        } else {
            (prefix + render_text(a, line), num2, true)
        }
    } else {
        (prefix + render_text(a, line), num2, false)
    }
}

pub open spec fn render_from(
    a: CatArgs,
    lines: Seq<Seq<char>>,
    i: int,
    num: nat,
    has_empty: bool,
) -> Seq<char>
    decreases lines.len() - i,
{
    if i < 0 || i >= lines.len() {
        Seq::empty()
    } else {
        let (o, num2, he2) = line_render(a, lines[i], num, has_empty);
        o + render_from(a, lines, i + 1, num2, he2)
    }
}

/// The whole rendered output of one input, line numbering starting at one.
pub open spec fn render_lines(a: CatArgs, lines: Seq<Seq<char>>) -> Seq<char> {
    render_from(a, lines, 0, 1, false)
}

fn append_str(out: &mut String, lit: &str)
    ensures
        final(out)@ == old(out)@ + lit@,
{
    out.append(lit);
}

fn append_number_prefix(out: &mut String, num: u64)
    ensures
        final(out)@ == old(out)@ + number_prefix(num as nat),
{
    let ghost base = out@;
    let ds = u64_to_dec(num);
    let dlen = ds.as_str().unicode_len();
    let pad: usize = if dlen < 6 {
        6 - dlen
    } else {
        0
    };
    let mut i: usize = 0;
    proof {
        assert(out@ =~= base + pad_spaces(0));
    }
    while i < pad
        invariant
            0 <= i <= pad,
            pad <= 6,
            out@ == base + pad_spaces(i as nat),
        decreases pad - i,
    {
        push_char(out, ' ');
        proof {
            assert(base + pad_spaces(i as nat) + seq![' '] =~= base + pad_spaces((i + 1) as nat));
        }
        i = i + 1;
    }
    out.append(ds.as_str());
    push_char(out, '\t');
    proof {
        assert(base + pad_spaces(pad as nat) + ds@ + seq!['\t'] =~= base + number_prefix(
            num as nat,
        ));
    }
}

fn append_rendered(a: CatArgs, line: &String, out: &mut String)
    ensures
        final(out)@ == old(out)@ + render_text(a, line@),
{
    let ghost base = out@;
    let n = line.as_str().unicode_len();
    let mut j: usize = 0;
    proof {
        assert(line@.skip(0) =~= line@);
        assert(out@ + render_text(a, line@) =~= base + render_text(a, line@));
    }
    while j < n
        invariant
            n == line@.len(),
            0 <= j <= n,
            out@ + render_text(a, line@.skip(j as int)) == base + render_text(a, line@),
        decreases n - j,
    {
        let ghost rem = line@.skip(j as int);
        proof {
            assert(rem[0] == line@[j as int]);
            assert(rem.skip(1) =~= line@.skip(j + 1 as int));
        }
        let c = line.as_str().get_char(j);
        let ghost before = out@;
        if c == '\t' {
            if a.show_tabs {
                append_str(out, "^I");
            } else {
                push_char(out, '\t');
            }
        } else if c == '\n' {
            if a.show_ends {
                append_str(out, "$\n");
            } else {
                push_char(out, '\n');
            }
        } else {
            let code: u32 = (c as u32) % 256;
            if a.show_nonprinting && code < 0x20 {
                push_char(out, '^');
                push_char(out, ((code + 64) as u8) as char);
            } else {
                push_char(out, c);
            }
        }
        proof {
            assert(out@ =~= before + render_char(a, c));
            assert(before + render_char(a, c) + render_text(a, line@.skip(j + 1 as int)) =~= before
                + render_text(a, rem));
        }
        j = j + 1;
    }
    proof {
        assert(line@.skip(n as int) =~= Seq::<char>::empty());
        assert(out@ + Seq::<char>::empty() =~= out@);
    }
}

/// Emit one line: numbering first, then the squeeze decision, then the
/// rendered text; returns the next number and squeeze state.
fn emit_line(a: CatArgs, line: &String, num: u64, has_empty: bool, out: &mut String) -> (r: (
    u64,
    bool,
))
    requires
        num < 0xffff_ffff_ffff_ffff,
    ensures
        ({
            let (o, num2, he2) = line_render(a, line@, num as nat, has_empty);
            &&& final(out)@ == old(out)@ + o
            &&& r.0 as nat == num2
            &&& r.1 == he2
        }),
{
    let ghost base = out@;
    let empty = CatCmd::is_emptyline(line);
    let numbered = a.number || (a.number_nonblank && !empty);
    if numbered {
        append_number_prefix(out, num);
    }
    let num2: u64 = if numbered {
        num + 1
    } else {
        num
    };
    if empty && a.squeeze_blank {
        if has_empty {
            (num2, true)
        } else {
            append_rendered(a, line, out);
            (num2, true)
        }
    } else {
        append_rendered(a, line, out);
        (num2, false)
    }
}

pub struct CatCmd {
    pub arg: CatArgs,
}

impl CatCmd {
    pub fn new(arg: CatArgs) -> (r: CatCmd)
        ensures
            r.arg == arg,
    {
        CatCmd { arg }
    }

    /// Apply the flag-override rules once, before any line is processed.
    pub fn check_args(&mut self)
        ensures
            final(self).arg == normalize(old(self).arg),
    {
        if self.arg.number_nonblank {
            self.arg.number = false;
        }
        if self.arg.show_nonprinting_and_ends {
            self.arg.show_nonprinting = true;
            self.arg.show_ends = true;
        }
        if self.arg.show_nonprinting_and_tabs {
            self.arg.show_nonprinting = true;
            self.arg.show_tabs = true;
        }
    }

    /// A line is blank when it is nothing but its line break.
    pub fn is_emptyline(line: &String) -> (r: bool)
        ensures
            r == is_empty_line(line@),
    {
        *line == String::from_str("\n") || *line == String::from_str("\r\n")
    }

    /// Render the lines of one input under the current flags.
    pub fn process_lines(&self, lines: &Vec<String>) -> (out: String)
        requires
            lines@.len() < 0xffff_ffff_ffff_fffe,
        ensures
            out@ == render_lines(self.arg, lines.deep_view()),
    {
        let a = self.arg;
        let ghost ls = lines.deep_view();
        let mut out = String::new();
        let mut num: u64 = 1;
        let mut has_empty = false;
        let mut i: usize = 0;
        proof {
            assert(out@ + render_from(a, ls, 0, 1, false) =~= render_lines(a, ls));
        }
        while i < lines.len()
            invariant
                a == self.arg,
                ls == lines.deep_view(),
                lines@.len() == ls.len(),
                ls.len() < 0xffff_ffff_ffff_fffe,
                0 <= i <= ls.len(),
                num <= i + 1,
                out@ + render_from(a, ls, i as int, num as nat, has_empty) == render_lines(a, ls),
            decreases ls.len() - i,
        {
            assert(ls[i as int] == lines@[i as int]@);
            let (num2, he2) = emit_line(a, &lines[i], num, has_empty, &mut out);
            num = num2;
            has_empty = he2;
            i = i + 1;
        }
        out
    }

    /// Normalize the flags, then render the given lines.
    pub fn run(&mut self, lines: &Vec<String>) -> (out: String)
        requires
            lines@.len() < 0xffff_ffff_ffff_fffe,
        ensures
            final(self).arg == normalize(old(self).arg),
            out@ == render_lines(normalize(old(self).arg), lines.deep_view()),
    {
        self.check_args();
        self.process_lines(lines)
    }
}

} // verus!
