//! Escape-sequence interpretation for the line-echo utility: two-character
//! escapes, truncation at an embedded NUL, and numeric `\x`/`\0` escapes.
//!
//! The numeric scan restarts from the front after every successful
//! conversion; an occurrence that converts to nothing (ill-formed digits, or
//! a value outside the ASCII range) is left in place and the scan moves past
//! it.

use vstd::prelude::*;
use vstd::string::StrSliceExecFns;

use crate::numfmt::push_char;

verus! {

/// Replace every non-overlapping occurrence of `\` followed by `pat` with
/// `rep`, scanning left to right.
pub open spec fn replace2_spec(s: Seq<char>, pat: char, rep: char) -> Seq<char>
    decreases s.len(),
{
    if s.len() < 2 {
        s
    } else if s[0] == '\\' && s[1] == pat {
        seq![rep] + replace2_spec(s.skip(2), pat, rep)
    } else {
        seq![s[0]] + replace2_spec(s.skip(1), pat, rep)
    }
}

/// Cut the text at the first embedded NUL, keeping what precedes it.
pub open spec fn truncate_nul_spec(s: Seq<char>) -> Seq<char>
    decreases s.len(),
{
    if s.len() == 0 {
        s
    } else if s[0] == '\0' {
        Seq::empty()
    } else {
        seq![s[0]] + truncate_nul_spec(s.skip(1))
    }
}

/// The numeric value of one digit character, as the radix parser accepts it.
pub open spec fn digit_val(c: char, base: u32) -> Option<u32> {
    let v = c as u32;
    if base == 16 {
        if 0x30 <= v <= 0x39 {
            Some((v - 0x30) as u32)
        } else if 0x61 <= v <= 0x66 {
            Some((v - 0x61 + 10) as u32)
        } else if 0x41 <= v <= 0x46 {
            Some((v - 0x41 + 10) as u32)
        } else {
            None
        }
    } else {
        if 0x30 <= v <= 0x37 {
            Some((v - 0x30) as u32)
        } else {
            None
        }
    }
}

pub open spec fn parse_digits_from(s: Seq<char>, base: u32, acc: nat) -> Option<nat>
    decreases s.len(),
{
    if s.len() == 0 {
        Some(acc)
    } else {
        match digit_val(s[0], base) {
            Some(d) => parse_digits_from(s.skip(1), base, (acc * base + d) as nat),
            None => None,
        }
    }
}

/// What the standard radix parser makes of a digit region: an optional sign,
/// then at least one digit, value within range; a minus sign only for the
/// value zero.
pub open spec fn parse_radix(s: Seq<char>, base: u32) -> Option<u32> {
    if s.len() == 0 {
        None
    } else if s[0] == '+' {
        if s.len() == 1 {
            None
        } else {
            match parse_digits_from(s.skip(1), base, 0) {
                Some(n) => if n < 0x100000000 {
                    Some(n as u32)
                } else {
                    None
                },
                None => None,
            }
        }
    } else if s[0] == '-' {
        if s.len() == 1 {
            None
        } else {
            match parse_digits_from(s.skip(1), base, 0) {
                Some(n) => if n == 0 {
                    Some(0)
                } else {
                    None
                },
                None => None,
            }
        }
    } else {
        match parse_digits_from(s, base, 0) {
            Some(n) => if n < 0x100000000 {
                Some(n as u32)
            } else {
                None
            },
            None => None,
        }
    }
}

/// Where the digit region after `idx + 2` ends: one character is always
/// taken; a second (and for octal a third) is taken when present and not a
/// backslash.
pub open spec fn region_end(s: Seq<char>, base: u32, sep_begin: int) -> int {
    if base == 16 {
        if sep_begin + 1 < s.len() && s[sep_begin + 1] != '\\' {
            sep_begin + 2
        } else {
            sep_begin + 1
        }
    } else {
        if sep_begin + 1 < s.len() {
            if s[sep_begin + 1] == '\\' {
                sep_begin + 1
            } else if sep_begin + 2 < s.len() {
                if s[sep_begin + 2] == '\\' {
                    sep_begin + 2
                } else {
                    sep_begin + 3
                }
            } else {
                sep_begin + 2
            }
        } else {
            sep_begin + 1
        }
    }
}

/// One numeric conversion attempt at `idx`, where `idx` points at the
/// backslash of a `\x` or `\0` escape. A marker at the very end of the text
/// is dropped; a region that parses to an ASCII value is replaced by that
/// character; anything else is left unchanged.
pub open spec fn convert_at(s: Seq<char>, base: u32, idx: int) -> Seq<char> {
    let sep_begin = idx + 2;
    if sep_begin >= s.len() {
        s.subrange(0, idx) + s.skip(idx + 2)
    } else if base != 8 && base != 16 {
        s
    } else {
        let sep_end = region_end(s, base, sep_begin);
        match parse_radix(s.subrange(sep_begin, sep_end), base) {
            Some(n) => if n < 128 {
                s.subrange(0, idx) + seq![((n as u8) as char)] + s.skip(sep_end)
            } else {
                s
            },
            None => s,
        }
    }
}

/// Scan for `\x` (hexadecimal) or `\0` (octal) escapes from `from` on,
/// converting each; after a conversion the scan restarts at the front, and
/// an occurrence that converts to nothing is passed over.
pub open spec fn scan_spec(s: Seq<char>, base: u32, from: nat) -> Seq<char>
    decreases s.len(), s.len() - from,
{
    let marker = if base == 16 {
        'x'
    } else {
        '0'
    };
    if from + 2 > s.len() {
        s
    } else if s[from as int] == '\\' && s[from as int + 1] == marker {
        let s2 = convert_at(s, base, from as int);
        if s2.len() < s.len() {
            scan_spec(s2, base, 0)
        } else {
            scan_spec(s, base, (from + 1) as nat)
        }
    } else {
        scan_spec(s, base, (from + 1) as nat)
    }
}

/// The whole escape interpretation: the nine two-character escapes in their
/// fixed order, truncation at NUL, then the hexadecimal and octal scans.
pub open spec fn escapes_spec(s: Seq<char>) -> Seq<char> {
    let r1 = replace2_spec(s, 'n', '\n');
    let r2 = replace2_spec(r1, 't', '\t');
    let r3 = replace2_spec(r2, 'a', '\x07');
    let r4 = replace2_spec(r3, 'b', '\x08');
    let r5 = replace2_spec(r4, 'c', '\0');
    let r6 = replace2_spec(r5, 'e', '\x1b');
    let r7 = replace2_spec(r6, 'f', '\x0c');
    let r8 = replace2_spec(r7, 'r', '\r');
    let r9 = replace2_spec(r8, 'v', '\x0b');
    let t = truncate_nul_spec(r9);
    scan_spec(scan_spec(t, 16, 0), 8, 0)
}

fn string_to_chars(s: &String) -> (v: Vec<char>)
    ensures
        v@ == s@,
{
    let n = s.as_str().unicode_len();
    let mut v: Vec<char> = Vec::new();
    let mut i: usize = 0;
    while i < n
        invariant
            n == s@.len(),
            0 <= i <= n,
            v@ == s@.take(i as int),
        decreases n - i,
    {
        let c = s.as_str().get_char(i);
        v.push(c);
        assert(v@ =~= s@.take(i + 1 as int));
        i = i + 1;
    }
    assert(s@.take(n as int) =~= s@);
    v
}

fn chars_to_string(v: &Vec<char>) -> (s: String)
    ensures
        s@ == v@,
{
    let mut s = String::new();
    let mut i: usize = 0;
    while i < v.len()
        invariant
            0 <= i <= v@.len(),
            s@ == v@.take(i as int),
        decreases v@.len() - i,
    {
        push_char(&mut s, v[i]);
        assert(s@ =~= v@.take(i + 1 as int));
        i = i + 1;
    }
    assert(v@.take(v@.len() as int) =~= v@);
    s
}

fn replace2(v: &Vec<char>, pat: char, rep: char) -> (out: Vec<char>)
    ensures
        out@ == replace2_spec(v@, pat, rep),
{
    let mut out: Vec<char> = Vec::new();
    let mut i: usize = 0;
    proof {
        assert(v@.skip(0) =~= v@);
        assert(out@ + replace2_spec(v@, pat, rep) =~= replace2_spec(v@, pat, rep));
    }
    while i < v.len()
        invariant
            0 <= i <= v@.len(),
            out@ + replace2_spec(v@.skip(i as int), pat, rep) == replace2_spec(v@, pat, rep),
        decreases v@.len() - i,
    {
        let ghost rem = v@.skip(i as int);
        if i + 1 < v.len() && v[i] == '\\' && v[i + 1] == pat {
            proof {
                assert(rem[0] == v@[i as int]);
                assert(rem[1] == v@[i as int + 1]);
                assert(rem.skip(2) =~= v@.skip(i + 2 as int));
                assert(out@.push(rep) + replace2_spec(v@.skip(i + 2 as int), pat, rep) =~= out@
                    + replace2_spec(rem, pat, rep));
            }
            out.push(rep);
            i = i + 2;
        } else {
            proof {
                assert(rem[0] == v@[i as int]);
                assert(rem.skip(1) =~= v@.skip(i + 1 as int));
                if rem.len() >= 2 {
                    assert(rem[1] == v@[i as int + 1]);
                }
                assert(out@.push(v@[i as int]) + replace2_spec(v@.skip(i + 1 as int), pat, rep)
                    =~= out@ + replace2_spec(rem, pat, rep));
            }
            let c = v[i];
            out.push(c);
            i = i + 1;
        }
    }
    proof {
        assert(v@.skip(v@.len() as int) =~= Seq::<char>::empty());
        assert(out@ + replace2_spec(Seq::<char>::empty(), pat, rep) =~= out@);
    }
    out
}

fn truncate_nul(v: &Vec<char>) -> (out: Vec<char>)
    ensures
        out@ == truncate_nul_spec(v@),
{
    let mut out: Vec<char> = Vec::new();
    let mut i: usize = 0;
    proof {
        assert(v@.skip(0) =~= v@);
        assert(out@ + truncate_nul_spec(v@) =~= truncate_nul_spec(v@));
    }
    while i < v.len()
        invariant
            0 <= i <= v@.len(),
            out@ + truncate_nul_spec(v@.skip(i as int)) == truncate_nul_spec(v@),
            forall|j: int| 0 <= j < i ==> v@[j] != '\0',
        decreases v@.len() - i,
    {
        let ghost rem = v@.skip(i as int);
        proof {
            assert(rem[0] == v@[i as int]);
            assert(rem.skip(1) =~= v@.skip(i + 1 as int));
        }
        if v[i] == '\0' {
            proof {
                assert(truncate_nul_spec(rem) =~= Seq::<char>::empty());
                assert(out@ + truncate_nul_spec(rem) =~= out@);
            }
            return out;
        }
        proof {
            assert(out@.push(v@[i as int]) + truncate_nul_spec(v@.skip(i + 1 as int)) =~= out@
                + truncate_nul_spec(rem));
        }
        let c = v[i];
        out.push(c);
        i = i + 1;
    }
    proof {
        assert(v@.skip(v@.len() as int) =~= Seq::<char>::empty());
        assert(out@ + truncate_nul_spec(Seq::<char>::empty()) =~= out@);
    }
    out
}

fn digit_of(c: char, base: u32) -> (r: Option<u32>)
    requires
        base == 8 || base == 16,
    ensures
        r == digit_val(c, base),
        r matches Some(d) ==> d < base,
{
    let v = c as u32;
    if base == 16 {
        if 0x30 <= v && v <= 0x39 {
            Some(v - 0x30)
        } else if 0x61 <= v && v <= 0x66 {
            Some(v - 0x61 + 10)
        } else if 0x41 <= v && v <= 0x46 {
            Some(v - 0x41 + 10)
        } else {
            None
        }
    } else {
        if 0x30 <= v && v <= 0x37 {
            Some(v - 0x30)
        } else {
            None
        }
    }
}

/// Parse the digit region `from..to`, at most three characters, as the
/// standard radix parser would.
fn parse_region(v: &Vec<char>, from: usize, to: usize, base: u32) -> (r: Option<u32>)
    requires
        from <= to <= v@.len(),
        to - from <= 3,
        base == 8 || base == 16,
    ensures
        r == parse_radix(v@.subrange(from as int, to as int), base),
{
    let ghost s = v@.subrange(from as int, to as int);
    if from == to {
        return None;
    }
    let first = v[from];
    assert(s[0] == first);
    let (dfrom, negative) = if first == '+' {
        (from + 1, false)
    } else if first == '-' {
        (from + 1, true)
    } else {
        (from, false)
    };
    if dfrom == to {
        assert(s.len() == 1 && (first == '+' || first == '-'));
        return None;
    }
    let ghost digits = v@.subrange(dfrom as int, to as int);
    proof {
        if first == '+' || first == '-' {
            assert(digits =~= s.skip(1));
        } else {
            assert(digits =~= s);
        }
    }
    // unrolled: the region holds one, two or three digit characters
    let n = to - dfrom;
    let ghost presult = parse_digits_from(digits, base, 0);
    let d0 = digit_of(v[dfrom], base);
    assert(digits[0] == v@[dfrom as int]);
    let value: Option<u32> = match d0 {
        None => {
            proof {
                assert(presult is None);
            }
            None
        },
        Some(a0) => {
            assert(presult == parse_digits_from(digits.skip(1), base, a0 as nat));
            if n == 1 {
                proof {
                    assert(digits.skip(1) =~= Seq::<char>::empty());
                    assert(presult == Some(a0 as nat));
                }
                Some(a0)
            } else {
                let d1 = digit_of(v[dfrom + 1], base);
                assert(digits.skip(1)[0] == v@[dfrom as int + 1]);
                match d1 {
                    None => {
                        proof {
                            assert(presult is None);
                        }
                        None
                    },
                    Some(a1) => {
                        let x1 = a0 * base + a1;
                        assert(presult == parse_digits_from(
                            digits.skip(1).skip(1),
                            base,
                            x1 as nat,
                        ));
                        if n == 2 {
                            proof {
                                assert(digits.skip(1).skip(1) =~= Seq::<char>::empty());
                                assert(presult == Some(x1 as nat));
                            }
                            Some(x1)
                        } else {
                            let d2 = digit_of(v[dfrom + 2], base);
                            assert(digits.skip(1).skip(1)[0] == v@[dfrom as int + 2]);
                            match d2 {
                                None => {
                                    proof {
                                        assert(presult is None);
                                    }
                                    None
                                },
                                Some(a2) => {
                                    let x2 = x1 * base + a2;
                                    assert(presult == parse_digits_from(
                                        digits.skip(1).skip(1).skip(1),
                                        base,
                                        x2 as nat,
                                    ));
                                    proof {
                                        assert(digits.skip(1).skip(1).skip(1)
                                            =~= Seq::<char>::empty());
                                        assert(presult == Some(x2 as nat));
                                    }
                                    Some(x2)
                                },
                            }
                        }
                    },
                }
            }
        },
    };
    match value {
        Some(val) => {
            assert(presult == Some(val as nat));
            if negative {
                if val == 0 {
                    Some(0)
                } else {
                    None
                }
            } else {
                Some(val)
            }
        },
        None => {
            assert(presult is None);
            None
        },
    }
}

/// One conversion attempt on a character vector; the result is either
/// unchanged or strictly shorter.
fn convert_chars(v: &mut Vec<char>, base: u32, idx: usize) -> (changed: bool)
    requires
        idx + 2 <= old(v)@.len(),
    ensures
        final(v)@ == convert_at(old(v)@, base, idx as int),
        changed <==> final(v)@.len() < old(v)@.len(),
        changed || final(v)@ == old(v)@,
{
    let ghost s = v@;
    let cur_len = v.len();
    let sep_begin = idx + 2;
    if sep_begin >= cur_len {
        // the marker stands at the very end: drop its two characters
        let mut out: Vec<char> = Vec::new();
        copy_range(v, 0, idx, &mut out);
        assert(out@ =~= s.subrange(0, idx as int) + s.skip(idx + 2 as int));
        *v = out;
        return true;
    }
    if base != 8 && base != 16 {
        return false;
    }
    let sep_end: usize = if base == 16 {
        if sep_begin + 1 < v.len() && v[sep_begin + 1] != '\\' {
            sep_begin + 2
        } else {
            sep_begin + 1
        }
    } else {
        if sep_begin + 1 < v.len() {
            if v[sep_begin + 1] == '\\' {
                sep_begin + 1
            } else if sep_begin + 2 < v.len() {
                if v[sep_begin + 2] == '\\' {
                    sep_begin + 2
                } else {
                    sep_begin + 3
                }
            } else {
                sep_begin + 2
            }
        } else {
            sep_begin + 1
        }
    };
    assert(sep_end == region_end(s, base, sep_begin as int));
    match parse_region(v, sep_begin, sep_end, base) {
        Some(n) => {
            if n < 128 {
                let mut out: Vec<char> = Vec::new();
                copy_range(v, 0, idx, &mut out);
                let c = (n as u8) as char;
                out.push(c);
                let len = v.len();
                copy_range(v, sep_end, len, &mut out);
                assert(out@ =~= s.subrange(0, idx as int) + seq![((n as u8) as char)] + s.skip(
                    sep_end as int,
                ));
                *v = out;
                true
            } else {
                false
            }
        },
        None => false,
    }
}

fn copy_range(v: &Vec<char>, from: usize, to: usize, out: &mut Vec<char>)
    requires
        from <= to <= v@.len(),
    ensures
        final(out)@ == old(out)@ + v@.subrange(from as int, to as int),
{
    let mut i = from;
    while i < to
        invariant
            from <= i <= to <= v@.len(),
            out@ == old(out)@ + v@.subrange(from as int, i as int),
        decreases to - i,
    {
        let c = v[i];
        out.push(c);
        assert(out@ =~= old(out)@ + v@.subrange(from as int, i + 1 as int));
        i = i + 1;
    }
    assert(out@ =~= old(out)@ + v@.subrange(from as int, to as int));
}

/// Scan the whole vector for numeric escapes of one base.
fn scan_escapes(v: &mut Vec<char>, base: u32)
    requires
        base == 8 || base == 16,
    ensures
        final(v)@ == scan_spec(old(v)@, base, 0),
{
    let marker = if base == 16 {
        'x'
    } else {
        '0'
    };
    let mut from: usize = 0;
    while from < v.len() && v.len() - from >= 2
        invariant
            base == 8 || base == 16,
            marker == (if base == 16 {
                'x'
            } else {
                '0'
            }),
            0 <= from <= v@.len() + 1,
            scan_spec(v@, base, from as nat) == scan_spec(old(v)@, base, 0),
        decreases v@.len(), v@.len() - from,
    {
        if v[from] == '\\' && v[from + 1] == marker {
            let changed = convert_chars(v, base, from);
            if changed {
                from = 0;
            } else {
                from = from + 1;
            }
        } else {
            from = from + 1;
        }
    }
    assert(scan_spec(v@, base, from as nat) == v@);
}

/// Interpret the numeric escape found at `idx`, exactly one attempt.
pub fn convert_number(input: &mut String, base: u32, idx: usize)
    requires
        idx + 2 <= old(input)@.len(),
    ensures
        final(input)@ == convert_at(old(input)@, base, idx as int),
{
    let mut v = string_to_chars(input);
    convert_chars(&mut v, base, idx);
    *input = chars_to_string(&v);
}

/// Interpret every backslash escape in the text.
pub fn process_escapes(input: &mut String)
    ensures
        final(input)@ == escapes_spec(old(input)@),
{
    let chars0 = string_to_chars(input);
    let r1 = replace2(&chars0, 'n', '\n');
    let r2 = replace2(&r1, 't', '\t');
    let r3 = replace2(&r2, 'a', '\x07');
    let r4 = replace2(&r3, 'b', '\x08');
    let r5 = replace2(&r4, 'c', '\0');
    let r6 = replace2(&r5, 'e', '\x1b');
    let r7 = replace2(&r6, 'f', '\x0c');
    let r8 = replace2(&r7, 'r', '\r');
    let r9 = replace2(&r8, 'v', '\x0b');
    let mut v = truncate_nul(&r9);
    scan_escapes(&mut v, 16);
    scan_escapes(&mut v, 8);
    *input = chars_to_string(&v);
}

} // verus!
