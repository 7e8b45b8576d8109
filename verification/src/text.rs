//! Text helpers shared by the prompt and the harness: whitespace trimming,
//! ASCII lowercasing, operator-answer normalization, decimal rendering of
//! line numbers, and string equality.

use vstd::prelude::*;

verus! {

/// The whitespace characters that answer normalization strips: the Unicode
/// White_Space set, exactly what `str::trim` removes.
pub open spec fn is_ws(c: char) -> bool {
    ||| c == '\u{0009}'
    ||| c == '\u{000a}'
    ||| c == '\u{000b}'
    ||| c == '\u{000c}'
    ||| c == '\u{000d}'
    ||| c == '\u{0020}'
    ||| c == '\u{0085}'
    ||| c == '\u{00a0}'
    ||| c == '\u{1680}'
    ||| c == '\u{2000}'
    ||| c == '\u{2001}'
    ||| c == '\u{2002}'
    ||| c == '\u{2003}'
    ||| c == '\u{2004}'
    ||| c == '\u{2005}'
    ||| c == '\u{2006}'
    ||| c == '\u{2007}'
    ||| c == '\u{2008}'
    ||| c == '\u{2009}'
    ||| c == '\u{200a}'
    ||| c == '\u{2028}'
    ||| c == '\u{2029}'
    ||| c == '\u{202f}'
    ||| c == '\u{205f}'
    ||| c == '\u{3000}'
}

/// ASCII lowercase: the letters 'A' through 'Z' shift down; everything else
/// is unchanged.
pub open spec fn lower_char(c: char) -> char {
    if 65 <= c as int && c as int <= 90 {
        ((c as int) + 32) as char
    } else {
        c
    }
}

pub open spec fn lower_seq(s: Seq<char>) -> Seq<char> {
    s.map_values(|c: char| lower_char(c))
}

pub open spec fn trim_start(s: Seq<char>) -> Seq<char>
    decreases s.len(),
{
    if s.len() > 0 && is_ws(s[0]) {
        trim_start(s.drop_first())
    } else {
        s
    }
}

pub open spec fn trim_end(s: Seq<char>) -> Seq<char>
    decreases s.len(),
{
    if s.len() > 0 && is_ws(s.last()) {
        trim_end(s.drop_last())
    } else {
        s
    }
}

pub open spec fn trimmed(s: Seq<char>) -> Seq<char> {
    trim_end(trim_start(s))
}

/// The normal form an operator's answer is judged in: trimmed, then
/// lowercased.
pub open spec fn normalized(s: Seq<char>) -> Seq<char> {
    lower_seq(trimmed(s))
}

fn is_ws_exec(c: char) -> (r: bool)
    ensures
        r == is_ws(c),
{
    c == '\u{0009}' || c == '\u{000a}' || c == '\u{000b}' || c == '\u{000c}' || c == '\u{000d}'
        || c == '\u{0020}' || c == '\u{0085}' || c == '\u{00a0}' || c == '\u{1680}' || c
        == '\u{2000}' || c == '\u{2001}' || c == '\u{2002}' || c == '\u{2003}' || c == '\u{2004}'
        || c == '\u{2005}' || c == '\u{2006}' || c == '\u{2007}' || c == '\u{2008}' || c
        == '\u{2009}' || c == '\u{200a}' || c == '\u{2028}' || c == '\u{2029}' || c == '\u{202f}'
        || c == '\u{205f}' || c == '\u{3000}'
}

fn lower_char_exec(c: char) -> (r: char)
    ensures
        r == lower_char(c),
{
    let u: u32 = c as u32;
    if 65 <= u && u <= 90 {
        let b: u8 = (u + 32) as u8;
        b as char
    } else {
        c
    }
}

/// The bounds of the non-whitespace core of `s`: `trimmed(s@)` is exactly
/// `s@.subrange(lo, hi)`.
fn trim_bounds(s: &str) -> (r: (usize, usize))
    ensures
        r.0 <= r.1 <= s@.len(),
        trimmed(s@) == s@.subrange(r.0 as int, r.1 as int),
{
    let n = s.unicode_len();
    let mut lo: usize = 0;
    proof {
        assert(s@.subrange(0, n as int) =~= s@);
    }
    while lo < n && is_ws_exec(s.get_char(lo))
        invariant
            lo <= n,
            n == s@.len(),
            trim_start(s@) == trim_start(s@.subrange(lo as int, n as int)),
        decreases n - lo,
    {
        proof {
            assert(s@.subrange(lo as int, n as int).drop_first() =~= s@.subrange(
                lo + 1,
                n as int,
            ));
        }
        lo = lo + 1;
    }
    proof {
        assert(trim_start(s@) == s@.subrange(lo as int, n as int));
    }
    let mut hi: usize = n;
    while hi > lo && is_ws_exec(s.get_char(hi - 1))
        invariant
            lo <= hi <= n,
            n == s@.len(),
            trim_start(s@) == s@.subrange(lo as int, n as int),
            trim_end(s@.subrange(lo as int, n as int)) == trim_end(
                s@.subrange(lo as int, hi as int),
            ),
        decreases hi,
    {
        proof {
            assert(s@.subrange(lo as int, hi as int).drop_last() =~= s@.subrange(
                lo as int,
                hi - 1,
            ));
        }
        hi = hi - 1;
    }
    proof {
        assert(trimmed(s@) == s@.subrange(lo as int, hi as int));
    }
    (lo, hi)
}

pub open spec fn digit_char(d: nat) -> char {
    if d == 0 {
        '0'
    } else if d == 1 {
        '1'
    } else if d == 2 {
        '2'
    } else if d == 3 {
        '3'
    } else if d == 4 {
        '4'
    } else if d == 5 {
        '5'
    } else if d == 6 {
        '6'
    } else if d == 7 {
        '7'
    } else if d == 8 {
        '8'
    } else {
        '9'
    }
}

/// The decimal rendering of `n`, most significant digit first, no sign and
/// no leading zero except for `n == 0` itself.
pub open spec fn decimal(n: nat) -> Seq<char>
    decreases n,
{
    if n < 10 {
        seq![digit_char(n)]
    } else {
        decimal(n / 10) + seq![digit_char(n % 10)]
    }
}

fn digit_string(d: u32) -> (r: String)
    requires
        d < 10,
    ensures
        r@ == seq![digit_char(d as nat)],
{
    proof {
        reveal_strlit("0");
        reveal_strlit("1");
        reveal_strlit("2");
        reveal_strlit("3");
        reveal_strlit("4");
        reveal_strlit("5");
        reveal_strlit("6");
        reveal_strlit("7");
        reveal_strlit("8");
        reveal_strlit("9");
    }
    let s: &str = if d == 0 {
        "0"
    } else if d == 1 {
        "1"
    } else if d == 2 {
        "2"
    } else if d == 3 {
        "3"
    } else if d == 4 {
        "4"
    } else if d == 5 {
        "5"
    } else if d == 6 {
        "6"
    } else if d == 7 {
        "7"
    } else if d == 8 {
        "8"
    } else {
        "9"
    };
    proof {
        assert(s@ =~= seq![digit_char(d as nat)]);
    }
    String::from_str(s)
}

/// Renders `n` in decimal.
pub fn u32_decimal(n: u32) -> (r: String)
    ensures
        r@ == decimal(n as nat),
    decreases n,
{
    if n < 10 {
        digit_string(n)
    } else {
        let mut s = u32_decimal(n / 10);
        let d = digit_string(n % 10);
        s.append(d.as_str());
        s
    }
}

/// `s` with every leading `error: ` prefix removed, repeatedly.
pub open spec fn strip_error_prefix(s: Seq<char>) -> Seq<char>
    decreases s.len(),
{
    if s.len() >= 7 && s.take(7) == "error: "@ {
        strip_error_prefix(s.skip(7))
    } else {
        s
    }
}

/// What remains after stripping is a suffix of the message it started from.
pub proof fn lemma_stripped_is_suffix(s: Seq<char>)
    ensures
        exists|k: int| 0 <= k <= s.len() && strip_error_prefix(s) == s.skip(k),
    decreases s.len(),
{
    if s.len() >= 7 && s.take(7) == "error: "@ {
        lemma_stripped_is_suffix(s.skip(7));
        let k = choose|k: int|
            0 <= k <= s.skip(7).len() && strip_error_prefix(s.skip(7)) == s.skip(7).skip(k);
        assert(s.skip(7).skip(k) =~= s.skip(7 + k));
        assert(strip_error_prefix(s) == s.skip(7 + k));
    } else {
        assert(strip_error_prefix(s) == s.skip(0));
    }
}

fn has_error_prefix(s: &str) -> (r: bool)
    ensures
        r == (s@.len() >= 7 && s@.take(7) == "error: "@),
{
    proof {
        reveal_strlit("error: ");
    }
    let n = s.unicode_len();
    if n < 7 {
        return false;
    }
    let r = s.get_char(0) == 'e' && s.get_char(1) == 'r' && s.get_char(2) == 'r' && s.get_char(3)
        == 'o' && s.get_char(4) == 'r' && s.get_char(5) == ':' && s.get_char(6) == ' ';
    proof {
        if r {
            assert(s@.take(7) =~= "error: "@);
        } else {
            assert(s@.take(7) != "error: "@) by {
                if s@.take(7) == "error: "@ {
                    assert(forall|j: int| 0 <= j < 7 ==> s@.take(7)[j] == s@[j]);
                }
            }
        }
    }
    r
}

/// Removes every leading `error: ` prefix from `s`, repeatedly.
pub fn stripped_message(s: &str) -> (r: String)
    ensures
        r@ == strip_error_prefix(s@),
{
    let mut cur: &str = s;
    while has_error_prefix(cur)
        invariant
            strip_error_prefix(s@) == strip_error_prefix(cur@),
        decreases cur@.len(),
    {
        let n = cur.unicode_len();
        let rest = cur.substring_char(7, n);
        proof {
            assert(rest@ =~= cur@.skip(7));
        }
        cur = rest;
    }
    String::from_str(cur)
}

/// Character-for-character string equality.
pub fn str_eq(a: &str, b: &str) -> (r: bool)
    ensures
        r == (a@ == b@),
{
    let na = a.unicode_len();
    let nb = b.unicode_len();
    if na != nb {
        return false;
    }
    let mut i: usize = 0;
    while i < na
        invariant
            i <= na,
            na == a@.len(),
            na == b@.len(),
            forall|j: int| 0 <= j < i ==> a@[j] == b@[j],
        decreases na - i,
    {
        if a.get_char(i) != b.get_char(i) {
            return false;
        }
        i = i + 1;
    }
    proof {
        assert(a@ =~= b@);
    }
    true
}

/// Whether `s`, trimmed and lowercased, is exactly `"y"` or `"yes"`.
pub open spec fn spec_answer_allows(s: Seq<char>) -> bool {
    normalized(s) == "y"@ || normalized(s) == "yes"@
}

/// Decides an operator's answer line: `true` exactly when the trimmed,
/// lowercased line is `"y"` or `"yes"`.
pub fn answer_allows(line: &str) -> (r: bool)
    ensures
        r == spec_answer_allows(line@),
{
    proof {
        reveal_strlit("y");
        reveal_strlit("yes");
    }
    let (lo, hi) = trim_bounds(line);
    let ghost t = trimmed(line@);
    proof {
        assert(lower_seq(t).len() == t.len());
    }
    let m = hi - lo;
    if m == 1 {
        let c0 = lower_char_exec(line.get_char(lo));
        proof {
            assert(lower_seq(t)[0] == lower_char(t[0]));
        }
        if c0 == 'y' {
            proof {
                assert(normalized(line@) =~= "y"@);
            }
            true
        } else {
            proof {
                assert(normalized(line@) != "y"@);
                assert(normalized(line@) != "yes"@);
            }
            false
        }
    } else if m == 3 {
        let c0 = lower_char_exec(line.get_char(lo));
        let c1 = lower_char_exec(line.get_char(lo + 1));
        let c2 = lower_char_exec(line.get_char(lo + 2));
        proof {
            assert(lower_seq(t)[0] == lower_char(t[0]));
            assert(lower_seq(t)[1] == lower_char(t[1]));
            assert(lower_seq(t)[2] == lower_char(t[2]));
        }
        if c0 == 'y' && c1 == 'e' && c2 == 's' {
            proof {
                assert(normalized(line@) =~= "yes"@);
            }
            true
        } else {
            proof {
                assert(normalized(line@) != "y"@);
                assert(normalized(line@) != "yes"@);
            }
            false
        }
    } else {
        proof {
            assert(normalized(line@) != "y"@);
            assert(normalized(line@) != "yes"@);
        }
        false
    }
}

} // verus!
