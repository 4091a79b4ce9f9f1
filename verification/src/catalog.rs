//! The version offset catalog: parses the canonical configuration texts
//! into offset records and serves lookups by the canonical `(major, minor)`
//! key.
//!
//! The parser accepts exactly the canonical form that
//! [`crate::offsets::render_config`] produces: whatever it returns, the
//! input was that record's canonical text, and every record's canonical
//! text parses back to that record.  Unknown versions are never inferred; a
//! lookup miss is reported to the caller as unsupported.

use vstd::prelude::*;

use crate::offsets::{spec_field_line, spec_i64_chars, spec_render_config, spec_section_line,
    spec_top_line, VersionOffsets};
use crate::text::{digit_val, is_digit_char, spec_dec, spec_parse_dec};
use crate::version::PyVersion;

verus! {

/// Why a catalog could not be built.
#[derive(Clone, Copy, Debug, PartialEq, Eq, Structural)]
pub enum CatalogError {
    /// A configuration text is not a canonical offsets description.
    InvalidConfig,
    /// More configuration texts than index space.
    TooManyConfigs,
}

/// The characters of a string, for index-based parsing.
pub fn str_chars(s: &str) -> (v: Vec<char>)
    ensures
        v@ == s@,
{
    let n = s.unicode_len();
    let mut v: Vec<char> = Vec::new();
    let mut i: usize = 0;
    while i < n
        invariant
            n == s@.len(),
            i <= n,
            v@ == s@.take(i as int),
        decreases n - i,
    {
        v.push(s.get_char(i));
        proof {
            assert(v@ =~= s@.take(i as int + 1));
        }
        i = i + 1;
    }
    proof {
        assert(s@.take(n as int) =~= s@);
    }
    v
}

/// Matches the literal at position `i`; on success the new position.
fn expect_lit(s: &Vec<char>, i: usize, lit: &str) -> (r: Option<usize>)
    requires
        i <= s@.len(),
    ensures
        r is Some ==> {
            &&& r.unwrap() == i + lit@.len()
            &&& i + lit@.len() <= s@.len()
            &&& s@.subrange(i as int, i + lit@.len()) == lit@
        },
        r is None ==> !(i + lit@.len() <= s@.len() && s@.subrange(i as int, i + lit@.len())
            =~= lit@),
{
    let n = lit.unicode_len();
    let slen = s.len();
    if n > slen - i {
        return None;
    }
    let mut j: usize = 0;
    while j < n
        invariant
            slen == s@.len(),
            i + n <= slen,
            n == lit@.len(),
            j <= n,
            forall|k: int| 0 <= k < j ==> s@[i + k] == lit@[k],
        decreases n - j,
    {
        if *s.get(i + j).unwrap() != lit.get_char(j) {
            proof {
                assert(s@.subrange(i as int, i + lit@.len())[j as int] != lit@[j as int]);
            }
            return None;
        }
        j = j + 1;
    }
    proof {
        assert(s@.subrange(i as int, i + lit@.len()) =~= lit@);
    }
    Some(i + n)
}

proof fn lemma_dec_no_leading_zero(n: nat)
    ensures
        spec_dec(n).len() > 1 ==> spec_dec(n)[0] != '0',
        n >= 10 ==> spec_dec(n).len() > 1,
        n < 10 ==> spec_dec(n).len() == 1,
    decreases n,
{
    if n >= 10 {
        lemma_dec_no_leading_zero(n / 10);
        if n / 10 < 10 {
            assert(spec_dec(n / 10) =~= seq![crate::text::digit_char(n / 10)]);
        }
    }
}

proof fn lemma_parse_dec_inverse(s: Seq<char>, n: nat)
    requires
        spec_parse_dec(s) == Some(n),
        s.len() > 1 ==> s[0] != '0',
    ensures
        spec_dec(n) =~= s,
    decreases s.len(),
{
    if s.len() == 1 {
        assert(n == digit_val(s[0]));
        assert(spec_dec(n) =~= seq![crate::text::digit_char(n)]);
        assert(crate::text::digit_char(digit_val(s[0])) == s[0]);
    } else {
        let s0 = s.drop_last();
        let high = spec_parse_dec(s0).unwrap();
        lemma_parse_dec_inverse(s0, high);
        assert(n == high * 10 + digit_val(s.last()));
        if s0.len() == 1 {
            assert(high == digit_val(s0[0]));
            assert(high >= 1);
        } else {
            lemma_dec_no_leading_zero(high);
            assert(spec_dec(high).len() > 1);
            assert(high >= 10) by {
                if high < 10 {
                    assert(spec_dec(high) =~= seq![crate::text::digit_char(high)]);
                }
            }
        }
        assert(high >= 1);
        assert(n >= 10) by (nonlinear_arith)
            requires
                high >= 1,
                n == high * 10 + digit_val(s.last()),
        ;
        assert(n / 10 == high && n % 10 == digit_val(s.last())) by (nonlinear_arith)
            requires
                n == high * 10 + digit_val(s.last()),
                digit_val(s.last()) < 10,
        ;
        assert(digit_val(s.last()) < 10);
        assert(crate::text::digit_char(digit_val(s.last())) == s.last());
        assert(spec_dec(n) =~= spec_dec(high).push(s.last()));
    }
}

/// The magnitude of a signed value.
pub open spec fn i64_abs(v: i64) -> nat {
    if v < 0 {
        (-(v as int)) as nat
    } else {
        v as nat
    }
}

/// True when the canonical rendering of `v`, ended by a newline, stands at
/// position `i`.
#[verifier::opaque]
pub open spec fn i64_nl_at(s: Seq<char>, i: int, v: i64) -> bool {
    let pat = spec_i64_chars(v as int) + seq!['\n'];
    &&& 0 <= i
    &&& i + pat.len() <= s.len()
    &&& s.subrange(i, i + pat.len()) == pat
}

/// What the text looks like around a canonical signed decimal: its sign
/// character, its digit run, and the closing newline.
proof fn lemma_i64_pattern(s: Seq<char>, i: int, v: i64)
    requires
        i64_nl_at(s, i, v),
    ensures
        ({
            let start = if v < 0 {
                i + 1
            } else {
                i
            };
            let digits = spec_dec(i64_abs(v));
            let m = digits.len() as int;
            &&& m >= 1
            &&& start + m < s.len()
            &&& (v < 0 ==> s[i] == '-')
            &&& (v >= 0 ==> is_digit_char(s[i]))
            &&& s.subrange(start, start + m) == digits
            &&& forall|k: int| start <= k < start + m ==> is_digit_char(#[trigger] s[k])
            &&& s[start + m] == '\n'
            &&& spec_parse_dec(s.subrange(start, start + m)) == Some(i64_abs(v))
            &&& (m > 1 ==> s[start] != '0')
            &&& (v < 0 ==> i64_abs(v) >= 1)
            &&& i64_abs(v) <= 9223372036854775808
            &&& (v >= 0 ==> i64_abs(v) <= 9223372036854775807)
        }),
{
    reveal(i64_nl_at);
    reveal(crate::offsets::spec_i64_chars);
    let pat = spec_i64_chars(v as int) + seq!['\n'];
    let patlen = pat.len() as int;
    let start = if v < 0 {
        i + 1
    } else {
        i
    };
    let digits = spec_dec(i64_abs(v));
    let m = digits.len() as int;
    crate::text::lemma_spec_dec_digits(i64_abs(v));
    lemma_dec_no_leading_zero(i64_abs(v));
    crate::text::lemma_parse_spec_dec(i64_abs(v));
    assert forall|t: int| 0 <= t < patlen implies s[i + t] == pat[t] by {
        assert(s.subrange(i, i + patlen)[t] == pat[t]);
    }
    if v < 0 {
        assert(spec_i64_chars(v as int) == seq!['-'] + digits);
        assert(pat[0] == '-');
        assert forall|k: int| 0 <= k < m implies pat[1 + k] == digits[k] by {}
    } else {
        assert(spec_i64_chars(v as int) == digits);
        assert forall|k: int| 0 <= k < m implies pat[k] == digits[k] by {}
    }
    assert(s.subrange(start, start + m) =~= digits);
    assert forall|k: int| start <= k < start + m implies is_digit_char(#[trigger] s[k]) by {
        assert(s[k] == digits[k - start]);
    }
    assert(s[start + m] == pat[patlen - 1]);
    if v >= 0 {
        assert(s[i] == digits[0]);
    }
}

/// Parses a canonical signed decimal ended by a newline: no leading zeroes,
/// no `-0`, any `i64` value.  It succeeds exactly where such a rendering
/// stands: on success the consumed text is the rendering of the returned
/// value plus the newline, and wherever some value's rendering stands, that
/// value is returned.
#[verifier::rlimit(60)]
#[verifier::spinoff_prover]
fn parse_i64_nl(s: &Vec<char>, i: usize) -> (r: Option<(i64, usize)>)
    requires
        i <= s@.len(),
    ensures
        r is Some ==> {
            let (v, j) = r.unwrap();
            &&& i < j <= s@.len()
            &&& s@.subrange(i as int, j as int) =~= spec_i64_chars(v as int) + seq!['\n']
        },
        forall|v: i64|
            #[trigger] i64_nl_at(s@, i as int, v) ==> r == Some::<(i64, usize)>(
                (v, (i + spec_i64_chars(v as int).len() + 1) as usize),
            ),
{
    let mut j = i;
    let mut neg = false;
    if j < s.len() && *s.get(j).unwrap() == '-' {
        neg = true;
        j = j + 1;
    }
    let start = j;
    let limit: u64 = if neg {
        9223372036854775808u64
    } else {
        9223372036854775807u64
    };
    let mut acc: u64 = 0;
    while j < s.len() && *s.get(j).unwrap() != '\n'
        invariant
            i <= s@.len(),
            i <= start <= j <= s@.len(),
            start == i + (if neg {
                1int
            } else {
                0int
            }),
            neg ==> i < s@.len() && s@[i as int] == '-',
            !neg ==> (i < s@.len() ==> s@[i as int] != '-'),
            limit == (if neg {
                9223372036854775808u64
            } else {
                9223372036854775807u64
            }),
            acc <= limit,
            j > start ==> spec_parse_dec(s@.subrange(start as int, j as int)) == Some(
                acc as nat,
            ),
            j == start ==> acc == 0,
            forall|k: int| start <= k < j ==> is_digit_char(#[trigger] s@[k]),
        decreases s@.len() - j,
    {
        let c = *s.get(j).unwrap();
        if !(c >= '0' && c <= '9') {
            proof {
                assert forall|v: i64| !i64_nl_at(s@, i as int, v) by {
                    if i64_nl_at(s@, i as int, v) {
                        lemma_i64_pattern(s@, i as int, v);
                    }
                }
            }
            return None;
        }
        if acc > 922337203685477580u64 {
            proof {
                assert forall|v: i64| !i64_nl_at(s@, i as int, v) by {
                    if i64_nl_at(s@, i as int, v) {
                        lemma_i64_pattern(s@, i as int, v);
                        let vstart = if v < 0 {
                            i as int + 1
                        } else {
                            i as int
                        };
                        let m = spec_dec(i64_abs(v)).len() as int;
                        assert(vstart == start);
                        // The scan is still inside the digit run.
                        assert(j < vstart + m);
                        let full = s@.subrange(vstart, vstart + m);
                        crate::text::lemma_parse_dec_prefixes(full);
                        let pre = full.take(j as int - start);
                        let cur = full.take(j as int + 1 - start);
                        assert(cur.last() == s@[j as int]);
                        assert(cur.drop_last() =~= pre);
                        assert(pre =~= s@.subrange(start as int, j as int));
                        // The next prefix value already exceeds every magnitude.
                        let nextv = spec_parse_dec(cur).unwrap();
                        if j > start {
                            assert(spec_parse_dec(pre) == Some(acc as nat));
                            assert(nextv == acc * 10 + digit_val(s@[j as int]));
                        } else {
                            assert(cur.len() == 1);
                            assert(nextv == digit_val(s@[j as int]));
                        }
                        assert(nextv <= i64_abs(v));
                    }
                }
            }
            return None;
        }
        let d = (c as u32) - ('0' as u32);
        let next = acc * 10 + (d as u64);
        if next > limit {
            proof {
                assert forall|v: i64| !i64_nl_at(s@, i as int, v) by {
                    if i64_nl_at(s@, i as int, v) {
                        lemma_i64_pattern(s@, i as int, v);
                        let vstart = if v < 0 {
                            i as int + 1
                        } else {
                            i as int
                        };
                        let m = spec_dec(i64_abs(v)).len() as int;
                        assert(vstart == start);
                        assert(j < vstart + m);
                        let full = s@.subrange(vstart, vstart + m);
                        crate::text::lemma_parse_dec_prefixes(full);
                        let pre = full.take(j as int - start);
                        let cur = full.take(j as int + 1 - start);
                        assert(cur.last() == s@[j as int]);
                        assert(cur.drop_last() =~= pre);
                        assert(pre =~= s@.subrange(start as int, j as int));
                        let nextv = spec_parse_dec(cur).unwrap();
                        if j > start {
                            assert(spec_parse_dec(pre) == Some(acc as nat));
                            assert(nextv == acc * 10 + digit_val(s@[j as int]));
                        } else {
                            assert(cur.len() == 1);
                            assert(nextv == digit_val(s@[j as int]));
                        }
                        assert(nextv <= i64_abs(v));
                    }
                }
            }
            return None;
        }
        proof {
            let sub = s@.subrange(start as int, j as int + 1);
            assert(sub.last() == c);
            assert(sub.drop_last() =~= s@.subrange(start as int, j as int));
            assert(digit_val(c) == d as nat);
        }
        acc = next;
        j = j + 1;
    }
    proof {
        // Wherever some rendering stands, the scan stopped exactly at its
        // newline.
        assert forall|v: i64| i64_nl_at(s@, i as int, v) implies {
            let vstart = if v < 0 {
                i as int + 1
            } else {
                i as int
            };
            let m = spec_dec(i64_abs(v)).len() as int;
            &&& vstart == start
            &&& j == vstart + m
            &&& j < s@.len()
            &&& acc == i64_abs(v)
            &&& (v < 0 <==> neg)
            &&& (m > 1 ==> s@[start as int] != '0')
            &&& (v < 0 ==> i64_abs(v) >= 1)
        } by {
            lemma_i64_pattern(s@, i as int, v);
            let vstart = if v < 0 {
                i as int + 1
            } else {
                i as int
            };
            let m = spec_dec(i64_abs(v)).len() as int;
            assert(vstart == start);
            if j < vstart + m {
                // The loop only stops at the end or at a newline, and the
                // digit run holds neither.
                assert(is_digit_char(s@[j as int]));
                assert(false);
            }
            if j > vstart + m {
                assert(is_digit_char(s@[vstart + m]));
                assert(false);
            }
            assert(s@.subrange(start as int, j as int) == spec_dec(i64_abs(v)));
        }
    }
    if j == start {
        // No digits at all.
        return None;
    }
    if j - start > 1 && *s.get(start).unwrap() == '0' {
        // A leading zero is not canonical.
        return None;
    }
    if neg && acc == 0 {
        // `-0` is not canonical.
        return None;
    }
    if j == s.len() {
        // The newline is missing.
        return None;
    }
    let ghost digits = s@.subrange(start as int, j as int);
    proof {
        lemma_parse_dec_inverse(digits, acc as nat);
    }
    j = j + 1;
    let v: i64 = if neg {
        if acc == 9223372036854775808u64 {
            i64::MIN
        } else {
            -(acc as i64)
        }
    } else {
        acc as i64
    };
    proof {
        reveal(crate::offsets::spec_i64_chars);
        assert(s@[j - 1] == '\n');
        if neg {
            assert(s@[i as int] == '-');
            assert(s@.subrange(i as int, j as int) =~= seq!['-'] + digits + seq!['\n']);
            assert(spec_i64_chars(v as int) == seq!['-'] + spec_dec(acc as nat));
        } else {
            assert(s@.subrange(i as int, j as int) =~= digits + seq!['\n']);
        }
        assert(s@.subrange(i as int, j as int) =~= spec_i64_chars(v as int) + seq!['\n']);
    }
    Some((v, j))
}

/// True when the canonical top-level line `name: v` stands at position
/// `i`.
#[verifier::opaque]
pub open spec fn top_line_at(s: Seq<char>, i: int, name: Seq<char>, v: i64) -> bool {
    let pat = spec_top_line(name, v as int);
    &&& 0 <= i
    &&& i + pat.len() <= s.len()
    &&& s.subrange(i, i + pat.len()) == pat
}

/// True when the canonical section header `name:` stands at position `i`.
#[verifier::opaque]
pub open spec fn section_line_at(s: Seq<char>, i: int, name: Seq<char>) -> bool {
    let pat = spec_section_line(name);
    &&& 0 <= i
    &&& i + pat.len() <= s.len()
    &&& s.subrange(i, i + pat.len()) == pat
}

/// True when the canonical field line for `name` and `v` stands at
/// position `i`.
#[verifier::opaque]
pub open spec fn field_line_at(s: Seq<char>, i: int, name: Seq<char>, v: i64) -> bool {
    let pat = spec_field_line(name, v as int);
    &&& 0 <= i
    &&& i + pat.len() <= s.len()
    &&& s.subrange(i, i + pat.len()) == pat
}

proof fn lemma_top_line_parts(s: Seq<char>, i: int, name: Seq<char>, v: i64)
    requires
        top_line_at(s, i, name, v),
    ensures
        i + name.len() + 2 <= s.len(),
        s.subrange(i, i + name.len()) == name,
        s.subrange(i + name.len(), i + name.len() + 2) == seq![':', ' '],
        i64_nl_at(s, i + name.len() + 2, v),
{
    reveal(top_line_at);
    reveal(i64_nl_at);
    let pat = spec_top_line(name, v as int);
    let patlen = pat.len() as int;
    let colsp = seq![':', ' '];
    let tail = spec_i64_chars(v as int) + seq!['\n'];
    assert forall|t: int| 0 <= t < patlen implies s[i + t] == pat[t] by {
        assert(s.subrange(i, i + patlen)[t] == pat[t]);
    }
    assert forall|k: int| 0 <= k < name.len() implies pat[k] == name[k] by {}
    assert forall|k: int| 0 <= k < 2 implies pat[name.len() + k] == colsp[k] by {}
    assert forall|k: int| 0 <= k < tail.len() implies pat[name.len() + 2 + k] == tail[k] by {}
    assert(s.subrange(i, i + name.len()) =~= name);
    assert(s.subrange(i + name.len(), i + name.len() + 2) =~= colsp);
    assert(s.subrange(i + name.len() + 2, i + patlen) =~= tail);
}

proof fn lemma_section_line_parts(s: Seq<char>, i: int, name: Seq<char>)
    requires
        section_line_at(s, i, name),
    ensures
        i + name.len() + 2 <= s.len(),
        s.subrange(i, i + name.len()) == name,
        s.subrange(i + name.len(), i + name.len() + 2) == seq![':', '\n'],
{
    reveal(section_line_at);
    let pat = spec_section_line(name);
    let patlen = pat.len() as int;
    let tail = seq![':', '\n'];
    assert forall|t: int| 0 <= t < patlen implies s[i + t] == pat[t] by {
        assert(s.subrange(i, i + patlen)[t] == pat[t]);
    }
    assert forall|k: int| 0 <= k < name.len() implies pat[k] == name[k] by {}
    assert forall|k: int| 0 <= k < 2 implies pat[name.len() + k] == tail[k] by {}
    assert(s.subrange(i, i + name.len()) =~= name);
    assert(s.subrange(i + name.len(), i + name.len() + 2) =~= tail);
}

proof fn lemma_field_line_parts(s: Seq<char>, i: int, name: Seq<char>, v: i64)
    requires
        field_line_at(s, i, name, v),
    ensures
        i + name.len() + 4 <= s.len(),
        s.subrange(i, i + 2) == seq![' ', ' '],
        s.subrange(i + 2, i + 2 + name.len()) == name,
        s.subrange(i + 2 + name.len(), i + name.len() + 4) == seq![':', ' '],
        i64_nl_at(s, i + name.len() + 4, v),
{
    reveal(field_line_at);
    reveal(i64_nl_at);
    let pat = spec_field_line(name, v as int);
    let patlen = pat.len() as int;
    let ind = seq![' ', ' '];
    let colsp = seq![':', ' '];
    let tail = spec_i64_chars(v as int) + seq!['\n'];
    assert forall|t: int| 0 <= t < patlen implies s[i + t] == pat[t] by {
        assert(s.subrange(i, i + patlen)[t] == pat[t]);
    }
    assert forall|k: int| 0 <= k < 2 implies pat[k] == ind[k] by {}
    assert forall|k: int| 0 <= k < name.len() implies pat[2 + k] == name[k] by {}
    assert forall|k: int| 0 <= k < 2 implies pat[2 + name.len() + k] == colsp[k] by {}
    assert forall|k: int| 0 <= k < tail.len() implies pat[name.len() + 4 + k] == tail[k] by {}
    assert(s.subrange(i, i + 2) =~= ind);
    assert(s.subrange(i + 2, i + 2 + name.len()) =~= name);
    assert(s.subrange(i + 2 + name.len(), i + name.len() + 4) =~= colsp);
    assert(s.subrange(i + name.len() + 4, i + patlen) =~= tail);
}

/// Parses `name: value` at the top level; consumes one whole line.  It
/// succeeds exactly where such a line stands.
fn parse_top_line(s: &Vec<char>, i: usize, name: &str) -> (r: Option<(i64, usize)>)
    requires
        i <= s@.len(),
    ensures
        r is Some ==> {
            let (v, j) = r.unwrap();
            &&& i < j <= s@.len()
            &&& s@.subrange(i as int, j as int) =~= spec_top_line(name@, v as int)
        },
        forall|v: i64|
            #[trigger] top_line_at(s@, i as int, name@, v) ==> r == Some::<(i64, usize)>(
                (v, (i + spec_top_line(name@, v as int).len()) as usize),
            ),
{
    proof {
        reveal_strlit(": ");
        assert(": "@ =~= seq![':', ' ']);
    }
    let j1 = match expect_lit(s, i, name) {
        Some(j) => j,
        None => {
            proof {
                assert forall|v: i64| !top_line_at(s@, i as int, name@, v) by {
                    if top_line_at(s@, i as int, name@, v) {
                        lemma_top_line_parts(s@, i as int, name@, v);
                    }
                }
            }
            return None;
        },
    };
    let j2 = match expect_lit(s, j1, ": ") {
        Some(j) => j,
        None => {
            proof {
                assert forall|v: i64| !top_line_at(s@, i as int, name@, v) by {
                    if top_line_at(s@, i as int, name@, v) {
                        lemma_top_line_parts(s@, i as int, name@, v);
                    }
                }
            }
            return None;
        },
    };
    let (v, j3) = match parse_i64_nl(s, j2) {
        Some(p) => p,
        None => {
            proof {
                assert forall|v: i64| !top_line_at(s@, i as int, name@, v) by {
                    if top_line_at(s@, i as int, name@, v) {
                        lemma_top_line_parts(s@, i as int, name@, v);
                    }
                }
            }
            return None;
        },
    };
    proof {
        assert(s@.subrange(i as int, j3 as int) =~= s@.subrange(i as int, j1 as int) + s@.subrange(
            j1 as int,
            j2 as int,
        ) + s@.subrange(j2 as int, j3 as int));
        assert(s@.subrange(i as int, j3 as int) =~= spec_top_line(name@, v as int));
        assert forall|w: i64| top_line_at(s@, i as int, name@, w) implies (w == v && j3 == i
            + spec_top_line(name@, w as int).len()) by {
            lemma_top_line_parts(s@, i as int, name@, w);
        }
    }
    Some((v, j3))
}

/// Parses a section header `name:`; consumes one whole line.  It succeeds
/// exactly where such a header stands.
fn parse_section_line(s: &Vec<char>, i: usize, name: &str) -> (r: Option<usize>)
    requires
        i <= s@.len(),
    ensures
        r is Some ==> {
            let j = r.unwrap();
            &&& i < j <= s@.len()
            &&& s@.subrange(i as int, j as int) =~= spec_section_line(name@)
        },
        section_line_at(s@, i as int, name@) ==> r == Some((i + name@.len() + 2) as usize),
{
    proof {
        reveal_strlit(":\n");
        assert(":\n"@ =~= seq![':', '\n']);
        if section_line_at(s@, i as int, name@) {
            lemma_section_line_parts(s@, i as int, name@);
        }
    }
    let j1 = match expect_lit(s, i, name) {
        Some(j) => j,
        None => {
            return None;
        },
    };
    let j2 = match expect_lit(s, j1, ":\n") {
        Some(j) => j,
        None => {
            return None;
        },
    };
    proof {
        assert(s@.subrange(i as int, j2 as int) =~= s@.subrange(i as int, j1 as int) + s@.subrange(
            j1 as int,
            j2 as int,
        ));
        assert(s@.subrange(i as int, j2 as int) =~= spec_section_line(name@));
        assert(i < j2) by {
            assert(spec_section_line(name@).len() == name@.len() + 2);
        }
    }
    Some(j2)
}

/// Parses an indented `  name: value` field; consumes one whole line.  It
/// succeeds exactly where such a field stands.
fn parse_field_line(s: &Vec<char>, i: usize, name: &str) -> (r: Option<(i64, usize)>)
    requires
        i <= s@.len(),
    ensures
        r is Some ==> {
            let (v, j) = r.unwrap();
            &&& i < j <= s@.len()
            &&& s@.subrange(i as int, j as int) =~= spec_field_line(name@, v as int)
        },
        forall|v: i64|
            #[trigger] field_line_at(s@, i as int, name@, v) ==> r == Some::<(i64, usize)>(
                (v, (i + spec_field_line(name@, v as int).len()) as usize),
            ),
{
    proof {
        reveal_strlit("  ");
        reveal_strlit(": ");
        assert("  "@ =~= seq![' ', ' ']);
        assert(": "@ =~= seq![':', ' ']);
    }
    let j0 = match expect_lit(s, i, "  ") {
        Some(j) => j,
        None => {
            proof {
                assert forall|v: i64| !field_line_at(s@, i as int, name@, v) by {
                    if field_line_at(s@, i as int, name@, v) {
                        lemma_field_line_parts(s@, i as int, name@, v);
                    }
                }
            }
            return None;
        },
    };
    let j1 = match expect_lit(s, j0, name) {
        Some(j) => j,
        None => {
            proof {
                assert forall|v: i64| !field_line_at(s@, i as int, name@, v) by {
                    if field_line_at(s@, i as int, name@, v) {
                        lemma_field_line_parts(s@, i as int, name@, v);
                    }
                }
            }
            return None;
        },
    };
    let j2 = match expect_lit(s, j1, ": ") {
        Some(j) => j,
        None => {
            proof {
                assert forall|v: i64| !field_line_at(s@, i as int, name@, v) by {
                    if field_line_at(s@, i as int, name@, v) {
                        lemma_field_line_parts(s@, i as int, name@, v);
                    }
                }
            }
            return None;
        },
    };
    let (v, j3) = match parse_i64_nl(s, j2) {
        Some(p) => p,
        None => {
            proof {
                assert forall|v: i64| !field_line_at(s@, i as int, name@, v) by {
                    if field_line_at(s@, i as int, name@, v) {
                        lemma_field_line_parts(s@, i as int, name@, v);
                    }
                }
            }
            return None;
        },
    };
    proof {
        assert(s@.subrange(i as int, j3 as int) =~= s@.subrange(i as int, j0 as int) + s@.subrange(
            j0 as int,
            j1 as int,
        ) + s@.subrange(j1 as int, j2 as int) + s@.subrange(j2 as int, j3 as int));
        assert(s@.subrange(i as int, j3 as int) =~= spec_field_line(name@, v as int));
        assert forall|w: i64| field_line_at(s@, i as int, name@, w) implies (w == v && j3 == i
            + spec_field_line(name@, w as int).len()) by {
            lemma_field_line_parts(s@, i as int, name@, w);
        }
    }
    Some((v, j3))
}

/// Parses a top-level `name: value` line whose value must fit `u32`.  It
/// succeeds exactly where such a line with an in-range value stands.
fn parse_u32_line(s: &Vec<char>, i: usize, name: &str) -> (r: Option<(u32, usize)>)
    requires
        i <= s@.len(),
    ensures
        r is Some ==> {
            let (v, j) = r.unwrap();
            &&& i < j <= s@.len()
            &&& s@.subrange(i as int, j as int) =~= spec_top_line(name@, v as int)
        },
        forall|v: u32|
            #[trigger] top_line_at(s@, i as int, name@, v as i64) ==> r == Some::<(u32, usize)>(
                (v, (i + spec_top_line(name@, v as int).len()) as usize),
            ),
{
    match parse_top_line(s, i, name) {
        Some((v, j)) => {
            if 0 <= v && v <= u32::MAX as i64 {
                Some((v as u32, j))
            } else {
                None
            }
        },
        None => None,
    }
}

/// True when one whole canonical section with one field stands at `i`.
#[verifier::opaque]
pub open spec fn section1_at(s: Seq<char>, i: int, sec: Seq<char>, f1: Seq<char>, v1: i64) -> bool {
    let pat = spec_section_line(sec) + spec_field_line(f1, v1 as int);
    &&& 0 <= i
    &&& i + pat.len() <= s.len()
    &&& s.subrange(i, i + pat.len()) == pat
}

/// True when one whole canonical section with two fields stands at `i`.
#[verifier::opaque]
pub open spec fn section2_at(
    s: Seq<char>,
    i: int,
    sec: Seq<char>,
    f1: Seq<char>,
    f2: Seq<char>,
    v1: i64,
    v2: i64,
) -> bool {
    let pat = spec_section_line(sec) + spec_field_line(f1, v1 as int) + spec_field_line(
        f2,
        v2 as int,
    );
    &&& 0 <= i
    &&& i + pat.len() <= s.len()
    &&& s.subrange(i, i + pat.len()) == pat
}

/// True when one whole canonical section with four fields stands at `i`.
#[verifier::opaque]
pub open spec fn section4_at(
    s: Seq<char>,
    i: int,
    sec: Seq<char>,
    f1: Seq<char>,
    f2: Seq<char>,
    f3: Seq<char>,
    f4: Seq<char>,
    v1: i64,
    v2: i64,
    v3: i64,
    v4: i64,
) -> bool {
    let pat = spec_section_line(sec) + spec_field_line(f1, v1 as int) + spec_field_line(
        f2,
        v2 as int,
    ) + spec_field_line(f3, v3 as int) + spec_field_line(f4, v4 as int);
    &&& 0 <= i
    &&& i + pat.len() <= s.len()
    &&& s.subrange(i, i + pat.len()) == pat
}

/// True when one whole canonical section with six fields stands at `i`.
#[verifier::opaque]
pub open spec fn section6_at(
    s: Seq<char>,
    i: int,
    sec: Seq<char>,
    f1: Seq<char>,
    f2: Seq<char>,
    f3: Seq<char>,
    f4: Seq<char>,
    f5: Seq<char>,
    f6: Seq<char>,
    v1: i64,
    v2: i64,
    v3: i64,
    v4: i64,
    v5: i64,
    v6: i64,
) -> bool {
    let pat = spec_section_line(sec) + spec_field_line(f1, v1 as int) + spec_field_line(
        f2,
        v2 as int,
    ) + spec_field_line(f3, v3 as int) + spec_field_line(f4, v4 as int) + spec_field_line(
        f5,
        v5 as int,
    ) + spec_field_line(f6, v6 as int);
    &&& 0 <= i
    &&& i + pat.len() <= s.len()
    &&& s.subrange(i, i + pat.len()) == pat
}

/// A match of a concatenation splits into matches of its two halves.
proof fn lemma_split_two(s: Seq<char>, i: int, a: Seq<char>, b: Seq<char>)
    requires
        0 <= i,
        i + a.len() + b.len() <= s.len(),
        s.subrange(i, i + a.len() + b.len()) == a + b,
    ensures
        s.subrange(i, i + a.len()) == a,
        s.subrange(i + a.len(), i + a.len() + b.len()) == b,
{
    let pat = a + b;
    let patlen = pat.len() as int;
    assert forall|k: int| 0 <= k < a.len() implies s.subrange(i, i + a.len())[k] == a[k] by {
        assert(s.subrange(i, i + patlen)[k] == pat[k]);
        assert(pat[k] == a[k]);
        assert(s.subrange(i, i + a.len())[k] == s[i + k]);
        assert(s.subrange(i, i + patlen)[k] == s[i + k]);
    }
    assert(s.subrange(i, i + a.len()) =~= a);
    assert forall|k: int|
        0 <= k < b.len() implies s.subrange(i + a.len(), i + a.len() + b.len())[k] == b[k] by {
        assert(s.subrange(i, i + patlen)[a.len() + k] == pat[a.len() + k]);
        assert(pat[a.len() + k] == b[k]);
        assert(s.subrange(i + a.len(), i + a.len() + b.len())[k] == s[i + a.len() + k]);
        assert(s.subrange(i, i + patlen)[a.len() + k] == s[i + a.len() + k]);
    }
    assert(s.subrange(i + a.len(), i + a.len() + b.len()) =~= b);
}

proof fn lemma_section1_parts(s: Seq<char>, i: int, sec: Seq<char>, f1: Seq<char>, v1: i64)
    requires
        section1_at(s, i, sec, f1, v1),
    ensures
        section_line_at(s, i, sec),
        field_line_at(s, i + sec.len() + 2, f1, v1),
{
    reveal(section1_at);
    reveal(section_line_at);
    reveal(field_line_at);
    lemma_split_two(s, i, spec_section_line(sec), spec_field_line(f1, v1 as int));
}

proof fn lemma_section2_parts(
    s: Seq<char>,
    i: int,
    sec: Seq<char>,
    f1: Seq<char>,
    f2: Seq<char>,
    v1: i64,
    v2: i64,
)
    requires
        section2_at(s, i, sec, f1, f2, v1, v2),
    ensures
        section1_at(s, i, sec, f1, v1),
        field_line_at(
            s,
            i + (spec_section_line(sec) + spec_field_line(f1, v1 as int)).len(),
            f2,
            v2,
        ),
{
    reveal(section2_at);
    reveal(section1_at);
    reveal(field_line_at);
    let a = spec_section_line(sec) + spec_field_line(f1, v1 as int);
    let b = spec_field_line(f2, v2 as int);
    lemma_split_two(s, i, a, b);
}

proof fn lemma_section4_parts(
    s: Seq<char>,
    i: int,
    sec: Seq<char>,
    f1: Seq<char>,
    f2: Seq<char>,
    f3: Seq<char>,
    f4: Seq<char>,
    v1: i64,
    v2: i64,
    v3: i64,
    v4: i64,
)
    requires
        section4_at(s, i, sec, f1, f2, f3, f4, v1, v2, v3, v4),
    ensures
        section2_at(s, i, sec, f1, f2, v1, v2),
        field_line_at(
            s,
            i + (spec_section_line(sec) + spec_field_line(f1, v1 as int) + spec_field_line(
                f2,
                v2 as int,
            )).len(),
            f3,
            v3,
        ),
        field_line_at(
            s,
            i + (spec_section_line(sec) + spec_field_line(f1, v1 as int) + spec_field_line(
                f2,
                v2 as int,
            )).len() + spec_field_line(f3, v3 as int).len(),
            f4,
            v4,
        ),
{
    reveal(section4_at);
    reveal(section2_at);
    reveal(field_line_at);
    let a = spec_section_line(sec) + spec_field_line(f1, v1 as int) + spec_field_line(
        f2,
        v2 as int,
    );
    let c = spec_field_line(f3, v3 as int);
    let d = spec_field_line(f4, v4 as int);
    assert(a + c + d =~= a + (c + d));
    lemma_split_two(s, i, a, c + d);
    lemma_split_two(s, i + a.len(), c, d);
}

proof fn lemma_section6_parts(
    s: Seq<char>,
    i: int,
    sec: Seq<char>,
    f1: Seq<char>,
    f2: Seq<char>,
    f3: Seq<char>,
    f4: Seq<char>,
    f5: Seq<char>,
    f6: Seq<char>,
    v1: i64,
    v2: i64,
    v3: i64,
    v4: i64,
    v5: i64,
    v6: i64,
)
    requires
        section6_at(s, i, sec, f1, f2, f3, f4, f5, f6, v1, v2, v3, v4, v5, v6),
    ensures
        section4_at(s, i, sec, f1, f2, f3, f4, v1, v2, v3, v4),
        field_line_at(
            s,
            i + (spec_section_line(sec) + spec_field_line(f1, v1 as int) + spec_field_line(
                f2,
                v2 as int,
            ) + spec_field_line(f3, v3 as int) + spec_field_line(f4, v4 as int)).len(),
            f5,
            v5,
        ),
        field_line_at(
            s,
            i + (spec_section_line(sec) + spec_field_line(f1, v1 as int) + spec_field_line(
                f2,
                v2 as int,
            ) + spec_field_line(f3, v3 as int) + spec_field_line(f4, v4 as int)).len()
                + spec_field_line(f5, v5 as int).len(),
            f6,
            v6,
        ),
{
    reveal(section6_at);
    reveal(section4_at);
    reveal(field_line_at);
    let a = spec_section_line(sec) + spec_field_line(f1, v1 as int) + spec_field_line(
        f2,
        v2 as int,
    ) + spec_field_line(f3, v3 as int) + spec_field_line(f4, v4 as int);
    let c = spec_field_line(f5, v5 as int);
    let d = spec_field_line(f6, v6 as int);
    assert(a + c + d =~= a + (c + d));
    lemma_split_two(s, i, a, c + d);
    lemma_split_two(s, i + a.len(), c, d);
}

/// Parses a section with one field; succeeds exactly where one stands.
fn parse_section1(s: &Vec<char>, i: usize, sec: &str, f1: &str) -> (r: Option<(i64, usize)>)
    requires
        i <= s@.len(),
    ensures
        r is Some ==> {
            let (v, j) = r.unwrap();
            &&& i < j <= s@.len()
            &&& s@.subrange(i as int, j as int) =~= spec_section_line(sec@) + spec_field_line(
                f1@,
                v as int,
            )
        },
        forall|v1: i64|
            #[trigger] section1_at(s@, i as int, sec@, f1@, v1) ==> r == Some::<(i64, usize)>(
                (
                    v1,
                    (i + spec_section_line(sec@).len() + spec_field_line(
                        f1@,
                        v1 as int,
                    ).len()) as usize,
                ),
            ),
{
    let j1 = match parse_section_line(s, i, sec) {
        Some(j) => j,
        None => {
            proof {
                assert forall|v1: i64| !section1_at(s@, i as int, sec@, f1@, v1) by {
                    if section1_at(s@, i as int, sec@, f1@, v1) {
                        lemma_section1_parts(s@, i as int, sec@, f1@, v1);
                    }
                }
            }
            return None;
        },
    };
    let (v1, j2) = match parse_field_line(s, j1, f1) {
        Some(p) => p,
        None => {
            proof {
                assert forall|w: i64| !section1_at(s@, i as int, sec@, f1@, w) by {
                    if section1_at(s@, i as int, sec@, f1@, w) {
                        lemma_section1_parts(s@, i as int, sec@, f1@, w);
                    }
                }
            }
            return None;
        },
    };
    proof {
        assert(s@.subrange(i as int, j2 as int) =~= s@.subrange(i as int, j1 as int) + s@.subrange(
            j1 as int,
            j2 as int,
        ));
        assert forall|w: i64| section1_at(s@, i as int, sec@, f1@, w) implies (w == v1 && j2 == i
            + spec_section_line(sec@).len() + spec_field_line(f1@, w as int).len()) by {
            lemma_section1_parts(s@, i as int, sec@, f1@, w);
        }
    }
    Some((v1, j2))
}

/// Parses a section with two fields; succeeds exactly where one stands.
fn parse_section2(s: &Vec<char>, i: usize, sec: &str, f1: &str, f2: &str) -> (r: Option<
    ((i64, i64), usize),
>)
    requires
        i <= s@.len(),
    ensures
        r is Some ==> {
            let ((v1, v2), j) = r.unwrap();
            &&& i < j <= s@.len()
            &&& s@.subrange(i as int, j as int) =~= spec_section_line(sec@) + spec_field_line(
                f1@,
                v1 as int,
            ) + spec_field_line(f2@, v2 as int)
        },
        forall|v1: i64, v2: i64|
            #[trigger] section2_at(s@, i as int, sec@, f1@, f2@, v1, v2) ==> r == Some::<
                ((i64, i64), usize),
            >(
                (
                    (v1, v2),
                    (i + (spec_section_line(sec@) + spec_field_line(f1@, v1 as int)
                        + spec_field_line(f2@, v2 as int)).len()) as usize,
                ),
            ),
{
    let (v1, j1) = match parse_section1(s, i, sec, f1) {
        Some(p) => p,
        None => {
            proof {
                assert forall|w1: i64, w2: i64| !section2_at(
                    s@,
                    i as int,
                    sec@,
                    f1@,
                    f2@,
                    w1,
                    w2,
                ) by {
                    if section2_at(s@, i as int, sec@, f1@, f2@, w1, w2) {
                        lemma_section2_parts(s@, i as int, sec@, f1@, f2@, w1, w2);
                    }
                }
            }
            return None;
        },
    };
    let (v2, j2) = match parse_field_line(s, j1, f2) {
        Some(p) => p,
        None => {
            proof {
                assert forall|w1: i64, w2: i64| !section2_at(
                    s@,
                    i as int,
                    sec@,
                    f1@,
                    f2@,
                    w1,
                    w2,
                ) by {
                    if section2_at(s@, i as int, sec@, f1@, f2@, w1, w2) {
                        lemma_section2_parts(s@, i as int, sec@, f1@, f2@, w1, w2);
                    }
                }
            }
            return None;
        },
    };
    proof {
        assert(s@.subrange(i as int, j2 as int) =~= s@.subrange(i as int, j1 as int) + s@.subrange(
            j1 as int,
            j2 as int,
        ));
        assert(s@.subrange(i as int, j2 as int) =~= spec_section_line(sec@) + spec_field_line(
            f1@,
            v1 as int,
        ) + spec_field_line(f2@, v2 as int));
        assert forall|w1: i64, w2: i64| section2_at(
            s@,
            i as int,
            sec@,
            f1@,
            f2@,
            w1,
            w2,
        ) implies (w1 == v1 && w2 == v2 && j2 == i + (spec_section_line(sec@) + spec_field_line(
            f1@,
            w1 as int,
        ) + spec_field_line(f2@, w2 as int)).len()) by {
            lemma_section2_parts(s@, i as int, sec@, f1@, f2@, w1, w2);
        }
    }
    Some(((v1, v2), j2))
}

/// Parses a section with four fields; succeeds exactly where one stands.
fn parse_section4(
    s: &Vec<char>,
    i: usize,
    sec: &str,
    f1: &str,
    f2: &str,
    f3: &str,
    f4: &str,
) -> (r: Option<((i64, i64, i64, i64), usize)>)
    requires
        i <= s@.len(),
    ensures
        r is Some ==> {
            let ((v1, v2, v3, v4), j) = r.unwrap();
            &&& i < j <= s@.len()
            &&& s@.subrange(i as int, j as int) =~= spec_section_line(sec@) + spec_field_line(
                f1@,
                v1 as int,
            ) + spec_field_line(f2@, v2 as int) + spec_field_line(f3@, v3 as int)
                + spec_field_line(f4@, v4 as int)
        },
        forall|v1: i64, v2: i64, v3: i64, v4: i64|
            #[trigger] section4_at(s@, i as int, sec@, f1@, f2@, f3@, f4@, v1, v2, v3, v4)
                ==> r == Some::<((i64, i64, i64, i64), usize)>(
                (
                    (v1, v2, v3, v4),
                    (i + (spec_section_line(sec@) + spec_field_line(f1@, v1 as int)
                        + spec_field_line(f2@, v2 as int) + spec_field_line(f3@, v3 as int)
                        + spec_field_line(f4@, v4 as int)).len()) as usize,
                ),
            ),
{
    let ((v1, v2), j2) = match parse_section2(s, i, sec, f1, f2) {
        Some(p) => p,
        None => {
            proof {
                assert forall|w1: i64, w2: i64, w3: i64, w4: i64| !section4_at(
                    s@,
                    i as int,
                    sec@,
                    f1@,
                    f2@,
                    f3@,
                    f4@,
                    w1,
                    w2,
                    w3,
                    w4,
                ) by {
                    if section4_at(s@, i as int, sec@, f1@, f2@, f3@, f4@, w1, w2, w3, w4) {
                        lemma_section4_parts(
                            s@,
                            i as int,
                            sec@,
                            f1@,
                            f2@,
                            f3@,
                            f4@,
                            w1,
                            w2,
                            w3,
                            w4,
                        );
                    }
                }
            }
            return None;
        },
    };
    let (v3, j3) = match parse_field_line(s, j2, f3) {
        Some(p) => p,
        None => {
            proof {
                assert forall|w1: i64, w2: i64, w3: i64, w4: i64| !section4_at(
                    s@,
                    i as int,
                    sec@,
                    f1@,
                    f2@,
                    f3@,
                    f4@,
                    w1,
                    w2,
                    w3,
                    w4,
                ) by {
                    if section4_at(s@, i as int, sec@, f1@, f2@, f3@, f4@, w1, w2, w3, w4) {
                        lemma_section4_parts(
                            s@,
                            i as int,
                            sec@,
                            f1@,
                            f2@,
                            f3@,
                            f4@,
                            w1,
                            w2,
                            w3,
                            w4,
                        );
                    }
                }
            }
            return None;
        },
    };
    let (v4, j4) = match parse_field_line(s, j3, f4) {
        Some(p) => p,
        None => {
            proof {
                assert forall|w1: i64, w2: i64, w3: i64, w4: i64| !section4_at(
                    s@,
                    i as int,
                    sec@,
                    f1@,
                    f2@,
                    f3@,
                    f4@,
                    w1,
                    w2,
                    w3,
                    w4,
                ) by {
                    if section4_at(s@, i as int, sec@, f1@, f2@, f3@, f4@, w1, w2, w3, w4) {
                        lemma_section4_parts(
                            s@,
                            i as int,
                            sec@,
                            f1@,
                            f2@,
                            f3@,
                            f4@,
                            w1,
                            w2,
                            w3,
                            w4,
                        );
                    }
                }
            }
            return None;
        },
    };
    proof {
        assert(s@.subrange(i as int, j3 as int) =~= s@.subrange(i as int, j2 as int) + s@.subrange(
            j2 as int,
            j3 as int,
        ));
        assert(s@.subrange(i as int, j4 as int) =~= s@.subrange(i as int, j3 as int) + s@.subrange(
            j3 as int,
            j4 as int,
        ));
        assert(s@.subrange(i as int, j4 as int) =~= spec_section_line(sec@) + spec_field_line(
            f1@,
            v1 as int,
        ) + spec_field_line(f2@, v2 as int) + spec_field_line(f3@, v3 as int) + spec_field_line(
            f4@,
            v4 as int,
        ));
        assert forall|w1: i64, w2: i64, w3: i64, w4: i64| section4_at(
            s@,
            i as int,
            sec@,
            f1@,
            f2@,
            f3@,
            f4@,
            w1,
            w2,
            w3,
            w4,
        ) implies (w1 == v1 && w2 == v2 && w3 == v3 && w4 == v4 && j4 == i + (spec_section_line(
            sec@,
        ) + spec_field_line(f1@, w1 as int) + spec_field_line(f2@, w2 as int) + spec_field_line(
            f3@,
            w3 as int,
        ) + spec_field_line(f4@, w4 as int)).len()) by {
            lemma_section4_parts(s@, i as int, sec@, f1@, f2@, f3@, f4@, w1, w2, w3, w4);
        }
    }
    Some(((v1, v2, v3, v4), j4))
}

/// Parses a section with six fields; succeeds exactly where one stands.
fn parse_section6(
    s: &Vec<char>,
    i: usize,
    sec: &str,
    f1: &str,
    f2: &str,
    f3: &str,
    f4: &str,
    f5: &str,
    f6: &str,
) -> (r: Option<((i64, i64, i64, i64, i64, i64), usize)>)
    requires
        i <= s@.len(),
    ensures
        r is Some ==> {
            let ((v1, v2, v3, v4, v5, v6), j) = r.unwrap();
            &&& i < j <= s@.len()
            &&& s@.subrange(i as int, j as int) =~= spec_section_line(sec@) + spec_field_line(
                f1@,
                v1 as int,
            ) + spec_field_line(f2@, v2 as int) + spec_field_line(f3@, v3 as int)
                + spec_field_line(f4@, v4 as int) + spec_field_line(f5@, v5 as int)
                + spec_field_line(f6@, v6 as int)
        },
        forall|v1: i64, v2: i64, v3: i64, v4: i64, v5: i64, v6: i64|
            #[trigger] section6_at(
                s@,
                i as int,
                sec@,
                f1@,
                f2@,
                f3@,
                f4@,
                f5@,
                f6@,
                v1,
                v2,
                v3,
                v4,
                v5,
                v6,
            ) ==> r == Some::<((i64, i64, i64, i64, i64, i64), usize)>(
                (
                    (v1, v2, v3, v4, v5, v6),
                    (i + (spec_section_line(sec@) + spec_field_line(f1@, v1 as int)
                        + spec_field_line(f2@, v2 as int) + spec_field_line(f3@, v3 as int)
                        + spec_field_line(f4@, v4 as int) + spec_field_line(f5@, v5 as int)
                        + spec_field_line(f6@, v6 as int)).len()) as usize,
                ),
            ),
{
    let ((v1, v2, v3, v4), j4) = match parse_section4(s, i, sec, f1, f2, f3, f4) {
        Some(p) => p,
        None => {
            proof {
                assert forall|w1: i64, w2: i64, w3: i64, w4: i64, w5: i64, w6: i64| !section6_at(
                    s@,
                    i as int,
                    sec@,
                    f1@,
                    f2@,
                    f3@,
                    f4@,
                    f5@,
                    f6@,
                    w1,
                    w2,
                    w3,
                    w4,
                    w5,
                    w6,
                ) by {
                    if section6_at(
                        s@,
                        i as int,
                        sec@,
                        f1@,
                        f2@,
                        f3@,
                        f4@,
                        f5@,
                        f6@,
                        w1,
                        w2,
                        w3,
                        w4,
                        w5,
                        w6,
                    ) {
                        lemma_section6_parts(
                            s@,
                            i as int,
                            sec@,
                            f1@,
                            f2@,
                            f3@,
                            f4@,
                            f5@,
                            f6@,
                            w1,
                            w2,
                            w3,
                            w4,
                            w5,
                            w6,
                        );
                    }
                }
            }
            return None;
        },
    };
    let (v5, j5) = match parse_field_line(s, j4, f5) {
        Some(p) => p,
        None => {
            proof {
                assert forall|w1: i64, w2: i64, w3: i64, w4: i64, w5: i64, w6: i64| !section6_at(
                    s@,
                    i as int,
                    sec@,
                    f1@,
                    f2@,
                    f3@,
                    f4@,
                    f5@,
                    f6@,
                    w1,
                    w2,
                    w3,
                    w4,
                    w5,
                    w6,
                ) by {
                    if section6_at(
                        s@,
                        i as int,
                        sec@,
                        f1@,
                        f2@,
                        f3@,
                        f4@,
                        f5@,
                        f6@,
                        w1,
                        w2,
                        w3,
                        w4,
                        w5,
                        w6,
                    ) {
                        lemma_section6_parts(
                            s@,
                            i as int,
                            sec@,
                            f1@,
                            f2@,
                            f3@,
                            f4@,
                            f5@,
                            f6@,
                            w1,
                            w2,
                            w3,
                            w4,
                            w5,
                            w6,
                        );
                    }
                }
            }
            return None;
        },
    };
    let (v6, j6) = match parse_field_line(s, j5, f6) {
        Some(p) => p,
        None => {
            proof {
                assert forall|w1: i64, w2: i64, w3: i64, w4: i64, w5: i64, w6: i64| !section6_at(
                    s@,
                    i as int,
                    sec@,
                    f1@,
                    f2@,
                    f3@,
                    f4@,
                    f5@,
                    f6@,
                    w1,
                    w2,
                    w3,
                    w4,
                    w5,
                    w6,
                ) by {
                    if section6_at(
                        s@,
                        i as int,
                        sec@,
                        f1@,
                        f2@,
                        f3@,
                        f4@,
                        f5@,
                        f6@,
                        w1,
                        w2,
                        w3,
                        w4,
                        w5,
                        w6,
                    ) {
                        lemma_section6_parts(
                            s@,
                            i as int,
                            sec@,
                            f1@,
                            f2@,
                            f3@,
                            f4@,
                            f5@,
                            f6@,
                            w1,
                            w2,
                            w3,
                            w4,
                            w5,
                            w6,
                        );
                    }
                }
            }
            return None;
        },
    };
    proof {
        assert(s@.subrange(i as int, j5 as int) =~= s@.subrange(i as int, j4 as int) + s@.subrange(
            j4 as int,
            j5 as int,
        ));
        assert(s@.subrange(i as int, j6 as int) =~= s@.subrange(i as int, j5 as int) + s@.subrange(
            j5 as int,
            j6 as int,
        ));
        assert(s@.subrange(i as int, j6 as int) =~= spec_section_line(sec@) + spec_field_line(
            f1@,
            v1 as int,
        ) + spec_field_line(f2@, v2 as int) + spec_field_line(f3@, v3 as int) + spec_field_line(
            f4@,
            v4 as int,
        ) + spec_field_line(f5@, v5 as int) + spec_field_line(f6@, v6 as int));
        assert forall|w1: i64, w2: i64, w3: i64, w4: i64, w5: i64, w6: i64| section6_at(
            s@,
            i as int,
            sec@,
            f1@,
            f2@,
            f3@,
            f4@,
            f5@,
            f6@,
            w1,
            w2,
            w3,
            w4,
            w5,
            w6,
        ) implies (w1 == v1 && w2 == v2 && w3 == v3 && w4 == v4 && w5 == v5 && w6 == v6 && j6 == i
            + (spec_section_line(sec@) + spec_field_line(f1@, w1 as int) + spec_field_line(
            f2@,
            w2 as int,
        ) + spec_field_line(f3@, w3 as int) + spec_field_line(f4@, w4 as int) + spec_field_line(
            f5@,
            w5 as int,
        ) + spec_field_line(f6@, w6 as int)).len()) by {
            lemma_section6_parts(
                s@,
                i as int,
                sec@,
                f1@,
                f2@,
                f3@,
                f4@,
                f5@,
                f6@,
                w1,
                w2,
                w3,
                w4,
                w5,
                w6,
            );
        }
    }
    Some(((v1, v2, v3, v4, v5, v6), j6))
}



#[verifier::rlimit(100)]
#[verifier::spinoff_prover]
proof fn lemma_config_concat(
    v: Seq<char>,
    j1: int,
    j2: int,
    j3: int,
    j4: int,
    j5: int,
    j6: int,
    j7: int,
    j8: int,
    j9: int,
    j10: int,
    j11: int,
    j12: int,
    j13: int,
    o: VersionOffsets,
)
    requires
        0 <= j1 <= j2 <= j3 <= j4 <= j5 <= j6 <= j7 <= j8 <= j9 <= j10 <= j11 <= j12 <= j13
            == v.len(),
        v.subrange(0, j1) == spec_top_line("major_version"@, o.major_version as int),
        v.subrange(j1, j2) == spec_top_line("minor_version"@, o.minor_version as int),
        v.subrange(j2, j3) == spec_top_line("patch_version"@, o.patch_version as int),
        v.subrange(j3, j4) == spec_section_line("py_object"@) + spec_field_line(
            "ob_type"@,
            o.py_object_ob_type as int,
        ),
        v.subrange(j4, j5) == spec_section_line("py_string"@) + spec_field_line(
            "data"@,
            o.py_string_data as int,
        ) + spec_field_line("size"@, o.py_string_size as int),
        v.subrange(j5, j6) == spec_section_line("py_type_object"@) + spec_field_line(
            "tp_name"@,
            o.py_type_object_tp_name as int,
        ),
        v.subrange(j6, j7) == spec_section_line("py_thread_state"@) + spec_field_line(
            "interp"@,
            o.py_thread_state_interp as int,
        ) + spec_field_line("next"@, o.py_thread_state_next as int) + spec_field_line(
            "frame"@,
            o.py_thread_state_frame as int,
        ) + spec_field_line("thread_id"@, o.py_thread_state_thread_id as int) + spec_field_line(
            "native_thread_id"@,
            o.py_thread_state_native_thread_id as int,
        ) + spec_field_line("cframe"@, o.py_thread_state_cframe as int),
        v.subrange(j7, j8) == spec_section_line("py_cframe"@) + spec_field_line(
            "current_frame"@,
            o.py_cframe_current_frame as int,
        ),
        v.subrange(j8, j9) == spec_section_line("py_interpreter_state"@) + spec_field_line(
            "tstate_head"@,
            o.py_interpreter_state_tstate_head as int,
        ),
        v.subrange(j9, j10) == spec_section_line("py_runtime_state"@) + spec_field_line(
            "interp_main"@,
            o.py_runtime_state_interp_main as int,
        ),
        v.subrange(j10, j11) == spec_section_line("py_frame_object"@) + spec_field_line(
            "f_back"@,
            o.py_frame_object_f_back as int,
        ) + spec_field_line("f_code"@, o.py_frame_object_f_code as int) + spec_field_line(
            "f_lineno"@,
            o.py_frame_object_f_lineno as int,
        ) + spec_field_line("f_localsplus"@, o.py_frame_object_f_localsplus as int),
        v.subrange(j11, j12) == spec_section_line("py_code_object"@) + spec_field_line(
            "co_filename"@,
            o.py_code_object_co_filename as int,
        ) + spec_field_line("co_name"@, o.py_code_object_co_name as int) + spec_field_line(
            "co_varnames"@,
            o.py_code_object_co_varnames as int,
        ) + spec_field_line("co_firstlineno"@, o.py_code_object_co_firstlineno as int),
        v.subrange(j12, j13) == spec_section_line("py_tuple_object"@) + spec_field_line(
            "ob_item"@,
            o.py_tuple_object_ob_item as int,
        ),
    ensures
        v == spec_render_config(o),
{
    let r1 = spec_top_line("major_version"@, o.major_version as int);
    let r2 = r1 + spec_top_line("minor_version"@, o.minor_version as int);
    let r3 = r2 + spec_top_line("patch_version"@, o.patch_version as int);
    let r4 = r3 + spec_section_line("py_object"@) + spec_field_line(
        "ob_type"@,
        o.py_object_ob_type as int,
    );
    let r5 = r4 + spec_section_line("py_string"@) + spec_field_line(
        "data"@,
        o.py_string_data as int,
    ) + spec_field_line("size"@, o.py_string_size as int);
    let r6 = r5 + spec_section_line("py_type_object"@) + spec_field_line(
        "tp_name"@,
        o.py_type_object_tp_name as int,
    );
    let r7 = r6 + spec_section_line("py_thread_state"@) + spec_field_line(
        "interp"@,
        o.py_thread_state_interp as int,
    ) + spec_field_line("next"@, o.py_thread_state_next as int) + spec_field_line(
        "frame"@,
        o.py_thread_state_frame as int,
    ) + spec_field_line("thread_id"@, o.py_thread_state_thread_id as int) + spec_field_line(
        "native_thread_id"@,
        o.py_thread_state_native_thread_id as int,
    ) + spec_field_line("cframe"@, o.py_thread_state_cframe as int);
    let r8 = r7 + spec_section_line("py_cframe"@) + spec_field_line(
        "current_frame"@,
        o.py_cframe_current_frame as int,
    );
    let r9 = r8 + spec_section_line("py_interpreter_state"@) + spec_field_line(
        "tstate_head"@,
        o.py_interpreter_state_tstate_head as int,
    );
    let r10 = r9 + spec_section_line("py_runtime_state"@) + spec_field_line(
        "interp_main"@,
        o.py_runtime_state_interp_main as int,
    );
    let r11 = r10 + spec_section_line("py_frame_object"@) + spec_field_line(
        "f_back"@,
        o.py_frame_object_f_back as int,
    ) + spec_field_line("f_code"@, o.py_frame_object_f_code as int) + spec_field_line(
        "f_lineno"@,
        o.py_frame_object_f_lineno as int,
    ) + spec_field_line("f_localsplus"@, o.py_frame_object_f_localsplus as int);
    let r12 = r11 + spec_section_line("py_code_object"@) + spec_field_line(
        "co_filename"@,
        o.py_code_object_co_filename as int,
    ) + spec_field_line("co_name"@, o.py_code_object_co_name as int) + spec_field_line(
        "co_varnames"@,
        o.py_code_object_co_varnames as int,
    ) + spec_field_line("co_firstlineno"@, o.py_code_object_co_firstlineno as int);
    let r13 = r12 + spec_section_line("py_tuple_object"@) + spec_field_line(
        "ob_item"@,
        o.py_tuple_object_ob_item as int,
    );
    assert(v.subrange(0, j2) =~= v.subrange(0, j1) + v.subrange(j1, j2));
    assert(v.subrange(0, j3) =~= v.subrange(0, j2) + v.subrange(j2, j3));
    assert(v.subrange(0, j3) == r3);
    assert(v.subrange(0, j4) =~= v.subrange(0, j3) + v.subrange(j3, j4));
    assert(v.subrange(0, j4) =~= r4);
    assert(v.subrange(0, j5) =~= v.subrange(0, j4) + v.subrange(j4, j5));
    assert(v.subrange(0, j5) =~= r5);
    assert(v.subrange(0, j6) =~= v.subrange(0, j5) + v.subrange(j5, j6));
    assert(v.subrange(0, j6) =~= r6);
    assert(v.subrange(0, j7) =~= v.subrange(0, j6) + v.subrange(j6, j7));
    assert(v.subrange(0, j7) =~= r7);
    assert(v.subrange(0, j8) =~= v.subrange(0, j7) + v.subrange(j7, j8));
    assert(v.subrange(0, j8) =~= r8);
    assert(v.subrange(0, j9) =~= v.subrange(0, j8) + v.subrange(j8, j9));
    assert(v.subrange(0, j9) =~= r9);
    assert(v.subrange(0, j10) =~= v.subrange(0, j9) + v.subrange(j9, j10));
    assert(v.subrange(0, j10) =~= r10);
    assert(v.subrange(0, j11) =~= v.subrange(0, j10) + v.subrange(j10, j11));
    assert(v.subrange(0, j11) =~= r11);
    assert(v.subrange(0, j12) =~= v.subrange(0, j11) + v.subrange(j11, j12));
    assert(v.subrange(0, j12) =~= r12);
    assert(v.subrange(0, j13) =~= v.subrange(0, j12) + v.subrange(j12, j13));
    assert(v.subrange(0, j13) =~= r13);
    assert(v =~= v.subrange(0, j13));
    assert(v == spec_render_config(o));
}

/// Matches of two adjacent pieces join into a match of their
/// concatenation.
proof fn lemma_join_two(s: Seq<char>, i: int, m: int, j: int, a: Seq<char>, b: Seq<char>)
    requires
        0 <= i,
        m == i + a.len(),
        j == m + b.len(),
        j <= s.len(),
        s.subrange(i, m) == a,
        s.subrange(m, j) == b,
    ensures
        s.subrange(i, j) == a + b,
{
    assert forall|k: int| 0 <= k < a.len() + b.len() implies s.subrange(i, j)[k] == (a + b)[k] by {
        if k < a.len() {
            assert(s.subrange(i, m)[k] == a[k]);
            assert(s.subrange(i, j)[k] == s[i + k]);
            assert(s.subrange(i, m)[k] == s[i + k]);
        } else {
            assert(s.subrange(m, j)[k - a.len()] == b[k - a.len()]);
            assert(s.subrange(i, j)[k] == s[i + k]);
            assert(s.subrange(m, j)[k - a.len()] == s[i + k]);
        }
    }
    assert(s.subrange(i, j) =~= a + b);
}

/// Every line of a record's canonical text stands at its cumulative
/// offset in the rendering.
#[verifier::rlimit(100)]
#[verifier::spinoff_prover]
proof fn lemma_render_pieces(s: Seq<char>, o: VersionOffsets)
    requires
        s == spec_render_config(o),
    ensures
        ({
            let p1 = spec_top_line("major_version"@, o.major_version as int);
            let p2 = spec_top_line("minor_version"@, o.minor_version as int);
            let p3 = spec_top_line("patch_version"@, o.patch_version as int);
            let p4 = spec_section_line("py_object"@);
            let p5 = spec_field_line("ob_type"@, o.py_object_ob_type as int);
            let p6 = spec_section_line("py_string"@);
            let p7 = spec_field_line("data"@, o.py_string_data as int);
            let p8 = spec_field_line("size"@, o.py_string_size as int);
            let p9 = spec_section_line("py_type_object"@);
            let p10 = spec_field_line("tp_name"@, o.py_type_object_tp_name as int);
            let p11 = spec_section_line("py_thread_state"@);
            let p12 = spec_field_line("interp"@, o.py_thread_state_interp as int);
            let p13 = spec_field_line("next"@, o.py_thread_state_next as int);
            let p14 = spec_field_line("frame"@, o.py_thread_state_frame as int);
            let p15 = spec_field_line("thread_id"@, o.py_thread_state_thread_id as int);
            let p16 = spec_field_line("native_thread_id"@, o.py_thread_state_native_thread_id as int);
            let p17 = spec_field_line("cframe"@, o.py_thread_state_cframe as int);
            let p18 = spec_section_line("py_cframe"@);
            let p19 = spec_field_line("current_frame"@, o.py_cframe_current_frame as int);
            let p20 = spec_section_line("py_interpreter_state"@);
            let p21 = spec_field_line("tstate_head"@, o.py_interpreter_state_tstate_head as int);
            let p22 = spec_section_line("py_runtime_state"@);
            let p23 = spec_field_line("interp_main"@, o.py_runtime_state_interp_main as int);
            let p24 = spec_section_line("py_frame_object"@);
            let p25 = spec_field_line("f_back"@, o.py_frame_object_f_back as int);
            let p26 = spec_field_line("f_code"@, o.py_frame_object_f_code as int);
            let p27 = spec_field_line("f_lineno"@, o.py_frame_object_f_lineno as int);
            let p28 = spec_field_line("f_localsplus"@, o.py_frame_object_f_localsplus as int);
            let p29 = spec_section_line("py_code_object"@);
            let p30 = spec_field_line("co_filename"@, o.py_code_object_co_filename as int);
            let p31 = spec_field_line("co_name"@, o.py_code_object_co_name as int);
            let p32 = spec_field_line("co_varnames"@, o.py_code_object_co_varnames as int);
            let p33 = spec_field_line("co_firstlineno"@, o.py_code_object_co_firstlineno as int);
            let p34 = spec_section_line("py_tuple_object"@);
            let p35 = spec_field_line("ob_item"@, o.py_tuple_object_ob_item as int);
            let c0 = 0int;
            let c1 = c0 + p1.len();
            let c2 = c1 + p2.len();
            let c3 = c2 + p3.len();
            let c4 = c3 + p4.len();
            let c5 = c4 + p5.len();
            let c6 = c5 + p6.len();
            let c7 = c6 + p7.len();
            let c8 = c7 + p8.len();
            let c9 = c8 + p9.len();
            let c10 = c9 + p10.len();
            let c11 = c10 + p11.len();
            let c12 = c11 + p12.len();
            let c13 = c12 + p13.len();
            let c14 = c13 + p14.len();
            let c15 = c14 + p15.len();
            let c16 = c15 + p16.len();
            let c17 = c16 + p17.len();
            let c18 = c17 + p18.len();
            let c19 = c18 + p19.len();
            let c20 = c19 + p20.len();
            let c21 = c20 + p21.len();
            let c22 = c21 + p22.len();
            let c23 = c22 + p23.len();
            let c24 = c23 + p24.len();
            let c25 = c24 + p25.len();
            let c26 = c25 + p26.len();
            let c27 = c26 + p27.len();
            let c28 = c27 + p28.len();
            let c29 = c28 + p29.len();
            let c30 = c29 + p30.len();
            let c31 = c30 + p31.len();
            let c32 = c31 + p32.len();
            let c33 = c32 + p33.len();
            let c34 = c33 + p34.len();
            let c35 = c34 + p35.len();
            &&& s.subrange(c0, c1) == p1
            &&& s.subrange(c1, c2) == p2
            &&& s.subrange(c2, c3) == p3
            &&& s.subrange(c3, c4) == p4
            &&& s.subrange(c4, c5) == p5
            &&& s.subrange(c5, c6) == p6
            &&& s.subrange(c6, c7) == p7
            &&& s.subrange(c7, c8) == p8
            &&& s.subrange(c8, c9) == p9
            &&& s.subrange(c9, c10) == p10
            &&& s.subrange(c10, c11) == p11
            &&& s.subrange(c11, c12) == p12
            &&& s.subrange(c12, c13) == p13
            &&& s.subrange(c13, c14) == p14
            &&& s.subrange(c14, c15) == p15
            &&& s.subrange(c15, c16) == p16
            &&& s.subrange(c16, c17) == p17
            &&& s.subrange(c17, c18) == p18
            &&& s.subrange(c18, c19) == p19
            &&& s.subrange(c19, c20) == p20
            &&& s.subrange(c20, c21) == p21
            &&& s.subrange(c21, c22) == p22
            &&& s.subrange(c22, c23) == p23
            &&& s.subrange(c23, c24) == p24
            &&& s.subrange(c24, c25) == p25
            &&& s.subrange(c25, c26) == p26
            &&& s.subrange(c26, c27) == p27
            &&& s.subrange(c27, c28) == p28
            &&& s.subrange(c28, c29) == p29
            &&& s.subrange(c29, c30) == p30
            &&& s.subrange(c30, c31) == p31
            &&& s.subrange(c31, c32) == p32
            &&& s.subrange(c32, c33) == p33
            &&& s.subrange(c33, c34) == p34
            &&& s.subrange(c34, c35) == p35
            &&& s.len() == c35
        }),
{
    let p1 = spec_top_line("major_version"@, o.major_version as int);
    let p2 = spec_top_line("minor_version"@, o.minor_version as int);
    let p3 = spec_top_line("patch_version"@, o.patch_version as int);
    let p4 = spec_section_line("py_object"@);
    let p5 = spec_field_line("ob_type"@, o.py_object_ob_type as int);
    let p6 = spec_section_line("py_string"@);
    let p7 = spec_field_line("data"@, o.py_string_data as int);
    let p8 = spec_field_line("size"@, o.py_string_size as int);
    let p9 = spec_section_line("py_type_object"@);
    let p10 = spec_field_line("tp_name"@, o.py_type_object_tp_name as int);
    let p11 = spec_section_line("py_thread_state"@);
    let p12 = spec_field_line("interp"@, o.py_thread_state_interp as int);
    let p13 = spec_field_line("next"@, o.py_thread_state_next as int);
    let p14 = spec_field_line("frame"@, o.py_thread_state_frame as int);
    let p15 = spec_field_line("thread_id"@, o.py_thread_state_thread_id as int);
    let p16 = spec_field_line("native_thread_id"@, o.py_thread_state_native_thread_id as int);
    let p17 = spec_field_line("cframe"@, o.py_thread_state_cframe as int);
    let p18 = spec_section_line("py_cframe"@);
    let p19 = spec_field_line("current_frame"@, o.py_cframe_current_frame as int);
    let p20 = spec_section_line("py_interpreter_state"@);
    let p21 = spec_field_line("tstate_head"@, o.py_interpreter_state_tstate_head as int);
    let p22 = spec_section_line("py_runtime_state"@);
    let p23 = spec_field_line("interp_main"@, o.py_runtime_state_interp_main as int);
    let p24 = spec_section_line("py_frame_object"@);
    let p25 = spec_field_line("f_back"@, o.py_frame_object_f_back as int);
    let p26 = spec_field_line("f_code"@, o.py_frame_object_f_code as int);
    let p27 = spec_field_line("f_lineno"@, o.py_frame_object_f_lineno as int);
    let p28 = spec_field_line("f_localsplus"@, o.py_frame_object_f_localsplus as int);
    let p29 = spec_section_line("py_code_object"@);
    let p30 = spec_field_line("co_filename"@, o.py_code_object_co_filename as int);
    let p31 = spec_field_line("co_name"@, o.py_code_object_co_name as int);
    let p32 = spec_field_line("co_varnames"@, o.py_code_object_co_varnames as int);
    let p33 = spec_field_line("co_firstlineno"@, o.py_code_object_co_firstlineno as int);
    let p34 = spec_section_line("py_tuple_object"@);
    let p35 = spec_field_line("ob_item"@, o.py_tuple_object_ob_item as int);
    let q1 = p1;
    let q2 = q1 + p2;
    let q3 = q2 + p3;
    let q4 = q3 + p4;
    let q5 = q4 + p5;
    let q6 = q5 + p6;
    let q7 = q6 + p7;
    let q8 = q7 + p8;
    let q9 = q8 + p9;
    let q10 = q9 + p10;
    let q11 = q10 + p11;
    let q12 = q11 + p12;
    let q13 = q12 + p13;
    let q14 = q13 + p14;
    let q15 = q14 + p15;
    let q16 = q15 + p16;
    let q17 = q16 + p17;
    let q18 = q17 + p18;
    let q19 = q18 + p19;
    let q20 = q19 + p20;
    let q21 = q20 + p21;
    let q22 = q21 + p22;
    let q23 = q22 + p23;
    let q24 = q23 + p24;
    let q25 = q24 + p25;
    let q26 = q25 + p26;
    let q27 = q26 + p27;
    let q28 = q27 + p28;
    let q29 = q28 + p29;
    let q30 = q29 + p30;
    let q31 = q30 + p31;
    let q32 = q31 + p32;
    let q33 = q32 + p33;
    let q34 = q33 + p34;
    let q35 = q34 + p35;
    let c0 = 0int;
    let c1 = c0 + p1.len();
    let c2 = c1 + p2.len();
    let c3 = c2 + p3.len();
    let c4 = c3 + p4.len();
    let c5 = c4 + p5.len();
    let c6 = c5 + p6.len();
    let c7 = c6 + p7.len();
    let c8 = c7 + p8.len();
    let c9 = c8 + p9.len();
    let c10 = c9 + p10.len();
    let c11 = c10 + p11.len();
    let c12 = c11 + p12.len();
    let c13 = c12 + p13.len();
    let c14 = c13 + p14.len();
    let c15 = c14 + p15.len();
    let c16 = c15 + p16.len();
    let c17 = c16 + p17.len();
    let c18 = c17 + p18.len();
    let c19 = c18 + p19.len();
    let c20 = c19 + p20.len();
    let c21 = c20 + p21.len();
    let c22 = c21 + p22.len();
    let c23 = c22 + p23.len();
    let c24 = c23 + p24.len();
    let c25 = c24 + p25.len();
    let c26 = c25 + p26.len();
    let c27 = c26 + p27.len();
    let c28 = c27 + p28.len();
    let c29 = c28 + p29.len();
    let c30 = c29 + p30.len();
    let c31 = c30 + p31.len();
    let c32 = c31 + p32.len();
    let c33 = c32 + p33.len();
    let c34 = c33 + p34.len();
    let c35 = c34 + p35.len();
    assert(q35 == spec_render_config(o));
    assert(s.subrange(0, q35.len() as int) =~= q35);
    lemma_split_two(s, 0, q34, p35);
    lemma_split_two(s, 0, q33, p34);
    lemma_split_two(s, 0, q32, p33);
    lemma_split_two(s, 0, q31, p32);
    lemma_split_two(s, 0, q30, p31);
    lemma_split_two(s, 0, q29, p30);
    lemma_split_two(s, 0, q28, p29);
    lemma_split_two(s, 0, q27, p28);
    lemma_split_two(s, 0, q26, p27);
    lemma_split_two(s, 0, q25, p26);
    lemma_split_two(s, 0, q24, p25);
    lemma_split_two(s, 0, q23, p24);
    lemma_split_two(s, 0, q22, p23);
    lemma_split_two(s, 0, q21, p22);
    lemma_split_two(s, 0, q20, p21);
    lemma_split_two(s, 0, q19, p20);
    lemma_split_two(s, 0, q18, p19);
    lemma_split_two(s, 0, q17, p18);
    lemma_split_two(s, 0, q16, p17);
    lemma_split_two(s, 0, q15, p16);
    lemma_split_two(s, 0, q14, p15);
    lemma_split_two(s, 0, q13, p14);
    lemma_split_two(s, 0, q12, p13);
    lemma_split_two(s, 0, q11, p12);
    lemma_split_two(s, 0, q10, p11);
    lemma_split_two(s, 0, q9, p10);
    lemma_split_two(s, 0, q8, p9);
    lemma_split_two(s, 0, q7, p8);
    lemma_split_two(s, 0, q6, p7);
    lemma_split_two(s, 0, q5, p6);
    lemma_split_two(s, 0, q4, p5);
    lemma_split_two(s, 0, q3, p4);
    lemma_split_two(s, 0, q2, p3);
    lemma_split_two(s, 0, q1, p2);
    assert(s.subrange(c0, c1) == p1);
    assert(s.subrange(c1, c2) == p2);
    assert(s.subrange(c2, c3) == p3);
    assert(s.subrange(c3, c4) == p4);
    assert(s.subrange(c4, c5) == p5);
    assert(s.subrange(c5, c6) == p6);
    assert(s.subrange(c6, c7) == p7);
    assert(s.subrange(c7, c8) == p8);
    assert(s.subrange(c8, c9) == p9);
    assert(s.subrange(c9, c10) == p10);
    assert(s.subrange(c10, c11) == p11);
    assert(s.subrange(c11, c12) == p12);
    assert(s.subrange(c12, c13) == p13);
    assert(s.subrange(c13, c14) == p14);
    assert(s.subrange(c14, c15) == p15);
    assert(s.subrange(c15, c16) == p16);
    assert(s.subrange(c16, c17) == p17);
    assert(s.subrange(c17, c18) == p18);
    assert(s.subrange(c18, c19) == p19);
    assert(s.subrange(c19, c20) == p20);
    assert(s.subrange(c20, c21) == p21);
    assert(s.subrange(c21, c22) == p22);
    assert(s.subrange(c22, c23) == p23);
    assert(s.subrange(c23, c24) == p24);
    assert(s.subrange(c24, c25) == p25);
    assert(s.subrange(c25, c26) == p26);
    assert(s.subrange(c26, c27) == p27);
    assert(s.subrange(c27, c28) == p28);
    assert(s.subrange(c28, c29) == p29);
    assert(s.subrange(c29, c30) == p30);
    assert(s.subrange(c30, c31) == p31);
    assert(s.subrange(c31, c32) == p32);
    assert(s.subrange(c32, c33) == p33);
    assert(s.subrange(c33, c34) == p34);
    assert(s.subrange(c34, c35) == p35);
}

/// Where each configuration line and section of a record's canonical
/// text stands: read off the whole rendering, for the parser's
/// completeness argument.
#[verifier::rlimit(100)]
#[verifier::spinoff_prover]
proof fn lemma_render_decompose(s: Seq<char>, o: VersionOffsets)
    requires
        s == spec_render_config(o),
    ensures
        ({
            let p1 = spec_top_line("major_version"@, o.major_version as int);
            let p2 = spec_top_line("minor_version"@, o.minor_version as int);
            let p3 = spec_top_line("patch_version"@, o.patch_version as int);
            let p4 = spec_section_line("py_object"@);
            let p5 = spec_field_line("ob_type"@, o.py_object_ob_type as int);
            let p6 = spec_section_line("py_string"@);
            let p7 = spec_field_line("data"@, o.py_string_data as int);
            let p8 = spec_field_line("size"@, o.py_string_size as int);
            let p9 = spec_section_line("py_type_object"@);
            let p10 = spec_field_line("tp_name"@, o.py_type_object_tp_name as int);
            let p11 = spec_section_line("py_thread_state"@);
            let p12 = spec_field_line("interp"@, o.py_thread_state_interp as int);
            let p13 = spec_field_line("next"@, o.py_thread_state_next as int);
            let p14 = spec_field_line("frame"@, o.py_thread_state_frame as int);
            let p15 = spec_field_line("thread_id"@, o.py_thread_state_thread_id as int);
            let p16 = spec_field_line("native_thread_id"@, o.py_thread_state_native_thread_id as int);
            let p17 = spec_field_line("cframe"@, o.py_thread_state_cframe as int);
            let p18 = spec_section_line("py_cframe"@);
            let p19 = spec_field_line("current_frame"@, o.py_cframe_current_frame as int);
            let p20 = spec_section_line("py_interpreter_state"@);
            let p21 = spec_field_line("tstate_head"@, o.py_interpreter_state_tstate_head as int);
            let p22 = spec_section_line("py_runtime_state"@);
            let p23 = spec_field_line("interp_main"@, o.py_runtime_state_interp_main as int);
            let p24 = spec_section_line("py_frame_object"@);
            let p25 = spec_field_line("f_back"@, o.py_frame_object_f_back as int);
            let p26 = spec_field_line("f_code"@, o.py_frame_object_f_code as int);
            let p27 = spec_field_line("f_lineno"@, o.py_frame_object_f_lineno as int);
            let p28 = spec_field_line("f_localsplus"@, o.py_frame_object_f_localsplus as int);
            let p29 = spec_section_line("py_code_object"@);
            let p30 = spec_field_line("co_filename"@, o.py_code_object_co_filename as int);
            let p31 = spec_field_line("co_name"@, o.py_code_object_co_name as int);
            let p32 = spec_field_line("co_varnames"@, o.py_code_object_co_varnames as int);
            let p33 = spec_field_line("co_firstlineno"@, o.py_code_object_co_firstlineno as int);
            let p34 = spec_section_line("py_tuple_object"@);
            let p35 = spec_field_line("ob_item"@, o.py_tuple_object_ob_item as int);
            let c0 = 0int;
            let c1 = c0 + p1.len();
            let c2 = c1 + p2.len();
            let c3 = c2 + p3.len();
            let c4 = c3 + p4.len();
            let c5 = c4 + p5.len();
            let c6 = c5 + p6.len();
            let c7 = c6 + p7.len();
            let c8 = c7 + p8.len();
            let c9 = c8 + p9.len();
            let c10 = c9 + p10.len();
            let c11 = c10 + p11.len();
            let c12 = c11 + p12.len();
            let c13 = c12 + p13.len();
            let c14 = c13 + p14.len();
            let c15 = c14 + p15.len();
            let c16 = c15 + p16.len();
            let c17 = c16 + p17.len();
            let c18 = c17 + p18.len();
            let c19 = c18 + p19.len();
            let c20 = c19 + p20.len();
            let c21 = c20 + p21.len();
            let c22 = c21 + p22.len();
            let c23 = c22 + p23.len();
            let c24 = c23 + p24.len();
            let c25 = c24 + p25.len();
            let c26 = c25 + p26.len();
            let c27 = c26 + p27.len();
            let c28 = c27 + p28.len();
            let c29 = c28 + p29.len();
            let c30 = c29 + p30.len();
            let c31 = c30 + p31.len();
            let c32 = c31 + p32.len();
            let c33 = c32 + p33.len();
            let c34 = c33 + p34.len();
            let c35 = c34 + p35.len();
            &&& top_line_at(s, c0, "major_version"@, o.major_version as i64)
            &&& top_line_at(s, c1, "minor_version"@, o.minor_version as i64)
            &&& top_line_at(s, c2, "patch_version"@, o.patch_version as i64)
            &&& section1_at(s, c3, "py_object"@, "ob_type"@, o.py_object_ob_type)
            &&& section2_at(s, c5, "py_string"@, "data"@, "size"@, o.py_string_data, o.py_string_size)
            &&& section1_at(s, c8, "py_type_object"@, "tp_name"@, o.py_type_object_tp_name)
            &&& section6_at(s, c10, "py_thread_state"@, "interp"@, "next"@, "frame"@, "thread_id"@, "native_thread_id"@, "cframe"@, o.py_thread_state_interp, o.py_thread_state_next, o.py_thread_state_frame, o.py_thread_state_thread_id, o.py_thread_state_native_thread_id, o.py_thread_state_cframe)
            &&& section1_at(s, c17, "py_cframe"@, "current_frame"@, o.py_cframe_current_frame)
            &&& section1_at(s, c19, "py_interpreter_state"@, "tstate_head"@, o.py_interpreter_state_tstate_head)
            &&& section1_at(s, c21, "py_runtime_state"@, "interp_main"@, o.py_runtime_state_interp_main)
            &&& section4_at(s, c23, "py_frame_object"@, "f_back"@, "f_code"@, "f_lineno"@, "f_localsplus"@, o.py_frame_object_f_back, o.py_frame_object_f_code, o.py_frame_object_f_lineno, o.py_frame_object_f_localsplus)
            &&& section4_at(s, c28, "py_code_object"@, "co_filename"@, "co_name"@, "co_varnames"@, "co_firstlineno"@, o.py_code_object_co_filename, o.py_code_object_co_name, o.py_code_object_co_varnames, o.py_code_object_co_firstlineno)
            &&& section1_at(s, c33, "py_tuple_object"@, "ob_item"@, o.py_tuple_object_ob_item)
            &&& s.len() == c35
        }),
{
    reveal(top_line_at);
    reveal(section1_at);
    reveal(section2_at);
    reveal(section4_at);
    reveal(section6_at);
    let p1 = spec_top_line("major_version"@, o.major_version as int);
    let p2 = spec_top_line("minor_version"@, o.minor_version as int);
    let p3 = spec_top_line("patch_version"@, o.patch_version as int);
    let p4 = spec_section_line("py_object"@);
    let p5 = spec_field_line("ob_type"@, o.py_object_ob_type as int);
    let p6 = spec_section_line("py_string"@);
    let p7 = spec_field_line("data"@, o.py_string_data as int);
    let p8 = spec_field_line("size"@, o.py_string_size as int);
    let p9 = spec_section_line("py_type_object"@);
    let p10 = spec_field_line("tp_name"@, o.py_type_object_tp_name as int);
    let p11 = spec_section_line("py_thread_state"@);
    let p12 = spec_field_line("interp"@, o.py_thread_state_interp as int);
    let p13 = spec_field_line("next"@, o.py_thread_state_next as int);
    let p14 = spec_field_line("frame"@, o.py_thread_state_frame as int);
    let p15 = spec_field_line("thread_id"@, o.py_thread_state_thread_id as int);
    let p16 = spec_field_line("native_thread_id"@, o.py_thread_state_native_thread_id as int);
    let p17 = spec_field_line("cframe"@, o.py_thread_state_cframe as int);
    let p18 = spec_section_line("py_cframe"@);
    let p19 = spec_field_line("current_frame"@, o.py_cframe_current_frame as int);
    let p20 = spec_section_line("py_interpreter_state"@);
    let p21 = spec_field_line("tstate_head"@, o.py_interpreter_state_tstate_head as int);
    let p22 = spec_section_line("py_runtime_state"@);
    let p23 = spec_field_line("interp_main"@, o.py_runtime_state_interp_main as int);
    let p24 = spec_section_line("py_frame_object"@);
    let p25 = spec_field_line("f_back"@, o.py_frame_object_f_back as int);
    let p26 = spec_field_line("f_code"@, o.py_frame_object_f_code as int);
    let p27 = spec_field_line("f_lineno"@, o.py_frame_object_f_lineno as int);
    let p28 = spec_field_line("f_localsplus"@, o.py_frame_object_f_localsplus as int);
    let p29 = spec_section_line("py_code_object"@);
    let p30 = spec_field_line("co_filename"@, o.py_code_object_co_filename as int);
    let p31 = spec_field_line("co_name"@, o.py_code_object_co_name as int);
    let p32 = spec_field_line("co_varnames"@, o.py_code_object_co_varnames as int);
    let p33 = spec_field_line("co_firstlineno"@, o.py_code_object_co_firstlineno as int);
    let p34 = spec_section_line("py_tuple_object"@);
    let p35 = spec_field_line("ob_item"@, o.py_tuple_object_ob_item as int);
    let c0 = 0int;
    let c1 = c0 + p1.len();
    let c2 = c1 + p2.len();
    let c3 = c2 + p3.len();
    let c4 = c3 + p4.len();
    let c5 = c4 + p5.len();
    let c6 = c5 + p6.len();
    let c7 = c6 + p7.len();
    let c8 = c7 + p8.len();
    let c9 = c8 + p9.len();
    let c10 = c9 + p10.len();
    let c11 = c10 + p11.len();
    let c12 = c11 + p12.len();
    let c13 = c12 + p13.len();
    let c14 = c13 + p14.len();
    let c15 = c14 + p15.len();
    let c16 = c15 + p16.len();
    let c17 = c16 + p17.len();
    let c18 = c17 + p18.len();
    let c19 = c18 + p19.len();
    let c20 = c19 + p20.len();
    let c21 = c20 + p21.len();
    let c22 = c21 + p22.len();
    let c23 = c22 + p23.len();
    let c24 = c23 + p24.len();
    let c25 = c24 + p25.len();
    let c26 = c25 + p26.len();
    let c27 = c26 + p27.len();
    let c28 = c27 + p28.len();
    let c29 = c28 + p29.len();
    let c30 = c29 + p30.len();
    let c31 = c30 + p31.len();
    let c32 = c31 + p32.len();
    let c33 = c32 + p33.len();
    let c34 = c33 + p34.len();
    let c35 = c34 + p35.len();
    lemma_render_pieces(s, o);
    lemma_join_two(s, c3, c4, c5, p4, p5);
    lemma_join_two(s, c5, c6, c7, p6, p7);
    lemma_join_two(s, c5, c7, c8, (p6 + p7), p8);
    lemma_join_two(s, c8, c9, c10, p9, p10);
    lemma_join_two(s, c10, c11, c12, p11, p12);
    lemma_join_two(s, c10, c12, c13, (p11 + p12), p13);
    lemma_join_two(s, c10, c13, c14, ((p11 + p12) + p13), p14);
    lemma_join_two(s, c10, c14, c15, (((p11 + p12) + p13) + p14), p15);
    lemma_join_two(s, c10, c15, c16, ((((p11 + p12) + p13) + p14) + p15), p16);
    lemma_join_two(s, c10, c16, c17, (((((p11 + p12) + p13) + p14) + p15) + p16), p17);
    lemma_join_two(s, c17, c18, c19, p18, p19);
    lemma_join_two(s, c19, c20, c21, p20, p21);
    lemma_join_two(s, c21, c22, c23, p22, p23);
    lemma_join_two(s, c23, c24, c25, p24, p25);
    lemma_join_two(s, c23, c25, c26, (p24 + p25), p26);
    lemma_join_two(s, c23, c26, c27, ((p24 + p25) + p26), p27);
    lemma_join_two(s, c23, c27, c28, (((p24 + p25) + p26) + p27), p28);
    lemma_join_two(s, c28, c29, c30, p29, p30);
    lemma_join_two(s, c28, c30, c31, (p29 + p30), p31);
    lemma_join_two(s, c28, c31, c32, ((p29 + p30) + p31), p32);
    lemma_join_two(s, c28, c32, c33, (((p29 + p30) + p31) + p32), p33);
    lemma_join_two(s, c33, c34, c35, p34, p35);
}

/// Two canonical signed decimals at one position are the same value.
proof fn lemma_i64_nl_determined(s: Seq<char>, i: int, v1: i64, v2: i64)
    requires
        i64_nl_at(s, i, v1),
        i64_nl_at(s, i, v2),
    ensures
        v1 == v2,
{
    lemma_i64_pattern(s, i, v1);
    lemma_i64_pattern(s, i, v2);
    if v1 < 0 && v2 >= 0 {
        assert(s[i] == '-');
        assert(is_digit_char(s[i]));
        assert(false);
    }
    if v2 < 0 && v1 >= 0 {
        assert(s[i] == '-');
        assert(is_digit_char(s[i]));
        assert(false);
    }
    let start = if v1 < 0 {
        i + 1
    } else {
        i
    };
    let m1 = spec_dec(i64_abs(v1)).len() as int;
    let m2 = spec_dec(i64_abs(v2)).len() as int;
    if m1 < m2 {
        assert(s[start + m1] == '\n');
        assert(is_digit_char(s[start + m1]));
        assert(false);
    }
    if m2 < m1 {
        assert(s[start + m2] == '\n');
        assert(is_digit_char(s[start + m2]));
        assert(false);
    }
    assert(s.subrange(start, start + m1) == s.subrange(start, start + m2));
    assert(i64_abs(v1) == i64_abs(v2));
}

/// Two canonical top-level lines for one name at one position carry the
/// same value.
proof fn lemma_top_line_determined(s: Seq<char>, i: int, name: Seq<char>, v1: i64, v2: i64)
    requires
        top_line_at(s, i, name, v1),
        top_line_at(s, i, name, v2),
    ensures
        v1 == v2,
{
    lemma_top_line_parts(s, i, name, v1);
    lemma_top_line_parts(s, i, name, v2);
    lemma_i64_nl_determined(s, i + name.len() + 2, v1, v2);
}

/// Two canonical field lines for one name at one position carry the same
/// value.
proof fn lemma_field_line_determined(s: Seq<char>, i: int, name: Seq<char>, v1: i64, v2: i64)
    requires
        field_line_at(s, i, name, v1),
        field_line_at(s, i, name, v2),
    ensures
        v1 == v2,
{
    lemma_field_line_parts(s, i, name, v1);
    lemma_field_line_parts(s, i, name, v2);
    lemma_i64_nl_determined(s, i + name.len() + 4, v1, v2);
}

/// One text is the canonical rendering of at most one record.
#[verifier::rlimit(100)]
#[verifier::spinoff_prover]
proof fn lemma_render_determined(s: Seq<char>, o1: VersionOffsets, o2: VersionOffsets)
    requires
        s == spec_render_config(o1),
        s == spec_render_config(o2),
    ensures
        o1 == o2,
{
    lemma_render_decompose(s, o1);
    lemma_render_decompose(s, o2);
    lemma_top_line_determined(s, 0int, "major_version"@, o1.major_version as i64, o2.major_version as i64);
    lemma_top_line_determined(s, (0int + spec_top_line("major_version"@, o1.major_version as int).len()), "minor_version"@, o1.minor_version as i64, o2.minor_version as i64);
    lemma_top_line_determined(s, ((0int + spec_top_line("major_version"@, o1.major_version as int).len()) + spec_top_line("minor_version"@, o1.minor_version as int).len()), "patch_version"@, o1.patch_version as i64, o2.patch_version as i64);
    lemma_section1_parts(s, (((0int + spec_top_line("major_version"@, o1.major_version as int).len()) + spec_top_line("minor_version"@, o1.minor_version as int).len()) + spec_top_line("patch_version"@, o1.patch_version as int).len()), "py_object"@, "ob_type"@, o1.py_object_ob_type);
    lemma_section1_parts(s, (((0int + spec_top_line("major_version"@, o1.major_version as int).len()) + spec_top_line("minor_version"@, o1.minor_version as int).len()) + spec_top_line("patch_version"@, o1.patch_version as int).len()), "py_object"@, "ob_type"@, o2.py_object_ob_type);
    lemma_field_line_determined(s, ((((0int + spec_top_line("major_version"@, o1.major_version as int).len()) + spec_top_line("minor_version"@, o1.minor_version as int).len()) + spec_top_line("patch_version"@, o1.patch_version as int).len()) + spec_section_line("py_object"@).len()), "ob_type"@, o1.py_object_ob_type, o2.py_object_ob_type);
    lemma_section2_parts(s, (((((0int + spec_top_line("major_version"@, o1.major_version as int).len()) + spec_top_line("minor_version"@, o1.minor_version as int).len()) + spec_top_line("patch_version"@, o1.patch_version as int).len()) + spec_section_line("py_object"@).len()) + spec_field_line("ob_type"@, o1.py_object_ob_type as int).len()), "py_string"@, "data"@, "size"@, o1.py_string_data, o1.py_string_size);
    lemma_section1_parts(s, (((((0int + spec_top_line("major_version"@, o1.major_version as int).len()) + spec_top_line("minor_version"@, o1.minor_version as int).len()) + spec_top_line("patch_version"@, o1.patch_version as int).len()) + spec_section_line("py_object"@).len()) + spec_field_line("ob_type"@, o1.py_object_ob_type as int).len()), "py_string"@, "data"@, o1.py_string_data);
    lemma_section2_parts(s, (((((0int + spec_top_line("major_version"@, o1.major_version as int).len()) + spec_top_line("minor_version"@, o1.minor_version as int).len()) + spec_top_line("patch_version"@, o1.patch_version as int).len()) + spec_section_line("py_object"@).len()) + spec_field_line("ob_type"@, o1.py_object_ob_type as int).len()), "py_string"@, "data"@, "size"@, o2.py_string_data, o2.py_string_size);
    lemma_section1_parts(s, (((((0int + spec_top_line("major_version"@, o1.major_version as int).len()) + spec_top_line("minor_version"@, o1.minor_version as int).len()) + spec_top_line("patch_version"@, o1.patch_version as int).len()) + spec_section_line("py_object"@).len()) + spec_field_line("ob_type"@, o1.py_object_ob_type as int).len()), "py_string"@, "data"@, o2.py_string_data);
    lemma_field_line_determined(s, ((((((0int + spec_top_line("major_version"@, o1.major_version as int).len()) + spec_top_line("minor_version"@, o1.minor_version as int).len()) + spec_top_line("patch_version"@, o1.patch_version as int).len()) + spec_section_line("py_object"@).len()) + spec_field_line("ob_type"@, o1.py_object_ob_type as int).len()) + spec_section_line("py_string"@).len()), "data"@, o1.py_string_data, o2.py_string_data);
    lemma_field_line_determined(s, (((((((0int + spec_top_line("major_version"@, o1.major_version as int).len()) + spec_top_line("minor_version"@, o1.minor_version as int).len()) + spec_top_line("patch_version"@, o1.patch_version as int).len()) + spec_section_line("py_object"@).len()) + spec_field_line("ob_type"@, o1.py_object_ob_type as int).len()) + spec_section_line("py_string"@).len()) + spec_field_line("data"@, o1.py_string_data as int).len()), "size"@, o1.py_string_size, o2.py_string_size);
    lemma_section1_parts(s, ((((((((0int + spec_top_line("major_version"@, o1.major_version as int).len()) + spec_top_line("minor_version"@, o1.minor_version as int).len()) + spec_top_line("patch_version"@, o1.patch_version as int).len()) + spec_section_line("py_object"@).len()) + spec_field_line("ob_type"@, o1.py_object_ob_type as int).len()) + spec_section_line("py_string"@).len()) + spec_field_line("data"@, o1.py_string_data as int).len()) + spec_field_line("size"@, o1.py_string_size as int).len()), "py_type_object"@, "tp_name"@, o1.py_type_object_tp_name);
    lemma_section1_parts(s, ((((((((0int + spec_top_line("major_version"@, o1.major_version as int).len()) + spec_top_line("minor_version"@, o1.minor_version as int).len()) + spec_top_line("patch_version"@, o1.patch_version as int).len()) + spec_section_line("py_object"@).len()) + spec_field_line("ob_type"@, o1.py_object_ob_type as int).len()) + spec_section_line("py_string"@).len()) + spec_field_line("data"@, o1.py_string_data as int).len()) + spec_field_line("size"@, o1.py_string_size as int).len()), "py_type_object"@, "tp_name"@, o2.py_type_object_tp_name);
    lemma_field_line_determined(s, (((((((((0int + spec_top_line("major_version"@, o1.major_version as int).len()) + spec_top_line("minor_version"@, o1.minor_version as int).len()) + spec_top_line("patch_version"@, o1.patch_version as int).len()) + spec_section_line("py_object"@).len()) + spec_field_line("ob_type"@, o1.py_object_ob_type as int).len()) + spec_section_line("py_string"@).len()) + spec_field_line("data"@, o1.py_string_data as int).len()) + spec_field_line("size"@, o1.py_string_size as int).len()) + spec_section_line("py_type_object"@).len()), "tp_name"@, o1.py_type_object_tp_name, o2.py_type_object_tp_name);
    lemma_section6_parts(s, ((((((((((0int + spec_top_line("major_version"@, o1.major_version as int).len()) + spec_top_line("minor_version"@, o1.minor_version as int).len()) + spec_top_line("patch_version"@, o1.patch_version as int).len()) + spec_section_line("py_object"@).len()) + spec_field_line("ob_type"@, o1.py_object_ob_type as int).len()) + spec_section_line("py_string"@).len()) + spec_field_line("data"@, o1.py_string_data as int).len()) + spec_field_line("size"@, o1.py_string_size as int).len()) + spec_section_line("py_type_object"@).len()) + spec_field_line("tp_name"@, o1.py_type_object_tp_name as int).len()), "py_thread_state"@, "interp"@, "next"@, "frame"@, "thread_id"@, "native_thread_id"@, "cframe"@, o1.py_thread_state_interp, o1.py_thread_state_next, o1.py_thread_state_frame, o1.py_thread_state_thread_id, o1.py_thread_state_native_thread_id, o1.py_thread_state_cframe);
    lemma_section4_parts(s, ((((((((((0int + spec_top_line("major_version"@, o1.major_version as int).len()) + spec_top_line("minor_version"@, o1.minor_version as int).len()) + spec_top_line("patch_version"@, o1.patch_version as int).len()) + spec_section_line("py_object"@).len()) + spec_field_line("ob_type"@, o1.py_object_ob_type as int).len()) + spec_section_line("py_string"@).len()) + spec_field_line("data"@, o1.py_string_data as int).len()) + spec_field_line("size"@, o1.py_string_size as int).len()) + spec_section_line("py_type_object"@).len()) + spec_field_line("tp_name"@, o1.py_type_object_tp_name as int).len()), "py_thread_state"@, "interp"@, "next"@, "frame"@, "thread_id"@, o1.py_thread_state_interp, o1.py_thread_state_next, o1.py_thread_state_frame, o1.py_thread_state_thread_id);
    lemma_section2_parts(s, ((((((((((0int + spec_top_line("major_version"@, o1.major_version as int).len()) + spec_top_line("minor_version"@, o1.minor_version as int).len()) + spec_top_line("patch_version"@, o1.patch_version as int).len()) + spec_section_line("py_object"@).len()) + spec_field_line("ob_type"@, o1.py_object_ob_type as int).len()) + spec_section_line("py_string"@).len()) + spec_field_line("data"@, o1.py_string_data as int).len()) + spec_field_line("size"@, o1.py_string_size as int).len()) + spec_section_line("py_type_object"@).len()) + spec_field_line("tp_name"@, o1.py_type_object_tp_name as int).len()), "py_thread_state"@, "interp"@, "next"@, o1.py_thread_state_interp, o1.py_thread_state_next);
    lemma_section1_parts(s, ((((((((((0int + spec_top_line("major_version"@, o1.major_version as int).len()) + spec_top_line("minor_version"@, o1.minor_version as int).len()) + spec_top_line("patch_version"@, o1.patch_version as int).len()) + spec_section_line("py_object"@).len()) + spec_field_line("ob_type"@, o1.py_object_ob_type as int).len()) + spec_section_line("py_string"@).len()) + spec_field_line("data"@, o1.py_string_data as int).len()) + spec_field_line("size"@, o1.py_string_size as int).len()) + spec_section_line("py_type_object"@).len()) + spec_field_line("tp_name"@, o1.py_type_object_tp_name as int).len()), "py_thread_state"@, "interp"@, o1.py_thread_state_interp);
    lemma_section6_parts(s, ((((((((((0int + spec_top_line("major_version"@, o1.major_version as int).len()) + spec_top_line("minor_version"@, o1.minor_version as int).len()) + spec_top_line("patch_version"@, o1.patch_version as int).len()) + spec_section_line("py_object"@).len()) + spec_field_line("ob_type"@, o1.py_object_ob_type as int).len()) + spec_section_line("py_string"@).len()) + spec_field_line("data"@, o1.py_string_data as int).len()) + spec_field_line("size"@, o1.py_string_size as int).len()) + spec_section_line("py_type_object"@).len()) + spec_field_line("tp_name"@, o1.py_type_object_tp_name as int).len()), "py_thread_state"@, "interp"@, "next"@, "frame"@, "thread_id"@, "native_thread_id"@, "cframe"@, o2.py_thread_state_interp, o2.py_thread_state_next, o2.py_thread_state_frame, o2.py_thread_state_thread_id, o2.py_thread_state_native_thread_id, o2.py_thread_state_cframe);
    lemma_section4_parts(s, ((((((((((0int + spec_top_line("major_version"@, o1.major_version as int).len()) + spec_top_line("minor_version"@, o1.minor_version as int).len()) + spec_top_line("patch_version"@, o1.patch_version as int).len()) + spec_section_line("py_object"@).len()) + spec_field_line("ob_type"@, o1.py_object_ob_type as int).len()) + spec_section_line("py_string"@).len()) + spec_field_line("data"@, o1.py_string_data as int).len()) + spec_field_line("size"@, o1.py_string_size as int).len()) + spec_section_line("py_type_object"@).len()) + spec_field_line("tp_name"@, o1.py_type_object_tp_name as int).len()), "py_thread_state"@, "interp"@, "next"@, "frame"@, "thread_id"@, o2.py_thread_state_interp, o2.py_thread_state_next, o2.py_thread_state_frame, o2.py_thread_state_thread_id);
    lemma_section2_parts(s, ((((((((((0int + spec_top_line("major_version"@, o1.major_version as int).len()) + spec_top_line("minor_version"@, o1.minor_version as int).len()) + spec_top_line("patch_version"@, o1.patch_version as int).len()) + spec_section_line("py_object"@).len()) + spec_field_line("ob_type"@, o1.py_object_ob_type as int).len()) + spec_section_line("py_string"@).len()) + spec_field_line("data"@, o1.py_string_data as int).len()) + spec_field_line("size"@, o1.py_string_size as int).len()) + spec_section_line("py_type_object"@).len()) + spec_field_line("tp_name"@, o1.py_type_object_tp_name as int).len()), "py_thread_state"@, "interp"@, "next"@, o2.py_thread_state_interp, o2.py_thread_state_next);
    lemma_section1_parts(s, ((((((((((0int + spec_top_line("major_version"@, o1.major_version as int).len()) + spec_top_line("minor_version"@, o1.minor_version as int).len()) + spec_top_line("patch_version"@, o1.patch_version as int).len()) + spec_section_line("py_object"@).len()) + spec_field_line("ob_type"@, o1.py_object_ob_type as int).len()) + spec_section_line("py_string"@).len()) + spec_field_line("data"@, o1.py_string_data as int).len()) + spec_field_line("size"@, o1.py_string_size as int).len()) + spec_section_line("py_type_object"@).len()) + spec_field_line("tp_name"@, o1.py_type_object_tp_name as int).len()), "py_thread_state"@, "interp"@, o2.py_thread_state_interp);
    lemma_field_line_determined(s, (((((((((((0int + spec_top_line("major_version"@, o1.major_version as int).len()) + spec_top_line("minor_version"@, o1.minor_version as int).len()) + spec_top_line("patch_version"@, o1.patch_version as int).len()) + spec_section_line("py_object"@).len()) + spec_field_line("ob_type"@, o1.py_object_ob_type as int).len()) + spec_section_line("py_string"@).len()) + spec_field_line("data"@, o1.py_string_data as int).len()) + spec_field_line("size"@, o1.py_string_size as int).len()) + spec_section_line("py_type_object"@).len()) + spec_field_line("tp_name"@, o1.py_type_object_tp_name as int).len()) + spec_section_line("py_thread_state"@).len()), "interp"@, o1.py_thread_state_interp, o2.py_thread_state_interp);
    lemma_field_line_determined(s, ((((((((((((0int + spec_top_line("major_version"@, o1.major_version as int).len()) + spec_top_line("minor_version"@, o1.minor_version as int).len()) + spec_top_line("patch_version"@, o1.patch_version as int).len()) + spec_section_line("py_object"@).len()) + spec_field_line("ob_type"@, o1.py_object_ob_type as int).len()) + spec_section_line("py_string"@).len()) + spec_field_line("data"@, o1.py_string_data as int).len()) + spec_field_line("size"@, o1.py_string_size as int).len()) + spec_section_line("py_type_object"@).len()) + spec_field_line("tp_name"@, o1.py_type_object_tp_name as int).len()) + spec_section_line("py_thread_state"@).len()) + spec_field_line("interp"@, o1.py_thread_state_interp as int).len()), "next"@, o1.py_thread_state_next, o2.py_thread_state_next);
    lemma_field_line_determined(s, (((((((((((((0int + spec_top_line("major_version"@, o1.major_version as int).len()) + spec_top_line("minor_version"@, o1.minor_version as int).len()) + spec_top_line("patch_version"@, o1.patch_version as int).len()) + spec_section_line("py_object"@).len()) + spec_field_line("ob_type"@, o1.py_object_ob_type as int).len()) + spec_section_line("py_string"@).len()) + spec_field_line("data"@, o1.py_string_data as int).len()) + spec_field_line("size"@, o1.py_string_size as int).len()) + spec_section_line("py_type_object"@).len()) + spec_field_line("tp_name"@, o1.py_type_object_tp_name as int).len()) + spec_section_line("py_thread_state"@).len()) + spec_field_line("interp"@, o1.py_thread_state_interp as int).len()) + spec_field_line("next"@, o1.py_thread_state_next as int).len()), "frame"@, o1.py_thread_state_frame, o2.py_thread_state_frame);
    lemma_field_line_determined(s, ((((((((((((((0int + spec_top_line("major_version"@, o1.major_version as int).len()) + spec_top_line("minor_version"@, o1.minor_version as int).len()) + spec_top_line("patch_version"@, o1.patch_version as int).len()) + spec_section_line("py_object"@).len()) + spec_field_line("ob_type"@, o1.py_object_ob_type as int).len()) + spec_section_line("py_string"@).len()) + spec_field_line("data"@, o1.py_string_data as int).len()) + spec_field_line("size"@, o1.py_string_size as int).len()) + spec_section_line("py_type_object"@).len()) + spec_field_line("tp_name"@, o1.py_type_object_tp_name as int).len()) + spec_section_line("py_thread_state"@).len()) + spec_field_line("interp"@, o1.py_thread_state_interp as int).len()) + spec_field_line("next"@, o1.py_thread_state_next as int).len()) + spec_field_line("frame"@, o1.py_thread_state_frame as int).len()), "thread_id"@, o1.py_thread_state_thread_id, o2.py_thread_state_thread_id);
    lemma_field_line_determined(s, (((((((((((((((0int + spec_top_line("major_version"@, o1.major_version as int).len()) + spec_top_line("minor_version"@, o1.minor_version as int).len()) + spec_top_line("patch_version"@, o1.patch_version as int).len()) + spec_section_line("py_object"@).len()) + spec_field_line("ob_type"@, o1.py_object_ob_type as int).len()) + spec_section_line("py_string"@).len()) + spec_field_line("data"@, o1.py_string_data as int).len()) + spec_field_line("size"@, o1.py_string_size as int).len()) + spec_section_line("py_type_object"@).len()) + spec_field_line("tp_name"@, o1.py_type_object_tp_name as int).len()) + spec_section_line("py_thread_state"@).len()) + spec_field_line("interp"@, o1.py_thread_state_interp as int).len()) + spec_field_line("next"@, o1.py_thread_state_next as int).len()) + spec_field_line("frame"@, o1.py_thread_state_frame as int).len()) + spec_field_line("thread_id"@, o1.py_thread_state_thread_id as int).len()), "native_thread_id"@, o1.py_thread_state_native_thread_id, o2.py_thread_state_native_thread_id);
    lemma_field_line_determined(s, ((((((((((((((((0int + spec_top_line("major_version"@, o1.major_version as int).len()) + spec_top_line("minor_version"@, o1.minor_version as int).len()) + spec_top_line("patch_version"@, o1.patch_version as int).len()) + spec_section_line("py_object"@).len()) + spec_field_line("ob_type"@, o1.py_object_ob_type as int).len()) + spec_section_line("py_string"@).len()) + spec_field_line("data"@, o1.py_string_data as int).len()) + spec_field_line("size"@, o1.py_string_size as int).len()) + spec_section_line("py_type_object"@).len()) + spec_field_line("tp_name"@, o1.py_type_object_tp_name as int).len()) + spec_section_line("py_thread_state"@).len()) + spec_field_line("interp"@, o1.py_thread_state_interp as int).len()) + spec_field_line("next"@, o1.py_thread_state_next as int).len()) + spec_field_line("frame"@, o1.py_thread_state_frame as int).len()) + spec_field_line("thread_id"@, o1.py_thread_state_thread_id as int).len()) + spec_field_line("native_thread_id"@, o1.py_thread_state_native_thread_id as int).len()), "cframe"@, o1.py_thread_state_cframe, o2.py_thread_state_cframe);
    lemma_section1_parts(s, (((((((((((((((((0int + spec_top_line("major_version"@, o1.major_version as int).len()) + spec_top_line("minor_version"@, o1.minor_version as int).len()) + spec_top_line("patch_version"@, o1.patch_version as int).len()) + spec_section_line("py_object"@).len()) + spec_field_line("ob_type"@, o1.py_object_ob_type as int).len()) + spec_section_line("py_string"@).len()) + spec_field_line("data"@, o1.py_string_data as int).len()) + spec_field_line("size"@, o1.py_string_size as int).len()) + spec_section_line("py_type_object"@).len()) + spec_field_line("tp_name"@, o1.py_type_object_tp_name as int).len()) + spec_section_line("py_thread_state"@).len()) + spec_field_line("interp"@, o1.py_thread_state_interp as int).len()) + spec_field_line("next"@, o1.py_thread_state_next as int).len()) + spec_field_line("frame"@, o1.py_thread_state_frame as int).len()) + spec_field_line("thread_id"@, o1.py_thread_state_thread_id as int).len()) + spec_field_line("native_thread_id"@, o1.py_thread_state_native_thread_id as int).len()) + spec_field_line("cframe"@, o1.py_thread_state_cframe as int).len()), "py_cframe"@, "current_frame"@, o1.py_cframe_current_frame);
    lemma_section1_parts(s, (((((((((((((((((0int + spec_top_line("major_version"@, o1.major_version as int).len()) + spec_top_line("minor_version"@, o1.minor_version as int).len()) + spec_top_line("patch_version"@, o1.patch_version as int).len()) + spec_section_line("py_object"@).len()) + spec_field_line("ob_type"@, o1.py_object_ob_type as int).len()) + spec_section_line("py_string"@).len()) + spec_field_line("data"@, o1.py_string_data as int).len()) + spec_field_line("size"@, o1.py_string_size as int).len()) + spec_section_line("py_type_object"@).len()) + spec_field_line("tp_name"@, o1.py_type_object_tp_name as int).len()) + spec_section_line("py_thread_state"@).len()) + spec_field_line("interp"@, o1.py_thread_state_interp as int).len()) + spec_field_line("next"@, o1.py_thread_state_next as int).len()) + spec_field_line("frame"@, o1.py_thread_state_frame as int).len()) + spec_field_line("thread_id"@, o1.py_thread_state_thread_id as int).len()) + spec_field_line("native_thread_id"@, o1.py_thread_state_native_thread_id as int).len()) + spec_field_line("cframe"@, o1.py_thread_state_cframe as int).len()), "py_cframe"@, "current_frame"@, o2.py_cframe_current_frame);
    lemma_field_line_determined(s, ((((((((((((((((((0int + spec_top_line("major_version"@, o1.major_version as int).len()) + spec_top_line("minor_version"@, o1.minor_version as int).len()) + spec_top_line("patch_version"@, o1.patch_version as int).len()) + spec_section_line("py_object"@).len()) + spec_field_line("ob_type"@, o1.py_object_ob_type as int).len()) + spec_section_line("py_string"@).len()) + spec_field_line("data"@, o1.py_string_data as int).len()) + spec_field_line("size"@, o1.py_string_size as int).len()) + spec_section_line("py_type_object"@).len()) + spec_field_line("tp_name"@, o1.py_type_object_tp_name as int).len()) + spec_section_line("py_thread_state"@).len()) + spec_field_line("interp"@, o1.py_thread_state_interp as int).len()) + spec_field_line("next"@, o1.py_thread_state_next as int).len()) + spec_field_line("frame"@, o1.py_thread_state_frame as int).len()) + spec_field_line("thread_id"@, o1.py_thread_state_thread_id as int).len()) + spec_field_line("native_thread_id"@, o1.py_thread_state_native_thread_id as int).len()) + spec_field_line("cframe"@, o1.py_thread_state_cframe as int).len()) + spec_section_line("py_cframe"@).len()), "current_frame"@, o1.py_cframe_current_frame, o2.py_cframe_current_frame);
    lemma_section1_parts(s, (((((((((((((((((((0int + spec_top_line("major_version"@, o1.major_version as int).len()) + spec_top_line("minor_version"@, o1.minor_version as int).len()) + spec_top_line("patch_version"@, o1.patch_version as int).len()) + spec_section_line("py_object"@).len()) + spec_field_line("ob_type"@, o1.py_object_ob_type as int).len()) + spec_section_line("py_string"@).len()) + spec_field_line("data"@, o1.py_string_data as int).len()) + spec_field_line("size"@, o1.py_string_size as int).len()) + spec_section_line("py_type_object"@).len()) + spec_field_line("tp_name"@, o1.py_type_object_tp_name as int).len()) + spec_section_line("py_thread_state"@).len()) + spec_field_line("interp"@, o1.py_thread_state_interp as int).len()) + spec_field_line("next"@, o1.py_thread_state_next as int).len()) + spec_field_line("frame"@, o1.py_thread_state_frame as int).len()) + spec_field_line("thread_id"@, o1.py_thread_state_thread_id as int).len()) + spec_field_line("native_thread_id"@, o1.py_thread_state_native_thread_id as int).len()) + spec_field_line("cframe"@, o1.py_thread_state_cframe as int).len()) + spec_section_line("py_cframe"@).len()) + spec_field_line("current_frame"@, o1.py_cframe_current_frame as int).len()), "py_interpreter_state"@, "tstate_head"@, o1.py_interpreter_state_tstate_head);
    lemma_section1_parts(s, (((((((((((((((((((0int + spec_top_line("major_version"@, o1.major_version as int).len()) + spec_top_line("minor_version"@, o1.minor_version as int).len()) + spec_top_line("patch_version"@, o1.patch_version as int).len()) + spec_section_line("py_object"@).len()) + spec_field_line("ob_type"@, o1.py_object_ob_type as int).len()) + spec_section_line("py_string"@).len()) + spec_field_line("data"@, o1.py_string_data as int).len()) + spec_field_line("size"@, o1.py_string_size as int).len()) + spec_section_line("py_type_object"@).len()) + spec_field_line("tp_name"@, o1.py_type_object_tp_name as int).len()) + spec_section_line("py_thread_state"@).len()) + spec_field_line("interp"@, o1.py_thread_state_interp as int).len()) + spec_field_line("next"@, o1.py_thread_state_next as int).len()) + spec_field_line("frame"@, o1.py_thread_state_frame as int).len()) + spec_field_line("thread_id"@, o1.py_thread_state_thread_id as int).len()) + spec_field_line("native_thread_id"@, o1.py_thread_state_native_thread_id as int).len()) + spec_field_line("cframe"@, o1.py_thread_state_cframe as int).len()) + spec_section_line("py_cframe"@).len()) + spec_field_line("current_frame"@, o1.py_cframe_current_frame as int).len()), "py_interpreter_state"@, "tstate_head"@, o2.py_interpreter_state_tstate_head);
    lemma_field_line_determined(s, ((((((((((((((((((((0int + spec_top_line("major_version"@, o1.major_version as int).len()) + spec_top_line("minor_version"@, o1.minor_version as int).len()) + spec_top_line("patch_version"@, o1.patch_version as int).len()) + spec_section_line("py_object"@).len()) + spec_field_line("ob_type"@, o1.py_object_ob_type as int).len()) + spec_section_line("py_string"@).len()) + spec_field_line("data"@, o1.py_string_data as int).len()) + spec_field_line("size"@, o1.py_string_size as int).len()) + spec_section_line("py_type_object"@).len()) + spec_field_line("tp_name"@, o1.py_type_object_tp_name as int).len()) + spec_section_line("py_thread_state"@).len()) + spec_field_line("interp"@, o1.py_thread_state_interp as int).len()) + spec_field_line("next"@, o1.py_thread_state_next as int).len()) + spec_field_line("frame"@, o1.py_thread_state_frame as int).len()) + spec_field_line("thread_id"@, o1.py_thread_state_thread_id as int).len()) + spec_field_line("native_thread_id"@, o1.py_thread_state_native_thread_id as int).len()) + spec_field_line("cframe"@, o1.py_thread_state_cframe as int).len()) + spec_section_line("py_cframe"@).len()) + spec_field_line("current_frame"@, o1.py_cframe_current_frame as int).len()) + spec_section_line("py_interpreter_state"@).len()), "tstate_head"@, o1.py_interpreter_state_tstate_head, o2.py_interpreter_state_tstate_head);
    lemma_section1_parts(s, (((((((((((((((((((((0int + spec_top_line("major_version"@, o1.major_version as int).len()) + spec_top_line("minor_version"@, o1.minor_version as int).len()) + spec_top_line("patch_version"@, o1.patch_version as int).len()) + spec_section_line("py_object"@).len()) + spec_field_line("ob_type"@, o1.py_object_ob_type as int).len()) + spec_section_line("py_string"@).len()) + spec_field_line("data"@, o1.py_string_data as int).len()) + spec_field_line("size"@, o1.py_string_size as int).len()) + spec_section_line("py_type_object"@).len()) + spec_field_line("tp_name"@, o1.py_type_object_tp_name as int).len()) + spec_section_line("py_thread_state"@).len()) + spec_field_line("interp"@, o1.py_thread_state_interp as int).len()) + spec_field_line("next"@, o1.py_thread_state_next as int).len()) + spec_field_line("frame"@, o1.py_thread_state_frame as int).len()) + spec_field_line("thread_id"@, o1.py_thread_state_thread_id as int).len()) + spec_field_line("native_thread_id"@, o1.py_thread_state_native_thread_id as int).len()) + spec_field_line("cframe"@, o1.py_thread_state_cframe as int).len()) + spec_section_line("py_cframe"@).len()) + spec_field_line("current_frame"@, o1.py_cframe_current_frame as int).len()) + spec_section_line("py_interpreter_state"@).len()) + spec_field_line("tstate_head"@, o1.py_interpreter_state_tstate_head as int).len()), "py_runtime_state"@, "interp_main"@, o1.py_runtime_state_interp_main);
    lemma_section1_parts(s, (((((((((((((((((((((0int + spec_top_line("major_version"@, o1.major_version as int).len()) + spec_top_line("minor_version"@, o1.minor_version as int).len()) + spec_top_line("patch_version"@, o1.patch_version as int).len()) + spec_section_line("py_object"@).len()) + spec_field_line("ob_type"@, o1.py_object_ob_type as int).len()) + spec_section_line("py_string"@).len()) + spec_field_line("data"@, o1.py_string_data as int).len()) + spec_field_line("size"@, o1.py_string_size as int).len()) + spec_section_line("py_type_object"@).len()) + spec_field_line("tp_name"@, o1.py_type_object_tp_name as int).len()) + spec_section_line("py_thread_state"@).len()) + spec_field_line("interp"@, o1.py_thread_state_interp as int).len()) + spec_field_line("next"@, o1.py_thread_state_next as int).len()) + spec_field_line("frame"@, o1.py_thread_state_frame as int).len()) + spec_field_line("thread_id"@, o1.py_thread_state_thread_id as int).len()) + spec_field_line("native_thread_id"@, o1.py_thread_state_native_thread_id as int).len()) + spec_field_line("cframe"@, o1.py_thread_state_cframe as int).len()) + spec_section_line("py_cframe"@).len()) + spec_field_line("current_frame"@, o1.py_cframe_current_frame as int).len()) + spec_section_line("py_interpreter_state"@).len()) + spec_field_line("tstate_head"@, o1.py_interpreter_state_tstate_head as int).len()), "py_runtime_state"@, "interp_main"@, o2.py_runtime_state_interp_main);
    lemma_field_line_determined(s, ((((((((((((((((((((((0int + spec_top_line("major_version"@, o1.major_version as int).len()) + spec_top_line("minor_version"@, o1.minor_version as int).len()) + spec_top_line("patch_version"@, o1.patch_version as int).len()) + spec_section_line("py_object"@).len()) + spec_field_line("ob_type"@, o1.py_object_ob_type as int).len()) + spec_section_line("py_string"@).len()) + spec_field_line("data"@, o1.py_string_data as int).len()) + spec_field_line("size"@, o1.py_string_size as int).len()) + spec_section_line("py_type_object"@).len()) + spec_field_line("tp_name"@, o1.py_type_object_tp_name as int).len()) + spec_section_line("py_thread_state"@).len()) + spec_field_line("interp"@, o1.py_thread_state_interp as int).len()) + spec_field_line("next"@, o1.py_thread_state_next as int).len()) + spec_field_line("frame"@, o1.py_thread_state_frame as int).len()) + spec_field_line("thread_id"@, o1.py_thread_state_thread_id as int).len()) + spec_field_line("native_thread_id"@, o1.py_thread_state_native_thread_id as int).len()) + spec_field_line("cframe"@, o1.py_thread_state_cframe as int).len()) + spec_section_line("py_cframe"@).len()) + spec_field_line("current_frame"@, o1.py_cframe_current_frame as int).len()) + spec_section_line("py_interpreter_state"@).len()) + spec_field_line("tstate_head"@, o1.py_interpreter_state_tstate_head as int).len()) + spec_section_line("py_runtime_state"@).len()), "interp_main"@, o1.py_runtime_state_interp_main, o2.py_runtime_state_interp_main);
    lemma_section4_parts(s, (((((((((((((((((((((((0int + spec_top_line("major_version"@, o1.major_version as int).len()) + spec_top_line("minor_version"@, o1.minor_version as int).len()) + spec_top_line("patch_version"@, o1.patch_version as int).len()) + spec_section_line("py_object"@).len()) + spec_field_line("ob_type"@, o1.py_object_ob_type as int).len()) + spec_section_line("py_string"@).len()) + spec_field_line("data"@, o1.py_string_data as int).len()) + spec_field_line("size"@, o1.py_string_size as int).len()) + spec_section_line("py_type_object"@).len()) + spec_field_line("tp_name"@, o1.py_type_object_tp_name as int).len()) + spec_section_line("py_thread_state"@).len()) + spec_field_line("interp"@, o1.py_thread_state_interp as int).len()) + spec_field_line("next"@, o1.py_thread_state_next as int).len()) + spec_field_line("frame"@, o1.py_thread_state_frame as int).len()) + spec_field_line("thread_id"@, o1.py_thread_state_thread_id as int).len()) + spec_field_line("native_thread_id"@, o1.py_thread_state_native_thread_id as int).len()) + spec_field_line("cframe"@, o1.py_thread_state_cframe as int).len()) + spec_section_line("py_cframe"@).len()) + spec_field_line("current_frame"@, o1.py_cframe_current_frame as int).len()) + spec_section_line("py_interpreter_state"@).len()) + spec_field_line("tstate_head"@, o1.py_interpreter_state_tstate_head as int).len()) + spec_section_line("py_runtime_state"@).len()) + spec_field_line("interp_main"@, o1.py_runtime_state_interp_main as int).len()), "py_frame_object"@, "f_back"@, "f_code"@, "f_lineno"@, "f_localsplus"@, o1.py_frame_object_f_back, o1.py_frame_object_f_code, o1.py_frame_object_f_lineno, o1.py_frame_object_f_localsplus);
    lemma_section2_parts(s, (((((((((((((((((((((((0int + spec_top_line("major_version"@, o1.major_version as int).len()) + spec_top_line("minor_version"@, o1.minor_version as int).len()) + spec_top_line("patch_version"@, o1.patch_version as int).len()) + spec_section_line("py_object"@).len()) + spec_field_line("ob_type"@, o1.py_object_ob_type as int).len()) + spec_section_line("py_string"@).len()) + spec_field_line("data"@, o1.py_string_data as int).len()) + spec_field_line("size"@, o1.py_string_size as int).len()) + spec_section_line("py_type_object"@).len()) + spec_field_line("tp_name"@, o1.py_type_object_tp_name as int).len()) + spec_section_line("py_thread_state"@).len()) + spec_field_line("interp"@, o1.py_thread_state_interp as int).len()) + spec_field_line("next"@, o1.py_thread_state_next as int).len()) + spec_field_line("frame"@, o1.py_thread_state_frame as int).len()) + spec_field_line("thread_id"@, o1.py_thread_state_thread_id as int).len()) + spec_field_line("native_thread_id"@, o1.py_thread_state_native_thread_id as int).len()) + spec_field_line("cframe"@, o1.py_thread_state_cframe as int).len()) + spec_section_line("py_cframe"@).len()) + spec_field_line("current_frame"@, o1.py_cframe_current_frame as int).len()) + spec_section_line("py_interpreter_state"@).len()) + spec_field_line("tstate_head"@, o1.py_interpreter_state_tstate_head as int).len()) + spec_section_line("py_runtime_state"@).len()) + spec_field_line("interp_main"@, o1.py_runtime_state_interp_main as int).len()), "py_frame_object"@, "f_back"@, "f_code"@, o1.py_frame_object_f_back, o1.py_frame_object_f_code);
    lemma_section1_parts(s, (((((((((((((((((((((((0int + spec_top_line("major_version"@, o1.major_version as int).len()) + spec_top_line("minor_version"@, o1.minor_version as int).len()) + spec_top_line("patch_version"@, o1.patch_version as int).len()) + spec_section_line("py_object"@).len()) + spec_field_line("ob_type"@, o1.py_object_ob_type as int).len()) + spec_section_line("py_string"@).len()) + spec_field_line("data"@, o1.py_string_data as int).len()) + spec_field_line("size"@, o1.py_string_size as int).len()) + spec_section_line("py_type_object"@).len()) + spec_field_line("tp_name"@, o1.py_type_object_tp_name as int).len()) + spec_section_line("py_thread_state"@).len()) + spec_field_line("interp"@, o1.py_thread_state_interp as int).len()) + spec_field_line("next"@, o1.py_thread_state_next as int).len()) + spec_field_line("frame"@, o1.py_thread_state_frame as int).len()) + spec_field_line("thread_id"@, o1.py_thread_state_thread_id as int).len()) + spec_field_line("native_thread_id"@, o1.py_thread_state_native_thread_id as int).len()) + spec_field_line("cframe"@, o1.py_thread_state_cframe as int).len()) + spec_section_line("py_cframe"@).len()) + spec_field_line("current_frame"@, o1.py_cframe_current_frame as int).len()) + spec_section_line("py_interpreter_state"@).len()) + spec_field_line("tstate_head"@, o1.py_interpreter_state_tstate_head as int).len()) + spec_section_line("py_runtime_state"@).len()) + spec_field_line("interp_main"@, o1.py_runtime_state_interp_main as int).len()), "py_frame_object"@, "f_back"@, o1.py_frame_object_f_back);
    lemma_section4_parts(s, (((((((((((((((((((((((0int + spec_top_line("major_version"@, o1.major_version as int).len()) + spec_top_line("minor_version"@, o1.minor_version as int).len()) + spec_top_line("patch_version"@, o1.patch_version as int).len()) + spec_section_line("py_object"@).len()) + spec_field_line("ob_type"@, o1.py_object_ob_type as int).len()) + spec_section_line("py_string"@).len()) + spec_field_line("data"@, o1.py_string_data as int).len()) + spec_field_line("size"@, o1.py_string_size as int).len()) + spec_section_line("py_type_object"@).len()) + spec_field_line("tp_name"@, o1.py_type_object_tp_name as int).len()) + spec_section_line("py_thread_state"@).len()) + spec_field_line("interp"@, o1.py_thread_state_interp as int).len()) + spec_field_line("next"@, o1.py_thread_state_next as int).len()) + spec_field_line("frame"@, o1.py_thread_state_frame as int).len()) + spec_field_line("thread_id"@, o1.py_thread_state_thread_id as int).len()) + spec_field_line("native_thread_id"@, o1.py_thread_state_native_thread_id as int).len()) + spec_field_line("cframe"@, o1.py_thread_state_cframe as int).len()) + spec_section_line("py_cframe"@).len()) + spec_field_line("current_frame"@, o1.py_cframe_current_frame as int).len()) + spec_section_line("py_interpreter_state"@).len()) + spec_field_line("tstate_head"@, o1.py_interpreter_state_tstate_head as int).len()) + spec_section_line("py_runtime_state"@).len()) + spec_field_line("interp_main"@, o1.py_runtime_state_interp_main as int).len()), "py_frame_object"@, "f_back"@, "f_code"@, "f_lineno"@, "f_localsplus"@, o2.py_frame_object_f_back, o2.py_frame_object_f_code, o2.py_frame_object_f_lineno, o2.py_frame_object_f_localsplus);
    lemma_section2_parts(s, (((((((((((((((((((((((0int + spec_top_line("major_version"@, o1.major_version as int).len()) + spec_top_line("minor_version"@, o1.minor_version as int).len()) + spec_top_line("patch_version"@, o1.patch_version as int).len()) + spec_section_line("py_object"@).len()) + spec_field_line("ob_type"@, o1.py_object_ob_type as int).len()) + spec_section_line("py_string"@).len()) + spec_field_line("data"@, o1.py_string_data as int).len()) + spec_field_line("size"@, o1.py_string_size as int).len()) + spec_section_line("py_type_object"@).len()) + spec_field_line("tp_name"@, o1.py_type_object_tp_name as int).len()) + spec_section_line("py_thread_state"@).len()) + spec_field_line("interp"@, o1.py_thread_state_interp as int).len()) + spec_field_line("next"@, o1.py_thread_state_next as int).len()) + spec_field_line("frame"@, o1.py_thread_state_frame as int).len()) + spec_field_line("thread_id"@, o1.py_thread_state_thread_id as int).len()) + spec_field_line("native_thread_id"@, o1.py_thread_state_native_thread_id as int).len()) + spec_field_line("cframe"@, o1.py_thread_state_cframe as int).len()) + spec_section_line("py_cframe"@).len()) + spec_field_line("current_frame"@, o1.py_cframe_current_frame as int).len()) + spec_section_line("py_interpreter_state"@).len()) + spec_field_line("tstate_head"@, o1.py_interpreter_state_tstate_head as int).len()) + spec_section_line("py_runtime_state"@).len()) + spec_field_line("interp_main"@, o1.py_runtime_state_interp_main as int).len()), "py_frame_object"@, "f_back"@, "f_code"@, o2.py_frame_object_f_back, o2.py_frame_object_f_code);
    lemma_section1_parts(s, (((((((((((((((((((((((0int + spec_top_line("major_version"@, o1.major_version as int).len()) + spec_top_line("minor_version"@, o1.minor_version as int).len()) + spec_top_line("patch_version"@, o1.patch_version as int).len()) + spec_section_line("py_object"@).len()) + spec_field_line("ob_type"@, o1.py_object_ob_type as int).len()) + spec_section_line("py_string"@).len()) + spec_field_line("data"@, o1.py_string_data as int).len()) + spec_field_line("size"@, o1.py_string_size as int).len()) + spec_section_line("py_type_object"@).len()) + spec_field_line("tp_name"@, o1.py_type_object_tp_name as int).len()) + spec_section_line("py_thread_state"@).len()) + spec_field_line("interp"@, o1.py_thread_state_interp as int).len()) + spec_field_line("next"@, o1.py_thread_state_next as int).len()) + spec_field_line("frame"@, o1.py_thread_state_frame as int).len()) + spec_field_line("thread_id"@, o1.py_thread_state_thread_id as int).len()) + spec_field_line("native_thread_id"@, o1.py_thread_state_native_thread_id as int).len()) + spec_field_line("cframe"@, o1.py_thread_state_cframe as int).len()) + spec_section_line("py_cframe"@).len()) + spec_field_line("current_frame"@, o1.py_cframe_current_frame as int).len()) + spec_section_line("py_interpreter_state"@).len()) + spec_field_line("tstate_head"@, o1.py_interpreter_state_tstate_head as int).len()) + spec_section_line("py_runtime_state"@).len()) + spec_field_line("interp_main"@, o1.py_runtime_state_interp_main as int).len()), "py_frame_object"@, "f_back"@, o2.py_frame_object_f_back);
    lemma_field_line_determined(s, ((((((((((((((((((((((((0int + spec_top_line("major_version"@, o1.major_version as int).len()) + spec_top_line("minor_version"@, o1.minor_version as int).len()) + spec_top_line("patch_version"@, o1.patch_version as int).len()) + spec_section_line("py_object"@).len()) + spec_field_line("ob_type"@, o1.py_object_ob_type as int).len()) + spec_section_line("py_string"@).len()) + spec_field_line("data"@, o1.py_string_data as int).len()) + spec_field_line("size"@, o1.py_string_size as int).len()) + spec_section_line("py_type_object"@).len()) + spec_field_line("tp_name"@, o1.py_type_object_tp_name as int).len()) + spec_section_line("py_thread_state"@).len()) + spec_field_line("interp"@, o1.py_thread_state_interp as int).len()) + spec_field_line("next"@, o1.py_thread_state_next as int).len()) + spec_field_line("frame"@, o1.py_thread_state_frame as int).len()) + spec_field_line("thread_id"@, o1.py_thread_state_thread_id as int).len()) + spec_field_line("native_thread_id"@, o1.py_thread_state_native_thread_id as int).len()) + spec_field_line("cframe"@, o1.py_thread_state_cframe as int).len()) + spec_section_line("py_cframe"@).len()) + spec_field_line("current_frame"@, o1.py_cframe_current_frame as int).len()) + spec_section_line("py_interpreter_state"@).len()) + spec_field_line("tstate_head"@, o1.py_interpreter_state_tstate_head as int).len()) + spec_section_line("py_runtime_state"@).len()) + spec_field_line("interp_main"@, o1.py_runtime_state_interp_main as int).len()) + spec_section_line("py_frame_object"@).len()), "f_back"@, o1.py_frame_object_f_back, o2.py_frame_object_f_back);
    lemma_field_line_determined(s, (((((((((((((((((((((((((0int + spec_top_line("major_version"@, o1.major_version as int).len()) + spec_top_line("minor_version"@, o1.minor_version as int).len()) + spec_top_line("patch_version"@, o1.patch_version as int).len()) + spec_section_line("py_object"@).len()) + spec_field_line("ob_type"@, o1.py_object_ob_type as int).len()) + spec_section_line("py_string"@).len()) + spec_field_line("data"@, o1.py_string_data as int).len()) + spec_field_line("size"@, o1.py_string_size as int).len()) + spec_section_line("py_type_object"@).len()) + spec_field_line("tp_name"@, o1.py_type_object_tp_name as int).len()) + spec_section_line("py_thread_state"@).len()) + spec_field_line("interp"@, o1.py_thread_state_interp as int).len()) + spec_field_line("next"@, o1.py_thread_state_next as int).len()) + spec_field_line("frame"@, o1.py_thread_state_frame as int).len()) + spec_field_line("thread_id"@, o1.py_thread_state_thread_id as int).len()) + spec_field_line("native_thread_id"@, o1.py_thread_state_native_thread_id as int).len()) + spec_field_line("cframe"@, o1.py_thread_state_cframe as int).len()) + spec_section_line("py_cframe"@).len()) + spec_field_line("current_frame"@, o1.py_cframe_current_frame as int).len()) + spec_section_line("py_interpreter_state"@).len()) + spec_field_line("tstate_head"@, o1.py_interpreter_state_tstate_head as int).len()) + spec_section_line("py_runtime_state"@).len()) + spec_field_line("interp_main"@, o1.py_runtime_state_interp_main as int).len()) + spec_section_line("py_frame_object"@).len()) + spec_field_line("f_back"@, o1.py_frame_object_f_back as int).len()), "f_code"@, o1.py_frame_object_f_code, o2.py_frame_object_f_code);
    lemma_field_line_determined(s, ((((((((((((((((((((((((((0int + spec_top_line("major_version"@, o1.major_version as int).len()) + spec_top_line("minor_version"@, o1.minor_version as int).len()) + spec_top_line("patch_version"@, o1.patch_version as int).len()) + spec_section_line("py_object"@).len()) + spec_field_line("ob_type"@, o1.py_object_ob_type as int).len()) + spec_section_line("py_string"@).len()) + spec_field_line("data"@, o1.py_string_data as int).len()) + spec_field_line("size"@, o1.py_string_size as int).len()) + spec_section_line("py_type_object"@).len()) + spec_field_line("tp_name"@, o1.py_type_object_tp_name as int).len()) + spec_section_line("py_thread_state"@).len()) + spec_field_line("interp"@, o1.py_thread_state_interp as int).len()) + spec_field_line("next"@, o1.py_thread_state_next as int).len()) + spec_field_line("frame"@, o1.py_thread_state_frame as int).len()) + spec_field_line("thread_id"@, o1.py_thread_state_thread_id as int).len()) + spec_field_line("native_thread_id"@, o1.py_thread_state_native_thread_id as int).len()) + spec_field_line("cframe"@, o1.py_thread_state_cframe as int).len()) + spec_section_line("py_cframe"@).len()) + spec_field_line("current_frame"@, o1.py_cframe_current_frame as int).len()) + spec_section_line("py_interpreter_state"@).len()) + spec_field_line("tstate_head"@, o1.py_interpreter_state_tstate_head as int).len()) + spec_section_line("py_runtime_state"@).len()) + spec_field_line("interp_main"@, o1.py_runtime_state_interp_main as int).len()) + spec_section_line("py_frame_object"@).len()) + spec_field_line("f_back"@, o1.py_frame_object_f_back as int).len()) + spec_field_line("f_code"@, o1.py_frame_object_f_code as int).len()), "f_lineno"@, o1.py_frame_object_f_lineno, o2.py_frame_object_f_lineno);
    lemma_field_line_determined(s, (((((((((((((((((((((((((((0int + spec_top_line("major_version"@, o1.major_version as int).len()) + spec_top_line("minor_version"@, o1.minor_version as int).len()) + spec_top_line("patch_version"@, o1.patch_version as int).len()) + spec_section_line("py_object"@).len()) + spec_field_line("ob_type"@, o1.py_object_ob_type as int).len()) + spec_section_line("py_string"@).len()) + spec_field_line("data"@, o1.py_string_data as int).len()) + spec_field_line("size"@, o1.py_string_size as int).len()) + spec_section_line("py_type_object"@).len()) + spec_field_line("tp_name"@, o1.py_type_object_tp_name as int).len()) + spec_section_line("py_thread_state"@).len()) + spec_field_line("interp"@, o1.py_thread_state_interp as int).len()) + spec_field_line("next"@, o1.py_thread_state_next as int).len()) + spec_field_line("frame"@, o1.py_thread_state_frame as int).len()) + spec_field_line("thread_id"@, o1.py_thread_state_thread_id as int).len()) + spec_field_line("native_thread_id"@, o1.py_thread_state_native_thread_id as int).len()) + spec_field_line("cframe"@, o1.py_thread_state_cframe as int).len()) + spec_section_line("py_cframe"@).len()) + spec_field_line("current_frame"@, o1.py_cframe_current_frame as int).len()) + spec_section_line("py_interpreter_state"@).len()) + spec_field_line("tstate_head"@, o1.py_interpreter_state_tstate_head as int).len()) + spec_section_line("py_runtime_state"@).len()) + spec_field_line("interp_main"@, o1.py_runtime_state_interp_main as int).len()) + spec_section_line("py_frame_object"@).len()) + spec_field_line("f_back"@, o1.py_frame_object_f_back as int).len()) + spec_field_line("f_code"@, o1.py_frame_object_f_code as int).len()) + spec_field_line("f_lineno"@, o1.py_frame_object_f_lineno as int).len()), "f_localsplus"@, o1.py_frame_object_f_localsplus, o2.py_frame_object_f_localsplus);
    lemma_section4_parts(s, ((((((((((((((((((((((((((((0int + spec_top_line("major_version"@, o1.major_version as int).len()) + spec_top_line("minor_version"@, o1.minor_version as int).len()) + spec_top_line("patch_version"@, o1.patch_version as int).len()) + spec_section_line("py_object"@).len()) + spec_field_line("ob_type"@, o1.py_object_ob_type as int).len()) + spec_section_line("py_string"@).len()) + spec_field_line("data"@, o1.py_string_data as int).len()) + spec_field_line("size"@, o1.py_string_size as int).len()) + spec_section_line("py_type_object"@).len()) + spec_field_line("tp_name"@, o1.py_type_object_tp_name as int).len()) + spec_section_line("py_thread_state"@).len()) + spec_field_line("interp"@, o1.py_thread_state_interp as int).len()) + spec_field_line("next"@, o1.py_thread_state_next as int).len()) + spec_field_line("frame"@, o1.py_thread_state_frame as int).len()) + spec_field_line("thread_id"@, o1.py_thread_state_thread_id as int).len()) + spec_field_line("native_thread_id"@, o1.py_thread_state_native_thread_id as int).len()) + spec_field_line("cframe"@, o1.py_thread_state_cframe as int).len()) + spec_section_line("py_cframe"@).len()) + spec_field_line("current_frame"@, o1.py_cframe_current_frame as int).len()) + spec_section_line("py_interpreter_state"@).len()) + spec_field_line("tstate_head"@, o1.py_interpreter_state_tstate_head as int).len()) + spec_section_line("py_runtime_state"@).len()) + spec_field_line("interp_main"@, o1.py_runtime_state_interp_main as int).len()) + spec_section_line("py_frame_object"@).len()) + spec_field_line("f_back"@, o1.py_frame_object_f_back as int).len()) + spec_field_line("f_code"@, o1.py_frame_object_f_code as int).len()) + spec_field_line("f_lineno"@, o1.py_frame_object_f_lineno as int).len()) + spec_field_line("f_localsplus"@, o1.py_frame_object_f_localsplus as int).len()), "py_code_object"@, "co_filename"@, "co_name"@, "co_varnames"@, "co_firstlineno"@, o1.py_code_object_co_filename, o1.py_code_object_co_name, o1.py_code_object_co_varnames, o1.py_code_object_co_firstlineno);
    lemma_section2_parts(s, ((((((((((((((((((((((((((((0int + spec_top_line("major_version"@, o1.major_version as int).len()) + spec_top_line("minor_version"@, o1.minor_version as int).len()) + spec_top_line("patch_version"@, o1.patch_version as int).len()) + spec_section_line("py_object"@).len()) + spec_field_line("ob_type"@, o1.py_object_ob_type as int).len()) + spec_section_line("py_string"@).len()) + spec_field_line("data"@, o1.py_string_data as int).len()) + spec_field_line("size"@, o1.py_string_size as int).len()) + spec_section_line("py_type_object"@).len()) + spec_field_line("tp_name"@, o1.py_type_object_tp_name as int).len()) + spec_section_line("py_thread_state"@).len()) + spec_field_line("interp"@, o1.py_thread_state_interp as int).len()) + spec_field_line("next"@, o1.py_thread_state_next as int).len()) + spec_field_line("frame"@, o1.py_thread_state_frame as int).len()) + spec_field_line("thread_id"@, o1.py_thread_state_thread_id as int).len()) + spec_field_line("native_thread_id"@, o1.py_thread_state_native_thread_id as int).len()) + spec_field_line("cframe"@, o1.py_thread_state_cframe as int).len()) + spec_section_line("py_cframe"@).len()) + spec_field_line("current_frame"@, o1.py_cframe_current_frame as int).len()) + spec_section_line("py_interpreter_state"@).len()) + spec_field_line("tstate_head"@, o1.py_interpreter_state_tstate_head as int).len()) + spec_section_line("py_runtime_state"@).len()) + spec_field_line("interp_main"@, o1.py_runtime_state_interp_main as int).len()) + spec_section_line("py_frame_object"@).len()) + spec_field_line("f_back"@, o1.py_frame_object_f_back as int).len()) + spec_field_line("f_code"@, o1.py_frame_object_f_code as int).len()) + spec_field_line("f_lineno"@, o1.py_frame_object_f_lineno as int).len()) + spec_field_line("f_localsplus"@, o1.py_frame_object_f_localsplus as int).len()), "py_code_object"@, "co_filename"@, "co_name"@, o1.py_code_object_co_filename, o1.py_code_object_co_name);
    lemma_section1_parts(s, ((((((((((((((((((((((((((((0int + spec_top_line("major_version"@, o1.major_version as int).len()) + spec_top_line("minor_version"@, o1.minor_version as int).len()) + spec_top_line("patch_version"@, o1.patch_version as int).len()) + spec_section_line("py_object"@).len()) + spec_field_line("ob_type"@, o1.py_object_ob_type as int).len()) + spec_section_line("py_string"@).len()) + spec_field_line("data"@, o1.py_string_data as int).len()) + spec_field_line("size"@, o1.py_string_size as int).len()) + spec_section_line("py_type_object"@).len()) + spec_field_line("tp_name"@, o1.py_type_object_tp_name as int).len()) + spec_section_line("py_thread_state"@).len()) + spec_field_line("interp"@, o1.py_thread_state_interp as int).len()) + spec_field_line("next"@, o1.py_thread_state_next as int).len()) + spec_field_line("frame"@, o1.py_thread_state_frame as int).len()) + spec_field_line("thread_id"@, o1.py_thread_state_thread_id as int).len()) + spec_field_line("native_thread_id"@, o1.py_thread_state_native_thread_id as int).len()) + spec_field_line("cframe"@, o1.py_thread_state_cframe as int).len()) + spec_section_line("py_cframe"@).len()) + spec_field_line("current_frame"@, o1.py_cframe_current_frame as int).len()) + spec_section_line("py_interpreter_state"@).len()) + spec_field_line("tstate_head"@, o1.py_interpreter_state_tstate_head as int).len()) + spec_section_line("py_runtime_state"@).len()) + spec_field_line("interp_main"@, o1.py_runtime_state_interp_main as int).len()) + spec_section_line("py_frame_object"@).len()) + spec_field_line("f_back"@, o1.py_frame_object_f_back as int).len()) + spec_field_line("f_code"@, o1.py_frame_object_f_code as int).len()) + spec_field_line("f_lineno"@, o1.py_frame_object_f_lineno as int).len()) + spec_field_line("f_localsplus"@, o1.py_frame_object_f_localsplus as int).len()), "py_code_object"@, "co_filename"@, o1.py_code_object_co_filename);
    lemma_section4_parts(s, ((((((((((((((((((((((((((((0int + spec_top_line("major_version"@, o1.major_version as int).len()) + spec_top_line("minor_version"@, o1.minor_version as int).len()) + spec_top_line("patch_version"@, o1.patch_version as int).len()) + spec_section_line("py_object"@).len()) + spec_field_line("ob_type"@, o1.py_object_ob_type as int).len()) + spec_section_line("py_string"@).len()) + spec_field_line("data"@, o1.py_string_data as int).len()) + spec_field_line("size"@, o1.py_string_size as int).len()) + spec_section_line("py_type_object"@).len()) + spec_field_line("tp_name"@, o1.py_type_object_tp_name as int).len()) + spec_section_line("py_thread_state"@).len()) + spec_field_line("interp"@, o1.py_thread_state_interp as int).len()) + spec_field_line("next"@, o1.py_thread_state_next as int).len()) + spec_field_line("frame"@, o1.py_thread_state_frame as int).len()) + spec_field_line("thread_id"@, o1.py_thread_state_thread_id as int).len()) + spec_field_line("native_thread_id"@, o1.py_thread_state_native_thread_id as int).len()) + spec_field_line("cframe"@, o1.py_thread_state_cframe as int).len()) + spec_section_line("py_cframe"@).len()) + spec_field_line("current_frame"@, o1.py_cframe_current_frame as int).len()) + spec_section_line("py_interpreter_state"@).len()) + spec_field_line("tstate_head"@, o1.py_interpreter_state_tstate_head as int).len()) + spec_section_line("py_runtime_state"@).len()) + spec_field_line("interp_main"@, o1.py_runtime_state_interp_main as int).len()) + spec_section_line("py_frame_object"@).len()) + spec_field_line("f_back"@, o1.py_frame_object_f_back as int).len()) + spec_field_line("f_code"@, o1.py_frame_object_f_code as int).len()) + spec_field_line("f_lineno"@, o1.py_frame_object_f_lineno as int).len()) + spec_field_line("f_localsplus"@, o1.py_frame_object_f_localsplus as int).len()), "py_code_object"@, "co_filename"@, "co_name"@, "co_varnames"@, "co_firstlineno"@, o2.py_code_object_co_filename, o2.py_code_object_co_name, o2.py_code_object_co_varnames, o2.py_code_object_co_firstlineno);
    lemma_section2_parts(s, ((((((((((((((((((((((((((((0int + spec_top_line("major_version"@, o1.major_version as int).len()) + spec_top_line("minor_version"@, o1.minor_version as int).len()) + spec_top_line("patch_version"@, o1.patch_version as int).len()) + spec_section_line("py_object"@).len()) + spec_field_line("ob_type"@, o1.py_object_ob_type as int).len()) + spec_section_line("py_string"@).len()) + spec_field_line("data"@, o1.py_string_data as int).len()) + spec_field_line("size"@, o1.py_string_size as int).len()) + spec_section_line("py_type_object"@).len()) + spec_field_line("tp_name"@, o1.py_type_object_tp_name as int).len()) + spec_section_line("py_thread_state"@).len()) + spec_field_line("interp"@, o1.py_thread_state_interp as int).len()) + spec_field_line("next"@, o1.py_thread_state_next as int).len()) + spec_field_line("frame"@, o1.py_thread_state_frame as int).len()) + spec_field_line("thread_id"@, o1.py_thread_state_thread_id as int).len()) + spec_field_line("native_thread_id"@, o1.py_thread_state_native_thread_id as int).len()) + spec_field_line("cframe"@, o1.py_thread_state_cframe as int).len()) + spec_section_line("py_cframe"@).len()) + spec_field_line("current_frame"@, o1.py_cframe_current_frame as int).len()) + spec_section_line("py_interpreter_state"@).len()) + spec_field_line("tstate_head"@, o1.py_interpreter_state_tstate_head as int).len()) + spec_section_line("py_runtime_state"@).len()) + spec_field_line("interp_main"@, o1.py_runtime_state_interp_main as int).len()) + spec_section_line("py_frame_object"@).len()) + spec_field_line("f_back"@, o1.py_frame_object_f_back as int).len()) + spec_field_line("f_code"@, o1.py_frame_object_f_code as int).len()) + spec_field_line("f_lineno"@, o1.py_frame_object_f_lineno as int).len()) + spec_field_line("f_localsplus"@, o1.py_frame_object_f_localsplus as int).len()), "py_code_object"@, "co_filename"@, "co_name"@, o2.py_code_object_co_filename, o2.py_code_object_co_name);
    lemma_section1_parts(s, ((((((((((((((((((((((((((((0int + spec_top_line("major_version"@, o1.major_version as int).len()) + spec_top_line("minor_version"@, o1.minor_version as int).len()) + spec_top_line("patch_version"@, o1.patch_version as int).len()) + spec_section_line("py_object"@).len()) + spec_field_line("ob_type"@, o1.py_object_ob_type as int).len()) + spec_section_line("py_string"@).len()) + spec_field_line("data"@, o1.py_string_data as int).len()) + spec_field_line("size"@, o1.py_string_size as int).len()) + spec_section_line("py_type_object"@).len()) + spec_field_line("tp_name"@, o1.py_type_object_tp_name as int).len()) + spec_section_line("py_thread_state"@).len()) + spec_field_line("interp"@, o1.py_thread_state_interp as int).len()) + spec_field_line("next"@, o1.py_thread_state_next as int).len()) + spec_field_line("frame"@, o1.py_thread_state_frame as int).len()) + spec_field_line("thread_id"@, o1.py_thread_state_thread_id as int).len()) + spec_field_line("native_thread_id"@, o1.py_thread_state_native_thread_id as int).len()) + spec_field_line("cframe"@, o1.py_thread_state_cframe as int).len()) + spec_section_line("py_cframe"@).len()) + spec_field_line("current_frame"@, o1.py_cframe_current_frame as int).len()) + spec_section_line("py_interpreter_state"@).len()) + spec_field_line("tstate_head"@, o1.py_interpreter_state_tstate_head as int).len()) + spec_section_line("py_runtime_state"@).len()) + spec_field_line("interp_main"@, o1.py_runtime_state_interp_main as int).len()) + spec_section_line("py_frame_object"@).len()) + spec_field_line("f_back"@, o1.py_frame_object_f_back as int).len()) + spec_field_line("f_code"@, o1.py_frame_object_f_code as int).len()) + spec_field_line("f_lineno"@, o1.py_frame_object_f_lineno as int).len()) + spec_field_line("f_localsplus"@, o1.py_frame_object_f_localsplus as int).len()), "py_code_object"@, "co_filename"@, o2.py_code_object_co_filename);
    lemma_field_line_determined(s, (((((((((((((((((((((((((((((0int + spec_top_line("major_version"@, o1.major_version as int).len()) + spec_top_line("minor_version"@, o1.minor_version as int).len()) + spec_top_line("patch_version"@, o1.patch_version as int).len()) + spec_section_line("py_object"@).len()) + spec_field_line("ob_type"@, o1.py_object_ob_type as int).len()) + spec_section_line("py_string"@).len()) + spec_field_line("data"@, o1.py_string_data as int).len()) + spec_field_line("size"@, o1.py_string_size as int).len()) + spec_section_line("py_type_object"@).len()) + spec_field_line("tp_name"@, o1.py_type_object_tp_name as int).len()) + spec_section_line("py_thread_state"@).len()) + spec_field_line("interp"@, o1.py_thread_state_interp as int).len()) + spec_field_line("next"@, o1.py_thread_state_next as int).len()) + spec_field_line("frame"@, o1.py_thread_state_frame as int).len()) + spec_field_line("thread_id"@, o1.py_thread_state_thread_id as int).len()) + spec_field_line("native_thread_id"@, o1.py_thread_state_native_thread_id as int).len()) + spec_field_line("cframe"@, o1.py_thread_state_cframe as int).len()) + spec_section_line("py_cframe"@).len()) + spec_field_line("current_frame"@, o1.py_cframe_current_frame as int).len()) + spec_section_line("py_interpreter_state"@).len()) + spec_field_line("tstate_head"@, o1.py_interpreter_state_tstate_head as int).len()) + spec_section_line("py_runtime_state"@).len()) + spec_field_line("interp_main"@, o1.py_runtime_state_interp_main as int).len()) + spec_section_line("py_frame_object"@).len()) + spec_field_line("f_back"@, o1.py_frame_object_f_back as int).len()) + spec_field_line("f_code"@, o1.py_frame_object_f_code as int).len()) + spec_field_line("f_lineno"@, o1.py_frame_object_f_lineno as int).len()) + spec_field_line("f_localsplus"@, o1.py_frame_object_f_localsplus as int).len()) + spec_section_line("py_code_object"@).len()), "co_filename"@, o1.py_code_object_co_filename, o2.py_code_object_co_filename);
    lemma_field_line_determined(s, ((((((((((((((((((((((((((((((0int + spec_top_line("major_version"@, o1.major_version as int).len()) + spec_top_line("minor_version"@, o1.minor_version as int).len()) + spec_top_line("patch_version"@, o1.patch_version as int).len()) + spec_section_line("py_object"@).len()) + spec_field_line("ob_type"@, o1.py_object_ob_type as int).len()) + spec_section_line("py_string"@).len()) + spec_field_line("data"@, o1.py_string_data as int).len()) + spec_field_line("size"@, o1.py_string_size as int).len()) + spec_section_line("py_type_object"@).len()) + spec_field_line("tp_name"@, o1.py_type_object_tp_name as int).len()) + spec_section_line("py_thread_state"@).len()) + spec_field_line("interp"@, o1.py_thread_state_interp as int).len()) + spec_field_line("next"@, o1.py_thread_state_next as int).len()) + spec_field_line("frame"@, o1.py_thread_state_frame as int).len()) + spec_field_line("thread_id"@, o1.py_thread_state_thread_id as int).len()) + spec_field_line("native_thread_id"@, o1.py_thread_state_native_thread_id as int).len()) + spec_field_line("cframe"@, o1.py_thread_state_cframe as int).len()) + spec_section_line("py_cframe"@).len()) + spec_field_line("current_frame"@, o1.py_cframe_current_frame as int).len()) + spec_section_line("py_interpreter_state"@).len()) + spec_field_line("tstate_head"@, o1.py_interpreter_state_tstate_head as int).len()) + spec_section_line("py_runtime_state"@).len()) + spec_field_line("interp_main"@, o1.py_runtime_state_interp_main as int).len()) + spec_section_line("py_frame_object"@).len()) + spec_field_line("f_back"@, o1.py_frame_object_f_back as int).len()) + spec_field_line("f_code"@, o1.py_frame_object_f_code as int).len()) + spec_field_line("f_lineno"@, o1.py_frame_object_f_lineno as int).len()) + spec_field_line("f_localsplus"@, o1.py_frame_object_f_localsplus as int).len()) + spec_section_line("py_code_object"@).len()) + spec_field_line("co_filename"@, o1.py_code_object_co_filename as int).len()), "co_name"@, o1.py_code_object_co_name, o2.py_code_object_co_name);
    lemma_field_line_determined(s, (((((((((((((((((((((((((((((((0int + spec_top_line("major_version"@, o1.major_version as int).len()) + spec_top_line("minor_version"@, o1.minor_version as int).len()) + spec_top_line("patch_version"@, o1.patch_version as int).len()) + spec_section_line("py_object"@).len()) + spec_field_line("ob_type"@, o1.py_object_ob_type as int).len()) + spec_section_line("py_string"@).len()) + spec_field_line("data"@, o1.py_string_data as int).len()) + spec_field_line("size"@, o1.py_string_size as int).len()) + spec_section_line("py_type_object"@).len()) + spec_field_line("tp_name"@, o1.py_type_object_tp_name as int).len()) + spec_section_line("py_thread_state"@).len()) + spec_field_line("interp"@, o1.py_thread_state_interp as int).len()) + spec_field_line("next"@, o1.py_thread_state_next as int).len()) + spec_field_line("frame"@, o1.py_thread_state_frame as int).len()) + spec_field_line("thread_id"@, o1.py_thread_state_thread_id as int).len()) + spec_field_line("native_thread_id"@, o1.py_thread_state_native_thread_id as int).len()) + spec_field_line("cframe"@, o1.py_thread_state_cframe as int).len()) + spec_section_line("py_cframe"@).len()) + spec_field_line("current_frame"@, o1.py_cframe_current_frame as int).len()) + spec_section_line("py_interpreter_state"@).len()) + spec_field_line("tstate_head"@, o1.py_interpreter_state_tstate_head as int).len()) + spec_section_line("py_runtime_state"@).len()) + spec_field_line("interp_main"@, o1.py_runtime_state_interp_main as int).len()) + spec_section_line("py_frame_object"@).len()) + spec_field_line("f_back"@, o1.py_frame_object_f_back as int).len()) + spec_field_line("f_code"@, o1.py_frame_object_f_code as int).len()) + spec_field_line("f_lineno"@, o1.py_frame_object_f_lineno as int).len()) + spec_field_line("f_localsplus"@, o1.py_frame_object_f_localsplus as int).len()) + spec_section_line("py_code_object"@).len()) + spec_field_line("co_filename"@, o1.py_code_object_co_filename as int).len()) + spec_field_line("co_name"@, o1.py_code_object_co_name as int).len()), "co_varnames"@, o1.py_code_object_co_varnames, o2.py_code_object_co_varnames);
    lemma_field_line_determined(s, ((((((((((((((((((((((((((((((((0int + spec_top_line("major_version"@, o1.major_version as int).len()) + spec_top_line("minor_version"@, o1.minor_version as int).len()) + spec_top_line("patch_version"@, o1.patch_version as int).len()) + spec_section_line("py_object"@).len()) + spec_field_line("ob_type"@, o1.py_object_ob_type as int).len()) + spec_section_line("py_string"@).len()) + spec_field_line("data"@, o1.py_string_data as int).len()) + spec_field_line("size"@, o1.py_string_size as int).len()) + spec_section_line("py_type_object"@).len()) + spec_field_line("tp_name"@, o1.py_type_object_tp_name as int).len()) + spec_section_line("py_thread_state"@).len()) + spec_field_line("interp"@, o1.py_thread_state_interp as int).len()) + spec_field_line("next"@, o1.py_thread_state_next as int).len()) + spec_field_line("frame"@, o1.py_thread_state_frame as int).len()) + spec_field_line("thread_id"@, o1.py_thread_state_thread_id as int).len()) + spec_field_line("native_thread_id"@, o1.py_thread_state_native_thread_id as int).len()) + spec_field_line("cframe"@, o1.py_thread_state_cframe as int).len()) + spec_section_line("py_cframe"@).len()) + spec_field_line("current_frame"@, o1.py_cframe_current_frame as int).len()) + spec_section_line("py_interpreter_state"@).len()) + spec_field_line("tstate_head"@, o1.py_interpreter_state_tstate_head as int).len()) + spec_section_line("py_runtime_state"@).len()) + spec_field_line("interp_main"@, o1.py_runtime_state_interp_main as int).len()) + spec_section_line("py_frame_object"@).len()) + spec_field_line("f_back"@, o1.py_frame_object_f_back as int).len()) + spec_field_line("f_code"@, o1.py_frame_object_f_code as int).len()) + spec_field_line("f_lineno"@, o1.py_frame_object_f_lineno as int).len()) + spec_field_line("f_localsplus"@, o1.py_frame_object_f_localsplus as int).len()) + spec_section_line("py_code_object"@).len()) + spec_field_line("co_filename"@, o1.py_code_object_co_filename as int).len()) + spec_field_line("co_name"@, o1.py_code_object_co_name as int).len()) + spec_field_line("co_varnames"@, o1.py_code_object_co_varnames as int).len()), "co_firstlineno"@, o1.py_code_object_co_firstlineno, o2.py_code_object_co_firstlineno);
    lemma_section1_parts(s, (((((((((((((((((((((((((((((((((0int + spec_top_line("major_version"@, o1.major_version as int).len()) + spec_top_line("minor_version"@, o1.minor_version as int).len()) + spec_top_line("patch_version"@, o1.patch_version as int).len()) + spec_section_line("py_object"@).len()) + spec_field_line("ob_type"@, o1.py_object_ob_type as int).len()) + spec_section_line("py_string"@).len()) + spec_field_line("data"@, o1.py_string_data as int).len()) + spec_field_line("size"@, o1.py_string_size as int).len()) + spec_section_line("py_type_object"@).len()) + spec_field_line("tp_name"@, o1.py_type_object_tp_name as int).len()) + spec_section_line("py_thread_state"@).len()) + spec_field_line("interp"@, o1.py_thread_state_interp as int).len()) + spec_field_line("next"@, o1.py_thread_state_next as int).len()) + spec_field_line("frame"@, o1.py_thread_state_frame as int).len()) + spec_field_line("thread_id"@, o1.py_thread_state_thread_id as int).len()) + spec_field_line("native_thread_id"@, o1.py_thread_state_native_thread_id as int).len()) + spec_field_line("cframe"@, o1.py_thread_state_cframe as int).len()) + spec_section_line("py_cframe"@).len()) + spec_field_line("current_frame"@, o1.py_cframe_current_frame as int).len()) + spec_section_line("py_interpreter_state"@).len()) + spec_field_line("tstate_head"@, o1.py_interpreter_state_tstate_head as int).len()) + spec_section_line("py_runtime_state"@).len()) + spec_field_line("interp_main"@, o1.py_runtime_state_interp_main as int).len()) + spec_section_line("py_frame_object"@).len()) + spec_field_line("f_back"@, o1.py_frame_object_f_back as int).len()) + spec_field_line("f_code"@, o1.py_frame_object_f_code as int).len()) + spec_field_line("f_lineno"@, o1.py_frame_object_f_lineno as int).len()) + spec_field_line("f_localsplus"@, o1.py_frame_object_f_localsplus as int).len()) + spec_section_line("py_code_object"@).len()) + spec_field_line("co_filename"@, o1.py_code_object_co_filename as int).len()) + spec_field_line("co_name"@, o1.py_code_object_co_name as int).len()) + spec_field_line("co_varnames"@, o1.py_code_object_co_varnames as int).len()) + spec_field_line("co_firstlineno"@, o1.py_code_object_co_firstlineno as int).len()), "py_tuple_object"@, "ob_item"@, o1.py_tuple_object_ob_item);
    lemma_section1_parts(s, (((((((((((((((((((((((((((((((((0int + spec_top_line("major_version"@, o1.major_version as int).len()) + spec_top_line("minor_version"@, o1.minor_version as int).len()) + spec_top_line("patch_version"@, o1.patch_version as int).len()) + spec_section_line("py_object"@).len()) + spec_field_line("ob_type"@, o1.py_object_ob_type as int).len()) + spec_section_line("py_string"@).len()) + spec_field_line("data"@, o1.py_string_data as int).len()) + spec_field_line("size"@, o1.py_string_size as int).len()) + spec_section_line("py_type_object"@).len()) + spec_field_line("tp_name"@, o1.py_type_object_tp_name as int).len()) + spec_section_line("py_thread_state"@).len()) + spec_field_line("interp"@, o1.py_thread_state_interp as int).len()) + spec_field_line("next"@, o1.py_thread_state_next as int).len()) + spec_field_line("frame"@, o1.py_thread_state_frame as int).len()) + spec_field_line("thread_id"@, o1.py_thread_state_thread_id as int).len()) + spec_field_line("native_thread_id"@, o1.py_thread_state_native_thread_id as int).len()) + spec_field_line("cframe"@, o1.py_thread_state_cframe as int).len()) + spec_section_line("py_cframe"@).len()) + spec_field_line("current_frame"@, o1.py_cframe_current_frame as int).len()) + spec_section_line("py_interpreter_state"@).len()) + spec_field_line("tstate_head"@, o1.py_interpreter_state_tstate_head as int).len()) + spec_section_line("py_runtime_state"@).len()) + spec_field_line("interp_main"@, o1.py_runtime_state_interp_main as int).len()) + spec_section_line("py_frame_object"@).len()) + spec_field_line("f_back"@, o1.py_frame_object_f_back as int).len()) + spec_field_line("f_code"@, o1.py_frame_object_f_code as int).len()) + spec_field_line("f_lineno"@, o1.py_frame_object_f_lineno as int).len()) + spec_field_line("f_localsplus"@, o1.py_frame_object_f_localsplus as int).len()) + spec_section_line("py_code_object"@).len()) + spec_field_line("co_filename"@, o1.py_code_object_co_filename as int).len()) + spec_field_line("co_name"@, o1.py_code_object_co_name as int).len()) + spec_field_line("co_varnames"@, o1.py_code_object_co_varnames as int).len()) + spec_field_line("co_firstlineno"@, o1.py_code_object_co_firstlineno as int).len()), "py_tuple_object"@, "ob_item"@, o2.py_tuple_object_ob_item);
    lemma_field_line_determined(s, ((((((((((((((((((((((((((((((((((0int + spec_top_line("major_version"@, o1.major_version as int).len()) + spec_top_line("minor_version"@, o1.minor_version as int).len()) + spec_top_line("patch_version"@, o1.patch_version as int).len()) + spec_section_line("py_object"@).len()) + spec_field_line("ob_type"@, o1.py_object_ob_type as int).len()) + spec_section_line("py_string"@).len()) + spec_field_line("data"@, o1.py_string_data as int).len()) + spec_field_line("size"@, o1.py_string_size as int).len()) + spec_section_line("py_type_object"@).len()) + spec_field_line("tp_name"@, o1.py_type_object_tp_name as int).len()) + spec_section_line("py_thread_state"@).len()) + spec_field_line("interp"@, o1.py_thread_state_interp as int).len()) + spec_field_line("next"@, o1.py_thread_state_next as int).len()) + spec_field_line("frame"@, o1.py_thread_state_frame as int).len()) + spec_field_line("thread_id"@, o1.py_thread_state_thread_id as int).len()) + spec_field_line("native_thread_id"@, o1.py_thread_state_native_thread_id as int).len()) + spec_field_line("cframe"@, o1.py_thread_state_cframe as int).len()) + spec_section_line("py_cframe"@).len()) + spec_field_line("current_frame"@, o1.py_cframe_current_frame as int).len()) + spec_section_line("py_interpreter_state"@).len()) + spec_field_line("tstate_head"@, o1.py_interpreter_state_tstate_head as int).len()) + spec_section_line("py_runtime_state"@).len()) + spec_field_line("interp_main"@, o1.py_runtime_state_interp_main as int).len()) + spec_section_line("py_frame_object"@).len()) + spec_field_line("f_back"@, o1.py_frame_object_f_back as int).len()) + spec_field_line("f_code"@, o1.py_frame_object_f_code as int).len()) + spec_field_line("f_lineno"@, o1.py_frame_object_f_lineno as int).len()) + spec_field_line("f_localsplus"@, o1.py_frame_object_f_localsplus as int).len()) + spec_section_line("py_code_object"@).len()) + spec_field_line("co_filename"@, o1.py_code_object_co_filename as int).len()) + spec_field_line("co_name"@, o1.py_code_object_co_name as int).len()) + spec_field_line("co_varnames"@, o1.py_code_object_co_varnames as int).len()) + spec_field_line("co_firstlineno"@, o1.py_code_object_co_firstlineno as int).len()) + spec_section_line("py_tuple_object"@).len()), "ob_item"@, o1.py_tuple_object_ob_item, o2.py_tuple_object_ob_item);
}

/// Length of the head of a record's canonical text: the version lines
/// and the first three sections.
pub open spec fn spec_head_len(w: VersionOffsets) -> int {
    (spec_top_line("major_version"@, w.major_version as int).len() + spec_top_line("minor_version"@, w.minor_version as int).len() + spec_top_line("patch_version"@, w.patch_version as int).len() + spec_section_line("py_object"@).len() + spec_field_line("ob_type"@, w.py_object_ob_type as int).len() + spec_section_line("py_string"@).len() + spec_field_line("data"@, w.py_string_data as int).len() + spec_field_line("size"@, w.py_string_size as int).len() + spec_section_line("py_type_object"@).len() + spec_field_line("tp_name"@, w.py_type_object_tp_name as int).len()) as int
}

/// Length of the tail of a record's canonical text: the remaining
/// sections.
pub open spec fn spec_tail_len(w: VersionOffsets) -> int {
    (spec_section_line("py_thread_state"@).len() + spec_field_line("interp"@, w.py_thread_state_interp as int).len() + spec_field_line("next"@, w.py_thread_state_next as int).len() + spec_field_line("frame"@, w.py_thread_state_frame as int).len() + spec_field_line("thread_id"@, w.py_thread_state_thread_id as int).len() + spec_field_line("native_thread_id"@, w.py_thread_state_native_thread_id as int).len() + spec_field_line("cframe"@, w.py_thread_state_cframe as int).len() + spec_section_line("py_cframe"@).len() + spec_field_line("current_frame"@, w.py_cframe_current_frame as int).len() + spec_section_line("py_interpreter_state"@).len() + spec_field_line("tstate_head"@, w.py_interpreter_state_tstate_head as int).len() + spec_section_line("py_runtime_state"@).len() + spec_field_line("interp_main"@, w.py_runtime_state_interp_main as int).len() + spec_section_line("py_frame_object"@).len() + spec_field_line("f_back"@, w.py_frame_object_f_back as int).len() + spec_field_line("f_code"@, w.py_frame_object_f_code as int).len() + spec_field_line("f_lineno"@, w.py_frame_object_f_lineno as int).len() + spec_field_line("f_localsplus"@, w.py_frame_object_f_localsplus as int).len() + spec_section_line("py_code_object"@).len() + spec_field_line("co_filename"@, w.py_code_object_co_filename as int).len() + spec_field_line("co_name"@, w.py_code_object_co_name as int).len() + spec_field_line("co_varnames"@, w.py_code_object_co_varnames as int).len() + spec_field_line("co_firstlineno"@, w.py_code_object_co_firstlineno as int).len() + spec_section_line("py_tuple_object"@).len() + spec_field_line("ob_item"@, w.py_tuple_object_ob_item as int).len()) as int
}

/// True when the head of `w`'s canonical text stands at the start of
/// `s`.
#[verifier::opaque]
pub open spec fn head_at(s: Seq<char>, w: VersionOffsets) -> bool {
    &&& top_line_at(s, 0int, "major_version"@, w.major_version as i64)
    &&& top_line_at(s, (0int + spec_top_line("major_version"@, w.major_version as int).len()), "minor_version"@, w.minor_version as i64)
    &&& top_line_at(s, (0int + spec_top_line("major_version"@, w.major_version as int).len() + spec_top_line("minor_version"@, w.minor_version as int).len()), "patch_version"@, w.patch_version as i64)
    &&& section1_at(s, (0int + spec_top_line("major_version"@, w.major_version as int).len() + spec_top_line("minor_version"@, w.minor_version as int).len() + spec_top_line("patch_version"@, w.patch_version as int).len()), "py_object"@, "ob_type"@, w.py_object_ob_type)
    &&& section2_at(s, (0int + spec_top_line("major_version"@, w.major_version as int).len() + spec_top_line("minor_version"@, w.minor_version as int).len() + spec_top_line("patch_version"@, w.patch_version as int).len() + spec_section_line("py_object"@).len() + spec_field_line("ob_type"@, w.py_object_ob_type as int).len()), "py_string"@, "data"@, "size"@, w.py_string_data, w.py_string_size)
    &&& section1_at(s, (0int + spec_top_line("major_version"@, w.major_version as int).len() + spec_top_line("minor_version"@, w.minor_version as int).len() + spec_top_line("patch_version"@, w.patch_version as int).len() + spec_section_line("py_object"@).len() + spec_field_line("ob_type"@, w.py_object_ob_type as int).len() + spec_section_line("py_string"@).len() + spec_field_line("data"@, w.py_string_data as int).len() + spec_field_line("size"@, w.py_string_size as int).len()), "py_type_object"@, "tp_name"@, w.py_type_object_tp_name)
}

/// True when the tail of `w`'s canonical text stands at position `i` of
/// `s`.
#[verifier::opaque]
pub open spec fn tail_at(s: Seq<char>, i: int, w: VersionOffsets) -> bool {
    &&& section6_at(s, i, "py_thread_state"@, "interp"@, "next"@, "frame"@, "thread_id"@, "native_thread_id"@, "cframe"@, w.py_thread_state_interp, w.py_thread_state_next, w.py_thread_state_frame, w.py_thread_state_thread_id, w.py_thread_state_native_thread_id, w.py_thread_state_cframe)
    &&& section1_at(s, (i + spec_section_line("py_thread_state"@).len() + spec_field_line("interp"@, w.py_thread_state_interp as int).len() + spec_field_line("next"@, w.py_thread_state_next as int).len() + spec_field_line("frame"@, w.py_thread_state_frame as int).len() + spec_field_line("thread_id"@, w.py_thread_state_thread_id as int).len() + spec_field_line("native_thread_id"@, w.py_thread_state_native_thread_id as int).len() + spec_field_line("cframe"@, w.py_thread_state_cframe as int).len()), "py_cframe"@, "current_frame"@, w.py_cframe_current_frame)
    &&& section1_at(s, (i + spec_section_line("py_thread_state"@).len() + spec_field_line("interp"@, w.py_thread_state_interp as int).len() + spec_field_line("next"@, w.py_thread_state_next as int).len() + spec_field_line("frame"@, w.py_thread_state_frame as int).len() + spec_field_line("thread_id"@, w.py_thread_state_thread_id as int).len() + spec_field_line("native_thread_id"@, w.py_thread_state_native_thread_id as int).len() + spec_field_line("cframe"@, w.py_thread_state_cframe as int).len() + spec_section_line("py_cframe"@).len() + spec_field_line("current_frame"@, w.py_cframe_current_frame as int).len()), "py_interpreter_state"@, "tstate_head"@, w.py_interpreter_state_tstate_head)
    &&& section1_at(s, (i + spec_section_line("py_thread_state"@).len() + spec_field_line("interp"@, w.py_thread_state_interp as int).len() + spec_field_line("next"@, w.py_thread_state_next as int).len() + spec_field_line("frame"@, w.py_thread_state_frame as int).len() + spec_field_line("thread_id"@, w.py_thread_state_thread_id as int).len() + spec_field_line("native_thread_id"@, w.py_thread_state_native_thread_id as int).len() + spec_field_line("cframe"@, w.py_thread_state_cframe as int).len() + spec_section_line("py_cframe"@).len() + spec_field_line("current_frame"@, w.py_cframe_current_frame as int).len() + spec_section_line("py_interpreter_state"@).len() + spec_field_line("tstate_head"@, w.py_interpreter_state_tstate_head as int).len()), "py_runtime_state"@, "interp_main"@, w.py_runtime_state_interp_main)
    &&& section4_at(s, (i + spec_section_line("py_thread_state"@).len() + spec_field_line("interp"@, w.py_thread_state_interp as int).len() + spec_field_line("next"@, w.py_thread_state_next as int).len() + spec_field_line("frame"@, w.py_thread_state_frame as int).len() + spec_field_line("thread_id"@, w.py_thread_state_thread_id as int).len() + spec_field_line("native_thread_id"@, w.py_thread_state_native_thread_id as int).len() + spec_field_line("cframe"@, w.py_thread_state_cframe as int).len() + spec_section_line("py_cframe"@).len() + spec_field_line("current_frame"@, w.py_cframe_current_frame as int).len() + spec_section_line("py_interpreter_state"@).len() + spec_field_line("tstate_head"@, w.py_interpreter_state_tstate_head as int).len() + spec_section_line("py_runtime_state"@).len() + spec_field_line("interp_main"@, w.py_runtime_state_interp_main as int).len()), "py_frame_object"@, "f_back"@, "f_code"@, "f_lineno"@, "f_localsplus"@, w.py_frame_object_f_back, w.py_frame_object_f_code, w.py_frame_object_f_lineno, w.py_frame_object_f_localsplus)
    &&& section4_at(s, (i + spec_section_line("py_thread_state"@).len() + spec_field_line("interp"@, w.py_thread_state_interp as int).len() + spec_field_line("next"@, w.py_thread_state_next as int).len() + spec_field_line("frame"@, w.py_thread_state_frame as int).len() + spec_field_line("thread_id"@, w.py_thread_state_thread_id as int).len() + spec_field_line("native_thread_id"@, w.py_thread_state_native_thread_id as int).len() + spec_field_line("cframe"@, w.py_thread_state_cframe as int).len() + spec_section_line("py_cframe"@).len() + spec_field_line("current_frame"@, w.py_cframe_current_frame as int).len() + spec_section_line("py_interpreter_state"@).len() + spec_field_line("tstate_head"@, w.py_interpreter_state_tstate_head as int).len() + spec_section_line("py_runtime_state"@).len() + spec_field_line("interp_main"@, w.py_runtime_state_interp_main as int).len() + spec_section_line("py_frame_object"@).len() + spec_field_line("f_back"@, w.py_frame_object_f_back as int).len() + spec_field_line("f_code"@, w.py_frame_object_f_code as int).len() + spec_field_line("f_lineno"@, w.py_frame_object_f_lineno as int).len() + spec_field_line("f_localsplus"@, w.py_frame_object_f_localsplus as int).len()), "py_code_object"@, "co_filename"@, "co_name"@, "co_varnames"@, "co_firstlineno"@, w.py_code_object_co_filename, w.py_code_object_co_name, w.py_code_object_co_varnames, w.py_code_object_co_firstlineno)
    &&& section1_at(s, (i + spec_section_line("py_thread_state"@).len() + spec_field_line("interp"@, w.py_thread_state_interp as int).len() + spec_field_line("next"@, w.py_thread_state_next as int).len() + spec_field_line("frame"@, w.py_thread_state_frame as int).len() + spec_field_line("thread_id"@, w.py_thread_state_thread_id as int).len() + spec_field_line("native_thread_id"@, w.py_thread_state_native_thread_id as int).len() + spec_field_line("cframe"@, w.py_thread_state_cframe as int).len() + spec_section_line("py_cframe"@).len() + spec_field_line("current_frame"@, w.py_cframe_current_frame as int).len() + spec_section_line("py_interpreter_state"@).len() + spec_field_line("tstate_head"@, w.py_interpreter_state_tstate_head as int).len() + spec_section_line("py_runtime_state"@).len() + spec_field_line("interp_main"@, w.py_runtime_state_interp_main as int).len() + spec_section_line("py_frame_object"@).len() + spec_field_line("f_back"@, w.py_frame_object_f_back as int).len() + spec_field_line("f_code"@, w.py_frame_object_f_code as int).len() + spec_field_line("f_lineno"@, w.py_frame_object_f_lineno as int).len() + spec_field_line("f_localsplus"@, w.py_frame_object_f_localsplus as int).len() + spec_section_line("py_code_object"@).len() + spec_field_line("co_filename"@, w.py_code_object_co_filename as int).len() + spec_field_line("co_name"@, w.py_code_object_co_name as int).len() + spec_field_line("co_varnames"@, w.py_code_object_co_varnames as int).len() + spec_field_line("co_firstlineno"@, w.py_code_object_co_firstlineno as int).len()), "py_tuple_object"@, "ob_item"@, w.py_tuple_object_ob_item)
}

proof fn lemma_head_parts(s: Seq<char>, w: VersionOffsets)
    requires
        head_at(s, w),
    ensures
        top_line_at(s, 0int, "major_version"@, w.major_version as i64),
        top_line_at(s, (0int + spec_top_line("major_version"@, w.major_version as int).len()), "minor_version"@, w.minor_version as i64),
        top_line_at(s, (0int + spec_top_line("major_version"@, w.major_version as int).len() + spec_top_line("minor_version"@, w.minor_version as int).len()), "patch_version"@, w.patch_version as i64),
        section1_at(s, (0int + spec_top_line("major_version"@, w.major_version as int).len() + spec_top_line("minor_version"@, w.minor_version as int).len() + spec_top_line("patch_version"@, w.patch_version as int).len()), "py_object"@, "ob_type"@, w.py_object_ob_type),
        section2_at(s, (0int + spec_top_line("major_version"@, w.major_version as int).len() + spec_top_line("minor_version"@, w.minor_version as int).len() + spec_top_line("patch_version"@, w.patch_version as int).len() + spec_section_line("py_object"@).len() + spec_field_line("ob_type"@, w.py_object_ob_type as int).len()), "py_string"@, "data"@, "size"@, w.py_string_data, w.py_string_size),
        section1_at(s, (0int + spec_top_line("major_version"@, w.major_version as int).len() + spec_top_line("minor_version"@, w.minor_version as int).len() + spec_top_line("patch_version"@, w.patch_version as int).len() + spec_section_line("py_object"@).len() + spec_field_line("ob_type"@, w.py_object_ob_type as int).len() + spec_section_line("py_string"@).len() + spec_field_line("data"@, w.py_string_data as int).len() + spec_field_line("size"@, w.py_string_size as int).len()), "py_type_object"@, "tp_name"@, w.py_type_object_tp_name),
{
    reveal(head_at);
}

proof fn lemma_tail_parts(s: Seq<char>, i: int, w: VersionOffsets)
    requires
        tail_at(s, i, w),
    ensures
        section6_at(s, i, "py_thread_state"@, "interp"@, "next"@, "frame"@, "thread_id"@, "native_thread_id"@, "cframe"@, w.py_thread_state_interp, w.py_thread_state_next, w.py_thread_state_frame, w.py_thread_state_thread_id, w.py_thread_state_native_thread_id, w.py_thread_state_cframe),
        section1_at(s, (i + spec_section_line("py_thread_state"@).len() + spec_field_line("interp"@, w.py_thread_state_interp as int).len() + spec_field_line("next"@, w.py_thread_state_next as int).len() + spec_field_line("frame"@, w.py_thread_state_frame as int).len() + spec_field_line("thread_id"@, w.py_thread_state_thread_id as int).len() + spec_field_line("native_thread_id"@, w.py_thread_state_native_thread_id as int).len() + spec_field_line("cframe"@, w.py_thread_state_cframe as int).len()), "py_cframe"@, "current_frame"@, w.py_cframe_current_frame),
        section1_at(s, (i + spec_section_line("py_thread_state"@).len() + spec_field_line("interp"@, w.py_thread_state_interp as int).len() + spec_field_line("next"@, w.py_thread_state_next as int).len() + spec_field_line("frame"@, w.py_thread_state_frame as int).len() + spec_field_line("thread_id"@, w.py_thread_state_thread_id as int).len() + spec_field_line("native_thread_id"@, w.py_thread_state_native_thread_id as int).len() + spec_field_line("cframe"@, w.py_thread_state_cframe as int).len() + spec_section_line("py_cframe"@).len() + spec_field_line("current_frame"@, w.py_cframe_current_frame as int).len()), "py_interpreter_state"@, "tstate_head"@, w.py_interpreter_state_tstate_head),
        section1_at(s, (i + spec_section_line("py_thread_state"@).len() + spec_field_line("interp"@, w.py_thread_state_interp as int).len() + spec_field_line("next"@, w.py_thread_state_next as int).len() + spec_field_line("frame"@, w.py_thread_state_frame as int).len() + spec_field_line("thread_id"@, w.py_thread_state_thread_id as int).len() + spec_field_line("native_thread_id"@, w.py_thread_state_native_thread_id as int).len() + spec_field_line("cframe"@, w.py_thread_state_cframe as int).len() + spec_section_line("py_cframe"@).len() + spec_field_line("current_frame"@, w.py_cframe_current_frame as int).len() + spec_section_line("py_interpreter_state"@).len() + spec_field_line("tstate_head"@, w.py_interpreter_state_tstate_head as int).len()), "py_runtime_state"@, "interp_main"@, w.py_runtime_state_interp_main),
        section4_at(s, (i + spec_section_line("py_thread_state"@).len() + spec_field_line("interp"@, w.py_thread_state_interp as int).len() + spec_field_line("next"@, w.py_thread_state_next as int).len() + spec_field_line("frame"@, w.py_thread_state_frame as int).len() + spec_field_line("thread_id"@, w.py_thread_state_thread_id as int).len() + spec_field_line("native_thread_id"@, w.py_thread_state_native_thread_id as int).len() + spec_field_line("cframe"@, w.py_thread_state_cframe as int).len() + spec_section_line("py_cframe"@).len() + spec_field_line("current_frame"@, w.py_cframe_current_frame as int).len() + spec_section_line("py_interpreter_state"@).len() + spec_field_line("tstate_head"@, w.py_interpreter_state_tstate_head as int).len() + spec_section_line("py_runtime_state"@).len() + spec_field_line("interp_main"@, w.py_runtime_state_interp_main as int).len()), "py_frame_object"@, "f_back"@, "f_code"@, "f_lineno"@, "f_localsplus"@, w.py_frame_object_f_back, w.py_frame_object_f_code, w.py_frame_object_f_lineno, w.py_frame_object_f_localsplus),
        section4_at(s, (i + spec_section_line("py_thread_state"@).len() + spec_field_line("interp"@, w.py_thread_state_interp as int).len() + spec_field_line("next"@, w.py_thread_state_next as int).len() + spec_field_line("frame"@, w.py_thread_state_frame as int).len() + spec_field_line("thread_id"@, w.py_thread_state_thread_id as int).len() + spec_field_line("native_thread_id"@, w.py_thread_state_native_thread_id as int).len() + spec_field_line("cframe"@, w.py_thread_state_cframe as int).len() + spec_section_line("py_cframe"@).len() + spec_field_line("current_frame"@, w.py_cframe_current_frame as int).len() + spec_section_line("py_interpreter_state"@).len() + spec_field_line("tstate_head"@, w.py_interpreter_state_tstate_head as int).len() + spec_section_line("py_runtime_state"@).len() + spec_field_line("interp_main"@, w.py_runtime_state_interp_main as int).len() + spec_section_line("py_frame_object"@).len() + spec_field_line("f_back"@, w.py_frame_object_f_back as int).len() + spec_field_line("f_code"@, w.py_frame_object_f_code as int).len() + spec_field_line("f_lineno"@, w.py_frame_object_f_lineno as int).len() + spec_field_line("f_localsplus"@, w.py_frame_object_f_localsplus as int).len()), "py_code_object"@, "co_filename"@, "co_name"@, "co_varnames"@, "co_firstlineno"@, w.py_code_object_co_filename, w.py_code_object_co_name, w.py_code_object_co_varnames, w.py_code_object_co_firstlineno),
        section1_at(s, (i + spec_section_line("py_thread_state"@).len() + spec_field_line("interp"@, w.py_thread_state_interp as int).len() + spec_field_line("next"@, w.py_thread_state_next as int).len() + spec_field_line("frame"@, w.py_thread_state_frame as int).len() + spec_field_line("thread_id"@, w.py_thread_state_thread_id as int).len() + spec_field_line("native_thread_id"@, w.py_thread_state_native_thread_id as int).len() + spec_field_line("cframe"@, w.py_thread_state_cframe as int).len() + spec_section_line("py_cframe"@).len() + spec_field_line("current_frame"@, w.py_cframe_current_frame as int).len() + spec_section_line("py_interpreter_state"@).len() + spec_field_line("tstate_head"@, w.py_interpreter_state_tstate_head as int).len() + spec_section_line("py_runtime_state"@).len() + spec_field_line("interp_main"@, w.py_runtime_state_interp_main as int).len() + spec_section_line("py_frame_object"@).len() + spec_field_line("f_back"@, w.py_frame_object_f_back as int).len() + spec_field_line("f_code"@, w.py_frame_object_f_code as int).len() + spec_field_line("f_lineno"@, w.py_frame_object_f_lineno as int).len() + spec_field_line("f_localsplus"@, w.py_frame_object_f_localsplus as int).len() + spec_section_line("py_code_object"@).len() + spec_field_line("co_filename"@, w.py_code_object_co_filename as int).len() + spec_field_line("co_name"@, w.py_code_object_co_name as int).len() + spec_field_line("co_varnames"@, w.py_code_object_co_varnames as int).len() + spec_field_line("co_firstlineno"@, w.py_code_object_co_firstlineno as int).len()), "py_tuple_object"@, "ob_item"@, w.py_tuple_object_ob_item),
{
    reveal(tail_at);
}


/// A head match carries over to any record with the same head fields.
proof fn lemma_head_same(s: Seq<char>, a: VersionOffsets, b: VersionOffsets)
    requires
        head_at(s, a),
        same_head(b, a),
    ensures
        head_at(s, b),
        spec_head_len(b) == spec_head_len(a),
{
    reveal(head_at);
}

/// A head match and a tail match covering the whole text compose into
/// the full canonical rendering.
#[verifier::rlimit(100)]
#[verifier::spinoff_prover]
proof fn lemma_render_compose(s: Seq<char>, o: VersionOffsets)
    requires
        head_at(s, o),
        tail_at(s, spec_head_len(o), o),
        s.len() == spec_head_len(o) + spec_tail_len(o),
    ensures
        s == spec_render_config(o),
{
    reveal(head_at);
    reveal(tail_at);
    reveal(top_line_at);
    reveal(section1_at);
    reveal(section2_at);
    reveal(section4_at);
    reveal(section6_at);
    lemma_config_concat(
        s,
        (spec_top_line("major_version"@, o.major_version as int).len()) as int,
        (spec_top_line("major_version"@, o.major_version as int).len() + spec_top_line("minor_version"@, o.minor_version as int).len()) as int,
        (spec_top_line("major_version"@, o.major_version as int).len() + spec_top_line("minor_version"@, o.minor_version as int).len() + spec_top_line("patch_version"@, o.patch_version as int).len()) as int,
        (spec_top_line("major_version"@, o.major_version as int).len() + spec_top_line("minor_version"@, o.minor_version as int).len() + spec_top_line("patch_version"@, o.patch_version as int).len() + spec_section_line("py_object"@).len() + spec_field_line("ob_type"@, o.py_object_ob_type as int).len()) as int,
        (spec_top_line("major_version"@, o.major_version as int).len() + spec_top_line("minor_version"@, o.minor_version as int).len() + spec_top_line("patch_version"@, o.patch_version as int).len() + spec_section_line("py_object"@).len() + spec_field_line("ob_type"@, o.py_object_ob_type as int).len() + spec_section_line("py_string"@).len() + spec_field_line("data"@, o.py_string_data as int).len() + spec_field_line("size"@, o.py_string_size as int).len()) as int,
        (spec_top_line("major_version"@, o.major_version as int).len() + spec_top_line("minor_version"@, o.minor_version as int).len() + spec_top_line("patch_version"@, o.patch_version as int).len() + spec_section_line("py_object"@).len() + spec_field_line("ob_type"@, o.py_object_ob_type as int).len() + spec_section_line("py_string"@).len() + spec_field_line("data"@, o.py_string_data as int).len() + spec_field_line("size"@, o.py_string_size as int).len() + spec_section_line("py_type_object"@).len() + spec_field_line("tp_name"@, o.py_type_object_tp_name as int).len()) as int,
        (spec_top_line("major_version"@, o.major_version as int).len() + spec_top_line("minor_version"@, o.minor_version as int).len() + spec_top_line("patch_version"@, o.patch_version as int).len() + spec_section_line("py_object"@).len() + spec_field_line("ob_type"@, o.py_object_ob_type as int).len() + spec_section_line("py_string"@).len() + spec_field_line("data"@, o.py_string_data as int).len() + spec_field_line("size"@, o.py_string_size as int).len() + spec_section_line("py_type_object"@).len() + spec_field_line("tp_name"@, o.py_type_object_tp_name as int).len() + spec_section_line("py_thread_state"@).len() + spec_field_line("interp"@, o.py_thread_state_interp as int).len() + spec_field_line("next"@, o.py_thread_state_next as int).len() + spec_field_line("frame"@, o.py_thread_state_frame as int).len() + spec_field_line("thread_id"@, o.py_thread_state_thread_id as int).len() + spec_field_line("native_thread_id"@, o.py_thread_state_native_thread_id as int).len() + spec_field_line("cframe"@, o.py_thread_state_cframe as int).len()) as int,
        (spec_top_line("major_version"@, o.major_version as int).len() + spec_top_line("minor_version"@, o.minor_version as int).len() + spec_top_line("patch_version"@, o.patch_version as int).len() + spec_section_line("py_object"@).len() + spec_field_line("ob_type"@, o.py_object_ob_type as int).len() + spec_section_line("py_string"@).len() + spec_field_line("data"@, o.py_string_data as int).len() + spec_field_line("size"@, o.py_string_size as int).len() + spec_section_line("py_type_object"@).len() + spec_field_line("tp_name"@, o.py_type_object_tp_name as int).len() + spec_section_line("py_thread_state"@).len() + spec_field_line("interp"@, o.py_thread_state_interp as int).len() + spec_field_line("next"@, o.py_thread_state_next as int).len() + spec_field_line("frame"@, o.py_thread_state_frame as int).len() + spec_field_line("thread_id"@, o.py_thread_state_thread_id as int).len() + spec_field_line("native_thread_id"@, o.py_thread_state_native_thread_id as int).len() + spec_field_line("cframe"@, o.py_thread_state_cframe as int).len() + spec_section_line("py_cframe"@).len() + spec_field_line("current_frame"@, o.py_cframe_current_frame as int).len()) as int,
        (spec_top_line("major_version"@, o.major_version as int).len() + spec_top_line("minor_version"@, o.minor_version as int).len() + spec_top_line("patch_version"@, o.patch_version as int).len() + spec_section_line("py_object"@).len() + spec_field_line("ob_type"@, o.py_object_ob_type as int).len() + spec_section_line("py_string"@).len() + spec_field_line("data"@, o.py_string_data as int).len() + spec_field_line("size"@, o.py_string_size as int).len() + spec_section_line("py_type_object"@).len() + spec_field_line("tp_name"@, o.py_type_object_tp_name as int).len() + spec_section_line("py_thread_state"@).len() + spec_field_line("interp"@, o.py_thread_state_interp as int).len() + spec_field_line("next"@, o.py_thread_state_next as int).len() + spec_field_line("frame"@, o.py_thread_state_frame as int).len() + spec_field_line("thread_id"@, o.py_thread_state_thread_id as int).len() + spec_field_line("native_thread_id"@, o.py_thread_state_native_thread_id as int).len() + spec_field_line("cframe"@, o.py_thread_state_cframe as int).len() + spec_section_line("py_cframe"@).len() + spec_field_line("current_frame"@, o.py_cframe_current_frame as int).len() + spec_section_line("py_interpreter_state"@).len() + spec_field_line("tstate_head"@, o.py_interpreter_state_tstate_head as int).len()) as int,
        (spec_top_line("major_version"@, o.major_version as int).len() + spec_top_line("minor_version"@, o.minor_version as int).len() + spec_top_line("patch_version"@, o.patch_version as int).len() + spec_section_line("py_object"@).len() + spec_field_line("ob_type"@, o.py_object_ob_type as int).len() + spec_section_line("py_string"@).len() + spec_field_line("data"@, o.py_string_data as int).len() + spec_field_line("size"@, o.py_string_size as int).len() + spec_section_line("py_type_object"@).len() + spec_field_line("tp_name"@, o.py_type_object_tp_name as int).len() + spec_section_line("py_thread_state"@).len() + spec_field_line("interp"@, o.py_thread_state_interp as int).len() + spec_field_line("next"@, o.py_thread_state_next as int).len() + spec_field_line("frame"@, o.py_thread_state_frame as int).len() + spec_field_line("thread_id"@, o.py_thread_state_thread_id as int).len() + spec_field_line("native_thread_id"@, o.py_thread_state_native_thread_id as int).len() + spec_field_line("cframe"@, o.py_thread_state_cframe as int).len() + spec_section_line("py_cframe"@).len() + spec_field_line("current_frame"@, o.py_cframe_current_frame as int).len() + spec_section_line("py_interpreter_state"@).len() + spec_field_line("tstate_head"@, o.py_interpreter_state_tstate_head as int).len() + spec_section_line("py_runtime_state"@).len() + spec_field_line("interp_main"@, o.py_runtime_state_interp_main as int).len()) as int,
        (spec_top_line("major_version"@, o.major_version as int).len() + spec_top_line("minor_version"@, o.minor_version as int).len() + spec_top_line("patch_version"@, o.patch_version as int).len() + spec_section_line("py_object"@).len() + spec_field_line("ob_type"@, o.py_object_ob_type as int).len() + spec_section_line("py_string"@).len() + spec_field_line("data"@, o.py_string_data as int).len() + spec_field_line("size"@, o.py_string_size as int).len() + spec_section_line("py_type_object"@).len() + spec_field_line("tp_name"@, o.py_type_object_tp_name as int).len() + spec_section_line("py_thread_state"@).len() + spec_field_line("interp"@, o.py_thread_state_interp as int).len() + spec_field_line("next"@, o.py_thread_state_next as int).len() + spec_field_line("frame"@, o.py_thread_state_frame as int).len() + spec_field_line("thread_id"@, o.py_thread_state_thread_id as int).len() + spec_field_line("native_thread_id"@, o.py_thread_state_native_thread_id as int).len() + spec_field_line("cframe"@, o.py_thread_state_cframe as int).len() + spec_section_line("py_cframe"@).len() + spec_field_line("current_frame"@, o.py_cframe_current_frame as int).len() + spec_section_line("py_interpreter_state"@).len() + spec_field_line("tstate_head"@, o.py_interpreter_state_tstate_head as int).len() + spec_section_line("py_runtime_state"@).len() + spec_field_line("interp_main"@, o.py_runtime_state_interp_main as int).len() + spec_section_line("py_frame_object"@).len() + spec_field_line("f_back"@, o.py_frame_object_f_back as int).len() + spec_field_line("f_code"@, o.py_frame_object_f_code as int).len() + spec_field_line("f_lineno"@, o.py_frame_object_f_lineno as int).len() + spec_field_line("f_localsplus"@, o.py_frame_object_f_localsplus as int).len()) as int,
        (spec_top_line("major_version"@, o.major_version as int).len() + spec_top_line("minor_version"@, o.minor_version as int).len() + spec_top_line("patch_version"@, o.patch_version as int).len() + spec_section_line("py_object"@).len() + spec_field_line("ob_type"@, o.py_object_ob_type as int).len() + spec_section_line("py_string"@).len() + spec_field_line("data"@, o.py_string_data as int).len() + spec_field_line("size"@, o.py_string_size as int).len() + spec_section_line("py_type_object"@).len() + spec_field_line("tp_name"@, o.py_type_object_tp_name as int).len() + spec_section_line("py_thread_state"@).len() + spec_field_line("interp"@, o.py_thread_state_interp as int).len() + spec_field_line("next"@, o.py_thread_state_next as int).len() + spec_field_line("frame"@, o.py_thread_state_frame as int).len() + spec_field_line("thread_id"@, o.py_thread_state_thread_id as int).len() + spec_field_line("native_thread_id"@, o.py_thread_state_native_thread_id as int).len() + spec_field_line("cframe"@, o.py_thread_state_cframe as int).len() + spec_section_line("py_cframe"@).len() + spec_field_line("current_frame"@, o.py_cframe_current_frame as int).len() + spec_section_line("py_interpreter_state"@).len() + spec_field_line("tstate_head"@, o.py_interpreter_state_tstate_head as int).len() + spec_section_line("py_runtime_state"@).len() + spec_field_line("interp_main"@, o.py_runtime_state_interp_main as int).len() + spec_section_line("py_frame_object"@).len() + spec_field_line("f_back"@, o.py_frame_object_f_back as int).len() + spec_field_line("f_code"@, o.py_frame_object_f_code as int).len() + spec_field_line("f_lineno"@, o.py_frame_object_f_lineno as int).len() + spec_field_line("f_localsplus"@, o.py_frame_object_f_localsplus as int).len() + spec_section_line("py_code_object"@).len() + spec_field_line("co_filename"@, o.py_code_object_co_filename as int).len() + spec_field_line("co_name"@, o.py_code_object_co_name as int).len() + spec_field_line("co_varnames"@, o.py_code_object_co_varnames as int).len() + spec_field_line("co_firstlineno"@, o.py_code_object_co_firstlineno as int).len()) as int,
        (spec_top_line("major_version"@, o.major_version as int).len() + spec_top_line("minor_version"@, o.minor_version as int).len() + spec_top_line("patch_version"@, o.patch_version as int).len() + spec_section_line("py_object"@).len() + spec_field_line("ob_type"@, o.py_object_ob_type as int).len() + spec_section_line("py_string"@).len() + spec_field_line("data"@, o.py_string_data as int).len() + spec_field_line("size"@, o.py_string_size as int).len() + spec_section_line("py_type_object"@).len() + spec_field_line("tp_name"@, o.py_type_object_tp_name as int).len() + spec_section_line("py_thread_state"@).len() + spec_field_line("interp"@, o.py_thread_state_interp as int).len() + spec_field_line("next"@, o.py_thread_state_next as int).len() + spec_field_line("frame"@, o.py_thread_state_frame as int).len() + spec_field_line("thread_id"@, o.py_thread_state_thread_id as int).len() + spec_field_line("native_thread_id"@, o.py_thread_state_native_thread_id as int).len() + spec_field_line("cframe"@, o.py_thread_state_cframe as int).len() + spec_section_line("py_cframe"@).len() + spec_field_line("current_frame"@, o.py_cframe_current_frame as int).len() + spec_section_line("py_interpreter_state"@).len() + spec_field_line("tstate_head"@, o.py_interpreter_state_tstate_head as int).len() + spec_section_line("py_runtime_state"@).len() + spec_field_line("interp_main"@, o.py_runtime_state_interp_main as int).len() + spec_section_line("py_frame_object"@).len() + spec_field_line("f_back"@, o.py_frame_object_f_back as int).len() + spec_field_line("f_code"@, o.py_frame_object_f_code as int).len() + spec_field_line("f_lineno"@, o.py_frame_object_f_lineno as int).len() + spec_field_line("f_localsplus"@, o.py_frame_object_f_localsplus as int).len() + spec_section_line("py_code_object"@).len() + spec_field_line("co_filename"@, o.py_code_object_co_filename as int).len() + spec_field_line("co_name"@, o.py_code_object_co_name as int).len() + spec_field_line("co_varnames"@, o.py_code_object_co_varnames as int).len() + spec_field_line("co_firstlineno"@, o.py_code_object_co_firstlineno as int).len() + spec_section_line("py_tuple_object"@).len() + spec_field_line("ob_item"@, o.py_tuple_object_ob_item as int).len()) as int,
        o,
    );
}


/// The two stages of a record's canonical text: its head at the start, its
/// tail right after, and nothing else.
#[verifier::rlimit(100)]
#[verifier::spinoff_prover]
proof fn lemma_render_stages(s: Seq<char>, o: VersionOffsets)
    requires
        s == spec_render_config(o),
    ensures
        head_at(s, o),
        tail_at(s, spec_head_len(o), o),
        spec_head_len(o) + spec_tail_len(o) == s.len(),
{
    reveal(head_at);
    reveal(tail_at);
    lemma_render_decompose(s, o);
}

/// True when two records agree on the head fields (version words and the
/// first three sections).
pub open spec fn same_head(a: VersionOffsets, b: VersionOffsets) -> bool {
    &&& a.major_version == b.major_version
    &&& a.minor_version == b.minor_version
    &&& a.patch_version == b.patch_version
    &&& a.py_object_ob_type == b.py_object_ob_type
    &&& a.py_string_data == b.py_string_data
    &&& a.py_string_size == b.py_string_size
    &&& a.py_type_object_tp_name == b.py_type_object_tp_name
}

/// Parses the head of a configuration text: the version lines and the
/// first three sections.  The returned record holds the parsed head fields
/// and zeroes elsewhere.  It succeeds exactly where some record's head
/// stands at the start.
#[verifier::rlimit(100)]
#[verifier::spinoff_prover]
fn parse_config_head(s: &Vec<char>) -> (r: Option<(VersionOffsets, usize)>)
    ensures
        r is Some ==> {
            let (h, j) = r.unwrap();
            &&& j <= s@.len()
            &&& head_at(s@, h)
            &&& j == spec_head_len(h)
        },
        forall|w: VersionOffsets|
            #[trigger] head_at(s@, w) ==> (r is Some && same_head(r.unwrap().0, w)
                && r.unwrap().1 == spec_head_len(w)),
{
    proof {
        if exists|w: VersionOffsets| #[trigger] head_at(s@, w) {
            let w0 = choose|w: VersionOffsets| #[trigger] head_at(s@, w);
            lemma_head_parts(s@, w0);
        }
    }
    let (major_version, j1) = match parse_u32_line(s, 0, "major_version") {
        Some(p) => p,
        None => {
            return None;
        },
    };
    let (minor_version, j2) = match parse_u32_line(s, j1, "minor_version") {
        Some(p) => p,
        None => {
            return None;
        },
    };
    let (patch_version, j3) = match parse_u32_line(s, j2, "patch_version") {
        Some(p) => p,
        None => {
            return None;
        },
    };
    let (ob_type, j4) = match parse_section1(s, j3, "py_object", "ob_type") {
        Some(p) => p,
        None => {
            return None;
        },
    };
    let ((str_data, str_size), j5) = match parse_section2(s, j4, "py_string", "data", "size") {
        Some(p) => p,
        None => {
            return None;
        },
    };
    let (tp_name, j6) = match parse_section1(s, j5, "py_type_object", "tp_name") {
        Some(p) => p,
        None => {
            return None;
        },
    };
    let h = VersionOffsets {
        major_version,
        minor_version,
        patch_version,
        py_object_ob_type: ob_type,
        py_string_data: str_data,
        py_string_size: str_size,
        py_type_object_tp_name: tp_name,
        py_thread_state_interp: 0,
        py_thread_state_next: 0,
        py_thread_state_frame: 0,
        py_thread_state_thread_id: 0,
        py_thread_state_native_thread_id: 0,
        py_thread_state_cframe: 0,
        py_cframe_current_frame: 0,
        py_interpreter_state_tstate_head: 0,
        py_runtime_state_interp_main: 0,
        py_frame_object_f_back: 0,
        py_frame_object_f_code: 0,
        py_frame_object_f_lineno: 0,
        py_frame_object_f_localsplus: 0,
        py_code_object_co_filename: 0,
        py_code_object_co_name: 0,
        py_code_object_co_varnames: 0,
        py_code_object_co_firstlineno: 0,
        py_tuple_object_ob_item: 0,
    };
    proof {
        reveal(head_at);
        reveal(top_line_at);
        reveal(section1_at);
        reveal(section2_at);
        assert(head_at(s@, h));
        assert(j6 == spec_head_len(h));
        assert forall|w: VersionOffsets| head_at(s@, w) implies (same_head(h, w) && j6
            == spec_head_len(w)) by {
            lemma_head_parts(s@, w);
        }
    }
    Some((h, j6))
}

/// Seven adjacent section matches assemble into a tail match.
#[verifier::rlimit(100)]
#[verifier::spinoff_prover]
proof fn lemma_tail_intro(
    s: Seq<char>,
    i: int,
    j7: int,
    j8: int,
    j9: int,
    j10: int,
    j11: int,
    j12: int,
    j13: int,
    o: VersionOffsets,
)
    requires
        0 <= i <= j7 <= j8 <= j9 <= j10 <= j11 <= j12 <= j13 <= s.len(),
        s.subrange(i, j7) == spec_section_line("py_thread_state"@) + spec_field_line(
            "interp"@,
            o.py_thread_state_interp as int,
        ) + spec_field_line("next"@, o.py_thread_state_next as int) + spec_field_line(
            "frame"@,
            o.py_thread_state_frame as int,
        ) + spec_field_line("thread_id"@, o.py_thread_state_thread_id as int) + spec_field_line(
            "native_thread_id"@,
            o.py_thread_state_native_thread_id as int,
        ) + spec_field_line("cframe"@, o.py_thread_state_cframe as int),
        s.subrange(j7, j8) == spec_section_line("py_cframe"@) + spec_field_line(
            "current_frame"@,
            o.py_cframe_current_frame as int,
        ),
        s.subrange(j8, j9) == spec_section_line("py_interpreter_state"@) + spec_field_line(
            "tstate_head"@,
            o.py_interpreter_state_tstate_head as int,
        ),
        s.subrange(j9, j10) == spec_section_line("py_runtime_state"@) + spec_field_line(
            "interp_main"@,
            o.py_runtime_state_interp_main as int,
        ),
        s.subrange(j10, j11) == spec_section_line("py_frame_object"@) + spec_field_line(
            "f_back"@,
            o.py_frame_object_f_back as int,
        ) + spec_field_line("f_code"@, o.py_frame_object_f_code as int) + spec_field_line(
            "f_lineno"@,
            o.py_frame_object_f_lineno as int,
        ) + spec_field_line("f_localsplus"@, o.py_frame_object_f_localsplus as int),
        s.subrange(j11, j12) == spec_section_line("py_code_object"@) + spec_field_line(
            "co_filename"@,
            o.py_code_object_co_filename as int,
        ) + spec_field_line("co_name"@, o.py_code_object_co_name as int) + spec_field_line(
            "co_varnames"@,
            o.py_code_object_co_varnames as int,
        ) + spec_field_line("co_firstlineno"@, o.py_code_object_co_firstlineno as int),
        s.subrange(j12, j13) == spec_section_line("py_tuple_object"@) + spec_field_line(
            "ob_item"@,
            o.py_tuple_object_ob_item as int,
        ),
    ensures
        tail_at(s, i, o),
        j13 == i + spec_tail_len(o),
{
    reveal(tail_at);
    reveal(section1_at);
    reveal(section4_at);
    reveal(section6_at);
    assert(section6_at(
        s,
        i,
        "py_thread_state"@,
        "interp"@,
        "next"@,
        "frame"@,
        "thread_id"@,
        "native_thread_id"@,
        "cframe"@,
        o.py_thread_state_interp,
        o.py_thread_state_next,
        o.py_thread_state_frame,
        o.py_thread_state_thread_id,
        o.py_thread_state_native_thread_id,
        o.py_thread_state_cframe,
    ));
    assert(section1_at(s, j7, "py_cframe"@, "current_frame"@, o.py_cframe_current_frame));
    assert(section1_at(
        s,
        j8,
        "py_interpreter_state"@,
        "tstate_head"@,
        o.py_interpreter_state_tstate_head,
    ));
    assert(section1_at(s, j9, "py_runtime_state"@, "interp_main"@, o.py_runtime_state_interp_main));
    assert(section4_at(
        s,
        j10,
        "py_frame_object"@,
        "f_back"@,
        "f_code"@,
        "f_lineno"@,
        "f_localsplus"@,
        o.py_frame_object_f_back,
        o.py_frame_object_f_code,
        o.py_frame_object_f_lineno,
        o.py_frame_object_f_localsplus,
    ));
    assert(section4_at(
        s,
        j11,
        "py_code_object"@,
        "co_filename"@,
        "co_name"@,
        "co_varnames"@,
        "co_firstlineno"@,
        o.py_code_object_co_filename,
        o.py_code_object_co_name,
        o.py_code_object_co_varnames,
        o.py_code_object_co_firstlineno,
    ));
    assert(section1_at(s, j12, "py_tuple_object"@, "ob_item"@, o.py_tuple_object_ob_item));
}

/// Parses the tail of a configuration text at `i`: the remaining seven
/// sections, filled into a copy of `h`.  It succeeds exactly where some
/// record's tail stands at `i`.
#[verifier::rlimit(100)]
#[verifier::spinoff_prover]
fn parse_config_tail(s: &Vec<char>, i: usize, h: VersionOffsets) -> (r: Option<
    (VersionOffsets, usize),
>)
    requires
        i <= s@.len(),
    ensures
        r is Some ==> {
            let (o, j) = r.unwrap();
            &&& j <= s@.len()
            &&& same_head(o, h)
            &&& tail_at(s@, i as int, o)
            &&& j == i + spec_tail_len(o)
        },
        forall|w: VersionOffsets|
            #[trigger] tail_at(s@, i as int, w) ==> (r is Some && {
                let (o, j) = r.unwrap();
                &&& o.py_thread_state_interp == w.py_thread_state_interp
                &&& o.py_thread_state_next == w.py_thread_state_next
                &&& o.py_thread_state_frame == w.py_thread_state_frame
                &&& o.py_thread_state_thread_id == w.py_thread_state_thread_id
                &&& o.py_thread_state_native_thread_id == w.py_thread_state_native_thread_id
                &&& o.py_thread_state_cframe == w.py_thread_state_cframe
                &&& o.py_cframe_current_frame == w.py_cframe_current_frame
                &&& o.py_interpreter_state_tstate_head == w.py_interpreter_state_tstate_head
                &&& o.py_runtime_state_interp_main == w.py_runtime_state_interp_main
                &&& o.py_frame_object_f_back == w.py_frame_object_f_back
                &&& o.py_frame_object_f_code == w.py_frame_object_f_code
                &&& o.py_frame_object_f_lineno == w.py_frame_object_f_lineno
                &&& o.py_frame_object_f_localsplus == w.py_frame_object_f_localsplus
                &&& o.py_code_object_co_filename == w.py_code_object_co_filename
                &&& o.py_code_object_co_name == w.py_code_object_co_name
                &&& o.py_code_object_co_varnames == w.py_code_object_co_varnames
                &&& o.py_code_object_co_firstlineno == w.py_code_object_co_firstlineno
                &&& o.py_tuple_object_ob_item == w.py_tuple_object_ob_item
                &&& j == i + spec_tail_len(w)
            }),
{
    proof {
        if exists|w: VersionOffsets| #[trigger] tail_at(s@, i as int, w) {
            let w0 = choose|w: VersionOffsets| #[trigger] tail_at(s@, i as int, w);
            lemma_tail_parts(s@, i as int, w0);
        }
    }
    let ((ts_interp, ts_next, ts_frame, ts_thread_id, ts_native_thread_id, ts_cframe), j7) =
        match parse_section6(
        s,
        i,
        "py_thread_state",
        "interp",
        "next",
        "frame",
        "thread_id",
        "native_thread_id",
        "cframe",
    ) {
        Some(p) => p,
        None => {
            return None;
        },
    };
    let (current_frame, j8) = match parse_section1(s, j7, "py_cframe", "current_frame") {
        Some(p) => p,
        None => {
            return None;
        },
    };
    let (tstate_head, j9) = match parse_section1(s, j8, "py_interpreter_state", "tstate_head") {
        Some(p) => p,
        None => {
            return None;
        },
    };
    let (interp_main, j10) = match parse_section1(s, j9, "py_runtime_state", "interp_main") {
        Some(p) => p,
        None => {
            return None;
        },
    };
    let ((f_back, f_code, f_lineno, f_localsplus), j11) = match parse_section4(
        s,
        j10,
        "py_frame_object",
        "f_back",
        "f_code",
        "f_lineno",
        "f_localsplus",
    ) {
        Some(p) => p,
        None => {
            return None;
        },
    };
    let ((co_filename, co_name, co_varnames, co_firstlineno), j12) = match parse_section4(
        s,
        j11,
        "py_code_object",
        "co_filename",
        "co_name",
        "co_varnames",
        "co_firstlineno",
    ) {
        Some(p) => p,
        None => {
            return None;
        },
    };
    let (ob_item, j13) = match parse_section1(s, j12, "py_tuple_object", "ob_item") {
        Some(p) => p,
        None => {
            return None;
        },
    };
    let o = VersionOffsets {
        major_version: h.major_version,
        minor_version: h.minor_version,
        patch_version: h.patch_version,
        py_object_ob_type: h.py_object_ob_type,
        py_string_data: h.py_string_data,
        py_string_size: h.py_string_size,
        py_type_object_tp_name: h.py_type_object_tp_name,
        py_thread_state_interp: ts_interp,
        py_thread_state_next: ts_next,
        py_thread_state_frame: ts_frame,
        py_thread_state_thread_id: ts_thread_id,
        py_thread_state_native_thread_id: ts_native_thread_id,
        py_thread_state_cframe: ts_cframe,
        py_cframe_current_frame: current_frame,
        py_interpreter_state_tstate_head: tstate_head,
        py_runtime_state_interp_main: interp_main,
        py_frame_object_f_back: f_back,
        py_frame_object_f_code: f_code,
        py_frame_object_f_lineno: f_lineno,
        py_frame_object_f_localsplus: f_localsplus,
        py_code_object_co_filename: co_filename,
        py_code_object_co_name: co_name,
        py_code_object_co_varnames: co_varnames,
        py_code_object_co_firstlineno: co_firstlineno,
        py_tuple_object_ob_item: ob_item,
    };
    proof {
        lemma_tail_intro(
            s@,
            i as int,
            j7 as int,
            j8 as int,
            j9 as int,
            j10 as int,
            j11 as int,
            j12 as int,
            j13 as int,
            o,
        );
        assert forall|w: VersionOffsets| tail_at(s@, i as int, w) implies {
            &&& o.py_thread_state_interp == w.py_thread_state_interp
            &&& o.py_thread_state_next == w.py_thread_state_next
            &&& o.py_thread_state_frame == w.py_thread_state_frame
            &&& o.py_thread_state_thread_id == w.py_thread_state_thread_id
            &&& o.py_thread_state_native_thread_id == w.py_thread_state_native_thread_id
            &&& o.py_thread_state_cframe == w.py_thread_state_cframe
            &&& o.py_cframe_current_frame == w.py_cframe_current_frame
            &&& o.py_interpreter_state_tstate_head == w.py_interpreter_state_tstate_head
            &&& o.py_runtime_state_interp_main == w.py_runtime_state_interp_main
            &&& o.py_frame_object_f_back == w.py_frame_object_f_back
            &&& o.py_frame_object_f_code == w.py_frame_object_f_code
            &&& o.py_frame_object_f_lineno == w.py_frame_object_f_lineno
            &&& o.py_frame_object_f_localsplus == w.py_frame_object_f_localsplus
            &&& o.py_code_object_co_filename == w.py_code_object_co_filename
            &&& o.py_code_object_co_name == w.py_code_object_co_name
            &&& o.py_code_object_co_varnames == w.py_code_object_co_varnames
            &&& o.py_code_object_co_firstlineno == w.py_code_object_co_firstlineno
            &&& o.py_tuple_object_ob_item == w.py_tuple_object_ob_item
            &&& j13 == i + spec_tail_len(w)
        } by {
            lemma_tail_parts(s@, i as int, w);
        }
    }
    Some((o, j13))
}

/// Parses one whole canonical configuration text.  It succeeds exactly on
/// the canonical renderings: whatever record it returns, the input was that
/// record's canonical text, and whenever the input is some record's
/// canonical text, that record is returned.
#[verifier::rlimit(100)]
#[verifier::spinoff_prover]
pub fn parse_config(s: &Vec<char>) -> (r: Option<VersionOffsets>)
    ensures
        r is Some ==> s@ == spec_render_config(r.unwrap()),
        forall|w: VersionOffsets| s@ == #[trigger] spec_render_config(w) ==> r == Some(w),
{
    proof {
        // If any record's canonical text is before us, fix one such record:
        // its decomposition drives both stages below, so a failing stage
        // refutes the existence outright.
        if exists|w: VersionOffsets| s@ == #[trigger] spec_render_config(w) {
            let w0 = choose|w: VersionOffsets| s@ == #[trigger] spec_render_config(w);
            lemma_render_stages(s@, w0);
        }
    }
    let (h, j6) = match parse_config_head(s) {
        Some(p) => p,
        None => {
            return None;
        },
    };
    let (o, j13) = match parse_config_tail(s, j6, h) {
        Some(p) => p,
        None => {
            return None;
        },
    };
    if j13 != s.len() {
        return None;
    }
    proof {
        lemma_head_same(s@, h, o);
        lemma_render_compose(s@, o);
        assert forall|w: VersionOffsets| s@ == spec_render_config(w) implies o == w by {
            lemma_render_determined(s@, o, w);
        }
    }
    Some(o)
}


/// True when the text is the canonical rendering of some offsets record.
pub open spec fn canonical_config(c: Seq<char>) -> bool {
    exists|o: VersionOffsets| c == #[trigger] spec_render_config(o)
}

/// One catalog row: the enumeration index, the version, and its offsets.
pub struct SupportedVersion {
    pub idx: u32,
    pub version: PyVersion,
    pub offsets: VersionOffsets,
}

/// The read-only catalog of supported Python versions, built once at
/// startup and immutable afterwards.
pub struct SupportedVersions {
    pub versions: Vec<SupportedVersion>,
}

impl SupportedVersions {
    /// Rows are indexed in load order and agree with their offsets record.
    pub open spec fn wf(self) -> bool {
        forall|k: int|
            0 <= k < self.versions@.len() ==> {
                &&& (#[trigger] self.versions@[k]).idx == k
                &&& self.versions@[k].version.major == self.versions@[k].offsets.major_version
                    as u64
                &&& self.versions@[k].version.minor == self.versions@[k].offsets.minor_version
                    as u64
                &&& self.versions@[k].version.patch == self.versions@[k].offsets.patch_version
                    as u64
            }
    }

    /// The canonical lookup keys on offer: the `(major, minor)` pairs.
    pub open spec fn keys(self) -> Set<(int, int)> {
        Set::new(
            |p: (int, int)|
                exists|k: int|
                    0 <= k < self.versions@.len() && (#[trigger] self.versions@[k]).version.major
                        == p.0 && self.versions@[k].version.minor == p.1,
        )
    }

    /// Builds the catalog from the configuration texts.  Success is owed
    /// exactly when every text is a canonical offsets description and the
    /// index space suffices; then every text was the canonical rendering of
    /// its row's offsets, in order.
    pub fn new(configs: &Vec<String>) -> (r: Result<SupportedVersions, CatalogError>)
        ensures
            r is Ok <==> (configs@.len() <= u32::MAX + 1 && forall|k: int|
                0 <= k < configs@.len() ==> canonical_config((#[trigger] configs@[k])@)),
            r == Err::<SupportedVersions, CatalogError>(CatalogError::TooManyConfigs)
                <==> configs@.len() > u32::MAX + 1,
            r == Err::<SupportedVersions, CatalogError>(CatalogError::InvalidConfig) <==> (
            configs@.len() <= u32::MAX + 1 && exists|k: int|
                0 <= k < configs@.len() && !canonical_config((#[trigger] configs@[k])@)),
            r is Ok ==> {
                let c = r.unwrap();
                &&& c.wf()
                &&& c.versions@.len() == configs@.len()
                &&& forall|k: int|
                    0 <= k < configs@.len() ==> (#[trigger] configs@[k])@ == spec_render_config(
                        c.versions@[k].offsets,
                    )
            },
    {
        if configs.len() >= 1 && configs.len() - 1 > u32::MAX as usize {
            return Err(CatalogError::TooManyConfigs);
        }
        let mut versions: Vec<SupportedVersion> = Vec::new();
        let mut k: usize = 0;
        while k < configs.len()
            invariant
                k <= configs@.len(),
                configs@.len() <= u32::MAX + 1,
                versions@.len() == k,
                forall|j: int|
                    0 <= j < k ==> {
                        &&& (#[trigger] versions@[j]).idx == j
                        &&& versions@[j].version.major == versions@[j].offsets.major_version
                            as u64
                        &&& versions@[j].version.minor == versions@[j].offsets.minor_version
                            as u64
                        &&& versions@[j].version.patch == versions@[j].offsets.patch_version
                            as u64
                    },
                forall|j: int|
                    0 <= j < k ==> (#[trigger] configs@[j])@ == spec_render_config(
                        versions@[j].offsets,
                    ),
                forall|j: int| 0 <= j < k ==> canonical_config((#[trigger] configs@[j])@),
            decreases configs@.len() - k,
        {
            let chars = str_chars(configs.get(k).unwrap().as_str());
            let offsets = match parse_config(&chars) {
                Some(o) => o,
                None => {
                    proof {
                        assert(!canonical_config(configs@[k as int]@));
                    }
                    return Err(CatalogError::InvalidConfig);
                },
            };
            proof {
                assert(canonical_config(configs@[k as int]@));
            }
            let version = PyVersion {
                major: offsets.major_version as u64,
                minor: offsets.minor_version as u64,
                patch: offsets.patch_version as u64,
                release_flags: String::new(),
            };
            let row = SupportedVersion { idx: k as u32, version, offsets };
            let ghost snapshot = row;
            let ghost prev = versions@;
            versions.push(row);
            proof {
                assert(versions@[k as int] == snapshot);
                assert forall|j: int| 0 <= j < k + 1 implies {
                    &&& (#[trigger] versions@[j]).idx == j
                    &&& versions@[j].version.major == versions@[j].offsets.major_version as u64
                    &&& versions@[j].version.minor == versions@[j].offsets.minor_version as u64
                    &&& versions@[j].version.patch == versions@[j].offsets.patch_version as u64
                } by {
                    if j < k {
                        assert(versions@[j] == prev[j]);
                    } else {
                        assert(versions@[j] == snapshot);
                        assert(k <= u32::MAX as usize);
                    }
                }
                assert forall|j: int|
                    0 <= j < k + 1 implies (#[trigger] configs@[j])@ == spec_render_config(
                    versions@[j].offsets,
                ) by {
                    if j < k {
                        assert(versions@[j] == prev[j]);
                        assert(configs@[j]@ == spec_render_config(prev[j].offsets));
                    } else {
                        assert(versions@[j] == snapshot);
                        assert(chars@ == configs@[j]@);
                    }
                }
            }
            k = k + 1;
        }
        Ok(SupportedVersions { versions })
    }

    /// Looks a version up by its canonical `(major, minor)` key: the result
    /// exists exactly when the key is on offer.
    pub fn get(&self, version: &PyVersion) -> (r: Option<&SupportedVersion>)
        ensures
            r is Some <==> self.keys().contains(
                (version.major as int, version.minor as int),
            ),
            r is Some ==> {
                let v = *r.unwrap();
                &&& exists|k: int|
                    0 <= k < self.versions@.len() && v == (#[trigger] self.versions@[k])
                &&& v.version.major == version.major
                &&& v.version.minor == version.minor
            },
    {
        let mut k: usize = 0;
        while k < self.versions.len()
            invariant
                k <= self.versions@.len(),
                forall|j: int|
                    0 <= j < k ==> !((#[trigger] self.versions@[j]).version.major == version.major
                        && self.versions@[j].version.minor == version.minor),
            decreases self.versions@.len() - k,
        {
            let row = self.versions.get(k).unwrap();
            if row.version.major == version.major && row.version.minor == version.minor {
                proof {
                    assert(self.keys().contains((version.major as int, version.minor as int)));
                }
                return Some(row);
            }
            k = k + 1;
        }
        proof {
            if self.keys().contains((version.major as int, version.minor as int)) {
                let w = choose|j: int|
                    0 <= j < self.versions@.len() && (#[trigger] self.versions@[j]).version.major
                        == version.major as int && self.versions@[j].version.minor
                        == version.minor as int;
                assert(false);
            }
        }
        None
    }

    /// The canonical `pythonM.N` key of a version.
    pub fn version_string(version: &PyVersion) -> (s: String)
        ensures
            s@ == crate::version::spec_version_key(version.major as nat, version.minor as nat),
    {
        crate::version::version_key_string(version.major, version.minor)
    }
}

} // verus!

