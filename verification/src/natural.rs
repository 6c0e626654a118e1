//! Locale-aware natural (numeric-substring-respecting) string ordering, used
//! as the tie-breaking order of every ranked result list.
//!
//! Each string is first turned into its lexical stream — lowercased and,
//! where a character is non-ASCII alphanumeric, transliterated to ASCII.
//! That per-character mapping rests on large static tables and stays behind
//! a trusted item. The comparison of the two streams — character by
//! character, with runs of ASCII digits compared as numbers (a longer run is
//! larger; equal-length runs compare digit by digit) and a byte-order
//! tie-break on the original strings — is specified and verified here, so it
//! is total: unlike an accumulator, it cannot overflow on long digit runs.

use vstd::prelude::*;
use vstd::string::StrSliceExecFns;

verus! {

/// The lexical stream of a string: each character lowercased and, when it is
/// a non-ASCII alphanumeric character, transliterated to one or more ASCII
/// characters by fixed tables. A function of the string alone.
pub uninterp spec fn lexical_of(s: Seq<char>) -> Seq<char>;

/// Relies on lexical_sort::iter::iterate_lexical: it yields the lowercased,
/// table-transliterated characters of the string, in order, and is a
/// function of the string alone.
#[verifier::external_body]
fn lexical_stream(s: &str) -> (r: Vec<char>)
    ensures
        r@ == lexical_of(s@),
{
    lexical_sort::iter::iterate_lexical(s).collect()
}

/// Is the character alphanumeric in the Unicode sense? A property of the
/// character alone, decided by the Unicode category tables.
pub uninterp spec fn char_alnum(c: char) -> bool;

/// Relies on char::is_alphanumeric: it tests the Unicode Alphabetic
/// property and the Nd, Nl and No general categories of the character alone.
#[verifier::external_body]
fn is_alnum(c: char) -> (r: bool)
    ensures
        r == char_alnum(c),
{
    c.is_alphanumeric()
}

/// An ASCII digit.
pub open spec fn ascii_digit(c: char) -> bool {
    ('0' as u32) <= (c as u32) && (c as u32) <= ('9' as u32)
}

/// Three-way comparison of two digits (or any two characters) by code
/// point.
pub open spec fn digit_diff(x: char, y: char) -> int {
    if x == y {
        0int
    } else if (x as u32) < (y as u32) {
        -1int
    } else {
        1int
    }
}

/// Three-way order of two distinct stream characters: alphanumeric
/// characters sort after all others; within one class, code-point order.
pub open spec fn char_order(x: char, y: char) -> int {
    if char_alnum(x) == char_alnum(y) {
        if (x as u32) < (y as u32) {
            -1int
        } else {
            1int
        }
    } else if char_alnum(x) {
        1int
    } else {
        -1int
    }
}

/// Three-way natural order of two lexical streams: characters compare one
/// by one, except that two ASCII digits open a digit-run comparison.
pub open spec fn natural_order(a: Seq<char>, b: Seq<char>) -> int
    decreases a.len() + b.len(), 0int,
{
    if a.len() == 0 && b.len() == 0 {
        0int
    } else if a.len() == 0 {
        -1int
    } else if b.len() == 0 {
        1int
    } else if ascii_digit(a[0]) && ascii_digit(b[0]) {
        digit_cmp(a.drop_first(), b.drop_first(), digit_diff(a[0], b[0]))
    } else if a[0] != b[0] {
        char_order(a[0], b[0])
    } else {
        natural_order(a.drop_first(), b.drop_first())
    }
}

/// Three-way order while both streams are inside a digit run, with `d` the
/// first digit difference seen so far: the run that goes on longer is the
/// larger number; runs of equal length compare by their first differing
/// digit; equal runs fall back to the natural order of the remainders.
pub open spec fn digit_cmp(a: Seq<char>, b: Seq<char>, d: int) -> int
    decreases a.len() + b.len(), 1int,
{
    let da = a.len() > 0 && ascii_digit(a[0]);
    let db = b.len() > 0 && ascii_digit(b[0]);
    if da && db {
        digit_cmp(
            a.drop_first(),
            b.drop_first(),
            if d != 0 {
                d
            } else {
                digit_diff(a[0], b[0])
            },
        )
    } else if da {
        1int
    } else if db {
        -1int
    } else if d != 0 {
        d
    } else {
        natural_order(a, b)
    }
}

/// Three-way lexicographic order of two byte strings.
pub open spec fn byte_order(a: Seq<u8>, b: Seq<u8>) -> int
    decreases a.len(),
{
    if a.len() == 0 && b.len() == 0 {
        0int
    } else if a.len() == 0 {
        -1int
    } else if b.len() == 0 {
        1int
    } else if a[0] < b[0] {
        -1int
    } else if a[0] > b[0] {
        1int
    } else {
        byte_order(a.drop_first(), b.drop_first())
    }
}

/// Three-way outcome of the natural lexical comparison of two character
/// sequences: negative when the first sorts earlier, zero when the
/// comparison ties, positive when the first sorts later. The lexical
/// streams decide; streams that tie fall back to the byte order of the
/// original strings.
pub open spec fn natural_cmp(a: Seq<char>, b: Seq<char>) -> int {
    let c = natural_order(lexical_of(a), lexical_of(b));
    if c != 0 {
        c
    } else {
        byte_order(vstd::utf8::encode_utf8(a), vstd::utf8::encode_utf8(b))
    }
}

/// Swapping the digits reverses their comparison.
proof fn lemma_digit_diff_antisym(x: char, y: char)
    ensures
        digit_diff(y, x) == -digit_diff(x, y),
{
}

/// Swapping two distinct characters reverses their order.
proof fn lemma_char_order_antisym(x: char, y: char)
    requires
        x != y,
    ensures
        char_order(y, x) == -char_order(x, y),
{
    assert((x as u32) != (y as u32));
}

/// Swapping the streams reverses the natural order.
proof fn lemma_natural_order_antisym(a: Seq<char>, b: Seq<char>)
    ensures
        natural_order(b, a) == -natural_order(a, b),
    decreases a.len() + b.len(), 0int,
{
    if a.len() > 0 && b.len() > 0 {
        if ascii_digit(a[0]) && ascii_digit(b[0]) {
            lemma_digit_diff_antisym(a[0], b[0]);
            lemma_digit_cmp_antisym(a.drop_first(), b.drop_first(), digit_diff(a[0], b[0]));
        } else if a[0] != b[0] {
            lemma_char_order_antisym(a[0], b[0]);
        } else {
            lemma_natural_order_antisym(a.drop_first(), b.drop_first());
        }
    }
}

/// Swapping the streams (and the pending digit verdict) reverses the
/// digit-run comparison.
proof fn lemma_digit_cmp_antisym(a: Seq<char>, b: Seq<char>, d: int)
    ensures
        digit_cmp(b, a, -d) == -digit_cmp(a, b, d),
    decreases a.len() + b.len(), 1int,
{
    let da = a.len() > 0 && ascii_digit(a[0]);
    let db = b.len() > 0 && ascii_digit(b[0]);
    if da && db {
        let d1 = if d != 0 {
            d
        } else {
            digit_diff(a[0], b[0])
        };
        lemma_digit_diff_antisym(a[0], b[0]);
        lemma_digit_cmp_antisym(a.drop_first(), b.drop_first(), d1);
    } else if !da && !db && d == 0 {
        lemma_natural_order_antisym(a, b);
    }
}

/// Swapping the byte strings reverses the byte order.
proof fn lemma_byte_order_antisym(a: Seq<u8>, b: Seq<u8>)
    ensures
        byte_order(b, a) == -byte_order(a, b),
    decreases a.len(),
{
    if a.len() > 0 && b.len() > 0 && a[0] == b[0] {
        lemma_byte_order_antisym(a.drop_first(), b.drop_first());
    }
}

/// Swapping the strings reverses the natural comparison; in particular a
/// string ties with itself.
pub proof fn lemma_natural_cmp_antisym(a: Seq<char>, b: Seq<char>)
    ensures
        natural_cmp(b, a) == -natural_cmp(a, b),
{
    lemma_natural_order_antisym(lexical_of(a), lexical_of(b));
    lemma_byte_order_antisym(vstd::utf8::encode_utf8(a), vstd::utf8::encode_utf8(b));
}

/// Is the character an ASCII digit?
fn is_ascii_digit_exec(c: char) -> (r: bool)
    ensures
        r == ascii_digit(c),
{
    (c as u32) >= 48 && (c as u32) <= 57
}

/// Three-way comparison of the two lexical streams.
#[verifier::loop_isolation(false)]
fn stream_compare(av: &Vec<char>, bv: &Vec<char>) -> (r: i8)
    ensures
        r as int == natural_order(av@, bv@),
        -1 <= r <= 1,
{
    let n = av.len();
    let m = bv.len();
    let mut i: usize = 0;
    proof {
        assert(av@.skip(0) =~= av@);
        assert(bv@.skip(0) =~= bv@);
    }
    loop
        invariant
            i <= n,
            i <= m,
            natural_order(av@, bv@) == natural_order(av@.skip(i as int), bv@.skip(i as int)),
        decreases n - i,
    {
        let ghost i_entry = i as int;
        proof {
            assert(av@.skip(i as int).len() == n - i);
            assert(bv@.skip(i as int).len() == m - i);
        }
        if i == n && i == m {
            return 0;
        }
        if i == n {
            return -1;
        }
        if i == m {
            return 1;
        }
        let x = av[i];
        let y = bv[i];
        proof {
            assert(av@.skip(i as int)[0] == x);
            assert(bv@.skip(i as int)[0] == y);
        }
        if is_ascii_digit_exec(x) && is_ascii_digit_exec(y) {
            let mut d: i8 = if x == y {
                0
            } else if (x as u32) < (y as u32) {
                -1
            } else {
                1
            };
            proof {
                assert(av@.skip(i as int).drop_first() =~= av@.skip(i + 1));
                assert(bv@.skip(i as int).drop_first() =~= bv@.skip(i + 1));
            }
            i += 1;
            loop
                invariant
                    i_entry < i,
                    i <= n,
                    i <= m,
                    -1 <= d <= 1,
                    natural_order(av@, bv@) == digit_cmp(
                        av@.skip(i as int),
                        bv@.skip(i as int),
                        d as int,
                    ),
                decreases n - i,
            {
                proof {
                    assert(av@.skip(i as int).len() == n - i);
                    assert(bv@.skip(i as int).len() == m - i);
                }
                let run_a = i < n && is_ascii_digit_exec(av[i]);
                let run_b = i < m && is_ascii_digit_exec(bv[i]);
                proof {
                    if i < n {
                        assert(av@.skip(i as int)[0] == av@[i as int]);
                    }
                    if i < m {
                        assert(bv@.skip(i as int)[0] == bv@[i as int]);
                    }
                }
                if run_a && run_b {
                    if d == 0 {
                        let xa = av[i];
                        let yb = bv[i];
                        d = if xa == yb {
                            0
                        } else if (xa as u32) < (yb as u32) {
                            -1
                        } else {
                            1
                        };
                    }
                    proof {
                        assert(av@.skip(i as int).drop_first() =~= av@.skip(i + 1));
                        assert(bv@.skip(i as int).drop_first() =~= bv@.skip(i + 1));
                    }
                    i += 1;
                } else if run_a {
                    return 1;
                } else if run_b {
                    return -1;
                } else if d != 0 {
                    return d;
                } else {
                    break ;
                }
            }
        } else if x != y {
            let xa = is_alnum(x);
            let ya = is_alnum(y);
            if xa == ya {
                if (x as u32) < (y as u32) {
                    return -1;
                } else {
                    return 1;
                }
            } else if xa {
                return 1;
            } else {
                return -1;
            }
        } else {
            proof {
                assert(av@.skip(i as int).drop_first() =~= av@.skip(i + 1));
                assert(bv@.skip(i as int).drop_first() =~= bv@.skip(i + 1));
            }
            i += 1;
        }
    }
}

/// Three-way lexicographic comparison of the UTF-8 bytes of two strings.
#[verifier::loop_isolation(false)]
fn byte_compare(a: &str, b: &str) -> (r: i8)
    ensures
        r as int == byte_order(vstd::utf8::encode_utf8(a@), vstd::utf8::encode_utf8(b@)),
        -1 <= r <= 1,
{
    let av = a.as_bytes_vec();
    let bv = b.as_bytes_vec();
    let n = av.len();
    let m = bv.len();
    let mut i: usize = 0;
    proof {
        assert(av@.skip(0) =~= av@);
        assert(bv@.skip(0) =~= bv@);
    }
    loop
        invariant
            i <= n,
            i <= m,
            byte_order(av@, bv@) == byte_order(av@.skip(i as int), bv@.skip(i as int)),
        decreases n - i,
    {
        proof {
            assert(av@.skip(i as int).len() == n - i);
            assert(bv@.skip(i as int).len() == m - i);
        }
        if i == n && i == m {
            return 0;
        }
        if i == n {
            return -1;
        }
        if i == m {
            return 1;
        }
        proof {
            assert(av@.skip(i as int)[0] == av@[i as int]);
            assert(bv@.skip(i as int)[0] == bv@[i as int]);
        }
        if av[i] < bv[i] {
            return -1;
        }
        if av[i] > bv[i] {
            return 1;
        }
        proof {
            assert(av@.skip(i as int).drop_first() =~= av@.skip(i + 1));
            assert(bv@.skip(i as int).drop_first() =~= bv@.skip(i + 1));
        }
        i += 1;
    }
}

/// Three-way natural comparison of two strings. Total for every pair of
/// strings; swapping the arguments reverses the result.
pub(crate) fn natural_compare(a: &str, b: &str) -> (r: i8)
    ensures
        r as int == natural_cmp(a@, b@),
        natural_cmp(b@, a@) == -(r as int),
        -1 <= r <= 1,
{
    let av = lexical_stream(a);
    let bv = lexical_stream(b);
    let c = stream_compare(&av, &bv);
    let r = if c != 0 {
        c
    } else {
        byte_compare(a, b)
    };
    proof {
        lemma_natural_cmp_antisym(a@, b@);
    }
    r
}

} // verus!

verus! {

} // verus!
