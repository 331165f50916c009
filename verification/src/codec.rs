//! Codec for the W3C-style `traceparent` header: extraction of a trace
//! context from an inbound carrier and injection of a context into an
//! outbound carrier.
//!
//! A well-formed value has the shape
//! `00-<32 lowercase hex digits>-<16 lowercase hex digits>-<2 lowercase hex digits>`
//! with a non-zero trace id and a non-zero parent span id.  Malformed or
//! absent input yields no context, never an error: requests proceed without
//! an established parent.

use vstd::arithmetic::div_mod::lemma_fundamental_div_mod;
use vstd::arithmetic::power2::{lemma2_to64, lemma_pow2_adds, lemma_pow2_pos, pow2};
use vstd::prelude::*;

verus! {

/// The in-process trace context carried across service boundaries.
#[derive(Clone, Copy, Debug, PartialEq, Eq, Structural)]
pub struct TraceContext {
    pub trace_id: u128,
    pub parent_span_id: u64,
    pub sampled: bool,
}

/// The flat, string-keyed representation of a trace context used on the
/// wire.  The single recognized key is `traceparent`; the field holds its
/// value, if the header is present.
#[derive(Debug)]
pub struct Carrier {
    pub traceparent: Option<String>,
}

/// A context is valid when neither identifier is all-zero.
pub open spec fn valid_context(t: TraceContext) -> bool {
    t.trace_id != 0 && t.parent_span_id != 0
}

pub open spec fn is_lower_hex_digit(c: char) -> bool {
    (48 <= c as int && c as int <= 57) || (97 <= c as int && c as int <= 102)
}

pub open spec fn hex_digit_val(c: char) -> int {
    if 48 <= c as int && c as int <= 57 {
        c as int - 48
    } else if 97 <= c as int && c as int <= 102 {
        c as int - 87
    } else {
        0
    }
}

pub open spec fn hex_char(d: int) -> char {
    if d == 0 { '0' }
    else if d == 1 { '1' }
    else if d == 2 { '2' }
    else if d == 3 { '3' }
    else if d == 4 { '4' }
    else if d == 5 { '5' }
    else if d == 6 { '6' }
    else if d == 7 { '7' }
    else if d == 8 { '8' }
    else if d == 9 { '9' }
    else if d == 10 { 'a' }
    else if d == 11 { 'b' }
    else if d == 12 { 'c' }
    else if d == 13 { 'd' }
    else if d == 14 { 'e' }
    else { 'f' }
}

pub open spec fn all_lower_hex(s: Seq<char>) -> bool {
    forall|i: int| 0 <= i < s.len() ==> is_lower_hex_digit(#[trigger] s[i])
}

/// The numeric value of a big-endian sequence of hex digits.
pub open spec fn hex_val(s: Seq<char>) -> int
    decreases s.len(),
{
    if s.len() == 0 {
        0
    } else {
        hex_val(s.drop_last()) * 16 + hex_digit_val(s.last())
    }
}

/// The big-endian rendering of the low `4 * n` bits of `v` as `n` lowercase
/// hex digits.
pub open spec fn to_hex(v: int, n: nat) -> Seq<char>
    decreases n,
{
    if n == 0 {
        Seq::empty()
    } else {
        to_hex(v / 16, (n - 1) as nat).push(hex_char(v % 16))
    }
}

pub open spec fn well_formed_traceparent(s: Seq<char>) -> bool {
    &&& s.len() == 55
    &&& s[0] == '0'
    &&& s[1] == '0'
    &&& s[2] == '-'
    &&& s[35] == '-'
    &&& s[52] == '-'
    &&& all_lower_hex(s.subrange(3, 35))
    &&& all_lower_hex(s.subrange(36, 52))
    &&& all_lower_hex(s.subrange(53, 55))
    &&& hex_val(s.subrange(3, 35)) != 0
    &&& hex_val(s.subrange(36, 52)) != 0
}

/// What extraction of a single `traceparent` value means.
pub open spec fn parse_traceparent(s: Seq<char>) -> Option<TraceContext> {
    if well_formed_traceparent(s) {
        Some(TraceContext {
            trace_id: hex_val(s.subrange(3, 35)) as u128,
            parent_span_id: hex_val(s.subrange(36, 52)) as u64,
            sampled: hex_val(s.subrange(53, 55)) % 2 == 1,
        })
    } else {
        None
    }
}

/// What injection of a context into a fresh carrier value means.  The
/// sampling flag is normalized: the flags byte is `01` when sampled and
/// `00` when not.
pub open spec fn format_traceparent(t: TraceContext) -> Seq<char> {
    seq!['0', '0', '-'] + to_hex(t.trace_id as int, 32) + seq!['-']
        + to_hex(t.parent_span_id as int, 16) + seq!['-']
        + seq!['0', if t.sampled { '1' } else { '0' }]
}

/// What extraction from a whole carrier means: absence of the header is no
/// context, as is a malformed value.
pub open spec fn extract_spec(c: Carrier) -> Option<TraceContext> {
    match c.traceparent {
        Some(s) => parse_traceparent(s@),
        None => None,
    }
}

pub proof fn lemma_pow2_128()
    ensures
        pow2(128) == 0x100000000000000000000000000000000,
{
    lemma2_to64();
    vstd::arithmetic::power2::lemma2_to64_rest();
    lemma_pow2_adds(64, 64);
    assert(0x10000000000000000int * 0x10000000000000000int
        == 0x100000000000000000000000000000000int) by (nonlinear_arith);
}

/// A sequence of `n` hex digits denotes a value below `pow2(4 * n)`.
pub proof fn lemma_hex_val_bound(s: Seq<char>)
    requires
        all_lower_hex(s),
    ensures
        0 <= hex_val(s) < pow2(4 * s.len()),
    decreases s.len(),
{
    if s.len() == 0 {
        lemma_pow2_pos(0);
        assert(pow2(0) >= 1) by { lemma2_to64(); }
    } else {
        let prefix = s.drop_last();
        assert(all_lower_hex(prefix)) by {
            assert(forall|i: int| 0 <= i < prefix.len() ==> prefix[i] == s[i]);
        }
        lemma_hex_val_bound(prefix);
        lemma_pow2_adds(4 * prefix.len(), 4);
        assert(pow2(4) == 16) by { lemma2_to64(); }
        assert(is_lower_hex_digit(s.last()));
        assert(0 <= hex_digit_val(s.last()) <= 15);
        assert(hex_val(s) == hex_val(prefix) * 16 + hex_digit_val(s.last()));
        assert(hex_val(prefix) * 16 + 15 < pow2(4 * prefix.len()) * 16) by {
            assert(hex_val(prefix) < pow2(4 * prefix.len()));
            assert(hex_val(prefix) * 16 <= (pow2(4 * prefix.len()) - 1) * 16)
                by (nonlinear_arith)
                requires hex_val(prefix) <= pow2(4 * prefix.len()) - 1;
        }
        assert(pow2(4 * prefix.len()) * 16 == pow2(4 * s.len()));
    }
}

/// Rendering `n` hex digits of a value below `pow2(4 * n)` gives `n`
/// lowercase hex digits that denote the value again.
pub proof fn lemma_to_hex_props(v: int, n: nat)
    requires
        0 <= v < pow2(4 * n),
    ensures
        to_hex(v, n).len() == n,
        all_lower_hex(to_hex(v, n)),
        hex_val(to_hex(v, n)) == v,
    decreases n,
{
    if n == 0 {
        assert(pow2(0) == 1) by { lemma2_to64(); }
    } else {
        lemma_pow2_adds(4 * (n - 1) as nat, 4);
        assert(pow2(4) == 16) by { lemma2_to64(); }
        lemma_fundamental_div_mod(v, 16);
        assert(v / 16 < pow2(4 * (n - 1) as nat)) by {
            assert(pow2(4 * n) == pow2(4 * (n - 1) as nat) * 16);
            assert(v < pow2(4 * (n - 1) as nat) * 16 && v == 16 * (v / 16) + v % 16
                && 0 <= v % 16 < 16 ==> v / 16 < pow2(4 * (n - 1) as nat))
                by (nonlinear_arith);
        }
        lemma_to_hex_props(v / 16, (n - 1) as nat);
        let d = v % 16;
        let prefix = to_hex(v / 16, (n - 1) as nat);
        let whole = to_hex(v, n);
        assert(whole == prefix.push(hex_char(d)));
        assert(is_lower_hex_digit(hex_char(d)));
        assert(hex_digit_val(hex_char(d)) == d);
        assert(whole.drop_last() =~= prefix);
        assert(whole.last() == hex_char(d));
        assert(hex_val(whole) == hex_val(prefix) * 16 + d);
        assert(forall|i: int| 0 <= i < whole.len() ==> is_lower_hex_digit(#[trigger] whole[i]))
            by {
            assert(forall|i: int| 0 <= i < prefix.len() ==> #[trigger] whole[i] == prefix[i]);
            assert(whole[whole.len() - 1] == hex_char(d));
        }
    }
}

pub proof fn lemma_pow2_le(a: nat, b: nat)
    requires
        a <= b,
    ensures
        pow2(a) <= pow2(b),
{
    lemma_pow2_adds(a, (b - a) as nat);
    lemma_pow2_pos((b - a) as nat);
    assert(pow2(a) * pow2((b - a) as nat) >= pow2(a) * 1) by (nonlinear_arith)
        requires pow2((b - a) as nat) >= 1, pow2(a) >= 0;
}

/// Appending one more hex digit keeps the value below the grown bound.
proof fn lemma_hex_accum(hv: int, d: int, k: nat)
    requires
        0 <= hv < pow2(4 * k),
        0 <= d < 16,
    ensures
        0 <= hv * 16 + d < pow2(4 * (k + 1)),
{
    lemma_pow2_adds(4 * k, 4);
    assert(pow2(4) == 16) by { lemma2_to64(); }
    assert(hv * 16 <= (pow2(4 * k) - 1) * 16) by (nonlinear_arith)
        requires hv <= pow2(4 * k) - 1;
}

fn hex_digit_of(c: char) -> (r: Option<u8>)
    ensures
        match r {
            Some(d) => is_lower_hex_digit(c) && d == hex_digit_val(c),
            None => !is_lower_hex_digit(c),
        },
{
    let u = c as u32;
    if 48 <= u && u <= 57 {
        Some((u - 48) as u8)
    } else if 97 <= u && u <= 102 {
        Some((u - 87) as u8)
    } else {
        None
    }
}

/// Parses one `traceparent` header value.  Malformed input yields `None`,
/// never an error.
pub fn parse_header(s: &str) -> (r: Option<TraceContext>)
    ensures
        r == parse_traceparent(s@),
{
    let n = s.unicode_len();
    if n != 55 {
        return None;
    }
    if s.get_char(0) != '0' || s.get_char(1) != '0' || s.get_char(2) != '-'
        || s.get_char(35) != '-' || s.get_char(52) != '-' {
        return None;
    }
    proof {
        assert(pow2(0) == 1) by { lemma2_to64(); }
    }
    let mut tid: u128 = 0;
    let mut i: usize = 0;
    while i < 32
        invariant
            i <= 32,
            s@.len() == 55,
            all_lower_hex(s@.subrange(3, 3 + i as int)),
            tid == hex_val(s@.subrange(3, 3 + i as int)),
            tid < pow2((4 * i) as nat),
        decreases 32 - i,
    {
        let c = s.get_char(3 + i);
        match hex_digit_of(c) {
            None => {
                proof {
                    assert(s@.subrange(3, 35)[i as int] == s@[3 + i as int]);
                    assert(!all_lower_hex(s@.subrange(3, 35)));
                }
                return None;
            },
            Some(d) => {
                proof {
                    lemma_hex_accum(tid as int, d as int, i as nat);
                    lemma_pow2_le((4 * (i + 1)) as nat, 128);
                    lemma_pow2_128();
                    let prev = s@.subrange(3, 3 + i as int);
                    let next = s@.subrange(3, 3 + (i + 1) as int);
                    assert(next =~= prev.push(s@[3 + i as int]));
                    assert(next.drop_last() =~= prev);
                    assert(next.last() == s@[3 + i as int]);
                    assert(hex_val(next) == hex_val(prev) * 16 + hex_digit_val(c));
                }
                tid = tid * 16 + (d as u128);
                i = i + 1;
            },
        }
    }
    if tid == 0 {
        proof {
            assert(s@.subrange(3, 3 + 32int) == s@.subrange(3, 35));
        }
        return None;
    }
    proof {
        assert(pow2(0) == 1) by { lemma2_to64(); }
    }
    let mut pid: u64 = 0;
    let mut j: usize = 0;
    while j < 16
        invariant
            j <= 16,
            s@.len() == 55,
            all_lower_hex(s@.subrange(36, 36 + j as int)),
            pid == hex_val(s@.subrange(36, 36 + j as int)),
            pid < pow2((4 * j) as nat),
        decreases 16 - j,
    {
        let c = s.get_char(36 + j);
        match hex_digit_of(c) {
            None => {
                proof {
                    assert(s@.subrange(36, 52)[j as int] == s@[36 + j as int]);
                    assert(!all_lower_hex(s@.subrange(36, 52)));
                }
                return None;
            },
            Some(d) => {
                proof {
                    lemma_hex_accum(pid as int, d as int, j as nat);
                    lemma_pow2_le((4 * (j + 1)) as nat, 64);
                    assert(pow2(64) == 0x10000000000000000) by {
                        vstd::arithmetic::power2::lemma2_to64_rest();
                    }
                    let prev = s@.subrange(36, 36 + j as int);
                    let next = s@.subrange(36, 36 + (j + 1) as int);
                    assert(next =~= prev.push(s@[36 + j as int]));
                    assert(next.drop_last() =~= prev);
                    assert(next.last() == s@[36 + j as int]);
                    assert(hex_val(next) == hex_val(prev) * 16 + hex_digit_val(c));
                }
                pid = pid * 16 + (d as u64);
                j = j + 1;
            },
        }
    }
    if pid == 0 {
        proof {
            assert(s@.subrange(36, 36 + 16int) == s@.subrange(36, 52));
        }
        return None;
    }
    let c0 = s.get_char(53);
    let c1 = s.get_char(54);
    let d0 = match hex_digit_of(c0) {
        None => {
            proof {
                assert(s@.subrange(53, 55)[0] == s@[53]);
                assert(!all_lower_hex(s@.subrange(53, 55)));
            }
            return None;
        },
        Some(d) => d,
    };
    let d1 = match hex_digit_of(c1) {
        None => {
            proof {
                assert(s@.subrange(53, 55)[1] == s@[54]);
                assert(!all_lower_hex(s@.subrange(53, 55)));
            }
            return None;
        },
        Some(d) => d,
    };
    let flags: u8 = d0 * 16 + d1;
    proof {
        let fl = s@.subrange(53, 55);
        let f1 = fl.drop_last();
        assert(fl.len() == 2);
        assert(fl.last() == s@[54]);
        assert(f1.len() == 1);
        assert(f1.last() == fl[0]);
        assert(fl[0] == s@[53]);
        assert(f1.drop_last().len() == 0);
        assert(hex_val(f1.drop_last()) == 0);
        assert(hex_val(f1) == hex_digit_val(s@[53]));
        assert(hex_val(fl) == hex_digit_val(s@[53]) * 16 + hex_digit_val(s@[54]));
        assert(all_lower_hex(fl)) by {
            assert(forall|k: int| 0 <= k < 2 ==> #[trigger] fl[k] == s@[53 + k]);
        }
        assert(s@.subrange(3, 3 + 32int) == s@.subrange(3, 35));
        assert(s@.subrange(36, 36 + 16int) == s@.subrange(36, 52));
        assert(well_formed_traceparent(s@));
    }
    Some(TraceContext { trace_id: tid, parent_span_id: pid, sampled: flags % 2 == 1 })
}

/// Extracts a trace context from an inbound carrier.  Absent or malformed
/// `traceparent` values yield no context; the call never fails.
pub fn extract(c: &Carrier) -> (r: Option<TraceContext>)
    ensures
        r == extract_spec(*c),
{
    match &c.traceparent {
        Some(s) => parse_header(s.as_str()),
        None => None,
    }
}

fn push_hex_digit(s: &mut String, d: u8)
    requires
        d < 16,
    ensures
        final(s)@ == old(s)@.push(hex_char(d as int)),
{
    if d == 0 {
        s.append("0");
        proof { reveal_strlit("0"); assert(old(s)@ + "0"@ =~= old(s)@.push('0')); }
    } else if d == 1 {
        s.append("1");
        proof { reveal_strlit("1"); assert(old(s)@ + "1"@ =~= old(s)@.push('1')); }
    } else if d == 2 {
        s.append("2");
        proof { reveal_strlit("2"); assert(old(s)@ + "2"@ =~= old(s)@.push('2')); }
    } else if d == 3 {
        s.append("3");
        proof { reveal_strlit("3"); assert(old(s)@ + "3"@ =~= old(s)@.push('3')); }
    } else if d == 4 {
        s.append("4");
        proof { reveal_strlit("4"); assert(old(s)@ + "4"@ =~= old(s)@.push('4')); }
    } else if d == 5 {
        s.append("5");
        proof { reveal_strlit("5"); assert(old(s)@ + "5"@ =~= old(s)@.push('5')); }
    } else if d == 6 {
        s.append("6");
        proof { reveal_strlit("6"); assert(old(s)@ + "6"@ =~= old(s)@.push('6')); }
    } else if d == 7 {
        s.append("7");
        proof { reveal_strlit("7"); assert(old(s)@ + "7"@ =~= old(s)@.push('7')); }
    } else if d == 8 {
        s.append("8");
        proof { reveal_strlit("8"); assert(old(s)@ + "8"@ =~= old(s)@.push('8')); }
    } else if d == 9 {
        s.append("9");
        proof { reveal_strlit("9"); assert(old(s)@ + "9"@ =~= old(s)@.push('9')); }
    } else if d == 10 {
        s.append("a");
        proof { reveal_strlit("a"); assert(old(s)@ + "a"@ =~= old(s)@.push('a')); }
    } else if d == 11 {
        s.append("b");
        proof { reveal_strlit("b"); assert(old(s)@ + "b"@ =~= old(s)@.push('b')); }
    } else if d == 12 {
        s.append("c");
        proof { reveal_strlit("c"); assert(old(s)@ + "c"@ =~= old(s)@.push('c')); }
    } else if d == 13 {
        s.append("d");
        proof { reveal_strlit("d"); assert(old(s)@ + "d"@ =~= old(s)@.push('d')); }
    } else if d == 14 {
        s.append("e");
        proof { reveal_strlit("e"); assert(old(s)@ + "e"@ =~= old(s)@.push('e')); }
    } else {
        s.append("f");
        proof { reveal_strlit("f"); assert(old(s)@ + "f"@ =~= old(s)@.push('f')); }
    }
}

/// Appends the big-endian `n`-digit lowercase hex rendering of `v`.
fn push_hex(s: &mut String, v: u128, n: usize)
    requires
        v < pow2(4 * n as nat),
    ensures
        final(s)@ == old(s)@ + to_hex(v as int, n as nat),
    decreases n,
{
    if n == 0 {
        proof {
            assert(to_hex(v as int, 0).len() == 0);
            assert(old(s)@ + to_hex(v as int, 0) =~= old(s)@);
        }
    } else {
        proof {
            lemma_pow2_adds(4 * (n - 1) as nat, 4);
            assert(pow2(4) == 16) by { lemma2_to64(); }
            lemma_fundamental_div_mod(v as int, 16);
            assert((v as int) / 16 < pow2(4 * (n - 1) as nat)) by {
                assert(pow2(4 * n as nat) == pow2(4 * (n - 1) as nat) * 16);
                assert(v < pow2(4 * (n - 1) as nat) * 16
                    && v as int == 16 * ((v as int) / 16) + (v as int) % 16
                    && 0 <= (v as int) % 16 < 16
                    ==> (v as int) / 16 < pow2(4 * (n - 1) as nat)) by (nonlinear_arith);
            }
        }
        push_hex(s, v / 16, n - 1);
        push_hex_digit(s, (v % 16) as u8);
        proof {
            let prefix = to_hex((v / 16) as int, (n - 1) as nat);
            assert(to_hex(v as int, n as nat) == prefix.push(hex_char((v % 16) as int)));
            assert(old(s)@ + prefix.push(hex_char((v % 16) as int))
                =~= (old(s)@ + prefix).push(hex_char((v % 16) as int)));
        }
    }
}

/// Serializes the current context into a fresh one-entry carrier.
pub fn inject(t: &TraceContext) -> (c: Carrier)
    ensures
        match c.traceparent {
            Some(s) => s@ == format_traceparent(*t),
            None => false,
        },
{
    proof {
        lemma_pow2_128();
        assert(pow2(64) == 0x10000000000000000) by {
            vstd::arithmetic::power2::lemma2_to64_rest();
        }
    }
    let mut s = String::from_str("00-");
    push_hex(&mut s, t.trace_id, 32);
    s.append("-");
    push_hex(&mut s, t.parent_span_id as u128, 16);
    s.append("-");
    if t.sampled {
        s.append("01");
    } else {
        s.append("00");
    }
    proof {
        reveal_strlit("00-");
        reveal_strlit("-");
        reveal_strlit("01");
        reveal_strlit("00");
        assert(s@ =~= format_traceparent(*t));
    }
    Carrier { traceparent: Some(s) }
}

/// Malformed or absent `traceparent` input yields no context, never an
/// error: extraction is total, and no aggregation function in this crate
/// places a precondition on the carrier, so the request proceeds — merely
/// without an established parent.
pub proof fn lemma_malformed_yields_no_context(c: Carrier)
    ensures
        match c.traceparent {
            None => extract_spec(c) is None,
            Some(s) => !well_formed_traceparent(s@) ==> extract_spec(c) is None,
        },
{
}

/// Every context that extraction yields is valid: both identifiers are
/// non-zero, so it can be re-injected and recovered.
pub proof fn lemma_parse_gives_valid(s: Seq<char>, t: TraceContext)
    requires
        parse_traceparent(s) == Some(t),
    ensures
        valid_context(t),
{
    assert(well_formed_traceparent(s));
    lemma_hex_val_bound(s.subrange(3, 35));
    lemma_hex_val_bound(s.subrange(36, 52));
    lemma_pow2_128();
    assert(pow2(64) == 0x10000000000000000) by {
        vstd::arithmetic::power2::lemma2_to64_rest();
    }
    assert(pow2(4 * s.subrange(3, 35).len()) == pow2(128));
    assert(pow2(4 * s.subrange(36, 52).len()) == pow2(64));
}

/// Formatting a valid context gives a well-formed header that parses back
/// to the very same context.
pub proof fn lemma_format_parse_round_trip(t: TraceContext)
    requires
        valid_context(t),
    ensures
        well_formed_traceparent(format_traceparent(t)),
        parse_traceparent(format_traceparent(t)) == Some(t),
{
    let f = format_traceparent(t);
    let a = to_hex(t.trace_id as int, 32);
    let b = to_hex(t.parent_span_id as int, 16);
    lemma_pow2_128();
    assert(pow2(64) == 0x10000000000000000) by {
        vstd::arithmetic::power2::lemma2_to64_rest();
    }
    lemma_to_hex_props(t.trace_id as int, 32);
    lemma_to_hex_props(t.parent_span_id as int, 16);
    assert(f.len() == 55);
    assert(f.subrange(3, 35) =~= a) by {
        assert(forall|i: int| 0 <= i < 32 ==> f[3 + i] == #[trigger] a[i]);
    }
    assert(f.subrange(36, 52) =~= b) by {
        assert(forall|i: int| 0 <= i < 16 ==> f[36 + i] == #[trigger] b[i]);
    }
    let fl = f.subrange(53, 55);
    assert(fl =~= seq!['0', if t.sampled { '1' } else { '0' }]);
    assert(all_lower_hex(fl)) by {
        assert(is_lower_hex_digit(fl[0]));
        assert(is_lower_hex_digit(fl[1]));
    }
    let f1 = fl.drop_last();
    assert(f1.len() == 1);
    assert(f1.drop_last().len() == 0);
    assert(hex_val(f1.drop_last()) == 0);
    assert(f1.last() == '0');
    assert(hex_val(f1) == 0);
    assert(hex_val(fl) == if t.sampled { 1int } else { 0int });
    assert(f[0] == '0');
    assert(f[1] == '0');
    assert(f[2] == '-');
    assert(f[35] == '-');
    assert(f[52] == '-');
    assert(well_formed_traceparent(f));
    assert(parse_traceparent(f) == Some(t));
}

/// Round trip through the carrier: when extraction finds a context in a
/// carrier, injecting that context writes a header that extraction maps to
/// the same context again — same trace id, same parent span id, same
/// sampling flag.
pub proof fn lemma_extract_inject_round_trip(c: Carrier, t: TraceContext)
    requires
        extract_spec(c) == Some(t),
    ensures
        valid_context(t),
        parse_traceparent(format_traceparent(t)) == Some(t),
{
    let s = c.traceparent->0;
    lemma_parse_gives_valid(s@, t);
    lemma_format_parse_round_trip(t);
}

} // verus!
