//! Canonical serialized form of a credential record.
//!
//! The store keeps one opaque string blob per record. This module defines
//! that blob's format: a single JSON object with the four record fields in
//! fixed order, `"` and `\` escaped inside field values, no whitespace, and
//! `null` for an absent session token. `decode` accepts exactly the strings
//! that `encode` produces; anything else reads as absent (malformed data is
//! tolerated, not an error).

use crate::credentials::{AwsCredentials, CredView};
use vstd::prelude::*;

verus! {

/// Relies on std's `String::push`: appends the one character to the string.
pub assume_specification[ String::push ](s: &mut String, ch: char)
    ensures
        final(s)@ == old(s)@.push(ch),
;

pub open spec fn lit_akid() -> Seq<char> {
    "{\"access_key_id\":\""@
}

pub open spec fn lit_sak() -> Seq<char> {
    ",\"secret_access_key\":\""@
}

pub open spec fn lit_region() -> Seq<char> {
    ",\"region\":\""@
}

pub open spec fn lit_token() -> Seq<char> {
    ",\"session_token\":"@
}

pub open spec fn lit_q() -> Seq<char> {
    "\""@
}

pub open spec fn lit_null_end() -> Seq<char> {
    "null}"@
}

pub open spec fn lit_close() -> Seq<char> {
    "}"@
}

/// How one character of a field value is written: quote and backslash get a
/// leading backslash, every other character stands for itself.
pub open spec fn esc_char(c: char) -> Seq<char> {
    if c == '"' || c == '\\' {
        seq!['\\', c]
    } else {
        seq![c]
    }
}

/// The escaped form of a whole field value.
pub open spec fn esc(s: Seq<char>) -> Seq<char>
    decreases s.len(),
{
    if s.len() == 0 {
        Seq::empty()
    } else {
        esc_char(s[0]) + esc(s.drop_first())
    }
}

/// The canonical blob for a record.
pub open spec fn spec_encode(c: CredView) -> Seq<char> {
    lit_akid() + esc(c.access_key_id) + lit_q() + lit_sak() + esc(c.secret_access_key) + lit_q()
        + lit_region() + esc(c.region) + lit_q() + lit_token() + (match c.session_token {
        None => lit_null_end(),
        Some(t) => lit_q() + esc(t) + lit_q() + lit_close(),
    })
}

/// Strips `lit` from the front of `s`, or fails.
pub open spec fn parse_lit(s: Seq<char>, lit: Seq<char>) -> Option<Seq<char>> {
    if lit.len() <= s.len() && s.subrange(0, lit.len() as int) == lit {
        Some(s.skip(lit.len() as int))
    } else {
        None
    }
}

/// Reads an escaped field value up to and including its closing quote,
/// returning the unescaped value and the remainder.
pub open spec fn parse_str(s: Seq<char>) -> Option<(Seq<char>, Seq<char>)>
    decreases s.len(),
{
    if s.len() == 0 {
        None
    } else if s[0] == '"' {
        Some((Seq::empty(), s.drop_first()))
    } else if s[0] == '\\' {
        if s.len() >= 2 && (s[1] == '"' || s[1] == '\\') {
            match parse_str(s.skip(2)) {
                Some((f, r)) => Some((seq![s[1]] + f, r)),
                None => None,
            }
        } else {
            None
        }
    } else {
        match parse_str(s.skip(1)) {
            Some((f, r)) => Some((seq![s[0]] + f, r)),
            None => None,
        }
    }
}

/// The records a blob stands for: `Some` exactly on canonical blobs.
pub open spec fn spec_decode(s: Seq<char>) -> Option<CredView> {
    match parse_lit(s, lit_akid()) {
        None => None,
        Some(s1) => match parse_str(s1) {
            None => None,
            Some((akid, s2)) => match parse_lit(s2, lit_sak()) {
                None => None,
                Some(s3) => match parse_str(s3) {
                    None => None,
                    Some((sak, s4)) => match parse_lit(s4, lit_region()) {
                        None => None,
                        Some(s5) => match parse_str(s5) {
                            None => None,
                            Some((region, s6)) => match parse_lit(s6, lit_token()) {
                                None => None,
                                Some(s7) => spec_decode_tail(akid, sak, region, s7),
                            },
                        },
                    },
                },
            },
        },
    }
}

/// The part of `spec_decode` after `"session_token":`.
pub open spec fn spec_decode_tail(
    akid: Seq<char>,
    sak: Seq<char>,
    region: Seq<char>,
    s7: Seq<char>,
) -> Option<CredView> {
    if s7 == lit_null_end() {
        Some(
            CredView {
                access_key_id: akid,
                secret_access_key: sak,
                region: region,
                session_token: None,
            },
        )
    } else {
        match parse_lit(s7, lit_q()) {
            None => None,
            Some(s8) => match parse_str(s8) {
                None => None,
                Some((tok, s9)) => if s9 == lit_close() {
                    Some(
                        CredView {
                            access_key_id: akid,
                            secret_access_key: sak,
                            region: region,
                            session_token: Some(tok),
                        },
                    )
                } else {
                    None
                },
            },
        }
    }
}

/// The view of an optional record.
pub open spec fn opt_cred_view(r: Option<AwsCredentials>) -> Option<CredView> {
    match r {
        Some(c) => Some(c@),
        None => None,
    }
}

pub proof fn lemma_parse_lit_prefix(lit: Seq<char>, rest: Seq<char>)
    ensures
        parse_lit(lit + rest, lit) == Some(rest),
{
    let s = lit + rest;
    assert(s.subrange(0, lit.len() as int) =~= lit);
    assert(s.skip(lit.len() as int) =~= rest);
}

pub proof fn lemma_parse_str_esc(f: Seq<char>, rest: Seq<char>)
    ensures
        parse_str(esc(f) + lit_q() + rest) == Some((f, rest)),
    decreases f.len(),
{
    reveal_strlit("\"");
    let s = esc(f) + lit_q() + rest;
    if f.len() == 0 {
        assert(esc(f) =~= Seq::<char>::empty());
        assert(s =~= lit_q() + rest);
        assert(s[0] == '"');
        assert(s.drop_first() =~= rest);
        assert(parse_str(s) == Some((Seq::<char>::empty(), rest)));
        assert(f =~= Seq::<char>::empty());
    } else {
        let c = f[0];
        let ftl = f.drop_first();
        lemma_parse_str_esc(ftl, rest);
        let s_inner = esc(ftl) + lit_q() + rest;
        if c == '"' || c == '\\' {
            assert(esc(f) =~= seq!['\\', c] + esc(ftl));
            assert(s =~= seq!['\\', c] + s_inner);
            assert(s[0] == '\\');
            assert(s[1] == c);
            assert(s.len() >= 2);
            assert(s.skip(2) =~= s_inner);
            assert(parse_str(s) == Some((seq![c] + ftl, rest)));
            assert(seq![c] + ftl =~= f);
        } else {
            assert(esc(f) =~= seq![c] + esc(ftl));
            assert(s =~= seq![c] + s_inner);
            assert(s[0] == c);
            assert(s.skip(1) =~= s_inner);
            assert(parse_str(s) == Some((seq![c] + ftl, rest)));
            assert(seq![c] + ftl =~= f);
        }
    }
}

/// The codec's round trip: every canonical blob of a record reads back as
/// exactly that record.
pub proof fn lemma_decode_encode(c: CredView)
    ensures
        spec_decode(spec_encode(c)) == Some(c),
{
    let a = c.access_key_id;
    let k = c.secret_access_key;
    let g = c.region;
    let tail: Seq<char> = match c.session_token {
        None => lit_null_end(),
        Some(t) => lit_q() + esc(t) + lit_q() + lit_close(),
    };
    let f = lit_token() + tail;
    let e = esc(g) + lit_q() + f;
    let d = lit_region() + e;
    let b2 = esc(k) + lit_q() + d;
    let b = lit_sak() + b2;
    let a2 = esc(a) + lit_q() + b;
    assert(spec_encode(c) =~= lit_akid() + a2);
    lemma_parse_lit_prefix(lit_akid(), a2);
    assert(parse_lit(spec_encode(c), lit_akid()) == Some(a2));
    lemma_parse_str_esc(a, b);
    assert(parse_str(a2) == Some((a, b)));
    lemma_parse_lit_prefix(lit_sak(), b2);
    assert(parse_lit(b, lit_sak()) == Some(b2));
    lemma_parse_str_esc(k, d);
    assert(parse_str(b2) == Some((k, d)));
    lemma_parse_lit_prefix(lit_region(), e);
    assert(parse_lit(d, lit_region()) == Some(e));
    lemma_parse_str_esc(g, f);
    assert(parse_str(e) == Some((g, f)));
    lemma_parse_lit_prefix(lit_token(), tail);
    assert(parse_lit(f, lit_token()) == Some(tail));
    match c.session_token {
        None => {
            assert(spec_decode_tail(a, k, g, tail) == Some(c));
        },
        Some(t) => {
            reveal_strlit("\"");
            reveal_strlit("null}");
            assert(tail[0] == '"');
            assert(lit_null_end()[0] == 'n');
            assert(tail != lit_null_end());
            let t2 = esc(t) + lit_q() + lit_close();
            assert(tail =~= lit_q() + t2);
            lemma_parse_lit_prefix(lit_q(), t2);
            assert(parse_lit(tail, lit_q()) == Some(t2));
            lemma_parse_str_esc(t, lit_close());
            assert(parse_str(t2) == Some((t, lit_close())));
            assert(spec_decode_tail(a, k, g, tail) == Some(c));
        },
    }
}

proof fn lemma_parse_lit_sound(s: Seq<char>, lit: Seq<char>, r: Seq<char>)
    requires
        parse_lit(s, lit) == Some(r),
    ensures
        s == lit + r,
{
    assert(s =~= s.subrange(0, lit.len() as int) + s.skip(lit.len() as int));
}

proof fn lemma_parse_str_sound(s: Seq<char>, f: Seq<char>, r: Seq<char>)
    requires
        parse_str(s) == Some((f, r)),
    ensures
        s == esc(f) + lit_q() + r,
    decreases s.len(),
{
    reveal_strlit("\"");
    if s[0] == '"' {
        assert(f =~= Seq::<char>::empty());
        assert(esc(f) + lit_q() + r =~= s);
    } else if s[0] == '\\' {
        let (f2, r2) = parse_str(s.skip(2))->0;
        lemma_parse_str_sound(s.skip(2), f2, r2);
        assert(f == seq![s[1]] + f2);
        assert(f[0] == s[1]);
        assert(f.drop_first() =~= f2);
        assert(esc(f) == esc_char(s[1]) + esc(f2));
        assert(esc_char(s[1]) == seq!['\\', s[1]]);
        assert(esc(f) + lit_q() + r =~= seq!['\\', s[1]] + (esc(f2) + lit_q() + r2));
        assert(seq!['\\', s[1]] + s.skip(2) =~= s);
    } else {
        let (f2, r2) = parse_str(s.skip(1))->0;
        lemma_parse_str_sound(s.skip(1), f2, r2);
        assert(f == seq![s[0]] + f2);
        assert(f[0] == s[0]);
        assert(f.drop_first() =~= f2);
        assert(esc(f) == esc_char(s[0]) + esc(f2));
        assert(esc_char(s[0]) == seq![s[0]]);
        assert(esc(f) + lit_q() + r =~= seq![s[0]] + (esc(f2) + lit_q() + r2));
        assert(seq![s[0]] + s.skip(1) =~= s);
    }
}

/// The codec's other direction: only a record's canonical blob reads as
/// that record, so the store can never confuse two records.
#[verifier::rlimit(100)]
pub proof fn lemma_encode_decode(s: Seq<char>, c: CredView)
    requires
        spec_decode(s) == Some(c),
    ensures
        s == spec_encode(c),
{
    let s1 = parse_lit(s, lit_akid())->0;
    lemma_parse_lit_sound(s, lit_akid(), s1);
    let (a, s2) = parse_str(s1)->0;
    lemma_parse_str_sound(s1, a, s2);
    let s3 = parse_lit(s2, lit_sak())->0;
    lemma_parse_lit_sound(s2, lit_sak(), s3);
    let (k, s4) = parse_str(s3)->0;
    lemma_parse_str_sound(s3, k, s4);
    let s5 = parse_lit(s4, lit_region())->0;
    lemma_parse_lit_sound(s4, lit_region(), s5);
    let (g, s6) = parse_str(s5)->0;
    lemma_parse_str_sound(s5, g, s6);
    let s7 = parse_lit(s6, lit_token())->0;
    lemma_parse_lit_sound(s6, lit_token(), s7);
    assert(c.access_key_id == a && c.secret_access_key == k && c.region == g);
    if s7 == lit_null_end() {
        assert(c.session_token is None);
        assert(s =~= spec_encode(c));
    } else {
        let s8 = parse_lit(s7, lit_q())->0;
        lemma_parse_lit_sound(s7, lit_q(), s8);
        let (t, s9) = parse_str(s8)->0;
        lemma_parse_str_sound(s8, t, s9);
        assert(s9 == lit_close());
        assert(c.session_token == Some(t));
        assert(s =~= spec_encode(c));
    }
}

/// Serializes a record into its canonical blob.
pub fn encode(c: &AwsCredentials) -> (s: String)
    ensures
        s@ == spec_encode(c@),
{
    let mut out = String::new();
    out.append("{\"access_key_id\":\"");
    append_escaped(&mut out, &c.access_key_id);
    out.append("\"");
    out.append(",\"secret_access_key\":\"");
    append_escaped(&mut out, &c.secret_access_key);
    out.append("\"");
    out.append(",\"region\":\"");
    append_escaped(&mut out, &c.region);
    out.append("\"");
    out.append(",\"session_token\":");
    match &c.session_token {
        None => {
            out.append("null}");
        },
        Some(t) => {
            out.append("\"");
            append_escaped(&mut out, t);
            out.append("\"");
            out.append("}");
        },
    }
    proof {
        assert(out@ =~= spec_encode(c@));
    }
    out
}

/// Appends the escaped form of `value` to `out`.
fn append_escaped(out: &mut String, value: &String)
    ensures
        final(out)@ == old(out)@ + esc(value@),
{
    let n = value.as_str().unicode_len();
    let mut i: usize = 0;
    while i < n
        invariant
            i <= n,
            n == value@.len(),
            out@ == old(out)@ + esc(value@.take(i as int)),
        decreases n - i,
    {
        let ch = value.as_str().get_char(i);
        if ch == '"' || ch == '\\' {
            out.push('\\');
            out.push(ch);
        } else {
            out.push(ch);
        }
        proof {
            lemma_esc_push(value@.take(i as int), ch);
            assert(value@.take(i as int).push(ch) =~= value@.take(i + 1 as int));
            assert(out@ =~= old(out)@ + esc(value@.take(i + 1 as int)));
        }
        i = i + 1;
    }
    proof {
        assert(value@.take(n as int) =~= value@);
    }
}

proof fn lemma_esc_push(s: Seq<char>, c: char)
    ensures
        esc(s.push(c)) == esc(s) + esc_char(c),
    decreases s.len(),
{
    if s.len() == 0 {
        assert(s.push(c)[0] == c);
        assert(s.push(c).drop_first() =~= Seq::<char>::empty());
        assert(esc(s.push(c)) =~= esc_char(c) + esc(Seq::<char>::empty()));
        assert(esc_char(c) + Seq::<char>::empty() =~= esc_char(c));
        assert(esc(s) =~= Seq::<char>::empty());
        assert(Seq::<char>::empty() + esc_char(c) =~= esc_char(c));
    } else {
        lemma_esc_push(s.drop_first(), c);
        assert(s.push(c)[0] == s[0]);
        assert(s.push(c).drop_first() =~= s.drop_first().push(c));
        assert(esc(s.push(c)) == esc_char(s[0]) + esc(s.drop_first().push(c)));
        assert(esc_char(s[0]) + (esc(s.drop_first()) + esc_char(c)) =~= (esc_char(s[0]) + esc(
            s.drop_first(),
        )) + esc_char(c));
    }
}

/// The characters of a string slice, in order.
fn chars_of(s: &str) -> (v: Vec<char>)
    ensures
        v@ == s@,
{
    let n = s.unicode_len();
    let mut v: Vec<char> = Vec::new();
    let mut i: usize = 0;
    while i < n
        invariant
            i <= n,
            n == s@.len(),
            v@ == s@.take(i as int),
        decreases n - i,
    {
        v.push(s.get_char(i));
        proof {
            assert(s@.take(i as int).push(s@[i as int]) =~= s@.take(i + 1 as int));
        }
        i = i + 1;
    }
    proof {
        assert(s@.take(n as int) =~= s@);
    }
    v
}

/// A string holding exactly the given characters.
fn string_of(v: &Vec<char>) -> (s: String)
    ensures
        s@ == v@,
{
    let mut s = String::new();
    let mut i: usize = 0;
    while i < v.len()
        invariant
            i <= v@.len(),
            s@ == v@.take(i as int),
        decreases v@.len() - i,
    {
        s.push(v[i]);
        proof {
            assert(v@.take(i as int).push(v@[i as int]) =~= v@.take(i + 1 as int));
        }
        i = i + 1;
    }
    proof {
        assert(v@.take(v@.len() as int) =~= v@);
    }
    s
}

/// Matches `lit` at position `i` of `v`, returning the position after it.
fn expect_lit(v: &Vec<char>, i: usize, lit: &str) -> (r: Option<usize>)
    requires
        i <= v@.len(),
    ensures
        match r {
            Some(j) => i <= j <= v@.len() && parse_lit(v@.skip(i as int), lit@) == Some(
                v@.skip(j as int),
            ),
            None => parse_lit(v@.skip(i as int), lit@) is None,
        },
{
    let n = lit.unicode_len();
    let vn = v.len();
    if n > vn - i {
        return None;
    }
    let mut k: usize = 0;
    while k < n
        invariant
            k <= n,
            n == lit@.len(),
            vn == v@.len(),
            i + n <= vn,
            forall|m: int| 0 <= m < k ==> v@[i + m] == lit@[m],
        decreases n - k,
    {
        if v[i + k] != lit.get_char(k) {
            proof {
                let s = v@.skip(i as int);
                assert(s[k as int] == v@[i + k as int]);
                assert(s.subrange(0, n as int)[k as int] != lit@[k as int]);
            }
            return None;
        }
        k = k + 1;
    }
    proof {
        let s = v@.skip(i as int);
        assert(s.subrange(0, n as int) =~= lit@);
        assert(s.skip(n as int) =~= v@.skip(i + n as int));
    }
    Some(i + n)
}

/// Reads an escaped field value at position `i`, returning the unescaped
/// characters and the position after the closing quote.
fn parse_escaped(v: &Vec<char>, i: usize) -> (r: Option<(Vec<char>, usize)>)
    requires
        i <= v@.len(),
    ensures
        match r {
            Some(p) => i <= p.1 <= v@.len() && parse_str(v@.skip(i as int)) == Some(
                (p.0@, v@.skip(p.1 as int)),
            ),
            None => parse_str(v@.skip(i as int)) is None,
        },
    decreases v@.len() - i,
{
    proof {
        let s = v@.skip(i as int);
        assert(s.len() == v@.len() - i);
        if s.len() > 0 {
            assert(s[0] == v@[i as int]);
        }
    }
    if i >= v.len() {
        return None;
    }
    let c = v[i];
    if c == '"' {
        let empty: Vec<char> = Vec::new();
        proof {
            let s = v@.skip(i as int);
            assert(s.drop_first() =~= v@.skip(i + 1 as int));
            assert(empty@ =~= Seq::<char>::empty());
        }
        return Some((empty, i + 1));
    }
    if c == '\\' {
        if i + 1 < v.len() && (v[i + 1] == '"' || v[i + 1] == '\\') {
            let c2 = v[i + 1];
            proof {
                let s = v@.skip(i as int);
                assert(s[1] == v@[i + 1 as int]);
                assert(s.skip(2) =~= v@.skip(i + 2 as int));
            }
            match parse_escaped(v, i + 2) {
                None => {
                    return None;
                },
                Some((mut fv, j)) => {
                    fv.insert(0, c2);
                    proof {
                        let s = v@.skip(i as int);
                        assert(fv@ =~= seq![s[1]] + fv@.skip(1));
                    }
                    return Some((fv, j));
                },
            }
        } else {
            proof {
                let s = v@.skip(i as int);
                if i + 1 < v@.len() {
                    assert(s[1] == v@[i + 1 as int]);
                }
            }
            return None;
        }
    }
    proof {
        let s = v@.skip(i as int);
        assert(s.skip(1) =~= v@.skip(i + 1 as int));
    }
    match parse_escaped(v, i + 1) {
        None => None,
        Some((mut fv, j)) => {
            fv.insert(0, c);
            proof {
                let s = v@.skip(i as int);
                assert(fv@ =~= seq![s[0]] + fv@.skip(1));
            }
            Some((fv, j))
        },
    }
}

/// Reads a record back from a blob: `Some` exactly on canonical blobs,
/// anything else is treated as absent.
pub fn decode(s: &str) -> (r: Option<AwsCredentials>)
    ensures
        opt_cred_view(r) == spec_decode(s@),
{
    let v = chars_of(s);
    proof {
        assert(v@.skip(0) =~= s@);
    }
    let i1 = match expect_lit(&v, 0, "{\"access_key_id\":\"") {
        None => {
            return None;
        },
        Some(j) => j,
    };
    let (akid, i2) = match parse_escaped(&v, i1) {
        None => {
            return None;
        },
        Some(p) => p,
    };
    let i3 = match expect_lit(&v, i2, ",\"secret_access_key\":\"") {
        None => {
            return None;
        },
        Some(j) => j,
    };
    let (sak, i4) = match parse_escaped(&v, i3) {
        None => {
            return None;
        },
        Some(p) => p,
    };
    let i5 = match expect_lit(&v, i4, ",\"region\":\"") {
        None => {
            return None;
        },
        Some(j) => j,
    };
    let (region, i6) = match parse_escaped(&v, i5) {
        None => {
            return None;
        },
        Some(p) => p,
    };
    let i7 = match expect_lit(&v, i6, ",\"session_token\":") {
        None => {
            return None;
        },
        Some(j) => j,
    };
    let s7 = Ghost(v@.skip(i7 as int));
    match expect_lit(&v, i7, "null}") {
        Some(j) if j == v.len() => {
            proof {
                let l = "null}"@;
                assert(parse_lit(s7@, l) == Some(v@.skip(j as int)));
                assert(l.len() <= s7@.len() && s7@.subrange(0, l.len() as int) == l);
                assert(s7@.skip(l.len() as int) == v@.skip(j as int));
                assert(v@.skip(j as int).len() == 0);
                assert(s7@.len() == l.len());
                assert(s7@ =~= l);
                assert(s7@ == lit_null_end());
            }
            return Some(
                AwsCredentials {
                    access_key_id: string_of(&akid),
                    secret_access_key: string_of(&sak),
                    region: string_of(&region),
                    session_token: None,
                },
            );
        },
        r => {
            proof {
                match r {
                    Some(j) => {
                        assert(s7@.skip("null}"@.len() as int).len() == s7@.len()
                            - "null}"@.len());
                        assert(j < v@.len());
                        assert(s7@ != lit_null_end());
                    },
                    None => {
                        if s7@ == lit_null_end() {
                            assert(s7@.subrange(0, "null}"@.len() as int) =~= "null}"@);
                            assert(false);
                        }
                    },
                }
            }
        },
    }
    let i8 = match expect_lit(&v, i7, "\"") {
        None => {
            return None;
        },
        Some(j) => j,
    };
    let (tok, i9) = match parse_escaped(&v, i8) {
        None => {
            return None;
        },
        Some(p) => p,
    };
    let s9 = Ghost(v@.skip(i9 as int));
    match expect_lit(&v, i9, "}") {
        Some(j) if j == v.len() => {
            proof {
                let l = "}"@;
                assert(parse_lit(s9@, l) == Some(v@.skip(j as int)));
                assert(l.len() <= s9@.len() && s9@.subrange(0, l.len() as int) == l);
                assert(s9@.skip(l.len() as int) == v@.skip(j as int));
                assert(v@.skip(j as int).len() == 0);
                assert(s9@.len() == l.len());
                assert(s9@ =~= l);
                assert(s9@ == lit_close());
            }
            Some(
                AwsCredentials {
                    access_key_id: string_of(&akid),
                    secret_access_key: string_of(&sak),
                    region: string_of(&region),
                    session_token: Some(string_of(&tok)),
                },
            )
        },
        r => {
            proof {
                reveal_strlit("}");
                match r {
                    Some(j) => {
                        assert(s9@.skip("}"@.len() as int).len() == s9@.len() - "}"@.len());
                        assert(j < v@.len());
                        assert(s9@ != lit_close());
                    },
                    None => {
                        if s9@ == lit_close() {
                            assert(s9@.subrange(0, "}"@.len() as int) =~= "}"@);
                            assert(false);
                        }
                    },
                }
            }
            None
        },
    }
}

} // verus!
