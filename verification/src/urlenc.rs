//! Percent-encoding of URL path segments and query values.
//!
//! Path segments are encoded as the WHATWG URL path-segment set asks:
//! control bytes, space, `"`, `<`, `>`, `` ` ``, `#`, `?`, `{`, `}`, `/`,
//! `%` and every non-ASCII byte become `%XX`. Query values follow the
//! `application/x-www-form-urlencoded` serializer: ASCII alphanumerics and
//! `*`, `-`, `.`, `_` pass through, space becomes `+`, and every other byte
//! becomes `%XX`. Both write uppercase hexadecimal digits.

use vstd::prelude::*;

verus! {

use vstd::utf8::encode_utf8;
use vstd::string::is_ascii;
use vstd::string::is_ascii_spec_bytes;
use crate::strutil::{all_ascii, ascii_bytes};

/// The upper-case hexadecimal digit for a value below sixteen, as a byte.
pub open spec fn hex_upper_digit(n: u8) -> u8
    recommends
        n < 16,
{
    if n < 10 {
        (48 + n) as u8  // '0' + n
    } else {
        (55 + n) as u8  // 'A' + (n - 10)
    }
}

/// The three-byte escape `%XX` of one byte.
pub open spec fn percent_byte(b: u8) -> Seq<u8> {
    seq![37u8, hex_upper_digit(b / 16), hex_upper_digit(b % 16)]
}

/// Whether the form-urlencoded serializer passes a byte through unchanged.
pub open spec fn form_plain(b: u8) -> bool {
    ||| 48 <= b <= 57  // 0-9
    ||| 65 <= b <= 90  // A-Z
    ||| 97 <= b <= 122  // a-z
    ||| b == 42  // *
    ||| b == 45  // -
    ||| b == 46  // .
    ||| b == 95  // _
}

/// What the form-urlencoded serializer writes for one byte.
pub open spec fn form_enc_byte(b: u8) -> Seq<u8> {
    if form_plain(b) {
        seq![b]
    } else if b == 32 {
        seq![43u8]  // space -> '+'
    } else {
        percent_byte(b)
    }
}

/// What the form-urlencoded serializer writes for a byte sequence.
pub open spec fn form_enc(bs: Seq<u8>) -> Seq<u8>
    decreases bs.len(),
{
    if bs.len() == 0 {
        Seq::empty()
    } else {
        form_enc_byte(bs[0]) + form_enc(bs.drop_first())
    }
}

/// Whether the path-segment set passes a byte through unchanged.
pub open spec fn seg_plain(b: u8) -> bool {
    &&& 33 <= b <= 126  // no controls, no space, no DEL, ASCII only
    &&& b != 34  // "
    &&& b != 60  // <
    &&& b != 62  // >
    &&& b != 96  // `
    &&& b != 35  // #
    &&& b != 63  // ?
    &&& b != 123  // {
    &&& b != 125  // }
    &&& b != 47  // /
    &&& b != 37  // %
}

/// What the path-segment encoder writes for one byte.
pub open spec fn seg_enc_byte(b: u8) -> Seq<u8> {
    if seg_plain(b) {
        seq![b]
    } else {
        percent_byte(b)
    }
}

/// What the path-segment encoder writes for a byte sequence.
pub open spec fn seg_enc(bs: Seq<u8>) -> Seq<u8>
    decreases bs.len(),
{
    if bs.len() == 0 {
        Seq::empty()
    } else {
        seg_enc_byte(bs[0]) + seg_enc(bs.drop_first())
    }
}

proof fn lemma_form_enc_push(s: Seq<u8>, x: u8)
    ensures
        form_enc(s.push(x)) == form_enc(s) + form_enc_byte(x),
    decreases s.len(),
{
    if s.len() == 0 {
        assert(s.push(x)[0] == x);
        assert(s.push(x).drop_first() =~= Seq::<u8>::empty());
        assert(form_enc(Seq::<u8>::empty()) == Seq::<u8>::empty());
        assert(form_enc(s) == Seq::<u8>::empty());
        assert(form_enc(s.push(x)) == form_enc_byte(x) + form_enc(Seq::<u8>::empty()));
        assert(form_enc(s.push(x)) =~= form_enc(s) + form_enc_byte(x));
    } else {
        assert(s.push(x)[0] == s[0]);
        assert(s.push(x).drop_first() =~= s.drop_first().push(x));
        lemma_form_enc_push(s.drop_first(), x);
        assert(form_enc_byte(s[0]) + (form_enc(s.drop_first()) + form_enc_byte(x)) =~= (
        form_enc_byte(s[0]) + form_enc(s.drop_first())) + form_enc_byte(x));
    }
}

proof fn lemma_seg_enc_push(s: Seq<u8>, x: u8)
    ensures
        seg_enc(s.push(x)) == seg_enc(s) + seg_enc_byte(x),
    decreases s.len(),
{
    if s.len() == 0 {
        assert(s.push(x)[0] == x);
        assert(s.push(x).drop_first() =~= Seq::<u8>::empty());
        assert(seg_enc(Seq::<u8>::empty()) == Seq::<u8>::empty());
        assert(seg_enc(s) == Seq::<u8>::empty());
        assert(seg_enc(s.push(x)) == seg_enc_byte(x) + seg_enc(Seq::<u8>::empty()));
        assert(seg_enc(s.push(x)) =~= seg_enc(s) + seg_enc_byte(x));
    } else {
        assert(s.push(x)[0] == s[0]);
        assert(s.push(x).drop_first() =~= s.drop_first().push(x));
        lemma_seg_enc_push(s.drop_first(), x);
        assert(seg_enc_byte(s[0]) + (seg_enc(s.drop_first()) + seg_enc_byte(x)) =~= (seg_enc_byte(
            s[0],
        ) + seg_enc(s.drop_first())) + seg_enc_byte(x));
    }
}

proof fn lemma_percent_byte_ascii(b: u8)
    ensures
        forall|j: int| 0 <= j < percent_byte(b).len() ==> percent_byte(b)[j] < 0x80,
{
    assert(percent_byte(b)[0] == 37);
    assert(percent_byte(b)[1] == hex_upper_digit(b / 16));
    assert(percent_byte(b)[2] == hex_upper_digit(b % 16));
}

/// Every byte either encoder writes is ASCII.
pub proof fn lemma_form_enc_ascii(bs: Seq<u8>)
    ensures
        forall|j: int| 0 <= j < form_enc(bs).len() ==> form_enc(bs)[j] < 0x80,
    decreases bs.len(),
{
    if bs.len() > 0 {
        lemma_form_enc_ascii(bs.drop_first());
        lemma_percent_byte_ascii(bs[0]);
        let first = form_enc_byte(bs[0]);
        let rest = form_enc(bs.drop_first());
        assert forall|j: int| 0 <= j < form_enc(bs).len() implies form_enc(bs)[j] < 0x80 by {
            if j < first.len() {
                assert(form_enc(bs)[j] == first[j]);
            } else {
                assert(form_enc(bs)[j] == rest[j - first.len()]);
            }
        }
    }
}

pub proof fn lemma_seg_enc_ascii(bs: Seq<u8>)
    ensures
        forall|j: int| 0 <= j < seg_enc(bs).len() ==> seg_enc(bs)[j] < 0x80,
    decreases bs.len(),
{
    if bs.len() > 0 {
        lemma_seg_enc_ascii(bs.drop_first());
        lemma_percent_byte_ascii(bs[0]);
        let first = seg_enc_byte(bs[0]);
        let rest = seg_enc(bs.drop_first());
        assert forall|j: int| 0 <= j < seg_enc(bs).len() implies seg_enc(bs)[j] < 0x80 by {
            if j < first.len() {
                assert(seg_enc(bs)[j] == first[j]);
            } else {
                assert(seg_enc(bs)[j] == rest[j - first.len()]);
            }
        }
    }
}

/// The upper-case hexadecimal digit for a value below sixteen.
fn hex_upper(n: u8) -> (r: u8)
    requires
        n < 16,
    ensures
        r == hex_upper_digit(n),
{
    if n < 10 {
        48 + n
    } else {
        55 + n
    }
}

/// Appends the `%XX` escape of one byte.
fn push_percent(out: &mut Vec<u8>, b: u8)
    ensures
        final(out)@ == old(out)@ + percent_byte(b),
{
    out.push(37);
    out.push(hex_upper(b / 16));
    out.push(hex_upper(b % 16));
    proof {
        assert(out@ =~= old(out)@ + percent_byte(b));
    }
}

/// Appends the form-urlencoded serialization of the UTF-8 bytes of `s`.
pub fn push_form_enc(out: &mut Vec<u8>, s: &str)
    ensures
        final(out)@ == old(out)@ + form_enc(encode_utf8(s@)),
        all_ascii(old(out)@) ==> all_ascii(final(out)@),
{
    let bs = s.as_bytes();
    let n = bs.len();
    let mut i: usize = 0;
    while i < n
        invariant
            0 <= i <= n,
            n == bs@.len(),
            bs@ == encode_utf8(s@),
            out@ == old(out)@ + form_enc(bs@.take(i as int)),
        decreases n - i,
    {
        let b = bs[i];
        if (48 <= b && b <= 57) || (65 <= b && b <= 90) || (97 <= b && b <= 122) || b == 42 || b
            == 45 || b == 46 || b == 95 {
            out.push(b);
            proof {
                assert(out@ =~= old(out)@ + form_enc(bs@.take(i as int)) + form_enc_byte(b));
            }
        } else if b == 32 {
            out.push(43);
            proof {
                assert(out@ =~= old(out)@ + form_enc(bs@.take(i as int)) + form_enc_byte(b));
            }
        } else {
            push_percent(out, b);
            proof {
                assert(out@ =~= old(out)@ + form_enc(bs@.take(i as int)) + form_enc_byte(b));
            }
        }
        proof {
            assert(bs@.take(i + 1) =~= bs@.take(i as int).push(bs@[i as int]));
            lemma_form_enc_push(bs@.take(i as int), bs@[i as int]);
            assert(old(out)@ + form_enc(bs@.take(i as int)) + form_enc_byte(b) =~= old(out)@
                + form_enc(bs@.take(i + 1)));
        }
        i = i + 1;
    }
    proof {
        assert(bs@.take(n as int) =~= bs@);
        lemma_form_enc_ascii(encode_utf8(s@));
        if all_ascii(old(out)@) {
            assert forall|j: int| 0 <= j < out@.len() implies out@[j] < 0x80 by {
                if j < old(out)@.len() {
                    assert(out@[j] == old(out)@[j]);
                } else {
                    assert(out@[j] == form_enc(encode_utf8(s@))[j - old(out)@.len()]);
                }
            }
        }
    }
}

/// Appends the path-segment encoding of the UTF-8 bytes of `s`.
pub fn push_seg_enc(out: &mut Vec<u8>, s: &str)
    ensures
        final(out)@ == old(out)@ + seg_enc(encode_utf8(s@)),
        all_ascii(old(out)@) ==> all_ascii(final(out)@),
{
    let bs = s.as_bytes();
    let n = bs.len();
    let mut i: usize = 0;
    while i < n
        invariant
            0 <= i <= n,
            n == bs@.len(),
            bs@ == encode_utf8(s@),
            out@ == old(out)@ + seg_enc(bs@.take(i as int)),
        decreases n - i,
    {
        let b = bs[i];
        if 33 <= b && b <= 126 && b != 34 && b != 60 && b != 62 && b != 96 && b != 35 && b != 63
            && b != 123 && b != 125 && b != 47 && b != 37 {
            out.push(b);
            proof {
                assert(out@ =~= old(out)@ + seg_enc(bs@.take(i as int)) + seg_enc_byte(b));
            }
        } else {
            push_percent(out, b);
            proof {
                assert(out@ =~= old(out)@ + seg_enc(bs@.take(i as int)) + seg_enc_byte(b));
            }
        }
        proof {
            assert(bs@.take(i + 1) =~= bs@.take(i as int).push(bs@[i as int]));
            lemma_seg_enc_push(bs@.take(i as int), bs@[i as int]);
            assert(old(out)@ + seg_enc(bs@.take(i as int)) + seg_enc_byte(b) =~= old(out)@
                + seg_enc(bs@.take(i + 1)));
        }
        i = i + 1;
    }
    proof {
        assert(bs@.take(n as int) =~= bs@);
        lemma_seg_enc_ascii(encode_utf8(s@));
        if all_ascii(old(out)@) {
            assert forall|j: int| 0 <= j < out@.len() implies out@[j] < 0x80 by {
                if j < old(out)@.len() {
                    assert(out@[j] == old(out)@[j]);
                } else {
                    assert(out@[j] == seg_enc(encode_utf8(s@))[j - old(out)@.len()]);
                }
            }
        }
    }
}

/// Appends the bytes of an ASCII string unchanged.
pub fn push_ascii_str(out: &mut Vec<u8>, s: &str)
    requires
        is_ascii(s),
    ensures
        final(out)@ == old(out)@ + ascii_bytes(s@),
        all_ascii(old(out)@) ==> all_ascii(final(out)@),
{
    proof {
        is_ascii_spec_bytes(s);
        assert(ascii_bytes(s@) =~= encode_utf8(s@));
    }
    let bs = s.as_bytes();
    let n = bs.len();
    let mut i: usize = 0;
    while i < n
        invariant
            0 <= i <= n,
            n == bs@.len(),
            bs@ == ascii_bytes(s@),
            is_ascii(s),
            out@ == old(out)@ + bs@.take(i as int),
        decreases n - i,
    {
        out.push(bs[i]);
        proof {
            assert(bs@.take(i + 1) =~= bs@.take(i as int).push(bs@[i as int]));
            assert(out@ =~= old(out)@ + bs@.take(i + 1));
        }
        i = i + 1;
    }
    proof {
        assert(bs@.take(n as int) =~= bs@);
        if all_ascii(old(out)@) {
            assert forall|j: int| 0 <= j < out@.len() implies out@[j] < 0x80 by {
                if j < old(out)@.len() {
                    assert(out@[j] == old(out)@[j]);
                } else {
                    let k = j - old(out)@.len();
                    assert(out@[j] == ascii_bytes(s@)[k]);
                    assert(s@[k] <= '\u{7f}');
                }
            }
        }
    }
}

} // verus!
