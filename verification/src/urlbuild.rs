//! The canonical query URL of a request.
//!
//! The URL has the fixed shape `<base>/<pack>/<name>.svg?<query>`, where the
//! query lists the present overrides in the fixed order `color, width,
//! height, flip, rotate, box`. The fixed order is what keeps the derived
//! cache key stable across runs.

use vstd::prelude::*;

use crate::errors::ResolutionError;
use crate::request::{Flip, ReqModel, Request, Rotation};
use crate::strutil::{all_ascii, ascii_bytes, ascii_chars, ascii_string};
use crate::urlenc::{form_enc, push_ascii_str, push_form_enc, push_seg_enc, seg_enc};

verus! {

use vstd::utf8::encode_utf8;
use vstd::utf8::is_ascii_chars;
use vstd::string::is_ascii;
use vstd::string::StrSliceExecFns;
use vstd::string::StringExecFns;

/// How a flip serializes into the query; both mirror axes together write
/// the pair form.
pub open spec fn flip_chars(f: Flip) -> Seq<char> {
    match f {
        Flip::Horizontal => "horizontal"@,
        Flip::Vertical => "vertical"@,
        Flip::Both => "horizontal,vertical"@,
    }
}

/// How a rotation serializes into the query.
pub open spec fn rotation_chars(r: Rotation) -> Seq<char> {
    match r {
        Rotation::Rotate90 => "90deg"@,
        Rotation::Rotate180 => "180deg"@,
        Rotation::Rotate270 => "270deg"@,
    }
}

/// The query value written for a flip.
pub fn flip_value(f: Flip) -> (r: &'static str)
    ensures
        r@ == flip_chars(f),
{
    match f {
        Flip::Horizontal => "horizontal",
        Flip::Vertical => "vertical",
        Flip::Both => "horizontal,vertical",
    }
}

/// The query value written for a rotation.
pub fn rotation_value(r: Rotation) -> (s: &'static str)
    ensures
        s@ == rotation_chars(r),
{
    match r {
        Rotation::Rotate90 => "90deg",
        Rotation::Rotate180 => "180deg",
        Rotation::Rotate270 => "270deg",
    }
}

/// The bytes of one `key=value` query pair: the key verbatim (all keys are
/// ASCII), the value form-urlencoded.
pub open spec fn pair_bytes(p: (Seq<char>, Seq<char>)) -> Seq<u8> {
    ascii_bytes(p.0) + ascii_bytes("="@) + form_enc(encode_utf8(p.1))
}

/// The bytes of a query: its pairs in order, joined by `&`.
pub open spec fn join_pairs(ps: Seq<(Seq<char>, Seq<char>)>) -> Seq<u8>
    decreases ps.len(),
{
    if ps.len() == 0 {
        Seq::empty()
    } else if ps.len() == 1 {
        pair_bytes(ps[0])
    } else {
        join_pairs(ps.drop_last()) + ascii_bytes("&"@) + pair_bytes(ps.last())
    }
}

pub proof fn lemma_join_pairs_snoc(ps: Seq<(Seq<char>, Seq<char>)>, p: (Seq<char>, Seq<char>))
    ensures
        join_pairs(ps.push(p)) == join_pairs(ps) + (if ps.len() == 0 {
            Seq::<u8>::empty()
        } else {
            ascii_bytes("&"@)
        }) + pair_bytes(p),
{
    assert(ps.push(p).last() == p);
    if ps.len() == 0 {
        assert(ps.push(p)[0] == p);
        assert(join_pairs(ps.push(p)) == pair_bytes(p));
        assert(join_pairs(ps) + Seq::<u8>::empty() + pair_bytes(p) =~= pair_bytes(p));
    } else {
        assert(ps.push(p).drop_last() =~= ps);
    }
}

/// The query pairs a request serializes, in the fixed order
/// `color, width, height, flip, rotate, box`; absent options write nothing,
/// and `view_box` only writes `box=true` when set.
pub open spec fn present_pairs(m: ReqModel) -> Seq<(Seq<char>, Seq<char>)> {
    let s = Seq::<(Seq<char>, Seq<char>)>::empty();
    let s = if m.color is Some {
        s.push(("color"@, m.color->0))
    } else {
        s
    };
    let s = if m.width is Some {
        s.push(("width"@, m.width->0))
    } else {
        s
    };
    let s = if m.height is Some {
        s.push(("height"@, m.height->0))
    } else {
        s
    };
    let s = if m.flip is Some {
        s.push(("flip"@, flip_chars(m.flip->0)))
    } else {
        s
    };
    let s = if m.rotate is Some {
        s.push(("rotate"@, rotation_chars(m.rotate->0)))
    } else {
        s
    };
    if m.view_box {
        s.push(("box"@, "true"@))
    } else {
        s
    }
}

/// The bytes the canonical URL appends after the base: the two encoded path
/// segments, the `.svg` suffix, and the query.
pub open spec fn url_tail_bytes(m: ReqModel) -> Seq<u8> {
    ascii_bytes("/"@) + seg_enc(encode_utf8(m.pack)) + ascii_bytes("/"@) + seg_enc(
        encode_utf8(m.name),
    ) + ascii_bytes(".svg?"@) + join_pairs(present_pairs(m))
}

/// The canonical URL of a request against a service base URL.
pub open spec fn url_of(base: Seq<char>, m: ReqModel) -> Seq<char> {
    base + ascii_chars(url_tail_bytes(m))
}

/// Identical requests always build identical canonical URLs; the query
/// parameter order is fixed by [`present_pairs`], never by insertion order.
pub proof fn lemma_url_deterministic(base: Seq<char>, m1: ReqModel, m2: ReqModel)
    requires
        m1 == m2,
    ensures
        url_of(base, m1) == url_of(base, m2),
{
}

/// Appends one `key=value` pair, preceded by `&` unless it is the first.
fn append_pair(out: &mut Vec<u8>, first: bool, key: &str, value: &str)
    requires
        is_ascii(key),
    ensures
        final(out)@ == old(out)@ + (if first {
            Seq::<u8>::empty()
        } else {
            ascii_bytes("&"@)
        }) + pair_bytes((key@, value@)),
        all_ascii(old(out)@) ==> all_ascii(final(out)@),
{
    proof {
        reveal_strlit("&");
        reveal_strlit("=");
        assert(is_ascii_chars("&"@));
        assert(is_ascii_chars("="@));
    }
    if !first {
        push_ascii_str(out, "&");
    }
    push_ascii_str(out, key);
    push_ascii_str(out, "=");
    push_form_enc(out, value);
    proof {
        assert(out@ =~= old(out)@ + (if first {
            Seq::<u8>::empty()
        } else {
            ascii_bytes("&"@)
        }) + pair_bytes((key@, value@)));
    }
}


/// Appends one pair and accounts for it against the pairs written so far:
/// `out` stays `prefix` plus the join of the pairs, now one longer.
fn append_pair_tracked(
    out: &mut Vec<u8>,
    Ghost(prefix): Ghost<Seq<u8>>,
    Ghost(ps): Ghost<Seq<(Seq<char>, Seq<char>)>>,
    first: bool,
    key: &str,
    value: &str,
)
    requires
        is_ascii(key),
        old(out)@ == prefix + join_pairs(ps),
        first <==> ps.len() == 0,
    ensures
        final(out)@ == prefix + join_pairs(ps.push((key@, value@))),
        all_ascii(old(out)@) ==> all_ascii(final(out)@),
{
    append_pair(out, first, key, value);
    proof {
        lemma_join_pairs_snoc(ps, (key@, value@));
        assert(out@ =~= prefix + join_pairs(ps.push((key@, value@))));
    }
}

/// Appends the serialized query of a request: its present overrides in the
/// fixed order, `&`-separated.
fn push_query(out: &mut Vec<u8>, req: &Request)
    ensures
        final(out)@ == old(out)@ + join_pairs(present_pairs(req@)),
        all_ascii(old(out)@) ==> all_ascii(final(out)@),
{
    proof {
        reveal_strlit("color");
        reveal_strlit("width");
        reveal_strlit("height");
        reveal_strlit("flip");
        reveal_strlit("rotate");
        reveal_strlit("box");
        assert(is_ascii_chars("color"@));
        assert(is_ascii_chars("width"@));
        assert(is_ascii_chars("height"@));
        assert(is_ascii_chars("flip"@));
        assert(is_ascii_chars("rotate"@));
        assert(is_ascii_chars("box"@));
    }
    let ghost prefix: Seq<u8> = out@;
    let ghost mut pairs: Seq<(Seq<char>, Seq<char>)> = Seq::empty();
    let mut first: bool = true;
    proof {
        assert(prefix + join_pairs(pairs) =~= prefix);
    }
    if let Some(c) = &req.color {
        append_pair_tracked(out, Ghost(prefix), Ghost(pairs), first, "color", c.as_str());
        first = false;
        proof {
            pairs = pairs.push(("color"@, c@));
        }
    }
    if let Some(w) = &req.width {
        append_pair_tracked(out, Ghost(prefix), Ghost(pairs), first, "width", w.as_str());
        first = false;
        proof {
            pairs = pairs.push(("width"@, w@));
        }
    }
    if let Some(h) = &req.height {
        append_pair_tracked(out, Ghost(prefix), Ghost(pairs), first, "height", h.as_str());
        first = false;
        proof {
            pairs = pairs.push(("height"@, h@));
        }
    }
    if let Some(f) = &req.flip {
        append_pair_tracked(out, Ghost(prefix), Ghost(pairs), first, "flip", flip_value(*f));
        first = false;
        proof {
            pairs = pairs.push(("flip"@, flip_chars(*f)));
        }
    }
    if let Some(ro) = &req.rotate {
        append_pair_tracked(out, Ghost(prefix), Ghost(pairs), first, "rotate", rotation_value(*ro));
        first = false;
        proof {
            pairs = pairs.push(("rotate"@, rotation_chars(*ro)));
        }
    }
    if req.view_box {
        append_pair_tracked(out, Ghost(prefix), Ghost(pairs), first, "box", "true");
        first = false;
        proof {
            pairs = pairs.push(("box"@, "true"@));
        }
    }
    proof {
        assert(pairs == present_pairs(req@));
    }
}

impl Request {
    /// Builds the canonical query URL for this request.
    ///
    /// Succeeds exactly when `pack` and `name` are non-empty — an empty
    /// segment cannot be placed in the path — which reference validation
    /// already guarantees.
    pub fn icon_url(&self, base: &str) -> (r: Result<String, ResolutionError>)
        ensures
            r is Ok <==> (self@.pack.len() > 0 && self@.name.len() > 0),
            r matches Ok(u) ==> u@ == url_of(base@, self@),
            r matches Err(e) ==> e is UrlConstructionError,
    {
        if self.pack.as_str().unicode_len() == 0 || self.name.as_str().unicode_len() == 0 {
            return Err(ResolutionError::UrlConstructionError);
        }
        proof {
            reveal_strlit("/");
            reveal_strlit(".svg?");
            assert(is_ascii_chars("/"@));
            assert(is_ascii_chars(".svg?"@));
        }
        let mut tail: Vec<u8> = Vec::new();
        proof {
            assert(all_ascii(tail@));
        }
        push_ascii_str(&mut tail, "/");
        push_seg_enc(&mut tail, self.pack.as_str());
        push_ascii_str(&mut tail, "/");
        push_seg_enc(&mut tail, self.name.as_str());
        push_ascii_str(&mut tail, ".svg?");
        let ghost path_part: Seq<u8> = tail@;
        proof {
            assert(path_part =~= ascii_bytes("/"@) + seg_enc(encode_utf8(self@.pack))
                + ascii_bytes("/"@) + seg_enc(encode_utf8(self@.name)) + ascii_bytes(".svg?"@));
        }
        push_query(&mut tail, self);
        proof {
            assert(tail@ =~= url_tail_bytes(self@));
        }
        let mut url = base.to_owned();
        let tail_str = ascii_string(tail);
        url.append(tail_str.as_str());
        proof {
            assert(url@ == url_of(base@, self@));
        }
        Ok(url)
    }
}

} // verus!
