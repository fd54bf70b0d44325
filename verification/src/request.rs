//! The request model: one immutable value per icon resolution.
//!
//! A request names an icon by `pack` and `name` and carries the optional
//! presentation overrides that the remote service applies. A reference
//! string `pack:name` must split on `:` into exactly two non-empty parts;
//! option values are validated here, before any I/O is attempted.

use vstd::prelude::*;

use crate::errors::ResolutionError;
use crate::strutil::str_eq;

verus! {

/// How the remote service should mirror the icon.
#[derive(Clone, Copy, Debug, PartialEq, Eq, Structural)]
pub enum Flip {
    Horizontal,
    Vertical,
    Both,
}

/// How far the remote service should turn the icon, clockwise.
#[derive(Clone, Copy, Debug, PartialEq, Eq, Structural)]
pub enum Rotation {
    Rotate90,
    Rotate180,
    Rotate270,
}

/// One icon resolution request.
///
/// `pack` and `name` identify the icon; the remaining fields are
/// presentation overrides, absent meaning "let the service apply its
/// default". `view_box` is the only boolean override.
#[derive(Debug, Clone)]
pub struct Request {
    pub pack: String,
    pub name: String,
    pub color: Option<String>,
    pub width: Option<String>,
    pub height: Option<String>,
    pub flip: Option<Flip>,
    pub rotate: Option<Rotation>,
    pub view_box: bool,
}

/// The mathematical model of a [`Request`]: the same fields with strings
/// read as character sequences.
pub struct ReqModel {
    pub pack: Seq<char>,
    pub name: Seq<char>,
    pub color: Option<Seq<char>>,
    pub width: Option<Seq<char>>,
    pub height: Option<Seq<char>>,
    pub flip: Option<Flip>,
    pub rotate: Option<Rotation>,
    pub view_box: bool,
}

impl View for Request {
    type V = ReqModel;

    open spec fn view(&self) -> ReqModel {
        ReqModel {
            pack: self.pack@,
            name: self.name@,
            color: match self.color {
                Some(c) => Some(c@),
                None => None,
            },
            width: match self.width {
                Some(w) => Some(w@),
                None => None,
            },
            height: match self.height {
                Some(h) => Some(h@),
                None => None,
            },
            flip: self.flip,
            rotate: self.rotate,
            view_box: self.view_box,
        }
    }
}

/// What reference validation guarantees of a parsed request: both parts of
/// the reference are non-empty and the name holds no further `:`.
pub open spec fn req_wf(m: ReqModel) -> bool {
    &&& m.pack.len() > 0
    &&& m.name.len() > 0
    &&& forall|j: int| 0 <= j < m.name.len() ==> m.name[j] != ':'
}

/// Index `i` splits the reference `s` into two non-empty parts: `s[i]` is
/// the only `:` in `s`, with at least one character on either side.
pub open spec fn is_reference_split(s: Seq<char>, i: int) -> bool {
    &&& 0 < i < s.len() - 1
    &&& s[i] == ':'
    &&& forall|j: int| 0 <= j < s.len() && j != i ==> s[j] != ':'
}

/// Splitting `s` on `:` yields exactly two non-empty parts.
pub open spec fn valid_reference(s: Seq<char>) -> bool {
    exists|i: int| is_reference_split(s, i)
}

/// Parses a `pack:name` reference into a request with no overrides set.
///
/// Succeeds exactly on the references that split on `:` into two non-empty
/// parts; everything else is a malformed reference, rejected before any
/// network or store access.
pub fn parse_reference(s: &str) -> (r: Result<Request, ResolutionError>)
    ensures
        r is Ok <==> valid_reference(s@),
        r matches Ok(req) ==> forall|i: int|
            is_reference_split(s@, i) ==> req@.pack == s@.subrange(0, i) && req@.name
                == s@.subrange(i + 1, s@.len() as int),
        r matches Ok(req) ==> req@.color is None && req@.width is None && req@.height is None
            && req@.flip is None && req@.rotate is None && req@.view_box == false,
        r matches Ok(req) ==> req_wf(req@),
        r matches Err(e) ==> e is MalformedReference,
{
    let n = s.unicode_len();
    let mut i: usize = 0;
    while i < n && s.get_char(i) != ':'
        invariant
            0 <= i <= n,
            n == s@.len(),
            forall|j: int| 0 <= j < i ==> s@[j] != ':',
        decreases n - i,
    {
        i = i + 1;
    }
    if i == n {
        // no colon anywhere
        proof {
            assert forall|k: int| !is_reference_split(s@, k) by {
                if 0 < k < s@.len() - 1 {
                    assert(s@[k] != ':');
                }
            }
        }
        return Err(ResolutionError::MalformedReference);
    }
    let mut j: usize = i + 1;
    while j < n
        invariant
            i < j <= n,
            n == s@.len(),
            s@[i as int] == ':',
            forall|k: int| 0 <= k < i ==> s@[k] != ':',
            forall|k: int| i < k < j ==> s@[k] != ':',
        decreases n - j,
    {
        if s.get_char(j) == ':' {
            // a second colon: no index can be the single split point
            proof {
                assert forall|k: int| !is_reference_split(s@, k) by {
                    if is_reference_split(s@, k) {
                        assert(s@[i as int] == ':' && s@[j as int] == ':');
                        assert(k == i && k == j);
                    }
                }
            }
            return Err(ResolutionError::MalformedReference);
        }
        j = j + 1;
    }
    if i == 0 || i + 1 == n {
        // an empty pack or an empty name
        proof {
            assert forall|k: int| !is_reference_split(s@, k) by {
                if is_reference_split(s@, k) {
                    assert(k == i);
                }
            }
        }
        return Err(ResolutionError::MalformedReference);
    }
    let pack = s.substring_char(0, i).to_owned();
    let name = s.substring_char(i + 1, n).to_owned();
    proof {
        assert(is_reference_split(s@, i as int));
        assert forall|k: int| is_reference_split(s@, k) implies k == i by {
            assert(s@[i as int] == ':');
        }
    }
    Ok(Request {
        pack,
        name,
        color: None,
        width: None,
        height: None,
        flip: None,
        rotate: None,
        view_box: false,
    })
}

/// The flip a literal option value names, if any. The pair orders
/// `horizontal,vertical` and `vertical,horizontal` both normalize to
/// [`Flip::Both`].
pub open spec fn flip_of(s: Seq<char>) -> Option<Flip> {
    if s == "horizontal"@ {
        Some(Flip::Horizontal)
    } else if s == "vertical"@ {
        Some(Flip::Vertical)
    } else if s == "both"@ || s == "horizontal,vertical"@ || s == "vertical,horizontal"@ {
        Some(Flip::Both)
    } else {
        None
    }
}

/// The rotation a literal option value names, if any.
pub open spec fn rotation_of(s: Seq<char>) -> Option<Rotation> {
    if s == "90"@ {
        Some(Rotation::Rotate90)
    } else if s == "180"@ {
        Some(Rotation::Rotate180)
    } else if s == "270"@ {
        Some(Rotation::Rotate270)
    } else {
        None
    }
}

/// Parses a `flip` option value; anything outside the accepted literals is
/// an invalid option.
pub fn parse_flip(s: &str) -> (r: Result<Flip, ResolutionError>)
    ensures
        r is Ok <==> flip_of(s@) is Some,
        r matches Ok(f) ==> flip_of(s@) == Some(f),
        r matches Err(e) ==> e matches ResolutionError::InvalidOption { field } && field@
            == "flip"@,
{
    if str_eq(s, "horizontal") {
        Ok(Flip::Horizontal)
    } else if str_eq(s, "vertical") {
        Ok(Flip::Vertical)
    } else if str_eq(s, "both") || str_eq(s, "horizontal,vertical") || str_eq(
        s,
        "vertical,horizontal",
    ) {
        Ok(Flip::Both)
    } else {
        Err(ResolutionError::InvalidOption { field: "flip".to_owned() })
    }
}

/// Parses a `rotate` option value; anything but `90`, `180`, `270` is an
/// invalid option.
pub fn parse_rotation(s: &str) -> (r: Result<Rotation, ResolutionError>)
    ensures
        r is Ok <==> rotation_of(s@) is Some,
        r matches Ok(f) ==> rotation_of(s@) == Some(f),
        r matches Err(e) ==> e matches ResolutionError::InvalidOption { field } && field@
            == "rotate"@,
{
    if str_eq(s, "90") {
        Ok(Rotation::Rotate90)
    } else if str_eq(s, "180") {
        Ok(Rotation::Rotate180)
    } else if str_eq(s, "270") {
        Ok(Rotation::Rotate270)
    } else {
        Err(ResolutionError::InvalidOption { field: "rotate".to_owned() })
    }
}

/// The value handed in for one named option: a string literal or a boolean
/// literal, as the front end saw it.
#[derive(Debug, Clone)]
pub enum OptionValue {
    Text(String),
    Flag(bool),
}

/// The option names this model recognizes.
pub open spec fn known_option(name: Seq<char>) -> bool {
    ||| name == "color"@
    ||| name == "width"@
    ||| name == "height"@
    ||| name == "flip"@
    ||| name == "rotate"@
    ||| name == "view_box"@
}

impl Request {
    /// Records one named option on the request.
    ///
    /// `color`, `width` and `height` take any string; `flip` and `rotate`
    /// take their fixed literals; `view_box` takes a boolean. A recognized
    /// name with a value of the wrong shape is an invalid option; an
    /// unrecognized name is an unknown option.
    pub fn apply_option(self, name: &str, value: OptionValue) -> (r: Result<
        Request,
        ResolutionError,
    >)
        ensures
            r is Ok <==> ((name@ == "color"@ && value is Text) || (name@ == "width"@
                && value is Text) || (name@ == "height"@ && value is Text) || (name@ == "flip"@
                && value is Text && flip_of(value->Text_0@) is Some) || (name@ == "rotate"@
                && value is Text && rotation_of(value->Text_0@) is Some) || (name@ == "view_box"@
                && value is Flag)),
            name@ == "color"@ && value is Text ==> r == Ok::<Request, ResolutionError>(
                (Request { color: Some(value->Text_0), ..self }),
            ),
            name@ == "width"@ && value is Text ==> r == Ok::<Request, ResolutionError>(
                (Request { width: Some(value->Text_0), ..self }),
            ),
            name@ == "height"@ && value is Text ==> r == Ok::<Request, ResolutionError>(
                (Request { height: Some(value->Text_0), ..self }),
            ),
            name@ == "flip"@ && value is Text && flip_of(value->Text_0@) is Some ==> r == Ok::<
                Request,
                ResolutionError,
            >((Request { flip: flip_of(value->Text_0@), ..self })),
            name@ == "rotate"@ && value is Text && rotation_of(value->Text_0@) is Some ==> r
                == Ok::<Request, ResolutionError>(
                (Request { rotate: rotation_of(value->Text_0@), ..self }),
            ),
            name@ == "view_box"@ && value is Flag ==> r == Ok::<Request, ResolutionError>(
                (Request { view_box: value->Flag_0, ..self }),
            ),
            !known_option(name@) ==> (r matches Err(e) && e matches ResolutionError::UnknownOption {
                name: n,
            } && n@ == name@),
            known_option(name@) && !(r is Ok) ==> (r matches Err(e) && e matches
                ResolutionError::InvalidOption { field } && field@ == name@),
    {
        proof {
            reveal_strlit("color");
            reveal_strlit("width");
            reveal_strlit("height");
            reveal_strlit("flip");
            reveal_strlit("rotate");
            reveal_strlit("view_box");
            assert("color"@.len() == 5 && "width"@.len() == 5 && "height"@.len() == 6
                && "flip"@.len() == 4 && "rotate"@.len() == 6 && "view_box"@.len() == 8);
            assert("color"@[0] != "width"@[0]);
            assert("height"@[0] != "rotate"@[0]);
        }
        if str_eq(name, "color") {
            match value {
                OptionValue::Text(t) => Ok(Request { color: Some(t), ..self }),
                OptionValue::Flag(_) => Err(
                    ResolutionError::InvalidOption { field: "color".to_owned() },
                ),
            }
        } else if str_eq(name, "width") {
            match value {
                OptionValue::Text(t) => Ok(Request { width: Some(t), ..self }),
                OptionValue::Flag(_) => Err(
                    ResolutionError::InvalidOption { field: "width".to_owned() },
                ),
            }
        } else if str_eq(name, "height") {
            match value {
                OptionValue::Text(t) => Ok(Request { height: Some(t), ..self }),
                OptionValue::Flag(_) => Err(
                    ResolutionError::InvalidOption { field: "height".to_owned() },
                ),
            }
        } else if str_eq(name, "flip") {
            match value {
                OptionValue::Text(t) => match parse_flip(t.as_str()) {
                    Ok(f) => Ok(Request { flip: Some(f), ..self }),
                    Err(e) => Err(e),
                },
                OptionValue::Flag(_) => Err(
                    ResolutionError::InvalidOption { field: "flip".to_owned() },
                ),
            }
        } else if str_eq(name, "rotate") {
            match value {
                OptionValue::Text(t) => match parse_rotation(t.as_str()) {
                    Ok(f) => Ok(Request { rotate: Some(f), ..self }),
                    Err(e) => Err(e),
                },
                OptionValue::Flag(_) => Err(
                    ResolutionError::InvalidOption { field: "rotate".to_owned() },
                ),
            }
        } else if str_eq(name, "view_box") {
            match value {
                OptionValue::Flag(b) => Ok(Request { view_box: b, ..self }),
                OptionValue::Text(_) => Err(
                    ResolutionError::InvalidOption { field: "view_box".to_owned() },
                ),
            }
        } else {
            Err(ResolutionError::UnknownOption { name: name.to_owned() })
        }
    }
}

/// What recording one option does to a request, if it is acceptable:
/// the spec-level mirror of [`Request::apply_option`], with `None` for any
/// rejected option.
pub open spec fn apply_one(req: Request, name: Seq<char>, value: OptionValue) -> Option<Request> {
    if name == "color"@ {
        match value {
            OptionValue::Text(t) => Some(Request { color: Some(t), ..req }),
            OptionValue::Flag(_) => None,
        }
    } else if name == "width"@ {
        match value {
            OptionValue::Text(t) => Some(Request { width: Some(t), ..req }),
            OptionValue::Flag(_) => None,
        }
    } else if name == "height"@ {
        match value {
            OptionValue::Text(t) => Some(Request { height: Some(t), ..req }),
            OptionValue::Flag(_) => None,
        }
    } else if name == "flip"@ {
        match value {
            OptionValue::Text(t) => if flip_of(t@) is Some {
                Some(Request { flip: flip_of(t@), ..req })
            } else {
                None
            },
            OptionValue::Flag(_) => None,
        }
    } else if name == "rotate"@ {
        match value {
            OptionValue::Text(t) => if rotation_of(t@) is Some {
                Some(Request { rotate: rotation_of(t@), ..req })
            } else {
                None
            },
            OptionValue::Flag(_) => None,
        }
    } else if name == "view_box"@ {
        match value {
            OptionValue::Flag(b) => Some(Request { view_box: b, ..req }),
            OptionValue::Text(_) => None,
        }
    } else {
        None
    }
}

/// What recording a whole option list does: the options applied in order,
/// with `None` as soon as one is rejected.
pub open spec fn fold_options(req: Request, opts: Seq<(String, OptionValue)>) -> Option<Request>
    decreases opts.len(),
{
    if opts.len() == 0 {
        Some(req)
    } else {
        match apply_one(req, opts[0].0@, opts[0].1) {
            Some(next) => fold_options(next, opts.drop_first()),
            None => None,
        }
    }
}

impl Request {
    /// Records a list of named options in order, stopping at the first one
    /// that is rejected and reporting why.
    pub fn apply_options(self, opts: Vec<(String, OptionValue)>) -> (r: Result<
        Request,
        ResolutionError,
    >)
        ensures
            r matches Ok(q) ==> fold_options(self, opts@) == Some(q),
            r is Err <==> fold_options(self, opts@) is None,
            r matches Err(e) ==> (e is InvalidOption || e is UnknownOption),
    {
        let ghost origin = self;
        let mut req = self;
        let mut rest = opts;
        while rest.len() > 0
            invariant
                origin == self,
                fold_options(origin, opts@) == fold_options(req, rest@),
            decreases rest.len(),
        {
            proof {
                reveal_strlit("color");
                reveal_strlit("width");
                reveal_strlit("height");
                reveal_strlit("flip");
                reveal_strlit("rotate");
                reveal_strlit("view_box");
                assert("color"@.len() == 5 && "width"@.len() == 5 && "height"@.len() == 6
                    && "flip"@.len() == 4 && "rotate"@.len() == 6 && "view_box"@.len() == 8);
                assert("color"@[0] != "width"@[0]);
                assert("height"@[0] != "rotate"@[0]);
            }
            let ghost req0 = req;
            let ghost rest0 = rest@;
            let (name, value) = rest.remove(0);
            proof {
                assert(rest@ =~= rest0.drop_first());
                assert(name == rest0[0].0);
                assert(value == rest0[0].1);
            }
            req = match req.apply_option(name.as_str(), value) {
                Ok(next) => next,
                Err(e) => {
                    proof {
                        assert(apply_one(req0, name@, rest0[0].1) is None);
                        assert(fold_options(req0, rest0) is None);
                    }
                    return Err(e);
                },
            };
            proof {
                assert(apply_one(req0, name@, rest0[0].1) == Some(req));
                assert(fold_options(req0, rest0) == fold_options(req, rest0.drop_first()));
            }
        }
        proof {
            assert(fold_options(req, rest@) == Some(req));
        }
        Ok(req)
    }
}

} // verus!
