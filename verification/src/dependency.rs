//! Dependency declarations.
//!
//! A dependency line is `[marker ]name[ operator version]`, tokens
//! separated by whitespace. Two tokens are a marker and a name; three
//! are a name and a version bound; four are all of marker, name and
//! bound. The operator and version tokens must join to a well-formed
//! version requirement. Serialization is the exact inverse, one space
//! between tokens.
use crate::error::Error;
use crate::text::{
    is_word, lemma_tokens_cons_word, lemma_tokens_single, spec_is_space, spec_tokens, tokenize,
    push_char,
};
use crate::versions::{req_ok, VersionRange};
use vstd::prelude::*;

verus! {

/// The marker in front of a dependency name: how the named mod
/// constrains installation.
#[derive(Debug, PartialEq, Eq, Structural, Clone, Copy)]
pub enum FModPreffix {
    /// No marker: the dependency is required.
    Required,
    /// `!`: the mods cannot be installed together.
    Incompatible,
    /// `?`: the dependency is optional.
    Optional,
    /// `(?)`: the dependency is optional and hidden from listings.
    HiddenOptional,
    /// `~`: the dependency does not affect load order.
    NonChanging,
}

impl Default for FModPreffix {
    fn default() -> (r: Self)
        ensures
            r == FModPreffix::Required,
    {
        FModPreffix::Required
    }
}

/// The marker text of each prefix; `Required` has the empty marker.
pub open spec fn spec_marker(p: FModPreffix) -> Seq<char> {
    match p {
        FModPreffix::Required => Seq::<char>::empty(),
        FModPreffix::Incompatible => seq!['!'],
        FModPreffix::Optional => seq!['?'],
        FModPreffix::HiddenOptional => seq!['(', '?', ')'],
        FModPreffix::NonChanging => seq!['~'],
    }
}

/// The prefix a marker token resolves to: exact match against the five
/// known markers, the empty token standing for `Required`.
pub open spec fn spec_prefix_of(t: Seq<char>) -> Option<FModPreffix> {
    if t.len() == 0 {
        Some(FModPreffix::Required)
    } else if t == seq!['!'] {
        Some(FModPreffix::Incompatible)
    } else if t == seq!['?'] {
        Some(FModPreffix::Optional)
    } else if t == seq!['(', '?', ')'] {
        Some(FModPreffix::HiddenOptional)
    } else if t == seq!['~'] {
        Some(FModPreffix::NonChanging)
    } else {
        None
    }
}

impl FModPreffix {
    /// Resolves a marker token, rejecting anything but the known five.
    pub fn from_str(s: &str) -> (r: Result<FModPreffix, Error>)
        ensures
            match r {
                Ok(p) => spec_prefix_of(s@) == Some(p),
                Err(e) => spec_prefix_of(s@) is None && (e matches Error::InvalidPreffix(t) && t@
                    == s@),
            },
    {
        let n = s.unicode_len();
        if n == 0 {
            return Ok(FModPreffix::Required);
        }
        if n == 1 {
            let c = s.get_char(0);
            if c == '!' {
                proof {
                    assert(s@ =~= seq!['!']);
                }
                return Ok(FModPreffix::Incompatible);
            }
            if c == '?' {
                proof {
                    assert(s@ =~= seq!['?']);
                }
                return Ok(FModPreffix::Optional);
            }
            if c == '~' {
                proof {
                    assert(s@ =~= seq!['~']);
                }
                return Ok(FModPreffix::NonChanging);
            }
            return Err(Error::InvalidPreffix(String::from_str(s)));
        }
        if n == 3 && s.get_char(0) == '(' && s.get_char(1) == '?' && s.get_char(2) == ')' {
            proof {
                assert(s@ =~= seq!['(', '?', ')']);
            }
            return Ok(FModPreffix::HiddenOptional);
        }
        Err(Error::InvalidPreffix(String::from_str(s)))
    }

    /// Renders the marker text of this prefix.
    pub fn marker(&self) -> (r: String)
        ensures
            r@ == spec_marker(*self),
    {
        let mut s = String::new();
        match self {
            FModPreffix::Required => {},
            FModPreffix::Incompatible => {
                push_char(&mut s, '!');
            },
            FModPreffix::Optional => {
                push_char(&mut s, '?');
            },
            FModPreffix::HiddenOptional => {
                push_char(&mut s, '(');
                push_char(&mut s, '?');
                push_char(&mut s, ')');
            },
            FModPreffix::NonChanging => {
                push_char(&mut s, '~');
            },
        }
        proof {
            assert(s@ =~= spec_marker(*self));
        }
        s
    }
}

/// The mathematical content of a dependency declaration: the name, the
/// prefix and, when a bound was declared, its operator and version
/// tokens.
pub struct DepView {
    pub name: Seq<char>,
    pub preffix: FModPreffix,
    pub range: Option<(Seq<char>, Seq<char>)>,
}

/// One dependency of a mod, as declared by one line.
#[derive(Debug, PartialEq, Eq)]
pub struct FModDependecies {
    /// The name of the mod depended on.
    pub name: String,
    /// The declared version bound, when there is one.
    pub required_version: Option<VersionRange>,
    /// The marker in front of the name.
    pub preffix: FModPreffix,
}

impl View for FModDependecies {
    type V = DepView;

    open spec fn view(&self) -> DepView {
        DepView {
            name: self.name@,
            preffix: self.preffix,
            range: match self.required_version {
                Some(r) => Some((r.op@, r.ver@)),
                None => None,
            },
        }
    }
}

impl Clone for FModDependecies {
    fn clone(&self) -> (r: Self)
        ensures
            r == *self,
    {
        FModDependecies {
            name: self.name.clone(),
            required_version: match &self.required_version {
                Some(v) => Some(v.clone()),
                None => None,
            },
            preffix: self.preffix,
        }
    }
}

impl Default for FModDependecies {
    fn default() -> (r: Self)
        ensures
            r@.name.len() == 0 && r@.preffix == FModPreffix::Required && r@.range is None,
    {
        FModDependecies {
            name: String::new(),
            required_version: None,
            preffix: FModPreffix::Required,
        }
    }
}

/// How a dependency line fails to parse: a shape or range failure, or an
/// unknown marker token.
pub enum ParseFail {
    Format,
    Prefix(Seq<char>),
}

/// What parsing a dependency line yields, by the token count: two
/// tokens are marker and name; three are name, operator and version;
/// four are marker, name, operator and version; anything else is
/// rejected. A version bound whose joined text is not a well-formed
/// requirement is rejected; the marker is resolved after the bound.
pub open spec fn spec_parse_line(s: Seq<char>) -> Result<DepView, ParseFail> {
    let toks = spec_tokens(s);
    if toks.len() == 2 {
        match spec_prefix_of(toks[0]) {
            Some(p) => Ok(DepView { name: toks[1], preffix: p, range: None }),
            None => Err(ParseFail::Prefix(toks[0])),
        }
    } else if toks.len() == 3 {
        if req_ok(toks[1] + toks[2]) {
            Ok(
                DepView {
                    name: toks[0],
                    preffix: FModPreffix::Required,
                    range: Some((toks[1], toks[2])),
                },
            )
        } else {
            Err(ParseFail::Format)
        }
    } else if toks.len() == 4 {
        if req_ok(toks[2] + toks[3]) {
            match spec_prefix_of(toks[0]) {
                Some(p) => Ok(DepView { name: toks[1], preffix: p, range: Some((toks[2], toks[3])) }),
                None => Err(ParseFail::Prefix(toks[0])),
            }
        } else {
            Err(ParseFail::Format)
        }
    } else {
        Err(ParseFail::Format)
    }
}

impl FModDependecies {
    /// Parses one dependency declaration line.
    pub fn from_str(s: &str) -> (r: Result<FModDependecies, Error>)
        ensures
            match (r, spec_parse_line(s@)) {
                (Ok(d), Ok(v)) => d@ == v,
                (Err(e), Err(ParseFail::Format)) => e matches Error::ParcingError(_),
                (Err(e), Err(ParseFail::Prefix(t))) => (e matches Error::InvalidPreffix(u) && u@
                    == t),
                _ => false,
            },
    {
        let toks = tokenize(s);
        proof {
            assert(forall|i: int|
                0 <= i < toks@.len() ==> toks.deep_view()[i] == toks@[i]@);
        }
        if toks.len() == 2 {
            match FModPreffix::from_str(toks[0].as_str()) {
                Ok(p) => Ok(
                    FModDependecies {
                        name: toks[1].clone(),
                        required_version: None,
                        preffix: p,
                    },
                ),
                Err(e) => Err(e),
            }
        } else if toks.len() == 3 {
            match VersionRange::new(toks[1].clone(), toks[2].clone()) {
                Ok(rng) => Ok(
                    FModDependecies {
                        name: toks[0].clone(),
                        required_version: Some(rng),
                        preffix: FModPreffix::Required,
                    },
                ),
                Err(_) => Err(Error::ParcingError(Self::format_message(s))),
            }
        } else if toks.len() == 4 {
            match VersionRange::new(toks[2].clone(), toks[3].clone()) {
                Ok(rng) => {
                    match FModPreffix::from_str(toks[0].as_str()) {
                        Ok(p) => Ok(
                            FModDependecies {
                                name: toks[1].clone(),
                                required_version: Some(rng),
                                preffix: p,
                            },
                        ),
                        Err(e) => Err(e),
                    }
                },
                Err(_) => Err(Error::ParcingError(Self::format_message(s))),
            }
        } else {
            Err(Error::ParcingError(Self::format_message(s)))
        }
    }

    /// The serialized form of a dependency: the marker (when not
    /// `Required`), the name, and the bound's operator and version
    /// tokens, one space between tokens.
    pub fn serialize(&self) -> (r: String)
        ensures
            r@ == spec_serialize(self@),
    {
        let mut s: String;
        match &self.required_version {
            Some(rng) => {
                if self.preffix == FModPreffix::Required {
                    s = self.name.clone();
                } else {
                    s = self.preffix.marker();
                    push_char(&mut s, ' ');
                    s.append(self.name.as_str());
                }
                push_char(&mut s, ' ');
                s.append(rng.op.as_str());
                push_char(&mut s, ' ');
                s.append(rng.ver.as_str());
            },
            None => {
                if self.preffix == FModPreffix::Required {
                    s = self.name.clone();
                } else {
                    s = self.preffix.marker();
                    push_char(&mut s, ' ');
                    s.append(self.name.as_str());
                }
            },
        }
        proof {
            assert(s@ =~= spec_serialize(self@));
        }
        s
    }

    /// The message of a shape or range failure, naming the line.
    fn format_message(s: &str) -> (r: String)
        ensures
            r@ == "Invalid dependecies format: "@ + s@,
    {
        let mut msg = String::from_str("Invalid dependecies format: ");
        msg.append(s);
        msg
    }
}

/// The serialized form of a dependency: the name alone for a bare
/// required dependency; otherwise the marker, the name and the bound's
/// two tokens, one space between tokens.
pub open spec fn spec_serialize(v: DepView) -> Seq<char> {
    match v.range {
        Some((op, vr)) => {
            if v.preffix == FModPreffix::Required {
                v.name + seq![' '] + op + seq![' '] + vr
            } else {
                spec_marker(v.preffix) + seq![' '] + v.name + seq![' '] + op + seq![' '] + vr
            }
        },
        None => {
            if v.preffix == FModPreffix::Required {
                v.name
            } else {
                spec_marker(v.preffix) + seq![' '] + v.name
            }
        },
    }
}

/// The marker of every prefix but `Required` is a word.
proof fn lemma_marker_word(p: FModPreffix)
    requires
        p != FModPreffix::Required,
    ensures
        is_word(spec_marker(p)),
{
    match p {
        FModPreffix::Required => {},
        FModPreffix::Incompatible => {
            assert(!spec_is_space(spec_marker(p)[0]));
        },
        FModPreffix::Optional => {
            assert(!spec_is_space(spec_marker(p)[0]));
        },
        FModPreffix::HiddenOptional => {
            assert(forall|i: int| 0 <= i < 3 ==> !spec_is_space(spec_marker(p)[i]));
        },
        FModPreffix::NonChanging => {
            assert(!spec_is_space(spec_marker(p)[0]));
        },
    }
}

/// Each marker resolves back to its own prefix.
proof fn lemma_prefix_of_marker(p: FModPreffix)
    ensures
        spec_prefix_of(spec_marker(p)) == Some(p),
{
    match p {
        FModPreffix::Required => {
            assert(spec_marker(p).len() == 0);
        },
        FModPreffix::Incompatible => {
            assert(spec_prefix_of(seq!['!']) == Some(FModPreffix::Incompatible));
        },
        FModPreffix::Optional => {
            assert(seq!['?'] != seq!['!']) by {
                assert(seq!['?'][0] == '?');
            }
            assert(spec_prefix_of(seq!['?']) == Some(FModPreffix::Optional));
        },
        FModPreffix::HiddenOptional => {
            assert(seq!['(', '?', ')'].len() == 3);
            assert(spec_prefix_of(seq!['(', '?', ')']) == Some(FModPreffix::HiddenOptional));
        },
        FModPreffix::NonChanging => {
            assert(seq!['~'] != seq!['!']) by {
                assert(seq!['~'][0] == '~');
            }
            assert(seq!['~'] != seq!['?']) by {
                assert(seq!['~'][0] == '~');
            }
            assert(seq!['~'].len() == 1);
            assert(spec_prefix_of(seq!['~']) == Some(FModPreffix::NonChanging));
        },
    }
}

/// A dependency whose serialized line can parse at all: the name and
/// the bound's tokens are words, and a bare required dependency carries
/// a bound (without one it serializes to a single token, which no line
/// shape accepts).
pub open spec fn round_trippable(v: DepView) -> bool {
    &&& is_word(v.name)
    &&& match v.range {
        Some((op, vr)) => is_word(op) && is_word(vr),
        None => v.preffix != FModPreffix::Required,
    }
}

/// Round trip: a dependency that serializes to a line whose version
/// bound (if any) is a well-formed requirement parses back to itself.
pub proof fn lemma_round_trip(v: DepView)
    requires
        round_trippable(v),
    ensures
        (match v.range {
            Some((op, vr)) => req_ok(op + vr),
            None => true,
        }) ==> spec_parse_line(spec_serialize(v)) == Ok::<DepView, ParseFail>(v),
{
    let s = spec_serialize(v);
    match v.range {
        Some((op, vr)) => {
            if v.preffix == FModPreffix::Required {
                assert(s =~= v.name + seq![' '] + (op + seq![' '] + vr));
                lemma_tokens_cons_word(v.name, op + seq![' '] + vr);
                assert(op + seq![' '] + vr =~= op + seq![' '] + (vr + Seq::<char>::empty()));
                lemma_tokens_cons_word(op, vr);
                lemma_tokens_single(vr);
                assert(spec_tokens(s) =~= seq![v.name, op, vr]);
                if req_ok(op + vr) {
                    let parsed = spec_parse_line(s);
                    assert(parsed matches Ok(w) && w == v);
                }
            } else {
                let m = spec_marker(v.preffix);
                lemma_marker_word(v.preffix);
                assert(s =~= m + seq![' '] + (v.name + seq![' '] + (op + seq![' '] + vr)));
                lemma_tokens_cons_word(m, v.name + seq![' '] + (op + seq![' '] + vr));
                lemma_tokens_cons_word(v.name, op + seq![' '] + vr);
                lemma_tokens_cons_word(op, vr);
                lemma_tokens_single(vr);
                assert(spec_tokens(s) =~= seq![m, v.name, op, vr]);
                if req_ok(op + vr) {
                    lemma_prefix_of_marker(v.preffix);
                    let parsed = spec_parse_line(s);
                    assert(parsed matches Ok(w) && w == v);
                }
            }
        },
        None => {
            let m = spec_marker(v.preffix);
            lemma_marker_word(v.preffix);
            assert(s =~= m + seq![' '] + v.name);
            lemma_tokens_cons_word(m, v.name);
            lemma_tokens_single(v.name);
            assert(spec_tokens(s) =~= seq![m, v.name]);
            lemma_prefix_of_marker(v.preffix);
            let parsed = spec_parse_line(s);
            assert(parsed matches Ok(w) && w == v);
        },
    }
}

/// A marker in front of a name parses to the marker's own prefix; the
/// empty marker token resolves to `Required`.
pub proof fn lemma_marker_line_parse(p: FModPreffix, name: Seq<char>)
    requires
        is_word(name),
        p != FModPreffix::Required,
    ensures
        spec_parse_line(spec_marker(p) + seq![' '] + name) == Ok::<DepView, ParseFail>(
            DepView { name: name, preffix: p, range: None::<(Seq<char>, Seq<char>)> },
        ),
        spec_prefix_of(Seq::<char>::empty()) == Some(FModPreffix::Required),
{
    lemma_round_trip(DepView { name: name, preffix: p, range: None::<(Seq<char>, Seq<char>)> });
}

/// A line of one token, or of any count other than two, three or four,
/// is rejected; so is a line whose operator and version tokens do not
/// join to a well-formed requirement. No default or partial dependency
/// comes out of such a line.
pub proof fn lemma_malformed_rejected(s: Seq<char>)
    ensures
        !(spec_tokens(s).len() == 2 || spec_tokens(s).len() == 3 || spec_tokens(s).len() == 4)
            ==> spec_parse_line(s) == Err::<DepView, ParseFail>(ParseFail::Format),
        spec_tokens(s).len() == 3 && !req_ok(spec_tokens(s)[1] + spec_tokens(s)[2])
            ==> spec_parse_line(s) == Err::<DepView, ParseFail>(ParseFail::Format),
        spec_tokens(s).len() == 4 && !req_ok(spec_tokens(s)[2] + spec_tokens(s)[3])
            ==> spec_parse_line(s) == Err::<DepView, ParseFail>(ParseFail::Format),
{
}

} // verus!
