//! Version tokens and version ranges.
//!
//! A release's version is kept as a [`VersionEncapsulate`]: either the
//! components of a strict semantic version, or the raw text verbatim when
//! the upstream data is not strict semver. A requested range is kept as
//! the operator and version tokens it was declared with. Range matching
//! itself is semver's; the legacy `0.0.` rewrite around it is the
//! library's own and is verified.
use crate::error::Error;
use crate::text::{push_char, spec_dec, u64_to_dec};
use vstd::prelude::*;

verus! {

/// Whether semver's `VersionReq::parse` accepts the range written `s`.
pub uninterp spec fn req_ok(s: Seq<char>) -> bool;

/// The components that semver's `Version::parse` reads out of `s`:
/// major, minor, patch, pre-release and build metadata; `None` when `s`
/// is not a strict semantic version.
pub uninterp spec fn ver_parse(s: Seq<char>) -> Option<(u64, u64, u64, Seq<char>, Seq<char>)>;

/// Whether the version written `ver` satisfies the range written `req`,
/// as semver's `VersionReq::matches` decides it.
pub uninterp spec fn req_match(req: Seq<char>, ver: Seq<char>) -> bool;

/// Whether `s` is a strict semantic version.
pub open spec fn ver_ok(s: Seq<char>) -> bool {
    ver_parse(s) is Some
}

/// Relies on semver::VersionReq::parse: whether `s` is a well-formed
/// version requirement.
#[verifier::external_body]
pub(crate) fn req_is_ok(s: &str) -> (r: bool)
    ensures
        r == req_ok(s@),
{
    semver::VersionReq::parse(s).is_ok()
}

/// Relies on semver::Version::parse: the numeric components and the
/// pre-release and build identifiers of a strict semantic version.
#[verifier::external_body]
pub(crate) fn version_parts(s: &str) -> (r: Option<(u64, u64, u64, String, String)>)
    ensures
        match (r, ver_parse(s@)) {
            (Some(t), Some(g)) => t.0 == g.0 && t.1 == g.1 && t.2 == g.2 && t.3@ == g.3 && t.4@
                == g.4,
            (None, None) => true,
            _ => false,
        },
{
    match semver::Version::parse(s) {
        Ok(v) => Some((
            v.major,
            v.minor,
            v.patch,
            v.pre.as_str().to_string(),
            v.build.as_str().to_string(),
        )),
        Err(_) => None,
    }
}

/// Relies on semver::VersionReq::parse, semver::Version::parse and
/// semver::VersionReq::matches: whether the version written `ver`
/// satisfies the range written `req`; `None` when either text does not
/// parse.
#[verifier::external_body]
pub(crate) fn req_matches_strs(req: &str, ver: &str) -> (r: Option<bool>)
    ensures
        r is Some <==> (req_ok(req@) && ver_ok(ver@)),
        r is Some ==> r == Some(req_match(req@, ver@)),
{
    match (semver::VersionReq::parse(req), semver::Version::parse(ver)) {
        (Ok(rq), Ok(v)) => Some(rq.matches(&v)),
        _ => None,
    }
}

/// A version string of a release: the components of a strict semantic
/// version, or the raw text kept verbatim when it is not one.
#[derive(Debug, PartialEq, Eq)]
pub enum VersionEncapsulate {
    Version { major: u64, minor: u64, patch: u64, pre: String, build: String },
    Raw(String),
}

impl Clone for VersionEncapsulate {
    fn clone(&self) -> (r: Self)
        ensures
            r == *self,
    {
        match self {
            VersionEncapsulate::Version { major, minor, patch, pre, build } => {
                VersionEncapsulate::Version {
                    major: *major,
                    minor: *minor,
                    patch: *patch,
                    pre: pre.clone(),
                    build: build.clone(),
                }
            },
            VersionEncapsulate::Raw(s) => VersionEncapsulate::Raw(s.clone()),
        }
    }
}

impl VersionEncapsulate {
    /// Reads a version string off the wire: the parsed components when
    /// it is strict semver, the raw text otherwise.
    pub fn of_text(s: &str) -> (r: VersionEncapsulate)
        ensures
            match ver_parse(s@) {
                Some(g) => r matches VersionEncapsulate::Version { major, minor, patch, pre, build }
                    && major == g.0 && minor == g.1 && patch == g.2 && pre@ == g.3 && build@ == g.4,
                None => (r matches VersionEncapsulate::Raw(t) && t@ == s@),
            },
    {
        match version_parts(s) {
            Some((major, minor, patch, pre, build)) => VersionEncapsulate::Version {
                major,
                minor,
                patch,
                pre,
                build,
            },
            None => VersionEncapsulate::Raw(String::from_str(s)),
        }
    }
}

/// The canonical text of a semantic version with these components:
/// `major.minor.patch`, `-pre` when a pre-release tag is present and
/// `+build` when build metadata is present.
pub open spec fn spec_canon(
    major: nat,
    minor: nat,
    patch: nat,
    pre: Seq<char>,
    build: Seq<char>,
) -> Seq<char> {
    spec_dec(major) + seq!['.'] + spec_dec(minor) + seq!['.'] + spec_dec(patch) + (if pre.len()
        == 0 {
        Seq::<char>::empty()
    } else {
        seq!['-'] + pre
    }) + (if build.len() == 0 {
        Seq::<char>::empty()
    } else {
        seq!['+'] + build
    })
}

/// Renders a semantic version canonically from its components.
pub fn canon_version(major: u64, minor: u64, patch: u64, pre: &str, build: &str) -> (r: String)
    ensures
        r@ == spec_canon(major as nat, minor as nat, patch as nat, pre@, build@),
{
    let mut s = u64_to_dec(major);
    push_char(&mut s, '.');
    s.append(u64_to_dec(minor).as_str());
    push_char(&mut s, '.');
    s.append(u64_to_dec(patch).as_str());
    if !pre.is_empty() {
        push_char(&mut s, '-');
        s.append(pre);
    }
    if !build.is_empty() {
        push_char(&mut s, '+');
        s.append(build);
    }
    proof {
        assert(s@ =~= spec_canon(major as nat, minor as nat, patch as nat, pre@, build@));
    }
    s
}

/// The historical two-zero prefix of the legacy version encoding.
pub open spec fn has_legacy_prefix(s: Seq<char>) -> bool {
    s.len() >= 4 && s[0] == '0' && s[1] == '.' && s[2] == '0' && s[3] == '.'
}

/// The legacy rewrite: the leading `0.0.` replaced by `0.1.`.
pub open spec fn spec_rewrite(s: Seq<char>) -> Seq<char> {
    seq!['0', '.', '1', '.'] + s.skip(4)
}

/// Rewrites the leading legacy `0.0.` prefix to `0.1.`; `None` when the
/// text does not carry that prefix.
pub fn rewrite_legacy(s: &str) -> (r: Option<String>)
    ensures
        r is Some <==> has_legacy_prefix(s@),
        match r {
            Some(t) => t@ == spec_rewrite(s@),
            None => true,
        },
{
    let n = s.unicode_len();
    if n >= 4 && s.get_char(0) == '0' && s.get_char(1) == '.' && s.get_char(2) == '0' && s.get_char(
        3,
    ) == '.' {
        let mut out = String::new();
        push_char(&mut out, '0');
        push_char(&mut out, '.');
        push_char(&mut out, '1');
        push_char(&mut out, '.');
        out.append(s.substring_char(4, n));
        proof {
            assert(out@ =~= spec_rewrite(s@));
        }
        Some(out)
    } else {
        None
    }
}

/// The ordering key of a version token: the numeric components and the
/// pre-release tag. A parsed token is keyed by its own components; a
/// raw token is keyed by what its legacy rewrite parses to, and has no
/// key when the rewrite cannot reconcile it.
pub open spec fn spec_key(t: VersionEncapsulate) -> Option<(u64, u64, u64, Seq<char>)> {
    match t {
        VersionEncapsulate::Version { major, minor, patch, pre, build } => Some(
            (major, minor, patch, pre@),
        ),
        VersionEncapsulate::Raw(s) => if has_legacy_prefix(s@) {
            match ver_parse(spec_rewrite(s@)) {
                Some(g) => Some((g.0, g.1, g.2, g.3)),
                None => None,
            }
        } else {
            None
        },
    }
}

/// The view of an executable ordering key.
pub open spec fn key_view(k: (u64, u64, u64, String)) -> (u64, u64, u64, Seq<char>) {
    (k.0, k.1, k.2, k.3@)
}

/// Computes a token's ordering key; a raw token the legacy rewrite
/// cannot reconcile, or whose rewrite is still not a version, is a hard
/// error.
pub fn token_key(t: &VersionEncapsulate) -> (r: Result<(u64, u64, u64, String), Error>)
    ensures
        match (r, spec_key(*t)) {
            (Ok(k), Some(g)) => key_view(k) == g,
            (Err(e), None) => e matches Error::VersionError(_),
            _ => false,
        },
{
    match t {
        VersionEncapsulate::Version { major, minor, patch, pre, build } => Ok(
            (*major, *minor, *patch, pre.clone()),
        ),
        VersionEncapsulate::Raw(s) => {
            match rewrite_legacy(s.as_str()) {
                Some(rw) => {
                    match version_parts(rw.as_str()) {
                        Some((major, minor, patch, pre, _build)) => Ok((major, minor, patch, pre)),
                        None => Err(Error::VersionError(rw)),
                    }
                },
                None => Err(Error::VersionError(s.clone())),
            }
        },
    }
}

/// A requested version range, kept as the operator token and version
/// token it was declared with; the range text semver sees is their
/// concatenation.
#[derive(Debug, PartialEq, Eq)]
pub struct VersionRange {
    pub op: String,
    pub ver: String,
}

impl Clone for VersionRange {
    fn clone(&self) -> (r: Self)
        ensures
            r == *self,
    {
        VersionRange { op: self.op.clone(), ver: self.ver.clone() }
    }
}

/// The version component of a range under the legacy rewrite: rewritten
/// when it carries the legacy prefix, unchanged otherwise.
pub open spec fn range_ver_for_raw(rv: Seq<char>) -> Seq<char> {
    if has_legacy_prefix(rv) {
        spec_rewrite(rv)
    } else {
        rv
    }
}

/// What matching a token against a range yields: `Some` of semver's
/// verdict, or `None` when the pair cannot be reconciled (a raw token
/// without the legacy prefix, or text semver does not accept).
pub open spec fn spec_matches(op: Seq<char>, rv: Seq<char>, t: VersionEncapsulate) -> Option<
    bool,
> {
    match t {
        VersionEncapsulate::Version { major, minor, patch, pre, build } => {
            let vs = spec_canon(major as nat, minor as nat, patch as nat, pre@, build@);
            if req_ok(op + rv) && ver_ok(vs) {
                Some(req_match(op + rv, vs))
            } else {
                None
            }
        },
        VersionEncapsulate::Raw(s) => {
            if has_legacy_prefix(s@) {
                let rq = op + range_ver_for_raw(rv);
                let vs = spec_rewrite(s@);
                if req_ok(rq) && ver_ok(vs) {
                    Some(req_match(rq, vs))
                } else {
                    None
                }
            } else {
                None
            }
        },
    }
}

impl VersionRange {
    /// The range text: operator and version joined.
    pub open spec fn spec_req(self) -> Seq<char> {
        self.op@ + self.ver@
    }

    /// Builds a range from its operator and version tokens, rejecting a
    /// pair whose joined text is not a well-formed requirement.
    pub fn new(op: String, ver: String) -> (r: Result<VersionRange, Error>)
        ensures
            match r {
                Ok(v) => req_ok(op@ + ver@) && v.op@ == op@ && v.ver@ == ver@,
                Err(e) => !req_ok(op@ + ver@) && e matches Error::ParcingError(_),
            },
    {
        let joined = op.clone().concat(ver.as_str());
        if req_is_ok(joined.as_str()) {
            Ok(VersionRange { op, ver })
        } else {
            let mut msg = String::new();
            msg.append("invalid version range: ");
            msg.append(joined.as_str());
            Err(Error::ParcingError(msg))
        }
    }

    /// Whether a release's version token satisfies this range: semver
    /// matching for a parsed token; for a raw token, both sides pass
    /// through the legacy rewrite first, and an irreconcilable pair is a
    /// hard error rather than a silent `false`.
    pub fn matches(&self, t: &VersionEncapsulate) -> (r: Result<bool, Error>)
        ensures
            match r {
                Ok(b) => spec_matches(self.op@, self.ver@, *t) == Some(b),
                Err(e) => spec_matches(self.op@, self.ver@, *t) is None && e matches Error::VersionError(_),
            },
    {
        match t {
            VersionEncapsulate::Version { major, minor, patch, pre, build } => {
                let vs = canon_version(*major, *minor, *patch, pre.as_str(), build.as_str());
                let rq = self.op.clone().concat(self.ver.as_str());
                match req_matches_strs(rq.as_str(), vs.as_str()) {
                    Some(b) => Ok(b),
                    None => Err(Error::VersionError(vs)),
                }
            },
            VersionEncapsulate::Raw(s) => {
                match rewrite_legacy(s.as_str()) {
                    Some(vs) => {
                        let rv = match rewrite_legacy(self.ver.as_str()) {
                            Some(r2) => r2,
                            None => self.ver.clone(),
                        };
                        let rq = self.op.clone().concat(rv.as_str());
                        match req_matches_strs(rq.as_str(), vs.as_str()) {
                            Some(b) => Ok(b),
                            None => Err(Error::VersionError(vs)),
                        }
                    },
                    None => Err(Error::VersionError(s.clone())),
                }
            },
        }
    }
}

} // verus!
