//! Translates sum-type declarations into tagged-union code for a target
//! language without native sum types: an identifier-casing analyzer, a type
//! mapper, a variant lowering engine and two emitters that render one
//! declaration surface and one definition surface per declaration.

pub mod decl;
pub mod enum_hdr;
pub mod enum_impl;
pub mod error;
pub mod laws;
pub mod lower;
pub mod names;
pub mod types;

use vstd::prelude::*;

use crate::error::{Error, SpecError};
use crate::names::push_char;

verus! {

/// Splits a namespace string on double-colon separators, leftmost first: the
/// piece read so far is `cur`, and an empty string yields one empty piece.
pub open spec fn spec_split_ns(s: Seq<char>, cur: Seq<char>) -> Seq<Seq<char>>
    decreases s.len(),
{
    if s.len() == 0 {
        seq![cur]
    } else if s.len() >= 2 && s[0] == ':' && s[1] == ':' {
        seq![cur] + spec_split_ns(s.skip(2), Seq::empty())
    } else {
        spec_split_ns(s.skip(1), cur.push(s[0]))
    }
}

/// The namespace parts a configuration carries: the namespace string split on
/// double colons, or no parts at all when none was given.
pub open spec fn spec_namespace_parts(ns: Option<Seq<char>>) -> Seq<Seq<char>> {
    match ns {
        Some(s) => spec_split_ns(s, Seq::empty()),
        None => Seq::empty(),
    }
}

fn split_namespace(s: &str) -> (r: Vec<String>)
    ensures
        r.deep_view() == spec_split_ns(s@, Seq::empty()),
{
    let n = s.unicode_len();
    let mut parts: Vec<String> = Vec::new();
    let mut cur = String::new();
    let mut i: usize = 0;
    proof {
        assert(s@.skip(0) =~= s@);
    }
    while i < n
        invariant
            n == s@.len(),
            0 <= i <= n,
            spec_split_ns(s@, Seq::empty()) == parts.deep_view() + spec_split_ns(
                s@.skip(i as int),
                cur@,
            ),
        decreases n - i,
    {
        let c = s.get_char(i);
        proof {
            assert(s@.skip(i as int)[0] == s@[i as int]);
        }
        if c == ':' && i + 1 < n && s.get_char(i + 1) == ':' {
            proof {
                assert(s@.skip(i as int)[1] == s@[i + 1]);
                assert(s@.skip(i as int).skip(2) =~= s@.skip(i + 2));
            }
            let ghost prevdv = parts.deep_view();
            let ghost prevcur = cur@;
            parts.push(cur);
            cur = String::new();
            i = i + 2;
            proof {
                assert(parts.deep_view() =~= prevdv.push(prevcur));
                assert(prevdv + (seq![prevcur] + spec_split_ns(s@.skip(i as int), Seq::empty()))
                    =~= parts.deep_view() + spec_split_ns(s@.skip(i as int), Seq::empty()));
            }
        } else {
            proof {
                assert(s@.skip(i as int).skip(1) =~= s@.skip(i + 1));
                assert(s@.skip(i as int).len() >= 2 ==> s@.skip(i as int)[1] == s@[i + 1]);
            }
            push_char(&mut cur, c);
            i = i + 1;
        }
    }
    proof {
        assert(s@.skip(n as int) =~= Seq::<char>::empty());
    }
    let ghost prevdv = parts.deep_view();
    let ghost prevcur = cur@;
    parts.push(cur);
    proof {
        assert(parts.deep_view() =~= prevdv.push(prevcur));
        assert(prevdv + seq![prevcur] =~= parts.deep_view());
    }
    parts
}

/// A validated generator configuration: the source text to compile, the
/// namespace parts, and the directories the artifacts are saved under.
pub struct Config<'a> {
    pub source_code: &'a str,
    pub namespace: Vec<String>,
    pub header_dir: String,
    pub source_dir: String,
}

/// Collects the generator's configuration before any work is done: the source
/// text, an optional target namespace, and the two output directories.
pub struct Builder<'a> {
    source_code: &'a str,
    namespace: Option<String>,
    header_dir: Option<String>,
    source_dir: Option<String>,
}

impl<'a> Builder<'a> {
    /// The source text the builder was started with.
    pub closed spec fn spec_source(&self) -> Seq<char> {
        self.source_code@
    }

    /// The namespace set so far, if any.
    pub closed spec fn spec_namespace(&self) -> Option<Seq<char>> {
        match self.namespace {
            Some(ref s) => Some(s@),
            None => None,
        }
    }

    /// The header directory set so far, if any.
    pub closed spec fn spec_header_dir(&self) -> Option<Seq<char>> {
        match self.header_dir {
            Some(ref s) => Some(s@),
            None => None,
        }
    }

    /// The source directory set so far, if any.
    pub closed spec fn spec_source_dir(&self) -> Option<Seq<char>> {
        match self.source_dir {
            Some(ref s) => Some(s@),
            None => None,
        }
    }

    /// Starts a builder over the given source text, with nothing configured.
    pub fn new(source_code: &'a str) -> (r: Self)
        ensures
            r.spec_source() == source_code@,
            r.spec_namespace() is None,
            r.spec_header_dir() is None,
            r.spec_source_dir() is None,
    {
        Self { source_code, namespace: None, header_dir: None, source_dir: None }
    }

    /// Sets the target namespace, replacing any earlier one.
    pub fn with_namespace(self, namespace: &str) -> (r: Self)
        ensures
            r.spec_source() == self.spec_source(),
            r.spec_namespace() == Some(namespace@),
            r.spec_header_dir() == self.spec_header_dir(),
            r.spec_source_dir() == self.spec_source_dir(),
    {
        Self { namespace: Some(namespace.to_owned()), ..self }
    }

    /// Sets the directory the headers are saved under.
    pub fn save_headers_at(self, path: &str) -> (r: Self)
        ensures
            r.spec_source() == self.spec_source(),
            r.spec_namespace() == self.spec_namespace(),
            r.spec_header_dir() == Some(path@),
            r.spec_source_dir() == self.spec_source_dir(),
    {
        Self { header_dir: Some(path.to_owned()), ..self }
    }

    /// Sets the directory the definition files are saved under.
    pub fn save_sources_at(self, path: &str) -> (r: Self)
        ensures
            r.spec_source() == self.spec_source(),
            r.spec_namespace() == self.spec_namespace(),
            r.spec_header_dir() == self.spec_header_dir(),
            r.spec_source_dir() == Some(path@),
    {
        Self { source_dir: Some(path.to_owned()), ..self }
    }

    /// Validates the configuration: both output directories must be set, and
    /// the namespace string, if any, is split on double colons into its
    /// parts. Exactly the missing-directory configurations are rejected, the
    /// header directory checked first.
    pub fn build(self) -> (r: Result<Config<'a>, Error>)
        ensures
            self.spec_header_dir() is None ==> (r matches Err(e) && e.deep_view()
                == SpecError::ConfigError(
                "header_dir"@,
                "specify directory to save header files"@,
            )),
            self.spec_header_dir() is Some && self.spec_source_dir() is None ==> (r matches Err(e)
                && e.deep_view() == SpecError::ConfigError(
                "source_dir"@,
                "specify directory to save source files"@,
            )),
            self.spec_header_dir() is Some && self.spec_source_dir() is Some ==> (r matches Ok(cfg)
                && cfg.source_code@ == self.spec_source() && cfg.header_dir@
                == self.spec_header_dir()->0 && cfg.source_dir@ == self.spec_source_dir()->0
                && cfg.namespace.deep_view() == spec_namespace_parts(self.spec_namespace())),
    {
        if self.header_dir.is_none() {
            return Err(
                Error::ConfigError(
                    String::from_str("header_dir"),
                    String::from_str("specify directory to save header files"),
                ),
            );
        }
        if self.source_dir.is_none() {
            return Err(
                Error::ConfigError(
                    String::from_str("source_dir"),
                    String::from_str("specify directory to save source files"),
                ),
            );
        }
        let namespace = match self.namespace {
            Some(ns) => split_namespace(ns.as_str()),
            None => Vec::new(),
        };
        proof {
            if self.spec_namespace() is None {
                assert(namespace.deep_view() =~= spec_namespace_parts(self.spec_namespace()));
            }
        }
        let header_dir = match self.header_dir {
            Some(d) => d,
            None => String::new(),
        };
        let source_dir = match self.source_dir {
            Some(d) => d,
            None => String::new(),
        };
        Ok(Config { source_code: self.source_code, namespace, header_dir, source_dir })
    }
}

} // verus!
