//! Model references: parsing a registry locator of the form
//! `owner/repo[@revision][:file]` or `owner/repo/path/to/file`, resolving
//! a filename alias against the registry's file listing, and building the
//! artifact download URL.

use vstd::prelude::*;

use crate::errors::{ParseError, ResolutionError};
use crate::strutil::{
    all_whitespace, contains_seq, ends_with, find_char, find_char_from, is_unicode_whitespace,
    lower_of, lowercase, rfind_char, spec_find_from, spec_rfind, spec_trim_char,
    str_contains_str, str_ends_with_str, trim_char,
};

verus! {

/// A structured registry locator: repository `owner/name`, revision, and
/// a file path or an unresolved filename alias.
#[derive(Debug, Clone)]
pub struct HuggingFaceModel {
    /// The `owner/name` repository pair.
    pub repo: String,
    /// The revision, `main` when none was given.
    pub revision: String,
    /// The file path within the repository, or an alias (no `.`, no `/`)
    /// still to be resolved against the registry listing.
    pub file: String,
}

/// The text left of the first `:`, or all of `s` when there is none.
pub open spec fn left_of_colon(s: Seq<char>) -> Seq<char> {
    match spec_find_from(s, ':', 0) {
        Some(i) => s.subrange(0, i),
        None => s,
    }
}

/// The text right of the first `:`, when there is one.
pub open spec fn right_of_colon(s: Seq<char>) -> Option<Seq<char>> {
    match spec_find_from(s, ':', 0) {
        Some(i) => Some(s.subrange(i + 1, s.len() as int)),
        None => None,
    }
}

/// The repository-and-path text left of the first `@` of `left`.
pub open spec fn repo_text_of(left: Seq<char>) -> Seq<char> {
    match spec_find_from(left, '@', 0) {
        Some(i) => left.subrange(0, i),
        None => left,
    }
}

/// The revision named right of the first `@` of `left`, or `main`.
pub open spec fn revision_of(left: Seq<char>) -> Seq<char> {
    match spec_find_from(left, '@', 0) {
        Some(i) => left.subrange(i + 1, left.len() as int),
        None => "main"@,
    }
}

/// What `parse` yields on `s`: the `(repository, revision, file)` triple,
/// or the error naming the missing part.
pub open spec fn spec_parse(s: Seq<char>) -> Result<(Seq<char>, Seq<char>, Seq<char>), ParseError> {
    if forall|j: int| 0 <= j < s.len() ==> is_unicode_whitespace(#[trigger] s[j]) {
        Err(ParseError::EmptyReference)
    } else {
        let left = left_of_colon(s);
        let rw = repo_text_of(left);
        let rev = revision_of(left);
        match spec_find_from(rw, '/', 0) {
            None => Err(ParseError::MissingOwnerRepo),
            Some(i1) => {
                let i2o = spec_find_from(rw, '/', i1 + 1);
                let repo = match i2o {
                    Some(i2) => rw.subrange(0, i2),
                    None => rw,
                };
                let extra = match i2o {
                    Some(i2) => Some(rw.subrange(i2 + 1, rw.len() as int)),
                    None => None,
                };
                let file_opt = match right_of_colon(s) {
                    Some(r) => {
                        let t = spec_trim_char(r, '/');
                        if t.len() > 0 {
                            Some(t)
                        } else {
                            extra
                        }
                    },
                    None => extra,
                };
                match file_opt {
                    Some(f) => Ok((repo, rev, f)),
                    None => Err(ParseError::MissingFilename),
                }
            },
        }
    }
}

/// The download URL for the triple: every component embedded verbatim in
/// path position.
pub open spec fn spec_download_url(repo: Seq<char>, rev: Seq<char>, file: Seq<char>) -> Seq<char> {
    "https://huggingface.co/"@ + repo + "/resolve/"@ + rev + "/"@ + file + "?download=1"@
}

/// The final path segment of `file`: the text after the last `/`, or all
/// of `file` when it has none.
pub open spec fn spec_filename(file: Seq<char>) -> Seq<char> {
    match spec_rfind(file, '/') {
        Some(i) => file.subrange(i + 1, file.len() as int),
        None => file,
    }
}

/// Whether `file` is an alias still to be resolved: no path separator and
/// no extension.
pub open spec fn spec_needs_resolution(file: Seq<char>) -> bool {
    spec_find_from(file, '/', 0) is None && spec_find_from(file, '.', 0) is None
}

/// Whether the listed `name` can stand for `alias`: its lowercase form
/// contains the lowercase alias and carries the artifact extension.
pub open spec fn is_alias_candidate(name: Seq<char>, alias: Seq<char>) -> bool {
    contains_seq(lower_of(name), lower_of(alias)) && ends_with(lower_of(name), ".gguf"@)
}

/// Whether `name` matches the alias exactly at the end: its lowercase
/// form ends in the lowercase alias followed by the artifact extension.
pub open spec fn is_exact_suffix_match(name: Seq<char>, alias: Seq<char>) -> bool {
    ends_with(lower_of(name), lower_of(alias) + ".gguf"@)
}

/// What alias resolution yields over the listing `names`: an error when
/// nothing matches; else the first exact-suffix match; else the first
/// shortest candidate.
pub open spec fn resolve_post(
    names: Seq<Seq<char>>,
    alias: Seq<char>,
    r: Result<Seq<char>, ResolutionError>,
) -> bool {
    match r {
        Err(e) => e == ResolutionError::NoMatch && forall|i: int|
            0 <= i < names.len() ==> !is_alias_candidate(#[trigger] names[i], alias),
        Ok(f) => {
            if exists|i: int|
                0 <= i < names.len() && is_alias_candidate(#[trigger] names[i], alias)
                    && is_exact_suffix_match(names[i], alias) {
                exists|i: int|
                    0 <= i < names.len() && is_alias_candidate(#[trigger] names[i], alias)
                        && is_exact_suffix_match(names[i], alias) && f == names[i]
                        && forall|j: int|
                        0 <= j < i ==> !(is_alias_candidate(#[trigger] names[j], alias)
                            && is_exact_suffix_match(names[j], alias))
            } else {
                exists|i: int|
                    0 <= i < names.len() && is_alias_candidate(#[trigger] names[i], alias)
                        && f == names[i] && (forall|j: int|
                        0 <= j < names.len() && is_alias_candidate(#[trigger] names[j], alias)
                            ==> names[j].len() >= names[i].len()) && (forall|j: int|
                        0 <= j < i && is_alias_candidate(#[trigger] names[j], alias)
                            ==> names[j].len() > names[i].len())
            }
        },
    }
}

impl HuggingFaceModel {
    /// Parse a registry locator such as `owner/repo:file.gguf`,
    /// `owner/repo@revision:file`, or `owner/repo/path/to/file`.
    pub fn parse(reference: &str) -> (r: Result<HuggingFaceModel, ParseError>)
        ensures
            match r {
                Ok(m) => spec_parse(reference@) == Ok::<_, ParseError>(
                    (m.repo@, m.revision@, m.file@),
                ),
                Err(e) => spec_parse(reference@) == Err::<(Seq<char>, Seq<char>, Seq<char>), _>(e),
            },
    {
        if all_whitespace(reference) {
            return Err(ParseError::EmptyReference);
        }
        let n: usize = reference.unicode_len();

        let (left, right): (&str, Option<&str>) = match find_char(reference, ':') {
            Some(i) => (
                reference.substring_char(0, i),
                Some(reference.substring_char(i + 1, n)),
            ),
            None => (reference, None),
        };

        let ln: usize = left.unicode_len();
        let (rw, revision): (&str, String) = match find_char(left, '@') {
            Some(i) => (
                left.substring_char(0, i),
                String::from_str(left.substring_char(i + 1, ln)),
            ),
            None => (left, String::from_str("main")),
        };

        let rwn: usize = rw.unicode_len();
        let i1: usize = match find_char(rw, '/') {
            Some(i) => i,
            None => {
                return Err(ParseError::MissingOwnerRepo);
            },
        };

        let i2o: Option<usize> = find_char_from(rw, '/', i1 + 1);
        let repo: String = match i2o {
            Some(i2) => String::from_str(rw.substring_char(0, i2)),
            None => String::from_str(rw),
        };
        let extra: Option<String> = match i2o {
            Some(i2) => Some(String::from_str(rw.substring_char(i2 + 1, rwn))),
            None => None,
        };

        let file_opt: Option<String> = match right {
            Some(rstr) => {
                let t = trim_char(rstr, '/');
                if t.as_str().unicode_len() > 0 {
                    Some(t)
                } else {
                    extra
                }
            },
            None => extra,
        };

        match file_opt {
            Some(f) => Ok(HuggingFaceModel { repo, revision, file: f }),
            None => Err(ParseError::MissingFilename),
        }
    }

    /// The URL the artifact bytes are fetched from; a pure function of
    /// the reference, no I/O.
    pub fn download_url(&self) -> (r: String)
        ensures
            r@ == spec_download_url(self.repo@, self.revision@, self.file@),
    {
        let mut url = String::from_str("https://huggingface.co/");
        url.append(self.repo.as_str());
        url.append("/resolve/");
        url.append(self.revision.as_str());
        url.append("/");
        url.append(self.file.as_str());
        url.append("?download=1");
        proof {
            assert(url@ =~= spec_download_url(self.repo@, self.revision@, self.file@));
        }
        url
    }

    /// The bare filename the artifact is stored under locally.
    pub fn filename(&self) -> (r: String)
        ensures
            r@ == spec_filename(self.file@),
    {
        let n: usize = self.file.as_str().unicode_len();
        match rfind_char(self.file.as_str(), '/') {
            Some(i) => String::from_str(self.file.as_str().substring_char(i + 1, n)),
            None => self.file.clone(),
        }
    }

    /// Whether `file` is a short alias that must be resolved against the
    /// registry's file listing before any filesystem or network use.
    pub fn needs_filename_resolution(&self) -> (r: bool)
        ensures
            r == spec_needs_resolution(self.file@),
    {
        let slash = find_char(self.file.as_str(), '/');
        let dot = find_char(self.file.as_str(), '.');
        slash.is_none() && dot.is_none()
    }

    /// Replace a filename alias by the concrete filename it resolves to
    /// in `listing`; a reference whose file is already concrete is left
    /// unchanged.
    pub fn materialize_filename(&mut self, listing: &Vec<String>) -> (r: Result<
        (),
        ResolutionError,
    >)
        ensures
            final(self).repo@ == old(self).repo@,
            final(self).revision@ == old(self).revision@,
            !spec_needs_resolution(old(self).file@)
                ==> r is Ok && final(self).file@ == old(self).file@,
            spec_needs_resolution(old(self).file@) ==> match r {
                Ok(_) => resolve_post(listing.deep_view(), old(self).file@, Ok(final(self).file@)),
                Err(e) => resolve_post(listing.deep_view(), old(self).file@, Err(e))
                    && final(self).file@ == old(self).file@,
            },
    {
        if !self.needs_filename_resolution() {
            return Ok(());
        }
        let resolved = resolve_alias(listing, self.file.as_str());
        match resolved {
            Ok(f) => {
                self.file = f;
                Ok(())
            },
            Err(e) => Err(e),
        }
    }
}

/// Pick the concrete filename an alias stands for among the registry's
/// listed names: the first exact-suffix match on `{alias}.gguf` wins,
/// else the first shortest name containing the alias.
pub fn resolve_alias(listing: &Vec<String>, alias: &str) -> (r: Result<String, ResolutionError>)
    ensures
        resolve_post(
            listing.deep_view(),
            alias@,
            match r {
                Ok(f) => Ok(f@),
                Err(e) => Err(e),
            },
        ),
{
    let ghost names = listing.deep_view();
    let alias_low = lowercase(alias);
    let mut suffix = lowercase(alias);
    suffix.append(".gguf");

    let mut best: Option<usize> = None;
    let mut i: usize = 0;
    while i < listing.len()
        invariant
            names == listing.deep_view(),
            names.len() == listing.len(),
            forall|k: int| 0 <= k < names.len() ==> names[k] == listing@[k]@,
            alias_low@ == lower_of(alias@),
            suffix@ == lower_of(alias@) + ".gguf"@,
            i <= listing.len(),
            forall|j: int|
                0 <= j < i ==> !(is_alias_candidate(#[trigger] names[j], alias@)
                    && is_exact_suffix_match(names[j], alias@)),
            match best {
                Some(b) => b < i && is_alias_candidate(names[b as int], alias@) && (forall|j: int|
                    0 <= j < i && is_alias_candidate(#[trigger] names[j], alias@)
                        ==> names[j].len() >= names[b as int].len()) && (forall|j: int|
                    0 <= j < b && is_alias_candidate(#[trigger] names[j], alias@)
                        ==> names[j].len() > names[b as int].len()),
                None => forall|j: int|
                    0 <= j < i ==> !is_alias_candidate(#[trigger] names[j], alias@),
            },
        decreases listing.len() - i,
    {
        let low = lowercase(listing[i].as_str());
        let cand = str_contains_str(low.as_str(), alias_low.as_str()) && str_ends_with_str(
            low.as_str(),
            ".gguf",
        );
        if cand {
            if str_ends_with_str(low.as_str(), suffix.as_str()) {
                proof {
                    assert(is_alias_candidate(names[i as int], alias@)
                        && is_exact_suffix_match(names[i as int], alias@));
                }
                return Ok(listing[i].clone());
            }
            match best {
                Some(b) => {
                    if listing[i].as_str().unicode_len() < listing[b].as_str().unicode_len() {
                        best = Some(i);
                    }
                },
                None => {
                    best = Some(i);
                },
            }
        }
        i = i + 1;
    }
    match best {
        Some(b) => Ok(listing[b].clone()),
        None => Err(ResolutionError::NoMatch),
    }
}

/// Alias resolution is deterministic: for one listing and one alias, any
/// two results that resolution admits are the same result.
pub proof fn lemma_resolve_alias_deterministic(
    names: Seq<Seq<char>>,
    alias: Seq<char>,
    r1: Result<Seq<char>, ResolutionError>,
    r2: Result<Seq<char>, ResolutionError>,
)
    requires
        resolve_post(names, alias, r1),
        resolve_post(names, alias, r2),
    ensures
        r1 == r2,
{
    match (r1, r2) {
        (Ok(f1), Ok(f2)) => {
            if exists|i: int|
                0 <= i < names.len() && is_alias_candidate(#[trigger] names[i], alias)
                    && is_exact_suffix_match(names[i], alias) {
                let i1 = choose|i: int|
                    0 <= i < names.len() && is_alias_candidate(#[trigger] names[i], alias)
                        && is_exact_suffix_match(names[i], alias) && f1 == names[i] && forall|
                        j: int,
                    |
                        0 <= j < i ==> !(is_alias_candidate(#[trigger] names[j], alias)
                            && is_exact_suffix_match(names[j], alias));
                let i2 = choose|i: int|
                    0 <= i < names.len() && is_alias_candidate(#[trigger] names[i], alias)
                        && is_exact_suffix_match(names[i], alias) && f2 == names[i] && forall|
                        j: int,
                    |
                        0 <= j < i ==> !(is_alias_candidate(#[trigger] names[j], alias)
                            && is_exact_suffix_match(names[j], alias));
                assert(!(i1 < i2) && !(i2 < i1));
            } else {
                let i1 = choose|i: int|
                    0 <= i < names.len() && is_alias_candidate(#[trigger] names[i], alias) && f1
                        == names[i] && (forall|j: int|
                        0 <= j < names.len() && is_alias_candidate(#[trigger] names[j], alias)
                            ==> names[j].len() >= names[i].len()) && (forall|j: int|
                        0 <= j < i && is_alias_candidate(#[trigger] names[j], alias)
                            ==> names[j].len() > names[i].len());
                let i2 = choose|i: int|
                    0 <= i < names.len() && is_alias_candidate(#[trigger] names[i], alias) && f2
                        == names[i] && (forall|j: int|
                        0 <= j < names.len() && is_alias_candidate(#[trigger] names[j], alias)
                            ==> names[j].len() >= names[i].len()) && (forall|j: int|
                        0 <= j < i && is_alias_candidate(#[trigger] names[j], alias)
                            ==> names[j].len() > names[i].len());
                assert(!(i1 < i2) && !(i2 < i1));
            }
        },
        (Ok(_), Err(_)) => {
            assert(false);
        },
        (Err(_), Ok(_)) => {
            assert(false);
        },
        (Err(_), Err(_)) => {
        },
    }
}

} // verus!
