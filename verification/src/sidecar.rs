//! Sidecar integrity metadata: the small JSON document stored next to a
//! downloaded artifact, holding the artifact's content hash and the
//! registry etag if one was seen. An artifact without a valid sidecar is
//! never trusted, so this codec is part of the integrity logic.

use vstd::prelude::*;

use crate::strutil::occurs_at;

verus! {

/// The integrity record persisted beside an artifact, named
/// `{artifactFilename}.meta.json`.
#[derive(Debug, Clone)]
pub struct ArtifactMetadata {
    /// Lowercase hex SHA-256 of the artifact bytes.
    pub sha256: String,
    /// The etag the registry declared for the transfer, if any.
    pub etag: Option<String>,
}

/// JSON whitespace.
pub open spec fn is_json_ws(c: char) -> bool {
    c == ' ' || c == '\t' || c == '\n' || c == '\r'
}

/// The first index at or after `i` holding a character that is not JSON
/// whitespace, or the end of `s`.
pub open spec fn spec_skip_ws(s: Seq<char>, i: int) -> int
    decreases s.len() - i,
{
    if 0 <= i < s.len() && is_json_ws(s[i]) {
        spec_skip_ws(s, i + 1)
    } else {
        i
    }
}

/// A JSON string body scanned from `i` up to its closing quote: the
/// decoded text and the index just past the quote. Only the escapes
/// `\"` and `\\` are understood; anything else fails.
pub open spec fn spec_scan_string(s: Seq<char>, i: int) -> Option<(Seq<char>, int)>
    decreases s.len() - i,
{
    if i < 0 || i >= s.len() {
        None
    } else if s[i] == '"' {
        Some((Seq::<char>::empty(), i + 1))
    } else if s[i] == '\\' {
        if i + 1 < s.len() && (s[i + 1] == '"' || s[i + 1] == '\\') {
            match spec_scan_string(s, i + 2) {
                Some((t, j)) => Some((seq![s[i + 1]] + t, j)),
                None => None,
            }
        } else {
            None
        }
    } else {
        match spec_scan_string(s, i + 1) {
            Some((t, j)) => Some((seq![s[i]] + t, j)),
            None => None,
        }
    }
}

/// What parsing a sidecar document yields: the hash and optional etag,
/// or nothing when `s` is not a well-formed sidecar.
pub open spec fn spec_parse_sidecar(s: Seq<char>) -> Option<(Seq<char>, Option<Seq<char>>)> {
    let i0 = spec_skip_ws(s, 0);
    if !(i0 < s.len() && s[i0] == '{') {
        None
    } else {
        let i1 = spec_skip_ws(s, i0 + 1);
        if !occurs_at(s, "\"sha256\""@, i1) {
            None
        } else {
            let i2 = spec_skip_ws(s, i1 + "\"sha256\""@.len());
            if !(i2 < s.len() && s[i2] == ':') {
                None
            } else {
                let i3 = spec_skip_ws(s, i2 + 1);
                if !(i3 < s.len() && s[i3] == '"') {
                    None
                } else {
                    match spec_scan_string(s, i3 + 1) {
                        None => None,
                        Some((sha, i4)) => {
                            let i5 = spec_skip_ws(s, i4);
                            if !(i5 < s.len() && s[i5] == ',') {
                                None
                            } else {
                                let i6 = spec_skip_ws(s, i5 + 1);
                                if !occurs_at(s, "\"etag\""@, i6) {
                                    None
                                } else {
                                    let i7 = spec_skip_ws(s, i6 + "\"etag\""@.len());
                                    if !(i7 < s.len() && s[i7] == ':') {
                                        None
                                    } else {
                                        spec_parse_etag_and_close(s, sha, spec_skip_ws(s, i7 + 1))
                                    }
                                }
                            }
                        },
                    }
                }
            }
        }
    }
}

/// The tail of sidecar parsing: the etag value (a string or `null`) and
/// the closing brace, with nothing but whitespace after it.
pub open spec fn spec_parse_etag_and_close(s: Seq<char>, sha: Seq<char>, i8: int) -> Option<
    (Seq<char>, Option<Seq<char>>),
> {
    if occurs_at(s, "null"@, i8) {
        spec_parse_close(s, sha, None, i8 + "null"@.len())
    } else if i8 < s.len() && s[i8] == '"' {
        match spec_scan_string(s, i8 + 1) {
            Some((e, i9)) => spec_parse_close(s, sha, Some(e), i9),
            None => None,
        }
    } else {
        None
    }
}

/// The closing brace and end of input.
pub open spec fn spec_parse_close(
    s: Seq<char>,
    sha: Seq<char>,
    etag: Option<Seq<char>>,
    i9: int,
) -> Option<(Seq<char>, Option<Seq<char>>)> {
    let i10 = spec_skip_ws(s, i9);
    if !(i10 < s.len() && s[i10] == '}') {
        None
    } else if spec_skip_ws(s, i10 + 1) == s.len() {
        Some((sha, etag))
    } else {
        None
    }
}

/// `s` with `"` and `\` escaped for embedding in a JSON string.
pub open spec fn spec_escape(s: Seq<char>) -> Seq<char>
    decreases s.len(),
{
    if s.len() == 0 {
        Seq::<char>::empty()
    } else {
        (if s[0] == '"' || s[0] == '\\' {
            seq!['\\', s[0]]
        } else {
            seq![s[0]]
        }) + spec_escape(s.drop_first())
    }
}

/// Escaping distributes over concatenation.
pub proof fn lemma_escape_app(a: Seq<char>, b: Seq<char>)
    ensures
        spec_escape(a + b) == spec_escape(a) + spec_escape(b),
    decreases a.len(),
{
    if a.len() == 0 {
        assert(a + b =~= b);
        assert(spec_escape(a) + spec_escape(b) =~= spec_escape(b));
    } else {
        assert((a + b).drop_first() =~= a.drop_first() + b);
        lemma_escape_app(a.drop_first(), b);
        assert(spec_escape(a + b) =~= spec_escape(a) + spec_escape(b));
    }
}

/// Scanning an escaped text followed by a closing quote yields exactly
/// that text and stops just past the quote.
proof fn lemma_scan_escaped(s: Seq<char>, i: int, x: Seq<char>)
    requires
        0 <= i,
        i + spec_escape(x).len() + 1 <= s.len(),
        s.subrange(i, i + spec_escape(x).len() as int) == spec_escape(x),
        s[i + spec_escape(x).len()] == '"',
    ensures
        spec_scan_string(s, i) == Some((x, i + spec_escape(x).len() + 1)),
    decreases x.len(),
{
    if x.len() == 0 {
        assert(spec_escape(x).len() == 0);
        assert(x =~= Seq::<char>::empty());
    } else {
        let c = x[0];
        let x2 = x.drop_first();
        let head: Seq<char> = if c == '"' || c == '\\' {
            seq!['\\', c]
        } else {
            seq![c]
        };
        let hl = head.len() as int;
        let e2 = spec_escape(x2);
        assert(spec_escape(x) == head + e2);
        assert(forall|k: int|
            0 <= k < spec_escape(x).len()
                ==> s[i + k] == #[trigger] spec_escape(x)[k]) by {
            assert(forall|k: int|
                0 <= k < spec_escape(x).len()
                    ==> s.subrange(i, i + spec_escape(x).len() as int)[k]
                    == #[trigger] spec_escape(x)[k]);
        }
        assert forall|k: int| 0 <= k < e2.len() implies #[trigger] s.subrange(
            i + hl,
            i + hl + e2.len() as int,
        )[k] == e2[k] by {
            assert(spec_escape(x)[hl + k] == (head + e2)[hl + k] == e2[k]);
            assert(s[i + hl + k] == spec_escape(x)[hl + k]);
        }
        assert(s.subrange(i + hl, i + hl + e2.len() as int) =~= e2);
        assert(s[i + hl + e2.len()] == '"');
        lemma_scan_escaped(s, i + hl, x2);
        assert(seq![c] + x2 =~= x);
        if c == '"' || c == '\\' {
            assert(s[i] == (head + e2)[0] == '\\');
            assert(s[i + 1] == (head + e2)[1] == c);
        } else {
            assert(s[i] == (head + e2)[0] == c);
        }
    }
}

/// The sidecar document for hash `sha` and etag `etag`, exactly as the
/// encoder renders it.
pub open spec fn spec_encode_sidecar(sha: Seq<char>, etag: Option<Seq<char>>) -> Seq<char> {
    "{\"sha256\":\""@ + spec_escape(sha) + "\",\"etag\":"@ + (match etag {
        Some(e) => seq!['"'] + spec_escape(e) + seq!['"'],
        None => "null"@,
    }) + "}"@
}

/// Round trip: a sidecar document the encoder renders parses back to
/// exactly the record it was rendered from, whatever the hash text and
/// etag hold.
pub proof fn lemma_sidecar_round_trip(sha: Seq<char>, etag: Option<Seq<char>>)
    ensures
        spec_parse_sidecar(spec_encode_sidecar(sha, etag)) == Some((sha, etag)),
{
    reveal_strlit("{\"sha256\":\"");
    reveal_strlit("\",\"etag\":");
    reveal_strlit("null");
    reveal_strlit("}");
    reveal_strlit("\"sha256\"");
    reveal_strlit("\"etag\"");
    let l1 = "{\"sha256\":\""@;
    let l2 = "\",\"etag\":"@;
    let l3 = "}"@;
    let esha = spec_escape(sha);
    let el = esha.len() as int;
    let v: Seq<char> = match etag {
        Some(t) => seq!['"'] + spec_escape(t) + seq!['"'],
        None => "null"@,
    };
    let e = spec_encode_sidecar(sha, etag);
    assert(e == l1 + esha + l2 + v + l3);
    assert(l1.len() == 11);
    assert(l2.len() == 9);
    assert(l3.len() == 1);
    assert(e.len() == 21 + el + v.len());

    assert forall|k: int| 0 <= k < 11 implies #[trigger] e[k] == l1[k] by {}
    assert forall|k: int| 0 <= k < el implies #[trigger] e[11 + k] == esha[k] by {}
    assert forall|k: int| 0 <= k < 9 implies #[trigger] e[11 + el + k] == l2[k] by {}
    assert forall|k: int| 0 <= k < v.len() implies #[trigger] e[20 + el + k] == v[k] by {}
    assert(e[20 + el + v.len()] == l3[0] == '}');

    // The fixed head: `{`, the hash key, `:`, and the opening quote.
    assert(e[0] == '{' && !is_json_ws('{'));
    assert(spec_skip_ws(e, 0) == 0);
    assert(e[1] == '"' && !is_json_ws('"'));
    assert(spec_skip_ws(e, 1) == 1);
    assert(e.subrange(1, 9) =~= "\"sha256\""@) by {
        assert forall|k: int| 0 <= k < 8 implies #[trigger] e.subrange(1, 9)[k]
            == "\"sha256\""@[k] by {
            assert(e[1 + k] == l1[1 + k]);
        }
    }
    assert(occurs_at(e, "\"sha256\""@, 1));
    assert(e[9] == ':' && !is_json_ws(':'));
    assert(spec_skip_ws(e, 9) == 9);
    assert(e[10] == '"' && !is_json_ws('"'));
    assert(spec_skip_ws(e, 10) == 10);

    // The hash text itself, up to its closing quote.
    assert(e.subrange(11, 11 + el) =~= esha);
    assert(e[11 + el] == l2[0] == '"');
    lemma_scan_escaped(e, 11, sha);
    assert(spec_scan_string(e, 11) == Some((sha, 12 + el)));

    // The separator and the etag key.
    assert(e[11 + el + 1] == l2[1] == ',' && !is_json_ws(','));
    assert(spec_skip_ws(e, 12 + el) == 12 + el);
    assert(e[13 + el] == l2[2] == '"');
    assert(spec_skip_ws(e, 13 + el) == 13 + el);
    assert(e.subrange(13 + el, 19 + el) =~= "\"etag\""@) by {
        assert forall|k: int| 0 <= k < 6 implies #[trigger] e.subrange(13 + el, 19 + el)[k]
            == "\"etag\""@[k] by {
            assert(e[11 + el + (2 + k)] == l2[2 + k]);
        }
    }
    assert(occurs_at(e, "\"etag\""@, 13 + el));
    assert(e[19 + el] == l2[8] == ':' && !is_json_ws(':'));
    assert(spec_skip_ws(e, 19 + el) == 19 + el);
    assert(spec_skip_ws(e, 20 + el) == 20 + el) by {
        assert(e[20 + el + 0] == v[0]);
        match etag {
            Some(t) => {
                assert(v[0] == '"' && !is_json_ws('"'));
            },
            None => {
                assert(v[0] == 'n' && !is_json_ws('n'));
            },
        }
    }

    match etag {
        None => {
            assert(v == "null"@);
            assert(e.subrange(20 + el, 24 + el) =~= "null"@) by {
                assert forall|k: int| 0 <= k < 4 implies #[trigger] e.subrange(
                    20 + el,
                    24 + el,
                )[k] == "null"@[k] by {
                    assert(e[20 + el + k] == v[k]);
                }
            }
            assert(occurs_at(e, "null"@, 20 + el));
            assert(e[24 + el] == '}') by {
                assert(e[20 + el + v.len()] == '}');
            }
            assert(spec_skip_ws(e, 24 + el) == 24 + el);
            assert(spec_skip_ws(e, 25 + el) == 25 + el == e.len());
            assert(spec_parse_close(e, sha, None, 24 + el) == Some((sha, etag)));
        },
        Some(t) => {
            let et = spec_escape(t);
            let etl = et.len() as int;
            assert(v.len() == 2 + etl);
            assert(e[20 + el] == v[0] == '"');
            assert(!occurs_at(e, "null"@, 20 + el)) by {
                if occurs_at(e, "null"@, 20 + el) {
                    assert(e.subrange(20 + el, 24 + el)[0] == "null"@[0] == 'n');
                    assert(e[20 + el] == 'n');
                }
            }
            assert(e.subrange(21 + el, 21 + el + etl) =~= et) by {
                assert forall|k: int| 0 <= k < etl implies #[trigger] e.subrange(
                    21 + el,
                    21 + el + etl,
                )[k] == et[k] by {
                    assert(e[20 + el + (1 + k)] == v[1 + k]);
                    assert(v[1 + k] == (seq!['"'] + et + seq!['"'])[1 + k] == et[k]);
                }
            }
            assert(e[21 + el + etl] == '"') by {
                assert(e[20 + el + (1 + etl)] == v[1 + etl]);
                assert(v[1 + etl] == (seq!['"'] + et + seq!['"'])[1 + etl] == '"');
            }
            lemma_scan_escaped(e, 21 + el, t);
            assert(spec_scan_string(e, 21 + el) == Some((t, 22 + el + etl)));
            assert(e[22 + el + etl] == '}') by {
                assert(e[20 + el + v.len()] == '}');
            }
            assert(spec_skip_ws(e, 22 + el + etl) == 22 + el + etl);
            assert(spec_skip_ws(e, 23 + el + etl) == 23 + el + etl == e.len());
            assert(spec_parse_close(e, sha, Some(t), 22 + el + etl) == Some((sha, etag)));
        },
    }
}

/// Copy of `s` with `"` and `\` escaped.
fn escaped(s: &str) -> (r: String)
    ensures
        r@ == spec_escape(s@),
{
    let n: usize = s.unicode_len();
    let mut r = String::new();
    let mut i: usize = 0;
    proof {
        assert(s@.take(0) =~= Seq::<char>::empty());
    }
    while i < n
        invariant
            n == s@.len(),
            i <= n,
            r@ == spec_escape(s@.take(i as int)),
        decreases n - i,
    {
        let c = s.get_char(i);
        if c == '"' || c == '\\' {
            r.push('\\');
            r.push(c);
        } else {
            r.push(c);
        }
        proof {
            assert(s@.take(i + 1) =~= s@.take(i as int) + seq![s@[i as int]]);
            lemma_escape_app(s@.take(i as int), seq![s@[i as int]]);
            assert(seq![s@[i as int]].drop_first() =~= Seq::<char>::empty());
            assert(spec_escape(Seq::<char>::empty()) == Seq::<char>::empty());
            assert(spec_escape(seq![s@[i as int]]) =~= (
                if s@[i as int] == '"' || s@[i as int] == '\\' {
                    seq!['\\', s@[i as int]]
                } else {
                    seq![s@[i as int]]
                }
            ));
        }
        i = i + 1;
    }
    proof {
        assert(s@.take(n as int) =~= s@);
    }
    r
}

impl ArtifactMetadata {
    /// Render the sidecar document for this record.
    pub fn to_json(&self) -> (r: String)
        ensures
            r@ == spec_encode_sidecar(self.sha256@, self.etag.deep_view()),
    {
        let mut r = String::from_str("{\"sha256\":\"");
        let esc_sha = escaped(self.sha256.as_str());
        r.append(esc_sha.as_str());
        r.append("\",\"etag\":");
        match &self.etag {
            Some(e) => {
                let esc_etag = escaped(e.as_str());
                r.append("\"");
                r.append(esc_etag.as_str());
                r.append("\"");
                proof {
                    assert("\""@ =~= seq!['"']) by {
                        reveal_strlit("\"");
                    }
                }
            },
            None => {
                r.append("null");
            },
        }
        r.append("}");
        proof {
            assert(r@ =~= spec_encode_sidecar(self.sha256@, self.etag.deep_view()));
        }
        r
    }

    /// Parse a sidecar document; `None` when `s` is not well formed.
    pub fn from_json(s: &str) -> (r: Option<ArtifactMetadata>)
        ensures
            match r {
                Some(m) => spec_parse_sidecar(s@) == Some((m.sha256@, m.etag.deep_view())),
                None => spec_parse_sidecar(s@) is None,
            },
    {
        let n: usize = s.unicode_len();
        let i0 = skip_ws(s, 0);
        if !(i0 < n && s.get_char(i0) == '{') {
            return None;
        }
        let i1 = skip_ws(s, i0 + 1);
        if !match_at(s, "\"sha256\"", i1) {
            return None;
        }
        let i2 = skip_ws(s, i1 + str_len("\"sha256\""));
        if !(i2 < n && s.get_char(i2) == ':') {
            return None;
        }
        let i3 = skip_ws(s, i2 + 1);
        if !(i3 < n && s.get_char(i3) == '"') {
            return None;
        }
        let scanned = scan_string(s, i3 + 1);
        match scanned {
            None => None,
            Some((sha, i4)) => {
                let i5 = skip_ws(s, i4);
                if !(i5 < n && s.get_char(i5) == ',') {
                    return None;
                }
                let i6 = skip_ws(s, i5 + 1);
                if !match_at(s, "\"etag\"", i6) {
                    return None;
                }
                let i7 = skip_ws(s, i6 + str_len("\"etag\""));
                if !(i7 < n && s.get_char(i7) == ':') {
                    return None;
                }
                let i8 = skip_ws(s, i7 + 1);
                if match_at(s, "null", i8) {
                    parse_close(s, sha, None, i8 + str_len("null"))
                } else if i8 < n && s.get_char(i8) == '"' {
                    match scan_string(s, i8 + 1) {
                        Some((e, i9)) => parse_close(s, sha, Some(e), i9),
                        None => None,
                    }
                } else {
                    None
                }
            },
        }
    }
}

/// The closing brace and end of input.
fn parse_close(s: &str, sha: String, etag: Option<String>, i9: usize) -> (r: Option<
    ArtifactMetadata,
>)
    requires
        i9 <= s@.len(),
    ensures
        match r {
            Some(m) => spec_parse_close(s@, sha@, etag.deep_view(), i9 as int) == Some(
                (m.sha256@, m.etag.deep_view()),
            ) && m.sha256@ == sha@ && m.etag.deep_view() == etag.deep_view(),
            None => spec_parse_close(s@, sha@, etag.deep_view(), i9 as int) is None,
        },
{
    let n: usize = s.unicode_len();
    let i10 = skip_ws(s, i9);
    if !(i10 < n && s.get_char(i10) == '}') {
        return None;
    }
    if skip_ws(s, i10 + 1) == n {
        Some(ArtifactMetadata { sha256: sha, etag })
    } else {
        None
    }
}

/// Character count of a short literal.
fn str_len(lit: &str) -> (r: usize)
    ensures
        r == lit@.len(),
{
    lit.unicode_len()
}

/// Whether `lit` occurs in `s` at `at`; false when it would run past the
/// end.
fn match_at(s: &str, lit: &str, at: usize) -> (r: bool)
    requires
        at <= s@.len(),
    ensures
        r == occurs_at(s@, lit@, at as int),
{
    let n: usize = s.unicode_len();
    let m: usize = lit.unicode_len();
    if m > n - at {
        return false;
    }
    crate::strutil::str_matches_at(s, lit, at)
}

/// First index at or after `i` that is not JSON whitespace.
fn skip_ws(s: &str, i: usize) -> (r: usize)
    requires
        i <= s@.len(),
    ensures
        r == spec_skip_ws(s@, i as int),
        i <= r <= s@.len(),
{
    let n: usize = s.unicode_len();
    let mut j: usize = i;
    while j < n
        invariant
            n == s@.len(),
            i <= j <= n,
            spec_skip_ws(s@, i as int) == spec_skip_ws(s@, j as int),
        decreases n - j,
    {
        let c = s.get_char(j);
        if !(c == ' ' || c == '\t' || c == '\n' || c == '\r') {
            return j;
        }
        j = j + 1;
    }
    j
}

/// Scan a JSON string body from `i` to its closing quote.
fn scan_string(s: &str, i: usize) -> (r: Option<(String, usize)>)
    requires
        i <= s@.len(),
    ensures
        match r {
            Some((t, j)) => spec_scan_string(s@, i as int) == Some((t@, j as int)) && j <= s@.len(),
            None => spec_scan_string(s@, i as int) is None,
        },
    decreases s@.len() - i,
{
    let n: usize = s.unicode_len();
    if i >= n {
        return None;
    }
    let c = s.get_char(i);
    if c == '"' {
        Some((String::new(), i + 1))
    } else if c == '\\' {
        if i + 1 < n {
            let e = s.get_char(i + 1);
            if e == '"' || e == '\\' {
                match scan_string(s, i + 2) {
                    Some((t, j)) => {
                        let mut out = String::new();
                        out.push(e);
                        out.append(t.as_str());
                        Some((out, j))
                    },
                    None => None,
                }
            } else {
                None
            }
        } else {
            None
        }
    } else {
        match scan_string(s, i + 1) {
            Some((t, j)) => {
                let mut out = String::new();
                out.push(c);
                out.append(t.as_str());
                Some((out, j))
            },
            None => None,
        }
    }
}

} // verus!
