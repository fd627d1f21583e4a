use vstd::prelude::*;
use vstd::string::StrSliceExecFns;

verus! {

/// Where the static-file resolver looks for assets: the backend's working
/// directory.
pub struct ResolverInfo {
    pub root: String,
}

/// What serving one request comes down to, decided from the URI path alone:
/// reject it, answer with an empty script, transpile a TypeScript source, or
/// read a file and serve it under a guessed content type.
#[derive(Debug)]
pub enum ServePlan {
    Reject,
    EmptyScript,
    Transpile(String),
    Static(String, String),
}

/// True when `s` ends in `suf`.
pub open spec fn has_suffix_spec(s: Seq<char>, suf: Seq<char>) -> bool {
    s.len() >= suf.len() && s.subrange(s.len() - suf.len(), s.len() as int) == suf
}

/// Whether one string ends in another, compared character by character.
fn has_suffix(s: &str, suf: &str) -> (b: bool)
    ensures
        b == has_suffix_spec(s@, suf@),
{
    let n = s.unicode_len();
    let m = suf.unicode_len();
    if n < m {
        return false;
    }
    let mut i: usize = 0;
    while i < m
        invariant
            m <= n,
            n == s@.len(),
            m == suf@.len(),
            i <= m,
            forall|j: int| 0 <= j < i ==> s@[n - m + j] == suf@[j],
        decreases m - i,
    {
        if s.get_char(n - m + i) != suf.get_char(i) {
            proof {
                assert(s@.subrange(n - m, n as int)[i as int] != suf@[i as int]);
            }
            return false;
        }
        i = i + 1;
    }
    proof {
        assert(s@.subrange(n - m, n as int) =~= suf@);
    }
    true
}

/// The content type guessed for a path.
pub uninterp spec fn mime_of_path(p: Seq<char>) -> Seq<char>;

/// Relies on mime_guess::from_path and MimeGuess::first_or_text_plain: the
/// guess is made from the path's extension alone, falling back to
/// text/plain.
#[verifier::external_body]
fn guess_mime(path: &str) -> (r: String)
    ensures
        r@ == mime_of_path(path@),
{
    mime_guess::from_path(path).first_or_text_plain().to_string()
}

/// Decide how to serve one URI path.  The leading slash is dropped; a path
/// that still begins with a slash is rejected.  Declaration files (".d.ts")
/// become an empty script, an empty path means the index page, TypeScript
/// sources (".ts") are transpiled, and everything else is served as a
/// static file under its guessed content type.
pub fn resolve_request(path: &str) -> (r: ServePlan)
    requires
        path@.len() >= 1,
    ensures
        ({
            let rest = path@.subrange(1, path@.len() as int);
            if rest.len() > 0 && rest[0] == '/' {
                r is Reject
            } else if has_suffix_spec(rest, ".d.ts"@) {
                r is EmptyScript
            } else {
                let resolved = if rest.len() == 0 {
                    "index.html"@
                } else {
                    rest
                };
                if has_suffix_spec(resolved, ".ts"@) {
                    r matches ServePlan::Transpile(q) && q@ == resolved
                } else {
                    r matches ServePlan::Static(q, m) && q@ == resolved && m@ == mime_of_path(resolved)
                }
            }
        }),
{
    let n = path.unicode_len();
    let rest = path.substring_char(1, n);
    if n > 1 && rest.get_char(0) == '/' {
        return ServePlan::Reject;
    }
    if has_suffix(rest, ".d.ts") {
        return ServePlan::EmptyScript;
    }
    let resolved = if n == 1 {
        "index.html"
    } else {
        rest
    };
    if has_suffix(resolved, ".ts") {
        return ServePlan::Transpile(resolved.to_owned());
    }
    ServePlan::Static(resolved.to_owned(), guess_mime(resolved))
}

} // verus!
