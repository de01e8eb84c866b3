//! Small helpers shared across the control plane: the canonical image
//! reference for an application and the sanitization of untrusted
//! application names.

use vstd::prelude::*;

use crate::text::push_char;

verus! {

/// A character that may appear in a sanitized application name: ASCII
/// alphanumerics, `.`, `_` and `-`. The raw name arrives from an untrusted
/// network client and is later used to build filesystem paths and shell
/// command fragments, so everything else (path separators, shell
/// metacharacters, whitespace) is removed.
pub open spec fn is_app_name_char(c: char) -> bool {
    ('a' <= c && c <= 'z') || ('A' <= c && c <= 'Z') || ('0' <= c && c <= '9') || c == '.'
        || c == '_' || c == '-'
}

/// The sanitized form of a raw application name: exactly the characters
/// allowed by [`is_app_name_char`], in their original order.
pub open spec fn sanitized(s: Seq<char>) -> Seq<char> {
    s.filter(|c: char| is_app_name_char(c))
}

fn is_app_name_char_exec(c: char) -> (r: bool)
    ensures
        r == is_app_name_char(c),
{
    ('a' <= c && c <= 'z') || ('A' <= c && c <= 'Z') || ('0' <= c && c <= '9') || c == '.'
        || c == '_' || c == '-'
}

/// Drop every character of an untrusted application name that is not an
/// ASCII alphanumeric, `.`, `_` or `-`. The result is safe to splice into
/// filesystem paths and single-quoted shell arguments: it can hold no path
/// separator, no shell metacharacter and no whitespace.
pub fn sanitize_app_name(app: &str) -> (r: String)
    ensures
        r@ == sanitized(app@),
{
    let n: usize = app.unicode_len();
    let mut out = String::new();
    let mut i: usize = 0;
    while i < n
        invariant
            i <= n,
            n == app@.len(),
            out@ == sanitized(app@.subrange(0, i as int)),
        decreases n - i,
    {
        let c = app.get_char(i);
        proof {
            assert(app@.subrange(0, (i + 1) as int).drop_last() =~= app@.subrange(0, i as int));
            assert(app@.subrange(0, (i + 1) as int).last() == app@[i as int]);
            reveal(Seq::filter);
        }
        if is_app_name_char_exec(c) {
            push_char(&mut out, c);
        }
        i = i + 1;
    }
    proof {
        assert(app@.subrange(0, n as int) =~= app@);
    }
    out
}

/// Every character of a sanitized name is drawn from the allowed class; in
/// particular the name holds no path separator, no leading slash, no
/// whitespace, and none of the shell metacharacters that could escape a
/// single-quoted argument or splice a second command.
pub proof fn lemma_sanitized_is_safe(s: Seq<char>)
    ensures
        forall|i: int|
            0 <= i < sanitized(s).len() ==> is_app_name_char(#[trigger] sanitized(s)[i]),
        forall|i: int| 0 <= i < sanitized(s).len() ==> sanitized(s)[i] != '/',
        forall|i: int|
            0 <= i < sanitized(s).len() ==> sanitized(s)[i] != '\'' && sanitized(s)[i] != '"'
                && sanitized(s)[i] != '`' && sanitized(s)[i] != '$' && sanitized(s)[i] != ';'
                && sanitized(s)[i] != '&' && sanitized(s)[i] != '|' && sanitized(s)[i] != ' '
                && sanitized(s)[i] != '\n' && sanitized(s)[i] != '\\',
{
    assert forall|i: int| 0 <= i < sanitized(s).len() implies is_app_name_char(
        #[trigger] sanitized(s)[i],
    ) by {
        s.lemma_filter_pred(|c: char| is_app_name_char(c), i);
    }
}

/// The image reference for an application: `name:version`, with the literal
/// tag `latest` when the manifest declares no version.
pub open spec fn image_reference(image: Seq<char>, version: Option<Seq<char>>) -> Seq<char> {
    match version {
        Some(v) => image + ":"@ + v,
        None => image + ":"@ + "latest"@,
    }
}

/// Compute the canonical `name:version` image reference, defaulting the
/// version tag to `latest` when the manifest omits it.
pub fn get_image_name_with_version(image: &str, version: &Option<String>) -> (r: String)
    ensures
        r@ == image_reference(
            image@,
            match version {
                Some(v) => Some(v@),
                None => None,
            },
        ),
{
    let tagged = image.to_owned().concat(":");
    match version {
        Some(v) => tagged.concat(v.as_str()),
        None => tagged.concat("latest"),
    }
}

} // verus!
