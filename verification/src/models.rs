//! Names, paths and download addresses of Whisper model files.

use vstd::prelude::*;
use crate::text::str_eq;

verus! {

/// `s` occurs in `t` as a contiguous run.
pub open spec fn is_infix_of(s: Seq<char>, t: Seq<char>) -> bool {
    exists|i: int| 0 <= i && i + s.len() <= t.len() && #[trigger] t.subrange(i, i + s.len()) == s
}

/// A path that is a single plain file name on every platform: not empty,
/// no separator ('/', '\\'), no drive marker (':'), and not "." or "..".
pub open spec fn is_plain_file_name(p: Seq<char>) -> bool {
    &&& p.len() > 0
    &&& forall|i: int| 0 <= i < p.len() ==> #[trigger] p[i] != '/' && p[i] != '\\' && p[i] != ':'
    &&& p != seq!['.']
    &&& p != seq!['.', '.']
}

/// Index of the last '.' in `s`, or -1 when there is none.
pub open spec fn last_dot(s: Seq<char>) -> int
    decreases s.len(),
{
    if s.len() == 0 {
        -1
    } else if s.last() == '.' {
        s.len() - 1
    } else {
        last_dot(s.drop_last())
    }
}

/// The stem of a file name as `Path::file_stem` documents it: the whole name
/// when it has no '.' or its only '.' is the first character, otherwise the
/// part before the last '.'.
pub open spec fn stem_of_name(name: Seq<char>) -> Seq<char> {
    if last_dot(name) <= 0 {
        name
    } else {
        name.take(last_dot(name))
    }
}

/// Index of the last '/' in `s`, or -1 when there is none.
pub open spec fn last_slash(s: Seq<char>) -> int
    decreases s.len(),
{
    if s.len() == 0 {
        -1
    } else if s.last() == '/' {
        s.len() - 1
    } else {
        last_slash(s.drop_last())
    }
}

/// What follows the last '/' of a path (the whole path when it has none).
pub open spec fn last_component(p: Seq<char>) -> Seq<char> {
    p.skip(last_slash(p) + 1)
}

/// A single path component: not empty, no separator ('/', '\\'), and not
/// "." or "..".
pub open spec fn is_name_component(c: Seq<char>) -> bool {
    &&& c.len() > 0
    &&& forall|i: int| 0 <= i < c.len() ==> #[trigger] c[i] != '/' && c[i] != '\\'
    &&& c != seq!['.']
    &&& c != seq!['.', '.']
}

/// The path starts with a Windows drive ("X:", X an ASCII letter).
pub open spec fn starts_with_drive(p: Seq<char>) -> bool {
    p.len() >= 2 && (('a' <= p[0] && p[0] <= 'z') || ('A' <= p[0] && p[0] <= 'Z')) && p[1] == ':'
}

/// A path whose file name every platform reads the same way: it holds no
/// '\\', does not start with a drive ("X:") or with "//" (so it has no
/// Windows prefix), and what follows its last '/' is a name component.
pub open spec fn has_portable_file_name(p: Seq<char>) -> bool {
    &&& forall|i: int| 0 <= i < p.len() ==> #[trigger] p[i] != '\\'
    &&& !starts_with_drive(p)
    &&& !(p.len() >= 2 && p[0] == '/' && p[1] == '/')
    &&& is_name_component(last_component(p))
}

/// `Path::new(path).file_stem()`, as a `String` (`to_str` cannot fail on a
/// path made from a `&str`). The empty path has no file name, so no stem.
/// A stem is a non-empty run of the path's
/// characters, without '/' when the path has no '\\'. For a path whose file
/// name every platform reads the same way (see `has_portable_file_name`),
/// the file name is what follows the last '/', and the stem is the one the
/// documentation of `Path::file_stem` gives for it. Which part of a path
/// holding '\\', or starting with a drive or "//", is the file name depends
/// on the platform, and is not stated.
#[verifier::external_body]
pub(crate) fn file_stem(path: &str) -> (r: Option<String>)
    ensures
        path@.len() == 0 ==> r is None,
        r is Some ==> r->0@.len() > 0 && is_infix_of(r->0@, path@),
        r is Some && !path@.contains('\\') ==> !r->0@.contains('/'),
        has_portable_file_name(path@) ==> r is Some && r->0@ == stem_of_name(last_component(path@)),
{
    std::path::Path::new(path).file_stem().and_then(|s| s.to_str()).map(|s| s.to_string())
}

/// The model name shown for a model file, given the file's stem: the stem,
/// or "tiny" when the path has none.
pub fn model_name_from_stem(stem: Option<&str>) -> (r: String)
    ensures
        stem matches Some(s) ==> r@ == s@,
        stem is None ==> r@ == "tiny"@,
{
    match stem {
        Some(s) => String::from_str(s),
        None => String::from_str("tiny"),
    }
}

/// The model name shown for the model file at `path`: its stem, or "tiny".
pub fn extract_model_name(path: &str) -> (r: String)
    ensures
        r@ == "tiny"@ || (r@.len() > 0 && is_infix_of(r@, path@)),
        path@.len() == 0 ==> r@ == "tiny"@,
        has_portable_file_name(path@) ==> r@ == stem_of_name(last_component(path@)),
{
    let stem = file_stem(path);
    match stem {
        Some(s) => model_name_from_stem(Some(s.as_str())),
        None => model_name_from_stem(None),
    }
}

/// `s` without the prefix "ggml-", when it has it.
pub open spec fn strip_ggml(s: Seq<char>) -> Option<Seq<char>> {
    if s.len() >= 5 && s.take(5) == "ggml-"@ {
        Some(s.skip(5))
    } else {
        None
    }
}

fn strip_ggml_prefix(s: &str) -> (r: Option<String>)
    ensures
        r matches Some(t) ==> strip_ggml(s@) == Some(t@),
        r is None ==> strip_ggml(s@) is None,
{
    proof {
        reveal_strlit("ggml-");
    }
    let n = s.unicode_len();
    if n < 5 {
        return None;
    }
    let head = s.substring_char(0, 5);
    if str_eq(head, "ggml-") {
        let tail = s.substring_char(5, n);
        assert(s@.take(5) =~= s@.subrange(0, 5));
        assert(s@.skip(5) =~= s@.subrange(5, n as int));
        Some(String::from_str(tail))
    } else {
        assert(s@.take(5) =~= s@.subrange(0, 5));
        None
    }
}

/// The download name of a model, given the stem of its file: the stem
/// without "ggml-", or "tiny" when there is no stem or it lacks the prefix.
pub fn download_name_from_stem(stem: Option<&str>) -> (r: String)
    ensures
        stem is Some && strip_ggml(stem->0@) is Some ==> r@ == strip_ggml(stem->0@)->0,
        (stem is None || strip_ggml(stem->0@) is None) ==> r@ == "tiny"@,
{
    match stem {
        Some(s) => match strip_ggml_prefix(s) {
            Some(t) => t,
            None => String::from_str("tiny"),
        },
        None => String::from_str("tiny"),
    }
}

/// The download name of the model file at `path`: its stem without the
/// "ggml-" prefix, or "tiny" when the stem lacks it.
pub fn extract_model_name_from_path(path: &str) -> (r: String)
    ensures
        r@ == "tiny"@ || is_infix_of(r@, path@),
        path@.len() == 0 ==> r@ == "tiny"@,
        has_portable_file_name(path@) ==> match strip_ggml(stem_of_name(last_component(path@))) {
            Some(t) => r@ == t,
            None => r@ == "tiny"@,
        },
{
    let stem = file_stem(path);
    match stem {
        Some(s) => {
            let r = download_name_from_stem(Some(s.as_str()));
            proof {
                if strip_ggml(s@) is Some {
                    let k = choose|i: int| 0 <= i && i + s@.len() <= path@.len() && #[trigger] path@.subrange(i, i + s@.len()) == s@;
                    assert(path@.subrange(k + 5, k + s@.len()) =~= s@.skip(5));
                    assert(path@.subrange(k + 5, k + 5 + r@.len()) == r@);
                }
            }
            r
        },
        None => download_name_from_stem(None),
    }
}

/// Where a model is downloaded from.
pub fn model_url(model_name: &str) -> (r: String)
    ensures
        r@ == "https://huggingface.co/ggerganov/whisper.cpp/resolve/main/ggml-"@ + model_name@ + ".bin"@,
{
    let mut s = String::from_str("https://huggingface.co/ggerganov/whisper.cpp/resolve/main/ggml-");
    s.append(model_name);
    s.append(".bin");
    s
}

/// Where a downloaded model is stored.
pub fn model_dest_path(models_dir: &str, model_name: &str) -> (r: String)
    ensures
        r@ == models_dir@ + "/ggml-"@ + model_name@ + ".bin"@,
{
    let mut s = String::from_str(models_dir);
    s.append("/ggml-");
    s.append(model_name);
    s.append(".bin");
    s
}

/// The model path a preset model name selects.
pub fn preset_model_path(model_name: &str) -> (r: String)
    ensures
        r@ == "models/ggml-"@ + model_name@ + ".bin"@,
{
    let mut s = String::from_str("models/ggml-");
    s.append(model_name);
    s.append(".bin");
    s
}

proof fn lemma_last_slash_append(a: Seq<char>, b: Seq<char>)
    requires
        forall|i: int| 0 <= i < b.len() ==> b[i] != '/',
    ensures
        last_slash(a + b) == last_slash(a),
    decreases b.len(),
{
    if b.len() > 0 {
        assert((a + b).drop_last() =~= a + b.drop_last());
        assert((a + b).last() == b.last());
        lemma_last_slash_append(a, b.drop_last());
    } else {
        assert(a + b =~= a);
    }
}

/// The model name is recovered from the path a preset name selects (and
/// where a download of that name is stored): for a name without separators,
/// "models/ggml-<name>.bin" has a portable file name whose stem, without
/// "ggml-", is the name.
pub proof fn law_download_name_inverts_preset(m: Seq<char>)
    requires
        forall|i: int| 0 <= i < m.len() ==> #[trigger] m[i] != '/' && m[i] != '\\',
    ensures
        has_portable_file_name("models/ggml-"@ + m + ".bin"@),
        strip_ggml(stem_of_name(last_component("models/ggml-"@ + m + ".bin"@))) == Some(m),
{
    reveal_strlit("models/ggml-");
    reveal_strlit(".bin");
    reveal_strlit("ggml-");
    let head = seq!['m', 'o', 'd', 'e', 'l', 's', '/'];
    let c = seq!['g', 'g', 'm', 'l', '-'] + m + seq!['.', 'b', 'i', 'n'];
    let p = "models/ggml-"@ + m + ".bin"@;
    assert(p =~= head + c);
    assert forall|i: int| 0 <= i < c.len() implies #[trigger] c[i] != '/' && c[i] != '\\' by {
        if 5 <= i < 5 + m.len() {
            assert(c[i] == m[i - 5]);
        }
    }
    lemma_last_slash_append(head, c);
    assert(head.drop_last() =~= seq!['m', 'o', 'd', 'e', 'l', 's']);
    assert(last_slash(head) == 6);
    assert(last_component(p) =~= c);
    assert(c.len() >= 9);
    assert(c != seq!['.']);
    assert(c != seq!['.', '.']);
    assert(p[1] == 'o');
    assert forall|i: int| 0 <= i < p.len() implies #[trigger] p[i] != '\\' by {
        if i >= 7 {
            assert(p[i] == c[i - 7]);
        }
    }
    let n = c.len() as int;
    assert(c.last() == 'n');
    assert(c.drop_last().last() == 'i');
    assert(c.drop_last().drop_last().last() == 'b');
    assert(c.drop_last().drop_last().drop_last().last() == '.');
    let d1 = c.drop_last();
    let d2 = d1.drop_last();
    let d3 = d2.drop_last();
    assert(last_dot(d3) == n - 4);
    assert(last_dot(d2) == last_dot(d3));
    assert(last_dot(d1) == last_dot(d2));
    assert(last_dot(c) == last_dot(d1));
    let stem = c.take(n - 4);
    assert(stem =~= seq!['g', 'g', 'm', 'l', '-'] + m);
    assert(stem.take(5) =~= "ggml-"@);
    assert(stem.skip(5) =~= m);
}

} // verus!
