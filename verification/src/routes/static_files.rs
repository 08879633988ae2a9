//! Which asset of the bundled frontend answers a path.
//!
//! The frontend is a single-page application: a path that names no asset
//! is answered by the index document, so that the application can route it
//! itself.

use crate::shared::text::{chars_of, same_text};
use vstd::prelude::*;
use vstd::string::*;

verus! {

/// A path without the slashes at its start.
pub open spec fn without_leading_slashes(path: Seq<char>) -> Seq<char>
    decreases path.len(),
{
    if path.len() > 0 && path[0] == '/' {
        without_leading_slashes(path.drop_first())
    } else {
        path
    }
}

/// A name is that of a page, not of a file, when it is empty or holds no
/// dot.
pub open spec fn is_page(name: Seq<char>) -> bool {
    name.len() == 0 || !name.contains('.')
}

/// The assets that may answer `path`, in the order in which they are
/// tried: the asset of that name; for a page the index document; the name
/// with `.html`; the index document of the directory of that name; and at
/// last the index document.
pub open spec fn candidates(path: Seq<char>) -> Seq<Seq<char>> {
    let name = without_leading_slashes(path);
    let exact = if is_page(name) {
        seq![name, "index.html"@]
    } else {
        seq![name]
    };
    exact + seq![name + ".html"@, name + "/index.html"@, "index.html"@]
}

/// The slashes at the start of a path are all that is taken off it.
proof fn lemma_skip_slashes(path: Seq<char>, i: int)
    requires
        0 <= i <= path.len(),
        forall|k: int| 0 <= k < i ==> path[k] == '/',
    ensures
        without_leading_slashes(path) == without_leading_slashes(path.subrange(i, path.len() as int)),
    decreases i,
{
    if i > 0 {
        assert(path.drop_first().subrange(i - 1, path.len() - 1) =~= path.subrange(
            i,
            path.len() as int,
        ));
        lemma_skip_slashes(path.drop_first(), i - 1);
    } else {
        assert(path.subrange(0, path.len() as int) =~= path);
    }
}

/// Whether `c` is among `chars`.
fn holds(chars: &Vec<char>, from: usize, c: char) -> (found: bool)
    requires
        from <= chars@.len(),
    ensures
        found == chars@.subrange(from as int, chars@.len() as int).contains(c),
{
    let ghost rest = chars@.subrange(from as int, chars@.len() as int);
    let mut i: usize = from;
    while i < chars.len()
        invariant
            from <= i <= chars@.len(),
            rest == chars@.subrange(from as int, chars@.len() as int),
            forall|k: int| 0 <= k < i - from ==> rest[k] != c,
        decreases chars@.len() - i,
    {
        if chars[i] == c {
            assert(rest[i - from] == c);
            return true;
        }
        i = i + 1;
    }
    false
}

/// The assets that may answer `path`, in the order in which they are
/// tried.
pub fn asset_candidates(path: &str) -> (names: Vec<String>)
    ensures
        names@.map_values(|s: String| s@) == candidates(path@),
{
    let chars = chars_of(path);
    let n = chars.len();
    let mut start: usize = 0;
    while start < n && chars[start] == '/'
        invariant
            n == chars@.len(),
            start <= n,
            forall|k: int| 0 <= k < start ==> chars@[k] == '/',
        decreases n - start,
    {
        start = start + 1;
    }
    proof {
        lemma_skip_slashes(path@, start as int);
    }
    let name: &str = path.substring_char(start, n);
    let page = n == start || !holds(&chars, start, '.');
    let mut names: Vec<String> = Vec::new();
    names.push(String::from_str(name));
    if page {
        names.push(String::from_str("index.html"));
    }
    let mut with_suffix = String::from_str(name);
    with_suffix.append(".html");
    names.push(with_suffix);
    let mut in_directory = String::from_str(name);
    in_directory.append("/index.html");
    names.push(in_directory);
    names.push(String::from_str("index.html"));
    names
}

/// The first of `names` that is among `available`.
pub open spec fn first_available(names: Seq<Seq<char>>, available: Seq<Seq<char>>) -> Option<
    Seq<char>,
>
    decreases names.len(),
{
    if names.len() == 0 {
        None
    } else if available.contains(names[0]) {
        Some(names[0])
    } else {
        first_available(names.drop_first(), available)
    }
}

/// Names that are not available do not count.
proof fn lemma_skip_unavailable(names: Seq<Seq<char>>, available: Seq<Seq<char>>, i: int)
    requires
        0 <= i <= names.len(),
        forall|k: int| 0 <= k < i ==> !available.contains(#[trigger] names[k]),
    ensures
        first_available(names, available) == first_available(
            names.subrange(i, names.len() as int),
            available,
        ),
    decreases i,
{
    if i > 0 {
        assert(names.drop_first().subrange(i - 1, names.len() - 1) =~= names.subrange(
            i,
            names.len() as int,
        ));
        assert forall|k: int| 0 <= k < i - 1 implies !available.contains(
            #[trigger] names.drop_first()[k],
        ) by {}
        lemma_skip_unavailable(names.drop_first(), available, i - 1);
    } else {
        assert(names.subrange(0, names.len() as int) =~= names);
    }
}

/// Whether `name` is among `available`.
fn is_available(name: &str, available: &Vec<String>) -> (found: bool)
    ensures
        found == available@.map_values(|s: String| s@).contains(name@),
{
    let ghost views = available@.map_values(|s: String| s@);
    let mut i: usize = 0;
    while i < available.len()
        invariant
            i <= available@.len(),
            views == available@.map_values(|s: String| s@),
            forall|k: int| 0 <= k < i ==> views[k] != name@,
        decreases available@.len() - i,
    {
        if same_text(available[i].as_str(), name) {
            assert(views[i as int] == name@);
            return true;
        }
        i = i + 1;
    }
    false
}

/// What `mime_guess::from_path` takes the media type of a file of this name
/// to be, `application/octet-stream` where it has no guess.
pub uninterp spec fn guessed_mime(name: Seq<char>) -> Seq<char>;

/// Asks `mime_guess::from_path` and takes its first guess, or
/// `application/octet-stream`. Trusted: the result is `guessed_mime` of the
/// name.
#[verifier::external_body]
fn guess_mime(name: &str) -> (mime: String)
    ensures
        mime@ == guessed_mime(name@),
{
    mime_guess::from_path(name).first_or_octet_stream().to_string()
}

/// How an asset is answered.
#[derive(Debug)]
pub struct AssetAnswer {
    /// The name of the asset.
    pub name: String,
    pub content_type: String,
    pub cache_control: String,
}

/// The asset that answers `path` among the assets `available`: the first
/// candidate that there is.
pub open spec fn asset_for(path: Seq<char>, available: Seq<Seq<char>>) -> Option<Seq<char>> {
    first_available(candidates(path), available)
}

/// The answer with the asset `name`, given its media type: it may be kept
/// for a year and never changes.
pub fn answer_with(name: String, content_type: String) -> (answer: AssetAnswer)
    ensures
        answer.name == name,
        answer.content_type == content_type,
        answer.cache_control@ == "public, max-age=31536000, immutable"@,
{
    AssetAnswer {
        name,
        content_type,
        cache_control: String::from_str("public, max-age=31536000, immutable"),
    }
}

/// The asset that answers `path` among the assets `available`, if any does.
pub fn pick_asset(path: &str, available: &Vec<String>) -> (picked: Option<String>)
    ensures
        match picked {
            Some(name) => asset_for(path@, available@.map_values(|s: String| s@)) == Some(name@),
            None => asset_for(path@, available@.map_values(|s: String| s@)) is None,
        },
{
    let ghost views = available@.map_values(|s: String| s@);
    let mut names = asset_candidates(path);
    let ghost all = candidates(path@);
    let mut i: usize = 0;
    while i < names.len()
        invariant
            i <= names@.len(),
            all == candidates(path@),
            names@.map_values(|s: String| s@) == all,
            views == available@.map_values(|s: String| s@),
            forall|k: int| 0 <= k < i ==> !views.contains(#[trigger] all[k]),
        decreases names@.len() - i,
    {
        if is_available(names[i].as_str(), available) {
            proof {
                lemma_skip_unavailable(all, views, i as int);
            }
            return Some(names.swap_remove(i));
        }
        i = i + 1;
    }
    proof {
        lemma_skip_unavailable(all, views, all.len() as int);
    }
    None
}

/// How a request for `path` is answered from the assets `available`; not
/// at all where no candidate is among them.
pub fn serve_static(path: &str, available: &Vec<String>) -> (answer: Option<AssetAnswer>)
    ensures
        match answer {
            Some(found) => asset_for(path@, available@.map_values(|s: String| s@)) == Some(
                found.name@,
            ) && found.content_type@ == guessed_mime(found.name@) && found.cache_control@
                == "public, max-age=31536000, immutable"@,
            None => asset_for(path@, available@.map_values(|s: String| s@)) is None,
        },
{
    match pick_asset(path, available) {
        Some(name) => {
            let content_type = guess_mime(name.as_str());
            Some(answer_with(name, content_type))
        },
        None => None,
    }
}

} // verus!
