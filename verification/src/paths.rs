//! What the engine asks of a path, answered by `std::path` and `pathdiff`.
//!
//! Paths are held as strings. How a path falls into components is decided by
//! the platform's own rules, which are not restated here: each answer gets a
//! name, and the contracts of the engine speak of those names.

use std::path::Path;
use vstd::prelude::*;

verus! {

/// The final component of `path`, as `Path::file_name` gives it.
pub uninterp spec fn base_name(path: Seq<char>) -> Option<Seq<char>>;

/// `path` without its final component, as `Path::parent` gives it.
pub uninterp spec fn parent_of(path: Seq<char>) -> Option<Seq<char>>;

/// `path` with its final component replaced by `name`, as `Path::with_file_name` gives it.
pub uninterp spec fn renamed(path: Seq<char>, name: Seq<char>) -> Seq<char>;

/// Whether `a` and `b` are the same path, as `==` on `Path` decides it.
pub uninterp spec fn paths_equal(a: Seq<char>, b: Seq<char>) -> bool;

/// The path that leads from the directory `base` to `path`, as `pathdiff::diff_paths` gives it.
pub uninterp spec fn relative_path(path: Seq<char>, base: Seq<char>) -> Option<Seq<char>>;

/// An optional string as an optional sequence of characters.
pub open spec fn text(s: Option<String>) -> Option<Seq<char>> {
    match s {
        Some(s) => Some(s@),
        None => None,
    }
}

/// Calls `Path::file_name`. Trusted: the result is `base_name` of the argument.
#[verifier::external_body]
pub(crate) fn file_name(path: &str) -> (name: Option<String>)
    ensures
        text(name) == base_name(path@),
{
    match Path::new(path).file_name() {
        Some(name) => Some(name.to_string_lossy().into_owned()),
        None => None,
    }
}

/// Calls `Path::parent`. Trusted: the result is `parent_of` the argument.
#[verifier::external_body]
pub(crate) fn parent(path: &str) -> (dir: Option<String>)
    ensures
        text(dir) == parent_of(path@),
{
    match Path::new(path).parent() {
        Some(dir) => Some(dir.to_string_lossy().into_owned()),
        None => None,
    }
}

/// Calls `Path::with_file_name`. Trusted: the result is `renamed` of the arguments.
#[verifier::external_body]
pub(crate) fn with_file_name(path: &str, name: &str) -> (sibling: String)
    ensures
        sibling@ == renamed(path@, name@),
{
    Path::new(path).with_file_name(name).to_string_lossy().into_owned()
}

/// Whether `a` and `b` name the same path: they are the same string, or
/// `Path` takes them for equal.
pub open spec fn same(a: Seq<char>, b: Seq<char>) -> bool {
    a == b || paths_equal(a, b)
}

/// Compares two strings with `==` on `Path`. Trusted: the result is
/// `paths_equal` of the arguments, and a path equals itself, as `Eq` promises.
#[verifier::external_body]
pub(crate) fn same_path(a: &str, b: &str) -> (equal: bool)
    ensures
        equal == paths_equal(a@, b@),
        a@ == b@ ==> equal,
{
    Path::new(a) == Path::new(b)
}

/// Calls `pathdiff::diff_paths`. Trusted: the result is `relative_path` of the arguments.
#[verifier::external_body]
pub(crate) fn diff_paths(path: &str, base: &str) -> (relative: Option<String>)
    ensures
        text(relative) == relative_path(path@, base@),
{
    match pathdiff::diff_paths(path, base) {
        Some(relative) => Some(relative.to_string_lossy().into_owned()),
        None => None,
    }
}

/// `text` with every occurrence of `from` replaced by `to`: the leftmost
/// occurrence first, then the leftmost in what follows it, so that no two
/// of them overlap. An empty `from` is left out: it occurs nowhere here.
pub open spec fn replaced(text: Seq<char>, from: Seq<char>, to: Seq<char>) -> Seq<char>
    decreases text.len(),
{
    if from.len() == 0 || text.len() < from.len() {
        text
    } else if text.subrange(0, from.len() as int) == from {
        to + replaced(text.subrange(from.len() as int, text.len() as int), from, to)
    } else {
        seq![text[0]] + replaced(text.subrange(1, text.len() as int), from, to)
    }
}

/// Calls `str::replace`. Trusted: for a pattern that is not empty, the
/// result is `replaced` of the arguments.
#[verifier::external_body]
pub(crate) fn replace(text: &str, from: &str, to: &str) -> (changed: String)
    requires
        from@.len() > 0,
    ensures
        changed@ == replaced(text@, from@, to@),
{
    text.replace(from, to)
}

/// Replacing one character by a text that does not hold it leaves none of it.
pub proof fn lemma_replaced_leaves_none(text: Seq<char>, unwanted: char, to: Seq<char>)
    requires
        !to.contains(unwanted),
    ensures
        !replaced(text, seq![unwanted], to).contains(unwanted),
    decreases text.len(),
{
    let from = seq![unwanted];
    if text.len() >= 1 {
        if text.subrange(0, 1) == from {
            let rest = replaced(text.subrange(1, text.len() as int), from, to);
            lemma_replaced_leaves_none(text.subrange(1, text.len() as int), unwanted, to);
            assert forall|i: int| 0 <= i < (to + rest).len() implies (to + rest)[i] != unwanted by {
                if i < to.len() {
                    assert(to.contains(to[i]));
                } else {
                    assert(rest.contains(rest[i - to.len()]));
                }
            }
        } else {
            let rest = replaced(text.subrange(1, text.len() as int), from, to);
            lemma_replaced_leaves_none(text.subrange(1, text.len() as int), unwanted, to);
            assert(text.subrange(0, 1)[0] == text[0]);
            assert(text[0] != unwanted) by {
                if text[0] == unwanted {
                    assert(text.subrange(0, 1) =~= from);
                }
            }
            let whole = seq![text[0]] + rest;
            assert forall|i: int| 0 <= i < whole.len() implies whole[i] != unwanted by {
                if i >= 1 {
                    assert(rest.contains(rest[i - 1]));
                }
            }
        }
    }
}

/// A path as it was typed, with its backslashes turned into slashes: a
/// doubled backslash first becomes one slash, then every backslash left
/// becomes one.
pub open spec fn slashed(raw: Seq<char>) -> Seq<char> {
    replaced(replaced(raw, seq!['\\', '\\'], seq!['/']), seq!['\\'], seq!['/'])
}

/// Turns the backslashes of a path as it was typed into slashes.
pub fn forward_slashes(raw: &str) -> (path: String)
    ensures
        path@ == slashed(raw@),
        !path@.contains('\\'),
{
    proof {
        reveal_strlit("\\\\");
        reveal_strlit("\\");
        reveal_strlit("/");
        assert("\\\\"@ =~= seq!['\\', '\\']);
        assert("\\"@ =~= seq!['\\']);
        assert("/"@ =~= seq!['/']);
    }
    let halved = replace(raw, "\\\\", "/");
    proof {
        assert(!seq!['/'].contains('\\'));
        lemma_replaced_leaves_none(halved@, '\\', seq!['/']);
    }
    replace(halved.as_str(), "\\", "/")
}

} // verus!
