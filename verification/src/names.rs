//! How tests are named.
use vstd::prelude::*;

use crate::error::RenderError;
use crate::error::RenderErrorView;

verus! {

/// `name` has the path separator `::` at position `i`.
pub open spec fn separator_at(name: Seq<char>, i: int) -> bool {
    0 <= i && i + 1 < name.len() && name[i] == ':' && name[i + 1] == ':'
}

/// The first path separator of `name` is at position `i`.
pub open spec fn first_separator_at(name: Seq<char>, i: int) -> bool {
    separator_at(name, i) && forall|j: int| 0 <= j < i ==> !separator_at(name, j)
}

/// `name` without its first segment, or the whole of it if there is only one segment.
pub open spec fn real_name_of(name: Seq<char>) -> Seq<char> {
    if exists|i: int| first_separator_at(name, i) {
        name.skip((choose|i: int| first_separator_at(name, i)) + 2)
    } else {
        name
    }
}

/// What [`real_name_of`] gives once the first separator is known.
pub proof fn lemma_real_name_at(name: Seq<char>, i: int)
    requires
        first_separator_at(name, i),
    ensures
        real_name_of(name) == name.skip(i + 2),
{
    let k = choose|k: int| first_separator_at(name, k);
    assert(first_separator_at(name, k));
    if k < i {
        assert(!separator_at(name, k));
    }
    if i < k {
        assert(!separator_at(name, i));
    }
}

/// Strips the crate name. Test names are made with `module_path!`, which starts with the crate;
/// the standard test library leaves the crate out of a test name.
pub fn real_name<'a>(name: &'a str) -> (stripped: &'a str)
    ensures
        stripped@ == real_name_of(name@),
        forall|i: int| #[trigger] first_separator_at(name@, i) ==> stripped@ == name@.skip(i + 2),
        (forall|i: int| !separator_at(name@, i)) ==> stripped@ == name@,
{
    proof {
        assert forall|i: int| #[trigger] first_separator_at(name@, i) implies real_name_of(name@)
            == name@.skip(i + 2) by {
            lemma_real_name_at(name@, i);
        }
    }
    let len: usize = name.unicode_len();
    let mut after_colon: bool = false;
    let mut pos: usize = 0;
    for c in it: name.chars()
        invariant
            len == name@.len(),
            it.seq() == name@,
            pos == it.index(),
            after_colon <==> pos > 0 && name@[pos - 1] == ':',
            forall|j: int| 0 <= j && j + 1 < pos ==> !separator_at(name@, j),
    {
        if c == ':' && after_colon {
            proof {
                assert(first_separator_at(name@, pos - 1));
                lemma_real_name_at(name@, pos - 1);
                assert(name@.skip(pos + 1) == name@.subrange(pos + 1, len as int));
            }
            return name.substring_char(pos + 1, len);
        }
        after_colon = c == ':';
        pos = pos + 1;
    }
    proof {
        assert forall|i: int| !first_separator_at(name@, i) by {
            if separator_at(name@, i) {
                assert(i + 1 < pos);
            }
        }
    }
    name
}

/// What is left of `path` below `base`, as `std::path::Path::strip_prefix` finds it by comparing
/// the two component by component; `None` if `base` is not a prefix of `path`.
pub uninterp spec fn path_below(path: Seq<char>, base: Seq<char>) -> Option<Seq<char>>;

/// Calls `std::path::Path::strip_prefix` on `path` with `base`. Trusted: that the result is a
/// function of the two texts. How a text splits into components is the target platform's
/// business and is not stated.
#[verifier::external_body]
fn strip_prefix(path: &str, base: &str) -> (rest: Option<String>)
    ensures
        rest.deep_view() == path_below(path@, base@),
{
    match std::path::Path::new(path).strip_prefix(base) {
        Ok(rest) => Some(rest.to_string_lossy().into_owned()),
        Err(_) => None,
    }
}

/// The name of the child of `parent` that is called `child`.
pub open spec fn child_name(parent: Seq<char>, child: Seq<char>) -> Seq<char> {
    real_name_of(parent) + "::"@ + child
}

/// Names the child of the test `parent` that is called `child`.
pub fn join_name(parent: &str, child: &str) -> (name: String)
    ensures
        name@ == child_name(parent@, child@),
{
    real_name(parent).to_string().concat("::").concat(child)
}

/// The name of the test `test_name` run on the file `path`, which was found below `root`.
pub fn derive_test_name(root: &str, path: &str, test_name: &str) -> (name: Result<
    String,
    RenderError,
>)
    ensures
        match path_below(path@, root@) {
            Some(below) => name matches Ok(text) && text@ == child_name(test_name@, below),
            None => name matches Err(e) && e@ == (RenderErrorView::OutsideRoot {
                root: root@,
                path: path@,
            }),
        },
{
    match strip_prefix(path, root) {
        Some(below) => Ok(join_name(test_name, below.as_str())),
        None => Err(RenderError::OutsideRoot { root: root.to_string(), path: path.to_string() }),
    }
}

} // verus!
