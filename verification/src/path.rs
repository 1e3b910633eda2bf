//! Paths as the bytes that the build tool prints, and the directory that holds one.
//!
//! A path is read the Unix way. It may begin with the root `/` or with one
//! component `.`; what follows is its body, a run of components that `/`
//! parts. Empty components and components spelled `.` name nothing and are
//! passed over; every other component, `..` too, is a name. The parent of a
//! path is the path without its last name. This is how
//! `std::path::Path::parent` reads a path on Unix, and the tests hold the two
//! against each other.
//!
//! [`parent_len`] defines the parent by a walk from the end of the path.
//! [`is_parent_len`] says the same by the names alone, and
//! [`lemma_parent_len_is_the_parent`] proves that the two agree.

use vstd::prelude::*;
use vstd::slice::*;

verus! {

/// The byte that parts the components of a path.
pub const SEPARATOR: u8 = 0x2f;

/// The byte that, alone in a component, stands for the current directory.
pub const DOT: u8 = 0x2e;

/// The path begins at the root.
pub open spec fn has_root(path: Seq<u8>) -> bool {
    path.len() > 0 && path[0] == SEPARATOR
}

/// The path begins with a component `.`, which is kept as its first component.
pub open spec fn has_leading_dot(path: Seq<u8>) -> bool {
    path.len() > 0 && path[0] == DOT && (path.len() == 1 || path[1] == SEPARATOR)
}

/// Where the body begins: behind the root or the leading `.`, if there is one.
pub open spec fn body_start(path: Seq<u8>) -> int {
    if has_root(path) || has_leading_dot(path) {
        1
    } else {
        0
    }
}

/// The byte before `end` is a component `.` of the body.
pub open spec fn ends_in_dot(path: Seq<u8>, end: int) -> bool {
    path[end - 1] == DOT && (end - 1 == body_start(path) || path[end - 2] == SEPARATOR)
}

/// What is left of the first `end` bytes once the separators and `.`
/// components at their end are dropped: the end of the last name among them,
/// or the start of the body if they hold no name. It is meant for an `end`
/// at which a component begins or ends.
pub open spec fn trimmed_len(path: Seq<u8>, end: int) -> int
    decreases end,
{
    if end <= body_start(path) {
        end
    } else if path[end - 1] == SEPARATOR || ends_in_dot(path, end) {
        trimmed_len(path, end - 1)
    } else {
        end
    }
}

/// Where the component that ends at `end` begins.
pub open spec fn component_start(path: Seq<u8>, end: int) -> int
    decreases end,
{
    if end <= body_start(path) || path[end - 1] == SEPARATOR {
        end
    } else {
        component_start(path, end - 1)
    }
}

/// The length of the parent, which is a prefix of the path. A path with a name
/// has the parent that ends where the name before its last one ends, or that
/// is the bare root, leading `.` or nothing where there is no such name. A
/// path without a name has the empty parent if it is a leading `.`, and none
/// otherwise: the root and the empty path have no parent.
pub open spec fn parent_len(path: Seq<u8>) -> Option<int> {
    let end = trimmed_len(path, path.len() as int);
    if end > body_start(path) {
        Some(trimmed_len(path, component_start(path, end)))
    } else if has_leading_dot(path) {
        Some(0)
    } else {
        None
    }
}

/// The parent of a path, if it has one.
pub open spec fn parent_of(path: Seq<u8>) -> Option<Seq<u8>> {
    match parent_len(path) {
        Some(len) => Some(path.take(len)),
        None => None,
    }
}

/// The bytes from `from` up to `to` are a name of `path`: a whole component of
/// its body that is neither empty nor `.`.
pub open spec fn is_name(path: Seq<u8>, from: int, to: int) -> bool {
    &&& body_start(path) <= from < to <= path.len()
    &&& forall|i: int| from <= i < to ==> path[i] != SEPARATOR
    &&& (from == body_start(path) || path[from - 1] == SEPARATOR)
    &&& (to == path.len() || path[to] == SEPARATOR)
    &&& !(to == from + 1 && path[from] == DOT)
}

/// The path holds a name.
pub open spec fn has_name(path: Seq<u8>) -> bool {
    exists|from: int, to: int| is_name(path, from, to)
}

/// No name of `path` ends behind `bound` without ending behind `limit` too:
/// the names that end at or before `limit` end at or before `bound`.
pub open spec fn names_end_by(path: Seq<u8>, limit: int, bound: int) -> bool {
    forall|from: int, to: int| #[trigger] is_name(path, from, to) && to <= limit ==> to <= bound
}

/// `len` is the start of the body or the end of a name.
pub open spec fn ends_cleanly(path: Seq<u8>, len: int) -> bool {
    len == body_start(path) || exists|from: int| is_name(path, from, len)
}

/// `len` is the length of the parent of `path`, said by the names alone. A
/// path with a name has a last name, the one that ends last; its parent ends
/// before that name, at the end of the name before it or, without such a
/// name, at the start of the body. A path without a name has the empty parent
/// if it is a leading `.`, and otherwise none.
pub open spec fn is_parent_len(path: Seq<u8>, len: Option<int>) -> bool {
    if has_name(path) {
        exists|from: int, to: int|
            {
                &&& #[trigger] is_name(path, from, to)
                &&& names_end_by(path, path.len() as int, to)
                &&& len matches Some(n)
                &&& body_start(path) <= n <= from
                &&& ends_cleanly(path, n)
                &&& names_end_by(path, from, n)
            }
    } else if has_leading_dot(path) {
        len == Some(0int)
    } else {
        len is None
    }
}

/// A prefix of `path` may be cut off at `end`: there the body or a component
/// begins or ends.
spec fn is_cut(path: Seq<u8>, end: int) -> bool {
    &&& body_start(path) <= end <= path.len()
    &&& (end == body_start(path) || end == path.len() || path[end] == SEPARATOR || path[end - 1]
        == SEPARATOR)
}

/// The component that ends at `end` holds no separator and begins behind one
/// or with the body.
proof fn lemma_component_start(path: Seq<u8>, end: int)
    requires
        body_start(path) <= end <= path.len(),
    ensures
        body_start(path) <= component_start(path, end) <= end,
        forall|i: int| component_start(path, end) <= i < end ==> path[i] != SEPARATOR,
        component_start(path, end) == body_start(path) || path[component_start(path, end) - 1]
            == SEPARATOR,
    decreases end,
{
    if end > body_start(path) && path[end - 1] != SEPARATOR {
        lemma_component_start(path, end - 1);
    }
}

/// Trimming a prefix that was cut off at `end` leaves the start of the body or
/// the end of the last name that ends by `end`.
proof fn lemma_trimmed_len(path: Seq<u8>, end: int)
    requires
        is_cut(path, end),
    ensures
        body_start(path) <= trimmed_len(path, end) <= end,
        trimmed_len(path, end) == body_start(path) || is_name(
            path,
            component_start(path, trimmed_len(path, end)),
            trimmed_len(path, end),
        ),
        names_end_by(path, end, trimmed_len(path, end)),
    decreases end,
{
    let start = body_start(path);
    if end <= start {
    } else if path[end - 1] == SEPARATOR {
        lemma_trimmed_len(path, end - 1);
        assert(names_end_by(path, end, trimmed_len(path, end))) by {
            assert forall|from: int, to: int| #[trigger]
                is_name(path, from, to) && to <= end implies to <= end - 1 by {
                if to == end {
                    assert(path[end - 1] != SEPARATOR);
                }
            }
        }
    } else if ends_in_dot(path, end) {
        if end - 1 > start {
            assert(trimmed_len(path, end - 1) == trimmed_len(path, end - 2));
            lemma_trimmed_len(path, end - 2);
            assert forall|from: int, to: int| #[trigger]
                is_name(path, from, to) && to <= end implies to <= end - 2 by {
                if to == end && from < end - 1 {
                    assert(path[end - 2] != SEPARATOR);
                }
                if to == end - 1 {
                    assert(path[end - 2] != SEPARATOR);
                }
            }
        } else {
            assert(trimmed_len(path, end - 1) == start);
            assert forall|from: int, to: int| #[trigger]
                is_name(path, from, to) && to <= end implies to <= start by {
            }
        }
    } else {
        lemma_component_start(path, end);
        lemma_component_start(path, end - 1);
        assert(is_name(path, component_start(path, end), end));
    }
}

/// The walk finds the parent: [`parent_len`] has what [`is_parent_len`] asks.
proof fn lemma_parent_len_is_a_parent(path: Seq<u8>)
    ensures
        is_parent_len(path, parent_len(path)),
{
    let start = body_start(path);
    let to = trimmed_len(path, path.len() as int);
    lemma_trimmed_len(path, path.len() as int);
    if to > start {
        let from = component_start(path, to);
        lemma_component_start(path, to);
        let len = trimmed_len(path, from);
        lemma_trimmed_len(path, from);
        if len > start {
            assert(is_name(path, component_start(path, len), len));
        }
        assert(ends_cleanly(path, len));
        assert(is_name(path, from, to));
    } else {
        assert forall|from: int, to: int| !is_name(path, from, to) by {
            if is_name(path, from, to) {
                assert(to <= start);
            }
        }
    }
}

/// A path has one last name, and one place where the names before it end.
proof fn lemma_parent_is_determined(path: Seq<u8>, first: Option<int>, second: Option<int>)
    requires
        is_parent_len(path, first),
        is_parent_len(path, second),
    ensures
        first == second,
{
    if has_name(path) {
        let (from1, to1): (int, int) = choose|from: int, to: int|
            {
                &&& #[trigger] is_name(path, from, to)
                &&& names_end_by(path, path.len() as int, to)
                &&& first matches Some(n)
                &&& body_start(path) <= n <= from
                &&& ends_cleanly(path, n)
                &&& names_end_by(path, from, n)
            };
        let (from2, to2): (int, int) = choose|from: int, to: int|
            {
                &&& #[trigger] is_name(path, from, to)
                &&& names_end_by(path, path.len() as int, to)
                &&& second matches Some(n)
                &&& body_start(path) <= n <= from
                &&& ends_cleanly(path, n)
                &&& names_end_by(path, from, n)
            };
        assert(to1 == to2);
        assert(from1 == from2) by {
            if from1 < from2 {
                assert(path[from2 - 1] != SEPARATOR);
            }
            if from2 < from1 {
                assert(path[from1 - 1] != SEPARATOR);
            }
        }
        let len1 = first.unwrap();
        let len2 = second.unwrap();
        if len1 != body_start(path) {
            let before = choose|before: int| is_name(path, before, len1);
            assert(is_name(path, before, len1));
        }
        if len2 != body_start(path) {
            let before = choose|before: int| is_name(path, before, len2);
            assert(is_name(path, before, len2));
        }
    }
}

/// What the parent is: [`parent_len`] is the one length that is the parent's
/// by the names of the path.
pub proof fn lemma_parent_len_is_the_parent(path: Seq<u8>, len: Option<int>)
    ensures
        is_parent_len(path, len) <==> parent_len(path) == len,
{
    lemma_parent_len_is_a_parent(path);
    if is_parent_len(path, len) {
        lemma_parent_is_determined(path, len, parent_len(path));
    }
}

/// Trimming never lengthens.
proof fn lemma_trimmed_len_bound(path: Seq<u8>, end: int)
    ensures
        trimmed_len(path, end) <= end,
    decreases end,
{
    if end > body_start(path) && (path[end - 1] == SEPARATOR || ends_in_dot(path, end)) {
        lemma_trimmed_len_bound(path, end - 1);
    }
}

/// The path ends where its last name ends, or is the bare root or leading
/// `.`: nothing at its end would be dropped.
pub open spec fn is_trimmed(path: Seq<u8>) -> bool {
    trimmed_len(path, path.len() as int) == path.len()
}

/// A directory's path, a separator and a file's name make a path whose parent
/// is the directory's path, byte for byte. The directory's path is not empty
/// and is trimmed; the name is any name of a file, whatever bytes follow it
/// that are no separator.
pub proof fn lemma_parent_of_file_in_directory(dir: Seq<u8>, file: Seq<u8>)
    requires
        dir.len() > 0,
        is_trimmed(dir),
        file.len() > 0,
        forall|i: int| 0 <= i < file.len() ==> file[i] != SEPARATOR,
        file != seq![DOT],
    ensures
        parent_of(dir + seq![SEPARATOR] + file) == Some(dir),
{
    let path = dir + seq![SEPARATOR] + file;
    let len = path.len() as int;
    let cut = dir.len() as int;
    assert(path[cut] == SEPARATOR);
    assert(forall|i: int| 0 <= i < cut ==> path[i] == dir[i]);
    assert(forall|i: int| cut < i < len ==> path[i] == file[i - cut - 1]);
    assert(body_start(path) == body_start(dir));
    assert(trimmed_len(path, len) == len) by {
        if file.len() == 1 {
            assert(file =~= seq![file[0]]);
        }
    }
    lemma_component_start(path, len);
    let begin = component_start(path, len);
    assert(begin == cut + 1) by {
        if begin <= cut {
            assert(path[cut] != SEPARATOR);
        }
        if begin > cut + 1 {
            assert(path[begin - 1] != SEPARATOR);
        }
    }
    assert(trimmed_len(path, cut + 1) == trimmed_len(path, cut));
    assert(trimmed_len(path, cut) == cut) by {
        lemma_trimmed_len_bound(dir, cut - 1);
    }
    assert(path.take(cut) =~= dir);
}

/// The parent of a path from the root is a path from the root.
pub proof fn lemma_parent_keeps_root(path: Seq<u8>)
    requires
        has_root(path),
        parent_of(path) is Some,
    ensures
        has_root(parent_of(path).unwrap()),
{
    lemma_trimmed_len(path, path.len() as int);
    let to = trimmed_len(path, path.len() as int);
    lemma_component_start(path, to);
    lemma_trimmed_len(path, component_start(path, to));
}

/// The parent is cut off at or before the start of the path's last component.
/// So where the path does not end in a separator, the parent holds nothing of
/// what follows the last separator: not the file's name, and not a line break
/// behind it.
pub proof fn lemma_parent_stops_before_last_component(path: Seq<u8>)
    requires
        parent_len(path) is Some,
    ensures
        0 <= parent_len(path).unwrap() <= component_start(path, path.len() as int) <= path.len(),
        path.len() > 0 && path.last() != SEPARATOR ==> parent_len(path).unwrap() < path.len(),
{
    let start = body_start(path);
    let len = path.len() as int;
    let to = trimmed_len(path, len);
    lemma_trimmed_len(path, len);
    lemma_component_start(path, len);
    if to > start {
        let from = component_start(path, to);
        lemma_component_start(path, to);
        lemma_trimmed_len(path, from);
        lemma_component_start_monotone(path, to, len);
    }
    if len > start && path.last() != SEPARATOR {
        lemma_component_start(path, len - 1);
    }
}

/// A component that ends later does not begin earlier.
proof fn lemma_component_start_monotone(path: Seq<u8>, first: int, second: int)
    requires
        body_start(path) <= first <= second <= path.len(),
    ensures
        component_start(path, first) <= component_start(path, second),
{
    lemma_component_start(path, first);
    lemma_component_start(path, second);
    let begin = component_start(path, second);
    if begin > first {
    } else if first > body_start(path) && path[first - 1] != SEPARATOR {
        // `first` lies inside the component that ends at `second`.
        lemma_component_start_within(path, first, second);
    }
}

/// Every place inside a component has the component's start.
proof fn lemma_component_start_within(path: Seq<u8>, inner: int, end: int)
    requires
        body_start(path) <= component_start(path, end) <= inner <= end <= path.len(),
    ensures
        component_start(path, inner) == component_start(path, end),
    decreases end - inner,
{
    lemma_component_start(path, end);
    if inner < end {
        lemma_component_start_within(path, inner + 1, end);
        assert(path[inner] != SEPARATOR);
    }
}

/// Where the body of `path` begins.
fn body_offset(path: &[u8]) -> (start: usize)
    ensures
        start == body_start(path@),
        start <= path.len(),
{
    if path.len() == 0 {
        0
    } else if path[0] == SEPARATOR {
        1
    } else if path[0] == DOT && (path.len() == 1 || path[1] == SEPARATOR) {
        1
    } else {
        0
    }
}

/// Drops the separators and `.` components at the end of the first `end` bytes.
fn trim_end(path: &[u8], start: usize, end: usize) -> (len: usize)
    requires
        start == body_start(path@),
        start <= end <= path.len(),
    ensures
        len == trimmed_len(path@, end as int),
        start <= len <= end,
{
    let mut len: usize = end;
    while len > start && (path[len - 1] == SEPARATOR || (path[len - 1] == DOT && (len - 1 == start
        || path[len - 2] == SEPARATOR)))
        invariant
            start == body_start(path@),
            start <= len <= end <= path.len(),
            trimmed_len(path@, len as int) == trimmed_len(path@, end as int),
        decreases len,
    {
        len -= 1;
    }
    len
}

/// Finds where the component that ends at `end` begins.
fn find_component_start(path: &[u8], start: usize, end: usize) -> (begin: usize)
    requires
        start == body_start(path@),
        start <= end <= path.len(),
    ensures
        begin == component_start(path@, end as int),
        start <= begin <= end,
{
    let mut begin: usize = end;
    while begin > start && path[begin - 1] != SEPARATOR
        invariant
            start == body_start(path@),
            start <= begin <= end <= path.len(),
            component_start(path@, begin as int) == component_start(path@, end as int),
        decreases begin,
    {
        begin -= 1;
    }
    begin
}

/// The length of the parent of `path`, or `None` where it has no parent.
pub fn parent_length(path: &[u8]) -> (len: Option<usize>)
    ensures
        len is Some <==> parent_len(path@) is Some,
        len matches Some(n) ==> parent_len(path@) == Some(n as int) && n <= path.len(),
{
    let start = body_offset(path);
    let end = trim_end(path, start, path.len());
    if end > start {
        let begin = find_component_start(path, start, end);
        Some(trim_end(path, start, begin))
    } else if start == 1 && path[0] == DOT {
        Some(0)
    } else {
        None
    }
}

/// Whether `path` has a parent: whether it holds a name or is a leading `.`.
pub fn has_parent(path: &[u8]) -> (yes: bool)
    ensures
        yes == parent_of(path@).is_some(),
{
    parent_length(path).is_some()
}

/// The parent of `path`: the path without its last name and without the
/// separators and `.` components that stood around that name.
pub fn parent(path: &[u8]) -> (dir: Option<&[u8]>)
    ensures
        dir is Some <==> parent_of(path@) is Some,
        dir matches Some(bytes) ==> parent_of(path@) == Some(bytes@),
{
    match parent_length(path) {
        Some(len) => Some(slice_subrange(path, 0, len)),
        None => None,
    }
}

} // verus!
