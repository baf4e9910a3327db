//! Slash-separated paths, read the way Unix paths are: repeated and trailing
//! separators do not count, nor does a `.` component anywhere but at the front
//! of a relative path.
use vstd::prelude::*;

use crate::text::{chars_of, string_of};

verus! {

/// Whether `path` starts at the root.
pub open spec fn is_absolute(path: Seq<char>) -> bool {
    path.len() > 0 && path[0] == '/'
}

/// The runs between separators, empty ones counted.
pub open spec fn pieces(path: Seq<char>) -> Seq<Seq<char>>
    decreases path.len(),
{
    if path.len() == 0 {
        seq![Seq::empty()]
    } else {
        let before = pieces(path.drop_last());
        if path.last() == '/' {
            before.push(Seq::empty())
        } else {
            before.drop_last().push(before.last().push(path.last()))
        }
    }
}

/// Whether the run `piece`, the `i`-th of its path, is a component.
pub open spec fn is_component(piece: Seq<char>, i: int, absolute: bool) -> bool {
    piece.len() > 0 && (piece == seq!['.'] ==> i == 0 && !absolute)
}

/// The components among the first `n` runs.
pub open spec fn components_of(runs: Seq<Seq<char>>, n: int, absolute: bool) -> Seq<Seq<char>>
    decreases n,
{
    if n <= 0 {
        Seq::empty()
    } else if is_component(runs[n - 1], n - 1, absolute) {
        components_of(runs, n - 1, absolute).push(runs[n - 1])
    } else {
        components_of(runs, n - 1, absolute)
    }
}

/// The components of `path` below its root, if it has one.
pub open spec fn components(path: Seq<char>) -> Seq<Seq<char>> {
    components_of(pieces(path), pieces(path).len() as int, is_absolute(path))
}

/// `names` with a separator between each two.
pub open spec fn slash_joined(names: Seq<Seq<char>>) -> Seq<char>
    decreases names.len(),
{
    if names.len() == 0 {
        Seq::empty()
    } else if names.len() == 1 {
        names[0]
    } else {
        slash_joined(names.drop_last()).push('/') + names.last()
    }
}

/// The one spelling that all spellings of a path share.
pub open spec fn normal_form(path: Seq<char>) -> Seq<char> {
    if is_absolute(path) {
        seq!['/'] + slash_joined(components(path))
    } else {
        slash_joined(components(path))
    }
}

/// Whether `a` and `b` are spellings of one path.
pub open spec fn same_path(a: Seq<char>, b: Seq<char>) -> bool {
    normal_form(a) == normal_form(b)
}

/// The last component, unless it is `.` or `..` or there is none.
pub open spec fn file_name(path: Seq<char>) -> Option<Seq<char>> {
    let names = components(path);
    if names.len() == 0 || names.last() == seq!['.'] || names.last() == seq!['.', '.'] {
        None
    } else {
        Some(names.last())
    }
}

/// `path` seen from `base`: an absolute `path` stands for itself.
pub open spec fn joined(base: Seq<char>, path: Seq<char>) -> Seq<char> {
    if is_absolute(path) {
        path
    } else if base.len() > 0 && base.last() != '/' {
        base.push('/') + path
    } else {
        base + path
    }
}

/// The texts that a list of character vectors holds.
pub open spec fn texts(list: Seq<Vec<char>>) -> Seq<Seq<char>> {
    Seq::new(list.len(), |i: int| list[i]@)
}

fn split_pieces(path: &Vec<char>) -> (runs: Vec<Vec<char>>)
    ensures
        texts(runs@) == pieces(path@),
{
    let mut done: Vec<Vec<char>> = Vec::new();
    let mut current: Vec<char> = Vec::new();
    let mut i: usize = 0;
    assert(texts(done@).push(current@) == pieces(path@.take(0)));
    while i < path.len()
        invariant
            i <= path.len(),
            texts(done@).push(current@) == pieces(path@.take(i as int)),
        decreases path.len() - i,
    {
        let ghost before = pieces(path@.take(i as int));
        let ghost prefix = path@.take(i + 1);
        assert(prefix.drop_last() == path@.take(i as int));
        assert(prefix.last() == path@[i as int]);
        let ghost done_before = texts(done@);
        assert(before.last() == current@);
        assert(before.drop_last() == done_before);
        if path[i] == '/' {
            let ghost run = current@;
            done.push(current);
            current = Vec::new();
            assert(texts(done@) == done_before.push(run));
        } else {
            current.push(path[i]);
        }
        i += 1;
        assert(texts(done@).push(current@) == pieces(path@.take(i as int)));
    }
    assert(path@.take(i as int) == path@);
    let ghost done_before = texts(done@);
    let ghost run = current@;
    done.push(current);
    assert(texts(done@) == done_before.push(run));
    done
}

fn is_dot(name: &Vec<char>) -> (b: bool)
    ensures
        b == (name@ == seq!['.']),
{
    let b = name.len() == 1 && name[0] == '.';
    assert(b ==> name@ == seq!['.']);
    b
}

fn is_dot_dot(name: &Vec<char>) -> (b: bool)
    ensures
        b == (name@ == seq!['.', '.']),
{
    let b = name.len() == 2 && name[0] == '.' && name[1] == '.';
    assert(b ==> name@ == seq!['.', '.']);
    b
}

/// Whether the path starts at the root, and its components.
fn parse(path: &str) -> (parsed: (bool, Vec<Vec<char>>))
    ensures
        parsed.0 == is_absolute(path@),
        texts(parsed.1@) == components(path@),
{
    let chars = chars_of(path);
    let absolute = chars.len() > 0 && chars[0] == '/';
    let runs = split_pieces(&chars);
    let mut names: Vec<Vec<char>> = Vec::new();
    let mut i: usize = 0;
    assert(texts(names@) == components_of(pieces(path@), 0, absolute));
    while i < runs.len()
        invariant
            i <= runs.len(),
            texts(runs@) == pieces(path@),
            texts(names@) == components_of(pieces(path@), i as int, absolute),
        decreases runs.len() - i,
    {
        let ghost before = texts(names@);
        assert(texts(runs@)[i as int] == runs@[i as int]@);
        if runs[i].len() > 0 && !(is_dot(&runs[i]) && (i > 0 || absolute)) {
            let name = runs[i].clone();
            assert(name@ == runs@[i as int]@);
            names.push(name);
            assert(texts(names@) == before.push(runs@[i as int]@));
        }
        i += 1;
    }
    (absolute, names)
}

/// The one spelling that all spellings of `path` share.
pub fn normalize(path: &str) -> (normal: String)
    ensures
        normal@ == normal_form(path@),
{
    let (absolute, names) = parse(path);
    let mut out: Vec<char> = Vec::new();
    if absolute {
        out.push('/');
    }
    let ghost root = out@;
    let ghost all = components(path@);
    let mut i: usize = 0;
    assert(root + slash_joined(all.take(0)) == out@);
    while i < names.len()
        invariant
            i <= names.len(),
            texts(names@) == all,
            out@ == root + slash_joined(all.take(i as int)),
        decreases names.len() - i,
    {
        let ghost next = all.take(i + 1);
        assert(next.drop_last() == all.take(i as int));
        assert(next.last() == names@[i as int]@);
        let ghost before = out@;
        if i > 0 {
            out.push('/');
        }
        let mut name = names[i].clone();
        assert(name@ == names@[i as int]@);
        out.append(&mut name);
        assert(out@ == root + slash_joined(next));
        i += 1;
    }
    assert(all.take(i as int) == all);
    assert(root + slash_joined(all) == normal_form(path@));
    let n = out.len();
    assert(out@.subrange(0, n as int) == out@);
    string_of(&out, 0, n)
}

/// Whether `a` and `b` are spellings of one path.
pub fn is_same_path(a: &str, b: &str) -> (same: bool)
    ensures
        same == same_path(a@, b@),
{
    normalize(a) == normalize(b)
}

/// The last component, unless it is `.` or `..` or there is none.
pub fn file_name_of(path: &str) -> (name: Option<String>)
    ensures
        match name {
            Some(s) => file_name(path@) == Some(s@),
            None => file_name(path@) is None,
        },
{
    let (_, names) = parse(path);
    assert(texts(names@) == components(path@));
    if names.len() == 0 {
        return None;
    }
    let last = &names[names.len() - 1];
    assert(components(path@).last() == last@);
    if is_dot(last) || is_dot_dot(last) {
        return None;
    }
    let n = last.len();
    assert(last@.subrange(0, n as int) == last@);
    Some(string_of(last, 0, n))
}

/// `path` seen from `base`: an absolute `path` stands for itself.
pub fn join(base: &str, path: &str) -> (whole: String)
    ensures
        whole@ == joined(base@, path@),
{
    let rel = chars_of(path);
    if rel.len() > 0 && rel[0] == '/' {
        return path.to_owned();
    }
    let dir = chars_of(base);
    let mut whole = base.to_owned();
    if dir.len() > 0 && dir[dir.len() - 1] != '/' {
        whole.push('/');
    }
    whole.append(path);
    whole
}

} // verus!
