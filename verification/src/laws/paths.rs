//! Paths.
use vstd::prelude::*;

use crate::path::{
    components, components_of, file_name_of, is_absolute, is_component, is_same_path, join,
    normalize, pieces, slash_joined,
};

verus! {

/// Whether a text can be the name of a file: it is not empty, has no separator in
/// it, and is not the name that every directory has for itself.
pub open spec fn is_name(name: Seq<char>) -> bool {
    &&& name.len() > 0
    &&& !name.contains('/')
    &&& name != seq!['.']
}

/// Names behind one another, each with a separator before it.
pub open spec fn below_root(names: Seq<Seq<char>>) -> Seq<char>
    decreases names.len(),
{
    if names.len() == 0 {
        Seq::empty()
    } else {
        below_root(names.drop_last()) + seq!['/'] + names.last()
    }
}

proof fn lemma_pieces_len(path: Seq<char>)
    ensures
        pieces(path).len() > 0,
    decreases path.len(),
{
    if path.len() > 0 {
        lemma_pieces_len(path.drop_last());
    }
}

proof fn lemma_pieces_of_name(name: Seq<char>)
    requires
        !name.contains('/'),
    ensures
        pieces(name) == seq![name],
    decreases name.len(),
{
    if name.len() > 0 {
        let front = name.drop_last();
        assert forall|i: int| 0 <= i < front.len() implies front[i] != '/' by {
            assert(name.contains(name[i]));
        }
        lemma_pieces_of_name(front);
        assert(name.contains(name.last()));
        assert(front.push(name.last()) =~= name);
        assert(pieces(name) =~= seq![name]);
    } else {
        assert(name =~= Seq::empty());
    }
}

/// The pieces on both sides of a separator are the pieces of either side.
proof fn lemma_pieces_split(a: Seq<char>, b: Seq<char>)
    ensures
        pieces(a + seq!['/'] + b) == pieces(a) + pieces(b),
    decreases b.len(),
{
    let whole = a + seq!['/'] + b;
    lemma_pieces_len(a);
    if b.len() == 0 {
        assert(whole.drop_last() =~= a);
        assert(pieces(whole) =~= pieces(a) + pieces(b));
    } else {
        let front = b.drop_last();
        lemma_pieces_split(a, front);
        lemma_pieces_len(front);
        assert(whole.drop_last() =~= a + seq!['/'] + front);
        assert(whole.last() == b.last());
        let before = pieces(a) + pieces(front);
        assert(before.last() == pieces(front).last());
        assert(before.drop_last() =~= pieces(a) + pieces(front).drop_last());
        assert(pieces(whole) =~= pieces(a) + pieces(b));
    }
}

/// The components among `a` runs and then `b` runs.
proof fn lemma_components_split(
    a: Seq<Seq<char>>,
    b: Seq<Seq<char>>,
    n: int,
    absolute: bool,
)
    requires
        a.len() > 0,
        0 <= n <= b.len(),
    ensures
        components_of(a + b, a.len() + n, absolute) == components_of(
            a,
            a.len() as int,
            absolute,
        ) + components_of(b, n, true),
    decreases n,
{
    let all = a + b;
    if n == 0 {
        lemma_components_prefix(a, b, a.len() as int, absolute);
        assert(components_of(a, a.len() as int, absolute) + components_of(b, 0, true)
            =~= components_of(a, a.len() as int, absolute));
    } else {
        lemma_components_split(a, b, n - 1, absolute);
        let run = b[n - 1];
        assert(all[a.len() + n - 1] == run);
        assert(is_component(run, a.len() + n - 1, absolute) == is_component(run, n - 1, true));
        let before = components_of(a, a.len() as int, absolute);
        assert(before + components_of(b, n - 1, true).push(run) =~= (before + components_of(
            b,
            n - 1,
            true,
        )).push(run));
    }
}

proof fn lemma_components_prefix(a: Seq<Seq<char>>, b: Seq<Seq<char>>, n: int, absolute: bool)
    requires
        0 <= n <= a.len(),
    ensures
        components_of(a + b, n, absolute) == components_of(a, n, absolute),
    decreases n,
{
    if n > 0 {
        lemma_components_prefix(a, b, n - 1, absolute);
        assert((a + b)[n - 1] == a[n - 1]);
    }
}

/// What stands behind a separator adds its own components, read as below the root.
proof fn lemma_components_below(a: Seq<char>, b: Seq<char>)
    ensures
        components(a + seq!['/'] + b) == components_of(
            pieces(a),
            pieces(a).len() as int,
            a.len() == 0 || is_absolute(a),
        ) + components_of(pieces(b), pieces(b).len() as int, true),
        is_absolute(a + seq!['/'] + b) == (a.len() == 0 || is_absolute(a)),
{
    let whole = a + seq!['/'] + b;
    lemma_pieces_split(a, b);
    lemma_pieces_len(a);
    lemma_components_split(
        pieces(a),
        pieces(b),
        pieces(b).len() as int,
        is_absolute(whole),
    );
    if a.len() > 0 {
        assert(whole[0] == a[0]);
    } else {
        assert(whole[0] == '/');
    }
}

proof fn lemma_components_of_name(name: Seq<char>)
    ensures
        is_name(name) ==> components_of(pieces(name), pieces(name).len() as int, true)
            == seq![name],
        name.len() == 0 || name == seq!['.'] ==> components_of(
            pieces(name),
            pieces(name).len() as int,
            true,
        ) == Seq::<Seq<char>>::empty(),
{
    reveal_with_fuel(components_of, 2);
    if is_name(name) || name.len() == 0 || name == seq!['.'] {
        assert(!name.contains('/'));
        lemma_pieces_of_name(name);
        if is_name(name) {
            assert(components_of(seq![name], 1, true) =~= seq![name]);
        }
    }
}

proof fn lemma_components_below_root(names: Seq<Seq<char>>)
    requires
        forall|i: int| 0 <= i < names.len() ==> is_name(#[trigger] names[i]),
    ensures
        names.len() > 0 ==> components(below_root(names)) == names && is_absolute(
            below_root(names),
        ),
        below_root(names).len() == 0 <==> names.len() == 0,
        names.len() > 0 ==> seq!['/'] + slash_joined(names) == below_root(names),
    decreases names.len(),
{
    if names.len() > 0 {
        let front = names.drop_last();
        let last = names.last();
        assert forall|i: int| 0 <= i < front.len() implies is_name(#[trigger] front[i]) by {
            assert(front[i] == names[i]);
        }
        assert(is_name(names[names.len() - 1]));
        lemma_components_below_root(front);
        lemma_components_below(below_root(front), last);
        lemma_components_of_name(last);
        assert(front.push(last) =~= names);
        if front.len() == 0 {
            reveal_with_fuel(components_of, 2);
            assert(below_root(front) =~= Seq::empty());
            lemma_pieces_of_name(below_root(front));
            assert(components_of(pieces(below_root(front)), 1, true) =~= Seq::empty());
            assert(names =~= seq![last]);
            assert(below_root(names) =~= seq!['/'] + last);
        } else {
            assert(components(below_root(front)) == front);
            assert(seq!['/'] + slash_joined(names) =~= below_root(front) + seq!['/'] + last);
        }
    }
}

/// A path that is already spelled in the one way keeps its spelling: from the root
/// down, or from a first name on.
pub proof fn law_plain_paths_keep_their_spelling(
    names: Seq<Seq<char>>,
    path: &str,
    normal: String,
)
    requires
        forall|i: int| 0 <= i < names.len() ==> is_name(#[trigger] names[i]),
        path@ == below_root(names) || path@ == below_root(names).skip(1),
        names.len() > 0,
        call_ensures(normalize, (path,), normal),
    ensures
        normal@ == path@,
{
    lemma_components_below_root(names);
    let full = below_root(names);
    assert(full == seq!['/'] + slash_joined(names));
    if path@ == full.skip(1) && path@ != full {
        assert(full.skip(1) =~= slash_joined(names));
        lemma_relative_components(names);
    }
}

proof fn lemma_relative_components(names: Seq<Seq<char>>)
    requires
        names.len() > 0,
        forall|i: int| 0 <= i < names.len() ==> is_name(#[trigger] names[i]),
    ensures
        components(slash_joined(names)) == names,
        !is_absolute(slash_joined(names)),
        slash_joined(names).len() > 0,
    decreases names.len(),
{
    let last = names.last();
    assert(is_name(names[names.len() - 1]));
    reveal_with_fuel(components_of, 2);
    if names.len() == 1 {
        lemma_pieces_of_name(last);
        assert(slash_joined(names) == last);
        assert(!is_absolute(last)) by {
            if is_absolute(last) {
                assert(last.contains(last[0]));
            }
        }
        assert(components_of(seq![last], 1, false) =~= seq![last]);
        assert(names =~= seq![last]);
    } else {
        let front = names.drop_last();
        assert forall|i: int| 0 <= i < front.len() implies is_name(#[trigger] front[i]) by {
            assert(front[i] == names[i]);
        }
        lemma_relative_components(front);
        let a = slash_joined(front);
        assert(slash_joined(names) =~= a + seq!['/'] + last);
        lemma_components_below(a, last);
        lemma_components_of_name(last);
        assert(front.push(last) =~= names);
    }
}

proof fn lemma_dotted_components(names: Seq<Seq<char>>)
    requires
        forall|i: int| 0 <= i < names.len() ==> is_name(#[trigger] names[i]),
    ensures
        components(seq!['.'] + below_root(names)) == seq![seq!['.']] + names,
        slash_joined(seq![seq!['.']] + names) == seq!['.'] + below_root(names),
    decreases names.len(),
{
    reveal_with_fuel(components_of, 2);
    let dot = seq!['.'];
    let all = seq![dot] + names;
    let path = dot + below_root(names);
    if names.len() == 0 {
        assert(path =~= dot);
        assert(all =~= seq![dot]);
        lemma_pieces_of_name(dot);
        assert(components_of(seq![dot], 1, false) =~= seq![dot]);
    } else {
        let front = names.drop_last();
        let last = names.last();
        assert forall|i: int| 0 <= i < front.len() implies is_name(#[trigger] front[i]) by {
            assert(front[i] == names[i]);
        }
        assert(is_name(names[names.len() - 1]));
        lemma_dotted_components(front);
        let a = dot + below_root(front);
        assert(path =~= a + seq!['/'] + last);
        assert(a[0] == '.');
        lemma_components_below(a, last);
        lemma_components_of_name(last);
        assert((seq![dot] + front).push(last) =~= all);
        assert(all.drop_last() =~= seq![dot] + front);
        assert(slash_joined(all) =~= path);
    }
}

/// A step to where one is already counts at the start of a path that does not start
/// at the root: it keeps its spelling there. So do the root and no path at all.
pub proof fn law_leading_dots_and_roots_keep_their_spelling(
    names: Seq<Seq<char>>,
    path: &str,
    normal: String,
)
    requires
        forall|i: int| 0 <= i < names.len() ==> is_name(#[trigger] names[i]),
        path@ == seq!['.'] + below_root(names) || path@ == seq!['/'] || path@ == Seq::<
            char,
        >::empty(),
        call_ensures(normalize, (path,), normal),
    ensures
        normal@ == path@,
{
    let nothing = Seq::<char>::empty();
    reveal_with_fuel(components_of, 3);
    lemma_dotted_components(names);
    lemma_pieces_of_name(nothing);
    lemma_components_of_name(nothing);
    lemma_components_below(nothing, nothing);
    assert(nothing + seq!['/'] + nothing =~= seq!['/']);
    assert(components_of(pieces(nothing), 1, true) =~= Seq::<Seq<char>>::empty());
    assert(components_of(pieces(nothing), 1, false) =~= Seq::<Seq<char>>::empty());
    if path@ == seq!['.'] + below_root(names) {
        assert(path@[0] == '.');
    }
}

/// Separators in a row count as one, a step to where one is already counts as none,
/// and so do both at the end.
pub proof fn law_noise_in_paths_does_not_matter(
    a: Seq<char>,
    b: Seq<char>,
    plain: &str,
    noisy: &str,
    plain_normal: String,
    noisy_normal: String,
    same: bool,
)
    requires
        ({
            ||| plain@ == a + seq!['/'] + b && noisy@ == a + seq!['/', '/'] + b
            ||| plain@ == a + seq!['/'] + b && noisy@ == a + seq!['/', '.', '/'] + b
            ||| a.len() > 0 && plain@ == a && noisy@ == a + seq!['/']
            ||| a.len() > 0 && plain@ == a && noisy@ == a + seq!['/', '.']
        }),
        call_ensures(normalize, (plain,), plain_normal),
        call_ensures(normalize, (noisy,), noisy_normal),
        call_ensures(is_same_path, (plain, noisy), same),
    ensures
        plain_normal@ == noisy_normal@,
        same,
{
    let nothing = Seq::<char>::empty();
    let dot = seq!['.'];
    lemma_components_of_name(nothing);
    lemma_components_of_name(dot);
    lemma_components_below(a, b);
    lemma_components_below(a, nothing);
    lemma_components_below(a, dot);
    lemma_components_below(a + seq!['/'], b);
    lemma_components_below(a + seq!['/', '.'], b);
    lemma_pieces_split(a, nothing);
    lemma_pieces_split(a, dot);
    assert(a + seq!['/'] + nothing =~= a + seq!['/']);
    assert(a + seq!['/'] + dot =~= a + seq!['/', '.']);
    assert(a + seq!['/'] + seq!['/'] + b =~= a + seq!['/', '/'] + b);
    assert(a + seq!['/', '.'] + seq!['/'] + b =~= a + seq!['/', '.', '/'] + b);
    let absolute = a.len() == 0 || is_absolute(a);
    let before = components_of(pieces(a), pieces(a).len() as int, absolute);
    assert(before + Seq::<Seq<char>>::empty() =~= before);
    assert(is_absolute(a + seq!['/']) == absolute) by {
        assert((a + seq!['/'])[0] == if a.len() > 0 {
            a[0]
        } else {
            '/'
        });
    }
    assert(is_absolute(a + seq!['/', '.']) == absolute) by {
        assert((a + seq!['/', '.'])[0] == if a.len() > 0 {
            a[0]
        } else {
            '/'
        });
    }
}

/// Two paths are the same exactly where their one spelling is.
pub proof fn law_same_paths_are_spelled_alike(
    a: &str,
    b: &str,
    same: bool,
    a_normal: String,
    b_normal: String,
)
    requires
        call_ensures(is_same_path, (a, b), same),
        call_ensures(normalize, (a,), a_normal),
        call_ensures(normalize, (b,), b_normal),
    ensures
        same <==> a_normal@ == b_normal@,
{
}

/// The name of a file is what stands behind the last separator, unless that leads up
/// to the directory above.
pub proof fn law_file_name_stands_behind_the_last_separator(
    dir: Seq<char>,
    name: Seq<char>,
    path: &str,
    found: Option<String>,
)
    requires
        path@ == dir + seq!['/'] + name || path@ == name,
        is_name(name),
        call_ensures(file_name_of, (path,), found),
    ensures
        name == seq!['.', '.'] ==> found is None,
        name != seq!['.', '.'] ==> (found matches Some(n) && n@ == name),
{
    lemma_components_of_name(name);
    if path@ == dir + seq!['/'] + name {
        lemma_components_below(dir, name);
        assert(components(path@).last() == name);
    } else {
        lemma_relative_components(seq![name]);
        assert(slash_joined(seq![name]) == name);
        assert(components(path@).last() == name);
    }
}

/// The name of a file does not depend on how separators are doubled or on steps to
/// where one is already, be they at the end.
pub proof fn law_file_name_is_that_of_the_plain_path(
    a: Seq<char>,
    plain: &str,
    noisy: &str,
    found: Option<String>,
    noisy_found: Option<String>,
)
    requires
        a.len() > 0,
        plain@ == a,
        noisy@ == a + seq!['/'] || noisy@ == a + seq!['/', '.'],
        call_ensures(file_name_of, (plain,), found),
        call_ensures(file_name_of, (noisy,), noisy_found),
    ensures
        match (found, noisy_found) {
            (Some(x), Some(y)) => x@ == y@,
            (None, None) => true,
            _ => false,
        },
{
    let nothing = Seq::<char>::empty();
    let dot = seq!['.'];
    lemma_components_of_name(nothing);
    lemma_components_of_name(dot);
    lemma_components_below(a, nothing);
    lemma_components_below(a, dot);
    assert(a + seq!['/'] + nothing =~= a + seq!['/']);
    assert(a + seq!['/'] + dot =~= a + seq!['/', '.']);
    let before = components_of(pieces(a), pieces(a).len() as int, is_absolute(a));
    assert(before + Seq::<Seq<char>>::empty() =~= before);
}

/// Nothing, the root and a step to where one is already have no name.
pub proof fn law_root_has_no_name(path: &str, found: Option<String>)
    requires
        path@ == Seq::<char>::empty() || path@ == seq!['/'] || path@ == seq!['.'],
        call_ensures(file_name_of, (path,), found),
    ensures
        found is None,
{
    let nothing = Seq::<char>::empty();
    reveal_with_fuel(components_of, 3);
    lemma_pieces_of_name(nothing);
    lemma_pieces_of_name(seq!['.']);
    lemma_components_of_name(nothing);
    lemma_components_below(nothing, nothing);
    assert(nothing + seq!['/'] + nothing =~= seq!['/']);
    assert(components_of(pieces(nothing), 1, true) =~= Seq::<Seq<char>>::empty());
}

/// A path from the root stands for itself wherever it is joined to; any other is put
/// behind its base with one separator between them.
pub proof fn law_joined_path_lies_below_its_base(base: &str, path: &str, whole: String)
    requires
        call_ensures(join, (base, path), whole),
    ensures
        path@.len() > 0 && path@[0] == '/' ==> whole@ == path@,
        path@.len() == 0 || path@[0] != '/' ==> {
            &&& base@.len() == 0 ==> whole@ == path@
            &&& base@.len() > 0 && base@.last() == '/' ==> whole@ == base@ + path@
            &&& base@.len() > 0 && base@.last() != '/' ==> whole@ == base@ + seq!['/'] + path@
        },
{
    assert(base@.push('/') =~= base@ + seq!['/']);
    if base@.len() == 0 {
        assert(base@ + path@ =~= path@);
    }
}

} // verus!
