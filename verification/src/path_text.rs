//! Paths as text. A path is a row of components with `/` between them; a component `.` counts
//! only where it opens a relative path, and empty components do not count.

use vstd::prelude::*;
use crate::text::{
    chars_of, first_index, joined, last_start, lemma_last_start, same, split_once, starts_with,
    tail_after_last, text_of, texts,
};

verus! {

/// Whether the path starts at the root.
pub open spec fn is_absolute(path: Seq<char>) -> bool {
    path.len() > 0 && path[0] == '/'
}

/// Whether `segment` counts as a component; `opening` where it opens the path.
pub open spec fn counts(segment: Seq<char>, opening: bool) -> bool {
    segment.len() > 0 && (opening || segment != seq!['.'])
}

/// The components of `rest`; `opening` where nothing stands before it.
pub open spec fn components_from(rest: Seq<char>, opening: bool) -> Seq<Seq<char>>
    decreases rest.len(),
    via components_from_decreases
{
    let at = first_index(rest, seq!['/']);
    let head = if counts(rest.take(at), opening) {
        seq![rest.take(at)]
    } else {
        Seq::empty()
    };
    if at >= rest.len() {
        head
    } else {
        head + components_from(rest.skip(at + 1), false)
    }
}

#[via_fn]
proof fn components_from_decreases(rest: Seq<char>, opening: bool) {
    crate::text::lemma_first_index(rest, seq!['/']);
}

/// The components of a path, without the root.
pub open spec fn components(path: Seq<char>) -> Seq<Seq<char>> {
    components_from(path, true)
}

/// The last component, where it is a name: not `.` and not `..`.
pub open spec fn name_of(path: Seq<char>) -> Option<Seq<char>> {
    let parts = components(path);
    if parts.len() > 0 && parts.last() != seq!['.'] && parts.last() != seq!['.', '.'] {
        Some(parts.last())
    } else {
        None
    }
}

/// The part of the name behind its last dot, where the name has one that does not open it.
pub open spec fn extension_of(path: Seq<char>) -> Option<Seq<char>> {
    match name_of(path) {
        Some(name) => {
            let at = last_start(name, '.');
            if at > 1 {
                Some(name.skip(at))
            } else {
                None
            }
        },
        None => None,
    }
}

/// Whether the name of `path` begins with a dot.
pub open spec fn is_dotted(path: Seq<char>) -> bool {
    match name_of(path) {
        Some(name) => name.len() > 0 && name[0] == '.',
        None => false,
    }
}

/// `leaf` below `base`; an absolute `leaf` stands for itself.
pub open spec fn below(base: Seq<char>, leaf: Seq<char>) -> Seq<char> {
    if is_absolute(leaf) {
        leaf
    } else if base.len() == 0 || base.last() == '/' {
        base + leaf
    } else {
        base + seq!['/'] + leaf
    }
}

/// The path of the given components, from the root where `absolute`.
pub open spec fn path_from(absolute: bool, parts: Seq<Seq<char>>) -> Seq<char> {
    (if absolute {
        seq!['/']
    } else {
        Seq::empty()
    }) + joined(parts, seq!['/'])
}

/// Whether `name` can stand as one component of a path: it has no `/` and is not empty.
pub open spec fn is_plain(name: Seq<char>) -> bool {
    name.len() > 0 && !name.contains('/')
}

/// The components of `a`, a slash and `b` are those of `a`, then those of `b`.
pub proof fn lemma_components_concat(a: Seq<char>, b: Seq<char>, opening: bool)
    ensures
        components_from(a + seq!['/'] + b, opening) == components_from(a, opening)
            + components_from(b, false),
    decreases a.len(),
{
    let slash = seq!['/'];
    let whole = a + slash + b;
    let at = first_index(a, slash);
    crate::text::lemma_first_index(a, slash);
    crate::text::lemma_first_index(whole, slash);
    let wat = first_index(whole, slash);
    assert(slash.contains('/')) by {
        assert(slash[0] == '/');
    }
    if at < a.len() {
        assert(wat == at) by {
            assert(a[at] == '/');
            assert(whole[at] == '/');
            if wat < at {
                assert(whole[wat] == a[wat]);
                assert(slash.contains(whole[wat]));
            }
            if wat > at {
                assert(!slash.contains(whole[at]));
            }
        }
        assert(whole.take(at) == a.take(at));
        assert(whole.skip(at + 1) == a.skip(at + 1) + slash + b);
        lemma_components_concat(a.skip(at + 1), b, false);
        let head = if counts(a.take(at), opening) {
            seq![a.take(at)]
        } else {
            Seq::empty()
        };
        assert(components_from(whole, opening) == head + components_from(
            a.skip(at + 1) + slash + b,
            false,
        ));
        assert(components_from(whole, opening) == components_from(a, opening) + components_from(
            b,
            false,
        ));
    } else {
        assert(wat == a.len()) by {
            assert(whole[a.len() as int] == '/');
            if wat < a.len() {
                assert(whole[wat] == a[wat]);
                assert(slash.contains(whole[wat]));
            }
            if wat > a.len() {
                assert(!slash.contains(whole[a.len() as int]));
            }
        }
        assert(whole.take(wat) == a);
        assert(a.take(at) == a);
        assert(whole.skip(wat + 1) == b);
    }
}

/// A plain name is its own only component.
pub proof fn lemma_components_plain(name: Seq<char>, opening: bool)
    requires
        is_plain(name),
        opening || name != seq!['.'],
    ensures
        components_from(name, opening) == seq![name],
{
    let slash = seq!['/'];
    crate::text::lemma_first_index(name, slash);
    let at = first_index(name, slash);
    if at < name.len() {
        assert(slash.contains(name[at]));
        assert(name[at] == '/');
        assert(name.contains('/'));
    }
    assert(name.take(at) == name);
}

/// A plain name joined below any path is the last component and the name of the result.
pub proof fn law_joined_name(base: Seq<char>, leaf: Seq<char>)
    requires
        is_plain(leaf),
        leaf != seq!['.'],
        leaf != seq!['.', '.'],
    ensures
        components(below(base, leaf)) == components(base).push(leaf),
        name_of(below(base, leaf)) == Some(leaf),
{
    assert(leaf[0] != '/') by {
        if leaf[0] == '/' {
            assert(leaf.contains('/'));
        }
    }
    lemma_components_plain(leaf, true);
    lemma_components_plain(leaf, false);
    let slash = seq!['/'];
    if base.len() == 0 {
        assert(base + leaf == leaf);
        assert(base.take(0) == base);
        assert(components(base) == Seq::<Seq<char>>::empty());
        assert(components(below(base, leaf)) == components(base).push(leaf));
    } else if base.last() == '/' {
        let front = base.drop_last();
        assert(base + leaf == front + slash + leaf);
        assert(base == front + slash + Seq::<char>::empty());
        lemma_components_concat(front, leaf, true);
        lemma_components_concat(front, Seq::empty(), true);
        assert(Seq::<char>::empty().take(0) == Seq::<char>::empty());
        assert(components_from(Seq::empty(), false) == Seq::<Seq<char>>::empty());
        assert(components(base) == components_from(front, true));
        assert(components(below(base, leaf)) == components(base).push(leaf));
    } else {
        lemma_components_concat(base, leaf, true);
        assert(components(below(base, leaf)) == components(base).push(leaf));
    }
}

/// The components of a path; see [`self::components`].
pub fn split_path(path: &str) -> (r: Vec<String>)
    ensures
        texts(r@) == components(path@),
{
    let mut out: Vec<String> = Vec::new();
    let mut rest: &str = path;
    let mut opening: bool = true;
    loop
        invariant
            texts(out@) + components_from(rest@, opening) == components(path@),
        decreases rest@.len(),
    {
        proof {
            crate::text::lemma_first_index(rest@, seq!['/']);
            reveal_strlit(".");
            assert("."@ == seq!['.']);
        }
        let ghost at = first_index(rest@, seq!['/']);
        let ghost before = texts(out@);
        let (segment, next): (&str, Option<&str>) = match split_once(rest, '/') {
            Some((head, tail)) => (head, Some(tail)),
            None => (rest, None),
        };
        assert(at >= rest@.len() ==> rest@.take(at) == rest@);
        assert(segment@ == rest@.take(at));
        if !segment.is_empty() && (opening || !same(segment, ".")) {
            out.push(segment.to_owned());
            assert(texts(out@) == before.push(segment@));
            assert(texts(out@) == before + seq![segment@]);
        } else {
            assert(texts(out@) == before + Seq::<Seq<char>>::empty());
        }
        match next {
            Some(tail) => {
                let ghost later = components_from(tail@, false);
                assert(texts(out@) + later == components(path@));
                rest = tail;
                opening = false;
            },
            None => {
                return out;
            },
        }
    }
}

/// The last component where it is a name; see [`name_of`].
pub fn file_name(path: &str) -> (r: Option<String>)
    ensures
        text_of(r) == name_of(path@),
{
    let mut parts: Vec<String> = split_path(path);
    let ghost all = texts(parts@);
    proof {
        reveal_strlit(".");
        reveal_strlit("..");
        assert("."@ == seq!['.']);
        assert(".."@ == seq!['.', '.']);
    }
    match parts.pop() {
        Some(last) => {
            assert(all.last() == last@);
            if same(last.as_str(), ".") || same(last.as_str(), "..") {
                None
            } else {
                Some(last)
            }
        },
        None => None,
    }
}

/// The extension of the name; see [`extension_of`].
pub fn extension(path: &str) -> (r: Option<String>)
    ensures
        text_of(r) == extension_of(path@),
{
    match file_name(path) {
        Some(name) => {
            let tail: &str = tail_after_last(name.as_str(), '.');
            proof {
                lemma_last_start(name@, '.');
            }
            if name.as_str().unicode_len() - tail.unicode_len() > 1 {
                Some(tail.to_owned())
            } else {
                None
            }
        },
        None => None,
    }
}

/// See [`is_dotted`].
pub fn is_hidden(path: &str) -> (r: bool)
    ensures
        r == is_dotted(path@),
{
    match file_name(path) {
        Some(name) => {
            proof {
                reveal_strlit(".");
                assert("."@ == seq!['.']);
                assert(name@.len() > 0 && name@[0] == '.' ==> name@.subrange(0, 1) == seq!['.']);
                assert("."@.is_prefix_of(name@) ==> name@.subrange(0, 1)[0] == '.');
            }
            starts_with(name.as_str(), ".")
        },
        None => false,
    }
}

/// `leaf` below `base`; see [`below`].
pub fn join_path(base: &str, leaf: &str) -> (r: String)
    ensures
        r@ == below(base@, leaf@),
{
    let leaf_chars: Vec<char> = chars_of(leaf);
    if leaf_chars.len() > 0 && leaf_chars[0] == '/' {
        return leaf.to_owned();
    }
    let base_chars: Vec<char> = chars_of(base);
    let mut out: String = base.to_owned();
    if base_chars.len() > 0 && base_chars[base_chars.len() - 1] != '/' {
        proof {
            reveal_strlit("/");
            assert("/"@ == seq!['/']);
        }
        out.append("/");
    }
    out.append(leaf);
    out
}

/// The path of the given components; see [`path_from`].
pub fn build_path(absolute: bool, parts: &Vec<String>) -> (r: String)
    ensures
        r@ == path_from(absolute, texts(parts@)),
{
    proof {
        reveal_strlit("/");
        assert("/"@ == seq!['/']);
    }
    let mut out: String = if absolute {
        "/".to_owned()
    } else {
        String::new()
    };
    let tail: String = crate::text::join(parts, "/");
    out.append(tail.as_str());
    out
}

/// The path without its last component, where it has one.
pub open spec fn parent_of(path: Seq<char>) -> Option<Seq<char>> {
    if components(path).len() == 0 {
        None
    } else {
        Some(path_from(is_absolute(path), components(path).drop_last()))
    }
}

/// Whether the components can be those of a path: each is plain, and only the first of a relative
/// path may be `.`.
pub open spec fn fit(parts: Seq<Seq<char>>, opening: bool) -> bool {
    forall|i: int|
        0 <= i < parts.len() ==> is_plain(#[trigger] parts[i]) && (parts[i] != seq!['.'] || (i == 0
            && opening))
}

/// What is cut out of a path can be put together to a path again.
pub proof fn lemma_components_fit(rest: Seq<char>, opening: bool)
    ensures
        fit(components_from(rest, opening), opening),
    decreases rest.len(),
{
    let slash = seq!['/'];
    crate::text::lemma_first_index(rest, slash);
    let at = first_index(rest, slash);
    let segment = rest.take(at);
    assert(!segment.contains('/')) by {
        if segment.contains('/') {
            let k = choose|k: int| 0 <= k < segment.len() && segment[k] == '/';
            assert(rest[k] == '/');
            assert(slash.contains(rest[k])) by {
                assert(slash[0] == '/');
            }
        }
    }
    if at < rest.len() {
        lemma_components_fit(rest.skip(at + 1), false);
        let tail = components_from(rest.skip(at + 1), false);
        let all = components_from(rest, opening);
        assert forall|i: int| 0 <= i < all.len() implies is_plain(#[trigger] all[i]) && (all[i]
            != seq!['.'] || (i == 0 && opening)) by {
            if counts(segment, opening) {
                if i > 0 {
                    assert(all[i] == tail[i - 1]);
                }
            } else {
                assert(all[i] == tail[i]);
            }
        }
    }
}

/// The components of a path that was put together are those that it was made of.
pub proof fn lemma_components_of_path_from(absolute: bool, parts: Seq<Seq<char>>)
    requires
        fit(parts, !absolute),
    ensures
        components(path_from(absolute, parts)) == parts,
{
    let slash = seq!['/'];
    let tail = joined(parts, slash);
    lemma_components_of_joined(parts, !absolute);
    if absolute {
        assert(path_from(true, parts) == Seq::<char>::empty() + slash + tail);
        lemma_components_concat(Seq::empty(), tail, true);
        assert(Seq::<char>::empty().take(0) == Seq::<char>::empty());
        assert(components_from(Seq::empty(), true) == Seq::<Seq<char>>::empty());
        assert(components(path_from(true, parts)) =~= parts);
    } else {
        assert(path_from(false, parts) == tail);
    }
}

proof fn lemma_components_of_joined(parts: Seq<Seq<char>>, opening: bool)
    requires
        fit(parts, opening),
    ensures
        components_from(joined(parts, seq!['/']), opening) == parts,
    decreases parts.len(),
{
    let slash = seq!['/'];
    if parts.len() == 0 {
        assert(Seq::<char>::empty().take(0) == Seq::<char>::empty());
        assert(components_from(Seq::empty(), opening) =~= parts);
    } else if parts.len() == 1 {
        lemma_components_plain(parts[0], opening);
        assert(components_from(parts[0], opening) =~= parts);
    } else {
        let front = parts.drop_last();
        assert(fit(front, opening)) by {
            assert forall|i: int| 0 <= i < front.len() implies is_plain(#[trigger] front[i]) && (
            front[i] != seq!['.'] || (i == 0 && opening)) by {
                assert(front[i] == parts[i]);
            }
        }
        lemma_components_of_joined(front, opening);
        assert(is_plain(parts[parts.len() - 1]));
        lemma_components_plain(parts.last(), false);
        lemma_components_concat(joined(front, slash), parts.last(), opening);
        assert(components_from(joined(parts, slash), opening) =~= parts);
    }
}

/// The path without its last component; see [`parent_of`].
pub fn parent(path: &str) -> (r: Option<String>)
    ensures
        text_of(r) == parent_of(path@),
{
    let mut parts: Vec<String> = split_path(path);
    let ghost all: Seq<Seq<char>> = texts(parts@);
    if parts.len() == 0 {
        return None;
    }
    parts.pop();
    assert(texts(parts@) =~= all.drop_last());
    Some(build_path(starts_at_root(path), &parts))
}

/// See [`is_absolute`].
pub fn starts_at_root(path: &str) -> (r: bool)
    ensures
        r == is_absolute(path@),
{
    let chars: Vec<char> = chars_of(path);
    chars.len() > 0 && chars[0] == '/'
}

/// Whether two texts are the same path: of the same components from the same start.
pub open spec fn same_path(a: Seq<char>, b: Seq<char>) -> bool {
    is_absolute(a) == is_absolute(b) && components(a) == components(b)
}

/// See [`same_path`].
pub fn is_same_path(a: &str, b: &str) -> (r: bool)
    ensures
        r == same_path(a@, b@),
{
    if starts_at_root(a) != starts_at_root(b) {
        return false;
    }
    let x: Vec<String> = split_path(a);
    let y: Vec<String> = split_path(b);
    let ghost xs: Seq<Seq<char>> = texts(x@);
    let ghost ys: Seq<Seq<char>> = texts(y@);
    if x.len() != y.len() {
        assert(xs.len() != ys.len());
        return false;
    }
    let mut i: usize = 0;
    while i < x.len()
        invariant
            xs == texts(x@),
            ys == texts(y@),
            xs == components(a@),
            ys == components(b@),
            i <= x.len() == y.len(),
            forall|j: int| 0 <= j < i ==> #[trigger] xs[j] == ys[j],
        decreases x.len() - i,
    {
        assert(xs[i as int] == x@[i as int]@);
        assert(ys[i as int] == y@[i as int]@);
        if !same(x[i].as_str(), y[i].as_str()) {
            return false;
        }
        i = i + 1;
    }
    assert(xs =~= ys);
    true
}

/// The extension of a file is what stands behind the last dot of its name, where something stands
/// before that dot.
pub proof fn law_extension_stands_behind_the_last_dot(
    base: Seq<char>,
    stem: Seq<char>,
    ext: Seq<char>,
)
    requires
        is_plain(stem),
        !ext.contains('/'),
        !ext.contains('.'),
        stem + seq!['.'] + ext != seq!['.', '.'],
    ensures
        extension_of(below(base, stem + seq!['.'] + ext)) == Some(ext),
{
    let leaf = stem + seq!['.'] + ext;
    assert(!leaf.contains('/')) by {
        if leaf.contains('/') {
            let i = choose|i: int| 0 <= i < leaf.len() && leaf[i] == '/';
            if i < stem.len() {
                assert(stem[i] == '/');
            } else if i > stem.len() {
                assert(ext[i - stem.len() - 1] == '/');
            }
        }
    }
    assert(leaf.len() >= 2);
    law_joined_name(base, leaf);
    crate::text::law_tail_behind_the_last(stem, ext, '.');
    assert(leaf.skip(stem.len() as int + 1) =~= ext);
}

/// A name without a dot, or with one only at its start, has no extension.
pub proof fn law_no_extension_without_a_dot_inside(base: Seq<char>, leaf: Seq<char>)
    requires
        is_plain(leaf),
        leaf != seq!['.'],
        leaf != seq!['.', '.'],
        forall|i: int| 0 < i < leaf.len() ==> #[trigger] leaf[i] != '.',
    ensures
        extension_of(below(base, leaf)) is None,
{
    law_joined_name(base, leaf);
    if leaf[0] == '.' {
        let tail = leaf.skip(1);
        assert(leaf =~= Seq::<char>::empty() + seq!['.'] + tail);
        assert(!tail.contains('.')) by {
            if tail.contains('.') {
                let i = choose|i: int| 0 <= i < tail.len() && tail[i] == '.';
                assert(leaf[i + 1] == '.');
            }
        }
        crate::text::law_tail_behind_the_last(Seq::empty(), tail, '.');
    } else {
        assert(!leaf.contains('.')) by {
            if leaf.contains('.') {
                let i = choose|i: int| 0 <= i < leaf.len() && leaf[i] == '.';
                assert(leaf[i] == '.');
            }
        }
        lemma_last_start(leaf, '.');
    }
}

/// A file is hidden exactly where its name begins with a dot.
pub proof fn law_hidden_by_a_leading_dot(base: Seq<char>, leaf: Seq<char>)
    requires
        is_plain(leaf),
        leaf != seq!['.'],
        leaf != seq!['.', '.'],
    ensures
        is_dotted(below(base, leaf)) <==> leaf[0] == '.',
{
    law_joined_name(base, leaf);
}

/// A relative path joined below another begins with the one and ends with the other, with a slash
/// between them where there is none yet.
pub proof fn law_joined_path_keeps_both(base: Seq<char>, leaf: Seq<char>)
    ensures
        leaf.len() > 0 && leaf[0] == '/' ==> below(base, leaf) == leaf,
        leaf.len() == 0 || leaf[0] != '/' ==> {
            let whole = below(base, leaf);
            &&& whole.take(base.len() as int) == base
            &&& whole.skip(whole.len() - leaf.len()) == leaf
            &&& base.len() + leaf.len() <= whole.len() <= base.len() + leaf.len() + 1
            &&& base.len() > 0 ==> whole[whole.len() - leaf.len() - 1] == '/'
            &&& base.len() == 0 || base.last() == '/' ==> whole.len() == base.len() + leaf.len()
        },
{
    let whole = below(base, leaf);
    if leaf.len() == 0 || leaf[0] != '/' {
        assert(whole.take(base.len() as int) =~= base);
        assert(whole.skip(whole.len() - leaf.len()) =~= leaf);
    }
}

/// From the root on, no component is a dot.
proof fn lemma_absolute_components_fit(path: Seq<char>)
    requires
        is_absolute(path),
    ensures
        fit(components(path), false),
{
    let slash = seq!['/'];
    assert(path =~= Seq::<char>::empty() + slash + path.skip(1));
    lemma_components_concat(Seq::empty(), path.skip(1), true);
    assert(Seq::<char>::empty().take(0) == Seq::<char>::empty());
    assert(components_from(Seq::empty(), true) == Seq::<Seq<char>>::empty());
    assert(components(path) =~= components_from(path.skip(1), false));
    lemma_components_fit(path.skip(1), false);
}

/// A path that was put together starts at the root exactly where it was to.
pub proof fn lemma_path_from_root(absolute: bool, parts: Seq<Seq<char>>)
    requires
        fit(parts, !absolute),
    ensures
        is_absolute(path_from(absolute, parts)) == absolute,
{
    let whole = path_from(absolute, parts);
    if !absolute {
        assert(whole =~= joined(parts, seq!['/']));
        if parts.len() > 0 {
            lemma_joined_first(parts);
            assert(is_plain(parts[0]));
            assert(parts[0][0] != '/') by {
                if parts[0][0] == '/' {
                    assert(parts[0].contains('/'));
                }
            }
        }
    }
}

proof fn lemma_joined_first(parts: Seq<Seq<char>>)
    requires
        parts.len() > 0,
        parts[0].len() > 0,
    ensures
        joined(parts, seq!['/']).len() > 0,
        joined(parts, seq!['/'])[0] == parts[0][0],
    decreases parts.len(),
{
    if parts.len() > 1 {
        assert(parts.drop_last()[0] == parts[0]);
        lemma_joined_first(parts.drop_last());
    }
}

/// The parent of a file in a directory is that directory.
pub proof fn law_parent_of_a_file_is_its_directory(base: Seq<char>, leaf: Seq<char>)
    requires
        is_plain(leaf),
        leaf != seq!['.'],
        leaf != seq!['.', '.'],
    ensures
        parent_of(below(base, leaf)) is Some,
        same_path(parent_of(below(base, leaf))->0, base),
{
    law_joined_name(base, leaf);
    let whole = below(base, leaf);
    assert(leaf[0] != '/') by {
        if leaf[0] == '/' {
            assert(leaf.contains('/'));
        }
    }
    assert(is_absolute(whole) == is_absolute(base));
    assert(components(whole).drop_last() =~= components(base));
    if is_absolute(base) {
        lemma_absolute_components_fit(base);
    } else {
        lemma_components_fit(base, true);
    }
    lemma_components_of_path_from(is_absolute(base), components(base));
    lemma_path_from_root(is_absolute(base), components(base));
}

/// Paths are told apart by their start and their components, and by nothing else.
pub proof fn law_paths_are_told_by_their_components(
    root_a: bool,
    a: Seq<Seq<char>>,
    root_b: bool,
    b: Seq<Seq<char>>,
)
    requires
        fit(a, !root_a),
        fit(b, !root_b),
    ensures
        same_path(path_from(root_a, a), path_from(root_b, b)) <==> root_a == root_b && a == b,
{
    lemma_components_of_path_from(root_a, a);
    lemma_components_of_path_from(root_b, b);
    lemma_path_from_root(root_a, a);
    lemma_path_from_root(root_b, b);
}

/// A second slash, or one at the end, makes no other path.
pub proof fn law_more_slashes_make_no_other_path(a: Seq<char>, b: Seq<char>)
    requires
        a.len() > 0,
    ensures
        same_path(a + seq!['/'], a),
        same_path(a + seq!['/'] + (seq!['/'] + b), a + seq!['/'] + b),
        same_path(a + seq!['/'] + (seq!['.', '/'] + b), a + seq!['/'] + b),
{
    let slash = seq!['/'];
    let none = Seq::<char>::empty();
    let dot = seq!['.'];
    assert(none.take(0) == none);
    assert(components_from(none, false) == Seq::<Seq<char>>::empty());
    assert(a + slash =~= a + slash + none);
    lemma_components_concat(a, none, true);
    assert(components(a + slash) =~= components(a));
    lemma_components_concat(a, b, true);
    assert(slash + b =~= none + slash + b);
    lemma_components_concat(none, b, false);
    lemma_components_concat(a, slash + b, true);
    assert(components_from(slash + b, false) =~= components_from(b, false));
    assert(seq!['.', '/'] + b =~= dot + slash + b);
    lemma_components_concat(dot, b, false);
    lemma_components_concat(a, seq!['.', '/'] + b, true);
    crate::text::lemma_first_index(dot, slash);
    assert(first_index(dot, slash) == 1) by {
        if first_index(dot, slash) < 1 {
            assert(slash.contains(dot[0]));
            assert(dot[0] == '.');
        }
    }
    assert(dot.take(1) =~= dot);
    assert(components_from(dot, false) =~= Seq::<Seq<char>>::empty());
    assert(components_from(seq!['.', '/'] + b, false) =~= components_from(b, false));
}

/// A path that is put together is its components with a slash between each two, and with one
/// before them where it starts at the root.
pub proof fn law_how_a_path_is_put_together(parts: Seq<Seq<char>>)
    ensures
        path_from(true, parts) == seq!['/'] + joined(parts, seq!['/']),
        path_from(false, parts) == joined(parts, seq!['/']),
        is_absolute(path_from(true, parts)),
        !is_absolute(Seq::empty()),
{
    assert(path_from(false, parts) =~= joined(parts, seq!['/']));
}

/// A path that ends in `..` has no name.
pub proof fn law_no_name_for_the_parent(base: Seq<char>)
    requires
        base.len() > 0,
    ensures
        name_of(base + seq!['/'] + seq!['.', '.']) is None,
{
    let dots = seq!['.', '.'];
    assert(!dots.contains('/'));
    lemma_components_plain(dots, false);
    lemma_components_concat(base, dots, true);
    assert(components(base + seq!['/'] + dots).last() == dots);
}

/// However a path is written, it has the same name, extension and parent.
pub proof fn law_a_path_is_its_components(a: Seq<char>, b: Seq<char>)
    ensures
        same_path(a, b) <==> (a.len() > 0 && a[0] == '/') == (b.len() > 0 && b[0] == '/')
            && components(a) == components(b),
        same_path(a, b) ==> name_of(a) == name_of(b) && extension_of(a) == extension_of(b)
            && is_dotted(a) == is_dotted(b) && parent_of(a) == parent_of(b),
        parent_of(a) is None <==> components(a).len() == 0,
        name_of(a) is Some ==> components(a).len() > 0 && name_of(a)->0 == components(a).last(),
{
}

} // verus!
