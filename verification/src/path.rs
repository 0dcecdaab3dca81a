//! Slash-separated paths as text.

use vstd::prelude::*;

use crate::text;

verus! {

/// A path without what stands behind its last component: separators, and `.` components.
pub open spec fn without_tail(s: Seq<char>) -> Seq<char>
    decreases s.len(),
{
    if s.len() > 1 && s.last() == '/' {
        without_tail(s.drop_last())
    } else if s.len() > 1 && s.last() == '.' && s[s.len() - 2] == '/' {
        without_tail(s.drop_last())
    } else {
        s
    }
}

/// Where the last component of `s` starts: behind the last separator.
pub open spec fn last_start(s: Seq<char>) -> nat
    decreases s.len(),
{
    if s.len() == 0 || s.last() == '/' {
        s.len()
    } else {
        last_start(s.drop_last())
    }
}

/// The text of the last component; empty for the root and for the empty path.
pub open spec fn last_component(s: Seq<char>) -> Seq<char> {
    let body = without_tail(s);
    body.skip(last_start(body) as int)
}

/// The name of the file that the path leads to. `.`, `..` and the root have none.
pub open spec fn file_name(s: Seq<char>) -> Option<Seq<char>> {
    let name = last_component(s);
    if name.len() == 0 || name == seq!['.'] || name == seq!['.', '.'] {
        None
    } else {
        Some(name)
    }
}

/// The path without its last component.
pub open spec fn parent(s: Seq<char>) -> Seq<char> {
    let body = without_tail(s);
    without_tail(body.take(last_start(body) as int))
}

/// Where the last point of a name stands; 0 where it has none behind its first character.
pub open spec fn last_point(name: Seq<char>) -> nat
    decreases name.len(),
{
    if name.len() <= 1 {
        0
    } else if name.last() == '.' {
        (name.len() - 1) as nat
    } else {
        last_point(name.drop_last())
    }
}

/// A name up to its last point; a point at the front does not count.
pub open spec fn stem(name: Seq<char>) -> Seq<char> {
    let at = last_point(name);
    if at == 0 {
        name
    } else {
        name.take(at as int)
    }
}

/// A name behind its last point; a point at the front does not count.
pub open spec fn extension(name: Seq<char>) -> Option<Seq<char>> {
    let at = last_point(name);
    if at == 0 {
        None
    } else {
        Some(name.skip(at as int + 1))
    }
}

/// `tail` below `base`; an absolute `tail` replaces `base`.
pub open spec fn below(base: Seq<char>, tail: Seq<char>) -> Seq<char> {
    if tail.len() > 0 && tail[0] == '/' {
        tail
    } else if base.len() == 0 || base.last() == '/' {
        base + tail
    } else {
        base.push('/') + tail
    }
}

/// The path with its last component replaced by `name`.
pub open spec fn renamed(s: Seq<char>, name: Seq<char>) -> Seq<char> {
    if file_name(s) is Some {
        below(parent(s), name)
    } else {
        below(s, name)
    }
}

/// Whether the path starts at the root.
pub open spec fn is_rooted(s: Seq<char>) -> bool {
    s.len() > 0 && s[0] == '/'
}

/// The names that are left of a list of pieces when empty ones and `.` are passed over and `..`
/// takes the name before it away.
pub open spec fn resolved(list: Seq<Seq<char>>) -> Seq<Seq<char>>
    decreases list.len(),
{
    if list.len() == 0 {
        Seq::<Seq<char>>::empty()
    } else {
        let before = resolved(list.drop_last());
        let piece = list.last();
        if piece.len() == 0 || piece == seq!['.'] {
            before
        } else if piece == seq!['.', '.'] {
            if before.len() == 0 {
                before
            } else {
                before.drop_last()
            }
        } else {
            before.push(piece)
        }
    }
}

/// The path with `.` and `..` resolved by its text alone.
pub open spec fn lexical(s: Seq<char>) -> Seq<char> {
    let names = text::joined(resolved(text::pieces(s, '/')), seq!['/']);
    if is_rooted(s) {
        seq!['/'] + names
    } else {
        names
    }
}

/// The components of a path: separators and `.` are passed over, except a `.` at the front. The
/// root is not among them.
pub open spec fn names(list: Seq<Seq<char>>) -> Seq<Seq<char>>
    decreases list.len(),
{
    if list.len() == 0 {
        Seq::<Seq<char>>::empty()
    } else {
        let before = names(list.drop_last());
        let piece = list.last();
        if piece.len() == 0 || (piece == seq!['.'] && list.len() > 1) {
            before
        } else {
            before.push(piece)
        }
    }
}

/// Whether `s` leads to `base` or to something below it, component by component.
pub open spec fn leads_below(s: Seq<char>, base: Seq<char>) -> bool {
    let inner = names(text::pieces(s, '/'));
    let outer = names(text::pieces(base, '/'));
    &&& is_rooted(s) == is_rooted(base)
    &&& outer.len() <= inner.len()
    &&& inner.take(outer.len() as int) == outer
}

fn cut_tail(chars: &[char]) -> (body: Vec<char>)
    ensures
        body@ == without_tail(chars@),
{
    let mut end: usize = chars.len();
    assert(chars@.take(end as int) =~= chars@);
    while end > 1 && (chars[end - 1] == '/' || (chars[end - 1] == '.' && chars[end - 2] == '/'))
        invariant
            end <= chars@.len(),
            without_tail(chars@.take(end as int)) == without_tail(chars@),
        decreases end,
    {
        assert(chars@.take(end as int).drop_last() =~= chars@.take(end - 1));
        end -= 1;
    }
    let body = text::slice_of(chars, 0, end);
    assert(body@ =~= chars@.take(end as int));
    body
}

fn start_of_last(chars: &[char]) -> (at: usize)
    ensures
        at == last_start(chars@),
        at <= chars@.len(),
{
    let mut at: usize = chars.len();
    assert(chars@.take(at as int) =~= chars@);
    while at > 0 && chars[at - 1] != '/'
        invariant
            at <= chars@.len(),
            last_start(chars@.take(at as int)) == last_start(chars@),
        decreases at,
    {
        assert(chars@.take(at as int).drop_last() =~= chars@.take(at - 1));
        at -= 1;
    }
    at
}

fn only_points(name: &[char]) -> (yes: bool)
    ensures
        yes == (name@ == seq!['.'] || name@ == seq!['.', '.']),
{
    let yes: bool = (name.len() == 1 && name[0] == '.') || (name.len() == 2 && name[0] == '.' && name[1]
        == '.');
    proof {
        if yes && name@.len() == 1 {
            assert(name@ =~= seq!['.']);
        } else if yes {
            assert(name@ =~= seq!['.', '.']);
        }
    }
    yes
}

/// The name of the file that `path` leads to.
pub fn name_of(path: &str) -> (name: Option<String>)
    ensures
        text::opt_text(name) == file_name(path@),
{
    let chars = text::chars_of(path);
    let body = cut_tail(&chars);
    let at: usize = start_of_last(&body);
    let name = text::slice_of(&body, at, body.len());
    assert(name@ =~= last_component(path@));
    if name.len() == 0 || only_points(&name) {
        None
    } else {
        Some(text::text_of(&name))
    }
}

/// `path` without its last component.
pub fn parent_of(path: &str) -> (out: String)
    ensures
        out@ == parent(path@),
{
    let chars = text::chars_of(path);
    let body = cut_tail(&chars);
    let at: usize = start_of_last(&body);
    let front = text::slice_of(&body, 0, at);
    assert(front@ =~= body@.take(at as int));
    let out = cut_tail(&front);
    text::text_of(&out)
}

fn point_of(name: &[char]) -> (at: usize)
    ensures
        at == last_point(name@),
        at > 0 ==> at < name@.len(),
{
    let mut end: usize = name.len();
    assert(name@.take(end as int) =~= name@);
    while end > 1
        invariant
            end <= name@.len(),
            last_point(name@.take(end as int)) == last_point(name@),
        decreases end,
    {
        if name[end - 1] == '.' {
            return end - 1;
        }
        assert(name@.take(end as int).drop_last() =~= name@.take(end - 1));
        end -= 1;
    }
    0
}

/// The file name of `path` up to its last point.
pub fn stem_of(path: &str) -> (out: Option<String>)
    ensures
        match file_name(path@) {
            Some(name) => text::opt_text(out) == Some(stem(name)),
            None => out is None,
        },
{
    let name = match name_of(path) {
        Some(name) => name,
        None => {
            return None;
        },
    };
    let chars = text::chars_of(name.as_str());
    let at: usize = point_of(&chars);
    if at == 0 {
        Some(name)
    } else {
        let part = text::slice_of(&chars, 0, at);
        assert(part@ =~= stem(name@));
        Some(text::text_of(&part))
    }
}

/// The file name of `path` behind its last point.
pub fn extension_of(path: &str) -> (out: Option<String>)
    ensures
        match file_name(path@) {
            Some(name) => text::opt_text(out) == extension(name),
            None => out is None,
        },
{
    let name = match name_of(path) {
        Some(name) => name,
        None => {
            return None;
        },
    };
    let chars = text::chars_of(name.as_str());
    let at: usize = point_of(&chars);
    if at == 0 {
        None
    } else {
        let end: usize = chars.len();
        let part = text::slice_of(&chars, at + 1, end);
        assert(part@ =~= name@.skip(at + 1));
        Some(text::text_of(&part))
    }
}

/// `tail` below `base`.
pub fn join(base: &str, tail: &str) -> (out: String)
    ensures
        out@ == below(base@, tail@),
{
    let b = text::chars_of(base);
    let t = text::chars_of(tail);
    if t.len() > 0 && t[0] == '/' {
        return tail.to_string();
    }
    let mut out = base.to_string();
    if b.len() > 0 && b[b.len() - 1] != '/' {
        out.push('/');
    }
    out.append(tail);
    out
}

/// `path` with its last component replaced by `name`.
pub fn with_name(path: &str, name: &str) -> (out: String)
    ensures
        out@ == renamed(path@, name@),
{
    match name_of(path) {
        Some(_) => {
            let base = parent_of(path);
            join(base.as_str(), name)
        },
        None => join(path, name),
    }
}

pub(crate) fn rooted(path: &str) -> (yes: bool)
    ensures
        yes == is_rooted(path@),
{
    let chars = text::chars_of(path);
    chars.len() > 0 && chars[0] == '/'
}

/// `path` with `.` and `..` resolved by its text alone.
pub fn normalize_lexically(path: &str) -> (out: String)
    ensures
        out@ == lexical(path@),
{
    let pieces = text::split(path, '/');
    let ghost list = text::pieces(path@, '/');
    let mut stack: Vec<String> = Vec::new();
    let mut i: usize = 0;
    while i < pieces.len()
        invariant
            i <= pieces@.len(),
            text::texts(pieces@) == list,
            text::texts(stack@) == resolved(list.take(i as int)),
        decreases pieces@.len() - i,
    {
        assert(list.take(i + 1).drop_last() =~= list.take(i as int));
        assert(list.take(i + 1).last() == pieces@[i as int]@);
        let ghost before = stack@;
        let chars = text::chars_of(pieces[i].as_str());
        if chars.len() == 0 {
        } else if !only_points(&chars) {
            stack.push(pieces[i].clone());
            assert(text::texts(stack@) =~= text::texts(before).push(list[i as int]));
        } else if chars.len() == 2 && stack.len() > 0 {
            stack.pop();
            assert(text::texts(stack@) =~= text::texts(before).drop_last());
        }
        i += 1;
    }
    assert(list.take(i as int) =~= list);
    proof {
        reveal_strlit("/");
        assert("/"@ =~= seq!['/']);
    }
    let body = text::join(&stack, "/");
    if rooted(path) {
        let mut out = String::new();
        out.push('/');
        out.append(body.as_str());
        assert(out@ =~= lexical(path@));
        out
    } else {
        body
    }
}

pub(crate) fn names_of(path: &str) -> (out: Vec<String>)
    ensures
        text::texts(out@) == names(text::pieces(path@, '/')),
{
    let pieces = text::split(path, '/');
    let ghost list = text::pieces(path@, '/');
    let mut out: Vec<String> = Vec::new();
    let mut i: usize = 0;
    while i < pieces.len()
        invariant
            i <= pieces@.len(),
            text::texts(pieces@) == list,
            text::texts(out@) == names(list.take(i as int)),
        decreases pieces@.len() - i,
    {
        assert(list.take(i + 1).drop_last() =~= list.take(i as int));
        assert(list.take(i + 1).last() == pieces@[i as int]@);
        let ghost before = out@;
        let chars = text::chars_of(pieces[i].as_str());
        let point: bool = chars.len() == 1 && chars[0] == '.';
        assert(point == (chars@ == seq!['.'])) by {
            if point {
                assert(chars@ =~= seq!['.']);
            }
        }
        if chars.len() > 0 && !(point && i > 0) {
            out.push(pieces[i].clone());
            assert(text::texts(out@) =~= text::texts(before).push(list[i as int]));
        }
        i += 1;
    }
    assert(list.take(i as int) =~= list);
    out
}

/// Whether `path` leads to `base` or to something below it.
pub fn starts_with(path: &str, base: &str) -> (yes: bool)
    ensures
        yes == leads_below(path@, base@),
{
    if rooted(path) != rooted(base) {
        return false;
    }
    let inner = names_of(path);
    let outer = names_of(base);
    let ghost inside = text::texts(inner@);
    let ghost outside = text::texts(outer@);
    if outer.len() > inner.len() {
        return false;
    }
    let mut i: usize = 0;
    while i < outer.len()
        invariant
            i <= outer@.len() <= inner@.len(),
            inside == text::texts(inner@),
            outside == text::texts(outer@),
            inside == names(text::pieces(path@, '/')),
            outside == names(text::pieces(base@, '/')),
            forall|j: int| 0 <= j < i ==> inside[j] == #[trigger] outside[j],
        decreases outer@.len() - i,
    {
        if !text::same_text(inner[i].as_str(), outer[i].as_str()) {
            assert(inside.take(outside.len() as int)[i as int] != outside[i as int]);
            return false;
        }
        assert(inside[i as int] == outside[i as int]);
        i += 1;
    }
    assert(inside.take(outside.len() as int) =~= outside);
    true
}

/// Whether two paths have the same components.
pub open spec fn same(a: Seq<char>, b: Seq<char>) -> bool {
    is_rooted(a) == is_rooted(b) && names(text::pieces(a, '/')) == names(text::pieces(b, '/'))
}

/// Whether two paths have the same components.
pub fn is_same(a: &str, b: &str) -> (yes: bool)
    ensures
        yes == same(a@, b@),
{
    let yes: bool = starts_with(a, b) && starts_with(b, a);
    proof {
        let x = names(text::pieces(a@, '/'));
        let y = names(text::pieces(b@, '/'));
        if yes {
            assert(x.take(y.len() as int) =~= x);
        }
        if same(a@, b@) {
            assert(x.take(x.len() as int) =~= x);
        }
    }
    yes
}

/// Whether a piece is the name of a file or folder: not empty, not `.` or `..`, without separator.
pub open spec fn is_name(piece: Seq<char>) -> bool {
    piece.len() > 0 && piece != seq!['.'] && piece != seq!['.', '.'] && !piece.contains('/')
}

/// Whether all pieces are names.
pub open spec fn all_names(list: Seq<Seq<char>>) -> bool {
    forall|i: int| 0 <= i < list.len() ==> is_name(#[trigger] list[i])
}

proof fn resolved_are_names(list: Seq<Seq<char>>)
    requires
        forall|i: int| 0 <= i < list.len() ==> !(#[trigger] list[i]).contains('/'),
    ensures
        all_names(resolved(list)),
    decreases list.len(),
{
    if list.len() > 0 {
        let init = list.drop_last();
        assert forall|i: int| 0 <= i < init.len() implies !(#[trigger] init[i]).contains('/') by {
            assert(init[i] == list[i]);
        }
        resolved_are_names(init);
        assert(!list[list.len() - 1].contains('/'));
    }
}

proof fn names_stay(list: Seq<Seq<char>>)
    requires
        all_names(list),
    ensures
        resolved(list) == list,
    decreases list.len(),
{
    if list.len() > 0 {
        let init = list.drop_last();
        assert forall|i: int| 0 <= i < init.len() implies is_name(#[trigger] init[i]) by {
            assert(init[i] == list[i]);
        }
        names_stay(init);
        assert(is_name(list[list.len() - 1]));
        assert(init.push(list.last()) =~= list);
    } else {
        assert(list =~= Seq::<Seq<char>>::empty());
    }
}

proof fn leading_blank_is_passed(list: Seq<Seq<char>>)
    ensures
        resolved(seq![Seq::<char>::empty()] + list) == resolved(list),
    decreases list.len(),
{
    let whole = seq![Seq::<char>::empty()] + list;
    if list.len() == 0 {
        assert(whole.drop_last() =~= Seq::<Seq<char>>::empty());
        assert(list =~= Seq::<Seq<char>>::empty());
        assert(whole.last().len() == 0);
        assert(resolved(whole.drop_last()) =~= resolved(list));
    } else {
        leading_blank_is_passed(list.drop_last());
        assert(whole.drop_last() =~= seq![Seq::<char>::empty()] + list.drop_last());
        assert(whole.last() == list.last());
    }
}

proof fn rooted_pieces(rest: Seq<char>)
    ensures
        text::pieces(seq!['/'] + rest, '/') == seq![Seq::<char>::empty()] + text::pieces(rest, '/'),
    decreases rest.len(),
{
    let whole = seq!['/'] + rest;
    if rest.len() == 0 {
        assert(whole =~= seq!['/']);
        assert(whole.drop_last() =~= Seq::<char>::empty());
        assert(rest =~= Seq::<char>::empty());
        assert(text::pieces(whole.drop_last(), '/') =~= seq![Seq::<char>::empty()]);
        assert(whole.last() == '/');
        assert(text::pieces(whole, '/') =~= seq![Seq::<char>::empty(), Seq::<char>::empty()]);
        assert(seq![Seq::<char>::empty()] + text::pieces(rest, '/') =~= seq![
            Seq::<char>::empty(),
            Seq::<char>::empty(),
        ]);
    } else {
        let init = rest.drop_last();
        rooted_pieces(init);
        text::pieces_are_free_of(init, '/');
        assert(whole.drop_last() =~= seq!['/'] + init);
        assert(whole.last() == rest.last());
        let before = text::pieces(init, '/');
        let longer = seq![Seq::<char>::empty()] + before;
        assert(longer.last() == before.last());
        assert(longer.drop_last() =~= seq![Seq::<char>::empty()] + before.drop_last());
        assert(text::pieces(whole, '/') =~= seq![Seq::<char>::empty()] + text::pieces(rest, '/'));
    }
}

proof fn cutting_keeps_the_root(s: Seq<char>)
    requires
        is_rooted(s),
    ensures
        is_rooted(without_tail(s)),
        1 <= last_start(s) <= s.len(),
    decreases s.len(),
{
    if s.len() > 1 {
        cutting_keeps_the_root(s.drop_last());
    }
}

/// What is joined to a rooted path is rooted, and so is a rooted path whose last component is
/// replaced.
pub proof fn rooted_paths_stay_rooted(s: Seq<char>, tail: Seq<char>)
    requires
        is_rooted(s),
    ensures
        is_rooted(below(s, tail)),
        is_rooted(renamed(s, tail)),
{
    cutting_keeps_the_root(s);
    let body = without_tail(s);
    cutting_keeps_the_root(body);
    cutting_keeps_the_root(body.take(last_start(body) as int));
}

/// Resolving a path that was resolved changes nothing, and a rooted path stays rooted: however often
/// a stored path is normalised, it stays the same.
pub proof fn resolving_twice_is_resolving_once(s: Seq<char>)
    ensures
        is_rooted(lexical(s)) == is_rooted(s),
        lexical(lexical(s)) == lexical(s),
{
    let pieces = text::pieces(s, '/');
    text::pieces_are_free_of(s, '/');
    let list = resolved(pieces);
    resolved_are_names(pieces);
    names_stay(list);
    let body = text::joined(list, seq!['/']);
    if list.len() > 0 {
        assert forall|i: int| 0 <= i < list.len() implies !(#[trigger] list[i]).contains('/') by {
            assert(is_name(list[i]));
        }
        text::split_undoes_join(list, '/');
        assert(text::pieces(body, '/') == list);
    } else {
        assert(body =~= Seq::<char>::empty());
        assert(text::pieces(body, '/') =~= seq![Seq::<char>::empty()]);
        leading_blank_is_passed(Seq::empty());
        assert(seq![Seq::<char>::empty()] + Seq::<Seq<char>>::empty() =~= seq![Seq::<char>::empty()]);
        assert(resolved(Seq::<Seq<char>>::empty()) =~= list);
    }
    assert(resolved(text::pieces(body, '/')) == list);
    if is_rooted(s) {
        let full = seq!['/'] + body;
        rooted_pieces(body);
        leading_blank_is_passed(text::pieces(body, '/'));
        assert(full[0] == '/');
    } else {
        if body.len() > 0 {
            first_of_joined(list);
            assert(is_name(list[0]));
            if body[0] == '/' {
                assert(list[0][0] == '/');
                assert(list[0].contains('/'));
            }
        }
    }
}

proof fn first_of_joined(list: Seq<Seq<char>>)
    requires
        list.len() > 0,
        list[0].len() > 0,
    ensures
        text::joined(list, seq!['/']).len() > 0,
        text::joined(list, seq!['/'])[0] == list[0][0],
    decreases list.len(),
{
    if list.len() > 1 {
        first_of_joined(list.drop_last());
    }
}

proof fn last_start_behind(front: Seq<char>, name: Seq<char>)
    requires
        front.len() == 0 || front.last() == '/',
        !name.contains('/'),
    ensures
        last_start(front + name) == front.len(),
    decreases name.len(),
{
    let whole = front + name;
    if name.len() == 0 {
        assert(whole =~= front);
    } else {
        let init = name.drop_last();
        assert(!init.contains('/')) by {
            if init.contains('/') {
                let k = choose|k: int| 0 <= k < init.len() && init[k] == '/';
                assert(name[k] == '/');
            }
        }
        assert(name[name.len() - 1] != '/');
        assert(whole.drop_last() =~= front + init);
        last_start_behind(front, init);
    }
}

/// The file name of a path below a folder is the name that was put there, and the folder is its parent.
pub proof fn names_stand_below(base: Seq<char>, name: Seq<char>)
    requires
        is_name(name),
    ensures
        file_name(below(base, name)) == Some(name),
        parent(below(base, name)) == without_tail(base),
{
    let front = if base.len() == 0 || base.last() == '/' {
        base
    } else {
        base.push('/')
    };
    assert(name[0] != '/') by {
        if name[0] == '/' {
            assert(name.contains('/'));
        }
    }
    let whole = below(base, name);
    assert(whole == front + name);
    assert(name[name.len() - 1] != '/') by {
        if name[name.len() - 1] == '/' {
            assert(name.contains('/'));
        }
    }
    assert(without_tail(whole) == whole) by {
        if whole.len() > 1 && whole.last() == '.' && whole[whole.len() - 2] == '/' {
            if name.len() == 1 {
                assert(name =~= seq!['.']);
            } else {
                assert(whole[whole.len() - 2] == name[name.len() - 2]);
                assert(name.contains('/'));
            }
        }
    }
    last_start_behind(front, name);
    assert(whole.skip(front.len() as int) =~= name);
    assert(whole.take(front.len() as int) =~= front);
    if front != base {
        assert(front.drop_last() =~= base);
    }
}

proof fn tail_is_free(s: Seq<char>)
    ensures
        last_start(s) <= s.len(),
        !s.skip(last_start(s) as int).contains('/'),
    decreases s.len(),
{
    if s.len() == 0 || s.last() == '/' {
        assert(s.skip(s.len() as int) =~= Seq::<char>::empty());
    } else {
        let init = s.drop_last();
        tail_is_free(init);
        let at = last_start(init) as int;
        let tail = s.skip(at);
        if tail.contains('/') {
            let k = choose|k: int| 0 <= k < tail.len() && tail[k] == '/';
            if k < tail.len() - 1 {
                assert(init.skip(at)[k] == '/');
                assert(init.skip(at).contains('/'));
            }
        }
    }
}

/// A file name is a name.
pub proof fn file_names_are_names(s: Seq<char>)
    ensures
        file_name(s) is Some ==> is_name(file_name(s)->0),
{
    tail_is_free(without_tail(s));
}

/// What lies below a path is an order: every path leads to itself, what lies below something below a path
/// lies below that path, and two paths that lie below each other are the same.
pub proof fn lying_below_is_an_order(a: Seq<char>, b: Seq<char>, c: Seq<char>)
    ensures
        leads_below(a, a),
        leads_below(a, b) && leads_below(b, c) ==> leads_below(a, c),
        leads_below(a, b) && leads_below(b, a) ==> same(a, b),
        same(a, b) ==> leads_below(a, b) && leads_below(b, a),
        is_rooted(a) != is_rooted(b) ==> !leads_below(a, b),
{
    let x = names(text::pieces(a, '/'));
    let y = names(text::pieces(b, '/'));
    let z = names(text::pieces(c, '/'));
    assert(x.take(x.len() as int) =~= x);
    assert(y.take(y.len() as int) =~= y);
    if leads_below(a, b) && leads_below(b, c) {
        assert(x.take(z.len() as int) =~= x.take(y.len() as int).take(z.len() as int));
    }
}

/// An absolute path stays as it is wherever it is seen from, and any other goes below the folder that it
/// is seen from.
pub proof fn absolute_paths_stay(base: Seq<char>, tail: Seq<char>)
    ensures
        is_rooted(tail) ==> below(base, tail) == tail,
        !is_rooted(tail) ==> text::starts_with(below(base, tail), base) && text::ends_with(
            below(base, tail),
            tail,
        ),
        !is_rooted(tail) && base.len() > 0 && base.last() != '/' ==> below(base, tail) == base + seq![
            '/',
        ] + tail,
{
    let whole = below(base, tail);
    if !is_rooted(tail) {
        assert(whole.take(base.len() as int) =~= base);
        assert(whole.skip(whole.len() - tail.len()) =~= tail);
        if base.len() > 0 && base.last() != '/' {
            assert(whole =~= base + seq!['/'] + tail);
        }
    }
}

/// Going into a folder and out of it again leads nowhere else, and neither does staying where one is.
pub proof fn going_back_undoes_going_in(list: Seq<Seq<char>>, name: Seq<char>)
    requires
        is_name(name),
    ensures
        resolved(list.push(name)) == resolved(list).push(name),
        resolved(list.push(name).push(seq!['.', '.'])) == resolved(list),
        resolved(list.push(seq!['.'])) == resolved(list),
        resolved(list.push(Seq::<char>::empty())) == resolved(list),
        resolved(list).len() == 0 ==> resolved(list.push(seq!['.', '.'])).len() == 0,
{
    let up = seq!['.', '.'];
    let inside = list.push(name);
    let back = inside.push(up);
    let left = resolved(list);
    assert(up.len() == 2 && seq!['.'].len() == 1);
    assert(up != seq!['.']);
    assert(inside.drop_last() =~= list && inside.last() == name);
    assert(resolved(inside) == left.push(name));
    assert(back.drop_last() =~= inside && back.last() == up);
    assert(resolved(back) == left.push(name).drop_last());
    assert(left.push(name).drop_last() =~= left);
    assert(list.push(seq!['.']).drop_last() =~= list);
    assert(list.push(up).drop_last() =~= list && list.push(up).last() == up);
    assert(list.push(Seq::<char>::empty()).drop_last() =~= list);
}

proof fn last_points_are_points(name: Seq<char>)
    ensures
        last_point(name) < name.len() || name.len() == 0,
        last_point(name) > 0 ==> name[last_point(name) as int] == '.',
        forall|i: int|
            last_point(name) < i < name.len() && (last_point(name) > 0 || i > 0) ==> #[trigger] name[i]
                != '.',
    decreases name.len(),
{
    if name.len() > 1 && name.last() != '.' {
        last_points_are_points(name.drop_last());
        let init = name.drop_last();
        assert forall|i: int|
            last_point(name) < i < name.len() && (last_point(name) > 0 || i > 0) implies #[trigger] name[i]
            != '.' by {
            if i < init.len() {
                assert(init[i] == name[i]);
            }
        }
    }
}

/// A name is its stem, and behind a point its extension, where it has one. The extension holds no point,
/// and a name that has none holds no point behind its first character.
pub proof fn stem_and_extension_make_up_a_name(name: Seq<char>)
    requires
        name.len() > 0,
    ensures
        extension(name) matches Some(ext) ==> name == stem(name) + seq!['.'] + ext && !ext.contains('.')
            && stem(name).len() > 0,
        extension(name) is None ==> stem(name) == name && forall|i: int|
            0 < i < name.len() ==> #[trigger] name[i] != '.',
{
    last_points_are_points(name);
    if let Some(ext) = extension(name) {
        assert(name =~= stem(name) + seq!['.'] + ext);
        assert forall|i: int| 0 <= i < ext.len() implies #[trigger] ext[i] != '.' by {
            assert(ext[i] == name[last_point(name) as int + 1 + i]);
        }
    }
}

} // verus!
