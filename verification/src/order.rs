//! Orders on text and on paths, and lists put in order.

use vstd::prelude::*;

use crate::export::session::deque_of;
use crate::path;
use crate::text;

verus! {

/// Whether `a` comes before `b`: at the first place where they differ it has the smaller character,
/// or it ends.
pub open spec fn text_before(a: Seq<char>, b: Seq<char>) -> bool
    decreases b.len(),
{
    if b.len() == 0 {
        false
    } else if a.len() == 0 {
        true
    } else if a[0] == b[0] {
        text_before(a.drop_first(), b.drop_first())
    } else {
        a[0] < b[0]
    }
}

/// The rank of a path component: `.` before `..` before names.
pub open spec fn component_rank(name: Seq<char>) -> int {
    if name == seq!['.'] {
        1
    } else if name == seq!['.', '.'] {
        2
    } else {
        3
    }
}

/// Whether one path component comes before another.
pub open spec fn component_before(a: Seq<char>, b: Seq<char>) -> bool {
    ||| component_rank(a) < component_rank(b)
    ||| component_rank(a) == component_rank(b) && text_before(a, b)
}

/// Whether one list of path components comes before another.
pub open spec fn names_before(a: Seq<Seq<char>>, b: Seq<Seq<char>>) -> bool
    decreases b.len(),
{
    if b.len() == 0 {
        false
    } else if a.len() == 0 {
        true
    } else if a[0] == b[0] {
        names_before(a.drop_first(), b.drop_first())
    } else {
        component_before(a[0], b[0])
    }
}

/// Whether one path comes before another, component by component. Rooted paths come before others,
/// but behind the empty path.
pub open spec fn path_before(a: Seq<char>, b: Seq<char>) -> bool {
    let x = path::names(text::pieces(a, '/'));
    let y = path::names(text::pieces(b, '/'));
    if path::is_rooted(a) == path::is_rooted(b) {
        names_before(x, y)
    } else if path::is_rooted(a) {
        y.len() > 0
    } else {
        x.len() == 0
    }
}

/// `item` put into `list` before the first element that it comes before.
pub open spec fn placed<T>(list: Seq<T>, item: T, before: spec_fn(T, T) -> bool) -> Seq<T>
    decreases list.len(),
{
    if list.len() == 0 {
        seq![item]
    } else if before(item, list[0]) {
        seq![item] + list
    } else {
        seq![list[0]] + placed(list.drop_first(), item, before)
    }
}

/// `list` in order; elements of which neither comes before the other keep their order.
pub open spec fn ordered<T>(list: Seq<T>, before: spec_fn(T, T) -> bool) -> Seq<T>
    decreases list.len(),
{
    if list.len() == 0 {
        list
    } else {
        placed(ordered(list.drop_last(), before), list.last(), before)
    }
}

/// Where an item comes to stand in a list.
pub(crate) proof fn placed_at<T>(list: Seq<T>, item: T, before: spec_fn(T, T) -> bool, at: int)
    requires
        0 <= at <= list.len(),
        forall|j: int| 0 <= j < at ==> !before(item, #[trigger] list[j]),
        at < list.len() ==> before(item, list[at]),
    ensures
        placed(list, item, before) == list.insert(at, item),
    decreases list.len(),
{
    if at > 0 {
        let rest = list.drop_first();
        assert forall|j: int| 0 <= j < at - 1 implies !before(item, #[trigger] rest[j]) by {
            assert(rest[j] == list[j + 1]);
        }
        if at < list.len() {
            assert(rest[at - 1] == list[at]);
        }
        placed_at(rest, item, before, at - 1);
        assert(!before(item, list[0]));
        assert(seq![list[0]] + rest.insert(at - 1, item) =~= list.insert(at, item));
    } else {
        assert(list.insert(0, item) =~= seq![item] + list);
        if list.len() == 0 {
            assert(list.insert(0, item) =~= seq![item]);
        }
    }
}

/// Whether no element of a list comes before an earlier one.
pub open spec fn in_order<T>(list: Seq<T>, before: spec_fn(T, T) -> bool) -> bool {
    forall|i: int, j: int| 0 <= i < j < list.len() ==> !before(#[trigger] list[j], #[trigger] list[i])
}

/// Whether a relation never holds both ways, and carries over.
pub open spec fn is_order<T>(before: spec_fn(T, T) -> bool) -> bool {
    &&& forall|a: T, b: T| #[trigger] before(a, b) ==> !before(b, a)
    &&& forall|a: T, b: T, c: T| #[trigger] before(a, b) && #[trigger] before(b, c) ==> before(a, c)
}

/// Putting a list in order keeps its elements, and leaves none before an earlier one.
pub proof fn ordered_is_in_order<T>(list: Seq<T>, before: spec_fn(T, T) -> bool)
    requires
        is_order(before),
    ensures
        in_order(ordered(list, before), before),
        ordered(list, before).to_multiset() == list.to_multiset(),
    decreases list.len(),
{
    if list.len() > 0 {
        let init = list.drop_last();
        let item = list.last();
        ordered_is_in_order(init, before);
        let sorted = ordered(init, before);
        let at = first_after(sorted, item, before);
        placed_at(sorted, item, before, at);
        let whole = sorted.insert(at, item);
        assert forall|i: int, j: int| 0 <= i < j < whole.len() implies !before(
            #[trigger] whole[j],
            #[trigger] whole[i],
        ) by {
            if i == at {
                let k = j - 1;
                assert(whole[j] == sorted[k]);
                if before(sorted[k], item) {
                    assert(before(item, sorted[at]));
                    if k == at {
                    } else {
                        assert(before(sorted[k], sorted[at]));
                    }
                }
            } else if j == at {
                assert(whole[i] == sorted[i]);
            } else {
                let p = if i < at {
                    i
                } else {
                    i - 1
                };
                let q = if j < at {
                    j
                } else {
                    j - 1
                };
                assert(whole[i] == sorted[p] && whole[j] == sorted[q]);
            }
        }
        broadcast use vstd::seq_lib::group_to_multiset_ensures;

        assert(sorted.insert(at, item).to_multiset() =~= sorted.to_multiset().insert(item));
        assert(init.push(item) =~= list);
        assert(list.to_multiset() =~= init.to_multiset().insert(item));
    }
}

proof fn first_after<T>(list: Seq<T>, item: T, before: spec_fn(T, T) -> bool) -> (at: int)
    ensures
        0 <= at <= list.len(),
        forall|j: int| 0 <= j < at ==> !before(item, #[trigger] list[j]),
        at < list.len() ==> before(item, list[at]),
    decreases list.len(),
{
    if list.len() == 0 || before(item, list[0]) {
        0
    } else {
        let rest = list.drop_first();
        let at = first_after(rest, item, before);
        assert forall|j: int| 0 <= j < at + 1 implies !before(item, #[trigger] list[j]) by {
            if j > 0 {
                assert(rest[j - 1] == list[j]);
            }
        }
        at + 1
    }
}

/// The order of texts never holds both ways, and carries over.
pub proof fn text_order_laws(a: Seq<char>, b: Seq<char>, c: Seq<char>)
    ensures
        text_before(a, b) ==> !text_before(b, a),
        text_before(a, b) && text_before(b, c) ==> text_before(a, c),
        !text_before(a, b) && !text_before(b, a) ==> a == b,
    decreases b.len(),
{
    if a.len() > 0 && b.len() > 0 {
        if c.len() > 0 {
            text_order_laws(a.drop_first(), b.drop_first(), c.drop_first());
        } else {
            text_order_laws(a.drop_first(), b.drop_first(), c);
        }
        if a[0] == b[0] && a.drop_first() == b.drop_first() {
            assert(a =~= seq![a[0]] + a.drop_first());
            assert(b =~= seq![b[0]] + b.drop_first());
        }
    } else if a.len() == 0 && b.len() == 0 {
        assert(a =~= b);
    }
}

/// Whether `a` comes before `b`.
pub fn comes_before(a: &str, b: &str) -> (yes: bool)
    ensures
        yes == text_before(a@, b@),
{
    let x = text::chars_of(a);
    let y = text::chars_of(b);
    chars_before(&x, &y)
}

fn chars_before(x: &[char], y: &[char]) -> (yes: bool)
    ensures
        yes == text_before(x@, y@),
{
    let mut i: usize = 0;
    assert(x@.skip(0) =~= x@ && y@.skip(0) =~= y@);
    loop
        invariant
            i <= x@.len(),
            i <= y@.len(),
            text_before(x@.skip(i as int), y@.skip(i as int)) == text_before(x@, y@),
        decreases y@.len() - i,
    {
        if i >= y.len() {
            return false;
        }
        if i >= x.len() {
            return true;
        }
        if x[i] != y[i] {
            return x[i] < y[i];
        }
        assert(x@.skip(i as int).drop_first() =~= x@.skip(i + 1));
        assert(y@.skip(i as int).drop_first() =~= y@.skip(i + 1));
        i += 1;
    }
}

fn rank(name: &str) -> (out: u8)
    ensures
        out == component_rank(name@),
{
    let chars = text::chars_of(name);
    if chars.len() == 1 && chars[0] == '.' {
        assert(name@ =~= seq!['.']);
        1
    } else if chars.len() == 2 && chars[0] == '.' && chars[1] == '.' {
        assert(name@ =~= seq!['.', '.']);
        2
    } else {
        3
    }
}

fn component_comes_before(a: &str, b: &str) -> (yes: bool)
    ensures
        yes == component_before(a@, b@),
{
    let x: u8 = rank(a);
    let y: u8 = rank(b);
    x < y || (x == y && comes_before(a, b))
}

/// Whether one path comes before another, component by component.
pub fn path_comes_before(a: &str, b: &str) -> (yes: bool)
    ensures
        yes == path_before(a@, b@),
{
    let x = path::names_of(a);
    let y = path::names_of(b);
    let ghost left = text::texts(x@);
    let ghost right = text::texts(y@);
    let first: bool = path::rooted(a);
    let second: bool = path::rooted(b);
    if first != second {
        return if first {
            y.len() > 0
        } else {
            x.len() == 0
        };
    }
    let mut i: usize = 0;
    assert(left.skip(0) =~= left && right.skip(0) =~= right);
    loop
        invariant
            i <= x@.len(),
            i <= y@.len(),
            left == text::texts(x@),
            right == text::texts(y@),
            left == path::names(text::pieces(a@, '/')),
            right == path::names(text::pieces(b@, '/')),
            path::is_rooted(a@) == path::is_rooted(b@),
            names_before(left.skip(i as int), right.skip(i as int)) == names_before(left, right),
        decreases y@.len() - i,
    {
        if i >= y.len() {
            return false;
        }
        if i >= x.len() {
            return true;
        }
        assert(left[i as int] == x@[i as int]@ && right[i as int] == y@[i as int]@);
        if !text::same_text(x[i].as_str(), y[i].as_str()) {
            return component_comes_before(x[i].as_str(), y[i].as_str());
        }
        assert(left.skip(i as int).drop_first() =~= left.skip(i + 1));
        assert(right.skip(i as int).drop_first() =~= right.skip(i + 1));
        i += 1;
    }
}

/// The order of path components never holds both ways, and carries over.
proof fn component_order_laws(a: Seq<char>, b: Seq<char>, c: Seq<char>)
    ensures
        component_before(a, b) ==> !component_before(b, a),
        component_before(a, b) && component_before(b, c) ==> component_before(a, c),
        !component_before(a, b) && !component_before(b, a) ==> a == b,
{
    text_order_laws(a, b, c);
}

/// The order of lists of path components never holds both ways, and carries over.
proof fn names_order_laws(a: Seq<Seq<char>>, b: Seq<Seq<char>>, c: Seq<Seq<char>>)
    ensures
        names_before(a, b) ==> !names_before(b, a),
        names_before(a, b) && names_before(b, c) ==> names_before(a, c),
        !names_before(a, b) && !names_before(b, a) ==> a == b,
    decreases b.len(),
{
    if a.len() > 0 && b.len() > 0 {
        if c.len() > 0 {
            component_order_laws(a[0], b[0], c[0]);
            names_order_laws(a.drop_first(), b.drop_first(), c.drop_first());
        } else {
            component_order_laws(a[0], b[0], a[0]);
            names_order_laws(a.drop_first(), b.drop_first(), c);
        }
        if a[0] == b[0] && a.drop_first() == b.drop_first() {
            assert(a =~= seq![a[0]] + a.drop_first());
            assert(b =~= seq![b[0]] + b.drop_first());
        }
    } else if a.len() == 0 && b.len() == 0 {
        assert(a =~= b);
    }
}

/// The order of paths never holds both ways, and carries over; where it holds neither way the paths
/// have the same components.
pub proof fn path_order_laws(a: Seq<char>, b: Seq<char>, c: Seq<char>)
    ensures
        path_before(a, b) ==> !path_before(b, a),
        path_before(a, b) && path_before(b, c) ==> path_before(a, c),
        !path_before(a, b) && !path_before(b, a) ==> path::same(a, b),
{
    names_order_laws(
        path::names(text::pieces(a, '/')),
        path::names(text::pieces(b, '/')),
        path::names(text::pieces(c, '/')),
    );
}

/// Puts a list in order, one element after the other.
pub(crate) fn sort_by<T, F: Fn(&T, &T) -> bool>(
    list: Vec<T>,
    comes_first: F,
    Ghost(before): Ghost<spec_fn(T, T) -> bool>,
) -> (sorted: Vec<T>)
    requires
        is_order(before),
        forall|a: &T, b: &T| #[trigger] call_requires(comes_first, (a, b)),
        forall|a: &T, b: &T, yes: bool| #[trigger]
            call_ensures(comes_first, (a, b), yes) ==> yes == before(*a, *b),
    ensures
        sorted@ == ordered(list@, before),
        in_order(sorted@, before),
{
    let ghost all = list@;
    let mut rest = deque_of(list);
    let mut sorted: Vec<T> = Vec::new();
    let ghost mut taken: int = 0;
    while rest.len() > 0
        invariant
            forall|a: &T, b: &T| #[trigger] call_requires(comes_first, (a, b)),
            forall|a: &T, b: &T, yes: bool| #[trigger]
                call_ensures(comes_first, (a, b), yes) ==> yes == before(*a, *b),
            0 <= taken <= all.len(),
            rest@ == all.skip(taken),
            sorted@ == ordered(all.take(taken), before),
        decreases rest@.len(),
    {
        let ghost list = sorted@;
        if let Some(item) = rest.pop_front() {
            assert(rest@ =~= all.skip(taken + 1));
            assert(all.take(taken + 1).drop_last() =~= all.take(taken));
            assert(all.take(taken + 1).last() == item);
            let mut at: usize = 0;
            while at < sorted.len() && !comes_first(&item, &sorted[at])
                invariant
                    at <= sorted@.len(),
                    sorted@ == list,
                    forall|a: &T, b: &T| #[trigger] call_requires(comes_first, (a, b)),
                    forall|a: &T, b: &T, yes: bool| #[trigger]
                        call_ensures(comes_first, (a, b), yes) ==> yes == before(*a, *b),
                    forall|j: int| 0 <= j < at ==> !before(item, #[trigger] list[j]),
                decreases sorted@.len() - at,
            {
                at += 1;
            }
            proof {
                placed_at(list, item, before, at as int);
                taken = taken + 1;
            }
            sorted.insert(at, item);
        }
    }
    proof {
        assert(all.take(taken) =~= all);
        ordered_is_in_order(all, before);
    }
    sorted
}

/// Texts are ordered by the first character in which they differ, and a text comes before what begins
/// with it.
pub proof fn the_first_difference_decides(
    common: Seq<char>,
    a: char,
    b: char,
    left: Seq<char>,
    right: Seq<char>,
)
    ensures
        a != b ==> (text_before(common + seq![a] + left, common + seq![b] + right) <==> a < b),
        text_before(common, common + seq![a] + left),
        !text_before(common + left, common),
    decreases common.len(),
{
    let x = common + seq![a] + left;
    let y = common + seq![b] + right;
    if common.len() > 0 {
        let rest = common.drop_first();
        the_first_difference_decides(rest, a, b, left, right);
        assert(x.drop_first() =~= rest + seq![a] + left);
        assert(y.drop_first() =~= rest + seq![b] + right);
        assert((common + left).drop_first() =~= rest + left);
        assert(x[0] == common[0] && y[0] == common[0]);
    } else {
        assert(x[0] == a && y[0] == b);
    }
}

} // verus!
