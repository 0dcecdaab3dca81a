//! Names of profiles: how they are cleaned, and sets of them.

use vstd::prelude::*;

use crate::order;
use crate::text;

verus! {

/// The name that is used for a profile that was asked for as `raw`: in lower case, ASCII letters
/// and digits kept and `_` between them.
pub open spec fn profile_slug(raw: Seq<char>) -> Seq<char> {
    text::stripped(text::squeezed(text::trimmed(raw), text::Alphabet::Ascii), '_')
}

/// Whether a character is a small ASCII letter or a digit.
pub open spec fn is_slug_letter(c: char) -> bool {
    ('a' <= c && c <= 'z') || ('0' <= c && c <= '9')
}

/// Whether text holds only small ASCII letters and digits, with single `_` between them.
pub open spec fn is_slug(s: Seq<char>) -> bool {
    &&& is_loose_slug(s)
    &&& s.len() > 0 ==> s[0] != '_' && s.last() != '_'
}

/// Whether text holds only small ASCII letters and digits and `_`, and no two `_` in a row.
pub open spec fn is_loose_slug(s: Seq<char>) -> bool {
    &&& forall|i: int| 0 <= i < s.len() ==> is_slug_letter(#[trigger] s[i]) || s[i] == '_'
    &&& forall|i: int| 0 < i < s.len() && #[trigger] s[i] == '_' ==> s[i - 1] != '_'
}

proof fn squeezed_is_loose(s: Seq<char>)
    ensures
        is_loose_slug(text::squeezed(s, text::Alphabet::Ascii)),
        s.len() > 0 ==> text::squeezed(s, text::Alphabet::Ascii).len() > 0,
        s.len() > 0 ==> (text::squeezed(s, text::Alphabet::Ascii).last() == '_') == !text::is_ascii_alnum(
            s.last(),
        ),
    decreases s.len(),
{
    if s.len() > 0 {
        squeezed_is_loose(s.drop_last());
        let before = text::squeezed(s.drop_last(), text::Alphabet::Ascii);
        let whole = text::squeezed(s, text::Alphabet::Ascii);
        if s.len() > 1 {
            assert(s.drop_last().last() == s[s.len() - 2]);
        } else {
            assert(before.len() == 0);
        }
        assert forall|i: int| 0 <= i < whole.len() implies is_slug_letter(#[trigger] whole[i])
            || whole[i] == '_' by {
            if i < before.len() {
                assert(whole[i] == before[i]);
            }
        }
        assert forall|i: int| 0 < i < whole.len() && #[trigger] whole[i] == '_' implies whole[i - 1]
            != '_' by {
            assert(whole[i - 1] == before[i - 1]);
            if i < before.len() {
                assert(whole[i] == before[i]);
            }
        }
    }
}

/// The name that is used for a profile holds only small ASCII letters and digits, with single `_`
/// between them: it is one path component and fits in an entry name.
pub proof fn profile_names_are_slugs(raw: Seq<char>)
    ensures
        is_slug(profile_slug(raw)),
{
    let s = text::squeezed(text::trimmed(raw), text::Alphabet::Ascii);
    squeezed_is_loose(text::trimmed(raw));
    text::stripped_start_is_tail(s, '_');
    let t = text::stripped_start(s, '_');
    text::stripped_end_is_head(t, '_');
    let u = text::stripped_end(t, '_');
    let from = s.len() - t.len();
    assert forall|i: int| 0 <= i < u.len() implies #[trigger] u[i] == s[from + i] by {
        assert(t[i] == s[from + i]);
    }
    assert forall|i: int| 0 <= i < u.len() implies is_slug_letter(#[trigger] u[i]) || u[i] == '_' by {
        assert(is_slug_letter(s[from + i]) || s[from + i] == '_');
    }
    assert forall|i: int| 0 < i < u.len() && #[trigger] u[i] == '_' implies u[i - 1] != '_' by {
        assert(s[from + i] == '_');
        assert(u[i - 1] == s[from + i - 1]);
    }
}

proof fn loose_slug_stays(s: Seq<char>)
    requires
        is_loose_slug(s),
    ensures
        text::squeezed(s, text::Alphabet::Ascii) == s,
    decreases s.len(),
{
    if s.len() > 0 {
        let init = s.drop_last();
        assert forall|i: int| 0 < i < init.len() && #[trigger] init[i] == '_' implies init[i - 1]
            != '_' by {
            assert(s[i] == '_');
        }
        loose_slug_stays(init);
        assert(is_slug_letter(s[s.len() - 1]) || s[s.len() - 1] == '_');
        if s.len() > 1 {
            assert(is_slug_letter(s[s.len() - 2]) || s[s.len() - 2] == '_');
        }
        assert(init.push(s.last()) =~= s);
        assert(init + seq![s.last()] =~= s);
    }
}

/// A name that is already clean is used as it is.
pub proof fn clean_names_stay(s: Seq<char>)
    requires
        is_slug(s),
    ensures
        profile_slug(s) == s,
{
    if s.len() > 0 {
        assert(is_slug_letter(s[0]) || s[0] == '_');
        assert(is_slug_letter(s[s.len() - 1]) || s[s.len() - 1] == '_');
    }
    text::bare_edges_stay(s);
    loose_slug_stays(s);
}

/// Cleaning a name a second time changes nothing.
pub proof fn cleaning_twice_is_cleaning_once(raw: Seq<char>)
    ensures
        profile_slug(profile_slug(raw)) == profile_slug(raw),
{
    profile_names_are_slugs(raw);
    clean_names_stay(profile_slug(raw));
}

/// The name that is used for a profile.
pub fn sanitize_name(raw: &str) -> (name: String)
    ensures
        name@ == profile_slug(raw@),
{
    let trimmed = text::trim(raw);
    let squeezed = text::squeeze(trimmed.as_str(), text::Alphabet::Ascii);
    let slug = text::strip_edges(&squeezed, '_');
    text::text_of(&slug)
}

/// Whether a list of texts is in order and holds none twice.
pub open spec fn strictly_ordered(list: Seq<Seq<char>>) -> bool {
    forall|i: int, j: int|
        0 <= i < j < list.len() ==> order::text_before(#[trigger] list[i], #[trigger] list[j])
}

/// A set of names, kept in order.
#[derive(Debug)]
pub struct NameSet {
    names: Vec<String>,
}

impl View for NameSet {
    type V = Set<Seq<char>>;

    closed spec fn view(&self) -> Set<Seq<char>> {
        text::texts(self.names@).to_set()
    }
}

impl NameSet {
    #[verifier::type_invariant]
    closed spec fn wf(self) -> bool {
        strictly_ordered(text::texts(self.names@))
    }

    /// The empty set.
    pub fn new() -> (set: NameSet)
        ensures
            set@ == Set::<Seq<char>>::empty(),
    {
        let set = NameSet { names: Vec::new() };
        assert(text::texts(set.names@) =~= Seq::<Seq<char>>::empty());
        assert(set@ =~= Set::<Seq<char>>::empty());
        set
    }

    /// The names of the set, in order.
    pub fn list(&self) -> (names: Vec<String>)
        ensures
            strictly_ordered(text::texts(names@)),
            text::texts(names@).to_set() == self@,
    {
        proof {
            use_type_invariant(&*self);
        }
        text::copy_list(&self.names)
    }

    /// Puts a name into the set.
    pub fn insert(self, name: String) -> (set: NameSet)
        ensures
            set@ == self@.insert(name@),
    {
        proof {
            use_type_invariant(&self);
        }
        let mut names = self.names;
        let ghost all = text::texts(names@);
        let mut i: usize = 0;
        while i < names.len() && order::comes_before(names[i].as_str(), name.as_str())
            invariant
                i <= names@.len(),
                all == text::texts(names@),
                forall|k: int| 0 <= k < i ==> order::text_before(#[trigger] all[k], name@),
            decreases names@.len() - i,
        {
            assert(all[i as int] == names@[i as int]@);
            i += 1;
        }
        if i < names.len() && text::same_text(names[i].as_str(), name.as_str()) {
            proof {
                assert(all[i as int] == name@);
                assert(all.to_set().contains(name@));
                assert(all.to_set().insert(name@) =~= all.to_set());
            }
            return NameSet { names };
        }
        proof {
            let whole = all.insert(i as int, name@);
            assert forall|p: int, q: int| 0 <= p < q < whole.len() implies order::text_before(
                #[trigger] whole[p],
                #[trigger] whole[q],
            ) by {
                if q < i {
                    assert(whole[p] == all[p] && whole[q] == all[q]);
                } else if q == i {
                    assert(whole[p] == all[p]);
                } else {
                    assert(whole[q] == all[q - 1]);
                    order::text_order_laws(all[i as int], name@, name@);
                    assert(all[i as int] == names@[i as int]@);
                    if p == i {
                        if q - 1 > i {
                            order::text_order_laws(name@, all[i as int], all[q - 1]);
                        }
                    } else if p < i {
                        assert(whole[p] == all[p]);
                    } else {
                        assert(whole[p] == all[p - 1]);
                    }
                }
            }
            assert(whole.to_set() =~= all.to_set().insert(name@)) by {
                assert forall|n: Seq<char>| all.to_set().insert(name@).contains(n) implies
                    whole.to_set().contains(n) by {
                    if n == name@ {
                        assert(whole[i as int] == n);
                    } else {
                        let k = choose|k: int| 0 <= k < all.len() && all[k] == n;
                        if k < i {
                            assert(whole[k] == n);
                        } else {
                            assert(whole[k + 1] == n);
                        }
                    }
                }
                assert forall|n: Seq<char>| whole.to_set().contains(n) implies
                    all.to_set().insert(name@).contains(n) by {
                    let k = choose|k: int| 0 <= k < whole.len() && whole[k] == n;
                    if k < i {
                        assert(all[k] == n);
                    } else if k > i {
                        assert(all[k - 1] == n);
                    }
                }
            }
        }
        names.insert(i, name);
        assert(text::texts(names@) =~= all.insert(i as int, name@));
        NameSet { names }
    }

    /// Takes a name out of the set.
    pub fn remove(self, name: &str) -> (set: NameSet)
        ensures
            set@ == self@.remove(name@),
    {
        proof {
            use_type_invariant(&self);
        }
        let mut names = self.names;
        let ghost all = text::texts(names@);
        let mut i: usize = 0;
        while i < names.len() && !text::same_text(names[i].as_str(), name)
            invariant
                i <= names@.len(),
                all == text::texts(names@),
                forall|k: int| 0 <= k < i ==> #[trigger] all[k] != name@,
            decreases names@.len() - i,
        {
            assert(all[i as int] == names@[i as int]@);
            i += 1;
        }
        if i == names.len() {
            proof {
                assert(!all.to_set().contains(name@));
                assert(all.to_set().remove(name@) =~= all.to_set());
            }
            return NameSet { names };
        }
        proof {
            let rest = all.remove(i as int);
            assert(all[i as int] == names@[i as int]@);
            assert forall|p: int, q: int| 0 <= p < q < rest.len() implies order::text_before(
                #[trigger] rest[p],
                #[trigger] rest[q],
            ) by {
                let x = if p < i {
                    p
                } else {
                    p + 1
                };
                let y = if q < i {
                    q
                } else {
                    q + 1
                };
                assert(rest[p] == all[x] && rest[q] == all[y]);
            }
            assert(rest.to_set() =~= all.to_set().remove(name@)) by {
                assert forall|n: Seq<char>| all.to_set().remove(name@).contains(n) implies
                    rest.to_set().contains(n) by {
                    let k = choose|k: int| 0 <= k < all.len() && all[k] == n;
                    if k < i {
                        assert(rest[k] == n);
                    } else {
                        assert(rest[k - 1] == n);
                    }
                }
                assert forall|n: Seq<char>| rest.to_set().contains(n) implies
                    all.to_set().remove(name@).contains(n) by {
                    let k = choose|k: int| 0 <= k < rest.len() && rest[k] == n;
                    let x = if k < i {
                        k
                    } else {
                        k + 1
                    };
                    assert(all[x] == n);
                    if n == name@ {
                        if x < i {
                            assert(order::text_before(all[x], all[i as int]));
                        } else {
                            assert(order::text_before(all[i as int], all[x]));
                        }
                        order::text_order_laws(n, n, n);
                    }
                }
            }
        }
        let _ = names.remove(i);
        assert(text::texts(names@) =~= all.remove(i as int));
        NameSet { names }
    }
}

/// Whether `list` holds the names of `set`, in order and each once.
pub open spec fn is_listing(list: Seq<Seq<char>>, set: Set<Seq<char>>) -> bool {
    strictly_ordered(list) && list.to_set() == set
}

/// The names of a list, in order and each once.
pub fn in_order(names: &[String]) -> (out: Vec<String>)
    ensures
        is_listing(text::texts(out@), text::texts(names@).to_set()),
{
    let ghost all = text::texts(names@);
    let mut set = NameSet::new();
    let mut i: usize = 0;
    assert(all.take(0).to_set() =~= Set::<Seq<char>>::empty());
    while i < names.len()
        invariant
            i <= names@.len(),
            all == text::texts(names@),
            set@ == all.take(i as int).to_set(),
        decreases names@.len() - i,
    {
        let ghost before = all.take(i as int);
        let ghost after = all.take(i + 1);
        proof {
            assert(all[i as int] == names@[i as int]@);
            assert(after =~= before.push(all[i as int]));
            assert forall|name: Seq<char>| after.to_set().contains(name) implies
                before.to_set().insert(all[i as int]).contains(name) by {
                let k = choose|k: int| 0 <= k < after.len() && after[k] == name;
                if k < i {
                    assert(before[k] == name);
                }
            }
            assert forall|name: Seq<char>| before.to_set().insert(all[i as int]).contains(name) implies
                after.to_set().contains(name) by {
                if name == all[i as int] {
                    assert(after[i as int] == name);
                } else {
                    let k = choose|k: int| 0 <= k < before.len() && before[k] == name;
                    assert(after[k] == name);
                }
            }
            assert(after.to_set() =~= before.to_set().insert(all[i as int]));
        }
        set = set.insert(names[i].clone());
        i += 1;
    }
    assert(all.take(i as int) =~= all);
    set.list()
}

} // verus!
