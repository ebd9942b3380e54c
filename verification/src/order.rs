//! The order of names: character by character, a shorter name before its extensions.

use vstd::prelude::*;
use vstd::std_specs::iter::IteratorSpec;

verus! {

/// `a` comes before `b`: at the first position where the two differ, `a` has the
/// smaller character or has ended.
pub open spec fn lex_lt(a: Seq<char>, b: Seq<char>) -> bool
    decreases a.len(),
{
    if b.len() == 0 {
        false
    } else if a.len() == 0 {
        true
    } else if a[0] == b[0] {
        lex_lt(a.drop_first(), b.drop_first())
    } else {
        a[0] < b[0]
    }
}

/// No name comes before itself.
pub proof fn lemma_lex_irreflexive(a: Seq<char>)
    ensures
        !lex_lt(a, a),
    decreases a.len(),
{
    if a.len() > 0 {
        lemma_lex_irreflexive(a.drop_first());
    }
}

/// Of two different names exactly one comes before the other.
pub proof fn lemma_lex_total(a: Seq<char>, b: Seq<char>)
    ensures
        a == b || lex_lt(a, b) || lex_lt(b, a),
        !(lex_lt(a, b) && lex_lt(b, a)),
    decreases a.len(),
{
    if a.len() == 0 || b.len() == 0 {
        if a.len() == 0 && b.len() == 0 {
            assert(a =~= b);
        }
    } else if a[0] == b[0] {
        lemma_lex_total(a.drop_first(), b.drop_first());
        if a.drop_first() == b.drop_first() {
            assert(a =~= seq![a[0]] + a.drop_first());
            assert(b =~= seq![b[0]] + b.drop_first());
        }
    }
}

/// What comes before a name comes before everything that the name comes before.
pub proof fn lemma_lex_transitive(a: Seq<char>, b: Seq<char>, c: Seq<char>)
    requires
        lex_lt(a, b),
        lex_lt(b, c),
    ensures
        lex_lt(a, c),
    decreases a.len(),
{
    if a.len() > 0 && a[0] == b[0] && b[0] == c[0] {
        lemma_lex_transitive(a.drop_first(), b.drop_first(), c.drop_first());
    }
}

/// Whether `a` comes before `b`.
pub fn comes_before(a: &str, b: &str) -> (before: bool)
    ensures
        before == lex_lt(a@, b@),
{
    let mut left = a.chars();
    let mut right = b.chars();
    let ghost mut done: int = 0;
    assert(a@.skip(0) =~= a@ && b@.skip(0) =~= b@);
    loop
        invariant
            left.obeys_prophetic_iter_laws(),
            right.obeys_prophetic_iter_laws(),
            0 <= done <= a@.len(),
            done <= b@.len(),
            left.remaining() == a@.skip(done),
            right.remaining() == b@.skip(done),
            lex_lt(a@, b@) == lex_lt(a@.skip(done), b@.skip(done)),
        decreases a@.len() - done,
    {
        let ghost rest_a = a@.skip(done);
        let ghost rest_b = b@.skip(done);
        let x = left.next();
        let y = right.next();
        match (x, y) {
            (Some(c), Some(d)) => {
                assert(rest_a[0] == c && rest_b[0] == d);
                assert(rest_a.drop_first() =~= a@.skip(done + 1));
                assert(rest_b.drop_first() =~= b@.skip(done + 1));
                if c != d {
                    return c < d;
                }
                proof {
                    done = done + 1;
                }
            },
            (None, Some(_)) => {
                return true;
            },
            (_, None) => {
                return false;
            },
        }
    }
}

/// Something that bears a name by which it is ordered.
pub trait Named {
    /// The name.
    spec fn name_text(&self) -> Seq<char>;

    /// The name.
    fn name(&self) -> (name: &str)
        ensures
            name@ == self.name_text(),
    ;
}

impl Named for String {
    open spec fn name_text(&self) -> Seq<char> {
        self@
    }

    fn name(&self) -> (name: &str) {
        self.as_str()
    }
}

/// No item of `items` stands behind an item whose name comes after its own.
pub open spec fn in_name_order<T: Named>(items: Seq<T>) -> bool {
    forall|i: int, j: int|
        0 <= i < j < items.len() ==> !lex_lt(
            (#[trigger] items[j]).name_text(),
            (#[trigger] items[i]).name_text(),
        )
}

/// How many of `items` have a name that comes before `name`.
pub open spec fn count_before<T: Named>(items: Seq<T>, name: Seq<char>) -> int
    decreases items.len(),
{
    if items.len() == 0 {
        0
    } else {
        count_before(items.drop_last(), name) + if lex_lt(items.last().name_text(), name) {
            1int
        } else {
            0int
        }
    }
}

/// `items` in the order of their names; items of the same name keep the order in
/// which they stand in `items`.
pub open spec fn name_sorted<T: Named>(items: Seq<T>) -> Seq<T>
    decreases items.len(),
{
    if items.len() == 0 {
        Seq::empty()
    } else {
        let rest = name_sorted(items.drop_first());
        rest.insert(count_before(rest, items.first().name_text()), items.first())
    }
}

/// Among items in the order of their names, those whose name comes before a given name
/// stand first: as many as there are of them, and no others.
pub proof fn lemma_count_before<T: Named>(items: Seq<T>, name: Seq<char>)
    requires
        in_name_order(items),
    ensures
        0 <= count_before(items, name) <= items.len(),
        forall|i: int|
            0 <= i < count_before(items, name) ==> lex_lt(
                (#[trigger] items[i]).name_text(),
                name,
            ),
        forall|i: int|
            count_before(items, name) <= i < items.len() ==> !lex_lt(
                (#[trigger] items[i]).name_text(),
                name,
            ),
    decreases items.len(),
{
    if items.len() > 0 {
        let front = items.drop_last();
        let last = items.len() - 1;
        assert(forall|i: int| 0 <= i < front.len() ==> front[i] == items[i]);
        assert(in_name_order(front));
        lemma_count_before(front, name);
        if lex_lt(items[last].name_text(), name) {
            assert forall|i: int| 0 <= i < last implies lex_lt(
                (#[trigger] items[i]).name_text(),
                name,
            ) by {
                lemma_lex_total(items[i].name_text(), items[last].name_text());
                if items[i].name_text() != items[last].name_text() {
                    lemma_lex_transitive(items[i].name_text(), items[last].name_text(), name);
                }
            }
            if count_before(front, name) < front.len() {
                assert(!lex_lt(front[count_before(front, name)].name_text(), name));
            }
        }
    }
}

/// Putting an item in behind the items whose names come before its own keeps the
/// order of names.
pub proof fn lemma_insert_keeps_order<T: Named>(items: Seq<T>, item: T)
    requires
        in_name_order(items),
    ensures
        in_name_order(items.insert(count_before(items, item.name_text()), item)),
{
    let at = count_before(items, item.name_text());
    lemma_count_before(items, item.name_text());
    let after = items.insert(at, item);
    assert forall|i: int, j: int| 0 <= i < j < after.len() implies !lex_lt(
        (#[trigger] after[j]).name_text(),
        (#[trigger] after[i]).name_text(),
    ) by {
        if i == at {
            assert(after[j] == items[j - 1]);
        } else if j == at {
            assert(after[i] == items[i]);
            lemma_lex_total(items[i].name_text(), item.name_text());
        } else {
            let oi = if i < at {
                i
            } else {
                i - 1
            };
            let oj = if j < at {
                j
            } else {
                j - 1
            };
            assert(after[i] == items[oi]);
            assert(after[j] == items[oj]);
        }
    }
}

/// Sorting by name puts the items in the order of their names and neither loses nor
/// adds one.
pub proof fn lemma_name_sorted<T: Named>(items: Seq<T>)
    ensures
        in_name_order(name_sorted(items)),
        name_sorted(items).len() == items.len(),
        name_sorted(items).to_multiset() == items.to_multiset(),
    decreases items.len(),
{
    broadcast use vstd::seq_lib::group_to_multiset_ensures;

    if items.len() == 0 {
        assert(items =~= Seq::empty());
    } else {
        let rest = name_sorted(items.drop_first());
        lemma_name_sorted(items.drop_first());
        lemma_count_before(rest, items.first().name_text());
        lemma_insert_keeps_order(rest, items.first());
        let at = count_before(rest, items.first().name_text());
        assert(items =~= items.drop_first().insert(0, items.first()));
        vstd::seq_lib::to_multiset_insert(rest, at, items.first());
        vstd::seq_lib::to_multiset_insert(items.drop_first(), 0, items.first());
    }
}

/// Sorts `items` by name. Items of the same name keep their order.
pub fn sort_by_name<T: Named>(items: Vec<T>) -> (sorted: Vec<T>)
    ensures
        sorted@ == name_sorted(items@),
{
    let ghost all = items@;
    let mut items = items;
    let mut sorted: Vec<T> = Vec::new();
    assert(all.skip(all.len() as int) =~= Seq::empty());
    assert(all.take(all.len() as int) =~= all);
    while items.len() > 0
        invariant
            items.len() <= all.len(),
            items@ == all.take(items.len() as int),
            sorted@ == name_sorted(all.skip(items.len() as int)),
            in_name_order(sorted@),
        decreases items.len(),
    {
        let ghost left = items.len() - 1;
        let item = items.pop().unwrap();
        assert(item == all[left]);
        assert(all.skip(left).drop_first() =~= all.skip(left + 1));
        assert(all.skip(left).first() == item);
        assert(items@ =~= all.take(left));
        proof {
            lemma_count_before(sorted@, item.name_text());
            lemma_insert_keeps_order(sorted@, item);
        }
        let mut at: usize = 0;
        let mut searching = true;
        while searching && at < sorted.len()
            invariant
                at <= sorted.len(),
                forall|i: int| 0 <= i < at ==> lex_lt(
                    (#[trigger] sorted@[i]).name_text(),
                    item.name_text(),
                ),
                !searching ==> at < sorted.len() && !lex_lt(
                    sorted@[at as int].name_text(),
                    item.name_text(),
                ),
            decreases sorted.len() - at + if searching { 1int } else { 0int },
        {
            if comes_before(sorted[at].name(), item.name()) {
                at += 1;
            } else {
                searching = false;
            }
        }
        proof {
            let c = count_before(sorted@, item.name_text());
            if at < c {
                assert(lex_lt(sorted@[at as int].name_text(), item.name_text()));
            }
            if c < at {
                assert(lex_lt(sorted@[c].name_text(), item.name_text()));
            }
        }
        sorted.insert(at, item);
    }
    assert(all.skip(0) =~= all);
    sorted
}

} // verus!
