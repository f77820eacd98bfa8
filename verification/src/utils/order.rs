//! Natural order of names: runs of digits are compared as numbers, so that
//! `Item 2` comes before `Item 10`.
//!
//! The comparison itself is that of the `natord` crate. What is proved here
//! is the arrangement built on it.

use vstd::prelude::*;

verus! {

/// How one name stands to another.
#[derive(Clone, Copy, Debug, PartialEq, Eq, Structural)]
pub enum Order {
    Less,
    Equal,
    Greater,
}

/// How `left` stands to `right` in natural order, case counted.
pub uninterp spec fn natural_order(left: Seq<char>, right: Seq<char>) -> Order;

/// How `left` stands to `right` in natural order, case ignored.
pub uninterp spec fn natural_order_ignore_case(left: Seq<char>, right: Seq<char>) -> Order;

/// Compares two names with `natord::compare`. Trusted: the answer depends on
/// the two names alone.
#[verifier::external_body]
fn natural_compare(left: &str, right: &str) -> (order: Order)
    ensures
        order == natural_order(left@, right@),
{
    match natord::compare(left, right) {
        core::cmp::Ordering::Less => Order::Less,
        core::cmp::Ordering::Equal => Order::Equal,
        core::cmp::Ordering::Greater => Order::Greater,
    }
}

/// Compares two names with `natord::compare_ignore_case`. Trusted: the answer
/// depends on the two names alone.
#[verifier::external_body]
fn natural_compare_ignore_case(left: &str, right: &str) -> (order: Order)
    ensures
        order == natural_order_ignore_case(left@, right@),
{
    match natord::compare_ignore_case(left, right) {
        core::cmp::Ordering::Less => Order::Less,
        core::cmp::Ordering::Equal => Order::Equal,
        core::cmp::Ordering::Greater => Order::Greater,
    }
}

/// How `left` stands to `right` in natural order, with or without regard to
/// case.
pub open spec fn name_order(left: Seq<char>, right: Seq<char>, ignore_case: bool) -> Order {
    if ignore_case {
        natural_order_ignore_case(left, right)
    } else {
        natural_order(left, right)
    }
}

/// Whether nothing speaks against `first` standing before `second`: it is not
/// found greater than `second`, or `second` is found greater than it.
pub open spec fn in_order(first: Seq<char>, second: Seq<char>, ignore_case: bool) -> bool {
    name_order(first, second, ignore_case) != Order::Greater || name_order(
        second,
        first,
        ignore_case,
    ) == Order::Greater
}

/// Whether each item of `items` is in order with the one after it.
pub open spec fn each_in_order<V>(items: Seq<(Seq<char>, V)>, ignore_case: bool) -> bool {
    forall|i: int|
        0 <= i < items.len() - 1 ==> in_order(
            (#[trigger] items[i]).0,
            items[i + 1].0,
            ignore_case,
        )
}

/// `sorted` with `item` set in from the end: after the last item that is not
/// greater than it.
pub open spec fn insert_by_name<V>(
    sorted: Seq<(Seq<char>, V)>,
    item: (Seq<char>, V),
    ignore_case: bool,
) -> Seq<(Seq<char>, V)>
    decreases sorted.len(),
{
    if sorted.len() > 0 && name_order(sorted.last().0, item.0, ignore_case) == Order::Greater {
        insert_by_name(sorted.drop_last(), item, ignore_case).push(sorted.last())
    } else {
        sorted.push(item)
    }
}

/// `items` arranged by name in natural order: each item in turn is set in
/// after those that are not greater, so items that compare alike keep the
/// order in which they came.
pub open spec fn sorted_by_name<V>(items: Seq<(Seq<char>, V)>, ignore_case: bool) -> Seq<
    (Seq<char>, V),
>
    decreases items.len(),
{
    if items.len() == 0 {
        items
    } else {
        insert_by_name(sorted_by_name(items.drop_last(), ignore_case), items.last(), ignore_case)
    }
}

/// Named items as the contracts see them: each name as text, each item by
/// its view.
pub open spec fn named<T: View>(items: Seq<(String, T)>) -> Seq<(Seq<char>, T::V)> {
    items.map_values(|item: (String, T)| (item.0@, item.1@))
}

/// Setting an item in from the end puts it at the place before which the
/// last item not greater than it stands, and behind which all are greater.
pub proof fn lemma_insert_by_name<V>(
    sorted: Seq<(Seq<char>, V)>,
    item: (Seq<char>, V),
    ignore_case: bool,
    at: int,
)
    requires
        0 <= at <= sorted.len(),
        at > 0 ==> name_order(sorted[at - 1].0, item.0, ignore_case) != Order::Greater,
        forall|j: int|
            at <= j < sorted.len() ==> name_order(
                (#[trigger] sorted[j]).0,
                item.0,
                ignore_case,
            ) == Order::Greater,
    ensures
        insert_by_name(sorted, item, ignore_case) == sorted.insert(at, item),
    decreases sorted.len(),
{
    if at < sorted.len() {
        assert(name_order(sorted[sorted.len() - 1].0, item.0, ignore_case) == Order::Greater);
        lemma_insert_by_name(sorted.drop_last(), item, ignore_case, at);
        assert(sorted.drop_last().insert(at, item).push(sorted.last()) =~= sorted.insert(
            at,
            item,
        ));
    } else {
        assert(sorted.push(item) =~= sorted.insert(at, item));
    }
}

/// An item set into a sequence adds itself to what the sequence holds.
pub proof fn lemma_insert_to_multiset<A>(s: Seq<A>, at: int, a: A)
    requires
        0 <= at <= s.len(),
    ensures
        s.insert(at, a).to_multiset() == s.to_multiset().insert(a),
{
    broadcast use vstd::seq_lib::group_to_multiset_ensures;
    broadcast use vstd::multiset::group_multiset_axioms;

    let longer = s.insert(at, a);
    assert(longer.remove(at) =~= s);
    assert(longer[at] == a);
    assert(longer.to_multiset().count(a) > 0) by {
        assert(longer.contains(a));
    }
    assert(longer.to_multiset() =~= s.to_multiset().insert(a));
}

/// Arranging by name keeps what there is, and leaves each item in order with
/// the one after it.
pub proof fn lemma_sorted_by_name<V>(items: Seq<(Seq<char>, V)>, ignore_case: bool)
    ensures
        sorted_by_name(items, ignore_case).len() == items.len(),
        sorted_by_name(items, ignore_case).to_multiset() == items.to_multiset(),
        each_in_order(sorted_by_name(items, ignore_case), ignore_case),
    decreases items.len(),
{
    broadcast use vstd::seq_lib::group_to_multiset_ensures;

    if items.len() > 0 {
        let rest = sorted_by_name(items.drop_last(), ignore_case);
        lemma_sorted_by_name(items.drop_last(), ignore_case);
        let at = insertion_place(rest, items.last(), ignore_case);
        lemma_insertion_place(rest, items.last(), ignore_case);
        lemma_insert_by_name(rest, items.last(), ignore_case, at);
        lemma_insert_to_multiset(rest, at, items.last());
        assert(items =~= items.drop_last().push(items.last()));
        let sorted = rest.insert(at, items.last());
        assert forall|i: int| 0 <= i < sorted.len() - 1 implies in_order(
            (#[trigger] sorted[i]).0,
            sorted[i + 1].0,
            ignore_case,
        ) by {
            if i + 1 < at {
                assert(sorted[i] == rest[i] && sorted[i + 1] == rest[i + 1]);
            } else if i + 1 == at {
                assert(sorted[i] == rest[at - 1]);
            } else if i == at {
                assert(sorted[i + 1] == rest[at]);
            } else {
                assert(sorted[i] == rest[i - 1] && sorted[i + 1] == rest[i]);
            }
        }
    }
}

/// The place at which `item` goes into `sorted`: behind the last item that
/// is not greater than it.
pub open spec fn insertion_place<V>(
    sorted: Seq<(Seq<char>, V)>,
    item: (Seq<char>, V),
    ignore_case: bool,
) -> int
    decreases sorted.len(),
{
    if sorted.len() > 0 && name_order(sorted.last().0, item.0, ignore_case) == Order::Greater {
        insertion_place(sorted.drop_last(), item, ignore_case)
    } else {
        sorted.len() as int
    }
}

/// Before the place of insertion stands an item that is not greater, and
/// behind it stand only greater ones.
pub proof fn lemma_insertion_place<V>(
    sorted: Seq<(Seq<char>, V)>,
    item: (Seq<char>, V),
    ignore_case: bool,
)
    ensures
        0 <= insertion_place(sorted, item, ignore_case) <= sorted.len(),
        insertion_place(sorted, item, ignore_case) > 0 ==> name_order(
            sorted[insertion_place(sorted, item, ignore_case) - 1].0,
            item.0,
            ignore_case,
        ) != Order::Greater,
        forall|j: int|
            insertion_place(sorted, item, ignore_case) <= j < sorted.len() ==> name_order(
                (#[trigger] sorted[j]).0,
                item.0,
                ignore_case,
            ) == Order::Greater,
    decreases sorted.len(),
{
    if sorted.len() > 0 && name_order(sorted.last().0, item.0, ignore_case) == Order::Greater {
        lemma_insertion_place(sorted.drop_last(), item, ignore_case);
        let at = insertion_place(sorted, item, ignore_case);
        assert forall|j: int| at <= j < sorted.len() implies name_order(
            (#[trigger] sorted[j]).0,
            item.0,
            ignore_case,
        ) == Order::Greater by {
            if j < sorted.len() - 1 {
                assert(sorted.drop_last()[j] == sorted[j]);
            }
        }
        if at > 0 {
            assert(sorted.drop_last()[at - 1] == sorted[at - 1]);
        }
    }
}

/// The order of `left` and `right`, with or without regard to case.
pub fn compare_names(left: &str, right: &str, ignore_case: bool) -> (order: Order)
    ensures
        order == name_order(left@, right@, ignore_case),
{
    if ignore_case {
        natural_compare_ignore_case(left, right)
    } else {
        natural_compare(left, right)
    }
}

/// Arranges `items` by name in natural order. Items whose names compare alike
/// keep the order in which they came.
pub fn sort_by_name<T: View>(items: Vec<(String, T)>, ignore_case: bool) -> (sorted: Vec<
    (String, T),
>)
    ensures
        named(sorted@) == sorted_by_name(named(items@), ignore_case),
        sorted@.len() == items@.len(),
        sorted@.to_multiset() == items@.to_multiset(),
        each_in_order(named(sorted@), ignore_case),
{
    let mut sorted: Vec<(String, T)> = Vec::new();
    let ghost all = items@;
    proof {
        assert(all.take(0) =~= Seq::<(String, T)>::empty());
        assert(named(all.take(0)) =~= Seq::<(Seq<char>, T::V)>::empty());
    }
    for item in it: items
        invariant
            it.seq() == all,
            named(sorted@) == sorted_by_name(named(all.take(it.index() as int)), ignore_case),
            sorted@.len() == it.index(),
            sorted@.to_multiset() == all.take(it.index() as int).to_multiset(),
            each_in_order(named(sorted@), ignore_case),
    {
        let ghost before = sorted@;
        let ghost taken = all.take(it.index() as int);
        let mut at: usize = sorted.len();
        while at > 0 && compare_names(sorted[at - 1].0.as_str(), item.0.as_str(), ignore_case)
            == Order::Greater
            invariant
                at <= sorted@.len(),
                sorted@ == before,
                forall|j: int|
                    at <= j < sorted@.len() ==> name_order(
                        (#[trigger] sorted@[j]).0@,
                        item.0@,
                        ignore_case,
                    ) == Order::Greater,
            decreases at,
        {
            at = at - 1;
        }
        proof {
            let next = all.take(it.index() + 1);
            let key = (item.0@, item.1@);
            assert(next =~= taken.push(item));
            assert(named(next) =~= named(taken).push(key));
            assert(named(next).drop_last() =~= named(taken));
            assert forall|j: int| at <= j < named(before).len() implies name_order(
                (#[trigger] named(before)[j]).0,
                key.0,
                ignore_case,
            ) == Order::Greater by {
                assert(named(before)[j].0 == before[j].0@);
            }
            lemma_insert_by_name(named(before), key, ignore_case, at as int);
            lemma_insert_to_multiset(before, at as int, item);
            assert(named(before.insert(at as int, item)) =~= named(before).insert(at as int, key));
            broadcast use vstd::seq_lib::group_to_multiset_ensures;

            assert(next.to_multiset() =~= taken.to_multiset().insert(item));
            lemma_sorted_by_name(named(next), ignore_case);
        }
        sorted.insert(at, item);
    }
    proof {
        assert(all.take(all.len() as int) =~= all);
    }
    sorted
}

} // verus!
