//! Natural, case-insensitive ordering of names (`natord`), and sorting by it.

use vstd::multiset::Multiset;
use vstd::prelude::*;

verus! {

/// The outcome of comparing two names.
#[derive(Clone, Copy, Debug, PartialEq, Eq, Structural)]
pub enum Order {
    Less,
    Equal,
    Greater,
}

/// How `natord::compare_ignore_case` orders two strings: lower-cased, whitespace skipped,
/// runs of digits compared as numbers.
pub uninterp spec fn natural_order(a: Seq<char>, b: Seq<char>) -> Order;

/// `natord::compare_ignore_case`. Its result is `natural_order` of the two strings; and,
/// as its source compares the left and the right string by the same steps with the roles
/// swapped, swapping the arguments swaps `Less` and `Greater`.
#[verifier::external_body]
pub(crate) fn compare_ignore_case(a: &str, b: &str) -> (r: Order)
    ensures
        r == natural_order(a@, b@),
        (r == Order::Less) == (natural_order(b@, a@) == Order::Greater),
        (r == Order::Greater) == (natural_order(b@, a@) == Order::Less),
{
    match natord::compare_ignore_case(a, b) {
        std::cmp::Ordering::Less => Order::Less,
        std::cmp::Ordering::Equal => Order::Equal,
        std::cmp::Ordering::Greater => Order::Greater,
    }
}

/// The views of a sequence of strings.
pub open spec fn views(s: Seq<String>) -> Seq<Seq<char>> {
    s.map_values(|x: String| x@)
}

/// The name at `i` does not come after the one at `i + 1` in natural order.
pub open spec fn pair_in_order(s: Seq<Seq<char>>, i: int) -> bool {
    natural_order(s[i], s[i + 1]) != Order::Greater
}

/// No name comes after the next one in natural order.
pub open spec fn naturally_sorted(s: Seq<Seq<char>>) -> bool {
    forall|i: int| 0 <= i < s.len() - 1 ==> #[trigger] pair_in_order(s, i)
}

proof fn lemma_insert_keeps_sorted(s: Seq<Seq<char>>, j: int, x: Seq<char>)
    requires
        naturally_sorted(s),
        0 <= j <= s.len(),
        j > 0 ==> natural_order(s[j - 1], x) != Order::Greater,
        j < s.len() ==> natural_order(x, s[j]) != Order::Greater,
    ensures
        naturally_sorted(s.insert(j, x)),
{
    let t = s.insert(j, x);
    s.insert_ensures(j, x);
    assert forall|i: int| 0 <= i < t.len() - 1 implies #[trigger] pair_in_order(t, i) by {
        if i < j - 1 {
            assert(t[i] == s[i] && t[i + 1] == s[i + 1]);
            assert(pair_in_order(s, i));
        } else if i == j - 1 {
            assert(t[i] == s[i] && t[i + 1] == x);
        } else if i == j {
            assert(t[i] == x && t[i + 1] == s[i]);
        } else {
            assert(t[i] == s[i - 1] && t[i + 1] == s[i]);
            assert(pair_in_order(s, i - 1));
        }
    }
}

proof fn lemma_insert_multiset(s: Seq<Seq<char>>, j: int, x: Seq<char>)
    requires
        0 <= j <= s.len(),
    ensures
        s.insert(j, x).to_multiset() == s.to_multiset().insert(x),
{
    vstd::seq_lib::to_multiset_insert(s, j, x);
}

proof fn lemma_move_one(taken: Seq<Seq<char>>, rest: Seq<Seq<char>>, x: Seq<char>, all: Multiset<Seq<char>>)
    requires
        taken.to_multiset().add(rest.push(x).to_multiset()) == all,
    ensures
        taken.push(x).to_multiset().add(rest.to_multiset()) == all,
{
    broadcast use vstd::seq_lib::group_to_multiset_ensures;
    broadcast use vstd::multiset::group_multiset_axioms;
    assert(taken.push(x).to_multiset() =~= taken.to_multiset().insert(x));
    assert(rest.push(x).to_multiset() =~= rest.to_multiset().insert(x));
    assert(taken.push(x).to_multiset().add(rest.to_multiset())
        =~= taken.to_multiset().add(rest.push(x).to_multiset()));
}

/// Sorts names in natural, case-insensitive order. Names that compare equal may come in
/// either order, as with an unstable sort.
pub fn sort_naturally(names: Vec<String>) -> (sorted: Vec<String>)
    ensures
        views(sorted@).to_multiset() == views(names@).to_multiset(),
        naturally_sorted(views(sorted@)),
{
    let mut sorted: Vec<String> = Vec::new();
    let mut rest = names;
    let ghost all = views(rest@);
    let ghost taken: Seq<Seq<char>> = Seq::empty();
    proof {
        broadcast use vstd::seq_lib::group_to_multiset_ensures;
        assert(views(sorted@) =~= Seq::<Seq<char>>::empty());
        assert(taken.to_multiset() =~= Multiset::empty());
        assert(taken.to_multiset().add(views(rest@).to_multiset()) =~= all.to_multiset());
    }
    // Names are taken from the back of `rest` and inserted into `sorted`.
    while rest.len() > 0
        invariant
            views(sorted@).to_multiset() == taken.to_multiset(),
            taken.to_multiset().add(views(rest@).to_multiset()) == all.to_multiset(),
            naturally_sorted(views(sorted@)),
        decreases rest.len(),
    {
        let ghost rest_before = rest@;
        let x = rest.pop().unwrap();
        let n = sorted.len();
        let mut j: usize = 0;
        let mut stop = false;
        while j < n && !stop
            invariant
                n == sorted.len(),
                j <= n,
                stop ==> j < n && natural_order(x@, sorted@[j as int]@) == Order::Less,
                j > 0 ==> natural_order(sorted@[j - 1]@, x@) != Order::Greater,
            decreases n - j + (if stop { 0int } else { 1int }),
        {
            if compare_ignore_case(x.as_str(), sorted[j].as_str()) == Order::Less {
                stop = true;
            } else {
                j = j + 1;
            }
        }
        let ghost old_views = views(sorted@);
        sorted.insert(j, x);
        proof {
            assert(views(sorted@) =~= old_views.insert(j as int, x@));
            assert(views(rest_before) =~= views(rest@).push(x@));
            lemma_insert_keeps_sorted(old_views, j as int, x@);
            lemma_move_one(taken, views(rest@), x@, all.to_multiset());
            lemma_insert_multiset(old_views, j as int, x@);
            vstd::seq_lib::to_multiset_build(taken, x@);
            taken = taken.push(x@);
        }
    }
    proof {
        broadcast use vstd::seq_lib::group_to_multiset_ensures;
        assert(views(rest@).to_multiset() =~= Multiset::empty());
        assert(taken.to_multiset().add(views(rest@).to_multiset()) =~= taken.to_multiset());
    }
    sorted
}

} // verus!
