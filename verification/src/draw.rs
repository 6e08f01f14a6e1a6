//! Drawing the rocks of a batch: which utility each gets and which secret number.
use vstd::multiset::Multiset;
use vstd::prelude::*;

use crate::msg::{Mint, Trait};
use crate::state::{duplicate_u32s, utilities_view, Utilities};
use crate::token::{is_rock_mint, rock_mint};

verus! {

/// The two random choices behind one mint: the index of the utility it gets, and the
/// position in the list of secret numbers of the number it takes.
#[derive(Clone, Copy, Debug, PartialEq, Eq)]
pub struct Draw {
    pub utility: usize,
    pub position: usize,
}

/// `list` after `Vec::swap_remove(i)`: the last element takes the place of the `i`-th.
pub open spec fn swap_removed(list: Seq<u32>, i: int) -> Seq<u32> {
    list.update(i, list.last()).drop_last()
}

/// Each draw picks an existing utility and a position inside the list as it stands
/// at that point (one shorter after each draw).
pub open spec fn draws_valid(list_len: nat, n_utilities: nat, draws: Seq<Draw>) -> bool {
    &&& draws.len() <= list_len
    &&& forall|i: int|
        0 <= i < draws.len() ==> (#[trigger] draws[i]).utility < n_utilities && draws[i].position
            + i < list_len
}

/// The list of secret numbers left after the draws.
pub open spec fn remaining(list: Seq<u32>, draws: Seq<Draw>) -> Seq<u32>
    decreases draws.len(),
{
    if draws.len() == 0 {
        list
    } else {
        swap_removed(remaining(list, draws.drop_last()), draws.last().position as int)
    }
}

/// The secret numbers that the draws take, in the order they are taken.
pub open spec fn drawn(list: Seq<u32>, draws: Seq<Draw>) -> Seq<u32>
    decreases draws.len(),
{
    if draws.len() == 0 {
        seq![]
    } else {
        drawn(list, draws.drop_last()).push(
            remaining(list, draws.drop_last())[draws.last().position as int],
        )
    }
}

/// How many of the draws pick utility `j`.
pub open spec fn hits(draws: Seq<Draw>, j: int) -> nat
    decreases draws.len(),
{
    if draws.len() == 0 {
        0
    } else {
        hits(draws.drop_last(), j) + if draws.last().utility == j {
            1nat
        } else {
            0nat
        }
    }
}

/// The minted counters after the draws: each one raised by its hits.
pub open spec fn counters_after(counters: Seq<u32>, draws: Seq<Draw>) -> Seq<u32> {
    Seq::new(counters.len(), |j: int| (counters[j] + hits(draws, j)) as u32)
}

/// What a batch of mints did, given the draws behind it: `mints[i]` is the rock of
/// `owners[i]`, showing the traits of the utility that draw `i` picked and keeping the number
/// that draw `i` took; the counters are raised as the draws say.
pub open spec fn batch_by(
    draws: Seq<Draw>,
    owners: Seq<String>,
    utilities: Seq<Seq<Trait>>,
    list: Seq<u32>,
    counters: Seq<u32>,
    mints: Seq<Mint>,
    counters_after_batch: Seq<u32>,
) -> bool {
    &&& draws.len() == owners.len()
    &&& draws_valid(list.len(), utilities.len(), draws)
    &&& counters_after_batch == counters_after(counters, draws)
    &&& mints.len() == owners.len()
    &&& forall|i: int|
        0 <= i < mints.len() ==> is_rock_mint(
            #[trigger] mints[i],
            owners[i],
            utilities[draws[i].utility as int],
            drawn(list, draws)[i],
        )
}

/// No draw hits a utility more often than there are draws.
pub proof fn lemma_hits_bounded(draws: Seq<Draw>, j: int)
    ensures
        hits(draws, j) <= draws.len(),
    decreases draws.len(),
{
    if draws.len() > 0 {
        lemma_hits_bounded(draws.drop_last(), j);
    }
}

/// The draws take one number each.
pub proof fn lemma_drawn_len(list: Seq<u32>, draws: Seq<Draw>)
    ensures
        drawn(list, draws).len() == draws.len(),
    decreases draws.len(),
{
    if draws.len() > 0 {
        lemma_drawn_len(list, draws.drop_last());
    }
}

/// Taking the `i`-th number out of a list by swap-removal keeps every other number.
pub proof fn lemma_swap_removed_multiset(list: Seq<u32>, i: int)
    requires
        0 <= i < list.len(),
    ensures
        swap_removed(list, i).len() == list.len() - 1,
        list.to_multiset() == swap_removed(list, i).to_multiset().insert(list[i]),
{
    broadcast use vstd::seq_lib::group_to_multiset_ensures;
    broadcast use vstd::multiset::group_multiset_axioms;
    broadcast use vstd::multiset::group_multiset_properties;

    let u = list.update(i, list.last());
    let rest = swap_removed(list, i);
    assert(u =~= rest.push(list.last()));
    assert(u.to_multiset() == list.to_multiset().insert(list.last()).remove(list[i]));
    assert(rest.push(list.last()).to_multiset() == rest.to_multiset().insert(list.last()));
    assert(list.to_multiset().count(list[i]) > 0);
    let m = list.to_multiset();
    let r = rest.to_multiset();
    assert forall|x: u32| m.count(x) == r.insert(list[i]).count(x) by {
        assert(r.insert(list.last()).count(x) == m.insert(list.last()).remove(list[i]).count(x));
    }
    assert(m =~= r.insert(list[i]));
}

/// Law: a batch of draws neither loses nor invents a secret number. Every number of the list
/// is either still in the list afterwards or was taken by exactly one draw, and the list
/// shrinks by one for each draw.
pub proof fn lemma_draws_conserve_numbers(list: Seq<u32>, n_utilities: nat, draws: Seq<Draw>)
    requires
        draws_valid(list.len(), n_utilities, draws),
    ensures
        remaining(list, draws).len() + draws.len() == list.len(),
        drawn(list, draws).len() == draws.len(),
        list.to_multiset() == remaining(list, draws).to_multiset().add(
            drawn(list, draws).to_multiset(),
        ),
    decreases draws.len(),
{
    broadcast use vstd::seq_lib::group_to_multiset_ensures;
    broadcast use vstd::multiset::group_multiset_axioms;

    if draws.len() == 0 {
        assert(drawn(list, draws).to_multiset() =~= Multiset::empty());
        assert(list.to_multiset() =~= list.to_multiset().add(Multiset::empty()));
    } else {
        let prefix = draws.drop_last();
        assert(draws_valid(list.len(), n_utilities, prefix)) by {
            assert forall|i: int| 0 <= i < prefix.len() implies (#[trigger] prefix[i]).utility
                < n_utilities && prefix[i].position + i < list.len() by {
                assert(prefix[i] == draws[i]);
            }
        }
        lemma_draws_conserve_numbers(list, n_utilities, prefix);
        let before = remaining(list, prefix);
        let p = draws.last().position as int;
        assert(draws[draws.len() - 1] == draws.last());
        lemma_swap_removed_multiset(before, p);
        let taken = before[p];
        assert(drawn(list, draws) == drawn(list, prefix).push(taken));
        assert(drawn(list, draws).to_multiset() == drawn(list, prefix).to_multiset().insert(taken));
        assert(list.to_multiset() =~= remaining(list, draws).to_multiset().add(
            drawn(list, draws).to_multiset(),
        ));
    }
}

/// Law: drawing from a list without repeated numbers never takes a number twice, and never
/// takes a number that stays in the list.
pub proof fn lemma_draws_distinct(list: Seq<u32>, n_utilities: nat, draws: Seq<Draw>)
    requires
        draws_valid(list.len(), n_utilities, draws),
        list.no_duplicates(),
    ensures
        drawn(list, draws).no_duplicates(),
        remaining(list, draws).no_duplicates(),
        forall|x: u32| #[trigger] drawn(list, draws).contains(x) ==> list.contains(x),
        forall|x: u32|
            drawn(list, draws).contains(x) ==> !(#[trigger] remaining(list, draws).contains(x)),
{
    broadcast use vstd::seq_lib::group_to_multiset_ensures;
    broadcast use vstd::multiset::group_multiset_axioms;

    lemma_draws_conserve_numbers(list, n_utilities, draws);
    list.lemma_multiset_has_no_duplicates();
    let d = drawn(list, draws);
    let r = remaining(list, draws);
    assert forall|x: u32| d.to_multiset().contains(x) implies d.to_multiset().count(x) == 1 by {
        assert(list.to_multiset().count(x) == r.to_multiset().count(x) + d.to_multiset().count(x));
    }
    assert forall|x: u32| r.to_multiset().contains(x) implies r.to_multiset().count(x) == 1 by {
        assert(list.to_multiset().count(x) == r.to_multiset().count(x) + d.to_multiset().count(x));
    }
    d.lemma_multiset_has_no_duplicates_conv();
    r.lemma_multiset_has_no_duplicates_conv();
    assert forall|x: u32| #[trigger] d.contains(x) implies list.contains(x) by {
        assert(list.to_multiset().count(x) == r.to_multiset().count(x) + d.to_multiset().count(x));
    }
    assert forall|x: u32| d.contains(x) implies !(#[trigger] r.contains(x)) by {
        assert(list.to_multiset().count(x) == r.to_multiset().count(x) + d.to_multiset().count(x));
    }
}

/// The sum of a list of counters.
pub open spec fn total(counters: Seq<u32>) -> int
    decreases counters.len(),
{
    if counters.len() == 0 {
        0
    } else {
        total(counters.drop_last()) + counters.last()
    }
}

/// Raising one counter by one raises the sum by one.
pub proof fn lemma_total_update(counters: Seq<u32>, j: int, value: u32)
    requires
        0 <= j < counters.len(),
    ensures
        total(counters.update(j, value)) == total(counters) - counters[j] + value,
    decreases counters.len(),
{
    let u = counters.update(j, value);
    assert(u.drop_last() =~= if j == counters.len() - 1 {
        counters.drop_last()
    } else {
        counters.drop_last().update(j, value)
    });
    if j < counters.len() - 1 {
        lemma_total_update(counters.drop_last(), j, value);
    }
}

/// Law: every draw counts one mint for exactly one utility, so the counters' sum grows by the
/// number of draws.
pub proof fn lemma_draws_count_mints(counters: Seq<u32>, draws: Seq<Draw>)
    requires
        counters_fit(counters, draws),
    ensures
        total(counters_after(counters, draws)) == total(counters) + draws.len(),
    decreases draws.len(),
{
    if draws.len() == 0 {
        assert(counters_after(counters, draws) =~= counters);
    } else {
        let prefix = draws.drop_last();
        assert(counters_fit(counters, prefix)) by {
            assert forall|i: int| 0 <= i < prefix.len() implies (#[trigger] prefix[i]).utility
                < counters.len() && counters[prefix[i].utility as int] + hits(
                prefix,
                prefix[i].utility as int,
            ) <= u32::MAX by {
                assert(prefix[i] == draws[i]);
            }
        }
        lemma_draws_count_mints(counters, prefix);
        let u = draws.last().utility as int;
        assert(draws[draws.len() - 1] == draws.last());
        let before = counters_after(counters, prefix);
        assert(counters_after(counters, draws) =~= before.update(u, (before[u] + 1) as u32)) by {
            assert forall|j: int| 0 <= j < counters.len() implies hits(draws, j) == hits(prefix, j)
                + if draws.last().utility == j { 1nat } else { 0nat } by {}
        }
        lemma_total_update(before, u, (before[u] + 1) as u32);
    }
}

/// One mint with given draws: utility `draw.utility` counts one more mint, the secret number
/// at `draw.position` leaves the list (the last one takes its place), and the rock of `owner`
/// shows that utility's traits and keeps that number.
pub fn apply_draw(
    owner: &String,
    draw: Draw,
    secret_numbers: &mut Vec<u32>,
    minted: &mut Vec<u32>,
    utilities: &Vec<Utilities>,
) -> (mint: Mint)
    requires
        draw.utility < utilities.len(),
        draw.position < old(secret_numbers).len(),
        draw.utility < old(minted).len(),
        old(minted)[draw.utility as int] < u32::MAX,
    ensures
        final(secret_numbers)@ == swap_removed(old(secret_numbers)@, draw.position as int),
        final(minted)@ == old(minted)@.update(
            draw.utility as int,
            (old(minted)[draw.utility as int] + 1) as u32,
        ),
        is_rock_mint(
            mint,
            *owner,
            utilities@[draw.utility as int]@,
            old(secret_numbers)@[draw.position as int],
        ),
{
    let u = draw.utility;
    let count = minted[u] + 1;
    minted.set(u, count);
    let number = secret_numbers.swap_remove(draw.position);
    rock_mint(owner, &utilities[u].traits, number)
}

/// The bounds of the values drawn for a batch of `n` mints, from a list of `list_len` secret
/// numbers and `n_utilities` utilities: for each mint, a utility, then a position in the list
/// as it stands at that point.
pub open spec fn batch_uppers(n_utilities: nat, list_len: nat, n: nat) -> Seq<usize> {
    Seq::new(
        2 * n,
        |i: int|
            if i % 2 == 0 {
                n_utilities as usize
            } else {
                (list_len - i / 2) as usize
            },
    )
}

/// Drawn values read two by two as draws: a utility, then a position.
pub open spec fn paired(values: Seq<usize>) -> Seq<Draw> {
    Seq::new(
        values.len() / 2,
        |i: int| Draw { utility: values[2 * i], position: values[2 * i + 1] },
    )
}

/// One value per bound, each below its bound.
pub open spec fn draws_within(values: Seq<usize>, uppers: Seq<usize>) -> bool {
    &&& values.len() == uppers.len()
    &&& forall|i: int| 0 <= i < values.len() ==> #[trigger] values[i] < uppers[i]
}

/// No counter of a drawn utility overflows: each drawn utility has a counter, and the counter
/// plus the draws that pick it fits in a `u32`.
pub open spec fn counters_fit(counters: Seq<u32>, draws: Seq<Draw>) -> bool {
    forall|i: int|
        0 <= i < draws.len() ==> (#[trigger] draws[i]).utility < counters.len() && counters[draws[
            i].utility as int] + hits(draws, draws[i].utility as int) <= u32::MAX
}

/// A utility that the draws hit is picked by one of them.
pub proof fn lemma_hit_drawn(draws: Seq<Draw>, j: int)
    requires
        hits(draws, j) > 0,
    ensures
        exists|i: int| 0 <= i < draws.len() && (#[trigger] draws[i]).utility == j,
    decreases draws.len(),
{
    let last = draws.len() - 1;
    if draws.last().utility == j {
        assert(draws[last].utility == j);
    } else {
        lemma_hit_drawn(draws.drop_last(), j);
        let i = choose|i: int|
            0 <= i < draws.drop_last().len() && (#[trigger] draws.drop_last()[i]).utility == j;
        assert(draws[i] == draws.drop_last()[i]);
    }
}

/// Law: where the counters of the drawn utilities fit, the draws only raise counters: each
/// ends at least where it was, and their number stays.
pub proof fn lemma_counters_grow(counters: Seq<u32>, draws: Seq<Draw>)
    requires
        counters_fit(counters, draws),
    ensures
        counters_after(counters, draws).len() == counters.len(),
        forall|j: int|
            0 <= j < counters.len() ==> counters[j] <= #[trigger] counters_after(counters, draws)[j],
{
    assert forall|j: int| 0 <= j < counters.len() implies counters[j] <= #[trigger] counters_after(
        counters,
        draws,
    )[j] by {
        if hits(draws, j) > 0 {
            lemma_hit_drawn(draws, j);
            let i = choose|i: int| 0 <= i < draws.len() && (#[trigger] draws[i]).utility == j;
            assert(counters[j] + hits(draws, j) <= u32::MAX);
        }
    }
}

/// Values drawn within the bounds of a batch make valid draws, one per mint.
pub proof fn lemma_paired_valid(values: Seq<usize>, n_utilities: nat, list_len: nat, n: nat)
    requires
        draws_within(values, batch_uppers(n_utilities, list_len, n)),
        n <= list_len,
    ensures
        paired(values).len() == n,
        draws_valid(list_len, n_utilities, paired(values)),
{
    let uppers = batch_uppers(n_utilities, list_len, n);
    let draws = paired(values);
    assert forall|i: int| 0 <= i < draws.len() implies (#[trigger] draws[i]).utility
        < n_utilities && draws[i].position + i < list_len by {
        assert((2 * i) % 2 == 0 && (2 * i + 1) % 2 == 1 && (2 * i + 1) / 2 == i);
        assert(values[2 * i] < uppers[2 * i]);
        assert(values[2 * i + 1] < uppers[2 * i + 1]);
    }
}

/// The draws of a prefix hit a utility no more often than all the draws.
pub proof fn lemma_hits_prefix(draws: Seq<Draw>, n: int, j: int)
    requires
        0 <= n <= draws.len(),
    ensures
        hits(draws.take(n), j) <= hits(draws, j),
    decreases draws.len(),
{
    if n < draws.len() {
        assert(draws.drop_last().take(n) =~= draws.take(n));
        lemma_hits_prefix(draws.drop_last(), n, j);
    } else {
        assert(draws.take(n) =~= draws);
    }
}

/// Appends the bounds of a batch's draws (see `batch_uppers`).
pub(crate) fn push_batch_uppers(uppers: &mut Vec<usize>, n_utilities: usize, list_len: usize, n: usize)
    requires
        n <= list_len,
    ensures
        final(uppers)@ == old(uppers)@ + batch_uppers(n_utilities as nat, list_len as nat, n as nat),
{
    let ghost start = uppers@;
    let mut i: usize = 0;
    assert(uppers@ =~= start + batch_uppers(n_utilities as nat, list_len as nat, 0));
    while i < n
        invariant
            i <= n <= list_len,
            uppers@ == start + batch_uppers(n_utilities as nat, list_len as nat, i as nat),
        decreases n - i,
    {
        uppers.push(n_utilities);
        uppers.push(list_len - i);
        i = i + 1;
        proof {
            let k = 2 * (i - 1);
            assert(k % 2 == 0 && (k + 1) % 2 == 1 && (k + 1) / 2 == i - 1);
        }
        assert(uppers@ =~= start + batch_uppers(n_utilities as nat, list_len as nat, i as nat));
    }
}

/// `values[from..]` read two by two as draws (see `paired`).
pub fn pair_draws(values: &Vec<usize>, from: usize) -> (draws: Vec<Draw>)
    requires
        from <= values.len(),
    ensures
        draws@ == paired(values@.skip(from as int)),
{
    let ghost rest = values@.skip(from as int);
    let n = (values.len() - from) / 2;
    let mut draws: Vec<Draw> = Vec::new();
    let mut i: usize = 0;
    while i < n
        invariant
            i <= n,
            n == (values.len() - from) / 2,
            from <= values.len(),
            rest == values@.skip(from as int),
            draws@ == paired(rest).take(i as int),
        decreases n - i,
    {
        let d = Draw { utility: values[from + 2 * i], position: values[from + 2 * i + 1] };
        draws.push(d);
        i = i + 1;
        assert(draws@ =~= paired(rest).take(i as int));
    }
    assert(draws@ =~= paired(rest));
    draws
}

/// Whether the counters of the drawn utilities all fit (see `counters_fit`).
pub fn fits_counters(counters: &Vec<u32>, draws: &Vec<Draw>) -> (ok: bool)
    ensures
        ok == counters_fit(counters@, draws@),
{
    let mut raised = duplicate_u32s(counters);
    let mut i: usize = 0;
    while i < draws.len()
        invariant
            i <= draws.len(),
            raised@.len() == counters@.len(),
            forall|j: int|
                0 <= j < counters@.len() ==> #[trigger] raised@[j] == counters@[j] + hits(
                    draws@.take(i as int),
                    j,
                ),
            forall|k: int|
                0 <= k < i ==> (#[trigger] draws@[k]).utility < counters@.len() && counters@[draws@[
                    k].utility as int] + hits(draws@.take(i as int), draws@[k].utility as int)
                    <= u32::MAX,
        decreases draws.len() - i,
    {
        let u = draws[i].utility;
        proof {
            assert(draws@.take(i + 1).drop_last() =~= draws@.take(i as int));
        }
        if u >= raised.len() {
            assert(!counters_fit(counters@, draws@)) by {
                assert(draws@[i as int].utility >= counters@.len());
            }
            return false;
        }
        if raised[u] == u32::MAX {
            assert(!counters_fit(counters@, draws@)) by {
                lemma_hits_prefix(draws@, i + 1, u as int);
                assert(hits(draws@.take(i + 1), u as int) == hits(draws@.take(i as int), u as int)
                    + 1);
            }
            return false;
        }
        let raised_u = raised[u] + 1;
        raised.set(u, raised_u);
        i = i + 1;
    }
    assert(draws@.take(draws@.len() as int) =~= draws@);
    true
}

/// Mints one rock for each owner, in order, as the draws say: draw `i` picks the utility and
/// the secret number of the rock of `owners[i]`.
pub(crate) fn mint_batch(
    owners: &Vec<String>,
    draws: &Vec<Draw>,
    secret_numbers: &mut Vec<u32>,
    minted: &mut Vec<u32>,
    utilities: &Vec<Utilities>,
) -> (mints: Vec<Mint>)
    requires
        draws@.len() == owners@.len(),
        draws_valid(old(secret_numbers)@.len(), utilities@.len(), draws@),
        counters_fit(old(minted)@, draws@),
    ensures
        batch_by(
            draws@,
            owners@,
            utilities_view(utilities@),
            old(secret_numbers)@,
            old(minted)@,
            mints@,
            final(minted)@,
        ),
        final(secret_numbers)@ == remaining(old(secret_numbers)@, draws@),
{
    let ghost list = secret_numbers@;
    let ghost counters = minted@;
    let ghost all = draws@;
    let mut mints: Vec<Mint> = Vec::new();
    let mut i: usize = 0;
    assert(counters_after(counters, all.take(0)) =~= counters);
    assert(remaining(list, all.take(0)) == list) by {
        assert(all.take(0) =~= Seq::<Draw>::empty());
    }
    while i < owners.len()
        invariant
            i <= owners.len(),
            all == draws@,
            all.len() == owners@.len(),
            draws_valid(list.len(), utilities@.len(), all),
            counters_fit(counters, all),
            mints@.len() == i,
            secret_numbers@ == remaining(list, all.take(i as int)),
            secret_numbers@.len() + i == list.len(),
            minted@ == counters_after(counters, all.take(i as int)),
            forall|k: int|
                0 <= k < i ==> is_rock_mint(
                    #[trigger] mints@[k],
                    owners@[k],
                    utilities_view(utilities@)[all[k].utility as int],
                    drawn(list, all.take(i as int))[k],
                ),
        decreases owners.len() - i,
    {
        let draw = draws[i];
        let ghost before = all.take(i as int);
        let ghost after = all.take(i + 1);
        proof {
            assert(after.drop_last() =~= before);
            assert(after.last() == draw);
            assert(draws_valid(list.len(), utilities@.len(), after)) by {
                assert forall|k: int| 0 <= k < after.len() implies (#[trigger] after[k]).utility
                    < utilities@.len() && after[k].position + k < list.len() by {
                    assert(after[k] == all[k]);
                }
            }
            lemma_hits_prefix(all, i + 1, draw.utility as int);
            lemma_hits_bounded(before, draw.utility as int);
            assert(hits(after, draw.utility as int) == hits(before, draw.utility as int) + 1);
            assert(all[i as int] == draw);
        }
        let mint = apply_draw(&owners[i], draw, secret_numbers, minted, utilities);
        mints.push(mint);
        proof {
            lemma_drawn_len(list, before);
            assert(drawn(list, after) == drawn(list, before).push(
                remaining(list, before)[draw.position as int],
            ));
            assert forall|k: int| 0 <= k < i + 1 implies is_rock_mint(
                #[trigger] mints@[k],
                owners@[k],
                utilities_view(utilities@)[all[k].utility as int],
                drawn(list, after)[k],
            ) by {
                if k < i {
                    assert(drawn(list, after)[k] == drawn(list, before)[k]);
                }
            }
            assert(minted@ =~= counters_after(counters, after)) by {
                assert forall|j: int| 0 <= j < counters.len() implies hits(after, j) == hits(
                    before,
                    j,
                ) + if draw.utility == j {
                    1nat
                } else {
                    0nat
                } by {}
            }
        }
        i = i + 1;
    }
    assert(all.take(owners.len() as int) =~= all);
    mints
}

} // verus!
