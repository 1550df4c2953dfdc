//! Following a relation value to the databases that it names.

use crate::error::{modelled, TypeMismatchError};
use crate::models::blocks::{Blocks, BlocksModel, RelationBlockModel};
use crate::models::database::{DatabaseCredentials, DatabaseCredentialsModel};
use vstd::pervasive::VecAdditionalExecFns;
use vstd::prelude::*;
use vstd::string::StringExecFns;

verus! {

/// The credentials for each id of a relation value, in the order of the
/// ids, all with the same token.
pub open spec fn targets(token: Seq<char>, links: Seq<RelationBlockModel>) -> Seq<
    DatabaseCredentialsModel,
> {
    Seq::new(links.len(), |i: int| DatabaseCredentialsModel { id: links[i].id, token })
}

/// What has to be fetched to resolve a relation value: one database for
/// each id that the value holds, each id taken as the id of a database, in
/// the order of the ids. A value of another kind is refused.
///
/// The database in which the rows of a relation column live is named by
/// the column's link, not by the value: `follow_relation` reaches that
/// one.
pub fn resolve(token: &str, value: &Blocks) -> (r: Result<
    Vec<DatabaseCredentials>,
    TypeMismatchError,
>)
    ensures
        match value.deep_view() {
            BlocksModel::Relation(links) => modelled(r) == Ok::<
                Seq<DatabaseCredentialsModel>,
                TypeMismatchError,
            >(targets(token@, links)),
            _ => r is Err,
        },
{
    match value {
        Blocks::Relation(links) => {
            let mut out: Vec<DatabaseCredentials> = Vec::new();
            let mut i: usize = 0;
            while i < links.len()
                invariant
                    i <= links@.len(),
                    out@.len() == i,
                    forall|k: int|
                        0 <= k < i ==> (#[trigger] out@[k]).deep_view() == (
                        DatabaseCredentialsModel { id: links@[k].id@, token: token@ }),
                decreases links@.len() - i,
            {
                out.push(
                    DatabaseCredentials { id: links[i].id.clone(), token: String::from_str(token) },
                );
                i += 1;
            }
            assert(out.deep_view() =~= targets(token@, links.deep_view()));
            Ok(out)
        },
        _ => Err(TypeMismatchError),
    }
}

/// Whether one of the arrivals from the `from`-th on is marked with the
/// place.
pub open spec fn arrived<T>(arrivals: Seq<(usize, T)>, from: int, place: int) -> bool {
    exists|j: int| from <= j < arrivals.len() && (#[trigger] arrivals[j]).0 == place
}

/// Whether the arrivals, each marked with the place it belongs to, fill
/// each of `count` places exactly once.
pub open spec fn fills<T>(arrivals: Seq<(usize, T)>, count: nat) -> bool {
    &&& forall|j: int| 0 <= j < arrivals.len() ==> (#[trigger] arrivals[j]).0 < count
    &&& forall|j: int, k: int|
        0 <= j < k < arrivals.len() ==> (#[trigger] arrivals[j]).0 != (#[trigger] arrivals[k]).0
    &&& forall|p: int| 0 <= p < count ==> #[trigger] arrived(arrivals, 0, p)
}

/// Whether each arrival stands in the results at the place it is marked
/// with.
pub open spec fn placed<T>(arrivals: Seq<(usize, T)>, results: Seq<T>) -> bool {
    forall|j: int|
        0 <= j < arrivals.len() ==> (#[trigger] arrivals[j]).0 < results.len()
            && results[arrivals[j].0 as int] == arrivals[j].1
}

fn empty_slots<T>(count: usize) -> (slots: Vec<Option<T>>)
    ensures
        slots@.len() == count,
        forall|p: int| 0 <= p < count ==> (#[trigger] slots@[p]) is None,
{
    let mut slots: Vec<Option<T>> = Vec::new();
    let mut p: usize = 0;
    while p < count
        invariant
            p <= count,
            slots@.len() == p,
            forall|k: int| 0 <= k < p ==> (#[trigger] slots@[k]) is None,
        decreases count - p,
    {
        slots.push(None);
        p += 1;
    }
    slots
}

/// Puts results that arrived in any order into the order of the requests.
///
/// Each arrival is marked with the place of its request. Where the
/// arrivals fill every place exactly once, the results come back with each
/// one at its place; otherwise nothing comes back.
pub fn gather<T>(count: usize, arrivals: Vec<(usize, T)>) -> (r: Option<Vec<T>>)
    ensures
        r is Some <==> fills(arrivals@, count as nat),
        r matches Some(results) ==> results@.len() == count && placed(arrivals@, results@),
{
    let ghost all = arrivals@;
    let mut pending = arrivals;
    let mut slots: Vec<Option<T>> = empty_slots(count);
    while pending.len() > 0
        invariant
            all == arrivals@,
            pending@.len() <= all.len(),
            pending@ == all.subrange(0, pending@.len() as int),
            slots@.len() == count,
            forall|j: int|
                pending@.len() <= j < all.len() ==> (#[trigger] all[j]).0 < count
                    && slots@[all[j].0 as int] == Some(all[j].1),
            forall|j: int, k: int|
                pending@.len() <= j < k < all.len()
                    ==> (#[trigger] all[j]).0 != (#[trigger] all[k]).0,
            forall|p: int|
                0 <= p < count && (#[trigger] slots@[p]) is Some ==> arrived(
                    all,
                    pending@.len() as int,
                    p,
                ),
        decreases pending@.len(),
    {
        let ghost n = pending@.len() - 1;
        let (place, value) = pending.pop().unwrap();
        assert(all[n] == (place, value));
        if place >= count {
            return None;
        }
        if slots[place].is_some() {
            proof {
                assert(arrived(all, n + 1, place as int));
                let j = choose|j: int| n < j < all.len() && (#[trigger] all[j]).0 == place;
                assert(all[n].0 == all[j].0);
            }
            return None;
        }
        let ghost before = slots@;
        slots.set(place, Some(value));
        assert forall|p: int| 0 <= p < count && (#[trigger] slots@[p]) is Some implies arrived(
            all,
            n,
            p,
        ) by {
            if p == place {
                assert(all[n].0 == p);
            } else {
                assert(before[p] is Some);
                assert(arrived(all, n + 1, p));
                let j = choose|j: int| n + 1 <= j < all.len() && (#[trigger] all[j]).0 == p;
                assert(n <= j < all.len() && all[j].0 == p);
            }
        }
    }
    let mut results: Vec<T> = Vec::new();
    let mut p: usize = 0;
    while p < count
        invariant
            all == arrivals@,
            p <= count,
            results@.len() == p,
            slots@.len() == count,
            forall|j: int|
                0 <= j < all.len() ==> {
                    &&& (#[trigger] all[j]).0 < count
                    &&& all[j].0 < p ==> results@[all[j].0 as int] == all[j].1
                    &&& all[j].0 >= p ==> slots@[all[j].0 as int] == Some(all[j].1)
                },
            forall|j: int, k: int|
                0 <= j < k < all.len() ==> (#[trigger] all[j]).0 != (#[trigger] all[k]).0,
            forall|q: int| 0 <= q < p ==> #[trigger] arrived(all, 0, q),
            forall|q: int|
                p <= q < count && (#[trigger] slots@[q]) is Some ==> arrived(all, 0, q),
        decreases count - p,
    {
        let mut taken: Option<T> = None;
        slots.set_and_swap(p, &mut taken);
        match taken {
            None => {
                assert(forall|j: int| 0 <= j < all.len() ==> (#[trigger] all[j]).0 != p);
                assert(!arrived(all, 0, p as int));
                return None;
            },
            Some(value) => {
                assert(arrived(all, 0, p as int));
                results.push(value);
            },
        }
        p += 1;
    }
    Some(results)
}

/// The order in which results arrive does not show in what is gathered:
/// two runs in which the same marked results arrived, each filling every
/// place once, gather the same.
pub proof fn lemma_arrival_order_does_not_matter<T>(
    first: Seq<(usize, T)>,
    second: Seq<(usize, T)>,
    count: nat,
    gathered_first: Seq<T>,
    gathered_second: Seq<T>,
)
    requires
        fills(first, count),
        fills(second, count),
        forall|j: int| 0 <= j < first.len() ==> second.contains(#[trigger] first[j]),
        gathered_first.len() == count,
        gathered_second.len() == count,
        placed(first, gathered_first),
        placed(second, gathered_second),
    ensures
        gathered_first == gathered_second,
{
    assert forall|p: int| 0 <= p < count implies gathered_first[p] == gathered_second[p] by {
        assert(arrived(first, 0, p));
        let j = choose|j: int| 0 <= j < first.len() && (#[trigger] first[j]).0 == p;
        assert(second.contains(first[j]));
        let k = choose|k: int| 0 <= k < second.len() && second[k] == first[j];
        assert(second[k].0 == p);
    }
    assert(gathered_first =~= gathered_second);
}

} // verus!
