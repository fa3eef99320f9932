//! Snapshots of the game: the requests and answers of the endpoints, and the
//! order books rebuilt from a loaded snapshot.
use vstd::prelude::*;

use crate::models::{Order, OrderSide, OrderStatus};

verus! {

/// Query of a save request.
pub struct SaveQuery {
    pub label: Option<String>,
}

/// Query of a load request; the latest snapshot when no id is given.
pub struct LoadQuery {
    pub snapshot_id: Option<i64>,
}

/// Answer to a save or load request.
pub struct SnapshotResponse {
    pub snapshot_id: i64,
    pub message: String,
}

impl SnapshotResponse {
    /// The answer to a successful save.
    pub fn saved(snapshot_id: i64) -> (r: SnapshotResponse)
        ensures
            r.snapshot_id == snapshot_id,
            r.message@ == "snapshot saved successfully"@,
    {
        SnapshotResponse { snapshot_id, message: "snapshot saved successfully".to_owned() }
    }

    /// The answer to a successful load.
    pub fn loaded(snapshot_id: i64) -> (r: SnapshotResponse)
        ensures
            r.snapshot_id == snapshot_id,
            r.message@ == "snapshot loaded successfully"@,
    {
        SnapshotResponse { snapshot_id, message: "snapshot loaded successfully".to_owned() }
    }
}

/// A resting order of a book: its good, side, price and id.
pub struct BookEntry {
    pub good_name: String,
    pub side: OrderSide,
    pub price: u64,
    pub order_id: u128,
}

/// The order rests in a book: it is open or partly filled and has a price.
pub open spec fn rests_in_book(o: Order) -> bool {
    (o.status == OrderStatus::Open || o.status == OrderStatus::PartiallyFilled) && o.price is Some
}

/// The entry that order `o` puts in its book.
pub open spec fn entry_of(e: BookEntry, o: Order) -> bool {
    &&& e.good_name == o.good_name
    &&& e.side == o.side
    &&& Some(e.price) == o.price
    &&& e.order_id == o.id
}

/// The book entries of the orders that rest in a book, in order: what a
/// loaded snapshot puts back in the books.
pub fn book_entries(orders: &Vec<Order>) -> (r: Vec<BookEntry>)
    ensures
        r@.len() == orders@.filter(|o: Order| rests_in_book(o)).len(),
        forall|k: int| 0 <= k < r@.len() ==> entry_of(#[trigger] r@[k], orders@.filter(|o: Order| rests_in_book(o))[k]),
{
    let ghost pred = |o: Order| rests_in_book(o);
    let n = orders.len();
    let mut out: Vec<BookEntry> = Vec::new();
    let mut k: usize = 0;
    while k < n
        invariant
            n == orders@.len(),
            k <= n,
            pred == (|o: Order| rests_in_book(o)),
            out@.len() == orders@.take(k as int).filter(pred).len(),
            forall|m: int| 0 <= m < out@.len() ==> entry_of(#[trigger] out@[m], orders@.take(k as int).filter(pred)[m]),
        decreases n - k,
    {
        proof {
            assert(orders@.take(k + 1).drop_last() =~= orders@.take(k as int));
            reveal_with_fuel(Seq::<_>::filter, 1);
        }
        let o = &orders[k];
        let resting = o.status == OrderStatus::Open || o.status == OrderStatus::PartiallyFilled;
        if resting {
            if let Some(price) = o.price {
                out.push(BookEntry { good_name: o.good_name.clone(), side: o.side, price, order_id: o.id });
            }
        }
        k = k + 1;
    }
    proof {
        assert(orders@.take(n as int) =~= orders@);
    }
    out
}


/// No two orders share an id, as in a map keyed by id.
pub open spec fn order_ids_distinct(s: Seq<Order>) -> bool {
    forall|a: int, b: int| 0 <= a < b < s.len() ==> s[a].id != s[b].id
}

/// Position of the first order with id `id`.
pub open spec fn is_first_order(list: Seq<Order>, id: u128, k: int) -> bool {
    &&& 0 <= k < list.len()
    &&& list[k].id == id
    &&& forall|m: int| 0 <= m < k ==> #[trigger] list[m].id != id
}

/// Position of the first order with id `id`.
pub fn find_order(list: &Vec<Order>, id: u128) -> (r: Option<usize>)
    ensures
        r is None <==> forall|k: int| 0 <= k < list@.len() ==> #[trigger] list@[k].id != id,
        r matches Some(k) ==> is_first_order(list@, id, k as int),
{
    let n = list.len();
    let mut k: usize = 0;
    while k < n
        invariant
            n == list@.len(),
            k <= n,
            forall|m: int| 0 <= m < k ==> #[trigger] list@[m].id != id,
        decreases n - k,
    {
        if list[k].id == id {
            return Some(k);
        }
        k = k + 1;
    }
    None
}

/// Stores `item` as a map keyed by id does: it replaces the first order with the
/// same id, or else is appended.  Ids that were distinct stay distinct.
pub fn insert_order(list: &mut Vec<Order>, item: Order)
    ensures
        order_ids_distinct(old(list)@) ==> order_ids_distinct(final(list)@),
        forall|k: int| is_first_order(old(list)@, item.id, k) ==> final(list)@ == old(list)@.update(k, item),
        (forall|k: int| 0 <= k < old(list)@.len() ==> #[trigger] old(list)@[k].id != item.id) ==> final(list)@ == old(list)@.push(item),
{
    match find_order(list, item.id) {
        Some(k) => {
            proof {
                assert forall|k2: int| is_first_order(old(list)@, item.id, k2) implies k2 == k by {
                    if k2 < k {
                        assert(old(list)@[k2].id != item.id);
                    } else if k2 > k {
                        assert(old(list)@[k as int].id != item.id);
                    }
                }
            }
            list.set(k, item);
            proof {
                assert forall|a: int, b: int| order_ids_distinct(old(list)@) && 0 <= a < b < list@.len() implies list@[a].id != list@[b].id by {
                    if a != k && b != k {
                        assert(old(list)@[a].id != old(list)@[b].id);
                    }
                }
            }
        },
        None => {
            list.push(item);
            proof {
                assert forall|a: int, b: int| order_ids_distinct(old(list)@) && 0 <= a < b < list@.len() implies list@[a].id != list@[b].id by {
                    if b < old(list)@.len() {
                        assert(old(list)@[a].id != old(list)@[b].id);
                    } else {
                        assert(old(list)@[a].id != item.id);
                    }
                }
            }
        },
    }
}

} // verus!
