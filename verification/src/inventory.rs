//! Quantities of goods keyed by good name.
//!
//! An inventory is an association list with distinct good names; its
//! mathematical model is a finite map from good name to quantity.  A good that
//! is absent counts as quantity zero wherever a quantity is read.
use vstd::prelude::*;

verus! {

/// Map model of an association list (a later entry overrides an earlier one).
pub open spec fn map_of(s: Seq<(String, u64)>) -> Map<Seq<char>, u64>
    decreases s.len(),
{
    if s.len() == 0 {
        Map::empty()
    } else {
        map_of(s.drop_last()).insert(s.last().0@, s.last().1)
    }
}

/// No good name occurs twice.
pub open spec fn keys_distinct(s: Seq<(String, u64)>) -> bool {
    forall|i: int, j: int| 0 <= i < j < s.len() ==> s[i].0@ != s[j].0@
}

/// Quantity of `good` in a map model, zero when absent.
pub open spec fn qty_of(m: Map<Seq<char>, u64>, good: Seq<char>) -> u64 {
    if m.contains_key(good) {
        m[good]
    } else {
        0
    }
}

/// Every good of `required` is present in `stock` in at least the required amount.
pub open spec fn covers(stock: Map<Seq<char>, u64>, required: Map<Seq<char>, u64>) -> bool {
    forall|g: Seq<char>| #[trigger] required.contains_key(g) ==> required[g] <= qty_of(stock, g)
}

/// `stock` after taking every amount of `required` out of it; a good whose
/// quantity reaches zero through a deduction is removed.
pub open spec fn after_deduction(stock: Map<Seq<char>, u64>, required: Map<Seq<char>, u64>) -> Map<
    Seq<char>,
    u64,
> {
    Map::new(
        |g: Seq<char>|
            if required.contains_key(g) {
                qty_of(stock, g) - required[g] > 0
            } else {
                stock.contains_key(g)
            },
        |g: Seq<char>|
            if required.contains_key(g) {
                (qty_of(stock, g) - required[g]) as u64
            } else {
                stock[g]
            },
    )
}

/// Adding every amount of `extra` to `stock` stays within `u64`.
pub open spec fn addition_fits(stock: Map<Seq<char>, u64>, extra: Map<Seq<char>, u64>) -> bool {
    forall|g: Seq<char>| #[trigger] extra.contains_key(g) ==> qty_of(stock, g) + extra[g] <= u64::MAX
}

/// `stock` after adding every amount of `extra` to it (a good of `extra` is
/// present afterwards, even with quantity zero).
pub open spec fn after_addition(stock: Map<Seq<char>, u64>, extra: Map<Seq<char>, u64>) -> Map<
    Seq<char>,
    u64,
> {
    Map::new(
        |g: Seq<char>| stock.contains_key(g) || extra.contains_key(g),
        |g: Seq<char>|
            if extra.contains_key(g) {
                (qty_of(stock, g) + extra[g]) as u64
            } else {
                stock[g]
            },
    )
}

/// Sum of the quantities of an association list.
pub open spec fn seq_total(s: Seq<(String, u64)>) -> nat
    decreases s.len(),
{
    if s.len() == 0 {
        0
    } else {
        seq_total(s.drop_last()) + s.last().1 as nat
    }
}

pub proof fn lemma_map_of_domain(s: Seq<(String, u64)>, g: Seq<char>)
    ensures
        map_of(s).contains_key(g) <==> exists|i: int| 0 <= i < s.len() && #[trigger] s[i].0@ == g,
    decreases s.len(),
{
    if s.len() > 0 {
        lemma_map_of_domain(s.drop_last(), g);
        if map_of(s).contains_key(g) && s.last().0@ != g {
            let i = choose|i: int| 0 <= i < s.drop_last().len() && #[trigger] s.drop_last()[i].0@ == g;
            assert(s[i].0@ == g);
        }
        if exists|i: int| 0 <= i < s.len() && #[trigger] s[i].0@ == g {
            let i = choose|i: int| 0 <= i < s.len() && #[trigger] s[i].0@ == g;
            if i < s.len() - 1 {
                assert(s.drop_last()[i].0@ == g);
            }
        }
    }
}

pub proof fn lemma_map_of_index(s: Seq<(String, u64)>, i: int)
    requires
        keys_distinct(s),
        0 <= i < s.len(),
    ensures
        map_of(s).contains_key(s[i].0@),
        map_of(s)[s[i].0@] == s[i].1,
    decreases s.len(),
{
    if i < s.len() - 1 {
        lemma_map_of_index(s.drop_last(), i);
    }
}

/// Good names and their quantities.
pub struct Inventory {
    entries: Vec<(String, u64)>,
}

impl View for Inventory {
    type V = Map<Seq<char>, u64>;

    closed spec fn view(&self) -> Map<Seq<char>, u64> {
        map_of(self.entries@)
    }
}

impl Inventory {
    #[verifier::type_invariant]
    spec fn inv(&self) -> bool {
        keys_distinct(self.entries@)
    }

    /// Sum of all quantities.
    pub closed spec fn total_spec(&self) -> nat {
        seq_total(self.entries@)
    }

    /// An empty inventory.
    pub fn new() -> (r: Inventory)
        ensures
            r@ == Map::<Seq<char>, u64>::empty(),
    {
        let r = Inventory { entries: Vec::new() };
        assert(r@ =~= Map::<Seq<char>, u64>::empty());
        r
    }

    fn position(&self, good: &String) -> (r: Option<usize>)
        ensures
            match r {
                Some(i) => i < self.entries@.len() && self.entries@[i as int].0@ == good@,
                None => forall|i: int| 0 <= i < self.entries@.len() ==> #[trigger] self.entries@[i].0@ != good@,
            },
    {
        let n = self.entries.len();
        let mut i: usize = 0;
        while i < n
            invariant
                n == self.entries@.len(),
                i <= n,
                forall|k: int| 0 <= k < i ==> #[trigger] self.entries@[k].0@ != good@,
            decreases n - i,
        {
            if self.entries[i].0 == *good {
                return Some(i);
            }
            i = i + 1;
        }
        None
    }

    /// Quantity held of `good`, zero when the good is absent.
    pub fn get(&self, good: &String) -> (r: u64)
        ensures
            r == qty_of(self@, good@),
    {
        proof {
            use_type_invariant(self);
        }
        match self.position(good) {
            Some(i) => {
                proof {
                    lemma_map_of_index(self.entries@, i as int);
                }
                self.entries[i].1
            },
            None => {
                proof {
                    lemma_map_of_domain(self.entries@, good@);
                }
                0
            },
        }
    }

    /// Whether `good` has an entry (possibly of quantity zero).
    pub fn contains(&self, good: &String) -> (r: bool)
        ensures
            r == self@.contains_key(good@),
    {
        proof {
            use_type_invariant(self);
            lemma_map_of_domain(self.entries@, good@);
        }
        match self.position(good) {
            Some(i) => {
                proof {
                    lemma_map_of_index(self.entries@, i as int);
                }
                true
            },
            None => false,
        }
    }

    /// Number of goods with an entry.
    pub fn len(&self) -> (r: usize)
        ensures
            r == self@.dom().len(),
    {
        proof {
            use_type_invariant(self);
            lemma_map_of_len(self.entries@);
        }
        self.entries.len()
    }

    /// Sets the quantity of `good`, as a map insertion does.
    pub fn set(&mut self, good: String, qty: u64)
        ensures
            final(self)@ == old(self)@.insert(good@, qty),
    {
        proof {
            use_type_invariant(&*self);
        }
        let mut e: Vec<(String, u64)> = Vec::new();
        std::mem::swap(&mut e, &mut self.entries);
        let ghost old_e = e@;
        match self.position_in(&e, &good) {
            Some(i) => {
                proof {
                    lemma_map_update(old_e, i as int, qty);
                }
                e[i] = (good, qty);
            },
            None => {
                proof {
                    lemma_map_of_domain(old_e, good@);
                }
                e.push((good, qty));
                proof {
                    assert(e@.drop_last() =~= old_e);
                }
            },
        }
        assert(map_of(e@) =~= map_of(old_e).insert(good@, qty));
        self.entries = e;
    }

    fn position_in(&self, e: &Vec<(String, u64)>, good: &String) -> (r: Option<usize>)
        ensures
            match r {
                Some(i) => i < e@.len() && e@[i as int].0@ == good@,
                None => forall|i: int| 0 <= i < e@.len() ==> #[trigger] e@[i].0@ != good@,
            },
    {
        let n = e.len();
        let mut i: usize = 0;
        while i < n
            invariant
                n == e@.len(),
                i <= n,
                forall|k: int| 0 <= k < i ==> #[trigger] e@[k].0@ != good@,
            decreases n - i,
        {
            if e[i].0 == *good {
                return Some(i);
            }
            i = i + 1;
        }
        None
    }

    /// Adds `qty` of `good` (the good gets an entry even when `qty` is zero).
    pub fn add(&mut self, good: &String, qty: u64)
        requires
            qty_of(old(self)@, good@) + qty <= u64::MAX,
        ensures
            final(self)@ == old(self)@.insert(good@, (qty_of(old(self)@, good@) + qty) as u64),
    {
        let cur = self.get(good);
        self.set(good.clone(), cur + qty);
    }

    /// Takes `qty` of `good` out; the entry is removed when it reaches zero.
    pub fn deduct(&mut self, good: &String, qty: u64)
        requires
            qty <= qty_of(old(self)@, good@),
        ensures
            qty_of(old(self)@, good@) - qty == 0 ==> final(self)@ == old(self)@.remove(good@),
            qty_of(old(self)@, good@) - qty > 0 ==> final(self)@ == old(self)@.insert(
                good@,
                (qty_of(old(self)@, good@) - qty) as u64,
            ),
    {
        let cur = self.get(good);
        let left = cur - qty;
        if left == 0 {
            self.remove(good);
        } else {
            self.set(good.clone(), left);
        }
    }

    /// Removes the entry of `good`, if any.
    pub fn remove(&mut self, good: &String)
        ensures
            final(self)@ == old(self)@.remove(good@),
    {
        proof {
            use_type_invariant(&*self);
        }
        let mut e: Vec<(String, u64)> = Vec::new();
        std::mem::swap(&mut e, &mut self.entries);
        let ghost old_e = e@;
        match self.position_in(&e, good) {
            Some(i) => {
                let _ = e.remove(i);
                proof {
                    lemma_map_remove_at(old_e, i as int);
                }
            },
            None => {
                proof {
                    lemma_map_of_domain(old_e, good@);
                }
                assert(map_of(old_e) =~= map_of(old_e).remove(good@));
            },
        }
        self.entries = e;
    }

    /// A good of `required` that this inventory does not hold in the required
    /// amount, with the required and the available quantity; `None` when every
    /// requirement is covered.
    pub fn first_shortfall(&self, required: &Inventory) -> (r: Option<(String, u64, u64)>)
        ensures
            r is None <==> covers(self@, required@),
            r matches Some((g, need, have)) ==> {
                &&& required@.contains_key(g@)
                &&& need == required@[g@]
                &&& have == qty_of(self@, g@)
                &&& have < need
            },
    {
        proof {
            use_type_invariant(required);
        }
        let n = required.entries.len();
        let mut i: usize = 0;
        while i < n
            invariant
                n == required.entries@.len(),
                i <= n,
                keys_distinct(required.entries@),
                forall|k: int|
                    0 <= k < i ==> #[trigger] required.entries@[k].1 <= qty_of(
                        self@,
                        required.entries@[k].0@,
                    ),
            decreases n - i,
        {
            let have = self.get(&required.entries[i].0);
            if have < required.entries[i].1 {
                proof {
                    lemma_map_of_index(required.entries@, i as int);
                }
                return Some((required.entries[i].0.clone(), required.entries[i].1, have));
            }
            i = i + 1;
        }
        proof {
            assert forall|g: Seq<char>| #[trigger] required@.contains_key(g) implies required@[g]
                <= qty_of(self@, g) by {
                lemma_map_of_domain(required.entries@, g);
                let k = choose|k: int| 0 <= k < required.entries@.len() && #[trigger] required.entries@[k].0@ == g;
                lemma_map_of_index(required.entries@, k);
            }
        }
        None
    }

    /// Takes every amount of `required` out of this inventory.
    pub fn deduct_all(&mut self, required: &Inventory)
        requires
            covers(old(self)@, required@),
        ensures
            final(self)@ == after_deduction(old(self)@, required@),
    {
        proof {
            use_type_invariant(required);
        }
        let ghost start = self@;
        let n = required.entries.len();
        let mut i: usize = 0;
        while i < n
            invariant
                n == required.entries@.len(),
                i <= n,
                keys_distinct(required.entries@),
                covers(start, required@),
                required@ == map_of(required.entries@),
                self@ == after_deduction(start, map_of(required.entries@.take(i as int))),
            decreases n - i,
        {
            let ghost done = map_of(required.entries@.take(i as int));
            let ghost g = required.entries@[i as int].0@;
            proof {
                lemma_map_of_index(required.entries@, i as int);
                lemma_take_not_contains(required.entries@, i as int);
                assert(!done.contains_key(g));
                assert(required.entries@.take(i + 1).drop_last() =~= required.entries@.take(i as int));
            }
            self.deduct(&required.entries[i].0, required.entries[i].1);
            i = i + 1;
            proof {
                assert(self@ =~= after_deduction(start, map_of(required.entries@.take(i as int))));
            }
        }
        proof {
            assert(required.entries@.take(n as int) =~= required.entries@);
        }
    }

    /// Adds every amount of `extra` to this inventory.
    pub fn add_all(&mut self, extra: &Inventory)
        requires
            addition_fits(old(self)@, extra@),
        ensures
            final(self)@ == after_addition(old(self)@, extra@),
    {
        proof {
            use_type_invariant(extra);
        }
        let ghost start = self@;
        let n = extra.entries.len();
        let mut i: usize = 0;
        while i < n
            invariant
                n == extra.entries@.len(),
                i <= n,
                keys_distinct(extra.entries@),
                addition_fits(start, extra@),
                extra@ == map_of(extra.entries@),
                self@ == after_addition(start, map_of(extra.entries@.take(i as int))),
            decreases n - i,
        {
            let ghost g = extra.entries@[i as int].0@;
            proof {
                lemma_map_of_index(extra.entries@, i as int);
                lemma_take_not_contains(extra.entries@, i as int);
                assert(extra.entries@.take(i + 1).drop_last() =~= extra.entries@.take(i as int));
            }
            self.add(&extra.entries[i].0, extra.entries[i].1);
            i = i + 1;
            proof {
                assert(self@ =~= after_addition(start, map_of(extra.entries@.take(i as int))));
            }
        }
        proof {
            assert(extra.entries@.take(n as int) =~= extra.entries@);
        }
    }

    /// Whether adding every amount of `extra` stays within `u64`.
    pub fn addition_fits(&self, extra: &Inventory) -> (r: bool)
        ensures
            r == addition_fits(self@, extra@),
    {
        proof {
            use_type_invariant(extra);
        }
        let n = extra.entries.len();
        let mut i: usize = 0;
        while i < n
            invariant
                n == extra.entries@.len(),
                i <= n,
                keys_distinct(extra.entries@),
                forall|k: int|
                    0 <= k < i ==> qty_of(self@, #[trigger] extra.entries@[k].0@) + extra.entries@[k].1
                        <= u64::MAX,
            decreases n - i,
        {
            let have = self.get(&extra.entries[i].0);
            if have > u64::MAX - extra.entries[i].1 {
                proof {
                    lemma_map_of_index(extra.entries@, i as int);
                }
                return false;
            }
            i = i + 1;
        }
        proof {
            assert forall|g: Seq<char>| #[trigger] extra@.contains_key(g) implies qty_of(self@, g) + extra@[g]
                <= u64::MAX by {
                lemma_map_of_domain(extra.entries@, g);
                let k = choose|k: int| 0 <= k < extra.entries@.len() && #[trigger] extra.entries@[k].0@ == g;
                lemma_map_of_index(extra.entries@, k);
            }
        }
        true
    }

    /// Sum of all quantities (a `u128` cannot overflow here).
    pub fn total(&self) -> (r: u128)
        ensures
            r == self.total_spec(),
    {
        let n = self.entries.len();
        let mut sum: u128 = 0;
        let mut i: usize = 0;
        while i < n
            invariant
                n == self.entries@.len(),
                i <= n,
                sum == seq_total(self.entries@.take(i as int)),
                sum <= i * 0xffff_ffff_ffff_ffff,
            decreases n - i,
        {
            proof {
                assert(self.entries@.take(i + 1).drop_last() =~= self.entries@.take(i as int));
                assert(i * 0xffff_ffff_ffff_ffff + 0xffff_ffff_ffff_ffff == (i + 1) * 0xffff_ffff_ffff_ffff)
                    by (nonlinear_arith);
                assert((i + 1) * 0xffff_ffff_ffff_ffff <= 0xffff_ffff_ffff_ffff * 0xffff_ffff_ffff_ffff)
                    by (nonlinear_arith)
                    requires
                        i + 1 <= 0xffff_ffff_ffff_ffff,
                ;
            }
            sum = sum + self.entries[i].1 as u128;
            i = i + 1;
        }
        proof {
            assert(self.entries@.take(n as int) =~= self.entries@);
        }
        sum
    }

    /// The entries as a list of (good, quantity) pairs with distinct goods.
    pub fn to_vec(&self) -> (r: Vec<(String, u64)>)
        ensures
            keys_distinct(r@),
            map_of(r@) == self@,
    {
        proof {
            use_type_invariant(self);
        }
        let n = self.entries.len();
        let mut out: Vec<(String, u64)> = Vec::new();
        let mut i: usize = 0;
        while i < n
            invariant
                n == self.entries@.len(),
                i <= n,
                out@.len() == i,
                forall|k: int| 0 <= k < i ==> #[trigger] out@[k].0@ == self.entries@[k].0@ && out@[k].1
                    == self.entries@[k].1,
            decreases n - i,
        {
            let name = self.entries[i].0.clone();
            out.push((name, self.entries[i].1));
            i = i + 1;
        }
        proof {
            lemma_map_of_same_keys(out@, self.entries@);
        }
        out
    }

    /// A copy of this inventory.
    pub fn duplicate(&self) -> (r: Inventory)
        ensures
            r@ == self@,
    {
        let pairs = self.to_vec();
        Inventory::from_pairs(&pairs)
    }

    /// Builds an inventory from pairs; a later pair for the same good
    /// overrides an earlier one, as collecting into a map does.
    pub fn from_pairs(pairs: &Vec<(String, u64)>) -> (r: Inventory)
        ensures
            r@ == map_of(pairs@),
    {
        let mut r = Inventory::new();
        let n = pairs.len();
        let mut i: usize = 0;
        while i < n
            invariant
                n == pairs@.len(),
                i <= n,
                r@ == map_of(pairs@.take(i as int)),
            decreases n - i,
        {
            proof {
                assert(pairs@.take(i + 1).drop_last() =~= pairs@.take(i as int));
            }
            r.set(pairs[i].0.clone(), pairs[i].1);
            i = i + 1;
        }
        proof {
            assert(pairs@.take(n as int) =~= pairs@);
        }
        r
    }
}

pub proof fn lemma_map_of_len(s: Seq<(String, u64)>)
    requires
        keys_distinct(s),
    ensures
        map_of(s).dom().len() == s.len(),
        map_of(s).dom().finite(),
    decreases s.len(),
{
    if s.len() > 0 {
        lemma_map_of_len(s.drop_last());
        lemma_map_of_domain(s.drop_last(), s.last().0@);
        assert forall|i: int| 0 <= i < s.drop_last().len() implies #[trigger] s.drop_last()[i].0@ != s.last().0@ by {
            assert(s[i].0@ != s[s.len() - 1].0@);
        }
    }
}

pub proof fn lemma_map_update(s: Seq<(String, u64)>, i: int, q: u64)
    requires
        keys_distinct(s),
        0 <= i < s.len(),
    ensures
        forall|g: String| g@ == s[i].0@ ==> keys_distinct(#[trigger] s.update(i, (g, q))) && map_of(
            s.update(i, (g, q)),
        ) == map_of(s).insert(s[i].0@, q),
    decreases s.len(),
{
    assert forall|g: String| g@ == s[i].0@ implies keys_distinct(#[trigger] s.update(i, (g, q))) && map_of(
        s.update(i, (g, q)),
    ) == map_of(s).insert(s[i].0@, q) by {
        lemma_map_update_one(s, i, g, q);
    }
}

proof fn lemma_map_update_one(s: Seq<(String, u64)>, i: int, g: String, q: u64)
    requires
        keys_distinct(s),
        0 <= i < s.len(),
        g@ == s[i].0@,
    ensures
        keys_distinct(s.update(i, (g, q))),
        map_of(s.update(i, (g, q))) == map_of(s).insert(s[i].0@, q),
    decreases s.len(),
{
    let t = s.update(i, (g, q));
    if i == s.len() - 1 {
        assert(t.drop_last() =~= s.drop_last());
        lemma_map_of_domain(s.drop_last(), g@);
        assert forall|k: int| 0 <= k < s.drop_last().len() implies #[trigger] s.drop_last()[k].0@ != g@ by {
            assert(s[k].0@ != s[i].0@);
        }
        assert(map_of(t) =~= map_of(s).insert(s[i].0@, q));
    } else {
        assert(t.drop_last() =~= s.drop_last().update(i, (g, q)));
        lemma_map_update_one(s.drop_last(), i, g, q);
        assert(s.last().0@ != g@);
        assert(map_of(t) =~= map_of(s).insert(s[i].0@, q));
    }
}

proof fn lemma_map_remove_at(s: Seq<(String, u64)>, i: int)
    requires
        keys_distinct(s),
        0 <= i < s.len(),
    ensures
        keys_distinct(s.remove(i)),
        map_of(s.remove(i)) == map_of(s).remove(s[i].0@),
    decreases s.len(),
{
    let t = s.remove(i);
    if i == s.len() - 1 {
        assert(t =~= s.drop_last());
        lemma_map_of_domain(s.drop_last(), s[i].0@);
        assert forall|k: int| 0 <= k < s.drop_last().len() implies #[trigger] s.drop_last()[k].0@ != s[i].0@ by {
            assert(s[k].0@ != s[i].0@);
        }
        assert(map_of(t) =~= map_of(s).remove(s[i].0@));
    } else {
        assert(t.drop_last() =~= s.drop_last().remove(i));
        assert(t.last() == s.last());
        lemma_map_remove_at(s.drop_last(), i);
        assert(map_of(t) =~= map_of(s).remove(s[i].0@));
    }
}

proof fn lemma_take_not_contains(s: Seq<(String, u64)>, i: int)
    requires
        keys_distinct(s),
        0 <= i < s.len(),
    ensures
        !map_of(s.take(i)).contains_key(s[i].0@),
        map_of(s.take(i + 1)) == map_of(s.take(i)).insert(s[i].0@, s[i].1),
{
    lemma_map_of_domain(s.take(i), s[i].0@);
    assert(s.take(i + 1).drop_last() =~= s.take(i));
}

proof fn lemma_map_of_same_keys(a: Seq<(String, u64)>, b: Seq<(String, u64)>)
    requires
        a.len() == b.len(),
        forall|k: int| 0 <= k < a.len() ==> #[trigger] a[k].0@ == b[k].0@ && a[k].1 == b[k].1,
        keys_distinct(b),
    ensures
        map_of(a) == map_of(b),
        keys_distinct(a),
    decreases a.len(),
{
    if a.len() > 0 {
        lemma_map_of_same_keys(a.drop_last(), b.drop_last());
    }
}

} // verus!
