//! Coin balances: one ledger of user balances per channel.
use vstd::prelude::*;

use std::collections::HashMap;
use vstd::std_specs::iter::IteratorSpec;

verus! {

broadcast use vstd::std_specs::hash::group_hash_axioms;

/// The balance of `user` in `m`; users without an account have none.
pub open spec fn balance_of(m: Map<u64, i64>, user: u64) -> int {
    if m.contains_key(user) {
        m[user] as int
    } else {
        0
    }
}

/// The balances after `user`'s account is looked up: opened with zero
/// coins when it did not exist.
pub open spec fn opened_spec(m: Map<u64, i64>, user: u64) -> Map<u64, i64> {
    if m.contains_key(user) {
        m
    } else {
        m.insert(user, 0)
    }
}

/// The balances after `amount` is added to `user`'s account (opening
/// it with `amount` when it does not exist yet).
pub open spec fn increment_spec(m: Map<u64, i64>, user: u64, amount: i64) -> Map<u64, i64> {
    m.insert(user, (balance_of(m, user) + amount) as i64)
}

/// Adding `amount` to `user` stays within `i64`.
pub open spec fn increment_fits(m: Map<u64, i64>, user: u64, amount: i64) -> bool {
    i64::MIN <= balance_of(m, user) + amount <= i64::MAX
}

/// The balances after `amount` moves from `from_user` to `to_user`.
pub open spec fn transfer_spec(m: Map<u64, i64>, from_user: u64, to_user: u64, amount: i64) -> Map<
    u64,
    i64,
> {
    increment_spec(increment_spec(m, from_user, (-amount) as i64), to_user, amount)
}

/// A transfer stays within `i64` at every step.
pub open spec fn transfer_fits(m: Map<u64, i64>, from_user: u64, to_user: u64, amount: i64) -> bool {
    &&& amount != i64::MIN
    &&& increment_fits(m, from_user, (-amount) as i64)
    &&& increment_fits(increment_spec(m, from_user, (-amount) as i64), to_user, amount)
}

/// The sum of `f` over the finite set `s`.
pub open spec fn sum_over(f: spec_fn(u64) -> int, s: Set<u64>) -> int
    decreases s.len(),
{
    if s.finite() && s.len() > 0 {
        let x = s.choose();
        f(x) + sum_over(f, s.remove(x))
    } else {
        0
    }
}

/// All the coins of a ledger: the sum of every account's balance.
pub open spec fn total_coins(m: Map<u64, i64>) -> int {
    sum_over(|u: u64| balance_of(m, u), m.dom())
}

/// The balances of the users of one channel.
#[derive(Debug)]
pub struct Ledger {
    map: HashMap<u64, i64>,
}

impl View for Ledger {
    type V = Map<u64, i64>;

    closed spec fn view(&self) -> Map<u64, i64> {
        self.map@
    }
}

impl Ledger {
    /// A ledger with no accounts.
    pub fn new() -> (r: Self)
        ensures
            r@ == Map::<u64, i64>::empty(),
    {
        Ledger { map: HashMap::new() }
    }

    /// Adds `amount` to the user's account, opening it with `amount` when
    /// it does not exist. A negative amount takes coins away.
    pub fn increment_balance(&mut self, user: &u64, amount: i64)
        requires
            increment_fits(old(self)@, *user, amount),
        ensures
            final(self)@ == increment_spec(old(self)@, *user, amount),
    {
        match self.map.get(user) {
            Some(balance) => {
                let b = *balance;
                self.map.insert(*user, b + amount);
            },
            None => {
                self.map.insert(*user, amount);
            },
        }
    }

    /// Moves `amount` coins from one user to another.
    pub fn transfer(&mut self, from_user: &u64, to_user: &u64, amount: i64)
        requires
            transfer_fits(old(self)@, *from_user, *to_user, amount),
        ensures
            final(self)@ == transfer_spec(old(self)@, *from_user, *to_user, amount),
            total_coins(final(self)@) == total_coins(old(self)@),
    {
        proof {
            lemma_transfer_keeps_total(self@, *from_user, *to_user, amount);
        }
        self.increment_balance(from_user, -amount);
        self.increment_balance(to_user, amount);
    }

    /// The user's balance; a user without an account gets one with zero
    /// coins.
    pub fn get_balance(&mut self, user: &u64) -> (r: i64)
        ensures
            r as int == balance_of(old(self)@, *user),
            final(self)@ == opened_spec(old(self)@, *user),
    {
        match self.map.get(user) {
            Some(amount) => *amount,
            None => {
                self.map.insert(*user, 0);
                0
            },
        }
    }

    /// The balances of the given users, in order, opening empty accounts
    /// for users that have none.
    pub fn get_balances(&mut self, users: Vec<u64>) -> (r: Vec<(u64, i64)>)
        ensures
            r@.len() == users@.len(),
            forall|i: int|
                0 <= i < users@.len() ==> (#[trigger] r@[i]).0 == users@[i] && r@[i].1 as int
                    == balance_of(old(self)@, users@[i]),
            final(self)@.dom() == old(self)@.dom() + users@.to_set(),
            forall|u: u64| #[trigger] balance_of(final(self)@, u) == balance_of(old(self)@, u),
    {
        let mut r: Vec<(u64, i64)> = Vec::new();
        let mut i: usize = 0;
        while i < users.len()
            invariant
                i <= users.len(),
                r@.len() == i,
                forall|j: int|
                    0 <= j < i ==> (#[trigger] r@[j]).0 == users@[j] && r@[j].1 as int
                        == balance_of(old(self)@, users@[j]),
                self@.dom() == old(self)@.dom() + users@.take(i as int).to_set(),
                forall|u: u64| #[trigger] balance_of(self@, u) == balance_of(old(self)@, u),
            decreases users.len() - i,
        {
            let u = users[i];
            let ghost before = self@;
            let b = self.get_balance(&u);
            r.push((u, b));
            proof {
                lemma_get_balance_keeps_balances(before, u);
                assert(users@.take(i + 1) =~= users@.take(i as int).push(u));
                users@.take(i as int).lemma_push_to_set_commute(u);
            }
            i = i + 1;
        }
        proof {
            assert(users@.take(users.len() as int) =~= users@);
        }
        r
    }

    /// Every account with its balance, in no particular order.
    pub fn get_all_balances(&self) -> (r: Vec<(u64, i64)>)
        ensures
            r@.len() == self@.dom().len(),
            r@.to_set() == self@.kv_pairs(),
    {
        let ghost all = self.map.iter().remaining();
        let mut r: Vec<(u64, i64)> = Vec::new();
        for kv in it: self.map.iter()
            invariant
                it.seq() == all,
                r@ == all.take(it.index()).unref(),
        {
            let (uid, amount) = kv;
            proof {
                assert(it.seq().take(it.index() + 1).unref() =~= it.seq().take(it.index()).unref().push(
                    (*uid, *amount),
                ));
            }
            r.push((*uid, *amount));
        }
        proof {
            assert(r@ =~= all.unref());
        }
        r
    }
}

/// The ledgers of all channels.
#[derive(Debug)]
pub struct Accounts {
    ledgers: HashMap<u64, Ledger>,
}

impl Accounts {
    pub closed spec fn ledgers_view(&self) -> Map<u64, Ledger> {
        self.ledgers@
    }

    /// No ledgers yet.
    pub fn new() -> (r: Self)
        ensures
            r.ledgers_view() == Map::<u64, Ledger>::empty(),
    {
        Accounts { ledgers: HashMap::new() }
    }

    /// The channel's ledger, created empty when the channel has none.
    pub fn get_or_create(&mut self, channel_id: &u64) -> (r: &Ledger)
        ensures
            final(self).ledgers_view().contains_key(*channel_id),
            *r == final(self).ledgers_view()[*channel_id],
            old(self).ledgers_view().contains_key(*channel_id) ==> final(self).ledgers_view()
                == old(self).ledgers_view(),
            !old(self).ledgers_view().contains_key(*channel_id) ==> {
                &&& r@ == Map::<u64, i64>::empty()
                &&& final(self).ledgers_view() == old(self).ledgers_view().insert(*channel_id, *r)
            },
    {
        if !self.ledgers.contains_key(channel_id) {
            self.ledgers.insert(*channel_id, Ledger::new());
        }
        self.ledgers.get(channel_id).unwrap()
    }

    /// The channel's ledger for changing, created empty when the channel
    /// has none. Whatever the caller leaves in it stays in the accounts.
    pub fn get_or_create_mut(&mut self, channel_id: &u64) -> (r: &mut Ledger)
        ensures
            old(self).ledgers_view().contains_key(*channel_id) ==> *r == old(
                self,
            ).ledgers_view()[*channel_id],
            !old(self).ledgers_view().contains_key(*channel_id) ==> r@ == Map::<u64, i64>::empty(),
            final(self).ledgers_view() == old(self).ledgers_view().insert(*channel_id, *final(r)),
    {
        self.ledgers.entry(*channel_id).or_insert(Ledger::new())
    }
}

// ---------------------------------------------------------------------
// laws of the ledger
// ---------------------------------------------------------------------

/// A transfer between two different users leaves their combined coins as
/// they were and touches no other account.
pub proof fn lemma_transfer_conserves(m: Map<u64, i64>, from_user: u64, to_user: u64, amount: i64)
    requires
        transfer_fits(m, from_user, to_user, amount),
    ensures
        from_user != to_user ==> balance_of(transfer_spec(m, from_user, to_user, amount), from_user)
            + balance_of(transfer_spec(m, from_user, to_user, amount), to_user) == balance_of(
            m,
            from_user,
        ) + balance_of(m, to_user),
        from_user != to_user ==> balance_of(transfer_spec(m, from_user, to_user, amount), from_user)
            == balance_of(m, from_user) - amount,
        from_user == to_user ==> balance_of(transfer_spec(m, from_user, to_user, amount), from_user)
            == balance_of(m, from_user),
        forall|u: u64|
            u != from_user && u != to_user ==> #[trigger] balance_of(
                transfer_spec(m, from_user, to_user, amount),
                u,
            ) == balance_of(m, u),
{
}

/// Moving coins and moving them back restores every balance.
pub proof fn lemma_transfer_undo(m: Map<u64, i64>, from_user: u64, to_user: u64, amount: i64)
    requires
        transfer_fits(m, from_user, to_user, amount),
        transfer_fits(transfer_spec(m, from_user, to_user, amount), to_user, from_user, amount),
    ensures
        forall|u: u64|
            #[trigger] balance_of(
                transfer_spec(transfer_spec(m, from_user, to_user, amount), to_user, from_user, amount),
                u,
            ) == balance_of(m, u),
{
}

/// Adding coins to an account and taking them away again restores every
/// balance (a tip and its undoing, for instance).
pub proof fn lemma_increment_undo(m: Map<u64, i64>, user: u64, amount: i64)
    requires
        increment_fits(m, user, amount),
        amount != i64::MIN,
        increment_fits(increment_spec(m, user, amount), user, (-amount) as i64),
    ensures
        forall|u: u64|
            #[trigger] balance_of(increment_spec(increment_spec(m, user, amount), user, (-amount) as i64), u)
                == balance_of(m, u),
{
}

/// Reading a balance changes no balance.
pub proof fn lemma_get_balance_keeps_balances(m: Map<u64, i64>, user: u64)
    ensures
        forall|u: u64|
            #[trigger] balance_of(opened_spec(m, user), u) == balance_of(m, u),
{
}

/// A sum over a set is any one of its terms plus the sum over the rest.
proof fn lemma_sum_remove(f: spec_fn(u64) -> int, s: Set<u64>, x: u64)
    requires
        s.finite(),
        s.contains(x),
    ensures
        sum_over(f, s) == f(x) + sum_over(f, s.remove(x)),
    decreases s.len(),
{
    assert(s.len() > 0);
    let c = s.choose();
    if c != x {
        lemma_sum_remove(f, s.remove(c), x);
        lemma_sum_remove(f, s.remove(x), c);
        assert(s.remove(c).remove(x) =~= s.remove(x).remove(c));
    }
}

/// Functions that agree on a set have the same sum over it.
proof fn lemma_sum_congruent(f: spec_fn(u64) -> int, g: spec_fn(u64) -> int, s: Set<u64>)
    requires
        s.finite(),
        forall|k: u64| s.contains(k) ==> f(k) == g(k),
    ensures
        sum_over(f, s) == sum_over(g, s),
    decreases s.len(),
{
    if s.len() > 0 {
        let x = s.choose();
        lemma_sum_congruent(f, g, s.remove(x));
    }
}

/// Adding `amount` to an account adds `amount` to the ledger's coins.
proof fn lemma_increment_total(m: Map<u64, i64>, user: u64, amount: i64)
    requires
        m.dom().finite(),
        increment_fits(m, user, amount),
    ensures
        increment_spec(m, user, amount).dom().finite(),
        total_coins(increment_spec(m, user, amount)) == total_coins(m) + amount,
{
    let n = increment_spec(m, user, amount);
    let f = |u: u64| balance_of(m, u);
    let g = |u: u64| balance_of(n, u);
    assert(n.dom() =~= m.dom().insert(user));
    if m.dom().contains(user) {
        assert(n.dom() =~= m.dom());
        lemma_sum_remove(f, m.dom(), user);
        lemma_sum_remove(g, m.dom(), user);
        lemma_sum_congruent(f, g, m.dom().remove(user));
    } else {
        lemma_sum_remove(g, n.dom(), user);
        assert(n.dom().remove(user) =~= m.dom());
        lemma_sum_congruent(f, g, m.dom());
    }
}

/// A transfer keeps the ledger's coins: what leaves one account arrives
/// in another.
pub proof fn lemma_transfer_keeps_total(
    m: Map<u64, i64>,
    from_user: u64,
    to_user: u64,
    amount: i64,
)
    requires
        m.dom().finite(),
        transfer_fits(m, from_user, to_user, amount),
    ensures
        total_coins(transfer_spec(m, from_user, to_user, amount)) == total_coins(m),
{
    lemma_increment_total(m, from_user, (-amount) as i64);
    lemma_increment_total(increment_spec(m, from_user, (-amount) as i64), to_user, amount);
}

} // verus!
