use vstd::prelude::*;

use crate::balances::spec_transfer;
use crate::balances::Balances;
use crate::types::Error;
use crate::types::Event;
use crate::types::Node;
use crate::types::Origin;
use std::collections::HashMap;

verus! {

broadcast use vstd::seq_lib::lemma_seq_contains_after_push;

/// `value` clamped from above to `available`.
pub open spec fn clamped(value: u64, available: u64) -> u64 {
    if value <= available {
        value
    } else {
        available
    }
}

/// `deposit + value`, saturating at the balance type's maximum.
pub open spec fn saturated_add(deposit: u64, value: u64) -> u64 {
    if deposit + value <= u64::MAX {
        (deposit + value) as u64
    } else {
        u64::MAX
    }
}

/// The first position at which the membership ledger lists `x`, or `None`
/// when it does not.
fn find_account(v: &Vec<u64>, x: u64) -> (r: Option<usize>)
    ensures
        (match r {
            Some(i) => i < v@.len() && v@[i as int] == x,
            None => !v@.contains(x),
        }),
{
    let mut i: usize = 0;
    while i < v.len()
        invariant
            i <= v@.len(),
            forall|j: int| 0 <= j < i ==> v@[j] != x,
        decreases v@.len() - i,
    {
        if v[i] == x {
            return Some(i);
        }
        i = i + 1;
    }
    None
}

/// Whether the membership ledger lists `x`.
fn contains_account(v: &Vec<u64>, x: u64) -> (r: bool)
    ensures
        r == v@.contains(x),
{
    match find_account(v, x) {
        Some(_) => true,
        _ => false,
    }
}

/// The account that holds the registry's pooled custody balance, derived
/// once from the pallet's stable identifier so that no state is needed to
/// find the pool.
pub const PALLET_ACCOUNT: u64 = 0x626d76656c646f6d;

/// The registry service: the two configuration scalars, the membership
/// ledger, the deposit ledger, the node directory, and the notifications
/// emitted so far.
pub struct Pallet {
    /// Value locked by each new registration; zero until explicitly set.
    pub deposit_amount: u64,
    /// Default deduction a slash applies; zero until explicitly set.
    pub slash_amount: u64,
    /// The membership ledger: registered participants, each at most once.
    pub accounts: Vec<u64>,
    /// The deposit ledger: the balance held in custody for each member.
    pub deposits: HashMap<u64, u64>,
    /// The node directory: the descriptor each member advertised.
    pub nodes: HashMap<u64, Node>,
    /// The append-only notification channel.
    pub events: Vec<Event>,
}

impl Pallet {
    /// Lockstep well-formedness: the membership ledger holds no duplicates,
    /// and a deposit entry and a node descriptor exist exactly for the
    /// members.
    pub open spec fn wf(self) -> bool {
        &&& self.accounts@.no_duplicates()
        &&& forall|a: u64|
            #![trigger self.deposits@.contains_key(a)]
            self.deposits@.contains_key(a) == self.accounts@.contains(a)
        &&& forall|a: u64|
            #![trigger self.nodes@.contains_key(a)]
            self.nodes@.contains_key(a) == self.accounts@.contains(a)
    }

    /// Whether `who` currently holds a registration.
    pub open spec fn is_member(self, who: u64) -> bool {
        self.accounts@.contains(who)
    }

    /// The deposit balance recorded for `who`; zero when no entry exists.
    pub open spec fn spec_deposit_of(self, who: u64) -> u64 {
        if self.deposits@.contains_key(who) {
            self.deposits@[who]
        } else {
            0
        }
    }

    /// Whether the three ledgers — membership, deposits, node directory —
    /// are the same in `pre` and `post`.
    pub open spec fn same_ledgers(pre: Pallet, post: Pallet) -> bool {
        &&& post.accounts == pre.accounts
        &&& post.deposits == pre.deposits
        &&& post.nodes == pre.nodes
    }

    /// How one successful registration of `who` changes the registry and the
    /// balance ledger: `who` joins the membership ledger, the configured
    /// deposit amount is recorded for it and moves from `who` into the
    /// custody pool, `node` is filed in the directory, and a notification is
    /// appended.
    pub open spec fn register_transition(
        pre: Pallet,
        pre_bal: Balances,
        post: Pallet,
        post_bal: Balances,
        who: u64,
        node: Node,
    ) -> bool {
        &&& post.accounts@ == pre.accounts@.push(who)
        &&& post.deposits@ == pre.deposits@.insert(who, pre.deposit_amount)
        &&& post.nodes@ == pre.nodes@.insert(who, node)
        &&& post.deposit_amount == pre.deposit_amount
        &&& post.slash_amount == pre.slash_amount
        &&& post_bal@ == spec_transfer(pre_bal@, who, PALLET_ACCOUNT, pre.deposit_amount)
        &&& post.events@ == pre.events@.push(
            Event::NodeRegistered { account: who, name: node.name, uri: node.uri },
        )
    }

    /// How retiring `who`'s bookkeeping changes the registry alone: `who`
    /// leaves the membership ledger (the ledger's last entry takes its
    /// place), and its deposit entry and node descriptor are deleted.
    pub open spec fn retire_transition(pre: Pallet, post: Pallet, who: u64) -> bool {
        let i = pre.accounts@.index_of(who);
        &&& post.accounts@ == pre.accounts@.update(i, pre.accounts@.last()).drop_last()
        &&& post.deposits@ == pre.deposits@.remove(who)
        &&& post.nodes@ == pre.nodes@.remove(who)
        &&& post.deposit_amount == pre.deposit_amount
        &&& post.slash_amount == pre.slash_amount
    }

    /// How one successful deregistration of `who` changes the registry and
    /// the balance ledger: the bookkeeping is retired, the deposit that was
    /// recorded moves from the custody pool back to `who`, and a
    /// notification is appended.
    pub open spec fn deregister_transition(
        pre: Pallet,
        pre_bal: Balances,
        post: Pallet,
        post_bal: Balances,
        who: u64,
    ) -> bool {
        &&& Self::retire_transition(pre, post, who)
        &&& post_bal@ == spec_transfer(pre_bal@, PALLET_ACCOUNT, who, pre.spec_deposit_of(who))
        &&& post.events@ == pre.events@.push(Event::NodeDeregistered { account: who })
    }

    /// How one reward of `value` to `who` changes the registry: `who`'s
    /// deposit balance is credited, saturating at the balance type's
    /// maximum, and a notification is appended.  No externally-custodied
    /// value moves: a reward is a bookkeeping credit against the pool.
    pub open spec fn reward_transition(pre: Pallet, post: Pallet, who: u64, value: u64) -> bool {
        &&& post.accounts == pre.accounts
        &&& post.nodes == pre.nodes
        &&& post.deposit_amount == pre.deposit_amount
        &&& post.slash_amount == pre.slash_amount
        &&& post.deposits@ == pre.deposits@.insert(
            who,
            saturated_add(pre.spec_deposit_of(who), value),
        )
        &&& post.events@ == pre.events@.push(Event::NodeRewarded { account: who, value })
    }

    /// How one slash of `value` against `who` changes the registry: the
    /// deduction is clamped to `who`'s deposit balance, so the balance never
    /// goes negative, and the notification reports the amount actually
    /// deducted.
    pub open spec fn slash_transition(pre: Pallet, post: Pallet, who: u64, value: u64) -> bool {
        let actual = clamped(value, pre.spec_deposit_of(who));
        &&& post.accounts == pre.accounts
        &&& post.nodes == pre.nodes
        &&& post.deposit_amount == pre.deposit_amount
        &&& post.slash_amount == pre.slash_amount
        &&& post.deposits@ == pre.deposits@.insert(
            who,
            (pre.spec_deposit_of(who) - actual) as u64,
        )
        &&& post.events@ == pre.events@.push(Event::NodeSlashed { account: who, value: actual })
    }

    /// An empty registry: no members, both parameters zero, no notifications.
    pub fn new() -> (r: Pallet)
        ensures
            r.wf(),
            r.deposit_amount == 0,
            r.slash_amount == 0,
            r.accounts@ == Seq::<u64>::empty(),
            r.deposits@ == Map::<u64, u64>::empty(),
            r.nodes@ == Map::<u64, Node>::empty(),
            r.events@ == Seq::<Event>::empty(),
    {
        Pallet {
            deposit_amount: 0,
            slash_amount: 0,
            accounts: Vec::new(),
            deposits: HashMap::new(),
            nodes: HashMap::new(),
            events: Vec::new(),
        }
    }

    /// The account ID of the fund pot.
    pub fn pallet_account_id() -> (r: u64)
        ensures
            r == PALLET_ACCOUNT,
    {
        PALLET_ACCOUNT
    }

    /// Overwrites the deposit amount unconditionally.  Only the
    /// administrator may succeed; any other caller fails `BadOrigin` and no
    /// state changes.
    pub fn set_deposit_amount(&mut self, origin: Origin, deposit_amount: u64) -> (r: Result<
        (),
        Error,
    >)
        ensures
            (match origin {
                Origin::Root => {
                    &&& r == Ok::<(), Error>(())
                    &&& final(self).deposit_amount == deposit_amount
                    &&& final(self).slash_amount == old(self).slash_amount
                    &&& Self::same_ledgers(*old(self), *final(self))
                    &&& final(self).events@ == old(self).events@.push(
                        Event::DepositAmountSet { deposit_amount },
                    )
                },
                _ => {
                    &&& r == Err::<(), Error>(Error::BadOrigin)
                    &&& *final(self) == *old(self)
                },
            }),
            old(self).wf() ==> final(self).wf(),
    {
        match origin {
            Origin::Root => {},
            _ => {
                return Err(Error::BadOrigin);
            },
        }
        self.deposit_amount = deposit_amount;
        self.events.push(Event::DepositAmountSet { deposit_amount });
        Ok(())
    }

    /// Overwrites the slash amount unconditionally.  Only the administrator
    /// may succeed; any other caller fails `BadOrigin` and no state changes.
    pub fn set_slash_amount(&mut self, origin: Origin, slash_amount: u64) -> (r: Result<
        (),
        Error,
    >)
        ensures
            (match origin {
                Origin::Root => {
                    &&& r == Ok::<(), Error>(())
                    &&& final(self).slash_amount == slash_amount
                    &&& final(self).deposit_amount == old(self).deposit_amount
                    &&& Self::same_ledgers(*old(self), *final(self))
                    &&& final(self).events@ == old(self).events@.push(
                        Event::SlashAmountSet { slash_amount },
                    )
                },
                _ => {
                    &&& r == Err::<(), Error>(Error::BadOrigin)
                    &&& *final(self) == *old(self)
                },
            }),
            old(self).wf() ==> final(self).wf(),
    {
        match origin {
            Origin::Root => {},
            _ => {
                return Err(Error::BadOrigin);
            },
        }
        self.slash_amount = slash_amount;
        self.events.push(Event::SlashAmountSet { slash_amount });
        Ok(())
    }

    /// Registers the signed caller as a node, as one atomic unit: the
    /// configured deposit amount moves from the caller into the custody
    /// pool, the deposit and the descriptor are recorded, and the caller
    /// joins the membership ledger.  A caller that is already a member fails
    /// `NodeAlreadyRegistered`; a rejected transfer fails `TransferFailed`;
    /// in every failing case nothing is mutated.
    pub fn register(
        &mut self,
        balances: &mut Balances,
        origin: Origin,
        name: String,
        uri: String,
    ) -> (r: Result<(), Error>)
        requires
            old(self).wf(),
        ensures
            final(self).wf(),
            (match origin {
                Origin::Root => {
                    &&& r == Err::<(), Error>(Error::BadOrigin)
                    &&& *final(self) == *old(self)
                    &&& *final(balances) == *old(balances)
                },
                Origin::Signed(sender) => {
                    if old(self).is_member(sender) {
                        &&& r == Err::<(), Error>(Error::NodeAlreadyRegistered)
                        &&& *final(self) == *old(self)
                        &&& *final(balances) == *old(balances)
                    } else if old(balances).can_transfer(
                        sender,
                        PALLET_ACCOUNT,
                        old(self).deposit_amount,
                    ) {
                        &&& r == Ok::<(), Error>(())
                        &&& Self::register_transition(
                            *old(self),
                            *old(balances),
                            *final(self),
                            *final(balances),
                            sender,
                            (Node { name, uri }),
                        )
                    } else {
                        &&& r == Err::<(), Error>(Error::TransferFailed)
                        &&& *final(self) == *old(self)
                        &&& final(balances)@ == old(balances)@
                    }
                },
            }),
    {
        let sender = match origin {
            Origin::Signed(s) => s,
            _ => {
                return Err(Error::BadOrigin);
            },
        };
        if contains_account(&self.accounts, sender) {
            return Err(Error::NodeAlreadyRegistered);
        }
        let deposit_amount = self.deposit_amount;
        match balances.transfer(sender, Self::pallet_account_id(), deposit_amount) {
            Ok(()) => {},
            Err(_) => {
                return Err(Error::TransferFailed);
            },
        }
        let node = Node { name: name.clone(), uri: uri.clone() };
        self.deposits.insert(sender, deposit_amount);
        self.nodes.insert(sender, node);
        self.accounts.push(sender);
        self.events.push(Event::NodeRegistered { account: sender, name, uri });
        proof {
            let s = old(self).accounts@;
            let t = self.accounts@;
            assert(t == s.push(sender));
            assert forall|i: int, j: int|
                0 <= i < t.len() && 0 <= j < t.len() && i != j implies t[i] != t[j] by {
                if t[i] == t[j] {
                    if i < s.len() && j < s.len() {
                        assert(s[i] == s[j]);
                    } else if i < s.len() {
                        assert(s[i] == sender);
                        assert(s.contains(sender));
                    } else if j < s.len() {
                        assert(s[j] == sender);
                        assert(s.contains(sender));
                    }
                }
            }
            assert forall|a: u64| #[trigger]
                self.deposits@.contains_key(a) == self.accounts@.contains(a) by {
                assert(t.contains(a) <==> sender == a || s.contains(a));
            }
            assert forall|a: u64| #[trigger]
                self.nodes@.contains_key(a) == self.accounts@.contains(a) by {
                assert(t.contains(a) <==> sender == a || s.contains(a));
            }
        }
        Ok(())
    }

    /// Deregisters the signed caller: the caller leaves the membership
    /// ledger, its deposit entry and node descriptor are deleted, and the
    /// recorded deposit moves from the custody pool back to the caller.  A
    /// caller that is not a member fails `NodeNotRegistered` and nothing is
    /// mutated.  The bookkeeping is retired before the return transfer is
    /// attempted, so a rejected transfer fails `TransferFailed` with the
    /// caller already removed while the funds never moved; the contract
    /// states this ordering exactly, since it is observable.
    pub fn deregister(&mut self, balances: &mut Balances, origin: Origin) -> (r: Result<
        (),
        Error,
    >)
        requires
            old(self).wf(),
        ensures
            final(self).wf(),
            (match origin {
                Origin::Root => {
                    &&& r == Err::<(), Error>(Error::BadOrigin)
                    &&& *final(self) == *old(self)
                    &&& *final(balances) == *old(balances)
                },
                Origin::Signed(sender) => {
                    if !old(self).is_member(sender) {
                        &&& r == Err::<(), Error>(Error::NodeNotRegistered)
                        &&& *final(self) == *old(self)
                        &&& *final(balances) == *old(balances)
                    } else if old(balances).can_transfer(
                        PALLET_ACCOUNT,
                        sender,
                        old(self).spec_deposit_of(sender),
                    ) {
                        &&& r == Ok::<(), Error>(())
                        &&& Self::deregister_transition(
                            *old(self),
                            *old(balances),
                            *final(self),
                            *final(balances),
                            sender,
                        )
                    } else {
                        &&& r == Err::<(), Error>(Error::TransferFailed)
                        &&& Self::retire_transition(*old(self), *final(self), sender)
                        &&& final(self).events@ == old(self).events@
                        &&& final(balances)@ == old(balances)@
                    }
                },
            }),
    {
        let sender = match origin {
            Origin::Signed(s) => s,
            _ => {
                return Err(Error::BadOrigin);
            },
        };
        let i = match find_account(&self.accounts, sender) {
            Some(i) => i,
            _ => {
                return Err(Error::NodeNotRegistered);
            },
        };
        self.accounts.swap_remove(i);
        let deposit = self.deposits(sender);
        self.deposits.remove(&sender);
        self.nodes.remove(&sender);
        proof {
            let s = old(self).accounts@;
            let t = self.accounts@;
            assert(s[i as int] == sender);
            assert(s.contains(sender));
            let j = s.index_of(sender);
            assert(0 <= j < s.len() && s[j] == sender) by {
                assert(0 <= (i as int) < s.len() && s[i as int] == sender);
            }
            assert(j == i as int);
            assert(t == s.update(j, s.last()).drop_last());
            assert forall|a: u64| #[trigger] t.contains(a) == (s.contains(a) && a != sender) by {
                if t.contains(a) {
                    let k = choose|k: int| 0 <= k < t.len() && t[k] == a;
                    if k == j {
                        assert(s[s.len() - 1] == a);
                        assert(s.contains(a));
                        assert(a != sender);
                    } else {
                        assert(s[k] == a);
                        assert(s.contains(a));
                        assert(a != sender);
                    }
                }
                if s.contains(a) && a != sender {
                    let k = choose|k: int| 0 <= k < s.len() && s[k] == a;
                    assert(k != j);
                    if k < s.len() - 1 {
                        assert(t[k] == a);
                        assert(t.contains(a));
                    } else {
                        assert(j < s.len() - 1);
                        assert(t[j] == a);
                        assert(t.contains(a));
                    }
                }
            }
            assert forall|k1: int, k2: int|
                0 <= k1 < t.len() && 0 <= k2 < t.len() && k1 != k2 implies t[k1] != t[k2] by {
                let m1 = if k1 == j {
                    s.len() - 1
                } else {
                    k1
                };
                let m2 = if k2 == j {
                    s.len() - 1
                } else {
                    k2
                };
                assert(t[k1] == s[m1]);
                assert(t[k2] == s[m2]);
                assert(m1 != m2);
            }
            assert forall|a: u64| #[trigger]
                self.deposits@.contains_key(a) == self.accounts@.contains(a) by {}
            assert forall|a: u64| #[trigger]
                self.nodes@.contains_key(a) == self.accounts@.contains(a) by {}
        }
        match balances.transfer(Self::pallet_account_id(), sender, deposit) {
            Ok(()) => {},
            Err(_) => {
                return Err(Error::TransferFailed);
            },
        }
        self.events.push(Event::NodeDeregistered { account: sender });
        Ok(())
    }

    /// Credits `value` to a member's deposit balance, saturating at the
    /// balance type's maximum.  Only the administrator may succeed; the
    /// participant must be a member.  The credit is bookkeeping only — no
    /// externally-custodied value moves.
    pub fn reward(&mut self, origin: Origin, account: u64, value: u64) -> (r: Result<(), Error>)
        requires
            old(self).wf(),
        ensures
            final(self).wf(),
            (match origin {
                Origin::Root => {
                    if old(self).is_member(account) {
                        &&& r == Ok::<(), Error>(())
                        &&& Self::reward_transition(*old(self), *final(self), account, value)
                    } else {
                        &&& r == Err::<(), Error>(Error::NodeNotRegistered)
                        &&& *final(self) == *old(self)
                    }
                },
                _ => {
                    &&& r == Err::<(), Error>(Error::BadOrigin)
                    &&& *final(self) == *old(self)
                },
            }),
    {
        match origin {
            Origin::Root => {},
            _ => {
                return Err(Error::BadOrigin);
            },
        }
        if !contains_account(&self.accounts, account) {
            return Err(Error::NodeNotRegistered);
        }
        let deposit = self.deposits(account);
        let credited = if value <= u64::MAX - deposit {
            deposit + value
        } else {
            u64::MAX
        };
        self.deposits.insert(account, credited);
        self.events.push(Event::NodeRewarded { account, value });
        proof {
            assert forall|a: u64| #[trigger]
                self.deposits@.contains_key(a) == self.accounts@.contains(a) by {}
        }
        Ok(())
    }

    /// Deducts `value` from a member's deposit balance, clamping the
    /// deduction to the balance so that it never goes negative.  Only the
    /// administrator may succeed; the participant must be a member.  The
    /// notification reports the amount actually deducted.
    pub fn slash(&mut self, origin: Origin, account: u64, value: u64) -> (r: Result<(), Error>)
        requires
            old(self).wf(),
        ensures
            final(self).wf(),
            (match origin {
                Origin::Root => {
                    if old(self).is_member(account) {
                        &&& r == Ok::<(), Error>(())
                        &&& Self::slash_transition(*old(self), *final(self), account, value)
                    } else {
                        &&& r == Err::<(), Error>(Error::NodeNotRegistered)
                        &&& *final(self) == *old(self)
                    }
                },
                _ => {
                    &&& r == Err::<(), Error>(Error::BadOrigin)
                    &&& *final(self) == *old(self)
                },
            }),
    {
        match origin {
            Origin::Root => {},
            _ => {
                return Err(Error::BadOrigin);
            },
        }
        let deposit = self.deposits(account);
        if !contains_account(&self.accounts, account) {
            return Err(Error::NodeNotRegistered);
        }
        let actual = if deposit >= value {
            value
        } else {
            deposit
        };
        self.deposits.insert(account, deposit - actual);
        self.events.push(Event::NodeSlashed { account, value: actual });
        proof {
            assert forall|a: u64| #[trigger]
                self.deposits@.contains_key(a) == self.accounts@.contains(a) by {}
        }
        Ok(())
    }

    /// Reads the configured deposit amount.
    pub fn deposit_amount(&self) -> (r: u64)
        ensures
            r == self.deposit_amount,
    {
        self.deposit_amount
    }

    /// Reads the configured slash amount.
    pub fn slash_amount(&self) -> (r: u64)
        ensures
            r == self.slash_amount,
    {
        self.slash_amount
    }

    /// Reads the membership ledger.
    pub fn accounts(&self) -> (r: &Vec<u64>)
        ensures
            r@ == self.accounts@,
    {
        &self.accounts
    }

    /// Reads the deposit balance held for `who`; zero when `who` holds no
    /// registration.
    pub fn deposits(&self, who: u64) -> (r: u64)
        ensures
            r == self.spec_deposit_of(who),
    {
        match self.deposits.get(&who) {
            Some(d) => *d,
            _ => 0,
        }
    }

    /// Reads the node descriptor `who` advertised, if `who` is registered.
    pub fn nodes(&self, who: u64) -> (r: Option<&Node>)
        ensures
            (match r {
                Some(n) => self.nodes@.contains_key(who) && *n == self.nodes@[who],
                None => !self.nodes@.contains_key(who),
            }),
    {
        self.nodes.get(&who)
    }

    /// Reads the notifications emitted so far, oldest first.
    pub fn events(&self) -> (r: &Vec<Event>)
        ensures
            r@ == self.events@,
    {
        &self.events
    }
}

} // verus!
