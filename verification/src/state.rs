use vstd::prelude::*;

use crate::store::Table;

verus! {

/// Global configuration, one per ledger instance: the administrator set at
/// initialization, and the single fungible-token currency the ledger accepts.
#[derive(Clone, Debug)]
pub struct State {
    /// The ledger administrator. Never changes after initialization.
    pub owner: String,
    /// The accepted token currency. Mutable only by `owner`.
    pub currency: String,
}

/// One account record: the identity that created and exclusively controls the
/// account, and its current balance.
#[derive(Clone, Debug)]
pub struct BalanceData {
    pub address: String,
    pub value: u128,
}

impl DeepView for BalanceData {
    type V = (Seq<char>, u128);

    open spec fn deep_view(&self) -> (Seq<char>, u128) {
        (self.address@, self.value)
    }
}

/// The whole ledger store: the configuration singleton, the balance records
/// keyed by account name, and the owner index keyed by owning identity.
#[derive(Debug)]
pub struct Ledger {
    pub state: State,
    pub balances: Table<BalanceData>,
    pub owners: Table<Vec<String>>,
}

impl Ledger {
    /// Account name -> (owner identity, balance).
    pub open spec fn accounts(self) -> Map<Seq<char>, (Seq<char>, u128)> {
        self.balances.to_map()
    }

    /// Owning identity -> the ordered names of the accounts it created.
    pub open spec fn owner_index(self) -> Map<Seq<char>, Seq<Seq<char>>> {
        self.owners.to_map()
    }

    /// The administrator identity.
    pub open spec fn admin(self) -> Seq<char> {
        self.state.owner@
    }

    /// The configured currency identity.
    pub open spec fn currency(self) -> Seq<char> {
        self.state.currency@
    }

    /// The owner index entry for `id`, or the empty sequence where the
    /// identity has not created an account yet.
    pub open spec fn accounts_of(self, id: Seq<char>) -> Seq<Seq<char>> {
        if self.owner_index().contains_key(id) {
            self.owner_index()[id]
        } else {
            Seq::empty()
        }
    }

    /// Both tables hold the same content as in `other`; the configuration may
    /// differ.
    pub open spec fn same_records(self, other: Ledger) -> bool {
        &&& self.accounts() == other.accounts()
        &&& self.owner_index() == other.owner_index()
    }

    /// The store is unchanged with respect to `other`.
    pub open spec fn same_store(self, other: Ledger) -> bool {
        &&& self.same_records(other)
        &&& self.admin() == other.admin()
        &&& self.currency() == other.currency()
    }

    /// Every name an owner-index entry lists is a live account owned by the
    /// listing identity.
    pub open spec fn index_sound(self) -> bool {
        forall|id: Seq<char>, i: int|
            #![trigger self.owner_index()[id][i]]
            self.owner_index().contains_key(id) && 0 <= i < self.owner_index()[id].len() ==> {
                &&& self.accounts().contains_key(self.owner_index()[id][i])
                &&& self.accounts()[self.owner_index()[id][i]].0 == id
            }
    }

    /// No owner-index entry lists a name twice.
    pub open spec fn index_unique(self) -> bool {
        forall|id: Seq<char>, i: int, j: int|
            #![trigger self.owner_index()[id][i], self.owner_index()[id][j]]
            self.owner_index().contains_key(id) && 0 <= i < j < self.owner_index()[id].len()
                ==> self.owner_index()[id][i] != self.owner_index()[id][j]
    }

    /// Every account is listed in its owner's index entry.
    pub open spec fn index_complete(self) -> bool {
        forall|name: Seq<char>|
            #![trigger self.accounts()[name]]
            self.accounts().contains_key(name) ==> {
                &&& self.owner_index().contains_key(self.accounts()[name].0)
                &&& exists|i: int|
                    0 <= i < self.owner_index()[self.accounts()[name].0].len()
                        && self.owner_index()[self.accounts()[name].0][i] == name
            }
    }

    /// The balance records and the owner index agree: every listed name is a
    /// live account owned by the listing identity, no entry lists a name
    /// twice, and every account is listed under its owner.
    pub open spec fn consistent(self) -> bool {
        &&& self.index_sound()
        &&& self.index_unique()
        &&& self.index_complete()
    }
}

} // verus!
