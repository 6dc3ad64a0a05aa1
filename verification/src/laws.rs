use vstd::prelude::*;

use crate::contract::{create_spec, execute_spec};
use crate::error::ContractError;
use crate::msg::{ExecuteMsg, Outcome};
use crate::state::Ledger;

verus! {

/// A freshly created account has a zero balance: after any successful
/// creation, a balance query of the new name answers exactly zero.
pub proof fn lemma_create_then_balance_zero(
    pre: Ledger,
    post: Ledger,
    sender: Seq<char>,
    name: Seq<char>,
    r: Result<Outcome, ContractError>,
)
    requires
        !pre.accounts().contains_key(name),
        create_spec(pre, post, sender, name, r),
    ensures
        post.accounts().contains_key(name),
        post.accounts()[name].1 == 0,
{
}

/// Account names are permanently unique: creating a name a second time fails
/// with `AlreadyExists` and leaves the store of the first creation — the
/// zero-balance record owned by its creator included — untouched.
pub proof fn lemma_create_twice_fails(
    pre: Ledger,
    mid: Ledger,
    post: Ledger,
    first_sender: Seq<char>,
    second_sender: Seq<char>,
    name: Seq<char>,
    r1: Result<Outcome, ContractError>,
    r2: Result<Outcome, ContractError>,
)
    requires
        !pre.accounts().contains_key(name),
        create_spec(pre, mid, first_sender, name, r1),
        create_spec(mid, post, second_sender, name, r2),
    ensures
        r2 == Err::<Outcome, ContractError>(ContractError::AlreadyExists),
        post.same_store(mid),
        post.accounts()[name] == (first_sender, 0u128),
{
}

/// The owner index keeps creation order: creating two accounts for one
/// identity appends their names, in that order, to the identity's entry.
pub proof fn lemma_create_order(
    pre: Ledger,
    mid: Ledger,
    post: Ledger,
    id: Seq<char>,
    first_name: Seq<char>,
    second_name: Seq<char>,
    r1: Result<Outcome, ContractError>,
    r2: Result<Outcome, ContractError>,
)
    requires
        !pre.accounts().contains_key(first_name),
        create_spec(pre, mid, id, first_name, r1),
        !mid.accounts().contains_key(second_name),
        create_spec(mid, post, id, second_name, r2),
    ensures
        post.owner_index().contains_key(id),
        post.owner_index()[id] == pre.accounts_of(id).push(first_name).push(second_name),
{
}

/// A ledger without accounts and without index entries — as initialization
/// hands it out — is consistent.
pub proof fn lemma_empty_ledger_consistent(l: Ledger)
    requires
        l.accounts() == Map::<Seq<char>, (Seq<char>, u128)>::empty(),
        l.owner_index() == Map::<Seq<char>, Seq<Seq<char>>>::empty(),
    ensures
        l.consistent(),
{
}

/// Account creation keeps the records and the owner index in agreement.
proof fn lemma_create_keeps_consistency(
    pre: Ledger,
    post: Ledger,
    sender: Seq<char>,
    name: Seq<char>,
)
    requires
        pre.consistent(),
        !pre.accounts().contains_key(name),
        post.accounts() == pre.accounts().insert(name, (sender, 0u128)),
        post.owner_index() == pre.owner_index().insert(sender, pre.accounts_of(sender).push(name)),
    ensures
        post.consistent(),
{
    let newlist = pre.accounts_of(sender).push(name);
    assert forall|id: Seq<char>, i: int|
        #![trigger post.owner_index()[id][i]]
        post.owner_index().contains_key(id) && 0 <= i < post.owner_index()[id].len() implies {
        &&& post.accounts().contains_key(post.owner_index()[id][i])
        &&& post.accounts()[post.owner_index()[id][i]].0 == id
    } by {
        if id == sender {
            if i < newlist.len() - 1 {
                assert(pre.owner_index().contains_key(sender));
                assert(post.owner_index()[id][i] == pre.owner_index()[sender][i]);
            }
        } else {
            assert(post.owner_index()[id][i] == pre.owner_index()[id][i]);
        }
    }
    assert(post.index_sound());
    assert forall|id: Seq<char>, i: int, j: int|
        #![trigger post.owner_index()[id][i], post.owner_index()[id][j]]
        post.owner_index().contains_key(id) && 0 <= i < j < post.owner_index()[id].len()
        implies post.owner_index()[id][i] != post.owner_index()[id][j] by {
        if id == sender {
            assert(pre.owner_index().contains_key(sender) || j < 1);
            if j < newlist.len() - 1 {
                assert(pre.owner_index()[sender][i] != pre.owner_index()[sender][j]);
            } else {
                // the appended name is no existing account, while every
                // earlier element of the list is one
                assert(pre.accounts().contains_key(pre.owner_index()[sender][i]));
            }
        } else {
            assert(pre.owner_index()[id][i] != pre.owner_index()[id][j]);
        }
    }
    assert(post.index_unique());
    assert forall|nm: Seq<char>|
        #![trigger post.accounts()[nm]]
        post.accounts().contains_key(nm) implies {
        &&& post.owner_index().contains_key(post.accounts()[nm].0)
        &&& exists|i: int|
            0 <= i < post.owner_index()[post.accounts()[nm].0].len()
                && post.owner_index()[post.accounts()[nm].0][i] == nm
    } by {
        if nm == name {
            assert(post.owner_index()[sender][newlist.len() - 1] == nm);
        } else {
            let id = pre.accounts()[nm].0;
            let w = choose|i: int|
                0 <= i < pre.owner_index()[id].len() && pre.owner_index()[id][i] == nm;
            assert(post.owner_index()[id][w] == nm);
        }
    }
    assert(post.index_complete());
}

/// A transition that keeps the account names, each account's owner and the
/// whole owner index also keeps the two in agreement.
proof fn lemma_owner_preserving_consistent(pre: Ledger, post: Ledger)
    requires
        pre.consistent(),
        post.owner_index() == pre.owner_index(),
        post.accounts().dom() == pre.accounts().dom(),
        forall|nm: Seq<char>|
            pre.accounts().contains_key(nm) ==> (#[trigger] post.accounts()[nm]).0
                == pre.accounts()[nm].0,
    ensures
        post.consistent(),
{
    assert forall|id: Seq<char>, i: int|
        #![trigger post.owner_index()[id][i]]
        post.owner_index().contains_key(id) && 0 <= i < post.owner_index()[id].len() implies {
        &&& post.accounts().contains_key(post.owner_index()[id][i])
        &&& post.accounts()[post.owner_index()[id][i]].0 == id
    } by {
        assert(post.owner_index()[id][i] == pre.owner_index()[id][i]);
        assert(pre.accounts().contains_key(pre.owner_index()[id][i]));
        assert(post.accounts()[pre.owner_index()[id][i]].0 == pre.accounts()[pre.owner_index()[id][i]].0);
    }
    assert(post.index_sound());
    assert(post.index_unique());
    assert forall|nm: Seq<char>|
        #![trigger post.accounts()[nm]]
        post.accounts().contains_key(nm) implies {
        &&& post.owner_index().contains_key(post.accounts()[nm].0)
        &&& exists|i: int|
            0 <= i < post.owner_index()[post.accounts()[nm].0].len()
                && post.owner_index()[post.accounts()[nm].0][i] == nm
    } by {
        let id = pre.accounts()[nm].0;
        assert(post.accounts()[nm].0 == id);
        let w = choose|i: int|
            0 <= i < pre.owner_index()[id].len() && pre.owner_index()[id][i] == nm;
        assert(post.owner_index()[id][w] == nm);
    }
    assert(post.index_complete());
}

/// Every operation keeps the records and the owner index in agreement: no
/// transition orphans an account or leaves a stale index entry behind.
pub proof fn lemma_execute_keeps_consistency(
    pre: Ledger,
    post: Ledger,
    sender: Seq<char>,
    msg: ExecuteMsg,
    r: Result<Outcome, ContractError>,
)
    requires
        pre.consistent(),
        execute_spec(pre, post, sender, msg, r),
    ensures
        post.consistent(),
{
    match msg {
        ExecuteMsg::CreateAccount { account_name } => {
            if !pre.accounts().contains_key(account_name@) {
                lemma_create_keeps_consistency(pre, post, sender, account_name@);
            } else {
                assert(post.accounts().dom() == pre.accounts().dom());
                lemma_owner_preserving_consistent(pre, post);
            }
        },
        _ => {
            assert(post.accounts().dom() =~= pre.accounts().dom());
            lemma_owner_preserving_consistent(pre, post);
        },
    }
}

} // verus!
