use vstd::prelude::*;

use crate::error::ContractError;
use crate::msg::{
    AccountResponse, BalanceResponse, ExecuteMsg, Outcome, QueryAnswer, QueryMsg, ReceiveEnvelope,
    ReceiveMsg, TransferInstruction,
};
use crate::state::{BalanceData, Ledger, State};
use crate::store::Table;

verus! {

/// The account name a deposit request is addressed to.
pub open spec fn deposit_account(m: ReceiveMsg) -> Seq<char> {
    match m {
        ReceiveMsg::Deposit { account } => account@,
    }
}

/// The fee of a transfer: zero between accounts of one controller, otherwise
/// one percent of the amount, rounded down.
pub open spec fn transfer_fee(from_owner: Seq<char>, to_owner: Seq<char>, amount: u128) -> u128 {
    if from_owner == to_owner {
        0u128
    } else {
        amount / 100u128
    }
}

/// What ledger initialization returns: a fresh store whose administrator is
/// the initializing caller, or `InvalidAddress` where the host rejected the
/// currency reference.
pub open spec fn instantiate_spec(
    sender: Seq<char>,
    currency: Option<String>,
    r: Result<(Ledger, Outcome), ContractError>,
) -> bool {
    match currency {
        None => r == Err::<(Ledger, Outcome), ContractError>(ContractError::InvalidAddress),
        Some(c) => r matches Ok(p) && {
            &&& p.0.admin() == sender
            &&& p.0.currency() == c@
            &&& p.0.accounts() == Map::<Seq<char>, (Seq<char>, u128)>::empty()
            &&& p.0.owner_index() == Map::<Seq<char>, Seq<Seq<char>>>::empty()
            &&& p.1 matches Outcome::Instantiated { owner, currency: cur } && owner@ == sender
                && cur@ == c@
        },
    }
}

/// What account creation does: a fresh zero-balance record owned by the
/// caller, and the name appended to the caller's owner-index entry; or
/// `AlreadyExists`, with nothing changed, where the name is taken.
pub open spec fn create_spec(
    pre: Ledger,
    post: Ledger,
    sender: Seq<char>,
    name: Seq<char>,
    r: Result<Outcome, ContractError>,
) -> bool {
    &&& post.admin() == pre.admin()
    &&& post.currency() == pre.currency()
    &&& if pre.accounts().contains_key(name) {
        &&& r == Err::<Outcome, ContractError>(ContractError::AlreadyExists)
        &&& post.same_records(pre)
    } else {
        &&& r matches Ok(o) && o matches Outcome::Created { owner, address } && owner@ == sender
            && address@ == name
        &&& post.accounts() == pre.accounts().insert(name, (sender, 0u128))
        &&& post.owner_index() == pre.owner_index().insert(
            sender,
            pre.accounts_of(sender).push(name),
        )
    }
}

/// What crediting a deposit does: the named account's balance grows by the
/// amount; a missing account or an overflowing balance fails with nothing
/// changed.
pub open spec fn deposit_spec(
    pre: Ledger,
    post: Ledger,
    account: Seq<char>,
    amount: u128,
    depositor: Seq<char>,
    r: Result<Outcome, ContractError>,
) -> bool {
    &&& post.admin() == pre.admin()
    &&& post.currency() == pre.currency()
    &&& post.owner_index() == pre.owner_index()
    &&& if !pre.accounts().contains_key(account) {
        &&& r == Err::<Outcome, ContractError>(ContractError::NotFound)
        &&& post.accounts() == pre.accounts()
    } else if pre.accounts()[account].1 + amount > u128::MAX {
        &&& r == Err::<Outcome, ContractError>(ContractError::ArithmeticOverflow)
        &&& post.accounts() == pre.accounts()
    } else {
        &&& r matches Ok(o) && o matches Outcome::Deposited { owner, address, amount: amt }
            && owner@ == depositor && address@ == account && amt == amount
        &&& post.accounts() == pre.accounts().insert(
            account,
            (pre.accounts()[account].0, (pre.accounts()[account].1 + amount) as u128),
        )
    }
}

/// What a token-transfer notification does: only the configured currency may
/// trigger a deposit; any other sender is turned away unchanged.
pub open spec fn receive_spec(
    pre: Ledger,
    post: Ledger,
    sender: Seq<char>,
    depositor: Seq<char>,
    amount: u128,
    account: Seq<char>,
    r: Result<Outcome, ContractError>,
) -> bool {
    if sender != pre.currency() {
        &&& r == Err::<Outcome, ContractError>(ContractError::Unauthorized)
        &&& post.same_store(pre)
    } else {
        deposit_spec(pre, post, account, amount, depositor, r)
    }
}

/// What a withdrawal does: the owner, and only the owner, debits the account
/// within its balance, and one outbound instruction pays the amount to the
/// owner in the currency configured at call time.
pub open spec fn withdraw_spec(
    pre: Ledger,
    post: Ledger,
    sender: Seq<char>,
    account: Seq<char>,
    amount: u128,
    r: Result<Outcome, ContractError>,
) -> bool {
    &&& post.admin() == pre.admin()
    &&& post.currency() == pre.currency()
    &&& post.owner_index() == pre.owner_index()
    &&& if !pre.accounts().contains_key(account) {
        &&& r == Err::<Outcome, ContractError>(ContractError::NotFound)
        &&& post.accounts() == pre.accounts()
    } else if pre.accounts()[account].0 != sender {
        &&& r == Err::<Outcome, ContractError>(ContractError::Unauthorized)
        &&& post.accounts() == pre.accounts()
    } else if pre.accounts()[account].1 < amount {
        &&& r == Err::<Outcome, ContractError>(ContractError::InsufficientBalance)
        &&& post.accounts() == pre.accounts()
    } else {
        &&& r matches Ok(o) && o matches Outcome::Withdrawn {
            owner,
            address,
            amount: amt,
            instruction,
        } && owner@ == sender && address@ == account && amt == amount
            && instruction.currency@ == pre.currency() && instruction.recipient@ == sender
            && instruction.amount == amount
        &&& post.accounts() == pre.accounts().insert(
            account,
            (sender, (pre.accounts()[account].1 - amount) as u128),
        )
    }
}

/// What a transfer does: the sender's account is debited by the amount and
/// the receiving account credited with the amount less the fee, as one
/// atomic transition; the fee is credited nowhere. Checks run in order:
/// the source must exist, belong to the caller and cover the amount, then
/// the destination must exist, then the credit must fit.
pub open spec fn transfer_spec(
    pre: Ledger,
    post: Ledger,
    sender: Seq<char>,
    from: Seq<char>,
    to: Seq<char>,
    amount: u128,
    r: Result<Outcome, ContractError>,
) -> bool {
    let acc = pre.accounts();
    &&& post.admin() == pre.admin()
    &&& post.currency() == pre.currency()
    &&& post.owner_index() == pre.owner_index()
    &&& if !acc.contains_key(from) {
        &&& r == Err::<Outcome, ContractError>(ContractError::NotFound)
        &&& post.accounts() == acc
    } else if acc[from].0 != sender {
        &&& r == Err::<Outcome, ContractError>(ContractError::Unauthorized)
        &&& post.accounts() == acc
    } else if acc[from].1 < amount {
        &&& r == Err::<Outcome, ContractError>(ContractError::InsufficientBalance)
        &&& post.accounts() == acc
    } else if !acc.contains_key(to) {
        &&& r == Err::<Outcome, ContractError>(ContractError::NotFound)
        &&& post.accounts() == acc
    } else {
        let fee = transfer_fee(acc[from].0, acc[to].0, amount);
        let debited = acc.insert(from, (acc[from].0, (acc[from].1 - amount) as u128));
        if debited[to].1 + amount - fee > u128::MAX {
            &&& r == Err::<Outcome, ContractError>(ContractError::ArithmeticOverflow)
            &&& post.accounts() == acc
        } else {
            &&& r matches Ok(o) && o matches Outcome::Transferred {
                owner,
                from: f,
                to: t,
                amount: amt,
                fee: fe,
            } && owner@ == sender && f@ == from && t@ == to && amt == amount && fe == fee
            &&& post.accounts() == debited.insert(
                to,
                (debited[to].0, (debited[to].1 + amount - fee) as u128),
            )
        }
    }
}

/// What currency reconfiguration does: only the administrator replaces the
/// currency, the administrator itself never changes, and a reference the
/// host rejected fails with `InvalidAddress` before any state is touched.
pub open spec fn change_currency_spec(
    pre: Ledger,
    post: Ledger,
    sender: Seq<char>,
    currency: Option<String>,
    r: Result<Outcome, ContractError>,
) -> bool {
    &&& post.admin() == pre.admin()
    &&& post.same_records(pre)
    &&& if pre.admin() != sender {
        &&& r == Err::<Outcome, ContractError>(ContractError::Unauthorized)
        &&& post.currency() == pre.currency()
    } else {
        match currency {
            None => {
                &&& r == Err::<Outcome, ContractError>(ContractError::InvalidAddress)
                &&& post.currency() == pre.currency()
            },
            Some(nc) => {
                &&& r matches Ok(o) && o matches Outcome::CurrencyChanged { owner, currency: c }
                    && owner@ == sender && c@ == nc@
                &&& post.currency() == nc@
            },
        }
    }
}

/// What the dispatcher of mutating requests does, request by request.
pub open spec fn execute_spec(
    pre: Ledger,
    post: Ledger,
    sender: Seq<char>,
    msg: ExecuteMsg,
    r: Result<Outcome, ContractError>,
) -> bool {
    match msg {
        ExecuteMsg::CreateAccount { account_name } => create_spec(
            pre,
            post,
            sender,
            account_name@,
            r,
        ),
        ExecuteMsg::Receive(env) => receive_spec(
            pre,
            post,
            sender,
            env.sender@,
            env.amount,
            deposit_account(env.msg),
            r,
        ),
        ExecuteMsg::Withdraw { account, amount } => withdraw_spec(
            pre,
            post,
            sender,
            account@,
            amount,
            r,
        ),
        ExecuteMsg::Transfer { from, to, amount } => transfer_spec(
            pre,
            post,
            sender,
            from@,
            to@,
            amount,
            r,
        ),
        ExecuteMsg::ChangeCurrency { currency } => change_currency_spec(
            pre,
            post,
            sender,
            currency,
            r,
        ),
    }
}

/// What the read-only queries answer: the owner index entry verbatim, or the
/// account's balance; a lookup miss is `NotFound`, never a default value.
pub open spec fn query_spec(l: Ledger, msg: QueryMsg, r: Result<QueryAnswer, ContractError>) -> bool {
    match msg {
        QueryMsg::GetAccount { address } => {
            if l.owner_index().contains_key(address@) {
                r matches Ok(a) && a matches QueryAnswer::Account(resp)
                    && resp.account.deep_view() == l.owner_index()[address@]
            } else {
                r == Err::<QueryAnswer, ContractError>(ContractError::NotFound)
            }
        },
        QueryMsg::GetBalance { account } => {
            if l.accounts().contains_key(account@) {
                r matches Ok(a) && a matches QueryAnswer::Balance(resp)
                    && resp.balance == l.accounts()[account@].1
            } else {
                r == Err::<QueryAnswer, ContractError>(ContractError::NotFound)
            }
        },
    }
}

/// A copy of a name list with the same abstract content.
fn clone_names(v: &Vec<String>) -> (r: Vec<String>)
    ensures
        r.deep_view() == v.deep_view(),
{
    let mut r: Vec<String> = Vec::new();
    let mut i: usize = 0;
    while i < v.len()
        invariant
            i <= v.len(),
            r@.len() == i,
            forall|j: int| 0 <= j < i ==> r@[j] == v@[j],
        decreases v.len() - i,
    {
        r.push(v[i].clone());
        i = i + 1;
    }
    proof {
        assert(r.deep_view() =~= v.deep_view());
    }
    r
}

/// Initializes a ledger: the caller becomes the administrator, `currency`
/// (as validated by the host, `None` where it rejected the reference)
/// becomes the accepted token, and no accounts exist yet.
pub fn instantiate(sender: String, currency: Option<String>) -> (r: Result<
    (Ledger, Outcome),
    ContractError,
>)
    ensures
        instantiate_spec(sender@, currency, r),
{
    match currency {
        None => Err(ContractError::InvalidAddress),
        Some(c) => {
            let ledger = Ledger {
                state: State { owner: sender.clone(), currency: c.clone() },
                balances: Table::new(),
                owners: Table::new(),
            };
            Ok((ledger, Outcome::Instantiated { owner: sender, currency: c }))
        },
    }
}

/// Dispatches a mutating request to the operation it names.
pub fn execute(l: &mut Ledger, sender: String, msg: ExecuteMsg) -> (r: Result<
    Outcome,
    ContractError,
>)
    ensures
        execute_spec(*old(l), *final(l), sender@, msg, r),
{
    match msg {
        ExecuteMsg::CreateAccount { account_name } => try_create(l, &sender, account_name),
        ExecuteMsg::Receive(env) => try_receive(l, &sender, env),
        ExecuteMsg::Withdraw { account, amount } => try_withdraw(l, &sender, account, amount),
        ExecuteMsg::Transfer { from, to, amount } => try_transfer(l, &sender, from, to, amount),
        ExecuteMsg::ChangeCurrency { currency } => try_change_currency(l, &sender, currency),
    }
}

/// Creates a zero-balance account named `account_name`, owned by `sender`,
/// and appends the name to the sender's owner-index entry.
pub fn try_create(l: &mut Ledger, sender: &String, account_name: String) -> (r: Result<
    Outcome,
    ContractError,
>)
    ensures
        create_spec(*old(l), *final(l), sender@, account_name@, r),
{
    if l.balances.contains(&account_name) {
        return Err(ContractError::AlreadyExists);
    }
    l.balances.put(account_name.clone(), BalanceData { address: sender.clone(), value: 0 });
    let mut names: Vec<String> = match l.owners.get(sender) {
        None => Vec::new(),
        Some(cur) => clone_names(cur),
    };
    proof {
        assert(names.deep_view() =~= old(l).accounts_of(sender@));
    }
    let ghost prior = names.deep_view();
    names.push(account_name.clone());
    proof {
        assert(names.deep_view() =~= prior.push(account_name@));
    }
    l.owners.put(sender.clone(), names);
    Ok(Outcome::Created { owner: sender.clone(), address: account_name })
}

/// Reacts to a token-transfer notification: only the configured currency
/// identity may notify; the embedded request then credits the deposit.
pub fn try_receive(l: &mut Ledger, sender: &String, wrapped: ReceiveEnvelope) -> (r: Result<
    Outcome,
    ContractError,
>)
    ensures
        receive_spec(
            *old(l),
            *final(l),
            sender@,
            wrapped.sender@,
            wrapped.amount,
            deposit_account(wrapped.msg),
            r,
        ),
{
    if !(l.state.currency == *sender) {
        return Err(ContractError::Unauthorized);
    }
    let amount = wrapped.amount;
    match wrapped.msg {
        ReceiveMsg::Deposit { account } => receive_deposit(l, account, amount, wrapped.sender),
    }
}

/// Credits `amount` to the named account; the addition is checked, and an
/// overflowing balance is a hard failure, not a wraparound.
pub fn receive_deposit(l: &mut Ledger, account: String, amount: u128, sender: String) -> (r: Result<
    Outcome,
    ContractError,
>)
    ensures
        deposit_spec(*old(l), *final(l), account@, amount, sender@, r),
{
    let (owner_id, value) = match l.balances.get(&account) {
        None => {
            return Err(ContractError::NotFound);
        },
        Some(b) => (b.address.clone(), b.value),
    };
    let new_value = match value.checked_add(amount) {
        None => {
            return Err(ContractError::ArithmeticOverflow);
        },
        Some(v) => v,
    };
    l.balances.put(account.clone(), BalanceData { address: owner_id, value: new_value });
    Ok(Outcome::Deposited { owner: sender, address: account, amount })
}

/// Debits `amount` from the named account for its owner and produces the
/// outbound instruction paying the owner, in the currency configured now.
pub fn try_withdraw(l: &mut Ledger, sender: &String, account: String, amount: u128) -> (r: Result<
    Outcome,
    ContractError,
>)
    ensures
        withdraw_spec(*old(l), *final(l), sender@, account@, amount, r),
{
    let (owner_id, value) = match l.balances.get(&account) {
        None => {
            return Err(ContractError::NotFound);
        },
        Some(b) => (b.address.clone(), b.value),
    };
    if !(owner_id == *sender) {
        return Err(ContractError::Unauthorized);
    }
    if value < amount {
        return Err(ContractError::InsufficientBalance);
    }
    let currency = l.state.currency.clone();
    l.balances.put(account.clone(), BalanceData { address: owner_id, value: value - amount });
    let instruction = TransferInstruction { currency, recipient: sender.clone(), amount };
    Ok(Outcome::Withdrawn { owner: sender.clone(), address: account, amount, instruction })
}

/// Moves `amount` from `from` to `to` for the owner of `from`, charging the
/// cross-owner fee; both balance updates commit together or not at all.
pub fn try_transfer(
    l: &mut Ledger,
    sender: &String,
    from: String,
    to: String,
    amount: u128,
) -> (r: Result<Outcome, ContractError>)
    ensures
        transfer_spec(*old(l), *final(l), sender@, from@, to@, amount, r),
{
    let (from_owner, from_value) = match l.balances.get(&from) {
        None => {
            return Err(ContractError::NotFound);
        },
        Some(b) => (b.address.clone(), b.value),
    };
    if !(from_owner == *sender) {
        return Err(ContractError::Unauthorized);
    }
    if from_value < amount {
        return Err(ContractError::InsufficientBalance);
    }
    let (to_owner, to_value) = match l.balances.get(&to) {
        None => {
            return Err(ContractError::NotFound);
        },
        Some(b) => (b.address.clone(), b.value),
    };
    let fee: u128 = if from_owner == to_owner {
        0
    } else {
        amount / 100
    };
    proof {
        assert(amount / 100u128 <= amount) by (nonlinear_arith);
    }
    let debited_value = from_value - amount;
    let credit_base: u128 = if from == to {
        debited_value
    } else {
        to_value
    };
    let credited_value = match credit_base.checked_add(amount - fee) {
        None => {
            return Err(ContractError::ArithmeticOverflow);
        },
        Some(v) => v,
    };
    l.balances.put(from.clone(), BalanceData { address: from_owner, value: debited_value });
    l.balances.put(to.clone(), BalanceData { address: to_owner, value: credited_value });
    Ok(Outcome::Transferred { owner: sender.clone(), from, to, amount, fee })
}

/// Replaces the configured currency for the administrator; the administrator
/// identity itself never changes.
pub fn try_change_currency(l: &mut Ledger, sender: &String, currency: Option<String>) -> (r: Result<
    Outcome,
    ContractError,
>)
    ensures
        change_currency_spec(*old(l), *final(l), sender@, currency, r),
{
    if !(l.state.owner == *sender) {
        return Err(ContractError::Unauthorized);
    }
    match currency {
        None => Err(ContractError::InvalidAddress),
        Some(c) => {
            l.state.currency = c.clone();
            Ok(Outcome::CurrencyChanged { owner: sender.clone(), currency: c })
        },
    }
}

/// Dispatches a read-only request; queries never mutate the store.
pub fn query(l: &Ledger, msg: QueryMsg) -> (r: Result<QueryAnswer, ContractError>)
    ensures
        query_spec(*l, msg, r),
{
    match msg {
        QueryMsg::GetAccount { address } => match query_account(l, address) {
            Ok(resp) => Ok(QueryAnswer::Account(resp)),
            Err(e) => Err(e),
        },
        QueryMsg::GetBalance { account } => match query_balance(l, account) {
            Ok(resp) => Ok(QueryAnswer::Balance(resp)),
            Err(e) => Err(e),
        },
    }
}

/// The ordered account names `address` owns, verbatim from the owner index.
pub fn query_account(l: &Ledger, address: String) -> (r: Result<AccountResponse, ContractError>)
    ensures
        l.owner_index().contains_key(address@) ==> (r matches Ok(resp) && resp.account.deep_view()
            == l.owner_index()[address@]),
        !l.owner_index().contains_key(address@) ==> r == Err::<AccountResponse, ContractError>(
            ContractError::NotFound,
        ),
{
    match l.owners.get(&address) {
        Some(names) => Ok(AccountResponse { account: clone_names(names) }),
        None => Err(ContractError::NotFound),
    }
}

/// The balance of the named account.
pub fn query_balance(l: &Ledger, account: String) -> (r: Result<BalanceResponse, ContractError>)
    ensures
        l.accounts().contains_key(account@) ==> (r matches Ok(resp) && resp.balance
            == l.accounts()[account@].1),
        !l.accounts().contains_key(account@) ==> r == Err::<BalanceResponse, ContractError>(
            ContractError::NotFound,
        ),
{
    match l.balances.get(&account) {
        Some(b) => Ok(BalanceResponse { balance: b.value }),
        None => Err(ContractError::NotFound),
    }
}

} // verus!
