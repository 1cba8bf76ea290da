use vstd::prelude::*;

use crate::errors::WalletError;

verus! {

/// A delta is accepted exactly when it keeps the balance non-negative.
pub open spec fn delta_accepted(balance: int, delta: int) -> bool {
    balance + delta >= 0
}

/// The balance after one attempt: applied when accepted, unchanged otherwise.
pub open spec fn next_balance(balance: int, delta: int) -> int {
    if delta_accepted(balance, delta) {
        balance + delta
    } else {
        balance
    }
}

/// The balance after a serialized sequence of attempts, earliest first.
pub open spec fn run(balance: int, deltas: Seq<int>) -> int
    decreases deltas.len(),
{
    if deltas.len() == 0 {
        balance
    } else {
        next_balance(run(balance, deltas.drop_last()), deltas.last())
    }
}

/// The sum of a sequence of deltas.
pub open spec fn sum(deltas: Seq<int>) -> int
    decreases deltas.len(),
{
    if deltas.len() == 0 {
        0
    } else {
        sum(deltas.drop_last()) + deltas.last()
    }
}

/// The subsequence of deltas that are accepted when the whole sequence is
/// applied in order starting from `balance`.
pub open spec fn accepted_deltas(balance: int, deltas: Seq<int>) -> Seq<int>
    decreases deltas.len(),
{
    if deltas.len() == 0 {
        Seq::empty()
    } else {
        let prior = accepted_deltas(balance, deltas.drop_last());
        if delta_accepted(run(balance, deltas.drop_last()), deltas.last()) {
            prior.push(deltas.last())
        } else {
            prior
        }
    }
}

/// Decide one attempt against a current balance: the new balance when the
/// delta keeps it non-negative, the rejection otherwise.
pub fn validate_delta(balance: i128, amount: i128) -> (r: Result<i128, WalletError>)
    requires
        balance >= 0,
        balance + amount <= i128::MAX,
    ensures
        delta_accepted(balance as int, amount as int) ==> (r matches Ok(nb)
            && nb == balance + amount),
        !delta_accepted(balance as int, amount as int) ==> r == Err::<i128,
            WalletError>(WalletError::InsufficientBalance),
        r is Ok <==> delta_accepted(balance as int, amount as int),
{
    let new_balance: i128 = balance + amount;
    if new_balance < 0 {
        Err(WalletError::InsufficientBalance)
    } else {
        Ok(new_balance)
    }
}

/// A non-negative starting balance stays non-negative under any sequence of
/// attempts: every attempt that would go below zero is rejected and leaves
/// the balance unchanged.
pub proof fn lemma_balance_never_negative(balance: int, deltas: Seq<int>)
    requires
        balance >= 0,
    ensures
        run(balance, deltas) >= 0,
    decreases deltas.len(),
{
    if deltas.len() > 0 {
        lemma_balance_never_negative(balance, deltas.drop_last());
    }
}

/// Appending one delta to a sequence adds it to the sum.
proof fn lemma_sum_push(deltas: Seq<int>, delta: int)
    ensures
        sum(deltas.push(delta)) == sum(deltas) + delta,
{
    assert(deltas.push(delta).drop_last() =~= deltas);
    assert(deltas.push(delta).last() == delta);
}

/// When every prefix sum of the deltas keeps the balance non-negative, every
/// delta is accepted, and the final balance is the start plus the sum of all
/// of them, whatever the order encodes.
pub proof fn lemma_all_accepted(balance: int, deltas: Seq<int>)
    requires
        balance >= 0,
        forall|i: int| 0 <= i <= deltas.len() ==> balance + sum(#[trigger] deltas.take(i)) >= 0,
    ensures
        run(balance, deltas) == balance + sum(deltas),
        accepted_deltas(balance, deltas) =~= deltas,
    decreases deltas.len(),
{
    if deltas.len() == 0 {
    } else {
        let prior = deltas.drop_last();
        assert(prior =~= deltas.take(deltas.len() - 1));
        assert forall|i: int| 0 <= i <= prior.len() implies balance + sum(#[trigger] prior.take(
            i,
        )) >= 0 by {
            assert(prior.take(i) =~= deltas.take(i));
        }
        lemma_all_accepted(balance, prior);
        assert(deltas.take(deltas.len() as int) =~= deltas);
        assert(balance + sum(deltas) >= 0);
        assert(sum(deltas) == sum(prior) + deltas.last());
        assert(delta_accepted(run(balance, prior), deltas.last()));
    }
}

/// The final balance is the start plus the sum of exactly the accepted
/// deltas; the rejected ones contribute nothing.
pub proof fn lemma_final_balance_is_accepted_sum(balance: int, deltas: Seq<int>)
    ensures
        run(balance, deltas) == balance + sum(accepted_deltas(balance, deltas)),
    decreases deltas.len(),
{
    if deltas.len() == 0 {
    } else {
        let prior = deltas.drop_last();
        lemma_final_balance_is_accepted_sum(balance, prior);
        if delta_accepted(run(balance, prior), deltas.last()) {
            lemma_sum_push(accepted_deltas(balance, prior), deltas.last());
        }
    }
}

} // verus!
