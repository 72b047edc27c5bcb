//! Account-list helpers: membership over a vector of accounts and the
//! deduplication that turns a caller-supplied account list into the
//! registered-user set.

use vstd::prelude::*;

use crate::ledger::has_account;

verus! {

/// Appending an account extends membership by exactly that account.
pub proof fn lemma_has_account_push(s: Seq<String>, x: String, a: String)
    ensures
        has_account(s.push(x), a) <==> (has_account(s, a) || x@ == a@),
{
    if has_account(s, a) {
        let i = choose|i: int| 0 <= i < s.len() && s[i]@ == a@;
        assert(s.push(x)[i]@ == a@);
    }
    if x@ == a@ {
        assert(s.push(x)[s.len() as int]@ == a@);
    }
    if has_account(s.push(x), a) {
        let i = choose|i: int| 0 <= i < s.push(x).len() && s.push(x)[i]@ == a@;
        if i < s.len() {
            assert(s[i]@ == a@);
        }
    }
}

/// Whether `account` occurs in `v`.
pub fn vec_has_account(v: &Vec<String>, account: &String) -> (r: bool)
    ensures
        r == has_account(v@, *account),
{
    let mut i: usize = 0;
    while i < v.len()
        invariant
            i <= v.len(),
            forall|j: int| 0 <= j < i ==> v@[j]@ != account@,
        decreases v.len() - i,
    {
        if v[i] == *account {
            return true;
        }
        i = i + 1;
    }
    false
}

/// Deduplicates an account list into a set-like vector: every account of
/// the input occurs exactly once, first occurrences first.
pub fn account_vec_to_set(account_vec: Vec<String>) -> (r: Vec<String>)
    ensures
        forall|i: int, j: int| 0 <= i < j < r@.len() ==> r@[i]@ != r@[j]@,
        forall|x: String| #[trigger] has_account(r@, x) == has_account(account_vec@, x),
{
    let mut r: Vec<String> = Vec::new();
    let mut i: usize = 0;
    while i < account_vec.len()
        invariant
            i <= account_vec.len(),
            forall|p: int, q: int| 0 <= p < q < r@.len() ==> r@[p]@ != r@[q]@,
            forall|x: String|
                #[trigger] has_account(r@, x) == has_account(account_vec@.take(i as int), x),
        decreases account_vec.len() - i,
    {
        let ghost prev = r@;
        let ghost taken = account_vec@.take(i as int);
        let present = vec_has_account(&r, &account_vec[i]);
        if !present {
            let entry = account_vec[i].clone();
            r.push(entry);
        }
        proof {
            assert(account_vec@.take(i + 1) =~= taken.push(account_vec@[i as int]));
            assert forall|x: String| #[trigger] has_account(r@, x) == has_account(
                account_vec@.take(i + 1),
                x,
            ) by {
                lemma_has_account_push(taken, account_vec@[i as int], x);
                if !present {
                    lemma_has_account_push(prev, account_vec@[i as int], x);
                }
            }
        }
        i = i + 1;
    }
    proof {
        assert(account_vec@.take(account_vec@.len() as int) =~= account_vec@);
    }
    r
}

} // verus!
