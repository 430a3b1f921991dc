//! Payments attached to a call, and the transfers a program asks for.
use vstd::prelude::*;

verus! {

/// An amount of one currency.
#[derive(Clone, Debug, PartialEq, Eq)]
pub struct Coin {
    pub denom: String,
    pub amount: u128,
}

/// Who made a call, and what was attached to it.
#[derive(Clone, Debug, PartialEq, Eq)]
pub struct MessageInfo {
    pub sender: String,
    pub funds: Vec<Coin>,
}

/// A transfer of funds to an address.
#[derive(Clone, Debug, PartialEq, Eq)]
pub struct BankSend {
    pub to_address: String,
    pub amount: Coin,
}

/// The amount of the first attached coin in `denom`, if any.
pub open spec fn attached_in(funds: Seq<Coin>, denom: Seq<char>) -> Option<u128>
    decreases funds.len(),
{
    if funds.len() == 0 {
        None
    } else if funds[0].denom@ == denom {
        Some(funds[0].amount)
    } else {
        attached_in(funds.drop_first(), denom)
    }
}

/// What was attached in `denom`, zero when nothing was.
pub open spec fn attached_or_zero(funds: Seq<Coin>, denom: Seq<char>) -> u128 {
    match attached_in(funds, denom) {
        Some(a) => a,
        None => 0,
    }
}

/// A payment in `denom` of at least `required` was attached.
pub open spec fn pays(funds: Seq<Coin>, denom: Seq<char>, required: u128) -> bool {
    match attached_in(funds, denom) {
        Some(a) => a >= required,
        None => false,
    }
}

/// Finds the first attached coin in `denom`.
pub fn find_attached(funds: &Vec<Coin>, denom: &String) -> (r: Option<u128>)
    ensures
        r == attached_in(funds@, denom@),
{
    let mut i: usize = 0;
    assert(funds@.subrange(0, funds@.len() as int) =~= funds@);
    while i < funds.len()
        invariant
            i <= funds@.len(),
            attached_in(funds@, denom@) == attached_in(funds@.subrange(i as int, funds@.len() as int), denom@),
        decreases funds@.len() - i,
    {
        let ghost rest = funds@.subrange(i as int, funds@.len() as int);
        assert(rest.drop_first() =~= funds@.subrange(i + 1, funds@.len() as int));
        if funds[i].denom == *denom {
            return Some(funds[i].amount);
        }
        i = i + 1;
    }
    assert(funds@.subrange(i as int, funds@.len() as int).len() == 0);
    None
}

} // verus!
