//! What a refused sale says about the balance that is held.

use crate::fixed::{sat, saturate};
use crate::text::{
    chars_of, digit_run, find_ignoring_case, first_from, lowered, number_of, read_number,
    skip_digits, skip_white, white_run,
};
use vstd::prelude::*;

verus! {

/// Billionths of a token in one base unit of the exchange.
pub const BASE_UNIT: i128 = 1000;

/// Whether a refusal speaks of the balance.
pub open spec fn mentions_balance(error: Seq<char>) -> bool {
    first_from(lowered(error), "balance"@, 0) is Some
}

/// The balance that a refusal states: the digits behind the first `balance:`, which count base
/// units, as a quantity of tokens.
pub open spec fn balance_of(error: Seq<char>) -> Option<int> {
    match first_from(lowered(error), "balance:"@, 0) {
        Some(i) => {
            let behind = i + "balance:"@.len();
            let from = behind + white_run(error, behind);
            let run = digit_run(error, from);
            if run == 0 {
                None
            } else {
                Some(sat(number_of(error.subrange(from, from + run)) * BASE_UNIT))
            }
        },
        None => None,
    }
}

/// Whether a refusal states that something is held.
pub open spec fn states_balance(error: Seq<char>) -> bool {
    balance_of(error) is Some && balance_of(error)->0 > 0
}

/// Whether a refusal speaks of the balance.
pub fn speaks_of_balance(error: &str) -> (r: bool)
    ensures
        r == mentions_balance(error@),
{
    find_ignoring_case(&chars_of(error), "balance").is_some()
}

/// Reads the balance that is really held out of a refusal such as
/// `"...the balance is not enough -> balance: 4995787, order amount: 5000000"`.
pub fn parse_balance_base_units(error: &str) -> (r: Option<i64>)
    ensures
        match r {
            Some(held) => balance_of(error@) == Some(held as int) && held >= 0,
            None => balance_of(error@) is None,
        },
{
    let s: Vec<char> = chars_of(error);
    proof {
        reveal_strlit("balance:");
    }
    match find_ignoring_case(&s, "balance:") {
        Some(i) => {
            let from: usize = skip_white(&s, i + 8);
            let to: usize = skip_digits(&s, from);
            if to == from {
                return None;
            }
            let n: i128 = read_number(&s, from, to, 0x1_0000_0000_0000_0000);
            Some(saturate(n * BASE_UNIT))
        },
        None => None,
    }
}

} // verus!
