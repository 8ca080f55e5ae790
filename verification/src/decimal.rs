//! Decimal rendering of unsigned integers, used to stringify balances and
//! account indices in state-change reports.

use vstd::prelude::*;
use vstd::string::{StrSliceExecFns, StringExecFns};

verus! {

/// The decimal digit character for `d`.
pub open spec fn digit_char(d: int) -> char {
    "0123456789"@[d]
}

/// The decimal rendering of `n`, most significant digit first, with no
/// leading zeros (zero itself renders as one digit).
pub open spec fn dec_str(n: int) -> Seq<char>
    decreases n,
{
    if n < 10 {
        seq![digit_char(n)]
    } else {
        dec_str(n / 10).push(digit_char(n % 10))
    }
}

/// The digit characters of `rem` read back to front.
pub open spec fn rev_digits(rem: Seq<u64>) -> Seq<char> {
    Seq::new(rem.len(), |i: int| digit_char(rem[rem.len() - 1 - i] as int))
}

/// Renders `n` in decimal.
pub fn u64_to_string(n: u64) -> (s: String)
    ensures
        s@ == dec_str(n as int),
{
    let digits = "0123456789";
    proof {
        reveal_strlit("0123456789");
        assert(vstd::string::is_ascii(digits));
    }
    if n < 10 {
        let s = digits.substring_ascii(n as usize, n as usize + 1).to_owned();
        proof {
            assert(s@ =~= dec_str(n as int));
        }
        return s;
    }
    let mut rem: Vec<u64> = Vec::new();
    let mut m: u64 = n;
    while m > 0
        invariant
            forall|i: int| 0 <= i < rem@.len() ==> rem@[i] < 10,
            dec_str(n as int) == (if m == 0 {
                Seq::<char>::empty()
            } else {
                dec_str(m as int)
            }) + rev_digits(rem@),
        decreases m,
    {
        let d = m % 10;
        let ghost rem0 = rem@;
        let ghost m0 = m as int;
        rem.push(d);
        m = m / 10;
        proof {
            assert(rev_digits(rem@) =~= seq![digit_char(d as int)] + rev_digits(rem0));
            if m == 0 {
                assert(dec_str(m0) == seq![digit_char(d as int)]);
                assert(dec_str(n as int) =~= rev_digits(rem@));
            } else {
                assert(dec_str(m0) == dec_str(m0 / 10).push(digit_char(m0 % 10)));
                assert(dec_str(m0 / 10).push(digit_char(d as int)) + rev_digits(rem0) =~= dec_str(
                    m0 / 10,
                ) + rev_digits(rem@));
            }
        }
    }
    let mut s = String::new();
    let count = rem.len();
    let mut k: usize = 0;
    while k < count
        invariant
            count == rem@.len(),
            k <= count,
            forall|i: int| 0 <= i < rem@.len() ==> rem@[i] < 10,
            vstd::string::is_ascii(digits),
            digits@ == "0123456789"@,
            digits@.len() == 10,
            s@ =~= rev_digits(rem@).take(k as int),
            dec_str(n as int) == rev_digits(rem@),
        decreases count - k,
    {
        let d = rem[count - 1 - k];
        let piece = digits.substring_ascii(d as usize, d as usize + 1);
        s.append(piece);
        proof {
            assert(piece@ =~= seq![digit_char(d as int)]);
            assert(s@ =~= rev_digits(rem@).take(k + 1));
        }
        k += 1;
    }
    proof {
        assert(s@ =~= rev_digits(rem@));
    }
    s
}

/// Renders the positional account label used in state-change reports.
pub fn account_label(idx: u64) -> (s: String)
    ensures
        s@ == "account_"@ + dec_str(idx as int),
{
    let mut s = "account_".to_owned();
    let num = u64_to_string(idx);
    s.append(num.as_str());
    s
}

} // verus!
