use vstd::prelude::*;
use vstd::string::*;

verus! {

/// Whether every character of a sequence is a decimal digit.
pub open spec fn all_digits(s: Seq<char>) -> bool {
    forall|i: int| 0 <= i < s.len() ==> '0' <= #[trigger] s[i] <= '9'
}

/// Relies on `rand::random_range`: draws one decimal digit, as a one-character
/// string, from the thread-local generator. Nothing is promised about which
/// digit comes back.
#[verifier::external_body]
fn random_digit() -> (d: String)
    ensures
        d@.len() == 1,
        '0' <= d@[0] <= '9',
{
    let n: u32 = rand::random_range(0..10);
    char::from_digit(n, 10).unwrap().to_string()
}

/// Generates a one-time code of `length` decimal digits, each drawn
/// independently at random.
pub fn generate_otp(length: usize) -> (otp: String)
    ensures
        otp@.len() == length,
        all_digits(otp@),
{
    let mut otp = String::new();
    let mut i: usize = 0;
    while i < length
        invariant
            i <= length,
            otp@.len() == i,
            all_digits(otp@),
        decreases length - i,
    {
        let d = random_digit();
        otp.append(d.as_str());
        i = i + 1;
    }
    otp
}

} // verus!
