use vstd::prelude::*;
use crate::decimal::{dec_digits, u128_to_decimal};

verus! {

/// The greeting returned for a name: a pure function of the name and the
/// fixed contract-name constant.
pub open spec fn spec_greeting(name: Seq<char>) -> Seq<char> {
    "Hello, "@ + name + "! This is Hello contract."@
}

/// The log line recording one data write. The key and value are interpolated
/// verbatim: embedded quote or brace characters are not escaped, so consumers
/// must not assume the line is well-formed JSON.
pub open spec fn spec_data_set_event(key: Seq<char>, value: Seq<char>) -> Seq<char> {
    "DATA_SET: {\"key\": \""@ + key + "\", \"value\": \""@ + value + "\"}"@
}

/// The log line recording one donation; the donor is interpolated verbatim,
/// without escaping, like the data-write line.
pub open spec fn spec_donation_event(donor: Seq<char>, amount: nat) -> Seq<char> {
    "DONATION: {\"donor\": \""@ + donor + "\", \"amount\": \""@ + dec_digits(amount) + "\"}"@
}

/// The human-readable acknowledgment returned by `donate`.
pub open spec fn spec_donation_ack(donor: Seq<char>, amount: nat) -> Seq<char> {
    "Thank you "@ + donor + " for donating "@ + dec_digits(amount) + " yoctoNEAR!"@
}

/// Builds the greeting for a name.
pub fn greeting(name: &str) -> (r: String)
    ensures
        r@ == spec_greeting(name@),
{
    let mut s = String::new();
    s.append("Hello, ");
    s.append(name);
    s.append("! This is Hello contract.");
    proof {
        assert(s@ =~= spec_greeting(name@));
    }
    s
}

/// Builds the log line for one data write.
pub fn data_set_event(key: &str, value: &str) -> (r: String)
    ensures
        r@ == spec_data_set_event(key@, value@),
{
    let mut s = String::new();
    s.append("DATA_SET: {\"key\": \"");
    s.append(key);
    s.append("\", \"value\": \"");
    s.append(value);
    s.append("\"}");
    proof {
        assert(s@ =~= spec_data_set_event(key@, value@));
    }
    s
}

/// Builds the log line for one donation.
pub fn donation_event(donor: &str, amount: u128) -> (r: String)
    ensures
        r@ == spec_donation_event(donor@, amount as nat),
{
    let amount_text = u128_to_decimal(amount);
    let mut s = String::new();
    s.append("DONATION: {\"donor\": \"");
    s.append(donor);
    s.append("\", \"amount\": \"");
    s.append(amount_text.as_str());
    s.append("\"}");
    proof {
        assert(s@ =~= spec_donation_event(donor@, amount as nat));
    }
    s
}

/// Builds the acknowledgment for one donation.
pub fn donation_ack(donor: &str, amount: u128) -> (r: String)
    ensures
        r@ == spec_donation_ack(donor@, amount as nat),
{
    let amount_text = u128_to_decimal(amount);
    let mut s = String::new();
    s.append("Thank you ");
    s.append(donor);
    s.append(" for donating ");
    s.append(amount_text.as_str());
    s.append(" yoctoNEAR!");
    proof {
        assert(s@ =~= spec_donation_ack(donor@, amount as nat));
    }
    s
}

} // verus!
