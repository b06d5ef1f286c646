use vstd::prelude::*;
use crate::decimal::spec_parse_unsigned;
use crate::error::StdError;

verus! {

/// The bytes that the base64 text `s` encodes, or `None` when `s` is not base64, as the
/// chain's standard library decodes it (standard alphabet, padding optional).
pub uninterp spec fn base64_decoded(s: Seq<char>) -> Option<Seq<u8>>;

/// `cosmwasm_std::Binary::from_base64`: the decoded bytes, or the error. Claims that it
/// succeeds exactly when `base64_decoded` gives bytes, and gives them, and that its error
/// is the invalid-base64 error, which its source makes of every decoding failure; the
/// decoder's message in that error is not stated.
#[verifier::external_body]
pub(crate) fn decode_base64(s: &str) -> (res: Result<Vec<u8>, StdError>)
    ensures
        match res {
            Ok(b) => base64_decoded(s@) == Some(b@),
            Err(e) => base64_decoded(s@) is None && e is InvalidBase64,
        },
{
    match cosmwasm_std::Binary::from_base64(s) {
        Ok(b) => Ok(b.to_vec()),
        Err(cosmwasm_std::StdError::InvalidBase64 { msg, .. }) => Err(StdError::InvalidBase64(msg)),
        Err(e) => Err(StdError::Other(e.to_string())),
    }
}

/// `cosmwasm_std::Uint128::from_str`: the number that `s` writes in decimal, or the error.
/// Its source parses `s` as a `u128` with `str::parse` and makes of a failure a generic
/// error whose message is `Parsing u128: ` followed by the parse error; the contract claims
/// the outcome that `spec_parse_unsigned` gives for `u128`, and that message's beginning.
/// The text of the parse error after it is not stated.
#[verifier::external_body]
pub(crate) fn uint128_from_str(s: &str) -> (res: Result<u128, StdError>)
    ensures
        match res {
            Ok(v) => spec_parse_unsigned(s@, u128::MAX as int) == Some(v as int),
            Err(e) => spec_parse_unsigned(s@, u128::MAX as int) is None && (e matches StdError::GenericErr(
                m,
            ) && "Parsing u128: "@.is_prefix_of(m@)),
        },
{
    match <cosmwasm_std::Uint128 as std::str::FromStr>::from_str(s) {
        Ok(v) => Ok(v.u128()),
        Err(cosmwasm_std::StdError::GenericErr { msg, .. }) => Err(StdError::GenericErr(msg)),
        Err(e) => Err(StdError::Other(e.to_string())),
    }
}

/// `cosmwasm_std::Uint128::multiply_ratio`: `value * numerator / denominator`, rounded
/// down, computed without intermediate overflow. Its source panics on a zero denominator
/// and on a result above `u128::MAX`, which `requires` leaves out.
#[verifier::external_body]
pub(crate) fn multiply_ratio(value: u128, numerator: u128, denominator: u128) -> (res: u128)
    requires
        denominator > 0,
        value * numerator / (denominator as int) <= u128::MAX,
    ensures
        res == value * numerator / (denominator as int),
{
    cosmwasm_std::Uint128::new(value).multiply_ratio(numerator, denominator).u128()
}

} // verus!
