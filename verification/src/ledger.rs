//! The wire form of a transfer on the fungible-token ledger.
use vstd::prelude::*;

verus! {

/// The bytes that `cosmwasm_std::to_binary` gives for
/// `cw20::Cw20ExecuteMsg::Transfer` with this recipient and amount, or `None`
/// where the encoding fails.
pub uninterp spec fn transfer_encoding(recipient: Seq<char>, amount: u128) -> Option<Seq<u8>>;

/// Encodes a ledger transfer: builds `cw20::Cw20ExecuteMsg::Transfer` and
/// hands it to `cosmwasm_std::to_binary`. The encoding reads nothing but the
/// two arguments, so the contract names its outcome; what the bytes are is
/// not stated.
#[verifier::external_body]
pub(crate) fn encode_transfer(recipient: &String, amount: u128) -> (r: Result<Vec<u8>, cosmwasm_std::StdError>)
    ensures
        match r {
            Ok(bytes) => transfer_encoding(recipient@, amount) == Some(bytes@),
            Err(_) => transfer_encoding(recipient@, amount) is None,
        },
{
    let msg = cw20::Cw20ExecuteMsg::Transfer {
        recipient: recipient.clone(),
        amount: cosmwasm_std::Uint128::new(amount),
    };
    match cosmwasm_std::to_binary(&msg) {
        Ok(binary) => Ok(binary.0),
        Err(e) => Err(e),
    }
}

} // verus!
