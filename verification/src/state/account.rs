use vstd::prelude::*;
use solana_program::account_info::AccountInfo;
use solana_program::pubkey::Pubkey;

verus! {

/// An account as the runtime hands it to a program. Nothing inside it is
/// visible to proofs: its data sits behind a shared, mutable cell.
#[verifier::external_type_specification]
#[verifier::external_body]
pub struct ExAccountInfo<'a>(AccountInfo<'a>);

/// The address of an account. It is carried through, never inspected.
#[verifier::external_type_specification]
#[verifier::external_body]
pub struct ExPubkey(Pubkey);

/// A copy of the bytes that the account holds, made through
/// `AccountInfo::try_borrow_data`; `None` where the data is mutably borrowed
/// elsewhere at that moment. Nothing is claimed of the bytes: they are
/// whatever the cell holds when the call is made.
#[verifier::external_body]
pub(crate) fn account_data(account: &AccountInfo) -> (data: Option<Vec<u8>>) {
    account.try_borrow_data().ok().map(|data| data.to_vec())
}

} // verus!
