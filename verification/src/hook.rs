use vstd::prelude::*;
use crate::account_id::AccountId;
use crate::errors::TransferError;
use crate::white_list::WhiteList;
use spl_token_2022::extension::BaseStateWithExtensions;
use spl_token_2022::extension::PodStateWithExtensions;
use spl_token_2022::extension::transfer_hook::TransferHookAccount;
use spl_token_2022::pod::PodAccount;

verus! {

/// The transfer-extension state of a source record, as the transfer engine
/// persists it in the record's bytes: `None` when the bytes do not parse as
/// an initialized token record carrying the transfer-hook extension,
/// otherwise the in-flight transfer marker.
pub uninterp spec fn transferring_of(data: Seq<u8>) -> Option<bool>;

/// Relies on spl_token_2022: `PodStateWithExtensions::<PodAccount>::unpack`
/// parses a token record's bytes, and
/// `BaseStateWithExtensions::get_extension::<TransferHookAccount>` reads its
/// transfer-hook extension. The marker read this way is a function of the
/// record's bytes alone.
#[verifier::external_body]
fn read_transferring_flag(data: &Vec<u8>) -> (r: Option<bool>)
    ensures
        r == transferring_of(data@),
{
    let state = match PodStateWithExtensions::<PodAccount>::unpack(data.as_slice()) {
        Ok(s) => s,
        Err(_) => return None,
    };
    let ext = match state.get_extension::<TransferHookAccount>() {
        Ok(e) => e,
        Err(_) => return None,
    };
    Some(bool::from(ext.transferring))
}

/// The per-call context the transfer engine reconstructs for every
/// validation call: the raw bytes of the source record, the asset-class
/// descriptor, the destination record's identifier and the source owner's
/// identity.
pub struct TransferContext {
    pub source_token_data: Vec<u8>,
    pub mint: AccountId,
    pub destination_token: AccountId,
    pub owner: AccountId,
}

/// The state-machine guard: the call is legitimate only while the transfer
/// engine has the source record's in-flight transfer marker set. An absent
/// extension or an unreadable record is a hard authorization failure, never
/// a silent pass.
pub fn check_is_transferring(source_token_data: &Vec<u8>) -> (r: Result<(), TransferError>)
    ensures
        r is Ok <==> transferring_of(source_token_data@) == Some(true),
        r is Err ==> r matches Err(TransferError::NotCurrentlyTransferring),
{
    match read_transferring_flag(source_token_data) {
        Some(true) => Ok(()),
        _ => Err(TransferError::NotCurrentlyTransferring),
    }
}

/// Decides a transfer, given the in-flight marker: the transfer goes
/// through exactly when the marker is set and the destination identifier
/// is an element of the allow-list. Each guard fails independently of the
/// other. `amount` is taken and never inspected: no per-amount threshold
/// exists, only the destination's identity matters.
pub fn evaluate_transfer(
    transferring: bool,
    destination_token: &AccountId,
    white_list: &WhiteList,
    amount: u64,
) -> (r: Result<(), TransferError>)
    ensures
        r is Ok <==> (transferring && white_list.white_list@.contains(*destination_token)),
        !transferring ==> r matches Err(TransferError::NotCurrentlyTransferring),
        transferring && !white_list.white_list@.contains(*destination_token)
            ==> r matches Err(TransferError::AccountNotWhitelisted),
{
    if !transferring {
        return Err(TransferError::NotCurrentlyTransferring);
    }
    if white_list.contains(destination_token) {
        Ok(())
    } else {
        Err(TransferError::AccountNotWhitelisted)
    }
}

/// The validation hook, invoked by the transfer engine on every transfer of
/// the governed asset class. It first proves the call is occurring inside a
/// genuine, in-flight transfer, then consults the allow-list; it mutates no
/// state.
pub fn transfer_hook(
    ctx: &TransferContext,
    white_list: &WhiteList,
    amount: u64,
) -> (r: Result<(), TransferError>)
    ensures
        r is Ok <==> (transferring_of(ctx.source_token_data@) == Some(true)
            && white_list.white_list@.contains(ctx.destination_token)),
        transferring_of(ctx.source_token_data@) != Some(true)
            ==> r matches Err(TransferError::NotCurrentlyTransferring),
        transferring_of(ctx.source_token_data@) == Some(true)
            && !white_list.white_list@.contains(ctx.destination_token)
            ==> r matches Err(TransferError::AccountNotWhitelisted),
{
    match read_transferring_flag(&ctx.source_token_data) {
        Some(flag) => evaluate_transfer(flag, &ctx.destination_token, white_list, amount),
        None => Err(TransferError::NotCurrentlyTransferring),
    }
}

} // verus!
