use vstd::prelude::*;
use crate::account_id::AccountId;
use crate::errors::TransferError;
use crate::white_list::WhiteList;
use spl_tlv_account_resolution::account::ExtraAccountMeta;
use spl_tlv_account_resolution::seeds::Seed;
use spl_tlv_account_resolution::state::ExtraAccountMetaList;
use spl_transfer_hook_interface::instruction::ExecuteInstruction;

verus! {

/// The fixed label from which the allow-list record's address is derived.
/// The allow-list is a singleton: its address depends on this label alone,
/// not on the asset-class descriptor.
pub open spec fn allow_list_seed() -> Seq<u8> {
    // "white_list" in ASCII
    seq![119u8, 104u8, 105u8, 116u8, 101u8, 95u8, 108u8, 105u8, 115u8, 116u8]
}

/// The label's bytes, for handing to the record store.
pub fn allow_list_seed_bytes() -> (r: Vec<u8>)
    ensures
        r@ =~= allow_list_seed(),
{
    let mut v: Vec<u8> = Vec::new();
    v.push(119);
    v.push(104);
    v.push(105);
    v.push(116);
    v.push(101);
    v.push(95);
    v.push(108);
    v.push(105);
    v.push(115);
    v.push(116);
    v
}

/// One entry of the auxiliary-account-metadata record: it tells the
/// transfer engine to attach, on every validation call, the record whose
/// address derives from `seed`, with the given signer and writability
/// demands.
pub struct AccountDescriptor {
    pub seed: Vec<u8>,
    pub is_signer: bool,
    pub is_writable: bool,
}

/// The auxiliary records the transfer engine must supply when invoking the
/// validation hook: exactly one, the allow-list record — not a signer,
/// writable.
pub fn extra_account_metas() -> (r: Vec<AccountDescriptor>)
    ensures
        r@.len() == 1,
        r@[0].seed@ =~= allow_list_seed(),
        r@[0].is_signer == false,
        r@[0].is_writable == true,
{
    let mut v: Vec<AccountDescriptor> = Vec::new();
    v.push(AccountDescriptor {
        seed: allow_list_seed_bytes(),
        is_signer: false,
        is_writable: true,
    });
    v
}

/// The engine-readable encoding of a descriptor list that holds a single
/// seed-derived entry with the given literal seed and flags.
pub uninterp spec fn meta_list_encoding(seed: Seq<u8>, is_signer: bool, is_writable: bool) -> Seq<
    u8,
>;

/// Relies on spl_tlv_account_resolution: `ExtraAccountMeta::new_with_seeds`
/// builds a descriptor from one literal seed, and succeeds whenever the
/// packed seed configuration (two bytes of header plus the seed) fits its
/// 32-byte slot; `ExtraAccountMetaList::size_of` gives the exact byte size
/// of a one-descriptor list; `ExtraAccountMetaList::init` lays the list out
/// into a buffer of that size for the transfer engine's execute
/// instruction, and cannot fail on one. The encoding is a function of the
/// seed and the two flags alone.
#[verifier::external_body]
fn encode_single_meta(seed: &Vec<u8>, is_signer: bool, is_writable: bool) -> (r: Vec<u8>)
    requires
        seed@.len() + 2 <= 32,
    ensures
        r@ == meta_list_encoding(seed@, is_signer, is_writable),
{
    let meta = ExtraAccountMeta::new_with_seeds(
        &[Seed::Literal { bytes: seed.clone() }],
        is_signer,
        is_writable,
    ).unwrap();
    let mut buf = vec![0u8; ExtraAccountMetaList::size_of(1).unwrap()];
    ExtraAccountMetaList::init::<ExecuteInstruction>(&mut buf, &[meta]).unwrap();
    buf
}

/// One-time, idempotent bootstrap.
///
/// Provisions the allow-list record if it is absent — the fee-paying
/// initiator becomes its authority, with no entries — and never resets an
/// existing record: a re-invocation leaves its authority and entries
/// untouched. It then populates the auxiliary-account-metadata record with
/// the one descriptor of `extra_account_metas`, so the transfer engine
/// knows to attach the allow-list record to every future validation call.
pub fn initialize_extra_account_meta_list(
    white_list: &mut Option<WhiteList>,
    extra_account_meta_list: &mut Vec<u8>,
    payer: &AccountId,
) -> (r: Result<(), TransferError>)
    ensures
        r is Ok,
        *old(white_list) is Some ==> *final(white_list) == *old(white_list),
        *old(white_list) is None ==> (*final(white_list) matches Some(w) && w.wf()
            && w.authority == *payer && w.white_list@ =~= Seq::<AccountId>::empty()),
        final(extra_account_meta_list)@ == meta_list_encoding(allow_list_seed(), false, true),
{
    if white_list.is_none() {
        *white_list = Some(WhiteList::new(payer));
    }
    let descriptors = extra_account_metas();
    let descriptor = &descriptors[0];
    proof {
        assert(descriptor.seed@.len() == 10);
    }
    let encoded = encode_single_meta(&descriptor.seed, descriptor.is_signer, descriptor.is_writable);
    *extra_account_meta_list = encoded;
    Ok(())
}

} // verus!
