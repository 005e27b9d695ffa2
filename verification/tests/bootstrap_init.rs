use spl_tlv_account_resolution::account::ExtraAccountMeta;
use spl_tlv_account_resolution::seeds::Seed;
use spl_tlv_account_resolution::state::ExtraAccountMetaList;
use spl_transfer_hook_interface::instruction::ExecuteInstruction;
use transfer_hook::account_id::AccountId;
use transfer_hook::bootstrap::allow_list_seed_bytes;
use transfer_hook::bootstrap::extra_account_metas;
use transfer_hook::bootstrap::initialize_extra_account_meta_list;
use transfer_hook::white_list::WhiteList;
use transfer_hook::white_list::add_to_whitelist;

fn id(n: u8) -> AccountId {
    AccountId { bytes: [n; 32] }
}

#[test]
fn allow_list_seed_is_the_fixed_label() {
    assert_eq!(allow_list_seed_bytes(), b"white_list".to_vec());
}

#[test]
fn one_descriptor_not_signer_writable() {
    let metas = extra_account_metas();
    assert_eq!(metas.len(), 1);
    assert_eq!(metas[0].seed, b"white_list".to_vec());
    assert!(!metas[0].is_signer);
    assert!(metas[0].is_writable);
}

#[test]
fn initialize_creates_the_record_and_the_descriptor_list() {
    let payer = id(7);
    let mut record: Option<WhiteList> = None;
    let mut aux: Vec<u8> = Vec::new();

    initialize_extra_account_meta_list(&mut record, &mut aux, &payer).unwrap();

    let wl = record.expect("record must be created");
    assert_eq!(wl.authority.bytes, payer.bytes);
    assert_eq!(wl.len(), 0);

    // the descriptor list must be byte-identical to what the transfer
    // engine's account-resolution layout produces for one literal-seed entry
    let meta = ExtraAccountMeta::new_with_seeds(
        &[Seed::Literal { bytes: b"white_list".to_vec() }],
        false,
        true,
    )
    .unwrap();
    let mut expected = vec![0u8; ExtraAccountMetaList::size_of(1).unwrap()];
    ExtraAccountMetaList::init::<ExecuteInstruction>(&mut expected, &[meta]).unwrap();
    assert!(!expected.iter().all(|b| *b == 0));
    assert_eq!(aux, expected);
}

#[test]
fn initialize_twice_resets_neither_authority_nor_entries() {
    let payer = id(7);
    let other_payer = id(8);
    let entry = id(40);
    let mut record: Option<WhiteList> = None;
    let mut aux: Vec<u8> = Vec::new();

    initialize_extra_account_meta_list(&mut record, &mut aux, &payer).unwrap();
    {
        let wl = record.as_mut().unwrap();
        add_to_whitelist(wl, &entry, &payer).unwrap();
    }

    initialize_extra_account_meta_list(&mut record, &mut aux, &other_payer).unwrap();

    let wl = record.expect("record must survive");
    assert_eq!(wl.authority.bytes, payer.bytes);
    assert_eq!(wl.len(), 1);
    assert_eq!(wl.white_list[0].bytes, entry.bytes);
}
