use arch_utils::account::{
    close_account_raw, create_or_allocate_account_raw, resize_or_reallocate_account_raw,
    AccountInfo, StateTransitionTx, UtxoMeta,
};
use arch_utils::error::ProgramError;

fn account(key: u8, data: Vec<u8>) -> AccountInfo {
    AccountInfo {
        key: [key; 32],
        owner: [0; 32],
        data,
        is_signer: true,
        utxo: UtxoMeta { txid: [key; 32], vout: key as u32 },
    }
}

fn spent(tx: &StateTransitionTx) -> u128 {
    tx.transitions.iter().map(|t| t.value as u128).sum()
}

fn paid(tx: &StateTransitionTx) -> u128 {
    tx.outputs.iter().map(|o| o.value as u128).sum()
}

#[test]
fn create_sizes_zeroed_data_and_adds_one_output() {
    let mut tx = StateTransitionTx::new();
    let mut new_account = account(2, vec![]);
    let system = account(0, vec![]);
    let payer = account(1, vec![]);
    let r = create_or_allocate_account_raw(&mut tx, &mut new_account, &system, &payer, 10, 546, vec![0x51, 0x20]);
    assert_eq!(r, Ok(()));
    assert_eq!(new_account.data, vec![0u8; 10]);
    assert_eq!(tx.outputs.len(), 1);
    assert_eq!(tx.outputs[0].value, 546);
    assert_eq!(tx.outputs[0].script_pubkey, vec![0x51, 0x20]);
    assert_eq!(tx.transitions[0].account, [2; 32]);
    assert_eq!(tx.transitions[0].utxo, new_account.utxo);
    assert_eq!(tx.inputs, vec![payer.utxo, new_account.utxo, system.utxo]);
}

#[test]
fn resize_to_same_size_does_nothing() {
    let mut tx = StateTransitionTx::new();
    let mut target = account(2, vec![1, 2, 3]);
    let r = resize_or_reallocate_account_raw(&mut tx, &mut target, &account(1, vec![]), &account(0, vec![]), 3, 1000, vec![1]);
    assert_eq!(r, Ok(()));
    assert_eq!(tx, StateTransitionTx::new());
    assert_eq!(target.data, vec![1, 2, 3]);
}

#[test]
fn resize_grows_with_zeros_and_shrinks_keeping_prefix() {
    let mut tx = StateTransitionTx::new();
    let mut grow = account(2, vec![1, 2, 3]);
    let r = resize_or_reallocate_account_raw(&mut tx, &mut grow, &account(1, vec![]), &account(0, vec![]), 5, 700, vec![7]);
    assert_eq!(r, Ok(()));
    assert_eq!(grow.data, vec![1, 2, 3, 0, 0]);
    let mut shrink = account(3, vec![4, 5, 6]);
    let r = resize_or_reallocate_account_raw(&mut tx, &mut shrink, &account(1, vec![]), &account(0, vec![]), 1, 300, vec![8]);
    assert_eq!(r, Ok(()));
    assert_eq!(shrink.data, vec![4]);
    assert_eq!(tx.outputs.len(), 2);
    assert_eq!(tx.inputs.len(), 4);
    assert_eq!(spent(&tx), 1000);
    assert_eq!(paid(&tx), 1000);
}

#[test]
fn close_sweeps_value_to_destination() {
    let mut tx = StateTransitionTx::new();
    let dest = account(1, vec![9]);
    let mut src = account(2, vec![1, 2, 3, 4]);
    let r = close_account_raw(&mut tx, &dest, &mut src, 12345, vec![0xDE, 0x57]);
    assert_eq!(r, Ok(()));
    assert!(src.data.is_empty());
    assert_eq!(tx.outputs.len(), 1);
    assert_eq!(tx.outputs[0].value, 12345);
    assert_eq!(tx.outputs[0].script_pubkey, vec![0xDE, 0x57]);
    assert_eq!(tx.transitions[0].account, src.key);
    assert_eq!(dest.data, vec![9]);
}

#[test]
fn second_change_of_an_account_is_refused() {
    let mut tx = StateTransitionTx::new();
    let mut a = account(2, vec![1, 2]);
    let funding = account(1, vec![]);
    let system = account(0, vec![]);
    assert_eq!(resize_or_reallocate_account_raw(&mut tx, &mut a, &funding, &system, 4, 10, vec![1]), Ok(()));
    let before = tx.clone();
    let data_before = a.data.clone();
    assert_eq!(
        close_account_raw(&mut tx, &funding, &mut a, 10, vec![2]),
        Err(ProgramError::InvalidStateTransition)
    );
    assert_eq!(
        create_or_allocate_account_raw(&mut tx, &mut a, &system, &funding, 8, 10, vec![1]),
        Err(ProgramError::InvalidStateTransition)
    );
    assert_eq!(tx, before);
    assert_eq!(a.data, data_before);
}

#[test]
fn values_are_conserved_across_operations() {
    let mut tx = StateTransitionTx::new();
    let payer = account(1, vec![]);
    let system = account(0, vec![]);
    let mut created = account(2, vec![]);
    let mut resized = account(3, vec![5; 8]);
    let mut closed = account(4, vec![6; 8]);
    create_or_allocate_account_raw(&mut tx, &mut created, &system, &payer, 32, u64::MAX, vec![1]).unwrap();
    resize_or_reallocate_account_raw(&mut tx, &mut resized, &payer, &system, 2, 5000, vec![2]).unwrap();
    close_account_raw(&mut tx, &payer, &mut closed, 330, vec![3]).unwrap();
    assert_eq!(spent(&tx), paid(&tx));
    assert_eq!(paid(&tx), u64::MAX as u128 + 5330);
    assert_eq!(tx.outputs.len(), 3);
}

#[test]
fn inputs_are_added_once() {
    let mut tx = StateTransitionTx::new();
    let u = UtxoMeta { txid: [1; 32], vout: 3 };
    tx.add_input(u);
    tx.add_input(u);
    tx.add_input(UtxoMeta { txid: [1; 32], vout: 4 });
    assert_eq!(tx.inputs.len(), 2);
    assert!(arch_utils::account::utxo_eq(&tx.inputs[0], &u));
    assert!(!arch_utils::account::utxo_eq(&tx.inputs[1], &u));
}

#[test]
fn realloc_truncates_or_zero_fills() {
    let mut a = account(1, vec![9, 8, 7]);
    a.realloc(5);
    assert_eq!(a.data, vec![9, 8, 7, 0, 0]);
    a.realloc(2);
    assert_eq!(a.data, vec![9, 8]);
    a.realloc(0);
    assert!(a.data.is_empty());
}

#[test]
fn transitions_are_found_by_key() {
    let mut tx = StateTransitionTx::new();
    let dest = account(1, vec![]);
    let mut src = account(2, vec![1]);
    assert!(!tx.has_transition(&src.key));
    close_account_raw(&mut tx, &dest, &mut src, 1, vec![]).unwrap();
    assert!(tx.has_transition(&[2; 32]));
    assert!(!tx.has_transition(&[1; 32]));
}

#[test]
fn well_formedness_is_checked() {
    let mut tx = StateTransitionTx::new();
    assert!(tx.is_well_formed());
    let dest = account(1, vec![]);
    let mut src = account(2, vec![1]);
    close_account_raw(&mut tx, &dest, &mut src, 50, vec![]).unwrap();
    assert!(tx.is_well_formed());
    let mut unpaired = tx.clone();
    unpaired.outputs[0].value = 49;
    assert!(!unpaired.is_well_formed());
    let mut doubled = tx.clone();
    doubled.transitions.push(doubled.transitions[0]);
    doubled.outputs.push(doubled.outputs[0].clone());
    assert!(!doubled.is_well_formed());
    let mut unspent = tx.clone();
    unspent.inputs.clear();
    assert!(!unspent.is_well_formed());
}
