//! Accounts, their backing outputs, and the transaction that carries their new state.
use vstd::prelude::*;

use crate::error::ProgramError;
use crate::pubkey::{cmp_pubkeys, Pubkey};

verus! {

/// A confirmed transaction output: transaction id and output index.
#[derive(Debug, Clone, Copy, PartialEq, Eq)]
pub struct UtxoMeta {
    pub txid: [u8; 32],
    pub vout: u32,
}

/// An account as a program sees it during one invocation.
#[derive(Debug, Clone, PartialEq, Eq)]
pub struct AccountInfo {
    /// The account's identity.
    pub key: Pubkey,
    /// The program that owns the account.
    pub owner: Pubkey,
    /// The account's data.
    pub data: Vec<u8>,
    /// Whether the account signed the invocation.
    pub is_signer: bool,
    /// The output whose coin value backs the account.
    pub utxo: UtxoMeta,
}

/// `data` resized to `n` bytes: cut to its first `n` bytes, or extended with zeros.
pub open spec fn resized(data: Seq<u8>, n: nat) -> Seq<u8> {
    if n <= data.len() {
        data.subrange(0, n as int)
    } else {
        data + Seq::new((n - data.len()) as nat, |i: int| 0u8)
    }
}

impl AccountInfo {
    /// Resizes the account's data to `new_len` bytes, keeping the leading bytes and
    /// filling any new ones with zeros.
    pub fn realloc(&mut self, new_len: usize)
        ensures
            final(self).data@ == resized(old(self).data@, new_len as nat),
            final(self).key == old(self).key,
            final(self).owner == old(self).owner,
            final(self).is_signer == old(self).is_signer,
            final(self).utxo == old(self).utxo,
    {
        if new_len <= self.data.len() {
            self.data.truncate(new_len);
        } else {
            let ghost before = self.data@;
            while self.data.len() < new_len
                invariant
                    before.len() <= self.data@.len() <= new_len,
                    self.data@ == resized(before, self.data@.len() as nat),
                    self.key == old(self).key,
                    self.owner == old(self).owner,
                    self.is_signer == old(self).is_signer,
                    self.utxo == old(self).utxo,
                decreases new_len - self.data@.len(),
            {
                self.data.push(0u8);
                assert(self.data@ =~= resized(before, self.data@.len() as nat));
            }
        }
        assert(self.data@ =~= resized(old(self).data@, new_len as nat));
    }
}

/// Whether two outputs are the same.
pub fn utxo_eq(a: &UtxoMeta, b: &UtxoMeta) -> (r: bool)
    ensures
        r == (*a == *b),
{
    broadcast use vstd::array::group_array_axioms;

    if a.vout != b.vout {
        return false;
    }
    let same = cmp_pubkeys(&a.txid, &b.txid);
    if same {
        assert(a.txid == b.txid);
    }
    same
}

/// An output of the transaction: a coin value locked under a script.
#[derive(Debug, Clone, PartialEq, Eq)]
pub struct TxOut {
    pub value: u64,
    pub script_pubkey: Vec<u8>,
}

/// A structural change of an account: its identity, the output it spends, and that
/// output's coin value.
#[derive(Debug, Clone, Copy, PartialEq, Eq)]
pub struct StateTransition {
    pub account: Pubkey,
    pub utxo: UtxoMeta,
    pub value: u64,
}

/// The transaction that carries the new state of the accounts of one invocation.
#[derive(Debug, Clone, PartialEq, Eq)]
pub struct StateTransitionTx {
    /// The outputs of the participating accounts, each once.
    pub inputs: Vec<UtxoMeta>,
    /// The structural changes, at most one per account, in the order they were made.
    pub transitions: Vec<StateTransition>,
    /// The outputs; the i-th carries the value that the i-th change spends.
    pub outputs: Vec<TxOut>,
}

/// Sum of the coin values that the changes spend.
pub open spec fn spent_total(s: Seq<StateTransition>) -> int
    decreases s.len(),
{
    if s.len() == 0 {
        0
    } else {
        spent_total(s.drop_last()) + s.last().value
    }
}

/// Sum of the outputs' coin values.
pub open spec fn output_total(s: Seq<TxOut>) -> int
    decreases s.len(),
{
    if s.len() == 0 {
        0
    } else {
        output_total(s.drop_last()) + s.last().value
    }
}

/// Whether the account `key` already has a structural change among `s`.
pub open spec fn has_transition(s: Seq<StateTransition>, key: Seq<u8>) -> bool {
    exists|i: int| 0 <= i < s.len() && s[i].account@ == key
}

/// `inputs` with `u` added unless it is already there.
pub open spec fn with_input(inputs: Seq<UtxoMeta>, u: UtxoMeta) -> Seq<UtxoMeta> {
    if inputs.contains(u) {
        inputs
    } else {
        inputs.push(u)
    }
}

impl StateTransitionTx {
    /// Each change is paired with the output at its position, which carries its value,
    /// no account has two changes, and each change spends one of the inputs.
    pub open spec fn wf(&self) -> bool {
        &&& self.outputs@.len() == self.transitions@.len()
        &&& forall|i: int|
            0 <= i < self.transitions@.len() ==> #[trigger] self.outputs@[i].value
                == self.transitions@[i].value
        &&& forall|i: int, j: int|
            0 <= i < j < self.transitions@.len() ==> #[trigger] self.transitions@[i].account@
                != #[trigger] self.transitions@[j].account@
        &&& forall|i: int|
            0 <= i < self.transitions@.len() ==> self.inputs@.contains(
                #[trigger] self.transitions@[i].utxo,
            )
    }

    /// A transaction with no input, change or output.
    pub fn new() -> (r: StateTransitionTx)
        ensures
            r.wf(),
            r.inputs@.len() == 0,
            r.transitions@.len() == 0,
            r.outputs@.len() == 0,
    {
        StateTransitionTx { inputs: Vec::new(), transitions: Vec::new(), outputs: Vec::new() }
    }

    /// Adds the output `utxo` of a participating account, unless it is already an input.
    pub fn add_input(&mut self, utxo: UtxoMeta)
        ensures
            final(self).inputs@ == with_input(old(self).inputs@, utxo),
            final(self).inputs@.contains(utxo),
            forall|u: UtxoMeta| old(self).inputs@.contains(u) ==> final(self).inputs@.contains(u),
            final(self).transitions == old(self).transitions,
            final(self).outputs == old(self).outputs,
            old(self).wf() ==> final(self).wf(),
    {
        let mut i: usize = 0;
        while i < self.inputs.len()
            invariant
                i <= self.inputs@.len(),
                forall|j: int| 0 <= j < i ==> self.inputs@[j] != utxo,
            decreases self.inputs@.len() - i,
        {
            if utxo_eq(&self.inputs[i], &utxo) {
                assert(self.inputs@.contains(utxo));
                return;
            }
            i = i + 1;
        }
        let ghost before = self.inputs@;
        self.inputs.push(utxo);
        assert(self.inputs@[before.len() as int] == utxo);
        assert forall|u: UtxoMeta| before.contains(u) implies self.inputs@.contains(u) by {
            let k = choose|k: int| 0 <= k < before.len() && before[k] == u;
            assert(self.inputs@[k] == u);
        }
    }

    /// Whether the transaction is well-formed.
    pub fn is_well_formed(&self) -> (r: bool)
        ensures
            r == self.wf(),
    {
        let n = self.transitions.len();
        if self.outputs.len() != n {
            return false;
        }
        let mut i: usize = 0;
        while i < n
            invariant
                n == self.transitions@.len(),
                self.outputs@.len() == n,
                i <= n,
                forall|k: int| 0 <= k < i ==> #[trigger] self.outputs@[k].value
                    == self.transitions@[k].value,
                forall|k: int, l: int|
                    0 <= k < l < i ==> #[trigger] self.transitions@[k].account@
                        != #[trigger] self.transitions@[l].account@,
                forall|k: int| 0 <= k < i ==> self.inputs@.contains(#[trigger] self.transitions@[k].utxo),
            decreases n - i,
        {
            if self.outputs[i].value != self.transitions[i].value {
                return false;
            }
            let mut j: usize = 0;
            while j < i
                invariant
                    n == self.transitions@.len(),
                    i < n,
                    j <= i,
                    forall|k: int| 0 <= k < j ==> self.transitions@[k].account@
                        != self.transitions@[i as int].account@,
                decreases i - j,
            {
                if cmp_pubkeys(&self.transitions[j].account, &self.transitions[i].account) {
                    assert(self.transitions@[j as int].account@ == self.transitions@[i as int].account@);
                    return false;
                }
                j = j + 1;
            }
            let mut found = false;
            let mut m: usize = 0;
            while m < self.inputs.len()
                invariant
                    n == self.transitions@.len(),
                    i < n,
                    m <= self.inputs@.len(),
                    found ==> self.inputs@.contains(self.transitions@[i as int].utxo),
                    !found ==> forall|k: int| 0 <= k < m ==> self.inputs@[k] != self.transitions@[i as int].utxo,
                decreases self.inputs@.len() - m,
            {
                if !found && utxo_eq(&self.inputs[m], &self.transitions[i].utxo) {
                    found = true;
                }
                m = m + 1;
            }
            if !found {
                let ghost u = self.transitions@[i as int].utxo;
                assert(!self.inputs@.contains(u));
                assert(!self.wf()) by {
                    if self.wf() {
                        assert(self.inputs@.contains(self.transitions@[i as int].utxo));
                    }
                }
                return false;
            }
            i = i + 1;
        }
        true
    }

    /// Whether the account `key` already has a structural change in this transaction.
    pub fn has_transition(&self, key: &Pubkey) -> (r: bool)
        ensures
            r == has_transition(self.transitions@, key@),
    {
        let mut i: usize = 0;
        while i < self.transitions.len()
            invariant
                i <= self.transitions@.len(),
                forall|j: int| 0 <= j < i ==> self.transitions@[j].account@ != key@,
            decreases self.transitions@.len() - i,
        {
            if cmp_pubkeys(&self.transitions[i].account, key) {
                return true;
            }
            i = i + 1;
        }
        false
    }
}

proof fn lemma_totals_match(t: Seq<StateTransition>, o: Seq<TxOut>)
    requires
        t.len() == o.len(),
        forall|i: int| 0 <= i < t.len() ==> #[trigger] o[i].value == t[i].value,
    ensures
        spent_total(t) == output_total(o),
    decreases t.len(),
{
    if t.len() > 0 {
        let (t2, o2) = (t.drop_last(), o.drop_last());
        assert forall|i: int| 0 <= i < t2.len() implies #[trigger] o2[i].value == t2[i].value by {
            assert(o2[i] == o[i] && t2[i] == t[i]);
        }
        lemma_totals_match(t2, o2);
        assert(o.last().value == t.last().value);
    }
}

/// Value conservation: in a well-formed transaction, which every lifecycle operation
/// keeps well-formed, the coin values that the structural changes spend add up to the
/// coin values of the outputs.
pub proof fn lemma_value_conservation(tx: StateTransitionTx)
    requires
        tx.wf(),
    ensures
        spent_total(tx.transitions@) == output_total(tx.outputs@),
{
    lemma_totals_match(tx.transitions@, tx.outputs@);
}

/// `tx` after the change of `account`, spending `utxo` worth `value`, with one output
/// carrying that value to `script`.
pub open spec fn recorded(
    tx: StateTransitionTx,
    after: StateTransitionTx,
    account: Pubkey,
    utxo: UtxoMeta,
    value: u64,
    script: Seq<u8>,
) -> bool {
    &&& after.transitions@ == tx.transitions@.push(
        StateTransition { account, utxo, value },
    )
    &&& after.outputs@.len() == tx.outputs@.len() + 1
    &&& after.outputs@.drop_last() == tx.outputs@
    &&& after.outputs@.last().value == value
    &&& after.outputs@.last().script_pubkey@ == script
}

/// Records the structural change of `account` and appends its one output.
fn record_structural_change(
    tx: &mut StateTransitionTx,
    account: Pubkey,
    utxo: UtxoMeta,
    value: u64,
    script_pubkey: Vec<u8>,
)
    requires
        old(tx).wf(),
        !has_transition(old(tx).transitions@, account@),
        old(tx).inputs@.contains(utxo),
    ensures
        final(tx).wf(),
        final(tx).inputs == old(tx).inputs,
        recorded(*old(tx), *final(tx), account, utxo, value, script_pubkey@),
{
    tx.transitions.push(StateTransition { account, utxo, value });
    tx.outputs.push(TxOut { value, script_pubkey });
    assert(tx.outputs@.drop_last() =~= old(tx).outputs@);
    assert forall|i: int, j: int|
        0 <= i < j < tx.transitions@.len() implies #[trigger] tx.transitions@[i].account@
        != #[trigger] tx.transitions@[j].account@ by {
        if j == tx.transitions@.len() - 1 {
            assert(old(tx).transitions@[i] == tx.transitions@[i]);
        } else {
            assert(old(tx).transitions@[i] == tx.transitions@[i]);
            assert(old(tx).transitions@[j] == tx.transitions@[j]);
        }
    }
    assert forall|i: int| 0 <= i < tx.transitions@.len() implies #[trigger] tx.outputs@[i].value
        == tx.transitions@[i].value by {
        if i < old(tx).transitions@.len() {
            assert(old(tx).outputs@[i] == tx.outputs@[i]);
            assert(old(tx).transitions@[i] == tx.transitions@[i]);
        }
    }
    assert forall|i: int| 0 <= i < tx.transitions@.len() implies tx.inputs@.contains(
        #[trigger] tx.transitions@[i].utxo,
    ) by {
        if i < old(tx).transitions@.len() {
            assert(old(tx).transitions@[i] == tx.transitions@[i]);
        }
    }
}

/// Creates an account's storage: sizes its data to `size` zero bytes and carries the
/// coin value of its output, `utxo_value`, forward to `script_pubkey`, the script of its
/// own identity. The payer, the new account and the system program take part as inputs.
/// Fails, changing nothing, where the account already changed in this transaction.
pub fn create_or_allocate_account_raw(
    tx: &mut StateTransitionTx,
    new_account_info: &mut AccountInfo,
    system_program_info: &AccountInfo,
    payer_info: &AccountInfo,
    size: usize,
    utxo_value: u64,
    script_pubkey: Vec<u8>,
) -> (r: Result<(), ProgramError>)
    requires
        old(tx).wf(),
    ensures
        final(tx).wf(),
        r is Err <==> has_transition(old(tx).transitions@, old(new_account_info).key@),
        r is Err ==> r == Err::<(), ProgramError>(ProgramError::InvalidStateTransition)
            && *final(tx) == *old(tx) && *final(new_account_info) == *old(new_account_info),
        r is Ok ==> {
            &&& final(new_account_info).data@ == resized(
                old(new_account_info).data@,
                size as nat,
            )
            &&& final(new_account_info).key == old(new_account_info).key
            &&& final(new_account_info).owner == old(new_account_info).owner
            &&& final(new_account_info).is_signer == old(new_account_info).is_signer
            &&& final(new_account_info).utxo == old(new_account_info).utxo
            &&& final(tx).inputs@ == with_input(
                with_input(
                    with_input(old(tx).inputs@, payer_info.utxo),
                    old(new_account_info).utxo,
                ),
                system_program_info.utxo,
            )
            &&& recorded(
                *old(tx),
                *final(tx),
                old(new_account_info).key,
                old(new_account_info).utxo,
                utxo_value,
                script_pubkey@,
            )
        },
{
    if tx.has_transition(&new_account_info.key) {
        return Err(ProgramError::InvalidStateTransition);
    }
    tx.add_input(payer_info.utxo);
    tx.add_input(new_account_info.utxo);
    tx.add_input(system_program_info.utxo);
    new_account_info.realloc(size);
    record_structural_change(tx, new_account_info.key, new_account_info.utxo, utxo_value, script_pubkey);
    Ok(())
}

/// Resizes an account's storage to `new_size` bytes and carries the coin value of its
/// output, `utxo_value`, forward to `script_pubkey`, the script of its own identity.
/// Where the size is already `new_size` nothing is done. Fails, changing nothing, where
/// the account already changed in this transaction.
pub fn resize_or_reallocate_account_raw(
    tx: &mut StateTransitionTx,
    target_account: &mut AccountInfo,
    funding_account: &AccountInfo,
    system_program: &AccountInfo,
    new_size: usize,
    utxo_value: u64,
    script_pubkey: Vec<u8>,
) -> (r: Result<(), ProgramError>)
    requires
        old(tx).wf(),
    ensures
        final(tx).wf(),
        old(target_account).data@.len() == new_size ==> r is Ok && *final(tx) == *old(tx)
            && *final(target_account) == *old(target_account),
        old(target_account).data@.len() != new_size ==> {
            &&& r is Err <==> has_transition(old(tx).transitions@, old(target_account).key@)
            &&& r is Err ==> r == Err::<(), ProgramError>(ProgramError::InvalidStateTransition)
                && *final(tx) == *old(tx) && *final(target_account) == *old(target_account)
            &&& r is Ok ==> {
                &&& final(target_account).data@ == resized(
                    old(target_account).data@,
                    new_size as nat,
                )
                &&& final(target_account).key == old(target_account).key
                &&& final(target_account).owner == old(target_account).owner
                &&& final(target_account).is_signer == old(target_account).is_signer
                &&& final(target_account).utxo == old(target_account).utxo
                &&& final(tx).inputs@ == with_input(
                    with_input(
                        with_input(old(tx).inputs@, funding_account.utxo),
                        old(target_account).utxo,
                    ),
                    system_program.utxo,
                )
                &&& recorded(
                    *old(tx),
                    *final(tx),
                    old(target_account).key,
                    old(target_account).utxo,
                    utxo_value,
                    script_pubkey@,
                )
            }
        },
{
    let current_size = target_account.data.len();
    if new_size == current_size {
        return Ok(());
    }
    if tx.has_transition(&target_account.key) {
        return Err(ProgramError::InvalidStateTransition);
    }
    tx.add_input(funding_account.utxo);
    tx.add_input(target_account.utxo);
    tx.add_input(system_program.utxo);
    target_account.realloc(new_size);
    record_structural_change(tx, target_account.key, target_account.utxo, utxo_value, script_pubkey);
    Ok(())
}

/// Closes an account: empties its data and sweeps the coin value of its output,
/// `utxo_value`, to `dest_script_pubkey`, the script of the destination's identity.
/// Fails, changing nothing, where the source already changed in this transaction.
pub fn close_account_raw(
    tx: &mut StateTransitionTx,
    dest_account_info: &AccountInfo,
    src_account_info: &mut AccountInfo,
    utxo_value: u64,
    dest_script_pubkey: Vec<u8>,
) -> (r: Result<(), ProgramError>)
    requires
        old(tx).wf(),
    ensures
        final(tx).wf(),
        r is Err <==> has_transition(old(tx).transitions@, old(src_account_info).key@),
        r is Err ==> r == Err::<(), ProgramError>(ProgramError::InvalidStateTransition)
            && *final(tx) == *old(tx) && *final(src_account_info) == *old(src_account_info),
        r is Ok ==> {
            &&& final(src_account_info).data@.len() == 0
            &&& final(src_account_info).key == old(src_account_info).key
            &&& final(src_account_info).owner == old(src_account_info).owner
            &&& final(src_account_info).is_signer == old(src_account_info).is_signer
            &&& final(src_account_info).utxo == old(src_account_info).utxo
            &&& final(tx).inputs@ == with_input(
                with_input(old(tx).inputs@, dest_account_info.utxo),
                old(src_account_info).utxo,
            )
            &&& recorded(
                *old(tx),
                *final(tx),
                old(src_account_info).key,
                old(src_account_info).utxo,
                utxo_value,
                dest_script_pubkey@,
            )
        },
{
    if tx.has_transition(&src_account_info.key) {
        return Err(ProgramError::InvalidStateTransition);
    }
    tx.add_input(dest_account_info.utxo);
    tx.add_input(src_account_info.utxo);
    src_account_info.realloc(0);
    record_structural_change(tx, src_account_info.key, src_account_info.utxo, utxo_value, dest_script_pubkey);
    Ok(())
}

} // verus!
