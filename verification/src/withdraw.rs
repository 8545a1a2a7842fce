//! Withdrawal of paid invoices.
//!
//! The engine decides; the transfer itself is submitted by an external
//! capability the caller drives. A withdrawal runs in two steps:
//! `prepare_withdrawal` resolves the invoice and hands back the transfer to
//! submit, and `record_withdrawal` marks the invoice withdrawn once the
//! submission succeeded. A repeat request after a recorded withdrawal is
//! answered `AlreadyWithdrawn` instead of a second transfer.

use vstd::prelude::*;
use crate::account::Account;
use crate::derive::derive_ok;
use crate::engine::OrderEngine;
use crate::invoice::{InvoiceStatus, InvoiceView};

verus! {

/// Why a withdrawal request is rejected. `InsufficientBalance` and
/// `ChainUnreachable` are retriable by the caller; the others are terminal
/// for the request. `ChainUnreachable` is never produced by the engine: the
/// caller reports it when the external transfer capability fails or times
/// out.
#[derive(Clone, Copy, PartialEq, Eq, Structural, Debug)]
pub enum WithdrawalError {
    /// No invoice exists for the order, or it is not paid yet.
    NotPayable,
    /// A withdrawal of this invoice was already recorded.
    AlreadyWithdrawn,
    /// The observed balance does not cover the submission fee.
    InsufficientBalance,
    /// The external transfer capability could not be reached.
    ChainUnreachable,
}

/// The transfer a prepared withdrawal asks the external capability to
/// submit: the deposit account's net balance, moved to the recipient.
#[derive(Debug)]
pub struct WithdrawalIntent {
    /// The deposit account the funds sit on.
    pub account: Account,
    /// The recipient the funds move to.
    pub recipient: Account,
    /// The amount to transfer: the observed balance net of the fee.
    pub amount: u64,
}

/// The record of a completed withdrawal.
#[derive(Debug)]
pub struct WithdrawalReceipt {
    /// The deposit account that was withdrawn.
    pub account: Account,
    /// The paid amount the invoice carried when it was withdrawn.
    pub amount: u64,
}

/// A withdrawal request is not payable while no invoice exists for its key
/// or the invoice is not paid.
pub open spec fn withdrawal_not_payable(m: Map<Seq<u8>, InvoiceView>, k: Seq<u8>) -> bool {
    !m.contains_key(k) || !(m[k].status is Paid)
}

/// A withdrawal request repeats one already recorded.
pub open spec fn withdrawal_already_done(m: Map<Seq<u8>, InvoiceView>, k: Seq<u8>) -> bool {
    m.contains_key(k) && m[k].status is Paid && m[k].withdrawn
}

/// A withdrawal request is ready to submit a transfer.
pub open spec fn withdrawal_ready(m: Map<Seq<u8>, InvoiceView>, k: Seq<u8>) -> bool {
    m.contains_key(k) && m[k].status is Paid && !m[k].withdrawn
}

/// The same invoice after its withdrawal is recorded.
pub open spec fn withdrawn_view(inv: InvoiceView) -> InvoiceView {
    InvoiceView { withdrawn: true, ..inv }
}

impl OrderEngine {
    /// Resolves a withdrawal request and hands back the transfer to submit,
    /// without mutating anything.
    ///
    /// The invoice is resolved by re-deriving the deposit account from
    /// (recipient, order). A request whose invoice is missing or unpaid —
    /// including one whose recipient or order the deriver rejects — is
    /// `NotPayable`; one whose withdrawal is already recorded is
    /// `AlreadyWithdrawn`; one whose observed on-chain balance does not
    /// cover the submission fee is `InsufficientBalance`. Otherwise the
    /// intent carries the deposit account, the stored recipient and the
    /// balance net of the fee.
    pub fn prepare_withdrawal(
        &self,
        recipient: &Vec<u8>,
        order: &Vec<u8>,
        observed_balance: u64,
        fee: u64,
    ) -> (r: Result<WithdrawalIntent, WithdrawalError>)
        requires
            self.wf(),
        ensures
            !derive_ok(recipient@, order@) ==> r == Err::<WithdrawalIntent, WithdrawalError>(
                WithdrawalError::NotPayable,
            ),
            derive_ok(recipient@, order@) ==> {
                let k = self.key_of(recipient@, order@);
                let m = self.invoices();
                &&& (r == Err::<WithdrawalIntent, WithdrawalError>(WithdrawalError::NotPayable))
                    <==> withdrawal_not_payable(m, k)
                &&& (r == Err::<WithdrawalIntent, WithdrawalError>(
                    WithdrawalError::AlreadyWithdrawn,
                )) <==> withdrawal_already_done(m, k)
                &&& (r == Err::<WithdrawalIntent, WithdrawalError>(
                    WithdrawalError::InsufficientBalance,
                )) <==> (withdrawal_ready(m, k) && observed_balance < fee)
                &&& (withdrawal_ready(m, k) && observed_balance >= fee) ==> (r matches Ok(w)
                    && w.account@ == k && w.recipient@ == m[k].recipient && w.amount
                    == observed_balance - fee)
            },
    {
        let account = match self.derive_account(recipient, order) {
            Some(a) => a,
            None => {
                return Err(WithdrawalError::NotPayable);
            },
        };
        match self.lookup(&account) {
            None => Err(WithdrawalError::NotPayable),
            Some(stored) => {
                match stored.status {
                    InvoiceStatus::Unpaid { .. } => Err(WithdrawalError::NotPayable),
                    InvoiceStatus::Paid { .. } => {
                        if stored.withdrawn {
                            Err(WithdrawalError::AlreadyWithdrawn)
                        } else if observed_balance < fee {
                            Err(WithdrawalError::InsufficientBalance)
                        } else {
                            let recipient_account = stored.recipient.duplicate();
                            Ok(
                                WithdrawalIntent {
                                    account,
                                    recipient: recipient_account,
                                    amount: observed_balance - fee,
                                },
                            )
                        }
                    },
                }
            },
        }
    }

    /// Records a submitted withdrawal on the invoice of a deposit account.
    ///
    /// A missing or unpaid invoice is `NotPayable`, a repeat recording
    /// `AlreadyWithdrawn`; both leave the store untouched. On a paid,
    /// not-yet-withdrawn invoice the withdrawal marker is set — after which
    /// every further withdrawal request answers `AlreadyWithdrawn` — and
    /// the receipt carries the recorded paid amount.
    pub fn record_withdrawal(&mut self, account: &Account) -> (r: Result<
        WithdrawalReceipt,
        WithdrawalError,
    >)
        requires
            old(self).wf(),
        ensures
            final(self).wf(),
            final(self).master_seq() == old(self).master_seq(),
            final(self).min_amount_spec() == old(self).min_amount_spec(),
            (r == Err::<WithdrawalReceipt, WithdrawalError>(WithdrawalError::NotPayable))
                <==> withdrawal_not_payable(old(self).invoices(), account@),
            (r == Err::<WithdrawalReceipt, WithdrawalError>(WithdrawalError::AlreadyWithdrawn))
                <==> withdrawal_already_done(old(self).invoices(), account@),
            r is Err ==> final(self).rows() == old(self).rows(),
            withdrawal_ready(old(self).invoices(), account@) ==> (r matches Ok(w) && w.account@
                == account@ && w.amount == old(self).invoices()[account@].status.amount()
                && final(self).invoices() == old(self).invoices().insert(
                account@,
                withdrawn_view(old(self).invoices()[account@]),
            ) && final(self).rows().len() == old(self).rows().len()),
    {
        match self.lookup(account) {
            None => Err(WithdrawalError::NotPayable),
            Some(stored) => {
                match stored.status {
                    InvoiceStatus::Unpaid { .. } => Err(WithdrawalError::NotPayable),
                    InvoiceStatus::Paid { received } => {
                        if stored.withdrawn {
                            Err(WithdrawalError::AlreadyWithdrawn)
                        } else {
                            let mut updated = stored.duplicate();
                            updated.withdrawn = true;
                            proof {
                                assert(updated@ =~= withdrawn_view(
                                    old(self).invoices()[account@],
                                ));
                            }
                            self.put_row(account.duplicate(), updated);
                            Ok(WithdrawalReceipt { account: account.duplicate(), amount: received })
                        }
                    },
                }
            },
        }
    }
}

} // verus!
