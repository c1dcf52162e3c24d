//! What the ledger takes from the platform that hosts it, and what it asks of
//! it. The ledger itself reaches for nothing: whoever runs it reads the call's
//! circumstances, puts the ledger's question to the role authority, carries
//! out the transfers that the ledger orders, and hands the answers back.
use vstd::prelude::*;

verus! {

/// How a call to another party ended.
#[derive(Debug, PartialEq, Eq)]
pub enum PromiseOutcome {
    /// No answer yet.
    NotReady,
    /// The call went through and answered with these bytes.
    Successful(Vec<u8>),
    /// The call failed.
    Failed,
}

/// The one byte that a list of outcomes answers with: there is exactly one
/// outcome, it is successful, and the byte is the first of its answer. Any
/// other list gives no answer.
pub open spec fn answer_byte(outcomes: Seq<PromiseOutcome>) -> Option<u8> {
    if outcomes.len() == 1 {
        match outcomes[0] {
            PromiseOutcome::Successful(data) => if data@.len() > 0 {
                Some(data@[0])
            } else {
                None
            },
            _ => None,
        }
    } else {
        None
    }
}

/// Reads the one byte that a list of outcomes answers with.
pub fn read_answer_byte(outcomes: &Vec<PromiseOutcome>) -> (byte: Option<u8>)
    ensures
        byte == answer_byte(outcomes@),
{
    if outcomes.len() != 1 {
        return None;
    }
    match &outcomes[0] {
        PromiseOutcome::Successful(data) => {
            if data.len() > 0 {
                Some(data[0])
            } else {
                None
            }
        },
        _ => None,
    }
}

/// The two questions that the ledger puts to the role authority.
#[derive(Clone, Copy, Debug, PartialEq, Eq, Structural)]
pub enum SecurityMode {
    /// "Is the caller on the list of those allowed?" The caller passes when
    /// the authority answers with the affirmative code.
    Allowed,
    /// "Is the caller on the list of those barred?" The caller passes when
    /// the authority answers with the negative code.
    Barred,
}

/// The circumstances of one call, as the host reports them.
#[derive(Debug, PartialEq, Eq)]
pub struct CallContext {
    /// Who signed the call.
    pub signer_account_id: String,
    /// The account under which the ledger runs.
    pub current_account_id: String,
    /// The funds that came with the call.
    pub attached_deposit: u128,
    /// The time of the call, in milliseconds.
    pub block_timestamp: i64,
    /// What came back from the role authority for the question that goes with
    /// the operation. A ledger in test mode does not look at it.
    pub role_response: Vec<PromiseOutcome>,
}

/// The question to put to the role authority before an operation.
#[derive(Debug, PartialEq, Eq)]
pub struct RoleQuery {
    /// The account of the role authority.
    pub authority_account_id: String,
    /// Which of the two lists is asked about.
    pub mode: SecurityMode,
    /// The account to which the ledger is deployed.
    pub contract_account_id: String,
    /// The name of the ledger.
    pub contract_name: String,
    /// The operation that the caller wants.
    pub operation: String,
    /// The caller.
    pub user_account_id: String,
}

/// A transfer that the ledger has approved and taken off its balance, and that
/// the host is to carry out.
#[derive(Debug, PartialEq, Eq)]
pub struct TransferOrder {
    /// Who is paid.
    pub payee: String,
    /// Who signed the call that led to the transfer.
    pub signer: String,
    pub amount: u128,
    pub description: String,
    /// The type under which the payment will be written.
    pub payment_type: String,
}

/// What a [`TransferOrder`] holds, as plain mathematical values.
pub struct TransferOrderView {
    pub payee: Seq<char>,
    pub signer: Seq<char>,
    pub amount: u128,
    pub description: Seq<char>,
    pub payment_type: Seq<char>,
}

impl View for TransferOrder {
    type V = TransferOrderView;

    open spec fn view(&self) -> TransferOrderView {
        TransferOrderView {
            payee: self.payee@,
            signer: self.signer@,
            amount: self.amount,
            description: self.description@,
            payment_type: self.payment_type@,
        }
    }
}

} // verus!
