//! The authorization gate: what the role authority's answer means for the
//! caller.
use crate::error::LedgerError;
use crate::host::{answer_byte, read_answer_byte, PromiseOutcome, SecurityMode};
use vstd::prelude::*;

verus! {

/// The byte as a number of 32 bits, by `num::ToPrimitive::to_i32`.
///
/// The conversion gives nothing where the value does not fit. A byte always
/// fits, so it always gives the byte's own value.
#[verifier::external_body]
fn byte_to_i32(byte: &u8) -> (code: Option<i32>)
    ensures
        code == Some(*byte as i32),
{
    num::ToPrimitive::to_i32(byte)
}

/// The code that the role authority answered with, if it answered.
pub open spec fn role_code(outcomes: Seq<PromiseOutcome>) -> Option<i32> {
    match answer_byte(outcomes) {
        Some(byte) => Some(byte as i32),
        None => None,
    }
}

/// What the authorization gate decides.
///
/// In test mode everyone passes and the authority's answer is not looked at.
/// Otherwise the authority must have answered, or nothing can be decided.
/// Asked whether the caller is allowed, it lets the caller pass on the
/// affirmative code and on no other; asked whether the caller is barred, on
/// the negative code and on no other.
pub open spec fn gate_verdict(
    test_mode: bool,
    affirmative_code: i32,
    negative_code: i32,
    mode: SecurityMode,
    outcomes: Seq<PromiseOutcome>,
) -> Result<bool, LedgerError> {
    if test_mode {
        Ok(true)
    } else {
        match role_code(outcomes) {
            None => Err(LedgerError::AuthorityUnavailable),
            Some(code) => Ok(
                match mode {
                    SecurityMode::Allowed => code == affirmative_code,
                    SecurityMode::Barred => code == negative_code,
                },
            ),
        }
    }
}

/// Decides whether the caller passes the authorization gate.
pub fn decide(
    test_mode: bool,
    affirmative_code: i32,
    negative_code: i32,
    mode: SecurityMode,
    outcomes: &Vec<PromiseOutcome>,
) -> (verdict: Result<bool, LedgerError>)
    ensures
        verdict == gate_verdict(test_mode, affirmative_code, negative_code, mode, outcomes@),
{
    if test_mode {
        return Ok(true);
    }
    let byte = match read_answer_byte(outcomes) {
        Some(byte) => byte,
        None => {
            return Err(LedgerError::AuthorityUnavailable);
        },
    };
    match byte_to_i32(&byte) {
        Some(code) => match mode {
            SecurityMode::Allowed => Ok(code == affirmative_code),
            SecurityMode::Barred => Ok(code == negative_code),
        },
        None => Err(LedgerError::AuthorityUnavailable),
    }
}

/// The operations that pass through the authorization gate.
#[derive(Clone, Copy, Debug, PartialEq, Eq, Structural)]
pub enum Operation {
    ViewBalance,
    CheckSecureCodes,
    PayIn,
    PayOut,
    PayOutMulti,
    RequestDebit,
    RegisterRequestDebit,
    ApproveRequestDebit,
    CancelRequestDebit,
    Deposit,
    Withdraw,
    SetOpenBankName,
    SetOpenBankNomineeAccount,
    SetObeiOpenRoles,
    SetAffirmativeSecureCode,
    SetNegativeSecureCode,
}

/// The question that goes with each operation. Registering a request debit
/// and drawing on one are open to all who are not barred; everything else is
/// for those who are allowed.
pub open spec fn mode_of(operation: Operation) -> SecurityMode {
    match operation {
        Operation::RequestDebit | Operation::RegisterRequestDebit => SecurityMode::Barred,
        _ => SecurityMode::Allowed,
    }
}

/// The name under which the role authority knows each operation.
pub open spec fn name_of(operation: Operation) -> Seq<char> {
    match operation {
        Operation::ViewBalance => "view_balance"@,
        Operation::CheckSecureCodes => "check_secure_codes"@,
        Operation::PayIn => "pay_in"@,
        Operation::PayOut => "payout"@,
        Operation::PayOutMulti => "pay_out_multi"@,
        Operation::RequestDebit => "request_debit"@,
        Operation::RegisterRequestDebit => "register_request_debit"@,
        Operation::ApproveRequestDebit => "approve_request_debit"@,
        Operation::CancelRequestDebit => "request_debit"@,
        Operation::Deposit => "deposit"@,
        Operation::Withdraw => "withdraw"@,
        Operation::SetOpenBankName => "set_open_bank_name"@,
        Operation::SetOpenBankNomineeAccount => "set_obei_nominee_acccount"@,
        Operation::SetObeiOpenRoles => "set_obei_open_roles"@,
        Operation::SetAffirmativeSecureCode => "set_affirmative_secure_code"@,
        Operation::SetNegativeSecureCode => "set_negative_secure_code"@,
    }
}

impl Operation {
    /// The question that goes with this operation.
    pub fn mode(&self) -> (mode: SecurityMode)
        ensures
            mode == mode_of(*self),
    {
        match self {
            Operation::RequestDebit | Operation::RegisterRequestDebit => SecurityMode::Barred,
            _ => SecurityMode::Allowed,
        }
    }

    /// The name under which the role authority knows this operation.
    pub fn name(&self) -> (name: String)
        ensures
            name@ == name_of(*self),
    {
        match self {
            Operation::ViewBalance => String::from_str("view_balance"),
            Operation::CheckSecureCodes => String::from_str("check_secure_codes"),
            Operation::PayIn => String::from_str("pay_in"),
            Operation::PayOut => String::from_str("payout"),
            Operation::PayOutMulti => String::from_str("pay_out_multi"),
            Operation::RequestDebit => String::from_str("request_debit"),
            Operation::RegisterRequestDebit => String::from_str("register_request_debit"),
            Operation::ApproveRequestDebit => String::from_str("approve_request_debit"),
            Operation::CancelRequestDebit => String::from_str("request_debit"),
            Operation::Deposit => String::from_str("deposit"),
            Operation::Withdraw => String::from_str("withdraw"),
            Operation::SetOpenBankName => String::from_str("set_open_bank_name"),
            Operation::SetOpenBankNomineeAccount => String::from_str("set_obei_nominee_acccount"),
            Operation::SetObeiOpenRoles => String::from_str("set_obei_open_roles"),
            Operation::SetAffirmativeSecureCode => String::from_str("set_affirmative_secure_code"),
            Operation::SetNegativeSecureCode => String::from_str("set_negative_secure_code"),
        }
    }
}

} // verus!
