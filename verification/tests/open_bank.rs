use obei_ob_near_core::bank::OpenBank;
use obei_ob_near_core::error::LedgerError;
use obei_ob_near_core::gate::Operation;
use obei_ob_near_core::host::{CallContext, SecurityMode};
use obei_ob_near_core::ob_io::RequestDebitStatus;

/// The time at which every call in this file is made, in milliseconds.
fn now() -> i64 {
    1_700_000_000_000
}

fn get_context() -> CallContext {
    get_context_with_deposit(10)
}

fn get_context_with_deposit(attached_deposit: u128) -> CallContext {
    CallContext {
        signer_account_id: "robert.testnet".to_string(),
        current_account_id: "alice.testnet".to_string(),
        attached_deposit,
        block_timestamp: now(),
        role_response: vec![],
    }
}

/// A ledger in test mode whose account holds 10 when it is made, after one
/// pay-in of 10 and one registered request debit.
fn get_default_ob() -> OpenBank {
    let context = get_context();
    let start_date = now();
    let end_date = start_date + (24 * 60 * 60 * 1000);
    let interval = 60;
    let nonce = context.block_timestamp as u64;
    let pay_in_amount = 10;
    let request_debit_amount = 1;
    let mock_or_account = "mock_or_account";

    let mut ob = OpenBank::new(
        "test bank".to_string(),
        "test_deployed_account.testnet".to_string(),
        "NEAR".to_string(),
        "testowner.testnet".to_string(),
        "testnominee.testnet".to_string(),
        "testopenroles.testnet".to_string(),
        20,
        10,
        true,
        10,
    );

    ob.set_obei_open_roles(&context, mock_or_account.to_string()).unwrap();
    ob.set_open_bank_name(&context, "test_bank".to_string()).unwrap();

    ob.pay_in(&context, "test_payment".to_string(), pay_in_amount, nonce).unwrap();
    let new_nonce = context.block_timestamp as u64 + 11;
    ob.register_request_debit(
        &context,
        "testaccount.testnet".to_string(),
        "test request debit".to_string(),
        request_debit_amount,
        interval,
        start_date,
        end_date,
        new_nonce,
    )
    .unwrap();

    ob
}

#[test]
fn test_view_nominee_account_id() {
    let ob = get_default_ob();
    assert!("testnominee.testnet".as_bytes() == ob.view_nominee_account_id().as_bytes())
}

#[test]
fn test_view_balance() {
    let context = get_context();
    let ob = get_default_ob();
    assert_eq!(20, ob.view_balance(&context).unwrap())
}

#[test]
fn test_find_request_debit() {
    let context = get_context();
    let mut ob = get_default_ob();

    let start_date = now();
    let end_date = start_date + (24 * 60 * 60 * 1000);
    let interval = 60;
    let nonce = (now() + 16) as u64;
    let request_debit_amount = 1;

    let request_debit_reference = ob
        .register_request_debit(
            &context,
            "testaccount.testnet".to_string(),
            "test request debit".to_string(),
            request_debit_amount,
            interval,
            start_date,
            end_date,
            nonce,
        )
        .unwrap();

    let request_debit = ob.find_request_debit(request_debit_reference).unwrap();
    assert_eq!("testaccount.testnet", request_debit.payee)
}

#[test]
fn test_find_request_debits() {
    let ob = get_default_ob();

    let request_debit_list = ob.find_request_debits_by_status("PENDING".to_string()).unwrap();

    assert_eq!(request_debit_list.len(), 1);
}

#[test]
fn test_find_payment() {
    let context = get_context();
    let mut ob = get_default_ob();

    let nonce = (now() + 12) as u64;
    let pay_in_amount = 10;
    let payment_ref =
        ob.pay_in(&context, "test_payment".to_string(), pay_in_amount, nonce).unwrap().reference;
    let payment = ob.find_payment(payment_ref).unwrap();

    assert_eq!(10, payment.amount)
}

#[test]
fn test_is_valid_payment_ref() {
    let context = get_context();
    let mut ob = get_default_ob();
    let nonce = (now() + 13) as u64;
    let pay_in_amount = 10;
    let payment_ref =
        ob.pay_in(&context, "test_payment".to_string(), pay_in_amount, nonce).unwrap().reference;

    assert!(ob.is_valid_payment_ref(payment_ref))
}

#[test]
fn test_pay_in() {
    let context = get_context_with_deposit(10);
    let mut ob = get_default_ob();

    ob.pay_in(&context, "next_test_payment".to_string(), 10, (now() + 14) as u64).unwrap();

    assert_eq!(30, ob.view_balance(&context).unwrap());
}

#[test]
fn test_register_request_debit() {
    let context = get_context();
    let mut ob = get_default_ob();

    let request_debit_amount = 1;
    let start_date = now();
    let end_date = start_date + (24 * 60 * 60 * 1000);
    let interval = 60;
    let nonce = (now() + 15) as u64;

    let rd_ref = ob
        .register_request_debit(
            &context,
            "test_account_2.testnet".to_string(),
            "test request debit".to_string(),
            request_debit_amount,
            interval,
            start_date,
            end_date,
            nonce,
        )
        .unwrap();

    let rd = ob.find_request_debit(rd_ref).unwrap();

    assert_eq!(rd.payee, "test_account_2.testnet");

    assert_eq!(rd.status.name(), "PENDING");
}

#[test]
fn test_approve_request_debit() {
    let context = get_context();
    let mut ob = get_default_ob();

    let request_debit_amount = 1;
    let start_date = now();
    let end_date = start_date + (24 * 60 * 60 * 1000);
    let interval = 60;
    let nonce = (now() + 1) as u64;

    let rd_ref = ob
        .register_request_debit(
            &context,
            "test_account_2.testnet".to_string(),
            "test request debit".to_string(),
            request_debit_amount,
            interval,
            start_date,
            end_date,
            nonce,
        )
        .unwrap();

    let rd = ob.find_request_debit(rd_ref).unwrap();

    assert_eq!(rd.status.name(), "PENDING");

    ob.approve_request_debit(&context, rd_ref, (now() + 2) as u64).unwrap();

    let rd1 = ob.find_request_debit(rd_ref).unwrap();

    assert_eq!(rd1.status.name(), "APPROVED");
}

#[test]
fn test_cancel_request_debit() {
    let context = get_context();
    let mut ob = get_default_ob();

    let request_debit_amount = 1;
    let start_date = now();
    let end_date = start_date + (24 * 60 * 60 * 1000);
    let interval = 60;
    let nonce = (now() + 1) as u64;

    let rd_ref = ob
        .register_request_debit(
            &context,
            "test_account_2.testnet".to_string(),
            "test request debit".to_string(),
            request_debit_amount,
            interval,
            start_date,
            end_date,
            nonce,
        )
        .unwrap();

    let rd = ob.find_request_debit(rd_ref).unwrap();

    assert_ne!(rd.status.name(), "CANCELLED");

    ob.cancel_request_debit(&context, rd_ref, (now() + 2) as u64).unwrap();

    println!(" rd ref {} ", rd_ref);

    let rd2 = ob.find_request_debit(rd_ref).unwrap();

    let cancelled = ob.find_request_debits_by_status("CANCELLED".to_string()).unwrap();

    for rd3 in cancelled {
        println!(
            " rd : {} status {} rd2 status {} ",
            rd3.reference,
            rd3.status.name(),
            rd2.status.name()
        );
    }

    assert_eq!(rd2.status.name(), "CANCELLED");
}

#[test]
fn test_deposit() {
    let context = get_context();
    let mut ob = get_default_ob();

    let bal = ob.view_balance(&context).unwrap();

    let amount = 10;

    let payment =
        ob.deposit(&context, "test deposit".to_string(), amount, (now() + 17) as u64).unwrap();

    let test_payment = ob.find_payment(payment.reference).unwrap();

    let test_bal = ob.view_balance(&context).unwrap();

    assert_eq!(payment, test_payment);

    let total = bal + amount;

    assert_eq!(total, test_bal)
}

#[test]
fn test_withdraw() {
    let _ob = get_default_ob();
}

#[test]
fn test_set_open_bank_nominee_account() {
    let context = get_context();
    let mut ob = get_default_ob();

    let nominee = "test_nominee.testnet".to_string();

    ob.set_open_bank_nominee_account(&context, nominee.clone()).unwrap();

    assert_eq!(ob.view_nominee_account_id(), nominee);
}

#[test]
fn test_set_obei_open_roles() {
    let _ob = get_default_ob();
}

#[test]
fn test_pay_to() {
    let _ob = get_default_ob();
}

#[test]
fn test_create_and_register_payment() {
    let mut ob = get_default_ob();
    let payee = "test_payee.testnet".to_string();
    let payer = "test_payer.testnet".to_string();
    let signer = "test_signer.testnet".to_string();
    let amount = 1;
    let description = "test payment".to_string();
    let payment_status = "TEST".to_string();
    let payment_type = "TEST".to_ascii_lowercase();
    let payment = ob.create_and_register_payment(
        payee,
        payer,
        signer,
        amount,
        description,
        payment_status,
        payment_type,
    );

    let test_payment = ob.find_payment(payment.reference).unwrap();

    assert_eq!(test_payment, payment);
}

#[test]
fn test_require() {
    let ob = get_default_ob();

    let outcome = ob.require(false, LedgerError::Unauthorized);
    assert_eq!(outcome, Err(LedgerError::Unauthorized));
    assert_eq!(outcome.unwrap_err().message(), "OPERATION CANCELLED. ACCOUNT NOT ALLOWED");
    assert_eq!(ob.require(true, LedgerError::Unauthorized), Ok(true));
}

#[test]
fn test_is_secure() {
    let context = get_context();
    let ob = get_default_ob();

    assert_eq!(Operation::ViewBalance.name(), "view_balance");
    assert_eq!(Operation::ViewBalance.mode(), SecurityMode::Allowed);
    assert!(ob.is_secure(SecurityMode::Allowed, &context.role_response).unwrap());

    assert_eq!(Operation::RequestDebit.name(), "request_debit");
    assert_eq!(Operation::RequestDebit.mode(), SecurityMode::Barred);
    assert!(ob.is_secure(SecurityMode::Barred, &context.role_response).unwrap());
}

#[test]
fn test_check_nonce() {
    let context = get_context();
    let mut ob = get_default_ob();

    let nonce = context.block_timestamp as u64 + 1;

    assert_eq!(ob.check_nonce(&context.signer_account_id, nonce), Ok(()));

    let second = ob.check_nonce(&context.signer_account_id, nonce);
    assert_eq!(second, Err(LedgerError::ReplayedNonce));
    assert_eq!(second.unwrap_err().message(), "REPEAT NONCE DETECTED");
}

#[test]
fn test_check_bank_balance() {
    let ob = get_default_ob();

    let outcome = ob.check_bank_balance(100);
    assert_eq!(outcome, Err(LedgerError::InsufficientFunds));
    assert_eq!(outcome.unwrap_err().message(), "INSUFFICIENT FUNDS AVAILABLE");
}

#[test]
fn test_check_is_valid_request_debit_reference() {
    let ob = get_default_ob();

    assert_eq!(ob.check_is_valid_request_debit_reference(0), Err(LedgerError::NotFound));
}

#[test]
fn test_check_request_debit_status() {
    let ob = get_default_ob();

    let outcome = ob.check_request_debit_status(
        RequestDebitStatus::from_name(&"CANCELLED".to_string()).unwrap(),
        RequestDebitStatus::from_name(&"PENDING".to_string()).unwrap(),
    );
    assert_eq!(outcome, Err(LedgerError::InvalidState));
    assert_eq!(outcome.unwrap_err().message(), "INVALID STATUS FOR ACTION");
}

#[test]
fn test_check_attachment_vs_stated_amount() {
    let ob = get_default_ob();

    let outcome = ob.check_attachment_vs_stated_amount(10, 9);
    assert_eq!(outcome, Err(LedgerError::AmountMismatch));
    assert_eq!(outcome.unwrap_err().message(), "DEPOSIT MIS-MATCH");
}

#[test]
fn test_check_request_debit_interval() {
    let context = get_context();
    let mut ob = get_default_ob();

    let request_debit_amount = 1;
    let start_date = now() - 600000;
    let end_date = start_date + (24 * 60 * 60 * 1000);
    let interval = 30000000000;
    let nonce = (now() + 1) as u64;

    let rd_ref = ob
        .register_request_debit(
            &context,
            "test_account_2.testnet".to_string(),
            "test request debit".to_string(),
            request_debit_amount,
            interval,
            start_date,
            end_date,
            nonce,
        )
        .unwrap();

    let request_debit = ob.find_request_debit(rd_ref).unwrap();

    let outcome = ob.check_request_debit_interval(&request_debit, context.block_timestamp);
    assert_eq!(outcome, Err(LedgerError::IntervalNotElapsed));
    assert_eq!(outcome.unwrap_err().message(), "PAY OUT INTERVAL NOT REACHED");
}

#[test]
fn test_decrement_bank_balance() {
    let context = get_context();
    let mut ob = get_default_ob();

    let bal = ob.view_balance(&context).unwrap();

    ob.decrement_bank_balance(1).unwrap();

    let total = bal - 1;

    assert_eq!(total, ob.view_balance(&context).unwrap());
}

#[test]
fn test_increment_bank_balance() {
    let context = get_context();
    let mut ob = get_default_ob();

    let bal = ob.view_balance(&context).unwrap();

    ob.increment_bank_balance(1).unwrap();

    let total = bal + 1;

    assert_eq!(total, ob.view_balance(&context).unwrap());
}

#[test]
fn test_move_request_debit_by_status() {
    let context = get_context();
    let mut ob = get_default_ob();

    let request_debit_amount = 1;
    let start_date = now();
    let end_date = start_date + (24 * 60 * 60 * 1000);
    let interval = 60;
    let new_nonce = (now() + 10) as u64;
    let rd_ref = ob
        .register_request_debit(
            &context,
            "test_account_2.testnet".to_string(),
            "test request debit".to_string(),
            request_debit_amount,
            interval,
            start_date,
            end_date,
            new_nonce,
        )
        .unwrap();

    let rd = ob.find_request_debit(rd_ref).unwrap();

    ob.move_request_debit_by_status(
        RequestDebitStatus::from_name(&"PENDING".to_string()).unwrap(),
        RequestDebitStatus::from_name(&"APPROVED".to_string()).unwrap(),
        rd,
    )
    .unwrap();

    assert_eq!(ob.find_request_debit(rd_ref).unwrap().status, RequestDebitStatus::Approved);
    let approved = ob.find_request_debits_by_status("APPROVED".to_string()).unwrap();
    assert_eq!(approved.len(), 1);
    assert_eq!(approved[0].reference, rd_ref);
    let pending = ob.find_request_debits_by_status("PENDING".to_string()).unwrap();
    assert_eq!(pending.len(), 1);
    assert_ne!(pending[0].reference, rd_ref);
}
