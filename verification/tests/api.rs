use faic_node::api::{
    create_wallet, get_balance, get_transaction_history, import_wallet, is_expired, transfer,
    wallet_reply, ApiResponse, CreateWalletRequest, ImportWalletRequest, ResponseData, Status,
    TransferRequest, REQUEST_WINDOW,
};
use faic_node::error::DerivationError;
use faic_node::wallet::address::is_valid_address;
use faic_node::wallet::{credit_initial, Ledger};

const ZEROS_PHRASE: &str =
    "abandon abandon abandon abandon abandon abandon abandon abandon abandon abandon abandon about";
const ZEROS_ADDRESS: &str = "FAIC302bf667c3d41b204064e09498d6af75a05fe9bf";
const ZERO_ADDRESS: &str = "FAIC0000000000000000000000000000000000000000";

fn create_request(timestamp: i64) -> CreateWalletRequest {
    CreateWalletRequest {
        password_hash: "hash".to_string(),
        salt: "salt".to_string(),
        nonce: "nonce".to_string(),
        timestamp,
    }
}

fn transfer_request(from: &str, to: &str, amount: u64) -> TransferRequest {
    TransferRequest { from_address: from.to_string(), to_address: to.to_string(), amount }
}

fn assert_failure(reply: &ApiResponse, status: Status, message: &str) {
    assert_eq!(reply.status, status);
    assert!(!reply.success);
    assert!(reply.data.is_none());
    assert_eq!(reply.error.as_deref(), Some(message));
}

fn assert_success(reply: &ApiResponse) {
    assert_eq!(reply.status, Status::Success);
    assert!(reply.success);
    assert!(reply.data.is_some());
    assert!(reply.error.is_none());
}

#[test]
fn request_window() {
    assert_eq!(REQUEST_WINDOW, 300);
    assert!(!is_expired(1_700_000_000, 1_700_000_000));
    assert!(!is_expired(1_700_000_300, 1_700_000_000));
    assert!(!is_expired(1_700_000_000, 1_700_000_300));
    assert!(is_expired(1_700_000_301, 1_700_000_000));
    assert!(is_expired(1_700_000_000, 1_700_000_301));
    assert!(is_expired(i64::MAX, i64::MIN));
    assert!(is_expired(i64::MIN, i64::MAX));
    assert!(is_expired(0, i64::MIN));
    assert!(!is_expired(i64::MIN, i64::MIN + 300));
}

#[test]
fn create_wallet_answers_with_a_wallet() {
    let mut ledger = Ledger::new();
    let reply = create_wallet(&mut ledger, &create_request(1_700_000_000), 1_700_000_120);
    assert_success(&reply);
    match reply.data {
        Some(ResponseData::Wallet { address, mnemonic }) => {
            assert!(is_valid_address(&address));
            assert_eq!(mnemonic.split(' ').count(), 12);
            assert_eq!(faic_node::wallet::get_balance(&ledger, &address), 1000);
        }
        other => panic!("unexpected data: {:?}", other),
    }
}

#[test]
fn create_wallet_refuses_an_expired_request() {
    let mut ledger = Ledger::new();
    let reply = create_wallet(&mut ledger, &create_request(1_700_000_000), 1_700_000_301);
    assert_failure(&reply, Status::BadRequest, "Request expired");
    let reply = create_wallet(&mut ledger, &create_request(1_700_000_301), 1_700_000_000);
    assert_failure(&reply, Status::BadRequest, "Request expired");
    assert_eq!(ledger.total_supply(), 0);
}

#[test]
fn wallet_reply_of_each_outcome() {
    let reply = wallet_reply(Ok((ZEROS_ADDRESS.to_string(), ZEROS_PHRASE.to_string())));
    assert_success(&reply);
    assert!(matches!(
        reply.data,
        Some(ResponseData::Wallet { address, mnemonic })
            if address == ZEROS_ADDRESS && mnemonic == ZEROS_PHRASE
    ));
    let reply = wallet_reply(Err(DerivationError::RandomSourceUnavailable));
    assert_failure(&reply, Status::InternalServerError, "Random source unavailable");
    let reply = wallet_reply(Err(DerivationError::InvalidPhrase));
    assert_failure(&reply, Status::InternalServerError, "Invalid recovery phrase");
}

#[test]
fn import_wallet_answers_with_the_address() {
    let reply = import_wallet(&ImportWalletRequest { mnemonic: ZEROS_PHRASE.to_string() });
    assert_success(&reply);
    assert!(matches!(
        reply.data,
        Some(ResponseData::Address { address }) if address == ZEROS_ADDRESS
    ));
}

#[test]
fn import_wallet_refuses_a_bad_phrase() {
    let reply = import_wallet(&ImportWalletRequest { mnemonic: "not a phrase".to_string() });
    assert_failure(&reply, Status::BadRequest, "Invalid recovery phrase");
}

#[test]
fn transfer_answers_with_the_receipt() {
    let mut ledger = Ledger::new();
    credit_initial(&mut ledger, ZEROS_ADDRESS, 1000);
    let reply = transfer(&mut ledger, &transfer_request(ZEROS_ADDRESS, ZERO_ADDRESS, 300));
    assert_success(&reply);
    assert!(matches!(
        reply.data,
        Some(ResponseData::Transfer { tx_hash })
            if tx_hash == "e6930fa59ab17e66213d90e3777dc55134b2ba5c8cae8e602bc4501cbab6471f"
    ));
    assert_eq!(faic_node::wallet::get_balance(&ledger, ZEROS_ADDRESS), 700);
    assert_eq!(faic_node::wallet::get_balance(&ledger, ZERO_ADDRESS), 300);
}

#[test]
fn transfer_refuses_malformed_addresses() {
    let mut ledger = Ledger::new();
    credit_initial(&mut ledger, ZEROS_ADDRESS, 1000);
    credit_initial(&mut ledger, "FAICshort", 1000);
    for (from, to) in [
        ("FAICshort", ZERO_ADDRESS),
        (ZEROS_ADDRESS, "FAICshort"),
        ("", ZERO_ADDRESS),
        (ZEROS_ADDRESS, "BTC10000000000000000000000000000000000000000"),
    ] {
        let reply = transfer(&mut ledger, &transfer_request(from, to, 1));
        assert_failure(&reply, Status::BadRequest, "Invalid address format");
    }
    // the form of the addresses is looked at before the amount
    let reply = transfer(&mut ledger, &transfer_request("FAICshort", ZERO_ADDRESS, 0));
    assert_failure(&reply, Status::BadRequest, "Invalid address format");
    assert_eq!(faic_node::wallet::get_balance(&ledger, ZEROS_ADDRESS), 1000);
    assert_eq!(faic_node::wallet::get_balance(&ledger, "FAICshort"), 1000);
}

#[test]
fn transfer_refuses_an_amount_of_zero() {
    let mut ledger = Ledger::new();
    credit_initial(&mut ledger, ZEROS_ADDRESS, 1000);
    let reply = transfer(&mut ledger, &transfer_request(ZEROS_ADDRESS, ZERO_ADDRESS, 0));
    assert_failure(&reply, Status::BadRequest, "Invalid amount");
    assert_eq!(faic_node::wallet::get_balance(&ledger, ZEROS_ADDRESS), 1000);
}

#[test]
fn transfer_reports_an_insufficient_balance() {
    let mut ledger = Ledger::new();
    credit_initial(&mut ledger, ZERO_ADDRESS, 5);
    let reply = transfer(&mut ledger, &transfer_request(ZEROS_ADDRESS, ZERO_ADDRESS, 1));
    assert_failure(&reply, Status::InternalServerError, "Insufficient balance");
    assert_eq!(faic_node::wallet::get_balance(&ledger, ZERO_ADDRESS), 5);
}

#[test]
fn get_balance_answers_with_the_balance() {
    let mut ledger = Ledger::new();
    credit_initial(&mut ledger, ZEROS_ADDRESS, 1000);
    let reply = get_balance(&ledger, ZEROS_ADDRESS);
    assert_success(&reply);
    assert!(matches!(reply.data, Some(ResponseData::Balance { balance: 1000 })));
    let reply = get_balance(&ledger, "nobody");
    assert_success(&reply);
    assert!(matches!(reply.data, Some(ResponseData::Balance { balance: 0 })));
}

#[test]
fn transaction_history_is_empty() {
    let reply = get_transaction_history(ZEROS_ADDRESS);
    assert_success(&reply);
    assert!(matches!(
        reply.data,
        Some(ResponseData::Transactions { transactions }) if transactions.is_empty()
    ));
}

#[test]
fn created_wallet_pays_and_is_found_again() {
    let mut ledger = Ledger::new();
    let reply = create_wallet(&mut ledger, &create_request(1_700_000_000), 1_700_000_000);
    let (address, mnemonic) = match reply.data {
        Some(ResponseData::Wallet { address, mnemonic }) => (address, mnemonic),
        other => panic!("unexpected data: {:?}", other),
    };
    let reply = get_balance(&ledger, &address);
    assert!(matches!(reply.data, Some(ResponseData::Balance { balance: 1000 })));

    let reply = transfer(&mut ledger, &transfer_request(&address, ZERO_ADDRESS, 300));
    assert_success(&reply);
    match reply.data {
        Some(ResponseData::Transfer { tx_hash }) => {
            assert_eq!(tx_hash.len(), 64);
            assert!(tx_hash.chars().all(|c| matches!(c, '0'..='9' | 'a'..='f')));
        }
        other => panic!("unexpected data: {:?}", other),
    }
    let reply = get_balance(&ledger, &address);
    assert!(matches!(reply.data, Some(ResponseData::Balance { balance: 700 })));

    let reply = import_wallet(&ImportWalletRequest { mnemonic });
    assert!(matches!(reply.data, Some(ResponseData::Address { address: found }) if found == address));
}

#[test]
fn api_response_constructors() {
    let reply = ApiResponse::success(ResponseData::Balance { balance: 3 });
    assert_success(&reply);
    let reply = ApiResponse::failure(Status::BadRequest, "no".to_string());
    assert_failure(&reply, Status::BadRequest, "no");
}
