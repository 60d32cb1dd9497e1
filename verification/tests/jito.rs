use pumpfun::address::Address;
use pumpfun::error::TradeError;
use pumpfun::instruction::{Instruction, Transaction};
use pumpfun::jito::{
    read_reply, ClientError, JitoClient, JitoError, RelayReply, RelayRequest, TipAccountResult,
    TipSelection,
};

const TIPS: [&str; 8] = [
    "96gYZGLnJYVFmbjzopPSU6QiEV5fGqZNyN9nmNhvrZU5",
    "HFqU5x63VTqvQss8hp11i4wVV8bD44PvwucfZ2bU7gRe",
    "Cw8CFyM9FkoMi7K7Crf6HNQqf4uEMzpKw6QNghXLvLkY",
    "ADaUMid9yfUytqMBgopwjb2DTLSokTSzL1zt6iGPaS49",
    "DfXygSm4jCyNCybVYYK6DwvWqjKee8pbDmJGcLWNDXjh",
    "ADuUkR4vqLUMWXxW9gh6D6L8pMSawimctcNZ5pGwDcEt",
    "DttWaMuVvTiduZRnguLF7jNxTgiMBZ1hyAumKUiL2KRL",
    "3AVi9Tg9Uo68tJfuvoKvqKNWKkC5wPdSSdeBnizKZ6jT",
];

fn texts(count: usize) -> Vec<String> {
    TIPS[..count].iter().map(|text| text.to_string()).collect()
}

fn addresses(count: usize) -> Vec<Address> {
    TIPS[..count].iter().map(|text| Address::parse(text).unwrap()).collect()
}

fn transaction(tag: u64) -> Transaction {
    let payer = Address { bytes: [61u8; 32] };
    Transaction {
        instructions: vec![Instruction::Transfer { from: payer, to: payer, lamports: tag }],
        payer,
        signers: vec![payer],
    }
}

#[test]
fn a_new_client_knows_no_tip_account() {
    let client = JitoClient::new("https://relay.example/api/v1", None);
    assert_eq!(client.base_url(), "https://relay.example/api/v1");
    assert!(client.tip_accounts().is_empty());
    assert!(!client.populated());
    assert_eq!(client.get_tip_account(false), Ok(TipSelection::Refresh));
}

#[test]
fn tip_accounts_are_parsed_in_order() {
    let client = JitoClient::new("u", Some("token".to_string()));
    assert_eq!(
        client.get_tip_accounts(RelayReply::Result(texts(3))),
        Ok(TipAccountResult { accounts: addresses(3) })
    );
    assert_eq!(
        client.get_tip_accounts(RelayReply::Result(vec![])),
        Ok(TipAccountResult { accounts: vec![] })
    );
}

#[test]
fn one_malformed_tip_account_spoils_the_reply() {
    let client = JitoClient::new("u", None);
    let mut list = texts(3);
    list[1] = "not an address".to_string();
    assert_eq!(client.get_tip_accounts(RelayReply::Result(list)), Err(JitoError::AddressFormat));
    assert_eq!(JitoError::AddressFormat.kind(), TradeError::AddressFormatError);
}

#[test]
fn a_failed_request_keeps_its_code_and_text() {
    let client = JitoClient::new("u", None);
    let denied = RelayReply::Status { code: 429, reason: "Too Many Requests".to_string() };
    let down = RelayReply::Status { code: 503, reason: "Service Unavailable".to_string() };
    let refused = RelayReply::Error { code: -32000, message: "bundle rejected".to_string() };
    let first = client.get_tip_accounts(denied);
    let second = client.get_tip_accounts(down);
    let third = client.get_tip_accounts(refused);
    assert_eq!(
        first,
        Err(JitoError::Client(ClientError { code: 429, message: "Too Many Requests".to_string() }))
    );
    assert_eq!(
        second,
        Err(JitoError::Client(ClientError { code: 503, message: "Service Unavailable".to_string() }))
    );
    assert_eq!(
        third,
        Err(JitoError::Client(ClientError { code: -32000, message: "bundle rejected".to_string() }))
    );
    assert_ne!(first, second);
    assert_eq!(third.unwrap_err().kind(), TradeError::RelayError);
}

#[test]
fn a_failed_reply_teaches_nothing() {
    let mut client = JitoClient::new("u", None);
    let denied = RelayReply::Status { code: 429, reason: "Too Many Requests".to_string() };
    assert_eq!(
        client.init_tip_accounts(denied),
        Err(JitoError::Client(ClientError { code: 429, message: "Too Many Requests".to_string() }))
    );
    let refused = RelayReply::Error { code: -32000, message: "bundle rejected".to_string() };
    assert_eq!(
        client.init_tip_accounts(refused),
        Err(JitoError::Client(ClientError { code: -32000, message: "bundle rejected".to_string() }))
    );
    let mut list = texts(2);
    list.push("x".to_string());
    assert_eq!(client.init_tip_accounts(RelayReply::Result(list)), Err(JitoError::AddressFormat));
    assert!(client.tip_accounts().is_empty());
    assert!(!client.populated());

    assert_eq!(client.init_tip_accounts(RelayReply::Result(texts(2))), Ok(()));
    let denied = RelayReply::Status { code: 500, reason: "Internal Server Error".to_string() };
    assert_eq!(
        client.init_tip_accounts(denied),
        Err(JitoError::Client(ClientError { code: 500, message: "Internal Server Error".to_string() }))
    );
    assert_eq!(client.tip_accounts(), &addresses(2));
    assert!(client.populated());
}

#[test]
fn a_refresh_replaces_what_the_client_knew() {
    let mut client = JitoClient::new("u", None);
    assert_eq!(client.init_tip_accounts(RelayReply::Result(texts(5))), Ok(()));
    assert_eq!(client.tip_accounts(), &addresses(5));
    assert_eq!(client.init_tip_accounts(RelayReply::Result(texts(2))), Ok(()));
    assert_eq!(client.tip_accounts(), &addresses(2));
    assert!(client.populated());
}

#[test]
fn a_failed_refresh_is_not_an_empty_tip_list() {
    let mut client = JitoClient::new("u", None);
    assert_eq!(client.get_tip_account(false), Ok(TipSelection::Refresh));
    let failed = RelayReply::Error { code: -32603, message: "internal error".to_string() };
    assert_eq!(
        client.init_tip_accounts(failed),
        Err(JitoError::Client(ClientError { code: -32603, message: "internal error".to_string() }))
    );
    assert!(client.tip_accounts().is_empty());
    assert!(!client.populated());
}

#[test]
fn an_empty_tip_list_twice_in_a_row_fails_each_time() {
    let mut client = JitoClient::new("u", None);
    for _ in 0..2 {
        assert_eq!(client.get_tip_account(false), Ok(TipSelection::Refresh));
        assert_eq!(client.init_tip_accounts(RelayReply::Result(vec![])), Ok(()));
        assert_eq!(client.get_tip_account(true), Err(TradeError::NoTipAccountsAvailable));
        assert!(client.populated());
        assert!(client.tip_accounts().is_empty());
    }
}

#[test]
fn a_populated_client_selects_without_a_refresh() {
    let mut client = JitoClient::new("u", None);
    assert_eq!(client.get_tip_account(false), Ok(TipSelection::Refresh));
    client.init_tip_accounts(RelayReply::Result(texts(1))).unwrap();
    assert_eq!(client.get_tip_account(true), Ok(TipSelection::Selected(addresses(1)[0])));
    assert_eq!(client.get_tip_account(false), Ok(TipSelection::Selected(addresses(1)[0])));
}

#[test]
fn ten_thousand_selections_reach_every_tip_account() {
    let mut client = JitoClient::new("u", None);
    client.init_tip_accounts(RelayReply::Result(texts(8))).unwrap();
    let known = addresses(8);
    let mut seen = [0u32; 8];
    for _ in 0..10_000 {
        match client.get_tip_account(false) {
            Ok(TipSelection::Selected(address)) => {
                let at = known.iter().position(|candidate| *candidate == address).unwrap();
                seen[at] += 1;
            }
            other => panic!("unexpected {:?}", other),
        }
    }
    assert!(seen.iter().all(|count| *count > 0), "{:?}", seen);
    assert_eq!(seen.iter().sum::<u32>(), 10_000);
}

#[test]
fn a_draw_selects_the_account_at_its_index() {
    let mut client = JitoClient::new("u", None);
    client.init_tip_accounts(RelayReply::Result(texts(4))).unwrap();
    let known = addresses(4);
    for index in 0..4 {
        assert_eq!(
            client.select_tip_account(false, Some(index)),
            Ok(TipSelection::Selected(known[index]))
        );
        assert_eq!(
            client.select_tip_account(true, Some(index)),
            Ok(TipSelection::Selected(known[index]))
        );
    }
    assert_eq!(client.select_tip_account(false, Some(4)), Ok(TipSelection::Refresh));
    assert_eq!(client.select_tip_account(false, None), Ok(TipSelection::Refresh));
    assert_eq!(client.select_tip_account(true, Some(4)), Err(TradeError::NoTipAccountsAvailable));
    assert_eq!(client.select_tip_account(true, None), Err(TradeError::NoTipAccountsAvailable));
}

#[test]
fn a_copy_of_a_client_starts_without_tip_accounts() {
    let mut client = JitoClient::new("https://relay.example", None);
    client.init_tip_accounts(RelayReply::Result(texts(3))).unwrap();
    let copy = client.clone();
    assert_eq!(copy.base_url(), "https://relay.example");
    assert!(copy.tip_accounts().is_empty());
    assert!(!copy.populated());
    assert_eq!(copy.get_tip_account(false), Ok(TipSelection::Refresh));
    assert_eq!(client.tip_accounts().len(), 3);
}

#[test]
fn a_bundle_keeps_the_order_of_its_transactions() {
    let client = JitoClient::new("u", None);
    let bundle = vec![transaction(1), transaction(2), transaction(3)];
    let request = client.send_transactions(&bundle);
    assert_eq!(request.method(), "sendBundle");
    assert_eq!(
        request,
        RelayRequest::SendBundle(vec![transaction(1), transaction(2), transaction(3)])
    );
    assert_ne!(
        request,
        RelayRequest::SendBundle(vec![transaction(2), transaction(1), transaction(3)])
    );
}

#[test]
fn copies_spell_the_same_transaction() {
    let launch = Transaction {
        instructions: vec![
            Instruction::SetComputeUnitLimit { units: 1 },
            Instruction::Create {
                payer: Address { bytes: [1u8; 32] },
                mint: Address { bytes: [2u8; 32] },
                name: "n".to_string(),
                symbol: "s".to_string(),
                uri: "u".to_string(),
            },
        ],
        payer: Address { bytes: [1u8; 32] },
        signers: vec![Address { bytes: [1u8; 32] }, Address { bytes: [2u8; 32] }],
    };
    assert_eq!(launch.clone(), launch);
    assert_eq!(transaction(4).clone(), transaction(4));
}

#[test]
fn one_transaction_is_a_bundle_of_one() {
    let client = JitoClient::new("u", None);
    assert_eq!(client.send_transaction(&transaction(9)), RelayRequest::SendBundle(vec![transaction(9)]));
    assert_eq!(RelayRequest::GetTipAccounts.method(), "getTipAccounts");
}

#[test]
fn replies_become_results_or_one_kind_of_error() {
    assert_eq!(read_reply(RelayReply::Result("bundle-id".to_string())), Ok("bundle-id".to_string()));
    assert_eq!(
        read_reply::<String>(RelayReply::Status { code: 503, reason: "Service Unavailable".to_string() }),
        Err(ClientError { code: 503, message: "Service Unavailable".to_string() })
    );
    assert_eq!(
        read_reply::<String>(RelayReply::Error { code: -32602, message: "invalid params".to_string() }),
        Err(ClientError { code: -32602, message: "invalid params".to_string() })
    );
}
