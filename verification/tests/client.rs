use pumpfun::accounts::{BondingCurveAccount, GlobalAccount};
use pumpfun::address::Address;
use pumpfun::error::TradeError;
use pumpfun::instruction::{Instruction, Route};
use pumpfun::ipfs::{TokenMetadata, TokenMetadataIPFS};
use pumpfun::jito::RelayReply;
use pumpfun::trade::common::{
    get_bonding_curve_account, get_bonding_curve_pda, get_global_account, get_global_pda, AccountRead,
    ChainReads, Lookup, Need, Step,
};
use pumpfun::{CommitmentLevel, PumpFun};

fn wallet() -> Address {
    Address { bytes: [71u8; 32] }
}

fn coin() -> Address {
    Address { bytes: [72u8; 32] }
}

fn settings() -> GlobalAccount {
    GlobalAccount {
        discriminator: 1,
        initialized: true,
        authority: Address { bytes: [73u8; 32] },
        fee_recipient: Address { bytes: [74u8; 32] },
        initial_virtual_token_reserves: 1_073_000_000_000_000,
        initial_virtual_sol_reserves: 30_000_000_000,
        initial_real_token_reserves: 793_100_000_000_000,
        token_total_supply: 1_000_000_000_000_000,
        fee_basis_points: 100,
    }
}

fn reserves() -> BondingCurveAccount {
    BondingCurveAccount {
        discriminator: 2,
        virtual_token_reserves: 1_000_000_000_000,
        virtual_sol_reserves: 30_000_000_000,
        real_token_reserves: 800_000_000_000,
        real_sol_reserves: 0,
        token_total_supply: 1_000_000_000_000_000,
        complete: false,
    }
}

fn read_all() -> ChainReads {
    ChainReads {
        global_account: Some(settings()),
        bonding_curve_account: Some(reserves()),
        associated_accounts: vec![true],
        tip_account: Some(Address { bytes: [75u8; 32] }),
    }
}

fn about() -> TokenMetadataIPFS {
    TokenMetadataIPFS {
        metadata: TokenMetadata { name: "Name".to_string(), symbol: "SYM".to_string() },
        metadata_uri: "uri".to_string(),
    }
}

fn with_relay() -> PumpFun {
    PumpFun::new("https://rpc.example".to_string(), None, wallet(), Some("https://relay.example".to_string()))
}

fn without_relay() -> PumpFun {
    PumpFun::new("https://rpc.example".to_string(), Some(CommitmentLevel::Finalized), wallet(), None)
}

#[test]
fn a_new_client_has_read_nothing() {
    let client = with_relay();
    assert_eq!(client.rpc_url, "https://rpc.example");
    assert_eq!(client.commitment, CommitmentLevel::Processed);
    assert_eq!(client.payer, wallet());
    assert_eq!(client.global_accounts.get(&get_global_pda().unwrap()), None);
    assert_eq!(client.bonding_curves.get(&get_bonding_curve_pda(&coin()).unwrap()), None);
    let relay = client.relay().unwrap();
    assert_eq!(relay.base_url(), "https://relay.example");
    assert!(relay.tip_accounts().is_empty());
    assert_eq!(without_relay().commitment, CommitmentLevel::Finalized);
}

#[test]
fn a_client_without_a_relay_refuses_relay_operations() {
    let client = without_relay();
    assert_eq!(client.relay().err(), Some(TradeError::MissingRelayClient));
    assert_eq!(
        client.buy_with_jito(&read_all(), &coin(), 5, 5, None, None),
        Err(TradeError::MissingRelayClient)
    );
    assert_eq!(
        client.buy_with_jito(&ChainReads::new(), &coin(), 0, 0, None, None),
        Err(TradeError::MissingRelayClient)
    );
    assert_eq!(
        client.buy_with_jito(&ChainReads::new(), &coin(), u64::MAX, u64::MAX, Some(u64::MAX), None),
        Err(TradeError::MissingRelayClient)
    );
}

#[test]
fn a_client_with_a_relay_buys_through_it() {
    let client = with_relay();
    assert_eq!(
        client.buy_with_jito(&ChainReads::new(), &coin(), 0, 5, None, None),
        Err(TradeError::InvalidInput)
    );
    assert_eq!(
        client.buy_with_jito(&ChainReads::new(), &coin(), 0, u64::MAX, Some(10_000), None),
        Err(TradeError::InvalidInput)
    );
    assert_eq!(
        client.buy_with_jito(&ChainReads::new(), &coin(), 5, 5, None, None),
        Ok(Step::Read(Need::GlobalAccount))
    );
    match client.buy_with_jito(&read_all(), &coin(), 5, 5, None, None) {
        Ok(Step::Ready(submission)) => {
            assert_eq!(submission.route, Route::Bundle);
            assert_eq!(submission.transaction.payer, wallet());
        }
        other => panic!("unexpected {:?}", other),
    }
}

#[test]
fn the_client_s_payer_pays_every_trade() {
    let client = without_relay();
    assert_eq!(client.buy(&ChainReads::new(), &coin(), 0, None, None), Err(TradeError::InvalidInput));
    match client.buy(&read_all(), &coin(), 1_000_000_000, Some(100), None) {
        Ok(Step::Ready(submission)) => {
            assert_eq!(submission.route, Route::Send);
            assert_eq!(
                submission.transaction.instructions,
                vec![Instruction::Buy {
                    payer: wallet(),
                    mint: coin(),
                    fee_recipient: settings().fee_recipient,
                    amount: 32_258_064_516,
                    max_sol_cost: 1_010_000_000,
                }]
            );
        }
        other => panic!("unexpected {:?}", other),
    }
    let launch = client.create(&coin(), &about(), None);
    assert_eq!(launch.transaction.payer, wallet());
    assert_eq!(launch.transaction.signers, vec![wallet(), coin()]);
    assert_eq!(launch.route, Route::SendAndConfirm);
    match client.create_and_buy(&read_all(), &coin(), &about(), 1_000, None, None) {
        Ok(Step::Ready(submission)) => {
            assert_eq!(submission.transaction.payer, wallet());
            assert_eq!(submission.transaction.instructions.len(), 4);
        }
        other => panic!("unexpected {:?}", other),
    }
    assert_eq!(
        client.create_and_buy(&ChainReads::new(), &coin(), &about(), 0, None, None),
        Err(TradeError::InvalidInput)
    );
}

#[test]
fn a_copy_of_a_client_starts_cold() {
    let mut client = with_relay();
    let global = borsh::to_vec(&(1u64, true, [4u8; 32], [5u8; 32], 10u64, 20u64, 30u64, 40u64, 50u64)).unwrap();
    let curve = borsh::to_vec(&(1u64, 2u64, 3u64, 4u64, 5u64, 6u64, false)).unwrap();
    assert!(matches!(
        get_global_account(&mut client.global_accounts, &AccountRead::Data(global)),
        Ok(Lookup::Found(_))
    ));
    assert!(matches!(
        get_bonding_curve_account(&mut client.bonding_curves, &coin(), &AccountRead::Data(curve)),
        Ok(Lookup::Found(_))
    ));
    let tips = vec!["96gYZGLnJYVFmbjzopPSU6QiEV5fGqZNyN9nmNhvrZU5".to_string()];
    client.jito_client.as_mut().unwrap().init_tip_accounts(RelayReply::Result(tips)).unwrap();

    let mut copy = client.clone();
    assert_eq!(copy.rpc_url, client.rpc_url);
    assert_eq!(copy.commitment, client.commitment);
    assert_eq!(copy.payer, client.payer);
    assert_eq!(
        get_global_account(&mut copy.global_accounts, &AccountRead::Pending),
        Ok(Lookup::Fetch(get_global_pda().unwrap()))
    );
    assert_eq!(
        get_bonding_curve_account(&mut copy.bonding_curves, &coin(), &AccountRead::Pending),
        Ok(Lookup::Fetch(get_bonding_curve_pda(&coin()).unwrap()))
    );
    let relay = copy.relay().unwrap();
    assert_eq!(relay.base_url(), "https://relay.example");
    assert!(relay.tip_accounts().is_empty());
    assert!(!relay.populated());

    // the first client still answers from its own cache
    assert!(matches!(
        get_global_account(&mut client.global_accounts, &AccountRead::Pending),
        Ok(Lookup::Found(_))
    ));
    assert_eq!(client.relay().unwrap().tip_accounts().len(), 1);
    assert!(without_relay().clone().jito_client.is_none());
}
