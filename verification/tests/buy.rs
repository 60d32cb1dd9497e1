use pumpfun::accounts::{BondingCurveAccount, GlobalAccount};
use pumpfun::address::Address;
use pumpfun::constants::token_program;
use pumpfun::error::TradeError;
use pumpfun::instruction::{Instruction, Route, Submission, Transaction};
use pumpfun::trade::buy::{build_buy_transaction, buy, buy_with_jito};
use pumpfun::trade::common::{get_associated_token_address, ChainReads, Need, PriorityFee, Step};

fn buyer() -> Address {
    Address { bytes: [41u8; 32] }
}

fn asset() -> Address {
    Address { bytes: [42u8; 32] }
}

fn recipient() -> Address {
    Address { bytes: [43u8; 32] }
}

fn tip_receiver() -> Address {
    Address { bytes: [44u8; 32] }
}

fn protocol() -> GlobalAccount {
    GlobalAccount {
        discriminator: 1,
        initialized: true,
        authority: Address { bytes: [45u8; 32] },
        fee_recipient: recipient(),
        initial_virtual_token_reserves: 1_073_000_000_000_000,
        initial_virtual_sol_reserves: 30_000_000_000,
        initial_real_token_reserves: 793_100_000_000_000,
        token_total_supply: 1_000_000_000_000_000,
        fee_basis_points: 100,
    }
}

fn fresh_curve() -> BondingCurveAccount {
    BondingCurveAccount {
        discriminator: 2,
        virtual_token_reserves: 1_000_000_000_000,
        virtual_sol_reserves: 30_000_000_000,
        real_token_reserves: 800_000_000_000,
        real_sol_reserves: 0,
        token_total_supply: 1_000_000_000_000_000,
        complete: false,
    }
}

fn all_read(exists: bool) -> ChainReads {
    ChainReads {
        global_account: Some(protocol()),
        bonding_curve_account: Some(fresh_curve()),
        associated_accounts: vec![exists],
        tip_account: Some(tip_receiver()),
    }
}

fn create_account() -> Instruction {
    Instruction::CreateAssociatedTokenAccount {
        funder: buyer(),
        wallet: buyer(),
        mint: asset(),
        token_program: token_program(),
    }
}

#[test]
fn buy_of_nothing_fails_before_anything_is_read() {
    let nothing = ChainReads::new();
    assert_eq!(buy(&nothing, &buyer(), &asset(), 0, None, None), Err(TradeError::InvalidInput));
    assert_eq!(
        build_buy_transaction(&nothing, &buyer(), &asset(), 0, Some(500), Some(PriorityFee::default())),
        Err(TradeError::InvalidInput)
    );
    assert_eq!(buy(&all_read(true), &buyer(), &asset(), 0, None, None), Err(TradeError::InvalidInput));
}

#[test]
fn buy_reads_in_a_fixed_order() {
    let mut reads = ChainReads::new();
    assert_eq!(buy(&reads, &buyer(), &asset(), 1, None, None), Ok(Step::Read(Need::GlobalAccount)));
    reads.global_account = Some(protocol());
    assert_eq!(buy(&reads, &buyer(), &asset(), 1, None, None), Ok(Step::Read(Need::BondingCurveAccount)));
    reads.bonding_curve_account = Some(fresh_curve());
    let account = get_associated_token_address(&buyer(), &asset()).unwrap();
    assert_eq!(
        buy(&reads, &buyer(), &asset(), 1, None, None),
        Ok(Step::Read(Need::AccountExists(account)))
    );
    reads.associated_accounts.push(true);
    assert!(matches!(buy(&reads, &buyer(), &asset(), 1, None, None), Ok(Step::Ready(_))));
}

#[test]
fn buy_prices_on_the_curve_and_bounds_by_slippage() {
    let outcome = build_buy_transaction(&all_read(true), &buyer(), &asset(), 1_000_000_000, Some(500), None);
    assert_eq!(
        outcome,
        Ok(Step::Ready(Transaction {
            instructions: vec![Instruction::Buy {
                payer: buyer(),
                mint: asset(),
                fee_recipient: recipient(),
                amount: 32_258_064_516,
                max_sol_cost: 1_050_000_000,
            }],
            payer: buyer(),
            signers: vec![buyer()],
        }))
    );
}

#[test]
fn buy_without_slippage_bounds_by_the_amount() {
    let outcome = build_buy_transaction(&all_read(true), &buyer(), &asset(), 1_000_000_000, None, None);
    match outcome {
        Ok(Step::Ready(transaction)) => assert_eq!(
            transaction.instructions,
            vec![Instruction::Buy {
                payer: buyer(),
                mint: asset(),
                fee_recipient: recipient(),
                amount: 32_258_064_516,
                max_sol_cost: 1_000_000_000,
            }]
        ),
        other => panic!("unexpected {:?}", other),
    }
}

#[test]
fn buy_puts_fee_steps_first_and_creates_a_missing_account() {
    let fee = PriorityFee { limit: Some(100_000), price: Some(7) };
    let outcome = build_buy_transaction(&all_read(false), &buyer(), &asset(), 1_000_000_000, Some(0), Some(fee));
    match outcome {
        Ok(Step::Ready(transaction)) => {
            assert_eq!(
                transaction.instructions,
                vec![
                    Instruction::SetComputeUnitLimit { units: 100_000 },
                    Instruction::SetComputeUnitPrice { micro_lamports: 7 },
                    create_account(),
                    Instruction::Buy {
                        payer: buyer(),
                        mint: asset(),
                        fee_recipient: recipient(),
                        amount: 32_258_064_516,
                        max_sol_cost: 1_000_000_000,
                    },
                ]
            );
            assert!(transaction.instructions[0].is_compute_budget());
            assert!(transaction.instructions[1].is_compute_budget());
            assert!(!transaction.instructions[2].is_compute_budget());
            assert!(transaction.instructions[3].buys(&asset()));
            assert!(!transaction.instructions[3].buys(&buyer()));
            assert!(!transaction.instructions[3].creates(&asset()));
        }
        other => panic!("unexpected {:?}", other),
    }
}

#[test]
fn buy_sets_only_the_fee_parts_that_are_given() {
    let only_price = PriorityFee { limit: None, price: Some(9) };
    match build_buy_transaction(&all_read(true), &buyer(), &asset(), 5, None, Some(only_price)) {
        Ok(Step::Ready(transaction)) => {
            assert_eq!(transaction.instructions.len(), 2);
            assert_eq!(transaction.instructions[0], Instruction::SetComputeUnitPrice { micro_lamports: 9 });
        }
        other => panic!("unexpected {:?}", other),
    }
    let neither = PriorityFee { limit: None, price: None };
    match build_buy_transaction(&all_read(true), &buyer(), &asset(), 5, None, Some(neither)) {
        Ok(Step::Ready(transaction)) => assert_eq!(transaction.instructions.len(), 1),
        other => panic!("unexpected {:?}", other),
    }
}

#[test]
fn buy_is_sent_without_waiting() {
    match buy(&all_read(true), &buyer(), &asset(), 1_000_000_000, None, None) {
        Ok(Step::Ready(Submission { transaction, route })) => {
            assert_eq!(route, Route::Send);
            assert_eq!(transaction.payer, buyer());
            assert_eq!(transaction.signers, vec![buyer()]);
        }
        other => panic!("unexpected {:?}", other),
    }
}

#[test]
fn buy_never_buys_more_than_the_curve_holds() {
    let mut reads = all_read(true);
    let mut curve = fresh_curve();
    curve.real_token_reserves = 1_000;
    reads.bonding_curve_account = Some(curve);
    match build_buy_transaction(&reads, &buyer(), &asset(), 1_000_000_000, None, None) {
        Ok(Step::Ready(transaction)) => assert_eq!(
            transaction.instructions[0],
            Instruction::Buy {
                payer: buyer(),
                mint: asset(),
                fee_recipient: recipient(),
                amount: 1_000,
                max_sol_cost: 1_000_000_000,
            }
        ),
        other => panic!("unexpected {:?}", other),
    }
}

#[test]
fn relayed_buy_checks_both_amounts_first() {
    let nothing = ChainReads::new();
    assert_eq!(
        buy_with_jito(&nothing, &buyer(), &asset(), 0, 5, None, None),
        Err(TradeError::InvalidInput)
    );
    assert_eq!(
        buy_with_jito(&nothing, &buyer(), &asset(), 5, 0, None, None),
        Err(TradeError::InvalidInput)
    );
    assert_eq!(
        buy_with_jito(&all_read(true), &buyer(), &asset(), 0, 0, Some(1), Some(1)),
        Err(TradeError::InvalidInput)
    );
    // nothing is computed, so no bound has to fit
    assert_eq!(
        buy_with_jito(&nothing, &buyer(), &asset(), 0, u64::MAX, Some(10_000), None),
        Err(TradeError::InvalidInput)
    );
}

#[test]
fn relayed_buy_reads_in_a_fixed_order() {
    let mut reads = ChainReads::new();
    assert_eq!(
        buy_with_jito(&reads, &buyer(), &asset(), 5, 5, None, None),
        Ok(Step::Read(Need::GlobalAccount))
    );
    reads.global_account = Some(protocol());
    assert_eq!(
        buy_with_jito(&reads, &buyer(), &asset(), 5, 5, None, None),
        Ok(Step::Read(Need::TipAccount))
    );
    reads.tip_account = Some(tip_receiver());
    let account = get_associated_token_address(&buyer(), &asset()).unwrap();
    assert_eq!(
        buy_with_jito(&reads, &buyer(), &asset(), 5, 5, None, None),
        Ok(Step::Read(Need::AccountExists(account)))
    );
    reads.associated_accounts.push(false);
    assert!(matches!(
        buy_with_jito(&reads, &buyer(), &asset(), 5, 5, None, None),
        Ok(Step::Ready(_))
    ));
}

#[test]
fn relayed_buy_ends_with_the_tip() {
    let outcome = buy_with_jito(&all_read(false), &buyer(), &asset(), 777, 2_000_000, Some(1_000), Some(123));
    assert_eq!(
        outcome,
        Ok(Step::Ready(Submission {
            transaction: Transaction {
                instructions: vec![
                    create_account(),
                    Instruction::Buy {
                        payer: buyer(),
                        mint: asset(),
                        fee_recipient: recipient(),
                        amount: 777,
                        max_sol_cost: 2_200_000,
                    },
                    Instruction::Transfer { from: buyer(), to: tip_receiver(), lamports: 123 },
                ],
                payer: buyer(),
                signers: vec![buyer()],
            },
            route: Route::Bundle,
        }))
    );
}

#[test]
fn relayed_buy_tips_the_default_when_none_is_named() {
    match buy_with_jito(&all_read(true), &buyer(), &asset(), 777, 2_000_000, None, None) {
        Ok(Step::Ready(submission)) => assert_eq!(
            submission.transaction.instructions,
            vec![
                Instruction::Buy {
                    payer: buyer(),
                    mint: asset(),
                    fee_recipient: recipient(),
                    amount: 777,
                    max_sol_cost: 2_000_000,
                },
                Instruction::Transfer { from: buyer(), to: tip_receiver(), lamports: 100_000 },
            ]
        ),
        other => panic!("unexpected {:?}", other),
    }
}
