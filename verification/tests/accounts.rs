use pumpfun::accounts::{BondingCurveAccount, GlobalAccount};
use pumpfun::address::Address;
use pumpfun::error::TradeError;

fn curve_bytes(values: (u64, u64, u64, u64, u64, u64, bool)) -> Vec<u8> {
    borsh::to_vec(&values).unwrap()
}

fn global_bytes(authority: [u8; 32], fee_recipient: [u8; 32]) -> Vec<u8> {
    borsh::to_vec(&(
        0x7f_a4_a7_18_30_1b_27_a7_u64,
        true,
        authority,
        fee_recipient,
        1_073_000_000_000_000u64,
        30_000_000_000u64,
        793_100_000_000_000u64,
        1_000_000_000_000_000u64,
        100u64,
    ))
    .unwrap()
}

#[test]
fn bonding_curve_is_read_field_by_field() {
    let data = curve_bytes((11, 1_000_000_000_000, 30_000_000_000, 800_000_000_000, 5, u64::MAX, true));
    assert_eq!(data.len(), 49);
    assert_eq!(
        BondingCurveAccount::try_from_slice(&data),
        Ok(BondingCurveAccount {
            discriminator: 11,
            virtual_token_reserves: 1_000_000_000_000,
            virtual_sol_reserves: 30_000_000_000,
            real_token_reserves: 800_000_000_000,
            real_sol_reserves: 5,
            token_total_supply: u64::MAX,
            complete: true,
        })
    );
}

#[test]
fn bonding_curve_integers_are_little_endian() {
    let mut data = vec![0u8; 49];
    data[8] = 0x01;
    data[9] = 0x02;
    data[16] = 0xff;
    data[23] = 0x80;
    let account = BondingCurveAccount::try_from_slice(&data).unwrap();
    assert_eq!(account.virtual_token_reserves, 0x0201);
    assert_eq!(account.virtual_sol_reserves, 0x8000_0000_0000_00ff);
    assert_eq!(account.real_token_reserves, 0);
    assert!(!account.complete);
}

#[test]
fn bonding_curve_of_another_length_is_malformed() {
    let data = curve_bytes((1, 2, 3, 4, 5, 6, false));
    assert_eq!(
        BondingCurveAccount::try_from_slice(&data[..48]),
        Err(TradeError::DeserializationFailed)
    );
    let mut longer = data.clone();
    longer.push(0);
    assert_eq!(BondingCurveAccount::try_from_slice(&longer), Err(TradeError::DeserializationFailed));
    assert_eq!(BondingCurveAccount::try_from_slice(&[]), Err(TradeError::DeserializationFailed));
}

#[test]
fn bonding_curve_with_another_flag_is_malformed() {
    let mut data = curve_bytes((1, 2, 3, 4, 5, 6, false));
    data[48] = 2;
    assert_eq!(BondingCurveAccount::try_from_slice(&data), Err(TradeError::DeserializationFailed));
    data[48] = 1;
    assert!(BondingCurveAccount::try_from_slice(&data).unwrap().complete);
}

#[test]
fn global_account_is_read_field_by_field() {
    let mut authority = [0u8; 32];
    let mut fee_recipient = [0u8; 32];
    for i in 0..32 {
        authority[i] = i as u8;
        fee_recipient[i] = 200 + i as u8;
    }
    let data = global_bytes(authority, fee_recipient);
    assert_eq!(data.len(), 113);
    assert_eq!(
        GlobalAccount::try_from_slice(&data),
        Ok(GlobalAccount {
            discriminator: 0x7f_a4_a7_18_30_1b_27_a7,
            initialized: true,
            authority: Address { bytes: authority },
            fee_recipient: Address { bytes: fee_recipient },
            initial_virtual_token_reserves: 1_073_000_000_000_000,
            initial_virtual_sol_reserves: 30_000_000_000,
            initial_real_token_reserves: 793_100_000_000_000,
            token_total_supply: 1_000_000_000_000_000,
            fee_basis_points: 100,
        })
    );
}

#[test]
fn global_account_of_another_form_is_malformed() {
    let data = global_bytes([1u8; 32], [2u8; 32]);
    assert_eq!(GlobalAccount::try_from_slice(&data[1..]), Err(TradeError::DeserializationFailed));
    let mut flagged = data.clone();
    flagged[8] = 7;
    assert_eq!(GlobalAccount::try_from_slice(&flagged), Err(TradeError::DeserializationFailed));
    let mut longer = data;
    longer.extend_from_slice(&[0, 0]);
    assert_eq!(GlobalAccount::try_from_slice(&longer), Err(TradeError::DeserializationFailed));
}

#[test]
fn curve_account_prices_like_the_free_function() {
    let account = BondingCurveAccount {
        discriminator: 0,
        virtual_token_reserves: 1_000_000_000_000,
        virtual_sol_reserves: 30_000_000_000,
        real_token_reserves: 800_000_000_000,
        real_sol_reserves: 0,
        token_total_supply: 0,
        complete: false,
    };
    assert_eq!(account.get_buy_price(1_000_000_000), 32_258_064_516);
    assert_eq!(account.get_buy_price(0), 0);
    assert_eq!(account.get_buy_price(u64::MAX), 800_000_000_000);
}

#[test]
fn initial_price_uses_the_initial_reserves() {
    let data = global_bytes([1u8; 32], [2u8; 32]);
    let global = GlobalAccount::try_from_slice(&data).unwrap();
    // 1_073e12 - (30e9 * 1_073e12 / 31e9 + 1)
    assert_eq!(global.get_initial_buy_price(1_000_000_000), 34_612_903_225_806);
    assert_eq!(global.get_initial_buy_price(0), 0);
    assert_eq!(global.get_initial_buy_price(u64::MAX), 793_100_000_000_000);
}
