use anchor_lang::prelude::Pubkey;
use inco_programs::address::Address;
use inco_programs::derivation::{
    pool_address, pool_seed_list, position_address, position_seed_list, sol_vault_address,
    sol_vault_record_address, sol_vault_record_seed_list, sol_vault_seed_list, sol_vault_signer_seeds,
    swap_result_address, swap_result_seed_list, usdc_vault_address, usdc_vault_seed_list,
    usdc_vault_signer_seeds, user_balance_address, user_balance_seed_list, vault_address, vault_seed_list,
    vault_signer_seeds,
};

const TOKEN_PROGRAM: [u8; 32] = [
    10, 69, 101, 36, 37, 242, 38, 207, 25, 237, 225, 209, 164, 143, 149, 51, 142, 85, 226, 210, 74, 132, 95, 130,
    168, 103, 193, 127, 52, 83, 13, 58,
];

const AMM_PROGRAM: [u8; 32] = [
    21, 242, 254, 127, 123, 9, 56, 231, 224, 13, 67, 125, 175, 132, 5, 186, 250, 107, 20, 102, 185, 56, 184, 20,
    70, 36, 49, 246, 234, 4, 146, 212,
];

fn addr(byte: u8) -> Address {
    Address::new([byte; 32])
}

#[test]
fn address_equality_and_order() {
    assert_eq!(addr(1), addr(1));
    assert_ne!(addr(1), addr(2));
    let mut bytes = [7u8; 32];
    bytes[31] = 8;
    assert_ne!(Address::new(bytes), addr(7));
    assert!(addr(7).precedes(&Address::new(bytes)));
    assert!(!Address::new(bytes).precedes(&addr(7)));
    assert!(addr(7).precedes(&addr(7)));
    let mut low = [7u8; 32];
    low[0] = 6;
    low[31] = 255;
    assert!(Address::new(low).precedes(&addr(7)));
    assert_eq!(addr(9).to_vec(), vec![9u8; 32]);
    assert_eq!(Address::zero(), addr(0));
}

#[test]
fn sol_vault_address_is_the_derived_one() {
    let program = Address::new(TOKEN_PROGRAM);
    let expected = Address::new([
        149, 72, 75, 218, 18, 182, 52, 42, 246, 234, 102, 136, 191, 4, 175, 133, 171, 147, 89, 2, 15, 120, 205, 70,
        46, 196, 37, 187, 59, 79, 31, 45,
    ]);
    assert_eq!(sol_vault_address(&program), Some((expected, 255)));
    let record = Address::new([
        1, 38, 11, 143, 250, 113, 1, 74, 242, 88, 193, 94, 71, 107, 250, 88, 63, 252, 135, 40, 203, 182, 64, 144,
        198, 124, 207, 191, 50, 53, 240, 215,
    ]);
    assert_eq!(sol_vault_record_address(&program), Some((record, 255)));
    let usdc = Address::new([
        247, 199, 129, 24, 8, 141, 18, 224, 123, 23, 231, 138, 9, 203, 49, 87, 17, 126, 14, 162, 232, 31, 240, 94,
        128, 166, 189, 65, 216, 68, 170, 246,
    ]);
    assert_eq!(usdc_vault_address(&program), Some((usdc, 255)));
}

#[test]
fn vault_and_user_balance_addresses() {
    let program = Address::new(TOKEN_PROGRAM);
    let vault = Address::new([
        79, 237, 78, 158, 155, 132, 136, 101, 83, 66, 36, 185, 237, 88, 108, 194, 86, 15, 110, 14, 32, 167, 56, 230,
        133, 36, 107, 5, 171, 26, 133, 211,
    ]);
    assert_eq!(vault_address(&addr(7), &program), Some((vault, 255)));
    let balance = Address::new([
        68, 196, 211, 171, 39, 80, 229, 117, 234, 20, 197, 75, 240, 199, 117, 29, 64, 166, 97, 252, 100, 37, 32,
        228, 69, 199, 217, 105, 129, 222, 21, 106,
    ]);
    assert_eq!(user_balance_address(&addr(1), &addr(2), &program), Some((balance, 255)));
    assert_ne!(user_balance_address(&addr(2), &addr(1), &program), Some((balance, 255)));
}

#[test]
fn pool_address_ignores_the_order_of_the_assets() {
    let program = Address::new(AMM_PROGRAM);
    let expected = Address::new([
        41, 21, 179, 88, 19, 72, 136, 218, 63, 184, 131, 234, 214, 8, 104, 108, 145, 224, 221, 137, 96, 64, 116,
        193, 98, 105, 130, 7, 14, 141, 219, 219,
    ]);
    assert_eq!(pool_address(&addr(1), &addr(2), &program), Some((expected, 255)));
    assert_eq!(pool_address(&addr(2), &addr(1), &program), Some((expected, 255)));
    assert_ne!(pool_address(&addr(1), &addr(3), &program), Some((expected, 255)));
}

#[test]
fn position_and_swap_result_addresses() {
    let program = Address::new(AMM_PROGRAM);
    let position = Address::new([
        200, 211, 105, 149, 24, 53, 236, 221, 202, 93, 193, 45, 79, 225, 48, 153, 6, 181, 85, 2, 179, 219, 55, 12,
        186, 222, 99, 40, 4, 103, 159, 230,
    ]);
    assert_eq!(position_address(&addr(3), &addr(4), &program), Some((position, 255)));
    let result = Address::new([
        22, 7, 98, 177, 191, 1, 20, 57, 62, 2, 125, 74, 66, 156, 170, 213, 121, 86, 104, 196, 209, 90, 42, 9, 118,
        127, 244, 62, 36, 199, 115, 41,
    ]);
    assert_eq!(swap_result_address(&addr(3), &addr(4), &program), Some((result, 254)));
}

#[test]
fn derived_addresses_agree_with_the_runtime() {
    let program = Pubkey::new_from_array(AMM_PROGRAM);
    let pool = Pubkey::new_from_array([3u8; 32]);
    let user = Pubkey::new_from_array([4u8; 32]);
    let (key, bump) = Pubkey::find_program_address(&[b"position", pool.as_ref(), user.as_ref()], &program);
    assert_eq!(
        position_address(&addr(3), &addr(4), &Address::new(AMM_PROGRAM)),
        Some((Address::new(key.to_bytes()), bump))
    );
    let (key, bump) = Pubkey::find_program_address(&[b"pool", &[1u8; 32], &[2u8; 32]], &program);
    assert_eq!(
        pool_address(&addr(2), &addr(1), &Address::new(AMM_PROGRAM)),
        Some((Address::new(key.to_bytes()), bump))
    );
}

#[test]
fn signer_seeds_end_with_the_bump() {
    assert_eq!(vault_signer_seeds(&addr(7), 254), vec![b"vault".to_vec(), vec![7u8; 32], vec![254u8]]);
    assert_eq!(sol_vault_signer_seeds(255), vec![b"sol_vault".to_vec(), vec![255u8]]);
    assert_eq!(usdc_vault_signer_seeds(3), vec![b"usdc_vault".to_vec(), vec![3u8]]);
}

#[test]
fn seed_lists_start_with_their_label() {
    assert_eq!(vault_seed_list(&addr(7)), vec![b"vault".to_vec(), vec![7u8; 32]]);
    assert_eq!(sol_vault_seed_list(), vec![b"sol_vault".to_vec()]);
    assert_eq!(sol_vault_record_seed_list(), vec![b"sol_vault_v2".to_vec()]);
    assert_eq!(usdc_vault_seed_list(), vec![b"usdc_vault".to_vec()]);
    assert_eq!(
        user_balance_seed_list(&addr(1), &addr(2)),
        vec![b"user_balance".to_vec(), vec![1u8; 32], vec![2u8; 32]]
    );
    assert_eq!(position_seed_list(&addr(3), &addr(4)), vec![b"position".to_vec(), vec![3u8; 32], vec![4u8; 32]]);
    assert_eq!(
        swap_result_seed_list(&addr(4), &addr(3)),
        vec![b"swap_result".to_vec(), vec![4u8; 32], vec![3u8; 32]]
    );
}

#[test]
fn pool_seed_list_orders_the_assets() {
    let expected = vec![b"pool".to_vec(), vec![1u8; 32], vec![2u8; 32]];
    assert_eq!(pool_seed_list(&addr(1), &addr(2)), expected);
    assert_eq!(pool_seed_list(&addr(2), &addr(1)), expected);
    assert_eq!(pool_seed_list(&addr(5), &addr(5)), vec![b"pool".to_vec(), vec![5u8; 32], vec![5u8; 32]]);
    let mut high = [1u8; 32];
    high[31] = 2;
    assert_eq!(
        pool_seed_list(&Address::new(high), &addr(1)),
        vec![b"pool".to_vec(), vec![1u8; 32], high.to_vec()]
    );
}
