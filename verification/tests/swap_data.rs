use farm_fund::orca_swap::{build_swap_invocation, FundView, SwapRequest};
use solana_farm_sdk::instruction::amm::AmmInstruction;

fn request(a: u64, b: u64, min: u64) -> SwapRequest {
    let mut accounts = Vec::new();
    for i in 0..17u8 {
        accounts.push([i; 32]);
    }
    SwapRequest {
        fund: FundView {
            name: b"fund".to_vec(),
            authority_bump: 254,
            fund_program_id: [100; 32],
            fund_authority: [3; 32],
        },
        accounts,
        token_a_amount_in: a,
        token_b_amount_in: b,
        min_token_amount_out: min,
    }
}

#[test]
fn swap_data_is_tag_and_three_little_endian_amounts() {
    let inv = build_swap_invocation(&request(1, 0x0102_0304_0506_0708, u64::MAX)).unwrap();
    let mut expected = vec![3u8];
    expected.extend_from_slice(&[1, 0, 0, 0, 0, 0, 0, 0]);
    expected.extend_from_slice(&[8, 7, 6, 5, 4, 3, 2, 1]);
    expected.extend_from_slice(&[255; 8]);
    assert_eq!(inv.data, expected);
    assert_eq!(inv.data.len(), 25);
}

#[test]
fn swap_data_matches_the_router_instruction_packer() {
    let inv = build_swap_invocation(&request(500, 0, 495)).unwrap();
    let packed = AmmInstruction::Swap {
        token_a_amount_in: 500,
        token_b_amount_in: 0,
        min_token_amount_out: 495,
    }
    .to_vec()
    .unwrap();
    assert_eq!(inv.data, packed);
    assert_eq!(
        AmmInstruction::unpack(&inv.data).unwrap(),
        AmmInstruction::Swap { token_a_amount_in: 500, token_b_amount_in: 0, min_token_amount_out: 495 }
    );
}

#[test]
fn invocation_targets_the_router_with_signed_authority() {
    let inv = build_swap_invocation(&request(10, 20, 30)).unwrap();
    assert_eq!(inv.program_id, [4u8; 32]);
    let keys: Vec<u8> = inv.accounts.iter().map(|m| m.pubkey[0]).collect();
    assert_eq!(keys, vec![3, 6, 7, 8, 9, 10, 11, 12, 13, 14, 15]);
    let signers: Vec<bool> = inv.accounts.iter().map(|m| m.is_signer).collect();
    assert_eq!(signers, vec![true, false, false, false, false, false, false, false, false, false, false]);
    let writable: Vec<bool> = inv.accounts.iter().map(|m| m.is_writable).collect();
    assert_eq!(writable, vec![false, true, true, false, true, true, true, false, true, false, true]);
    assert_eq!(inv.seeds, vec![b"fund_authority".to_vec(), b"fund".to_vec(), vec![254u8]]);
}
