use anchor_lang::prelude::Pubkey;
use farmtrace::address::{
    derive_address, derive_batch_update_address, derive_farm_plot_address,
    derive_harvest_batch_address, derive_mint_address, derive_verification_address, text_len,
    Address,
};

fn key(fill: u8) -> Address {
    Address::new([fill; 32])
}

fn expected(seeds: &[&[u8]], program: &Address) -> (Address, u8) {
    let (found, bump) = Pubkey::find_program_address(seeds, &Pubkey::new_from_array(program.bytes));
    (Address::new(found.to_bytes()), bump)
}

#[test]
fn farm_plot_address_is_derived_from_tag_id_and_farmer() {
    let program = key(7);
    let farmer = key(1);
    let got = derive_farm_plot_address(&program, "plot-1", &farmer).unwrap();
    let want = expected(&[b"farm_plot", b"plot-1", &farmer.bytes], &program);
    assert_eq!(got.0, want.0);
    assert_eq!(got.1, want.1);
}

#[test]
fn mint_address_is_derived_from_tag_id_and_farmer() {
    let program = key(7);
    let farmer = key(1);
    let got = derive_mint_address(&program, "plot-1", &farmer).unwrap();
    let want = expected(&[b"mint", b"plot-1", &farmer.bytes], &program);
    assert_eq!(got.0, want.0);
    assert_eq!(got.1, want.1);
}

#[test]
fn harvest_batch_address_is_derived_from_tag_id_and_farmer() {
    let program = key(7);
    let farmer = key(2);
    let got = derive_harvest_batch_address(&program, "batch-1", &farmer).unwrap();
    let want = expected(&[b"harvest_batch", b"batch-1", &farmer.bytes], &program);
    assert_eq!(got.0, want.0);
    assert_eq!(got.1, want.1);
}

#[test]
fn batch_update_address_is_derived_from_tag_id_and_timestamp() {
    let program = key(7);
    let timestamp: i64 = 1_700_000_123;
    let got = derive_batch_update_address(&program, "batch-1", timestamp).unwrap();
    let want = expected(&[b"batch_update", b"batch-1", &timestamp.to_le_bytes()], &program);
    assert_eq!(got.0, want.0);
    assert_eq!(got.1, want.1);
}

#[test]
fn batch_update_address_takes_negative_timestamps() {
    let program = key(7);
    let timestamp: i64 = -2;
    let got = derive_batch_update_address(&program, "batch-1", timestamp).unwrap();
    let want = expected(&[b"batch_update", b"batch-1", &timestamp.to_le_bytes()], &program);
    assert_eq!(got.0, want.0);
    assert_eq!(got.1, want.1);
}

#[test]
fn verification_address_is_derived_from_tag_plot_verifier_and_timestamp() {
    let program = key(7);
    let plot = key(3);
    let verifier = key(4);
    let timestamp: i64 = 42;
    let got = derive_verification_address(&program, &plot, &verifier, timestamp).unwrap();
    let want = expected(
        &[b"verification", &plot.bytes, &verifier.bytes, &timestamp.to_le_bytes()],
        &program,
    );
    assert_eq!(got.0, want.0);
    assert_eq!(got.1, want.1);
}

#[test]
fn derivation_is_repeatable() {
    let program = key(7);
    let farmer = key(1);
    let first = derive_farm_plot_address(&program, "plot-1", &farmer).unwrap();
    let second = derive_farm_plot_address(&program, "plot-1", &farmer).unwrap();
    assert_eq!(first.0, second.0);
    assert_eq!(first.1, second.1);
}

#[test]
fn derived_address_is_not_a_seed() {
    let program = key(7);
    let farmer = key(1);
    let got = derive_farm_plot_address(&program, "plot-1", &farmer).unwrap();
    assert_ne!(got.0, farmer);
    assert_ne!(got.0, program);
}

#[test]
fn addresses_differ_by_plot_by_farmer_by_kind_and_by_program() {
    let program = key(7);
    let farmer = key(1);
    let base = derive_farm_plot_address(&program, "plot-1", &farmer).unwrap().0;
    assert_ne!(base, derive_farm_plot_address(&program, "plot-2", &farmer).unwrap().0);
    assert_ne!(base, derive_farm_plot_address(&program, "plot-1", &key(2)).unwrap().0);
    assert_ne!(base, derive_harvest_batch_address(&program, "plot-1", &farmer).unwrap().0);
    assert_ne!(base, derive_mint_address(&program, "plot-1", &farmer).unwrap().0);
    assert_ne!(base, derive_farm_plot_address(&key(8), "plot-1", &farmer).unwrap().0);
}

#[test]
fn update_addresses_differ_by_timestamp() {
    let program = key(7);
    let first = derive_batch_update_address(&program, "batch-1", 10).unwrap().0;
    let second = derive_batch_update_address(&program, "batch-1", 11).unwrap().0;
    assert_ne!(first, second);
}

#[test]
fn seed_of_more_than_32_bytes_derives_nothing() {
    let program = key(7);
    let long = "x".repeat(33);
    assert!(derive_farm_plot_address(&program, &long, &key(1)).is_none());
    assert!(derive_address(&vec![vec![0u8; 33]], &program).is_none());
    assert!(derive_address(&vec![vec![0u8; 32]], &program).is_some());
}

#[test]
fn more_than_15_seeds_derive_nothing() {
    let program = key(7);
    assert!(derive_address(&vec![vec![1u8]; 16], &program).is_none());
    assert!(derive_address(&vec![vec![1u8]; 15], &program).is_some());
}

#[test]
fn no_seeds_still_derive_an_address() {
    let program = key(7);
    let got = derive_address(&Vec::new(), &program).unwrap();
    let want = expected(&[], &program);
    assert_eq!(got.0, want.0);
    assert_eq!(got.1, want.1);
}

#[test]
fn base58_of_zero_bytes_is_all_ones() {
    assert_eq!(Address::new([0u8; 32]).to_base58(), "1".repeat(32));
}

#[test]
fn base58_agrees_with_key_text() {
    let mut bytes = [0u8; 32];
    for (i, b) in bytes.iter_mut().enumerate() {
        *b = (i * 7 + 3) as u8;
    }
    let address = Address::new(bytes);
    assert_eq!(address.to_base58(), Pubkey::new_from_array(bytes).to_string());
    assert_ne!(address.to_base58(), Address::new([0u8; 32]).to_base58());
}

#[test]
fn addresses_are_equal_when_all_bytes_are() {
    let mut bytes = [9u8; 32];
    assert_eq!(Address::new(bytes), key(9));
    bytes[31] = 8;
    assert_ne!(Address::new(bytes), key(9));
    bytes[31] = 9;
    bytes[0] = 8;
    assert_ne!(Address::new(bytes), key(9));
}

#[test]
fn seed_of_an_address_is_its_bytes() {
    let mut bytes = [0u8; 32];
    for (i, b) in bytes.iter_mut().enumerate() {
        *b = i as u8;
    }
    assert_eq!(Address::new(bytes).seed(), bytes.to_vec());
}

#[test]
fn text_length_counts_bytes() {
    assert_eq!(text_len(""), 0);
    assert_eq!(text_len("abc"), 3);
    assert_eq!(text_len("é"), 2);
    assert_eq!(text_len("日本"), 6);
}
