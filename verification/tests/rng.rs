use embassy_imxrt::rng::{Error, entropy_poll_result, fill_chunk_from_entropy, interrupt_wakes, sw_entropy_test, trng_init_values};

#[test]
fn alternating_bits_pass() {
    assert_eq!(sw_entropy_test(&[0xAAAA_AAAA; 16]), Ok(()));
    assert_eq!(sw_entropy_test(&[0x1234_5678; 16]), Ok(()));
}

#[test]
fn repetition_count_threshold() {
    // 25 ones then 8 zeros, then alternating bits: the longest run is 25
    let mut block = [0xAAAA_AAAAu32; 16];
    block[0] = 0x01FF_FFFF;
    assert_eq!(sw_entropy_test(&block), Ok(()));
    // 26 ones in a row
    block[0] = 0x03FF_FFFF;
    assert_eq!(sw_entropy_test(&block), Err(Error::SeedError));
    // a run across a word boundary: 13 zeros at the top of word 0, 13 at the bottom of word 1
    let mut across = [0xAAAA_AAAAu32; 16];
    across[0] = 0x0005_5555;
    across[1] = 0xAAAA_A000;
    assert_eq!(sw_entropy_test(&across), Err(Error::SeedError));
    assert_eq!(sw_entropy_test(&[0xFFFF_FFFF; 16]), Err(Error::SeedError));
}

#[test]
fn adaptive_proportion_threshold() {
    // 24 ones per word: 384 ones, no run longer than 3
    assert_eq!(sw_entropy_test(&[0x7777_7777; 16]), Err(Error::SeedError));
    // 8 ones per word: 128 ones, 384 zeros
    assert_eq!(sw_entropy_test(&[0x1111_1111; 16]), Err(Error::SeedError));
    // 165 ones is the fewest accepted, 347 the most
    let mut block = [0x5555_5555u32; 16];
    assert_eq!(sw_entropy_test(&block), Ok(()));
    block[0] = 0x1111_1111;
    block[1] = 0x1111_1111;
    block[2] = 0x1111_1111;
    block[3] = 0x1111_1111;
    block[4] = 0x1111_1111;
    block[5] = 0x1111_1111;
    block[6] = 0x1111_1111;
    block[7] = 0x1111_1111;
    block[8] = 0x1111_1111;
    block[9] = 0x1111_1111;
    block[10] = 0x1111_1111;
    // 11 * 8 + 5 * 16 = 168 ones
    assert_eq!(sw_entropy_test(&block), Ok(()));
    block[11] = 0x1111_1111;
    // 12 * 8 + 4 * 16 = 160 ones
    assert_eq!(sw_entropy_test(&block), Err(Error::SeedError));
}

#[test]
fn chunk_filling() {
    let block = [0x1234_5678u32; 16];
    let mut chunk = [0u8; 6];
    assert_eq!(fill_chunk_from_entropy(&block, &mut chunk), Ok(()));
    assert_eq!(chunk, [0x78, 0x56, 0x34, 0x12, 0x78, 0x56]);
    let mut full = [0u8; 64];
    assert_eq!(fill_chunk_from_entropy(&block, &mut full), Ok(()));
    assert_eq!(full[63], 0x12);

    let mut zero_word = block;
    zero_word[7] = 0;
    let mut untouched = [0xEEu8; 4];
    assert_eq!(fill_chunk_from_entropy(&zero_word, &mut untouched), Err(Error::SeedError));
    assert_eq!(untouched, [0xEE; 4]);
    assert_eq!(fill_chunk_from_entropy(&[0xFFFF_FFFF; 16], &mut untouched), Err(Error::SeedError));
    assert_eq!(untouched, [0xEE; 4]);
}

#[test]
fn polling_and_interrupts() {
    assert_eq!(entropy_poll_result(true, true, true), Some(Ok(())));
    assert_eq!(entropy_poll_result(false, true, true), Some(Err(Error::HwError)));
    assert_eq!(entropy_poll_result(false, false, true), Some(Err(Error::FreqCountFail)));
    assert_eq!(entropy_poll_result(false, false, false), None);
    assert!(interrupt_wakes(false, false, true));
    assert!(!interrupt_wakes(false, false, false));
}

#[test]
fn init_values() {
    let v = trng_init_values();
    assert_eq!((v.frq_min, v.frq_max), (0, 0x3F_FFFF));
    assert_eq!((v.ent_dly, v.samp_size, v.lrun_max), (0xc80, 0x200, 0xFF));
    assert_eq!((v.run6p_max, v.run6p_rng), (0x07FE, 0x07FF));
}

#[test]
fn complemented_block_gets_the_same_verdict() {
    let mut pass = [0xAAAA_AAAAu32; 16];
    pass[0] = 0x01FF_FFFF;
    let mut fail = [0xAAAA_AAAAu32; 16];
    fail[0] = 0x03FF_FFFF;
    let mut skewed = [0xFFFF_0F0Fu32; 16];
    skewed[3] = 0x5555_5555;
    for block in [pass, fail, skewed, [0x1234_5678; 16]] {
        let inverted: Vec<u32> = block.iter().map(|w| !w).collect();
        assert_eq!(sw_entropy_test(&inverted), sw_entropy_test(&block));
    }
    assert_eq!(sw_entropy_test(&pass), Ok(()));
    assert_eq!(sw_entropy_test(&fail.map(|w| !w)), Err(Error::SeedError));
}
