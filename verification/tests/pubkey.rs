use program_101::pubkey::Pubkey;

#[test]
fn zero_key_displays_as_ones() {
    assert_eq!(
        Pubkey::new_from_array([0; 32]).to_string(),
        "11111111111111111111111111111111"
    );
}

#[test]
fn keys_display_in_base58() {
    let sample = [
        24, 243, 6, 223, 230, 153, 210, 8, 92, 137, 123, 67, 164, 197, 79, 196, 125, 43, 183, 85,
        103, 91, 232, 167, 73, 131, 104, 131, 0, 101, 214, 231,
    ];
    assert_eq!(
        Pubkey::new_from_array(sample).to_string(),
        "2gPihUTjt3FJqf1VpidgrY5cZ6PuyMccGVwQHRfjMPZG"
    );
    assert_eq!(
        Pubkey::new_from_array([255; 32]).to_string(),
        "JEKNVnkbo3jma5nREBBJCDoXFVeKkD56V3xKrvRmWxFG"
    );
    let mut one = [0u8; 32];
    one[31] = 1;
    assert_eq!(
        Pubkey::new_from_array(one).to_string(),
        "11111111111111111111111111111112"
    );
    let mut counting = [0u8; 32];
    for (i, byte) in counting.iter_mut().enumerate() {
        *byte = i as u8;
    }
    assert_eq!(
        Pubkey::new_from_array(counting).to_string(),
        "1thX6LZfHDZZKUs92febYZhYRcXddmzfzF2NvTkPNE"
    );
}

#[test]
fn key_text_is_that_of_the_runtime_address() {
    for seed in 0..=255u8 {
        let mut bytes = [0u8; 32];
        for (i, byte) in bytes.iter_mut().enumerate() {
            *byte = seed.wrapping_mul(31).wrapping_add((i as u8).wrapping_mul(seed | 1));
        }
        assert_eq!(
            Pubkey::new_from_array(bytes).to_string(),
            solana_program::pubkey::Pubkey::new_from_array(bytes).to_string()
        );
    }
}

#[test]
fn key_keeps_its_bytes() {
    let mut bytes = [0u8; 32];
    for (i, byte) in bytes.iter_mut().enumerate() {
        *byte = (i * 7) as u8;
    }
    let key = Pubkey::new_from_array(bytes);
    assert_eq!(key.to_bytes(), bytes);
    assert_eq!(key, Pubkey(bytes));
    assert_ne!(key, Pubkey::new_from_array([0; 32]));
}
