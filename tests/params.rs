use keytones::{
    decompose, key_to_params_bottom, key_to_params_top, params_to_key, params_to_key_bottom,
    params_to_key_top, validate_key, Alignment, KeyError,
};

#[test]
fn test_key_to_params_top() {
    let tests: &[(u8, (u8, u8))] = &[
        (116, (0, 0)),
        (115, (11, 1)),
        (69, (1, 4)),
        (68, (0, 4)),
        (67, (11, 5)),
    ];
    for &(key, vals) in tests {
        assert_eq!(key_to_params_top(key), vals);
    }
}

#[test]
fn test_key_to_params_bottom() {
    let tests: &[(u8, (u8, u8))] = &[
        (0, (0, 0)),
        (1, (1, 0)),
        (69, (9, 5)),
        (68, (8, 5)),
        (67, (7, 5)),
    ];
    for &(key, vals) in tests {
        assert_eq!(key_to_params_bottom(key), vals);
    }
}

#[test]
fn validate_key_accepts_range_ends() {
    assert_eq!(validate_key(0), Ok(0));
    assert_eq!(validate_key(69), Ok(69));
    assert_eq!(validate_key(127), Ok(127));
}

#[test]
fn validate_key_refuses_out_of_range() {
    assert_eq!(validate_key(128), Err(KeyError::OutOfRange));
    assert_eq!(validate_key(255), Err(KeyError::OutOfRange));
}

#[test]
fn decompose_range_ends() {
    assert_eq!(decompose(0, Alignment::Top), Ok((4, 10)));
    assert_eq!(decompose(127, Alignment::Top), Ok((11, 0)));
    assert_eq!(decompose(0, Alignment::Bottom), Ok((0, 0)));
    assert_eq!(decompose(127, Alignment::Bottom), Ok((7, 10)));
}

#[test]
fn decompose_refuses_out_of_range() {
    for alignment in [Alignment::Top, Alignment::Bottom] {
        assert_eq!(decompose(128, alignment), Err(KeyError::OutOfRange));
        assert_eq!(decompose(255, alignment), Err(KeyError::OutOfRange));
    }
}

#[test]
fn decompose_reference_key() {
    assert_eq!(decompose(69, Alignment::Top), Ok((1, 4)));
    assert_eq!(decompose(69, Alignment::Bottom), Ok((9, 5)));
}

#[test]
fn round_trip_top_all_keys() {
    for key in 0u8..128 {
        let (index, octave) = key_to_params_top(key);
        assert!(index < 12);
        assert!(octave <= 10);
        assert_eq!(params_to_key_top(index, octave), key);
        assert_eq!(params_to_key(index, octave, Alignment::Top), Ok(key));
    }
}

#[test]
fn round_trip_bottom_all_keys() {
    for key in 0u8..128 {
        let (index, octave) = key_to_params_bottom(key);
        assert!(index < 12);
        assert!(octave <= 10);
        assert_eq!(params_to_key_bottom(index, octave), key);
        assert_eq!(params_to_key(index, octave, Alignment::Bottom), Ok(key));
    }
}

#[test]
fn params_to_key_refuses_invalid_pairs() {
    assert_eq!(params_to_key(12, 0, Alignment::Top), Err(KeyError::OutOfRange));
    assert_eq!(params_to_key(12, 0, Alignment::Bottom), Err(KeyError::OutOfRange));
    assert_eq!(params_to_key(0, 11, Alignment::Top), Err(KeyError::OutOfRange));
    assert_eq!(params_to_key(3, 10, Alignment::Top), Err(KeyError::OutOfRange));
    assert_eq!(params_to_key(4, 10, Alignment::Top), Ok(0));
    assert_eq!(params_to_key(8, 10, Alignment::Bottom), Err(KeyError::OutOfRange));
    assert_eq!(params_to_key(7, 10, Alignment::Bottom), Ok(127));
    assert_eq!(params_to_key(0, 255, Alignment::Bottom), Err(KeyError::OutOfRange));
}

#[test]
fn decomposition_order_follows_keys() {
    for key in 0u8..127 {
        let (i0, o0) = key_to_params_top(key);
        let (i1, o1) = key_to_params_top(key + 1);
        assert!(o0 > o1 || (o0 == o1 && i0 < i1));
        let (i0, o0) = key_to_params_bottom(key);
        let (i1, o1) = key_to_params_bottom(key + 1);
        assert!(o0 < o1 || (o0 == o1 && i0 < i1));
    }
}
