use gcm::Support;
use gcm::supported_from_status;

#[test]
fn from_bits_reads_both_flags() {
    let s = Support::from_bits(0);
    assert!(!s.no_copy);
    assert!(!s.in_place_no_copy);

    let s = Support::from_bits(1);
    assert!(s.no_copy);
    assert!(!s.in_place_no_copy);

    let s = Support::from_bits(2);
    assert!(!s.no_copy);
    assert!(s.in_place_no_copy);

    let s = Support::from_bits(3);
    assert!(s.no_copy);
    assert!(s.in_place_no_copy);
}

#[test]
fn from_bits_ignores_higher_bits() {
    let s = Support::from_bits(0b101);
    assert!(s.no_copy);
    assert!(!s.in_place_no_copy);

    let s = Support::from_bits(0b110);
    assert!(!s.no_copy);
    assert!(s.in_place_no_copy);
}

#[test]
fn bit_positions_match_the_wire_contract() {
    assert_eq!(gcm::NO_COPY_BIT, 0);
    assert_eq!(gcm::IN_PLACE_NO_COPY_BIT, 1);
    assert!(Support::from_bits(1 << gcm::NO_COPY_BIT).no_copy);
    assert!(Support::from_bits(1 << gcm::IN_PLACE_NO_COPY_BIT).in_place_no_copy);
}

#[test]
fn from_status_takes_the_bitmask_of_a_success() {
    let s = Support::from_status(3);
    assert!(s.no_copy);
    assert!(s.in_place_no_copy);

    let s = Support::from_status(2);
    assert!(!s.no_copy);
    assert!(s.in_place_no_copy);
}

#[test]
fn from_status_reads_errors_as_no_support() {
    let s = Support::from_status(-1);
    assert!(!s.no_copy);
    assert!(!s.in_place_no_copy);

    let s = Support::from_status(0);
    assert!(!s.no_copy);
    assert!(!s.in_place_no_copy);
}

#[test]
fn supported_iff_some_bit_is_set() {
    assert!(!supported_from_status(-1));
    assert!(!supported_from_status(0));
    assert!(supported_from_status(1));
    assert!(supported_from_status(2));
}

#[test]
fn no_support_claims_no_mode() {
    for status in [-100, -1, 0] {
        let s = Support::from_status(status);
        assert!(!supported_from_status(status));
        assert!(!s.no_copy);
        assert!(!s.in_place_no_copy);
    }
}
