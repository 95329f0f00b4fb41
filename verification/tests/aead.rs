use gcm::Cipher;
use gcm::Error;

#[test]
fn buffers_are_zeroed_and_sized_exactly() {
    assert_eq!(gcm::zeroed_buffer(0), Vec::<u8>::new());
    assert_eq!(gcm::zeroed_buffer(5), vec![0u8; 5]);
    assert_eq!(gcm::zeroed_buffer(17).len(), 17);
    assert_eq!(gcm::zeroed_tag(), [0u8; 16]);
}

#[test]
fn cipher_text_length_equals_cleartext_length() {
    let c = Cipher::with_len(5);
    assert_eq!(c.text.len(), 5);
    assert_eq!(c.text, vec![0u8; 5]);
    assert_eq!(c.tag.len(), 16);
    assert_eq!(c.tag, [0u8; 16]);
}

#[test]
fn empty_cleartext_is_valid() {
    let c = Cipher::with_len(0);
    assert!(c.text.is_empty());
    assert_eq!(c.tag.len(), 16);
}

#[test]
fn finish_encrypt_keeps_the_artifact_on_success() {
    let mut c = Cipher::with_len(3);
    c.text[0] = 0xab;
    c.text[2] = 0xcd;
    c.tag[15] = 0xef;
    let r = gcm::finish_encrypt(c, 0).unwrap();
    assert_eq!(r.text, vec![0xab, 0x00, 0xcd]);
    assert_eq!(r.tag[15], 0xef);
    assert_eq!(r.text.len(), 3);
}

#[test]
fn finish_encrypt_reports_the_decoded_error() {
    let c = Cipher::with_len(3);
    let e = gcm::finish_encrypt(c, -0x010004).unwrap_err();
    assert_eq!(e, Error { space: 1, code: 3 });
}

#[test]
fn finish_decrypt_hands_back_the_cleartext_on_success() {
    let clear = vec![1u8, 2, 3, 4];
    assert_eq!(gcm::finish_decrypt(clear.clone(), 0).unwrap(), clear);
}

#[test]
fn finish_decrypt_never_hands_back_cleartext_on_failure() {
    let clear = vec![1u8, 2, 3, 4];
    let r = gcm::finish_decrypt(clear, -0x010009);
    assert_eq!(r, Err(Error { space: 1, code: 8 }));
    assert_eq!(r.unwrap_err().decrypt_kind(), gcm::ErrorKind::AuthenticationFailure);
}

#[test]
fn finish_in_place_mirrors_the_copying_outcomes() {
    let tag = [7u8; 16];
    assert_eq!(gcm::finish_encrypt_in_place(tag, 0).unwrap(), tag);
    assert_eq!(gcm::finish_encrypt_in_place(tag, -1), Err(Error { space: 0, code: 0 }));
    assert_eq!(gcm::finish_decrypt_in_place(0), Ok(()));
    assert_eq!(gcm::finish_decrypt_in_place(-1), Err(Error { space: 0, code: 0 }));
}

#[test]
fn both_modes_fail_on_exactly_the_same_statuses() {
    for status in [-0x010004isize, -1, 0, 1, 42] {
        let copying = gcm::finish_encrypt(Cipher::with_len(2), status).is_ok();
        let in_place = gcm::finish_encrypt_in_place([0u8; 16], status).is_ok();
        assert_eq!(copying, in_place);
        let copying = gcm::finish_decrypt(vec![0u8; 2], status).is_ok();
        let in_place = gcm::finish_decrypt_in_place(status).is_ok();
        assert_eq!(copying, in_place);
    }
}
