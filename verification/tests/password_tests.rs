use mandelguessr::password::{digest_matches, hash_password, password_matches, DIGEST_BYTES};

#[test]
fn a_password_is_stored_as_upper_case_md5() {
    assert_eq!(hash_password("password"), "5F4DCC3B5AA765D61D8327DEB882CF99");
    assert_eq!(hash_password(""), "D41D8CD98F00B204E9800998ECF8427E");
    assert_eq!(hash_password("abcdefghijklmnopqrstuvwxyz"), "C3FCD3D76192E4007DFB496CCA67E13B");
}

#[test]
fn the_digest_is_taken_of_the_utf8_bytes() {
    assert_eq!(hash_password("grüße"), format!("{:X}", md5::compute("grüße".as_bytes())));
    assert_ne!(hash_password("grüße"), hash_password("gruesse"));
}

#[test]
fn a_password_matches_its_stored_form_only() {
    assert!(password_matches("5F4DCC3B5AA765D61D8327DEB882CF99", "password"));
    assert!(!password_matches("5F4DCC3B5AA765D61D8327DEB882CF99", "Password"));
    assert!(!password_matches("5f4dcc3b5aa765d61d8327deb882cf99", "password"));
    assert!(!password_matches("password", "password"));
    assert!(!password_matches("", "password"));
    assert!(!password_matches("5F4DCC3B5AA765D61D8327DEB882CF9", "password"));
}

#[test]
fn a_digest_is_compared_as_two_digits_per_byte() {
    let digest: [u8; 16] =
        [0x00, 0x01, 0x0A, 0x10, 0x9F, 0xA0, 0xFF, 0x7E, 1, 2, 3, 4, 5, 6, 7, 8];
    assert_eq!(digest.len(), DIGEST_BYTES);
    assert!(digest_matches("00010A109FA0FF7E0102030405060708", &digest));
    assert!(!digest_matches("00010a109fa0ff7e0102030405060708", &digest));
    assert!(!digest_matches("0010A109FA0FF7E0102030405060708", &digest));
    assert!(!digest_matches("", &digest));
}
