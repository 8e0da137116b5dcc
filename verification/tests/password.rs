use auth_service::password::{
    argon2, breach_query, breach_range_url, hash_password, range_lists_suffix, verify_password,
};

#[test]
fn hash_and_verify_roundtrip() {
    let hash = hash_password("correct horse battery staple").unwrap();
    assert!(verify_password("correct horse battery staple", &hash).unwrap());
    assert!(!verify_password("wrong password entirely", &hash).unwrap());
}

#[test]
fn hash_is_not_plaintext_and_uses_argon2id() {
    let hash = hash_password("correct horse battery staple").unwrap();
    assert_ne!(hash, "correct horse battery staple");
    assert!(hash.starts_with("$argon2id$"));
}

#[test]
fn hash_names_the_cost_of_this_service() {
    let cost = argon2();
    assert_eq!(cost.memory_kib, 19 * 1024);
    assert_eq!(cost.iterations, 2);
    assert_eq!(cost.parallelism, 1);
    assert_eq!(cost.output_len, 32);
    let hash = hash_password("correct horse battery staple").unwrap();
    assert!(hash.starts_with("$argon2id$v=19$m=19456,t=2,p=1$"));
    // 32 bytes in unpadded base64.
    assert_eq!(hash.rsplit('$').next().unwrap().len(), 43);
}

#[test]
fn two_hashes_of_one_password_differ() {
    let a = hash_password("correct horse battery staple").unwrap();
    let b = hash_password("correct horse battery staple").unwrap();
    assert_ne!(a, b);
    assert!(verify_password("correct horse battery staple", &a).unwrap());
    assert!(verify_password("correct horse battery staple", &b).unwrap());
}

#[test]
fn malformed_hash_is_an_error() {
    assert!(verify_password("whatever", "not a hash").is_err());
    assert!(verify_password("whatever", "").is_err());
}

#[test]
fn hash_with_another_cost_is_verified_with_that_cost() {
    // One of the vectors that are published with Argon2.
    let hash = "$argon2id$v=19$m=65536,t=2,p=1$c29tZXNhbHQ$CTFhFdXPJO1aFaMaO6Mm5c8y7cJHAph8ArZWb2GRPPc";
    assert!(verify_password("password", hash).unwrap());
    assert!(!verify_password("Password", hash).unwrap());
}

#[test]
fn no_password_fits_an_absurd_number_of_lanes() {
    for lanes in ["16777216", "100000000", "536870912", "4294967295", "99999999999"] {
        let hash = format!(
            "$argon2id$v=19$m=4294967295,t=2,p={lanes}\
             $c29tZXNhbHQ$CTFhFdXPJO1aFaMaO6Mm5c8y7cJHAph8ArZWb2GRPPc"
        );
        assert!(!verify_password("password", &hash).unwrap());
    }
    // A text that is no hash is an error, whatever lanes it names.
    assert!(verify_password("password", "p=999999999").is_err());
}

#[test]
fn breach_query_parts_the_sha1_digest() {
    // SHA-1 of "password" is 5BAA61E4C9B93F3F0682250B6CF8331B7EE68FD8.
    let query = breach_query("password");
    assert_eq!(query.prefix, "5BAA6");
    assert_eq!(query.suffix, "1E4C9B93F3F0682250B6CF8331B7EE68FD8");
    assert_eq!(breach_range_url(&query), "https://api.pwnedpasswords.com/range/5BAA6");
}

#[test]
fn range_answer_is_searched_line_by_line() {
    let suffix = "1E4C9B93F3F0682250B6CF8331B7EE68FD8";
    let listed = "0018A45C4D1DEF81644B54AB7F969B88D65:1\r\n1E4C9B93F3F0682250B6CF8331B7EE68FD8:9545824\r\n";
    assert!(range_lists_suffix(listed, suffix));
    // Case does not matter.
    assert!(range_lists_suffix("1e4c9b93f3f0682250b6cf8331b7ee68fd8:3", suffix));
    // Only what stands before the first colon of a line counts.
    assert!(!range_lists_suffix("X:1E4C9B93F3F0682250B6CF8331B7EE68FD8:3", suffix));
    assert!(!range_lists_suffix("1E4C9B93F3F0682250B6CF8331B7EE68FD8", suffix));
    assert!(!range_lists_suffix("A1E4C9B93F3F0682250B6CF8331B7EE68FD8:3", suffix));
    assert!(!range_lists_suffix("0018A45C4D1DEF81644B54AB7F969B88D65:1\n", suffix));
    assert!(!range_lists_suffix("", suffix));
}
