use homespace::services::auth::htpasswd_sha1_entry;

#[test]
fn generates_htpasswd_format() {
    let entry = htpasswd_sha1_entry("admin", "test123");
    assert!(entry.starts_with("admin:{SHA}"));
    assert!(!entry.contains(' '));
}

#[test]
fn htpasswd_hash_part_is_padded_base64_of_twenty_bytes() {
    for (user, password) in [("admin", "test123"), ("u", ""), ("operator", "a much longer pass phrase")] {
        let entry = htpasswd_sha1_entry(user, password);
        assert_eq!(entry.len(), user.len() + 6 + 28);
        assert!(entry.ends_with('='));
        assert!(!entry.ends_with("=="));
    }
    assert_eq!(htpasswd_sha1_entry("admin", "test123"), "admin:{SHA}cojt0Pw//L6ToM8G41aOKFIWh7w=");
}
