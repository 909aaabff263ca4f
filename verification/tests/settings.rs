use recommend_server::settings::setting_or_default;

#[test]
fn found_setting_is_kept() {
    assert_eq!(setting_or_default(Some("/etc/cert.pem".to_string()), "./files/cert.pem"), "/etc/cert.pem");
}

#[test]
fn missing_setting_takes_the_default() {
    assert_eq!(setting_or_default(None, "./files/key.rsa"), "./files/key.rsa");
}
