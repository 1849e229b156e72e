use hikvision_sadp_client::password::Password;

#[test]
fn digest_of_12345() {
    assert_eq!(Password::hash("12345").as_str(), "gnzLDuqKcGxMNKFokfhOew==");
}

#[test]
fn digest_of_the_empty_password() {
    assert_eq!(Password::hash("").as_str(), "1B2M2Y8AsgTpgAmY7PhCfg==");
}

#[test]
fn digest_of_other_passwords() {
    assert_eq!(Password::hash("hunter2").as_str(), "KrljkMfb40Od500MmwsXZw==");
    assert_eq!(Password::hash("pässword").as_str(), "jhhDAzoPbuUuL2GKqOu+9A==");
}

#[test]
fn digest_is_not_the_plaintext() {
    assert_ne!(Password::hash("12345").as_str(), "12345");
}

#[test]
fn digest_is_the_same_each_time() {
    assert_eq!(Password::hash("12345"), Password::hash("12345"));
    assert_ne!(Password::hash("12345"), Password::hash("12346"));
}

#[test]
fn digest_turns_into_a_string() {
    let text: String = Password::hash("12345").into();
    assert_eq!(text, "gnzLDuqKcGxMNKFokfhOew==");
}

#[test]
fn digest_clone_keeps_the_value() {
    let p = Password::hash("12345");
    assert_eq!(p.clone().as_str(), p.as_str());
}
