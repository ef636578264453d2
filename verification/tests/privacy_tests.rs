use ratuin::privacy::is_sensitive_command;

#[test]
fn readme_example_token_is_sensitive() {
    assert!(is_sensitive_command("export TOKEN=abc"));
}

#[test]
fn ordinary_commands_are_not_sensitive() {
    assert!(!is_sensitive_command("cargo check"));
    assert!(!is_sensitive_command("ls -la"));
    assert!(!is_sensitive_command(""));
}

#[test]
fn each_keyword_is_detected() {
    for cmd in [
        "mysql --password x",
        "passwd",
        "gh auth token",
        "echo $SECRET",
        "APIKEY=1",
        "api_key=1",
        "ACCESS_KEY=1",
        "cat private_key.pem",
        "curl -H Authorization:x",
        "curl -H 'Bearer abc'",
        "curl --cookie a=b",
        "Set-Cookie: x",
        "AWS_SECRET_ACCESS_KEY=x",
        "git clone https://ghp_abc@github.com",
        "slack xoxb-123",
    ] {
        assert!(is_sensitive_command(cmd), "{cmd}");
    }
}

#[test]
fn bearer_needs_the_trailing_space() {
    assert!(!is_sensitive_command("echo bearer"));
    assert!(is_sensitive_command("echo bearer x"));
}

#[test]
fn sensitivity_ignores_case() {
    assert!(is_sensitive_command("PaSsWoRd"));
}

#[test]
fn sensitivity_survives_extension() {
    assert!(is_sensitive_command("token"));
    assert!(is_sensitive_command("say \"my token is here\" && exit"));
}
