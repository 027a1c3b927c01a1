use notify_relay::responses::{JsonResponse, UserError};
use notify_relay::utils::{
    get_socket_addr, parse_port, EnvVars, PortWarning, SocketAddress, DEFAULT_PORT,
};

fn env_of(pairs: &[(&str, &str)]) -> EnvVars {
    EnvVars::new(pairs.iter().map(|(name, value)| (name.to_string(), value.to_string())).collect())
}

fn missing(description: &str) -> UserError {
    UserError::BadRequest {
        message: description.to_string(),
        error: "Error getting env variable".to_string(),
    }
}

#[test]
fn absent_setting_gives_the_description_as_message() {
    let env = env_of(&[("OTHER", "x")]);
    assert_eq!(env.get_env_variable("API_KEY", "API_KEY not set"), Err(missing("API_KEY not set")));
    assert_eq!(env.get_env_variable("API_KEY", ""), Err(missing("")));
    assert_eq!(
        env.get_env_variable("API_KEY", "a \"quoted\" description\n"),
        Err(missing("a \"quoted\" description\n"))
    );
}

#[test]
fn absent_setting_in_an_empty_snapshot() {
    let env = EnvVars::new(Vec::new());
    assert_eq!(env.var("ANY"), None);
    assert_eq!(env.get_env_variable("ANY", "ANY not set"), Err(missing("ANY not set")));
}

#[test]
fn every_required_setting_reports_its_absence() {
    let env = EnvVars::new(Vec::new());
    let expected = Err(missing("Required env variable not set"));
    assert_eq!(env.get_sendgrid_api_key(), expected);
    assert_eq!(env.get_send_from_email(), expected);
    assert_eq!(env.get_send_to_email(), expected);
    assert_eq!(env.get_telegram_bot_token(), expected);
    assert_eq!(env.get_telegram_chat_id(), expected);
}

#[test]
fn present_setting_is_returned_unchanged() {
    let env = env_of(&[("A", "  padded value \n"), ("B", ""), ("C", "0042")]);
    assert_eq!(env.get_env_variable("A", "unused"), Ok("  padded value \n".to_string()));
    assert_eq!(env.get_env_variable("B", "unused"), Ok(String::new()));
    assert_eq!(env.get_env_variable("C", "unused"), Ok("0042".to_string()));
    assert_eq!(env.var("C"), Some("0042".to_string()));
}

#[test]
fn names_are_matched_exactly() {
    let env = env_of(&[("port", "1"), ("PORT ", "2"), ("PORTS", "3"), ("POR", "4")]);
    assert_eq!(env.var("PORT"), None);
    assert_eq!(env.var("port"), Some("1".to_string()));
}

#[test]
fn first_pair_of_a_name_counts() {
    let env = env_of(&[("X", "first"), ("Y", "other"), ("X", "second")]);
    assert_eq!(env.var("X"), Some("first".to_string()));
    assert_eq!(env.var("Y"), Some("other".to_string()));
}

#[test]
fn each_getter_reads_its_own_setting() {
    let env = env_of(&[
        ("SENDGRID_API_KEY", "key"),
        ("SEND_FROM_EMAIL", "from@example.org"),
        ("SEND_TO_EMAIL", "to@example.org"),
        ("TELEGRAM_BOT_TOKEN", "123:abc"),
        ("TELEGRAM_CHAT_ID", "-42"),
    ]);
    assert_eq!(env.get_sendgrid_api_key(), Ok("key".to_string()));
    assert_eq!(env.get_send_from_email(), Ok("from@example.org".to_string()));
    assert_eq!(env.get_send_to_email(), Ok("to@example.org".to_string()));
    assert_eq!(env.get_telegram_bot_token(), Ok("123:abc".to_string()));
    assert_eq!(env.get_telegram_chat_id(), Ok("-42".to_string()));
}

#[test]
fn missing_api_key_is_answered_with_400() {
    let env = env_of(&[("SEND_FROM_EMAIL", "from@example.org"), ("SEND_TO_EMAIL", "to@example.org")]);
    let failure = env.get_sendgrid_api_key().unwrap_err();
    assert_eq!(
        failure.error_response(),
        JsonResponse {
            status: 400,
            body: "{\"message\":\"Required env variable not set\",\"error\":\"Error getting env variable\"}"
                .to_string(),
        }
    );
}

#[test]
fn port_is_an_optional_plus_and_digits() {
    assert_eq!(parse_port("8080"), Some(8080));
    assert_eq!(parse_port("+80"), Some(80));
    assert_eq!(parse_port("0"), Some(0));
    assert_eq!(parse_port("+0"), Some(0));
    assert_eq!(parse_port("007"), Some(7));
    assert_eq!(parse_port("65535"), Some(65535));
    assert_eq!(parse_port("0000000000000000000000065535"), Some(65535));
}

#[test]
fn port_rejects_everything_else() {
    assert_eq!(parse_port(""), None);
    assert_eq!(parse_port("+"), None);
    assert_eq!(parse_port("-"), None);
    assert_eq!(parse_port("-1"), None);
    assert_eq!(parse_port("-0"), None);
    assert_eq!(parse_port("++1"), None);
    assert_eq!(parse_port("1+"), None);
    assert_eq!(parse_port(" 80"), None);
    assert_eq!(parse_port("80 "), None);
    assert_eq!(parse_port("80\n"), None);
    assert_eq!(parse_port("8_0"), None);
    assert_eq!(parse_port("0x50"), None);
    assert_eq!(parse_port("8080.0"), None);
    assert_eq!(parse_port("abc"), None);
    assert_eq!(parse_port("８０"), None);
    assert_eq!(parse_port("8é"), None);
    assert_eq!(parse_port("é8"), None);
    assert_eq!(parse_port("+é"), None);
}

#[test]
fn port_rejects_what_does_not_fit_16_bits() {
    assert_eq!(parse_port("65536"), None);
    assert_eq!(parse_port("70000"), None);
    assert_eq!(parse_port("655350"), None);
    assert_eq!(parse_port("99999999999999999999999999999999"), None);
    assert_eq!(parse_port("4294967296"), None);
    assert_eq!(parse_port("4294973376"), None);
    assert_eq!(parse_port("65536x"), None);
}

#[test]
fn port_agrees_with_the_standard_parser() {
    let samples = [
        "", "+", "-", "0", "1", "9", "10", "+10", "-10", "080", "8080", "65535", "65536", "65534",
        "099999", "100000", "18446744073709551616", " 1", "1 ", "1a", "a1", "+-1", "+ 1", "١٢٣",
        "12\u{0}", "\u{7f}", "1e3", "٣", "+65535", "+65536", "00000", "+00000",
    ];
    for sample in samples {
        assert_eq!(parse_port(sample), sample.parse::<u16>().ok());
    }
    let mut n: u32 = 0;
    while n <= 70000 {
        let text = n.to_string();
        assert_eq!(parse_port(&text), text.parse::<u16>().ok());
        n += 7;
    }
}

#[test]
fn unset_port_binds_the_default_with_a_warning() {
    let env = env_of(&[("HOME", "/root")]);
    assert_eq!(DEFAULT_PORT, 8080);
    assert_eq!(
        get_socket_addr(&env),
        (SocketAddress { octets: [0, 0, 0, 0], port: 8080 }, Some(PortWarning::NotFound))
    );
}

#[test]
fn unparsable_port_falls_back_to_the_default_with_a_warning() {
    let env = env_of(&[("PORT", "abc")]);
    assert_eq!(
        get_socket_addr(&env),
        (SocketAddress { octets: [0, 0, 0, 0], port: 8080 }, Some(PortWarning::NotValid))
    );
    let env = env_of(&[("PORT", "65536")]);
    assert_eq!(get_socket_addr(&env).0.port, 8080);
    assert_eq!(get_socket_addr(&env).1, Some(PortWarning::NotValid));
    let env = env_of(&[("PORT", "")]);
    assert_eq!(get_socket_addr(&env).1, Some(PortWarning::NotValid));
}

#[test]
fn given_port_is_bound_without_a_warning() {
    let env = env_of(&[("PORT", "3000")]);
    assert_eq!(
        get_socket_addr(&env),
        (SocketAddress { octets: [0, 0, 0, 0], port: 3000 }, None)
    );
    let env = env_of(&[("PORT", "8080")]);
    assert_eq!(get_socket_addr(&env), (SocketAddress { octets: [0, 0, 0, 0], port: 8080 }, None));
    let env = env_of(&[("PORT", "0")]);
    assert_eq!(get_socket_addr(&env).0.port, 0);
}
