use webhook_router::config::{Config, MissingSecret, Secret};

fn some(s: &str) -> Option<String> {
    Some(s.to_string())
}

#[test]
fn all_three_secrets_make_a_configuration() {
    assert_eq!(
        Config::from_lookups(some("bot"), some("key"), some("token")),
        Ok(Config {
            bot_token: "bot".to_string(),
            transcription_key: "key".to_string(),
            shortener_token: "token".to_string(),
        })
    );
}

#[test]
fn an_empty_secret_is_present() {
    assert_eq!(
        Config::from_lookups(some(""), some(""), some("")),
        Ok(Config {
            bot_token: String::new(),
            transcription_key: String::new(),
            shortener_token: String::new(),
        })
    );
}

#[test]
fn each_absent_secret_is_named() {
    assert_eq!(
        Config::from_lookups(None, some("key"), some("token")),
        Err(MissingSecret(Secret::BotToken))
    );
    assert_eq!(
        Config::from_lookups(some("bot"), None, some("token")),
        Err(MissingSecret(Secret::TranscriptionKey))
    );
    assert_eq!(
        Config::from_lookups(some("bot"), some("key"), None),
        Err(MissingSecret(Secret::ShortenerToken))
    );
}

#[test]
fn the_first_absent_secret_is_named() {
    assert_eq!(Config::from_lookups(None, None, None), Err(MissingSecret(Secret::BotToken)));
    assert_eq!(
        Config::from_lookups(None, some("key"), None),
        Err(MissingSecret(Secret::BotToken))
    );
    assert_eq!(
        Config::from_lookups(some("bot"), None, None),
        Err(MissingSecret(Secret::TranscriptionKey))
    );
}
