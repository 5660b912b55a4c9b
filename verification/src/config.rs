//! The secrets that the host needs for its calls.

use vstd::prelude::*;

verus! {

/// The three secrets.
#[derive(Clone, Copy, Debug, PartialEq, Eq)]
pub enum Secret {
    /// The messaging platform's bot token.
    BotToken,
    /// The transcription service's API key.
    TranscriptionKey,
    /// The shortening service's access token.
    ShortenerToken,
}

/// A secret was not supplied.
#[derive(Clone, Copy, Debug, PartialEq, Eq)]
pub struct MissingSecret(pub Secret);

/// The configuration of the process: made once at its start and handed to
/// every call.
#[derive(Clone, Debug, PartialEq, Eq)]
pub struct Config {
    pub bot_token: String,
    pub transcription_key: String,
    pub shortener_token: String,
}

/// The mathematical content of a [`Config`].
pub struct ConfigView {
    pub bot_token: Seq<char>,
    pub transcription_key: Seq<char>,
    pub shortener_token: Seq<char>,
}

impl View for Config {
    type V = ConfigView;

    open spec fn view(&self) -> ConfigView {
        ConfigView {
            bot_token: self.bot_token@,
            transcription_key: self.transcription_key@,
            shortener_token: self.shortener_token@,
        }
    }
}

impl Config {
    /// Makes the configuration from what the environment holds for each
    /// secret. Fails exactly when one is absent, and names the first absent
    /// one, in the order of the parameters.
    pub fn from_lookups(
        bot_token: Option<String>,
        transcription_key: Option<String>,
        shortener_token: Option<String>,
    ) -> (r: Result<Config, MissingSecret>)
        ensures
            match (bot_token, transcription_key, shortener_token) {
                (Some(b), Some(t), Some(s)) => r matches Ok(config) && config@ == (ConfigView {
                    bot_token: b@,
                    transcription_key: t@,
                    shortener_token: s@,
                }),
                (None, _, _) => r == Err::<Config, MissingSecret>(MissingSecret(Secret::BotToken)),
                (Some(_), None, _) => r == Err::<Config, MissingSecret>(
                    MissingSecret(Secret::TranscriptionKey),
                ),
                (Some(_), Some(_), None) => r == Err::<Config, MissingSecret>(
                    MissingSecret(Secret::ShortenerToken),
                ),
            },
    {
        let bot_token = match bot_token {
            Some(token) => token,
            None => return Err(MissingSecret(Secret::BotToken)),
        };
        let transcription_key = match transcription_key {
            Some(key) => key,
            None => return Err(MissingSecret(Secret::TranscriptionKey)),
        };
        let shortener_token = match shortener_token {
            Some(token) => token,
            None => return Err(MissingSecret(Secret::ShortenerToken)),
        };
        Ok(Config { bot_token, transcription_key, shortener_token })
    }
}

} // verus!
