//! The records of the channel directory and of the translation history, the
//! per-guild settings, and the bot's configuration. Times are microseconds
//! since the Unix epoch, read by the caller and handed in.

use vstd::prelude::*;

verus! {

/// A channel configured for auto-translation: its messages are translated
/// from `source_language` to `target_language` and relayed to `webhook_url`.
pub struct TranslationChannel {
    pub id: i64,
    pub guild_id: i64,
    pub channel_id: i64,
    pub webhook_url: String,
    pub source_language: String,
    pub target_language: String,
    pub is_active: bool,
    pub created_at: i64,
    pub updated_at: i64,
}

impl TranslationChannel {
    /// A new, active configuration made at time `now`, not yet stored (its
    /// id is 0).
    pub fn new(
        guild_id: i64,
        channel_id: i64,
        webhook_url: String,
        source_language: String,
        target_language: String,
        now: i64,
    ) -> (r: Self)
        ensures
            r.id == 0,
            r.guild_id == guild_id,
            r.channel_id == channel_id,
            r.webhook_url == webhook_url,
            r.source_language == source_language,
            r.target_language == target_language,
            r.is_active,
            r.created_at == now,
            r.updated_at == now,
    {
        TranslationChannel {
            id: 0,
            guild_id,
            channel_id,
            webhook_url,
            source_language,
            target_language,
            is_active: true,
            created_at: now,
            updated_at: now,
        }
    }
}

/// One completed auto-translation, kept for statistics.
pub struct TranslationHistory {
    pub id: i64,
    pub guild_id: i64,
    pub channel_id: i64,
    pub user_id: i64,
    pub original_message: String,
    pub translated_message: String,
    pub source_language: String,
    pub target_language: String,
    pub created_at: i64,
}

impl TranslationHistory {
    /// A new record made at time `now`, not yet stored (its id is 0).
    pub fn new(
        guild_id: i64,
        channel_id: i64,
        user_id: i64,
        original_message: String,
        translated_message: String,
        source_language: String,
        target_language: String,
        now: i64,
    ) -> (r: Self)
        ensures
            r.id == 0,
            r.guild_id == guild_id,
            r.channel_id == channel_id,
            r.user_id == user_id,
            r.original_message == original_message,
            r.translated_message == translated_message,
            r.source_language == source_language,
            r.target_language == target_language,
            r.created_at == now,
    {
        TranslationHistory {
            id: 0,
            guild_id,
            channel_id,
            user_id,
            original_message,
            translated_message,
            source_language,
            target_language,
            created_at: now,
        }
    }
}

/// A guild's defaults: command prefix, language pair, and whether
/// auto-translation is on.
pub struct GuildSettings {
    pub guild_id: i64,
    pub prefix: String,
    pub default_source_lang: String,
    pub default_target_lang: String,
    pub auto_translate: bool,
    pub created_at: i64,
    pub updated_at: i64,
}

impl GuildSettings {
    /// The defaults, made at time `now`: prefix `;`, Chinese to English,
    /// auto-translation on.
    pub fn defaults_at(now: i64) -> (r: Self)
        ensures
            r.guild_id == 0,
            r.prefix@ == ";"@,
            r.default_source_lang@ == "zh"@,
            r.default_target_lang@ == "en"@,
            r.auto_translate,
            r.created_at == now,
            r.updated_at == now,
    {
        GuildSettings {
            guild_id: 0,
            prefix: String::from_str(";"),
            default_source_lang: String::from_str("zh"),
            default_target_lang: String::from_str("en"),
            auto_translate: true,
            created_at: now,
            updated_at: now,
        }
    }
}

/// The two settings the bot needs to start.
pub struct Config {
    pub discord_token: String,
    pub database_url: String,
}

/// A setting that is not there.
#[derive(PartialEq, Eq, Structural, Clone, Copy, Debug)]
pub enum ConfigError {
    MissingToken,
    MissingDatabaseUrl,
}

impl ConfigError {
    /// The message for the missing setting.
    pub fn message(&self) -> (r: &'static str)
        ensures
            *self == ConfigError::MissingToken ==> r@ == "DISCORD_TOKEN must be set in environment"@,
            *self == ConfigError::MissingDatabaseUrl ==> r@
                == "DATABASE_URL must be set in environment"@,
    {
        match self {
            ConfigError::MissingToken => "DISCORD_TOKEN must be set in environment",
            ConfigError::MissingDatabaseUrl => "DATABASE_URL must be set in environment",
        }
    }
}

impl Config {
    /// The configuration from the values found, the token checked first.
    pub fn from_values(discord_token: Option<String>, database_url: Option<String>) -> (r: Result<
        Config,
        ConfigError,
    >)
        ensures
            discord_token is None ==> r == Err::<Config, ConfigError>(ConfigError::MissingToken),
            discord_token is Some && database_url is None ==> r == Err::<Config, ConfigError>(
                ConfigError::MissingDatabaseUrl,
            ),
            discord_token is Some && database_url is Some ==> (r matches Ok(c) && c.discord_token
                == discord_token->0 && c.database_url == database_url->0),
    {
        match discord_token {
            None => Err(ConfigError::MissingToken),
            Some(token) => match database_url {
                None => Err(ConfigError::MissingDatabaseUrl),
                Some(url) => Ok(Config { discord_token: token, database_url: url }),
            },
        }
    }
}

} // verus!
