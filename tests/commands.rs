use mega_chinese::commands::{
    CommandError, HelpCommand, PermissionChecker, RemoveLogPlan, SetLogCommand, SetLogPlan,
    StatsCommand, StatsPlan, INVALID_WEBHOOK_REPLY, NOT_FOUND_REPLY, NO_CHANNELS_REPLY,
    REMOVE_LOG_USAGE, SERVER_ONLY_REPLY, SET_LOG_USAGE,
};
use mega_chinese::models::{Config, ConfigError, GuildSettings, TranslationChannel};

fn args(words: &[&str]) -> Vec<String> {
    words.iter().map(|w| w.to_string()).collect()
}

#[test]
fn set_log_stores_chinese_to_english_for_mentioned_channel() {
    let plan = SetLogCommand::plan(
        &args(&["chinese", "<#123456789012345678>", "https://discord.com/api/webhooks/AAA/BBB"]),
        Some(42),
        1_000,
    );
    match plan {
        Ok(SetLogPlan::Save(c)) => {
            assert_eq!(c.source_language, "zh");
            assert_eq!(c.target_language, "en");
            assert_eq!(c.channel_id, 123456789012345678);
            assert_eq!(c.guild_id, 42);
            assert_eq!(c.webhook_url, "https://discord.com/api/webhooks/AAA/BBB");
            assert!(c.is_active);
            assert_eq!(c.created_at, 1_000);
        }
        _ => panic!("expected a configuration to store"),
    }
}

#[test]
fn set_log_twice_on_one_channel_keys_both_records_by_it() {
    let first = SetLogCommand::plan(
        &args(&["chinese", "555", "https://discord.com/api/webhooks/A/B"]),
        Some(1),
        1_000,
    );
    let second = SetLogCommand::plan(
        &args(&["japanese", "<#555>", "https://discordapp.com/api/webhooks/C/D"]),
        Some(1),
        1_000,
    );
    match (first, second) {
        (Ok(SetLogPlan::Save(a)), Ok(SetLogPlan::Save(b))) => {
            assert_eq!(a.channel_id, b.channel_id);
            assert_eq!(b.source_language, "ja");
            assert_eq!(b.webhook_url, "https://discordapp.com/api/webhooks/C/D");
        }
        _ => panic!("expected two configurations"),
    }
}

#[test]
fn set_log_usage_and_rejections() {
    match SetLogCommand::plan(&args(&["chinese", "1"]), Some(1), 1_000) {
        Ok(SetLogPlan::Reply(t)) => assert_eq!(t, SET_LOG_USAGE),
        _ => panic!("expected the usage"),
    }
    match SetLogCommand::plan(&args(&["chinese", "1", "https://example.com/hook"]), Some(1), 1_000) {
        Ok(SetLogPlan::Reply(t)) => assert_eq!(t, INVALID_WEBHOOK_REPLY),
        _ => panic!("expected the webhook rejection"),
    }
    assert!(matches!(
        SetLogCommand::plan(&args(&["chinese", "1", "https://discord.com/api/webhooks/x"]), None, 1_000),
        Err(CommandError::NotInServer)
    ));
    assert!(matches!(
        SetLogCommand::plan(&args(&["chinese", "#general", "https://discord.com/api/webhooks/x"]), Some(1), 1_000),
        Err(CommandError::InvalidChannelId)
    ));
}

#[test]
fn channel_ids_bare_or_mentioned() {
    assert_eq!(SetLogCommand::parse_channel_id("<#123>"), Ok(123));
    assert_eq!(SetLogCommand::parse_channel_id("123"), Ok(123));
    assert_eq!(SetLogCommand::parse_channel_id("<#<#5>>"), Ok(5));
    assert_eq!(SetLogCommand::parse_channel_id("+4"), Ok(4));
    assert_eq!(SetLogCommand::parse_channel_id("-7"), Ok(-7));
    assert_eq!(SetLogCommand::parse_channel_id("9223372036854775807"), Ok(i64::MAX));
    assert_eq!(SetLogCommand::parse_channel_id("-9223372036854775808"), Ok(i64::MIN));
    assert_eq!(SetLogCommand::parse_channel_id("9223372036854775808"), Err(CommandError::InvalidChannelId));
    assert_eq!(SetLogCommand::parse_channel_id("99999999999999999999999"), Err(CommandError::InvalidChannelId));
    assert_eq!(SetLogCommand::parse_channel_id("abc"), Err(CommandError::InvalidChannelId));
    assert_eq!(SetLogCommand::parse_channel_id(""), Err(CommandError::InvalidChannelId));
    assert_eq!(SetLogCommand::parse_channel_id("<#>"), Err(CommandError::InvalidChannelId));
    assert_eq!(SetLogCommand::parse_channel_id("-"), Err(CommandError::InvalidChannelId));
}

#[test]
fn webhook_domains() {
    assert!(SetLogCommand::validate_webhook_url("https://discord.com/api/webhooks/1/abc"));
    assert!(SetLogCommand::validate_webhook_url("https://discordapp.com/api/webhooks/1/abc"));
    assert!(!SetLogCommand::validate_webhook_url("http://discord.com/api/webhooks/1/abc"));
    assert!(!SetLogCommand::validate_webhook_url("https://discord.com/api/"));
}

#[test]
fn replies_of_set_log_and_remove_log() {
    assert_eq!(
        SetLogCommand::configured_reply(77, "zh"),
        "✅ Translation logging configured!\nChannel: <#77>\nLanguage: zh → en\nWebhook: Set"
    );
    assert_eq!(SetLogCommand::removed_reply(true, 77), "✅ Translation logging removed for <#77>");
}

#[test]
fn remove_log_on_unconfigured_channel_reports_not_found() {
    assert!(matches!(SetLogCommand::plan_remove(&args(&["<#9>"])), Ok(RemoveLogPlan::Deactivate(9))));
    assert_eq!(SetLogCommand::removed_reply(false, 9), NOT_FOUND_REPLY);
    match SetLogCommand::plan_remove(&args(&[])) {
        Ok(RemoveLogPlan::Reply(t)) => assert_eq!(t, REMOVE_LOG_USAGE),
        _ => panic!("expected the usage"),
    }
    assert!(matches!(SetLogCommand::plan_remove(&args(&["x"])), Err(CommandError::InvalidChannelId)));
}

#[test]
fn list_logs_lists_each_channel_once() {
    assert_eq!(SetLogCommand::list_reply(&vec![]), NO_CHANNELS_REPLY);
    let a = TranslationChannel::new(1, 10, "u".to_string(), "zh".to_string(), "en".to_string(), 7);
    let b = TranslationChannel::new(1, -3, "u".to_string(), "ja".to_string(), "en".to_string(), 7);
    assert_eq!(
        SetLogCommand::list_reply(&vec![a, b]),
        "**Configured Translation Channels:**\n\n• <#10> - zh → en\n• <#-3> - ja → en\n"
    );
    assert_eq!(SetLogCommand::require_guild(None), Err(CommandError::NotInServer));
    assert_eq!(SetLogCommand::require_guild(Some(8)), Ok(8));
}

#[test]
fn stats_outside_a_server_answers_server_only() {
    match StatsCommand::plan(None) {
        StatsPlan::Reply(t) => assert_eq!(t, SERVER_ONLY_REPLY),
        StatsPlan::Count(_) => panic!("no count outside a server"),
    }
    assert!(matches!(StatsCommand::plan(Some(3)), StatsPlan::Count(3)));
}

#[test]
fn stats_report_text() {
    let r = StatsCommand::report(2, 15, 4);
    assert!(r.starts_with("**Translation Statistics**\n\n📊 **Server Stats:**\n• Active translation channels: 2\n• Total translations: 15\n• Translations (24h): 4\n"));
    assert!(r.ends_with("Use `;list-logs` to see configured channels."));
}

#[test]
fn admin_rights() {
    assert!(PermissionChecker::grants_admin(true, false, false, false));
    assert!(PermissionChecker::grants_admin(false, false, false, true));
    assert!(!PermissionChecker::grants_admin(false, false, false, false));
    assert_eq!(PermissionChecker::require_admin(false), Err(CommandError::InsufficientPermissions));
    assert_eq!(PermissionChecker::require_admin(true), Ok(()));
    assert_eq!(CommandError::InvalidChannelId.message(), "Invalid channel ID");
}

#[test]
fn help_texts() {
    assert!(HelpCommand::text().contains(";set-log <language> <channel-id> <webhook-url>"));
    assert!(HelpCommand::languages().contains("`zh-TW`, `zh-Hant` - Traditional Chinese"));
}

#[test]
fn config_from_values() {
    assert!(matches!(Config::from_values(None, Some("db".to_string())), Err(ConfigError::MissingToken)));
    assert!(matches!(Config::from_values(Some("t".to_string()), None), Err(ConfigError::MissingDatabaseUrl)));
    let c = Config::from_values(Some("t".to_string()), Some("db".to_string())).ok().unwrap();
    assert_eq!(c.discord_token, "t");
    assert_eq!(c.database_url, "db");
    assert_eq!(ConfigError::MissingToken.message(), "DISCORD_TOKEN must be set in environment");
}

#[test]
fn guild_defaults() {
    let g = GuildSettings::defaults_at(5);
    assert_eq!(g.prefix, ";");
    assert_eq!(g.default_source_lang, "zh");
    assert_eq!(g.default_target_lang, "en");
    assert!(g.auto_translate);
    assert_eq!(g.created_at, 5);
    assert_eq!(g.updated_at, 5);
}
