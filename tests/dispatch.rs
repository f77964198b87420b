use mega_chinese::dispatch::{
    command_of_message, is_command, manual_translation_reply, parse_command, plan_manual_translation, relay_message, AutoOutcome,
    AutoStep, AutoTranslation, CommandKind, IncomingMessage, ManualPlan, TRANSLATE_USAGE,
};
use mega_chinese::fallback::{into_text, Attempt, Fallback, Step};
use mega_chinese::models::TranslationChannel;
use mega_chinese::provider::TranslationResponse;

fn message(content: &str, bot: bool, guild: Option<i64>) -> IncomingMessage {
    IncomingMessage {
        content: content.to_string(),
        author_name: "alice".to_string(),
        author_discriminator: None,
        author_id: 99,
        author_is_bot: bot,
        channel_id: 5,
        guild_id: guild,
    }
}

fn channel() -> TranslationChannel {
    TranslationChannel::new(1, 5, "https://discord.com/api/webhooks/A/B".to_string(), "zh".to_string(), "en".to_string(), 3)
}

#[test]
fn commands_are_recognized_in_any_case_after_the_prefix() {
    let c = parse_command("  ;Set-Log chinese  <#1>\thttps://x ").unwrap();
    assert_eq!(c.kind, CommandKind::SetLog);
    assert_eq!(c.args, vec!["chinese", "<#1>", "https://x"]);
    assert_eq!(parse_command(";h").unwrap().kind, CommandKind::Help);
    assert_eq!(parse_command(";LANGS").unwrap().kind, CommandKind::Languages);
    assert_eq!(parse_command("; stats").unwrap().kind, CommandKind::Stats);
    assert_eq!(parse_command(";list-logs").unwrap().kind, CommandKind::ListLogs);
    assert_eq!(parse_command(";remove-log 1").unwrap().kind, CommandKind::RemoveLog);
}

#[test]
fn unknown_or_missing_commands_are_ignored() {
    assert!(parse_command("hello ;help").is_none());
    assert!(parse_command(";").is_none());
    assert!(parse_command(";   ").is_none());
    assert!(parse_command(";dance").is_none());
    assert!(parse_command("").is_none());
}

#[test]
fn manual_translate_with_second_backend_answering() {
    let c = parse_command(";translate zh en 你好世界").unwrap();
    assert_eq!(c.kind, CommandKind::Translate);
    let q = match plan_manual_translation(&c.args) {
        ManualPlan::Translate(q) => q,
        ManualPlan::Reply(_) => panic!("expected a translation"),
    };
    assert_eq!(q.text, "你好世界");
    let mut backends: Vec<Option<Attempt<TranslationResponse, String>>> = vec![
        Some(Attempt::Failed("provider 1 down".to_string())),
        Some(Attempt::Succeeded(TranslationResponse {
            translated_text: "Hello world".to_string(),
            detected_language: None,
            confidence: None,
        })),
        Some(Attempt::Failed("never asked".to_string())),
    ];
    let (mut st, mut step) = Fallback::<String>::start(3);
    let mut invoked = Vec::new();
    let outcome = loop {
        match step {
            Step::Try(i) => {
                invoked.push(i);
                step = st.record(backends[i].take().unwrap());
            }
            Step::Done(r) => break r,
        }
    };
    assert_eq!(invoked, vec![0, 1]);
    let text = into_text(outcome).map_err(|_| "failed".to_string());
    let reply = manual_translation_reply(&q.source_lang, &q.target_lang, text);
    assert!(reply.contains("Translation (zh → en):\nHello world"));
}

#[test]
fn manual_translate_usage_and_failure() {
    match plan_manual_translation(&vec!["zh".to_string(), "en".to_string()]) {
        ManualPlan::Reply(t) => assert_eq!(t, TRANSLATE_USAGE),
        ManualPlan::Translate(_) => panic!("expected the usage"),
    }
    let args: Vec<String> = ["ja", "en", "a", "b", "c"].iter().map(|s| s.to_string()).collect();
    match plan_manual_translation(&args) {
        ManualPlan::Translate(q) => {
            assert_eq!(q.text, "a b c");
            assert_eq!(q.source_lang, "ja");
            assert_eq!(q.target_lang, "en");
        }
        ManualPlan::Reply(_) => panic!("expected a translation"),
    }
    assert_eq!(
        manual_translation_reply("zh", "en", Err("All translation providers failed".to_string())),
        "❌ Translation failed: All translation providers failed"
    );
}

#[test]
fn relay_text_names_author_and_both_texts() {
    let mut m = message("你好", false, Some(1));
    assert_eq!(
        relay_message(&m, "Hello"),
        "alice (ID: 99) sent this:\n你好\n\nWhich translates to this:\nHello"
    );
    m.author_discriminator = Some(1234);
    assert!(relay_message(&m, "Hello").starts_with("alice#1234 (ID: 99) sent this:"));
}

#[test]
fn bots_and_commands_are_not_relayed() {
    let (_, step) = AutoTranslation::begin(message("hi", true, Some(1)));
    assert!(matches!(step, AutoStep::Finish(AutoOutcome::Ignored)));
    let (_, step) = AutoTranslation::begin(message(";help", false, Some(1)));
    assert!(matches!(step, AutoStep::Finish(AutoOutcome::Ignored)));
    let (mut auto, step) = AutoTranslation::begin(message("hi", false, Some(1)));
    assert!(matches!(step, AutoStep::LookUp(5)));
    assert!(matches!(auto.on_lookup(None), AutoStep::Finish(AutoOutcome::NotConfigured)));
}

#[test]
fn failed_webhook_delivery_records_no_history() {
    let (mut auto, _) = AutoTranslation::begin(message("你好", false, Some(1)));
    match auto.on_lookup(Some(channel())) {
        AutoStep::Translate(q) => {
            assert_eq!(q.text, "你好");
            assert_eq!(q.source_lang, "zh");
            assert_eq!(q.target_lang, "en");
        }
        _ => panic!("expected a translation"),
    }
    match auto.on_translated(Ok("Hello".to_string())) {
        AutoStep::Deliver { url, message } => {
            assert_eq!(url, "https://discord.com/api/webhooks/A/B");
            assert!(message.ends_with("Which translates to this:\nHello"));
        }
        _ => panic!("expected a delivery"),
    }
    match auto.on_delivered(Err("HTTP 500".to_string()), 11) {
        AutoStep::Finish(AutoOutcome::DeliveryFailed(e)) => assert_eq!(e, "HTTP 500"),
        _ => panic!("expected the delivery failure and no record"),
    }
}

#[test]
fn delivered_translation_is_recorded_in_a_server() {
    let (mut auto, _) = AutoTranslation::begin(message("你好", false, Some(1)));
    auto.on_lookup(Some(channel()));
    auto.on_translated(Ok("Hello".to_string()));
    match auto.on_delivered(Ok(()), 11) {
        AutoStep::Record(h) => {
            assert_eq!(h.guild_id, 1);
            assert_eq!(h.channel_id, 5);
            assert_eq!(h.user_id, 99);
            assert_eq!(h.original_message, "你好");
            assert_eq!(h.translated_message, "Hello");
            assert_eq!(h.created_at, 11);
        }
        _ => panic!("expected a record"),
    }
    assert!(matches!(auto.on_recorded(), AutoStep::Finish(AutoOutcome::Relayed)));
}

#[test]
fn failed_translation_ends_the_relay_silently() {
    let (mut auto, _) = AutoTranslation::begin(message("你好", false, None));
    auto.on_lookup(Some(channel()));
    assert!(matches!(
        auto.on_translated(Err("all down".to_string())),
        AutoStep::Finish(AutoOutcome::TranslationFailed(_))
    ));
}

#[test]
fn delivered_outside_a_server_is_not_recorded() {
    let (mut auto, _) = AutoTranslation::begin(message("你好", false, None));
    auto.on_lookup(Some(channel()));
    auto.on_translated(Ok("Hello".to_string()));
    assert!(matches!(auto.on_delivered(Ok(()), 11), AutoStep::Finish(AutoOutcome::Relayed)));
}

#[test]
fn indented_commands_are_not_relayed() {
    assert!(parse_command("  ;help").is_some());
    assert!(is_command("  ;help"));
    assert!(!is_command("hello ;help"));
    let (_, step) = AutoTranslation::begin(message("  ;help", false, Some(1)));
    assert!(matches!(step, AutoStep::Finish(AutoOutcome::Ignored)));
    let (_, step) = AutoTranslation::begin(message("\t;translate zh en x", false, Some(1)));
    assert!(matches!(step, AutoStep::Finish(AutoOutcome::Ignored)));
}

#[test]
fn commands_from_bots_are_ignored() {
    assert!(command_of_message(";help", true).is_none());
    assert_eq!(command_of_message(";help", false).unwrap().kind, CommandKind::Help);
}
