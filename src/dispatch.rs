//! Routing of incoming messages: prefix commands, the manual translation
//! command, and the auto-translation relay of configured channels, whose
//! outside work (store, backends, webhook) the caller performs step by step.

use vstd::prelude::*;
use crate::text::{
    all_ascii, ascii_lower, lower_of, lowercase, same_text, split_words, first_non_space, views, words,
    trim_start, joined, join_from, decimal_text, unsigned_decimal,
};
use crate::provider::TranslationRequest;
use crate::models::{TranslationChannel, TranslationHistory};

verus! {

/// The commands that the bot answers.
#[derive(PartialEq, Eq, Structural, Clone, Copy, Debug)]
pub enum CommandKind {
    Help,
    SetLog,
    RemoveLog,
    ListLogs,
    Translate,
    Languages,
    Stats,
}

/// The command that a lowercased command word names, if any.
pub open spec fn command_kind_of(name: Seq<char>) -> Option<CommandKind> {
    if name == "help"@ || name == "h"@ {
        Some(CommandKind::Help)
    } else if name == "set-log"@ {
        Some(CommandKind::SetLog)
    } else if name == "remove-log"@ {
        Some(CommandKind::RemoveLog)
    } else if name == "list-logs"@ {
        Some(CommandKind::ListLogs)
    } else if name == "translate"@ {
        Some(CommandKind::Translate)
    } else if name == "languages"@ || name == "langs"@ {
        Some(CommandKind::Languages)
    } else if name == "stats"@ {
        Some(CommandKind::Stats)
    } else {
        None
    }
}

/// The words after the `;` prefix of a message, if it is prefixed once its
/// leading white space is skipped.
pub open spec fn command_words(s: Seq<char>) -> Option<Seq<Seq<char>>> {
    let t = trim_start(s);
    if t.len() > 0 && t[0] == ';' {
        Some(words(t.drop_first()))
    } else {
        None
    }
}

/// `r` is what `parse_command` gives for a message `s`: the command named
/// by the lowercased first word after the prefix, with the other words as
/// its arguments; `None` without the prefix, without a word, or with an
/// unknown command word. On an ASCII command word the lowercasing is ASCII's.
pub open spec fn parses_as(s: Seq<char>, r: Option<ParsedCommand>) -> bool {
    &&& match command_words(s) {
        None => r is None,
        Some(ws) => if ws.len() == 0 {
            r is None
        } else {
            match command_kind_of(lower_of(ws[0])) {
                None => r is None,
                Some(k) => r matches Some(p) && p.kind == k && views(p.args@) == ws.drop_first(),
            }
        },
    }
    &&& match command_words(s) {
        None => true,
        Some(ws) => ws.len() > 0 && all_ascii(ws[0]) ==> lower_of(ws[0]) == ascii_lower(ws[0]),
    }
}

/// The message starts with the command prefix once its leading white space
/// is skipped.
pub open spec fn is_command_text(s: Seq<char>) -> bool {
    trim_start(s).len() > 0 && trim_start(s)[0] == ';'
}

/// A recognized command and its arguments.
pub struct ParsedCommand {
    pub kind: CommandKind,
    pub args: Vec<String>,
}

/// The command that a lowercased command word names.
pub fn command_kind(name: &str) -> (r: Option<CommandKind>)
    ensures
        r == command_kind_of(name@),
{
    if same_text(name, "help") || same_text(name, "h") {
        Some(CommandKind::Help)
    } else if same_text(name, "set-log") {
        Some(CommandKind::SetLog)
    } else if same_text(name, "remove-log") {
        Some(CommandKind::RemoveLog)
    } else if same_text(name, "list-logs") {
        Some(CommandKind::ListLogs)
    } else if same_text(name, "translate") {
        Some(CommandKind::Translate)
    } else if same_text(name, "languages") || same_text(name, "langs") {
        Some(CommandKind::Languages)
    } else if same_text(name, "stats") {
        Some(CommandKind::Stats)
    } else {
        None
    }
}

/// The command in a message: the first word after the prefix names it, in
/// any case, and the other words are its arguments. A message without the
/// prefix, without a word, or with an unknown command word gives `None`.
pub fn parse_command(content: &str) -> (r: Option<ParsedCommand>)
    ensures
        parses_as(content@, r),
{
    let n = content.unicode_len();
    let i = first_non_space(content);
    if i == n || content.get_char(i) != ';' {
        return None;
    }
    let rest = content.substring_char(i + 1, n);
    assert(is_command_text(content@));
    assert(rest@ =~= trim_start(content@).drop_first());
    let mut ws = split_words(rest);
    if ws.len() == 0 {
        return None;
    }
    let ghost all = ws@;
    let name = ws.remove(0);
    assert(views(ws@) =~= views(all).drop_first());
    let lowered = lowercase(name.as_str());
    match command_kind(lowered.as_str()) {
        None => None,
        Some(kind) => Some(ParsedCommand { kind, args: ws }),
    }
}

/// The command that a message asks for: none from a bot, else what
/// `parse_command` finds.
pub fn command_of_message(content: &str, author_is_bot: bool) -> (r: Option<ParsedCommand>)
    ensures
        author_is_bot ==> r is None,
        !author_is_bot ==> parses_as(content@, r),
{
    if author_is_bot {
        None
    } else {
        parse_command(content)
    }
}

/// The reply to `translate` with too few arguments.
pub const TRANSLATE_USAGE: &'static str = "Usage: `;translate <source-lang> <target-lang> <text>`\nExample: `;translate zh en 你好世界`";

/// What `translate <source> <target> <text...>` does next.
pub enum ManualPlan {
    /// Answer with this text.
    Reply(String),
    /// Translate this through the fallback chain.
    Translate(TranslationRequest),
}

/// What `translate` does with its arguments: the text is the rest of the
/// arguments joined with single spaces.
pub fn plan_manual_translation(args: &Vec<String>) -> (r: ManualPlan)
    ensures
        args@.len() < 3 ==> (r matches ManualPlan::Reply(t) && t@ == TRANSLATE_USAGE@),
        args@.len() >= 3 ==> (r matches ManualPlan::Translate(q) && q.source_lang@ == args@[0]@
            && q.target_lang@ == args@[1]@ && q.text@ == joined(
            views(args@).subrange(2, args@.len() as int),
        )),
{
    if args.len() < 3 {
        return ManualPlan::Reply(String::from_str(TRANSLATE_USAGE));
    }
    let text = join_from(args, 2);
    ManualPlan::Translate(
        TranslationRequest {
            text,
            source_lang: args[0].clone(),
            target_lang: args[1].clone(),
        },
    )
}

/// The text of the reply to `translate`, by its outcome: the translated
/// text, or the message of the error.
pub open spec fn manual_reply_text(source: Seq<char>, target: Seq<char>, outcome: Result<
    String,
    String,
>) -> Seq<char> {
    match outcome {
        Ok(t) => "Translation ("@ + source + " → "@ + target + "):\n"@ + t@,
        Err(e) => "❌ Translation failed: "@ + e@,
    }
}

/// The reply to `translate`.
pub fn manual_translation_reply(source: &str, target: &str, outcome: Result<String, String>) -> (r:
    String)
    ensures
        r@ == manual_reply_text(source@, target@, outcome),
{
    match outcome {
        Ok(t) => {
            let mut r = String::from_str("Translation (");
            r.append(source);
            r.append(" → ");
            r.append(target);
            r.append("):\n");
            r.append(t.as_str());
            r
        },
        Err(e) => {
            let mut r = String::from_str("❌ Translation failed: ");
            r.append(e.as_str());
            r
        },
    }
}

/// The message as the relay reads it.
pub struct IncomingMessage {
    pub content: String,
    pub author_name: String,
    pub author_discriminator: Option<u16>,
    pub author_id: u64,
    pub author_is_bot: bool,
    pub channel_id: i64,
    pub guild_id: Option<i64>,
}

/// The author as the relay names them: `name#discriminator` where there is
/// a discriminator.
pub open spec fn display_name(name: Seq<char>, discriminator: Option<u16>) -> Seq<char> {
    match discriminator {
        Some(d) => name + "#"@ + decimal_text(d as int),
        None => name,
    }
}

/// The text relayed to the webhook.
pub open spec fn relay_text(m: IncomingMessage, translated: Seq<char>) -> Seq<char> {
    display_name(m.author_name@, m.author_discriminator) + " (ID: "@ + decimal_text(
        m.author_id as int,
    ) + ") sent this:\n"@ + m.content@ + "\n\nWhich translates to this:\n"@ + translated
}

/// Whether a message goes to auto-translation: not from a bot, and not a
/// command, by the same prefix test as `parse_command`.
pub open spec fn is_relayed(m: IncomingMessage) -> bool {
    !m.author_is_bot && !is_command_text(m.content@)
}

/// Where the relay of one message stands.
#[derive(PartialEq, Eq, Structural, Clone, Copy, Debug)]
pub enum AutoPhase {
    LookingUp,
    Translating,
    Delivering,
    Recording,
    Finished,
}

/// How the relay of one message ended.
pub enum AutoOutcome {
    /// The message was not for the relay: from a bot, or a command.
    Ignored,
    /// The channel is not configured for auto-translation.
    NotConfigured,
    /// The translation was delivered.
    Relayed,
    /// Every backend failed; this is the error, for the log only.
    TranslationFailed(String),
    /// The webhook refused the delivery; this is the error, for the log only.
    DeliveryFailed(String),
}

/// What the caller does next for the relay.
pub enum AutoStep {
    /// Look up the active configuration of this channel.
    LookUp(i64),
    /// Translate this through the fallback chain.
    Translate(TranslationRequest),
    /// Post `{content: message}` to the webhook at `url`.
    Deliver { url: String, message: String },
    /// Store this history record; a failure to store it is ignored.
    Record(TranslationHistory),
    /// Stop.
    Finish(AutoOutcome),
}

/// The relay of one message.
pub struct AutoTranslation {
    pub message: IncomingMessage,
    pub phase: AutoPhase,
    pub config: Option<TranslationChannel>,
    pub translated: Option<String>,
}

impl AutoTranslation {
    /// Begins the relay of `message`, or ignores it.
    pub fn begin(message: IncomingMessage) -> (r: (AutoTranslation, AutoStep))
        ensures
            r.0.message == message,
            is_relayed(message) ==> r.0.phase == AutoPhase::LookingUp && r.1 == AutoStep::LookUp(
                message.channel_id,
            ),
            !is_relayed(message) ==> r.0.phase == AutoPhase::Finished && r.1 == AutoStep::Finish(
                AutoOutcome::Ignored,
            ),
    {
        let command = is_command(message.content.as_str());
        let relayed = !message.author_is_bot && !command;
        let channel = message.channel_id;
        let phase = if relayed {
            AutoPhase::LookingUp
        } else {
            AutoPhase::Finished
        };
        let step = if relayed {
            AutoStep::LookUp(channel)
        } else {
            AutoStep::Finish(AutoOutcome::Ignored)
        };
        (AutoTranslation { message, phase, config: None, translated: None }, step)
    }

    /// Takes the channel's active configuration, if there is one.
    pub fn on_lookup(&mut self, config: Option<TranslationChannel>) -> (r: AutoStep)
        requires
            old(self).phase == AutoPhase::LookingUp,
        ensures
            final(self).message == old(self).message,
            config is None ==> final(self).phase == AutoPhase::Finished && r == AutoStep::Finish(
                AutoOutcome::NotConfigured,
            ),
            config is Some ==> final(self).phase == AutoPhase::Translating && final(self).config
                == config && (r matches AutoStep::Translate(q) && q.text@ == old(self).message.content@
                && q.source_lang@ == config->0.source_language@ && q.target_lang@
                == config->0.target_language@),
    {
        match config {
            None => {
                self.phase = AutoPhase::Finished;
                AutoStep::Finish(AutoOutcome::NotConfigured)
            },
            Some(c) => {
                let request = TranslationRequest {
                    text: self.message.content.clone(),
                    source_lang: c.source_language.clone(),
                    target_lang: c.target_language.clone(),
                };
                self.phase = AutoPhase::Translating;
                self.config = Some(c);
                AutoStep::Translate(request)
            },
        }
    }

    /// Takes the outcome of the translation: on success the relayed text
    /// goes to the channel's webhook; on failure the relay stops, with the
    /// error for the log and nothing said in the channel.
    pub fn on_translated(&mut self, outcome: Result<String, String>) -> (r: AutoStep)
        requires
            old(self).phase == AutoPhase::Translating,
            old(self).config is Some,
        ensures
            final(self).message == old(self).message,
            final(self).config == old(self).config,
            outcome is Err ==> final(self).phase == AutoPhase::Finished && r == AutoStep::Finish(
                AutoOutcome::TranslationFailed(outcome->Err_0),
            ),
            outcome is Ok ==> final(self).phase == AutoPhase::Delivering && final(self).translated
                == Some(outcome->Ok_0) && (r matches AutoStep::Deliver { url, message } && url@
                == old(self).config->0.webhook_url@ && message@ == relay_text(
                old(self).message,
                outcome->Ok_0@,
            )),
    {
        match outcome {
            Err(e) => {
                self.phase = AutoPhase::Finished;
                AutoStep::Finish(AutoOutcome::TranslationFailed(e))
            },
            Ok(t) => {
                let message = relay_message(&self.message, t.as_str());
                let url = match &self.config {
                    Some(c) => c.webhook_url.clone(),
                    None => String::new(),
                };
                self.phase = AutoPhase::Delivering;
                self.translated = Some(t);
                AutoStep::Deliver { url, message }
            },
        }
    }

    /// Takes the outcome of the delivery, known at time `now`. A refused
    /// delivery ends the relay with the error and stores no history; a
    /// delivered one is recorded when the message came from a server.
    pub fn on_delivered(&mut self, outcome: Result<(), String>, now: i64) -> (r: AutoStep)
        requires
            old(self).phase == AutoPhase::Delivering,
            old(self).config is Some,
            old(self).translated is Some,
        ensures
            final(self).message == old(self).message,
            outcome is Err ==> final(self).phase == AutoPhase::Finished && r == AutoStep::Finish(
                AutoOutcome::DeliveryFailed(outcome->Err_0),
            ),
            outcome is Ok && old(self).message.guild_id is None ==> final(self).phase
                == AutoPhase::Finished && r == AutoStep::Finish(AutoOutcome::Relayed),
            outcome is Ok && old(self).message.guild_id is Some ==> final(self).phase
                == AutoPhase::Recording && (r matches AutoStep::Record(h) && h.guild_id
                == old(self).message.guild_id->0 && h.channel_id == old(self).message.channel_id
                && h.user_id == old(self).message.author_id as i64 && h.original_message
                == old(self).message.content && h.translated_message == old(self).translated->0
                && h.source_language == old(self).config->0.source_language && h.target_language
                == old(self).config->0.target_language && h.created_at == now),
    {
        match outcome {
            Err(e) => {
                self.phase = AutoPhase::Finished;
                AutoStep::Finish(AutoOutcome::DeliveryFailed(e))
            },
            Ok(()) => match self.message.guild_id {
                None => {
                    self.phase = AutoPhase::Finished;
                    AutoStep::Finish(AutoOutcome::Relayed)
                },
                Some(g) => {
                    let (source, target) = match &self.config {
                        Some(c) => (c.source_language.clone(), c.target_language.clone()),
                        None => (String::new(), String::new()),
                    };
                    let translated = match &self.translated {
                        Some(t) => t.clone(),
                        None => String::new(),
                    };
                    let history = TranslationHistory::new(
                        g,
                        self.message.channel_id,
                        self.message.author_id as i64,
                        self.message.content.clone(),
                        translated,
                        source,
                        target,
                        now,
                    );
                    self.phase = AutoPhase::Recording;
                    AutoStep::Record(history)
                },
            },
        }
    }

    /// After the record was stored, or failed to be: the relay succeeded.
    pub fn on_recorded(&mut self) -> (r: AutoStep)
        requires
            old(self).phase == AutoPhase::Recording,
        ensures
            final(self).phase == AutoPhase::Finished,
            r == AutoStep::Finish(AutoOutcome::Relayed),
    {
        self.phase = AutoPhase::Finished;
        AutoStep::Finish(AutoOutcome::Relayed)
    }
}

/// Whether `s` starts with the command prefix after its leading white space.
pub fn is_command(s: &str) -> (r: bool)
    ensures
        r == is_command_text(s@),
{
    let i = first_non_space(s);
    i < s.unicode_len() && s.get_char(i) == ';'
}

/// The text relayed to the webhook for a message and its translation.
pub fn relay_message(m: &IncomingMessage, translated: &str) -> (r: String)
    ensures
        r@ == relay_text(*m, translated@),
{
    let mut r = m.author_name.clone();
    match m.author_discriminator {
        Some(d) => {
            r.append("#");
            let ds = unsigned_decimal(d as u64);
            r.append(ds.as_str());
        },
        None => {},
    }
    r.append(" (ID: ");
    let id = unsigned_decimal(m.author_id);
    r.append(id.as_str());
    r.append(") sent this:\n");
    r.append(m.content.as_str());
    r.append("\n\nWhich translates to this:\n");
    r.append(translated);
    r
}

} // verus!
