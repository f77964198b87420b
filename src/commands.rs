//! Prefix commands: recognizing them in a message, checking and reading
//! their arguments, and the replies they give.

use vstd::prelude::*;
use crate::text::{
    all_ascii, ascii_lower, lower_of, lowercase, same_text, starts_with, decimal_text, signed_decimal,
};
use crate::models::TranslationChannel;

verus! {

/// A command failure that is not answered in the channel.
#[derive(PartialEq, Eq, Structural, Clone, Copy, Debug)]
pub enum CommandError {
    /// The command needs a server and was used elsewhere.
    NotInServer,
    /// A channel argument is neither a number nor a `<#number>` mention.
    InvalidChannelId,
    /// The author may not change the configuration.
    InsufficientPermissions,
}

impl CommandError {
    pub fn message(&self) -> (r: &'static str)
        ensures
            *self == CommandError::NotInServer ==> r@
                == "This command can only be used in a server"@,
            *self == CommandError::InvalidChannelId ==> r@ == "Invalid channel ID"@,
            *self == CommandError::InsufficientPermissions ==> r@ == "Insufficient permissions"@,
    {
        match self {
            CommandError::NotInServer => "This command can only be used in a server",
            CommandError::InvalidChannelId => "Invalid channel ID",
            CommandError::InsufficientPermissions => "Insufficient permissions",
        }
    }
}

pub open spec fn is_digit(c: char) -> bool {
    '0' <= c && c <= '9'
}

pub open spec fn all_digits(s: Seq<char>) -> bool {
    forall|i: int| 0 <= i < s.len() ==> is_digit(s[i])
}

/// The number that a text of decimal digits writes.
pub open spec fn digits_value(s: Seq<char>) -> int
    decreases s.len(),
{
    if s.len() == 0 {
        0
    } else {
        10 * digits_value(s.drop_last()) + (s.last() as int - 48)
    }
}

/// `s` without its sign, if it has one.
pub open spec fn int_body(s: Seq<char>) -> Seq<char> {
    if s.len() > 0 && (s[0] == '-' || s[0] == '+') {
        s.drop_first()
    } else {
        s
    }
}

/// The 64-bit signed integer that `s` writes, as `i64::from_str` reads it:
/// an optional `+` or `-`, then at least one decimal digit, nothing else,
/// and a value in range.
pub open spec fn parse_int(s: Seq<char>) -> Option<int> {
    let neg = s.len() > 0 && s[0] == '-';
    let body = int_body(s);
    let v = if neg {
        -digits_value(body)
    } else {
        digits_value(body)
    };
    if body.len() == 0 || !all_digits(body) || v < i64::MIN || v > i64::MAX {
        None
    } else {
        Some(v)
    }
}

proof fn lemma_digits_nonneg(s: Seq<char>)
    requires
        all_digits(s),
    ensures
        digits_value(s) >= 0,
    decreases s.len(),
{
    if s.len() > 0 {
        lemma_digits_nonneg(s.drop_last());
    }
}

proof fn lemma_digits_grow(s: Seq<char>, j: int)
    requires
        all_digits(s),
        0 <= j <= s.len(),
    ensures
        digits_value(s) >= digits_value(s.subrange(0, j)),
    decreases s.len(),
{
    if j < s.len() {
        lemma_digits_grow(s.drop_last(), j);
        assert(s.drop_last().subrange(0, j) =~= s.subrange(0, j));
        lemma_digits_nonneg(s.drop_last());
    } else {
        assert(s.subrange(0, j) =~= s);
    }
}

/// Reads a 64-bit signed integer as `i64::from_str` does.
pub fn parse_i64(s: &str) -> (r: Option<i64>)
    ensures
        match parse_int(s@) {
            Some(v) => r == Some(v as i64),
            None => r is None,
        },
{
    let n = s.unicode_len();
    if n == 0 {
        return None;
    }
    let first = s.get_char(0);
    let neg = first == '-';
    let start: usize = if first == '-' || first == '+' { 1 } else { 0 };
    let ghost body = s@.subrange(start as int, n as int);
    assert(body =~= int_body(s@));
    if start == n {
        return None;
    }
    let limit: u128 = 9223372036854775808;
    let mut acc: u128 = 0;
    let mut i: usize = start;
    while i < n
        invariant
            n == s@.len(),
            start <= i <= n,
            body == s@.subrange(start as int, n as int),
            body == int_body(s@),
            neg == (s@.len() > 0 && s@[0] == '-'),
            all_digits(body.subrange(0, i - start)),
            acc == digits_value(body.subrange(0, i - start)),
            acc <= limit,
            limit == 9223372036854775808,
        decreases n - i,
    {
        let c = s.get_char(i);
        if c < '0' || c > '9' {
            assert(body[i - start] == c);
            assert(!is_digit(body[i - start]));
            assert(!all_digits(body));
            return None;
        }
        let d = (c as u32 - '0' as u32) as u128;
        assert(d <= 9);
        assert(body.subrange(0, i + 1 - start).drop_last() =~= body.subrange(0, i - start));
        assert(acc * 10 <= 92233720368547758080) by (nonlinear_arith)
            requires
                acc <= 9223372036854775808,
        ;
        assert(body.subrange(0, i + 1 - start).last() == c);
        acc = acc * 10 + d;
        i += 1;
        if acc > limit {
            proof {
                if all_digits(body) {
                    lemma_digits_grow(body, i - start);
                }
            }
            return None;
        }
    }
    assert(body.subrange(0, n - start) =~= body);
    if neg {
        Some((0 - acc as i128) as i64)
    } else if acc == limit {
        None
    } else {
        Some(acc as i64)
    }
}

/// `s` without any number of leading `<#`.
pub open spec fn strip_mention_open(s: Seq<char>) -> Seq<char>
    decreases s.len(),
{
    if s.len() >= 2 && s[0] == '<' && s[1] == '#' {
        strip_mention_open(s.subrange(2, s.len() as int))
    } else {
        s
    }
}

/// `s` without any number of trailing `>`.
pub open spec fn strip_mention_close(s: Seq<char>) -> Seq<char>
    decreases s.len(),
{
    if s.len() >= 1 && s.last() == '>' {
        strip_mention_close(s.drop_last())
    } else {
        s
    }
}

/// The channel id that a `parse_channel_id` argument names.
pub open spec fn channel_id_of(s: Seq<char>) -> Option<int> {
    parse_int(strip_mention_close(strip_mention_open(s)))
}

/// The configuration commands.
pub struct SetLogCommand;

impl SetLogCommand {
    /// A channel id, bare or wrapped as a mention `<#...>`.
    pub fn parse_channel_id(input: &str) -> (r: Result<i64, CommandError>)
        ensures
            match channel_id_of(input@) {
                Some(v) => r == Ok::<i64, CommandError>(v as i64),
                None => r == Err::<i64, CommandError>(CommandError::InvalidChannelId),
            },
    {
        let i = mention_open_end(input);
        let j = mention_close_start(input, i);
        let cleaned = input.substring_char(i, j);
        match parse_i64(cleaned) {
            Some(v) => Ok(v),
            None => Err(CommandError::InvalidChannelId),
        }
    }
}

/// Where the text after the leading `<#`s begins.
fn mention_open_end(input: &str) -> (i: usize)
    ensures
        i <= input@.len(),
        strip_mention_open(input@) == input@.subrange(i as int, input@.len() as int),
{
    let n = input.unicode_len();
    let mut i: usize = 0;
    assert(input@.subrange(0, n as int) =~= input@);
    while n - i >= 2 && input.get_char(i) == '<' && input.get_char(i + 1) == '#'
        invariant
            n == input@.len(),
            i <= n,
            strip_mention_open(input@) == strip_mention_open(input@.subrange(i as int, n as int)),
        decreases n - i,
    {
        let ghost rest = input@.subrange(i as int, n as int);
        assert(rest.subrange(2, rest.len() as int) =~= input@.subrange(i + 2, n as int));
        i += 2;
    }
    i
}

/// Where the trailing `>`s of `input[from..]` begin.
fn mention_close_start(input: &str, from: usize) -> (j: usize)
    requires
        from <= input@.len(),
    ensures
        from <= j <= input@.len(),
        strip_mention_close(input@.subrange(from as int, input@.len() as int)) == input@.subrange(
            from as int,
            j as int,
        ),
{
    let n = input.unicode_len();
    let mut j: usize = n;
    while j > from && input.get_char(j - 1) == '>'
        invariant
            n == input@.len(),
            from <= j <= n,
            strip_mention_close(input@.subrange(from as int, n as int)) == strip_mention_close(
                input@.subrange(from as int, j as int),
            ),
        decreases j,
    {
        assert(input@.subrange(from as int, j as int).drop_last() =~= input@.subrange(
            from as int,
            j - 1,
        ));
        j -= 1;
    }
    j
}

/// The reply to `set-log` with too few arguments.
pub const SET_LOG_USAGE: &'static str = "Usage: `;set-log <language> <channel-id> <webhook-url>`\nExample: `;set-log chinese #translations https://discord.com/api/webhooks/...`";

/// The reply to `set-log` with a webhook URL of another site.
pub const INVALID_WEBHOOK_REPLY: &'static str = "Invalid webhook URL. Please provide a valid Discord webhook URL.";

/// The reply to `remove-log` without an argument.
pub const REMOVE_LOG_USAGE: &'static str = "Usage: `;remove-log <channel-id>`";

/// The reply to `remove-log` on a channel with no active configuration.
pub const NOT_FOUND_REPLY: &'static str = "❌ No translation logging found for that channel";

/// The reply to `list-logs` in a server with no configured channel.
pub const NO_CHANNELS_REPLY: &'static str = "No translation channels configured for this server.";

/// The heading of the `list-logs` reply.
pub const CHANNELS_HEADING: &'static str = "**Configured Translation Channels:**\n\n";

/// The reply to `stats` outside a server.
pub const SERVER_ONLY_REPLY: &'static str = "This command can only be used in a server.";

/// The reply to a configuration command from an author without the rights.
pub const PERMISSION_DENIED_REPLY: &'static str = "❌ You need Administrator, Manage Server, or Manage Channels permission to use this command.";

/// The internal code for a lowercased language name, alias or code; any
/// other text is kept as it is.
pub open spec fn language_code(l: Seq<char>) -> Seq<char> {
    if l == "chinese"@ || l == "zh"@ || l == "cn"@ {
        "zh"@
    } else if l == "english"@ || l == "en"@ {
        "en"@
    } else if l == "japanese"@ || l == "ja"@ || l == "jp"@ {
        "ja"@
    } else if l == "korean"@ || l == "ko"@ || l == "kr"@ {
        "ko"@
    } else if l == "german"@ || l == "de"@ {
        "de"@
    } else if l == "french"@ || l == "fr"@ {
        "fr"@
    } else if l == "spanish"@ || l == "es"@ {
        "es"@
    } else if l == "italian"@ || l == "it"@ {
        "it"@
    } else if l == "portuguese"@ || l == "pt"@ {
        "pt"@
    } else if l == "russian"@ || l == "ru"@ {
        "ru"@
    } else {
        l
    }
}

/// The internal code for a lowercased language name, alias or code.
pub fn language_code_of(l: &str) -> (r: String)
    ensures
        r@ == language_code(l@),
{
    if same_text(l, "chinese") || same_text(l, "zh") || same_text(l, "cn") {
        String::from_str("zh")
    } else if same_text(l, "english") || same_text(l, "en") {
        String::from_str("en")
    } else if same_text(l, "japanese") || same_text(l, "ja") || same_text(l, "jp") {
        String::from_str("ja")
    } else if same_text(l, "korean") || same_text(l, "ko") || same_text(l, "kr") {
        String::from_str("ko")
    } else if same_text(l, "german") || same_text(l, "de") {
        String::from_str("de")
    } else if same_text(l, "french") || same_text(l, "fr") {
        String::from_str("fr")
    } else if same_text(l, "spanish") || same_text(l, "es") {
        String::from_str("es")
    } else if same_text(l, "italian") || same_text(l, "it") {
        String::from_str("it")
    } else if same_text(l, "portuguese") || same_text(l, "pt") {
        String::from_str("pt")
    } else if same_text(l, "russian") || same_text(l, "ru") {
        String::from_str("ru")
    } else {
        String::from_str(l)
    }
}

/// A webhook URL of the chat platform, on either of its two domains.
pub open spec fn is_webhook_url(url: Seq<char>) -> bool {
    let a = "https://discord.com/api/webhooks/"@;
    let b = "https://discordapp.com/api/webhooks/"@;
    (a.len() <= url.len() && url.subrange(0, a.len() as int) == a) || (b.len() <= url.len()
        && url.subrange(0, b.len() as int) == b)
}

/// What `set-log` does next.
pub enum SetLogPlan {
    /// Answer with this text and change nothing.
    Reply(String),
    /// Store this configuration, replacing any other of the same channel.
    Save(TranslationChannel),
}

/// What `remove-log` does next.
pub enum RemoveLogPlan {
    /// Answer with this text and change nothing.
    Reply(String),
    /// Deactivate the configuration of this channel.
    Deactivate(i64),
}

/// The text of the `set-log` reply after a configuration was stored.
pub open spec fn configured_text(channel_id: int, source: Seq<char>) -> Seq<char> {
    "✅ Translation logging configured!\nChannel: <#"@ + decimal_text(channel_id) + ">\nLanguage: "@
        + source + " → en\nWebhook: Set"@
}

/// The text of the `remove-log` reply.
pub open spec fn removed_text(deleted: bool, channel_id: int) -> Seq<char> {
    if deleted {
        "✅ Translation logging removed for <#"@ + decimal_text(channel_id) + ">"@
    } else {
        NOT_FOUND_REPLY@
    }
}

/// One line of the `list-logs` reply.
pub open spec fn channel_line(c: TranslationChannel) -> Seq<char> {
    "• <#"@ + decimal_text(c.channel_id as int) + "> - "@ + c.source_language@ + " → "@
        + c.target_language@ + "\n"@
}

/// The lines of the `list-logs` reply, one per channel, in order.
pub open spec fn channel_lines(cs: Seq<TranslationChannel>) -> Seq<char>
    decreases cs.len(),
{
    if cs.len() == 0 {
        Seq::empty()
    } else {
        channel_lines(cs.drop_last()) + channel_line(cs.last())
    }
}

/// The text of the `list-logs` reply.
pub open spec fn list_text(cs: Seq<TranslationChannel>) -> Seq<char> {
    if cs.len() == 0 {
        NO_CHANNELS_REPLY@
    } else {
        CHANNELS_HEADING@ + channel_lines(cs)
    }
}

impl SetLogCommand {
    /// The internal code for a language name, alias or code, in any case.
    pub fn parse_language(lang: &str) -> (r: Result<String, CommandError>)
        ensures
            r matches Ok(code) && code@ == language_code(lower_of(lang@)),
            all_ascii(lang@) ==> (r matches Ok(code) && code@ == language_code(ascii_lower(lang@))),
    {
        let lowered = lowercase(lang);
        Ok(language_code_of(lowered.as_str()))
    }

    /// Whether `url` is a webhook URL of the chat platform.
    pub fn validate_webhook_url(url: &str) -> (r: bool)
        ensures
            r == is_webhook_url(url@),
    {
        starts_with(url, "https://discord.com/api/webhooks/") || starts_with(
            url,
            "https://discordapp.com/api/webhooks/",
        )
    }

    /// The server the command was used in, which the configuration
    /// commands need.
    pub fn require_guild(guild_id: Option<i64>) -> (r: Result<i64, CommandError>)
        ensures
            match guild_id {
                Some(g) => r == Ok::<i64, CommandError>(g),
                None => r == Err::<i64, CommandError>(CommandError::NotInServer),
            },
    {
        match guild_id {
            Some(g) => Ok(g),
            None => Err(CommandError::NotInServer),
        }
    }

    /// What `set-log <language> <channel-id> <webhook-url>` does, used in
    /// the server `guild_id` at time `now`. The configuration translates
    /// into English.
    pub fn plan(args: &Vec<String>, guild_id: Option<i64>, now: i64) -> (r: Result<
        SetLogPlan,
        CommandError,
    >)
        ensures
            args@.len() < 3 ==> (r matches Ok(SetLogPlan::Reply(t)) && t@ == SET_LOG_USAGE@),
            args@.len() >= 3 && guild_id is None ==> r == Err::<SetLogPlan, CommandError>(
                CommandError::NotInServer,
            ),
            args@.len() >= 3 && guild_id is Some && channel_id_of(args@[1]@) is None ==> r == Err::<
                SetLogPlan,
                CommandError,
            >(CommandError::InvalidChannelId),
            args@.len() >= 3 && guild_id is Some && channel_id_of(args@[1]@) is Some
                && !is_webhook_url(args@[2]@) ==> (r matches Ok(SetLogPlan::Reply(t)) && t@
                == INVALID_WEBHOOK_REPLY@),
            args@.len() >= 3 && guild_id is Some && channel_id_of(args@[1]@) is Some
                && is_webhook_url(args@[2]@) ==> (r matches Ok(SetLogPlan::Save(c)) && c.id == 0
                && c.guild_id == guild_id->0 && c.channel_id == channel_id_of(args@[1]@)->0 as i64
                && c.webhook_url@ == args@[2]@ && c.source_language@ == language_code(
                lower_of(args@[0]@),
            ) && c.target_language@ == "en"@ && c.is_active && c.created_at == now
                && c.updated_at == now),
            args@.len() >= 3 && all_ascii(args@[0]@) ==> (r matches Ok(SetLogPlan::Save(c))
                ==> c.source_language@ == language_code(ascii_lower(args@[0]@))),
    {
        if args.len() < 3 {
            return Ok(SetLogPlan::Reply(String::from_str(SET_LOG_USAGE)));
        }
        let guild = Self::require_guild(guild_id)?;
        let source = match Self::parse_language(args[0].as_str()) {
            Ok(code) => code,
            Err(e) => return Err(e),
        };
        let channel_id = Self::parse_channel_id(args[1].as_str())?;
        let url = args[2].as_str();
        if !Self::validate_webhook_url(url) {
            return Ok(SetLogPlan::Reply(String::from_str(INVALID_WEBHOOK_REPLY)));
        }
        let channel = TranslationChannel::new(
            guild,
            channel_id,
            String::from_str(url),
            source,
            String::from_str("en"),
            now,
        );
        Ok(SetLogPlan::Save(channel))
    }

    /// The reply once a configuration was stored.
    pub fn configured_reply(channel_id: i64, source_language: &str) -> (r: String)
        ensures
            r@ == configured_text(channel_id as int, source_language@),
    {
        let mut r = String::from_str("✅ Translation logging configured!\nChannel: <#");
        let id = signed_decimal(channel_id);
        r.append(id.as_str());
        r.append(">\nLanguage: ");
        r.append(source_language);
        r.append(" → en\nWebhook: Set");
        r
    }

    /// What `remove-log <channel-id>` does.
    pub fn plan_remove(args: &Vec<String>) -> (r: Result<RemoveLogPlan, CommandError>)
        ensures
            args@.len() == 0 ==> (r matches Ok(RemoveLogPlan::Reply(t)) && t@ == REMOVE_LOG_USAGE@),
            args@.len() > 0 && channel_id_of(args@[0]@) is None ==> r == Err::<
                RemoveLogPlan,
                CommandError,
            >(CommandError::InvalidChannelId),
            args@.len() > 0 && channel_id_of(args@[0]@) is Some ==> r == Ok::<
                RemoveLogPlan,
                CommandError,
            >(RemoveLogPlan::Deactivate(channel_id_of(args@[0]@)->0 as i64)),
    {
        if args.len() == 0 {
            return Ok(RemoveLogPlan::Reply(String::from_str(REMOVE_LOG_USAGE)));
        }
        let channel_id = Self::parse_channel_id(args[0].as_str())?;
        Ok(RemoveLogPlan::Deactivate(channel_id))
    }

    /// The reply to `remove-log`, by whether an active configuration was
    /// deactivated. Finding none is an answer, not an error.
    pub fn removed_reply(deleted: bool, channel_id: i64) -> (r: String)
        ensures
            r@ == removed_text(deleted, channel_id as int),
    {
        if deleted {
            let mut r = String::from_str("✅ Translation logging removed for <#");
            let id = signed_decimal(channel_id);
            r.append(id.as_str());
            r.append(">");
            r
        } else {
            String::from_str(NOT_FOUND_REPLY)
        }
    }

    /// The reply to `list-logs`: one line per active channel of the server.
    pub fn list_reply(channels: &Vec<TranslationChannel>) -> (r: String)
        ensures
            r@ == list_text(channels@),
    {
        if channels.len() == 0 {
            return String::from_str(NO_CHANNELS_REPLY);
        }
        let mut r = String::from_str(CHANNELS_HEADING);
        let mut i: usize = 0;
        while i < channels.len()
            invariant
                i <= channels@.len(),
                r@ == CHANNELS_HEADING@ + channel_lines(channels@.take(i as int)),
            decreases channels@.len() - i,
        {
            let c = &channels[i];
            assert(channels@.take(i + 1).drop_last() =~= channels@.take(i as int));
            r.append("• <#");
            let id = signed_decimal(c.channel_id);
            r.append(id.as_str());
            r.append("> - ");
            r.append(c.source_language.as_str());
            r.append(" → ");
            r.append(c.target_language.as_str());
            r.append("\n");
            assert(r@ =~= CHANNELS_HEADING@ + channel_lines(channels@.take(i + 1)));
            i += 1;
        }
        assert(channels@.take(channels@.len() as int) =~= channels@);
        r
    }
}

/// The statistics command.
pub struct StatsCommand;

/// What `stats` does next.
pub enum StatsPlan {
    /// Answer with this text; the store is not consulted.
    Reply(String),
    /// Count the channels and translations of this server.
    Count(i64),
}

/// The text of the `stats` reply.
pub open spec fn stats_text(channels: int, total: int, recent: int) -> Seq<char> {
    "**Translation Statistics**\n\n📊 **Server Stats:**\n• Active translation channels: "@
        + decimal_text(channels) + "\n• Total translations: "@ + decimal_text(total)
        + "\n• Translations (24h): "@ + decimal_text(recent)
        + "\n\n**Translation Providers:**\n• Primary: LibreTranslate (Free & Open Source)\n• Fallback 1: MyMemory\n• Fallback 2: Lingva\n\nUse `;list-logs` to see configured channels."@
}

impl StatsCommand {
    /// Outside a server the answer is fixed and nothing is counted.
    pub fn plan(guild_id: Option<i64>) -> (r: StatsPlan)
        ensures
            guild_id is None ==> (r matches StatsPlan::Reply(t) && t@ == SERVER_ONLY_REPLY@),
            guild_id is Some ==> r == StatsPlan::Count(guild_id->0),
    {
        match guild_id {
            None => StatsPlan::Reply(String::from_str(SERVER_ONLY_REPLY)),
            Some(g) => StatsPlan::Count(g),
        }
    }

    /// The report of a server's active channels, translations, and
    /// translations of the last 24 hours.
    pub fn report(channels: i64, total: i64, recent: i64) -> (r: String)
        ensures
            r@ == stats_text(channels as int, total as int, recent as int),
    {
        let mut r = String::from_str(
            "**Translation Statistics**\n\n📊 **Server Stats:**\n• Active translation channels: ",
        );
        let a = signed_decimal(channels);
        r.append(a.as_str());
        r.append("\n• Total translations: ");
        let b = signed_decimal(total);
        r.append(b.as_str());
        r.append("\n• Translations (24h): ");
        let c = signed_decimal(recent);
        r.append(c.as_str());
        r.append(
            "\n\n**Translation Providers:**\n• Primary: LibreTranslate (Free & Open Source)\n• Fallback 1: MyMemory\n• Fallback 2: Lingva\n\nUse `;list-logs` to see configured channels.",
        );
        r
    }
}

/// Who may change the configuration.
pub struct PermissionChecker;

impl PermissionChecker {
    /// The server's owner, and members with the Administrator, Manage
    /// Server or Manage Channels permission.
    pub fn grants_admin(
        is_owner: bool,
        administrator: bool,
        manage_guild: bool,
        manage_channels: bool,
    ) -> (r: bool)
        ensures
            r == (is_owner || administrator || manage_guild || manage_channels),
    {
        is_owner || administrator || manage_guild || manage_channels
    }

    /// Refuses an author who is not an administrator.
    pub fn require_admin(is_admin: bool) -> (r: Result<(), CommandError>)
        ensures
            is_admin ==> r is Ok,
            !is_admin ==> r == Err::<(), CommandError>(CommandError::InsufficientPermissions),
    {
        if is_admin {
            Ok(())
        } else {
            Err(CommandError::InsufficientPermissions)
        }
    }
}

/// The usage text.
pub const HELP_TEXT: &'static str = r#"
**MegaChinese Translation Bot** 🇨🇳

**Translation Features:**
• Automatic translation of messages in configured channels
• Support for multiple Chinese dialects and languages
• Multi-provider fallback (Google Translate, DeepL)

**Commands:**

`;set-log <language> <channel-id> <webhook-url>`
Setup translation logging for a channel
Example: `;set-log chinese #translations https://discord.com/api/webhooks/...`

`;remove-log <channel-id>`
Remove translation logging from a channel

`;list-logs`
List all configured translation channels in this server

`;translate <source-lang> <target-lang> <text>`
Manually translate text
Example: `;translate zh en 你好世界`

`;languages`
Show all supported languages

`;stats`
Show translation statistics for this server

**Supported Languages:**
• Chinese (Simplified): `zh`, `zh-CN`, `zh-Hans`
• Chinese (Traditional): `zh-TW`, `zh-Hant`
• English: `en`
• Japanese: `ja`
• Korean: `ko`
• German: `de`
• French: `fr`
• Spanish: `es`
• Italian: `it`
• Portuguese: `pt`
• Russian: `ru`

**How Translation Logging Works:**
When you set up a translation channel, any message sent in that channel will be automatically translated and logged to the webhook URL with the format:

```
<@user_id> username#tag sent this:
Original message here

Which translates to this:
Translated message here
```

**Note:** The bot requires appropriate permissions to read messages in the configured channels.
        "#;

/// The list of supported languages.
pub const LANGUAGES_TEXT: &'static str = r#"
**Supported Languages:**

**Chinese:**
• `zh`, `zh-CN`, `zh-Hans` - Simplified Chinese
• `zh-TW`, `zh-Hant` - Traditional Chinese

**Other Languages:**
• `en` - English
• `ja` - Japanese
• `ko` - Korean
• `de` - German
• `fr` - French
• `es` - Spanish
• `it` - Italian
• `pt` - Portuguese
• `ru` - Russian
• `nl` - Dutch
• `pl` - Polish
        "#;

/// The `help` command.
pub struct HelpCommand;

impl HelpCommand {
    /// The reply to `help`.
    pub fn text() -> (r: &'static str)
        ensures
            r@ == HELP_TEXT@,
    {
        HELP_TEXT
    }

    /// The reply to `languages`.
    pub fn languages() -> (r: &'static str)
        ensures
            r@ == LANGUAGES_TEXT@,
    {
        LANGUAGES_TEXT
    }
}

} // verus!
