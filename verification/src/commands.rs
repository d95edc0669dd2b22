use crate::model::{GotdJob, NewGotdJob};
use crate::recurrence::{rule_next_after, rule_next_occurrence, valid_instant};
use crate::text::{contains_text, i64_to_string, int_text, str_eq, text_contains};
use vstd::prelude::*;
use vstd::string::{StrSliceExecFns, StringExecFns};

verus! {

/// The slash commands the bot answers.
pub enum SlashCommand {
    Mem,
    Game,
    Gotd,
    GotdStop,
    Unknown,
}

/// Which handler a slash command's name selects.
pub open spec fn command_of_name(s: Seq<char>) -> SlashCommand {
    if s == "mem"@ {
        SlashCommand::Mem
    } else if s == "game"@ {
        SlashCommand::Game
    } else if s == "gotd"@ {
        SlashCommand::Gotd
    } else if s == "gotd-stop"@ {
        SlashCommand::GotdStop
    } else {
        SlashCommand::Unknown
    }
}

/// Selects the handler for a slash command by its name.
pub fn route_command(name: &str) -> (r: SlashCommand)
    ensures
        r == command_of_name(name@),
{
    if str_eq(name, "mem") {
        SlashCommand::Mem
    } else if str_eq(name, "game") {
        SlashCommand::Game
    } else if str_eq(name, "gotd") {
        SlashCommand::Gotd
    } else if str_eq(name, "gotd-stop") {
        SlashCommand::GotdStop
    } else {
        SlashCommand::Unknown
    }
}

/// The recurrence expression a requested time of day stands for: morning is
/// eight o'clock, noon is twelve, anything else is the evening at twenty.
pub open spec fn cron_of_time_of_day(s: Seq<char>) -> Seq<char> {
    if s == "morning"@ {
        "0 0 8 * * * *"@
    } else if s == "noon"@ {
        "0 0 12 * * * *"@
    } else {
        "0 0 20 * * * *"@
    }
}

/// The recurrence expression for a requested time of day.
pub fn cron_for_time_of_day(time_of_day: &str) -> (r: String)
    ensures
        r@ == cron_of_time_of_day(time_of_day@),
{
    if str_eq(time_of_day, "morning") {
        String::from_str("0 0 8 * * * *")
    } else if str_eq(time_of_day, "noon") {
        String::from_str("0 0 12 * * * *")
    } else {
        String::from_str("0 0 20 * * * *")
    }
}

/// The clock rendering of an instant in a fixed offset.
pub uninterp spec fn instant_text(ts: int, offset_secs: int) -> Seq<char>;

/// Relies on chrono's Display for a fixed-offset datetime: the text is a
/// function of the instant and the offset alone. An instant or offset out
/// of chrono's range yields empty text.
#[verifier::external_body]
fn format_instant(ts: i64, offset_secs: i32) -> (r: String)
    ensures
        r@ == instant_text(ts as int, offset_secs as int),
{
    let offset = match chrono::FixedOffset::east_opt(offset_secs) {
        Some(o) => o,
        None => return String::new(),
    };
    match chrono::DateTime::from_timestamp(ts, 0) {
        Some(d) => format!("{}", d.with_timezone(&offset)),
        None => String::new(),
    }
}

/// The reply when a channel already has an active schedule: when the
/// existing rule has a next occurrence, the reply names it and the whole
/// minutes until it.
pub open spec fn already_message_text(expr: Seq<char>, offset_secs: i32, now: i64) -> Seq<char> {
    match rule_next_occurrence(expr, now as int, offset_secs as int) {
        Some(t) => "Gotd already set up for this channel. Next game sending on "@ + instant_text(
            t as int,
            offset_secs as int,
        ) + ", ("@ + int_text((t - now) / 60) + ") mins"@,
        None => "Gotd already set up for this channel."@,
    }
}

fn already_message(expr: &str, offset_secs: i32, now: i64) -> (r: String)
    requires
        valid_instant(now as int),
    ensures
        r@ == already_message_text(expr@, offset_secs, now),
{
    match rule_next_after(expr, now, offset_secs) {
        Some(t) => {
            let mut s = String::from_str(
                "Gotd already set up for this channel. Next game sending on ",
            );
            let when = format_instant(t, offset_secs);
            s.append(when.as_str());
            s.append(", (");
            let minutes = i64_to_string((t - now) / 60);
            s.append(minutes.as_str());
            s.append(") mins");
            proof {
                assert(s@ =~= already_message_text(expr@, offset_secs, now));
            }
            s
        },
        None => String::from_str("Gotd already set up for this channel."),
    }
}

/// What a schedule request decides: reject the time of day, report the
/// schedule the channel already has, or create a new record and confirm.
pub enum GotdPlan {
    InvalidTime { message: String },
    AlreadyScheduled { message: String },
    Create { job: NewGotdJob, message: String },
}

/// Decides a schedule request. `time_of_day` is the request's option when
/// it was text; `existing` is the channel's active record, if the store
/// holds one. No record is written here: a `Create` plan carries the record
/// for the caller to save.
pub fn plan_gotd(
    time_of_day: Option<&String>,
    existing: Option<&GotdJob>,
    channel_id: u64,
    guild_id: u64,
    created_by_id: u64,
    offset_secs: i32,
    now: i64,
) -> (r: GotdPlan)
    requires
        valid_instant(now as int),
    ensures
        time_of_day is None ==> (r matches GotdPlan::InvalidTime { message } && message@
            == "Not a valid time of day"@),
        time_of_day matches Some(t) ==> existing matches Some(e) ==> (r
            matches GotdPlan::AlreadyScheduled { message } && message@ == already_message_text(
            e.cron_schedule@,
            offset_secs,
            now,
        )),
        time_of_day matches Some(t) ==> existing is None ==> (r matches GotdPlan::Create {
            job,
            message,
        } && job.channel_id == channel_id && job.guild_id == guild_id && job.created_by_id
            == created_by_id && job.cron_schedule@ == cron_of_time_of_day(t@) && message@
            == "Gotcha, scheduling for "@ + t@),
{
    match time_of_day {
        None => GotdPlan::InvalidTime { message: String::from_str("Not a valid time of day") },
        Some(t) => match existing {
            Some(e) => GotdPlan::AlreadyScheduled {
                message: already_message(e.cron_schedule.as_str(), offset_secs, now),
            },
            None => {
                let cron_schedule = cron_for_time_of_day(t.as_str());
                let mut message = String::from_str("Gotcha, scheduling for ");
                message.append(t.as_str());
                GotdPlan::Create {
                    job: NewGotdJob { channel_id, guild_id, cron_schedule, created_by_id },
                    message,
                }
            },
        },
    }
}

/// What a stop request decides: report that the channel has no active
/// schedule, or name the record to deactivate.
pub enum GotdStopPlan {
    NoActive { message: String },
    Remove { id: i32 },
}

/// Decides a stop request from the channel's active record, if any.
pub fn plan_gotd_stop(existing: Option<&GotdJob>) -> (r: GotdStopPlan)
    ensures
        existing is None ==> (r matches GotdStopPlan::NoActive { message } && message@
            == "No active Game of the Day found for this channel."@),
        existing matches Some(e) ==> (r matches GotdStopPlan::Remove { id } && id == e.id),
{
    match existing {
        None => GotdStopPlan::NoActive {
            message: String::from_str("No active Game of the Day found for this channel."),
        },
        Some(e) => GotdStopPlan::Remove { id: e.id },
    }
}

/// The reply after trying to deactivate the record a stop request named.
pub fn gotd_stop_message(did_delete: bool) -> (r: String)
    ensures
        did_delete ==> r@ == "No more games for these days!"@,
        !did_delete ==> r@ == "Hmm. couldn't delete that for some reason..."@,
{
    if did_delete {
        String::from_str("No more games for these days!")
    } else {
        String::from_str("Hmm. couldn't delete that for some reason...")
    }
}

/// The marker whose presence in a message the bot answers with a matching
/// reaction.
pub open spec fn kevin_toms_marker() -> Seq<char> {
    ":KevinToms:"@
}

/// Whether a message calls for the marker reaction.
pub fn message_should_react(content: &str) -> (r: bool)
    ensures
        r == text_contains(content@, kevin_toms_marker()),
{
    contains_text(content, ":KevinToms:")
}

/// The component identifier of a poll reply button: the poll marker, the
/// option label and the poll identifier, separated by double colons.
pub fn wyr_custom_id(option_label: &str, wyr_id: &str) -> (r: String)
    ensures
        r@ == "wyr::"@ + option_label@ + "::"@ + wyr_id@,
{
    let mut s = String::from_str("wyr::");
    s.append(option_label);
    s.append("::");
    s.append(wyr_id);
    proof {
        assert(s@ =~= "wyr::"@ + option_label@ + "::"@ + wyr_id@);
    }
    s
}

/// Whether a segment separator (two colons) stands at position `i`.
pub open spec fn sep_at(s: Seq<char>, i: int) -> bool {
    0 <= i && i + 2 <= s.len() && s[i] == ':' && s[i + 1] == ':'
}

/// The position of the first separator at or after `from`.
pub open spec fn first_sep_from(s: Seq<char>, from: int) -> Option<int>
    decreases s.len() - from,
{
    if from + 2 > s.len() {
        None
    } else if sep_at(s, from) {
        Some(from)
    } else {
        first_sep_from(s, from + 1)
    }
}

proof fn lemma_first_sep_bounds(s: Seq<char>, from: int, j: int)
    requires
        0 <= from,
        first_sep_from(s, from) == Some(j),
    ensures
        from <= j,
        sep_at(s, j),
    decreases s.len() - from,
{
    if from + 2 > s.len() {
        assert(false);
    } else if sep_at(s, from) {
    } else {
        lemma_first_sep_bounds(s, from + 1, j);
    }
}

fn find_sep(s: &str, from: usize) -> (r: Option<usize>)
    requires
        from <= s@.len(),
    ensures
        r is Some <==> first_sep_from(s@, from as int) is Some,
        r matches Some(i) ==> first_sep_from(s@, from as int) == Some(i as int),
{
    let n = s.unicode_len();
    if n < 2 {
        return None;
    }
    let mut i: usize = from;
    while i <= n - 2
        invariant
            2 <= n,
            n == s@.len(),
            from <= i,
            first_sep_from(s@, from as int) == first_sep_from(s@, i as int),
        decreases n - i,
    {
        if s.get_char(i) == ':' && s.get_char(i + 1) == ':' {
            return Some(i);
        }
        i += 1;
    }
    None
}

/// The option label and poll identifier of a poll reply, when the component
/// identifier is a poll one: its first double-colon segment is the poll
/// marker, the next two are the label and the identifier; anything after a
/// further separator is ignored.
pub open spec fn wyr_reply_parts(s: Seq<char>) -> Option<(Seq<char>, Seq<char>)> {
    match first_sep_from(s, 0) {
        None => None,
        Some(i) => if s.subrange(0, i) != "wyr"@ {
            None
        } else {
            match first_sep_from(s, i + 2) {
                None => None,
                Some(j) => Some(
                    (
                        s.subrange(i + 2, j),
                        match first_sep_from(s, j + 2) {
                            Some(k) => s.subrange(j + 2, k),
                            None => s.subrange(j + 2, s.len() as int),
                        },
                    ),
                ),
            }
        },
    }
}

/// Reads a poll reply's option label and poll identifier out of a component
/// identifier, if it is a poll one.
pub fn parse_wyr_custom_id(s: &str) -> (r: Option<(String, String)>)
    ensures
        r is Some <==> wyr_reply_parts(s@) is Some,
        r matches Some(p) ==> (wyr_reply_parts(s@) matches Some(q) && p.0@ == q.0 && p.1@ == q.1),
{
    let n = s.unicode_len();
    let i = match find_sep(s, 0) {
        Some(i) => i,
        None => return None,
    };
    proof {
        lemma_first_sep_bounds(s@, 0, i as int);
    }
    let head = s.substring_char(0, i);
    if !str_eq(head, "wyr") {
        return None;
    }
    let j = match find_sep(s, i + 2) {
        Some(j) => j,
        None => return None,
    };
    proof {
        lemma_first_sep_bounds(s@, i as int + 2, j as int);
    }
    let option_label = s.substring_char(i + 2, j);
    let id_part = match find_sep(s, j + 2) {
        Some(k) => {
            proof {
                lemma_first_sep_bounds(s@, j as int + 2, k as int);
            }
            s.substring_char(j + 2, k)
        },
        None => s.substring_char(j + 2, n),
    };
    Some((option_label.to_owned(), id_part.to_owned()))
}

} // verus!
