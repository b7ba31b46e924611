//! Settings of the service, read from the texts of environment variables.

use vstd::prelude::*;

use crate::clock::Weekday;
use crate::text::{
    decimal_text, law_decimal_has_no_leading_zero, law_decimal_writes_digits_in_order, same_text,
};

verus! {

/// Seconds between two rounds of checks, unless set otherwise.
pub const DEFAULT_POLL_INTERVAL_SECS: u64 = 60;

/// Milliseconds to wait for a response, unless set otherwise.
pub const DEFAULT_TIMEOUT_MS: u64 = 5_000;

/// Seconds that an outage must last to become an incident, unless set otherwise.
pub const DEFAULT_GRACE_PERIOD_SECS: u64 = 120;

/// How often services are checked, and how long a check may take.
#[derive(Debug, Clone, Copy)]
pub struct PollSettings {
    pub poll_interval_secs: u64,
    pub request_timeout_ms: u64,
}

/// When long outages are brought up again.
#[derive(Debug, Clone, Copy)]
pub struct ReminderSettings {
    pub enabled: bool,
    /// Seconds between two looks at the open incidents.
    pub check_interval_secs: u64,
    /// Seconds after which an open incident is brought up.
    pub outage_threshold_secs: u64,
    /// Seconds between two reminders of the same incident.
    pub repeat_interval_secs: u64,
}

/// How long an outage may last without becoming an incident.
#[derive(Debug, Clone, Copy)]
pub struct DebounceSettings {
    pub grace_period_secs: u64,
}

/// When the weekly report goes out, in UTC.
#[derive(Debug, Clone, Copy)]
pub struct WeeklyReportSettings {
    pub enabled: bool,
    pub day: Weekday,
    pub hour: u32,
}

/// Whether a character is a decimal digit.
pub open spec fn is_digit(c: char) -> bool {
    '0' <= c <= '9'
}

/// Whether a text holds decimal digits and nothing else.
pub open spec fn all_digits(text: Seq<char>) -> bool {
    forall|i: int| 0 <= i < text.len() ==> is_digit(#[trigger] text[i])
}

/// The number that decimal digits stand for.
pub open spec fn digits_value(digits: Seq<char>) -> nat
    decreases digits.len(),
{
    if digits.len() == 0 {
        0
    } else {
        10 * digits_value(digits.drop_last()) + (digits.last() as nat - '0' as nat) as nat
    }
}

/// The number that a text stands for, if it is an optional plus sign and at
/// least one digit, nothing else, and the number is not over the given one.
pub open spec fn parsed_number(text: Seq<char>, max: nat) -> Option<nat> {
    let digits = if text.len() > 0 && text[0] == '+' {
        text.skip(1)
    } else {
        text
    };
    if digits.len() > 0 && all_digits(digits) && digits_value(digits) <= max {
        Some(digits_value(digits))
    } else {
        None
    }
}

/// Reads a number.
///
/// Trusted: calls `str::parse::<u64>`. The contract claims that it accepts an
/// optional plus sign followed by one or more decimal digits, as long as the
/// number fits, and that it refuses every other text.
#[verifier::external_body]
fn parse_u64(text: &str) -> (number: Option<u64>)
    ensures
        number is Some <==> parsed_number(text@, u64::MAX as nat) is Some,
        number matches Some(number) ==> parsed_number(text@, u64::MAX as nat) == Some(
            number as nat,
        ),
{
    text.parse::<u64>().ok()
}

/// Reads a number.
///
/// Trusted: calls `str::parse::<u32>`. The contract claims of it what that of
/// [`parse_u64`] claims of the wider number.
#[verifier::external_body]
fn parse_u32(text: &str) -> (number: Option<u32>)
    ensures
        number is Some <==> parsed_number(text@, u32::MAX as nat) is Some,
        number matches Some(number) ==> parsed_number(text@, u32::MAX as nat) == Some(
            number as nat,
        ),
{
    text.parse::<u32>().ok()
}

/// A text in lower case.
pub uninterp spec fn lowercase_text(text: Seq<char>) -> Seq<char>;

/// Turns a text into lower case.
///
/// Trusted: calls `str::to_lowercase`. The contract claims that the result
/// depends on the characters of the text alone.
#[verifier::external_body]
fn to_lowercase(text: &str) -> (lowered: String)
    ensures
        lowered@ == lowercase_text(text@),
{
    text.to_lowercase()
}

/// The number that a variable is set to, or the given one if it is not set to a
/// number.
pub open spec fn number_or(raw: Option<&str>, default: u64) -> u64 {
    match raw {
        Some(text) => match parsed_number(text@, u64::MAX as nat) {
            Some(number) => number as u64,
            None => default,
        },
        None => default,
    }
}

fn read_number(raw: Option<&str>, default: u64) -> (number: u64)
    ensures
        number == number_or(raw, default),
{
    match raw {
        Some(text) => match parse_u64(text) {
            Some(number) => number,
            None => default,
        },
        None => default,
    }
}

/// The larger of two numbers.
pub open spec fn at_least(number: u64, least: u64) -> u64 {
    if number < least {
        least
    } else {
        number
    }
}

fn raise_to(number: u64, least: u64) -> (raised: u64)
    ensures
        raised == at_least(number, least),
{
    if number < least {
        least
    } else {
        number
    }
}

/// Whether a text in lower case leaves a feature on: anything does but `0`,
/// `false` and `off`.
pub open spec fn leaves_on(lowered: Seq<char>) -> bool {
    lowered != "0"@ && lowered != "false"@ && lowered != "off"@
}

/// Whether a text in lower case leaves a feature on.
pub fn flag_value(lowered: &str) -> (on: bool)
    ensures
        on == leaves_on(lowered@),
        on <==> lowered@ != "0"@ && lowered@ != "false"@ && lowered@ != "off"@,
{
    !same_text(lowered, "0") && !same_text(lowered, "false") && !same_text(lowered, "off")
}

/// Whether a variable leaves a feature on; one that is not set does.
pub open spec fn flag_on(raw: Option<&str>) -> bool {
    match raw {
        Some(text) => leaves_on(lowercase_text(text@)),
        None => true,
    }
}

fn read_flag(raw: Option<&str>) -> (on: bool)
    ensures
        on == flag_on(raw),
{
    match raw {
        Some(text) => flag_value(to_lowercase(text).as_str()),
        None => true,
    }
}

/// The weekday that a text in lower case names: in full, by its first three
/// letters, or by its number from Monday, 1, to Sunday, 7 or 0.
pub open spec fn named_weekday(lowered: Seq<char>) -> Option<Weekday> {
    if lowered == "monday"@ || lowered == "mon"@ || lowered == "1"@ {
        Some(Weekday::Mon)
    } else if lowered == "tuesday"@ || lowered == "tue"@ || lowered == "2"@ {
        Some(Weekday::Tue)
    } else if lowered == "wednesday"@ || lowered == "wed"@ || lowered == "3"@ {
        Some(Weekday::Wed)
    } else if lowered == "thursday"@ || lowered == "thu"@ || lowered == "4"@ {
        Some(Weekday::Thu)
    } else if lowered == "friday"@ || lowered == "fri"@ || lowered == "5"@ {
        Some(Weekday::Fri)
    } else if lowered == "saturday"@ || lowered == "sat"@ || lowered == "6"@ {
        Some(Weekday::Sat)
    } else if lowered == "sunday"@ || lowered == "sun"@ || lowered == "0"@ || lowered == "7"@ {
        Some(Weekday::Sun)
    } else {
        None
    }
}

/// The weekday that a text in lower case names.
pub fn weekday_value(lowered: &str) -> (day: Option<Weekday>)
    ensures
        day == named_weekday(lowered@),
{
    if same_text(lowered, "monday") || same_text(lowered, "mon") || same_text(lowered, "1") {
        Some(Weekday::Mon)
    } else if same_text(lowered, "tuesday") || same_text(lowered, "tue") || same_text(
        lowered,
        "2",
    ) {
        Some(Weekday::Tue)
    } else if same_text(lowered, "wednesday") || same_text(lowered, "wed") || same_text(
        lowered,
        "3",
    ) {
        Some(Weekday::Wed)
    } else if same_text(lowered, "thursday") || same_text(lowered, "thu") || same_text(
        lowered,
        "4",
    ) {
        Some(Weekday::Thu)
    } else if same_text(lowered, "friday") || same_text(lowered, "fri") || same_text(lowered, "5") {
        Some(Weekday::Fri)
    } else if same_text(lowered, "saturday") || same_text(lowered, "sat") || same_text(
        lowered,
        "6",
    ) {
        Some(Weekday::Sat)
    } else if same_text(lowered, "sunday") || same_text(lowered, "sun") || same_text(lowered, "0")
        || same_text(lowered, "7") {
        Some(Weekday::Sun)
    } else {
        None
    }
}

/// The poll settings for the texts of `POLL_INTERVAL_SECS` and
/// `REQUEST_TIMEOUT_MS`. The interval is at least 5 seconds, the timeout at
/// least 500 milliseconds.
pub fn load_poll_settings(interval: Option<&str>, timeout: Option<&str>) -> (settings: PollSettings)
    ensures
        settings.poll_interval_secs == at_least(number_or(interval, DEFAULT_POLL_INTERVAL_SECS), 5),
        settings.request_timeout_ms == at_least(number_or(timeout, DEFAULT_TIMEOUT_MS), 500),
        settings.poll_interval_secs >= 5,
        settings.request_timeout_ms >= 500,
        settings.poll_interval_secs == (match interval {
            None => 60nat,
            Some(text) => match parsed_number(text@, u64::MAX as nat) {
                None => 60nat,
                Some(number) => if number < 5 { 5nat } else { number },
            },
        }),
        settings.request_timeout_ms == (match timeout {
            None => 5000nat,
            Some(text) => match parsed_number(text@, u64::MAX as nat) {
                None => 5000nat,
                Some(number) => if number < 500 { 500nat } else { number },
            },
        }),
{
    PollSettings {
        poll_interval_secs: raise_to(read_number(interval, DEFAULT_POLL_INTERVAL_SECS), 5),
        request_timeout_ms: raise_to(read_number(timeout, DEFAULT_TIMEOUT_MS), 500),
    }
}

/// The minutes after which an open incident is brought up.
pub open spec fn threshold_minutes(threshold: Option<&str>) -> u64 {
    at_least(number_or(threshold, 30), 1)
}

/// The minutes between two reminders; the threshold, unless set otherwise.
pub open spec fn repeat_minutes(threshold: Option<&str>, repeat: Option<&str>) -> u64 {
    at_least(number_or(repeat, threshold_minutes(threshold)), 1)
}

/// Whether the reminder times can be counted in seconds.
pub open spec fn reminder_times_fit(threshold: Option<&str>, repeat: Option<&str>) -> bool {
    &&& threshold_minutes(threshold) * 60 <= u64::MAX
    &&& repeat_minutes(threshold, repeat) * 60 <= u64::MAX
}

/// Whether the reminder times for the texts of `OUTAGE_REMINDER_MINUTES` and
/// `OUTAGE_REMINDER_REPEAT_MINUTES` can be counted in seconds.
pub fn check_reminder_times(threshold: Option<&str>, repeat: Option<&str>) -> (fit: bool)
    ensures
        fit == reminder_times_fit(threshold, repeat),
{
    let threshold_min: u64 = raise_to(read_number(threshold, 30), 1);
    let repeat_min: u64 = raise_to(read_number(repeat, threshold_min), 1);
    threshold_min <= u64::MAX / 60 && repeat_min <= u64::MAX / 60
}

/// The reminder settings for the texts of `OUTAGE_REMINDERS_ENABLED`,
/// `OUTAGE_REMINDER_MINUTES`, `OUTAGE_REMINDER_REPEAT_MINUTES` and
/// `OUTAGE_REMINDER_CHECK_SECS`. The reminder times are at least a minute, the
/// check interval at least 30 seconds.
pub fn load_reminder_settings(
    enabled: Option<&str>,
    threshold: Option<&str>,
    repeat: Option<&str>,
    check: Option<&str>,
) -> (settings: ReminderSettings)
    requires
        reminder_times_fit(threshold, repeat),
    ensures
        settings.enabled == flag_on(enabled),
        settings.check_interval_secs == at_least(number_or(check, 60), 30),
        settings.outage_threshold_secs == threshold_minutes(threshold) * 60,
        settings.repeat_interval_secs == repeat_minutes(threshold, repeat) * 60,
        settings.check_interval_secs >= 30,
        settings.check_interval_secs == (match check {
            None => 60nat,
            Some(text) => match parsed_number(text@, u64::MAX as nat) {
                None => 60nat,
                Some(number) => if number < 30 { 30nat } else { number },
            },
        }),
        settings.enabled <==> (enabled matches Some(text) ==> {
            &&& lowercase_text(text@) != "0"@
            &&& lowercase_text(text@) != "false"@
            &&& lowercase_text(text@) != "off"@
        }),
        settings.outage_threshold_secs >= 60,
        settings.repeat_interval_secs >= 60,
{
    let threshold_min: u64 = raise_to(read_number(threshold, 30), 1);
    let repeat_min: u64 = raise_to(read_number(repeat, threshold_min), 1);
    ReminderSettings {
        enabled: read_flag(enabled),
        check_interval_secs: raise_to(read_number(check, 60), 30),
        outage_threshold_secs: threshold_min * 60,
        repeat_interval_secs: repeat_min * 60,
    }
}

/// The debounce settings for the text of `INCIDENT_GRACE_PERIOD_SECS`.
pub fn load_debounce_settings(grace_period: Option<&str>) -> (settings: DebounceSettings)
    ensures
        settings.grace_period_secs == number_or(grace_period, DEFAULT_GRACE_PERIOD_SECS),
        settings.grace_period_secs == (match grace_period {
            None => 120nat,
            Some(text) => match parsed_number(text@, u64::MAX as nat) {
                None => 120nat,
                Some(number) => number,
            },
        }),
{
    DebounceSettings { grace_period_secs: read_number(grace_period, DEFAULT_GRACE_PERIOD_SECS) }
}

/// The weekday that a variable names; Sunday if it names none.
pub open spec fn report_day(day: Option<&str>) -> Weekday {
    match day {
        Some(text) => match named_weekday(lowercase_text(text@)) {
            Some(weekday) => weekday,
            None => Weekday::Sun,
        },
        None => Weekday::Sun,
    }
}

/// The hour that a variable is set to, at most 23; 9 if it is not set to a
/// number.
pub open spec fn report_hour(hour: Option<&str>) -> nat {
    let wanted = match hour {
        Some(text) => match parsed_number(text@, u32::MAX as nat) {
            Some(number) => number,
            None => 9,
        },
        None => 9,
    };
    if wanted > 23 {
        23
    } else {
        wanted
    }
}

/// The report settings for the texts of `WEEKLY_REPORT_ENABLED`,
/// `WEEKLY_REPORT_DAY` and `WEEKLY_REPORT_HOUR`.
pub fn load_weekly_report_settings(
    enabled: Option<&str>,
    day: Option<&str>,
    hour: Option<&str>,
) -> (settings: WeeklyReportSettings)
    ensures
        settings.enabled == flag_on(enabled),
        settings.day == report_day(day),
        settings.hour == report_hour(hour),
        settings.hour <= 23,
        settings.enabled <==> (enabled matches Some(text) ==> {
            &&& lowercase_text(text@) != "0"@
            &&& lowercase_text(text@) != "false"@
            &&& lowercase_text(text@) != "off"@
        }),
        settings.hour == (match hour {
            None => 9nat,
            Some(text) => match parsed_number(text@, u32::MAX as nat) {
                None => 9nat,
                Some(number) => if number > 23 { 23nat } else { number },
            },
        }),
{
    let weekday = match day {
        Some(text) => match weekday_value(to_lowercase(text).as_str()) {
            Some(weekday) => weekday,
            None => Weekday::Sun,
        },
        None => Weekday::Sun,
    };
    let wanted: u32 = match hour {
        Some(text) => match parse_u32(text) {
            Some(number) => number,
            None => 9,
        },
        None => 9,
    };
    WeeklyReportSettings {
        enabled: read_flag(enabled),
        day: weekday,
        hour: if wanted > 23 {
            23
        } else {
            wanted
        },
    }
}

/// Where the database is kept: the text of `HEALTHCHECK_DB_PATH`, or a file in
/// the working directory.
pub fn database_path(configured: Option<String>) -> (path: String)
    ensures
        path@ == (match configured {
            Some(path) => path@,
            None => "healthcheck.db"@,
        }),
{
    match configured {
        Some(path) => path,
        None => "healthcheck.db".to_owned(),
    }
}

/// A feature stays on unless its variable says `0`, `false` or `off`, in any
/// case of letters.
pub proof fn law_features_are_on_unless_turned_off(raw: Option<&str>)
    ensures
        raw is None ==> flag_on(raw),
        raw matches Some(text) ==> (!flag_on(raw) <==> {
            ||| lowercase_text(text@) == "0"@
            ||| lowercase_text(text@) == "false"@
            ||| lowercase_text(text@) == "off"@
        }),
{
}

/// A variable that is set to a number that fits counts as that number, any other
/// one as the default.
pub proof fn law_numbers_come_before_defaults(raw: Option<&str>, default: u64)
    ensures
        raw is None ==> number_or(raw, default) == default,
        raw matches Some(text) ==> {
            &&& parsed_number(text@, u64::MAX as nat) is None ==> number_or(raw, default) == default
            &&& parsed_number(text@, u64::MAX as nat) matches Some(number) ==> number_or(
                raw,
                default,
            ) == number
        },
{
}

/// One more digit makes a number ten times as large and adds the digit.
pub proof fn law_digits_count_tenfold(digits: Seq<char>, digit: char)
    requires
        '0' <= digit <= '9',
    ensures
        digits_value(Seq::empty()) == 0,
        digits_value(digits.push(digit)) == 10 * digits_value(digits) + (digit as nat - 48),
{
    assert(digits.push(digit).drop_last() =~= digits);
}

/// A text of digits is the number that they stand for, with or without a plus
/// sign before it, if the number is not too large.
pub proof fn law_digits_are_read_as_a_number(digits: Seq<char>, max: nat)
    requires
        digits.len() > 0,
        forall|i: int| 0 <= i < digits.len() ==> '0' <= (#[trigger] digits[i]) <= '9',
    ensures
        parsed_number(digits, max) == parsed_number(seq!['+'] + digits, max),
        digits_value(digits) <= max ==> parsed_number(digits, max) == Some(digits_value(digits)),
        digits_value(digits) > max ==> parsed_number(digits, max) is None,
{
    let signed = seq!['+'] + digits;
    assert(signed.skip(1) =~= digits);
    assert(digits[0] != '+');
}

/// A text that is empty, or holds a character that is neither a digit nor a plus
/// sign at its start, is no number.
pub proof fn law_other_texts_are_no_numbers(text: Seq<char>, index: int, max: nat)
    requires
        text.len() > 0 ==> {
            &&& 0 <= index < text.len()
            &&& !('0' <= text[index] <= '9')
            &&& index == 0 ==> text[0] != '+'
        },
    ensures
        parsed_number(text, max) is None,
{
    if text.len() > 0 {
        let digits = if text.len() > 0 && text[0] == '+' {
            text.skip(1)
        } else {
            text
        };
        let at = if text[0] == '+' {
            index - 1
        } else {
            index
        };
        assert(!is_digit(digits[at]));
    }
}

proof fn lemma_decimal_value(number: nat)
    ensures
        digits_value(decimal_text(number)) == number,
    decreases number,
{
    let text = decimal_text(number);
    law_decimal_has_no_leading_zero(number);
    law_decimal_writes_digits_in_order(number);
    assert(text.drop_last() =~= text.take(text.len() - 1));
    if number >= 10 {
        lemma_decimal_value(number / 10);
    } else {
        assert(text.drop_last() =~= Seq::empty());
        assert(digits_value(text.drop_last()) == 0);
    }
}

/// A number that is written in decimal reads back as that number.
pub proof fn law_written_numbers_read_back(number: nat, max: nat)
    requires
        number <= max,
    ensures
        parsed_number(decimal_text(number), max) == Some(number),
{
    lemma_decimal_value(number);
    law_decimal_has_no_leading_zero(number);
    law_digits_are_read_as_a_number(decimal_text(number), max);
}

/// The threshold of reminders is at least a minute, half an hour unless set; the
/// distance between them is the threshold unless set, and at least a minute.
pub proof fn law_reminder_minutes(threshold: Option<&str>, repeat: Option<&str>)
    ensures
        threshold_minutes(threshold) == (match threshold {
            None => 30nat,
            Some(text) => match parsed_number(text@, u64::MAX as nat) {
                None => 30nat,
                Some(number) => if number == 0 { 1nat } else { number },
            },
        }),
        repeat_minutes(threshold, repeat) == (match repeat {
            None => threshold_minutes(threshold) as nat,
            Some(text) => match parsed_number(text@, u64::MAX as nat) {
                None => threshold_minutes(threshold) as nat,
                Some(number) => if number == 0 { 1nat } else { number },
            },
        }),
        reminder_times_fit(threshold, repeat) <==> threshold_minutes(threshold) <= u64::MAX / 60
            && repeat_minutes(threshold, repeat) <= u64::MAX / 60,
{
}

/// Every weekday goes by its name, the first three letters of it, and its number
/// from Monday, 1, on; Sunday goes by 0 as well. No other text names a weekday.
pub proof fn law_names_of_weekdays(lowered: Seq<char>)
    ensures
        named_weekday(lowered) == Some(Weekday::Mon) <==> lowered == "monday"@ || lowered == "mon"@
            || lowered == "1"@,
        named_weekday(lowered) == Some(Weekday::Tue) <==> lowered == "tuesday"@ || lowered == "tue"@
            || lowered == "2"@,
        named_weekday(lowered) == Some(Weekday::Wed) <==> lowered == "wednesday"@ || lowered
            == "wed"@ || lowered == "3"@,
        named_weekday(lowered) == Some(Weekday::Thu) <==> lowered == "thursday"@ || lowered
            == "thu"@ || lowered == "4"@,
        named_weekday(lowered) == Some(Weekday::Fri) <==> lowered == "friday"@ || lowered == "fri"@
            || lowered == "5"@,
        named_weekday(lowered) == Some(Weekday::Sat) <==> lowered == "saturday"@ || lowered
            == "sat"@ || lowered == "6"@,
        named_weekday(lowered) == Some(Weekday::Sun) <==> lowered == "sunday"@ || lowered == "sun"@
            || lowered == "7"@ || lowered == "0"@,
{
    reveal_strlit("monday");
    assert("monday"@.len() == 6 && "monday"@[0] == 'm' && "monday"@[1] == 'o');
    reveal_strlit("mon");
    assert("mon"@.len() == 3 && "mon"@[0] == 'm' && "mon"@[1] == 'o');
    reveal_strlit("1");
    assert("1"@.len() == 1 && "1"@[0] == '1');
    reveal_strlit("tuesday");
    assert("tuesday"@.len() == 7 && "tuesday"@[0] == 't' && "tuesday"@[1] == 'u');
    reveal_strlit("tue");
    assert("tue"@.len() == 3 && "tue"@[0] == 't' && "tue"@[1] == 'u');
    reveal_strlit("2");
    assert("2"@.len() == 1 && "2"@[0] == '2');
    reveal_strlit("wednesday");
    assert("wednesday"@.len() == 9 && "wednesday"@[0] == 'w' && "wednesday"@[1] == 'e');
    reveal_strlit("wed");
    assert("wed"@.len() == 3 && "wed"@[0] == 'w' && "wed"@[1] == 'e');
    reveal_strlit("3");
    assert("3"@.len() == 1 && "3"@[0] == '3');
    reveal_strlit("thursday");
    assert("thursday"@.len() == 8 && "thursday"@[0] == 't' && "thursday"@[1] == 'h');
    reveal_strlit("thu");
    assert("thu"@.len() == 3 && "thu"@[0] == 't' && "thu"@[1] == 'h');
    reveal_strlit("4");
    assert("4"@.len() == 1 && "4"@[0] == '4');
    reveal_strlit("friday");
    assert("friday"@.len() == 6 && "friday"@[0] == 'f' && "friday"@[1] == 'r');
    reveal_strlit("fri");
    assert("fri"@.len() == 3 && "fri"@[0] == 'f' && "fri"@[1] == 'r');
    reveal_strlit("5");
    assert("5"@.len() == 1 && "5"@[0] == '5');
    reveal_strlit("saturday");
    assert("saturday"@.len() == 8 && "saturday"@[0] == 's' && "saturday"@[1] == 'a');
    reveal_strlit("sat");
    assert("sat"@.len() == 3 && "sat"@[0] == 's' && "sat"@[1] == 'a');
    reveal_strlit("6");
    assert("6"@.len() == 1 && "6"@[0] == '6');
    reveal_strlit("sunday");
    assert("sunday"@.len() == 6 && "sunday"@[0] == 's' && "sunday"@[1] == 'u');
    reveal_strlit("sun");
    assert("sun"@.len() == 3 && "sun"@[0] == 's' && "sun"@[1] == 'u');
    reveal_strlit("0");
    assert("0"@.len() == 1 && "0"@[0] == '0');
    reveal_strlit("7");
    assert("7"@.len() == 1 && "7"@[0] == '7');
}

/// Reports go out on the day that is named, else on Sunday, at the hour that is
/// set, else at nine, and at 23 at the latest.
pub proof fn law_report_day_and_hour(day: Option<&str>, hour: Option<&str>)
    ensures
        day is None ==> report_day(day) is Sun,
        day matches Some(text) ==> {
            &&& named_weekday(lowercase_text(text@)) matches Some(named) ==> report_day(day)
                == named
            &&& named_weekday(lowercase_text(text@)) is None ==> report_day(day) is Sun
        },
        report_hour(hour) == (match hour {
            None => 9nat,
            Some(text) => match parsed_number(text@, u32::MAX as nat) {
                None => 9nat,
                Some(number) => if number > 23 { 23nat } else { number },
            },
        }),
{
}

} // verus!
