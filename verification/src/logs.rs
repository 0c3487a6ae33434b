//! The names of the log files, one per day and kind.
use crate::text::is_digit;
use chrono::Local;
use vstd::prelude::*;

verus! {

/// The directory that holds the log files.
pub const LOG_DIR: &'static str = "log";

/// The number that the two digits of `text` from `at` on stand for.
pub open spec fn two_digits(text: Seq<char>, at: int) -> int {
    (text[at] as u32 - '0' as u32) * 10 + (text[at + 1] as u32 - '0' as u32)
}

/// A year in decimal: four digits, or a sign and at least four digits.
pub open spec fn is_year(text: Seq<char>) -> bool {
    if text.len() > 0 && (text[0] == '+' || text[0] == '-') {
        text.len() >= 5 && forall|i: int| 1 <= i < text.len() ==> is_digit(#[trigger] text[i])
    } else {
        text.len() == 4 && forall|i: int| 0 <= i < text.len() ==> is_digit(#[trigger] text[i])
    }
}

/// A date written as year, month and day, the last two in two digits each. The
/// year has a sign outside the years 0 to 9999.
pub open spec fn is_date(text: Seq<char>) -> bool {
    let end = text.len() - 6;
    &&& end >= 4
    &&& is_year(text.take(end))
    &&& text[end] == '-' && text[end + 3] == '-'
    &&& is_digit(text[end + 1]) && is_digit(text[end + 2])
    &&& is_digit(text[end + 4]) && is_digit(text[end + 5])
    &&& 1 <= two_digits(text, end + 1) <= 12
    &&& 1 <= two_digits(text, end + 4) <= 31
}

/// `chrono::Local::now` reads the clock and the time zone, and `format` with
/// `%Y-%m-%d` writes the date. Which date it is cannot be said; its form is
/// that of `is_date`. It panics if the clock is set before 1970.
#[verifier::external_body]
fn today() -> (date: String)
    ensures
        is_date(date@),
{
    Local::now().format("%Y-%m-%d").to_string()
}

/// A date that reading the clock gives. Nothing but a call of `today` shows that
/// a text is one.
pub closed spec fn read_from_clock(date: Seq<char>) -> bool {
    exists|reading: String| #[trigger] call_ensures(today, (), reading) && reading@ == date
}

/// Calls a function and keeps the fact that the result came from the call.
fn reading_of<F: Fn() -> String>(clock: F) -> (reading: String)
    requires
        call_requires(clock, ()),
    ensures
        call_ensures(clock, (), reading),
{
    clock()
}

/// The date of today, as the clock gives it.
fn read_clock() -> (date: String)
    ensures
        is_date(date@),
        read_from_clock(date@),
{
    reading_of(today)
}

/// The two logs that are kept.
#[derive(Debug, Clone, Copy, PartialEq, Eq, Structural)]
pub enum LogKind {
    /// The log of the backend's web interface.
    Gui,
    /// The log of the launcher itself.
    Launcher,
}

impl LogKind {
    /// The end of the file names of this kind of log.
    pub open spec fn suffix(self) -> Seq<char> {
        match self {
            LogKind::Gui => "_gui.txt"@,
            LogKind::Launcher => "_launcher.txt"@,
        }
    }

    /// The name under which the log is spoken of.
    pub fn display_name(self) -> (name: &'static str)
        ensures
            self == LogKind::Gui ==> name@ == "GUI"@,
            self == LogKind::Launcher ==> name@ == "launcher"@,
    {
        match self {
            LogKind::Gui => "GUI",
            LogKind::Launcher => "launcher",
        }
    }

    /// The name of the log file for a date.
    pub fn filename(self, date: &str) -> (name: String)
        ensures
            name@ == date@ + self.suffix(),
    {
        let mut name = date.to_owned();
        match self {
            LogKind::Gui => name.append("_gui.txt"),
            LogKind::Launcher => name.append("_launcher.txt"),
        }
        name
    }
}

/// Whether a text is the file name of a log for some date.
pub open spec fn is_log_filename(kind: LogKind, name: Seq<char>) -> bool {
    exists|date: Seq<char>| #[trigger] is_date(date) && name == date + kind.suffix()
}

/// Whether a text is the file name of a log for the date that the clock gives.
pub open spec fn is_todays_log_filename(kind: LogKind, name: Seq<char>) -> bool {
    exists|date: Seq<char>| #[trigger]
        read_from_clock(date) && is_date(date) && name == date + kind.suffix()
}

/// The name of today's log of the web interface.
pub fn today_gui_log_filename() -> (name: String)
    ensures
        is_log_filename(LogKind::Gui, name@),
        is_todays_log_filename(LogKind::Gui, name@),
{
    let date = read_clock();
    LogKind::Gui.filename(date.as_str())
}

/// The name of today's log of the launcher.
pub fn today_launcher_log_filename() -> (name: String)
    ensures
        is_log_filename(LogKind::Launcher, name@),
        is_todays_log_filename(LogKind::Launcher, name@),
{
    let date = read_clock();
    LogKind::Launcher.filename(date.as_str())
}

/// A log file lies directly in the log directory: its name is not empty and
/// holds no path separator and no drive colon.
pub proof fn law_log_filename_is_plain(kind: LogKind, name: Seq<char>)
    requires
        is_log_filename(kind, name),
    ensures
        name.len() > 0,
        forall|i: int|
            0 <= i < name.len() ==> #[trigger] name[i] != '/' && name[i] != '\\' && name[i] != ':',
{
    reveal_strlit("_gui.txt");
    reveal_strlit("_launcher.txt");
    let date = choose|date: Seq<char>| #[trigger] is_date(date) && name == date + kind.suffix();
    let end = date.len() - 6;
    assert forall|i: int| 0 <= i < name.len() implies #[trigger] name[i] != '/' && name[i] != '\\'
        && name[i] != ':' by {
        if i < date.len() {
            assert(name[i] == date[i]);
            if i < end {
                assert(date.take(end)[i] == date[i]);
            } else {
                assert(i == end || i == end + 1 || i == end + 2 || i == end + 3 || i == end + 4
                    || i == end + 5);
            }
        } else {
            assert(name[i] == kind.suffix()[i - date.len()]);
        }
    }
}

/// Today's logs are named by the date that the clock gives: that date stands first,
/// in full, and nothing follows it but the kind of the log.
pub proof fn law_todays_log_is_named_by_the_clock(gui: String, launcher: String)
    requires
        call_ensures(today_gui_log_filename, (), gui),
        call_ensures(today_launcher_log_filename, (), launcher),
    ensures
        exists|date: Seq<char>| #[trigger]
            read_from_clock(date) && is_date(date) && gui@ == date + "_gui.txt"@,
        exists|date: Seq<char>| #[trigger]
            read_from_clock(date) && is_date(date) && launcher@ == date + "_launcher.txt"@,
{
}

/// The name of a log tells its date and its kind: logs of different dates or
/// kinds have different names, and the name is the date and the kind alone.
pub proof fn law_log_filename_tells_date_and_kind(
    kind: LogKind,
    date: &str,
    name: String,
    other_date: &str,
    other_name: String,
)
    requires
        call_ensures(LogKind::filename, (kind, date), name),
        call_ensures(LogKind::filename, (kind, other_date), other_name),
    ensures
        date@.is_prefix_of(name@),
        kind == LogKind::Gui ==> name@.skip(date@.len() as int) == "_gui.txt"@,
        kind == LogKind::Launcher ==> name@.skip(date@.len() as int) == "_launcher.txt"@,
        name@ == other_name@ ==> date@ == other_date@,
{
    assert(name@.take(date@.len() as int) =~= date@);
    assert(other_name@.take(other_date@.len() as int) =~= other_date@);
    assert(name@.skip(date@.len() as int) =~= kind.suffix());
}

/// The two logs are spoken of by the names that the user knows them by.
pub proof fn law_logs_are_spoken_of_by_name(gui: &'static str, launcher: &'static str)
    requires
        call_ensures(LogKind::display_name, (LogKind::Gui,), gui),
        call_ensures(LogKind::display_name, (LogKind::Launcher,), launcher),
    ensures
        gui@ == "GUI"@,
        launcher@ == "launcher"@,
{
}

/// The two logs of a day have different names.
pub proof fn law_logs_of_a_day_differ(date: Seq<char>)
    ensures
        date + LogKind::Gui.suffix() != date + LogKind::Launcher.suffix(),
{
    reveal_strlit("_gui.txt");
    reveal_strlit("_launcher.txt");
    assert((date + LogKind::Gui.suffix()).len() != (date + LogKind::Launcher.suffix()).len());
}

} // verus!
