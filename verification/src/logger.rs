//! The rotating log file: when it is stale, what a fresh one holds, and how
//! a line is written.
//!
//! Points in time are whole seconds of local wall-clock time, counted from
//! 1970-01-01 00:00:00. The calendar arithmetic between such a count and
//! its text is chrono's.

use std::fmt::Write;
use vstd::prelude::*;

verus! {

/// chrono's parse error, carried through unopened.
#[verifier::external_type_specification]
#[verifier::external_body]
pub struct ExChronoParseError(chrono::format::ParseError);

/// Why a header line gave no creation time.
#[derive(Debug)]
pub enum HeaderError {
    /// The text after the prefix is no timestamp.
    ParseError(chrono::format::ParseError),
    /// The line does not start with the header prefix.
    MissingPrefixError,
}

/// The kinds of I/O failure that the log writer tells apart.
#[derive(Clone, Copy, Debug, PartialEq, Eq, Structural)]
pub enum IoKind {
    /// The log file exists and holds no line.
    UnexpectedEof,
    /// The moment to be written lies outside the calendar.
    InvalidInput,
}

/// Why the log writer could not do what it was asked.
#[derive(Debug)]
pub enum LoggerError {
    /// The file, or the moment to be written, is not fit for the
    /// operation.
    IOError(IoKind),
    /// The header of the log file cannot be read; the file is never
    /// replaced on that account.
    DateTimeParseError(HeaderError),
}

/// What was found where the log file should be.
pub enum LogHead {
    /// No file.
    Missing,
    /// A file without a first line.
    Empty,
    /// The file's first line, without its line break.
    FirstLine(String),
}

/// The creation time that `text` spells in the layout `format`, as chrono's
/// `NaiveDateTime::parse_from_str` reads it; `None` where chrono rejects
/// the text.
pub uninterp spec fn timestamp_of(text: Seq<char>, format: Seq<char>) -> Option<int>;

/// The text that chrono's formatter writes for a point in time in the
/// layout `format`; `None` where the point lies outside chrono's calendar
/// or the formatter fails.
pub uninterp spec fn timestamp_text(seconds: int, format: Seq<char>) -> Option<Seq<char>>;

/// Reads a timestamp with `chrono::NaiveDateTime::parse_from_str` and
/// counts its seconds with `and_utc().timestamp()`. The contract names the
/// outcome and says when chrono accepted the text; nothing of chrono's
/// grammar is stated here.
#[verifier::external_body]
fn parse_naive(text: &str, format: &str) -> (res: Result<i64, chrono::format::ParseError>)
    ensures
        res matches Ok(t) ==> timestamp_of(text@, format@) == Some(t as int),
        res is Err ==> timestamp_of(text@, format@) is None,
{
    match chrono::NaiveDateTime::parse_from_str(text, format) {
        Ok(t) => Ok(t.and_utc().timestamp()),
        Err(e) => Err(e),
    }
}

/// Writes a point in time with `chrono::DateTime::from_timestamp` and
/// `NaiveDateTime::format`. The contract names the outcome; a count that
/// chrono's calendar does not hold, or a layout its formatter refuses,
/// gives `None`.
#[verifier::external_body]
fn format_naive(seconds: i64, format: &str) -> (res: Option<String>)
    ensures
        res matches Some(text) ==> timestamp_text(seconds as int, format@) == Some(text@),
        res is None ==> timestamp_text(seconds as int, format@) is None,
{
    match chrono::DateTime::from_timestamp(seconds, 0) {
        Some(t) => {
            let mut text = String::new();
            match write!(text, "{}", t.naive_utc().format(format)) {
                Ok(_) => Some(text),
                Err(_) => None,
            }
        },
        None => None,
    }
}

/// The text of chrono's parse error, as its `Display` writes it. Nothing
/// is promised of the text.
#[verifier::external_body]
fn parse_error_text(error: &chrono::format::ParseError) -> (text: String)
{
    error.to_string()
}

/// The local wall-clock time of the machine (`chrono::Local::now()`), in
/// seconds. Nothing is promised of the value: it is the clock's.
#[verifier::external_body]
fn local_now() -> (seconds: i64)
{
    chrono::Local::now().naive_local().and_utc().timestamp()
}

/// The layout of every timestamp in the log: `YYYY-MM-DD HH:MM:SS`.
pub open spec fn timestamp_format() -> Seq<char> {
    "%Y-%m-%d %H:%M:%S"@
}

/// What precedes the creation time in the first line of a log file.
pub open spec fn header_prefix() -> Seq<char> {
    "LOG CREATED AT: "@
}

/// The age beyond which a log file is replaced: 24 hours, in seconds.
pub const MAX_AGE_SECONDS: i64 = 86400;

/// A log created at `created` is stale at `now` when more than 24 hours lie
/// between the two.
pub open spec fn stale(now: int, created: int) -> bool {
    now - created > 86400
}

/// The first line of a log file created at the time that `stamp` spells.
pub open spec fn header_line(stamp: Seq<char>) -> Seq<char> {
    header_prefix() + stamp + seq!['\n']
}

/// The line that records `message` at the time that `stamp` spells.
pub open spec fn entry_line(stamp: Seq<char>, message: Seq<char>) -> Seq<char> {
    seq!['['] + stamp + seq![']', ' ', '>', ' '] + message + seq!['\n']
}

/// The text after the prefix of a header line.
pub open spec fn header_rest(line: Seq<char>) -> Seq<char> {
    line.subrange(header_prefix().len() as int, line.len() as int)
}

/// Whether a log created at `created` must be replaced at `now`.
pub fn is_stale(now: i64, created: i64) -> (verdict: bool)
    ensures
        verdict == stale(now as int, created as int),
{
    (now as i128) - (created as i128) > (MAX_AGE_SECONDS as i128)
}

/// Splits the prefix off a header line; `None` where the line does not
/// start with it.
pub fn strip_header_prefix(line: &str) -> (rest: Option<&str>)
    ensures
        match rest {
            Some(r) => header_prefix().is_prefix_of(line@) && r@ == header_rest(line@),
            None => !header_prefix().is_prefix_of(line@),
        },
{
    let prefix = "LOG CREATED AT: ";
    let width = prefix.unicode_len();
    let total = line.unicode_len();
    if total < width {
        return None;
    }
    let mut i: usize = 0;
    while i < width
        invariant
            i <= width,
            width == prefix@.len(),
            prefix@ == header_prefix(),
            total == line@.len(),
            width <= total,
            forall|k: int| 0 <= k < i ==> line@[k] == prefix@[k],
        decreases width - i,
    {
        if line.get_char(i) != prefix.get_char(i) {
            proof {
                let head = line@.subrange(0, prefix@.len() as int);
                assert(head[i as int] != prefix@[i as int]);
                assert(prefix@ != head);
            }
            return None;
        }
        i += 1;
    }
    assert(prefix@ =~= line@.subrange(0, width as int));
    Some(line.substring_char(width, total))
}

/// The first line of a fresh log file.
pub fn make_header(stamp: &str) -> (line: String)
    ensures
        line@ == header_line(stamp@),
{
    let mut line = String::from_str("LOG CREATED AT: ");
    line.append(stamp);
    line.append("\n");
    proof {
        reveal_strlit("\n");
        assert(line@ =~= header_line(stamp@));
    }
    line
}

/// The line that records a message.
pub fn make_entry(stamp: &str, message: &str) -> (line: String)
    ensures
        line@ == entry_line(stamp@, message@),
{
    let mut line = String::from_str("[");
    line.append(stamp);
    line.append("] > ");
    line.append(message);
    line.append("\n");
    proof {
        reveal_strlit("[");
        reveal_strlit("] > ");
        reveal_strlit("\n");
        assert(line@ =~= entry_line(stamp@, message@));
    }
    line
}

impl IoKind {
    /// The failure in words.
    pub fn describe(self) -> (text: String)
        ensures
            text@ == match self {
                IoKind::UnexpectedEof => "Log File Is Empty"@,
                IoKind::InvalidInput => "Time Is Out Of Range"@,
            },
    {
        match self {
            IoKind::UnexpectedEof => String::from_str("Log File Is Empty"),
            IoKind::InvalidInput => String::from_str("Time Is Out Of Range"),
        }
    }
}

impl HeaderError {
    /// The failure in words: chrono's own for a timestamp it refused.
    pub fn describe(&self) -> (text: String)
        ensures
            self is MissingPrefixError ==> text@ == "Missing DateTime Prefix"@,
    {
        match self {
            HeaderError::ParseError(error) => parse_error_text(error),
            HeaderError::MissingPrefixError => String::from_str("Missing DateTime Prefix"),
        }
    }
}

impl LoggerError {
    /// The failure in words, after a word on its kind.
    pub fn describe(&self) -> (text: String)
        ensures
            match *self {
                LoggerError::IOError(kind) => text@ == "I/O Error: "@ + match kind {
                    IoKind::UnexpectedEof => "Log File Is Empty"@,
                    IoKind::InvalidInput => "Time Is Out Of Range"@,
                },
                LoggerError::DateTimeParseError(HeaderError::MissingPrefixError) => text@
                    == "Error parsing NaiveDateTime: "@ + "Missing DateTime Prefix"@,
                LoggerError::DateTimeParseError(HeaderError::ParseError(_)) =>
                    "Error parsing NaiveDateTime: "@.is_prefix_of(text@),
            },
    {
        match self {
            LoggerError::IOError(kind) => {
                let mut text = String::from_str("I/O Error: ");
                let inner = kind.describe();
                text.append(inner.as_str());
                text
            },
            LoggerError::DateTimeParseError(error) => {
                let mut text = String::from_str("Error parsing NaiveDateTime: ");
                let inner = error.describe();
                text.append(inner.as_str());
                assert("Error parsing NaiveDateTime: "@ =~= text@.subrange(
                    0,
                    "Error parsing NaiveDateTime: "@.len() as int,
                ));
                text
            },
        }
    }
}

/// The log writer's memory: when the log file at hand was created.
pub struct Logger {
    timestamp: i64,
}

impl Logger {
    /// The creation time of the log file at hand.
    pub closed spec fn created_at(&self) -> int {
        self.timestamp as int
    }

    /// What a freshness check at `now` owes: the verdict for each state of
    /// the file, and the creation time that the writer remembers afterwards.
    /// A missing file asks for rotation; a header that cannot be read is an
    /// error and never a rotation; a readable one is stale after 24 hours,
    /// and is remembered when it is not.
    pub open spec fn checked(
        pre: Logger,
        post: Logger,
        head: LogHead,
        now: int,
        res: Result<bool, LoggerError>,
    ) -> bool {
        match head {
            LogHead::Missing => res == Ok::<bool, LoggerError>(true) && post.created_at()
                == pre.created_at(),
            LogHead::Empty => res == Err::<bool, LoggerError>(
                LoggerError::IOError(IoKind::UnexpectedEof),
            ) && post.created_at() == pre.created_at(),
            LogHead::FirstLine(line) => if !header_prefix().is_prefix_of(line@) {
                res == Err::<bool, LoggerError>(
                    LoggerError::DateTimeParseError(HeaderError::MissingPrefixError),
                ) && post.created_at() == pre.created_at()
            } else {
                match timestamp_of(header_rest(line@), timestamp_format()) {
                    None => res matches Err(
                        LoggerError::DateTimeParseError(HeaderError::ParseError(_)),
                    ) && post.created_at() == pre.created_at(),
                    Some(created) => res == Ok::<bool, LoggerError>(stale(now, created))
                        && post.created_at() == if stale(now, created) {
                        pre.created_at()
                    } else {
                        created
                    },
                }
            },
        }
    }

    /// What a rotation at `now` owes: the whole content of the fresh file,
    /// which is its header line, and `now` as the remembered creation time.
    /// A clock reading that has no text leaves nothing to write.
    pub open spec fn rotated(
        pre: Logger,
        post: Logger,
        now: int,
        res: Result<String, LoggerError>,
    ) -> bool {
        match timestamp_text(now, timestamp_format()) {
            Some(stamp) => res matches Ok(contents) && contents@ == header_line(stamp)
                && post.created_at() == now,
            None => res == Err::<String, LoggerError>(LoggerError::IOError(IoKind::InvalidInput))
                && post.created_at() == pre.created_at(),
        }
    }

    /// What an update at `now` owes: a fresh file where the old one is
    /// missing or stale, nothing to write where it is young enough, and an
    /// error, with nothing changed, where its header cannot be read.
    pub open spec fn updated(
        pre: Logger,
        post: Logger,
        head: LogHead,
        now: int,
        res: Result<Option<String>, LoggerError>,
    ) -> bool {
        match head {
            LogHead::Missing => Self::replaced(pre, post, now, res),
            LogHead::Empty => res == Err::<Option<String>, LoggerError>(
                LoggerError::IOError(IoKind::UnexpectedEof),
            ) && post.created_at() == pre.created_at(),
            LogHead::FirstLine(line) => if !header_prefix().is_prefix_of(line@) {
                res == Err::<Option<String>, LoggerError>(
                    LoggerError::DateTimeParseError(HeaderError::MissingPrefixError),
                ) && post.created_at() == pre.created_at()
            } else {
                match timestamp_of(header_rest(line@), timestamp_format()) {
                    None => res matches Err(
                        LoggerError::DateTimeParseError(HeaderError::ParseError(_)),
                    ) && post.created_at() == pre.created_at(),
                    Some(created) => if stale(now, created) {
                        Self::replaced(pre, post, now, res)
                    } else {
                        res == Ok::<Option<String>, LoggerError>(None) && post.created_at()
                            == created
                    },
                }
            },
        }
    }

    /// What an update that rotates owes: the content of the fresh file.
    pub open spec fn replaced(
        pre: Logger,
        post: Logger,
        now: int,
        res: Result<Option<String>, LoggerError>,
    ) -> bool {
        match timestamp_text(now, timestamp_format()) {
            Some(stamp) => res matches Ok(Some(contents)) && contents@ == header_line(stamp)
                && post.created_at() == now,
            None => res == Err::<Option<String>, LoggerError>(
                LoggerError::IOError(IoKind::InvalidInput),
            ) && post.created_at() == pre.created_at(),
        }
    }

    /// What writing `message` at `now` owes: the line to append.
    pub open spec fn logged(message: Seq<char>, now: int, res: Result<String, LoggerError>) -> bool {
        match timestamp_text(now, timestamp_format()) {
            Some(stamp) => res matches Ok(line) && line@ == entry_line(stamp, message),
            None => res == Err::<String, LoggerError>(LoggerError::IOError(IoKind::InvalidInput)),
        }
    }

    /// Where the log file is kept.
    pub fn log_path() -> (path: String)
        ensures
            path@ == "/home/kwunch/Documents/Rust/vpn_handler/log.txt"@,
    {
        String::from_str("/home/kwunch/Documents/Rust/vpn_handler/log.txt")
    }

    /// A writer that takes the present moment for the creation time, until
    /// a freshness check or a rotation tells it better.
    pub fn new() -> (logger: Logger) {
        Logger { timestamp: local_now() }
    }

    /// A writer for a log file created at `created`.
    pub fn created(created: i64) -> (logger: Logger)
        ensures
            logger.created_at() == created,
    {
        Logger { timestamp: created }
    }

    /// The creation time of the log file at hand.
    pub fn timestamp(&self) -> (created: i64)
        ensures
            created == self.created_at(),
    {
        self.timestamp
    }

    /// Brings the log file up to date at the present moment: `Some` with
    /// the content of the fresh file where the old one is missing or stale.
    pub fn update(&mut self, head: &LogHead) -> (res: Result<Option<String>, LoggerError>)
        ensures
            exists|now: i64| Self::updated(*old(self), *final(self), *head, now as int, res),
    {
        let now = local_now();
        self.update_at(head, now)
    }

    /// Brings the log file up to date at `now`.
    pub fn update_at(&mut self, head: &LogHead, now: i64) -> (res: Result<
        Option<String>,
        LoggerError,
    >)
        ensures
            Self::updated(*old(self), *final(self), *head, now as int, res),
    {
        let verdict = self.rotate_needed_at(head, now);
        match verdict {
            Ok(true) => {
                let fresh = self.rotate_logs_at(now);
                match fresh {
                    Ok(contents) => Ok(Some(contents)),
                    Err(e) => Err(e),
                }
            },
            Ok(false) => Ok(None),
            Err(e) => Err(e),
        }
    }

    /// Whether the log file must be replaced at the present moment.
    pub fn rotate_needed(&mut self, head: &LogHead) -> (res: Result<bool, LoggerError>)
        ensures
            exists|now: i64| Self::checked(*old(self), *final(self), *head, now as int, res),
    {
        let now = local_now();
        self.rotate_needed_at(head, now)
    }

    /// Whether the log file must be replaced at `now`.
    pub fn rotate_needed_at(&mut self, head: &LogHead, now: i64) -> (res: Result<
        bool,
        LoggerError,
    >)
        ensures
            Self::checked(*old(self), *final(self), *head, now as int, res),
    {
        match head {
            LogHead::Missing => Ok(true),
            LogHead::Empty => Err(LoggerError::IOError(IoKind::UnexpectedEof)),
            LogHead::FirstLine(line) => {
                match strip_header_prefix(line.as_str()) {
                    None => Err(LoggerError::DateTimeParseError(HeaderError::MissingPrefixError)),
                    Some(rest) => {
                        let parsed = parse_naive(rest, "%Y-%m-%d %H:%M:%S");
                        self.settle(parsed, now)
                    },
                }
            },
        }
    }

    /// The verdict on a header whose timestamp chrono has read, or refused.
    pub fn settle(&mut self, parsed: Result<i64, chrono::format::ParseError>, now: i64) -> (res:
        Result<bool, LoggerError>)
        ensures
            match parsed {
                Ok(created) => res == Ok::<bool, LoggerError>(stale(now as int, created as int))
                    && final(self).created_at() == if stale(now as int, created as int) {
                    old(self).created_at()
                } else {
                    created as int
                },
                Err(e) => res == Err::<bool, LoggerError>(
                    LoggerError::DateTimeParseError(HeaderError::ParseError(e)),
                ) && final(self).created_at() == old(self).created_at(),
            },
    {
        match parsed {
            Ok(created) => {
                if is_stale(now, created) {
                    Ok(true)
                } else {
                    self.timestamp = created;
                    Ok(false)
                }
            },
            Err(e) => Err(LoggerError::DateTimeParseError(HeaderError::ParseError(e))),
        }
    }

    /// Starts a fresh log file at the present moment and returns its whole
    /// content.
    pub fn rotate_logs(&mut self) -> (res: Result<String, LoggerError>)
        ensures
            exists|now: i64| Self::rotated(*old(self), *final(self), now as int, res),
    {
        let now = local_now();
        self.rotate_logs_at(now)
    }

    /// Starts a fresh log file at `now` and returns its whole content.
    pub fn rotate_logs_at(&mut self, now: i64) -> (res: Result<String, LoggerError>)
        ensures
            Self::rotated(*old(self), *final(self), now as int, res),
    {
        match format_naive(now, "%Y-%m-%d %H:%M:%S") {
            Some(stamp) => {
                self.timestamp = now;
                Ok(make_header(stamp.as_str()))
            },
            None => Err(LoggerError::IOError(IoKind::InvalidInput)),
        }
    }

    /// The line that records `msg` at the present moment, ready to be
    /// appended to the log file.
    pub fn log(&self, msg: &String) -> (res: Result<String, LoggerError>)
        ensures
            exists|now: i64| Self::logged(msg@, now as int, res),
    {
        let now = local_now();
        Self::log_at(msg, now)
    }

    /// The line that records `msg` at `now`.
    pub fn log_at(msg: &String, now: i64) -> (res: Result<String, LoggerError>)
        ensures
            Self::logged(msg@, now as int, res),
    {
        match format_naive(now, "%Y-%m-%d %H:%M:%S") {
            Some(stamp) => Ok(make_entry(stamp.as_str(), msg.as_str())),
            None => Err(LoggerError::IOError(IoKind::InvalidInput)),
        }
    }
}

/// The 24-hour boundary: one second past it a log is stale, one minute
/// short of it it is not.
pub proof fn lemma_rotation_boundary(now: int)
    ensures
        stale(now, now - (86400 + 1)),
        !stale(now, now - 86400),
        !stale(now, now - (86400 - 60)),
{
}

/// Staleness only grows: a log that is stale stays stale at every later
/// moment, and an older log is stale whenever a younger one is.
pub proof fn lemma_stale_monotone(now: int, later: int, created: int, earlier: int)
    requires
        now <= later,
        earlier <= created,
        stale(now, created),
    ensures
        stale(later, created),
        stale(now, earlier),
{
}

} // verus!
