use vstd::prelude::*;
use vstd::string::StringExecFns;

verus! {

#[verifier::external_type_specification]
pub struct ExLevelFilter(log::LevelFilter);

#[verifier::external_type_specification]
pub struct ExLevel(log::Level);

/// Name of the log file, in the temporary directory.
pub const LOG_PATH: &'static str = "sseClock.log";

/// Name that a full log file is moved to.
pub const LOG_PATH_BAK: &'static str = "sseClock.log.bak";

/// Size in bytes from which the log file is rotated.
pub const MAX_LOG_SIZE: u64 = 10 * 1024 * 1024;

/// Target of this library's own log records.
pub const LOG_TARGET: &'static str = "sse_clock";

/// The name of a level filter, in capitals.
pub open spec fn filter_name(f: log::LevelFilter) -> Seq<char> {
    match f {
        log::LevelFilter::Off => seq!['O', 'F', 'F'],
        log::LevelFilter::Error => seq!['E', 'R', 'R', 'O', 'R'],
        log::LevelFilter::Warn => seq!['W', 'A', 'R', 'N'],
        log::LevelFilter::Info => seq!['I', 'N', 'F', 'O'],
        log::LevelFilter::Debug => seq!['D', 'E', 'B', 'U', 'G'],
        log::LevelFilter::Trace => seq!['T', 'R', 'A', 'C', 'E'],
    }
}

/// Whether `c` is the capital letter `upper` or its lower-case form.
pub open spec fn same_letter(c: char, upper: char) -> bool {
    c == upper || c as u32 == upper as u32 + 32
}

/// Whether `s` spells the capitalised name `name`, in any ASCII case.
pub open spec fn spells(s: Seq<char>, name: Seq<char>) -> bool {
    s.len() == name.len() && forall|i: int| 0 <= i < s.len() ==> same_letter(s[i], name[i])
}

/// The level filter that `s` names, in any ASCII case.
pub open spec fn named_filter(s: Seq<char>) -> Option<log::LevelFilter> {
    if spells(s, filter_name(log::LevelFilter::Off)) {
        Some(log::LevelFilter::Off)
    } else if spells(s, filter_name(log::LevelFilter::Error)) {
        Some(log::LevelFilter::Error)
    } else if spells(s, filter_name(log::LevelFilter::Warn)) {
        Some(log::LevelFilter::Warn)
    } else if spells(s, filter_name(log::LevelFilter::Info)) {
        Some(log::LevelFilter::Info)
    } else if spells(s, filter_name(log::LevelFilter::Debug)) {
        Some(log::LevelFilter::Debug)
    } else if spells(s, filter_name(log::LevelFilter::Trace)) {
        Some(log::LevelFilter::Trace)
    } else {
        None
    }
}

/// Relies on `FromStr for log::LevelFilter`: accepts the six level names
/// in any ASCII case and nothing else.
#[verifier::external_body]
fn parse_level_filter(s: &str) -> (r: Option<log::LevelFilter>)
    ensures
        r == named_filter(s@),
{
    s.parse::<log::LevelFilter>().ok()
}

/// How verbose a level filter is: `Off` is 0, `Trace` is 5.
pub open spec fn filter_rank(f: log::LevelFilter) -> int {
    match f {
        log::LevelFilter::Off => 0,
        log::LevelFilter::Error => 1,
        log::LevelFilter::Warn => 2,
        log::LevelFilter::Info => 3,
        log::LevelFilter::Debug => 4,
        log::LevelFilter::Trace => 5,
    }
}

/// How verbose a level is: `Error` is 1, `Trace` is 5, as the filter of the
/// same name.
pub open spec fn level_rank(l: log::Level) -> int {
    match l {
        log::Level::Error => 1,
        log::Level::Warn => 2,
        log::Level::Info => 3,
        log::Level::Debug => 4,
        log::Level::Trace => 5,
    }
}

fn filter_rank_of(f: log::LevelFilter) -> (r: u8)
    ensures
        r == filter_rank(f),
{
    match f {
        log::LevelFilter::Off => 0,
        log::LevelFilter::Error => 1,
        log::LevelFilter::Warn => 2,
        log::LevelFilter::Info => 3,
        log::LevelFilter::Debug => 4,
        log::LevelFilter::Trace => 5,
    }
}

fn level_rank_of(l: log::Level) -> (r: u8)
    ensures
        r == level_rank(l),
{
    match l {
        log::Level::Error => 1,
        log::Level::Warn => 2,
        log::Level::Info => 3,
        log::Level::Debug => 4,
        log::Level::Trace => 5,
    }
}

/// The level filter asked for by the text `setting` (the `RUST_LOG`
/// setting), `Info` when it is absent or names no level.
pub open spec fn filter_setting(setting: Option<Seq<char>>) -> log::LevelFilter {
    match setting {
        Some(s) => match named_filter(s) {
            Some(f) => f,
            None => log::LevelFilter::Info,
        },
        None => log::LevelFilter::Info,
    }
}

/// Whether a record of `level` from `target` is kept by a logger at
/// `filter`: this library's own records up to the filter, and warnings and
/// errors from anywhere.
pub open spec fn keeps(filter: log::LevelFilter, target: Seq<char>, level: log::Level) -> bool {
    (target == LOG_TARGET@ && level_rank(level) <= filter_rank(filter)) || level_rank(level)
        <= level_rank(log::Level::Warn)
}

/// Where and how much this program logs.
#[derive(Debug)]
pub struct SseLogger {
    level: log::LevelFilter,
    has_console: bool,
    log_dir: Option<String>,
}

impl SseLogger {
    /// A logger at the level that `setting` names (`Info` by default), that
    /// writes to the console when `has_console`, and to a file in `log_dir`
    /// when there is one.
    pub fn new(setting: Option<&str>, has_console: bool, log_dir: Option<String>) -> (r: SseLogger)
        ensures
            r.get_level_spec() == filter_setting(
                match setting {
                    Some(s) => Some(s@),
                    None => None,
                },
            ),
            r.has_console_spec() == has_console,
            r.log_dir_spec() == log_dir,
    {
        let level = match setting {
            Some(s) => match parse_level_filter(s) {
                Some(f) => f,
                None => log::LevelFilter::Info,
            },
            None => log::LevelFilter::Info,
        };
        SseLogger { level, has_console, log_dir }
    }

    /// The level filter.
    pub closed spec fn get_level_spec(&self) -> log::LevelFilter {
        self.level
    }

    /// Whether records go to the console.
    pub closed spec fn has_console_spec(&self) -> bool {
        self.has_console
    }

    /// The directory of the log file, if records go to one.
    pub closed spec fn log_dir_spec(&self) -> Option<String> {
        self.log_dir
    }

    /// Whether records go to the console.
    pub fn has_console(&self) -> (r: bool)
        ensures
            r == self.has_console_spec(),
    {
        self.has_console
    }

    /// The level filter.
    pub fn get_level(&self) -> (r: log::LevelFilter)
        ensures
            r == self.get_level_spec(),
    {
        self.level
    }

    /// The directory of the log file, if records go to one.
    pub fn log_dir(&self) -> (r: Option<&str>)
        ensures
            r matches Some(d) ==> self.log_dir_spec() matches Some(dir) && d@ == dir@,
            r is None <==> self.log_dir_spec() is None,
    {
        match &self.log_dir {
            Some(d) => Some(d.as_str()),
            None => None,
        }
    }

    /// Whether a record of `level` from `target` is logged.
    pub fn enabled(&self, target: &str, level: log::Level) -> (r: bool)
        ensures
            r == keeps(self.get_level_spec(), target@, level),
    {
        let rank = level_rank_of(level);
        let own = String::from_str(target) == String::from_str(LOG_TARGET);
        (own && rank <= filter_rank_of(self.level)) || rank <= 2
    }
}

/// Whether a log file of `size` bytes is moved aside before the next record.
pub fn needs_rotation(size: u64) -> (r: bool)
    ensures
        r == (size >= MAX_LOG_SIZE),
{
    size >= MAX_LOG_SIZE
}

} // verus!
