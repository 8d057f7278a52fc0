use vstd::prelude::*;

use crate::numfmt::all_dec_digits;
use crate::numfmt::dec_val;
use crate::numfmt::parse_u64;

verus! {

/// A validated run configuration: the Job Source and the pool, timeout
/// and retry settings.
pub struct Config {
    pub urls: Vec<String>,
    pub workers: usize,
    pub timeout_secs: u64,
    pub retries: u32,
}

impl Config {
    /// The Job Source is non-empty, the pool has at least one worker,
    /// and each attempt gets a positive timeout.
    pub open spec fn wf(&self) -> bool {
        &&& self.urls@.len() >= 1
        &&& self.workers >= 1
        &&& self.timeout_secs >= 1
    }
}

/// Why a configuration was rejected. Every variant is surfaced to the
/// caller before any worker starts.
#[derive(Debug, Clone, PartialEq, Eq)]
pub enum ConfigError {
    /// `--file` stood last, with no path after it.
    MissingFileValue,
    /// `--workers` stood last, with no value after it.
    MissingWorkersValue,
    /// `--timeout` stood last, with no value after it.
    MissingTimeoutValue,
    /// `--retries` stood last, with no value after it.
    MissingRetriesValue,
    /// The value after `--workers` is not a positive integer that fits.
    InvalidWorkers,
    /// The value after `--timeout` is not a positive integer that fits.
    InvalidTimeout,
    /// The value after `--retries` is not a non-negative integer that fits.
    InvalidRetries,
    /// An option the program does not know.
    UnknownOption(String),
    /// No URL was given, on the command line or in the file.
    NoUrls,
}

/// The shape of a `ConfigError`, its text as a character sequence, for
/// use in contracts.
pub enum ConfigErrKind {
    MissingFileValue,
    MissingWorkersValue,
    MissingTimeoutValue,
    MissingRetriesValue,
    InvalidWorkers,
    InvalidTimeout,
    InvalidRetries,
    UnknownOption(Seq<char>),
    NoUrls,
}

impl ConfigError {
    pub open spec fn kind(&self) -> ConfigErrKind {
        match self {
            ConfigError::MissingFileValue => ConfigErrKind::MissingFileValue,
            ConfigError::MissingWorkersValue => ConfigErrKind::MissingWorkersValue,
            ConfigError::MissingTimeoutValue => ConfigErrKind::MissingTimeoutValue,
            ConfigError::MissingRetriesValue => ConfigErrKind::MissingRetriesValue,
            ConfigError::InvalidWorkers => ConfigErrKind::InvalidWorkers,
            ConfigError::InvalidTimeout => ConfigErrKind::InvalidTimeout,
            ConfigError::InvalidRetries => ConfigErrKind::InvalidRetries,
            ConfigError::UnknownOption(arg) => ConfigErrKind::UnknownOption(arg@),
            ConfigError::NoUrls => ConfigErrKind::NoUrls,
        }
    }
}

/// What the argument walk gathers: positional URLs in order, the last
/// value of each recognized option, and the last `--file` path.
#[derive(Debug)]
pub struct ParsedArgs {
    pub urls: Vec<String>,
    pub workers: Option<usize>,
    pub timeout_secs: Option<u64>,
    pub retries: Option<u32>,
    pub file_path: Option<String>,
}

/// The mathematical shape of `ParsedArgs`.
pub struct ArgsModel {
    pub urls: Seq<Seq<char>>,
    pub workers: Option<usize>,
    pub timeout_secs: Option<u64>,
    pub retries: Option<u32>,
    pub file_path: Option<Seq<char>>,
}

impl View for ParsedArgs {
    type V = ArgsModel;

    open spec fn view(&self) -> ArgsModel {
        ArgsModel {
            urls: self.urls.deep_view(),
            workers: self.workers,
            timeout_secs: self.timeout_secs,
            retries: self.retries,
            file_path: match self.file_path {
                Some(path) => Some(path@),
                None => None,
            },
        }
    }
}

pub open spec fn empty_args_model() -> ArgsModel {
    ArgsModel {
        urls: Seq::empty(),
        workers: None,
        timeout_secs: None,
        retries: None,
        file_path: None,
    }
}

/// A token that names an option: it starts with `--`.
pub open spec fn is_option_token(s: Seq<char>) -> bool {
    s.len() >= 2 && s[0] == '-' && s[1] == '-'
}

/// A well-formed `--workers` value: a positive integer of decimal
/// digits that fits a `usize`.
pub open spec fn is_workers_value(s: Seq<char>) -> bool {
    s.len() > 0 && all_dec_digits(s) && 1 <= dec_val(s) <= usize::MAX
}

/// A well-formed `--timeout` value: a positive integer of decimal
/// digits that fits a `u64`.
pub open spec fn is_timeout_value(s: Seq<char>) -> bool {
    s.len() > 0 && all_dec_digits(s) && 1 <= dec_val(s) <= u64::MAX
}

/// A well-formed `--retries` value: a non-negative integer of decimal
/// digits that fits a `u32`.
pub open spec fn is_retries_value(s: Seq<char>) -> bool {
    s.len() > 0 && all_dec_digits(s) && dec_val(s) <= u32::MAX
}

/// One pass over the argument tokens from position `i`: a recognized
/// option consumes its value, any other `--` token is rejected, and
/// every remaining token is a positional URL.
pub open spec fn walk_args(args: Seq<Seq<char>>, i: int, acc: ArgsModel) -> Result<
    ArgsModel,
    ConfigErrKind,
>
    decreases args.len() - i,
{
    if i >= args.len() {
        Ok(acc)
    } else if args[i] == "--file"@ {
        if i + 1 >= args.len() {
            Err(ConfigErrKind::MissingFileValue)
        } else {
            walk_args(args, i + 2, ArgsModel { file_path: Some(args[i + 1]), ..acc })
        }
    } else if args[i] == "--workers"@ {
        if i + 1 >= args.len() {
            Err(ConfigErrKind::MissingWorkersValue)
        } else if is_workers_value(args[i + 1]) {
            walk_args(args, i + 2, ArgsModel { workers: Some(dec_val(args[i + 1]) as usize), ..acc })
        } else {
            Err(ConfigErrKind::InvalidWorkers)
        }
    } else if args[i] == "--timeout"@ {
        if i + 1 >= args.len() {
            Err(ConfigErrKind::MissingTimeoutValue)
        } else if is_timeout_value(args[i + 1]) {
            walk_args(
                args,
                i + 2,
                ArgsModel { timeout_secs: Some(dec_val(args[i + 1]) as u64), ..acc },
            )
        } else {
            Err(ConfigErrKind::InvalidTimeout)
        }
    } else if args[i] == "--retries"@ {
        if i + 1 >= args.len() {
            Err(ConfigErrKind::MissingRetriesValue)
        } else if is_retries_value(args[i + 1]) {
            walk_args(args, i + 2, ArgsModel { retries: Some(dec_val(args[i + 1]) as u32), ..acc })
        } else {
            Err(ConfigErrKind::InvalidRetries)
        }
    } else if is_option_token(args[i]) {
        Err(ConfigErrKind::UnknownOption(args[i]))
    } else {
        walk_args(args, i + 1, ArgsModel { urls: acc.urls.push(args[i]), ..acc })
    }
}

/// Whether this token names an option.
fn is_option_token_exec(s: &String) -> (r: bool)
    ensures
        r == is_option_token(s@),
{
    let n = s.as_str().unicode_len();
    if n < 2 {
        false
    } else {
        let c0 = s.as_str().get_char(0);
        let c1 = s.as_str().get_char(1);
        c0 == '-' && c1 == '-'
    }
}

/// Walks the command-line tokens (program name already dropped) and
/// gathers URLs, option values and the job file path, exactly as
/// `walk_args` describes; the first offending token decides the error.
pub fn parse_args(args: &Vec<String>) -> (r: Result<ParsedArgs, ConfigError>)
    ensures
        r matches Ok(p) ==> walk_args(args.deep_view(), 0, empty_args_model()) == Ok::<
            ArgsModel,
            ConfigErrKind,
        >(p@),
        r matches Err(e) ==> walk_args(args.deep_view(), 0, empty_args_model()) == Err::<
            ArgsModel,
            ConfigErrKind,
        >(e.kind()),
{
    let opt_file = String::from_str("--file");
    let opt_workers = String::from_str("--workers");
    let opt_timeout = String::from_str("--timeout");
    let opt_retries = String::from_str("--retries");
    let mut parsed = ParsedArgs {
        urls: Vec::new(),
        workers: None,
        timeout_secs: None,
        retries: None,
        file_path: None,
    };
    proof {
        assert(parsed.urls.deep_view() =~= Seq::<Seq<char>>::empty());
        assert(parsed@ == empty_args_model());
    }
    let mut i: usize = 0;
    while i < args.len()
        invariant
            i <= args@.len(),
            opt_file@ == "--file"@,
            opt_workers@ == "--workers"@,
            opt_timeout@ == "--timeout"@,
            opt_retries@ == "--retries"@,
            walk_args(args.deep_view(), 0, empty_args_model()) == walk_args(
                args.deep_view(),
                i as int,
                parsed@,
            ),
        decreases args@.len() - i,
    {
        let ghost prev: ArgsModel = parsed@;
        let ghost all: Seq<Seq<char>> = args.deep_view();
        let arg = &args[i];
        if arg.eq(&opt_file) {
            if i + 1 >= args.len() {
                return Err(ConfigError::MissingFileValue);
            }
            parsed.file_path = Some(args[i + 1].clone());
            i = i + 2;
            proof {
                assert(parsed@ == ArgsModel { file_path: Some(all[i - 1]), ..prev });
            }
        } else if arg.eq(&opt_workers) {
            if i + 1 >= args.len() {
                return Err(ConfigError::MissingWorkersValue);
            }
            match parse_u64(args[i + 1].as_str()) {
                Some(v) => {
                    if 1 <= v && v <= usize::MAX as u64 {
                        parsed.workers = Some(v as usize);
                        i = i + 2;
                        proof {
                            assert(is_workers_value(all[i - 1]));
                            assert(parsed@ == ArgsModel {
                                workers: Some(dec_val(all[i - 1]) as usize),
                                ..prev
                            });
                        }
                    } else {
                        return Err(ConfigError::InvalidWorkers);
                    }
                },
                None => {
                    return Err(ConfigError::InvalidWorkers);
                },
            }
        } else if arg.eq(&opt_timeout) {
            if i + 1 >= args.len() {
                return Err(ConfigError::MissingTimeoutValue);
            }
            match parse_u64(args[i + 1].as_str()) {
                Some(v) => {
                    if 1 <= v {
                        parsed.timeout_secs = Some(v);
                        i = i + 2;
                        proof {
                            assert(is_timeout_value(all[i - 1]));
                            assert(parsed@ == ArgsModel {
                                timeout_secs: Some(dec_val(all[i - 1]) as u64),
                                ..prev
                            });
                        }
                    } else {
                        return Err(ConfigError::InvalidTimeout);
                    }
                },
                None => {
                    return Err(ConfigError::InvalidTimeout);
                },
            }
        } else if arg.eq(&opt_retries) {
            if i + 1 >= args.len() {
                return Err(ConfigError::MissingRetriesValue);
            }
            match parse_u64(args[i + 1].as_str()) {
                Some(v) => {
                    if v <= u32::MAX as u64 {
                        parsed.retries = Some(v as u32);
                        i = i + 2;
                        proof {
                            assert(is_retries_value(all[i - 1]));
                            assert(parsed@ == ArgsModel {
                                retries: Some(dec_val(all[i - 1]) as u32),
                                ..prev
                            });
                        }
                    } else {
                        return Err(ConfigError::InvalidRetries);
                    }
                },
                None => {
                    return Err(ConfigError::InvalidRetries);
                },
            }
        } else if is_option_token_exec(arg) {
            return Err(ConfigError::UnknownOption(arg.clone()));
        } else {
            parsed.urls.push(arg.clone());
            i = i + 1;
            proof {
                assert(parsed.urls.deep_view() =~= prev.urls.push(all[i - 1]));
                assert(parsed@ == ArgsModel { urls: prev.urls.push(all[i - 1]), ..prev });
            }
        }
    }
    Ok(parsed)
}

/// What `str::trim` leaves of a line: a function of its characters alone.
pub uninterp spec fn trim_of(s: Seq<char>) -> Seq<char>;

/// Relies on str::trim: returns the line without its leading and
/// trailing whitespace; the result depends on the characters alone.
#[verifier::external_body]
fn trim_line(s: &String) -> (r: String)
    ensures
        r@ == trim_of(s@),
{
    s.trim().to_string()
}

/// Relies on num_cpus::get: the number of logical CPUs available to
/// this process; its documentation promises at least one.
#[verifier::external_body]
fn available_workers() -> (r: usize)
    ensures
        r >= 1,
{
    num_cpus::get()
}

/// A kept job line: non-blank after trimming and not a `#` comment.
pub open spec fn keep_line(t: Seq<char>) -> bool {
    t.len() > 0 && t[0] != '#'
}

/// The URLs taken from the first `i` lines of the job file: each line
/// trimmed, with blank lines and `#` comments dropped.
pub open spec fn kept_lines(lines: Seq<Seq<char>>, i: int) -> Seq<Seq<char>>
    decreases i,
{
    if i <= 0 {
        Seq::empty()
    } else {
        kept_lines(lines, i - 1) + (if keep_line(trim_of(lines[i - 1])) {
            seq![trim_of(lines[i - 1])]
        } else {
            Seq::<Seq<char>>::empty()
        })
    }
}

pub open spec fn lines_view(file_lines: Option<&Vec<String>>) -> Option<Seq<Seq<char>>> {
    match file_lines {
        Some(lines) => Some(lines.deep_view()),
        None => None,
    }
}

/// The full Job Source of a run: the positional URLs in order, then the
/// kept lines of the job file.
pub open spec fn job_source(parsed: ArgsModel, file_lines: Option<Seq<Seq<char>>>) -> Seq<
    Seq<char>,
> {
    match file_lines {
        Some(lines) => parsed.urls + kept_lines(lines, lines.len() as int),
        None => parsed.urls,
    }
}

/// Turns gathered arguments and the job file's lines (when a file was
/// named) into a validated configuration. Fails, with `NoUrls`, exactly
/// when the Job Source comes out empty; option defaults are the host's
/// parallelism, a 5 s timeout and no retries.
pub fn build_config(parsed: ParsedArgs, file_lines: Option<&Vec<String>>) -> (r: Result<
    Config,
    ConfigError,
>)
    requires
        parsed@.workers matches Some(w) ==> w >= 1,
        parsed@.timeout_secs matches Some(t) ==> t >= 1,
    ensures
        r matches Ok(c) ==> {
            &&& c.wf()
            &&& c.urls.deep_view() == job_source(parsed@, lines_view(file_lines))
            &&& (parsed@.workers matches Some(w) ==> c.workers == w)
            &&& (parsed@.workers is None ==> c.workers >= 1)
            &&& (parsed@.timeout_secs matches Some(t) ==> c.timeout_secs == t)
            &&& (parsed@.timeout_secs is None ==> c.timeout_secs == 5)
            &&& (parsed@.retries matches Some(n) ==> c.retries == n)
            &&& (parsed@.retries is None ==> c.retries == 0)
        },
        r is Err ==> r == Err::<Config, ConfigError>(ConfigError::NoUrls),
        r is Err <==> job_source(parsed@, lines_view(file_lines)).len() == 0,
{
    let ghost pm: ArgsModel = parsed@;
    let ParsedArgs { urls: mut urls, workers, timeout_secs, retries, file_path: _ } = parsed;
    if let Some(lines) = file_lines {
        let n = lines.len();
        let mut j: usize = 0;
        while j < n
            invariant
                j <= n,
                n == lines@.len(),
                urls.deep_view() == pm.urls + kept_lines(lines.deep_view(), j as int),
            decreases n - j,
        {
            let ghost before: Seq<Seq<char>> = urls.deep_view();
            let trimmed = trim_line(&lines[j]);
            let ghost tv: Seq<char> = trimmed@;
            proof {
                assert(lines.deep_view()[j as int] == lines@[j as int]@);
                assert(tv == trim_of(lines.deep_view()[j as int]));
            }
            let m = trimmed.as_str().unicode_len();
            if m > 0 {
                let c0 = trimmed.as_str().get_char(0);
                if c0 != '#' {
                    urls.push(trimmed);
                    proof {
                        assert(keep_line(tv));
                        assert(urls.deep_view() =~= before.push(tv));
                    }
                } else {
                    proof {
                        assert(!keep_line(tv));
                    }
                }
            } else {
                proof {
                    assert(!keep_line(tv));
                }
            }
            j = j + 1;
            proof {
                assert(urls.deep_view() =~= pm.urls + kept_lines(lines.deep_view(), j as int));
            }
        }
    }
    if urls.len() == 0 {
        return Err(ConfigError::NoUrls);
    }
    let pool: usize = match workers {
        Some(w) => w,
        None => available_workers(),
    };
    let timeout: u64 = match timeout_secs {
        Some(t) => t,
        None => 5,
    };
    let tries: u32 = match retries {
        Some(n) => n,
        None => 0,
    };
    Ok(Config { urls, workers: pool, timeout_secs: timeout, retries: tries })
}

impl ConfigError {
    /// The message shown for this error.
    pub open spec fn message_spec(&self) -> Seq<char> {
        match self {
            ConfigError::MissingFileValue => "Expected file path after --file"@,
            ConfigError::MissingWorkersValue => "Expected value after --workers"@,
            ConfigError::MissingTimeoutValue => "Expected value after --timeout"@,
            ConfigError::MissingRetriesValue => "Expected value after --retries"@,
            ConfigError::InvalidWorkers => "Invalid --workers value"@,
            ConfigError::InvalidTimeout => "Invalid --timeout value"@,
            ConfigError::InvalidRetries => "Invalid --retries value"@,
            ConfigError::UnknownOption(arg) => "Unknown argument: "@ + arg@,
            ConfigError::NoUrls => "No URLs provided. Use --file or provide URLs as arguments."@,
        }
    }

    /// Renders the message shown for this error.
    pub fn message(&self) -> (r: String)
        ensures
            r@ == self.message_spec(),
    {
        match self {
            ConfigError::MissingFileValue => String::from_str("Expected file path after --file"),
            ConfigError::MissingWorkersValue => String::from_str("Expected value after --workers"),
            ConfigError::MissingTimeoutValue => String::from_str("Expected value after --timeout"),
            ConfigError::MissingRetriesValue => String::from_str("Expected value after --retries"),
            ConfigError::InvalidWorkers => String::from_str("Invalid --workers value"),
            ConfigError::InvalidTimeout => String::from_str("Invalid --timeout value"),
            ConfigError::InvalidRetries => String::from_str("Invalid --retries value"),
            ConfigError::UnknownOption(arg) => {
                let mut r = String::from_str("Unknown argument: ");
                r.append(arg.as_str());
                r
            },
            ConfigError::NoUrls => String::from_str(
                "No URLs provided. Use --file or provide URLs as arguments.",
            ),
        }
    }
}

} // verus!
