//! The proxy's settings, their defaults, and how they are read from the
//! variables of the environment.

use vstd::prelude::*;

verus! {

/// The settings of the proxy.
pub struct AppConfig {
    /// The address on which the proxy listens.
    pub bind_addr: String,
    /// The base URL of the downstream service.
    pub tei_url: String,
    /// The longest that the first item of a batch waits, in milliseconds.
    pub max_wait_time: u64,
    /// The size at which a batch is handed off.
    pub max_batch_size: usize,
    /// How many downstream calls may be in flight at once.
    pub batch_concurrency: usize,
    /// How many requests the submission queue holds.
    pub queue_cap: usize,
    /// How long a caller may wait to enqueue, in milliseconds.
    pub enqueue_timeout_ms: u64,
}

pub const DEFAULT_MAX_WAIT_TIME: u64 = 8;

pub const DEFAULT_MAX_BATCH_SIZE: usize = 32;

pub const DEFAULT_BATCH_CONCURRENCY: usize = 4;

pub const DEFAULT_QUEUE_CAP: usize = 2048;

pub const DEFAULT_ENQUEUE_TIMEOUT_MS: u64 = 75;

/// The address on which the proxy listens when none is set.
pub open spec fn default_bind_addr() -> Seq<char> {
    "0.0.0.0:3000"@
}

/// The downstream service when none is set.
pub open spec fn default_tei_url() -> Seq<char> {
    "http://tei:80"@
}

/// True of the ten decimal digits.
pub open spec fn is_digit(c: char) -> bool {
    '0' <= c <= '9'
}

/// The number that a run of decimal digits stands for.
pub open spec fn digits_value(digits: Seq<char>) -> nat
    decreases digits.len(),
{
    if digits.len() == 0 {
        0
    } else {
        10 * digits_value(digits.drop_last()) + (digits.last() as nat - '0' as nat) as nat
    }
}

/// `text` without the plus sign that may stand in front of a number.
pub open spec fn unsigned_part(text: Seq<char>) -> Seq<char> {
    if text.len() > 0 && text[0] == '+' {
        text.skip(1)
    } else {
        text
    }
}

/// The number that `text` stands for, if it is one and no more than `max`:
/// an optional plus sign and then one or more decimal digits, with nothing
/// before, between or after.
pub open spec fn parse_decimal(text: Seq<char>, max: nat) -> Option<nat> {
    let digits = unsigned_part(text);
    if digits.len() > 0 && (forall|i: int| 0 <= i < digits.len() ==> is_digit(#[trigger] digits[i]))
        && digits_value(digits) <= max {
        Some(digits_value(digits))
    } else {
        None
    }
}

/// `text` as a `u64`, if it stands for one.
pub open spec fn parse_u64_spec(text: Seq<char>) -> Option<u64> {
    match parse_decimal(text, u64::MAX as nat) {
        Some(n) => Some(n as u64),
        None => None,
    }
}

/// `text` as a `usize`, if it stands for one.
pub open spec fn parse_usize_spec(text: Seq<char>) -> Option<usize> {
    match parse_decimal(text, usize::MAX as nat) {
        Some(n) => Some(n as usize),
        None => None,
    }
}

/// Calls `str::parse::<u64>`. The contract claims what the standard library
/// documents of it: the text is accepted when it is an optional plus sign
/// followed by decimal digits only, at least one, whose value fits the type,
/// and the result is then that value.
#[verifier::external_body]
fn parse_u64(text: &str) -> (n: Option<u64>)
    ensures
        n == parse_u64_spec(text@),
{
    match text.parse::<u64>() {
        Ok(n) => Some(n),
        Err(_) => None,
    }
}

/// Calls `str::parse::<usize>`. The contract claims what the standard
/// library documents of it: the text is accepted when it is an optional plus
/// sign followed by decimal digits only, at least one, whose value fits the
/// type, and the result is then that value.
#[verifier::external_body]
fn parse_usize(text: &str) -> (n: Option<usize>)
    ensures
        n == parse_usize_spec(text@),
{
    match text.parse::<usize>() {
        Ok(n) => Some(n),
        Err(_) => None,
    }
}

/// The value of the first variable of `vars` whose name is `name`.
pub open spec fn lookup(vars: Seq<(String, String)>, name: Seq<char>) -> Option<Seq<char>>
    decreases vars.len(),
{
    if vars.len() == 0 {
        None
    } else if vars[0].0@ == name {
        Some(vars[0].1@)
    } else {
        lookup(vars.skip(1), name)
    }
}

/// A text setting: the variable's value, or the default where it is not set.
pub open spec fn text_setting(vars: Seq<(String, String)>, name: Seq<char>, default: Seq<char>) -> Seq<
    char,
> {
    match lookup(vars, name) {
        Some(text) => text,
        None => default,
    }
}

/// A `u64` setting: the variable's value where it is set and stands for a
/// `u64`, and the default otherwise.
pub open spec fn u64_setting(vars: Seq<(String, String)>, name: Seq<char>, default: u64) -> u64 {
    match lookup(vars, name) {
        Some(text) => match parse_u64_spec(text) {
            Some(n) => n,
            None => default,
        },
        None => default,
    }
}

/// A `usize` setting: the variable's value where it is set and stands for a
/// `usize`, and the default otherwise.
pub open spec fn usize_setting(vars: Seq<(String, String)>, name: Seq<char>, default: usize) -> usize {
    match lookup(vars, name) {
        Some(text) => match parse_usize_spec(text) {
            Some(n) => n,
            None => default,
        },
        None => default,
    }
}

/// Finds the value of the first variable of `vars` named `name`.
fn find<'a>(vars: &'a Vec<(String, String)>, name: &str) -> (value: Option<&'a str>)
    ensures
        match value {
            Some(text) => lookup(vars@, name@) == Some(text@),
            None => lookup(vars@, name@) is None,
        },
{
    let wanted = name.to_owned();
    let mut i: usize = 0;
    assert(vars@.skip(0) =~= vars@);
    while i < vars.len()
        invariant
            i <= vars@.len(),
            wanted@ == name@,
            lookup(vars@, name@) == lookup(vars@.skip(i as int), name@),
        decreases vars@.len() - i,
    {
        if vars[i].0 == wanted {
            return Some(vars[i].1.as_str());
        }
        assert(vars@.skip(i as int).skip(1) =~= vars@.skip(i as int + 1));
        i = i + 1;
    }
    None
}

impl AppConfig {
    /// True when every setting has its default value.
    pub open spec fn is_default(&self) -> bool {
        self.reads(Seq::empty())
    }

    /// True when the settings are those that the variables `vars` give.
    pub open spec fn reads(&self, vars: Seq<(String, String)>) -> bool {
        &&& self.bind_addr@ == text_setting(vars, "BIND_ADDR"@, default_bind_addr())
        &&& self.tei_url@ == text_setting(vars, "TEI_URL"@, default_tei_url())
        &&& self.max_wait_time == u64_setting(vars, "MAX_WAIT_TIME_MS"@, DEFAULT_MAX_WAIT_TIME)
        &&& self.max_batch_size == usize_setting(vars, "MAX_BATCH_SIZE"@, DEFAULT_MAX_BATCH_SIZE)
        &&& self.batch_concurrency == usize_setting(
            vars,
            "BATCH_CONCURRENCY"@,
            DEFAULT_BATCH_CONCURRENCY,
        )
        &&& self.queue_cap == usize_setting(vars, "QUEUE_CAP"@, DEFAULT_QUEUE_CAP)
        &&& self.enqueue_timeout_ms == u64_setting(
            vars,
            "ENQUEUE_TIMEOUT_MS"@,
            DEFAULT_ENQUEUE_TIMEOUT_MS,
        )
    }

    /// The settings that the variables `vars` give, each a name and a value.
    ///
    /// A variable that is not set, or a number that does not parse, leaves
    /// the setting at its default. Where a name occurs twice, the first
    /// counts.
    pub fn from_vars(vars: &Vec<(String, String)>) -> (cfg: AppConfig)
        ensures
            cfg.reads(vars@),
    {
        let bind_addr = match find(vars, "BIND_ADDR") {
            Some(text) => text.to_owned(),
            None => "0.0.0.0:3000".to_owned(),
        };
        let tei_url = match find(vars, "TEI_URL") {
            Some(text) => text.to_owned(),
            None => "http://tei:80".to_owned(),
        };
        let max_wait_time = read_u64(vars, "MAX_WAIT_TIME_MS", DEFAULT_MAX_WAIT_TIME);
        let max_batch_size = read_usize(vars, "MAX_BATCH_SIZE", DEFAULT_MAX_BATCH_SIZE);
        let batch_concurrency = read_usize(vars, "BATCH_CONCURRENCY", DEFAULT_BATCH_CONCURRENCY);
        let queue_cap = read_usize(vars, "QUEUE_CAP", DEFAULT_QUEUE_CAP);
        let enqueue_timeout_ms = read_u64(vars, "ENQUEUE_TIMEOUT_MS", DEFAULT_ENQUEUE_TIMEOUT_MS);
        AppConfig {
            bind_addr,
            tei_url,
            max_wait_time,
            max_batch_size,
            batch_concurrency,
            queue_cap,
            enqueue_timeout_ms,
        }
    }
}

/// Reads a `u64` setting.
fn read_u64(vars: &Vec<(String, String)>, name: &str, default: u64) -> (n: u64)
    ensures
        n == u64_setting(vars@, name@, default),
{
    match find(vars, name) {
        Some(text) => match parse_u64(text) {
            Some(n) => n,
            None => default,
        },
        None => default,
    }
}

/// Reads a `usize` setting.
fn read_usize(vars: &Vec<(String, String)>, name: &str, default: usize) -> (n: usize)
    ensures
        n == usize_setting(vars@, name@, default),
{
    match find(vars, name) {
        Some(text) => match parse_usize(text) {
            Some(n) => n,
            None => default,
        },
        None => default,
    }
}

impl Default for AppConfig {
    /// The settings when no variable is set.
    fn default() -> (cfg: AppConfig)
        ensures
            cfg.is_default(),
    {
        AppConfig::from_vars(&Vec::new())
    }
}

impl Clone for AppConfig {
    fn clone(&self) -> (copy: Self)
        ensures
            copy == *self,
    {
        AppConfig {
            bind_addr: self.bind_addr.clone(),
            tei_url: self.tei_url.clone(),
            max_wait_time: self.max_wait_time,
            max_batch_size: self.max_batch_size,
            batch_concurrency: self.batch_concurrency,
            queue_cap: self.queue_cap,
            enqueue_timeout_ms: self.enqueue_timeout_ms,
        }
    }
}

} // verus!
