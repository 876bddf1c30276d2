//! Layered configuration.
//!
//! A file, the environment and the command line each give some fields; a later layer wins over an
//! earlier one, and what none gives has a default.
use vstd::prelude::*;

use crate::domain::duration::{
    component_text, duration_of_text, duration_text, lemma_duration_round_trip, DurationSeconds,
};
use crate::domain::environment::{pairs_of, Entries};
use crate::domain::execution::optional_text;
use crate::domain::schedule::RuntimeTier;
use crate::outside;
use crate::path_text::{is_absolute, path_is_absolute};
use crate::text::{
    contains_char, copy_text, parse_unsigned, push_text, starts_with, text_eq, text_starts_with,
    unsigned_value,
};

verus! {

broadcast use vstd::seq::group_seq_axioms;

pub const DEFAULT_HISTORY_DAYS: u16 = 30;

pub const DEFAULT_TERMINAL_JOB_DAYS: u16 = 30;

pub const DEFAULT_MAX_LOG_BYTES: u64 = 10_485_760;

pub const MAX_RETENTION_DAYS: u16 = 3_650;

pub const MAX_LOG_BYTES: u64 = 1_073_741_824;

/// When output is coloured.
#[derive(Clone, Copy, Debug, PartialEq, Eq, Structural)]
pub enum ColorMode {
    Auto,
    Always,
    Never,
}

/// How much is printed.
#[derive(Clone, Copy, Debug, PartialEq, Eq, Structural)]
pub enum Verbosity {
    Quiet,
    Normal,
    Verbose,
}

/// The fields that one layer gives.
#[derive(Debug, PartialEq, Eq)]
pub struct RawConfig {
    pub default_timezone: Option<String>,
    pub default_runtime: Option<RuntimeTier>,
    pub default_shell: Option<String>,
    pub cancel_grace: Option<String>,
    pub history_days: Option<u16>,
    pub terminal_job_days: Option<u16>,
    pub max_log_bytes_per_stream: Option<u64>,
    pub color: Option<ColorMode>,
    pub verbosity: Option<Verbosity>,
}

/// The fields that the command line gives.
#[derive(Debug, PartialEq, Eq)]
pub struct ConfigOverrides {
    pub default_timezone: Option<String>,
    pub default_runtime: Option<RuntimeTier>,
    pub default_shell: Option<String>,
    pub cancel_grace: Option<String>,
    pub history_days: Option<u16>,
    pub terminal_job_days: Option<u16>,
    pub max_log_bytes_per_stream: Option<u64>,
    pub color: Option<ColorMode>,
    pub verbosity: Option<Verbosity>,
}

/// A layer with its texts as character sequences.
pub struct RawModel {
    pub default_timezone: Option<Seq<char>>,
    pub default_runtime: Option<RuntimeTier>,
    pub default_shell: Option<Seq<char>>,
    pub cancel_grace: Option<Seq<char>>,
    pub history_days: Option<u16>,
    pub terminal_job_days: Option<u16>,
    pub max_log_bytes_per_stream: Option<u64>,
    pub color: Option<ColorMode>,
    pub verbosity: Option<Verbosity>,
}

impl View for RawConfig {
    type V = RawModel;

    open spec fn view(&self) -> RawModel {
        RawModel {
            default_timezone: optional_text(self.default_timezone),
            default_runtime: self.default_runtime,
            default_shell: optional_text(self.default_shell),
            cancel_grace: optional_text(self.cancel_grace),
            history_days: self.history_days,
            terminal_job_days: self.terminal_job_days,
            max_log_bytes_per_stream: self.max_log_bytes_per_stream,
            color: self.color,
            verbosity: self.verbosity,
        }
    }
}

impl View for ConfigOverrides {
    type V = RawModel;

    open spec fn view(&self) -> RawModel {
        RawModel {
            default_timezone: optional_text(self.default_timezone),
            default_runtime: self.default_runtime,
            default_shell: optional_text(self.default_shell),
            cancel_grace: optional_text(self.cancel_grace),
            history_days: self.history_days,
            terminal_job_days: self.terminal_job_days,
            max_log_bytes_per_stream: self.max_log_bytes_per_stream,
            color: self.color,
            verbosity: self.verbosity,
        }
    }
}

/// A layer that gives nothing.
pub open spec fn no_fields() -> RawModel {
    RawModel {
        default_timezone: None,
        default_runtime: None,
        default_shell: None,
        cancel_grace: None,
        history_days: None,
        terminal_job_days: None,
        max_log_bytes_per_stream: None,
        color: None,
        verbosity: None,
    }
}

impl Default for RawConfig {
    fn default() -> (r: RawConfig)
        ensures
            r@ == no_fields(),
    {
        RawConfig {
            default_timezone: None,
            default_runtime: None,
            default_shell: None,
            cancel_grace: None,
            history_days: None,
            terminal_job_days: None,
            max_log_bytes_per_stream: None,
            color: None,
            verbosity: None,
        }
    }
}

impl Default for ConfigOverrides {
    fn default() -> (r: ConfigOverrides)
        ensures
            r@ == no_fields(),
    {
        ConfigOverrides {
            default_timezone: None,
            default_runtime: None,
            default_shell: None,
            cancel_grace: None,
            history_days: None,
            terminal_job_days: None,
            max_log_bytes_per_stream: None,
            color: None,
            verbosity: None,
        }
    }
}

/// Why a configuration was refused.
#[derive(Debug, PartialEq, Eq)]
pub enum ConfigError {
    Toml(String),
    UnknownEnvironment(String),
    InvalidEnvironment { name: String },
    InvalidField(&'static str),
}

/// A configuration error with its text as a character sequence.
pub enum ConfigFault {
    Toml(Seq<char>),
    UnknownEnvironment(Seq<char>),
    InvalidEnvironment(Seq<char>),
    InvalidField(&'static str),
}

impl View for ConfigError {
    type V = ConfigFault;

    open spec fn view(&self) -> ConfigFault {
        match *self {
            ConfigError::Toml(detail) => ConfigFault::Toml(detail@),
            ConfigError::UnknownEnvironment(name) => ConfigFault::UnknownEnvironment(name@),
            ConfigError::InvalidEnvironment { name } => ConfigFault::InvalidEnvironment(name@),
            ConfigError::InvalidField(field) => ConfigFault::InvalidField(field),
        }
    }
}

/// The message of a configuration error.
pub open spec fn config_message(error: ConfigFault) -> Seq<char> {
    match error {
        ConfigFault::Toml(detail) => "invalid TOML configuration: "@ + detail,
        ConfigFault::UnknownEnvironment(name) => "unknown ATX environment variable "@ + name,
        ConfigFault::InvalidEnvironment(name) => "invalid value for environment variable "@ + name,
        ConfigFault::InvalidField(field) => "invalid configuration field "@ + field@,
    }
}

impl ConfigError {
    /// The error as a message.
    pub fn to_string(&self) -> (text: String)
        ensures
            text@ == config_message(self@),
    {
        match self {
            ConfigError::Toml(detail) => {
                let mut out: String = "invalid TOML configuration: ".to_owned();
                push_text(&mut out, detail.as_str());
                out
            },
            ConfigError::UnknownEnvironment(name) => {
                let mut out: String = "unknown ATX environment variable ".to_owned();
                push_text(&mut out, name.as_str());
                out
            },
            ConfigError::InvalidEnvironment { name } => {
                let mut out: String = "invalid value for environment variable ".to_owned();
                push_text(&mut out, name.as_str());
                out
            },
            ConfigError::InvalidField(field) => {
                let mut out: String = "invalid configuration field ".to_owned();
                push_text(&mut out, field);
                out
            },
        }
    }
}

// ---------------------------------------------------------------------------------------------
// Layers
// ---------------------------------------------------------------------------------------------
/// `over` where it gives a value, else `under`.
pub open spec fn prefer<T>(over: Option<T>, under: Option<T>) -> Option<T> {
    match over {
        Some(_) => over,
        None => under,
    }
}

/// Two layers as one: `over` wins field by field.
pub open spec fn layered(under: RawModel, over: RawModel) -> RawModel {
    RawModel {
        default_timezone: prefer(over.default_timezone, under.default_timezone),
        default_runtime: prefer(over.default_runtime, under.default_runtime),
        default_shell: prefer(over.default_shell, under.default_shell),
        cancel_grace: prefer(over.cancel_grace, under.cancel_grace),
        history_days: prefer(over.history_days, under.history_days),
        terminal_job_days: prefer(over.terminal_job_days, under.terminal_job_days),
        max_log_bytes_per_stream: prefer(
            over.max_log_bytes_per_stream,
            under.max_log_bytes_per_stream,
        ),
        color: prefer(over.color, under.color),
        verbosity: prefer(over.verbosity, under.verbosity),
    }
}

impl RawConfig {
    /// Lays another layer over this one.
    pub fn apply(&mut self, other: RawConfig)
        ensures
            final(self)@ == layered(old(self)@, other@),
    {
        if other.default_timezone.is_some() {
            self.default_timezone = other.default_timezone;
        }
        if other.default_runtime.is_some() {
            self.default_runtime = other.default_runtime;
        }
        if other.default_shell.is_some() {
            self.default_shell = other.default_shell;
        }
        if other.cancel_grace.is_some() {
            self.cancel_grace = other.cancel_grace;
        }
        if other.history_days.is_some() {
            self.history_days = other.history_days;
        }
        if other.terminal_job_days.is_some() {
            self.terminal_job_days = other.terminal_job_days;
        }
        if other.max_log_bytes_per_stream.is_some() {
            self.max_log_bytes_per_stream = other.max_log_bytes_per_stream;
        }
        if other.color.is_some() {
            self.color = other.color;
        }
        if other.verbosity.is_some() {
            self.verbosity = other.verbosity;
        }
    }

    /// The layer that the command line gives.
    pub fn from_overrides(value: ConfigOverrides) -> (r: RawConfig)
        ensures
            r@ == value@,
    {
        RawConfig {
            default_timezone: value.default_timezone,
            default_runtime: value.default_runtime,
            default_shell: value.default_shell,
            cancel_grace: value.cancel_grace,
            history_days: value.history_days,
            terminal_job_days: value.terminal_job_days,
            max_log_bytes_per_stream: value.max_log_bytes_per_stream,
            color: value.color,
            verbosity: value.verbosity,
        }
    }
}

/// Where three layers are laid over each other, the last one that gives a field decides it.
pub proof fn lemma_layer_precedence(file: RawModel, environment: RawModel, arguments: RawModel)
    ensures
        ({
            let all = layered(layered(file, environment), arguments);
            &&& arguments.history_days is Some ==> all.history_days == arguments.history_days
            &&& arguments.history_days is None && environment.history_days is Some
                ==> all.history_days == environment.history_days
            &&& arguments.history_days is None && environment.history_days is None
                ==> all.history_days == file.history_days
        }),
        layered(layered(file, environment), arguments) == layered(
            file,
            layered(environment, arguments),
        ),
        layered(file, no_fields()) == file,
        layered(no_fields(), file) == file,
{
}

// ---------------------------------------------------------------------------------------------
// The environment
// ---------------------------------------------------------------------------------------------
/// The runtime that a text names.
pub open spec fn runtime_named(value: Seq<char>) -> Option<RuntimeTier> {
    if value == "session"@ {
        Some(RuntimeTier::Session)
    } else if value == "durable"@ {
        Some(RuntimeTier::Durable)
    } else {
        None
    }
}

/// The colour mode that a text names.
pub open spec fn color_named(value: Seq<char>) -> Option<ColorMode> {
    if value == "auto"@ {
        Some(ColorMode::Auto)
    } else if value == "always"@ {
        Some(ColorMode::Always)
    } else if value == "never"@ {
        Some(ColorMode::Never)
    } else {
        None
    }
}

/// The verbosity that a text names.
pub open spec fn verbosity_named(value: Seq<char>) -> Option<Verbosity> {
    if value == "quiet"@ {
        Some(Verbosity::Quiet)
    } else if value == "normal"@ {
        Some(Verbosity::Normal)
    } else if value == "verbose"@ {
        Some(Verbosity::Verbose)
    } else {
        None
    }
}

/// The number that a text writes, up to `maximum`.
pub open spec fn number_named(value: Seq<char>, maximum: int) -> Option<int> {
    match unsigned_value(value) {
        Some(number) => if number <= maximum {
            Some(number)
        } else {
            None
        },
        None => None,
    }
}

/// A layer with one more environment variable.
pub open spec fn with_variable(raw: RawModel, key: Seq<char>, value: Seq<char>) -> Result<
    RawModel,
    ConfigFault,
> {
    let bad = Err(ConfigFault::InvalidEnvironment(key));
    if key == "ATX_DEFAULT_TIMEZONE"@ {
        Ok(RawModel { default_timezone: Some(value), ..raw })
    } else if key == "ATX_DEFAULT_RUNTIME"@ {
        match runtime_named(value) {
            Some(tier) => Ok(RawModel { default_runtime: Some(tier), ..raw }),
            None => bad,
        }
    } else if key == "ATX_DEFAULT_SHELL"@ {
        Ok(RawModel { default_shell: Some(value), ..raw })
    } else if key == "ATX_CANCEL_GRACE"@ {
        Ok(RawModel { cancel_grace: Some(value), ..raw })
    } else if key == "ATX_HISTORY_DAYS"@ {
        match number_named(value, u16::MAX as int) {
            Some(days) => Ok(RawModel { history_days: Some(days as u16), ..raw }),
            None => bad,
        }
    } else if key == "ATX_TERMINAL_JOB_DAYS"@ {
        match number_named(value, u16::MAX as int) {
            Some(days) => Ok(RawModel { terminal_job_days: Some(days as u16), ..raw }),
            None => bad,
        }
    } else if key == "ATX_MAX_LOG_BYTES_PER_STREAM"@ {
        match number_named(value, u64::MAX as int) {
            Some(bytes) => Ok(RawModel { max_log_bytes_per_stream: Some(bytes as u64), ..raw }),
            None => bad,
        }
    } else if key == "ATX_COLOR"@ {
        match color_named(value) {
            Some(color) => Ok(RawModel { color: Some(color), ..raw }),
            None => bad,
        }
    } else if key == "ATX_VERBOSITY"@ {
        match verbosity_named(value) {
            Some(verbosity) => Ok(RawModel { verbosity: Some(verbosity), ..raw }),
            None => bad,
        }
    } else if starts_with(key, "ATX_"@) {
        Err(ConfigFault::UnknownEnvironment(key))
    } else {
        Ok(raw)
    }
}

/// The layer that environment variables give, or what is wrong with the first bad one.
pub open spec fn variables_layer(variables: Entries) -> Result<RawModel, ConfigFault>
    decreases variables.len(),
{
    if variables.len() == 0 {
        Ok(no_fields())
    } else {
        match variables_layer(variables.drop_last()) {
            Err(error) => Err(error),
            Ok(raw) => with_variable(raw, variables.last().0, variables.last().1),
        }
    }
}

/// Variables of other programs change nothing.
pub proof fn lemma_other_variables_are_ignored(raw: RawModel, key: Seq<char>, value: Seq<char>)
    requires
        !starts_with(key, "ATX_"@),
    ensures
        with_variable(raw, key, value) == Ok::<RawModel, ConfigFault>(raw),
{
    reveal_strlit("ATX_");
    reveal_strlit("ATX_DEFAULT_TIMEZONE");
    reveal_strlit("ATX_DEFAULT_RUNTIME");
    reveal_strlit("ATX_DEFAULT_SHELL");
    reveal_strlit("ATX_CANCEL_GRACE");
    reveal_strlit("ATX_HISTORY_DAYS");
    reveal_strlit("ATX_TERMINAL_JOB_DAYS");
    reveal_strlit("ATX_MAX_LOG_BYTES_PER_STREAM");
    reveal_strlit("ATX_COLOR");
    reveal_strlit("ATX_VERBOSITY");
    if key.len() >= 4 && key[0] == 'A' && key[1] == 'T' && key[2] == 'X' && key[3] == '_' {
        assert(key.take(4) =~= "ATX_"@);
    }
}

/// The number that an environment variable holds, up to `maximum`.
pub fn parse_env(value: &str, key: &str, maximum: u64) -> (r: Result<u64, ConfigError>)
    ensures
        match number_named(value@, maximum as int) {
            Some(number) => r == Ok::<u64, ConfigError>(number as u64) && 0 <= number <= maximum,
            None => r matches Err(error) && error@ == ConfigFault::InvalidEnvironment(key@),
        },
{
    match parse_unsigned(value, maximum) {
        Some(number) => Ok(number),
        None => Err(ConfigError::InvalidEnvironment { name: copy_text(key) }),
    }
}

/// The runtime that an environment variable names.
pub fn parse_runtime(value: &str, key: &str) -> (r: Result<RuntimeTier, ConfigError>)
    ensures
        match runtime_named(value@) {
            Some(tier) => r == Ok::<RuntimeTier, ConfigError>(tier),
            None => r matches Err(error) && error@ == ConfigFault::InvalidEnvironment(key@),
        },
{
    if text_eq(value, "session") {
        Ok(RuntimeTier::Session)
    } else if text_eq(value, "durable") {
        Ok(RuntimeTier::Durable)
    } else {
        Err(ConfigError::InvalidEnvironment { name: copy_text(key) })
    }
}

/// The colour mode that an environment variable names.
pub fn parse_color(value: &str, key: &str) -> (r: Result<ColorMode, ConfigError>)
    ensures
        match color_named(value@) {
            Some(color) => r == Ok::<ColorMode, ConfigError>(color),
            None => r matches Err(error) && error@ == ConfigFault::InvalidEnvironment(key@),
        },
{
    if text_eq(value, "auto") {
        Ok(ColorMode::Auto)
    } else if text_eq(value, "always") {
        Ok(ColorMode::Always)
    } else if text_eq(value, "never") {
        Ok(ColorMode::Never)
    } else {
        Err(ConfigError::InvalidEnvironment { name: copy_text(key) })
    }
}

/// The verbosity that an environment variable names.
pub fn parse_verbosity(value: &str, key: &str) -> (r: Result<Verbosity, ConfigError>)
    ensures
        match verbosity_named(value@) {
            Some(verbosity) => r == Ok::<Verbosity, ConfigError>(verbosity),
            None => r matches Err(error) && error@ == ConfigFault::InvalidEnvironment(key@),
        },
{
    if text_eq(value, "quiet") {
        Ok(Verbosity::Quiet)
    } else if text_eq(value, "normal") {
        Ok(Verbosity::Normal)
    } else if text_eq(value, "verbose") {
        Ok(Verbosity::Verbose)
    } else {
        Err(ConfigError::InvalidEnvironment { name: copy_text(key) })
    }
}

/// Adds one environment variable to a layer.
fn apply_variable(raw: &mut RawConfig, key: &str, value: &str) -> (r: Result<(), ConfigError>)
    ensures
        match with_variable(old(raw)@, key@, value@) {
            Ok(after) => r is Ok && final(raw)@ == after,
            Err(fault) => r matches Err(error) && error@ == fault,
        },
{
    if text_eq(key, "ATX_DEFAULT_TIMEZONE") {
        raw.default_timezone = Some(copy_text(value));
    } else if text_eq(key, "ATX_DEFAULT_RUNTIME") {
        match parse_runtime(value, key) {
            Ok(tier) => {
                raw.default_runtime = Some(tier);
            },
            Err(error) => {
                return Err(error);
            },
        }
    } else if text_eq(key, "ATX_DEFAULT_SHELL") {
        raw.default_shell = Some(copy_text(value));
    } else if text_eq(key, "ATX_CANCEL_GRACE") {
        raw.cancel_grace = Some(copy_text(value));
    } else if text_eq(key, "ATX_HISTORY_DAYS") {
        match parse_env(value, key, 65_535) {
            Ok(days) => {
                raw.history_days = Some(days as u16);
            },
            Err(error) => {
                return Err(error);
            },
        }
    } else if text_eq(key, "ATX_TERMINAL_JOB_DAYS") {
        match parse_env(value, key, 65_535) {
            Ok(days) => {
                raw.terminal_job_days = Some(days as u16);
            },
            Err(error) => {
                return Err(error);
            },
        }
    } else if text_eq(key, "ATX_MAX_LOG_BYTES_PER_STREAM") {
        match parse_env(value, key, 18_446_744_073_709_551_615) {
            Ok(bytes) => {
                raw.max_log_bytes_per_stream = Some(bytes);
            },
            Err(error) => {
                return Err(error);
            },
        }
    } else if text_eq(key, "ATX_COLOR") {
        match parse_color(value, key) {
            Ok(color) => {
                raw.color = Some(color);
            },
            Err(error) => {
                return Err(error);
            },
        }
    } else if text_eq(key, "ATX_VERBOSITY") {
        match parse_verbosity(value, key) {
            Ok(verbosity) => {
                raw.verbosity = Some(verbosity);
            },
            Err(error) => {
                return Err(error);
            },
        }
    } else if text_starts_with(key, "ATX_") {
        return Err(ConfigError::UnknownEnvironment(copy_text(key)));
    }
    Ok(())
}

/// An error of one of the first variables is the error of all of them.
proof fn lemma_variable_error_persists(variables: Entries, len: int)
    requires
        0 <= len <= variables.len(),
        variables_layer(variables.take(len)) is Err,
    ensures
        variables_layer(variables) == variables_layer(variables.take(len)),
    decreases variables.len(),
{
    if len == variables.len() {
        assert(variables.take(len) =~= variables);
    } else {
        assert(variables.drop_last().take(len) =~= variables.take(len));
        lemma_variable_error_persists(variables.drop_last(), len);
    }
}

/// The layer that environment variables give.
pub fn environment_layer(environment: &Vec<(String, String)>) -> (r: Result<RawConfig, ConfigError>)
    ensures
        match variables_layer(pairs_of(environment@)) {
            Ok(model) => r matches Ok(raw) && raw@ == model,
            Err(fault) => r matches Err(error) && error@ == fault,
        },
{
    let ghost all = pairs_of(environment@);
    let mut raw: RawConfig = RawConfig::default();
    let mut index: usize = 0;
    assert(all.take(0) =~= Seq::<(Seq<char>, Seq<char>)>::empty());
    while index < environment.len()
        invariant
            index <= environment@.len(),
            all == pairs_of(environment@),
            variables_layer(all.take(index as int)) == Ok::<RawModel, ConfigFault>(raw@),
        decreases environment@.len() - index,
    {
        proof {
            let next = all.take(index + 1);
            assert(next.drop_last() =~= all.take(index as int));
            assert(next.last() == (environment@[index as int].0@, environment@[index as int].1@));
        }
        match apply_variable(
            &mut raw,
            environment[index].0.as_str(),
            environment[index].1.as_str(),
        ) {
            Ok(_) => {},
            Err(error) => {
                proof {
                    lemma_variable_error_persists(all, index + 1);
                }
                return Err(error);
            },
        }
        index += 1;
    }
    assert(all.take(all.len() as int) =~= all);
    Ok(raw)
}

// ---------------------------------------------------------------------------------------------
// The effective configuration
// ---------------------------------------------------------------------------------------------
/// The effective configuration.
#[derive(Debug, PartialEq, Eq)]
pub struct Config {
    default_timezone: String,
    default_runtime: RuntimeTier,
    default_shell: String,
    cancel_grace: DurationSeconds,
    history_days: u16,
    terminal_job_days: u16,
    max_log_bytes_per_stream: u64,
    color: ColorMode,
    verbosity: Verbosity,
}

/// A configuration with its texts as character sequences and its grace in seconds.
pub struct ConfigModel {
    pub default_timezone: Seq<char>,
    pub default_runtime: RuntimeTier,
    pub default_shell: Seq<char>,
    pub cancel_grace: u64,
    pub history_days: u16,
    pub terminal_job_days: u16,
    pub max_log_bytes_per_stream: u64,
    pub color: ColorMode,
    pub verbosity: Verbosity,
}

impl View for Config {
    type V = ConfigModel;

    closed spec fn view(&self) -> ConfigModel {
        ConfigModel {
            default_timezone: self.default_timezone@,
            default_runtime: self.default_runtime,
            default_shell: self.default_shell@,
            cancel_grace: self.cancel_grace@,
            history_days: self.history_days,
            terminal_job_days: self.terminal_job_days,
            max_log_bytes_per_stream: self.max_log_bytes_per_stream,
            color: self.color,
            verbosity: self.verbosity,
        }
    }
}

/// What is printed of a configuration.
#[derive(Debug, PartialEq, Eq)]
pub struct RedactedConfig {
    pub default_timezone: String,
    pub default_runtime: RuntimeTier,
    pub default_shell: String,
    pub cancel_grace: String,
    pub history_days: u16,
    pub terminal_job_days: u16,
    pub max_log_bytes_per_stream: u64,
    pub color: ColorMode,
    pub verbosity: Verbosity,
}

/// What is printed is the configuration.
pub open spec fn shows_config(shown: RedactedConfig, config: ConfigModel) -> bool {
    &&& shown.default_timezone@ == config.default_timezone
    &&& shown.default_runtime == config.default_runtime
    &&& shown.default_shell@ == config.default_shell
    &&& shown.cancel_grace@ == duration_text(config.cancel_grace)
    &&& shown.history_days == config.history_days
    &&& shown.terminal_job_days == config.terminal_job_days
    &&& shown.max_log_bytes_per_stream == config.max_log_bytes_per_stream
    &&& shown.color == config.color
    &&& shown.verbosity == config.verbosity
}

/// A number of days that records are kept.
pub open spec fn valid_days(days: u16) -> bool {
    1 <= days <= MAX_RETENTION_DAYS
}

/// `value`, or the default where there is none.
pub open spec fn or_default<T>(value: Option<T>, default: T) -> T {
    match value {
        Some(given) => given,
        None => default,
    }
}

/// The configuration that the layers together give, where the time zone that they name is known
/// or not.
pub open spec fn effective(raw: RawModel, zone_known: bool) -> Result<ConfigModel, ConfigFault> {
    let timezone = or_default(raw.default_timezone, "local"@);
    let shell = or_default(raw.default_shell, "/bin/sh"@);
    let grace = duration_of_text(or_default(raw.cancel_grace, "10s"@));
    let history = or_default(raw.history_days, DEFAULT_HISTORY_DAYS);
    let terminal = or_default(raw.terminal_job_days, DEFAULT_TERMINAL_JOB_DAYS);
    let bytes = or_default(raw.max_log_bytes_per_stream, DEFAULT_MAX_LOG_BYTES);
    if timezone != "local"@ && !zone_known {
        Err(ConfigFault::InvalidField("default_timezone"))
    } else if !is_absolute(shell) || shell.contains('\0') {
        Err(ConfigFault::InvalidField("default_shell"))
    } else if grace is Err {
        Err(ConfigFault::InvalidField("cancel_grace"))
    } else if !valid_days(history) || !valid_days(terminal) {
        Err(ConfigFault::InvalidField("retention_days"))
    } else if !(1 <= bytes <= MAX_LOG_BYTES) {
        Err(ConfigFault::InvalidField("max_log_bytes_per_stream"))
    } else {
        Ok(
            ConfigModel {
                default_timezone: timezone,
                default_runtime: or_default(raw.default_runtime, RuntimeTier::Session),
                default_shell: shell,
                cancel_grace: grace->Ok_0,
                history_days: history,
                terminal_job_days: terminal,
                max_log_bytes_per_stream: bytes,
                color: or_default(raw.color, ColorMode::Auto),
                verbosity: or_default(raw.verbosity, Verbosity::Normal),
            },
        )
    }
}

/// The layers of a configuration together, or what is wrong with the environment.
pub open spec fn all_layers(
    file: Option<RawConfig>,
    environment: Entries,
    overrides: RawModel,
) -> Result<RawModel, ConfigFault> {
    let base = match file {
        Some(raw) => raw@,
        None => no_fields(),
    };
    match variables_layer(environment) {
        Err(fault) => Err(fault),
        Ok(variables) => Ok(layered(layered(base, variables), overrides)),
    }
}

/// Where nothing is given, the defaults are a valid configuration.
pub proof fn lemma_defaults_are_valid(zone_known: bool)
    ensures
        effective(no_fields(), zone_known) == Ok::<ConfigModel, ConfigFault>(
            ConfigModel {
                default_timezone: "local"@,
                default_runtime: RuntimeTier::Session,
                default_shell: "/bin/sh"@,
                cancel_grace: 10,
                history_days: 30,
                terminal_job_days: 30,
                max_log_bytes_per_stream: 10_485_760,
                color: ColorMode::Auto,
                verbosity: Verbosity::Normal,
            },
        ),
{
    reveal_strlit("/bin/sh");
    reveal_strlit("10s");
    lemma_duration_round_trip(10);
    reveal_with_fuel(crate::text::decimal, 3);
    assert(component_text(0, 'h') =~= Seq::<char>::empty());
    assert(component_text(0, 'm') =~= Seq::<char>::empty());
    assert(crate::text::decimal(1) =~= seq!['1']);
    assert(crate::text::decimal(10) =~= seq!['1', '0']);
    assert(component_text(10, 's') =~= seq!['1', '0', 's']);
    assert(duration_text(10) =~= "10s"@);
    assert(!"/bin/sh"@.contains('\0'));
}

impl Config {
    pub fn default_timezone(&self) -> (r: &str)
        ensures
            r@ == self@.default_timezone,
    {
        self.default_timezone.as_str()
    }

    pub fn default_runtime(&self) -> (r: RuntimeTier)
        ensures
            r == self@.default_runtime,
    {
        self.default_runtime
    }

    pub fn default_shell(&self) -> (r: &str)
        ensures
            r@ == self@.default_shell,
    {
        self.default_shell.as_str()
    }

    pub fn cancel_grace(&self) -> (r: DurationSeconds)
        ensures
            r@ == self@.cancel_grace,
    {
        self.cancel_grace
    }

    pub fn history_days(&self) -> (r: u16)
        ensures
            r == self@.history_days,
    {
        self.history_days
    }

    pub fn terminal_job_days(&self) -> (r: u16)
        ensures
            r == self@.terminal_job_days,
    {
        self.terminal_job_days
    }

    pub fn max_log_bytes_per_stream(&self) -> (r: u64)
        ensures
            r == self@.max_log_bytes_per_stream,
    {
        self.max_log_bytes_per_stream
    }

    pub fn color(&self) -> (r: ColorMode)
        ensures
            r == self@.color,
    {
        self.color
    }

    pub fn verbosity(&self) -> (r: Verbosity)
        ensures
            r == self@.verbosity,
    {
        self.verbosity
    }

    /// What is printed of the configuration: its effective fields and nothing else.
    pub fn redacted(&self) -> (r: RedactedConfig)
        ensures
            shows_config(r, self@),
    {
        RedactedConfig {
            default_timezone: copy_text(self.default_timezone.as_str()),
            default_runtime: self.default_runtime,
            default_shell: copy_text(self.default_shell.as_str()),
            cancel_grace: self.cancel_grace.to_string(),
            history_days: self.history_days,
            terminal_job_days: self.terminal_job_days,
            max_log_bytes_per_stream: self.max_log_bytes_per_stream,
            color: self.color,
            verbosity: self.verbosity,
        }
    }
}

/// Checks a number of days that records are kept.
pub fn checked_days(value: u16) -> (r: Result<u16, ConfigError>)
    ensures
        if valid_days(value) {
            r == Ok::<u16, ConfigError>(value)
        } else {
            r matches Err(error) && error@ == ConfigFault::InvalidField("retention_days")
        },
{
    if value < 1 || value > MAX_RETENTION_DAYS {
        return Err(ConfigError::InvalidField("retention_days"));
    }
    Ok(value)
}

/// Checks the layers together, where the time zone that they name is known or not.
pub fn validate(raw: RawConfig, zone_known: bool) -> (r: Result<Config, ConfigError>)
    ensures
        match effective(raw@, zone_known) {
            Ok(model) => r matches Ok(config) && config@ == model,
            Err(fault) => r matches Err(error) && error@ == fault,
        },
{
    let default_timezone: String = match raw.default_timezone {
        Some(timezone) => timezone,
        None => "local".to_owned(),
    };
    if !text_eq(default_timezone.as_str(), "local") && !zone_known {
        return Err(ConfigError::InvalidField("default_timezone"));
    }
    let default_shell: String = match raw.default_shell {
        Some(shell) => shell,
        None => "/bin/sh".to_owned(),
    };
    if !path_is_absolute(default_shell.as_str()) || contains_char(default_shell.as_str(), '\0') {
        return Err(ConfigError::InvalidField("default_shell"));
    }
    let grace: String = match raw.cancel_grace {
        Some(grace) => grace,
        None => "10s".to_owned(),
    };
    let cancel_grace: DurationSeconds = match DurationSeconds::from_str(grace.as_str()) {
        Ok(duration) => duration,
        Err(_) => {
            return Err(ConfigError::InvalidField("cancel_grace"));
        },
    };
    let history_days: u16 = match checked_days(
        match raw.history_days {
            Some(days) => days,
            None => DEFAULT_HISTORY_DAYS,
        },
    ) {
        Ok(days) => days,
        Err(error) => {
            return Err(error);
        },
    };
    let terminal_job_days: u16 = match checked_days(
        match raw.terminal_job_days {
            Some(days) => days,
            None => DEFAULT_TERMINAL_JOB_DAYS,
        },
    ) {
        Ok(days) => days,
        Err(error) => {
            return Err(error);
        },
    };
    let max_log_bytes_per_stream: u64 = match raw.max_log_bytes_per_stream {
        Some(bytes) => bytes,
        None => DEFAULT_MAX_LOG_BYTES,
    };
    if max_log_bytes_per_stream < 1 || max_log_bytes_per_stream > MAX_LOG_BYTES {
        return Err(ConfigError::InvalidField("max_log_bytes_per_stream"));
    }
    Ok(
        Config {
            default_timezone,
            default_runtime: match raw.default_runtime {
                Some(tier) => tier,
                None => RuntimeTier::Session,
            },
            default_shell,
            cancel_grace,
            history_days,
            terminal_job_days,
            max_log_bytes_per_stream,
            color: match raw.color {
                Some(color) => color,
                None => ColorMode::Auto,
            },
            verbosity: match raw.verbosity {
                Some(verbosity) => verbosity,
                None => Verbosity::Normal,
            },
        },
    )
}

/// The result is that of the layers, where the time zone that they name is known or not.
pub open spec fn loaded_config(
    layers: Result<RawModel, ConfigFault>,
    zone_known: bool,
    r: Result<Config, ConfigError>,
) -> bool {
    match layers {
        Err(fault) => r matches Err(error) && error@ == fault,
        Ok(raw) => match effective(raw, zone_known) {
            Ok(model) => r matches Ok(config) && config@ == model,
            Err(fault) => r matches Err(error) && error@ == fault,
        },
    }
}

/// The machine was asked whether it knows the time zone, with this answer.
pub closed spec fn zone_asked(name: Seq<char>, known: bool) -> bool {
    exists|text: &str| #[trigger]
        call_ensures(outside::zone_is_known, (text,), known) && text@ == name
}

/// Where the layers name a time zone other than the machine's own, the machine was asked for it, with
/// this answer.
pub open spec fn zone_checked(layers: Result<RawModel, ConfigFault>, known: bool) -> bool {
    layers matches Ok(raw) ==> (raw.default_timezone matches Some(name) ==> name != "local"@
        ==> zone_asked(name, known))
}

/// The effective configuration of a file's fields, the environment and the command line. Whether
/// a time zone is known depends on the machine's time zone database.
pub fn load_config(
    file: Option<RawConfig>,
    environment: &Vec<(String, String)>,
    overrides: ConfigOverrides,
) -> (r: Result<Config, ConfigError>)
    ensures
        exists|zone_known: bool|
            {
                &&& zone_checked(all_layers(file, pairs_of(environment@), overrides@), zone_known)
                &&& #[trigger] loaded_config(
                    all_layers(file, pairs_of(environment@), overrides@),
                    zone_known,
                    r,
                )
            },
{
    let ghost layers = all_layers(file, pairs_of(environment@), overrides@);
    let mut raw: RawConfig = match file {
        Some(raw) => raw,
        None => RawConfig::default(),
    };
    match environment_layer(environment) {
        Ok(variables) => {
            raw.apply(variables);
        },
        Err(error) => {
            let r: Result<Config, ConfigError> = Err(error);
            assert(loaded_config(layers, true, r));
            return r;
        },
    }
    raw.apply(RawConfig::from_overrides(overrides));
    let zone_known: bool = match &raw.default_timezone {
        Some(timezone) => {
            if text_eq(timezone.as_str(), "local") {
                true
            } else {
                let known: bool = outside::zone_is_known(timezone.as_str());
                assert(zone_asked(timezone@, known));
                known
            }
        },
        None => true,
    };
    assert(zone_checked(layers, zone_known));
    let r: Result<Config, ConfigError> = validate(raw, zone_known);
    assert(loaded_config(layers, zone_known, r));
    r
}

} // verus!
