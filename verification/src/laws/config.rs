//! How the layers of the configuration come together.
use crate::domain::duration::{duration_of_text, lemma_duration_round_trip, DurationError};
use crate::domain::environment::Entries;
use crate::domain::execution::optional_text;
use crate::domain::schedule::RuntimeTier;
use crate::infrastructure::config::{
    all_layers, lemma_other_variables_are_ignored, loaded_config, number_named, variables_layer,
    with_variable, ColorMode, Config, ConfigError, ConfigFault, ConfigOverrides, RawConfig,
    RawModel, RedactedConfig, Verbosity,
};
use crate::text::{all_digits, digits_value, lemma_digits_value_bounds, starts_with, unsigned_value};
use vstd::prelude::*;

verus! {

broadcast use vstd::seq::group_seq_axioms;

// ---------------------------------------------------------------------------------------------
// Layers
// ---------------------------------------------------------------------------------------------
/// What the command line gives, else what the environment gives, else what the file gives, else the
/// default.
pub open spec fn highest<T>(
    command_line: Option<T>,
    environment: Option<T>,
    file: Option<T>,
    default: T,
) -> T {
    match (command_line, environment, file) {
        (Some(value), _, _) => value,
        (None, Some(value), _) => value,
        (None, None, Some(value)) => value,
        (None, None, None) => default,
    }
}

/// The fields that a configuration file gives; none where there is no file.
pub open spec fn file_fields(file: Option<RawConfig>) -> RawConfig {
    match file {
        Some(raw) => raw,
        None => RawConfig {
            default_timezone: None,
            default_runtime: None,
            default_shell: None,
            cancel_grace: None,
            history_days: None,
            terminal_job_days: None,
            max_log_bytes_per_stream: None,
            color: None,
            verbosity: None,
        },
    }
}

/// Each field of the configuration is decided by the highest layer that gives it: the command line, then
/// the environment, then the file; what none gives has its default.
pub proof fn lemma_highest_layer_decides(
    file: Option<RawConfig>,
    variables: Entries,
    environment: RawModel,
    overrides: ConfigOverrides,
    zone_known: bool,
    config: Config,
)
    requires
        variables_layer(variables) == Ok::<RawModel, ConfigFault>(environment),
        loaded_config(
            all_layers(file, variables, overrides@),
            zone_known,
            Ok::<Config, ConfigError>(config),
        ),
    ensures
        config@.default_timezone == highest(
            optional_text(overrides.default_timezone),
            environment.default_timezone,
            optional_text(file_fields(file).default_timezone),
            "local"@,
        ),
        config@.default_runtime == highest(
            overrides.default_runtime,
            environment.default_runtime,
            file_fields(file).default_runtime,
            RuntimeTier::Session,
        ),
        config@.default_shell == highest(
            optional_text(overrides.default_shell),
            environment.default_shell,
            optional_text(file_fields(file).default_shell),
            "/bin/sh"@,
        ),
        duration_of_text(
            highest(
                optional_text(overrides.cancel_grace),
                environment.cancel_grace,
                optional_text(file_fields(file).cancel_grace),
                "10s"@,
            ),
        ) == Ok::<u64, DurationError>(config@.cancel_grace),
        config@.history_days == highest(
            overrides.history_days,
            environment.history_days,
            file_fields(file).history_days,
            30,
        ),
        config@.terminal_job_days == highest(
            overrides.terminal_job_days,
            environment.terminal_job_days,
            file_fields(file).terminal_job_days,
            30,
        ),
        config@.max_log_bytes_per_stream == highest(
            overrides.max_log_bytes_per_stream,
            environment.max_log_bytes_per_stream,
            file_fields(file).max_log_bytes_per_stream,
            10_485_760,
        ),
        config@.color == highest(
            overrides.color,
            environment.color,
            file_fields(file).color,
            ColorMode::Auto,
        ),
        config@.verbosity == highest(
            overrides.verbosity,
            environment.verbosity,
            file_fields(file).verbosity,
            Verbosity::Normal,
        ),
{
}

/// The values that are checked: the time zone is the machine's own or one that it knows, the shell is an
/// absolute path, the grace is a duration, days are counted up to ten years of 365 days, and a log has
/// at most a gibibyte.
pub proof fn lemma_configuration_is_checked(
    file: Option<RawConfig>,
    variables: Entries,
    environment: RawModel,
    overrides: ConfigOverrides,
    zone_known: bool,
    r: Result<Config, ConfigError>,
)
    requires
        variables_layer(variables) == Ok::<RawModel, ConfigFault>(environment),
        loaded_config(all_layers(file, variables, overrides@), zone_known, r),
    ensures
        ({
            let zone = highest(
                optional_text(overrides.default_timezone),
                environment.default_timezone,
                optional_text(file_fields(file).default_timezone),
                "local"@,
            );
            let shell = highest(
                optional_text(overrides.default_shell),
                environment.default_shell,
                optional_text(file_fields(file).default_shell),
                "/bin/sh"@,
            );
            let grace = highest(
                optional_text(overrides.cancel_grace),
                environment.cancel_grace,
                optional_text(file_fields(file).cancel_grace),
                "10s"@,
            );
            let history = highest(
                overrides.history_days,
                environment.history_days,
                file_fields(file).history_days,
                30,
            );
            let ended = highest(
                overrides.terminal_job_days,
                environment.terminal_job_days,
                file_fields(file).terminal_job_days,
                30,
            );
            let bytes = highest(
                overrides.max_log_bytes_per_stream,
                environment.max_log_bytes_per_stream,
                file_fields(file).max_log_bytes_per_stream,
                10_485_760,
            );
            let zone_fits = zone == "local"@ || zone_known;
            let shell_fits = shell.len() > 0 && shell[0] == '/' && !shell.contains('\0');
            let grace_fits = duration_of_text(grace) is Ok;
            let days_fit = 1 <= history <= 3650 && 1 <= ended <= 3650;
            let bytes_fit = 1 <= bytes <= 1024 * 1024 * 1024;
            &&& r is Ok <==> zone_fits && shell_fits && grace_fits && days_fit && bytes_fit
            &&& !zone_fits ==> r->Err_0@ == ConfigFault::InvalidField("default_timezone")
            &&& zone_fits && !shell_fits ==> r->Err_0@ == ConfigFault::InvalidField("default_shell")
            &&& zone_fits && shell_fits && !grace_fits ==> r->Err_0@ == ConfigFault::InvalidField(
                "cancel_grace",
            )
            &&& zone_fits && shell_fits && grace_fits && !days_fit ==> r->Err_0@
                == ConfigFault::InvalidField("retention_days")
            &&& zone_fits && shell_fits && grace_fits && days_fit && !bytes_fit ==> r->Err_0@
                == ConfigFault::InvalidField("max_log_bytes_per_stream")
        }),
{
}

// ---------------------------------------------------------------------------------------------
// Environment variables
// ---------------------------------------------------------------------------------------------
/// The text names the runtime.
pub open spec fn names_runtime(text: Seq<char>, tier: RuntimeTier) -> bool {
    match tier {
        RuntimeTier::Session => text == "session"@,
        RuntimeTier::Durable => text == "durable"@,
    }
}

/// The text names the colour mode.
pub open spec fn names_color(text: Seq<char>, color: ColorMode) -> bool {
    match color {
        ColorMode::Auto => text == "auto"@,
        ColorMode::Always => text == "always"@,
        ColorMode::Never => text == "never"@,
    }
}

/// The text names the verbosity.
pub open spec fn names_verbosity(text: Seq<char>, verbosity: Verbosity) -> bool {
    match verbosity {
        Verbosity::Quiet => text == "quiet"@,
        Verbosity::Normal => text == "normal"@,
        Verbosity::Verbose => text == "verbose"@,
    }
}

/// The text writes the number in decimal, with or without a plus sign.
pub open spec fn writes_number(text: Seq<char>, number: int) -> bool {
    ||| text.len() > 0 && all_digits(text) && digits_value(text) == number
    ||| text.len() > 1 && text[0] == '+' && all_digits(text.drop_first()) && digits_value(
        text.drop_first(),
    ) == number
}

/// The layer has the value in the field that the variable stands for.
pub open spec fn holds_variable(layer: RawModel, name: Seq<char>, value: Seq<char>) -> bool {
    &&& name == "ATX_DEFAULT_TIMEZONE"@ ==> (layer.default_timezone == Some(value))
    &&& name == "ATX_DEFAULT_RUNTIME"@ ==> (layer.default_runtime matches Some(tier)
        && names_runtime(value, tier))
    &&& name == "ATX_DEFAULT_SHELL"@ ==> (layer.default_shell == Some(value))
    &&& name == "ATX_CANCEL_GRACE"@ ==> (layer.cancel_grace == Some(value))
    &&& name == "ATX_HISTORY_DAYS"@ ==> (layer.history_days matches Some(number)
        && writes_number(value, number as int))
    &&& name == "ATX_TERMINAL_JOB_DAYS"@ ==> (layer.terminal_job_days matches Some(number)
        && writes_number(value, number as int))
    &&& name == "ATX_MAX_LOG_BYTES_PER_STREAM"@ ==> (layer.max_log_bytes_per_stream matches Some(number)
        && writes_number(value, number as int))
    &&& name == "ATX_COLOR"@ ==> (layer.color matches Some(color) && names_color(value, color))
    &&& name == "ATX_VERBOSITY"@ ==> (layer.verbosity matches Some(verbosity)
        && names_verbosity(value, verbosity))
}

/// The two layers agree on the field that the variable stands for.
spec fn same_field(a: RawModel, b: RawModel, name: Seq<char>) -> bool {
    &&& name == "ATX_DEFAULT_TIMEZONE"@ ==> a.default_timezone == b.default_timezone
    &&& name == "ATX_DEFAULT_RUNTIME"@ ==> a.default_runtime == b.default_runtime
    &&& name == "ATX_DEFAULT_SHELL"@ ==> a.default_shell == b.default_shell
    &&& name == "ATX_CANCEL_GRACE"@ ==> a.cancel_grace == b.cancel_grace
    &&& name == "ATX_HISTORY_DAYS"@ ==> a.history_days == b.history_days
    &&& name == "ATX_TERMINAL_JOB_DAYS"@ ==> a.terminal_job_days == b.terminal_job_days
    &&& name == "ATX_MAX_LOG_BYTES_PER_STREAM"@ ==> a.max_log_bytes_per_stream
        == b.max_log_bytes_per_stream
    &&& name == "ATX_COLOR"@ ==> a.color == b.color
    &&& name == "ATX_VERBOSITY"@ ==> a.verbosity == b.verbosity
}

/// The variables have different names.
proof fn lemma_names_differ()
    ensures
        "ATX_DEFAULT_TIMEZONE"@ != "ATX_DEFAULT_RUNTIME"@,
        "ATX_DEFAULT_TIMEZONE"@ != "ATX_DEFAULT_SHELL"@,
        "ATX_DEFAULT_RUNTIME"@ != "ATX_DEFAULT_SHELL"@,
        "ATX_DEFAULT_TIMEZONE"@ != "ATX_CANCEL_GRACE"@,
        "ATX_DEFAULT_RUNTIME"@ != "ATX_CANCEL_GRACE"@,
        "ATX_DEFAULT_SHELL"@ != "ATX_CANCEL_GRACE"@,
        "ATX_DEFAULT_TIMEZONE"@ != "ATX_HISTORY_DAYS"@,
        "ATX_DEFAULT_RUNTIME"@ != "ATX_HISTORY_DAYS"@,
        "ATX_DEFAULT_SHELL"@ != "ATX_HISTORY_DAYS"@,
        "ATX_CANCEL_GRACE"@ != "ATX_HISTORY_DAYS"@,
        "ATX_DEFAULT_TIMEZONE"@ != "ATX_TERMINAL_JOB_DAYS"@,
        "ATX_DEFAULT_RUNTIME"@ != "ATX_TERMINAL_JOB_DAYS"@,
        "ATX_DEFAULT_SHELL"@ != "ATX_TERMINAL_JOB_DAYS"@,
        "ATX_CANCEL_GRACE"@ != "ATX_TERMINAL_JOB_DAYS"@,
        "ATX_HISTORY_DAYS"@ != "ATX_TERMINAL_JOB_DAYS"@,
        "ATX_DEFAULT_TIMEZONE"@ != "ATX_MAX_LOG_BYTES_PER_STREAM"@,
        "ATX_DEFAULT_RUNTIME"@ != "ATX_MAX_LOG_BYTES_PER_STREAM"@,
        "ATX_DEFAULT_SHELL"@ != "ATX_MAX_LOG_BYTES_PER_STREAM"@,
        "ATX_CANCEL_GRACE"@ != "ATX_MAX_LOG_BYTES_PER_STREAM"@,
        "ATX_HISTORY_DAYS"@ != "ATX_MAX_LOG_BYTES_PER_STREAM"@,
        "ATX_TERMINAL_JOB_DAYS"@ != "ATX_MAX_LOG_BYTES_PER_STREAM"@,
        "ATX_DEFAULT_TIMEZONE"@ != "ATX_COLOR"@,
        "ATX_DEFAULT_RUNTIME"@ != "ATX_COLOR"@,
        "ATX_DEFAULT_SHELL"@ != "ATX_COLOR"@,
        "ATX_CANCEL_GRACE"@ != "ATX_COLOR"@,
        "ATX_HISTORY_DAYS"@ != "ATX_COLOR"@,
        "ATX_TERMINAL_JOB_DAYS"@ != "ATX_COLOR"@,
        "ATX_MAX_LOG_BYTES_PER_STREAM"@ != "ATX_COLOR"@,
        "ATX_DEFAULT_TIMEZONE"@ != "ATX_VERBOSITY"@,
        "ATX_DEFAULT_RUNTIME"@ != "ATX_VERBOSITY"@,
        "ATX_DEFAULT_SHELL"@ != "ATX_VERBOSITY"@,
        "ATX_CANCEL_GRACE"@ != "ATX_VERBOSITY"@,
        "ATX_HISTORY_DAYS"@ != "ATX_VERBOSITY"@,
        "ATX_TERMINAL_JOB_DAYS"@ != "ATX_VERBOSITY"@,
        "ATX_MAX_LOG_BYTES_PER_STREAM"@ != "ATX_VERBOSITY"@,
        "ATX_COLOR"@ != "ATX_VERBOSITY"@,
{
    reveal_strlit("ATX_DEFAULT_TIMEZONE");
    reveal_strlit("ATX_DEFAULT_RUNTIME");
    reveal_strlit("ATX_DEFAULT_SHELL");
    reveal_strlit("ATX_CANCEL_GRACE");
    reveal_strlit("ATX_HISTORY_DAYS");
    reveal_strlit("ATX_TERMINAL_JOB_DAYS");
    reveal_strlit("ATX_MAX_LOG_BYTES_PER_STREAM");
    reveal_strlit("ATX_COLOR");
    reveal_strlit("ATX_VERBOSITY");
    assert("ATX_CANCEL_GRACE"@.len() == 16);
    assert("ATX_COLOR"@.len() == 9);
    assert("ATX_DEFAULT_RUNTIME"@.len() == 19);
    assert("ATX_DEFAULT_SHELL"@.len() == 17);
    assert("ATX_DEFAULT_TIMEZONE"@.len() == 20);
    assert("ATX_HISTORY_DAYS"@.len() == 16);
    assert("ATX_MAX_LOG_BYTES_PER_STREAM"@.len() == 28);
    assert("ATX_TERMINAL_JOB_DAYS"@.len() == 21);
    assert("ATX_VERBOSITY"@.len() == 13);
    assert("ATX_CANCEL_GRACE"@[4] != "ATX_HISTORY_DAYS"@[4]);
}

proof fn lemma_one_variable(raw: RawModel, key: Seq<char>, value: Seq<char>, name: Seq<char>)
    requires
        with_variable(raw, key, value) is Ok,
    ensures
        holds_variable(with_variable(raw, key, value)->Ok_0, key, value),
        key != name ==> same_field(raw, with_variable(raw, key, value)->Ok_0, name),
{
    lemma_names_differ();
    lemma_number_is_not_negative(value);
    if value.len() > 0 && value[0] == '+' {
        assert(!all_digits(value));
    }
    if key == "ATX_DEFAULT_TIMEZONE"@ {
        assert(holds_variable(with_variable(raw, key, value)->Ok_0, key, value));
    } else if key == "ATX_DEFAULT_RUNTIME"@ {
        assert(holds_variable(with_variable(raw, key, value)->Ok_0, key, value));
    } else if key == "ATX_DEFAULT_SHELL"@ {
        assert(holds_variable(with_variable(raw, key, value)->Ok_0, key, value));
    } else if key == "ATX_CANCEL_GRACE"@ {
        assert(holds_variable(with_variable(raw, key, value)->Ok_0, key, value));
    } else if key == "ATX_HISTORY_DAYS"@ {
        assert(holds_variable(with_variable(raw, key, value)->Ok_0, key, value));
    } else if key == "ATX_TERMINAL_JOB_DAYS"@ {
        assert(holds_variable(with_variable(raw, key, value)->Ok_0, key, value));
    } else if key == "ATX_MAX_LOG_BYTES_PER_STREAM"@ {
        assert(holds_variable(with_variable(raw, key, value)->Ok_0, key, value));
    } else if key == "ATX_COLOR"@ {
        assert(holds_variable(with_variable(raw, key, value)->Ok_0, key, value));
    } else if key == "ATX_VERBOSITY"@ {
        assert(holds_variable(with_variable(raw, key, value)->Ok_0, key, value));
    }
}

proof fn lemma_number_is_not_negative(value: Seq<char>)
    ensures
        unsigned_value(value) matches Some(number) ==> number >= 0,
{
    if value.len() > 0 && value[0] == '+' {
        if all_digits(value.drop_first()) {
            lemma_digits_value_bounds(value.drop_first());
        }
    } else if all_digits(value) {
        lemma_digits_value_bounds(value);
    }
}

/// A variable decides its field: of several with the same name the last one counts.
pub proof fn lemma_variable_decides_its_field(variables: Entries, layer: RawModel, at: int)
    requires
        variables_layer(variables) == Ok::<RawModel, ConfigFault>(layer),
        0 <= at < variables.len(),
        forall|i: int| at < i < variables.len() ==> (#[trigger] variables[i]).0 != variables[at].0,
    ensures
        holds_variable(layer, variables[at].0, variables[at].1),
    decreases variables.len(),
{
    let before = variables_layer(variables.drop_last())->Ok_0;
    let last = variables.last();
    lemma_one_variable(before, last.0, last.1, variables[at].0);
    if at < variables.len() - 1 {
        assert(variables[variables.len() - 1] == last);
        assert forall|i: int| at < i < variables.drop_last().len() implies (
        #[trigger] variables.drop_last()[i]).0 != variables.drop_last()[at].0 by {
            assert(variables.drop_last()[i] == variables[i]);
        }
        lemma_variable_decides_its_field(variables.drop_last(), before, at);
    }
}

/// A field whose variable is not set is not given by the environment.
pub proof fn lemma_missing_variable_gives_nothing(variables: Entries, layer: RawModel)
    requires
        variables_layer(variables) == Ok::<RawModel, ConfigFault>(layer),
    ensures
        !is_set(variables, "ATX_DEFAULT_TIMEZONE"@) ==> layer.default_timezone is None,
        !is_set(variables, "ATX_DEFAULT_RUNTIME"@) ==> layer.default_runtime is None,
        !is_set(variables, "ATX_DEFAULT_SHELL"@) ==> layer.default_shell is None,
        !is_set(variables, "ATX_CANCEL_GRACE"@) ==> layer.cancel_grace is None,
        !is_set(variables, "ATX_HISTORY_DAYS"@) ==> layer.history_days is None,
        !is_set(variables, "ATX_TERMINAL_JOB_DAYS"@) ==> layer.terminal_job_days is None,
        !is_set(variables, "ATX_MAX_LOG_BYTES_PER_STREAM"@) ==> layer.max_log_bytes_per_stream is None,
        !is_set(variables, "ATX_COLOR"@) ==> layer.color is None,
        !is_set(variables, "ATX_VERBOSITY"@) ==> layer.verbosity is None,
    decreases variables.len(),
{
    if variables.len() > 0 {
        let before = variables_layer(variables.drop_last())->Ok_0;
        let last = variables.last();
        assert(variables[variables.len() - 1] == last);
        lemma_missing_variable_gives_nothing(variables.drop_last(), before);
        lemma_set_earlier(variables, "ATX_DEFAULT_TIMEZONE"@);
        lemma_one_variable(before, last.0, last.1, "ATX_DEFAULT_TIMEZONE"@);
        lemma_set_earlier(variables, "ATX_DEFAULT_RUNTIME"@);
        lemma_one_variable(before, last.0, last.1, "ATX_DEFAULT_RUNTIME"@);
        lemma_set_earlier(variables, "ATX_DEFAULT_SHELL"@);
        lemma_one_variable(before, last.0, last.1, "ATX_DEFAULT_SHELL"@);
        lemma_set_earlier(variables, "ATX_CANCEL_GRACE"@);
        lemma_one_variable(before, last.0, last.1, "ATX_CANCEL_GRACE"@);
        lemma_set_earlier(variables, "ATX_HISTORY_DAYS"@);
        lemma_one_variable(before, last.0, last.1, "ATX_HISTORY_DAYS"@);
        lemma_set_earlier(variables, "ATX_TERMINAL_JOB_DAYS"@);
        lemma_one_variable(before, last.0, last.1, "ATX_TERMINAL_JOB_DAYS"@);
        lemma_set_earlier(variables, "ATX_MAX_LOG_BYTES_PER_STREAM"@);
        lemma_one_variable(before, last.0, last.1, "ATX_MAX_LOG_BYTES_PER_STREAM"@);
        lemma_set_earlier(variables, "ATX_COLOR"@);
        lemma_one_variable(before, last.0, last.1, "ATX_COLOR"@);
        lemma_set_earlier(variables, "ATX_VERBOSITY"@);
        lemma_one_variable(before, last.0, last.1, "ATX_VERBOSITY"@);
    }
}

/// The variable is set.
pub open spec fn is_set(variables: Entries, name: Seq<char>) -> bool {
    exists|i: int| 0 <= i < variables.len() && (#[trigger] variables[i]).0 == name
}

proof fn lemma_set_earlier(variables: Entries, name: Seq<char>)
    requires
        variables.len() > 0,
    ensures
        is_set(variables.drop_last(), name) ==> is_set(variables, name),
        variables.last().0 == name ==> is_set(variables, name),
{
    if is_set(variables.drop_last(), name) {
        let i = choose|i: int|
            0 <= i < variables.drop_last().len() && (#[trigger] variables.drop_last()[i]).0 == name;
        assert(variables[i].0 == name);
    }
    assert(variables[variables.len() - 1] == variables.last());
}

/// The library's own variables are checked: one with an unknown name is refused, and so is one whose
/// value cannot be read. Variables of other programs are not looked at.
pub proof fn lemma_variables_are_checked(variables: Entries, name: Seq<char>, value: Seq<char>)
    requires
        variables_layer(variables) is Ok,
    ensures
        ({
            let r = variables_layer(variables.push((name, value)));
            &&& !starts_with(name, "ATX_"@) ==> r == variables_layer(variables)
            &&& name == "ATX_DEFAULT_TIMEZONE"@ ==> r is Ok
            &&& name == "ATX_DEFAULT_RUNTIME"@ && !(value == "session"@ || value == "durable"@) ==> r == Err::<
                RawModel,
                ConfigFault,
            >(ConfigFault::InvalidEnvironment(name))
            &&& name == "ATX_DEFAULT_SHELL"@ ==> r is Ok
            &&& name == "ATX_CANCEL_GRACE"@ ==> r is Ok
            &&& name == "ATX_HISTORY_DAYS"@ && !(exists|number: u16| #[trigger]
                writes_number(value, number as int)) ==> r == Err::<RawModel, ConfigFault>(
                ConfigFault::InvalidEnvironment(name),
            )
            &&& name == "ATX_TERMINAL_JOB_DAYS"@ && !(exists|number: u16| #[trigger]
                writes_number(value, number as int)) ==> r == Err::<RawModel, ConfigFault>(
                ConfigFault::InvalidEnvironment(name),
            )
            &&& name == "ATX_MAX_LOG_BYTES_PER_STREAM"@ && !(exists|number: u64| #[trigger]
                writes_number(value, number as int)) ==> r == Err::<RawModel, ConfigFault>(
                ConfigFault::InvalidEnvironment(name),
            )
            &&& name == "ATX_COLOR"@ && !(value == "auto"@ || value == "always"@ || value == "never"@)
                ==> r == Err::<RawModel, ConfigFault>(ConfigFault::InvalidEnvironment(name))
            &&& name == "ATX_VERBOSITY"@ && !(value == "quiet"@ || value == "normal"@ || value
                == "verbose"@) ==> r == Err::<RawModel, ConfigFault>(
                ConfigFault::InvalidEnvironment(name),
            )
            &&& starts_with(name, "ATX_"@) && !known_name(name) ==> r == Err::<
                RawModel,
                ConfigFault,
            >(ConfigFault::UnknownEnvironment(name))
        }),
{
    let more = variables.push((name, value));
    assert(more.drop_last() =~= variables);
    assert(more.last() == (name, value));
    assert(variables_layer(more) == with_variable(variables_layer(variables)->Ok_0, name, value));
    lemma_number_is_not_negative(value);
    lemma_names_differ();
    reveal_strlit("ATX_");
    reveal_strlit("ATX_DEFAULT_TIMEZONE");
    reveal_strlit("ATX_DEFAULT_RUNTIME");
    reveal_strlit("ATX_DEFAULT_SHELL");
    reveal_strlit("ATX_CANCEL_GRACE");
    reveal_strlit("ATX_HISTORY_DAYS");
    reveal_strlit("ATX_TERMINAL_JOB_DAYS");
    reveal_strlit("ATX_MAX_LOG_BYTES_PER_STREAM");
    reveal_strlit("ATX_COLOR");
    reveal_strlit("ATX_VERBOSITY");
    if !starts_with(name, "ATX_"@) {
        lemma_other_variables_are_ignored(
            variables_layer(variables)->Ok_0,
            name,
            value,
        );
    }
    let given = number_named(value, u64::MAX as int);
    let small = number_named(value, u16::MAX as int);
    if value.len() > 0 && value[0] == '+' {
        assert(!all_digits(value));
    }
    if let Some(number) = given {
        assert(writes_number(value, number as u64 as int));
    }
    if let Some(number) = small {
        assert(writes_number(value, number as u16 as int));
    }
}

/// The variable is one that the configuration has.
pub open spec fn known_name(name: Seq<char>) -> bool {
    ||| name == "ATX_DEFAULT_TIMEZONE"@
    ||| name == "ATX_DEFAULT_RUNTIME"@
    ||| name == "ATX_DEFAULT_SHELL"@
    ||| name == "ATX_CANCEL_GRACE"@
    ||| name == "ATX_HISTORY_DAYS"@
    ||| name == "ATX_TERMINAL_JOB_DAYS"@
    ||| name == "ATX_MAX_LOG_BYTES_PER_STREAM"@
    ||| name == "ATX_COLOR"@
    ||| name == "ATX_VERBOSITY"@
}

/// What is printed of the configuration are its effective fields.
pub proof fn lemma_printed_configuration(config: &Config, r: RedactedConfig)
    requires
        call_ensures(Config::redacted, (config,), r),
    ensures
        r.default_timezone@ == config@.default_timezone,
        r.default_runtime == config@.default_runtime,
        r.default_shell@ == config@.default_shell,
        1 <= config@.cancel_grace <= 31_536_000 ==> duration_of_text(r.cancel_grace@) == Ok::<
            u64,
            DurationError,
        >(config@.cancel_grace),
        r.history_days == config@.history_days,
        r.terminal_job_days == config@.terminal_job_days,
        r.max_log_bytes_per_stream == config@.max_log_bytes_per_stream,
        r.color == config@.color,
        r.verbosity == config@.verbosity,
{
    if 1 <= config@.cancel_grace <= 31_536_000 {
        lemma_duration_round_trip(config@.cancel_grace);
    }
}

} // verus!
