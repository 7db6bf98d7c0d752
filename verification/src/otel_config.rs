//! Which OpenTelemetry signals are exported, and through which exporter,
//! resolved from the standard `OTEL_*` environment values with a fallback on
//! the goose configuration file.
use vstd::prelude::*;

use crate::text::{
    ascii_fold, ascii_lowercase, eq_ignore_ascii_case, seq_eq_ignore_ascii_case, seq_is_ascii, str_eq,
};

verus! {

broadcast use vstd::string::group_string_axioms;

/// The type of exporter to use for a signal.
#[derive(Debug, Clone, Copy, PartialEq, Eq, Structural)]
pub enum ExporterType {
    Otlp,
    Console,
    Disabled,
}

/// The Unicode lowercase mapping of a character sequence, as computed by
/// `str::to_lowercase`.
pub uninterp spec fn unicode_lowercase(s: Seq<char>) -> Seq<char>;

/// `str::to_lowercase`. Trusted: the result is the Unicode lowercase mapping
/// of the input (named, not spelled out); the lowercase of the empty string
/// is empty, and an ASCII string lowercases letter by letter, `A`..=`Z` to
/// `a`..=`z`, everything else unchanged.
#[verifier::external_body]
fn to_lowercase(s: &str) -> (r: String)
    ensures
        r@ == unicode_lowercase(s@),
        s@.len() == 0 ==> r@.len() == 0,
        seq_is_ascii(s@) ==> r@ == ascii_lowercase(s@),
{
    s.to_lowercase()
}

/// The exporter an already lowercased exporter name selects: the empty name
/// and `otlp` select OTLP, `console` and `stdout` the console, anything else
/// none.
pub open spec fn exporter_for_lowercase(v: Seq<char>) -> ExporterType {
    if v.len() == 0 || v == "otlp"@ {
        ExporterType::Otlp
    } else if v == "console"@ || v == "stdout"@ {
        ExporterType::Console
    } else {
        ExporterType::Disabled
    }
}

/// The exporter an `OTEL_*_EXPORTER` value selects, compared after lowercasing.
pub open spec fn exporter_for_env_value(v: Seq<char>) -> ExporterType {
    exporter_for_lowercase(unicode_lowercase(v))
}

impl ExporterType {
    /// Maps an exporter name that is already lowercase to its exporter type.
    pub fn from_lowercase_value(lowered: &str) -> (r: Self)
        ensures
            r == exporter_for_lowercase(lowered@),
    {
        if lowered.unicode_len() == 0 || str_eq(lowered, "otlp") {
            ExporterType::Otlp
        } else if str_eq(lowered, "console") || str_eq(lowered, "stdout") {
            ExporterType::Console
        } else {
            ExporterType::Disabled
        }
    }

    /// Parses an OTel exporter env var value into an ExporterType.
    /// Empty string defaults to Otlp (the OTel SDK default).
    pub fn from_env_value(value: &str) -> (r: Self)
        ensures
            r == exporter_for_env_value(value@),
            value@.len() == 0 ==> r == ExporterType::Otlp,
            seq_is_ascii(value@) ==> r == exporter_for_lowercase(ascii_lowercase(value@)),
    {
        let lowered = to_lowercase(value);
        Self::from_lowercase_value(lowered.as_str())
    }
}

/// The three OpenTelemetry signals.
#[derive(Debug, Clone, Copy, PartialEq, Eq, Structural)]
pub enum Signal {
    Traces,
    Metrics,
    Logs,
}

/// Per-signal configuration. Only contains exporter type since
/// endpoint/timeout/sampler are handled by the SDK automatically.
#[derive(Debug, Clone, Copy, PartialEq, Eq, Structural)]
pub struct SignalConfig {
    pub exporter: ExporterType,
}

/// The character view of an optional string slice.
pub open spec fn opt_view(v: Option<&str>) -> Option<Seq<char>> {
    match v {
        Some(s) => Some(s@),
        None => None,
    }
}

/// `OTEL_SDK_DISABLED` disables the SDK when it is set to `true`, in any ASCII case.
pub open spec fn sdk_disabled(v: Option<Seq<char>>) -> bool {
    match v {
        Some(s) => seq_eq_ignore_ascii_case(s, "true"@),
        None => false,
    }
}

/// The exporter an optional `OTEL_*_EXPORTER` value selects: none when unset.
pub open spec fn exporter_setting(v: Option<Seq<char>>) -> Option<ExporterType> {
    match v {
        Some(s) => Some(exporter_for_env_value(s)),
        None => None,
    }
}

/// A signal is enabled when its exporter variable is set to something other than `none`.
pub open spec fn signal_enabled(v: Option<Seq<char>>) -> bool {
    match exporter_setting(v) {
        Some(e) => e != ExporterType::Disabled,
        None => false,
    }
}

/// How an exporter variable's value selects its exporter, for every value:
/// after lowercasing, the empty value and `otlp` select OTLP, `console` and
/// `stdout` the console, and every other value (`none` among them) selects
/// no exporter and leaves the signal disabled; an unset variable selects
/// nothing and leaves the signal disabled too.
pub proof fn lemma_exporter_values(v: Seq<char>)
    ensures
        exporter_for_lowercase(v) == ExporterType::Otlp <==> (v.len() == 0 || v == "otlp"@),
        exporter_for_lowercase(v) == ExporterType::Console <==> (v.len() != 0 && v != "otlp"@ && (v
            == "console"@ || v == "stdout"@)),
        exporter_setting(Some(v)) == Some(exporter_for_lowercase(unicode_lowercase(v))),
        exporter_setting(None) is None,
        signal_enabled(Some(v)) <==> exporter_for_lowercase(unicode_lowercase(v))
            != ExporterType::Disabled,
        !signal_enabled(None),
{
}

/// Raw env var detection result before config-file fallback.
#[derive(Debug, PartialEq, Eq, Structural)]
pub struct OtelEnv {
    pub traces_enabled: bool,
    pub metrics_enabled: bool,
    pub logs_enabled: bool,
    pub traces_exporter: Option<ExporterType>,
    pub metrics_exporter: Option<ExporterType>,
    pub logs_exporter: Option<ExporterType>,
}

/// What `OtelEnv::detect` yields for the given values of `OTEL_SDK_DISABLED`,
/// `OTEL_TRACES_EXPORTER`, `OTEL_METRICS_EXPORTER` and `OTEL_LOGS_EXPORTER`.
pub closed spec fn spec_detect_env(
    sdk: Option<Seq<char>>,
    traces: Option<Seq<char>>,
    metrics: Option<Seq<char>>,
    logs: Option<Seq<char>>,
) -> Option<OtelEnv> {
    if sdk_disabled(sdk) || (!signal_enabled(traces) && !signal_enabled(metrics)
        && !signal_enabled(logs)) {
        None
    } else {
        Some(
            OtelEnv {
                traces_enabled: signal_enabled(traces),
                metrics_enabled: signal_enabled(metrics),
                logs_enabled: signal_enabled(logs),
                traces_exporter: exporter_setting(traces),
                metrics_exporter: exporter_setting(metrics),
                logs_exporter: exporter_setting(logs),
            },
        )
    }
}

/// What an `OtelEnv` records for each signal: whether it is enabled, and the
/// exporter setting found for it.
impl OtelEnv {
    pub open spec fn traces_on(&self) -> bool {
        self.traces_enabled
    }

    pub open spec fn metrics_on(&self) -> bool {
        self.metrics_enabled
    }

    pub open spec fn logs_on(&self) -> bool {
        self.logs_enabled
    }

    pub open spec fn traces_setting(&self) -> Option<ExporterType> {
        self.traces_exporter
    }

    pub open spec fn metrics_setting(&self) -> Option<ExporterType> {
        self.metrics_exporter
    }

    pub open spec fn logs_setting(&self) -> Option<ExporterType> {
        self.logs_exporter
    }
}

/// The fields of `spec_detect_env`'s result, spelled out for callers outside this module.
pub proof fn lemma_spec_detect_env(
    sdk: Option<Seq<char>>,
    traces: Option<Seq<char>>,
    metrics: Option<Seq<char>>,
    logs: Option<Seq<char>>,
)
    ensures
        spec_detect_env(sdk, traces, metrics, logs).is_none() <==> (sdk_disabled(sdk) || (
        !signal_enabled(traces) && !signal_enabled(metrics) && !signal_enabled(logs))),
        spec_detect_env(sdk, traces, metrics, logs) matches Some(env) ==> {
            &&& env.traces_on() == signal_enabled(traces)
            &&& env.metrics_on() == signal_enabled(metrics)
            &&& env.logs_on() == signal_enabled(logs)
            &&& env.traces_setting() == exporter_setting(traces)
            &&& env.metrics_setting() == exporter_setting(metrics)
            &&& env.logs_setting() == exporter_setting(logs)
        },
{
}

/// `OTEL_SDK_DISABLED` disables the SDK exactly when its value is the four
/// letters `t`, `r`, `u`, `e`, each in either ASCII case; any other value
/// (`0`, `false`, `yes`, `true ` with a space, ...) is treated as if the
/// variable were unset.
pub proof fn lemma_sdk_disabled_value(
    s: Seq<char>,
    traces: Option<Seq<char>>,
    metrics: Option<Seq<char>>,
    logs: Option<Seq<char>>,
)
    ensures
        sdk_disabled(Some(s)) <==> (s.len() == 4 && (s[0] == 't' || s[0] == 'T') && (s[1] == 'r'
            || s[1] == 'R') && (s[2] == 'u' || s[2] == 'U') && (s[3] == 'e' || s[3] == 'E')),
        !sdk_disabled(None),
        sdk_disabled(Some(s)) ==> spec_detect_env(Some(s), traces, metrics, logs).is_none(),
        !sdk_disabled(Some(s)) ==> spec_detect_env(Some(s), traces, metrics, logs)
            == spec_detect_env(None, traces, metrics, logs),
{
    reveal_strlit("true");
    let t = "true"@;
    assert(t.len() == 4 && t[0] == 't' && t[1] == 'r' && t[2] == 'u' && t[3] == 'e');
    if s.len() == 4 {
        lemma_fold_letter(s[0], 't', 'T');
        lemma_fold_letter(s[1], 'r', 'R');
        lemma_fold_letter(s[2], 'u', 'U');
        lemma_fold_letter(s[3], 'e', 'E');
        if (s[0] == 't' || s[0] == 'T') && (s[1] == 'r' || s[1] == 'R') && (s[2] == 'u' || s[2]
            == 'U') && (s[3] == 'e' || s[3] == 'E') {
            assert forall|i: int| 0 <= i < s.len() implies ascii_fold(#[trigger] s[i]) == ascii_fold(
                t[i],
            ) by {
                if i == 0 {
                } else if i == 1 {
                } else if i == 2 {
                } else {
                }
            }
            assert(seq_eq_ignore_ascii_case(s, t));
        }
        if seq_eq_ignore_ascii_case(s, t) {
            assert(ascii_fold(s[0]) == ascii_fold(t[0]));
            assert(ascii_fold(s[1]) == ascii_fold(t[1]));
            assert(ascii_fold(s[2]) == ascii_fold(t[2]));
            assert(ascii_fold(s[3]) == ascii_fold(t[3]));
        }
    }
}

/// A character folds to the small letter `lower` exactly when it is `lower`
/// or the matching capital `upper`.
proof fn lemma_fold_letter(c: char, lower: char, upper: char)
    requires
        97 <= lower as u32 <= 122,
        lower as u32 == upper as u32 + 32,
    ensures
        ascii_fold(c) == ascii_fold(lower) <==> (c == lower || c == upper),
{
}

/// Whether an optional exporter setting enables its signal.
fn setting_enables(setting: &Option<ExporterType>) -> (r: bool)
    ensures
        r == (setting matches Some(e) && e != ExporterType::Disabled),
{
    match setting {
        Some(e) => !matches!(e, ExporterType::Disabled),
        None => false,
    }
}

/// Whether an optional value is absent or all ASCII.
pub open spec fn ascii_input(v: Option<Seq<char>>) -> bool {
    match v {
        Some(s) => seq_is_ascii(s),
        None => true,
    }
}

/// The exporter an optional ASCII value selects, lowercased letter by letter.
pub open spec fn ascii_setting(v: Option<Seq<char>>) -> Option<ExporterType> {
    match v {
        Some(s) => Some(exporter_for_lowercase(ascii_lowercase(s))),
        None => None,
    }
}

fn setting_of(value: Option<&str>) -> (r: Option<ExporterType>)
    ensures
        r == exporter_setting(opt_view(value)),
        ascii_input(opt_view(value)) ==> r == ascii_setting(opt_view(value)),
{
    match value {
        Some(v) => Some(ExporterType::from_env_value(v)),
        None => None,
    }
}

impl OtelEnv {
    /// Detects OTel configuration from the values of the environment variables
    /// `OTEL_SDK_DISABLED`, `OTEL_TRACES_EXPORTER`, `OTEL_METRICS_EXPORTER` and
    /// `OTEL_LOGS_EXPORTER` (`None` where a variable is unset).
    /// Returns None if SDK is disabled or no signals are enabled.
    pub fn detect(
        sdk_disabled_value: Option<&str>,
        traces_value: Option<&str>,
        metrics_value: Option<&str>,
        logs_value: Option<&str>,
    ) -> (r: Option<Self>)
        ensures
            r == spec_detect_env(
                opt_view(sdk_disabled_value),
                opt_view(traces_value),
                opt_view(metrics_value),
                opt_view(logs_value),
            ),
            r.is_none() <==> (sdk_disabled(opt_view(sdk_disabled_value)) || (!signal_enabled(
                opt_view(traces_value),
            ) && !signal_enabled(opt_view(metrics_value)) && !signal_enabled(
                opt_view(logs_value),
            ))),
            r matches Some(env) ==> {
                &&& env.traces_enabled == signal_enabled(opt_view(traces_value))
                &&& env.metrics_enabled == signal_enabled(opt_view(metrics_value))
                &&& env.logs_enabled == signal_enabled(opt_view(logs_value))
            },
            ascii_input(opt_view(traces_value)) ==> exporter_setting(opt_view(traces_value))
                == ascii_setting(opt_view(traces_value)),
            ascii_input(opt_view(metrics_value)) ==> exporter_setting(opt_view(metrics_value))
                == ascii_setting(opt_view(metrics_value)),
            ascii_input(opt_view(logs_value)) ==> exporter_setting(opt_view(logs_value))
                == ascii_setting(opt_view(logs_value)),
    {
        let traces_exporter = setting_of(traces_value);
        let metrics_exporter = setting_of(metrics_value);
        let logs_exporter = setting_of(logs_value);

        // OTEL_SDK_DISABLED=true disables everything
        let disabled = match sdk_disabled_value {
            Some(v) => eq_ignore_ascii_case(v, "true"),
            None => false,
        };
        if disabled {
            return None;
        }

        let traces_enabled = setting_enables(&traces_exporter);
        let metrics_enabled = setting_enables(&metrics_exporter);
        let logs_enabled = setting_enables(&logs_exporter);

        if !traces_enabled && !metrics_enabled && !logs_enabled {
            return None;
        }

        Some(
            Self {
                traces_enabled,
                metrics_enabled,
                logs_enabled,
                traces_exporter,
                metrics_exporter,
                logs_exporter,
            },
        )
    }
}

/// Resolved OTel configuration after env + config-file cascade.
#[derive(Debug, Clone, Copy, PartialEq, Eq, Structural)]
pub struct OtelConfig {
    pub traces: Option<SignalConfig>,
    pub metrics: Option<SignalConfig>,
    pub logs: Option<SignalConfig>,
}

/// The configuration of one signal as the environment decides it: present
/// when the signal is enabled, with the recorded exporter (OTLP when none
/// was recorded).
pub open spec fn signal_from_env(enabled: bool, setting: Option<ExporterType>) -> Option<
    SignalConfig,
> {
    if enabled {
        Some(
            SignalConfig {
                exporter: match setting {
                    Some(e) => e,
                    None => ExporterType::Otlp,
                },
            },
        )
    } else {
        None
    }
}

/// The configuration an `OtelEnv` resolves to.
pub open spec fn config_from_env(env: OtelEnv) -> OtelConfig {
    OtelConfig {
        traces: signal_from_env(env.traces_on(), env.traces_setting()),
        metrics: signal_from_env(env.metrics_on(), env.metrics_setting()),
        logs: signal_from_env(env.logs_on(), env.logs_setting()),
    }
}

/// The configuration the goose config file yields: all three signals over
/// OTLP when an OTLP endpoint is configured there, nothing otherwise.
pub open spec fn config_from_file(endpoint_configured: bool) -> Option<OtelConfig> {
    if endpoint_configured {
        let signal = SignalConfig { exporter: ExporterType::Otlp };
        Some(OtelConfig { traces: Some(signal), metrics: Some(signal), logs: Some(signal) })
    } else {
        None
    }
}

/// The cascade: the environment's configuration when it enables anything,
/// the config file's otherwise.
pub open spec fn spec_detect_config(env: Option<OtelEnv>, endpoint_configured: bool) -> Option<
    OtelConfig,
> {
    match env {
        Some(e) => Some(config_from_env(e)),
        None => config_from_file(endpoint_configured),
    }
}

fn signal_config(enabled: bool, setting: Option<ExporterType>) -> (r: Option<SignalConfig>)
    ensures
        r == signal_from_env(enabled, setting),
{
    if enabled {
        Some(
            SignalConfig {
                exporter: match setting {
                    Some(e) => e,
                    None => ExporterType::Otlp,
                },
            },
        )
    } else {
        None
    }
}

impl OtelConfig {
    /// Detects OTel configuration with cascade: env vars → config file fallback.
    /// `env` is the result of `OtelEnv::detect`; `config_endpoint` is the
    /// `otel_exporter_otlp_endpoint` entry of the goose config file, read
    /// only when `env` is `None` (it is ignored otherwise).
    pub fn detect(env: Option<OtelEnv>, config_endpoint: Option<&str>) -> (r: Option<Self>)
        ensures
            r == spec_detect_config(env, config_endpoint.is_some()),
    {
        if let Some(env) = env {
            // Env vars are set — use them directly
            let traces = signal_config(env.traces_enabled, env.traces_exporter);
            let metrics = signal_config(env.metrics_enabled, env.metrics_exporter);
            let logs = signal_config(env.logs_enabled, env.logs_exporter);
            return Some(Self { traces, metrics, logs });
        }
        // Fall back to config file — if endpoint is present, enable all signals as OTLP
        Self::detect_from_config(config_endpoint)
    }

    /// Fallback: the goose config file's `otel_exporter_otlp_endpoint` entry,
    /// when present, enables all three signals over OTLP.
    pub fn detect_from_config(config_endpoint: Option<&str>) -> (r: Option<Self>)
        ensures
            r == config_from_file(config_endpoint.is_some()),
    {
        match config_endpoint {
            Some(_) => {
                let signal = SignalConfig { exporter: ExporterType::Otlp };
                Some(Self { traces: Some(signal), metrics: Some(signal), logs: Some(signal) })
            },
            None => None,
        }
    }
}

/// The environment takes precedence over the config file: once the
/// environment enables a signal, the config file's endpoint makes no
/// difference to the resolved configuration.
pub proof fn lemma_env_takes_precedence(env: OtelEnv, endpoint_a: bool, endpoint_b: bool)
    ensures
        spec_detect_config(Some(env), endpoint_a) == spec_detect_config(Some(env), endpoint_b),
{
}

/// The whole cascade, from the four environment values and the presence of
/// a config-file endpoint:
/// - nothing is configured exactly when the environment enables nothing (or
///   disables the SDK) and the config file has no endpoint;
/// - when the environment enables something, a signal is configured exactly
///   when its exporter variable is set to something other than `none`, with
///   the exporter that value names;
/// - otherwise all three signals use OTLP;
/// - a resolved signal never has the `none` exporter.
pub proof fn lemma_cascade(
    sdk: Option<Seq<char>>,
    traces: Option<Seq<char>>,
    metrics: Option<Seq<char>>,
    logs: Option<Seq<char>>,
    endpoint_configured: bool,
)
    ensures
        ({
            let env = spec_detect_env(sdk, traces, metrics, logs);
            let cfg = spec_detect_config(env, endpoint_configured);
            &&& cfg.is_none() <==> (env.is_none() && !endpoint_configured)
            &&& env.is_some() ==> (cfg matches Some(c) && {
                &&& c.traces.is_some() == signal_enabled(traces)
                &&& c.metrics.is_some() == signal_enabled(metrics)
                &&& c.logs.is_some() == signal_enabled(logs)
                &&& (c.traces matches Some(sc) ==> exporter_setting(traces) == Some(sc.exporter))
                &&& (c.metrics matches Some(sc) ==> exporter_setting(metrics) == Some(sc.exporter))
                &&& (c.logs matches Some(sc) ==> exporter_setting(logs) == Some(sc.exporter))
            })
            &&& (env.is_none() && endpoint_configured) ==> cfg == Some(
                OtelConfig {
                    traces: Some(SignalConfig { exporter: ExporterType::Otlp }),
                    metrics: Some(SignalConfig { exporter: ExporterType::Otlp }),
                    logs: Some(SignalConfig { exporter: ExporterType::Otlp }),
                },
            )
            &&& cfg matches Some(c) ==> {
                &&& (c.traces matches Some(sc) ==> sc.exporter != ExporterType::Disabled)
                &&& (c.metrics matches Some(sc) ==> sc.exporter != ExporterType::Disabled)
                &&& (c.logs matches Some(sc) ==> sc.exporter != ExporterType::Disabled)
            }
        }),
{
}

} // verus!
