//! Server configuration, request metrics and the health check over them.
use vstd::prelude::*;
use crate::text::{decimal, decimal_string_wide, digit, digit_char};
use crate::utils::error::ArkaftMcpError;

pub mod error;

verus! {

/// `std::time::Instant`, held opaque.
#[verifier::external_type_specification]
#[verifier::external_body]
pub struct ExInstant(std::time::Instant);

/// Relies on `Instant::now`: the current instant of the monotonic clock.
#[verifier::external_body]
fn instant_now() -> (r: std::time::Instant) {
    std::time::Instant::now()
}

/// Relies on `Instant::elapsed` and `Duration::as_secs`: whole seconds since `t`.
#[verifier::external_body]
fn seconds_since(t: &std::time::Instant) -> (r: u64) {
    t.elapsed().as_secs()
}

/// Server settings, each defaulted when the environment names none.
#[derive(Debug, Clone)]
pub struct ServerConfig {
    /// Documentation version to reference by default
    pub adk_docs_version: String,
    /// Logging level
    pub log_level: String,
    /// Server name
    pub server_name: String,
}

pub open spec fn or_default(v: Option<String>, default: Seq<char>) -> Seq<char> {
    match v {
        Some(s) => s@,
        None => default,
    }
}

fn value_or(v: Option<String>, default: &str) -> (r: String)
    ensures
        r@ == or_default(v, default@),
{
    match v {
        Some(s) => s,
        None => String::from_str(default),
    }
}

/// The server configuration from the values the environment gave, if any.
pub fn init_server_config(
    adk_docs_version: Option<String>,
    log_level: Option<String>,
    server_name: Option<String>,
) -> (r: ServerConfig)
    ensures
        r.adk_docs_version@ == or_default(adk_docs_version, "latest"@),
        r.log_level@ == or_default(log_level, "info"@),
        r.server_name@ == or_default(server_name, "arkaft-google-adk"@),
{
    ServerConfig {
        adk_docs_version: value_or(adk_docs_version, "latest"),
        log_level: value_or(log_level, "info"),
        server_name: value_or(server_name, "arkaft-google-adk"),
    }
}

/// Running call statistics. The counters wrap around as atomic counters do.
#[derive(Debug)]
pub struct ServerMetrics {
    /// Calls handled
    pub total_tool_calls: u64,
    /// Calls that succeeded
    pub successful_tool_calls: u64,
    /// Calls that failed
    pub failed_tool_calls: u64,
    /// Summed latency of the successful calls, in milliseconds
    pub total_response_time_ms: u64,
    /// When the server started, once recorded
    pub server_start_time: Option<std::time::Instant>,
}

pub open spec fn wrapping_inc(x: u64, by: u64) -> u64 {
    ((x + by) % 0x1_0000_0000_0000_0000) as u64
}

impl ServerMetrics {
    /// All counters zero, no start time.
    pub open spec fn is_fresh(&self) -> bool {
        &&& self.total_tool_calls == 0
        &&& self.successful_tool_calls == 0
        &&& self.failed_tool_calls == 0
        &&& self.total_response_time_ms == 0
        &&& self.server_start_time is None
    }

    /// The counters after one successful call of the given latency.
    pub open spec fn after_success(self, latency_ms: u64) -> ServerMetrics {
        ServerMetrics {
            total_tool_calls: wrapping_inc(self.total_tool_calls, 1),
            successful_tool_calls: wrapping_inc(self.successful_tool_calls, 1),
            total_response_time_ms: wrapping_inc(self.total_response_time_ms, latency_ms),
            ..self
        }
    }

    /// The counters after one failed call.
    pub open spec fn after_failure(self) -> ServerMetrics {
        ServerMetrics {
            total_tool_calls: wrapping_inc(self.total_tool_calls, 1),
            failed_tool_calls: wrapping_inc(self.failed_tool_calls, 1),
            ..self
        }
    }

    /// Success rate in percent as numerator over denominator; 100 when no
    /// call was made.
    pub open spec fn success_rate_spec(&self) -> (int, int) {
        if self.total_tool_calls == 0 {
            (100, 1)
        } else {
            (self.successful_tool_calls * 100, self.total_tool_calls as int)
        }
    }

    /// Mean latency of successful calls as numerator over denominator; 0
    /// when none succeeded.
    pub open spec fn average_latency_spec(&self) -> (int, int) {
        if self.successful_tool_calls == 0 {
            (0, 1)
        } else {
            (self.total_response_time_ms as int, self.successful_tool_calls as int)
        }
    }

    /// Fresh metrics.
    pub fn new() -> (r: Self)
        ensures
            r.is_fresh(),
    {
        ServerMetrics {
            total_tool_calls: 0,
            successful_tool_calls: 0,
            failed_tool_calls: 0,
            total_response_time_ms: 0,
            server_start_time: None,
        }
    }

    /// Counts a successful call and adds its latency.
    pub fn record_success(&mut self, response_time_ms: u64)
        ensures
            *final(self) == old(self).after_success(response_time_ms),
    {
        self.total_tool_calls = self.total_tool_calls.wrapping_add(1);
        self.successful_tool_calls = self.successful_tool_calls.wrapping_add(1);
        self.total_response_time_ms = self.total_response_time_ms.wrapping_add(response_time_ms);
    }

    /// Counts a failed call; latency is untouched.
    pub fn record_failure(&mut self)
        ensures
            *final(self) == old(self).after_failure(),
    {
        self.total_tool_calls = self.total_tool_calls.wrapping_add(1);
        self.failed_tool_calls = self.failed_tool_calls.wrapping_add(1);
    }

    /// The success rate in percent, as (numerator, denominator).
    pub fn success_rate_fraction(&self) -> (r: (u128, u64))
        ensures
            (r.0 as int, r.1 as int) == self.success_rate_spec(),
    {
        if self.total_tool_calls == 0 {
            (100, 1)
        } else {
            (self.successful_tool_calls as u128 * 100, self.total_tool_calls)
        }
    }

    /// The mean latency of successful calls in milliseconds, as (numerator,
    /// denominator).
    pub fn average_response_time_fraction(&self) -> (r: (u64, u64))
        ensures
            (r.0 as int, r.1 as int) == self.average_latency_spec(),
    {
        if self.successful_tool_calls == 0 {
            (0, 1)
        } else {
            (self.total_response_time_ms, self.successful_tool_calls)
        }
    }

    /// Whole seconds since the recorded start; 0 before it is recorded.
    pub fn uptime_seconds(&self) -> (r: u64)
        ensures
            self.server_start_time is None ==> r == 0,
    {
        match &self.server_start_time {
            Some(t) => seconds_since(t),
            None => 0,
        }
    }

    /// Records the start time; only the first call has an effect.
    pub fn initialize_start_time(&mut self)
        ensures
            final(self).server_start_time is Some,
            old(self).server_start_time is Some ==> final(self).server_start_time == old(
                self,
            ).server_start_time,
            final(self).total_tool_calls == old(self).total_tool_calls,
            final(self).successful_tool_calls == old(self).successful_tool_calls,
            final(self).failed_tool_calls == old(self).failed_tool_calls,
            final(self).total_response_time_ms == old(self).total_response_time_ms,
    {
        if self.server_start_time.is_none() {
            self.server_start_time = Some(instant_now());
        }
    }

    /// A periodic health check is due: the call count is a multiple of 100.
    pub fn health_check_due(&self) -> (r: bool)
        ensures
            r == (self.total_tool_calls % 100 == 0),
    {
        self.total_tool_calls % 100 == 0
    }
}

/// `num / den` rounded to one decimal place (halves up), as text.
pub open spec fn one_decimal(num: nat, den: nat) -> Seq<char>
    recommends
        den > 0,
{
    let tenths = (20 * num + den) / (2 * den);
    decimal(tenths / 10) + "."@ + seq![digit(tenths % 10)]
}

fn one_decimal_text(num: u128, den: u64) -> (r: String)
    requires
        den > 0,
        num <= 0x1_0000_0000_0000_0000 * 100,
    ensures
        r@ == one_decimal(num as nat, den as nat),
{
    let tenths: u128 = (20 * num + den as u128) / (2 * den as u128);
    let mut s = decimal_string_wide(tenths / 10);
    s.append(".");
    let mut d: Vec<char> = Vec::new();
    d.push(digit_char(tenths % 10));
    let last = crate::text::string_of(&d);
    s.append(last.as_str());
    proof {
        assert(d@ =~= seq![digit((tenths % 10) as nat)]);
    }
    s
}

/// The health check: too many failures, or responses too slow.
pub open spec fn health_verdict(m: ServerMetrics) -> Option<(bool, Seq<char>)> {
    let (rn, rd) = m.success_rate_spec();
    let (ln, ld) = m.average_latency_spec();
    if m.total_tool_calls > 10 && rn < 90 * rd {
        Some((true, "Success rate too low: "@ + one_decimal(rn as nat, rd as nat) + "%"@))
    } else if ln > 5000 * ld {
        Some((false, "Average response time too high: "@ + one_decimal(ln as nat, ld as nat) + "ms"@))
    } else {
        None
    }
}

/// Fails with a resource-limit error when more than 10 calls were made and
/// under 90% succeeded; else with a timeout error when the mean latency
/// exceeds 5000 ms; else succeeds.
pub fn validate_server_health(metrics: &ServerMetrics) -> (r: Result<(), ArkaftMcpError>)
    ensures
        match health_verdict(*metrics) {
            None => r is Ok,
            Some((true, msg)) => r matches Err(ArkaftMcpError::ResourceLimit(m)) && m@ == msg,
            Some((false, msg)) => r matches Err(ArkaftMcpError::Timeout(m)) && m@ == msg,
        },
{
    let (rn, rd) = metrics.success_rate_fraction();
    let (ln, ld) = metrics.average_response_time_fraction();
    if metrics.total_tool_calls > 10 && rn < 90 * (rd as u128) {
        let mut msg = String::from_str("Success rate too low: ");
        let value = one_decimal_text(rn, rd);
        msg.append(value.as_str());
        msg.append("%");
        return Err(ArkaftMcpError::resource_limit(msg));
    }
    if (ln as u128) > 5000 * (ld as u128) {
        let mut msg = String::from_str("Average response time too high: ");
        let value = one_decimal_text(ln as u128, ld);
        msg.append(value.as_str());
        msg.append("ms");
        return Err(ArkaftMcpError::timeout(msg));
    }
    Ok(())
}

/// Fresh metrics report a 100% success rate and no latency; after two
/// successes and one failure the rate is 200/3 percent and the mean latency
/// is the mean of the two latencies.
pub proof fn lemma_metrics_after_two_successes_and_a_failure(
    fresh: ServerMetrics,
    first_ms: u64,
    second_ms: u64,
)
    requires
        fresh.is_fresh(),
        first_ms + second_ms <= u64::MAX,
    ensures
        fresh.success_rate_spec() == (100int, 1int),
        fresh.average_latency_spec() == (0int, 1int),
        fresh.after_success(first_ms).after_success(second_ms).after_failure().success_rate_spec()
            == (200int, 3int),
        fresh.after_success(first_ms).after_success(second_ms).after_failure().average_latency_spec()
            == ((first_ms + second_ms) as int, 2int),
{
    let m = fresh.after_success(first_ms).after_success(second_ms).after_failure();
    assert(m.total_tool_calls == 3);
    assert(m.successful_tool_calls == 2);
    assert(m.total_response_time_ms == first_ms + second_ms);
}

} // verus!
