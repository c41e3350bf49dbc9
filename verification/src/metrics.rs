//! Process-wide throughput counters and the periodic delta reporter.
//!
//! `Metrics` holds three monotonically increasing counters written by the
//! pipeline. `MetricsReporter` keeps the values seen at the previous
//! reporting tick and turns each new sample into a non-negative delta;
//! a counter that moved backwards (a restarted registry) reports its
//! current value rather than underflowing.

use vstd::prelude::*;
use vstd::string::StringExecFns;
use crate::json::JsonValue;

verus! {

/// The reporting interval is floor-clamped to this many seconds.
pub const MIN_REPORT_INTERVAL_SECS: u64 = 10;

/// The metrics sink used when none is configured.
pub open spec fn default_metrics_endpoint() -> Seq<char> {
    "https://s1231159.eu-nbg-2.betterstackdata.com/metrics"@
}

/// Metrics reporting configuration.
#[derive(Debug, Clone, PartialEq, Eq)]
pub struct MetricsConfig {
    /// Enable metrics reporting.
    pub enabled: bool,
    /// Bearer token for the metrics sink.
    pub api_token: String,
    /// Endpoint of the metrics sink.
    pub endpoint: String,
    /// Reporting interval in seconds.
    pub interval: u64,
}

impl Default for MetricsConfig {
    /// Reporting disabled, no token, the default sink, the minimum
    /// interval.
    fn default() -> (r: Self)
        ensures
            r.enabled == false,
            r.api_token@ == Seq::<char>::empty(),
            r.endpoint@ == default_metrics_endpoint(),
            r.interval == MIN_REPORT_INTERVAL_SECS,
    {
        MetricsConfig {
            enabled: false,
            api_token: String::new(),
            endpoint: String::from_str("https://s1231159.eu-nbg-2.betterstackdata.com/metrics"),
            interval: 10,
        }
    }
}

/// Three independently incrementing counters with process lifetime.
pub struct Metrics {
    processed_transactions: u64,
    processed_accounts: u64,
    errors: u64,
}

impl Metrics {
    /// Number of transactions processed so far.
    pub closed spec fn spec_transactions(&self) -> u64 {
        self.processed_transactions
    }

    /// Number of account updates processed so far.
    pub closed spec fn spec_accounts(&self) -> u64 {
        self.processed_accounts
    }

    /// Number of errors observed so far.
    pub closed spec fn spec_errors(&self) -> u64 {
        self.errors
    }

    pub fn new() -> (r: Self)
        ensures
            r.spec_transactions() == 0,
            r.spec_accounts() == 0,
            r.spec_errors() == 0,
    {
        Metrics { processed_transactions: 0, processed_accounts: 0, errors: 0 }
    }

    /// Increment the transaction counter.
    pub fn increment_transactions(&mut self)
        requires
            old(self).spec_transactions() < u64::MAX,
        ensures
            final(self).spec_transactions() == old(self).spec_transactions() + 1,
            final(self).spec_accounts() == old(self).spec_accounts(),
            final(self).spec_errors() == old(self).spec_errors(),
    {
        self.processed_transactions = self.processed_transactions + 1;
    }

    /// Increment the accounts counter.
    pub fn increment_accounts(&mut self)
        requires
            old(self).spec_accounts() < u64::MAX,
        ensures
            final(self).spec_accounts() == old(self).spec_accounts() + 1,
            final(self).spec_transactions() == old(self).spec_transactions(),
            final(self).spec_errors() == old(self).spec_errors(),
    {
        self.processed_accounts = self.processed_accounts + 1;
    }

    /// Increment the errors counter.
    pub fn increment_errors(&mut self)
        requires
            old(self).spec_errors() < u64::MAX,
        ensures
            final(self).spec_errors() == old(self).spec_errors() + 1,
            final(self).spec_transactions() == old(self).spec_transactions(),
            final(self).spec_accounts() == old(self).spec_accounts(),
    {
        self.errors = self.errors + 1;
    }

    /// Current transaction count.
    pub fn transactions(&self) -> (r: u64)
        ensures
            r == self.spec_transactions(),
    {
        self.processed_transactions
    }

    /// Current account count.
    pub fn accounts(&self) -> (r: u64)
        ensures
            r == self.spec_accounts(),
    {
        self.processed_accounts
    }

    /// Current error count.
    pub fn errors(&self) -> (r: u64)
        ensures
            r == self.spec_errors(),
    {
        self.errors
    }
}

/// The delta a tick reports for one counter: the increase since the
/// previous tick, or the current value itself when the counter moved
/// backwards (a reset), never an underflow.
pub open spec fn delta_of(current: u64, last: u64) -> u64 {
    if current >= last {
        (current - last) as u64
    } else {
        current
    }
}

/// One report sent to the sink: `{dt, name, gauge: {value}}`.
pub open spec fn metric_payload_matches(
    v: JsonValue,
    name: Seq<char>,
    value: u64,
    timestamp: Seq<char>,
) -> bool {
    v matches JsonValue::Object(fs) && {
        let f = fs@;
        &&& f.len() == 3
        &&& f[0].0@ == "dt"@
        &&& (f[0].1 matches JsonValue::Text(t) && t@ == timestamp)
        &&& f[1].0@ == "name"@
        &&& (f[1].1 matches JsonValue::Text(n) && n@ == name)
        &&& f[2].0@ == "gauge"@
        &&& (f[2].1 matches JsonValue::Object(g) && g@.len() == 1 && g@[0].0@ == "value"@
            && g@[0].1 == JsonValue::UInt(value))
    }
}

/// Assemble the report body for one counter.
pub fn metric_payload(name: &str, value: u64, timestamp: &str) -> (v: JsonValue)
    ensures
        metric_payload_matches(v, name@, value, timestamp@),
{
    let mut gauge: Vec<(String, JsonValue)> = Vec::new();
    gauge.push((String::from_str("value"), JsonValue::UInt(value)));
    let mut fields: Vec<(String, JsonValue)> = Vec::new();
    fields.push((String::from_str("dt"), JsonValue::Text(String::from_str(timestamp))));
    fields.push((String::from_str("name"), JsonValue::Text(String::from_str(name))));
    fields.push((String::from_str("gauge"), JsonValue::Object(gauge)));
    JsonValue::Object(fields)
}

/// The periodic reporter: it keeps the counter values seen at the
/// previous tick and turns each sample into per-counter deltas. Sink
/// failures are the caller's to log; they never stop the reporter, whose
/// next tick proceeds independently.
pub struct MetricsReporter {
    config: MetricsConfig,
    last_transactions: u64,
    last_accounts: u64,
    last_errors: u64,
}

impl MetricsReporter {
    /// The configuration the reporter was created with.
    pub closed spec fn spec_config(&self) -> MetricsConfig {
        self.config
    }

    /// Transaction count seen at the previous tick.
    pub closed spec fn spec_last_transactions(&self) -> u64 {
        self.last_transactions
    }

    /// Account count seen at the previous tick.
    pub closed spec fn spec_last_accounts(&self) -> u64 {
        self.last_accounts
    }

    /// Error count seen at the previous tick.
    pub closed spec fn spec_last_errors(&self) -> u64 {
        self.last_errors
    }

    pub fn new(config: MetricsConfig) -> (r: Self)
        ensures
            r.spec_config() == config,
            r.spec_last_transactions() == 0,
            r.spec_last_accounts() == 0,
            r.spec_last_errors() == 0,
    {
        MetricsReporter { config, last_transactions: 0, last_accounts: 0, last_errors: 0 }
    }

    /// The sink endpoint the reporter posts to.
    pub fn endpoint(&self) -> (r: &String)
        ensures
            r@ == self.spec_config().endpoint@,
    {
        &self.config.endpoint
    }

    /// The bearer token the reporter authenticates with.
    pub fn api_token(&self) -> (r: &String)
        ensures
            r@ == self.spec_config().api_token@,
    {
        &self.config.api_token
    }

    /// Seconds between ticks: the configured interval, floor-clamped to
    /// the minimum.
    pub fn effective_interval(&self) -> (r: u64)
        ensures
            r == (if self.spec_config().interval >= MIN_REPORT_INTERVAL_SECS {
                self.spec_config().interval
            } else {
                MIN_REPORT_INTERVAL_SECS
            }),
    {
        if self.config.interval >= MIN_REPORT_INTERVAL_SECS {
            self.config.interval
        } else {
            MIN_REPORT_INTERVAL_SECS
        }
    }

    /// One reporting tick: read the three current counter values, compute
    /// each counter's non-negative delta against the previous tick, and
    /// remember the current values for the next one.
    pub fn tick(&mut self, current_transactions: u64, current_accounts: u64, current_errors: u64)
        -> (d: (u64, u64, u64))
        ensures
            d.0 == delta_of(current_transactions, old(self).spec_last_transactions()),
            d.1 == delta_of(current_accounts, old(self).spec_last_accounts()),
            d.2 == delta_of(current_errors, old(self).spec_last_errors()),
            final(self).spec_last_transactions() == current_transactions,
            final(self).spec_last_accounts() == current_accounts,
            final(self).spec_last_errors() == current_errors,
            final(self).spec_config() == old(self).spec_config(),
    {
        let dt = if current_transactions >= self.last_transactions {
            current_transactions - self.last_transactions
        } else {
            current_transactions
        };
        let da = if current_accounts >= self.last_accounts {
            current_accounts - self.last_accounts
        } else {
            current_accounts
        };
        let de = if current_errors >= self.last_errors {
            current_errors - self.last_errors
        } else {
            current_errors
        };
        self.last_transactions = current_transactions;
        self.last_accounts = current_accounts;
        self.last_errors = current_errors;
        (dt, da, de)
    }

    /// One reporting tick, assembled into the three report bodies sent to
    /// the sink: one per counter, carrying the counter's name, its delta
    /// and the caller's timestamp.
    pub fn tick_payloads(
        &mut self,
        current_transactions: u64,
        current_accounts: u64,
        current_errors: u64,
        timestamp: &str,
    ) -> (v: Vec<JsonValue>)
        ensures
            v@.len() == 3,
            metric_payload_matches(
                v@[0],
                "yellowstone_processed_transactions"@,
                delta_of(current_transactions, old(self).spec_last_transactions()),
                timestamp@,
            ),
            metric_payload_matches(
                v@[1],
                "yellowstone_processed_accounts"@,
                delta_of(current_accounts, old(self).spec_last_accounts()),
                timestamp@,
            ),
            metric_payload_matches(
                v@[2],
                "yellowstone_errors"@,
                delta_of(current_errors, old(self).spec_last_errors()),
                timestamp@,
            ),
            final(self).spec_last_transactions() == current_transactions,
            final(self).spec_last_accounts() == current_accounts,
            final(self).spec_last_errors() == current_errors,
            final(self).spec_config() == old(self).spec_config(),
    {
        let (dt, da, de) = self.tick(current_transactions, current_accounts, current_errors);
        let mut v: Vec<JsonValue> = Vec::new();
        v.push(metric_payload("yellowstone_processed_transactions", dt, timestamp));
        v.push(metric_payload("yellowstone_processed_accounts", da, timestamp));
        v.push(metric_payload("yellowstone_errors", de, timestamp));
        v
    }
}

} // verus!
