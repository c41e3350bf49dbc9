//! The startup configuration record.
//!
//! The boundary code decodes the configuration file and hands the values
//! over as this plain record; everything the pipeline derives from it is
//! computed here.

use vstd::prelude::*;
use vstd::string::StringExecFns;
use crate::filter::FilterSpec;
use crate::metrics::{default_metrics_endpoint, MetricsConfig, MIN_REPORT_INTERVAL_SECS};

verus! {

/// The optional metrics sub-block of the configuration file; absent
/// fields fall back to the defaults.
#[derive(Debug, Clone, PartialEq, Eq)]
pub struct MetricsConfigWrapper {
    /// Enable metrics reporting.
    pub enabled: Option<bool>,
    /// Bearer token for the metrics sink.
    pub api_token: Option<String>,
    /// Endpoint of the metrics sink.
    pub endpoint: Option<String>,
    /// Reporting interval in seconds.
    pub interval: Option<u64>,
}

/// The feed section of the configuration file.
#[derive(Debug, Clone, PartialEq, Eq)]
pub struct YellowstoneGrpc {
    /// Address of the upstream feed.
    pub endpoint: String,
    /// Optional auth token for the feed.
    pub x_token: Option<String>,
    /// Largest message the feed decoder accepts.
    pub max_decoding_message_size: u32,
    /// Optional commitment-level name.
    pub commitment: Option<String>,
    /// Per-category filter options.
    pub filters: FilterSpec,
    /// Output format tag.
    pub format: String,
    /// Optional metrics sub-block.
    pub metrics: Option<MetricsConfigWrapper>,
    /// Destination topic on the message bus.
    pub topic_name: String,
}

/// The whole configuration file.
#[derive(Debug, Clone, PartialEq, Eq)]
pub struct YellowstoneGrpcConfig {
    pub yellowstone_grpc: YellowstoneGrpc,
}

impl YellowstoneGrpcConfig {
    /// The metrics configuration in force: each field of the optional
    /// sub-block, with the default filled in wherever the sub-block or
    /// the field is absent.
    pub fn get_metrics_config(&self) -> (r: MetricsConfig)
        ensures
            (match self.yellowstone_grpc.metrics {
                None => {
                    &&& r.enabled == false
                    &&& r.api_token@ == Seq::<char>::empty()
                    &&& r.endpoint@ == default_metrics_endpoint()
                    &&& r.interval == MIN_REPORT_INTERVAL_SECS
                },
                Some(w) => {
                    &&& r.enabled == (match w.enabled {
                        Some(b) => b,
                        None => false,
                    })
                    &&& r.api_token@ == (match w.api_token {
                        Some(t) => t@,
                        None => Seq::<char>::empty(),
                    })
                    &&& r.endpoint@ == (match w.endpoint {
                        Some(e) => e@,
                        None => default_metrics_endpoint(),
                    })
                    &&& r.interval == (match w.interval {
                        Some(i) => i,
                        None => MIN_REPORT_INTERVAL_SECS,
                    })
                },
            }),
    {
        let default_config = MetricsConfig::default();
        match &self.yellowstone_grpc.metrics {
            Option::Some(w) => {
                let enabled = match w.enabled {
                    Option::Some(b) => b,
                    Option::None => default_config.enabled,
                };
                let api_token = match &w.api_token {
                    Option::Some(t) => t.clone(),
                    Option::None => default_config.api_token,
                };
                let endpoint = match &w.endpoint {
                    Option::Some(e) => e.clone(),
                    Option::None => default_config.endpoint,
                };
                let interval = match w.interval {
                    Option::Some(i) => i,
                    Option::None => default_config.interval,
                };
                MetricsConfig { enabled, api_token, endpoint, interval }
            },
            Option::None => default_config,
        }
    }
}

} // verus!
