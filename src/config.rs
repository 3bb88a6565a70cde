//! The settings a session runs with.
use vstd::prelude::*;

verus! {

/// Where notifications go when no endpoint is configured.
pub const DEFAULT_OSC_ENDPOINT: &'static str = "127.0.0.1:9000";

/// The local address notifications are sent from.
pub const LOCAL_OSC_ADDRESS: &'static str = "127.0.0.1:49001";

/// The recognized settings.
#[derive(Clone, Debug)]
pub struct STTConfig {
    /// The language of the speech, as a hint to the recognition engine.
    pub language: String,
    /// Path of the recognition model data.
    pub model: String,
    /// `ip:port` of the notification endpoint, when it is not the default.
    pub osc_endpoint: Option<String>,
}

impl STTConfig {
    /// The notification endpoint: the configured one, else the default.
    pub fn endpoint(&self) -> (r: String)
        ensures
            r@ == match self.osc_endpoint {
                Some(e) => e@,
                None => DEFAULT_OSC_ENDPOINT@,
            },
    {
        match &self.osc_endpoint {
            Some(e) => e.clone(),
            None => DEFAULT_OSC_ENDPOINT.to_owned(),
        }
    }
}

} // verus!
