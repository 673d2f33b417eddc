use vstd::prelude::*;

use crate::utils::api::MihomoApi;

verus! {

/// The dashboard configuration: controller base URL, optional bearer secret,
/// optional proxy-core data directory, and the traffic-routing mode. Loaded
/// once at startup and read-only afterwards except for an explicit save.
pub struct TuiConfig {
    pub controller_api: String,
    pub controller_api_secret: Option<String>,
    pub mihomo_data_dir: Option<String>,
    pub mode: TuiConfigMode,
}

impl Default for TuiConfig {
    /// The configuration used when no configuration file exists yet.
    fn default() -> (r: Self)
        ensures
            r.controller_api@ == "http://localhost:9090"@,
            r.controller_api_secret is None,
            r.mihomo_data_dir is None,
            r.mode == TuiConfigMode::Direct,
    {
        TuiConfig {
            controller_api: String::from_str("http://localhost:9090"),
            controller_api_secret: None,
            mihomo_data_dir: None,
            mode: TuiConfigMode::Direct,
        }
    }
}

impl TuiConfig {
    /// A control-API client for the configured controller endpoint.
    pub fn get_mihomo_api(&self) -> (r: MihomoApi)
        ensures
            r.api_spec() == self.controller_api@,
            r.secret_spec() is Some <==> self.controller_api_secret is Some,
            self.controller_api_secret matches Some(s) ==> r.secret_spec() == Some(s@),
    {
        MihomoApi::new(
            self.controller_api.as_str(),
            match &self.controller_api_secret {
                Some(s) => Some(s.as_str()),
                None => None,
            },
        )
    }
}

/// The dashboard-level traffic-routing mode injected into every activation
/// document.
#[derive(Clone, Copy, Debug, PartialEq, Eq, Structural)]
pub enum TuiConfigMode {
    Direct,
    Global,
    Rule,
}

impl TuiConfigMode {
    /// The mode's wire spelling: the value of the `mode` field of the proxy
    /// core's configuration.
    pub open spec fn as_str_spec(self) -> Seq<char> {
        match self {
            TuiConfigMode::Direct => "direct"@,
            TuiConfigMode::Global => "global"@,
            TuiConfigMode::Rule => "rule"@,
        }
    }

    pub fn as_str(&self) -> (r: &'static str)
        ensures
            r@ == self.as_str_spec(),
    {
        match self {
            TuiConfigMode::Direct => "direct",
            TuiConfigMode::Global => "global",
            TuiConfigMode::Rule => "rule",
        }
    }
}

} // verus!
