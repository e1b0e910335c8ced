//! The exporter's configuration: the poll interval and the OAuth client
//! identifier. An external loader reads the environment and hands the raw
//! values in; the defaults and the printable summary are decided here.

use vstd::prelude::*;
use vstd::string::StringExecFns;

use crate::decimal::{dec_of, u64_to_dec};

verus! {

/// The poll interval used when none is configured, in seconds.
pub const DEFAULT_TICKER_SECS: u64 = 10;

/// The exporter's configuration.
#[derive(Debug, PartialEq)]
pub struct Config {
    /// Seconds between poll ticks.
    pub ticker: u64,
    /// The OAuth client identifier.
    pub client_id: String,
}

/// The client identifier used when none is configured.
pub open spec fn spec_default_client_id() -> Seq<char> {
    "1bb50063-6b0c-4d11-bd99-387f4a91cc46"@
}

impl Config {
    /// The configuration from the loader's raw values: a missing interval
    /// falls back to the default, a missing client identifier to the
    /// built-in one; present values are taken as they are.
    pub fn from_env_values(ticker: Option<u64>, client_id: Option<String>) -> (c: Config)
        ensures
            c.ticker == (match ticker {
                Some(t) => t,
                None => DEFAULT_TICKER_SECS,
            }),
            c.client_id@ == (match client_id {
                Some(s) => s@,
                None => spec_default_client_id(),
            }),
    {
        Config {
            ticker: match ticker {
                Some(t) => t,
                None => DEFAULT_TICKER_SECS,
            },
            client_id: match client_id {
                Some(s) => s,
                None => "1bb50063-6b0c-4d11-bd99-387f4a91cc46".to_owned(),
            },
        }
    }

    /// The four lines of the startup banner, for the process to print.
    pub fn summary_lines(&self) -> (v: Vec<String>)
        ensures
            v@.len() == 4,
            v@[0]@ == "--- tado° exporter configuration ---"@,
            v@[1]@ == "Ticker seconds: "@ + dec_of(self.ticker as nat),
            v@[2]@ == "Client ID: "@ + self.client_id@,
            v@[3]@ == "------------------------------------"@,
    {
        let mut v: Vec<String> = Vec::new();
        v.push("--- tado° exporter configuration ---".to_owned());
        let mut ticker_line = "Ticker seconds: ".to_owned();
        let digits = u64_to_dec(self.ticker);
        ticker_line.append(digits.as_str());
        v.push(ticker_line);
        let mut id_line = "Client ID: ".to_owned();
        id_line.append(self.client_id.as_str());
        v.push(id_line);
        v.push("------------------------------------".to_owned());
        v
    }
}

} // verus!
