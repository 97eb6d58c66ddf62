//! The configuration file as it appears on disk.

use crate::ledger::Network as BitcoinNetwork;
use crate::seed::Seed;
use vstd::prelude::*;

verus! {

/// An IP address, by its bytes.
#[derive(Clone, Copy, Debug, PartialEq, Eq)]
pub enum IpAddress {
    V4([u8; 4]),
    V6([u8; 16]),
}

/// How much is logged.
#[derive(Clone, Copy, Debug, PartialEq, Eq, Structural)]
pub enum LevelFilter {
    Off,
    Error,
    Warn,
    Info,
    Debug,
    Trace,
}

/// An Ethereum network.
#[derive(Clone, Copy, Debug, PartialEq, Eq, Structural)]
pub enum EthereumNetwork {
    Mainnet,
    Ropsten,
    Regtest,
}

/// The log levels of the node's parts.
#[derive(Clone, Copy, Debug, PartialEq)]
pub struct LogLevels {
    pub cnd: Option<LevelFilter>,
}

/// What the swap protocol needs.
#[derive(Clone, Copy, Debug, PartialEq)]
pub struct Comit {
    pub secret_seed: Seed,
}

/// Where the node listens for its peers, as multiaddresses in text form.
#[derive(Clone, Debug, PartialEq)]
pub struct Network {
    pub listen: Vec<String>,
}

/// An address and a port to serve HTTP on.
#[derive(Clone, Copy, Debug, PartialEq)]
pub struct HttpSocket {
    pub address: IpAddress,
    pub port: u16,
}

/// How often to ask for new blocks, in seconds, and on which network.
#[derive(Clone, Copy, Debug, PartialEq)]
pub struct PollParameters<T> {
    pub poll_interval_secs: u64,
    pub network: T,
}

/// Where the block watcher is, and how it polls each ledger.
#[derive(Clone, Debug, PartialEq)]
pub struct Btsieve {
    pub url: String,
    pub bitcoin: PollParameters<BitcoinNetwork>,
    pub ethereum: PollParameters<EthereumNetwork>,
}

/// The whole file. What may be left out of the file is optional here.
#[derive(Clone, Debug, PartialEq)]
pub struct ConfigFile {
    pub comit: Comit,
    pub network: Network,
    pub http_api: HttpSocket,
    pub btsieve: Btsieve,
    pub web_gui: Option<HttpSocket>,
    pub log_levels: Option<LogLevels>,
}

/// The seconds between two polls of Bitcoin, unless configured otherwise.
pub const DEFAULT_BITCOIN_POLL_INTERVAL_SECS: u64 = 300;

/// The seconds between two polls of Ethereum, unless configured otherwise.
pub const DEFAULT_ETHEREUM_POLL_INTERVAL_SECS: u64 = 20;

/// The IPv4 address that stands for every interface of the machine.
pub open spec fn unspecified_address() -> IpAddress {
    IpAddress::V4([0u8, 0u8, 0u8, 0u8])
}

impl ConfigFile {
    /// The configuration that is written where none exists, around a fresh
    /// seed: listen on every interface at port 9939, serve the API at port
    /// 8000 and the web interface at port 8080, find the block watcher on
    /// this machine at port 8181, and poll the regression-test networks,
    /// Bitcoin every 300 seconds and Ethereum every 20.
    pub fn default(secret_seed: Seed) -> (r: ConfigFile)
        ensures
            r.comit.secret_seed == secret_seed,
            r.network.listen@.len() == 1,
            r.network.listen@[0]@ == "/ip4/0.0.0.0/tcp/9939"@,
            r.http_api.address == unspecified_address(),
            r.http_api.port == 8000,
            r.btsieve.url@ == "http://localhost:8181"@,
            r.btsieve.bitcoin == (PollParameters {
                poll_interval_secs: 300u64,
                network: BitcoinNetwork::Regtest,
            }),
            r.btsieve.ethereum == (PollParameters {
                poll_interval_secs: 20u64,
                network: EthereumNetwork::Regtest,
            }),
            r.web_gui matches Some(socket) && socket.address == unspecified_address()
                && socket.port == 8080,
            r.log_levels is None,
    {
        let mut listen: Vec<String> = Vec::new();
        listen.push("/ip4/0.0.0.0/tcp/9939".to_string());
        let unspecified = IpAddress::V4([0u8, 0u8, 0u8, 0u8]);
        ConfigFile {
            comit: Comit { secret_seed },
            network: Network { listen },
            http_api: HttpSocket { address: unspecified, port: 8000 },
            btsieve: Btsieve {
                url: "http://localhost:8181".to_string(),
                bitcoin: PollParameters {
                    poll_interval_secs: DEFAULT_BITCOIN_POLL_INTERVAL_SECS,
                    network: BitcoinNetwork::Regtest,
                },
                ethereum: PollParameters {
                    poll_interval_secs: DEFAULT_ETHEREUM_POLL_INTERVAL_SECS,
                    network: EthereumNetwork::Regtest,
                },
            },
            web_gui: Some(HttpSocket { address: unspecified, port: 8080 }),
            log_levels: None,
        }
    }
}

} // verus!
