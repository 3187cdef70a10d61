//! The options a Hydra node is started with, as plain data: addresses by
//! their numbers, paths as text.

use crate::hydra::decimal::{decimal, decimal_text};
use vstd::prelude::*;

verus! {

/// How much the node logs.
#[derive(Debug, Clone, Eq, PartialEq, Structural)]
pub enum Verbosity {
    Quiet,
    Verbose,
}

impl Verbosity {
    /// The verbosity that the switch "quiet mode" stands for.
    pub open spec fn of_quiet(quiet: bool) -> Verbosity {
        if quiet {
            Verbosity::Quiet
        } else {
            Verbosity::Verbose
        }
    }

    /// The verbosity that the switch "quiet mode" stands for.
    pub fn from_quiet(quiet: bool) -> (verbosity: Verbosity)
        ensures
            verbosity == Verbosity::of_quiet(quiet),
    {
        if quiet {
            Verbosity::Quiet
        } else {
            Verbosity::Verbose
        }
    }
}

/// The name of a node.
#[derive(Debug, Clone, Eq, PartialEq)]
pub struct NodeId(pub String);

/// A peer of the node.
#[derive(Debug, Clone, Eq, PartialEq)]
pub struct Host(String);

/// An IP address: the four octets of version 4, or the eight groups of
/// version 6.
#[derive(Debug, Clone, Copy, Eq, PartialEq, Structural)]
pub enum HostAddress {
    V4(u8, u8, u8, u8),
    V6(u16, u16, u16, u16, u16, u16, u16, u16),
}

/// The chain a head is opened on.
#[derive(Debug, Clone, Eq, PartialEq)]
pub enum ChainConfig {
    Offline(OfflineChainConfig),
    Direct(DirectChainConfig),
}

/// A head without a chain: it starts from a given UTxO set.
#[derive(Debug, Clone, Eq, PartialEq)]
pub struct OfflineChainConfig {
    pub initial_utxo_file: String,
    pub ledger_genesis_file: Option<String>,
}

/// A head on a Cardano network, reached through a node's socket.
#[derive(Debug, Clone, Eq, PartialEq)]
pub struct DirectChainConfig {
    pub network_id: NetworkId,
    pub node_socket: String,
    pub hydra_scripts_tx_id: TxId,
    pub cardano_signing_key: String,
    pub cardano_verification_keys: Vec<String>,
    pub start_chain_from: Option<ChainPoint>,
    pub contestation_period: ContestationPeriod,
    pub deposit_deadline: DepositDeadline,
}

/// Where the ledger's protocol parameters are read from.
#[derive(Debug, Clone, Eq, PartialEq)]
pub struct LedgerConfig {
    pub cardano_ledger_protocol_parameters_file: String,
}

/// A Cardano network: the main one, or a test network by its magic number.
#[derive(Debug, Clone, Eq, PartialEq, Structural)]
pub enum NetworkId {
    Mainnet,
    Testnet(u8),
}

pub type TxId = String;

pub type ChainPoint = String;

pub type ContestationPeriod = u64;

pub type DepositDeadline = u64;

/// The options of a node.
#[derive(Debug, Clone, Eq, PartialEq)]
pub struct RunOptions {
    pub verbosity: Verbosity,
    pub node_id: NodeId,
    pub host: HostAddress,
    pub port: u16,
    pub peers: Vec<Host>,
    pub api_host: HostAddress,
    pub api_port: u16,
    pub tls_cert_path: Option<String>,
    pub tls_key_path: Option<String>,
    pub monitoring_port: Option<u16>,
    pub hydra_signing_key: String,
    pub hydra_verification_keys: Vec<String>,
    pub persistence_dir: String,
    pub chain_config: ChainConfig,
    pub ledger_config: LedgerConfig,
}

pub struct OfflineChainConfigView {
    pub initial_utxo_file: Seq<char>,
    pub ledger_genesis_file: Option<Seq<char>>,
}

pub struct DirectChainConfigView {
    pub network_id: NetworkId,
    pub node_socket: Seq<char>,
    pub hydra_scripts_tx_id: Seq<char>,
    pub cardano_signing_key: Seq<char>,
    pub cardano_verification_keys: Seq<Seq<char>>,
    pub start_chain_from: Option<Seq<char>>,
    pub contestation_period: u64,
    pub deposit_deadline: u64,
}

pub enum ChainConfigView {
    Offline(OfflineChainConfigView),
    Direct(DirectChainConfigView),
}

pub struct RunOptionsView {
    pub verbosity: Verbosity,
    pub node_id: Seq<char>,
    pub host: HostAddress,
    pub port: u16,
    pub peers: Seq<Seq<char>>,
    pub api_host: HostAddress,
    pub api_port: u16,
    pub tls_cert_path: Option<Seq<char>>,
    pub tls_key_path: Option<Seq<char>>,
    pub monitoring_port: Option<u16>,
    pub hydra_signing_key: Seq<char>,
    pub hydra_verification_keys: Seq<Seq<char>>,
    pub persistence_dir: Seq<char>,
    pub chain_config: ChainConfigView,
    pub ledger_parameters_file: Seq<char>,
}

impl DeepView for Host {
    type V = Seq<char>;

    closed spec fn deep_view(&self) -> Seq<char> {
        self.0@
    }
}

impl DeepView for OfflineChainConfig {
    type V = OfflineChainConfigView;

    open spec fn deep_view(&self) -> OfflineChainConfigView {
        OfflineChainConfigView {
            initial_utxo_file: self.initial_utxo_file@,
            ledger_genesis_file: self.ledger_genesis_file.deep_view(),
        }
    }
}

impl DeepView for DirectChainConfig {
    type V = DirectChainConfigView;

    open spec fn deep_view(&self) -> DirectChainConfigView {
        DirectChainConfigView {
            network_id: self.network_id,
            node_socket: self.node_socket@,
            hydra_scripts_tx_id: self.hydra_scripts_tx_id@,
            cardano_signing_key: self.cardano_signing_key@,
            cardano_verification_keys: self.cardano_verification_keys.deep_view(),
            start_chain_from: self.start_chain_from.deep_view(),
            contestation_period: self.contestation_period,
            deposit_deadline: self.deposit_deadline,
        }
    }
}

impl DeepView for ChainConfig {
    type V = ChainConfigView;

    open spec fn deep_view(&self) -> ChainConfigView {
        match self {
            ChainConfig::Offline(offline) => ChainConfigView::Offline(offline.deep_view()),
            ChainConfig::Direct(direct) => ChainConfigView::Direct(direct.deep_view()),
        }
    }
}

impl DeepView for RunOptions {
    type V = RunOptionsView;

    open spec fn deep_view(&self) -> RunOptionsView {
        RunOptionsView {
            verbosity: self.verbosity,
            node_id: self.node_id.0@,
            host: self.host,
            port: self.port,
            peers: self.peers.deep_view(),
            api_host: self.api_host,
            api_port: self.api_port,
            tls_cert_path: self.tls_cert_path.deep_view(),
            tls_key_path: self.tls_key_path.deep_view(),
            monitoring_port: self.monitoring_port,
            hydra_signing_key: self.hydra_signing_key@,
            hydra_verification_keys: self.hydra_verification_keys.deep_view(),
            persistence_dir: self.persistence_dir@,
            chain_config: self.chain_config.deep_view(),
            ledger_parameters_file: self.ledger_config.cardano_ledger_protocol_parameters_file@,
        }
    }
}

/// The chain configuration a node starts with: test network 42 behind
/// `node.socket`, with the given ID of the transaction that holds the Hydra
/// scripts.
pub open spec fn direct_on_testnet(hydra_scripts_tx_id: Seq<char>) -> ChainConfigView {
    ChainConfigView::Direct(
        DirectChainConfigView {
            network_id: NetworkId::Testnet(42),
            node_socket: "node.socket"@,
            hydra_scripts_tx_id,
            cardano_signing_key: "cardano.sk"@,
            cardano_verification_keys: Seq::empty(),
            start_chain_from: None,
            contestation_period: 60,
            deposit_deadline: 60,
        },
    )
}

/// The chain configuration of an offline head that starts from `utxo.json`.
pub open spec fn offline_from_utxo_json() -> ChainConfigView {
    ChainConfigView::Offline(
        OfflineChainConfigView { initial_utxo_file: "utxo.json"@, ledger_genesis_file: None },
    )
}

/// The options a node has before any is set: it listens on 127.0.0.1, port
/// 5001 for peers and 4001 for clients, and opens its head on test network
/// 42.
pub open spec fn default_run_options() -> RunOptionsView {
    RunOptionsView {
        verbosity: Verbosity::Verbose,
        node_id: "hydra-node-1"@,
        host: HostAddress::V4(127, 0, 0, 1),
        port: 5001,
        peers: Seq::empty(),
        api_host: HostAddress::V4(127, 0, 0, 1),
        api_port: 4001,
        tls_cert_path: None,
        tls_key_path: None,
        monitoring_port: None,
        hydra_signing_key: "hydra.sk"@,
        hydra_verification_keys: Seq::empty(),
        persistence_dir: "./"@,
        chain_config: direct_on_testnet("TxId"@),
        ledger_parameters_file: "protocol-parameters.json"@,
    }
}

/// Builds the chain configuration on test network 42.
pub fn testnet_chain_config(hydra_scripts_tx_id: String) -> (config: ChainConfig)
    ensures
        config.deep_view() == direct_on_testnet(hydra_scripts_tx_id@),
{
    let config = DirectChainConfig {
        network_id: NetworkId::Testnet(42),
        node_socket: "node.socket".to_owned(),
        hydra_scripts_tx_id,
        cardano_signing_key: "cardano.sk".to_owned(),
        cardano_verification_keys: Vec::new(),
        start_chain_from: None,
        contestation_period: 60,
        deposit_deadline: 60,
    };
    assert(config.cardano_verification_keys.deep_view() =~= Seq::<Seq<char>>::empty());
    ChainConfig::Direct(config)
}

/// Builds the chain configuration of an offline head.
pub fn offline_chain_config() -> (config: ChainConfig)
    ensures
        config.deep_view() == offline_from_utxo_json(),
{
    ChainConfig::Offline(
        OfflineChainConfig { initial_utxo_file: "utxo.json".to_owned(), ledger_genesis_file: None },
    )
}

impl Default for RunOptions {
    fn default() -> (options: RunOptions)
        ensures
            options.deep_view() == default_run_options(),
    {
        let options = RunOptions {
            verbosity: Verbosity::Verbose,
            node_id: NodeId("hydra-node-1".to_owned()),
            host: HostAddress::V4(127, 0, 0, 1),
            port: 5001,
            peers: Vec::new(),
            api_host: HostAddress::V4(127, 0, 0, 1),
            api_port: 4001,
            tls_cert_path: None,
            tls_key_path: None,
            monitoring_port: None,
            hydra_signing_key: "hydra.sk".to_owned(),
            hydra_verification_keys: Vec::new(),
            persistence_dir: "./".to_owned(),
            chain_config: testnet_chain_config("TxId".to_owned()),
            ledger_config: LedgerConfig {
                cardano_ledger_protocol_parameters_file: "protocol-parameters.json".to_owned(),
            },
        };
        assert(options.peers.deep_view() =~= Seq::<Seq<char>>::empty());
        assert(options.hydra_verification_keys.deep_view() =~= Seq::<Seq<char>>::empty());
        options
    }
}

impl NetworkId {
    /// The network's magic number in decimal; `0` for the main network.
    pub open spec fn text(self) -> Seq<char> {
        match self {
            NetworkId::Mainnet => seq!['0'],
            NetworkId::Testnet(magic) => decimal(magic as nat),
        }
    }

    /// Writes the network's magic number in decimal; `0` for the main network.
    pub fn to_string(&self) -> (text: String)
        ensures
            text@ == self.text(),
    {
        match self {
            NetworkId::Mainnet => decimal_text(0),
            NetworkId::Testnet(magic) => decimal_text(*magic),
        }
    }
}

} // verus!
