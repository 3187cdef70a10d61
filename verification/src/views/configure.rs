//! The settings form: what it tells the application, the choices it offers,
//! and how the settings change with each message.

use crate::hydra::decimal::{parse_u16, parsed_u16};
use crate::hydra::run_options::{
    default_run_options, direct_on_testnet, offline_chain_config, offline_from_utxo_json,
    testnet_chain_config, ChainConfig, ChainConfigView, DirectChainConfigView, HostAddress,
    NetworkId, NodeId, RunOptions, RunOptionsView, Verbosity,
};
use vstd::prelude::*;

verus! {

/// What the form tells the application when the user acts on it. A host
/// arrives as the address that the typed text stands for, if it stands for
/// one.
#[derive(Debug, Clone)]
pub enum Message {
    VerbosityToggled(bool),
    NodeIdChanged(String),
    HostChanged(Option<HostAddress>),
    PortChanged(String),
    ApiHostChanged(Option<HostAddress>),
    ApiPortChanged(String),
    MonitoringPortChanged(String),
    TlsCertPathChanged(String),
    TlsKeyPathChanged(String),
    BrowseTlsCert,
    BrowseTlsKey,
    HydraSigningKeyChanged(String),
    AddHydraVerificationKey,
    RemoveHydraVerificationKey(usize),
    HydraVerificationKeyChanged(usize, String),
    BrowseHydraSigningKey,
    BrowseHydraVerificationKey(usize),
    ChainConfigTypeChanged(ChainConfigType),
    NetworkIdChanged(String),
    NodeSocketChanged(String),
    InitialUtxoChanged(String),
    BrowseInitialUtxo,
    PersistenceDirChanged(String),
    BrowsePersistenceDir,
    SaveSettings,
}

/// The kind of chain configuration the form is set to.
#[derive(Debug, Clone, Copy, PartialEq, Eq, Structural)]
pub enum ChainConfigType {
    Offline,
    Direct,
}

impl Default for ChainConfigType {
    fn default() -> (kind: ChainConfigType)
        ensures
            kind == ChainConfigType::Offline,
    {
        ChainConfigType::Offline
    }
}

impl ChainConfigType {
    /// The word the form shows for the kind.
    pub open spec fn label(self) -> Seq<char> {
        match self {
            ChainConfigType::Offline => "Offline"@,
            ChainConfigType::Direct => "Online"@,
        }
    }

    /// The chain configuration the form starts from when it is switched to
    /// this kind: test network 42 behind `node.socket` and no ID of the
    /// scripts' transaction for a direct chain, `utxo.json` for an offline
    /// one.
    pub open spec fn preset_view(self) -> ChainConfigView {
        match self {
            ChainConfigType::Direct => direct_on_testnet(""@),
            ChainConfigType::Offline => offline_from_utxo_json(),
        }
    }

    /// The word the form shows for the kind: `Offline`, or `Online` for a
    /// direct chain.
    pub fn to_string(&self) -> (text: String)
        ensures
            text@ == self.label(),
    {
        match self {
            ChainConfigType::Offline => "Offline".to_owned(),
            ChainConfigType::Direct => "Online".to_owned(),
        }
    }

    /// Builds the chain configuration the form starts from when it is
    /// switched to this kind.
    pub fn preset(self) -> (config: ChainConfig)
        ensures
            config.deep_view() == self.preset_view(),
    {
        match self {
            ChainConfigType::Direct => testnet_chain_config("".to_owned()),
            ChainConfigType::Offline => offline_chain_config(),
        }
    }
}

/// What the application is to do once the settings have taken a message.
#[derive(Debug, Clone, Copy, PartialEq, Eq, Structural)]
pub enum Effect {
    Nothing,
    PrintSettings,
}

/// The settings behind the form: the run options, and the kind of chain
/// configuration that the form shows.
pub struct HydraSettings {
    run_options: RunOptions,
    chain_config_type: ChainConfigType,
}

pub struct HydraSettingsView {
    pub run_options: RunOptionsView,
    pub chain_config_type: ChainConfigType,
}

impl DeepView for HydraSettings {
    type V = HydraSettingsView;

    closed spec fn deep_view(&self) -> HydraSettingsView {
        HydraSettingsView {
            run_options: self.run_options.deep_view(),
            chain_config_type: self.chain_config_type,
        }
    }
}

/// The settings take every message but two: the form cannot change the
/// initial UTxO file nor browse for it. A verification key can be removed
/// only where there is one at that place.
pub open spec fn takes(state: HydraSettingsView, message: Message) -> bool {
    match message {
        Message::InitialUtxoChanged(_) => false,
        Message::BrowseInitialUtxo => false,
        Message::RemoveHydraVerificationKey(at) => at
            < state.run_options.hydra_verification_keys.len(),
        _ => true,
    }
}

/// The run options after a message that changes none but them.
pub open spec fn options_after(options: RunOptionsView, message: Message) -> RunOptionsView {
    match message {
        Message::VerbosityToggled(quiet) => RunOptionsView {
            verbosity: Verbosity::of_quiet(quiet),
            ..options
        },
        Message::NodeIdChanged(id) => RunOptionsView { node_id: id@, ..options },
        Message::HostChanged(Some(address)) => RunOptionsView { host: address, ..options },
        Message::PortChanged(text) => match parsed_u16(text@) {
            Some(port) => RunOptionsView { port, ..options },
            None => options,
        },
        Message::ApiHostChanged(Some(address)) => RunOptionsView { api_host: address, ..options },
        Message::ApiPortChanged(text) => match parsed_u16(text@) {
            Some(api_port) => RunOptionsView { api_port, ..options },
            None => options,
        },
        Message::MonitoringPortChanged(text) => RunOptionsView {
            monitoring_port: parsed_u16(text@),
            ..options
        },
        Message::TlsCertPathChanged(path) => RunOptionsView {
            tls_cert_path: Some(path@),
            ..options
        },
        Message::TlsKeyPathChanged(path) => RunOptionsView { tls_key_path: Some(path@), ..options },
        Message::HydraSigningKeyChanged(path) => RunOptionsView {
            hydra_signing_key: path@,
            ..options
        },
        Message::AddHydraVerificationKey => RunOptionsView {
            hydra_verification_keys: options.hydra_verification_keys.push(Seq::empty()),
            ..options
        },
        Message::RemoveHydraVerificationKey(at) => RunOptionsView {
            hydra_verification_keys: options.hydra_verification_keys.remove(at as int),
            ..options
        },
        Message::HydraVerificationKeyChanged(at, path) => if at
            < options.hydra_verification_keys.len() {
            RunOptionsView {
                hydra_verification_keys: options.hydra_verification_keys.update(at as int, path@),
                ..options
            }
        } else {
            options
        },
        Message::ChainConfigTypeChanged(kind) => RunOptionsView {
            chain_config: kind.preset_view(),
            ..options
        },
        Message::NetworkIdChanged(_) => match options.chain_config {
            ChainConfigView::Direct(direct) => RunOptionsView {
                chain_config: ChainConfigView::Direct(
                    DirectChainConfigView { network_id: NetworkId::Mainnet, ..direct },
                ),
                ..options
            },
            ChainConfigView::Offline(_) => options,
        },
        Message::NodeSocketChanged(socket) => match options.chain_config {
            ChainConfigView::Direct(direct) => RunOptionsView {
                chain_config: ChainConfigView::Direct(
                    DirectChainConfigView { node_socket: socket@, ..direct },
                ),
                ..options
            },
            ChainConfigView::Offline(_) => options,
        },
        Message::PersistenceDirChanged(dir) => RunOptionsView { persistence_dir: dir@, ..options },
        _ => options,
    }
}

/// The settings after a message. A host that stands for no address, a port
/// that is no number of 16 bits and a key at a place where there is none
/// change nothing; whatever is typed as the network ID, the network becomes
/// the main one; the browse buttons and saving change nothing.
pub open spec fn after(state: HydraSettingsView, message: Message) -> HydraSettingsView {
    HydraSettingsView {
        run_options: options_after(state.run_options, message),
        chain_config_type: match message {
            Message::ChainConfigTypeChanged(kind) => kind,
            _ => state.chain_config_type,
        },
    }
}

/// What the application is to do after a message: print the settings when
/// they are saved.
pub open spec fn effect_of(message: Message) -> Effect {
    match message {
        Message::SaveSettings => Effect::PrintSettings,
        _ => Effect::Nothing,
    }
}

impl Default for HydraSettings {
    fn default() -> (settings: HydraSettings)
        ensures
            settings.deep_view() == (HydraSettingsView {
                run_options: default_run_options(),
                chain_config_type: ChainConfigType::Offline,
            }),
    {
        HydraSettings {
            run_options: RunOptions::default(),
            chain_config_type: ChainConfigType::default(),
        }
    }
}

impl HydraSettings {
    /// The settings of a form that shows a direct chain configuration.
    pub fn new() -> (settings: HydraSettings)
        ensures
            settings.deep_view() == (HydraSettingsView {
                run_options: default_run_options(),
                chain_config_type: ChainConfigType::Direct,
            }),
    {
        HydraSettings { run_options: RunOptions::default(), chain_config_type: ChainConfigType::Direct }
    }

    /// The run options as they stand.
    pub fn run_options(&self) -> (options: &RunOptions)
        ensures
            options.deep_view() == self.deep_view().run_options,
    {
        &self.run_options
    }

    /// The kind of chain configuration that the form shows.
    pub fn chain_config_type(&self) -> (kind: ChainConfigType)
        ensures
            kind == self.deep_view().chain_config_type,
    {
        self.chain_config_type
    }

    /// Takes a message from the form: changes the settings as the message
    /// says, and tells what the application is to do.
    pub fn update(&mut self, message: Message) -> (effect: Effect)
        requires
            takes(old(self).deep_view(), message),
        ensures
            final(self).deep_view() == after(old(self).deep_view(), message),
            effect == effect_of(message),
    {
        let ghost before = self.run_options.hydra_verification_keys.deep_view();
        match message {
            Message::VerbosityToggled(quiet) => {
                self.run_options.verbosity = Verbosity::from_quiet(quiet);
            },
            Message::NodeIdChanged(id) => {
                self.run_options.node_id = NodeId(id);
            },
            Message::HostChanged(address) => {
                match address {
                    Some(address) => {
                        self.run_options.host = address;
                    },
                    None => {},
                }
            },
            Message::PortChanged(text) => {
                match parse_u16(text.as_str()) {
                    Some(port) => {
                        self.run_options.port = port;
                    },
                    None => {},
                }
            },
            Message::ApiHostChanged(address) => {
                match address {
                    Some(address) => {
                        self.run_options.api_host = address;
                    },
                    None => {},
                }
            },
            Message::ApiPortChanged(text) => {
                match parse_u16(text.as_str()) {
                    Some(port) => {
                        self.run_options.api_port = port;
                    },
                    None => {},
                }
            },
            Message::MonitoringPortChanged(text) => {
                self.run_options.monitoring_port = parse_u16(text.as_str());
            },
            Message::TlsCertPathChanged(path) => {
                self.run_options.tls_cert_path = Some(path);
            },
            Message::TlsKeyPathChanged(path) => {
                self.run_options.tls_key_path = Some(path);
            },
            Message::HydraSigningKeyChanged(path) => {
                self.run_options.hydra_signing_key = path;
            },
            Message::AddHydraVerificationKey => {
                self.run_options.hydra_verification_keys.push(String::new());
                assert(self.run_options.hydra_verification_keys.deep_view() =~= before.push(
                    Seq::empty(),
                ));
            },
            Message::RemoveHydraVerificationKey(at) => {
                self.run_options.hydra_verification_keys.remove(at);
                assert(self.run_options.hydra_verification_keys.deep_view() =~= before.remove(
                    at as int,
                ));
            },
            Message::HydraVerificationKeyChanged(at, path) => {
                if at < self.run_options.hydra_verification_keys.len() {
                    self.run_options.hydra_verification_keys.set(at, path);
                    assert(self.run_options.hydra_verification_keys.deep_view() =~= before.update(
                        at as int,
                        path@,
                    ));
                }
            },
            Message::ChainConfigTypeChanged(kind) => {
                self.chain_config_type = kind;
                self.run_options.chain_config = kind.preset();
            },
            Message::NetworkIdChanged(_) => {
                match &mut self.run_options.chain_config {
                    ChainConfig::Direct(config) => {
                        config.network_id = NetworkId::Mainnet;
                    },
                    ChainConfig::Offline(_) => {},
                }
            },
            Message::NodeSocketChanged(socket) => {
                match &mut self.run_options.chain_config {
                    ChainConfig::Direct(config) => {
                        config.node_socket = socket;
                    },
                    ChainConfig::Offline(_) => {},
                }
            },
            Message::PersistenceDirChanged(dir) => {
                self.run_options.persistence_dir = dir;
            },
            Message::SaveSettings => {
                return Effect::PrintSettings;
            },
            _ => {},
        }
        Effect::Nothing
    }
}

} // verus!
