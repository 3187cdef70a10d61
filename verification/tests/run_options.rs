//! Run options and the choices of the settings form.

use juno::hydra::decimal::{decimal_text, parse_u16};
use juno::hydra::run_options::{
    offline_chain_config, testnet_chain_config, ChainConfig, DirectChainConfig, HostAddress,
    LedgerConfig, NetworkId, NodeId, OfflineChainConfig, RunOptions, Verbosity,
};
use juno::views::configure::{ChainConfigType, Effect, HydraSettings, Message};

#[test]
fn verbosity_follows_the_quiet_switch() {
    assert_eq!(Verbosity::from_quiet(true), Verbosity::Quiet);
    assert_eq!(Verbosity::from_quiet(false), Verbosity::Verbose);
}

#[test]
fn decimal_text_of_every_byte() {
    for n in 0..=u8::MAX {
        assert_eq!(decimal_text(n), format!("{}", n));
    }
    assert_eq!(decimal_text(0), "0");
    assert_eq!(decimal_text(9), "9");
    assert_eq!(decimal_text(10), "10");
    assert_eq!(decimal_text(42), "42");
    assert_eq!(decimal_text(100), "100");
    assert_eq!(decimal_text(205), "205");
    assert_eq!(decimal_text(255), "255");
}

#[test]
fn network_id_is_written_as_its_magic() {
    assert_eq!(NetworkId::Mainnet.to_string(), "0");
    assert_eq!(NetworkId::Testnet(0).to_string(), "0");
    assert_eq!(NetworkId::Testnet(42).to_string(), "42");
    assert_eq!(NetworkId::Testnet(255).to_string(), "255");
}

#[test]
fn chain_config_type_defaults_to_offline() {
    assert_eq!(ChainConfigType::default(), ChainConfigType::Offline);
}

#[test]
fn chain_config_type_labels() {
    assert_eq!(ChainConfigType::Offline.to_string(), "Offline");
    assert_eq!(ChainConfigType::Direct.to_string(), "Online");
}

#[test]
fn chain_config_presets() {
    assert_eq!(
        ChainConfigType::Direct.preset(),
        ChainConfig::Direct(DirectChainConfig {
            network_id: NetworkId::Testnet(42),
            node_socket: "node.socket".to_string(),
            hydra_scripts_tx_id: String::new(),
            cardano_signing_key: "cardano.sk".to_string(),
            cardano_verification_keys: vec![],
            start_chain_from: None,
            contestation_period: 60,
            deposit_deadline: 60,
        })
    );
    assert_eq!(
        ChainConfigType::Offline.preset(),
        ChainConfig::Offline(OfflineChainConfig {
            initial_utxo_file: "utxo.json".to_string(),
            ledger_genesis_file: None,
        })
    );
}

#[test]
fn plain_options_compare_by_their_fields() {
    assert_eq!(NodeId("hydra-node-1".to_string()), NodeId("hydra-node-1".to_string()));
    assert_ne!(NodeId("hydra-node-1".to_string()), NodeId("hydra-node-2".to_string()));
    let ledger = LedgerConfig {
        cardano_ledger_protocol_parameters_file: "protocol-parameters.json".to_string(),
    };
    assert_eq!(ledger.clone(), ledger);
    let message = Message::HydraVerificationKeyChanged(2, "key.vk".to_string());
    assert!(matches!(message.clone(), Message::HydraVerificationKeyChanged(2, path) if path == "key.vk"));
}

#[test]
fn ports_are_read_as_the_standard_library_reads_them() {
    let texts = [
        "", "0", "7", "80", "5001", "65535", "65536", "65540", "99999", "100000", "4294967296",
        "18446744073709551616", "00000000000000000000000000080", "+", "+0", "+443", "++1", "-0",
        "-1", "+-1", " 80", "80 ", "8 0", "80\n", "0x50", "1e3", "1.0", "８０", "٨٠", "port",
        "6553५", "+65535", "+65536", "000065535", "000065536",
    ];
    for text in texts {
        assert_eq!(parse_u16(text), text.parse::<u16>().ok(), "{:?}", text);
    }
    for n in 0..=70000u32 {
        let text = n.to_string();
        assert_eq!(parse_u16(&text), text.parse::<u16>().ok());
    }
    assert_eq!(parse_u16("5001"), Some(5001));
    assert_eq!(parse_u16("65536"), None);
}

#[test]
fn default_run_options() {
    let options = RunOptions::default();
    assert_eq!(
        options,
        RunOptions {
            verbosity: Verbosity::Verbose,
            node_id: NodeId("hydra-node-1".to_string()),
            host: HostAddress::V4(127, 0, 0, 1),
            port: 5001,
            peers: vec![],
            api_host: HostAddress::V4(127, 0, 0, 1),
            api_port: 4001,
            tls_cert_path: None,
            tls_key_path: None,
            monitoring_port: None,
            hydra_signing_key: "hydra.sk".to_string(),
            hydra_verification_keys: vec![],
            persistence_dir: "./".to_string(),
            chain_config: ChainConfig::Direct(DirectChainConfig {
                network_id: NetworkId::Testnet(42),
                node_socket: "node.socket".to_string(),
                hydra_scripts_tx_id: "TxId".to_string(),
                cardano_signing_key: "cardano.sk".to_string(),
                cardano_verification_keys: vec![],
                start_chain_from: None,
                contestation_period: 60,
                deposit_deadline: 60,
            }),
            ledger_config: LedgerConfig {
                cardano_ledger_protocol_parameters_file: "protocol-parameters.json".to_string(),
            },
        }
    );
    assert_eq!(testnet_chain_config("TxId".to_string()), options.chain_config);
    assert_eq!(offline_chain_config(), ChainConfigType::Offline.preset());
}

#[test]
fn settings_start_from_the_default_options() {
    let shown = HydraSettings::new();
    assert_eq!(shown.run_options(), &RunOptions::default());
    assert_eq!(shown.chain_config_type(), ChainConfigType::Direct);
    let blank = HydraSettings::default();
    assert_eq!(blank.run_options(), &RunOptions::default());
    assert_eq!(blank.chain_config_type(), ChainConfigType::Offline);
}

fn after(messages: Vec<Message>) -> HydraSettings {
    let mut settings = HydraSettings::new();
    for message in messages {
        assert_eq!(settings.update(message), Effect::Nothing);
    }
    settings
}

#[test]
fn plain_fields_follow_their_messages() {
    let settings = after(vec![
        Message::VerbosityToggled(true),
        Message::NodeIdChanged("node-7".to_string()),
        Message::HostChanged(Some(HostAddress::V4(10, 0, 0, 7))),
        Message::ApiHostChanged(Some(HostAddress::V6(0, 0, 0, 0, 0, 0, 0, 1))),
        Message::TlsCertPathChanged("cert.pem".to_string()),
        Message::TlsKeyPathChanged("key.pem".to_string()),
        Message::HydraSigningKeyChanged("my.sk".to_string()),
        Message::PersistenceDirChanged("/var/hydra".to_string()),
    ]);
    let mut expected = RunOptions::default();
    expected.verbosity = Verbosity::Quiet;
    expected.node_id = NodeId("node-7".to_string());
    expected.host = HostAddress::V4(10, 0, 0, 7);
    expected.api_host = HostAddress::V6(0, 0, 0, 0, 0, 0, 0, 1);
    expected.tls_cert_path = Some("cert.pem".to_string());
    expected.tls_key_path = Some("key.pem".to_string());
    expected.hydra_signing_key = "my.sk".to_string();
    expected.persistence_dir = "/var/hydra".to_string();
    assert_eq!(settings.run_options(), &expected);
    assert_eq!(settings.chain_config_type(), ChainConfigType::Direct);
    let settings = after(vec![Message::VerbosityToggled(true), Message::VerbosityToggled(false)]);
    assert_eq!(settings.run_options(), &RunOptions::default());
}

#[test]
fn what_stands_for_nothing_changes_nothing() {
    let settings = after(vec![
        Message::HostChanged(None),
        Message::ApiHostChanged(None),
        Message::PortChanged("http".to_string()),
        Message::PortChanged("65536".to_string()),
        Message::PortChanged("".to_string()),
        Message::ApiPortChanged("-1".to_string()),
        Message::HydraVerificationKeyChanged(0, "nowhere.vk".to_string()),
        Message::BrowseTlsCert,
        Message::BrowseTlsKey,
        Message::BrowseHydraSigningKey,
        Message::BrowseHydraVerificationKey(3),
        Message::BrowsePersistenceDir,
    ]);
    assert_eq!(settings.run_options(), &RunOptions::default());
}

#[test]
fn ports_follow_their_messages() {
    let settings = after(vec![
        Message::PortChanged("6001".to_string()),
        Message::ApiPortChanged("+80".to_string()),
        Message::MonitoringPortChanged("9090".to_string()),
    ]);
    assert_eq!(settings.run_options().port, 6001);
    assert_eq!(settings.run_options().api_port, 80);
    assert_eq!(settings.run_options().monitoring_port, Some(9090));
    let settings = after(vec![
        Message::MonitoringPortChanged("9090".to_string()),
        Message::MonitoringPortChanged("909090".to_string()),
    ]);
    assert_eq!(settings.run_options().monitoring_port, None);
}

#[test]
fn verification_keys_are_added_changed_and_removed() {
    let settings = after(vec![
        Message::AddHydraVerificationKey,
        Message::AddHydraVerificationKey,
        Message::AddHydraVerificationKey,
        Message::HydraVerificationKeyChanged(0, "a.vk".to_string()),
        Message::HydraVerificationKeyChanged(2, "c.vk".to_string()),
        Message::HydraVerificationKeyChanged(3, "d.vk".to_string()),
    ]);
    assert_eq!(settings.run_options().hydra_verification_keys, vec!["a.vk", "", "c.vk"]);
    let settings = after(vec![
        Message::AddHydraVerificationKey,
        Message::AddHydraVerificationKey,
        Message::AddHydraVerificationKey,
        Message::HydraVerificationKeyChanged(0, "a.vk".to_string()),
        Message::HydraVerificationKeyChanged(1, "b.vk".to_string()),
        Message::HydraVerificationKeyChanged(2, "c.vk".to_string()),
        Message::RemoveHydraVerificationKey(1),
        Message::RemoveHydraVerificationKey(1),
    ]);
    assert_eq!(settings.run_options().hydra_verification_keys, vec!["a.vk"]);
}

#[test]
fn the_chain_configuration_follows_the_kind() {
    let settings = after(vec![Message::ChainConfigTypeChanged(ChainConfigType::Offline)]);
    assert_eq!(settings.chain_config_type(), ChainConfigType::Offline);
    assert_eq!(settings.run_options().chain_config, ChainConfigType::Offline.preset());
    let settings = after(vec![
        Message::NodeSocketChanged("other.socket".to_string()),
        Message::ChainConfigTypeChanged(ChainConfigType::Offline),
        Message::NodeSocketChanged("ignored.socket".to_string()),
        Message::NetworkIdChanged("7".to_string()),
    ]);
    assert_eq!(settings.run_options().chain_config, ChainConfigType::Offline.preset());
    let settings = after(vec![
        Message::ChainConfigTypeChanged(ChainConfigType::Offline),
        Message::ChainConfigTypeChanged(ChainConfigType::Direct),
    ]);
    assert_eq!(settings.chain_config_type(), ChainConfigType::Direct);
    assert_eq!(settings.run_options().chain_config, ChainConfigType::Direct.preset());
    assert_ne!(settings.run_options().chain_config, RunOptions::default().chain_config);
}

#[test]
fn a_direct_chain_takes_socket_and_network() {
    let settings = after(vec![
        Message::NodeSocketChanged("other.socket".to_string()),
        Message::NetworkIdChanged("1097911063".to_string()),
    ]);
    match &settings.run_options().chain_config {
        ChainConfig::Direct(direct) => {
            assert_eq!(direct.node_socket, "other.socket");
            assert_eq!(direct.network_id, NetworkId::Mainnet);
            assert_eq!(direct.hydra_scripts_tx_id, "TxId");
            assert_eq!(direct.cardano_signing_key, "cardano.sk");
        }
        other => panic!("{:?}", other),
    }
}

#[test]
fn saving_asks_for_the_settings_to_be_printed() {
    let mut settings = HydraSettings::new();
    assert_eq!(settings.update(Message::SaveSettings), Effect::PrintSettings);
    assert_eq!(settings.run_options(), &RunOptions::default());
    assert_eq!(settings.update(Message::BrowseTlsCert), Effect::Nothing);
}
