use std::str::FromStr;
use swap::asb::config::{
    default_asb_config_dir, default_asb_data_dir, gather, join, normal_multiaddr, normal_url,
    parse_listen_addresses, query_user_for_initial_config, read_config, split_at_commas, Answers,
    Bitcoin, Config, ConfigError, ConfigNotInitialized, Data, Decimal, Defaults, GetDefaults,
    Maker, Monero, Network, SystemDirs, TorConf, DEFAULT_MAX_BUY_AMOUNT, DEFAULT_MIN_BUY_AMOUNT,
    DEFAULT_SPREAD,
};
use swap::asb::document::{
    bitcoin_network_of, field_of, initial_setup, monero_network_of, name_of_bitcoin_network,
    name_of_monero_network, Entry, Field, Value,
};
use swap::bitcoin::Amount;
use swap::env::{Mainnet, Testnet};
use swap::tor::{DEFAULT_CONTROL_PORT, DEFAULT_SOCKS5_PORT};

fn dirs() -> SystemDirs {
    SystemDirs {
        config: Some("/home/maker/.config".to_string()),
        data: Some("/home/maker/.local/share/".to_string()),
    }
}

fn spread() -> Decimal {
    Decimal { negative: false, mantissa: DEFAULT_SPREAD, scale: 2 }
}

fn to_toml(entries: &[Entry]) -> String {
    let mut document = toml::value::Table::new();
    for entry in entries {
        let value = match &entry.value {
            Value::Text(text) => toml::Value::String(text.clone()),
            Value::Integer(n) => toml::Value::Integer(*n),
            Value::Amount(amount) => {
                toml::Value::Float(bitcoin::Amount::from_sat(amount.sat).as_btc())
            }
            Value::Decimal(decimal) => {
                let mantissa = decimal.mantissa as i128;
                let number = rust_decimal::Decimal::from_i128_with_scale(
                    if decimal.negative { -mantissa } else { mantissa },
                    decimal.scale,
                );
                toml::Value::String(number.to_string())
            }
            Value::List(list) => toml::Value::Array(
                list.iter().map(|text| toml::Value::String(text.clone())).collect(),
            ),
        };
        let section = document
            .entry(entry.section.clone())
            .or_insert_with(|| toml::Value::Table(toml::value::Table::new()));
        section.as_table_mut().unwrap().insert(entry.key.clone(), value);
    }
    toml::to_string(&toml::Value::Table(document)).unwrap()
}

fn from_toml(text: &str) -> Vec<Entry> {
    let document: toml::Value = toml::from_str(text).unwrap();
    let mut entries = Vec::new();
    for (section, fields) in document.as_table().unwrap() {
        for (key, value) in fields.as_table().unwrap() {
            let value = match value {
                toml::Value::String(text) => {
                    if field_of(section, key) == Some(Field::AskSpread) {
                        let number = rust_decimal::Decimal::from_str(text).unwrap();
                        Value::Decimal(Decimal {
                            negative: number.is_sign_negative(),
                            mantissa: number.mantissa().unsigned_abs(),
                            scale: number.scale(),
                        })
                    } else {
                        Value::Text(text.clone())
                    }
                }
                toml::Value::Integer(n) => Value::Integer(*n),
                toml::Value::Float(btc) => Value::Amount(Amount {
                    sat: bitcoin::Amount::from_btc(*btc).unwrap().as_sat(),
                }),
                toml::Value::Array(list) => Value::List(
                    list.iter().map(|item| item.as_str().unwrap().to_string()).collect(),
                ),
                other => panic!("unexpected value {:?}", other),
            };
            entries.push(Entry { section: section.clone(), key: key.clone(), value });
        }
    }
    entries
}

fn field(section: &str, key: &str, value: Value) -> Entry {
    Entry { section: section.to_string(), key: key.to_string(), value }
}

fn text(value: &str) -> Value {
    Value::Text(value.to_string())
}

fn testnet_entries() -> Vec<Entry> {
    vec![
        field("data", "dir", text("/var/asb")),
        field("network", "listen", Value::List(vec!["/ip4/0.0.0.0/tcp/9939".to_string()])),
        field("bitcoin", "electrum_rpc_url", text("ssl://electrum.blockstream.info:60002")),
        field("bitcoin", "target_block", Value::Integer(1)),
        field("bitcoin", "finality_confirmations", Value::Integer(2)),
        field("bitcoin", "network", text("Testnet")),
        field("monero", "wallet_rpc_url", text("http://127.0.0.1:38083/json_rpc")),
        field("monero", "network", text("Stagenet")),
        field("tor", "control_port", Value::Integer(9051)),
        field("tor", "socks5_port", Value::Integer(9050)),
        field("maker", "min_buy_btc", Value::Amount(Amount { sat: 200_000 })),
        field("maker", "max_buy_btc", Value::Amount(Amount { sat: 2_000_000 })),
        field("maker", "ask_spread", Value::Decimal(spread())),
        field("maker", "price_ticker_ws_url", text("wss://ws.kraken.com/")),
    ]
}

fn testnet_config() -> Config {
    Config {
        data: Data { dir: "/var/asb".to_string() },
        network: Network { listen: vec!["/ip4/0.0.0.0/tcp/9939".to_string()] },
        bitcoin: Bitcoin {
            electrum_rpc_url: "ssl://electrum.blockstream.info:60002".to_string(),
            target_block: 1,
            finality_confirmations: Some(2),
            network: swap::bitcoin::Network::Testnet,
        },
        monero: Monero {
            wallet_rpc_url: "http://127.0.0.1:38083/json_rpc".to_string(),
            finality_confirmations: None,
            network: swap::monero::Network::Stagenet,
        },
        tor: TorConf { control_port: 9051, socks5_port: 9050 },
        maker: Maker {
            min_buy_btc: Amount { sat: 200_000 },
            max_buy_btc: Amount { sat: 2_000_000 },
            ask_spread: spread(),
            price_ticker_ws_url: "wss://ws.kraken.com/".to_string(),
        },
    }
}

#[test]
fn config_roundtrip_testnet() {
    let defaults = Testnet::getConfigFileDefaults(&dirs()).unwrap();

    let expected = Config {
        data: Data { dir: Default::default() },
        bitcoin: Bitcoin {
            electrum_rpc_url: defaults.electrum_rpc_url,
            target_block: defaults.bitcoin_confirmation_target,
            finality_confirmations: None,
            network: swap::bitcoin::Network::Testnet,
        },
        network: Network { listen: vec![defaults.listen_address_tcp, defaults.listen_address_ws] },
        monero: Monero {
            wallet_rpc_url: defaults.monero_wallet_rpc_url,
            finality_confirmations: None,
            network: swap::monero::Network::Stagenet,
        },
        tor: Default::default(),
        maker: Maker {
            min_buy_btc: Amount { sat: DEFAULT_MIN_BUY_AMOUNT },
            max_buy_btc: Amount { sat: DEFAULT_MAX_BUY_AMOUNT },
            ask_spread: spread(),
            price_ticker_ws_url: defaults.price_ticker_ws_url,
        },
    };

    let written = to_toml(&initial_setup(&expected).unwrap());
    let actual = read_config(Some(from_toml(&written))).unwrap().unwrap();

    assert_eq!(expected, actual);
}

#[test]
fn config_roundtrip_mainnet() {
    let defaults = Mainnet::getConfigFileDefaults(&dirs()).unwrap();

    let expected = Config {
        data: Data { dir: Default::default() },
        bitcoin: Bitcoin {
            electrum_rpc_url: defaults.electrum_rpc_url,
            target_block: defaults.bitcoin_confirmation_target,
            finality_confirmations: None,
            network: swap::bitcoin::Network::Bitcoin,
        },
        network: Network { listen: vec![defaults.listen_address_tcp, defaults.listen_address_ws] },
        monero: Monero {
            wallet_rpc_url: defaults.monero_wallet_rpc_url,
            finality_confirmations: None,
            network: swap::monero::Network::Mainnet,
        },
        tor: Default::default(),
        maker: Maker {
            min_buy_btc: Amount { sat: DEFAULT_MIN_BUY_AMOUNT },
            max_buy_btc: Amount { sat: DEFAULT_MAX_BUY_AMOUNT },
            ask_spread: spread(),
            price_ticker_ws_url: defaults.price_ticker_ws_url,
        },
    };

    let written = to_toml(&initial_setup(&expected).unwrap());
    let actual = read_config(Some(from_toml(&written))).unwrap().unwrap();

    assert_eq!(expected, actual);
}

#[test]
fn testnet_defaults_are_as_documented() {
    let defaults = Testnet::getConfigFileDefaults(&dirs()).unwrap();
    assert_eq!(
        defaults,
        Defaults {
            config_path: "/home/maker/.config/asb/testnet/config.toml".to_string(),
            data_dir: "/home/maker/.local/share/asb/testnet".to_string(),
            listen_address_tcp: "/ip4/0.0.0.0/tcp/19939".to_string(),
            listen_address_ws: "/ip4/0.0.0.0/tcp/19940/ws".to_string(),
            electrum_rpc_url: "ssl://electrum.blockstream.info:60002".to_string(),
            monero_wallet_rpc_url: "http://127.0.0.1:38083/json_rpc".to_string(),
            price_ticker_ws_url: "wss://ws.kraken.com/".to_string(),
            bitcoin_confirmation_target: 1,
        }
    );
}

#[test]
fn mainnet_defaults_are_as_documented() {
    let defaults = Mainnet::getConfigFileDefaults(&dirs()).unwrap();
    assert_eq!(
        defaults,
        Defaults {
            config_path: "/home/maker/.config/asb/mainnet/config.toml".to_string(),
            data_dir: "/home/maker/.local/share/asb/mainnet".to_string(),
            listen_address_tcp: "/ip4/0.0.0.0/tcp/9939".to_string(),
            listen_address_ws: "/ip4/0.0.0.0/tcp/9940/ws".to_string(),
            electrum_rpc_url: "ssl://electrum.blockstream.info:50002".to_string(),
            monero_wallet_rpc_url: "http://127.0.0.1:18083/json_rpc".to_string(),
            price_ticker_ws_url: "wss://ws.kraken.com/".to_string(),
            bitcoin_confirmation_target: 3,
        }
    );
}

#[test]
fn defaults_need_the_system_directories() {
    let no_config = SystemDirs { config: None, data: Some("/data".to_string()) };
    assert_eq!(Testnet::getConfigFileDefaults(&no_config), Err(ConfigError::NoDefaultPath));
    let no_data = SystemDirs { config: Some("/config".to_string()), data: None };
    assert_eq!(Mainnet::getConfigFileDefaults(&no_data), Err(ConfigError::NoDefaultPath));
    assert_eq!(default_asb_config_dir(&None), Err(ConfigError::NoDefaultPath));
    assert_eq!(default_asb_data_dir(&None), Err(ConfigError::NoDefaultPath));
    assert_eq!(default_asb_config_dir(&Some("/etc".to_string())), Ok("/etc/asb".to_string()));
    assert_eq!(default_asb_data_dir(&Some("/var/".to_string())), Ok("/var/asb".to_string()));
    assert_eq!(default_asb_data_dir(&Some(String::new())), Ok("asb".to_string()));
}

#[test]
fn defaults_fail_on_the_first_part_that_is_missing() {
    let some = |s: &str| Some(s.to_string());
    assert_eq!(
        Defaults::assemble(&dirs(), "testnet", None, some("w"), None, None, None, 1),
        Err(ConfigError::InvalidListenAddress)
    );
    assert_eq!(
        Defaults::assemble(&dirs(), "testnet", some("t"), None, some("e"), some("m"), some("p"), 1),
        Err(ConfigError::InvalidListenAddress)
    );
    assert_eq!(
        Defaults::assemble(&dirs(), "testnet", some("t"), some("w"), None, None, None, 1),
        Err(ConfigError::InvalidElectrumRpcUrl)
    );
    assert_eq!(
        Defaults::assemble(&dirs(), "testnet", some("t"), some("w"), some("e"), None, None, 1),
        Err(ConfigError::InvalidMoneroWalletRpcUrl)
    );
    assert_eq!(
        Defaults::assemble(&dirs(), "testnet", some("t"), some("w"), some("e"), some("m"), None, 1),
        Err(ConfigError::InvalidPriceTickerUrl)
    );
    let no_dirs = SystemDirs { config: None, data: None };
    assert_eq!(
        Defaults::assemble(&no_dirs, "testnet", None, None, None, None, None, 1),
        Err(ConfigError::NoDefaultPath)
    );
    assert_eq!(
        Defaults::assemble(&dirs(), "x", some("t"), some("w"), some("e"), some("m"), some("p"), 7),
        Ok(Defaults {
            config_path: "/home/maker/.config/asb/x/config.toml".to_string(),
            data_dir: "/home/maker/.local/share/asb/x".to_string(),
            listen_address_tcp: "t".to_string(),
            listen_address_ws: "w".to_string(),
            electrum_rpc_url: "e".to_string(),
            monero_wallet_rpc_url: "m".to_string(),
            price_ticker_ws_url: "p".to_string(),
            bitcoin_confirmation_target: 7,
        })
    );
}

#[test]
fn paths_are_joined_with_one_separator() {
    assert_eq!(join("a", "b"), "a/b");
    assert_eq!(join("a/", "b"), "a/b");
    assert_eq!(join("", "b"), "b");
    assert_eq!(join("/", "b"), "/b");
    assert_eq!(join("/x/y", "config.toml"), "/x/y/config.toml");
}

#[test]
fn lists_are_split_at_commas() {
    assert_eq!(split_at_commas(""), vec![""]);
    assert_eq!(split_at_commas("a"), vec!["a"]);
    assert_eq!(split_at_commas("a,b"), vec!["a", "b"]);
    assert_eq!(split_at_commas(",a,,b,"), vec!["", "a", "", "b", ""]);
    assert_eq!(split_at_commas("é,ü"), vec!["é", "ü"]);
}

#[test]
fn urls_come_back_in_the_form_of_their_parser() {
    assert_eq!(normal_url("wss://ws.kraken.com"), Some("wss://ws.kraken.com/".to_string()));
    assert_eq!(normal_url("HTTP://Example.COM:80/a/../b"), Some("http://example.com/b".to_string()));
    assert_eq!(normal_url("not a url"), None);
    assert_eq!(normal_url(""), None);
}

#[test]
fn multiaddrs_come_back_in_the_form_of_their_parser() {
    assert_eq!(normal_multiaddr("/ip4/127.0.0.1/tcp/09939"), Some("/ip4/127.0.0.1/tcp/9939".to_string()));
    assert_eq!(normal_multiaddr("/ip4/0.0.0.0/tcp/9940/ws"), Some("/ip4/0.0.0.0/tcp/9940/ws".to_string()));
    assert_eq!(normal_multiaddr("ip4/127.0.0.1"), None);
    assert_eq!(normal_multiaddr("/ip4/not-an-ip/tcp/1"), None);
}

#[test]
fn listen_addresses_are_parsed_piece_by_piece() {
    assert_eq!(
        parse_listen_addresses("/ip4/0.0.0.0/tcp/9939,/ip4/0.0.0.0/tcp/09940/ws"),
        Some(vec!["/ip4/0.0.0.0/tcp/9939".to_string(), "/ip4/0.0.0.0/tcp/9940/ws".to_string()])
    );
    assert_eq!(parse_listen_addresses("/ip4/0.0.0.0/tcp/9939,nonsense"), None);
    assert_eq!(parse_listen_addresses("/ip4/0.0.0.0/tcp/9939, /ip4/0.0.0.0/tcp/1"), None);
    assert_eq!(
        gather(vec![Some("a".to_string()), Some("b".to_string()), Some("c".to_string())]),
        Some(vec!["a".to_string(), "b".to_string(), "c".to_string()])
    );
    assert_eq!(gather(vec![Some("a".to_string()), None, Some("c".to_string())]), None);
    assert_eq!(gather(vec![]), Some(vec![]));
}

#[test]
fn taking_every_default_gives_the_default_config() {
    let defaults = Testnet::getConfigFileDefaults(&dirs()).unwrap();
    let answers = Answers::from_defaults(&defaults);
    assert_eq!(
        answers,
        Answers {
            data_dir: "/home/maker/.local/share/asb/testnet".to_string(),
            target_block: 1,
            listen_addresses: "/ip4/0.0.0.0/tcp/19939,/ip4/0.0.0.0/tcp/19940/ws".to_string(),
            electrum_rpc_url: "ssl://electrum.blockstream.info:60002".to_string(),
            monero_wallet_rpc_url: "http://127.0.0.1:38083/json_rpc".to_string(),
            tor_control_port: 9051,
            tor_socks5_port: 9050,
            min_buy: Amount { sat: 200_000 },
            max_buy: Amount { sat: 2_000_000 },
            ask_spread: Decimal { negative: false, mantissa: 2, scale: 2 },
        }
    );
    let config = query_user_for_initial_config(true, defaults, answers).unwrap();
    assert_eq!(
        config,
        Config {
            data: Data { dir: "/home/maker/.local/share/asb/testnet".to_string() },
            network: Network {
                listen: vec![
                    "/ip4/0.0.0.0/tcp/19939".to_string(),
                    "/ip4/0.0.0.0/tcp/19940/ws".to_string()
                ],
            },
            bitcoin: Bitcoin {
                electrum_rpc_url: "ssl://electrum.blockstream.info:60002".to_string(),
                target_block: 1,
                finality_confirmations: None,
                network: swap::bitcoin::Network::Testnet,
            },
            monero: Monero {
                wallet_rpc_url: "http://127.0.0.1:38083/json_rpc".to_string(),
                finality_confirmations: None,
                network: swap::monero::Network::Stagenet,
            },
            tor: TorConf { control_port: DEFAULT_CONTROL_PORT, socks5_port: DEFAULT_SOCKS5_PORT },
            maker: Maker {
                min_buy_btc: Amount { sat: 200_000 },
                max_buy_btc: Amount { sat: 2_000_000 },
                ask_spread: Decimal { negative: false, mantissa: 2, scale: 2 },
                price_ticker_ws_url: "wss://ws.kraken.com/".to_string(),
            },
        }
    );
    assert_eq!(config.validate(), Ok(()));
    assert!(config.maker.buys(Amount { sat: 1_000_000 }));
    assert!(config.maker.buys(Amount { sat: 200_000 }));
    assert!(config.maker.buys(Amount { sat: 2_000_000 }));
    assert!(!config.maker.buys(Amount { sat: 199_999 }));
    assert!(!config.maker.buys(Amount { sat: 2_000_001 }));

    let mainnet = Mainnet::getConfigFileDefaults(&dirs()).unwrap();
    let answers = Answers::from_defaults(&mainnet);
    let config = query_user_for_initial_config(false, mainnet, answers).unwrap();
    assert_eq!(config.bitcoin.network, swap::bitcoin::Network::Bitcoin);
    assert_eq!(config.monero.network, swap::monero::Network::Mainnet);
    assert_eq!(config.bitcoin.target_block, 3);
    assert_eq!(
        config.network.listen,
        vec!["/ip4/0.0.0.0/tcp/9939".to_string(), "/ip4/0.0.0.0/tcp/9940/ws".to_string()]
    );
}

#[test]
fn wrong_answers_are_turned_down_in_the_order_of_the_questions() {
    let defaults = Testnet::getConfigFileDefaults(&dirs()).unwrap();
    let good = Answers::from_defaults(&defaults);
    let all_wrong = Answers {
        listen_addresses: "nonsense".to_string(),
        electrum_rpc_url: "nonsense".to_string(),
        monero_wallet_rpc_url: "nonsense".to_string(),
        min_buy: Amount { sat: 2 },
        max_buy: Amount { sat: 1 },
        ask_spread: Decimal { negative: false, mantissa: 101, scale: 2 },
        ..good.clone()
    };
    assert_eq!(
        query_user_for_initial_config(true, defaults.clone(), all_wrong.clone()),
        Err(ConfigError::InvalidListenAddress)
    );
    let answers = Answers { listen_addresses: good.listen_addresses.clone(), ..all_wrong };
    assert_eq!(
        query_user_for_initial_config(true, defaults.clone(), answers.clone()),
        Err(ConfigError::InvalidElectrumRpcUrl)
    );
    let answers = Answers { electrum_rpc_url: good.electrum_rpc_url.clone(), ..answers };
    assert_eq!(
        query_user_for_initial_config(true, defaults.clone(), answers.clone()),
        Err(ConfigError::InvalidMoneroWalletRpcUrl)
    );
    let answers = Answers { monero_wallet_rpc_url: good.monero_wallet_rpc_url.clone(), ..answers };
    assert_eq!(
        query_user_for_initial_config(true, defaults.clone(), answers.clone()),
        Err(ConfigError::InvalidSpread)
    );
    let answers = Answers { ask_spread: good.ask_spread, ..answers };
    assert_eq!(
        query_user_for_initial_config(true, defaults.clone(), answers.clone()),
        Err(ConfigError::MinBuyAboveMaxBuy)
    );
    let answers = Answers { max_buy: Amount { sat: 2 }, ..answers };
    assert!(query_user_for_initial_config(true, defaults, answers).is_ok());
}

#[test]
fn spread_has_to_lie_between_zero_and_one() {
    let decimal = |negative, mantissa, scale| Decimal { negative, mantissa, scale };
    assert!(decimal(false, 0, 0).is_in_unit_interval());
    assert!(decimal(true, 0, 5).is_in_unit_interval());
    assert!(decimal(false, 1, 0).is_in_unit_interval());
    assert!(decimal(false, 2, 2).is_in_unit_interval());
    assert!(decimal(false, 100, 2).is_in_unit_interval());
    assert!(decimal(false, 10_000_000_000_000_000_000_000_000_000, 28).is_in_unit_interval());
    assert!(decimal(false, 1, 200).is_in_unit_interval());
    assert!(decimal(false, u128::MAX, 39).is_in_unit_interval());
    assert!(!decimal(false, u128::MAX, 38).is_in_unit_interval());
    assert!(!decimal(false, 2, 0).is_in_unit_interval());
    assert!(!decimal(false, 101, 2).is_in_unit_interval());
    assert!(!decimal(true, 1, 2).is_in_unit_interval());
    assert!(!decimal(false, 10_000_000_000_000_000_000_000_000_001, 28).is_in_unit_interval());
}

#[test]
fn config_is_held_to_the_rules_when_read() {
    let defaults = Testnet::getConfigFileDefaults(&dirs()).unwrap();
    let answers = Answers::from_defaults(&defaults);
    let good = query_user_for_initial_config(true, defaults, answers).unwrap();

    let read = |config: &Config| read_config(Some(initial_setup(config).unwrap()));
    assert_eq!(read_config(None), Ok(Err(ConfigNotInitialized {})));
    assert_eq!(ConfigNotInitialized {}.to_string(), "config not initialized");
    assert_eq!(read(&good), Ok(Ok(good.clone())));

    let mut config = good.clone();
    config.maker.ask_spread = Decimal { negative: false, mantissa: 11, scale: 1 };
    assert_eq!(read(&config), Err(ConfigError::InvalidSpread));

    let mut config = good.clone();
    config.maker.ask_spread = Decimal { negative: true, mantissa: 1, scale: 1 };
    assert_eq!(config.validate(), Err(ConfigError::InvalidSpread));

    let mut config = good.clone();
    config.maker.min_buy_btc = Amount { sat: 2_000_001 };
    assert_eq!(read(&config), Err(ConfigError::MinBuyAboveMaxBuy));

    let mut config = good.clone();
    config.network.listen.push("nonsense".to_string());
    assert_eq!(read(&config), Err(ConfigError::InvalidListenAddress));
    assert!(!config.network.is_valid());
    assert!(good.network.is_valid());

    let mut config = good.clone();
    config.bitcoin.electrum_rpc_url = "nonsense".to_string();
    assert_eq!(read(&config), Err(ConfigError::InvalidElectrumRpcUrl));

    let mut config = good.clone();
    config.monero.wallet_rpc_url = "nonsense".to_string();
    assert_eq!(read(&config), Err(ConfigError::InvalidMoneroWalletRpcUrl));

    let mut config = good.clone();
    config.maker.price_ticker_ws_url = "nonsense".to_string();
    assert_eq!(read(&config), Err(ConfigError::InvalidPriceTickerUrl));

    assert_eq!(good.maker.judge(true, true, true, true), Ok(()));
    assert_eq!(good.maker.judge(false, false, false, false), Err(ConfigError::InvalidListenAddress));
    assert_eq!(good.maker.judge(true, false, false, false), Err(ConfigError::InvalidElectrumRpcUrl));
    assert_eq!(good.maker.judge(true, true, false, false), Err(ConfigError::InvalidMoneroWalletRpcUrl));
    assert_eq!(good.maker.judge(true, true, true, false), Err(ConfigError::InvalidPriceTickerUrl));
    assert_eq!(TorConf::default(), TorConf { control_port: 9051, socks5_port: 9050 });
}

#[test]
fn fields_of_the_file_are_read_strictly() {
    assert_eq!(Config::read(&testnet_entries()), Ok(testnet_config()));
    assert_eq!(initial_setup(&testnet_config()), Ok(testnet_entries()));

    let mut shuffled = testnet_entries();
    shuffled.reverse();
    assert_eq!(Config::read(&shuffled), Ok(testnet_config()));

    let mut entries = testnet_entries();
    entries.push(field("maker", "colour", text("green")));
    assert_eq!(Config::read(&entries), Err(ConfigError::UnknownField));
    assert_eq!(read_config(Some(entries)), Err(ConfigError::UnknownField));

    let mut entries = testnet_entries();
    entries.push(field("wallet", "dir", text("/var/asb")));
    assert_eq!(Config::read(&entries), Err(ConfigError::UnknownField));

    let mut entries = testnet_entries();
    entries.push(field("tor", "socks5_port", Value::Integer(9050)));
    assert_eq!(Config::read(&entries), Err(ConfigError::DuplicateField));

    for missing in [0, 1, 2, 3, 5, 6, 7, 8, 9, 10, 11, 12, 13] {
        let mut entries = testnet_entries();
        entries.remove(missing);
        assert_eq!(Config::read(&entries), Err(ConfigError::MissingField));
    }
    let mut entries = testnet_entries();
    entries.remove(4);
    let config = Config::read(&entries).unwrap();
    assert_eq!(config.bitcoin.finality_confirmations, None);
    assert_eq!(Config::read(&Vec::new()), Err(ConfigError::MissingField));
}

#[test]
fn values_of_the_wrong_kind_or_out_of_range_are_turned_down() {
    let replaced = |at: usize, value: Value| {
        let mut entries = testnet_entries();
        entries[at].value = value;
        Config::read(&entries)
    };
    assert_eq!(replaced(0, Value::Integer(1)), Err(ConfigError::InvalidValue));
    assert_eq!(replaced(1, text("/ip4/0.0.0.0/tcp/9939")), Err(ConfigError::InvalidValue));
    assert_eq!(replaced(3, text("1")), Err(ConfigError::InvalidValue));
    assert_eq!(replaced(3, Value::Integer(-1)), Err(ConfigError::InvalidValue));
    assert_eq!(replaced(4, Value::Integer(4_294_967_296)), Err(ConfigError::InvalidValue));
    assert_eq!(
        replaced(4, Value::Integer(4_294_967_295)).unwrap().bitcoin.finality_confirmations,
        Some(u32::MAX)
    );
    assert_eq!(replaced(5, text("Bitcoin")), Err(ConfigError::InvalidValue));
    assert_eq!(replaced(7, text("Regtest")), Err(ConfigError::InvalidValue));
    assert_eq!(replaced(8, Value::Integer(65_536)), Err(ConfigError::InvalidValue));
    assert_eq!(replaced(8, Value::Integer(65_535)).unwrap().tor.control_port, 65_535);
    assert_eq!(replaced(9, Value::Integer(-1)), Err(ConfigError::InvalidValue));
    assert_eq!(replaced(10, Value::Integer(200_000)), Err(ConfigError::InvalidValue));
    assert_eq!(replaced(12, text("0.02")), Err(ConfigError::InvalidValue));
    assert_eq!(replaced(13, Value::Decimal(spread())), Err(ConfigError::InvalidValue));

    let mut entries = testnet_entries();
    entries.insert(8, field("monero", "finality_confirmations", Value::Integer(-1)));
    assert_eq!(Config::read(&entries), Err(ConfigError::InvalidValue));
    entries[8].value = Value::Integer(i64::MAX);
    assert_eq!(
        Config::read(&entries).unwrap().monero.finality_confirmations,
        Some(i64::MAX as u64)
    );

    let mut config = testnet_config();
    config.monero.finality_confirmations = Some(i64::MAX as u64 + 1);
    assert_eq!(initial_setup(&config), Err(ConfigError::InvalidValue));
    config.monero.finality_confirmations = Some(i64::MAX as u64);
    assert_eq!(Config::read(&initial_setup(&config).unwrap()), Ok(config));
}

#[test]
fn fields_and_networks_go_by_their_names() {
    let fields = [
        (Field::DataDir, "data", "dir"),
        (Field::Listen, "network", "listen"),
        (Field::ElectrumRpcUrl, "bitcoin", "electrum_rpc_url"),
        (Field::TargetBlock, "bitcoin", "target_block"),
        (Field::BitcoinFinalityConfirmations, "bitcoin", "finality_confirmations"),
        (Field::BitcoinNetwork, "bitcoin", "network"),
        (Field::WalletRpcUrl, "monero", "wallet_rpc_url"),
        (Field::MoneroFinalityConfirmations, "monero", "finality_confirmations"),
        (Field::MoneroNetwork, "monero", "network"),
        (Field::ControlPort, "tor", "control_port"),
        (Field::Socks5Port, "tor", "socks5_port"),
        (Field::MinBuyBtc, "maker", "min_buy_btc"),
        (Field::MaxBuyBtc, "maker", "max_buy_btc"),
        (Field::AskSpread, "maker", "ask_spread"),
        (Field::PriceTickerWsUrl, "maker", "price_ticker_ws_url"),
    ];
    for (field, section, key) in fields {
        assert_eq!(field.section_name(), section);
        assert_eq!(field.key_name(), key);
        assert_eq!(field_of(&section.to_string(), &key.to_string()), Some(field));
    }
    assert_eq!(field_of(&"data".to_string(), &"listen".to_string()), None);
    assert_eq!(field_of(&"tor".to_string(), &"network".to_string()), None);
    assert_eq!(field_of(&"".to_string(), &"dir".to_string()), None);

    for (network, name) in [
        (swap::bitcoin::Network::Bitcoin, "Mainnet"),
        (swap::bitcoin::Network::Testnet, "Testnet"),
        (swap::bitcoin::Network::Signet, "Signet"),
        (swap::bitcoin::Network::Regtest, "Regtest"),
    ] {
        assert_eq!(name_of_bitcoin_network(network), name);
        assert_eq!(bitcoin_network_of(&name.to_string()), Some(network));
    }
    for (network, name) in [
        (swap::monero::Network::Mainnet, "Mainnet"),
        (swap::monero::Network::Stagenet, "Stagenet"),
        (swap::monero::Network::Testnet, "Testnet"),
    ] {
        assert_eq!(name_of_monero_network(network), name);
        assert_eq!(monero_network_of(&name.to_string()), Some(network));
    }
    assert_eq!(bitcoin_network_of(&"mainnet".to_string()), None);
    assert_eq!(monero_network_of(&"Signet".to_string()), None);
}

#[test]
fn the_two_settings_have_defaults_of_their_own() {
    let testnet = Testnet::getConfigFileDefaults(&dirs()).unwrap();
    let mainnet = Mainnet::getConfigFileDefaults(&dirs()).unwrap();
    assert_ne!(testnet.listen_address_tcp, mainnet.listen_address_tcp);
    assert_ne!(testnet.listen_address_ws, mainnet.listen_address_ws);
    assert_ne!(testnet.electrum_rpc_url, mainnet.electrum_rpc_url);
    assert_ne!(testnet.monero_wallet_rpc_url, mainnet.monero_wallet_rpc_url);
    assert_ne!(testnet.bitcoin_confirmation_target, mainnet.bitcoin_confirmation_target);
    assert_ne!(testnet.config_path, mainnet.config_path);
    assert_ne!(testnet.data_dir, mainnet.data_dir);
    assert_eq!(testnet.price_ticker_ws_url, mainnet.price_ticker_ws_url);

    let one = Defaults::of_setting(
        &dirs(),
        "x",
        "/ip4/127.0.0.1/tcp/01",
        "/ip4/127.0.0.1/tcp/2/ws",
        "ssl://e:1",
        "http://w:2/",
        5,
    )
    .unwrap();
    assert_eq!(one.listen_address_tcp, "/ip4/127.0.0.1/tcp/1");
    assert_eq!(one.listen_address_ws, "/ip4/127.0.0.1/tcp/2/ws");
    assert_eq!(one.electrum_rpc_url, "ssl://e:1");
    assert_eq!(one.monero_wallet_rpc_url, "http://w:2/");
    assert_eq!(one.bitcoin_confirmation_target, 5);
    assert_eq!(
        Defaults::of_setting(&dirs(), "x", "nonsense", "/ip4/127.0.0.1/tcp/2/ws", "a:b", "c:d", 5),
        Err(ConfigError::InvalidListenAddress)
    );
}
