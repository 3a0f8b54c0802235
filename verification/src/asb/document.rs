//! The configuration file, as the fields it holds: which fields there are,
//! what each may hold, and how a configuration is read from them and written
//! to them. Turning text into fields and back is left to the file format.
//!
//! The file has six sections. Reading is strict: a field that no section
//! has, a field that comes twice, a value of the wrong kind or out of range,
//! and a missing field each fail with an error of their own.

use crate::asb::config::{
    copy_texts, texts, Bitcoin, Config, ConfigError, ConfigView, Data, Decimal, Maker, Monero,
    Network, TorConf,
};
use crate::bitcoin::Amount;
use vstd::prelude::*;

verus! {

/// What a field of the configuration file can hold.
#[derive(Clone, Debug, PartialEq, Eq)]
pub enum Value {
    Text(String),
    Integer(i64),
    /// An amount of Bitcoin.
    Amount(Amount),
    Decimal(Decimal),
    /// A list of texts.
    List(Vec<String>),
}

/// What a [`Value`] holds, as a mathematical value.
pub enum ValueView {
    Text(Seq<char>),
    Integer(i64),
    Amount(Amount),
    Decimal(Decimal),
    List(Seq<Seq<char>>),
}

impl View for Value {
    type V = ValueView;

    open spec fn view(&self) -> ValueView {
        match self {
            Value::Text(text) => ValueView::Text(text@),
            Value::Integer(n) => ValueView::Integer(*n),
            Value::Amount(amount) => ValueView::Amount(*amount),
            Value::Decimal(decimal) => ValueView::Decimal(*decimal),
            Value::List(list) => ValueView::List(texts(list@)),
        }
    }
}

/// One field of the configuration file: the section it stands in, its key,
/// and its value.
#[derive(Clone, Debug, PartialEq, Eq)]
pub struct Entry {
    pub section: String,
    pub key: String,
    pub value: Value,
}

/// What an [`Entry`] holds, as mathematical values.
pub struct EntryView {
    pub section: Seq<char>,
    pub key: Seq<char>,
    pub value: ValueView,
}

impl View for Entry {
    type V = EntryView;

    open spec fn view(&self) -> EntryView {
        EntryView { section: self.section@, key: self.key@, value: self.value@ }
    }
}

/// What a list of entries holds.
pub open spec fn entries_of(entries: Seq<Entry>) -> Seq<EntryView> {
    entries.map_values(|entry: Entry| entry@)
}

/// The fields of a configuration.
#[derive(Clone, Copy, Debug, PartialEq, Eq, Structural)]
pub enum Field {
    DataDir,
    Listen,
    ElectrumRpcUrl,
    TargetBlock,
    BitcoinFinalityConfirmations,
    BitcoinNetwork,
    WalletRpcUrl,
    MoneroFinalityConfirmations,
    MoneroNetwork,
    ControlPort,
    Socks5Port,
    MinBuyBtc,
    MaxBuyBtc,
    AskSpread,
    PriceTickerWsUrl,
}

impl Field {
    /// The section of the file in which the field stands.
    pub open spec fn section(self) -> Seq<char> {
        match self {
            Field::DataDir => "data"@,
            Field::Listen => "network"@,
            Field::ElectrumRpcUrl | Field::TargetBlock | Field::BitcoinFinalityConfirmations
            | Field::BitcoinNetwork => "bitcoin"@,
            Field::WalletRpcUrl | Field::MoneroFinalityConfirmations | Field::MoneroNetwork => {
                "monero"@
            },
            Field::ControlPort | Field::Socks5Port => "tor"@,
            Field::MinBuyBtc | Field::MaxBuyBtc | Field::AskSpread | Field::PriceTickerWsUrl => {
                "maker"@
            },
        }
    }

    /// The key of the field in its section.
    pub open spec fn key(self) -> Seq<char> {
        match self {
            Field::DataDir => "dir"@,
            Field::Listen => "listen"@,
            Field::ElectrumRpcUrl => "electrum_rpc_url"@,
            Field::TargetBlock => "target_block"@,
            Field::BitcoinFinalityConfirmations => "finality_confirmations"@,
            Field::BitcoinNetwork => "network"@,
            Field::WalletRpcUrl => "wallet_rpc_url"@,
            Field::MoneroFinalityConfirmations => "finality_confirmations"@,
            Field::MoneroNetwork => "network"@,
            Field::ControlPort => "control_port"@,
            Field::Socks5Port => "socks5_port"@,
            Field::MinBuyBtc => "min_buy_btc"@,
            Field::MaxBuyBtc => "max_buy_btc"@,
            Field::AskSpread => "ask_spread"@,
            Field::PriceTickerWsUrl => "price_ticker_ws_url"@,
        }
    }
}

/// The field with the given key in the given section, where there is one.
pub open spec fn field_named(section: Seq<char>, key: Seq<char>) -> Option<Field> {
    if section == "data"@ {
        if key == "dir"@ {
            Some(Field::DataDir)
        } else {
            None
        }
    } else if section == "network"@ {
        if key == "listen"@ {
            Some(Field::Listen)
        } else {
            None
        }
    } else if section == "bitcoin"@ {
        if key == "electrum_rpc_url"@ {
            Some(Field::ElectrumRpcUrl)
        } else if key == "target_block"@ {
            Some(Field::TargetBlock)
        } else if key == "finality_confirmations"@ {
            Some(Field::BitcoinFinalityConfirmations)
        } else if key == "network"@ {
            Some(Field::BitcoinNetwork)
        } else {
            None
        }
    } else if section == "monero"@ {
        if key == "wallet_rpc_url"@ {
            Some(Field::WalletRpcUrl)
        } else if key == "finality_confirmations"@ {
            Some(Field::MoneroFinalityConfirmations)
        } else if key == "network"@ {
            Some(Field::MoneroNetwork)
        } else {
            None
        }
    } else if section == "tor"@ {
        if key == "control_port"@ {
            Some(Field::ControlPort)
        } else if key == "socks5_port"@ {
            Some(Field::Socks5Port)
        } else {
            None
        }
    } else if section == "maker"@ {
        if key == "min_buy_btc"@ {
            Some(Field::MinBuyBtc)
        } else if key == "max_buy_btc"@ {
            Some(Field::MaxBuyBtc)
        } else if key == "ask_spread"@ {
            Some(Field::AskSpread)
        } else if key == "price_ticker_ws_url"@ {
            Some(Field::PriceTickerWsUrl)
        } else {
            None
        }
    } else {
        None
    }
}

/// Whether a string holds the given text.
fn same(string: &String, text: &str) -> (r: bool)
    ensures
        r == (string@ == text@),
{
    *string == String::from_str(text)
}

/// The field with the given key in the given section, where there is one.
pub fn field_of(section: &String, key: &String) -> (r: Option<Field>)
    ensures
        r == field_named(section@, key@),
{
    if same(section, "data") {
        if same(key, "dir") {
            Some(Field::DataDir)
        } else {
            None
        }
    } else if same(section, "network") {
        if same(key, "listen") {
            Some(Field::Listen)
        } else {
            None
        }
    } else if same(section, "bitcoin") {
        if same(key, "electrum_rpc_url") {
            Some(Field::ElectrumRpcUrl)
        } else if same(key, "target_block") {
            Some(Field::TargetBlock)
        } else if same(key, "finality_confirmations") {
            Some(Field::BitcoinFinalityConfirmations)
        } else if same(key, "network") {
            Some(Field::BitcoinNetwork)
        } else {
            None
        }
    } else if same(section, "monero") {
        if same(key, "wallet_rpc_url") {
            Some(Field::WalletRpcUrl)
        } else if same(key, "finality_confirmations") {
            Some(Field::MoneroFinalityConfirmations)
        } else if same(key, "network") {
            Some(Field::MoneroNetwork)
        } else {
            None
        }
    } else if same(section, "tor") {
        if same(key, "control_port") {
            Some(Field::ControlPort)
        } else if same(key, "socks5_port") {
            Some(Field::Socks5Port)
        } else {
            None
        }
    } else if same(section, "maker") {
        if same(key, "min_buy_btc") {
            Some(Field::MinBuyBtc)
        } else if same(key, "max_buy_btc") {
            Some(Field::MaxBuyBtc)
        } else if same(key, "ask_spread") {
            Some(Field::AskSpread)
        } else if same(key, "price_ticker_ws_url") {
            Some(Field::PriceTickerWsUrl)
        } else {
            None
        }
    } else {
        None
    }
}

/// Every field is found under its own section and key.
pub proof fn lemma_field_named(field: Field)
    ensures
        field_named(field.section(), field.key()) == Some(field),
{
    reveal_strlit("data");
    reveal_strlit("network");
    reveal_strlit("bitcoin");
    reveal_strlit("monero");
    reveal_strlit("tor");
    reveal_strlit("maker");
    reveal_strlit("dir");
    reveal_strlit("listen");
    reveal_strlit("electrum_rpc_url");
    reveal_strlit("target_block");
    reveal_strlit("finality_confirmations");
    reveal_strlit("wallet_rpc_url");
    reveal_strlit("control_port");
    reveal_strlit("socks5_port");
    reveal_strlit("min_buy_btc");
    reveal_strlit("max_buy_btc");
    reveal_strlit("ask_spread");
    reveal_strlit("price_ticker_ws_url");
    assert("network"@[0] != "bitcoin"@[0]);
    assert("min_buy_btc"@[1] != "max_buy_btc"@[1]);
    assert("data"@.len() == 4 && "network"@.len() == 7 && "bitcoin"@.len() == 7 && "monero"@.len()
        == 6 && "tor"@.len() == 3 && "maker"@.len() == 5);
    assert("electrum_rpc_url"@.len() == 16 && "target_block"@.len() == 12
        && "finality_confirmations"@.len() == 22 && "wallet_rpc_url"@.len() == 14);
    assert("control_port"@.len() == 12 && "socks5_port"@.len() == 11);
    assert("min_buy_btc"@.len() == 11 && "max_buy_btc"@.len() == 11 && "ask_spread"@.len() == 10
        && "price_ticker_ws_url"@.len() == 19);
}

/// The Bitcoin network of the given name in the file, where there is one.
pub open spec fn bitcoin_network_named(name: Seq<char>) -> Option<crate::bitcoin::Network> {
    if name == "Mainnet"@ {
        Some(crate::bitcoin::Network::Bitcoin)
    } else if name == "Testnet"@ {
        Some(crate::bitcoin::Network::Testnet)
    } else if name == "Signet"@ {
        Some(crate::bitcoin::Network::Signet)
    } else if name == "Regtest"@ {
        Some(crate::bitcoin::Network::Regtest)
    } else {
        None
    }
}

/// The name of a Bitcoin network in the file.
pub open spec fn bitcoin_network_name(network: crate::bitcoin::Network) -> Seq<char> {
    match network {
        crate::bitcoin::Network::Bitcoin => "Mainnet"@,
        crate::bitcoin::Network::Testnet => "Testnet"@,
        crate::bitcoin::Network::Signet => "Signet"@,
        crate::bitcoin::Network::Regtest => "Regtest"@,
    }
}

/// The Monero network of the given name in the file, where there is one.
pub open spec fn monero_network_named(name: Seq<char>) -> Option<crate::monero::Network> {
    if name == "Mainnet"@ {
        Some(crate::monero::Network::Mainnet)
    } else if name == "Stagenet"@ {
        Some(crate::monero::Network::Stagenet)
    } else if name == "Testnet"@ {
        Some(crate::monero::Network::Testnet)
    } else {
        None
    }
}

/// The name of a Monero network in the file.
pub open spec fn monero_network_name(network: crate::monero::Network) -> Seq<char> {
    match network {
        crate::monero::Network::Mainnet => "Mainnet"@,
        crate::monero::Network::Stagenet => "Stagenet"@,
        crate::monero::Network::Testnet => "Testnet"@,
    }
}

/// Every network is found under its own name.
pub proof fn lemma_network_named(bitcoin: crate::bitcoin::Network, monero: crate::monero::Network)
    ensures
        bitcoin_network_named(bitcoin_network_name(bitcoin)) == Some(bitcoin),
        monero_network_named(monero_network_name(monero)) == Some(monero),
{
    reveal_strlit("Mainnet");
    reveal_strlit("Testnet");
    reveal_strlit("Signet");
    reveal_strlit("Regtest");
    reveal_strlit("Stagenet");
    assert("Mainnet"@[0] != "Testnet"@[0]);
    assert("Mainnet"@[0] != "Regtest"@[0]);
    assert("Testnet"@[0] != "Regtest"@[0]);
    assert("Signet"@.len() == 6 && "Mainnet"@.len() == 7 && "Stagenet"@.len() == 8);
}

/// The Bitcoin network of the given name in the file, where there is one.
pub fn bitcoin_network_of(name: &String) -> (r: Option<crate::bitcoin::Network>)
    ensures
        r == bitcoin_network_named(name@),
{
    if same(name, "Mainnet") {
        Some(crate::bitcoin::Network::Bitcoin)
    } else if same(name, "Testnet") {
        Some(crate::bitcoin::Network::Testnet)
    } else if same(name, "Signet") {
        Some(crate::bitcoin::Network::Signet)
    } else if same(name, "Regtest") {
        Some(crate::bitcoin::Network::Regtest)
    } else {
        None
    }
}

/// The Monero network of the given name in the file, where there is one.
pub fn monero_network_of(name: &String) -> (r: Option<crate::monero::Network>)
    ensures
        r == monero_network_named(name@),
{
    if same(name, "Mainnet") {
        Some(crate::monero::Network::Mainnet)
    } else if same(name, "Stagenet") {
        Some(crate::monero::Network::Stagenet)
    } else if same(name, "Testnet") {
        Some(crate::monero::Network::Testnet)
    } else {
        None
    }
}

/// What has been read of a configuration so far: for each field its value,
/// once the field was met.
pub struct DraftView {
    pub data_dir: Option<Seq<char>>,
    pub listen: Option<Seq<Seq<char>>>,
    pub electrum_rpc_url: Option<Seq<char>>,
    pub target_block: Option<usize>,
    pub bitcoin_finality_confirmations: Option<u32>,
    pub bitcoin_network: Option<crate::bitcoin::Network>,
    pub wallet_rpc_url: Option<Seq<char>>,
    pub monero_finality_confirmations: Option<u64>,
    pub monero_network: Option<crate::monero::Network>,
    pub control_port: Option<u16>,
    pub socks5_port: Option<u16>,
    pub min_buy_btc: Option<Amount>,
    pub max_buy_btc: Option<Amount>,
    pub ask_spread: Option<Decimal>,
    pub price_ticker_ws_url: Option<Seq<char>>,
}

impl DraftView {
    /// The draft before any field was met.
    pub open spec fn empty() -> DraftView {
        DraftView {
            data_dir: None,
            listen: None,
            electrum_rpc_url: None,
            target_block: None,
            bitcoin_finality_confirmations: None,
            bitcoin_network: None,
            wallet_rpc_url: None,
            monero_finality_confirmations: None,
            monero_network: None,
            control_port: None,
            socks5_port: None,
            min_buy_btc: None,
            max_buy_btc: None,
            ask_spread: None,
            price_ticker_ws_url: None,
        }
    }

    /// Whether the field was met.
    pub open spec fn has(self, field: Field) -> bool {
        match field {
            Field::DataDir => self.data_dir.is_some(),
            Field::Listen => self.listen.is_some(),
            Field::ElectrumRpcUrl => self.electrum_rpc_url.is_some(),
            Field::TargetBlock => self.target_block.is_some(),
            Field::BitcoinFinalityConfirmations => self.bitcoin_finality_confirmations.is_some(),
            Field::BitcoinNetwork => self.bitcoin_network.is_some(),
            Field::WalletRpcUrl => self.wallet_rpc_url.is_some(),
            Field::MoneroFinalityConfirmations => self.monero_finality_confirmations.is_some(),
            Field::MoneroNetwork => self.monero_network.is_some(),
            Field::ControlPort => self.control_port.is_some(),
            Field::Socks5Port => self.socks5_port.is_some(),
            Field::MinBuyBtc => self.min_buy_btc.is_some(),
            Field::MaxBuyBtc => self.max_buy_btc.is_some(),
            Field::AskSpread => self.ask_spread.is_some(),
            Field::PriceTickerWsUrl => self.price_ticker_ws_url.is_some(),
        }
    }

    /// The draft with the value of a field put in, or `None` where the field
    /// does not take the value: a text where a text is due, a list for the
    /// listen addresses, an integer in the field's range for the counts and
    /// ports, the name of a network for a network, an amount for an amount
    /// and a decimal for the spread.
    pub open spec fn with(self, field: Field, value: ValueView) -> Option<DraftView> {
        match (field, value) {
            (Field::DataDir, ValueView::Text(text)) => Some(
                DraftView { data_dir: Some(text), ..self },
            ),
            (Field::Listen, ValueView::List(list)) => Some(DraftView { listen: Some(list), ..self }),
            (Field::ElectrumRpcUrl, ValueView::Text(text)) => Some(
                DraftView { electrum_rpc_url: Some(text), ..self },
            ),
            (Field::TargetBlock, ValueView::Integer(n)) => if 0 <= n <= usize::MAX {
                Some(DraftView { target_block: Some(n as usize), ..self })
            } else {
                None
            },
            (Field::BitcoinFinalityConfirmations, ValueView::Integer(n)) => if 0 <= n <= u32::MAX {
                Some(DraftView { bitcoin_finality_confirmations: Some(n as u32), ..self })
            } else {
                None
            },
            (Field::BitcoinNetwork, ValueView::Text(name)) => match bitcoin_network_named(name) {
                Some(network) => Some(DraftView { bitcoin_network: Some(network), ..self }),
                None => None,
            },
            (Field::WalletRpcUrl, ValueView::Text(text)) => Some(
                DraftView { wallet_rpc_url: Some(text), ..self },
            ),
            (Field::MoneroFinalityConfirmations, ValueView::Integer(n)) => if 0 <= n {
                Some(DraftView { monero_finality_confirmations: Some(n as u64), ..self })
            } else {
                None
            },
            (Field::MoneroNetwork, ValueView::Text(name)) => match monero_network_named(name) {
                Some(network) => Some(DraftView { monero_network: Some(network), ..self }),
                None => None,
            },
            (Field::ControlPort, ValueView::Integer(n)) => if 0 <= n <= u16::MAX {
                Some(DraftView { control_port: Some(n as u16), ..self })
            } else {
                None
            },
            (Field::Socks5Port, ValueView::Integer(n)) => if 0 <= n <= u16::MAX {
                Some(DraftView { socks5_port: Some(n as u16), ..self })
            } else {
                None
            },
            (Field::MinBuyBtc, ValueView::Amount(amount)) => Some(
                DraftView { min_buy_btc: Some(amount), ..self },
            ),
            (Field::MaxBuyBtc, ValueView::Amount(amount)) => Some(
                DraftView { max_buy_btc: Some(amount), ..self },
            ),
            (Field::AskSpread, ValueView::Decimal(decimal)) => Some(
                DraftView { ask_spread: Some(decimal), ..self },
            ),
            (Field::PriceTickerWsUrl, ValueView::Text(text)) => Some(
                DraftView { price_ticker_ws_url: Some(text), ..self },
            ),
            _ => None,
        }
    }

    /// The draft after one more entry of the file: `UnknownField` where no
    /// field has the entry's section and key, `DuplicateField` where the
    /// field was met before, `InvalidValue` where the field does not take the
    /// entry's value.
    pub open spec fn absorb(self, entry: EntryView) -> Result<DraftView, ConfigError> {
        match field_named(entry.section, entry.key) {
            None => Err(ConfigError::UnknownField),
            Some(field) => if self.has(field) {
                Err(ConfigError::DuplicateField)
            } else {
                match self.with(field, entry.value) {
                    Some(draft) => Ok(draft),
                    None => Err(ConfigError::InvalidValue),
                }
            },
        }
    }

    /// The configuration that the draft amounts to once the file is read to
    /// its end; `MissingField` where a field was not met, other than the two
    /// counts of confirmations for finality, which may be left out.
    pub open spec fn finish(self) -> Result<ConfigView, ConfigError> {
        if self.data_dir.is_none() || self.listen.is_none() || self.electrum_rpc_url.is_none()
            || self.target_block.is_none() || self.bitcoin_network.is_none()
            || self.wallet_rpc_url.is_none() || self.monero_network.is_none()
            || self.control_port.is_none() || self.socks5_port.is_none()
            || self.min_buy_btc.is_none() || self.max_buy_btc.is_none()
            || self.ask_spread.is_none() || self.price_ticker_ws_url.is_none() {
            Err(ConfigError::MissingField)
        } else {
            Ok(
                ConfigView {
                    data_dir: self.data_dir->0,
                    listen: self.listen->0,
                    electrum_rpc_url: self.electrum_rpc_url->0,
                    target_block: self.target_block->0,
                    bitcoin_finality_confirmations: self.bitcoin_finality_confirmations,
                    bitcoin_network: self.bitcoin_network->0,
                    wallet_rpc_url: self.wallet_rpc_url->0,
                    monero_finality_confirmations: self.monero_finality_confirmations,
                    monero_network: self.monero_network->0,
                    tor: TorConf {
                        control_port: self.control_port->0,
                        socks5_port: self.socks5_port->0,
                    },
                    min_buy_btc: self.min_buy_btc->0,
                    max_buy_btc: self.max_buy_btc->0,
                    ask_spread: self.ask_spread->0,
                    price_ticker_ws_url: self.price_ticker_ws_url->0,
                },
            )
        }
    }
}

/// The draft after all of `entries`, taken in their order, or the error of
/// the first entry that fails.
pub open spec fn drafted(entries: Seq<EntryView>) -> Result<DraftView, ConfigError>
    decreases entries.len(),
{
    if entries.len() == 0 {
        Ok(DraftView::empty())
    } else {
        match drafted(entries.drop_last()) {
            Ok(draft) => draft.absorb(entries.last()),
            Err(e) => Err(e),
        }
    }
}

/// The configuration that the entries of a file amount to.
pub open spec fn reading(entries: Seq<EntryView>) -> Result<ConfigView, ConfigError> {
    match drafted(entries) {
        Ok(draft) => draft.finish(),
        Err(e) => Err(e),
    }
}

/// What has been read of a configuration so far.
struct Draft {
    data_dir: Option<String>,
    listen: Option<Vec<String>>,
    electrum_rpc_url: Option<String>,
    target_block: Option<usize>,
    bitcoin_finality_confirmations: Option<u32>,
    bitcoin_network: Option<crate::bitcoin::Network>,
    wallet_rpc_url: Option<String>,
    monero_finality_confirmations: Option<u64>,
    monero_network: Option<crate::monero::Network>,
    control_port: Option<u16>,
    socks5_port: Option<u16>,
    min_buy_btc: Option<Amount>,
    max_buy_btc: Option<Amount>,
    ask_spread: Option<Decimal>,
    price_ticker_ws_url: Option<String>,
}

/// The text of a string that may be missing.
spec fn text(string: Option<String>) -> Option<Seq<char>> {
    match string {
        Some(s) => Some(s@),
        None => None,
    }
}

impl View for Draft {
    type V = DraftView;

    closed spec fn view(&self) -> DraftView {
        DraftView {
            data_dir: text(self.data_dir),
            listen: match self.listen {
                Some(list) => Some(texts(list@)),
                None => None,
            },
            electrum_rpc_url: text(self.electrum_rpc_url),
            target_block: self.target_block,
            bitcoin_finality_confirmations: self.bitcoin_finality_confirmations,
            bitcoin_network: self.bitcoin_network,
            wallet_rpc_url: text(self.wallet_rpc_url),
            monero_finality_confirmations: self.monero_finality_confirmations,
            monero_network: self.monero_network,
            control_port: self.control_port,
            socks5_port: self.socks5_port,
            min_buy_btc: self.min_buy_btc,
            max_buy_btc: self.max_buy_btc,
            ask_spread: self.ask_spread,
            price_ticker_ws_url: text(self.price_ticker_ws_url),
        }
    }
}

/// What a draft holds where it came about, the error where it did not.
spec fn draft_of(draft: Result<Draft, ConfigError>) -> Result<DraftView, ConfigError> {
    match draft {
        Ok(draft) => Ok(draft@),
        Err(e) => Err(e),
    }
}

impl Draft {
    fn empty() -> (r: Draft)
        ensures
            r@ == DraftView::empty(),
    {
        Draft {
            data_dir: None,
            listen: None,
            electrum_rpc_url: None,
            target_block: None,
            bitcoin_finality_confirmations: None,
            bitcoin_network: None,
            wallet_rpc_url: None,
            monero_finality_confirmations: None,
            monero_network: None,
            control_port: None,
            socks5_port: None,
            min_buy_btc: None,
            max_buy_btc: None,
            ask_spread: None,
            price_ticker_ws_url: None,
        }
    }

    fn has(&self, field: Field) -> (r: bool)
        ensures
            r == self@.has(field),
    {
        match field {
            Field::DataDir => self.data_dir.is_some(),
            Field::Listen => self.listen.is_some(),
            Field::ElectrumRpcUrl => self.electrum_rpc_url.is_some(),
            Field::TargetBlock => self.target_block.is_some(),
            Field::BitcoinFinalityConfirmations => self.bitcoin_finality_confirmations.is_some(),
            Field::BitcoinNetwork => self.bitcoin_network.is_some(),
            Field::WalletRpcUrl => self.wallet_rpc_url.is_some(),
            Field::MoneroFinalityConfirmations => self.monero_finality_confirmations.is_some(),
            Field::MoneroNetwork => self.monero_network.is_some(),
            Field::ControlPort => self.control_port.is_some(),
            Field::Socks5Port => self.socks5_port.is_some(),
            Field::MinBuyBtc => self.min_buy_btc.is_some(),
            Field::MaxBuyBtc => self.max_buy_btc.is_some(),
            Field::AskSpread => self.ask_spread.is_some(),
            Field::PriceTickerWsUrl => self.price_ticker_ws_url.is_some(),
        }
    }

    fn with(self, field: Field, value: &Value) -> (r: Option<Draft>)
        ensures
            match self@.with(field, value@) {
                Some(draft) => r.is_some() && r->0@ == draft,
                None => r.is_none(),
            },
    {
        let mut draft = self;
        match (field, value) {
            (Field::DataDir, Value::Text(text)) => {
                draft.data_dir = Some(text.clone());
            },
            (Field::Listen, Value::List(list)) => {
                draft.listen = Some(copy_texts(list));
            },
            (Field::ElectrumRpcUrl, Value::Text(text)) => {
                draft.electrum_rpc_url = Some(text.clone());
            },
            (Field::TargetBlock, Value::Integer(n)) => {
                if *n < 0 || *n as u64 > usize::MAX as u64 {
                    return None;
                }
                draft.target_block = Some(*n as usize);
            },
            (Field::BitcoinFinalityConfirmations, Value::Integer(n)) => {
                if *n < 0 || *n > u32::MAX as i64 {
                    return None;
                }
                draft.bitcoin_finality_confirmations = Some(*n as u32);
            },
            (Field::BitcoinNetwork, Value::Text(name)) => {
                match bitcoin_network_of(name) {
                    Some(network) => {
                        draft.bitcoin_network = Some(network);
                    },
                    None => {
                        return None;
                    },
                }
            },
            (Field::WalletRpcUrl, Value::Text(text)) => {
                draft.wallet_rpc_url = Some(text.clone());
            },
            (Field::MoneroFinalityConfirmations, Value::Integer(n)) => {
                if *n < 0 {
                    return None;
                }
                draft.monero_finality_confirmations = Some(*n as u64);
            },
            (Field::MoneroNetwork, Value::Text(name)) => {
                match monero_network_of(name) {
                    Some(network) => {
                        draft.monero_network = Some(network);
                    },
                    None => {
                        return None;
                    },
                }
            },
            (Field::ControlPort, Value::Integer(n)) => {
                if *n < 0 || *n > u16::MAX as i64 {
                    return None;
                }
                draft.control_port = Some(*n as u16);
            },
            (Field::Socks5Port, Value::Integer(n)) => {
                if *n < 0 || *n > u16::MAX as i64 {
                    return None;
                }
                draft.socks5_port = Some(*n as u16);
            },
            (Field::MinBuyBtc, Value::Amount(amount)) => {
                draft.min_buy_btc = Some(*amount);
            },
            (Field::MaxBuyBtc, Value::Amount(amount)) => {
                draft.max_buy_btc = Some(*amount);
            },
            (Field::AskSpread, Value::Decimal(decimal)) => {
                draft.ask_spread = Some(*decimal);
            },
            (Field::PriceTickerWsUrl, Value::Text(text)) => {
                draft.price_ticker_ws_url = Some(text.clone());
            },
            _ => {
                return None;
            },
        }
        Some(draft)
    }

    fn absorb(self, entry: &Entry) -> (r: Result<Draft, ConfigError>)
        ensures
            draft_of(r) == self@.absorb(entry@),
    {
        match field_of(&entry.section, &entry.key) {
            None => Err(ConfigError::UnknownField),
            Some(field) => if self.has(field) {
                Err(ConfigError::DuplicateField)
            } else {
                match self.with(field, &entry.value) {
                    Some(draft) => Ok(draft),
                    None => Err(ConfigError::InvalidValue),
                }
            },
        }
    }

    fn finish(self) -> (r: Result<Config, ConfigError>)
        ensures
            crate::asb::config::config_of(r) == self@.finish(),
    {
        match (
            self.data_dir,
            self.listen,
            self.electrum_rpc_url,
            self.target_block,
            self.bitcoin_network,
            self.wallet_rpc_url,
            self.monero_network,
        ) {
            (
                Some(dir),
                Some(listen),
                Some(electrum_rpc_url),
                Some(target_block),
                Some(bitcoin_network),
                Some(wallet_rpc_url),
                Some(monero_network),
            ) => match (
                self.control_port,
                self.socks5_port,
                self.min_buy_btc,
                self.max_buy_btc,
                self.ask_spread,
                self.price_ticker_ws_url,
            ) {
                (
                    Some(control_port),
                    Some(socks5_port),
                    Some(min_buy_btc),
                    Some(max_buy_btc),
                    Some(ask_spread),
                    Some(price_ticker_ws_url),
                ) => Ok(
                    Config {
                        data: Data { dir },
                        network: Network { listen },
                        bitcoin: Bitcoin {
                            electrum_rpc_url,
                            target_block,
                            finality_confirmations: self.bitcoin_finality_confirmations,
                            network: bitcoin_network,
                        },
                        monero: Monero {
                            wallet_rpc_url,
                            finality_confirmations: self.monero_finality_confirmations,
                            network: monero_network,
                        },
                        tor: TorConf { control_port, socks5_port },
                        maker: Maker {
                            min_buy_btc,
                            max_buy_btc,
                            ask_spread,
                            price_ticker_ws_url,
                        },
                    },
                ),
                _ => Err(ConfigError::MissingField),
            },
            _ => Err(ConfigError::MissingField),
        }
    }
}

impl Config {
    /// The configuration that the fields of a file amount to. Reading is
    /// strict: the first entry that names no field, names a field again or
    /// holds a value that its field does not take decides the error, and so
    /// does, at the end, a field that is missing. Whether the configuration
    /// meets the rules is not looked at here.
    pub fn read(entries: &Vec<Entry>) -> (r: Result<Config, ConfigError>)
        ensures
            crate::asb::config::config_of(r) == reading(entries_of(entries@)),
    {
        let mut draft = Draft::empty();
        let mut i: usize = 0;
        assert(entries_of(entries@).take(0).len() == 0);
        while i < entries.len()
            invariant
                i <= entries.len(),
                drafted(entries_of(entries@).take(i as int)) == Ok::<DraftView, ConfigError>(
                    draft@,
                ),
            decreases entries.len() - i,
        {
            proof {
                let all = entries_of(entries@);
                assert(all.take(i + 1).drop_last() =~= all.take(i as int));
                assert(all.take(i + 1).last() == entries[i as int]@);
            }
            draft = match draft.absorb(&entries[i]) {
                Ok(draft) => draft,
                Err(e) => {
                    proof {
                        lemma_drafted_fails(entries_of(entries@), i + 1);
                    }
                    return Err(e);
                },
            };
            i = i + 1;
        }
        assert(entries_of(entries@).take(i as int) =~= entries_of(entries@));
        draft.finish()
    }
}

/// Once the first `n` entries fail, all of them fail, with the same error.
pub proof fn lemma_drafted_fails(entries: Seq<EntryView>, n: int)
    requires
        0 <= n <= entries.len(),
        drafted(entries.take(n)).is_err(),
    ensures
        drafted(entries) == drafted(entries.take(n)),
    decreases entries.len() - n,
{
    if n < entries.len() {
        assert(entries.take(n + 1).drop_last() =~= entries.take(n));
        lemma_drafted_fails(entries, n + 1);
    } else {
        assert(entries.take(n) =~= entries);
    }
}

/// The entry of a field with a value.
pub open spec fn entry(field: Field, value: ValueView) -> EntryView {
    EntryView { section: field.section(), key: field.key(), value }
}

/// `entries` with one more entry where there is a value for it.
pub open spec fn with_optional(entries: Seq<EntryView>, field: Field, value: Option<int>) -> Seq<
    EntryView,
> {
    match value {
        Some(n) => entries.push(entry(field, ValueView::Integer(n as i64))),
        None => entries,
    }
}

impl ConfigView {
    /// Whether the counts of the configuration are such as a file can hold:
    /// none above the greatest integer of the file format.
    pub open spec fn writable(self) -> bool {
        &&& self.target_block <= i64::MAX
        &&& self.monero_finality_confirmations matches Some(n) ==> n <= i64::MAX
    }

    /// The count of Bitcoin confirmations for finality, where one is set.
    pub open spec fn bitcoin_finality(self) -> Option<int> {
        match self.bitcoin_finality_confirmations {
            Some(n) => Some(n as int),
            None => None,
        }
    }

    /// The count of Monero confirmations for finality, where one is set.
    pub open spec fn monero_finality(self) -> Option<int> {
        match self.monero_finality_confirmations {
            Some(n) => Some(n as int),
            None => None,
        }
    }

    /// The fields of the file that holds the configuration, section by
    /// section, a count of confirmations for finality only where one is set.
    pub open spec fn writing(self) -> Seq<EntryView> {
        let bitcoin = Seq::<EntryView>::empty().push(
            entry(Field::DataDir, ValueView::Text(self.data_dir)),
        ).push(entry(Field::Listen, ValueView::List(self.listen))).push(
            entry(Field::ElectrumRpcUrl, ValueView::Text(self.electrum_rpc_url)),
        ).push(entry(Field::TargetBlock, ValueView::Integer(self.target_block as i64)));
        let monero = with_optional(
            bitcoin,
            Field::BitcoinFinalityConfirmations,
            self.bitcoin_finality(),
        ).push(
            entry(
                Field::BitcoinNetwork,
                ValueView::Text(bitcoin_network_name(self.bitcoin_network)),
            ),
        ).push(entry(Field::WalletRpcUrl, ValueView::Text(self.wallet_rpc_url)));
        with_optional(monero, Field::MoneroFinalityConfirmations, self.monero_finality()).push(
            entry(Field::MoneroNetwork, ValueView::Text(monero_network_name(self.monero_network))),
        ).push(entry(Field::ControlPort, ValueView::Integer(self.tor.control_port as i64))).push(
            entry(Field::Socks5Port, ValueView::Integer(self.tor.socks5_port as i64)),
        ).push(entry(Field::MinBuyBtc, ValueView::Amount(self.min_buy_btc))).push(
            entry(Field::MaxBuyBtc, ValueView::Amount(self.max_buy_btc)),
        ).push(entry(Field::AskSpread, ValueView::Decimal(self.ask_spread))).push(
            entry(Field::PriceTickerWsUrl, ValueView::Text(self.price_ticker_ws_url)),
        )
    }
}

/// One more entry, of a field that was not met and takes the value, puts the
/// value into the draft.
proof fn lemma_one_more(entries: Seq<EntryView>, draft: DraftView, field: Field, value: ValueView)
    requires
        drafted(entries) == Ok::<DraftView, ConfigError>(draft),
        !draft.has(field),
        draft.with(field, value).is_some(),
    ensures
        drafted(entries.push(entry(field, value))) == Ok::<DraftView, ConfigError>(
            draft.with(field, value)->0,
        ),
{
    lemma_field_named(field);
    let more = entries.push(entry(field, value));
    assert(more.drop_last() =~= entries);
    assert(more.last() == entry(field, value));
}

/// One more entry for a count that may be left out puts the count into the
/// draft where there is one.
proof fn lemma_one_more_optional(
    entries: Seq<EntryView>,
    draft: DraftView,
    field: Field,
    value: Option<int>,
)
    requires
        drafted(entries) == Ok::<DraftView, ConfigError>(draft),
        !draft.has(field),
        value matches Some(n) ==> draft.with(field, ValueView::Integer(n as i64)).is_some(),
    ensures
        drafted(with_optional(entries, field, value)) == Ok::<DraftView, ConfigError>(
            match value {
                Some(n) => draft.with(field, ValueView::Integer(n as i64))->0,
                None => draft,
            },
        ),
{
    if let Some(n) = value {
        lemma_one_more(entries, draft, field, ValueView::Integer(n as i64));
    }
}

/// A configuration that is written to the fields of a file and read from
/// them again comes back as it was.
pub proof fn lemma_read_what_was_written(config: ConfigView)
    requires
        config.writable(),
    ensures
        reading(config.writing()) == Ok::<ConfigView, ConfigError>(config),
{
    lemma_network_named(config.bitcoin_network, config.monero_network);
    let s0 = Seq::<EntryView>::empty();
    let d0 = DraftView::empty();
    assert(drafted(s0) == Ok::<DraftView, ConfigError>(d0));
    let v1 = ValueView::Text(config.data_dir);
    lemma_one_more(s0, d0, Field::DataDir, v1);
    let s1 = s0.push(entry(Field::DataDir, v1));
    let d1 = d0.with(Field::DataDir, v1)->0;
    let v2 = ValueView::List(config.listen);
    lemma_one_more(s1, d1, Field::Listen, v2);
    let s2 = s1.push(entry(Field::Listen, v2));
    let d2 = d1.with(Field::Listen, v2)->0;
    let v3 = ValueView::Text(config.electrum_rpc_url);
    lemma_one_more(s2, d2, Field::ElectrumRpcUrl, v3);
    let s3 = s2.push(entry(Field::ElectrumRpcUrl, v3));
    let d3 = d2.with(Field::ElectrumRpcUrl, v3)->0;
    let v4 = ValueView::Integer(config.target_block as i64);
    lemma_one_more(s3, d3, Field::TargetBlock, v4);
    let s4 = s3.push(entry(Field::TargetBlock, v4));
    let d4 = d3.with(Field::TargetBlock, v4)->0;
    lemma_one_more_optional(
        s4,
        d4,
        Field::BitcoinFinalityConfirmations,
        config.bitcoin_finality(),
    );
    let s5 = with_optional(s4, Field::BitcoinFinalityConfirmations, config.bitcoin_finality());
    let d5 = DraftView {
        bitcoin_finality_confirmations: config.bitcoin_finality_confirmations,
        ..d4
    };
    assert(drafted(s5) == Ok::<DraftView, ConfigError>(d5));
    let v6 = ValueView::Text(bitcoin_network_name(config.bitcoin_network));
    lemma_one_more(s5, d5, Field::BitcoinNetwork, v6);
    let s6 = s5.push(entry(Field::BitcoinNetwork, v6));
    let d6 = d5.with(Field::BitcoinNetwork, v6)->0;
    let v7 = ValueView::Text(config.wallet_rpc_url);
    lemma_one_more(s6, d6, Field::WalletRpcUrl, v7);
    let s7 = s6.push(entry(Field::WalletRpcUrl, v7));
    let d7 = d6.with(Field::WalletRpcUrl, v7)->0;
    lemma_one_more_optional(s7, d7, Field::MoneroFinalityConfirmations, config.monero_finality());
    let s8 = with_optional(s7, Field::MoneroFinalityConfirmations, config.monero_finality());
    let d8 = DraftView {
        monero_finality_confirmations: config.monero_finality_confirmations,
        ..d7
    };
    assert(drafted(s8) == Ok::<DraftView, ConfigError>(d8));
    let v9 = ValueView::Text(monero_network_name(config.monero_network));
    lemma_one_more(s8, d8, Field::MoneroNetwork, v9);
    let s9 = s8.push(entry(Field::MoneroNetwork, v9));
    let d9 = d8.with(Field::MoneroNetwork, v9)->0;
    let v10 = ValueView::Integer(config.tor.control_port as i64);
    lemma_one_more(s9, d9, Field::ControlPort, v10);
    let s10 = s9.push(entry(Field::ControlPort, v10));
    let d10 = d9.with(Field::ControlPort, v10)->0;
    let v11 = ValueView::Integer(config.tor.socks5_port as i64);
    lemma_one_more(s10, d10, Field::Socks5Port, v11);
    let s11 = s10.push(entry(Field::Socks5Port, v11));
    let d11 = d10.with(Field::Socks5Port, v11)->0;
    let v12 = ValueView::Amount(config.min_buy_btc);
    lemma_one_more(s11, d11, Field::MinBuyBtc, v12);
    let s12 = s11.push(entry(Field::MinBuyBtc, v12));
    let d12 = d11.with(Field::MinBuyBtc, v12)->0;
    let v13 = ValueView::Amount(config.max_buy_btc);
    lemma_one_more(s12, d12, Field::MaxBuyBtc, v13);
    let s13 = s12.push(entry(Field::MaxBuyBtc, v13));
    let d13 = d12.with(Field::MaxBuyBtc, v13)->0;
    let v14 = ValueView::Decimal(config.ask_spread);
    lemma_one_more(s13, d13, Field::AskSpread, v14);
    let s14 = s13.push(entry(Field::AskSpread, v14));
    let d14 = d13.with(Field::AskSpread, v14)->0;
    let v15 = ValueView::Text(config.price_ticker_ws_url);
    lemma_one_more(s14, d14, Field::PriceTickerWsUrl, v15);
    let s15 = s14.push(entry(Field::PriceTickerWsUrl, v15));
    let d15 = d14.with(Field::PriceTickerWsUrl, v15)->0;
    assert(s15 == config.writing());
    assert(d15.finish() == Ok::<ConfigView, ConfigError>(config));
}

impl Field {
    /// The section of the file in which the field stands.
    pub fn section_name(&self) -> (r: String)
        ensures
            r@ == self.section(),
    {
        match self {
            Field::DataDir => String::from_str("data"),
            Field::Listen => String::from_str("network"),
            Field::ElectrumRpcUrl
            | Field::TargetBlock
            | Field::BitcoinFinalityConfirmations
            | Field::BitcoinNetwork => String::from_str("bitcoin"),
            Field::WalletRpcUrl | Field::MoneroFinalityConfirmations | Field::MoneroNetwork => {
                String::from_str("monero")
            },
            Field::ControlPort | Field::Socks5Port => String::from_str("tor"),
            Field::MinBuyBtc | Field::MaxBuyBtc | Field::AskSpread | Field::PriceTickerWsUrl => {
                String::from_str("maker")
            },
        }
    }

    /// The key of the field in its section.
    pub fn key_name(&self) -> (r: String)
        ensures
            r@ == self.key(),
    {
        match self {
            Field::DataDir => String::from_str("dir"),
            Field::Listen => String::from_str("listen"),
            Field::ElectrumRpcUrl => String::from_str("electrum_rpc_url"),
            Field::TargetBlock => String::from_str("target_block"),
            Field::BitcoinFinalityConfirmations => String::from_str("finality_confirmations"),
            Field::BitcoinNetwork => String::from_str("network"),
            Field::WalletRpcUrl => String::from_str("wallet_rpc_url"),
            Field::MoneroFinalityConfirmations => String::from_str("finality_confirmations"),
            Field::MoneroNetwork => String::from_str("network"),
            Field::ControlPort => String::from_str("control_port"),
            Field::Socks5Port => String::from_str("socks5_port"),
            Field::MinBuyBtc => String::from_str("min_buy_btc"),
            Field::MaxBuyBtc => String::from_str("max_buy_btc"),
            Field::AskSpread => String::from_str("ask_spread"),
            Field::PriceTickerWsUrl => String::from_str("price_ticker_ws_url"),
        }
    }
}

/// The name of a Bitcoin network in the file.
pub fn name_of_bitcoin_network(network: crate::bitcoin::Network) -> (r: String)
    ensures
        r@ == bitcoin_network_name(network),
{
    match network {
        crate::bitcoin::Network::Bitcoin => String::from_str("Mainnet"),
        crate::bitcoin::Network::Testnet => String::from_str("Testnet"),
        crate::bitcoin::Network::Signet => String::from_str("Signet"),
        crate::bitcoin::Network::Regtest => String::from_str("Regtest"),
    }
}

/// The name of a Monero network in the file.
pub fn name_of_monero_network(network: crate::monero::Network) -> (r: String)
    ensures
        r@ == monero_network_name(network),
{
    match network {
        crate::monero::Network::Mainnet => String::from_str("Mainnet"),
        crate::monero::Network::Stagenet => String::from_str("Stagenet"),
        crate::monero::Network::Testnet => String::from_str("Testnet"),
    }
}

/// Puts the entry of a field at the end of a list of entries.
fn put(entries: &mut Vec<Entry>, field: Field, value: Value)
    ensures
        entries_of(final(entries)@) == entries_of(old(entries)@).push(entry(field, value@)),
{
    let ghost before = entries_of(entries@);
    entries.push(Entry { section: field.section_name(), key: field.key_name(), value });
    assert(entries_of(entries@) =~= before.push(entry(field, value@)));
}

/// What a list of entries holds where it came about, the error where it did
/// not.
pub open spec fn written(entries: Result<Vec<Entry>, ConfigError>) -> Result<
    Seq<EntryView>,
    ConfigError,
> {
    match entries {
        Ok(entries) => Ok(entries_of(entries@)),
        Err(e) => Err(e),
    }
}

/// The fields of the file to write at the first run, for the configuration
/// that the operator settled on: `InvalidValue` where a count is greater
/// than a file can hold.
pub fn initial_setup(config: &Config) -> (r: Result<Vec<Entry>, ConfigError>)
    ensures
        written(r) == if config@.writable() {
            Ok::<Seq<EntryView>, ConfigError>(config@.writing())
        } else {
            Err::<Seq<EntryView>, ConfigError>(ConfigError::InvalidValue)
        },
{
    if config.bitcoin.target_block as u64 > i64::MAX as u64 {
        return Err(ConfigError::InvalidValue);
    }
    match config.monero.finality_confirmations {
        Some(n) => {
            if n > i64::MAX as u64 {
                return Err(ConfigError::InvalidValue);
            }
        },
        None => {},
    }
    let mut entries: Vec<Entry> = Vec::new();
    assert(entries_of(entries@) =~= Seq::<EntryView>::empty());
    put(&mut entries, Field::DataDir, Value::Text(config.data.dir.clone()));
    put(&mut entries, Field::Listen, Value::List(copy_texts(&config.network.listen)));
    put(&mut entries, Field::ElectrumRpcUrl, Value::Text(config.bitcoin.electrum_rpc_url.clone()));
    put(&mut entries, Field::TargetBlock, Value::Integer(config.bitcoin.target_block as i64));
    match config.bitcoin.finality_confirmations {
        Some(n) => {
            put(&mut entries, Field::BitcoinFinalityConfirmations, Value::Integer(n as i64));
        },
        None => {},
    }
    put(
        &mut entries,
        Field::BitcoinNetwork,
        Value::Text(name_of_bitcoin_network(config.bitcoin.network)),
    );
    put(&mut entries, Field::WalletRpcUrl, Value::Text(config.monero.wallet_rpc_url.clone()));
    match config.monero.finality_confirmations {
        Some(n) => {
            put(&mut entries, Field::MoneroFinalityConfirmations, Value::Integer(n as i64));
        },
        None => {},
    }
    put(
        &mut entries,
        Field::MoneroNetwork,
        Value::Text(name_of_monero_network(config.monero.network)),
    );
    put(&mut entries, Field::ControlPort, Value::Integer(config.tor.control_port as i64));
    put(&mut entries, Field::Socks5Port, Value::Integer(config.tor.socks5_port as i64));
    put(&mut entries, Field::MinBuyBtc, Value::Amount(config.maker.min_buy_btc));
    put(&mut entries, Field::MaxBuyBtc, Value::Amount(config.maker.max_buy_btc));
    put(&mut entries, Field::AskSpread, Value::Decimal(config.maker.ask_spread));
    put(
        &mut entries,
        Field::PriceTickerWsUrl,
        Value::Text(config.maker.price_ticker_ws_url.clone()),
    );
    Ok(entries)
}

} // verus!
