//! The maker's configuration: the record itself, the defaults of each
//! setting, and the rules a configuration has to meet before the maker starts.
//!
//! Paths are kept as text with `/` between their parts. Addresses and URLs are
//! kept as text in the form their parsers print them in.

pub use crate::asb::document::initial_setup;
use crate::asb::document::{entries_of, reading, Entry, EntryView};
use crate::bitcoin::Amount;
use crate::env::{Mainnet, Testnet};
use crate::tor::{DEFAULT_CONTROL_PORT, DEFAULT_SOCKS5_PORT};
use vstd::arithmetic::power::{lemma_pow_increases, pow};
use vstd::prelude::*;

verus! {

/// A decimal number: `mantissa` over ten to the power `scale`, negated where
/// `negative` is set.
#[derive(Clone, Copy, Debug, PartialEq, Eq, Structural)]
pub struct Decimal {
    pub negative: bool,
    pub mantissa: u128,
    pub scale: u32,
}

impl Decimal {
    /// Whether the number lies between zero and one, both included.
    pub open spec fn in_unit_interval(&self) -> bool {
        self.mantissa == 0 || (!self.negative && self.mantissa <= pow(10, self.scale as nat))
    }

    /// Whether the number lies between zero and one, both included.
    pub fn is_in_unit_interval(&self) -> (r: bool)
        ensures
            r == self.in_unit_interval(),
    {
        if self.mantissa == 0 {
            return true;
        }
        if self.negative {
            return false;
        }
        let mut power: u128 = 1;
        let mut i: u32 = 0;
        proof {
            assert(pow(10, 0) == 1) by {
                reveal_with_fuel(pow, 1);
            }
        }
        while i < self.scale && power < self.mantissa
            invariant
                !self.negative,
                i <= self.scale,
                power == pow(10, i as nat),
            decreases self.scale - i,
        {
            proof {
                assert(pow(10, (i + 1) as nat) == 10 * pow(10, i as nat)) by {
                    reveal_with_fuel(pow, 1);
                }
            }
            if power > u128::MAX / 10 {
                proof {
                    assert(10 * power > u128::MAX);
                    assert(pow(10, (i + 1) as nat) > self.mantissa);
                    lemma_pow_increases(10, (i + 1) as nat, self.scale as nat);
                }
                return true;
            }
            power = power * 10;
            i = i + 1;
        }
        proof {
            if i < self.scale {
                lemma_pow_increases(10, i as nat, self.scale as nat);
            }
        }
        self.mantissa <= power
    }
}

/// Why a configuration could not be made or was turned down.
#[derive(Clone, Copy, Debug, PartialEq, Eq, Structural)]
pub enum ConfigError {
    /// The system offers no directory to put the default paths under.
    NoDefaultPath,
    /// One of the listen addresses is no multiaddress.
    InvalidListenAddress,
    /// The Electrum URL is no URL.
    InvalidElectrumRpcUrl,
    /// The URL of the Monero wallet is no URL.
    InvalidMoneroWalletRpcUrl,
    /// The URL of the price ticker is no URL.
    InvalidPriceTickerUrl,
    /// The spread is not between zero and one.
    InvalidSpread,
    /// The least amount to buy is above the greatest.
    MinBuyAboveMaxBuy,
    /// The configuration file holds a field that a configuration does not
    /// have.
    UnknownField,
    /// The configuration file holds a field twice.
    DuplicateField,
    /// The configuration file lacks a field that a configuration needs.
    MissingField,
    /// A field of the configuration file holds a value of the wrong kind, or
    /// one that is out of the field's range.
    InvalidValue,
}

/// The part of `path` that `name` is joined to: `path` itself, with a `/`
/// after it unless it is empty or ends in one.
pub open spec fn join_path(path: Seq<char>, name: Seq<char>) -> Seq<char> {
    if path.len() == 0 || path.last() == '/' {
        path + name
    } else {
        path + seq!['/'] + name
    }
}

/// The path to `name` below the directory `path`.
pub fn join(path: &str, name: &str) -> (r: String)
    ensures
        r@ == join_path(path@, name@),
{
    let n = path.unicode_len();
    let mut r = String::from_str(path);
    if n > 0 && path.get_char(n - 1) != '/' {
        r.append("/");
        proof {
            reveal_strlit("/");
            assert("/"@ =~= seq!['/']);
        }
    }
    r.append(name);
    r
}

/// The error of `url::Url::parse`. It is told apart from success and not
/// looked into.
#[verifier::external_type_specification]
#[verifier::external_body]
pub struct ExUrlParseError(url::ParseError);

/// The error of the `FromStr` of `libp2p::multiaddr::Multiaddr`. It is told
/// apart from success and not looked into.
#[verifier::external_type_specification]
#[verifier::external_body]
pub struct ExMultiaddrError(libp2p::multiaddr::Error);

/// The text that the URL parser prints for the URL it reads from `input`, or
/// `None` where it reads none.
pub uninterp spec fn url_normal_form(input: Seq<char>) -> Option<Seq<char>>;

/// The text that the multiaddress parser prints for the address it reads from
/// `input`, or `None` where it reads none.
pub uninterp spec fn multiaddr_normal_form(input: Seq<char>) -> Option<Seq<char>>;

/// Calls `url::Url::parse` and takes the text of the URL it gives. Trusted:
/// that the outcome depends on `input` alone, which is what gives
/// `url_normal_form` its meaning.
#[verifier::external_body]
fn parse_url(input: &str) -> (r: Result<String, url::ParseError>)
    ensures
        r.is_ok() == url_normal_form(input@).is_some(),
        r matches Ok(text) ==> Some(text@) == url_normal_form(input@),
{
    url::Url::parse(input).map(String::from)
}

/// Calls the `FromStr` of `libp2p::multiaddr::Multiaddr` and takes the text
/// that the address prints as. Trusted: that the outcome depends on `input`
/// alone, which is what gives `multiaddr_normal_form` its meaning.
#[verifier::external_body]
fn parse_multiaddr(input: &str) -> (r: Result<String, libp2p::multiaddr::Error>)
    ensures
        r.is_ok() == multiaddr_normal_form(input@).is_some(),
        r matches Ok(text) ==> Some(text@) == multiaddr_normal_form(input@),
{
    input.parse::<libp2p::multiaddr::Multiaddr>().map(|address| address.to_string())
}

/// The URL that `input` stands for, in the parser's own form.
pub fn normal_url(input: &str) -> (r: Option<String>)
    ensures
        r.is_some() == url_normal_form(input@).is_some(),
        r matches Some(text) ==> Some(text@) == url_normal_form(input@),
{
    match parse_url(input) {
        Ok(text) => Some(text),
        Err(_) => None,
    }
}

/// The multiaddress that `input` stands for, in the parser's own form.
pub fn normal_multiaddr(input: &str) -> (r: Option<String>)
    ensures
        r.is_some() == multiaddr_normal_form(input@).is_some(),
        r matches Some(text) ==> Some(text@) == multiaddr_normal_form(input@),
{
    match parse_multiaddr(input) {
        Ok(text) => Some(text),
        Err(_) => None,
    }
}

/// The pieces of `text` between its commas. A text without a comma is one
/// piece, and so is the empty text; a comma at either end leaves an empty
/// piece there.
pub open spec fn pieces(text: Seq<char>) -> Seq<Seq<char>>
    decreases text.len(),
{
    if text.len() == 0 {
        seq![Seq::<char>::empty()]
    } else {
        let before = pieces(text.drop_last());
        if text.last() == ',' {
            before.push(Seq::<char>::empty())
        } else {
            before.drop_last().push(before.last().push(text.last()))
        }
    }
}

/// There is always at least one piece.
pub proof fn lemma_pieces_nonempty(text: Seq<char>)
    ensures
        pieces(text).len() >= 1,
    decreases text.len(),
{
    if text.len() > 0 {
        lemma_pieces_nonempty(text.drop_last());
    }
}

/// The texts that a list of strings holds.
pub open spec fn texts(strings: Seq<String>) -> Seq<Seq<char>> {
    strings.map_values(|s: String| s@)
}

/// The pieces of `text` between its commas.
pub fn split_at_commas(text: &str) -> (r: Vec<String>)
    ensures
        texts(r@) == pieces(text@),
{
    let n = text.unicode_len();
    let mut done: Vec<String> = Vec::new();
    let mut start: usize = 0;
    let mut i: usize = 0;
    proof {
        assert(text@.take(0) =~= Seq::<char>::empty());
        assert(texts(done@).push(text@.subrange(0, 0)) =~= pieces(text@.take(0)));
    }
    while i < n
        invariant
            n == text@.len(),
            start <= i <= n,
            texts(done@).push(text@.subrange(start as int, i as int)) == pieces(
                text@.take(i as int),
            ),
        decreases n - i,
    {
        let c = text.get_char(i);
        proof {
            let prefix = text@.take(i + 1);
            assert(prefix.drop_last() =~= text@.take(i as int));
            assert(prefix.last() == c);
            lemma_pieces_nonempty(text@.take(i as int));
        }
        if c == ',' {
            let piece = String::from_str(text.substring_char(start, i));
            let ghost before = texts(done@);
            done.push(piece);
            proof {
                assert(texts(done@) =~= before.push(text@.subrange(start as int, i as int)));
                assert(text@.subrange(i + 1, i + 1) =~= Seq::<char>::empty());
            }
            start = i + 1;
        } else {
            proof {
                let before = pieces(text@.take(i as int));
                assert(before.drop_last() =~= texts(done@));
                assert(before.last().push(c) =~= text@.subrange(start as int, i + 1));
            }
        }
        i = i + 1;
    }
    let piece = String::from_str(text.substring_char(start, n));
    let ghost before = texts(done@);
    done.push(piece);
    proof {
        assert(texts(done@) =~= before.push(text@.subrange(start as int, n as int)));
        assert(text@.take(n as int) =~= text@);
    }
    done
}

/// The text of a string that may be missing.
pub open spec fn text_of(string: Option<String>) -> Option<Seq<char>> {
    match string {
        Some(s) => Some(s@),
        None => None,
    }
}

/// Whether every piece of a list is a multiaddress.
pub open spec fn all_multiaddrs(list: Seq<Seq<char>>) -> bool {
    forall|i: int| 0 <= i < list.len() ==> (#[trigger] multiaddr_normal_form(list[i])).is_some()
}

/// The addresses that a comma-separated list stands for, each in the
/// parser's own form, or `None` where a piece is no multiaddress.
pub open spec fn listen_addresses(text: Seq<char>) -> Option<Seq<Seq<char>>> {
    if all_multiaddrs(pieces(text)) {
        Some(pieces(text).map_values(|piece: Seq<char>| multiaddr_normal_form(piece)->0))
    } else {
        None
    }
}

/// The items of a list of which none is missing, or `None` where one is.
pub open spec fn gathered(items: Seq<Option<String>>) -> Option<Seq<Seq<char>>> {
    if forall|i: int| 0 <= i < items.len() ==> (#[trigger] items[i]).is_some() {
        Some(items.map_values(|item: Option<String>| item->0@))
    } else {
        None
    }
}

/// The items of a list of which none is missing, or `None` where one is.
pub fn gather(items: Vec<Option<String>>) -> (r: Option<Vec<String>>)
    ensures
        r.is_some() == gathered(items@).is_some(),
        r matches Some(list) ==> Some(texts(list@)) == gathered(items@),
{
    let mut list: Vec<String> = Vec::new();
    let ghost all = items@;
    let n = items.len();
    let mut rest = items;
    let mut i: usize = n;
    // Taken from the back, so that each item can be moved out; put in order
    // afterwards.
    let mut reversed: Vec<String> = Vec::new();
    while i > 0
        invariant
            all == items@,
            i == rest.len(),
            i <= n,
            n == all.len(),
            rest@ == all.take(i as int),
            reversed.len() == n - i,
            forall|k: int| i <= k < n ==> (#[trigger] all[k]).is_some(),
            forall|k: int| 0 <= k < n - i ==> (#[trigger] reversed[k])@ == all[n - 1 - k]->0@,
        decreases i,
    {
        let item = rest.pop();
        assert(item == Some(all[i - 1]));
        i = i - 1;
        match item {
            Some(Some(text)) => {
                reversed.push(text);
                assert(rest@ =~= all.take(i as int));
            },
            _ => {
                assert(!all[i as int].is_some());
                return None;
            },
        }
    }
    let mut j: usize = n;
    while j > 0
        invariant
            all == items@,
            j == reversed.len(),
            j <= n,
            n == all.len(),
            list.len() == n - j,
            forall|k: int| 0 <= k < j ==> (#[trigger] reversed[k])@ == all[n - 1 - k]->0@,
            forall|k: int| 0 <= k < n - j ==> (#[trigger] list[k])@ == all[k]->0@,
        decreases j,
    {
        let text = reversed.pop();
        j = j - 1;
        match text {
            Some(text) => {
                list.push(text);
            },
            None => {},
        }
    }
    proof {
        assert(texts(list@) =~= all.map_values(|item: Option<String>| item->0@));
    }
    Some(list)
}

/// The addresses that a comma-separated list stands for, each in the
/// parser's own form, or `None` where a piece is no multiaddress.
pub fn parse_listen_addresses(text: &str) -> (r: Option<Vec<String>>)
    ensures
        r.is_some() == listen_addresses(text@).is_some(),
        r matches Some(list) ==> Some(texts(list@)) == listen_addresses(text@),
{
    let parts = split_at_commas(text);
    let mut parsed: Vec<Option<String>> = Vec::new();
    let mut i: usize = 0;
    while i < parts.len()
        invariant
            i <= parts.len(),
            parsed.len() == i,
            texts(parts@) == pieces(text@),
            forall|k: int|
                0 <= k < i ==> text_of(#[trigger] parsed[k]) == multiaddr_normal_form(parts[k]@),
        decreases parts.len() - i,
    {
        let address = normal_multiaddr(parts[i].as_str());
        parsed.push(address);
        i = i + 1;
    }
    proof {
        let list = pieces(text@);
        assert(list.len() == parts.len());
        assert forall|k: int| 0 <= k < list.len() implies list[k] == parts[k]@ by {
            assert(texts(parts@)[k] == parts[k]@);
        }
        if all_multiaddrs(list) {
            assert forall|k: int| 0 <= k < parsed.len() implies (#[trigger] parsed[k]).is_some() by {
                assert(multiaddr_normal_form(list[k]).is_some());
            }
            assert(parsed@.map_values(|item: Option<String>| item->0@) =~= list.map_values(
                |piece: Seq<char>| multiaddr_normal_form(piece)->0,
            ));
        } else {
            let k = choose|k: int|
                0 <= k < list.len() && !(#[trigger] multiaddr_normal_form(list[k])).is_some();
            assert(!parsed[k].is_some());
        }
    }
    gather(parsed)
}

/// Where the maker keeps its data.
#[derive(Clone, Debug, PartialEq, Eq)]
pub struct Data {
    pub dir: String,
}

/// The addresses on which the maker listens for peers.
#[derive(Clone, Debug, PartialEq, Eq)]
pub struct Network {
    pub listen: Vec<String>,
}

/// How the maker reaches and watches the Bitcoin chain.
#[derive(Clone, Debug, PartialEq, Eq)]
pub struct Bitcoin {
    pub electrum_rpc_url: String,
    pub target_block: usize,
    pub finality_confirmations: Option<u32>,
    pub network: crate::bitcoin::Network,
}

/// How the maker reaches and watches the Monero chain.
#[derive(Clone, Debug, PartialEq, Eq)]
pub struct Monero {
    pub wallet_rpc_url: String,
    pub finality_confirmations: Option<u64>,
    pub network: crate::monero::Network,
}

/// The ports of the local Tor daemon.
#[derive(Clone, Copy, Debug, PartialEq, Eq, Structural)]
pub struct TorConf {
    pub control_port: u16,
    pub socks5_port: u16,
}

/// What the maker offers: the range of Bitcoin amounts it buys, the spread it
/// asks on top of the market rate, and where it takes that rate from.
#[derive(Clone, Debug, PartialEq, Eq)]
pub struct Maker {
    pub min_buy_btc: Amount,
    pub max_buy_btc: Amount,
    pub ask_spread: Decimal,
    pub price_ticker_ws_url: String,
}

/// The maker's configuration.
#[derive(Clone, Debug, PartialEq, Eq)]
pub struct Config {
    pub data: Data,
    pub network: Network,
    pub bitcoin: Bitcoin,
    pub monero: Monero,
    pub tor: TorConf,
    pub maker: Maker,
}

/// What a [`Config`] holds, as mathematical values.
pub struct ConfigView {
    pub data_dir: Seq<char>,
    pub listen: Seq<Seq<char>>,
    pub electrum_rpc_url: Seq<char>,
    pub target_block: usize,
    pub bitcoin_finality_confirmations: Option<u32>,
    pub bitcoin_network: crate::bitcoin::Network,
    pub wallet_rpc_url: Seq<char>,
    pub monero_finality_confirmations: Option<u64>,
    pub monero_network: crate::monero::Network,
    pub tor: TorConf,
    pub min_buy_btc: Amount,
    pub max_buy_btc: Amount,
    pub ask_spread: Decimal,
    pub price_ticker_ws_url: Seq<char>,
}

impl View for Config {
    type V = ConfigView;

    open spec fn view(&self) -> ConfigView {
        ConfigView {
            data_dir: self.data.dir@,
            listen: texts(self.network.listen@),
            electrum_rpc_url: self.bitcoin.electrum_rpc_url@,
            target_block: self.bitcoin.target_block,
            bitcoin_finality_confirmations: self.bitcoin.finality_confirmations,
            bitcoin_network: self.bitcoin.network,
            wallet_rpc_url: self.monero.wallet_rpc_url@,
            monero_finality_confirmations: self.monero.finality_confirmations,
            monero_network: self.monero.network,
            tor: self.tor,
            min_buy_btc: self.maker.min_buy_btc,
            max_buy_btc: self.maker.max_buy_btc,
            ask_spread: self.maker.ask_spread,
            price_ticker_ws_url: self.maker.price_ticker_ws_url@,
        }
    }
}

impl Default for TorConf {
    fn default() -> (r: Self)
        ensures
            r == (TorConf {
                control_port: DEFAULT_CONTROL_PORT,
                socks5_port: DEFAULT_SOCKS5_PORT,
            }),
    {
        Self { control_port: DEFAULT_CONTROL_PORT, socks5_port: DEFAULT_SOCKS5_PORT }
    }
}

/// No configuration has been written yet.
#[derive(Clone, Copy, Debug, PartialEq, Eq, Structural)]
pub struct ConfigNotInitialized {}

impl ConfigNotInitialized {
    /// What to tell the operator.
    pub fn to_string(&self) -> (r: String)
        ensures
            r@ == "config not initialized"@,
    {
        String::from_str("config not initialized")
    }
}

/// The least Bitcoin amount that a maker buys unless told otherwise, in
/// satoshi: 0.002 BTC.
pub const DEFAULT_MIN_BUY_AMOUNT: u64 = 200_000;

/// The greatest Bitcoin amount that a maker buys unless told otherwise, in
/// satoshi: 0.02 BTC.
pub const DEFAULT_MAX_BUY_AMOUNT: u64 = 2_000_000;

/// The spread that a maker asks unless told otherwise, in hundredths: 0.02.
pub const DEFAULT_SPREAD: u128 = 2;

/// The spread that a maker asks unless told otherwise.
pub open spec fn default_spread() -> Decimal {
    Decimal { negative: false, mantissa: DEFAULT_SPREAD, scale: 2 }
}

/// The directories that the system offers for configuration and for data,
/// where it offers any.
#[derive(Clone, Debug, PartialEq, Eq)]
pub struct SystemDirs {
    pub config: Option<String>,
    pub data: Option<String>,
}

/// The directory `asb` below `dir`, or `NoDefaultPath` without a `dir`.
pub open spec fn asb_dir(dir: Option<Seq<char>>) -> Result<Seq<char>, ConfigError> {
    match dir {
        Some(dir) => Ok(join_path(dir, "asb"@)),
        None => Err(ConfigError::NoDefaultPath),
    }
}

/// The text of a path that may have failed to come about.
pub open spec fn path_of(path: Result<String, ConfigError>) -> Result<Seq<char>, ConfigError> {
    match path {
        Ok(path) => Ok(path@),
        Err(e) => Err(e),
    }
}

/// The maker's default configuration directory: `asb` below the system's
/// configuration directory.
pub fn default_asb_config_dir(system_config_dir: &Option<String>) -> (r: Result<
    String,
    ConfigError,
>)
    ensures
        path_of(r) == asb_dir(text_of(*system_config_dir)),
{
    match system_config_dir {
        Some(dir) => Ok(join(dir.as_str(), "asb")),
        None => Err(ConfigError::NoDefaultPath),
    }
}

/// The maker's default data directory: `asb` below the system's data
/// directory.
pub fn default_asb_data_dir(system_data_dir: &Option<String>) -> (r: Result<String, ConfigError>)
    ensures
        path_of(r) == asb_dir(text_of(*system_data_dir)),
{
    match system_data_dir {
        Some(dir) => Ok(join(dir.as_str(), "asb")),
        None => Err(ConfigError::NoDefaultPath),
    }
}

/// What a maker starts from in one setting, before the operator has said
/// anything.
#[derive(Clone, Debug, PartialEq, Eq)]
pub struct Defaults {
    pub config_path: String,
    pub data_dir: String,
    pub listen_address_tcp: String,
    pub listen_address_ws: String,
    pub electrum_rpc_url: String,
    pub monero_wallet_rpc_url: String,
    pub price_ticker_ws_url: String,
    pub bitcoin_confirmation_target: usize,
}

/// What a [`Defaults`] holds, as mathematical values.
pub struct DefaultsView {
    pub config_path: Seq<char>,
    pub data_dir: Seq<char>,
    pub listen_address_tcp: Seq<char>,
    pub listen_address_ws: Seq<char>,
    pub electrum_rpc_url: Seq<char>,
    pub monero_wallet_rpc_url: Seq<char>,
    pub price_ticker_ws_url: Seq<char>,
    pub bitcoin_confirmation_target: usize,
}

impl View for Defaults {
    type V = DefaultsView;

    open spec fn view(&self) -> DefaultsView {
        DefaultsView {
            config_path: self.config_path@,
            data_dir: self.data_dir@,
            listen_address_tcp: self.listen_address_tcp@,
            listen_address_ws: self.listen_address_ws@,
            electrum_rpc_url: self.electrum_rpc_url@,
            monero_wallet_rpc_url: self.monero_wallet_rpc_url@,
            price_ticker_ws_url: self.price_ticker_ws_url@,
            bitcoin_confirmation_target: self.bitcoin_confirmation_target,
        }
    }
}

/// What defaults hold where they came about, the error where they did not.
pub open spec fn defaults_of(defaults: Result<Defaults, ConfigError>) -> Result<
    DefaultsView,
    ConfigError,
> {
    match defaults {
        Ok(defaults) => Ok(defaults@),
        Err(e) => Err(e),
    }
}

/// The defaults of the setting whose files go under the directory `network`,
/// given the system's directories and what the parsers made of the setting's
/// addresses and URLs. The first thing that is missing decides the error.
pub open spec fn assembled_defaults(
    config_dir: Option<Seq<char>>,
    data_dir: Option<Seq<char>>,
    network: Seq<char>,
    tcp: Option<Seq<char>>,
    ws: Option<Seq<char>>,
    electrum: Option<Seq<char>>,
    wallet: Option<Seq<char>>,
    ticker: Option<Seq<char>>,
    target: usize,
) -> Result<DefaultsView, ConfigError> {
    if config_dir.is_none() || data_dir.is_none() {
        Err(ConfigError::NoDefaultPath)
    } else if tcp.is_none() || ws.is_none() {
        Err(ConfigError::InvalidListenAddress)
    } else if electrum.is_none() {
        Err(ConfigError::InvalidElectrumRpcUrl)
    } else if wallet.is_none() {
        Err(ConfigError::InvalidMoneroWalletRpcUrl)
    } else if ticker.is_none() {
        Err(ConfigError::InvalidPriceTickerUrl)
    } else {
        Ok(
            DefaultsView {
                config_path: join_path(
                    join_path(join_path(config_dir->0, "asb"@), network),
                    "config.toml"@,
                ),
                data_dir: join_path(join_path(data_dir->0, "asb"@), network),
                listen_address_tcp: tcp->0,
                listen_address_ws: ws->0,
                electrum_rpc_url: electrum->0,
                monero_wallet_rpc_url: wallet->0,
                price_ticker_ws_url: ticker->0,
                bitcoin_confirmation_target: target,
            },
        )
    }
}

/// The defaults of the setting whose files go under the directory `network`,
/// which listens on `tcp` and on `ws` and reaches Electrum at `electrum` and
/// the Monero wallet at `wallet`.
pub open spec fn defaults_for(
    dirs: SystemDirs,
    network: Seq<char>,
    tcp: Seq<char>,
    ws: Seq<char>,
    electrum: Seq<char>,
    wallet: Seq<char>,
    target: usize,
) -> Result<DefaultsView, ConfigError> {
    assembled_defaults(
        text_of(dirs.config),
        text_of(dirs.data),
        network,
        multiaddr_normal_form(tcp),
        multiaddr_normal_form(ws),
        url_normal_form(electrum),
        url_normal_form(wallet),
        url_normal_form("wss://ws.kraken.com"@),
        target,
    )
}

impl Defaults {
    /// Puts the defaults of a setting together from the system's directories
    /// and from what the parsers made of the setting's addresses and URLs.
    pub fn assemble(
        dirs: &SystemDirs,
        network: &str,
        tcp: Option<String>,
        ws: Option<String>,
        electrum: Option<String>,
        wallet: Option<String>,
        ticker: Option<String>,
        target: usize,
    ) -> (r: Result<Defaults, ConfigError>)
        ensures
            defaults_of(r) == assembled_defaults(
                text_of(dirs.config),
                text_of(dirs.data),
                network@,
                text_of(tcp),
                text_of(ws),
                text_of(electrum),
                text_of(wallet),
                text_of(ticker),
                target,
            ),
    {
        let config_dir = match default_asb_config_dir(&dirs.config) {
            Ok(dir) => dir,
            Err(e) => {
                return Err(e);
            },
        };
        let data_dir = match default_asb_data_dir(&dirs.data) {
            Ok(dir) => dir,
            Err(e) => {
                return Err(e);
            },
        };
        let config_path = join(join(config_dir.as_str(), network).as_str(), "config.toml");
        let data_dir = join(data_dir.as_str(), network);
        let (listen_address_tcp, listen_address_ws) = match (tcp, ws) {
            (Some(tcp), Some(ws)) => (tcp, ws),
            _ => {
                return Err(ConfigError::InvalidListenAddress);
            },
        };
        let electrum_rpc_url = match electrum {
            Some(url) => url,
            None => {
                return Err(ConfigError::InvalidElectrumRpcUrl);
            },
        };
        let monero_wallet_rpc_url = match wallet {
            Some(url) => url,
            None => {
                return Err(ConfigError::InvalidMoneroWalletRpcUrl);
            },
        };
        let price_ticker_ws_url = match ticker {
            Some(url) => url,
            None => {
                return Err(ConfigError::InvalidPriceTickerUrl);
            },
        };
        Ok(
            Defaults {
                config_path,
                data_dir,
                listen_address_tcp,
                listen_address_ws,
                electrum_rpc_url,
                monero_wallet_rpc_url,
                price_ticker_ws_url,
                bitcoin_confirmation_target: target,
            },
        )
    }

    /// The defaults of the setting whose files go under the directory
    /// `network`, which listens on `tcp` and on `ws` and reaches Electrum at
    /// `electrum` and the Monero wallet at `wallet`.
    pub fn of_setting(
        dirs: &SystemDirs,
        network: &str,
        tcp: &str,
        ws: &str,
        electrum: &str,
        wallet: &str,
        target: usize,
    ) -> (r: Result<Defaults, ConfigError>)
        ensures
            defaults_of(r) == defaults_for(
                *dirs,
                network@,
                tcp@,
                ws@,
                electrum@,
                wallet@,
                target,
            ),
    {
        let tcp = normal_multiaddr(tcp);
        let ws = normal_multiaddr(ws);
        let electrum = normal_url(electrum);
        let wallet = normal_url(wallet);
        let ticker = normal_url("wss://ws.kraken.com");
        Defaults::assemble(dirs, network, tcp, ws, electrum, wallet, ticker, target)
    }
}

/// A setting that has defaults.
pub trait GetDefaults {
    /// The defaults of the setting, given the system's directories.
    spec fn config_file_defaults(dirs: SystemDirs) -> Result<DefaultsView, ConfigError>;

    /// The defaults of the setting, given the system's directories.
    #[allow(non_snake_case)]
    fn getConfigFileDefaults(dirs: &SystemDirs) -> (r: Result<Defaults, ConfigError>)
        ensures
            defaults_of(r) == Self::config_file_defaults(*dirs),
    ;
}

/// On the test networks a maker listens on ports of its own, 19939 and 19940
/// for websockets, so that it can run beside a maker on the main networks.
impl GetDefaults for Testnet {
    open spec fn config_file_defaults(dirs: SystemDirs) -> Result<DefaultsView, ConfigError> {
        defaults_for(
            dirs,
            "testnet"@,
            "/ip4/0.0.0.0/tcp/19939"@,
            "/ip4/0.0.0.0/tcp/19940/ws"@,
            "ssl://electrum.blockstream.info:60002"@,
            "http://127.0.0.1:38083/json_rpc"@,
            1,
        )
    }

    #[allow(non_snake_case)]
    fn getConfigFileDefaults(dirs: &SystemDirs) -> (r: Result<Defaults, ConfigError>) {
        Defaults::of_setting(
            dirs,
            "testnet",
            "/ip4/0.0.0.0/tcp/19939",
            "/ip4/0.0.0.0/tcp/19940/ws",
            "ssl://electrum.blockstream.info:60002",
            "http://127.0.0.1:38083/json_rpc",
            1,
        )
    }
}

/// On the main networks a maker listens on port 9939, and on 9940 for
/// websockets.
impl GetDefaults for Mainnet {
    open spec fn config_file_defaults(dirs: SystemDirs) -> Result<DefaultsView, ConfigError> {
        defaults_for(
            dirs,
            "mainnet"@,
            "/ip4/0.0.0.0/tcp/9939"@,
            "/ip4/0.0.0.0/tcp/9940/ws"@,
            "ssl://electrum.blockstream.info:50002"@,
            "http://127.0.0.1:18083/json_rpc"@,
            3,
        )
    }

    #[allow(non_snake_case)]
    fn getConfigFileDefaults(dirs: &SystemDirs) -> (r: Result<Defaults, ConfigError>) {
        Defaults::of_setting(
            dirs,
            "mainnet",
            "/ip4/0.0.0.0/tcp/9939",
            "/ip4/0.0.0.0/tcp/9940/ws",
            "ssl://electrum.blockstream.info:50002",
            "http://127.0.0.1:18083/json_rpc",
            3,
        )
    }
}

/// The two settings keep their files apart and differ in how fast they ask
/// Bitcoin transactions to confirm: wherever both have defaults, the paths
/// of their configuration files differ, and so do their data directories and
/// their confirmation targets. They also hand different texts to the
/// parsers for their listen addresses and for the URLs of Electrum and of
/// the Monero wallet.
pub proof fn lemma_settings_differ(dirs: SystemDirs)
    ensures
        Testnet::config_file_defaults(dirs) matches Ok(testnet) ==> (Mainnet::config_file_defaults(
            dirs,
        ) matches Ok(mainnet) ==> testnet.config_path != mainnet.config_path && testnet.data_dir
            != mainnet.data_dir && testnet.bitcoin_confirmation_target
            != mainnet.bitcoin_confirmation_target),
        "/ip4/0.0.0.0/tcp/19939"@ != "/ip4/0.0.0.0/tcp/9939"@,
        "/ip4/0.0.0.0/tcp/19940/ws"@ != "/ip4/0.0.0.0/tcp/9940/ws"@,
        "ssl://electrum.blockstream.info:60002"@ != "ssl://electrum.blockstream.info:50002"@,
        "http://127.0.0.1:38083/json_rpc"@ != "http://127.0.0.1:18083/json_rpc"@,
{
    reveal_strlit("testnet");
    reveal_strlit("mainnet");
    reveal_strlit("config.toml");
    reveal_strlit("/ip4/0.0.0.0/tcp/19939");
    reveal_strlit("/ip4/0.0.0.0/tcp/9939");
    reveal_strlit("/ip4/0.0.0.0/tcp/19940/ws");
    reveal_strlit("/ip4/0.0.0.0/tcp/9940/ws");
    reveal_strlit("ssl://electrum.blockstream.info:60002");
    reveal_strlit("ssl://electrum.blockstream.info:50002");
    reveal_strlit("http://127.0.0.1:38083/json_rpc");
    reveal_strlit("http://127.0.0.1:18083/json_rpc");
    assert("/ip4/0.0.0.0/tcp/19939"@.len() != "/ip4/0.0.0.0/tcp/9939"@.len());
    assert("/ip4/0.0.0.0/tcp/19940/ws"@.len() != "/ip4/0.0.0.0/tcp/9940/ws"@.len());
    assert("ssl://electrum.blockstream.info:60002"@[32] != "ssl://electrum.blockstream.info:50002"@[
        32
    ]);
    assert("http://127.0.0.1:38083/json_rpc"@[17] != "http://127.0.0.1:18083/json_rpc"@[17]);
    lemma_joined_apart(join_path(text_of(dirs.config)->0, "asb"@));
    lemma_joined_apart(join_path(text_of(dirs.data)->0, "asb"@));
}

/// Below one directory, the directory of the test networks and that of the
/// main networks are two, and so are the files `config.toml` in them.
proof fn lemma_joined_apart(dir: Seq<char>)
    ensures
        join_path(dir, "testnet"@) != join_path(dir, "mainnet"@),
        join_path(join_path(dir, "testnet"@), "config.toml"@) != join_path(
            join_path(dir, "mainnet"@),
            "config.toml"@,
        ),
{
    reveal_strlit("testnet");
    reveal_strlit("mainnet");
    reveal_strlit("config.toml");
    let t = join_path(dir, "testnet"@);
    let m = join_path(dir, "mainnet"@);
    let at = t.len() - 7;
    assert(t.len() == m.len());
    assert(t[at] == 't' && m[at] == 'm');
    assert(t.last() == 't' && m.last() == 't');
    let tc = join_path(t, "config.toml"@);
    let mc = join_path(m, "config.toml"@);
    assert(tc[at] == 't' && mc[at] == 'm');
}

/// What the operator settled on at the first run: for each question the
/// answer given, or the default where none was given.
#[derive(Clone, Debug, PartialEq, Eq)]
pub struct Answers {
    pub data_dir: String,
    pub target_block: usize,
    /// The addresses to listen on, with commas between them.
    pub listen_addresses: String,
    pub electrum_rpc_url: String,
    pub monero_wallet_rpc_url: String,
    pub tor_control_port: u16,
    pub tor_socks5_port: u16,
    pub min_buy: Amount,
    pub max_buy: Amount,
    pub ask_spread: Decimal,
}

impl Answers {
    /// The answers of an operator who takes every default: the defaults of
    /// the setting, both listen addresses with a comma between them, the
    /// usual Tor ports, and the usual amounts and spread.
    pub fn from_defaults(defaults: &Defaults) -> (r: Answers)
        ensures
            r.data_dir@ == defaults.data_dir@,
            r.target_block == defaults.bitcoin_confirmation_target,
            r.listen_addresses@ == defaults.listen_address_tcp@ + ","@
                + defaults.listen_address_ws@,
            r.electrum_rpc_url@ == defaults.electrum_rpc_url@,
            r.monero_wallet_rpc_url@ == defaults.monero_wallet_rpc_url@,
            r.tor_control_port == DEFAULT_CONTROL_PORT,
            r.tor_socks5_port == DEFAULT_SOCKS5_PORT,
            r.min_buy.sat == DEFAULT_MIN_BUY_AMOUNT,
            r.max_buy.sat == DEFAULT_MAX_BUY_AMOUNT,
            r.ask_spread == default_spread(),
    {
        let mut listen_addresses = defaults.listen_address_tcp.clone();
        listen_addresses.append(",");
        listen_addresses.append(defaults.listen_address_ws.as_str());
        Answers {
            data_dir: defaults.data_dir.clone(),
            target_block: defaults.bitcoin_confirmation_target,
            listen_addresses,
            electrum_rpc_url: defaults.electrum_rpc_url.clone(),
            monero_wallet_rpc_url: defaults.monero_wallet_rpc_url.clone(),
            tor_control_port: DEFAULT_CONTROL_PORT,
            tor_socks5_port: DEFAULT_SOCKS5_PORT,
            min_buy: Amount { sat: DEFAULT_MIN_BUY_AMOUNT },
            max_buy: Amount { sat: DEFAULT_MAX_BUY_AMOUNT },
            ask_spread: Decimal { negative: false, mantissa: DEFAULT_SPREAD, scale: 2 },
        }
    }
}

/// What a configuration holds where it came about, the error where it did
/// not.
pub open spec fn config_of(config: Result<Config, ConfigError>) -> Result<ConfigView, ConfigError> {
    match config {
        Ok(config) => Ok(config@),
        Err(e) => Err(e),
    }
}

/// The networks of a setting: the test networks or the main ones.
pub open spec fn networks(testnet: bool) -> (crate::bitcoin::Network, crate::monero::Network) {
    if testnet {
        (crate::bitcoin::Network::Testnet, crate::monero::Network::Stagenet)
    } else {
        (crate::bitcoin::Network::Bitcoin, crate::monero::Network::Mainnet)
    }
}

/// The first configuration of a maker: the operator's answers, the networks
/// of the setting and its price ticker, finality left to the networks'
/// defaults. `listen`, `electrum` and `wallet` are what the parsers made of
/// the answers of those names. What is wrong first, in the order of the
/// questions, decides the error; the range of amounts is looked at last.
pub open spec fn initial_config(
    testnet: bool,
    ticker: Seq<char>,
    answers: Answers,
    listen: Option<Seq<Seq<char>>>,
    electrum: Option<Seq<char>>,
    wallet: Option<Seq<char>>,
) -> Result<ConfigView, ConfigError> {
    if listen.is_none() {
        Err(ConfigError::InvalidListenAddress)
    } else if electrum.is_none() {
        Err(ConfigError::InvalidElectrumRpcUrl)
    } else if wallet.is_none() {
        Err(ConfigError::InvalidMoneroWalletRpcUrl)
    } else if !answers.ask_spread.in_unit_interval() {
        Err(ConfigError::InvalidSpread)
    } else if answers.min_buy.sat > answers.max_buy.sat {
        Err(ConfigError::MinBuyAboveMaxBuy)
    } else {
        Ok(
            ConfigView {
                data_dir: answers.data_dir@,
                listen: listen->0,
                electrum_rpc_url: electrum->0,
                target_block: answers.target_block,
                bitcoin_finality_confirmations: None,
                bitcoin_network: networks(testnet).0,
                wallet_rpc_url: wallet->0,
                monero_finality_confirmations: None,
                monero_network: networks(testnet).1,
                tor: TorConf {
                    control_port: answers.tor_control_port,
                    socks5_port: answers.tor_socks5_port,
                },
                min_buy_btc: answers.min_buy,
                max_buy_btc: answers.max_buy,
                ask_spread: answers.ask_spread,
                price_ticker_ws_url: ticker,
            },
        )
    }
}

/// The texts of a list of strings that may be missing.
pub open spec fn texts_of(list: Option<Vec<String>>) -> Option<Seq<Seq<char>>> {
    match list {
        Some(list) => Some(texts(list@)),
        None => None,
    }
}

impl Config {
    /// Puts the first configuration together from the operator's answers and
    /// from what the parsers made of the addresses and URLs among them.
    pub fn assemble(
        testnet: bool,
        ticker: String,
        answers: Answers,
        listen: Option<Vec<String>>,
        electrum: Option<String>,
        wallet: Option<String>,
    ) -> (r: Result<Config, ConfigError>)
        ensures
            config_of(r) == initial_config(
                testnet,
                ticker@,
                answers,
                texts_of(listen),
                text_of(electrum),
                text_of(wallet),
            ),
    {
        let listen = match listen {
            Some(listen) => listen,
            None => {
                return Err(ConfigError::InvalidListenAddress);
            },
        };
        let electrum_rpc_url = match electrum {
            Some(url) => url,
            None => {
                return Err(ConfigError::InvalidElectrumRpcUrl);
            },
        };
        let wallet_rpc_url = match wallet {
            Some(url) => url,
            None => {
                return Err(ConfigError::InvalidMoneroWalletRpcUrl);
            },
        };
        if !answers.ask_spread.is_in_unit_interval() {
            return Err(ConfigError::InvalidSpread);
        }
        if answers.min_buy.sat > answers.max_buy.sat {
            return Err(ConfigError::MinBuyAboveMaxBuy);
        }
        let (bitcoin_network, monero_network) = if testnet {
            (crate::bitcoin::Network::Testnet, crate::monero::Network::Stagenet)
        } else {
            (crate::bitcoin::Network::Bitcoin, crate::monero::Network::Mainnet)
        };
        Ok(
            Config {
                data: Data { dir: answers.data_dir },
                network: Network { listen },
                bitcoin: Bitcoin {
                    electrum_rpc_url,
                    target_block: answers.target_block,
                    finality_confirmations: None,
                    network: bitcoin_network,
                },
                monero: Monero {
                    wallet_rpc_url,
                    finality_confirmations: None,
                    network: monero_network,
                },
                tor: TorConf {
                    control_port: answers.tor_control_port,
                    socks5_port: answers.tor_socks5_port,
                },
                maker: Maker {
                    min_buy_btc: answers.min_buy,
                    max_buy_btc: answers.max_buy,
                    ask_spread: answers.ask_spread,
                    price_ticker_ws_url: ticker,
                },
            },
        )
    }
}

/// The first configuration of a maker, from what the operator answered when
/// asked: the answers, with the networks of the setting and the price ticker
/// of its defaults. An answer that is no address or no URL, a spread outside
/// zero to one, or a least amount above the greatest give an error.
pub fn query_user_for_initial_config(testnet: bool, defaults: Defaults, answers: Answers) -> (r:
    Result<Config, ConfigError>)
    ensures
        config_of(r) == initial_config(
            testnet,
            defaults.price_ticker_ws_url@,
            answers,
            listen_addresses(answers.listen_addresses@),
            url_normal_form(answers.electrum_rpc_url@),
            url_normal_form(answers.monero_wallet_rpc_url@),
        ),
{
    let listen = parse_listen_addresses(answers.listen_addresses.as_str());
    let electrum = normal_url(answers.electrum_rpc_url.as_str());
    let wallet = normal_url(answers.monero_wallet_rpc_url.as_str());
    Config::assemble(testnet, defaults.price_ticker_ws_url, answers, listen, electrum, wallet)
}

/// What the rules say of a configuration: `Ok` where it meets them all, else
/// the first that it breaks. Every listen address has to be a multiaddress
/// and each of the three URLs a URL, which `listen`, `electrum`, `wallet` and
/// `ticker` say; the spread has to lie between zero and one, and the least
/// amount to buy may not be above the greatest.
pub open spec fn verdict(
    listen: bool,
    electrum: bool,
    wallet: bool,
    ticker: bool,
    ask_spread: Decimal,
    min_buy_btc: Amount,
    max_buy_btc: Amount,
) -> Result<(), ConfigError> {
    if !listen {
        Err(ConfigError::InvalidListenAddress)
    } else if !electrum {
        Err(ConfigError::InvalidElectrumRpcUrl)
    } else if !wallet {
        Err(ConfigError::InvalidMoneroWalletRpcUrl)
    } else if !ticker {
        Err(ConfigError::InvalidPriceTickerUrl)
    } else if !ask_spread.in_unit_interval() {
        Err(ConfigError::InvalidSpread)
    } else if min_buy_btc.sat > max_buy_btc.sat {
        Err(ConfigError::MinBuyAboveMaxBuy)
    } else {
        Ok(())
    }
}

impl ConfigView {
    /// What the rules say of the configuration.
    pub open spec fn validity(self) -> Result<(), ConfigError> {
        verdict(
            all_multiaddrs(self.listen),
            url_normal_form(self.electrum_rpc_url).is_some(),
            url_normal_form(self.wallet_rpc_url).is_some(),
            url_normal_form(self.price_ticker_ws_url).is_some(),
            self.ask_spread,
            self.min_buy_btc,
            self.max_buy_btc,
        )
    }
}

impl Maker {
    /// Judges a configuration by what the parsers said of its addresses and
    /// URLs and by the maker's own figures.
    pub fn judge(&self, listen: bool, electrum: bool, wallet: bool, ticker: bool) -> (r: Result<
        (),
        ConfigError,
    >)
        ensures
            r == verdict(
                listen,
                electrum,
                wallet,
                ticker,
                self.ask_spread,
                self.min_buy_btc,
                self.max_buy_btc,
            ),
    {
        if !listen {
            Err(ConfigError::InvalidListenAddress)
        } else if !electrum {
            Err(ConfigError::InvalidElectrumRpcUrl)
        } else if !wallet {
            Err(ConfigError::InvalidMoneroWalletRpcUrl)
        } else if !ticker {
            Err(ConfigError::InvalidPriceTickerUrl)
        } else if !self.ask_spread.is_in_unit_interval() {
            Err(ConfigError::InvalidSpread)
        } else if self.min_buy_btc.sat > self.max_buy_btc.sat {
            Err(ConfigError::MinBuyAboveMaxBuy)
        } else {
            Ok(())
        }
    }

    /// Whether the maker buys `btc`: whether the amount lies in the range
    /// from the least to the greatest amount, both included.
    pub fn buys(&self, btc: Amount) -> (r: bool)
        ensures
            r == (self.min_buy_btc.sat <= btc.sat <= self.max_buy_btc.sat),
    {
        self.min_buy_btc.sat <= btc.sat && btc.sat <= self.max_buy_btc.sat
    }
}

impl Network {
    /// Whether every listen address is a multiaddress.
    pub fn is_valid(&self) -> (r: bool)
        ensures
            r == all_multiaddrs(texts(self.listen@)),
    {
        let mut i: usize = 0;
        while i < self.listen.len()
            invariant
                i <= self.listen.len(),
                forall|k: int|
                    0 <= k < i ==> (#[trigger] multiaddr_normal_form(
                        texts(self.listen@)[k],
                    )).is_some(),
            decreases self.listen.len() - i,
        {
            assert(texts(self.listen@)[i as int] == self.listen[i as int]@);
            if normal_multiaddr(self.listen[i].as_str()).is_none() {
                return false;
            }
            i = i + 1;
        }
        true
    }
}

impl Config {
    /// Holds the configuration to the rules.
    pub fn validate(&self) -> (r: Result<(), ConfigError>)
        ensures
            r == self@.validity(),
    {
        let listen = self.network.is_valid();
        let electrum = normal_url(self.bitcoin.electrum_rpc_url.as_str()).is_some();
        let wallet = normal_url(self.monero.wallet_rpc_url.as_str()).is_some();
        let ticker = normal_url(self.maker.price_ticker_ws_url.as_str()).is_some();
        self.maker.judge(listen, electrum, wallet, ticker)
    }
}

/// What comes of reading a configuration from the fields of its file and
/// holding it to the rules.
pub open spec fn loading(entries: Seq<EntryView>) -> Result<ConfigView, ConfigError> {
    match reading(entries) {
        Ok(config) => match config.validity() {
            Ok(_) => Ok(config),
            Err(e) => Err(e),
        },
        Err(e) => Err(e),
    }
}

/// What a maker starts with, given what was found where its configuration
/// should be: no file means that the maker was never set up; the fields of a
/// file are read strictly, and the configuration they amount to is taken
/// where it meets the rules and turned down where it breaks one.
pub fn read_config(file: Option<Vec<Entry>>) -> (r: Result<
    Result<Config, ConfigNotInitialized>,
    ConfigError,
>)
    ensures
        match file {
            None => r == Ok::<Result<Config, ConfigNotInitialized>, ConfigError>(
                Err(ConfigNotInitialized {  }),
            ),
            Some(entries) => match loading(entries_of(entries@)) {
                Ok(config) => r matches Ok(Ok(read)) && read@ == config,
                Err(e) => r == Err::<Result<Config, ConfigNotInitialized>, ConfigError>(e),
            },
        },
{
    match file {
        None => Ok(Err(ConfigNotInitialized {  })),
        Some(entries) => match Config::read(&entries) {
            Ok(config) => match config.validate() {
                Ok(_) => Ok(Ok(config)),
                Err(e) => Err(e),
            },
            Err(e) => Err(e),
        },
    }
}

/// A copy of a list of strings.
pub fn copy_texts(list: &Vec<String>) -> (r: Vec<String>)
    ensures
        texts(r@) == texts(list@),
{
    let mut r: Vec<String> = Vec::new();
    let mut i: usize = 0;
    while i < list.len()
        invariant
            i <= list.len(),
            texts(r@) == texts(list@.take(i as int)),
        decreases list.len() - i,
    {
        let ghost before = texts(r@);
        r.push(list[i].clone());
        assert(texts(r@) =~= before.push(list[i as int]@));
        assert(texts(list@.take(i + 1)) =~= texts(list@.take(i as int)).push(list[i as int]@));
        i = i + 1;
    }
    assert(list@.take(list.len() as int) =~= list@);
    r
}

} // verus!
