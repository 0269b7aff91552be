//! The state behind the configuration window: what the user typed, what is shown,
//! and what the two buttons do. No transaction is ever sent from here.
use crate::binary64::Binary64;
use crate::number;
use crate::number::{append_decimal, parse_unsigned, NumberError};
use crate::order::Order;
use crate::strategy;
use crate::strategy::{describe_order, MmConfig, Quotes};
use vstd::prelude::*;

verus! {

/// The node that is asked where no other is given.
pub const DEFAULT_RPC: &'static str = "https://rpc.mainnet.chain.robinhood.com";

/// The chain that the contracts live on.
pub const EXPECTED_CHAIN_ID: u64 = 4663;

/// The fields of the window, as typed.
#[derive(Clone)]
pub struct Form {
    pub rpc_url: String,
    pub private_key: String,
    pub mid_price: String,
    pub spread: String,
    pub bid_quantity: String,
    pub ask_quantity: String,
    pub max_nvda: String,
    pub interval: String,
    pub live_enabled: bool,
    pub confirmation: String,
}

/// A number in decimal.
fn decimal(n: u128) -> (text: String)
    ensures
        text@ == number::decimal_text(n as nat),
{
    let mut text = String::new();
    append_decimal(&mut text, n);
    assert(Seq::<char>::empty() + number::decimal_text(n as nat) =~= number::decimal_text(
        n as nat,
    ));
    text
}

impl Form {
    /// The fields hold the standard configuration, and live mode is off.
    pub open spec fn untouched(&self) -> bool {
        let standard = MmConfig::standard();
        &&& self.rpc_url@ == DEFAULT_RPC@
        &&& self.private_key@ == Seq::<char>::empty()
        &&& self.mid_price@ == "125"@
        &&& self.spread@ == "0.005"@
        &&& self.bid_quantity@ == number::decimal_text(standard.bid_quantity as nat)
        &&& self.ask_quantity@ == number::decimal_text(standard.ask_quantity as nat)
        &&& self.max_nvda@ == number::decimal_text(standard.max_nvda_inventory as nat)
        &&& self.interval@ == number::decimal_text(standard.interval_secs as nat)
        &&& !self.live_enabled
        &&& self.confirmation@ == Seq::<char>::empty()
    }
}

impl Default for Form {
    fn default() -> (form: Self)
        ensures
            form.untouched(),
    {
        let cfg = MmConfig::default();
        Form {
            rpc_url: DEFAULT_RPC.to_owned(),
            private_key: String::new(),
            mid_price: "125".to_owned(),
            spread: "0.005".to_owned(),
            bid_quantity: decimal(cfg.bid_quantity),
            ask_quantity: decimal(cfg.ask_quantity),
            max_nvda: decimal(cfg.max_nvda_inventory),
            interval: decimal(cfg.interval_secs as u128),
            live_enabled: false,
            confirmation: String::new(),
        }
    }
}

/// Why the fields make no configuration.
#[derive(Debug, Clone)]
pub enum FormError {
    /// A field holds no real number; the reason in words.
    NotReal(String),
    /// A field holds no whole number.
    NotWhole(NumberError),
    Interval,
    Quantities,
    MaxNvda,
    MidPrice,
    Spread,
}

/// Why the fields make no configuration, with the reason in words.
pub enum FormFault {
    NotReal(Seq<char>),
    NotWhole(NumberError),
    Interval,
    Quantities,
    MaxNvda,
    MidPrice,
    Spread,
}

impl View for FormError {
    type V = FormFault;

    open spec fn view(&self) -> FormFault {
        match self {
            FormError::NotReal(reason) => FormFault::NotReal(reason@),
            FormError::NotWhole(reason) => FormFault::NotWhole(*reason),
            FormError::Interval => FormFault::Interval,
            FormError::Quantities => FormFault::Quantities,
            FormError::MaxNvda => FormFault::MaxNvda,
            FormError::MidPrice => FormFault::MidPrice,
            FormError::Spread => FormFault::Spread,
        }
    }
}

impl FormFault {
    /// The fault in words.
    pub open spec fn text(self) -> Seq<char> {
        match self {
            FormFault::NotReal(reason) => reason,
            FormFault::NotWhole(reason) => reason.text(),
            FormFault::Interval => "interval must be at least 5 seconds"@,
            FormFault::Quantities => "quantities must be > 0"@,
            FormFault::MaxNvda => "max NVDA must be > 0"@,
            FormFault::MidPrice => "mid price must be finite and > 0"@,
            FormFault::Spread => "spread must be in (0, 1)"@,
        }
    }
}

impl FormError {
    /// The error in words.
    pub fn message(&self) -> (text: String)
        ensures
            text@ == self@.text(),
    {
        match self {
            FormError::NotReal(reason) => reason.clone(),
            FormError::NotWhole(reason) => reason.message().to_owned(),
            FormError::Interval => "interval must be at least 5 seconds".to_owned(),
            FormError::Quantities => "quantities must be > 0".to_owned(),
            FormError::MaxNvda => "max NVDA must be > 0".to_owned(),
            FormError::MidPrice => "mid price must be finite and > 0".to_owned(),
            FormError::Spread => "spread must be in (0, 1)".to_owned(),
        }
    }
}

/// The outcome of reading a field as a real number, with the reason of a failure
/// in words.
pub open spec fn real_read(read: Result<Binary64, String>) -> Result<Binary64, Seq<char>> {
    match read {
        Ok(value) => Ok(value),
        Err(reason) => Err(reason@),
    }
}

/// The rule that a configuration from the window breaks, if it breaks one.
pub open spec fn rule_fault(cfg: MmConfig) -> Option<FormFault> {
    if cfg.interval_secs < 5 {
        Some(FormFault::Interval)
    } else if cfg.bid_quantity == 0 || cfg.ask_quantity == 0 {
        Some(FormFault::Quantities)
    } else if cfg.max_nvda_inventory == 0 {
        Some(FormFault::MaxNvda)
    } else if !cfg.mid_price.positive() {
        Some(FormFault::MidPrice)
    } else if !cfg.half_spread_pct.proper_fraction() {
        Some(FormFault::Spread)
    } else {
        None
    }
}

impl Form {
    /// The configuration that the fields make, `mid` and `spread` being what the
    /// two real-numbered fields read as. The fields are read in the order of the
    /// window, then the rules are checked.
    pub open spec fn configured(
        &self,
        mid: Result<Binary64, Seq<char>>,
        spread: Result<Binary64, Seq<char>>,
    ) -> Result<MmConfig, FormFault> {
        let bid = number::parsed(self.bid_quantity@, u128::MAX as nat);
        let ask = number::parsed(self.ask_quantity@, u128::MAX as nat);
        let max = number::parsed(self.max_nvda@, u128::MAX as nat);
        let interval = number::parsed(self.interval@, u64::MAX as nat);
        let cfg = MmConfig {
            mid_price: mid->Ok_0,
            half_spread_pct: spread->Ok_0,
            bid_quantity: bid->Ok_0 as u128,
            ask_quantity: ask->Ok_0 as u128,
            max_nvda_inventory: max->Ok_0 as u128,
            interval_secs: interval->Ok_0 as u64,
            ..MmConfig::standard()
        };
        if mid is Err {
            Err(FormFault::NotReal(mid->Err_0))
        } else if spread is Err {
            Err(FormFault::NotReal(spread->Err_0))
        } else if bid is Err {
            Err(FormFault::NotWhole(bid->Err_0))
        } else if ask is Err {
            Err(FormFault::NotWhole(ask->Err_0))
        } else if max is Err {
            Err(FormFault::NotWhole(max->Err_0))
        } else if interval is Err {
            Err(FormFault::NotWhole(interval->Err_0))
        } else {
            match rule_fault(cfg) {
                Some(fault) => Err(fault),
                None => Ok(cfg),
            }
        }
    }

    /// The configuration that the fields make, `mid` and `spread` being what the
    /// two real-numbered fields read as.
    pub fn config(&self, mid: Result<Binary64, String>, spread: Result<Binary64, String>) -> (cfg:
        Result<MmConfig, FormError>)
        ensures
            match (cfg, self.configured(real_read(mid), real_read(spread))) {
                (Ok(made), Ok(wanted)) => made == wanted,
                (Err(error), Err(fault)) => error@ == fault,
                _ => false,
            },
    {
        let mid_price = match mid {
            Ok(value) => value,
            Err(reason) => {
                return Err(FormError::NotReal(reason));
            },
        };
        let half_spread_pct = match spread {
            Ok(value) => value,
            Err(reason) => {
                return Err(FormError::NotReal(reason));
            },
        };
        let bid_quantity: u128 = match parse_unsigned(self.bid_quantity.as_str(), u128::MAX) {
            Ok(value) => value,
            Err(reason) => {
                return Err(FormError::NotWhole(reason));
            },
        };
        let ask_quantity: u128 = match parse_unsigned(self.ask_quantity.as_str(), u128::MAX) {
            Ok(value) => value,
            Err(reason) => {
                return Err(FormError::NotWhole(reason));
            },
        };
        let max_nvda_inventory: u128 = match parse_unsigned(self.max_nvda.as_str(), u128::MAX) {
            Ok(value) => value,
            Err(reason) => {
                return Err(FormError::NotWhole(reason));
            },
        };
        let interval: u128 = match parse_unsigned(self.interval.as_str(), u64::MAX as u128) {
            Ok(value) => value,
            Err(reason) => {
                return Err(FormError::NotWhole(reason));
            },
        };
        proof {
            number::lemma_parsed_bound(self.interval@, u64::MAX as nat);
        }
        let standard = MmConfig::default();
        let cfg = MmConfig {
            mid_price,
            half_spread_pct,
            bid_quantity,
            ask_quantity,
            min_tick_gap: standard.min_tick_gap,
            decimals0: standard.decimals0,
            decimals1: standard.decimals1,
            interval_secs: interval as u64,
            max_nvda_inventory,
        };
        if cfg.interval_secs < 5 {
            return Err(FormError::Interval);
        }
        if cfg.bid_quantity == 0 || cfg.ask_quantity == 0 {
            return Err(FormError::Quantities);
        }
        if cfg.max_nvda_inventory == 0 {
            return Err(FormError::MaxNvda);
        }
        if !cfg.mid_price.is_positive() {
            return Err(FormError::MidPrice);
        }
        if !cfg.half_spread_pct.is_proper_fraction() {
            return Err(FormError::Spread);
        }
        Ok(cfg)
    }
}

/// What the window shows, and what a running preview writes to.
#[derive(Debug, Clone)]
pub struct Shared {
    pub running: bool,
    pub status: String,
    pub logs: Vec<String>,
    pub balance: String,
    pub book: String,
    pub error: String,
}

/// What the window shows, as texts.
#[verifier::ext_equal]
pub struct Shown {
    pub running: bool,
    pub status: Seq<char>,
    pub logs: Seq<Seq<char>>,
    pub balance: Seq<char>,
    pub book: Seq<char>,
    pub error: Seq<char>,
}

/// The texts of several strings.
pub open spec fn texts(strings: Seq<String>) -> Seq<Seq<char>> {
    Seq::new(strings.len(), |i: int| strings[i]@)
}

impl View for Shared {
    type V = Shown;

    open spec fn view(&self) -> Shown {
        Shown {
            running: self.running,
            status: self.status@,
            logs: texts(self.logs@),
            balance: self.balance@,
            book: self.book@,
            error: self.error@,
        }
    }
}

impl Shown {
    /// Nothing runs and nothing is shown.
    pub open spec fn blank() -> Shown {
        Shown {
            running: false,
            status: Seq::empty(),
            logs: Seq::empty(),
            balance: Seq::empty(),
            book: Seq::empty(),
            error: Seq::empty(),
        }
    }

    /// With one more line in the log.
    pub open spec fn logged(self, line: Seq<char>) -> Shown {
        Shown { logs: self.logs.push(line), ..self }
    }
}

impl Default for Shared {
    fn default() -> (shared: Self)
        ensures
            shared@ == Shown::blank(),
    {
        Shared {
            running: false,
            status: String::new(),
            logs: Vec::new(),
            balance: String::new(),
            book: String::new(),
            error: String::new(),
        }
    }
}

/// The window.
#[derive(Clone)]
pub struct Gui {
    pub form: Form,
    pub shared: Shared,
    /// A preview was started that can be told to stop.
    pub stoppable: bool,
}

/// A quote in words; a side that is switched off is "disabled".
pub open spec fn quote_text(quote: Option<Order>, price: Seq<char>) -> Seq<char> {
    match quote {
        Some(order) => strategy::order_text(order, price),
        None => "disabled"@,
    }
}

/// A quote for a person to read, `price` being its price in USDG per NVDA.
pub fn describe_quote(quote: &Option<Order>, price: &str) -> (text: String)
    ensures
        text@ == quote_text(*quote, price@),
{
    match quote {
        Some(order) => describe_order(order, price),
        None => "disabled".to_owned(),
    }
}

impl Shared {
    /// Adds a line to the log.
    pub fn log(&mut self, message: String)
        ensures
            final(self)@ == old(self)@.logged(message@),
    {
        self.logs.push(message);
        proof {
            assert(texts(self.logs@) =~= texts(old(self).logs@).push(message@));
        }
    }
}

/// The line that the log gets for a chain.
pub open spec fn chain_id_line(chain_id: u64) -> Seq<char> {
    "RPC chain id: "@ + number::decimal_text(chain_id as nat)
}

/// The error that a chain other than the expected one gives.
pub open spec fn wrong_chain_text(chain_id: u64) -> Seq<char> {
    "unexpected chain id "@ + number::decimal_text(chain_id as nat) + ", expected "@
        + number::decimal_text(EXPECTED_CHAIN_ID as nat)
}

/// The two quotes as the window shows them.
pub open spec fn book_text(quotes: Quotes, bid_price: Seq<char>, ask_price: Seq<char>) -> Seq<
    char,
> {
    "bid: "@ + quote_text(quotes.bid, bid_price) + "\nask: "@ + quote_text(quotes.ask, ask_price)
}

impl Shared {
    /// Takes in the chain that the node serves. A chain other than the expected
    /// one is an error.
    pub fn chain_id_read(&mut self, chain_id: u64)
        ensures
            final(self)@ == (Shown {
                error: if chain_id == EXPECTED_CHAIN_ID {
                    old(self)@.error
                } else {
                    wrong_chain_text(chain_id)
                },
                ..old(self)@.logged(chain_id_line(chain_id))
            }),
    {
        let mut line = "RPC chain id: ".to_owned();
        append_decimal(&mut line, chain_id as u128);
        self.log(line);
        if chain_id != EXPECTED_CHAIN_ID {
            let mut error = "unexpected chain id ".to_owned();
            append_decimal(&mut error, chain_id as u128);
            error.append(", expected ");
            append_decimal(&mut error, EXPECTED_CHAIN_ID as u128);
            self.error = error;
        }
    }

    /// Takes in that the node could not be asked.
    pub fn rpc_failed(&mut self, reason: &str)
        ensures
            final(self)@ == (Shown { error: "RPC error: "@ + reason@, ..old(self)@ }),
    {
        let mut error = "RPC error: ".to_owned();
        error.append(reason);
        self.error = error;
    }

    /// Takes in that the preview could not be run at all.
    pub fn runtime_failed(&mut self, reason: String)
        ensures
            final(self)@ == (Shown { error: reason@, ..old(self)@ }),
    {
        self.error = reason;
    }

    /// Shows the quotes of the configuration, with their prices in USDG per NVDA.
    pub fn quotes_computed(&mut self, quotes: &Quotes, bid_price: &str, ask_price: &str)
        ensures
            final(self)@ == (Shown {
                book: book_text(*quotes, bid_price@, ask_price@),
                ..old(self)@.logged("local strategy quotes computed from MmConfig"@)
            }),
    {
        let mut book = "bid: ".to_owned();
        book.append(describe_quote(&quotes.bid, bid_price).as_str());
        book.append("\nask: ");
        book.append(describe_quote(&quotes.ask, ask_price).as_str());
        self.book = book;
        self.log("local strategy quotes computed from MmConfig".to_owned());
    }

    /// Takes in that the preview ended.
    pub fn finished(&mut self)
        ensures
            final(self)@ == (Shown { running: false, ..old(self)@ }),
    {
        self.running = false;
    }
}

/// Seconds between two looks at whether the preview was told to stop.
pub fn poll_secs(cfg: &MmConfig) -> (secs: u64)
    ensures
        secs == (if cfg.interval_secs <= 5 {
            cfg.interval_secs
        } else {
            5
        }),
{
    if cfg.interval_secs <= 5 {
        cfg.interval_secs
    } else {
        5
    }
}

/// What the window shows once a preview was started.
pub open spec fn started(shown: Shown, live: bool) -> Shown {
    Shown {
        running: true,
        status: if live {
            "GUARDED LIVE MODE"@
        } else {
            "PREVIEW MODE"@
        },
        error: Seq::empty(),
        ..shown.logged("started; no transaction will be submitted by this MVP"@)
    }
}

impl Default for Gui {
    fn default() -> (gui: Self)
        ensures
            gui.form.untouched(),
            gui.shared@ == Shown::blank(),
            !gui.stoppable,
    {
        Gui { form: Form::default(), shared: Shared::default(), stoppable: false }
    }
}

impl Gui {
    /// Live mode was asked for, and the words that unlock it were not typed.
    pub open spec fn unconfirmed(&self) -> bool {
        self.form.live_enabled && self.form.confirmation@ != "I UNDERSTAND"@
    }

    /// The "Start" button. Starts a preview of the configuration that the fields
    /// make, and hands that configuration out; where the fields make none, or live
    /// mode is not confirmed, it only says so in the log.
    pub fn start(&mut self, mid: Result<Binary64, String>, spread: Result<Binary64, String>) -> (
    cfg: Option<MmConfig>)
        ensures
            final(self).form == old(self).form,
            match old(self).form.configured(real_read(mid), real_read(spread)) {
                Err(fault) => {
                    &&& cfg is None
                    &&& final(self).stoppable == old(self).stoppable
                    &&& final(self).shared@ == old(self).shared@.logged(
                        "configuration error: "@ + fault.text(),
                    )
                },
                Ok(wanted) => if old(self).unconfirmed() {
                    &&& cfg is None
                    &&& final(self).stoppable == old(self).stoppable
                    &&& final(self).shared@ == old(self).shared@.logged(
                        "Live trading requires typing I UNDERSTAND"@,
                    )
                } else {
                    &&& cfg == Some(wanted)
                    &&& final(self).stoppable
                    &&& final(self).shared@ == started(
                        old(self).shared@,
                        old(self).form.live_enabled,
                    )
                },
            },
    {
        let cfg = match self.form.config(mid, spread) {
            Ok(cfg) => cfg,
            Err(error) => {
                let mut line = "configuration error: ".to_owned();
                line.append(error.message().as_str());
                self.log(line);
                return None;
            },
        };
        if self.form.live_enabled && self.form.confirmation != "I UNDERSTAND".to_owned() {
            self.log("Live trading requires typing I UNDERSTAND".to_owned());
            return None;
        }
        self.stoppable = true;
        self.shared.running = true;
        self.shared.status = if self.form.live_enabled {
            "GUARDED LIVE MODE".to_owned()
        } else {
            "PREVIEW MODE".to_owned()
        };
        self.shared.error = String::new();
        self.shared.log("started; no transaction will be submitted by this MVP".to_owned());
        Some(cfg)
    }

    /// Adds a line to the log.
    pub fn log(&mut self, message: String)
        ensures
            final(self).shared@ == old(self).shared@.logged(message@),
            final(self).form == old(self).form,
            final(self).stoppable == old(self).stoppable,
    {
        self.shared.log(message);
    }

    /// The "Stop" button. Says whether there is a preview to be told.
    pub fn stop(&mut self) -> (tell: bool)
        ensures
            tell == old(self).stoppable,
            !final(self).stoppable,
            final(self).form == old(self).form,
            final(self).shared@ == (Shown { status: "STOPPING"@, ..old(self).shared@ }),
    {
        let tell = self.stoppable;
        self.stoppable = false;
        self.shared.status = "STOPPING".to_owned();
        tell
    }
}

/// The window and the command line accept the same configurations.
pub proof fn law_window_rules_are_the_config_rules(cfg: MmConfig)
    ensures
        rule_fault(cfg) is None <==> crate::engine::config::config_fault(cfg) is None,
{
}

/// The fields as they first stand make the standard configuration, once the two
/// real-numbered fields read as the standard numbers.
pub proof fn law_initial_fields_make_the_standard_config(form: Form)
    requires
        form.untouched(),
    ensures
        form.configured(
            Ok(MmConfig::standard().mid_price),
            Ok(MmConfig::standard().half_spread_pct),
        ) == Ok::<MmConfig, FormFault>(MmConfig::standard()),
{
    let standard = MmConfig::standard();
    standard.mid_price.lemma_by_bits();
    standard.half_spread_pct.lemma_by_bits();
    number::law_parse_inverts_decimal_text(standard.bid_quantity as nat, u128::MAX as nat);
    number::law_parse_inverts_decimal_text(standard.ask_quantity as nat, u128::MAX as nat);
    number::law_parse_inverts_decimal_text(standard.max_nvda_inventory as nat, u128::MAX as nat);
    number::law_parse_inverts_decimal_text(standard.interval_secs as nat, u64::MAX as nat);
}

/// A form makes a configuration exactly when its six fields read as numbers and
/// these keep the rules; the configuration holds these numbers, and the standard
/// values where the form has no field.
pub proof fn law_form_makes_what_it_says(
    form: Form,
    mid: Result<Binary64, Seq<char>>,
    spread: Result<Binary64, Seq<char>>,
)
    ensures
        ({
            let made = form.configured(mid, spread);
            let bid = number::parsed(form.bid_quantity@, u128::MAX as nat);
            let ask = number::parsed(form.ask_quantity@, u128::MAX as nat);
            let max = number::parsed(form.max_nvda@, u128::MAX as nat);
            let interval = number::parsed(form.interval@, u64::MAX as nat);
            let read = mid is Ok && spread is Ok && bid is Ok && ask is Ok && max is Ok
                && interval is Ok;
            let keeps = {
                &&& interval->Ok_0 >= 5
                &&& bid->Ok_0 >= 1 && ask->Ok_0 >= 1
                &&& max->Ok_0 >= 1
                &&& 0 < mid->Ok_0.bits < 0x7ff0_0000_0000_0000
                &&& 0 < spread->Ok_0.bits < 0x3ff0_0000_0000_0000
            };
            &&& made is Ok <==> read && keeps
            &&& made matches Ok(cfg) ==> {
                &&& cfg.mid_price == mid->Ok_0
                &&& cfg.half_spread_pct == spread->Ok_0
                &&& cfg.bid_quantity == bid->Ok_0
                &&& cfg.ask_quantity == ask->Ok_0
                &&& cfg.max_nvda_inventory == max->Ok_0
                &&& cfg.interval_secs == interval->Ok_0
                &&& cfg.min_tick_gap == 1
                &&& cfg.decimals0 == 6
                &&& cfg.decimals1 == 18
            }
        }),
{
    number::lemma_parsed_bound(form.bid_quantity@, u128::MAX as nat);
    number::lemma_parsed_bound(form.ask_quantity@, u128::MAX as nat);
    number::lemma_parsed_bound(form.max_nvda@, u128::MAX as nat);
    number::lemma_parsed_bound(form.interval@, u64::MAX as nat);
    if mid is Ok {
        mid->Ok_0.lemma_by_bits();
    }
    if spread is Ok {
        spread->Ok_0.lemma_by_bits();
    }
}

/// The fault of a form is that of its first field that does not read, in the order
/// mid price, spread, bid, ask, inventory, interval.
pub proof fn law_first_unreadable_field(
    form: Form,
    mid: Result<Binary64, Seq<char>>,
    spread: Result<Binary64, Seq<char>>,
)
    ensures
        ({
            let made = form.configured(mid, spread);
            let bid = number::parsed(form.bid_quantity@, u128::MAX as nat);
            let ask = number::parsed(form.ask_quantity@, u128::MAX as nat);
            let max = number::parsed(form.max_nvda@, u128::MAX as nat);
            let interval = number::parsed(form.interval@, u64::MAX as nat);
            &&& mid is Err ==> made == Err::<MmConfig, FormFault>(FormFault::NotReal(mid->Err_0))
            &&& mid is Ok && spread is Err ==> made == Err::<MmConfig, FormFault>(
                FormFault::NotReal(spread->Err_0),
            )
            &&& mid is Ok && spread is Ok && bid is Err ==> made == Err::<MmConfig, FormFault>(
                FormFault::NotWhole(bid->Err_0),
            )
            &&& mid is Ok && spread is Ok && bid is Ok && ask is Err ==> made == Err::<
                MmConfig,
                FormFault,
            >(FormFault::NotWhole(ask->Err_0))
            &&& mid is Ok && spread is Ok && bid is Ok && ask is Ok && max is Err ==> made == Err::<
                MmConfig,
                FormFault,
            >(FormFault::NotWhole(max->Err_0))
            &&& mid is Ok && spread is Ok && bid is Ok && ask is Ok && max is Ok
                && interval is Err ==> made == Err::<MmConfig, FormFault>(
                FormFault::NotWhole(interval->Err_0),
            )
            &&& mid is Ok && spread is Ok && bid is Ok && ask is Ok && max is Ok
                && interval is Ok ==> !(made matches Err(FormFault::NotReal(_))) && !(
            made matches Err(FormFault::NotWhole(_)))
        }),
{
}

/// The rule that the window names is broken, and those before it in the order
/// interval, quantities, inventory, price, spread are kept.
pub proof fn law_window_names_the_first_broken_rule(cfg: MmConfig)
    ensures
        ({
            let interval = cfg.interval_secs >= 5;
            let quantities = cfg.bid_quantity >= 1 && cfg.ask_quantity >= 1;
            let inventory = cfg.max_nvda_inventory >= 1;
            let price = 0 < cfg.mid_price.bits < 0x7ff0_0000_0000_0000;
            let spread = 0 < cfg.half_spread_pct.bits < 0x3ff0_0000_0000_0000;
            &&& rule_fault(cfg) == Some(FormFault::Interval) <==> !interval
            &&& rule_fault(cfg) == Some(FormFault::Quantities) <==> interval && !quantities
            &&& rule_fault(cfg) == Some(FormFault::MaxNvda) <==> interval && quantities
                && !inventory
            &&& rule_fault(cfg) == Some(FormFault::MidPrice) <==> interval && quantities
                && inventory && !price
            &&& rule_fault(cfg) == Some(FormFault::Spread) <==> interval && quantities && inventory
                && price && !spread
            &&& rule_fault(cfg) is None <==> interval && quantities && inventory && price && spread
        }),
{
    cfg.mid_price.lemma_by_bits();
    cfg.half_spread_pct.lemma_by_bits();
}

/// A broken rule is reported by the form as the window names it.
pub proof fn law_form_reports_the_broken_rule(
    form: Form,
    mid: Result<Binary64, Seq<char>>,
    spread: Result<Binary64, Seq<char>>,
)
    ensures
        ({
            let made = form.configured(mid, spread);
            let bid = number::parsed(form.bid_quantity@, u128::MAX as nat);
            let ask = number::parsed(form.ask_quantity@, u128::MAX as nat);
            let max = number::parsed(form.max_nvda@, u128::MAX as nat);
            let interval = number::parsed(form.interval@, u64::MAX as nat);
            let read = mid is Ok && spread is Ok && bid is Ok && ask is Ok && max is Ok
                && interval is Ok;
            let slow = interval->Ok_0 >= 5;
            let sized = bid->Ok_0 >= 1 && ask->Ok_0 >= 1;
            let stocked = max->Ok_0 >= 1;
            let priced = 0 < mid->Ok_0.bits < 0x7ff0_0000_0000_0000;
            &&& read && !slow ==> made == Err::<MmConfig, FormFault>(FormFault::Interval)
            &&& read && slow && !sized ==> made == Err::<MmConfig, FormFault>(FormFault::Quantities)
            &&& read && slow && sized && !stocked ==> made == Err::<MmConfig, FormFault>(
                FormFault::MaxNvda,
            )
            &&& read && slow && sized && stocked && !priced ==> made == Err::<
                MmConfig,
                FormFault,
            >(FormFault::MidPrice)
            &&& read && slow && sized && stocked && priced && !(0 < spread->Ok_0.bits
                < 0x3ff0_0000_0000_0000) ==> made == Err::<MmConfig, FormFault>(FormFault::Spread)
        }),
{
    number::lemma_parsed_bound(form.bid_quantity@, u128::MAX as nat);
    number::lemma_parsed_bound(form.ask_quantity@, u128::MAX as nat);
    number::lemma_parsed_bound(form.max_nvda@, u128::MAX as nat);
    number::lemma_parsed_bound(form.interval@, u64::MAX as nat);
    if mid is Ok {
        mid->Ok_0.lemma_by_bits();
    }
    if spread is Ok {
        spread->Ok_0.lemma_by_bits();
    }
}

/// The words of each fault of a form.
pub proof fn law_form_fault_words(fault: FormFault)
    ensures
        fault matches FormFault::NotReal(reason) ==> fault.text() == reason,
        fault matches FormFault::NotWhole(reason) ==> fault.text() == reason.text(),
        fault is Interval ==> fault.text() == "interval must be at least 5 seconds"@,
        fault is Quantities ==> fault.text() == "quantities must be > 0"@,
        fault is MaxNvda ==> fault.text() == "max NVDA must be > 0"@,
        fault is MidPrice ==> fault.text() == "mid price must be finite and > 0"@,
        fault is Spread ==> fault.text() == "spread must be in (0, 1)"@,
{
}

/// An error of a form is the fault that it stands for, and a field that was read is
/// what it was read as.
pub proof fn law_form_errors_and_readings(error: FormError, read: Result<Binary64, String>)
    ensures
        error matches FormError::NotReal(reason) ==> error@ == FormFault::NotReal(reason@),
        error matches FormError::NotWhole(reason) ==> error@ == FormFault::NotWhole(reason),
        error is Interval ==> error@ is Interval,
        error is Quantities ==> error@ is Quantities,
        error is MaxNvda ==> error@ is MaxNvda,
        error is MidPrice ==> error@ is MidPrice,
        error is Spread ==> error@ is Spread,
        read matches Ok(value) ==> real_read(read) == Ok::<Binary64, Seq<char>>(value),
        read matches Err(reason) ==> real_read(read) == Err::<Binary64, Seq<char>>(reason@),
{
}

/// The fields as they first stand: the node of the chain, the documented numbers, no
/// key, live mode off and unconfirmed.
pub proof fn law_initial_fields(form: Form)
    requires
        form.untouched(),
    ensures
        form.rpc_url@ == "https://rpc.mainnet.chain.robinhood.com"@,
        form.private_key@.len() == 0,
        form.mid_price@ == "125"@,
        form.spread@ == "0.005"@,
        number::parsed(form.bid_quantity@, u128::MAX as nat) == Ok::<nat, NumberError>(1_000_000),
        number::parsed(form.ask_quantity@, u128::MAX as nat) == Ok::<nat, NumberError>(
            1_000_000_000_000_000_000,
        ),
        number::parsed(form.max_nvda@, u128::MAX as nat) == Ok::<nat, NumberError>(
            2_000_000_000_000_000_000,
        ),
        number::parsed(form.interval@, u64::MAX as nat) == Ok::<nat, NumberError>(30),
        !form.live_enabled,
        form.confirmation@.len() == 0,
{
    number::law_parse_inverts_decimal_text(1_000_000, u128::MAX as nat);
    number::law_parse_inverts_decimal_text(1_000_000_000_000_000_000, u128::MAX as nat);
    number::law_parse_inverts_decimal_text(2_000_000_000_000_000_000, u128::MAX as nat);
    number::law_parse_inverts_decimal_text(30, u64::MAX as nat);
}

/// What is shown is what is held, line by line.
pub proof fn law_all_is_shown(shared: Shared, i: int)
    ensures
        shared@.running == shared.running,
        shared@.status == shared.status@,
        shared@.balance == shared.balance@,
        shared@.book == shared.book@,
        shared@.error == shared.error@,
        shared@.logs.len() == shared.logs@.len(),
        0 <= i < shared.logs@.len() ==> shared@.logs[i] == shared.logs@[i]@,
{
}

/// At first nothing runs and nothing is shown.
pub proof fn law_window_is_blank_at_first()
    ensures
        !Shown::blank().running,
        Shown::blank().status.len() == 0,
        Shown::blank().logs.len() == 0,
        Shown::blank().balance.len() == 0,
        Shown::blank().book.len() == 0,
        Shown::blank().error.len() == 0,
{
}

/// A line goes to the end of the log, and nothing else changes.
pub proof fn law_log_grows_by_one_line(shown: Shown, line: Seq<char>)
    ensures
        ({
            let now = shown.logged(line);
            &&& now.logs == shown.logs + seq![line]
            &&& now.running == shown.running
            &&& now.status == shown.status
            &&& now.balance == shown.balance
            &&& now.book == shown.book
            &&& now.error == shown.error
        }),
{
    assert(shown.logged(line).logs =~= shown.logs + seq![line]);
}

/// A preview that was started runs, says in which mode, forgets the last error, and
/// says in the log that it sends nothing.
pub proof fn law_started_preview(shown: Shown, live: bool)
    ensures
        ({
            let now = started(shown, live);
            &&& now.running
            &&& live ==> now.status == "GUARDED LIVE MODE"@
            &&& !live ==> now.status == "PREVIEW MODE"@
            &&& now.error.len() == 0
            &&& now.logs == shown.logs + seq![
                "started; no transaction will be submitted by this MVP"@,
            ]
            &&& now.balance == shown.balance
            &&& now.book == shown.book
        }),
{
    assert(started(shown, live).logs =~= shown.logs + seq![
        "started; no transaction will be submitted by this MVP"@,
    ]);
}

/// Live mode is unlocked by two words and nothing else, and only live mode needs
/// them.
pub proof fn law_live_mode_needs_the_words(gui: Gui)
    ensures
        gui.unconfirmed() <==> gui.form.live_enabled && !(gui.form.confirmation@
            =~= "I UNDERSTAND"@),
{
}

/// The words for the chain that was read, and for one that was not expected.
pub proof fn law_chain_words(chain_id: u64)
    ensures
        ({
            let n = number::decimal_text(chain_id as nat);
            let expected = number::decimal_text(4663);
            let (line, wrong) = (chain_id_line(chain_id), wrong_chain_text(chain_id));
            let k = n.len() as int;
            &&& EXPECTED_CHAIN_ID == 4663
            &&& line.len() == 14 + n.len()
            &&& line.take(14) == "RPC chain id: "@
            &&& line.skip(14) == n
            &&& wrong.len() == 31 + n.len() + expected.len()
            &&& wrong.take(20) == "unexpected chain id "@
            &&& wrong.subrange(20, 20 + k) == n
            &&& wrong.subrange(20 + k, 31 + k) == ", expected "@
            &&& wrong.skip(31 + k) == expected
        }),
{
    reveal_strlit("RPC chain id: ");
    reveal_strlit("unexpected chain id ");
    reveal_strlit(", expected ");
    let n = number::decimal_text(chain_id as nat);
    let expected = number::decimal_text(4663);
    let (line, wrong) = (chain_id_line(chain_id), wrong_chain_text(chain_id));
    let k = n.len() as int;
    assert(line.take(14) =~= "RPC chain id: "@);
    assert(line.skip(14) =~= n);
    assert(wrong.take(20) =~= "unexpected chain id "@);
    assert(wrong.subrange(20, 20 + k) =~= n);
    assert(wrong.subrange(20 + k, 31 + k) =~= ", expected "@);
    assert(wrong.skip(31 + k) =~= expected);
}

/// The words for a quote: those of its order, or that the side is switched off.
pub proof fn law_quote_words(order: Order, price: Seq<char>)
    ensures
        quote_text(Some(order), price) == strategy::order_text(order, price),
        quote_text(None, price) == "disabled"@,
{
}

/// The words for both quotes: the bid on the first line, the ask on the second, each
/// with its own price.
pub proof fn law_book_words(quotes: Quotes, bid_price: Seq<char>, ask_price: Seq<char>)
    ensures
        ({
            let text = book_text(quotes, bid_price, ask_price);
            let bid = quote_text(quotes.bid, bid_price);
            let ask = quote_text(quotes.ask, ask_price);
            let k = bid.len() as int;
            &&& text.len() == 11 + bid.len() + ask.len()
            &&& text.take(5) == "bid: "@
            &&& text.subrange(5, 5 + k) == bid
            &&& text.subrange(5 + k, 11 + k) == "\nask: "@
            &&& text.skip(11 + k) == ask
        }),
{
    reveal_strlit("bid: ");
    reveal_strlit("\nask: ");
    let text = book_text(quotes, bid_price, ask_price);
    let bid = quote_text(quotes.bid, bid_price);
    let ask = quote_text(quotes.ask, ask_price);
    let k = bid.len() as int;
    assert(text.take(5) =~= "bid: "@);
    assert(text.subrange(5, 5 + k) =~= bid);
    assert(text.subrange(5 + k, 11 + k) =~= "\nask: "@);
    assert(text.skip(11 + k) =~= ask);
}

} // verus!
