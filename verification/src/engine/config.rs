//! The settings: where they come from and what they must satisfy.
use crate::binary64::Binary64;
use crate::error::ConfigError;
use crate::strategy::MmConfig;
use vstd::prelude::*;

verus! {

/// The first rule that a configuration breaks, if it breaks one.
pub open spec fn config_fault(cfg: MmConfig) -> Option<ConfigError> {
    if !cfg.mid_price.positive() {
        Some(ConfigError::MidPrice)
    } else if !cfg.half_spread_pct.proper_fraction() {
        Some(ConfigError::Spread)
    } else if cfg.interval_secs < 5 {
        Some(ConfigError::Interval)
    } else if cfg.bid_quantity == 0 || cfg.ask_quantity == 0 {
        Some(ConfigError::Quantities)
    } else if cfg.max_nvda_inventory == 0 {
        Some(ConfigError::MaxInventory)
    } else {
        None
    }
}

/// Accepts a configuration that breaks no rule, and names the first broken rule
/// of any other.
pub fn validate_config(cfg: &MmConfig) -> (result: Result<(), ConfigError>)
    ensures
        match config_fault(*cfg) {
            Some(fault) => result == Err::<(), ConfigError>(fault),
            None => result is Ok,
        },
{
    if !cfg.mid_price.is_positive() {
        return Err(ConfigError::MidPrice);
    }
    if !cfg.half_spread_pct.is_proper_fraction() {
        return Err(ConfigError::Spread);
    }
    if cfg.interval_secs < 5 {
        return Err(ConfigError::Interval);
    }
    if cfg.bid_quantity == 0 || cfg.ask_quantity == 0 {
        return Err(ConfigError::Quantities);
    }
    if cfg.max_nvda_inventory == 0 {
        return Err(ConfigError::MaxInventory);
    }
    Ok(())
}

/// The settings that were given; what was not given keeps its standard value.
#[derive(Debug, Clone, Copy)]
pub struct Settings {
    pub mid_price: Option<Binary64>,
    pub spread: Option<Binary64>,
    pub interval_secs: Option<u64>,
    pub bid_quantity: Option<u128>,
    pub ask_quantity: Option<u128>,
    pub max_nvda: Option<u128>,
}

/// The value that was given, else the standard one.
pub open spec fn given_or<T>(given: Option<T>, standard: T) -> T {
    match given {
        Some(value) => value,
        None => standard,
    }
}

/// The standard configuration with the given settings in place.
pub open spec fn configured(settings: Settings) -> MmConfig {
    let standard = MmConfig::standard();
    MmConfig {
        mid_price: given_or(settings.mid_price, standard.mid_price),
        half_spread_pct: given_or(settings.spread, standard.half_spread_pct),
        interval_secs: given_or(settings.interval_secs, standard.interval_secs),
        bid_quantity: given_or(settings.bid_quantity, standard.bid_quantity),
        ask_quantity: given_or(settings.ask_quantity, standard.ask_quantity),
        max_nvda_inventory: given_or(settings.max_nvda, standard.max_nvda_inventory),
        ..standard
    }
}

/// The configuration that the given settings make, if it breaks no rule.
pub fn load_config(settings: &Settings) -> (result: Result<MmConfig, ConfigError>)
    ensures
        match config_fault(configured(*settings)) {
            Some(fault) => result == Err::<MmConfig, ConfigError>(fault),
            None => result == Ok::<MmConfig, ConfigError>(configured(*settings)),
        },
{
    let mut cfg = MmConfig::default();
    if let Some(value) = settings.mid_price {
        cfg.mid_price = value;
    }
    if let Some(value) = settings.spread {
        cfg.half_spread_pct = value;
    }
    if let Some(value) = settings.interval_secs {
        cfg.interval_secs = value;
    }
    if let Some(value) = settings.bid_quantity {
        cfg.bid_quantity = value;
    }
    if let Some(value) = settings.ask_quantity {
        cfg.ask_quantity = value;
    }
    if let Some(value) = settings.max_nvda {
        cfg.max_nvda_inventory = value;
    }
    match validate_config(&cfg) {
        Ok(()) => Ok(cfg),
        Err(fault) => Err(fault),
    }
}

/// The file that keeps the active orders: the one given, else
/// `active_orders.json`.
pub fn state_path(given: Option<String>) -> (path: String)
    ensures
        path@ == (match given {
            Some(text) => text@,
            None => "active_orders.json"@,
        }),
{
    match given {
        Some(text) => text,
        None => "active_orders.json".to_owned(),
    }
}

/// The file that is written first and then renamed to `path`, so that a crash
/// leaves either the old state or the new one.
pub fn temporary_path(path: &str) -> (temporary: String)
    ensures
        temporary@ == path@ + ".tmp"@,
{
    let mut temporary = path.to_owned();
    temporary.append(".tmp");
    temporary
}

/// With nothing given the bot starts.
pub proof fn law_standard_config_is_valid(settings: Settings)
    requires
        settings.mid_price is None,
        settings.spread is None,
        settings.interval_secs is None,
        settings.bid_quantity is None,
        settings.ask_quantity is None,
        settings.max_nvda is None,
    ensures
        configured(settings) == MmConfig::standard(),
        config_fault(configured(settings)) is None,
{
    MmConfig::standard().mid_price.lemma_by_bits();
    MmConfig::standard().half_spread_pct.lemma_by_bits();
}

/// A configuration is accepted exactly when the mid price is positive and finite,
/// the spread lies between zero and one, the interval is at least five seconds, and
/// sizes and inventory are not zero.
pub proof fn law_accepted_configurations(cfg: MmConfig)
    ensures
        config_fault(cfg) is None <==> {
            &&& 0 < cfg.mid_price.bits < 0x7ff0_0000_0000_0000
            &&& 0 < cfg.half_spread_pct.bits < 0x3ff0_0000_0000_0000
            &&& cfg.interval_secs >= 5
            &&& cfg.bid_quantity >= 1
            &&& cfg.ask_quantity >= 1
            &&& cfg.max_nvda_inventory >= 1
        },
{
    cfg.mid_price.lemma_by_bits();
    cfg.half_spread_pct.lemma_by_bits();
}

/// The rule that is named is one that is broken, and the rules before it in the
/// order price, spread, interval, quantities, inventory are kept.
pub proof fn law_named_rule_is_the_first_broken_one(cfg: MmConfig)
    ensures
        ({
            let price = 0 < cfg.mid_price.bits < 0x7ff0_0000_0000_0000;
            let spread = 0 < cfg.half_spread_pct.bits < 0x3ff0_0000_0000_0000;
            let interval = cfg.interval_secs >= 5;
            let quantities = cfg.bid_quantity >= 1 && cfg.ask_quantity >= 1;
            &&& config_fault(cfg) == Some(ConfigError::MidPrice) <==> !price
            &&& config_fault(cfg) == Some(ConfigError::Spread) <==> price && !spread
            &&& config_fault(cfg) == Some(ConfigError::Interval) <==> price && spread && !interval
            &&& config_fault(cfg) == Some(ConfigError::Quantities) <==> price && spread && interval
                && !quantities
            &&& config_fault(cfg) == Some(ConfigError::MaxInventory) <==> price && spread
                && interval && quantities && cfg.max_nvda_inventory == 0
        }),
{
    cfg.mid_price.lemma_by_bits();
    cfg.half_spread_pct.lemma_by_bits();
}

/// Each setting that is given is the one that counts, each that is not given has
/// its documented value, and no setting touches another.
pub proof fn law_given_settings_count(settings: Settings)
    ensures
        ({
            let cfg = configured(settings);
            &&& settings.mid_price is Some ==> cfg.mid_price == settings.mid_price->0
            &&& settings.mid_price is None ==> cfg.mid_price.bits == 0x405f_4000_0000_0000
            &&& settings.spread is Some ==> cfg.half_spread_pct == settings.spread->0
            &&& settings.spread is None ==> cfg.half_spread_pct.bits == 0x3f74_7ae1_47ae_147b
            &&& settings.interval_secs is Some ==> cfg.interval_secs == settings.interval_secs->0
            &&& settings.interval_secs is None ==> cfg.interval_secs == 30
            &&& settings.bid_quantity is Some ==> cfg.bid_quantity == settings.bid_quantity->0
            &&& settings.bid_quantity is None ==> cfg.bid_quantity == 1_000_000
            &&& settings.ask_quantity is Some ==> cfg.ask_quantity == settings.ask_quantity->0
            &&& settings.ask_quantity is None ==> cfg.ask_quantity == 1_000_000_000_000_000_000
            &&& settings.max_nvda is Some ==> cfg.max_nvda_inventory == settings.max_nvda->0
            &&& settings.max_nvda is None ==> cfg.max_nvda_inventory == 2_000_000_000_000_000_000
            &&& cfg.min_tick_gap == 1
            &&& cfg.decimals0 == 6
            &&& cfg.decimals1 == 18
        }),
{
}

} // verus!
