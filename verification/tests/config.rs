use deepstate_mm::binary64::Binary64;
use deepstate_mm::engine::config::{load_config, state_path, temporary_path, validate_config, Settings};
use deepstate_mm::error::{ConfigError, EngineError};
use deepstate_mm::strategy::MmConfig;
use deepstate_mm::words::{Address, B256};

fn binary(x: f64) -> Binary64 {
    Binary64 { bits: x.to_bits() }
}

fn nothing() -> Settings {
    Settings {
        mid_price: None,
        spread: None,
        interval_secs: None,
        bid_quantity: None,
        ask_quantity: None,
        max_nvda: None,
    }
}

#[test]
fn standard_config_is_valid() {
    assert_eq!(validate_config(&MmConfig::default()), Ok(()));
    let cfg = load_config(&nothing()).unwrap();
    assert_eq!(cfg.interval_secs, 30);
    assert_eq!(cfg.mid_price, binary(125.0));
}

#[test]
fn settings_replace_standard_values() {
    let cfg = load_config(&Settings {
        mid_price: Some(binary(200.5)),
        spread: Some(binary(0.01)),
        interval_secs: Some(5),
        bid_quantity: Some(11),
        ask_quantity: Some(12),
        max_nvda: Some(13),
    })
    .unwrap();
    assert_eq!(cfg.mid_price, binary(200.5));
    assert_eq!(cfg.half_spread_pct, binary(0.01));
    assert_eq!(cfg.interval_secs, 5);
    assert_eq!((cfg.bid_quantity, cfg.ask_quantity, cfg.max_nvda_inventory), (11, 12, 13));
    assert_eq!((cfg.min_tick_gap, cfg.decimals0, cfg.decimals1), (1, 6, 18));
}

#[test]
fn each_broken_rule_is_named() {
    for price in [0.0, -125.0, f64::NAN, f64::INFINITY] {
        let result = load_config(&Settings { mid_price: Some(binary(price)), ..nothing() });
        assert_eq!(result.unwrap_err(), ConfigError::MidPrice);
    }
    for spread in [0.0, 1.0, -0.005, f64::NAN, 2.0] {
        let result = load_config(&Settings { spread: Some(binary(spread)), ..nothing() });
        assert_eq!(result.unwrap_err(), ConfigError::Spread);
    }
    let result = load_config(&Settings { interval_secs: Some(4), ..nothing() });
    assert_eq!(result.unwrap_err(), ConfigError::Interval);
    let result = load_config(&Settings { bid_quantity: Some(0), ..nothing() });
    assert_eq!(result.unwrap_err(), ConfigError::Quantities);
    let result = load_config(&Settings { ask_quantity: Some(0), ..nothing() });
    assert_eq!(result.unwrap_err(), ConfigError::Quantities);
    let result = load_config(&Settings { max_nvda: Some(0), ..nothing() });
    assert_eq!(result.unwrap_err(), ConfigError::MaxInventory);
}

#[test]
fn first_broken_rule_is_named() {
    let settings = Settings { mid_price: Some(binary(0.0)), interval_secs: Some(0), ..nothing() };
    assert_eq!(load_config(&settings).unwrap_err(), ConfigError::MidPrice);
    let settings = Settings { interval_secs: Some(0), max_nvda: Some(0), ..nothing() };
    assert_eq!(load_config(&settings).unwrap_err(), ConfigError::Interval);
}

#[test]
fn state_goes_to_the_given_file() {
    assert_eq!(state_path(None), "active_orders.json");
    assert_eq!(state_path(Some("elsewhere.json".to_string())), "elsewhere.json");
    assert_eq!(temporary_path("active_orders.json"), "active_orders.json.tmp");
}

#[test]
fn errors_speak() {
    assert_eq!(EngineError::Config(ConfigError::Spread).message(), "spread must be in (0, 1)");
    assert_eq!(ConfigError::MidPrice.message(), "mid price must be finite and > 0");
    assert_eq!(ConfigError::Interval.message(), "interval must be >= 5 seconds");
    assert_eq!(ConfigError::Quantities.message(), "quantities must be > 0");
    assert_eq!(ConfigError::MaxInventory.message(), "max inventory must be > 0");
    assert_eq!(EngineError::TreeTooDeep.message(), "book tree exceeded 256 levels");
    assert_eq!(EngineError::ApproveFailed(Address([0; 20])).message(), "approve failed for ");
    assert_eq!(EngineError::ReceiptTimeout(B256::zero()).message(), "receipt timeout for tx ");
    assert_eq!(EngineError::ReceiptTimeout(B256::zero()).message_after_name(), "; refusing to resend");
    assert_eq!(EngineError::ApproveFailed(Address([0; 20])).message_after_name(), "");
}
