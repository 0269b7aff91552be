use deepstate_mm::binary64::Binary64;
use deepstate_mm::gui::{describe_quote, poll_secs, Form, FormError, Gui, Shared, DEFAULT_RPC, EXPECTED_CHAIN_ID};
use deepstate_mm::number::NumberError;
use deepstate_mm::order::Order;
use deepstate_mm::strategy::{MmConfig, Quotes};

fn read(text: &str) -> Result<Binary64, String> {
    match text.parse::<f64>() {
        Ok(x) => Ok(Binary64 { bits: x.to_bits() }),
        Err(error) => Err(error.to_string()),
    }
}

fn config(form: &Form) -> Result<MmConfig, FormError> {
    form.config(read(&form.mid_price), read(&form.spread))
}

fn start(gui: &mut Gui) -> Option<MmConfig> {
    let (mid, spread) = (read(&gui.form.mid_price), read(&gui.form.spread));
    gui.start(mid, spread)
}

#[test]
fn fields_start_with_the_standard_config() {
    let form = Form::default();
    assert_eq!(form.rpc_url, DEFAULT_RPC);
    assert_eq!(form.mid_price, 125.0f64.to_string());
    assert_eq!(form.spread, 0.005f64.to_string());
    assert_eq!(form.bid_quantity, "1000000");
    assert_eq!(form.ask_quantity, "1000000000000000000");
    assert_eq!(form.max_nvda, "2000000000000000000");
    assert_eq!(form.interval, "30");
    assert!(!form.live_enabled && form.confirmation.is_empty() && form.private_key.is_empty());
    let cfg = config(&form).unwrap();
    let standard = MmConfig::default();
    assert_eq!(cfg.mid_price, standard.mid_price);
    assert_eq!(cfg.half_spread_pct, standard.half_spread_pct);
    assert_eq!(cfg.ask_quantity, standard.ask_quantity);
    assert_eq!(cfg.interval_secs, standard.interval_secs);
    assert_eq!(cfg.min_tick_gap, standard.min_tick_gap);
}

#[test]
fn each_form_error_has_an_input() {
    let fails = |change: fn(&mut Form), text: &str| {
        let mut form = Form::default();
        change(&mut form);
        assert_eq!(config(&form).unwrap_err().message(), text);
    };
    fails(|f| f.mid_price = "x".into(), "invalid float literal");
    fails(|f| f.spread = "".into(), "cannot parse float from empty string");
    fails(|f| f.bid_quantity = "".into(), "cannot parse integer from empty string");
    fails(|f| f.ask_quantity = "1.5".into(), "invalid digit found in string");
    fails(|f| f.max_nvda = "-1".into(), "invalid digit found in string");
    fails(|f| f.interval = "18446744073709551616".into(), "number too large to fit in target type");
    fails(|f| f.interval = "4".into(), "interval must be at least 5 seconds");
    fails(|f| f.bid_quantity = "0".into(), "quantities must be > 0");
    fails(|f| f.ask_quantity = "0".into(), "quantities must be > 0");
    fails(|f| f.max_nvda = "0".into(), "max NVDA must be > 0");
    fails(|f| f.mid_price = "inf".into(), "mid price must be finite and > 0");
    fails(|f| f.spread = "1".into(), "spread must be in (0, 1)");
}

#[test]
fn fields_are_read_before_rules_are_checked() {
    let mut form = Form::default();
    form.mid_price = "-1".into();
    form.interval = "x".into();
    assert!(matches!(config(&form), Err(FormError::NotWhole(NumberError::InvalidDigit))));
    form.interval = "1".into();
    assert!(matches!(config(&form), Err(FormError::Interval)));
}

#[test]
fn start_begins_a_preview() {
    let mut gui = Gui::default();
    gui.shared.error = "old".into();
    let cfg = start(&mut gui).unwrap();
    assert_eq!(cfg.bid_quantity, 1_000_000);
    assert!(gui.shared.running && gui.stoppable);
    assert_eq!(gui.shared.status, "PREVIEW MODE");
    assert_eq!(gui.shared.error, "");
    assert_eq!(gui.shared.logs, vec!["started; no transaction will be submitted by this MVP"]);
}

#[test]
fn start_refuses_a_broken_form() {
    let mut gui = Gui::default();
    gui.form.interval = "4".into();
    assert!(start(&mut gui).is_none());
    assert!(!gui.shared.running && !gui.stoppable);
    assert_eq!(gui.shared.logs, vec!["configuration error: interval must be at least 5 seconds"]);
}

#[test]
fn live_mode_needs_the_words() {
    let mut gui = Gui::default();
    gui.form.live_enabled = true;
    gui.form.confirmation = "i understand".into();
    assert!(start(&mut gui).is_none());
    assert_eq!(gui.shared.logs, vec!["Live trading requires typing I UNDERSTAND"]);
    gui.form.confirmation = "I UNDERSTAND".into();
    assert!(start(&mut gui).is_some());
    assert_eq!(gui.shared.status, "GUARDED LIVE MODE");
}

#[test]
fn stop_tells_a_running_preview_once() {
    let mut gui = Gui::default();
    start(&mut gui).unwrap();
    assert!(gui.stop());
    assert_eq!(gui.shared.status, "STOPPING");
    assert!(!gui.stop());
}

#[test]
fn log_appends() {
    let mut gui = Gui::default();
    gui.log("one".into());
    gui.log("two".into());
    assert_eq!(gui.shared.logs, vec!["one", "two"]);
}

#[test]
fn preview_reports_the_chain() {
    let mut shared = Shared::default();
    shared.chain_id_read(EXPECTED_CHAIN_ID);
    assert_eq!(shared.error, "");
    shared.chain_id_read(1);
    assert_eq!(shared.error, "unexpected chain id 1, expected 4663");
    assert_eq!(shared.logs, vec!["RPC chain id: 4663", "RPC chain id: 1"]);
    shared.rpc_failed("timeout");
    assert_eq!(shared.error, "RPC error: timeout");
    shared.runtime_failed("no threads".into());
    assert_eq!(shared.error, "no threads");
    shared.running = true;
    shared.finished();
    assert!(!shared.running);
}

#[test]
fn preview_shows_the_quotes() {
    let mut shared = Shared::default();
    let quotes = Quotes { bid: Some(Order { tick: 1, quantity: 2, nonce: 3 }), ask: None };
    shared.quotes_computed(&quotes, "124.3750", "");
    assert_eq!(shared.book, "bid: px=$124.3750 qty=2 nonce=3\nask: disabled");
    assert_eq!(shared.logs, vec!["local strategy quotes computed from MmConfig"]);
    assert_eq!(describe_quote(&None, "1"), "disabled");
}

#[test]
fn preview_looks_for_stop_every_five_seconds_at_most() {
    let mut cfg = MmConfig::default();
    assert_eq!(poll_secs(&cfg), 5);
    cfg.interval_secs = 3;
    assert_eq!(poll_secs(&cfg), 3);
}
