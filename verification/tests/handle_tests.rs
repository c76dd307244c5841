use log_pipeline::filter::FilterSpec;
use log_pipeline::handle::{boxed, failure_of, LogLevelReloadHandle, ReloadError, ReloadHandle};
use std::sync::{Arc, Mutex};
use tracing_subscriber::filter::EnvFilter;
use tracing_subscriber::{reload, Registry};

struct Recording {
    seen: Arc<Mutex<Vec<String>>>,
}

impl ReloadHandle<EnvFilter> for Recording {
    fn reload(&self, new_value: EnvFilter) -> Result<(), reload::Error> {
        self.seen.lock().unwrap().push(new_value.to_string());
        Ok(())
    }
}

fn live_layer(directive: &str) -> (reload::Layer<EnvFilter, Registry>, reload::Handle<EnvFilter, Registry>) {
    let (compiled, _) = FilterSpec::parse(directive).into_parts();
    reload::Layer::new(compiled)
}

fn in_slot(probe: &reload::Handle<EnvFilter, Registry>) -> String {
    probe.with_current(|filter| filter.to_string()).unwrap()
}

#[test]
fn get_names_the_filter_the_handle_was_bound_with() {
    let (_layer, handle) = live_layer("info");
    let bound = LogLevelReloadHandle::new(boxed(handle), String::from("info"));
    assert_eq!(bound.get(), "info");
}

#[test]
fn set_replaces_the_filter_in_the_layer() {
    let (_layer, handle) = live_layer("info");
    let probe = handle.clone();
    let mut bound = LogLevelReloadHandle::new(boxed(handle), String::from("info"));
    assert_eq!(in_slot(&probe), "info");
    assert_eq!(bound.set("DEBUG"), Ok(()));
    assert_eq!(bound.get(), "debug");
    assert_eq!(in_slot(&probe), "debug");
}

#[test]
fn set_hands_the_compiled_directive_to_the_capability() {
    let seen = Arc::new(Mutex::new(Vec::new()));
    let slot = Recording { seen: seen.clone() };
    let mut bound = LogLevelReloadHandle::new(boxed(slot), String::from("error"));
    assert_eq!(bound.set("my_crate=TRACE"), Ok(()));
    assert_eq!(*seen.lock().unwrap(), vec![String::from("my_crate=trace")]);
    assert_eq!(bound.get(), "my_crate=trace");
}

#[test]
fn the_latest_successful_set_decides() {
    let (_layer, handle) = live_layer("info");
    let probe = handle.clone();
    let mut bound = LogLevelReloadHandle::new(boxed(handle), String::from("info"));
    assert_eq!(bound.set("warn"), Ok(()));
    assert_eq!(bound.set("trace"), Ok(()));
    assert_eq!(bound.set("my_crate=debug"), Ok(()));
    assert_eq!(bound.get(), "my_crate=debug");
    assert_eq!(in_slot(&probe), "my_crate=debug");
}

#[test]
fn a_malformed_directive_is_no_error() {
    let (_layer, handle) = live_layer("info");
    let probe = handle.clone();
    let mut bound = LogLevelReloadHandle::new(boxed(handle), String::from("info"));
    assert_eq!(bound.set("foo::bar=lolwut"), Ok(()));
    assert_eq!(bound.get(), "trace");
    assert_eq!(in_slot(&probe), "trace");
}

#[test]
fn set_fails_when_the_layer_is_gone_and_keeps_the_last_filter() {
    let (layer, handle) = live_layer("info");
    let mut bound = LogLevelReloadHandle::new(boxed(handle), String::from("info"));
    assert_eq!(bound.set("debug"), Ok(()));
    drop(layer);
    assert_eq!(bound.set("warn"), Err(ReloadError::LayerGone));
    assert_eq!(bound.get(), "debug");
    assert_eq!(bound.set("trace"), Err(ReloadError::LayerGone));
    assert_eq!(bound.get(), "debug");
}

#[test]
fn failure_of_tells_success_from_a_dropped_layer() {
    let (layer, handle) = live_layer("info");
    let (compiled, _) = FilterSpec::parse("debug").into_parts();
    assert_eq!(failure_of(handle.reload(compiled)), None);
    drop(layer);
    let (compiled, _) = FilterSpec::parse("debug").into_parts();
    assert_eq!(failure_of(handle.reload(compiled)), Some(ReloadError::LayerGone));
}

#[test]
fn settle_records_a_success_and_hands_on_a_failure() {
    let (_layer, handle) = live_layer("info");
    let mut bound = LogLevelReloadHandle::new(boxed(handle), String::from("info"));
    assert_eq!(bound.settle(String::from("debug"), None), Ok(()));
    assert_eq!(bound.get(), "debug");
    assert_eq!(
        bound.settle(String::from("trace"), Some(ReloadError::LockPoisoned)),
        Err(ReloadError::LockPoisoned)
    );
    assert_eq!(bound.get(), "debug");
    assert_eq!(
        bound.settle(String::from("trace"), Some(ReloadError::LayerGone)),
        Err(ReloadError::LayerGone)
    );
    assert_eq!(bound.get(), "debug");
}

#[test]
fn the_cause_of_a_failure_is_one_of_two() {
    assert_eq!(ReloadError::from_cause(true), ReloadError::LayerGone);
    assert_eq!(ReloadError::from_cause(false), ReloadError::LockPoisoned);
    assert_eq!(ReloadError::LayerGone.message(), "the layer behind this handle no longer exists");
    assert_eq!(ReloadError::LockPoisoned.message(), "the lock around the layer's filter is poisoned");
}

#[test]
fn a_handle_of_the_subscriber_crate_is_a_capability() {
    let (_layer, handle) = live_layer("info");
    let probe = handle.clone();
    let (compiled, _) = FilterSpec::parse("trace").into_parts();
    assert!(ReloadHandle::reload(&handle, compiled).is_ok());
    assert_eq!(in_slot(&probe), "trace");
}

#[test]
fn a_handle_of_the_subscriber_crate_is_bound_directly() {
    let (_layer, handle) = live_layer("info");
    let probe = handle.clone();
    let mut bound = LogLevelReloadHandle::from_handle(handle, String::from("info"));
    assert_eq!(bound.get(), "info");
    assert_eq!(bound.set("Warn"), Ok(()));
    assert_eq!(bound.get(), "warn");
    assert_eq!(in_slot(&probe), "warn");
}

#[test]
fn bind_puts_the_filter_in_a_slot_and_hands_out_its_handle() {
    let (slot, mut bound) = LogLevelReloadHandle::bind::<Registry>(FilterSpec::parse("INFO"));
    let probe = slot.handle();
    assert_eq!(bound.get(), "info");
    assert_eq!(in_slot(&probe), "info");
    assert_eq!(bound.set("my_crate=debug"), Ok(()));
    assert_eq!(bound.get(), "my_crate=debug");
    assert_eq!(in_slot(&probe), "my_crate=debug");
    drop(probe);
    drop(slot);
    assert_eq!(bound.set("warn"), Err(ReloadError::LayerGone));
    assert_eq!(bound.get(), "my_crate=debug");
}
