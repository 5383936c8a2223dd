//! The counter application state: lifecycle flag and saturating counter.

use gpu_info::app::App;
use gpu_info::vendor::{GpuInfo, GpuResourcesTrait, GpuVendor, IntelGpu, NvidiaGpu};

#[test]
fn a_new_app_runs_with_the_counter_at_zero() {
    let app = App::new();
    assert!(app.running);
    assert_eq!(app.counter, 0);
    app.tick();
    assert!(app.running);
}

#[test]
fn the_default_app_is_not_running() {
    let app = App::default();
    assert!(!app.running);
    assert_eq!(app.counter, 0);
}

#[test]
fn quit_stops_the_app_and_keeps_the_counter() {
    let mut app = App::new();
    app.increment_counter();
    app.quit();
    assert!(!app.running);
    assert_eq!(app.counter, 1);
}

#[test]
fn the_counter_saturates_at_the_top() {
    let mut app = App::new();
    for _ in 0..255 {
        app.increment_counter();
    }
    assert_eq!(app.counter, 255);
    app.increment_counter();
    assert_eq!(app.counter, 255);
}

#[test]
fn the_counter_saturates_at_zero() {
    let mut app = App::new();
    app.decrement_counter();
    assert_eq!(app.counter, 0);
    app.increment_counter();
    app.increment_counter();
    app.decrement_counter();
    assert_eq!(app.counter, 1);
}

#[test]
fn the_vendor_registry_lists_the_stubs() {
    let _info = GpuInfo::new();
    let _ = NvidiaGpu.get_info();
    let _ = GpuVendor::Intel(IntelGpu).get_info();
}
