use term_bridge::session::{
    cursor_position, fit_on_resize, init_terminal, perform_fit, size, window_size,
    TerminalConfig, WidgetDims,
};
use term_bridge::sink::TerminalHandle;
use term_bridge::TermError;

#[test]
fn default_config_enables_both_capabilities() {
    let config = TerminalConfig::default();
    assert!(config.use_fit);
    assert!(config.use_webgl);
}

#[test]
fn init_plan_follows_the_configuration() {
    let config = TerminalConfig { use_fit: true, use_webgl: false };
    let (_session, _bridge, plan) = init_terminal(&config);
    assert!(plan.attach_fit);
    assert!(!plan.attach_webgl);
    assert!(plan.initial_fit);
    assert!(plan.register_resize_listener);

    let config = TerminalConfig { use_fit: false, use_webgl: true };
    let (_session, _bridge, plan) = init_terminal(&config);
    assert!(!plan.attach_fit);
    assert!(plan.attach_webgl);
    assert!(!plan.initial_fit);
    assert!(!plan.register_resize_listener);
}

#[test]
fn fit_succeeds_exactly_when_enabled() {
    let (session, _bridge, _plan) =
        init_terminal(&TerminalConfig { use_fit: true, use_webgl: true });
    assert_eq!(perform_fit(&session), Ok(()));
    assert!(fit_on_resize(&session));

    let (session, _bridge, _plan) =
        init_terminal(&TerminalConfig { use_fit: false, use_webgl: true });
    assert_eq!(perform_fit(&session), Err(TermError::Unsupported));
    assert!(!fit_on_resize(&session));
}

#[test]
fn size_queries_round_trip_stub_widget_dimensions() {
    let dims = WidgetDims { rows: 24, cols: 80, pixel_width: 640, pixel_height: 480 };
    let record = window_size(&dims);
    assert_eq!(record.rows, 24);
    assert_eq!(record.columns, 80);
    assert_eq!(record.width, 640);
    assert_eq!(record.height, 480);
    assert_eq!(size(&dims), (80, 24));
}

#[test]
fn size_fields_reduce_modulo_sixteen_bits() {
    let dims = WidgetDims {
        rows: 0x1_2345,
        cols: 0x10000,
        pixel_width: 0xFFFF,
        pixel_height: 0x2_0001,
    };
    let record = window_size(&dims);
    assert_eq!(record.rows, 0x2345);
    assert_eq!(record.columns, 0);
    assert_eq!(record.width, 0xFFFF);
    assert_eq!(record.height, 1);
}

#[test]
fn cursor_position_reduces_the_reported_coordinates() {
    assert_eq!(cursor_position(3, 7), (3, 7));
    assert_eq!(cursor_position(0x1_0002, 0xFFFF), (2, 0xFFFF));
}

#[test]
fn flush_of_valid_utf8_displays_exactly_once() {
    let (mut session, _bridge, _plan) = init_terminal(&TerminalConfig::default());
    let mut handle = TerminalHandle::default();
    let payload = "grüße ☕".as_bytes();
    assert_eq!(handle.write(payload), payload.len());
    assert_eq!(handle.buffered_len(), payload.len());
    let flushed = handle.flush(&mut session);
    assert_eq!(flushed, Ok(String::from("grüße ☕")));
    assert_eq!(handle.buffered_len(), 0);
    assert_eq!(session.displayed_count(), 1);
    assert_eq!(session.displayed_at(0), "grüße ☕");
}

#[test]
fn flush_of_invalid_bytes_reports_invalid_data_and_discards() {
    let (mut session, _bridge, _plan) = init_terminal(&TerminalConfig::default());
    let mut handle = TerminalHandle::default();
    assert_eq!(handle.write(&[0xFF, 0xFE]), 2);
    assert_eq!(handle.flush(&mut session), Err(TermError::InvalidData));
    assert_eq!(handle.buffered_len(), 0);
    assert_eq!(session.displayed_count(), 0);
}

#[test]
fn a_multibyte_sequence_split_before_the_flush_is_invalid() {
    let (mut session, _bridge, _plan) = init_terminal(&TerminalConfig::default());
    let mut handle = TerminalHandle::default();
    // The first two bytes of a three-byte encoding, flushed prematurely.
    let euro = "€".as_bytes();
    assert_eq!(handle.write(&euro[..2]), 2);
    assert_eq!(handle.flush(&mut session), Err(TermError::InvalidData));
    assert_eq!(handle.buffered_len(), 0);
    assert_eq!(session.displayed_count(), 0);
    // The stream continues after the error.
    assert_eq!(handle.write(euro), 3);
    assert_eq!(handle.flush(&mut session), Ok(String::from("€")));
    assert_eq!(session.displayed_count(), 1);
    assert_eq!(session.displayed_at(0), "€");
}

#[test]
fn bytes_accumulate_across_writes_until_the_flush() {
    let (mut session, _bridge, _plan) = init_terminal(&TerminalConfig::default());
    let mut handle = TerminalHandle::default();
    assert_eq!(handle.write(b"he"), 2);
    assert_eq!(handle.write(b"llo"), 3);
    assert_eq!(session.displayed_count(), 0);
    assert_eq!(handle.flush(&mut session), Ok(String::from("hello")));
    assert_eq!(session.displayed_count(), 1);
    assert_eq!(session.displayed_at(0), "hello");
}

#[test]
fn scenario_disabled_addons_then_write_and_flush() {
    let config = TerminalConfig { use_fit: false, use_webgl: false };
    let (mut session, _bridge, plan) = init_terminal(&config);
    assert!(!plan.attach_fit);
    assert!(!plan.attach_webgl);
    assert_eq!(perform_fit(&session), Err(TermError::Unsupported));

    let mut handle = TerminalHandle::default();
    assert_eq!(handle.write(&[0x48, 0x69]), 2);
    assert_eq!(handle.flush(&mut session), Ok(String::from("Hi")));
    assert_eq!(session.displayed_count(), 1);
    assert_eq!(session.displayed_at(0), "Hi");
}
