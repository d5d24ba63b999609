use canbus_supervisor::board_state::{BoardStatus, ErrorCounters, Subsystem, SubsystemState};
use canbus_supervisor::can::{Can, CanInfo, DecodeError, Filter, Frame, IdLen, Mode, RawMessage};
use canbus_supervisor::conversions::{IntoCANMessage, IntoErpm, IntoPercentage, RangeError};
use canbus_supervisor::timers::{
    set_group, set_timer, Alarms, AutoReload, ClockSource, Counter, CounterDirection, Groups,
    Timer, Timers,
};
use canbus_supervisor::timing::timing_for_rate;

fn config(rate: u32) -> Can {
    Can {
        tx: 21,
        rx: 22,
        id_length: IdLen::Standard,
        bit_timing: rate,
        mode: Mode::LoopBack,
        filter: Filter::Range(1, 9),
    }
}

#[test]
fn supported_rates_give_documented_prescalers() {
    for (rate, brp) in [(1000000u32, 4u32), (500000, 8), (250000, 16), (1250000, 32)] {
        let c = timing_for_rate(rate);
        assert_eq!(c.params.brp, brp);
        assert_eq!(c.params.tseg_1, 15);
        assert_eq!(c.params.tseg_2, 4);
        assert_eq!(c.params.sjw, 3);
        assert!(!c.params.triple_sampling);
        assert!(!c.defaulted);
    }
}

#[test]
fn unsupported_rate_falls_back_to_500k() {
    for rate in [0u32, 125000, 999999, u32::MAX] {
        let c = timing_for_rate(rate);
        assert_eq!(c.params, timing_for_rate(500000).params);
        assert!(c.defaulted);
    }
}

#[test]
fn install_config_uses_fixed_queues_and_accept_all() {
    let d = config(250000).install_config();
    assert_eq!(d.general.mode, Mode::LoopBack);
    assert_eq!(d.general.tx_io, 21);
    assert_eq!(d.general.rx_io, 22);
    assert_eq!(d.general.clkout_io, -1);
    assert_eq!(d.general.bus_off_io, -1);
    assert_eq!(d.general.tx_queue_len, 5);
    assert_eq!(d.general.rx_queue_len, 5);
    assert_eq!(d.timing.params.brp, 16);
    assert_eq!(d.filter.acceptance_code, 0);
    assert_eq!(d.filter.acceptance_mask, 0xFFFF_FFFF);
    assert!(d.filter.single_filter);
    assert!(config(42).install_config().timing.defaulted);
}

#[test]
fn encode_zero_fills_the_tail() {
    let m = RawMessage { id: 0x123, contents: vec![1, 2, 3] };
    let f = Can::create_message(&m);
    assert_eq!(f.identifier, 0x123);
    assert!(!f.extended);
    assert_eq!(f.data_length_code, 3);
    assert_eq!(f.data, [1, 2, 3, 0, 0, 0, 0, 0]);
}

#[test]
fn decode_of_encode_gives_message_back() {
    for len in 0..=8usize {
        let contents: Vec<u8> = (0..len).map(|i| (i as u8) * 17 + 1).collect();
        let m = RawMessage { id: 0x1FFF_FFFF - len as u32, contents: contents.clone() };
        let back = Can::create_message(&m).into_can_message().unwrap();
        assert_eq!(back.id, m.id);
        assert_eq!(back.contents, contents);
    }
}

#[test]
fn decode_truncates_to_length_code() {
    let f = Frame { identifier: 7, extended: false, data_length_code: 2, data: [9, 8, 7, 6, 5, 4, 3, 2] };
    let m = f.decode().unwrap();
    assert_eq!(m.id, 7);
    assert_eq!(m.contents, vec![9, 8]);
}

#[test]
fn decode_rejects_length_over_eight() {
    let f = Frame { identifier: 7, extended: false, data_length_code: 9, data: [0; 8] };
    assert_eq!(f.decode().unwrap_err(), DecodeError::Length);
}

#[test]
fn status_default_is_zero_and_not_running() {
    let i = CanInfo::default();
    assert_eq!(i.state, 0);
    assert_eq!(i.msgs_to_rx, 0);
    assert_eq!(i.bus_error_count, 0);
    assert!(i.tx_deviates());
    assert!(i.rx_deviates());
}

#[test]
fn non_blocking_receive_skips_empty_queue() {
    let mut i = CanInfo::default();
    i.state = 1;
    assert!(!i.rx_pending());
    i.msgs_to_rx = 1;
    assert!(i.rx_pending());
}

#[test]
fn diagnostics_only_on_deviation() {
    let mut i = CanInfo::default();
    i.state = 1;
    i.msgs_to_rx = 100;
    assert!(!i.tx_deviates());
    assert!(!i.rx_deviates());
    i.msgs_to_rx = 101;
    assert!(i.rx_deviates());
    i.msgs_to_rx = 0;
    i.tx_failed_count = 1;
    assert!(i.tx_deviates());
    assert!(!i.rx_deviates());
    i.tx_failed_count = 0;
    i.rx_missed_count = 3;
    assert!(i.rx_deviates());
    assert!(!i.tx_deviates());
}

fn report(p: SubsystemState, d: SubsystemState, t: SubsystemState) -> BoardStatus {
    BoardStatus { powertrain: p, dashboard: d, telemetry: t }
}

#[test]
fn counter_steps_by_one_on_error_only() {
    let mut ec = ErrorCounters::new();
    ec.increase_counters(&report(SubsystemState::Error, SubsystemState::Running, SubsystemState::Waiting));
    assert_eq!(ec.counter(Subsystem::Powertrain), 1);
    assert_eq!(ec.counter(Subsystem::Dashboard), 0);
    assert_eq!(ec.counter(Subsystem::Telemetry), 0);
    ec.increase_counters(&report(SubsystemState::Recovering, SubsystemState::Unknown, SubsystemState::Error));
    assert_eq!(ec.counter(Subsystem::Powertrain), 1);
    assert_eq!(ec.counter(Subsystem::Telemetry), 1);
}

#[test]
fn counter_saturates_at_cap() {
    let mut ec = ErrorCounters::new();
    let all_error = report(SubsystemState::Error, SubsystemState::Error, SubsystemState::Error);
    for n in 1..=127u32 {
        ec.increase_counters(&all_error);
        assert_eq!(ec.powertrain_ec, n);
        assert!(!ec.is_critical(Subsystem::Powertrain));
    }
    for _ in 0..200 {
        ec.increase_counters(&all_error);
        assert_eq!(ec.powertrain_ec, 128);
        assert_eq!(ec.dashboard_ec, 128);
        assert_eq!(ec.telemetry_ec, 128);
    }
    assert!(ec.is_critical(Subsystem::Dashboard));
}

#[test]
fn dashboard_errors_leave_other_counters() {
    let mut ec = ErrorCounters::new();
    for _ in 0..50 {
        ec.increase_counters(&report(SubsystemState::Running, SubsystemState::Error, SubsystemState::Running));
    }
    assert_eq!(ec.dashboard_ec, 50);
    assert_eq!(ec.powertrain_ec, 0);
    assert_eq!(ec.telemetry_ec, 0);
}

#[test]
fn state_codes() {
    assert_eq!(SubsystemState::from_code(0), Some(SubsystemState::Unknown));
    assert_eq!(SubsystemState::from_code(2), Some(SubsystemState::Error));
    assert_eq!(SubsystemState::from_code(4), Some(SubsystemState::Waiting));
    assert_eq!(SubsystemState::from_code(5), None);
}

fn value(p: &canbus_supervisor::conversions::Percentage) -> f64 {
    p.num() as f64 / p.den() as f64
}

#[test]
fn percentage_endpoints() {
    assert_eq!(value(&1000u16.into_percentage(1000, 3000, 5).unwrap()), 0.0);
    assert_eq!(value(&3000u16.into_percentage(1000, 3000, 5).unwrap()), 100.0);
    assert_eq!(value(&2000u16.into_percentage(1000, 3000, 5).unwrap()), 50.0);
}

#[test]
fn percentage_out_of_tolerance_is_error() {
    assert_eq!(800u16.into_percentage(1000, 3000, 5).unwrap_err(), RangeError::Below);
    assert_eq!(3200u16.into_percentage(1000, 3000, 5).unwrap_err(), RangeError::Above);
    assert_eq!(5u16.into_percentage(7, 7, 5).unwrap_err(), RangeError::EmptyBand);
}

#[test]
fn percentage_within_tolerance_is_clamped() {
    assert_eq!(value(&950u16.into_percentage(1000, 3000, 5).unwrap()), 0.0);
    assert_eq!(value(&3050u16.into_percentage(1000, 3000, 5).unwrap()), 100.0);
}

#[test]
fn percentage_of_inverted_band() {
    assert_eq!(value(&3000u16.into_percentage(3000, 1000, 5).unwrap()), 0.0);
    assert_eq!(value(&1500u16.into_percentage(3000, 1000, 5).unwrap()), 75.0);
}

#[test]
fn erpm_of_percentage() {
    assert_eq!(1300u16.into_percentage(1000, 3000, 5).unwrap().into_erpm(), 0);
    assert_eq!(1400u16.into_percentage(1000, 3000, 5).unwrap().into_erpm(), 40);
    assert_eq!(2000u16.into_percentage(1000, 3000, 5).unwrap().into_erpm(), 100);
    assert_eq!(3000u16.into_percentage(1000, 3000, 5).unwrap().into_erpm(), 200);
}

#[test]
fn timer_settings_encoding() {
    let t = Timer {
        alarm_en: Alarms::Enabled,
        counter_en: Counter::Disabled,
        counter_dir: CounterDirection::Up,
        auto_reload: AutoReload::Enabled,
        divider: 80,
        clk_src: ClockSource::APB,
    };
    let r = Timer::init(Groups::Group1, Timers::Timer0, t);
    assert_eq!((r.group, r.timer), (1, 0));
    assert_eq!(r.config.alarm_en, 1);
    assert_eq!(r.config.counter_en, 0);
    assert_eq!(r.config.counter_dir, 1);
    assert_eq!(r.config.auto_reload, 1);
    assert_eq!(r.config.divider, 80);
    assert_eq!(r.config.clk_src, 0);
    assert_eq!(set_group(Groups::Group0), 0);
    assert_eq!(set_timer(Timers::Timer1), 1);
}

#[test]
fn triggered_only_on_taken_notification() {
    assert!(Timer::has_triggered(1));
    assert!(!Timer::has_triggered(0));
}

#[test]
fn board_config_is_standard_1mbit() {
    let c = Can::board_config(5, 4);
    assert_eq!((c.tx, c.rx), (5, 4));
    assert_eq!(c.id_length, IdLen::Standard);
    assert_eq!(c.mode, Mode::Normal);
    assert_eq!(c.filter, Filter::AcceptAll);
    assert_eq!(c.install_config().timing.params.brp, 4);
}
