use rkhtop::application::{key_repeats, App, KEY_DEBOUNCE_NANOS};
use rkhtop::config::Config;
use rkhtop::metrics::metrics::{SystemMetrics, SystemProbe, SystemReadings};
use rkhtop::metrics::network::InterfaceCounters;
use rkhtop::metrics::ratio::Ratio;
use rkhtop::metrics::source::SourceRead;
use rkhtop::metrics::unix_metrics::{UnixReadings, UnixSystemMetrics};
use rkhtop::ui::{Key, KeyOutcome, Panel, PlatformSources, Ui, UiMode};

const MS: u64 = 1_000_000;
const STAT: &str = "cpu  100 10 50 200 20 5 15 0 0 0\ncpu0 100 10 50 200 20 5 15 0 0 0\n";

fn no_change() -> KeyOutcome {
    KeyOutcome { quit: false, config_changed: false }
}

fn changed() -> KeyOutcome {
    KeyOutcome { quit: false, config_changed: true }
}

fn menu() -> Ui {
    let mut ui = Ui::new();
    assert_eq!(ui.handle_key(Key::Char('o'), true, 2), no_change());
    assert_eq!(ui.mode, UiMode::OptionsMenu);
    ui
}

fn system(now: u64) -> SystemMetrics {
    SystemMetrics::new(SystemProbe {
        cpu_name: None,
        cpu_usage: Ratio { num: 0, den: 1 },
        memory_used: 1,
        memory_total: 2,
        now,
        gpu: Err("none".to_string()),
    })
}

fn system_readings(now: u64, names: &[&str]) -> SystemReadings {
    SystemReadings {
        cpu_usage: Ratio { num: 10, den: 1 },
        memory_used: 1,
        memory_total: 2,
        now,
        interfaces: names
            .iter()
            .map(|n| InterfaceCounters { name: n.to_string(), received: 1, transmitted: 1 })
            .collect(),
        gpu: Err("none".to_string()),
    }
}

fn unix_readings() -> UnixReadings {
    UnixReadings {
        stat: SourceRead::Content(STAT.to_string()),
        core_freqs: vec![],
        gpu_load: SourceRead::Absent,
        gpu_freq: SourceRead::Absent,
        npu_load: SourceRead::Absent,
        npu_report: SourceRead::Absent,
        npu_freq: SourceRead::Absent,
        rga_load: SourceRead::Absent,
        rga_clocks: SourceRead::Absent,
    }
}

fn platform() -> UnixSystemMetrics {
    UnixSystemMetrics::with_paths(
        &SourceRead::Content(STAT.to_string()),
        None,
        Some("/n".to_string()),
    )
}

#[test]
fn screen_starts_with_the_charts() {
    let ui = Ui::new();
    assert_eq!(ui.mode, UiMode::Normal);
    assert!(ui.show_cpu && ui.show_memory && ui.show_gpu && ui.show_network);
    assert!(!ui.show_npu && !ui.show_rga);
    assert_eq!(ui.selected_option, 0);
    assert_eq!(ui.selected_interface, 0);
    assert_eq!(ui.update_interval_presets, vec![500, 1000, 2000, 5000]);
    assert_eq!(ui.selected_update_interval_idx, 1);
}

#[test]
fn quit_keys_quit_only_from_the_charts() {
    for key in [Key::Char('q'), Key::Char('Q'), Key::Esc] {
        let mut ui = Ui::new();
        assert_eq!(ui.handle_key(key, false, 0), KeyOutcome { quit: true, config_changed: false });
        assert_eq!(ui.mode, UiMode::Normal);
    }
    let mut ui = menu();
    assert_eq!(ui.handle_key(Key::Char('q'), false, 0), no_change());
    assert_eq!(ui.mode, UiMode::OptionsMenu);
    assert_eq!(ui.handle_key(Key::Esc, false, 0), no_change());
    assert_eq!(ui.mode, UiMode::Normal);
}

#[test]
fn options_menu_opens_and_closes() {
    let mut ui = Ui::new();
    ui.handle_key(Key::Char('O'), false, 0);
    assert_eq!(ui.mode, UiMode::OptionsMenu);
    ui.handle_key(Key::Char('O'), false, 0);
    assert_eq!(ui.mode, UiMode::OptionsMenu);
    ui.handle_key(Key::Char('o'), false, 0);
    assert_eq!(ui.mode, UiMode::Normal);
    assert_eq!(ui.handle_key(Key::Enter, false, 0), no_change());
    assert_eq!(ui.handle_key(Key::Tab, false, 3), no_change());
    assert_eq!(ui.handle_key(Key::Other, false, 3), no_change());
    assert!(ui.show_cpu);
}

#[test]
fn cursor_stops_at_both_ends() {
    let mut ui = menu();
    ui.handle_key(Key::Up, false, 0);
    assert_eq!(ui.selected_option, 0);
    for _ in 0..10 {
        assert_eq!(ui.handle_key(Key::Down, false, 0), no_change());
    }
    assert_eq!(ui.selected_option, 4);
    for _ in 0..10 {
        ui.handle_key(Key::Down, true, 0);
    }
    assert_eq!(ui.selected_option, 6);
    ui.handle_key(Key::Up, true, 0);
    assert_eq!(ui.selected_option, 5);
}

#[test]
fn interval_goes_round_both_ways() {
    let mut ui = menu();
    assert_eq!(ui.handle_key(Key::Enter, false, 0), changed());
    assert_eq!(ui.selected_update_interval_idx, 2);
    ui.handle_key(Key::Right, false, 0);
    assert_eq!(ui.selected_update_interval_idx, 3);
    ui.handle_key(Key::Right, false, 0);
    assert_eq!(ui.selected_update_interval_idx, 0);
    assert_eq!(ui.handle_key(Key::Left, false, 0), changed());
    assert_eq!(ui.selected_update_interval_idx, 3);
    ui.handle_key(Key::Left, false, 0);
    assert_eq!(ui.selected_update_interval_idx, 2);
}

#[test]
fn interval_goes_round_from_any_place() {
    let mut ui = menu();
    ui.selected_update_interval_idx = 9;
    ui.handle_key(Key::Right, false, 0);
    assert_eq!(ui.selected_update_interval_idx, 2);
    ui.selected_update_interval_idx = usize::MAX;
    ui.handle_key(Key::Enter, false, 0);
    assert_eq!(ui.selected_update_interval_idx, 0);
    ui.selected_update_interval_idx = 9;
    ui.handle_key(Key::Left, false, 0);
    assert_eq!(ui.selected_update_interval_idx, 8);
}

#[test]
fn toggles_follow_the_cursor() {
    let mut ui = menu();
    ui.handle_key(Key::Down, true, 0);
    assert_eq!(ui.handle_key(Key::Enter, true, 0), changed());
    assert!(!ui.show_cpu);
    ui.handle_key(Key::Down, true, 0);
    ui.handle_key(Key::Left, true, 0);
    assert!(!ui.show_memory);
    ui.handle_key(Key::Down, true, 0);
    ui.handle_key(Key::Right, true, 0);
    assert!(!ui.show_gpu);
    ui.handle_key(Key::Down, true, 0);
    ui.handle_key(Key::Enter, true, 0);
    assert!(!ui.show_network);
    ui.handle_key(Key::Down, true, 0);
    ui.handle_key(Key::Enter, true, 0);
    assert!(ui.show_npu);
    ui.handle_key(Key::Down, true, 0);
    ui.handle_key(Key::Enter, true, 0);
    assert!(ui.show_rga);
    ui.handle_key(Key::Enter, true, 0);
    assert!(!ui.show_rga);
    assert_eq!(ui.selected_update_interval_idx, 1);
}

#[test]
fn platform_lines_do_nothing_without_platform_metrics() {
    let mut ui = menu();
    ui.selected_option = 5;
    assert_eq!(ui.handle_key(Key::Enter, false, 0), changed());
    assert!(!ui.show_npu);
    ui.selected_option = 6;
    assert_eq!(ui.handle_key(Key::Enter, false, 0), changed());
    assert!(!ui.show_rga);
    ui.selected_option = 40;
    assert_eq!(ui.handle_key(Key::Enter, true, 0), changed());
    ui.handle_key(Key::Down, true, 0);
    assert_eq!(ui.selected_option, 40);
}

#[test]
fn tab_goes_round_the_interfaces() {
    let mut ui = menu();
    assert_eq!(ui.handle_key(Key::Tab, false, 3), changed());
    assert_eq!(ui.selected_interface, 1);
    ui.handle_key(Key::Tab, false, 3);
    ui.handle_key(Key::Tab, false, 3);
    assert_eq!(ui.selected_interface, 0);
    assert_eq!(ui.handle_key(Key::Tab, false, 0), no_change());
    ui.selected_interface = 7;
    ui.handle_key(Key::Tab, false, 3);
    assert_eq!(ui.selected_interface, 2);
    ui.selected_interface = usize::MAX;
    ui.handle_key(Key::Tab, false, 1);
    assert_eq!(ui.selected_interface, 0);
    ui.show_network = false;
    assert_eq!(ui.handle_key(Key::Tab, false, 3), no_change());
    assert_eq!(ui.selected_interface, 0);
}

#[test]
fn platform_source_is_preferred_then_generic_then_none() {
    let ui = Ui::new();
    assert_eq!(ui.enabled_panels(None, false), vec![Panel::Cpu, Panel::Memory, Panel::Network]);
    assert_eq!(
        ui.enabled_panels(None, true),
        vec![Panel::Cpu, Panel::Gpu, Panel::Memory, Panel::Network]
    );
    let all = PlatformSources { cpu: true, gpu: true, npu: true, rga: true };
    assert_eq!(
        ui.enabled_panels(Some(all), true),
        vec![Panel::UnixCpu, Panel::UnixGpu, Panel::Memory, Panel::Network]
    );
    let none = PlatformSources { cpu: false, gpu: false, npu: false, rga: false };
    assert_eq!(
        ui.enabled_panels(Some(none), true),
        vec![Panel::Cpu, Panel::Gpu, Panel::Memory, Panel::Network]
    );
    assert_eq!(
        ui.enabled_panels(Some(none), false),
        vec![Panel::Cpu, Panel::Memory, Panel::Network]
    );
}

#[test]
fn platform_families_are_drawn_when_shown_and_there() {
    let mut ui = Ui::new();
    ui.show_npu = true;
    ui.show_rga = true;
    ui.show_memory = false;
    let some = PlatformSources { cpu: true, gpu: false, npu: true, rga: false };
    assert_eq!(
        ui.enabled_panels(Some(some), false),
        vec![Panel::UnixCpu, Panel::Npu, Panel::Network]
    );
    let all = PlatformSources { cpu: true, gpu: true, npu: true, rga: true };
    assert_eq!(
        ui.enabled_panels(Some(all), false),
        vec![Panel::UnixCpu, Panel::UnixGpu, Panel::Npu, Panel::Rga, Panel::Network]
    );
    assert_eq!(ui.enabled_panels(None, false), vec![Panel::Cpu, Panel::Network]);
    ui.show_cpu = false;
    ui.show_gpu = false;
    ui.show_network = false;
    ui.show_npu = false;
    ui.show_rga = false;
    assert_eq!(ui.enabled_panels(Some(all), true), Vec::<Panel>::new());
}

#[test]
fn drawn_interface_never_lies_beyond_the_interfaces() {
    let mut ui = Ui::new();
    assert_eq!(ui.interface_to_draw(0), None);
    assert_eq!(ui.interface_to_draw(3), Some(0));
    ui.selected_interface = 2;
    assert_eq!(ui.interface_to_draw(3), Some(2));
    assert_eq!(ui.interface_to_draw(2), Some(1));
    assert_eq!(ui.interface_to_draw(1), Some(0));
}

#[test]
fn same_key_again_is_a_repeat_only_within_the_delay() {
    assert_eq!(KEY_DEBOUNCE_NANOS, 200 * MS);
    assert!(key_repeats(Some(Key::Up), 1_000, Key::Up, 1_000 + 200 * MS - 1));
    assert!(!key_repeats(Some(Key::Up), 1_000, Key::Up, 1_000 + 200 * MS));
    assert!(!key_repeats(Some(Key::Up), 1_000, Key::Down, 1_001));
    assert!(!key_repeats(None, 1_000, Key::Up, 1_001));
    assert!(key_repeats(Some(Key::Char('q')), 5_000, Key::Char('q'), 4_000));
    assert!(!key_repeats(Some(Key::Char('q')), 5_000, Key::Char('Q'), 5_000));
}

#[test]
fn dashboard_starts_from_its_settings() {
    let config = Config {
        refresh_rate: 2000,
        show_cpu: false,
        show_memory: true,
        show_gpu: false,
        show_network: true,
        selected_network_interface: Some("eth0".to_string()),
    };
    let app = App::new_with_metrics(config, system(0), Some(platform()), 0).ok().unwrap();
    assert!(!app.ui().show_cpu && app.ui().show_memory);
    assert!(!app.ui().show_gpu && app.ui().show_network);
    assert!(app.ui().show_npu && app.ui().show_rga);
    assert_eq!(app.ui().selected_update_interval_idx, 2);
    assert_eq!(app.ui().selected_interface, 0);
    assert!(app.is_using_unix_metrics());
    assert_eq!(app.available_metrics(), vec!["CPU", "NPU", "RGA"]);
    assert!(!app.should_quit());
    assert_eq!(app.config().refresh_rate, 2000);

    let mut odd = Config::default();
    odd.refresh_rate = 750;
    let app = App::new(odd, system(0), 0).ok().unwrap();
    assert_eq!(app.ui().selected_update_interval_idx, 1);
    assert!(!app.ui().show_npu && !app.ui().show_rga);
    assert!(!app.is_using_unix_metrics());
    assert!(app.unix_metrics().is_none());
    assert_eq!(app.available_metrics(), vec!["CPU", "Memory", "Network", "GPU"]);
}

#[test]
fn repeated_key_is_passed_over() {
    let mut app = App::new(Config::default(), system(0), 0).ok().unwrap();
    assert!(!app.handle_event(Key::Char('o'), 1_000 * MS));
    assert_eq!(app.ui().mode, UiMode::OptionsMenu);
    assert!(!app.handle_event(Key::Char('o'), 1_100 * MS));
    assert_eq!(app.ui().mode, UiMode::OptionsMenu);
    assert!(!app.handle_event(Key::Char('o'), 1_200 * MS));
    assert_eq!(app.ui().mode, UiMode::Normal);
    assert!(!app.handle_event(Key::Char('q'), 1_201 * MS));
    assert!(app.should_quit());
}

#[test]
fn changed_settings_are_written_to_the_config() {
    let mut app = App::new(Config::default(), system(0), 0).ok().unwrap();
    assert!(app.update(1_000 * MS, system_readings(1_000 * MS, &["eth0", "wlan0"]), &unix_readings()).is_ok());
    assert!(!app.handle_event(Key::Char('o'), 2_000 * MS));
    assert!(app.handle_event(Key::Enter, 2_001 * MS));
    assert_eq!(app.config().refresh_rate, 2000);
    assert_eq!(app.config().selected_network_interface.as_deref(), Some("eth0"));
    assert!(app.handle_event(Key::Tab, 2_002 * MS));
    assert_eq!(app.config().selected_network_interface.as_deref(), Some("wlan0"));
    assert!(!app.handle_event(Key::Down, 2_003 * MS));
    assert!(app.handle_event(Key::Enter, 2_004 * MS));
    assert!(!app.config().show_cpu);
    assert!(app.config().show_memory);
    assert!(!app.should_quit());
}

#[test]
fn config_names_no_interface_when_there_is_none() {
    let mut app = App::new(Config::default(), system(0), 0).ok().unwrap();
    app.handle_event(Key::Char('o'), 1_000 * MS);
    assert!(app.handle_event(Key::Enter, 1_001 * MS));
    assert!(app.config().selected_network_interface.is_none());
    assert!(!app.handle_event(Key::Tab, 1_002 * MS));
}

#[test]
fn samples_are_taken_when_due() {
    let mut app = App::new_with_metrics(Config::default(), system(0), Some(platform()), 0).ok().unwrap();
    assert!(!app.is_due(999 * MS));
    assert!(app.is_due(1_000 * MS));
    assert!(app.update(999 * MS, system_readings(999 * MS, &["eth0"]), &unix_readings()).is_ok());
    assert_eq!(app.system().cpu().usage_history().len(), 1);
    assert!(!app.take_refreshed());
    assert!(app.update(1_000 * MS, system_readings(1_000 * MS, &["eth0"]), &unix_readings()).is_ok());
    assert_eq!(app.system().cpu().usage_history().len(), 2);
    assert_eq!(app.system().network().interface_names(), vec!["eth0".to_string()]);
    assert!(app.take_refreshed());
    assert!(!app.take_refreshed());
    assert!(!app.is_due(1_999 * MS));
    assert!(app.is_due(2_000 * MS));
    assert!(!app.is_due(0));
}

#[test]
fn a_failing_source_stops_no_sample() {
    let mut app = App::new_with_metrics(Config::default(), system(0), Some(platform()), 0).ok().unwrap();
    let mut bad = unix_readings();
    bad.npu_freq = SourceRead::Content("fast".to_string());
    bad.rga_load = SourceRead::Content("load = 30%".to_string());
    let e = app.update(1_000 * MS, system_readings(1_000 * MS, &[]), &bad).unwrap_err();
    assert_eq!(e.message(), "System error: Failed to parse frequency from /n/cur_freq: invalid digit found in string");
    assert_eq!(app.system().cpu().usage_percent(), Ratio { num: 10, den: 1 });
    let unix = app.unix_metrics().unwrap();
    assert_eq!(unix.rga().unwrap().usage_percent(), Ratio { num: 30, den: 1 });
    assert!(app.take_refreshed());
    assert!(!app.is_due(1_500 * MS));
}
