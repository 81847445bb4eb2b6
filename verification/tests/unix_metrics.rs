use rkhtop::error::AppError;
use rkhtop::metrics::device_path::{DeviceProbe, DirEntryInfo};
use rkhtop::metrics::ratio::Ratio;
use rkhtop::metrics::source::SourceRead;
use rkhtop::metrics::unix_cpu::UnixCpuMetrics;
use rkhtop::metrics::unix_gpu::UnixGpuMetrics;
use rkhtop::metrics::unix_metrics::{UnixProbe, UnixReadings, UnixSystemMetrics};
use rkhtop::metrics::unix_rga::UnixRgaMetrics;

const STAT: &str = "cpu  100 10 50 200 20 5 15 0 0 0\ncpu0 100 10 50 200 20 5 15 0 0 0\n";
const STAT_LATER: &str = "cpu  150 15 75 250 25 8 20 0 0 0\ncpu0 150 15 75 250 25 8 20 0 0 0\n";

fn content(s: &str) -> SourceRead {
    SourceRead::Content(s.to_string())
}

fn system_message(e: AppError) -> String {
    match e {
        AppError::System(m) => m,
        other => panic!("not a system error: {:?}", other),
    }
}

fn nothing() -> DeviceProbe {
    DeviceProbe { present: vec![false, false, false], entries: vec![] }
}

fn host() -> UnixProbe {
    UnixProbe { stat: content(STAT), gpu: nothing(), npu: nothing() }
}

fn readings(stat: &str) -> UnixReadings {
    UnixReadings {
        stat: content(stat),
        core_freqs: vec![SourceRead::Absent],
        gpu_load: SourceRead::Absent,
        gpu_freq: SourceRead::Absent,
        npu_load: SourceRead::Absent,
        npu_report: SourceRead::Absent,
        npu_freq: SourceRead::Absent,
        rga_load: SourceRead::Absent,
        rga_clocks: SourceRead::Absent,
    }
}

#[test]
fn test_unix_metrics_creation() {
    let metrics = UnixSystemMetrics::new(&host());
    // At least CPU should be available on Unix systems
    assert!(metrics.has_cpu());
}

#[test]
fn test_unix_metrics_with_custom_paths() {
    let metrics = UnixSystemMetrics::with_paths(
        &content(STAT),
        Some("/sys/class/devfreq/test.gpu".to_string()),
        Some("/sys/class/devfreq/test.npu".to_string()),
    );

    assert!(metrics.has_cpu());
    assert!(metrics.has_gpu());
    assert!(metrics.has_npu());
    assert!(metrics.has_rga());
}

#[test]
fn test_available_metrics() {
    let metrics = UnixSystemMetrics::new(&host());
    let available = metrics.available_metrics();
    assert!(!available.is_empty());
    assert!(available.contains(&"CPU"));
}

#[test]
fn probing_decides_which_collectors_there_are() {
    let metrics = UnixSystemMetrics::new(&host());
    assert_eq!(metrics.available_metrics(), vec!["CPU", "RGA"]);
    assert!(metrics.gpu().is_none());
    assert!(metrics.npu().is_none());
    assert!(metrics.rga().is_some());
    assert_eq!(metrics.cpu().unwrap().cpu_count(), 1);

    let gpu_dir = DirEntryInfo {
        name: "fde60000.gpu".to_string(),
        path: "/sys/class/devfreq/fde60000.gpu".to_string(),
        is_dir: true,
    };
    let probe = UnixProbe {
        stat: SourceRead::Failed("denied".to_string()),
        gpu: DeviceProbe { present: vec![], entries: vec![gpu_dir] },
        npu: DeviceProbe { present: vec![false, false, true], entries: vec![] },
    };
    let metrics = UnixSystemMetrics::new(&probe);
    assert_eq!(metrics.available_metrics(), vec!["GPU", "NPU", "RGA"]);
    assert!(!metrics.has_cpu());
    assert_eq!(metrics.gpu().unwrap().gpu_path(), "/sys/class/devfreq/fde60000.gpu");
    assert_eq!(metrics.npu().unwrap().npu_path(), "/sys/class/devfreq/npu");
}

#[test]
fn a_malformed_counter_file_leaves_the_processor_out() {
    let mut probe = host();
    probe.stat = content("cpu 1 2 3\n");
    let metrics = UnixSystemMetrics::new(&probe);
    assert_eq!(metrics.available_metrics(), vec!["RGA"]);
}

#[test]
fn custom_paths_leave_out_what_is_not_given() {
    let metrics = UnixSystemMetrics::with_paths(&SourceRead::Absent, None, Some("/n".to_string()));
    assert_eq!(metrics.available_metrics(), vec!["NPU", "RGA"]);
    assert_eq!(metrics.npu().unwrap().npu_path(), "/n");
}

#[test]
fn processor_alone_updates_and_is_the_only_capability() {
    let cpu = UnixCpuMetrics::new(&content(STAT)).unwrap();
    let mut metrics = UnixSystemMetrics::from_collectors(Some(cpu), None, None, None);
    assert_eq!(metrics.available_metrics(), vec!["CPU"]);
    assert!(metrics.update(&readings(STAT)).is_ok());
    assert!(metrics.update(&readings(STAT_LATER)).is_ok());
    assert_eq!(metrics.cpu().unwrap().usage_percent(), Ratio { num: 8800, den: 143 });
    assert_eq!(metrics.available_metrics(), vec!["CPU"]);
    assert!(metrics.has_cpu() && !metrics.has_gpu() && !metrics.has_npu() && !metrics.has_rga());
}

#[test]
fn unresolvable_devices_do_not_fail_the_update() {
    let mut metrics = UnixSystemMetrics::new(&host());
    assert!(metrics.update(&readings(STAT)).is_ok());
    assert!(metrics.update(&readings(STAT_LATER)).is_ok());
    assert_eq!(metrics.cpu().unwrap().usage_history().len(), 2);
    assert_eq!(metrics.available_metrics(), vec!["CPU", "RGA"]);
}

#[test]
fn an_aggregate_without_any_collector_updates() {
    let mut metrics = UnixSystemMetrics::from_collectors(None, None, None, None);
    let mut r = readings("garbage");
    r.gpu_load = SourceRead::Failed("x".to_string());
    r.rga_load = SourceRead::Failed("y".to_string());
    assert!(metrics.update(&r).is_ok());
    assert_eq!(metrics.available_metrics(), Vec::<&str>::new());
}

#[test]
fn every_collector_updates_though_another_fails() {
    let mut metrics = UnixSystemMetrics::with_paths(
        &content(STAT),
        Some("/g".to_string()),
        Some("/n".to_string()),
    );
    assert!(metrics.update(&readings(STAT)).is_ok());
    let r = UnixReadings {
        stat: content("cpu broken\n"),
        core_freqs: vec![content("1200000")],
        gpu_load: content("20@400000000Hz"),
        gpu_freq: content("oops"),
        npu_load: SourceRead::Absent,
        npu_report: content("NPU load:  Core0: 30%,"),
        npu_freq: content("900000000"),
        rga_load: content("load = 40%"),
        rga_clocks: content("clk_rga 500000000"),
    };
    let e = metrics.update(&r).unwrap_err();
    assert_eq!(system_message(e), "Invalid CPU line format in /proc/stat");
    assert_eq!(metrics.cpu().unwrap().frequency_mhz(0), Some(1200));
    assert_eq!(metrics.cpu().unwrap().usage_history().len(), 1);
    assert_eq!(metrics.gpu().unwrap().usage_percent(), Ratio { num: 20, den: 1 });
    assert_eq!(metrics.gpu().unwrap().frequency_history().len(), 1);
    assert_eq!(metrics.npu().unwrap().usage_percent(), Ratio { num: 30, den: 1 });
    assert_eq!(metrics.npu().unwrap().frequency_mhz(), 900);
    assert_eq!(metrics.rga().unwrap().usage_percent(), Ratio { num: 40, den: 1 });
    assert_eq!(metrics.rga().unwrap().frequency_mhz(), 500);
    assert_eq!(metrics.available_metrics(), vec!["CPU", "GPU", "NPU", "RGA"]);

    let mut r = readings(STAT_LATER);
    r.gpu_freq = content("oops");
    r.rga_clocks = SourceRead::Failed("sudo".to_string());
    let e = metrics.update(&r).unwrap_err();
    assert_eq!(system_message(e), "Failed to parse frequency from /g/cur_freq: invalid digit found in string");
    assert_eq!(metrics.cpu().unwrap().usage_percent(), Ratio { num: 8800, den: 143 });
}

#[test]
fn collectors_can_be_put_together_by_hand() {
    let gpu = UnixGpuMetrics::with_path("/g".to_string());
    let rga = UnixRgaMetrics::new();
    let metrics = UnixSystemMetrics::from_collectors(None, Some(gpu), None, Some(rga));
    assert_eq!(metrics.available_metrics(), vec!["GPU", "RGA"]);
    assert!(metrics.cpu().is_none());
}
