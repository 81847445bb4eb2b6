use nvml_wrapper::Nvml;
use rkhtop::error::AppError;
use rkhtop::metrics::cpu::CpuMetrics;
use rkhtop::metrics::gpu::{GpuMetrics, GpuSample};
use rkhtop::metrics::memory::MemoryMetrics;
use rkhtop::metrics::metrics::{SystemMetrics, SystemProbe, SystemReadings};
use rkhtop::metrics::network::{InterfaceCounters, NetworkMetrics, DEBOUNCE_NANOS};
use rkhtop::metrics::ratio::Ratio;
use sysinfo::System;

const MS: u64 = 1_000_000;

fn percent(r: Ratio) -> f64 {
    r.num as f64 / r.den as f64
}

fn from_float(x: f32) -> Ratio {
    Ratio { num: (x as f64 * 1_000_000.0) as u128, den: 1_000_000 }
}

fn system_message(e: AppError) -> String {
    match e {
        AppError::System(m) => m,
        other => panic!("not a system error: {:?}", other),
    }
}

fn counters(name: &str, received: u64, transmitted: u64) -> InterfaceCounters {
    InterfaceCounters { name: name.to_string(), received, transmitted }
}

fn nvml_device_name() -> Result<String, String> {
    let nvml = Nvml::init().map_err(|e| e.to_string())?;
    let device = nvml.device_by_index(0).map_err(|e| e.to_string())?;
    device.name().map_err(|e| e.to_string())
}

fn nvml_sample() -> Result<GpuSample, String> {
    let nvml = Nvml::init().map_err(|e| e.to_string())?;
    let device = nvml.device_by_index(0).map_err(|e| e.to_string())?;
    let utilization = device.utilization_rates().map_err(|e| e.to_string())?.gpu;
    let memory = device.memory_info().map_err(|e| e.to_string())?;
    Ok(GpuSample { utilization, memory_used: memory.used, memory_total: memory.total })
}

#[test]
fn test_cpu_metrics() {
    let mut system = System::new_all();
    system.refresh_cpu_all();
    let name = system.cpus().first().map(|cpu| cpu.brand().to_string());
    let mut cpu = CpuMetrics::new(name, from_float(system.global_cpu_usage()));
    system.refresh_cpu_all();
    assert!(cpu.update(from_float(system.global_cpu_usage())).is_ok());
    let usage = percent(cpu.usage_percent());
    assert!(usage >= 0.0 && usage <= 100.0);
    assert!(!cpu.usage_history().is_empty());
}

#[test]
fn test_gpu_metrics() {
    if let Ok(mut gpu) = GpuMetrics::new(nvml_device_name()) {
        assert!(gpu.update(nvml_sample()).is_ok());

        let usage = percent(gpu.usage_percent());
        let mem = percent(gpu.memory_percent());

        assert!(usage >= 0.0 && usage <= 100.0);
        assert!(mem >= 0.0 && mem <= 100.0);
        assert!(!gpu.usage_history().is_empty());
        assert!(!gpu.memory_history().is_empty());
    }
}

#[test]
fn test_memory_metrics() {
    let mut system = System::new_all();
    system.refresh_memory();
    let mut memory = MemoryMetrics::new(system.used_memory(), system.total_memory());
    system.refresh_memory();
    assert!(memory.update(system.used_memory(), system.total_memory()).is_ok());

    let used_percent = percent(memory.used_percent());
    let used_bytes = memory.used_bytes();

    assert!(used_percent >= 0.0 && used_percent <= 100.0);
    assert!(used_bytes <= memory.total_bytes);
    assert!(!memory.used_percent_history().is_empty());
    assert!(!memory.used_bytes_history().is_empty());
}

#[test]
fn test_network_metrics() {
    let mut network = NetworkMetrics::new(0);
    let seen = vec![counters("lo", 1_000, 2_000), counters("eth0", 0, 5)];
    assert!(network.update(150 * MS, &seen).is_ok());

    let interfaces = network.interface_names();
    assert!(!interfaces.is_empty());

    for iface in interfaces {
        let (rx_hist, tx_hist) = network.get_interface_stats(&iface).unwrap();
        assert!(percent(*rx_hist.current()) >= 0.0);
        assert!(percent(*tx_hist.current()) >= 0.0);
        assert!(!rx_hist.history().is_empty());
        assert!(!tx_hist.history().is_empty());
    }
}

#[test]
fn processor_collector_keeps_name_and_pushes_usage() {
    let mut cpu = CpuMetrics::new(Some("Cortex".to_string()), Ratio { num: 5, den: 1 });
    assert_eq!(cpu.name.as_deref(), Some("Cortex"));
    assert_eq!(cpu.usage_percent(), Ratio { num: 5, den: 1 });
    assert!(cpu.update(Ratio { num: 25, den: 2 }).is_ok());
    assert_eq!(cpu.usage_percent(), Ratio { num: 25, den: 2 });
    let all: Vec<Ratio> = cpu.usage_history().iter().copied().collect();
    assert_eq!(all, vec![Ratio { num: 5, den: 1 }, Ratio { num: 25, den: 2 }]);
    let unnamed = CpuMetrics::new(None, Ratio { num: 0, den: 1 });
    assert!(unnamed.name.is_none());
}

#[test]
fn memory_percent_is_used_over_total() {
    let mut memory = MemoryMetrics::new(1_000, 4_000);
    assert_eq!(memory.used_percent(), Ratio { num: 100_000, den: 4_000 });
    assert_eq!(percent(memory.used_percent()), 25.0);
    assert_eq!(memory.used_bytes(), 1_000);
    assert_eq!(memory.total_bytes, 4_000);
    assert!(memory.update(3_000, 8_000).is_ok());
    assert_eq!(memory.used_percent(), Ratio { num: 300_000, den: 8_000 });
    assert_eq!(memory.used_bytes(), 3_000);
    assert_eq!(memory.total_bytes, 8_000);
    let bytes: Vec<u64> = memory.used_bytes_history().iter().copied().collect();
    assert_eq!(bytes, vec![1_000, 3_000]);
    assert_eq!(memory.used_percent_history().len(), 2);
}

#[test]
fn memory_percent_does_not_overflow() {
    let memory = MemoryMetrics::new(u64::MAX, u64::MAX);
    assert_eq!(memory.used_percent().num, 100 * (u64::MAX as u128));
    assert_eq!(percent(memory.used_percent()), 100.0);
    let empty = MemoryMetrics::new(0, 0);
    assert_eq!(empty.used_percent(), Ratio { num: 0, den: 0 });
}

#[test]
fn rate_is_megabits_per_second() {
    let mut network = NetworkMetrics::new(1_000 * MS);
    assert!(network.update(2_000 * MS, &vec![counters("eth0", 1_000_000, 125_000)]).is_ok());
    let (rx, tx) = network.get_interface_stats("eth0").unwrap();
    assert_eq!(*rx.current(), Ratio { num: 8_000_000_000, den: 1_000_000_000 });
    assert_eq!(percent(*rx.current()), 8.0);
    assert_eq!(percent(*tx.current()), 1.0);
    assert_eq!(rx.history().len(), 2);
    assert_eq!(percent(*rx.history().front().unwrap()), 0.0);
}

#[test]
fn second_update_within_the_debounce_changes_nothing() {
    let mut network = NetworkMetrics::new(0);
    assert!(network.update(100 * MS, &vec![counters("eth0", 500, 700)]).is_ok());
    let before = {
        let (rx, tx) = network.get_interface_stats("eth0").unwrap();
        (*rx.current(), *tx.current(), rx.history().len(), tx.history().len())
    };
    assert!(network.update(100 * MS + 99 * MS, &vec![counters("eth0", 9, 9), counters("wlan0", 1, 1)]).is_ok());
    let after = {
        let (rx, tx) = network.get_interface_stats("eth0").unwrap();
        (*rx.current(), *tx.current(), rx.history().len(), tx.history().len())
    };
    assert_eq!(before, after);
    assert_eq!(network.interface_names(), vec!["eth0".to_string()]);
    assert!(network.update(200 * MS, &vec![counters("eth0", 9, 9)]).is_ok());
    let (rx, _) = network.get_interface_stats("eth0").unwrap();
    assert_eq!(*rx.current(), Ratio { num: 72_000, den: 100_000_000 });
}

#[test]
fn update_just_below_the_debounce_is_passed_over() {
    assert_eq!(DEBOUNCE_NANOS, 100_000_000);
    let mut network = NetworkMetrics::new(50);
    assert!(network.update(50 + DEBOUNCE_NANOS - 1, &vec![counters("eth0", 1, 1)]).is_ok());
    assert!(network.interface_names().is_empty());
    assert!(network.update(50 + DEBOUNCE_NANOS, &vec![counters("eth0", 1, 1)]).is_ok());
    assert_eq!(network.interface_names().len(), 1);
}

#[test]
fn bytes_over_enough_time_give_a_positive_rate() {
    let mut network = NetworkMetrics::new(0);
    assert!(network.update(u64::MAX, &vec![counters("eth0", 1, u64::MAX)]).is_ok());
    let (rx, tx) = network.get_interface_stats("eth0").unwrap();
    assert!(percent(*rx.current()) > 0.0);
    assert!(rx.current().num > 0 && rx.current().den > 0);
    assert_eq!(tx.current().num, 8000 * (u64::MAX as u128));
}

#[test]
fn a_clock_that_goes_back_counts_as_no_time() {
    let mut network = NetworkMetrics::new(500 * MS);
    assert!(network.update(100 * MS, &vec![counters("eth0", 1, 1)]).is_ok());
    assert!(network.interface_names().is_empty());
    assert!(network.update(600 * MS, &vec![counters("eth0", 1, 1)]).is_ok());
    assert_eq!(network.interface_names().len(), 1);
}

#[test]
fn interfaces_are_kept_in_the_order_first_seen() {
    let mut network = NetworkMetrics::new(0);
    let first = vec![counters("wlan0", 1, 1), counters("eth0", 2, 2)];
    assert!(network.update(200 * MS, &first).is_ok());
    let second = vec![counters("eth0", 3, 3), counters("lo", 4, 4), counters("wlan0", 5, 5)];
    assert!(network.update(400 * MS, &second).is_ok());
    assert_eq!(
        network.interface_names(),
        vec!["wlan0".to_string(), "eth0".to_string(), "lo".to_string()]
    );
    let (rx, _) = network.get_interface_stats("wlan0").unwrap();
    assert_eq!(rx.history().len(), 3);
    let (rx, _) = network.get_interface_stats("lo").unwrap();
    assert_eq!(rx.history().len(), 2);
    assert!(network.get_interface_stats("nope").is_none());
    assert!(network.get_interface_stats("").is_none());
}

#[test]
fn an_empty_interface_set_is_representable() {
    let mut network = NetworkMetrics::new(0);
    assert!(network.update(500 * MS, &vec![]).is_ok());
    assert!(network.interface_names().is_empty());
}

#[test]
fn graphics_collector_is_absent_without_a_device() {
    let e = GpuMetrics::new(Err("driver library not found".to_string())).err().unwrap();
    assert_eq!(system_message(e), "driver library not found");
}

#[test]
fn graphics_collector_derives_the_memory_share() {
    let mut gpu = GpuMetrics::new(Ok("Board".to_string())).ok().unwrap();
    assert_eq!(gpu.name.as_deref(), Some("Board"));
    assert_eq!(gpu.usage_percent(), Ratio { num: 0, den: 1 });
    let sample = GpuSample { utilization: 64, memory_used: 2_000, memory_total: 8_000 };
    assert!(gpu.update(Ok(sample)).is_ok());
    assert_eq!(gpu.usage_percent(), Ratio { num: 64, den: 1 });
    assert_eq!(gpu.memory_percent(), Ratio { num: 200_000, den: 8_000 });
    assert_eq!(percent(gpu.memory_percent()), 25.0);
    let e = gpu.update(Err("lost".to_string())).unwrap_err();
    assert_eq!(system_message(e), "lost");
    assert_eq!(gpu.usage_history().len(), 2);
    assert_eq!(gpu.memory_history().len(), 2);
}

fn generic_probe(gpu: Result<String, String>) -> SystemProbe {
    SystemProbe {
        cpu_name: Some("Cortex".to_string()),
        cpu_usage: Ratio { num: 1, den: 1 },
        memory_used: 10,
        memory_total: 40,
        now: 0,
        gpu,
    }
}

fn generic_readings(now: u64, gpu: Result<GpuSample, String>) -> SystemReadings {
    SystemReadings {
        cpu_usage: Ratio { num: 50, den: 1 },
        memory_used: 20,
        memory_total: 40,
        now,
        interfaces: vec![counters("eth0", 125, 250)],
        gpu,
    }
}

#[test]
fn generic_aggregate_updates_without_graphics() {
    let mut system = SystemMetrics::new(generic_probe(Err("none".to_string())));
    assert!(system.gpu().is_none());
    assert!(system.update(generic_readings(1_000 * MS, Err("none".to_string()))).is_ok());
    assert_eq!(system.cpu().usage_percent(), Ratio { num: 50, den: 1 });
    assert_eq!(system.memory().used_bytes(), 20);
    assert_eq!(system.network().interface_names(), vec!["eth0".to_string()]);
    assert_eq!(system.cpu().name.as_deref(), Some("Cortex"));
}

#[test]
fn generic_aggregate_returns_the_graphics_failure_after_the_rest() {
    let mut system = SystemMetrics::new(generic_probe(Ok("Board".to_string())));
    assert!(system.gpu().is_some());
    let e = system.update(generic_readings(1_000 * MS, Err("lost".to_string()))).unwrap_err();
    assert_eq!(system_message(e), "lost");
    assert_eq!(system.cpu().usage_percent(), Ratio { num: 50, den: 1 });
    assert_eq!(system.memory().used_percent(), Ratio { num: 2_000, den: 40 });
    let (rx, _) = system.network().get_interface_stats("eth0").unwrap();
    assert_eq!(percent(*rx.current()), 0.001);
    let sample = GpuSample { utilization: 3, memory_used: 1, memory_total: 2 };
    assert!(system.update(generic_readings(2_000 * MS, Ok(sample))).is_ok());
    assert_eq!(system.gpu().unwrap().usage_percent(), Ratio { num: 3, den: 1 });
}
