use rkhtop::error::AppError;
use rkhtop::metrics::ratio::Ratio;
use rkhtop::metrics::source::SourceRead;
use rkhtop::metrics::unix_rga::{
    parse_rga_load, UnixRgaMetrics, CLK_SUMMARY_PATH, RGA_LOAD_PATH,
};

fn content(s: &str) -> SourceRead {
    SourceRead::Content(s.to_string())
}

fn system_message(e: AppError) -> String {
    match e {
        AppError::System(m) => m,
        other => panic!("not a system error: {:?}", other),
    }
}

fn percent(r: Ratio) -> f64 {
    r.num as f64 / r.den as f64
}

const LOAD_REPORT: &str = "num of scheduler = 3\nscheduler[0]: rga3_core0\n\t load = 12%\nscheduler[1]: rga3_core1\n\t load = 40%\nscheduler[2]: rga2\n\t load = 0%\n";

#[test]
fn test_rga_metrics_creation() {
    let rga = UnixRgaMetrics::new();
    assert_eq!(percent(rga.usage_percent()), 0.0);
    assert_eq!(rga.frequency_mhz(), 0);
}

#[test]
fn test_extract_rga_frequency() {
    let test_content = "rga_clk    1000000000\nother_clk  500000000";
    let freq = UnixRgaMetrics::extract_rga_frequency(test_content);
    assert_eq!(freq, Some(1000)); // 1000000000 Hz = 1000 MHz
}

#[test]
fn test_extract_rga_frequency_no_match() {
    let test_content = "cpu_clk    2000000000\nother_clk  500000000";
    let freq = UnixRgaMetrics::extract_rga_frequency(test_content);
    assert_eq!(freq, None);
}

#[test]
fn frequency_is_the_first_number_after_the_name() {
    let line = "    clk_rga3_0_core   0   1   0   750000000   0   0   50000   N";
    assert_eq!(UnixRgaMetrics::extract_rga_frequency(line), Some(0));
    assert_eq!(UnixRgaMetrics::extract_rga_frequency("aclk_rga3_0 x y 750000000 3"), Some(750));
    assert_eq!(UnixRgaMetrics::extract_rga_frequency("12 RGA 594000000"), Some(594));
    assert_eq!(UnixRgaMetrics::extract_rga_frequency("12 rga"), None);
    assert_eq!(UnixRgaMetrics::extract_rga_frequency("12 rga_a rga_b 9 8"), Some(9));
    assert_eq!(UnixRgaMetrics::extract_rga_frequency("Rga 5\nrGA 6"), None);
    assert_eq!(UnixRgaMetrics::extract_rga_frequency(""), None);
}

#[test]
fn frequency_comes_from_the_first_line_that_gives_one() {
    let text = "cpu 1\nrga_without_rate here\nclk_rga 200000000\nclk_rga2 300000000\n";
    assert_eq!(UnixRgaMetrics::extract_rga_frequency(text), Some(200));
    let text = "rga x\r\nrga 400000000\r\n";
    assert_eq!(UnixRgaMetrics::extract_rga_frequency(text), Some(400));
}

#[test]
fn small_rates_are_taken_as_megahertz() {
    assert_eq!(UnixRgaMetrics::extract_rga_frequency("rga 999999"), Some(999999));
    assert_eq!(UnixRgaMetrics::extract_rga_frequency("rga 1000000"), Some(1000000));
    assert_eq!(UnixRgaMetrics::extract_rga_frequency("rga 1000001"), Some(1));
    assert_eq!(UnixRgaMetrics::extract_rga_frequency("rga 1999999"), Some(1));
    assert_eq!(UnixRgaMetrics::extract_rga_frequency("rga 600"), Some(600));
    assert_eq!(UnixRgaMetrics::extract_rga_frequency("rga 18446744073709551615"), Some(18446744073709));
}

#[test]
fn load_is_the_first_percentage_after_the_mark() {
    assert_eq!(parse_rga_load(LOAD_REPORT), Some(12));
    assert_eq!(parse_rga_load("load = 7%"), Some(7));
    assert_eq!(parse_rga_load("x\ny load =99% load = 1%\n"), Some(99));
    assert_eq!(parse_rga_load("load = 300%"), Some(100));
    assert_eq!(parse_rga_load("load = n/a"), None);
    assert_eq!(parse_rga_load("load = 5\nload = 6%"), Some(5));
    assert_eq!(parse_rga_load("load = 5 load = 6%"), Some(5));
    assert_eq!(parse_rga_load("load = 5% load = x%"), Some(5));
}

#[test]
fn lines_that_give_no_load_are_passed_over() {
    let report = "num of scheduler = 3\n================= load ==================\nscheduler[0]: rga3_core0\n\t load = 12%\nscheduler[1]: rga3_core1\n\t load = 40%\n";
    assert_eq!(parse_rga_load(report), Some(12));
    assert_eq!(parse_rga_load("load = \nload = 9%"), Some(9));
    assert_eq!(parse_rga_load("load = x%\nload = y%"), None);
}

#[test]
fn load_without_the_mark_is_read_as_a_number() {
    assert_eq!(parse_rga_load(" 17\n"), Some(17));
    assert_eq!(parse_rga_load("170"), Some(100));
    assert_eq!(parse_rga_load(""), None);
    assert_eq!(parse_rga_load("load: 5%"), None);
}

#[test]
fn load_text_that_holds_no_load_leaves_the_stream_as_it_was() {
    let mut rga = UnixRgaMetrics::new();
    assert!(rga.update(&content("load = 42%"), &SourceRead::Absent).is_ok());
    for odd in ["busy", "", "load = n/a", "==== load ====\n"] {
        assert!(rga.update(&content(odd), &SourceRead::Absent).is_ok(), "text {:?}", odd);
        assert_eq!(rga.usage_percent(), Ratio { num: 42, den: 1 }, "text {:?}", odd);
        assert_eq!(rga.usage_history().len(), 2, "text {:?}", odd);
    }
}

#[test]
fn update_pushes_what_the_reads_gave() {
    let mut rga = UnixRgaMetrics::new();
    let clocks = content("clk_a 1\n   aclk_rga   2 2 0 396000000 0 0 50000 Y\n");
    assert!(rga.update(&content(LOAD_REPORT), &clocks).is_ok());
    assert_eq!(rga.usage_percent(), Ratio { num: 12, den: 1 });
    assert_eq!(rga.frequency_mhz(), 2);
    assert_eq!(rga.usage_history().len(), 2);
    assert_eq!(rga.frequency_history().len(), 2);
    assert!(rga.update(&content("load = 55%"), &content("rga 396000000")).is_ok());
    assert_eq!(rga.usage_percent(), Ratio { num: 55, den: 1 });
    assert_eq!(rga.frequency_mhz(), 396);
}

#[test]
fn a_read_that_gave_nothing_skips_the_tick() {
    let mut rga = UnixRgaMetrics::new();
    assert!(rga.update(&SourceRead::Absent, &SourceRead::Absent).is_ok());
    assert_eq!(rga.usage_history().len(), 1);
    assert_eq!(rga.frequency_history().len(), 1);
    assert!(rga.update(&content("load = 5%"), &content("no such clock 1000")).is_ok());
    assert_eq!(rga.usage_history().len(), 2);
    assert_eq!(rga.frequency_history().len(), 1);
    assert_eq!(rga.frequency_mhz(), 0);
}

#[test]
fn a_command_that_could_not_run_is_returned_and_stops_nothing() {
    let mut rga = UnixRgaMetrics::new();
    let e = rga.update(&SourceRead::Failed("no sudo".to_string()), &content("rga 5")).unwrap_err();
    assert_eq!(
        system_message(e),
        "Failed to execute sudo cat /sys/kernel/debug/rkrga/load: no sudo"
    );
    assert_eq!(rga.frequency_mhz(), 5);
    let e = rga.update(&content("3"), &SourceRead::Failed("no sudo".to_string())).unwrap_err();
    assert_eq!(
        system_message(e),
        "Failed to execute sudo cat /sys/kernel/debug/clk/clk_summary: no sudo"
    );
    assert_eq!(rga.usage_percent(), Ratio { num: 3, den: 1 });
    assert_eq!(RGA_LOAD_PATH, "/sys/kernel/debug/rkrga/load");
    assert_eq!(CLK_SUMMARY_PATH, "/sys/kernel/debug/clk/clk_summary");
}
