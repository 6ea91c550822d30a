use monad_load_balancer::logging::render_log_line;
use monad_load_balancer::logging::ExporterEvent;
use monad_load_balancer::logging::FileExporter;

#[test]
fn weight_decreased_renders_key_value_line() {
    let ev = ExporterEvent::WeightDecreased {
        addr: "10.0.0.1:8080".to_string(),
        old_weight: 5,
        new_weight: 4,
        latency_ms: 120,
    };
    assert_eq!(
        ev.fmt(),
        "level=info event=WeightDecreased addr=10.0.0.1:8080 old=5 new=4 latency_ms=120"
    );
}

#[test]
fn weight_increased_renders_key_value_line() {
    let ev = ExporterEvent::WeightIncreased {
        addr: "10.0.0.2:9090".to_string(),
        old_weight: 0,
        new_weight: 3,
        latency_ms: 48,
    };
    assert_eq!(
        ev.fmt(),
        "level=info event=WeightIncreased addr=10.0.0.2:9090 old=0 new=3 latency_ms=48"
    );
}

#[test]
fn backend_down_renders_warning_line() {
    let ev = ExporterEvent::BackendDown {
        addr: "10.0.0.3:8080".to_string(),
    };
    assert_eq!(ev.fmt(), "level=warn event=BackendDown addr=10.0.0.3:8080");
}

#[test]
fn error_renders_quoted_message() {
    let ev = ExporterEvent::Error {
        err: "Failed to route connection: no backends".to_string(),
    };
    assert_eq!(
        ev.fmt(),
        "level=error event=Error err=\"Failed to route connection: no backends\""
    );
}

#[test]
fn multi_digit_numbers_render_fully() {
    let ev = ExporterEvent::WeightDecreased {
        addr: "a".to_string(),
        old_weight: 18446744073709551615,
        new_weight: 10000,
        latency_ms: 907,
    };
    assert_eq!(
        ev.fmt(),
        "level=info event=WeightDecreased addr=a old=18446744073709551615 new=10000 latency_ms=907"
    );
}

#[test]
fn log_line_carries_timestamp_and_newline() {
    let ev = ExporterEvent::BackendDown {
        addr: "10.0.0.3:8080".to_string(),
    };
    assert_eq!(
        render_log_line(1700000000123, &ev),
        "timestamp=1700000000123 level=warn event=BackendDown addr=10.0.0.3:8080\n"
    );
}

#[test]
fn file_exporter_keeps_its_path() {
    let fe = FileExporter::new("balancer.log".to_string());
    assert_eq!(fe.log_file, "balancer.log");
}
