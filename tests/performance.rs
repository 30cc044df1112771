use chat_cli::performance::{PerformanceMetrics, RequestMetadata, TokenMetrics};

fn create_test_metadata(
    total_tokens: usize,
    prompt_tokens: usize,
    ttft_ms: u64,
    ttlt_ms: u64,
    request_start_ms: u64,
    stream_end_ms: u64,
) -> RequestMetadata {
    RequestMetadata {
        request_start_timestamp_ms: request_start_ms,
        stream_end_timestamp_ms: stream_end_ms,
        token_metrics: Some(TokenMetrics {
            total_tokens,
            prompt_tokens,
            time_to_first_token_ms: Some(ttft_ms),
            time_to_last_token_ms: Some(ttlt_ms),
        }),
    }
}

fn tokens_per_second(m: &PerformanceMetrics) -> f64 {
    m.milli_tokens_per_second as f64 / 1000.0
}

fn inter_token_latency_ms(m: &PerformanceMetrics) -> f64 {
    m.average_inter_token_latency_us as f64 / 1000.0
}

#[test]
fn test_calculate_basic_metrics() {
    let metadata = create_test_metadata(100, 20, 500, 2500, 1000, 3000);

    let metrics = PerformanceMetrics::calculate(&metadata).unwrap();

    assert_eq!(metrics.total_tokens, 100);
    assert_eq!(metrics.prompt_tokens, 20);
    assert_eq!(metrics.time_to_first_token_ms, 500);
    assert_eq!(metrics.generation_time_ms, 2000);
    assert_eq!(metrics.total_duration_ms, 2000);
    assert!((tokens_per_second(&metrics) - 50.0).abs() < 0.1);
    assert!((inter_token_latency_ms(&metrics) - 20.2).abs() < 0.1);
}

#[test]
fn test_calculate_with_zero_generation_time() {
    let metadata = create_test_metadata(1, 0, 500, 500, 1000, 1500);

    let metrics = PerformanceMetrics::calculate(&metadata).unwrap();

    assert_eq!(metrics.generation_time_ms, 0);
    assert_eq!(tokens_per_second(&metrics), 0.0);
    assert_eq!(inter_token_latency_ms(&metrics), 0.0);
}

#[test]
fn test_calculate_returns_none_without_token_metrics() {
    let mut metadata = create_test_metadata(100, 20, 500, 2500, 1000, 3000);
    metadata.token_metrics = None;

    let metrics = PerformanceMetrics::calculate(&metadata);
    assert!(metrics.is_none());
}

#[test]
fn test_calculate_returns_none_without_ttft() {
    let mut metadata = create_test_metadata(100, 20, 500, 2500, 1000, 3000);
    if let Some(ref mut token_metrics) = metadata.token_metrics {
        token_metrics.time_to_first_token_ms = None;
    }

    let metrics = PerformanceMetrics::calculate(&metadata);
    assert!(metrics.is_none());
}

#[test]
fn test_format_comprehensive() {
    let metadata = create_test_metadata(100, 20, 500, 2500, 1000, 3000);
    let metrics = PerformanceMetrics::calculate(&metadata).unwrap();

    let formatted = metrics.format_comprehensive();
    assert!(formatted.contains("Performance Metrics:"));
    assert!(formatted.contains("Tokens/sec: 50.0"));
    assert!(formatted.contains("TTFT: 500ms"));
    assert!(formatted.contains("Total duration: 2.0s"));
    assert!(formatted.contains("Generation time: 2000ms"));
    assert!(formatted.contains("Total tokens: 100 (20 prompt + 80 completion)"));
    assert!(formatted.contains("Prompt processing: 500ms"));
}

#[test]
fn exact_figures_of_basic_sample() {
    let metadata = create_test_metadata(100, 20, 500, 2500, 1000, 3000);
    let metrics = PerformanceMetrics::calculate(&metadata).unwrap();
    assert_eq!(metrics.milli_tokens_per_second, 50_000);
    assert_eq!(metrics.average_inter_token_latency_us, 20_202);
    assert_eq!(metrics.prompt_processing_time_ms, Some(500));
}

#[test]
fn full_report_text() {
    let metadata = create_test_metadata(100, 20, 500, 2500, 1000, 3000);
    let metrics = PerformanceMetrics::calculate(&metadata).unwrap();
    assert_eq!(
        metrics.format_comprehensive(),
        "Performance Metrics:\n  Tokens/sec: 50.0\n  TTFT: 500ms\n  Total duration: 2.0s\n  Generation time: 2000ms\n  Avg inter-token latency: 20.2ms\n  Total tokens: 100 (20 prompt + 80 completion)\n  Prompt processing: 500ms"
    );
}

#[test]
fn report_without_prompt_processing_and_with_more_prompt_than_total() {
    let metrics = PerformanceMetrics {
        milli_tokens_per_second: 1_250,
        time_to_first_token_ms: 0,
        total_duration_ms: 1_050,
        prompt_processing_time_ms: None,
        generation_time_ms: 7,
        average_inter_token_latency_us: 49,
        total_tokens: 3,
        prompt_tokens: 9,
    };
    assert_eq!(
        metrics.format_comprehensive(),
        "Performance Metrics:\n  Tokens/sec: 1.3\n  TTFT: 0ms\n  Total duration: 1.1s\n  Generation time: 7ms\n  Avg inter-token latency: 0.0ms\n  Total tokens: 3 (9 prompt + 0 completion)"
    );
}

#[test]
fn clock_skew_gives_zero_durations() {
    let metadata = create_test_metadata(10, 2, 900, 400, 5000, 4000);
    let metrics = PerformanceMetrics::calculate(&metadata).unwrap();
    assert_eq!(metrics.total_duration_ms, 0);
    assert_eq!(metrics.generation_time_ms, 0);
    assert_eq!(metrics.milli_tokens_per_second, 0);
    assert_eq!(metrics.average_inter_token_latency_us, 0);
}

#[test]
fn missing_last_token_means_no_generation_time() {
    let mut metadata = create_test_metadata(10, 2, 300, 0, 0, 600);
    if let Some(ref mut token_metrics) = metadata.token_metrics {
        token_metrics.time_to_last_token_ms = None;
    }
    let metrics = PerformanceMetrics::calculate(&metadata).unwrap();
    assert_eq!(metrics.generation_time_ms, 0);
    assert_eq!(metrics.total_duration_ms, 600);
}

#[test]
fn largest_counts_do_not_overflow() {
    let metadata = create_test_metadata(usize::MAX, usize::MAX, 0, 1, 0, u64::MAX);
    let metrics = PerformanceMetrics::calculate(&metadata).unwrap();
    assert_eq!(metrics.milli_tokens_per_second, usize::MAX as u128 * 1_000_000);
    assert_eq!(metrics.average_inter_token_latency_us, 0);
    assert_eq!(metrics.total_duration_ms, u64::MAX);
}
