//! Latency and throughput figures derived from the timing of one streamed
//! response, and their display.
//!
//! Fractional figures are fixed-point integers: a rate in thousandths of a
//! token per second, a latency in microseconds. Both are rounded down.

use vstd::prelude::*;

use crate::text::{decimal, one_decimal, push_char, push_decimal, round_to_tenths};

verus! {

/// Token counts and token timing of one response, when the stream had them.
#[derive(Clone, Copy, Debug, PartialEq, Eq)]
pub struct TokenMetrics {
    /// Tokens of the whole exchange, prompt included.
    pub total_tokens: usize,
    /// Tokens of the prompt.
    pub prompt_tokens: usize,
    /// Milliseconds from the request to the first token.
    pub time_to_first_token_ms: Option<u64>,
    /// Milliseconds from the request to the last token.
    pub time_to_last_token_ms: Option<u64>,
}

/// The timing facts of one completed request.
#[derive(Clone, Copy, Debug, PartialEq, Eq)]
pub struct RequestMetadata {
    /// Monotonic milliseconds at which the request was sent.
    pub request_start_timestamp_ms: u64,
    /// Monotonic milliseconds at which the response stream ended.
    pub stream_end_timestamp_ms: u64,
    pub token_metrics: Option<TokenMetrics>,
}

/// Performance figures of one request.
#[derive(Clone, Copy, Debug, PartialEq, Eq)]
pub struct PerformanceMetrics {
    /// Tokens generated per second, in thousandths.
    pub milli_tokens_per_second: u128,
    /// Time to first token in milliseconds.
    pub time_to_first_token_ms: u64,
    /// Total response duration in milliseconds.
    pub total_duration_ms: u64,
    /// Prompt processing time in milliseconds, when known.
    pub prompt_processing_time_ms: Option<u64>,
    /// Milliseconds from the first to the last token.
    pub generation_time_ms: u64,
    /// Average time between two tokens, in microseconds.
    pub average_inter_token_latency_us: u128,
    /// Total tokens of the response.
    pub total_tokens: usize,
    /// Tokens in the prompt.
    pub prompt_tokens: usize,
}

/// `a - b`, or zero where `b` is larger.
pub open spec fn sub_floor(a: int, b: int) -> nat {
    if a >= b {
        (a - b) as nat
    } else {
        0
    }
}

/// Milliseconds between the first and the last token; none without a last token.
pub open spec fn generation_ms(ttft: u64, ttlt: Option<u64>) -> nat {
    match ttlt {
        Some(last) => sub_floor(last as int, ttft as int),
        None => 0,
    }
}

/// `tokens / (generation_ms / 1000)` in thousandths, rounded down; zero when no
/// time passed.
pub open spec fn milli_rate(tokens: nat, generation_ms: nat) -> nat {
    if generation_ms > 0 {
        tokens * 1_000_000 / generation_ms
    } else {
        0
    }
}

/// `generation_ms / (tokens - 1)` in microseconds, rounded down; zero for fewer
/// than two tokens.
pub open spec fn inter_token_us(generation_ms: nat, tokens: nat) -> nat {
    if tokens > 1 {
        generation_ms * 1000 / ((tokens - 1) as nat)
    } else {
        0
    }
}

/// What `calculate` derives from a request, or `None` where the token metrics
/// or the time to first token are missing.
pub open spec fn metrics_of(md: RequestMetadata) -> Option<PerformanceMetrics> {
    match md.token_metrics {
        None => None,
        Some(tm) => match tm.time_to_first_token_ms {
            None => None,
            Some(ttft) => {
                let generation = generation_ms(ttft, tm.time_to_last_token_ms);
                Some(
                    PerformanceMetrics {
                        milli_tokens_per_second: milli_rate(tm.total_tokens as nat, generation) as u128,
                        time_to_first_token_ms: ttft,
                        total_duration_ms: sub_floor(
                            md.stream_end_timestamp_ms as int,
                            md.request_start_timestamp_ms as int,
                        ) as u64,
                        prompt_processing_time_ms: Some(ttft),
                        generation_time_ms: generation as u64,
                        average_inter_token_latency_us: inter_token_us(generation, tm.total_tokens as nat) as u128,
                        total_tokens: tm.total_tokens,
                        prompt_tokens: tm.prompt_tokens,
                    },
                )
            },
        },
    }
}

/// The report that `format_comprehensive` writes.
pub open spec fn report_text(m: PerformanceMetrics) -> Seq<char> {
    let body = "Performance Metrics:\n  Tokens/sec: "@
        + one_decimal(round_to_tenths(m.milli_tokens_per_second as nat))
        + "\n  TTFT: "@
        + decimal(m.time_to_first_token_ms as nat)
        + "ms\n  Total duration: "@
        + one_decimal(round_to_tenths(m.total_duration_ms as nat))
        + "s\n  Generation time: "@
        + decimal(m.generation_time_ms as nat)
        + "ms\n  Avg inter-token latency: "@
        + one_decimal(round_to_tenths(m.average_inter_token_latency_us as nat))
        + "ms\n  Total tokens: "@
        + decimal(m.total_tokens as nat)
        + " ("@
        + decimal(m.prompt_tokens as nat)
        + " prompt + "@
        + decimal(sub_floor(m.total_tokens as int, m.prompt_tokens as int))
        + " completion)"@;
    match m.prompt_processing_time_ms {
        Some(p) => body + "\n  Prompt processing: "@ + decimal(p as nat) + "ms"@,
        None => body,
    }
}

/// `thousandths` rounded to the nearest tenth, halves up.
fn tenths_of(thousandths: u128) -> (r: u128)
    ensures
        r as nat == round_to_tenths(thousandths as nat),
{
    if thousandths % 100 >= 50 {
        thousandths / 100 + 1
    } else {
        thousandths / 100
    }
}

/// Appends a quantity in tenths with one decimal place.
fn push_one_decimal(s: &mut String, tenths: u128)
    ensures
        final(s)@ == old(s)@ + one_decimal(tenths as nat),
{
    push_decimal(s, tenths / 10);
    push_char(s, '.');
    push_decimal(s, tenths % 10);
    proof {
        reveal_with_fuel(decimal, 1);
    }
    assert(s@ =~= old(s)@ + one_decimal(tenths as nat));
}

impl PerformanceMetrics {
    /// Derives the performance figures of one request. There are none when
    /// the request has no token metrics or no time to first token.
    pub fn calculate(metadata: &RequestMetadata) -> (r: Option<Self>)
        ensures
            r == metrics_of(*metadata),
            r is None <==> (metadata.token_metrics is None
                || metadata.token_metrics.unwrap().time_to_first_token_ms is None),
    {
        let token_metrics = match metadata.token_metrics {
            Some(tm) => tm,
            None => return None,
        };
        let total_duration_ms = metadata.stream_end_timestamp_ms.saturating_sub(
            metadata.request_start_timestamp_ms,
        );
        let time_to_first_token_ms = match token_metrics.time_to_first_token_ms {
            Some(t) => t,
            None => return None,
        };
        let last = match token_metrics.time_to_last_token_ms {
            Some(t) => t,
            None => time_to_first_token_ms,
        };
        let generation_time_ms = last.saturating_sub(time_to_first_token_ms);
        let total_tokens = token_metrics.total_tokens;
        let milli_tokens_per_second: u128 = if generation_time_ms > 0 {
            assert(total_tokens as int * 1_000_000 <= 0xffff_ffff_ffff_ffff * 1_000_000) by (nonlinear_arith)
                requires
                    0 <= total_tokens as int <= 0xffff_ffff_ffff_ffff,
            ;
            (total_tokens as u128) * 1_000_000 / (generation_time_ms as u128)
        } else {
            0
        };
        let average_inter_token_latency_us: u128 = if total_tokens > 1 {
            (generation_time_ms as u128) * 1000 / ((total_tokens - 1) as u128)
        } else {
            0
        };
        Some(
            PerformanceMetrics {
                milli_tokens_per_second,
                time_to_first_token_ms,
                total_duration_ms,
                prompt_processing_time_ms: Some(time_to_first_token_ms),
                generation_time_ms,
                average_inter_token_latency_us,
                total_tokens,
                prompt_tokens: token_metrics.prompt_tokens,
            },
        )
    }

    /// Renders every figure as a multi-line report.
    pub fn format_comprehensive(&self) -> (r: String)
        ensures
            r@ == report_text(*self),
    {
        let mut out = String::new();
        out.append("Performance Metrics:\n  Tokens/sec: ");
        push_one_decimal(&mut out, tenths_of(self.milli_tokens_per_second));
        out.append("\n  TTFT: ");
        push_decimal(&mut out, self.time_to_first_token_ms as u128);
        out.append("ms\n  Total duration: ");
        push_one_decimal(&mut out, tenths_of(self.total_duration_ms as u128));
        out.append("s\n  Generation time: ");
        push_decimal(&mut out, self.generation_time_ms as u128);
        out.append("ms\n  Avg inter-token latency: ");
        push_one_decimal(&mut out, tenths_of(self.average_inter_token_latency_us));
        out.append("ms\n  Total tokens: ");
        push_decimal(&mut out, self.total_tokens as u128);
        out.append(" (");
        push_decimal(&mut out, self.prompt_tokens as u128);
        out.append(" prompt + ");
        push_decimal(&mut out, self.total_tokens.saturating_sub(self.prompt_tokens) as u128);
        out.append(" completion)");
        if let Some(prompt_processing_ms) = self.prompt_processing_time_ms {
            out.append("\n  Prompt processing: ");
            push_decimal(&mut out, prompt_processing_ms as u128);
            out.append("ms");
        }
        out
    }
}

} // verus!
