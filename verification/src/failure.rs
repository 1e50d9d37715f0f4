//! Failures of a turn: what the provider reported, which failures pass by themselves, and
//! how long to wait before the next try.

use vstd::arithmetic::power2::lemma2_to64;
use vstd::arithmetic::power2::lemma_pow2_unfold;
use vstd::arithmetic::power2::pow2;
use vstd::prelude::*;
use crate::numbers::decimal;
use crate::numbers::print_usize;
use crate::text::contains;
use crate::text::has;
use crate::text::lower;
use crate::text::to_lower;
use crate::views::duplicate_opt;
use crate::views::opt;
use crate::views::Duplicate;

verus! {

/// What kind of failure a provider request met.
#[derive(Clone, Copy, Debug, PartialEq, Eq, Structural)]
pub enum ProviderErrorKind {
    /// The provider answered with an error status.
    Http,
    /// The connection failed.
    Network,
    /// The answer could not be read.
    Protocol,
}

/// A provider request that failed in a way the client could classify.
#[derive(Debug)]
pub struct ProviderRequestError {
    /// The part of the exchange that failed.
    pub phase: String,
    pub kind: ProviderErrorKind,
    pub status: Option<u16>,
    /// The wait that the provider asked for.
    pub retry_after_ms: Option<u64>,
    pub request_id: Option<String>,
    pub retryable: bool,
    pub detail: String,
}

/// What a `ProviderRequestError` holds.
#[verifier::ext_equal]
pub struct ProviderRequestErrorView {
    pub phase: Seq<char>,
    pub kind: ProviderErrorKind,
    pub status: Option<u16>,
    pub retry_after_ms: Option<u64>,
    pub request_id: Option<Seq<char>>,
    pub retryable: bool,
    pub detail: Seq<char>,
}

impl View for ProviderRequestError {
    type V = ProviderRequestErrorView;

    open spec fn view(&self) -> ProviderRequestErrorView {
        ProviderRequestErrorView {
            phase: self.phase@,
            kind: self.kind,
            status: self.status,
            retry_after_ms: self.retry_after_ms,
            request_id: opt(self.request_id),
            retryable: self.retryable,
            detail: self.detail@,
        }
    }
}

impl Duplicate for ProviderRequestError {
    fn duplicate(&self) -> (result: Self) {
        ProviderRequestError {
            phase: self.phase.clone(),
            kind: self.kind,
            status: self.status,
            retry_after_ms: self.retry_after_ms,
            request_id: duplicate_opt(&self.request_id),
            retryable: self.retryable,
            detail: self.detail.clone(),
        }
    }
}

/// Why a provider request failed.
#[derive(Debug)]
pub struct ProviderFailure {
    /// The outermost message.
    pub message: String,
    /// The message with all its causes.
    pub chain: String,
    /// The classified failure, where there is one.
    pub request: Option<ProviderRequestError>,
}

/// What a `ProviderFailure` holds.
#[verifier::ext_equal]
pub struct ProviderFailureView {
    pub message: Seq<char>,
    pub chain: Seq<char>,
    pub request: Option<ProviderRequestErrorView>,
}

impl View for ProviderFailure {
    type V = ProviderFailureView;

    open spec fn view(&self) -> ProviderFailureView {
        ProviderFailureView {
            message: self.message@,
            chain: self.chain@,
            request: opt(self.request),
        }
    }
}

impl Duplicate for ProviderFailure {
    fn duplicate(&self) -> (result: Self) {
        ProviderFailure {
            message: self.message.clone(),
            chain: self.chain.clone(),
            request: duplicate_opt(&self.request),
        }
    }
}

/// Why a turn ended without a reply.
#[derive(Debug)]
pub enum AgentError {
    /// The provider request failed.
    Provider(ProviderFailure),
    /// Summarising the history failed.
    Compaction(ProviderFailure),
    /// The model asked for more rounds than are allowed.
    ToolRoundLimit { limit: usize },
    /// A hook failed.
    Hook(String),
    /// The task was stopped from outside.
    Control(String),
}

/// What a `AgentError` holds.
#[verifier::ext_equal]
pub enum AgentErrorView {
    Provider(ProviderFailureView),
    Compaction(ProviderFailureView),
    ToolRoundLimit { limit: usize },
    Hook(Seq<char>),
    Control(Seq<char>),
}

impl View for AgentError {
    type V = AgentErrorView;

    open spec fn view(&self) -> AgentErrorView {
        match *self {
            AgentError::Provider(a0) => AgentErrorView::Provider(a0@),
            AgentError::Compaction(a0) => AgentErrorView::Compaction(a0@),
            AgentError::ToolRoundLimit { limit } => AgentErrorView::ToolRoundLimit { limit: limit },
            AgentError::Hook(a0) => AgentErrorView::Hook(a0@),
            AgentError::Control(a0) => AgentErrorView::Control(a0@),
        }
    }
}

impl Duplicate for AgentError {
    fn duplicate(&self) -> (result: Self) {
        match self {
            AgentError::Provider(a0) => AgentError::Provider(a0.duplicate()),
            AgentError::Compaction(a0) => AgentError::Compaction(a0.duplicate()),
            AgentError::ToolRoundLimit { limit } => AgentError::ToolRoundLimit { limit: *limit },
            AgentError::Hook(a0) => AgentError::Hook(a0.clone()),
            AgentError::Control(a0) => AgentError::Control(a0.clone()),
        }
    }
}

/// The message of an error.
pub open spec fn error_text(error: AgentErrorView) -> Seq<char> {
    match error {
        AgentErrorView::Provider(failure) => "provider request failed: "@ + failure.message,
        AgentErrorView::Compaction(failure) => "context compaction failed: "@ + failure.message,
        AgentErrorView::ToolRoundLimit { limit } => "tool round limit reached ("@ + decimal(
            limit as nat,
        ) + ")"@,
        AgentErrorView::Hook(message) => "hook failed: "@ + message,
        AgentErrorView::Control(message) => "task control failed: "@ + message,
    }
}

impl AgentError {
    /// The message of the error.
    pub fn describe(&self) -> (result: String)
        ensures
            result@ == error_text(self@),
    {
        match self {
            AgentError::Provider(failure) => {
                "provider request failed: ".to_owned().concat(&failure.message)
            },
            AgentError::Compaction(failure) => {
                "context compaction failed: ".to_owned().concat(&failure.message)
            },
            AgentError::ToolRoundLimit { limit } => {
                "tool round limit reached (".to_owned().concat(&print_usize(*limit)).concat(")")
            },
            AgentError::Hook(message) => "hook failed: ".to_owned().concat(message),
            AgentError::Control(message) => "task control failed: ".to_owned().concat(message),
        }
    }
}

/// Whether a failure is expected to pass by itself. A classified failure says so; otherwise
/// the message decides: a client error never passes, a network error or an overloaded
/// service does.
#[verifier::opaque]
pub open spec fn passes_by_itself(failure: ProviderFailureView) -> bool {
    match failure.request {
        Some(request) => request.retryable,
        None => {
            let text = lower(failure.message);
            &&& !(contains(text, "http 400"@) || contains(text, "http 401"@) || contains(
                text,
                "http 402"@,
            ) || contains(text, "http 403"@) || contains(text, "http 404"@))
            &&& (contains(text, "timed out"@) || contains(text, "timeout"@) || contains(
                text,
                "connection"@,
            ) || contains(text, "dns"@) || contains(text, "reset"@) || contains(
                text,
                "broken pipe"@,
            ) || contains(text, "stream failed"@) || contains(text, "502"@) || contains(
                text,
                "503"@,
            ) || contains(text, "504"@) || contains(text, "429"@) || contains(
                text,
                "temporarily unavailable"@,
            ))
        },
    }
}

/// Tells whether a failure is expected to pass by itself.
pub fn is_transient_provider_error(failure: &ProviderFailure) -> (result: bool)
    ensures
        result == passes_by_itself(failure@),
{
    proof {
        reveal(passes_by_itself);
    }
    match &failure.request {
        Some(request) => request.retryable,
        None => {
            let text = to_lower(&failure.message);
            if has(&text, "http 400") || has(&text, "http 401") || has(&text, "http 402") || has(
                &text,
                "http 403",
            ) || has(&text, "http 404") {
                return false;
            }
            has(&text, "timed out") || has(&text, "timeout") || has(&text, "connection") || has(
                &text,
                "dns",
            ) || has(&text, "reset") || has(&text, "broken pipe") || has(&text, "stream failed")
                || has(&text, "502") || has(&text, "503") || has(&text, "504") || has(&text, "429")
                || has(&text, "temporarily unavailable")
        },
    }
}

/// Whether the provider refused a request because it holds images.
#[verifier::opaque]
pub open spec fn refuses_images(failure: ProviderFailureView) -> bool {
    let text = lower(failure.message);
    ||| contains(text, "image_url"@)
    ||| contains(text, "input_image"@)
    ||| contains(text, "inline_data"@)
    ||| contains(text, "media_type"@)
    ||| contains(text, "multimodal"@)
    ||| contains(text, "vision is not supported"@)
    ||| contains(text, "image input is not supported"@)
    ||| contains(text, "expected `text`"@)
}

/// Tells whether the provider refused a request because it holds images.
pub fn is_image_compatibility_error(failure: &ProviderFailure) -> (result: bool)
    ensures
        result == refuses_images(failure@),
{
    proof {
        reveal(refuses_images);
    }
    let text = to_lower(&failure.message);
    has(&text, "image_url") || has(&text, "input_image") || has(&text, "inline_data") || has(
        &text,
        "media_type",
    ) || has(&text, "multimodal") || has(&text, "vision is not supported") || has(
        &text,
        "image input is not supported",
    ) || has(&text, "expected `text`")
}

/// Whether the provider refused a request because it is too long.
#[verifier::opaque]
pub open spec fn overflows_context(failure: ProviderFailureView) -> bool {
    let text = lower(failure.chain);
    ||| contains(text, "context_window_exceeded"@)
    ||| contains(text, "context length"@)
    ||| contains(text, "maximum context"@)
    ||| contains(text, "too many tokens"@)
}

/// Tells whether the provider refused a request because it is too long.
pub fn is_context_window_error(failure: &ProviderFailure) -> (result: bool)
    ensures
        result == overflows_context(failure@),
{
    proof {
        reveal(overflows_context);
    }
    let text = to_lower(&failure.chain);
    has(&text, "context_window_exceeded") || has(&text, "context length") || has(
        &text,
        "maximum context",
    ) || has(&text, "too many tokens")
}

/// Whether an error says that the account may not be used further for now.
#[verifier::opaque]
pub open spec fn hits_usage_limit(error: AgentErrorView) -> bool {
    let text = lower(error_text(error));
    ||| contains(text, "429"@)
    ||| contains(text, "rate limit"@)
    ||| contains(text, "usage limit"@)
    ||| contains(text, "quota"@)
}

/// Tells whether an error says that the account may not be used further for now.
pub fn is_usage_limit_error(error: &AgentError) -> (result: bool)
    ensures
        result == hits_usage_limit(error@),
{
    proof {
        reveal(hits_usage_limit);
    }
    let text = to_lower(&error.describe());
    has(&text, "429") || has(&text, "rate limit") || has(&text, "usage limit") || has(
        &text,
        "quota",
    )
}

/// The sum of a text's bytes.
pub open spec fn byte_sum(bytes: Seq<u8>) -> nat
    decreases bytes.len(),
{
    if bytes.len() == 0 {
        0
    } else {
        byte_sum(bytes.drop_last()) + bytes.last() as nat
    }
}

/// The number of values that 64 bits can take.
pub open spec fn two_to_64() -> nat {
    0x1_0000_0000_0000_0000
}

/// A spread of the waiting time that depends on the message alone: 50 to 300 milliseconds.
pub open spec fn jitter(message: Seq<char>) -> nat {
    byte_sum(vstd::utf8::encode_utf8(message)) % two_to_64() % 251 + 50
}

/// A value brought into a range.
pub open spec fn clamped(value: nat, low: nat, high: nat) -> nat {
    if value < low {
        low
    } else if value > high {
        high
    } else {
        value
    }
}

/// The smaller of two values.
pub open spec fn smaller(a: nat, b: nat) -> nat {
    if a < b {
        a
    } else {
        b
    }
}

/// How long to wait before try number `attempt`: what the provider asked for, brought into
/// the allowed range; otherwise the initial wait, doubled with each try up to 16 times,
/// plus the jitter, and never more than the longest wait.
#[verifier::opaque]
pub open spec fn delay_before_retry(
    failure: ProviderFailureView,
    attempt: nat,
    initial: nat,
    longest: nat,
) -> nat {
    match failure.request {
        Some(ProviderRequestErrorView { retry_after_ms: Some(asked), .. }) => clamped(
            asked as nat,
            initial,
            longest,
        ),
        _ => {
            let doublings = smaller(
                if attempt == 0 {
                    0
                } else {
                    (attempt - 1) as nat
                },
                16,
            );
            smaller(
                smaller(
                    smaller(initial * pow2(doublings), u64::MAX as nat) + jitter(failure.message),
                    u64::MAX as nat,
                ),
                longest,
            )
        },
    }
}

/// Whether the provider asks for a wait.
pub open spec fn asks_for_wait(failure: ProviderFailureView) -> bool {
    failure.request is Some && failure.request->0.retry_after_ms is Some
}

/// Two to the power `exponent`.
fn power_of_two(exponent: u32) -> (result: u64)
    requires
        exponent <= 16,
    ensures
        result == pow2(exponent as nat),
        result <= 65536,
{
    proof {
        lemma2_to64();
    }
    let mut result: u64 = 1;
    let mut i: u32 = 0;
    while i < exponent
        invariant
            i <= exponent <= 16,
            result == pow2(i as nat),
            result <= 65536,
            i == 16 ==> result == 65536,
            pow2(16) == 65536,
            forall|k: nat| k <= 16 ==> #[trigger] pow2(k) <= 65536,
        decreases exponent - i,
    {
        proof {
            lemma_pow2_unfold((i + 1) as nat);
            assert(pow2((i + 1) as nat) <= 65536);
        }
        result = result * 2;
        i = i + 1;
    }
    result
}

/// The sum of a text's bytes, in 64 bits.
fn wrapped_byte_sum(bytes: &[u8]) -> (result: u64)
    ensures
        result as nat == byte_sum(bytes@) % two_to_64(),
{
    let mut sum: u64 = 0;
    let mut i: usize = 0;
    while i < bytes.len()
        invariant
            i <= bytes@.len(),
            sum as nat == byte_sum(bytes@.take(i as int)) % two_to_64(),
        decreases bytes@.len() - i,
    {
        let ghost after = bytes@.take(i + 1);
        assert(after.drop_last() =~= bytes@.take(i as int));
        let ghost before = byte_sum(bytes@.take(i as int));
        let b: u64 = bytes[i] as u64;
        let ghost previous = sum;
        sum = sum.wrapping_add(b);
        proof {
            assert(byte_sum(after) == before + b);
            if previous + b < two_to_64() {
                vstd::arithmetic::div_mod::lemma_fundamental_div_mod_converse(
                    (before + b) as int,
                    two_to_64() as int,
                    (before / two_to_64()) as int,
                    (previous + b) as int,
                );
            } else {
                vstd::arithmetic::div_mod::lemma_fundamental_div_mod_converse(
                    (before + b) as int,
                    two_to_64() as int,
                    (before / two_to_64() + 1) as int,
                    (previous + b - two_to_64()) as int,
                );
            }
        }
        i = i + 1;
    }
    assert(bytes@.take(i as int) =~= bytes@);
    sum
}

/// Returns how many milliseconds to wait before try number `attempt`.
pub fn retry_delay_ms(
    failure: &ProviderFailure,
    attempt: u8,
    initial_delay_ms: u64,
    max_delay_ms: u64,
) -> (result: u64)
    requires
        asks_for_wait(failure@) ==> initial_delay_ms <= max_delay_ms,
    ensures
        result as nat == delay_before_retry(
            failure@,
            attempt as nat,
            initial_delay_ms as nat,
            max_delay_ms as nat,
        ),
{
    proof {
        reveal(delay_before_retry);
    }
    if let Some(request) = &failure.request {
        if let Some(asked) = request.retry_after_ms {
            return if asked < initial_delay_ms {
                initial_delay_ms
            } else if asked > max_delay_ms {
                max_delay_ms
            } else {
                asked
            };
        }
    }
    let before: u8 = if attempt == 0 {
        0
    } else {
        attempt - 1
    };
    let exponent: u32 = if before < 16 {
        before as u32
    } else {
        16
    };
    let factor: u64 = power_of_two(exponent);
    let ghost product = initial_delay_ms as nat * factor as nat;
    assert(initial_delay_ms as u128 * factor as u128 <= u64::MAX as u128 * 65536) by (nonlinear_arith)
        requires
            initial_delay_ms <= u64::MAX,
            factor <= 65536,
    ;
    let wide: u128 = (initial_delay_ms as u128) * (factor as u128);
    assert(wide == product);
    let base: u64 = if wide < u64::MAX as u128 {
        wide as u64
    } else {
        u64::MAX
    };
    let spread: u64 = wrapped_byte_sum(failure.message.as_str().as_bytes()) % 251 + 50;
    let total: u64 = if base > u64::MAX - spread {
        u64::MAX
    } else {
        base + spread
    };
    if total < max_delay_ms {
        total
    } else {
        max_delay_ms
    }
}

/// A wait never passes the longest wait, and a wait that the provider asked for is never
/// shorter than the initial one.
pub proof fn retry_delay_is_bounded(
    failure: ProviderFailureView,
    attempt: nat,
    initial: nat,
    longest: nat,
)
    requires
        asks_for_wait(failure) ==> initial <= longest,
    ensures
        delay_before_retry(failure, attempt, initial, longest) <= longest,
        asks_for_wait(failure) ==> initial <= delay_before_retry(
            failure,
            attempt,
            initial,
            longest,
        ),
{
    reveal(delay_before_retry);
}

/// Without a wait that the provider asks for, a later try never waits less than an earlier one.
pub proof fn retry_delay_never_shrinks(
    failure: ProviderFailureView,
    earlier: nat,
    later: nat,
    initial: nat,
    longest: nat,
)
    requires
        earlier <= later,
        !asks_for_wait(failure),
    ensures
        delay_before_retry(failure, earlier, initial, longest) <= delay_before_retry(
            failure,
            later,
            initial,
            longest,
        ),
{
    reveal(delay_before_retry);
    let a = smaller(
        if earlier == 0 {
            0
        } else {
            (earlier - 1) as nat
        },
        16,
    );
    let b = smaller(
        if later == 0 {
            0
        } else {
            (later - 1) as nat
        },
        16,
    );
    if a < b {
        vstd::arithmetic::power2::lemma_pow2_strictly_increases(a, b);
    }
    assert(initial * pow2(a) <= initial * pow2(b)) by (nonlinear_arith)
        requires
            pow2(a) <= pow2(b),
    ;
}

} // verus!
