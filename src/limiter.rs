//! The token bucket of the `ratelimit` crate, as the queue uses it.
//!
//! A `Ratelimiter` holds four numbers that only its own methods change: the
//! tokens added per interval, the length of that interval, the most tokens
//! it holds, and the tokens it holds now. Each is named below after the getter that reads it. Every
//! wrapper that can change one takes the limiter by `&mut`, so that no other
//! holder can change it between two calls.
use vstd::prelude::*;
use ratelimit::Ratelimiter;

verus! {

#[verifier::external_type_specification]
#[verifier::external_body]
pub struct ExRatelimiter(Ratelimiter);

/// What `Ratelimiter::refill_amount` reads: tokens added per interval.
pub uninterp spec fn refill_amount_of(r: Ratelimiter) -> u64;

/// What `Ratelimiter::refill_interval` reads, in nanoseconds: the time
/// between two refills.
pub uninterp spec fn refill_interval_of(r: Ratelimiter) -> u64;

/// What `Ratelimiter::max_tokens` reads: the most tokens the bucket holds.
pub uninterp spec fn max_tokens_of(r: Ratelimiter) -> u64;

/// What `Ratelimiter::available` reads: the tokens the bucket holds now.
pub uninterp spec fn available_of(r: Ratelimiter) -> u64;

/// Relies on `Ratelimiter::builder(..).max_tokens(..).build()`: the builder
/// starts with no tokens available, and `build` fails only when the maximum
/// is below the refill amount or the interval overflows `u64` nanoseconds.
#[verifier::external_body]
pub(crate) fn build_limiter(amount: u64, max_tokens: u64, interval_secs: u64) -> (r: Option<
    Ratelimiter,
>)
    requires
        1 <= interval_secs <= 86_400,
    ensures
        r is Some <==> max_tokens >= amount,
        r matches Some(l) ==> {
            &&& refill_amount_of(l) == amount
            &&& refill_interval_of(l) == interval_secs * 1_000_000_000
            &&& max_tokens_of(l) == max_tokens
            &&& available_of(l) == 0
        },
{
    Ratelimiter::builder(amount, std::time::Duration::from_secs(interval_secs))
        .max_tokens(max_tokens)
        .build()
        .ok()
}

/// Relies on `Ratelimiter::refill_amount`, which reads the stored amount.
#[verifier::external_body]
pub(crate) fn refill_amount(l: &Ratelimiter) -> (r: u64)
    ensures
        r == refill_amount_of(*l),
{
    l.refill_amount()
}

/// Relies on `Ratelimiter::max_tokens`, which reads the stored maximum.
#[verifier::external_body]
pub(crate) fn max_tokens(l: &Ratelimiter) -> (r: u64)
    ensures
        r == max_tokens_of(*l),
{
    l.max_tokens()
}

/// Relies on `Ratelimiter::available`, which reads the stored token count.
#[verifier::external_body]
pub(crate) fn available(l: &Ratelimiter) -> (r: u64)
    ensures
        r == available_of(*l),
{
    l.available()
}

/// Relies on `Ratelimiter::try_wait`: it refills the bucket for the
/// intervals that have passed, never above the maximum and never below what
/// it held, then takes one token if there is one. So it succeeds whenever
/// the bucket held a token; on success the bucket holds at least one token
/// fewer than before the refill would add; on failure it is empty. Whether
/// a refill is due depends on the clock. It leaves the refill amount, the
/// interval and the maximum alone. It divides by the interval, and
/// multiplies the refill amount by the number of intervals that passed; with
/// a one-second interval, amounts that fit in `u32` and a bucket no fuller
/// than its maximum, neither can fail or leave `u64`.
#[verifier::external_body]
pub(crate) fn try_take_token(l: &mut Ratelimiter) -> (r: bool)
    requires
        refill_interval_of(*old(l)) == 1_000_000_000,
        refill_amount_of(*old(l)) <= u32::MAX,
        max_tokens_of(*old(l)) <= u32::MAX,
        available_of(*old(l)) <= max_tokens_of(*old(l)),
    ensures
        refill_amount_of(*final(l)) == refill_amount_of(*old(l)),
        refill_interval_of(*final(l)) == refill_interval_of(*old(l)),
        max_tokens_of(*final(l)) == max_tokens_of(*old(l)),
        available_of(*final(l)) <= max_tokens_of(*final(l)),
        available_of(*old(l)) > 0 ==> r,
        r ==> available_of(*final(l)) + 1 >= available_of(*old(l)),
        !r ==> available_of(*final(l)) == 0,
{
    l.try_wait().is_ok()
}

/// Relies on `Ratelimiter::refill_interval`, which reads the stored
/// interval; it is kept in whole nanoseconds below `u64::MAX`.
#[verifier::external_body]
pub(crate) fn refill_interval_nanos(l: &Ratelimiter) -> (r: u64)
    ensures
        r == refill_interval_of(*l),
{
    l.refill_interval().as_nanos() as u64
}

/// Relies on `Ratelimiter::set_max_tokens`: it refuses a maximum below the
/// refill amount; otherwise it stores the maximum and raises the available
/// tokens to it if they were fewer.
#[verifier::external_body]
pub(crate) fn set_max_tokens(l: &mut Ratelimiter, amount: u64) -> (r: bool)
    ensures
        r <==> amount >= refill_amount_of(*old(l)),
        refill_amount_of(*final(l)) == refill_amount_of(*old(l)),
        refill_interval_of(*final(l)) == refill_interval_of(*old(l)),
        r ==> max_tokens_of(*final(l)) == amount,
        r ==> available_of(*final(l)) == if amount > available_of(*old(l)) {
            amount
        } else {
            available_of(*old(l))
        },
        !r ==> max_tokens_of(*final(l)) == max_tokens_of(*old(l)),
        !r ==> available_of(*final(l)) == available_of(*old(l)),
{
    l.set_max_tokens(amount).is_ok()
}

/// Relies on `Ratelimiter::set_refill_amount`: it refuses an amount above the
/// maximum and otherwise stores it, touching nothing else.
#[verifier::external_body]
pub(crate) fn set_refill_amount(l: &mut Ratelimiter, amount: u64) -> (r: bool)
    ensures
        r <==> amount <= max_tokens_of(*old(l)),
        refill_amount_of(*final(l)) == if r {
            amount
        } else {
            refill_amount_of(*old(l))
        },
        refill_interval_of(*final(l)) == refill_interval_of(*old(l)),
        max_tokens_of(*final(l)) == max_tokens_of(*old(l)),
        available_of(*final(l)) == available_of(*old(l)),
{
    l.set_refill_amount(amount).is_ok()
}

/// Relies on `Ratelimiter::set_available`: it refuses an amount above the
/// maximum and otherwise stores it as the available tokens.
#[verifier::external_body]
pub(crate) fn set_available(l: &mut Ratelimiter, amount: u64) -> (r: bool)
    ensures
        r <==> amount <= max_tokens_of(*old(l)),
        refill_amount_of(*final(l)) == refill_amount_of(*old(l)),
        refill_interval_of(*final(l)) == refill_interval_of(*old(l)),
        max_tokens_of(*final(l)) == max_tokens_of(*old(l)),
        available_of(*final(l)) == if r {
            amount
        } else {
            available_of(*old(l))
        },
{
    l.set_available(amount).is_ok()
}

} // verus!
