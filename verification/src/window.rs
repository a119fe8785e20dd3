//! How a range of instants is walked: by the hour where it is shorter than a
//! day, by the day otherwise.

use vstd::prelude::*;
use crate::calendar::{MS_PER_DAY, MS_PER_HOUR};
use crate::error::DateTimeError;
use crate::horo_date_time::HoroDateTime;

verus! {

/// The step between two samples of the range from `start` to `end`.
pub open spec fn step_of(start: int, end: int) -> int {
    if end - start < MS_PER_DAY {
        MS_PER_HOUR as int
    } else {
        MS_PER_DAY as int
    }
}

/// The number of samples that a walk from `start` takes before it reaches
/// `end`: the instants `start`, `start + step`, ... that lie before `end`.
pub open spec fn sample_count(start: int, end: int) -> int {
    if start < end {
        (end - start - 1) / step_of(start, end) + 1
    } else {
        0
    }
}

/// The `k`-th instant of the walk, counted from 0.
pub open spec fn sample(start: int, end: int, k: int) -> int {
    start + k * step_of(start, end)
}

/// The step, in milliseconds, by which the range between two values is
/// walked. A range that does not end after it starts is refused.
pub fn sample_step(start: &HoroDateTime, end: &HoroDateTime) -> (r: Result<i64, DateTimeError>)
    ensures
        match r {
            Ok(step) => start.jd_utc < end.jd_utc && step == step_of(
                start.jd_utc as int,
                end.jd_utc as int,
            ),
            Err(e) => e is InvalidDateTime && end.jd_utc <= start.jd_utc,
        },
{
    if end.jd_utc <= start.jd_utc {
        return Err(
            DateTimeError::InvalidDateTime("the range must end after it starts".to_owned()),
        );
    }
    let short: bool = match end.jd_utc.checked_sub(start.jd_utc) {
        Some(span) => span < MS_PER_DAY,
        None => false,
    };
    if short {
        Ok(MS_PER_HOUR)
    } else {
        Ok(MS_PER_DAY)
    }
}

/// The walk covers the range and no more: every sample lies before the end,
/// the next one would not, and there is at least one. A range shorter than
/// a day has at most 24.
pub proof fn walk_covers_range(start: int, end: int)
    requires
        start < end,
    ensures
        1 <= sample_count(start, end),
        end - start < MS_PER_DAY ==> sample_count(start, end) <= 24,
        forall|k: int| 0 <= k < sample_count(start, end) ==> #[trigger] sample(start, end, k) < end,
        sample(start, end, sample_count(start, end)) >= end,
{
    let step = step_of(start, end);
    let n = sample_count(start, end);
    let span = end - start - 1;
    assert(span == step * (span / step) + span % step) by {
        vstd::arithmetic::div_mod::lemma_fundamental_div_mod(span, step);
    }
    assert(0 <= span % step < step) by {
        vstd::arithmetic::div_mod::lemma_mod_bound(span, step);
    }
    assert(0 <= span / step) by {
        vstd::arithmetic::div_mod::lemma_div_pos_is_pos(span, step);
    }
    assert((n - 1) * step == step * (span / step)) by (nonlinear_arith)
        requires
            n - 1 == span / step,
    ;
    assert(n * step == (n - 1) * step + step) by (nonlinear_arith);
    assert forall|k: int| 0 <= k < n implies #[trigger] sample(start, end, k) < end by {
        assert(k * step <= (n - 1) * step) by (nonlinear_arith)
            requires
                0 <= k <= n - 1,
                step > 0,
        ;
    }
    if end - start < MS_PER_DAY {
        assert(span / step <= 23) by {
            if span / step >= 24 {
                assert(step * (span / step) >= step * 24) by (nonlinear_arith)
                    requires
                        span / step >= 24,
                        step > 0,
                ;
            }
        }
    }
}

} // verus!
