use vstd::prelude::*;
use crate::rate_limiter::{
    check_model, record_at, status_model, swept, window_expired, records_valid,
    RateLimitError, DAY_SECONDS,
};
use crate::store::{ClientKey, ClientRecord};

verus! {

/// A run of admission checks for one client at the given times, in order:
/// the store afterwards and the outcome of each check.
pub open spec fn run_checks(
    m: Map<ClientKey, ClientRecord>,
    quota: u32,
    key: ClientKey,
    times: Seq<i64>,
) -> (Map<ClientKey, ClientRecord>, Seq<Result<(), RateLimitError>>)
    decreases times.len(),
{
    if times.len() == 0 {
        (m, Seq::empty())
    } else {
        let (before, outs) = run_checks(m, quota, key, times.drop_last());
        let (after, out) = check_model(before, quota, key, times.last());
        (after, outs.push(out))
    }
}

/// All times lie within the day that begins at the first of them.
pub open spec fn within_first_window(times: Seq<i64>) -> bool {
    forall|i: int| 0 <= i < times.len() ==> #[trigger] times[i] - times[0] <= DAY_SECONDS
}

proof fn lemma_run_in_window(
    m: Map<ClientKey, ClientRecord>,
    quota: u32,
    key: ClientKey,
    times: Seq<i64>,
)
    requires
        times.len() > 0,
        !m.contains_key(key) || window_expired(m[key].window_start, times[0]),
        within_first_window(times),
    ensures
        ({
            let (after, outs) = run_checks(m, quota, key, times);
            &&& after.contains_key(key)
            &&& after[key] == ClientRecord {
                count: (if times.len() <= quota {
                    times.len()
                } else {
                    quota as nat
                }) as u32,
                window_start: times[0],
            }
            &&& outs.len() == times.len()
            &&& forall|i: int|
                0 <= i < times.len() ==> #[trigger] outs[i] == (if i < quota {
                    Ok(())
                } else {
                    Err(
                        RateLimitError::LimitExceeded {
                            limit: quota,
                            reset_time: (times[0] + DAY_SECONDS) as i64,
                        },
                    )
                })
        }),
    decreases times.len(),
{
    let prefix = times.drop_last();
    if prefix.len() > 0 {
        assert forall|i: int| 0 <= i < prefix.len() implies #[trigger] prefix[i] - prefix[0]
            <= DAY_SECONDS by {
            assert(prefix[i] == times[i]);
        }
        lemma_run_in_window(m, quota, key, prefix);
        assert(times.last() - times[0] <= DAY_SECONDS) by {
            assert(times[times.len() - 1] - times[0] <= DAY_SECONDS);
        }
    }
    let (before, outs) = run_checks(m, quota, key, prefix);
    let (after, out) = check_model(before, quota, key, times.last());
    assert(run_checks(m, quota, key, times) == (after, outs.push(out)));
    assert forall|i: int| 0 <= i < times.len() implies #[trigger] outs.push(out)[i] == (if i
        < quota {
        Ok(())
    } else {
        Err(
            RateLimitError::LimitExceeded {
                limit: quota,
                reset_time: (times[0] + DAY_SECONDS) as i64,
            },
        )
    }) by {
        if i < prefix.len() {
            assert(outs.push(out)[i] == outs[i]);
        }
    }
}

/// For a client the store has not seen, or whose window has expired, checks
/// that all fall within the day opened by the first of them are admitted while
/// fewer than `quota` came before, and each later one is rejected with the quota
/// and the end of that day.
pub proof fn law_admission_within_window(
    m: Map<ClientKey, ClientRecord>,
    quota: u32,
    key: ClientKey,
    times: Seq<i64>,
)
    requires
        times.len() > 0 ==> !m.contains_key(key) || window_expired(m[key].window_start, times[0]),
        within_first_window(times),
    ensures
        run_checks(m, quota, key, times).1.len() == times.len(),
        forall|i: int|
            0 <= i < times.len() && i < quota ==> #[trigger] run_checks(m, quota, key, times).1[i]
                == Ok::<(), RateLimitError>(()),
        forall|i: int|
            0 <= i < times.len() && i >= quota ==> #[trigger] run_checks(m, quota, key, times).1[i]
                == Err::<(), RateLimitError>(
                RateLimitError::LimitExceeded {
                    limit: quota,
                    reset_time: (times[0] + DAY_SECONDS) as i64,
                },
            ),
{
    if times.len() > 0 {
        lemma_run_in_window(m, quota, key, times);
    }
}

/// Once more than a day has passed since a client's window began, its next
/// check is admitted (for any positive quota) and its count starts again at one.
pub proof fn law_window_reset(m: Map<ClientKey, ClientRecord>, quota: u32, key: ClientKey, now: i64)
    requires
        quota >= 1,
        m.contains_key(key),
        window_expired(m[key].window_start, now),
    ensures
        check_model(m, quota, key, now).1 == Ok::<(), RateLimitError>(()),
        check_model(m, quota, key, now).0[key] == (ClientRecord { count: 1, window_start: now }),
{
}

/// A check on one client changes neither the record of another client nor the
/// outcome of that other client's next check.
pub proof fn law_clients_independent(
    m: Map<ClientKey, ClientRecord>,
    quota: u32,
    a: ClientKey,
    b: ClientKey,
    now_a: i64,
    now_b: i64,
)
    requires
        a != b,
    ensures
        record_at(check_model(m, quota, a, now_a).0, b) == record_at(m, b),
        check_model(check_model(m, quota, a, now_a).0, quota, b, now_b).1 == check_model(
            m,
            quota,
            b,
            now_b,
        ).1,
{
    assert(record_at(check_model(m, quota, a, now_a).0, b) == record_at(m, b));
}

/// The status query reports quota left exactly when a check at the same time
/// would admit the request.
pub proof fn law_status_predicts_admission(
    m: Map<ClientKey, ClientRecord>,
    quota: u32,
    key: ClientKey,
    now: i64,
)
    requires
        records_valid(m, quota),
    ensures
        (status_model(m, quota, key, now).requests_remaining > 0) == (check_model(
            m,
            quota,
            key,
            now,
        ).1 is Ok),
{
}

/// A sweep keeps every record whose window has not expired, unchanged.
pub proof fn law_sweep_keeps_live_records(
    m: Map<ClientKey, ClientRecord>,
    now: i64,
    key: ClientKey,
)
    requires
        m.contains_key(key),
        !window_expired(m[key].window_start, now),
    ensures
        swept(m, now).contains_key(key),
        swept(m, now)[key] == m[key],
{
}

/// After a sweep, a client whose record was removed is handled exactly as a
/// client the store has never seen.
pub proof fn law_swept_client_is_new(
    m: Map<ClientKey, ClientRecord>,
    quota: u32,
    sweep_time: i64,
    key: ClientKey,
    now: i64,
)
    requires
        !swept(m, sweep_time).contains_key(key),
    ensures
        check_model(swept(m, sweep_time), quota, key, now).1 == check_model(
            Map::empty(),
            quota,
            key,
            now,
        ).1,
        check_model(swept(m, sweep_time), quota, key, now).0[key] == check_model(
            Map::empty(),
            quota,
            key,
            now,
        ).0[key],
{
}

} // verus!
