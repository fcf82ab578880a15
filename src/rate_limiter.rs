use vstd::prelude::*;
use crate::client_ip::{client_ip_or_loopback, resolved_client_ip, IpAddress};
use crate::store::{
    map_get, map_insert, map_keys, map_new, map_remove, records_of, ClientKey, ClientRecord,
    RecordMap,
};
use crate::types::RateLimitStatus;

verus! {

/// Length of a counting window, in seconds: one day.
pub const DAY_SECONDS: u64 = 86400;

/// Largest distance from the Unix epoch, in seconds, of a time the limiter handles.
pub const MAX_TIMESTAMP: i64 = 10000000000000;

/// A time, in seconds since the Unix epoch, that the limiter can handle.
pub open spec fn time_in_range(t: i64) -> bool {
    -MAX_TIMESTAMP <= t <= MAX_TIMESTAMP
}

/// A window that began at `start` has expired at `now`: strictly more than a
/// day has elapsed.
pub open spec fn window_expired(start: i64, now: i64) -> bool {
    now - start > DAY_SECONDS
}

/// The record of a client seen for the first time at `now`.
pub open spec fn fresh_record(now: i64) -> ClientRecord {
    ClientRecord { count: 0, window_start: now }
}

/// The record in effect at `now`: a missing or expired record starts over.
pub open spec fn current_record(rec: Option<ClientRecord>, now: i64) -> ClientRecord {
    match rec {
        None => fresh_record(now),
        Some(r) => if window_expired(r.window_start, now) {
            fresh_record(now)
        } else {
            r
        },
    }
}

/// The record stored for `key`, if any.
pub open spec fn record_at(m: Map<ClientKey, ClientRecord>, key: ClientKey) -> Option<ClientRecord> {
    if m.contains_key(key) {
        Some(m[key])
    } else {
        None
    }
}

/// The one way an admission check can turn a request away.
#[derive(Clone, Copy, Debug, PartialEq, Eq, Structural)]
pub enum RateLimitError {
    /// The client used its whole quota; `reset_time` is when its window ends.
    LimitExceeded { limit: u32, reset_time: i64 },
}

/// One admission check on a client's record at `now`: the record afterwards and
/// the outcome.
pub open spec fn admit_model(rec: Option<ClientRecord>, quota: u32, now: i64) -> (
    ClientRecord,
    Result<(), RateLimitError>,
) {
    let cur = current_record(rec, now);
    if cur.count < quota {
        (ClientRecord { count: (cur.count + 1) as u32, window_start: cur.window_start }, Ok(()))
    } else {
        (
            cur,
            Err(
                RateLimitError::LimitExceeded {
                    limit: quota,
                    reset_time: (cur.window_start + DAY_SECONDS) as i64,
                },
            ),
        )
    }
}

/// One admission check on the whole store: the client's record is created or
/// updated in place, every other record is left as it was.
pub open spec fn check_model(
    m: Map<ClientKey, ClientRecord>,
    quota: u32,
    key: ClientKey,
    now: i64,
) -> (Map<ClientKey, ClientRecord>, Result<(), RateLimitError>) {
    let (rec, out) = admit_model(record_at(m, key), quota, now);
    (m.insert(key, rec), out)
}

/// What the status query reports for `key` at `now`.
pub open spec fn status_model(
    m: Map<ClientKey, ClientRecord>,
    quota: u32,
    key: ClientKey,
    now: i64,
) -> RateLimitStatus {
    if m.contains_key(key) && !window_expired(m[key].window_start, now) {
        RateLimitStatus {
            requests_remaining: if m[key].count >= quota {
                0
            } else {
                (quota - m[key].count) as u32
            },
            requests_limit: quota,
            reset_time: Some((m[key].window_start + DAY_SECONDS) as i64),
            window_duration_seconds: DAY_SECONDS,
        }
    } else {
        RateLimitStatus {
            requests_remaining: quota,
            requests_limit: quota,
            reset_time: None,
            window_duration_seconds: DAY_SECONDS,
        }
    }
}

/// The store after a sweep at `now`: the records whose window has expired are
/// gone, the others are kept as they were.
pub open spec fn swept(m: Map<ClientKey, ClientRecord>, now: i64) -> Map<ClientKey, ClientRecord> {
    m.restrict(m.dom().filter(|k: ClientKey| !window_expired(m[k].window_start, now)))
}

/// Every stored record has a window start the limiter can handle and a count
/// within the quota.
pub open spec fn records_valid(m: Map<ClientKey, ClientRecord>, quota: u32) -> bool {
    forall|k: ClientKey| #[trigger]
        m.contains_key(k) ==> time_in_range(m[k].window_start) && m[k].count <= quota
}

impl ClientRecord {
    /// The record of a client first seen at `now`: nothing counted yet.
    pub fn new(now: i64) -> (r: Self)
        ensures
            r == fresh_record(now),
    {
        ClientRecord { count: 0, window_start: now }
    }

    /// Starts a new window at `now` if the current one has expired; says whether
    /// it did.
    pub fn reset_if_expired(&mut self, now: i64) -> (r: bool)
        requires
            time_in_range(old(self).window_start),
            time_in_range(now),
        ensures
            r == window_expired(old(self).window_start, now),
            *final(self) == current_record(Some(*old(self)), now),
    {
        if now - self.window_start > DAY_SECONDS as i64 {
            self.count = 0;
            self.window_start = now;
            true
        } else {
            false
        }
    }
}

/// Settings of the limiter, fixed once it is built.
#[derive(Clone, Copy, Debug, PartialEq, Eq, Structural)]
pub struct RateLimitConfig {
    /// Quota: requests admitted per client per window.
    pub requests_per_day: u32,
    /// How often the sweeper runs, in minutes.
    pub cleanup_interval_minutes: u64,
}

/// Quota used when none is configured.
pub const DEFAULT_REQUESTS_PER_DAY: u32 = 20;

/// Sweep interval, in minutes, used when none is configured.
pub const DEFAULT_CLEANUP_INTERVAL_MINUTES: u64 = 10;

/// The value of a string of decimal digits.
pub open spec fn digits_value(s: Seq<char>) -> nat
    decreases s.len(),
{
    if s.len() == 0 {
        0
    } else {
        digits_value(s.drop_last()) * 10 + ((s.last() as u32 - '0' as u32) as nat)
    }
}

/// What `str::parse` gives for an unsigned integer type whose largest value is
/// `max`: an optional `+`, then one or more ASCII digits whose value is at most `max`.
pub open spec fn parsed_unsigned(s: Seq<char>, max: nat) -> Option<nat> {
    let d = if s.len() > 0 && s[0] == '+' {
        s.drop_first()
    } else {
        s
    };
    if d.len() > 0 && (forall|i: int| 0 <= i < d.len() ==> '0' <= #[trigger] d[i] <= '9')
        && digits_value(d) <= max {
        Some(digits_value(d))
    } else {
        None
    }
}

/// Relies on `str::parse::<u32>`: an optional `+` and decimal digits, without
/// overflow, and nothing else.
#[verifier::external_body]
fn parse_u32(s: &str) -> (r: Option<u32>)
    ensures
        r == (match parsed_unsigned(s@, u32::MAX as nat) {
            Some(v) => Some(v as u32),
            None => None,
        }),
{
    s.parse::<u32>().ok()
}

/// Relies on `str::parse::<u64>`: an optional `+` and decimal digits, without
/// overflow, and nothing else.
#[verifier::external_body]
fn parse_u64(s: &str) -> (r: Option<u64>)
    ensures
        r == (match parsed_unsigned(s@, u64::MAX as nat) {
            Some(v) => Some(v as u64),
            None => None,
        }),
{
    s.parse::<u64>().ok()
}

/// The quota that a configured value gives: the value if it parses, else the default.
pub open spec fn quota_setting(v: Option<String>) -> u32 {
    match v {
        Some(s) => match parsed_unsigned(s@, u32::MAX as nat) {
            Some(n) => n as u32,
            None => DEFAULT_REQUESTS_PER_DAY,
        },
        None => DEFAULT_REQUESTS_PER_DAY,
    }
}

/// The sweep interval that a configured value gives: the value if it parses and
/// is positive, else the default.
pub open spec fn interval_setting(v: Option<String>) -> u64 {
    match v {
        Some(s) => match parsed_unsigned(s@, u64::MAX as nat) {
            Some(n) => if n > 0 {
                n as u64
            } else {
                DEFAULT_CLEANUP_INTERVAL_MINUTES
            },
            None => DEFAULT_CLEANUP_INTERVAL_MINUTES,
        },
        None => DEFAULT_CLEANUP_INTERVAL_MINUTES,
    }
}

impl Default for RateLimitConfig {
    fn default() -> (r: Self)
        ensures
            r.requests_per_day == DEFAULT_REQUESTS_PER_DAY,
            r.cleanup_interval_minutes == DEFAULT_CLEANUP_INTERVAL_MINUTES,
    {
        RateLimitConfig {
            requests_per_day: DEFAULT_REQUESTS_PER_DAY,
            cleanup_interval_minutes: DEFAULT_CLEANUP_INTERVAL_MINUTES,
        }
    }
}

impl RateLimitConfig {
    /// The configuration given by the two settings as read from the environment
    /// (`None` where a setting is absent). A value that is absent or invalid
    /// falls back to its default; so does a sweep interval of zero.
    pub fn from_settings(requests_per_day: Option<String>, cleanup_interval_minutes: Option<String>) -> (r: Self)
        ensures
            r.requests_per_day == quota_setting(requests_per_day),
            r.cleanup_interval_minutes == interval_setting(cleanup_interval_minutes),
    {
        let quota = match &requests_per_day {
            Some(s) => match parse_u32(s.as_str()) {
                Some(n) => n,
                None => DEFAULT_REQUESTS_PER_DAY,
            },
            None => DEFAULT_REQUESTS_PER_DAY,
        };
        let interval = match &cleanup_interval_minutes {
            Some(s) => match parse_u64(s.as_str()) {
                Some(n) => if n > 0 {
                    n
                } else {
                    DEFAULT_CLEANUP_INTERVAL_MINUTES
                },
                None => DEFAULT_CLEANUP_INTERVAL_MINUTES,
            },
            None => DEFAULT_CLEANUP_INTERVAL_MINUTES,
        };
        RateLimitConfig { requests_per_day: quota, cleanup_interval_minutes: interval }
    }

    /// The sweep interval in seconds, saturating at the largest `u64`.
    pub fn cleanup_interval_seconds(&self) -> (r: u64)
        ensures
            r == (if self.cleanup_interval_minutes * 60 <= u64::MAX {
                self.cleanup_interval_minutes * 60
            } else {
                u64::MAX as int
            }),
    {
        if self.cleanup_interval_minutes <= u64::MAX / 60 {
            self.cleanup_interval_minutes * 60
        } else {
            u64::MAX
        }
    }
}

/// Records each client's admissions in its current window and turns requests
/// away once the quota is used up.
///
/// Every operation that changes the store takes `&mut self`, so that its
/// contract can say exactly what the store becomes. A server that handles
/// requests in parallel therefore holds the limiter behind one lock, which
/// serialises the checks of all clients, not only those of one client.
pub struct RateLimiter {
    storage: RecordMap,
    config: RateLimitConfig,
}

impl RateLimiter {
    /// The records held, by client key.
    pub closed spec fn records(&self) -> Map<ClientKey, ClientRecord> {
        records_of(self.storage)
    }

    /// The configuration the limiter was built with.
    pub closed spec fn spec_config(&self) -> RateLimitConfig {
        self.config
    }

    /// The quota per window.
    pub open spec fn quota(&self) -> u32 {
        self.spec_config().requests_per_day
    }

    pub open spec fn wf(&self) -> bool {
        records_valid(self.records(), self.quota())
    }

    /// A limiter with the given configuration that has seen no client yet.
    pub fn new(config: RateLimitConfig) -> (r: Self)
        ensures
            r.wf(),
            r.spec_config() == config,
            r.records() == Map::<ClientKey, ClientRecord>::empty(),
    {
        RateLimiter { storage: map_new(), config }
    }

    /// The configuration the limiter was built with.
    pub fn config(&self) -> (r: RateLimitConfig)
        ensures
            r == self.spec_config(),
    {
        self.config
    }

    /// Admission check for `ip` at time `now`: admits and counts the request
    /// while the quota lasts, and rejects it with the window's end otherwise.
    pub fn check_rate_limit_at(&mut self, ip: IpAddress, now: i64) -> (r: Result<(), RateLimitError>)
        requires
            old(self).wf(),
            time_in_range(now),
        ensures
            final(self).wf(),
            final(self).spec_config() == old(self).spec_config(),
            (final(self).records(), r) == check_model(
                old(self).records(),
                old(self).quota(),
                ip.spec_key(),
                now,
            ),
    {
        let key = ip.key();
        let quota = self.config.requests_per_day;
        let mut rec = match map_get(&self.storage, key) {
            Some(r) => r,
            None => ClientRecord::new(now),
        };
        rec.reset_if_expired(now);
        let out = if rec.count < quota {
            rec = ClientRecord { count: rec.count + 1, window_start: rec.window_start };
            Ok(())
        } else {
            Err(
                RateLimitError::LimitExceeded {
                    limit: quota,
                    reset_time: rec.window_start + DAY_SECONDS as i64,
                },
            )
        };
        map_insert(&mut self.storage, key, rec);
        out
    }

    /// Admission check for `ip` at the current time.
    pub fn check_rate_limit(&mut self, ip: IpAddress) -> (r: Result<(), RateLimitError>)
        requires
            old(self).wf(),
        ensures
            final(self).wf(),
            final(self).spec_config() == old(self).spec_config(),
            exists|now: i64|
                time_in_range(now) && (final(self).records(), r) == check_model(
                    old(self).records(),
                    old(self).quota(),
                    ip.spec_key(),
                    now,
                ),
    {
        let now = current_timestamp();
        self.check_rate_limit_at(ip, now)
    }

    /// Remaining quota of `ip` at time `now`; reads the store and changes nothing.
    pub fn get_rate_limit_status_at(&self, ip: IpAddress, now: i64) -> (r: RateLimitStatus)
        requires
            self.wf(),
            time_in_range(now),
        ensures
            r == status_model(self.records(), self.quota(), ip.spec_key(), now),
    {
        let quota = self.config.requests_per_day;
        match map_get(&self.storage, ip.key()) {
            Some(rec) => {
                if now - rec.window_start > DAY_SECONDS as i64 {
                    RateLimitStatus {
                        requests_remaining: quota,
                        requests_limit: quota,
                        reset_time: None,
                        window_duration_seconds: DAY_SECONDS,
                    }
                } else {
                    let remaining = if rec.count >= quota {
                        0
                    } else {
                        quota - rec.count
                    };
                    RateLimitStatus {
                        requests_remaining: remaining,
                        requests_limit: quota,
                        reset_time: Some(rec.window_start + DAY_SECONDS as i64),
                        window_duration_seconds: DAY_SECONDS,
                    }
                }
            },
            None => RateLimitStatus {
                requests_remaining: quota,
                requests_limit: quota,
                reset_time: None,
                window_duration_seconds: DAY_SECONDS,
            },
        }
    }

    /// Remaining quota of `ip` at the current time.
    pub fn get_rate_limit_status(&self, ip: IpAddress) -> (r: RateLimitStatus)
        requires
            self.wf(),
        ensures
            exists|now: i64|
                time_in_range(now) && r == status_model(
                    self.records(),
                    self.quota(),
                    ip.spec_key(),
                    now,
                ),
    {
        let now = current_timestamp();
        self.get_rate_limit_status_at(ip, now)
    }

    /// One pass of the sweeper at the current time.
    pub fn sweep_expired_now(&mut self)
        requires
            old(self).wf(),
        ensures
            final(self).wf(),
            final(self).spec_config() == old(self).spec_config(),
            exists|now: i64|
                time_in_range(now) && final(self).records() == #[trigger] swept(
                    old(self).records(),
                    now,
                ),
    {
        let now = current_timestamp();
        self.sweep_expired(now);
    }

    /// One pass of the sweeper at time `now`: removes every record whose window
    /// has expired and keeps the others unchanged.
    pub fn sweep_expired(&mut self, now: i64)
        requires
            old(self).wf(),
            time_in_range(now),
        ensures
            final(self).wf(),
            final(self).spec_config() == old(self).spec_config(),
            final(self).records() == swept(old(self).records(), now),
    {
        let ghost m0 = self.records();
        let keys = map_keys(&self.storage);
        let mut i: usize = 0;
        while i < keys.len()
            invariant
                0 <= i <= keys@.len(),
                time_in_range(now),
                keys@.no_duplicates(),
                keys@.to_set() == m0.dom(),
                self.spec_config() == old(self).spec_config(),
                records_valid(m0, self.quota()),
                self.records() == m0.restrict(
                    m0.dom().filter(
                        |k: ClientKey|
                            !(keys@.subrange(0, i as int).contains(k) && window_expired(
                                m0[k].window_start,
                                now,
                            )),
                    ),
                ),
            decreases keys.len() - i,
        {
            let key = keys[i];
            let ghost before = self.records();
            proof {
                assert(keys@.to_set().contains(key));
                assert(before.contains_key(key) ==> before[key] == m0[key]);
                assert(time_in_range(m0[key].window_start));
            }
            match map_get(&self.storage, key) {
                Some(rec) => {
                    if now - rec.window_start > DAY_SECONDS as i64 {
                        map_remove(&mut self.storage, key);
                    }
                },
                None => {},
            }
            proof {
                let pre = keys@.subrange(0, i as int);
                let post = keys@.subrange(0, i + 1);
                assert forall|k: ClientKey| #[trigger] post.contains(k) == (pre.contains(k) || k == key) by {
                    if k == key {
                        assert(post[i as int] == key);
                    }
                    if pre.contains(k) {
                        let j = choose|j: int| 0 <= j < pre.len() && pre[j] == k;
                        assert(post[j] == k);
                    }
                    if post.contains(k) && k != key {
                        let j = choose|j: int| 0 <= j < post.len() && post[j] == k;
                        assert(pre[j] == k);
                    }
                }
                assert(self.records() =~= m0.restrict(
                    m0.dom().filter(
                        |k: ClientKey|
                            !(keys@.subrange(0, i + 1).contains(k) && window_expired(
                                m0[k].window_start,
                                now,
                            )),
                    ),
                ));
            }
            i = i + 1;
        }
        proof {
            assert(keys@.subrange(0, keys@.len() as int) == keys@);
            assert(self.records() =~= swept(m0, now));
        }
    }
}

/// The address a request comes from, as the rate limiter tracks it.
pub struct ClientIp(pub IpAddress);

impl ClientIp {
    /// The client address of a request, from its forwarded-for address, its
    /// real-IP address and its peer address (each `None` where absent or
    /// unparsable); the loopback address if none is known.
    pub fn from_request(
        forwarded_for: Option<IpAddress>,
        real_ip: Option<IpAddress>,
        remote: Option<IpAddress>,
    ) -> (r: Self)
        ensures
            r.0 == resolved_client_ip(forwarded_for, real_ip, remote),
    {
        ClientIp(client_ip_or_loopback(forwarded_for, real_ip, remote))
    }
}

/// Proof that a request passed its admission check, with the address it was
/// counted under.
pub struct RateLimitGuard {
    pub ip: IpAddress,
}

impl RateLimitGuard {
    /// The check run before a protected handler: resolves the client address of
    /// the request and runs the admission check for it at the current time.
    pub fn from_request(
        limiter: &mut RateLimiter,
        forwarded_for: Option<IpAddress>,
        real_ip: Option<IpAddress>,
        remote: Option<IpAddress>,
    ) -> (r: Result<Self, RateLimitError>)
        requires
            old(limiter).wf(),
        ensures
            final(limiter).wf(),
            final(limiter).spec_config() == old(limiter).spec_config(),
            ({
                let ip = resolved_client_ip(forwarded_for, real_ip, remote);
                exists|now: i64|
                    {
                        let (records, out) = #[trigger] check_model(
                            old(limiter).records(),
                            old(limiter).quota(),
                            ip.spec_key(),
                            now,
                        );
                        &&& time_in_range(now)
                        &&& final(limiter).records() == records
                        &&& match out {
                            Ok(()) => r is Ok && r->Ok_0.ip == ip,
                            Err(e) => r == Err::<Self, RateLimitError>(e),
                        }
                    }
            }),
    {
        let ip = client_ip_or_loopback(forwarded_for, real_ip, remote);
        match limiter.check_rate_limit(ip) {
            Ok(()) => Ok(RateLimitGuard { ip }),
            Err(e) => Err(e),
        }
    }
}

/// Relies on chrono's conversion from `SystemTime::now()` to `DateTime<Utc>`
/// and on `DateTime::timestamp`: the current time in whole seconds since the
/// Unix epoch, negative for a clock set before 1970. chrono only represents
/// years within about 262,000 of year 0, far inside the range stated here.
#[verifier::external_body]
fn current_timestamp() -> (r: i64)
    ensures
        time_in_range(r),
{
    chrono::DateTime::<chrono::Utc>::from(std::time::SystemTime::now()).timestamp()
}

} // verus!
