//! The fixed-window rate limiter, per client address: counted in a shared store where one
//! is connected, and otherwise in memory.

use std::collections::HashMap;

use vstd::prelude::*;
use vstd::string::*;

use crate::json::{single, Json, JsonView};
use crate::reply::{json_view, Reply, ReplyView, TOO_MANY_REQUESTS};
use crate::text::{decimal, digit, number};

verus! {

broadcast use vstd::std_specs::hash::group_hash_axioms;

/// The nanoseconds of a second.
pub const SECOND: u128 = 1_000_000_000;

/// The address of a client.
#[derive(Clone, Copy)]
pub enum ClientAddr {
    V4(u32),
    V6(u128),
}

/// How many requests of an address were counted in a window, and when the window ends.
#[derive(Clone, Copy)]
pub struct Window {
    pub count: u32,
    pub end: u128,
}

/// Where requests are counted.
enum Backend {
    Memory(HashMap<u32, Window>, HashMap<u128, Window>),
    Shared,
}

/// The limiter: how many requests a window admits, how long it is, and what was counted.
pub struct RateLimiter {
    backend: Backend,
    limit: u32,
    window: u128,
}

/// What a window stands for.
pub struct WindowView {
    pub count: nat,
    pub end: nat,
}

/// What a limiter stands for. Times and the length of a window are in nanoseconds.
pub struct RateLimiterView {
    pub limit: nat,
    pub window: nat,
    /// Whether the counting is left to the shared store.
    pub shared: bool,
    pub windows: Map<ClientAddr, WindowView>,
}

/// The window of an address after a request: the open one with one more request, or else a new one.
pub open spec fn counted(open: Option<WindowView>, now: nat, window: nat) -> WindowView {
    match open {
        Some(w) => if now < w.end {
            WindowView { count: w.count + 1, end: w.end }
        } else {
            WindowView { count: 1, end: now + window }
        },
        None => WindowView { count: 1, end: now + window },
    }
}

impl RateLimiterView {
    /// The window of an address, if one was ever opened.
    pub open spec fn window_of(self, addr: ClientAddr) -> Option<WindowView> {
        if self.windows.contains_key(addr) {
            Some(self.windows[addr])
        } else {
            None
        }
    }

    /// The window of an address once a request was counted.
    pub open spec fn next_window(self, addr: ClientAddr, now: nat) -> WindowView {
        counted(self.window_of(addr), now, self.window)
    }

    /// The limiter after a request was counted in memory.
    pub open spec fn after(self, addr: ClientAddr, now: nat) -> RateLimiterView {
        if self.limit == 0 {
            self
        } else {
            RateLimiterView {
                windows: self.windows.insert(addr, self.next_window(addr, now)),
                ..self
            }
        }
    }

    /// Whether a request can be counted within the range of the counter and the clock.
    pub open spec fn can_count(self, addr: ClientAddr, now: nat) -> bool {
        self.limit == 0 || self.shared || {
            &&& now + self.window <= u128::MAX
            &&& self.next_window(addr, now).count <= u32::MAX
        }
    }

    /// Whether a request that is counted in memory is let through.
    pub open spec fn admits(self, addr: ClientAddr, now: nat) -> bool {
        self.limit == 0 || self.next_window(addr, now).count <= self.limit
    }
}

/// What is to be done about a request.
pub enum Check {
    /// It is decided whether the request is let through.
    Decided(bool),
    /// The shared store has to count under a key that it keeps for some seconds.
    Count { key: String, seconds: u64 },
}

/// The whole seconds of a window, but at least one.
pub open spec fn whole_seconds(window: nat) -> nat {
    if window / (SECOND as nat) == 0 {
        1
    } else {
        window / (SECOND as nat)
    }
}

/// The key under which the shared store counts.
pub open spec fn counter_key(addr: Seq<char>, unix_seconds: nat, window: nat) -> Seq<char> {
    "rl:"@ + addr + ":"@ + decimal(unix_seconds / whole_seconds(window))
}

impl RateLimiter {
    pub closed spec fn view(&self) -> RateLimiterView {
        RateLimiterView {
            limit: self.limit as nat,
            window: self.window as nat,
            shared: self.backend is Shared,
            windows: match self.backend {
                Backend::Memory(v4, v6) => Map::new(
                    |addr: ClientAddr|
                        match addr {
                            ClientAddr::V4(a) => v4@.contains_key(a),
                            ClientAddr::V6(a) => v6@.contains_key(a),
                        },
                    |addr: ClientAddr|
                        {
                            let w = match addr {
                                ClientAddr::V4(a) => v4@[a],
                                ClientAddr::V6(a) => v6@[a],
                            };
                            WindowView { count: w.count as nat, end: w.end as nat }
                        },
                ),
                Backend::Shared => Map::empty(),
            },
        }
    }

    /// A window is no longer than its whole seconds can be told.
    pub closed spec fn wf(&self) -> bool {
        self.window / SECOND <= u64::MAX
    }

    /// Builds a limiter that counts in the shared store where one was connected, and else in memory.
    pub fn from_env(limit: u32, window: u128, connected: bool) -> (r: Self)
        requires
            window / SECOND <= u64::MAX,
        ensures
            r.wf(),
            r@.limit == limit,
            r@.window == window,
            r@.shared == connected,
            r@.windows == Map::<ClientAddr, WindowView>::empty(),
    {
        let backend = if connected {
            Backend::Shared
        } else {
            Backend::Memory(HashMap::new(), HashMap::new())
        };
        let r = RateLimiter { backend, limit, window };
        assert(r@.windows =~= Map::<ClientAddr, WindowView>::empty());
        r
    }

    /// The window of an address, where requests are counted in memory.
    fn open_window(&self, addr: ClientAddr) -> (r: Option<Window>)
        ensures
            match r {
                Some(w) => self@.window_of(addr) == Some(
                    WindowView { count: w.count as nat, end: w.end as nat },
                ),
                None => self@.window_of(addr) is None,
            },
    {
        match &self.backend {
            Backend::Memory(v4, v6) => match addr {
                ClientAddr::V4(a) => match v4.get(&a) {
                    Some(w) => Some(*w),
                    None => None,
                },
                ClientAddr::V6(a) => match v6.get(&a) {
                    Some(w) => Some(*w),
                    None => None,
                },
            },
            Backend::Shared => None,
        }
    }

    /// Decides on a request of an address. `now` is on a clock that never goes back.
    pub fn check(&mut self, addr: ClientAddr, addr_text: &str, now: u128, unix_seconds: u64) -> (r:
        Check)
        requires
            old(self).wf(),
            old(self)@.can_count(addr, now as nat),
        ensures
            final(self).wf(),
            old(self)@.limit == 0 ==> r == Check::Decided(true) && final(self)@ == old(self)@,
            old(self)@.limit != 0 && !old(self)@.shared ==> {
                &&& r == Check::Decided(old(self)@.admits(addr, now as nat))
                &&& final(self)@ == old(self)@.after(addr, now as nat)
            },
            old(self)@.limit != 0 && old(self)@.shared ==> {
                &&& final(self)@ == old(self)@
                &&& r matches Check::Count { key, seconds }
                &&& key@ == counter_key(addr_text@, unix_seconds as nat, old(self)@.window)
                &&& seconds == whole_seconds(old(self)@.window)
            },
    {
        if self.limit == 0 {
            return Check::Decided(true);
        }
        let open = self.open_window(addr);
        let window = self.window;
        let limit = self.limit;
        match &mut self.backend {
            Backend::Memory(v4, v6) => {
                let next: Window = match open {
                    Some(w) => if now < w.end {
                        Window { count: w.count + 1, end: w.end }
                    } else {
                        Window { count: 1, end: now + window }
                    },
                    None => Window { count: 1, end: now + window },
                };
                match addr {
                    ClientAddr::V4(a) => {
                        v4.insert(a, next);
                    },
                    ClientAddr::V6(a) => {
                        v6.insert(a, next);
                    },
                }
                proof {
                    assert(self@.windows =~= old(self)@.after(addr, now as nat).windows);
                }
                Check::Decided(next.count <= limit)
            },
            Backend::Shared => {
                let whole = (window / SECOND) as u64;
                let seconds: u64 = if whole == 0 {
                    1
                } else {
                    whole
                };
                let mut key = "rl:".to_owned();
                key.append(addr_text);
                key.append(":");
                key.append(number(unix_seconds / seconds).as_str());
                Check::Count { key, seconds }
            },
        }
    }

    /// Decides on a request that can be counted; otherwise leaves the limiter as it is.
    pub fn try_check(&mut self, addr: ClientAddr, addr_text: &str, now: u128, unix_seconds: u64) -> (r:
        Option<Check>)
        requires
            old(self).wf(),
        ensures
            final(self).wf(),
            r is Some <==> old(self)@.can_count(addr, now as nat),
            r is None ==> final(self)@ == old(self)@,
            r matches Some(c) ==> {
                &&& old(self)@.limit == 0 ==> c == Check::Decided(true) && final(self)@
                    == old(self)@
                &&& old(self)@.limit != 0 && !old(self)@.shared ==> {
                    &&& c == Check::Decided(old(self)@.admits(addr, now as nat))
                    &&& final(self)@ == old(self)@.after(addr, now as nat)
                }
                &&& old(self)@.limit != 0 && old(self)@.shared ==> {
                    &&& final(self)@ == old(self)@
                    &&& c matches Check::Count { key, seconds }
                    &&& key@ == counter_key(addr_text@, unix_seconds as nat, old(self)@.window)
                    &&& seconds == whole_seconds(old(self)@.window)
                }
            },
    {
        if self.limit != 0 && matches!(&self.backend, Backend::Memory(_, _)) {
            if now > u128::MAX - self.window {
                return None;
            }
            match self.open_window(addr) {
                Some(w) => if now < w.end && w.count == u32::MAX {
                    return None;
                },
                None => {},
            }
        }
        Some(self.check(addr, addr_text, now, unix_seconds))
    }

    /// Decides by the number that the shared store counted; a store that fails lets through.
    pub fn counted_by_store(&self, answer: Option<i64>) -> (r: bool)
        ensures
            r == (match answer {
                Some(n) => n <= self@.limit,
                None => true,
            }),
    {
        match answer {
            Some(n) => n <= self.limit as i64,
            None => true,
        }
    }
}

/// Where the shared store is to be looked for: at the configured location, if it is not empty.
pub fn shared_store(redis_url: Option<String>) -> (r: Option<String>)
    ensures
        match r {
            Some(url) => redis_url == Some(url) && url@.len() > 0,
            None => redis_url matches Some(url) ==> url@.len() == 0,
        },
{
    match redis_url {
        Some(url) => if url.as_str().is_empty() {
            None
        } else {
            Some(url)
        },
        None => None,
    }
}

/// The reply to a request over the limit.
pub open spec fn over_limit() -> ReplyView {
    json_view(
        TOO_MANY_REQUESTS,
        JsonView::Object(seq![("error"@, JsonView::Text("rate limit exceeded, slow down"@))]),
    )
}

/// Refuses a request that is not let through.
pub fn limit(admitted: bool) -> (r: Option<Reply>)
    ensures
        match r {
            Some(reply) => !admitted && reply@ == over_limit(),
            None => admitted,
        },
{
    if admitted {
        None
    } else {
        Some(
            Reply::json(
                TOO_MANY_REQUESTS,
                single("error", Json::Text("rate limit exceeded, slow down".to_owned())),
            ),
        )
    }
}

// What holds of the limiter over many requests.

/// How many of the requests in a row are of an address.
pub open spec fn requests_of(calls: Seq<(ClientAddr, nat)>, addr: ClientAddr) -> nat
    decreases calls.len(),
{
    if calls.len() == 0 {
        0
    } else {
        (if calls[0].0 == addr {
            1nat
        } else {
            0nat
        }) + requests_of(calls.skip(1), addr)
    }
}

/// How many of the requests of an address, in a row of requests at their times, are let through.
pub open spec fn admitted_of(
    limiter: RateLimiterView,
    calls: Seq<(ClientAddr, nat)>,
    addr: ClientAddr,
) -> nat
    decreases calls.len(),
{
    if calls.len() == 0 {
        0
    } else {
        let (a, now) = calls[0];
        (if a == addr && limiter.admits(a, now) {
            1nat
        } else {
            0nat
        }) + admitted_of(limiter.after(a, now), calls.skip(1), addr)
    }
}

/// The limiter after a row of requests at their times was counted in memory.
pub open spec fn after_all(
    limiter: RateLimiterView,
    calls: Seq<(ClientAddr, nat)>,
) -> RateLimiterView
    decreases calls.len(),
{
    if calls.len() == 0 {
        limiter
    } else {
        after_all(limiter.after(calls[0].0, calls[0].1), calls.skip(1))
    }
}

/// Whether the request at a place of a row is let through, once those before it were counted.
pub open spec fn admitted_at(
    limiter: RateLimiterView,
    calls: Seq<(ClientAddr, nat)>,
    i: int,
) -> bool {
    after_all(limiter, calls.take(i)).admits(calls[i].0, calls[i].1)
}

/// Whether every request of an address in a row is made before a moment.
pub open spec fn all_before(calls: Seq<(ClientAddr, nat)>, addr: ClientAddr, end: nat) -> bool {
    forall|i: int| 0 <= i < calls.len() && (#[trigger] calls[i]).0 == addr ==> calls[i].1 < end
}

/// The open window of an address counts every request of that address, and nothing else.
proof fn lemma_open_window_counts(
    limiter: RateLimiterView,
    calls: Seq<(ClientAddr, nat)>,
    addr: ClientAddr,
)
    requires
        limiter.limit > 0,
        limiter.windows.contains_key(addr),
        all_before(calls, addr, limiter.windows[addr].end),
    ensures
        after_all(limiter, calls).limit == limiter.limit,
        after_all(limiter, calls).window_of(addr) == Some(
            WindowView {
                count: limiter.windows[addr].count + requests_of(calls, addr),
                end: limiter.windows[addr].end,
            },
        ),
    decreases calls.len(),
{
    if calls.len() > 0 {
        let rest = calls.skip(1);
        assert forall|i: int|
            0 <= i < rest.len() && (#[trigger] rest[i]).0 == addr implies rest[i].1
            < limiter.windows[addr].end by {
            assert(rest[i] == calls[i + 1]);
        }
        lemma_open_window_counts(limiter.after(calls[0].0, calls[0].1), rest, addr);
    }
}

/// One more request in a row is one more of its address.
proof fn lemma_requests_of_grows(calls: Seq<(ClientAddr, nat)>, addr: ClientAddr, i: int)
    requires
        0 <= i < calls.len(),
        calls[i].0 == addr,
    ensures
        requests_of(calls.take(i + 1), addr) == requests_of(calls.take(i), addr) + 1,
    decreases i,
{
    if i == 0 {
        reveal_with_fuel(requests_of, 2);
        assert(calls.take(1).skip(1).len() == 0);
    } else {
        let rest = calls.skip(1);
        assert(calls.take(i + 1).skip(1) =~= rest.take(i));
        assert(calls.take(i).skip(1) =~= rest.take(i - 1));
        lemma_requests_of_grows(rest, addr, i - 1);
    }
}

/// In an open window the requests of an address are let through in their order, up to what
/// the window has left, and then no more: each one is let through exactly where it and those
/// of the address before it still fit.
pub proof fn law_open_window_admits_in_order(
    limiter: RateLimiterView,
    calls: Seq<(ClientAddr, nat)>,
    addr: ClientAddr,
    i: int,
)
    requires
        limiter.limit > 0,
        limiter.windows.contains_key(addr),
        all_before(calls, addr, limiter.windows[addr].end),
        0 <= i < calls.len(),
        calls[i].0 == addr,
    ensures
        admitted_at(limiter, calls, i) <==> limiter.windows[addr].count + requests_of(
            calls.take(i + 1),
            addr,
        ) <= limiter.limit,
{
    let earlier = calls.take(i);
    assert forall|j: int|
        0 <= j < earlier.len() && (#[trigger] earlier[j]).0 == addr implies earlier[j].1
        < limiter.windows[addr].end by {
        assert(earlier[j] == calls[j]);
    }
    lemma_open_window_counts(limiter, earlier, addr);
    lemma_requests_of_grows(calls, addr, i);
}

/// In an open window an address is let through for exactly as many requests as the window
/// has left, whatever other addresses do meanwhile, and then no more.
pub proof fn law_open_window_admits_the_rest(
    limiter: RateLimiterView,
    calls: Seq<(ClientAddr, nat)>,
    addr: ClientAddr,
)
    requires
        limiter.limit > 0,
        limiter.windows.contains_key(addr),
        all_before(calls, addr, limiter.windows[addr].end),
    ensures
        ({
            let left = limiter.limit - limiter.windows[addr].count;
            let asked = requests_of(calls, addr) as int;
            admitted_of(limiter, calls, addr) == (if left <= 0 {
                0
            } else if asked <= left {
                asked
            } else {
                left
            })
        }),
    decreases calls.len(),
{
    if calls.len() > 0 {
        let (a, now) = calls[0];
        let rest = calls.skip(1);
        let next = limiter.after(a, now);
        assert forall|i: int|
            0 <= i < rest.len() && (#[trigger] rest[i]).0 == addr implies rest[i].1
            < limiter.windows[addr].end by {
            assert(rest[i] == calls[i + 1]);
        }
        law_open_window_admits_the_rest(next, rest, addr);
    }
}

/// Of the requests that an address makes from the opening of a window to its end, the first
/// `limit` are let through and the rest are refused, whatever other addresses do meanwhile.
pub proof fn law_window_admits_the_first(
    limiter: RateLimiterView,
    addr: ClientAddr,
    start: nat,
    later: Seq<(ClientAddr, nat)>,
    i: int,
)
    requires
        limiter.limit > 0,
        limiter.windows.contains_key(addr) ==> limiter.windows[addr].end <= start,
        all_before(later, addr, start + limiter.window),
        0 <= i <= later.len(),
        (seq![(addr, start)] + later)[i].0 == addr,
    ensures
        ({
            let calls = seq![(addr, start)] + later;
            admitted_at(limiter, calls, i) <==> requests_of(calls.take(i + 1), addr)
                <= limiter.limit
        }),
{
    let calls = seq![(addr, start)] + later;
    if i == 0 {
        lemma_requests_of_grows(calls, addr, 0);
        assert(calls.take(0).len() == 0);
    } else {
        assert(calls[i] == later[i - 1]);
        assert(calls.take(i).skip(1) =~= later.take(i - 1));
        assert(calls.take(i + 1).skip(1) =~= later.take(i));
        law_open_window_admits_in_order(limiter.after(addr, start), later, addr, i - 1);
    }
}

/// Of the requests that an address makes from the opening of a window to its end, as many as
/// the limit allows are let through, and no more.
pub proof fn law_window_admits_the_limit(
    limiter: RateLimiterView,
    addr: ClientAddr,
    start: nat,
    later: Seq<(ClientAddr, nat)>,
)
    requires
        limiter.limit > 0,
        limiter.windows.contains_key(addr) ==> limiter.windows[addr].end <= start,
        all_before(later, addr, start + limiter.window),
    ensures
        ({
            let calls = seq![(addr, start)] + later;
            admitted_of(limiter, calls, addr) == (if requests_of(calls, addr) <= limiter.limit {
                requests_of(calls, addr)
            } else {
                limiter.limit
            })
        }),
{
    let calls = seq![(addr, start)] + later;
    assert(calls.skip(1) =~= later);
    law_open_window_admits_the_rest(limiter.after(addr, start), later, addr);
}

/// A request touches no other address's window.
pub proof fn law_addresses_are_independent(
    limiter: RateLimiterView,
    addr: ClientAddr,
    other: ClientAddr,
    now: nat,
)
    requires
        addr != other,
    ensures
        limiter.after(addr, now).window_of(other) == limiter.window_of(other),
{
}

/// A limit of zero switches the limiter off.
pub proof fn law_zero_limit_admits_all(limiter: RateLimiterView, addr: ClientAddr, now: nat)
    requires
        limiter.limit == 0,
    ensures
        limiter.admits(addr, now),
        limiter.after(addr, now) == limiter,
{
}

/// Digits are never a colon.
proof fn lemma_decimal_digits(n: nat)
    ensures
        decimal(n).len() > 0,
        forall|i: int| 0 <= i < decimal(n).len() ==> '0' <= #[trigger] decimal(n)[i] <= '9',
    decreases n,
{
    if n >= 10 {
        lemma_decimal_digits(n / 10);
    }
}

/// Two numbers with the same decimal form are the same.
proof fn lemma_decimal_injective(m: nat, n: nat)
    requires
        decimal(m) == decimal(n),
    ensures
        m == n,
    decreases m,
{
    let a = decimal(m);
    let b = decimal(n);
    lemma_decimal_digits(m / 10);
    lemma_decimal_digits(n / 10);
    assert(a.last() == digit(m % 10));
    assert(b.last() == digit(n % 10));
    assert(m % 10 == n % 10);
    if m >= 10 {
        assert(a.drop_last() =~= decimal(m / 10));
        assert(b.drop_last() =~= decimal(n / 10));
        lemma_decimal_injective(m / 10, n / 10);
    } else if n >= 10 {
        assert(b.drop_last() =~= decimal(n / 10));
        assert(a.len() == 1);
    }
}

/// In the shared store two requests are counted together exactly where they come from the
/// same address in the same stretch of time.
pub proof fn law_counter_keys_are_distinct(
    a: Seq<char>,
    b: Seq<char>,
    s: nat,
    t: nat,
    window: nat,
)
    ensures
        counter_key(a, s, window) == counter_key(b, t, window) <==> a == b && s / whole_seconds(
            window,
        ) == t / whole_seconds(window),
{
    let m = s / whole_seconds(window);
    let n = t / whole_seconds(window);
    let x = counter_key(a, s, window);
    let y = counter_key(b, t, window);
    reveal_strlit("rl:");
    reveal_strlit(":");
    lemma_decimal_digits(m);
    lemma_decimal_digits(n);
    let p = 3 + a.len() as int;
    let q = 3 + b.len() as int;
    assert(x.len() == p + 1 + decimal(m).len());
    assert(y.len() == q + 1 + decimal(n).len());
    assert(x[p] == ':');
    assert(y[q] == ':');
    if x == y {
        if p < q {
            assert(x[q] == decimal(m)[q - p - 1]);
        } else if q < p {
            assert(y[p] == decimal(n)[p - q - 1]);
        }
        assert(a =~= x.subrange(3, p));
        assert(b =~= y.subrange(3, q));
        assert(decimal(m) =~= x.skip(p + 1));
        assert(decimal(n) =~= y.skip(q + 1));
        lemma_decimal_injective(m, n);
    }
}

/// A request is counted in the open window of its address, or else opens a new one that
/// lasts for the length of a window. It is let through where the window has counted no more
/// than the limit, itself included.
pub proof fn law_requests_are_counted(limiter: RateLimiterView, addr: ClientAddr, now: nat)
    requires
        limiter.limit > 0,
    ensures
        ({
            let next = limiter.after(addr, now);
            let open = limiter.windows.contains_key(addr) && now < limiter.windows[addr].end;
            &&& next.limit == limiter.limit
            &&& next.window == limiter.window
            &&& next.shared == limiter.shared
            &&& next.windows.contains_key(addr)
            &&& open ==> next.windows[addr].count == limiter.windows[addr].count + 1
            &&& open ==> next.windows[addr].end == limiter.windows[addr].end
            &&& !open ==> next.windows[addr].count == 1
            &&& !open ==> next.windows[addr].end == now + limiter.window
            &&& limiter.admits(addr, now) <==> next.windows[addr].count <= limiter.limit
            &&& forall|other: ClientAddr|
                other != addr ==> {
                    &&& #[trigger] next.windows.contains_key(other)
                        == limiter.windows.contains_key(other)
                    &&& limiter.windows.contains_key(other) ==> next.windows[other]
                        == limiter.windows[other]
                }
        }),
{
}

/// Once a window is over, its address is let through again.
pub proof fn law_next_window_begins(
    limiter: RateLimiterView,
    addr: ClientAddr,
    start: nat,
    now: nat,
)
    requires
        limiter.windows.contains_key(addr) ==> limiter.windows[addr].end <= start,
        now >= start + limiter.window,
    ensures
        limiter.after(addr, start).admits(addr, now),
{
}

/// A request can be counted wherever neither its counter nor the end of its window leaves the
/// range of its type.
pub proof fn law_can_count(limiter: RateLimiterView, addr: ClientAddr, now: nat)
    requires
        now + limiter.window <= u128::MAX,
        limiter.windows.contains_key(addr) ==> limiter.windows[addr].count < u32::MAX,
    ensures
        limiter.can_count(addr, now),
{
}

/// The shared store counts for the whole seconds of a window, and for one where there is none.
pub proof fn law_whole_seconds(seconds: nat, nanoseconds: nat)
    requires
        nanoseconds < 1_000_000_000,
    ensures
        seconds > 0 ==> whole_seconds(seconds * 1_000_000_000 + nanoseconds) == seconds,
        whole_seconds(nanoseconds) == 1,
{
}

/// The key of the shared store names the address and the stretch of time, counted in windows
/// since the epoch.
pub proof fn law_counter_key(addr: Seq<char>, stretch: nat, offset: nat, window: nat)
    requires
        offset < whole_seconds(window),
    ensures
        counter_key(addr, stretch * whole_seconds(window) + offset, window) == "rl:"@ + addr
            + ":"@ + decimal(stretch),
{
    let w = whole_seconds(window);
    assert((stretch * w + offset) / w == stretch) by (nonlinear_arith)
        requires
            offset < w,
    ;
}

/// A request over the limit is answered with status 429, and told to slow down.
pub proof fn law_over_limit()
    ensures
        over_limit().status == 429,
        over_limit().headers.len() == 0,
        over_limit().body is Json,
        over_limit().body->Json_0 is Object,
        over_limit().body->Json_0->Object_0.len() == 1,
        over_limit().body->Json_0->Object_0[0] == (
            "error"@,
            JsonView::Text("rate limit exceeded, slow down"@),
        ),
{
}

/// Without a limit, and where the shared store counts, every request can be taken.
pub proof fn law_nothing_to_count(limiter: RateLimiterView, addr: ClientAddr, now: nat)
    requires
        limiter.limit == 0 || limiter.shared,
    ensures
        limiter.can_count(addr, now),
{
}

} // verus!
