use vstd::prelude::*;
use crate::forecast::WeatherData;

verus! {

/// Milliseconds between two weather refreshes: thirty minutes.
pub const REFRESH_INTERVAL_MS: u64 = 1800000;

/// Longest wait for a keypress in one turn of the loop, in milliseconds.
pub const POLL_TIMEOUT_MS: u64 = 500;

/// Whether the clock's separator is shown at `t` milliseconds since the
/// epoch: on in even half-second windows, off in odd ones.
pub open spec fn blink_phase(t: int) -> bool {
    (t / 500) % 2 == 0
}

/// Whether the clock's separator is shown at `t_ms` milliseconds since the
/// epoch.
pub fn blink_on(t_ms: i64) -> (r: bool)
    ensures
        r == blink_phase(t_ms as int),
{
    if t_ms >= 0 {
        let u = t_ms as u64;
        (u / 500) % 2 == 0
    } else {
        let mag: u64 = ((-(t_ms + 1)) as u64) + 1;
        let up: u64 = (mag + 499) / 500;
        proof {
            let t = t_ms as int;
            let q = t / 500;
            assert(t == -(mag as int));
            assert(q * 500 <= t < q * 500 + 500);
            assert(up as int * 500 >= mag as int && (up as int) * 500 < mag as int + 500) by (nonlinear_arith)
                requires
                    up as int == (mag as int + 499) / 500,
            ;
            assert(q == -(up as int)) by (nonlinear_arith)
                requires
                    q * 500 <= t < q * 500 + 500,
                    t == -(mag as int),
                    up * 500 >= mag,
                    up * 500 < mag + 500,
            ;
            assert((q % 2 == 0) == ((up as int) % 2 == 0));
        }
        up % 2 == 0
    }
}

/// A keypress as the loop sees it.
#[derive(Clone, Copy, Debug, PartialEq, Eq, Structural)]
pub enum KeyPress {
    Char(char),
    Esc,
    Other,
}

/// The keys that end the program: lowercase 'q' and escape.
pub open spec fn is_quit_key(k: KeyPress) -> bool {
    k == KeyPress::Char('q') || k == KeyPress::Esc
}

/// Whether `k` ends the program.
pub fn quits(k: KeyPress) -> (r: bool)
    ensures
        r == is_quit_key(k),
{
    match k {
        KeyPress::Char(c) => c == 'q',
        KeyPress::Esc => true,
        KeyPress::Other => false,
    }
}

/// What the loop does after waiting for a keypress.
#[derive(Clone, Copy, Debug, PartialEq, Eq, Structural)]
pub enum LoopAction {
    /// End the loop with success.
    Quit,
    /// Fetch the weather once, then record the outcome.
    Refresh,
    /// Draw the next frame.
    Continue,
}

/// The state that the loop carries from one turn to the next: the weather of
/// the last successful fetch, if any, and when the last fetch was tried
/// (milliseconds on a monotonic clock).
#[derive(Clone, Debug)]
pub struct DisplayState {
    pub weather: Option<WeatherData>,
    pub last_refresh_ms: u64,
}

impl DisplayState {
    /// A refresh is due once the interval has passed since the last try.
    pub open spec fn refresh_due_at(&self, now: int) -> bool {
        now - self.last_refresh_ms >= REFRESH_INTERVAL_MS
    }

    /// What the loop does at `now` after the wait gave `key`: a quit key ends
    /// it; else a due refresh is made; else the loop goes on.
    pub open spec fn action_at(&self, key: Option<KeyPress>, now: int) -> LoopAction {
        if key matches Some(k) && is_quit_key(k) {
            LoopAction::Quit
        } else if self.refresh_due_at(now) {
            LoopAction::Refresh
        } else {
            LoopAction::Continue
        }
    }

    /// The state at startup, after the first fetch at `now_ms` gave `initial`.
    pub fn new(initial: Option<WeatherData>, now_ms: u64) -> (r: DisplayState)
        ensures
            r.weather == initial,
            r.last_refresh_ms == now_ms,
    {
        DisplayState { weather: initial, last_refresh_ms: now_ms }
    }

    /// Whether a refresh is due at `now_ms`.
    pub fn refresh_due(&self, now_ms: u64) -> (r: bool)
        ensures
            r == self.refresh_due_at(now_ms as int),
    {
        now_ms >= self.last_refresh_ms && now_ms - self.last_refresh_ms >= REFRESH_INTERVAL_MS
    }

    /// What the loop does at `now_ms` after the wait for a keypress gave `key`.
    pub fn next_action(&self, key: Option<KeyPress>, now_ms: u64) -> (r: LoopAction)
        ensures
            r == self.action_at(key, now_ms as int),
    {
        let quit = match key {
            Some(k) => quits(k),
            None => false,
        };
        if quit {
            LoopAction::Quit
        } else if self.refresh_due(now_ms) {
            LoopAction::Refresh
        } else {
            LoopAction::Continue
        }
    }

    /// Records a fetch tried at `now_ms`: new weather replaces the old, an
    /// absent result keeps it, and the next refresh is timed from `now_ms`
    /// either way.
    pub fn record_fetch(&mut self, fetched: Option<WeatherData>, now_ms: u64)
        ensures
            final(self).weather == (if fetched is Some {
                fetched
            } else {
                old(self).weather
            }),
            final(self).last_refresh_ms == now_ms,
    {
        if fetched.is_some() {
            self.weather = fetched;
        }
        self.last_refresh_ms = now_ms;
    }
}

/// The blink repeats every second: the phase at `t` is the phase at `t + 1000`.
pub proof fn lemma_blink_period(t: int)
    ensures
        blink_phase(t) == blink_phase(t + 1000),
{
    assert((t + 1000) / 500 == t / 500 + 2) by (nonlinear_arith);
}

/// The blink is constant on each half-second window that starts at a
/// multiple of 500 ms.
pub proof fn lemma_blink_constant_in_window(k: int, a: int, b: int)
    requires
        500 * k <= a < 500 * k + 500,
        500 * k <= b < 500 * k + 500,
    ensures
        blink_phase(a) == blink_phase(b),
{
    assert(a / 500 == k) by (nonlinear_arith)
        requires
            500 * k <= a < 500 * k + 500,
    ;
    assert(b / 500 == k) by (nonlinear_arith)
        requires
            500 * k <= b < 500 * k + 500,
    ;
}

/// The blink flips every half second: the phases at `t` and `t + 500` differ.
pub proof fn lemma_blink_alternates(t: int)
    ensures
        blink_phase(t) != blink_phase(t + 500),
{
    assert((t + 500) / 500 == t / 500 + 1) by (nonlinear_arith);
}

/// A quit key ends the loop in the turn in which it comes, whatever the state
/// and the time.
pub proof fn lemma_quit_key_ends_loop(s: DisplayState, k: KeyPress, now: int)
    requires
        is_quit_key(k),
    ensures
        s.action_at(Some(k), now) == LoopAction::Quit,
{
}

/// Once the interval has passed since the last fetch, a turn without a quit
/// key makes a refresh; once that fetch is recorded at the same time (as
/// `record_fetch` leaves the state), no turn makes another until the interval
/// has passed again, whatever the fetch gave.
pub proof fn lemma_refresh_once_per_interval(
    before: DisplayState,
    after: DisplayState,
    key: Option<KeyPress>,
    fetched: Option<WeatherData>,
    now: int,
    later: int,
)
    requires
        before.refresh_due_at(now),
        !(key matches Some(k) && is_quit_key(k)),
        after.weather == (if fetched is Some {
            fetched
        } else {
            before.weather
        }),
        after.last_refresh_ms == now,
        now <= later,
    ensures
        before.action_at(key, now) == LoopAction::Refresh,
        after.action_at(key, later) == (if later - now >= REFRESH_INTERVAL_MS {
            LoopAction::Refresh
        } else {
            LoopAction::Continue
        }),
{
}

} // verus!
