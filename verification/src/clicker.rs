//! The click engine's decisions: the click modes, the session that counts
//! clicks and decides when to stop, the interruptible wait between clicks,
//! and the outcome of start and stop requests.

use vstd::prelude::*;
use vstd::string::StringExecFns;

verus! {

/// Waits between clicks are cut into slices of at most this many
/// milliseconds, so stop and exit respond quickly even when the interval is
/// 60 seconds.
pub const SLICE_MS: u64 = 10;

/// Pause between the two presses of a double click, in milliseconds.
pub const DOUBLE_CLICK_GAP_MS: u64 = 10;

/// What one click of a session does.
#[derive(Debug, Clone, Copy, PartialEq, Eq, Structural)]
pub enum ClickMode {
    Left,
    Right,
    Double,
}

/// The click mode that a stored mode number selects: `0` left, `1` right,
/// `2` double, anything else left.
pub open spec fn click_mode_of(value: u32) -> ClickMode {
    if value == 1 {
        ClickMode::Right
    } else if value == 2 {
        ClickMode::Double
    } else {
        ClickMode::Left
    }
}

impl From<u32> for ClickMode {
    fn from(value: u32) -> (mode: Self) {
        match value {
            0 => ClickMode::Left,
            1 => ClickMode::Right,
            2 => ClickMode::Double,
            _ => ClickMode::Left,
        }
    }
}

impl vstd::std_specs::convert::FromSpecImpl<u32> for ClickMode {
    open spec fn obeys_from_spec() -> bool {
        true
    }

    open spec fn from_spec(value: u32) -> Self {
        click_mode_of(value)
    }
}

/// A mouse button.
#[derive(Debug, Clone, Copy, PartialEq, Eq, Structural)]
pub enum MouseButton {
    Left,
    Right,
}

/// One step of a click: press and release a button, or pause.
#[derive(Debug, Clone, Copy, PartialEq, Eq, Structural)]
pub enum ClickStep {
    Press(MouseButton),
    /// Pause, in milliseconds.
    Pause(u64),
}

impl ClickMode {
    /// The steps of one click in this mode.
    pub open spec fn spec_steps(self) -> Seq<ClickStep> {
        match self {
            ClickMode::Left => seq![ClickStep::Press(MouseButton::Left)],
            ClickMode::Right => seq![ClickStep::Press(MouseButton::Right)],
            ClickMode::Double => seq![
                ClickStep::Press(MouseButton::Left),
                ClickStep::Pause(DOUBLE_CLICK_GAP_MS),
                ClickStep::Press(MouseButton::Left),
            ],
        }
    }

    /// The steps of one click in this mode: one press of the left or the
    /// right button, or for a double click two presses of the left button
    /// with a short pause between them.
    pub fn steps(self) -> (steps: Vec<ClickStep>)
        ensures
            steps@ == self.spec_steps(),
    {
        let mut steps: Vec<ClickStep> = Vec::new();
        match self {
            ClickMode::Left => {
                steps.push(ClickStep::Press(MouseButton::Left));
            },
            ClickMode::Right => {
                steps.push(ClickStep::Press(MouseButton::Right));
            },
            ClickMode::Double => {
                steps.push(ClickStep::Press(MouseButton::Left));
                steps.push(ClickStep::Pause(DOUBLE_CLICK_GAP_MS));
                steps.push(ClickStep::Press(MouseButton::Left));
            },
        }
        assert(steps@ =~= self.spec_steps());
        steps
    }
}

/// A click session as plain values.
pub struct SessionView {
    pub mode: ClickMode,
    /// Wait after each click, in milliseconds.
    pub interval_ms: nat,
    /// Clicks to perform; `0` means no limit.
    pub count: nat,
    /// Clicks performed so far (not counted where there is no limit).
    pub clicks_done: nat,
}

/// A new session: the interval is at least one millisecond.
pub open spec fn fresh_session(mode: ClickMode, interval_ms: u32, count: u32) -> SessionView {
    SessionView {
        mode,
        interval_ms: if interval_ms == 0 {
            1
        } else {
            interval_ms as nat
        },
        count: count as nat,
        clicks_done: 0,
    }
}

/// Whether the session clicks once more: only while it runs, and, where it
/// has a limit, while fewer clicks than the limit were performed.
pub open spec fn session_continues(s: SessionView, running: bool) -> bool {
    running && (s.count == 0 || s.clicks_done < s.count)
}

/// The session after one more click.
pub open spec fn after_click(s: SessionView) -> SessionView {
    if s.count == 0 {
        s
    } else {
        SessionView { clicks_done: s.clicks_done + 1, ..s }
    }
}

/// What the worker of a session does next.
#[derive(Debug, Clone, Copy, PartialEq, Eq, Structural)]
pub enum WorkerAction {
    /// Click once in this mode, then wait the session's interval.
    Click(ClickMode),
    /// End the session.
    Finish,
}

/// The clicks of one session: its mode, interval and limit, and how many
/// clicks were performed.
pub struct ClickSession {
    mode: ClickMode,
    interval_ms: u64,
    count: u32,
    clicks_done: u32,
}

impl View for ClickSession {
    type V = SessionView;

    closed spec fn view(&self) -> SessionView {
        SessionView {
            mode: self.mode,
            interval_ms: self.interval_ms as nat,
            count: self.count as nat,
            clicks_done: self.clicks_done as nat,
        }
    }
}

impl ClickSession {
    #[verifier::type_invariant]
    spec fn inv(self) -> bool {
        &&& self.interval_ms >= 1
        &&& self.count == 0 ==> self.clicks_done == 0
        &&& self.clicks_done <= self.count
    }

    /// A session that clicks in `mode`, waits `interval_ms` (at least one)
    /// after each click, and performs `count` clicks (`0`: until stopped).
    pub fn new(mode: ClickMode, interval_ms: u32, count: u32) -> (s: Self)
        ensures
            s@ == fresh_session(mode, interval_ms, count),
    {
        let interval: u64 = if interval_ms == 0 { 1 } else { interval_ms as u64 };
        ClickSession { mode, interval_ms: interval, count, clicks_done: 0 }
    }

    /// The wait after each click, in milliseconds.
    pub fn interval_ms(&self) -> (ms: u64)
        ensures
            ms as nat == self@.interval_ms,
            ms >= 1,
    {
        proof {
            use_type_invariant(self);
        }
        self.interval_ms
    }

    /// Clicks performed so far.
    pub fn clicks_done(&self) -> (n: u32)
        ensures
            n as nat == self@.clicks_done,
    {
        self.clicks_done
    }

    /// The worker's next step, given whether the session still runs: click
    /// once more in the session's mode, counting the click, or finish.
    pub fn next(&mut self, running: bool) -> (act: WorkerAction)
        ensures
            session_continues(old(self)@, running) ==> act == WorkerAction::Click(old(self)@.mode)
                && final(self)@ == after_click(old(self)@),
            !session_continues(old(self)@, running) ==> act == WorkerAction::Finish && final(self)@ == old(self)@,
    {
        proof {
            use_type_invariant(&*self);
        }
        let infinite = self.count == 0;
        if running && (infinite || self.clicks_done < self.count) {
            if !infinite {
                self.clicks_done = self.clicks_done + 1;
            }
            WorkerAction::Click(self.mode)
        } else {
            WorkerAction::Finish
        }
    }
}

/// A new session has the requested mode and limit, no clicks yet, and waits
/// the requested interval after each click (one millisecond where zero was
/// requested), whatever its mode.
pub proof fn lemma_fresh_session_settings(mode: ClickMode, interval_ms: u32, count: u32)
    ensures
        fresh_session(mode, interval_ms, count).mode == mode,
        fresh_session(mode, interval_ms, count).count == count,
        fresh_session(mode, interval_ms, count).clicks_done == 0,
        interval_ms > 0 ==> fresh_session(mode, interval_ms, count).interval_ms == interval_ms,
        interval_ms == 0 ==> fresh_session(mode, interval_ms, count).interval_ms == 1,
{
}

/// A click changes neither the session's mode, nor its interval, nor its
/// limit; it adds one to the clicks performed where there is a limit.
pub proof fn lemma_click_keeps_session_settings(s: SessionView)
    ensures
        after_click(s).mode == s.mode,
        after_click(s).interval_ms == s.interval_ms,
        after_click(s).count == s.count,
        s.count > 0 ==> after_click(s).clicks_done == s.clicks_done + 1,
        s.count == 0 ==> after_click(s).clicks_done == s.clicks_done,
{
}

/// However many clicks a session performs, it keeps its mode, its limit
/// and the interval it was started with.
pub proof fn lemma_session_interval_constant(mode: ClickMode, interval_ms: u32, count: u32, k: nat)
    ensures
        run_clicks(fresh_session(mode, interval_ms, count), k).interval_ms == (if interval_ms == 0 {
            1
        } else {
            interval_ms as nat
        }),
        run_clicks(fresh_session(mode, interval_ms, count), k).mode == mode,
        run_clicks(fresh_session(mode, interval_ms, count), k).count == count,
    decreases k,
{
    if k > 0 {
        lemma_session_interval_constant(mode, interval_ms, count, (k - 1) as nat);
    }
}

/// The stored mode numbers select the click modes of the settings table:
/// 0 left, 1 right, 2 double; any other number selects left click.
pub proof fn lemma_click_mode_numbers(value: u32)
    ensures
        value == 1 <==> click_mode_of(value) == ClickMode::Right,
        value == 2 <==> click_mode_of(value) == ClickMode::Double,
        (value == 0 || value > 2) <==> click_mode_of(value) == ClickMode::Left,
{
}

/// A click presses the mode's own button: once for left or right click,
/// twice (the left button) for a double click, with one pause between.
pub proof fn lemma_click_steps_press_mode_button(mode: ClickMode)
    ensures
        mode == ClickMode::Right ==> mode.spec_steps().len() == 1 && mode.spec_steps()[0]
            == ClickStep::Press(MouseButton::Right),
        mode == ClickMode::Left ==> mode.spec_steps().len() == 1 && mode.spec_steps()[0]
            == ClickStep::Press(MouseButton::Left),
        mode == ClickMode::Double ==> mode.spec_steps().len() == 3 && mode.spec_steps()[0]
            == ClickStep::Press(MouseButton::Left) && mode.spec_steps()[2] == ClickStep::Press(
            MouseButton::Left,
        ) && mode.spec_steps()[1] is Pause,
{
}

/// The `k`-th state of a session that keeps running, from `s`.
pub open spec fn run_clicks(s: SessionView, k: nat) -> SessionView
    decreases k,
{
    if k == 0 {
        s
    } else {
        after_click(run_clicks(s, (k - 1) as nat))
    }
}

/// A session with a limit of `count` clicks that is never stopped clicks
/// exactly `count` times: it continues in each of its first `count` states
/// and finishes in the next.
pub proof fn lemma_counted_session_clicks_count(
    mode: ClickMode,
    interval_ms: u32,
    count: u32,
    k: nat,
)
    requires
        count > 0,
        k <= count,
    ensures
        run_clicks(fresh_session(mode, interval_ms, count), k).clicks_done == k,
        run_clicks(fresh_session(mode, interval_ms, count), k).count == count,
        run_clicks(fresh_session(mode, interval_ms, count), k).mode == mode,
        session_continues(run_clicks(fresh_session(mode, interval_ms, count), k), true) <==> k
            < count,
    decreases k,
{
    if k > 0 {
        lemma_counted_session_clicks_count(mode, interval_ms, count, (k - 1) as nat);
    }
}

/// A session without a limit clicks as long as it runs, and no session
/// clicks once it is stopped.
pub proof fn lemma_unlimited_session_runs_until_stopped(
    mode: ClickMode,
    interval_ms: u32,
    k: nat,
)
    ensures
        run_clicks(fresh_session(mode, interval_ms, 0), k) == fresh_session(mode, interval_ms, 0),
        session_continues(run_clicks(fresh_session(mode, interval_ms, 0), k), true),
        forall|s: SessionView| !#[trigger] session_continues(s, false),
    decreases k,
{
    if k > 0 {
        lemma_unlimited_session_runs_until_stopped(mode, interval_ms, (k - 1) as nat);
    }
}

/// The next slice of a wait of `remaining` milliseconds.
pub open spec fn slice_of(remaining: nat) -> nat {
    if remaining < SLICE_MS {
        remaining
    } else {
        SLICE_MS as nat
    }
}

/// A wait that stops early when the session stops running: it sleeps in
/// slices of at most `SLICE_MS` until the whole interval has passed.
pub struct SleepPlan {
    remaining_ms: u64,
}

impl View for SleepPlan {
    type V = nat;

    /// The milliseconds still to wait.
    closed spec fn view(&self) -> nat {
        self.remaining_ms as nat
    }
}

impl SleepPlan {
    /// A wait of `total_ms` milliseconds.
    pub fn new(total_ms: u64) -> (p: Self)
        ensures
            p@ == total_ms as nat,
    {
        SleepPlan { remaining_ms: total_ms }
    }

    /// The next slice to sleep, given whether the session still runs: none
    /// once the wait is over or the session stopped, else the smaller of the
    /// time left and `SLICE_MS`, which is then no longer left.
    pub fn next_slice(&mut self, running: bool) -> (slice: Option<u64>)
        ensures
            (old(self)@ > 0 && running) ==> slice == Some(slice_of(old(self)@) as u64) && final(self)@ == old(self)@ - slice_of(old(self)@),
            !(old(self)@ > 0 && running) ==> slice is None && final(self)@ == old(self)@,
    {
        if self.remaining_ms > 0 && running {
            let step = if self.remaining_ms < SLICE_MS { self.remaining_ms } else { SLICE_MS };
            self.remaining_ms = self.remaining_ms - step;
            Some(step)
        } else {
            None
        }
    }
}

/// Total time slept by a wait of `remaining` milliseconds that is never
/// interrupted.
pub open spec fn slept_total(remaining: nat) -> nat
    decreases remaining,
{
    if remaining == 0 {
        0
    } else {
        slice_of(remaining) + slept_total((remaining - slice_of(remaining)) as nat)
    }
}

/// Number of slices of a wait of `remaining` milliseconds that is never
/// interrupted.
pub open spec fn slice_count(remaining: nat) -> nat
    decreases remaining,
{
    if remaining == 0 {
        0
    } else {
        1 + slice_count((remaining - slice_of(remaining)) as nat)
    }
}

/// A wait that is never interrupted sleeps exactly its length, in
/// `ceil(length / SLICE_MS)` slices, each of them non-empty and at most
/// `SLICE_MS` long.
pub proof fn lemma_sleep_covers_interval(remaining: nat)
    ensures
        slept_total(remaining) == remaining,
        slice_count(remaining) == (remaining + 9) / 10,
        remaining > 0 ==> 0 < slice_of(remaining) <= SLICE_MS,
    decreases remaining,
{
    if remaining > 0 {
        lemma_sleep_covers_interval((remaining - slice_of(remaining)) as nat);
    }
}

/// The answer to a request to start the engine, given whether it was
/// already running (the request leaves it running either way).
pub fn start_outcome(was_running: bool) -> (r: Result<(), String>)
    ensures
        !was_running <==> r is Ok,
        r matches Err(e) ==> e@ == "Already running"@,
{
    if was_running {
        Err(String::from_str("Already running"))
    } else {
        Ok(())
    }
}

/// The answer to a request to stop the engine, given whether it was running
/// (the request leaves it stopped either way).
pub fn stop_outcome(was_running: bool) -> (r: Result<(), String>)
    ensures
        was_running <==> r is Ok,
        r matches Err(e) ==> e@ == "Not running"@,
{
    if was_running {
        Ok(())
    } else {
        Err(String::from_str("Not running"))
    }
}

} // verus!
