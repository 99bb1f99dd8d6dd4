//! The plugin scheduler's decisions. The host loads each plugin, calls it
//! and reads the clock; after each of these it tells the plugin's
//! `PluginRun`, which decides what comes next and hands frames to the
//! `MatrixController`. `PluginScheduler` decides which plugin runs next.
use vstd::prelude::*;
use vstd::utf8::{decode_utf8, valid_utf8};
use crate::matrix_control::{Color, ControllerView, MatrixController, MatrixState, UpdateError, frame_view};
use crate::config::PluginConfigurationArgs;
use crate::matrix_map::is_grid;

verus! {

#[verifier::external_type_specification]
#[verifier::external_body]
pub struct ExJsonError(serde_json::Error);

#[verifier::external_type_specification]
#[verifier::external_body]
pub struct ExUtf8Error(std::str::Utf8Error);

/// The value that a plugin hands back from one update call, in its object
/// form: a frame (absent when the plugin has finished), whether it is done,
/// and lines it wants logged.
pub struct PluginUpdate {
    pub state: Option<MatrixState>,
    pub done: bool,
    pub log_message: Option<Vec<String>>,
}

/// The colors of an optional frame.
pub open spec fn state_view(state: Option<MatrixState>) -> Option<Seq<Seq<Color>>> {
    match state {
        Some(m) => Some(frame_view(m@)),
        None => None,
    }
}

/// What serde_json reads from `text` as a JSON `null` or an array of rows of
/// four-byte arrays: `None` where it fails, `Some(None)` for `null`.
pub uninterp spec fn bare_frame_json(text: Seq<char>) -> Option<Option<Seq<Seq<Color>>>>;

/// Relies on serde_json::from_str, reading `Option<Vec<Vec<[u8; 4]>>>`:
/// what it reads depends on the text alone.
#[verifier::external_body]
fn parse_bare_frame(text: &str) -> (r: Result<Option<MatrixState>, serde_json::Error>)
    ensures
        r is Err <==> bare_frame_json(text@) is None,
        r matches Ok(v) ==> bare_frame_json(text@) == Some(state_view(v)),
{
    serde_json::from_str::<Option<MatrixState>>(text)
}

/// Relies on std::str::from_utf8: it succeeds exactly on valid UTF-8, and
/// the text is what the bytes encode.
#[verifier::external_body]
fn utf8_text(bytes: &[u8]) -> (r: Result<&str, std::str::Utf8Error>)
    ensures
        r is Ok <==> valid_utf8(bytes@),
        r matches Ok(t) ==> t@ == decode_utf8(bytes@),
{
    std::str::from_utf8(bytes)
}

/// Why a plugin was skipped.
#[derive(Clone, Copy, Debug, PartialEq, Eq, Structural)]
pub enum SkipReason {
    /// Its bytes could not be read.
    Unreadable,
    /// The sandbox runtime could not instantiate or configure it.
    NotInstantiated,
    /// Its update call failed.
    CallFailed,
    /// Its update response was not UTF-8.
    InvalidUtf8,
    /// Its update response was not a frame of the matrix's size.
    Malformed,
}

/// Where the run of one plugin stands.
#[derive(Clone, Copy, Debug, PartialEq, Eq, Structural)]
pub enum PluginPhase {
    Loading,
    SandboxBuilt,
    Instantiated,
    SetupDone,
    Updating,
    /// The plugin signalled that it has no more frames.
    Finished,
    /// The plugin ran into its time limit.
    TimedOut,
    Skipped(SkipReason),
    /// The controller refused a frame: the whole run must end.
    FatalAbort,
}

/// What the host does next in the update loop.
#[derive(Clone, Copy, Debug, PartialEq, Eq, Structural)]
pub enum TickAction {
    /// Nothing yet: the next frame is not due.
    Wait,
    /// Call the plugin's update entry point now.
    CallUpdate,
    /// Leave the update loop: the run has ended.
    Leave,
}

/// The state of a plugin run, as plain values. Times are in nanoseconds of
/// a monotonic clock.
pub struct RunView {
    pub phase: PluginPhase,
    pub frame_interval_ns: u64,
    pub time_limit_s: Option<u64>,
    pub start_ns: u64,
    pub last_frame_ns: u64,
}

/// Time from `from` to `now`, nothing if the clock reads earlier.
pub open spec fn elapsed(from: u64, now: u64) -> int {
    if now >= from {
        now - from
    } else {
        0
    }
}

/// The run has gone on longer than its time limit.
pub open spec fn over_time_limit(v: RunView, now: u64) -> bool {
    match v.time_limit_s {
        Some(l) => elapsed(v.start_ns, now) > l * 1_000_000_000,
        None => false,
    }
}

/// A frame is due: a whole frame interval has passed since the last one.
pub open spec fn frame_due(v: RunView, now: u64) -> bool {
    elapsed(v.last_frame_ns, now) >= v.frame_interval_ns
}

/// One pass of the update loop at time `now`.
pub open spec fn tick_outcome(v: RunView, now: u64) -> (RunView, TickAction) {
    if !(v.phase is Updating) {
        (v, TickAction::Leave)
    } else if over_time_limit(v, now) {
        (RunView { phase: PluginPhase::TimedOut, ..v }, TickAction::Leave)
    } else if frame_due(v, now) {
        (RunView { last_frame_ns: now, ..v }, TickAction::CallUpdate)
    } else {
        (v, TickAction::Wait)
    }
}

/// A frame (or its absence) reaches the run and the controller.
pub open spec fn frame_outcome(v: RunView, c: ControllerView, frame: Option<Seq<Seq<Color>>>) -> (
    RunView,
    ControllerView,
) {
    if !(v.phase is Updating) {
        (v, c)
    } else {
        match frame {
            None => (RunView { phase: PluginPhase::Finished, ..v }, c),
            Some(f) => if !c.lifecycle.alive() {
                (RunView { phase: PluginPhase::FatalAbort, ..v }, c)
            } else if !is_grid(f, c.width as int, c.height as int) {
                (RunView { phase: PluginPhase::Skipped(SkipReason::Malformed), ..v }, c)
            } else {
                (v, ControllerView { frame: f, ..c })
            },
        }
    }
}

/// An update in object form reaches the run and the controller: `done`
/// ends the run as an absent frame does.
pub open spec fn object_outcome(v: RunView, c: ControllerView, u: PluginUpdate) -> (
    RunView,
    ControllerView,
) {
    if u.done {
        frame_outcome(v, c, None)
    } else {
        frame_outcome(v, c, state_view(u.state))
    }
}

/// An update response reaches the run and the controller. `response` is
/// what the call returned (`None` when it failed); `object` is the same
/// response read in object form, where it reads so. A bare frame or `null`
/// comes first; the object form is used where the bare one fails.
pub open spec fn response_outcome(
    v: RunView,
    c: ControllerView,
    response: Option<Seq<u8>>,
    object: Option<PluginUpdate>,
) -> (RunView, ControllerView) {
    if !(v.phase is Updating) {
        (v, c)
    } else {
        match response {
            None => (RunView { phase: PluginPhase::Skipped(SkipReason::CallFailed), ..v }, c),
            Some(b) => if !valid_utf8(b) {
                (RunView { phase: PluginPhase::Skipped(SkipReason::InvalidUtf8), ..v }, c)
            } else {
                match bare_frame_json(decode_utf8(b)) {
                    Some(frame) => frame_outcome(v, c, frame),
                    None => match object {
                        Some(u) => object_outcome(v, c, u),
                        None => (RunView { phase: PluginPhase::Skipped(SkipReason::Malformed), ..v }, c),
                    },
                }
            },
        }
    }
}

/// The lines that an update in object form asks to have logged.
pub open spec fn object_logs(u: PluginUpdate) -> Seq<String> {
    match u.log_message {
        Some(lines) => lines@,
        None => Seq::empty(),
    }
}

/// The lines to be logged after an update response: those of its object
/// form, where that form was used.
pub open spec fn response_logs(v: RunView, response: Option<Seq<u8>>, object: Option<PluginUpdate>) -> Seq<
    String,
> {
    match (response, object) {
        (Some(b), Some(u)) => if v.phase is Updating && valid_utf8(b) && bare_frame_json(decode_utf8(b)) is None {
            object_logs(u)
        } else {
            Seq::empty()
        },
        _ => Seq::empty(),
    }
}

/// The run of one plugin, from loading to its end.
pub struct PluginRun {
    phase: PluginPhase,
    frame_interval_ns: u64,
    time_limit_s: Option<u64>,
    start_ns: u64,
    last_frame_ns: u64,
}

impl View for PluginRun {
    type V = RunView;

    closed spec fn view(&self) -> RunView {
        RunView {
            phase: self.phase,
            frame_interval_ns: self.frame_interval_ns,
            time_limit_s: self.time_limit_s,
            start_ns: self.start_ns,
            last_frame_ns: self.last_frame_ns,
        }
    }
}

impl PluginRun {
    /// A run that is loading its plugin, which will be updated every
    /// `frame_interval_ns` and given up after `time_limit_s`, if any.
    pub fn new(frame_interval_ns: u64, time_limit_s: Option<u64>) -> (r: Self)
        ensures
            r@ == (RunView {
                phase: PluginPhase::Loading,
                frame_interval_ns,
                time_limit_s,
                start_ns: 0,
                last_frame_ns: 0,
            }),
    {
        PluginRun { phase: PluginPhase::Loading, frame_interval_ns, time_limit_s, start_ns: 0, last_frame_ns: 0 }
    }

    pub fn phase(&self) -> (r: PluginPhase)
        ensures
            r == self@.phase,
    {
        self.phase
    }

    /// The plugin's bytes were read, or could not be.
    pub fn loaded(&mut self, readable: bool)
        ensures
            final(self)@ == (if old(self)@.phase is Loading {
                RunView {
                    phase: if readable {
                        PluginPhase::SandboxBuilt
                    } else {
                        PluginPhase::Skipped(SkipReason::Unreadable)
                    },
                    ..old(self)@
                }
            } else {
                old(self)@
            }),
    {
        if let PluginPhase::Loading = self.phase {
            self.phase = if readable {
                PluginPhase::SandboxBuilt
            } else {
                PluginPhase::Skipped(SkipReason::Unreadable)
            };
        }
    }

    /// The runtime instantiated and configured the plugin, or failed to.
    pub fn instantiated(&mut self, ok: bool)
        ensures
            final(self)@ == (if old(self)@.phase is SandboxBuilt {
                RunView {
                    phase: if ok {
                        PluginPhase::Instantiated
                    } else {
                        PluginPhase::Skipped(SkipReason::NotInstantiated)
                    },
                    ..old(self)@
                }
            } else {
                old(self)@
            }),
    {
        if let PluginPhase::SandboxBuilt = self.phase {
            self.phase = if ok {
                PluginPhase::Instantiated
            } else {
                PluginPhase::Skipped(SkipReason::NotInstantiated)
            };
        }
    }

    /// The plugin's setup call returned. A failed setup is not fatal: the
    /// run goes on to its updates either way.
    pub fn setup_returned(&mut self)
        ensures
            final(self)@ == (if old(self)@.phase is Instantiated {
                RunView { phase: PluginPhase::SetupDone, ..old(self)@ }
            } else {
                old(self)@
            }),
    {
        if let PluginPhase::Instantiated = self.phase {
            self.phase = PluginPhase::SetupDone;
        }
    }

    /// The update loop begins at time `now`: it is both the start of the
    /// time limit and the time of the last frame.
    pub fn begin_updates(&mut self, now: u64)
        ensures
            final(self)@ == (if old(self)@.phase is SetupDone {
                RunView { phase: PluginPhase::Updating, start_ns: now, last_frame_ns: now, ..old(self)@ }
            } else {
                old(self)@
            }),
    {
        if let PluginPhase::SetupDone = self.phase {
            self.phase = PluginPhase::Updating;
            self.start_ns = now;
            self.last_frame_ns = now;
        }
    }

    /// One pass of the update loop at time `now`: leave it past the time
    /// limit, call the plugin when a frame is due, else wait.
    pub fn tick(&mut self, now: u64) -> (r: TickAction)
        ensures
            (final(self)@, r) == tick_outcome(old(self)@, now),
    {
        if let PluginPhase::Updating = self.phase {
        } else {
            return TickAction::Leave;
        }
        let since_start: u64 = if now >= self.start_ns {
            now - self.start_ns
        } else {
            0
        };
        if let Some(limit) = self.time_limit_s {
            if since_start as u128 > limit as u128 * 1_000_000_000u128 {
                self.phase = PluginPhase::TimedOut;
                return TickAction::Leave;
            }
        }
        let since_frame: u64 = if now >= self.last_frame_ns {
            now - self.last_frame_ns
        } else {
            0
        };
        if since_frame >= self.frame_interval_ns {
            self.last_frame_ns = now;
            TickAction::CallUpdate
        } else {
            TickAction::Wait
        }
    }

    /// A frame, or its absence, reaches the run. An absent frame ends the
    /// run; a frame goes to the controller. A frame of the wrong size skips
    /// the plugin; one that the controller refuses for want of a render
    /// loop aborts everything.
    pub fn apply_frame(&mut self, frame: Option<MatrixState>, controller: &mut MatrixController)
        ensures
            (final(self)@, final(controller)@) == frame_outcome(
                old(self)@,
                old(controller)@,
                state_view(frame),
            ),
    {
        if let PluginPhase::Updating = self.phase {
        } else {
            return ;
        }
        match frame {
            None => {
                self.phase = PluginPhase::Finished;
            },
            Some(f) => {
                match controller.update(f) {
                    Ok(()) => {},
                    Err(UpdateError::NotRunning) => {
                        self.phase = PluginPhase::FatalAbort;
                    },
                    Err(UpdateError::WrongDimensions) => {
                        self.phase = PluginPhase::Skipped(SkipReason::Malformed);
                    },
                }
            },
        }
    }

    /// An update in object form reaches the run. Returns the lines that it
    /// asks to have logged.
    pub fn apply_object(&mut self, update: PluginUpdate, controller: &mut MatrixController) -> (logs: Vec<
        String,
    >)
        ensures
            (final(self)@, final(controller)@) == object_outcome(old(self)@, old(controller)@, update),
            logs@ == object_logs(update),
    {
        let PluginUpdate { state, done, log_message } = update;
        if done {
            self.apply_frame(None, controller);
        } else {
            self.apply_frame(state, controller);
        }
        match log_message {
            Some(lines) => lines,
            None => Vec::new(),
        }
    }

    /// What an update call gave reaches the run: `response` is its result,
    /// `None` where the call failed, and `object` the same response read in
    /// object form where it reads so. Returns the lines to be logged.
    pub fn update_response(
        &mut self,
        response: Option<Vec<u8>>,
        object: Option<PluginUpdate>,
        controller: &mut MatrixController,
    ) -> (logs: Vec<String>)
        ensures
            (final(self)@, final(controller)@) == response_outcome(
                old(self)@,
                old(controller)@,
                match response {
                    Some(b) => Some(b@),
                    None => None,
                },
                object,
            ),
            logs@ == response_logs(
                old(self)@,
                match response {
                    Some(b) => Some(b@),
                    None => None,
                },
                object,
            ),
    {
        if let PluginPhase::Updating = self.phase {
        } else {
            return Vec::new();
        }
        let bytes = match response {
            None => {
                self.phase = PluginPhase::Skipped(SkipReason::CallFailed);
                return Vec::new();
            },
            Some(b) => b,
        };
        let text = match utf8_text(bytes.as_slice()) {
            Err(_) => {
                self.phase = PluginPhase::Skipped(SkipReason::InvalidUtf8);
                return Vec::new();
            },
            Ok(t) => t,
        };
        match parse_bare_frame(text) {
            Ok(frame) => {
                self.apply_frame(frame, controller);
                Vec::new()
            },
            Err(_) => match object {
                Some(u) => self.apply_object(u, controller),
                None => {
                    self.phase = PluginPhase::Skipped(SkipReason::Malformed);
                    Vec::new()
                },
            },
        }
    }
}

/// The plugin sequence, as plain values.
pub struct SequenceView {
    pub plugin_count: nat,
    pub loop_plugins: bool,
    pub next_index: nat,
    pub aborted: bool,
}

/// The plugin that comes next, and the sequence after it is handed out:
/// the plugins in order, from the first again if the sequence loops, none
/// once the run was aborted.
pub open spec fn next_outcome(v: SequenceView) -> (SequenceView, Option<nat>) {
    if v.aborted {
        (v, None)
    } else if v.next_index < v.plugin_count {
        (SequenceView { next_index: v.next_index + 1, ..v }, Some(v.next_index))
    } else if v.loop_plugins && v.plugin_count > 0 {
        (SequenceView { next_index: 1, ..v }, Some(0))
    } else {
        (v, None)
    }
}

/// The sequence after a plugin's run ended in `phase`: only a fatal abort
/// ends the whole run.
pub open spec fn ended_outcome(v: SequenceView, phase: PluginPhase) -> SequenceView {
    if phase is FatalAbort {
        SequenceView { aborted: true, ..v }
    } else {
        v
    }
}

/// Decides which plugin of the configured sequence runs next.
pub struct PluginScheduler {
    plugin_count: usize,
    loop_plugins: bool,
    next_index: usize,
    aborted: bool,
}

impl View for PluginScheduler {
    type V = SequenceView;

    closed spec fn view(&self) -> SequenceView {
        SequenceView {
            plugin_count: self.plugin_count as nat,
            loop_plugins: self.loop_plugins,
            next_index: self.next_index as nat,
            aborted: self.aborted,
        }
    }
}

impl PluginScheduler {
    #[verifier::type_invariant]
    spec fn inv(&self) -> bool {
        self.next_index <= self.plugin_count
    }

    /// A sequence of `plugin_count` plugins, run once or, if `loop_plugins`,
    /// again and again.
    pub fn new(plugin_count: usize, loop_plugins: bool) -> (r: Self)
        ensures
            r@ == (SequenceView { plugin_count: plugin_count as nat, loop_plugins, next_index: 0, aborted: false }),
    {
        PluginScheduler { plugin_count, loop_plugins, next_index: 0, aborted: false }
    }

    /// The sequence of the configured plugins.
    pub fn from_config(config: &PluginConfigurationArgs) -> (r: Self)
        ensures
            r@ == (SequenceView {
                plugin_count: config.plugin@.len(),
                loop_plugins: config.loop_plugins,
                next_index: 0,
                aborted: false,
            }),
    {
        Self::new(config.plugin.len(), config.loop_plugins)
    }

    /// The index of the plugin to run next, `None` when the run is over.
    pub fn next_plugin(&mut self) -> (r: Option<usize>)
        ensures
            final(self)@ == next_outcome(old(self)@).0,
            r matches Some(i) ==> next_outcome(old(self)@).1 == Some(i as nat),
            r is None ==> next_outcome(old(self)@).1 is None,
    {
        proof {
            use_type_invariant(&*self);
        }
        if self.aborted {
            None
        } else if self.next_index < self.plugin_count {
            let i = self.next_index;
            self.next_index = i + 1;
            Some(i)
        } else if self.loop_plugins && self.plugin_count > 0 {
            self.next_index = 1;
            Some(0)
        } else {
            None
        }
    }

    /// A plugin's run ended in `phase`.
    pub fn plugin_ended(&mut self, phase: PluginPhase)
        ensures
            final(self)@ == ended_outcome(old(self)@, phase),
    {
        proof {
            use_type_invariant(&*self);
        }
        if let PluginPhase::FatalAbort = phase {
            self.aborted = true;
        }
    }

    pub fn is_aborted(&self) -> (r: bool)
        ensures
            r == self@.aborted,
    {
        self.aborted
    }
}

/// A `null` update response ends the plugin's run normally and hands no
/// frame to the controller.
pub proof fn lemma_null_response_forwards_nothing(v: RunView, c: ControllerView, b: Seq<u8>, object: Option<PluginUpdate>)
    requires
        v.phase is Updating,
        valid_utf8(b),
        bare_frame_json(decode_utf8(b)) == Some(None::<Seq<Seq<Color>>>),
    ensures
        response_outcome(v, c, Some(b), object) == (RunView { phase: PluginPhase::Finished, ..v }, c),
{
}

/// An update response that is neither a frame of the matrix's size nor an
/// object of the protocol skips the plugin, and the sequence goes on with
/// the next plugin rather than aborting.
pub proof fn lemma_malformed_response_skips(v: RunView, c: ControllerView, b: Seq<u8>, s: SequenceView)
    requires
        v.phase is Updating,
        !valid_utf8(b) || bare_frame_json(decode_utf8(b)) is None,
        !s.aborted,
        s.next_index < s.plugin_count,
    ensures
        ({
            let (v2, c2) = response_outcome(v, c, Some(b), None);
            let s2 = ended_outcome(s, v2.phase);
            &&& v2.phase is Skipped
            &&& c2 == c
            &&& s2 == s
            &&& next_outcome(s2).1 == Some(s.next_index)
        }),
{
}

/// A frame of the wrong size skips the plugin without touching the
/// controller.
pub proof fn lemma_wrong_size_frame_skips(v: RunView, c: ControllerView, f: Seq<Seq<Color>>)
    requires
        v.phase is Updating,
        c.lifecycle.alive(),
        !is_grid(f, c.width as int, c.height as int),
    ensures
        frame_outcome(v, c, Some(f)) == (RunView { phase: PluginPhase::Skipped(SkipReason::Malformed), ..v }, c),
{
}

/// Between two update calls at least one frame interval passes: after a
/// call at `t1`, the loop calls again at `t2` only if `t2 - t1` is at least
/// the interval, whatever passes of the loop came between.
pub proof fn lemma_update_calls_are_spaced(v: RunView, t1: u64, waits: Seq<u64>, t2: u64)
    requires
        tick_outcome(v, t1).1 == TickAction::CallUpdate,
        t1 <= t2,
        ({
            let v1 = tick_outcome(v, t1).0;
            forall|i: int| 0 <= i < waits.len() ==> tick_outcome(v1, #[trigger] waits[i]).1 == TickAction::Wait
        }),
        tick_outcome(tick_outcome(v, t1).0, t2).1 == TickAction::CallUpdate,
    ensures
        t2 - t1 >= v.frame_interval_ns,
        forall|i: int| 0 <= i < waits.len() ==> tick_outcome(tick_outcome(v, t1).0, #[trigger] waits[i]).0
            == tick_outcome(v, t1).0,
{
}

/// A plugin whose time limit is `l` seconds is left at the first pass of
/// the loop more than `l` seconds after its updates began: no update call
/// is made then, the run ends timed out, not aborted, and the sequence goes
/// on.
pub proof fn lemma_time_limit_ends_run(v: RunView, now: u64, s: SequenceView)
    requires
        v.phase is Updating,
        v.time_limit_s matches Some(l) && elapsed(v.start_ns, now) > l * 1_000_000_000,
    ensures
        tick_outcome(v, now) == (RunView { phase: PluginPhase::TimedOut, ..v }, TickAction::Leave),
        ended_outcome(s, tick_outcome(v, now).0.phase) == s,
{
}

} // verus!
