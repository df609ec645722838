//! The playback controller: the mutable loop state, pack-index cycling,
//! and the verified per-tick transition that matches bindings, gates each
//! action to one firing per physical press, and derives the pitch and
//! volume of the clip to play.

use vstd::prelude::*;
use crate::matcher::{seq_views, spec_matches};
use crate::settings::{
    effective_params, effective_wf, settings_wf, spec_effective, EffectiveParams, Settings,
    QUANTITY_BOUND,
};

verus! {

/// The mutable state of the event loop.
pub struct LoopState {
    /// Whether key presses currently trigger playback.
    pub active: bool,
    /// Index of the pack clips are drawn from; always below the pack count.
    pub current_pack_index: usize,
    /// How many keys were held on the previous tick.
    pub previous_held_key_count: usize,
    /// When the last press was detected, in milliseconds.
    pub last_press_ms: u64,
    /// The pitch the next clip plays at, in thousandths.
    pub current_pitch: u32,
    /// Whether the toggle action already fired during the current hold.
    pub toggle_consumed_this_press: bool,
    /// Whether a pack switch already fired during the current hold.
    pub pack_switch_consumed_this_press: bool,
}

/// The command to play one clip of the current pack.
pub struct PlayCommand {
    /// Index of the clip within the current pack, drawn at random.
    pub clip_index: usize,
    /// Playback speed, in thousandths.
    pub pitch: u32,
    /// Playback gain, in thousandths.
    pub volume: u32,
}

/// What one tick asks the surrounding program to do.
pub struct TickOutcome {
    /// The terminate binding matched: stop the program.
    pub terminate: bool,
    /// The toggle action fired this tick.
    pub toggled: bool,
    /// A pack switch fired this tick, to the given pack index.
    pub switched_to: Option<usize>,
    /// A new press was detected: play this clip.
    pub play: Option<PlayCommand>,
}

/// The loop state is well formed for the given configuration: the pack
/// index is in range and the pitch stays within the reachable band.
pub open spec fn state_wf(st: LoopState, s: Settings) -> bool {
    &&& st.current_pack_index < s.sound_packs@.len()
    &&& st.current_pitch < 3 * QUANTITY_BOUND
}

/// The pack index after "next": one step forward, wrapping to 0 at the end.
pub open spec fn spec_next_index(i: int, n: int) -> int
    recommends
        0 <= i < n,
{
    if i + 1 == n {
        0
    } else {
        i + 1
    }
}

/// The pack index after "previous": one step back, wrapping to the end at 0.
pub open spec fn spec_prev_index(i: int, n: int) -> int
    recommends
        0 <= i < n,
{
    if i == 0 {
        n - 1
    } else {
        i - 1
    }
}

/// The pack index after `k` applications of "next".
pub open spec fn spec_iter_next(i: int, n: int, k: nat) -> int
    decreases k,
{
    if k == 0 {
        i
    } else {
        spec_next_index(spec_iter_next(i, n, (k - 1) as nat), n)
    }
}

/// After `k <= n` steps of "next" the index has advanced by `k`, modulo `n`.
proof fn lemma_iter_next_value(i: int, n: int, k: nat)
    requires
        0 <= i < n,
        k <= n,
    ensures
        spec_iter_next(i, n, k) == if i + k < n {
            i + k
        } else {
            i + k - n
        },
    decreases k,
{
    if k > 0 {
        lemma_iter_next_value(i, n, (k - 1) as nat);
    }
}

/// Applying "next" as many times as there are packs returns to the start.
pub proof fn lemma_next_wraps_around(i: int, n: int)
    requires
        0 <= i < n,
    ensures
        spec_iter_next(i, n, n as nat) == i,
{
    lemma_iter_next_value(i, n, n as nat);
}

/// "previous" undoes "next", and "next" undoes "previous".
pub proof fn lemma_prev_inverts_next(i: int, n: int)
    requires
        0 <= i < n,
    ensures
        spec_prev_index(spec_next_index(i, n), n) == i,
        spec_next_index(spec_prev_index(i, n), n) == i,
{
}

/// The pack index one step forward, wrapping around.
pub fn next_pack_index(i: usize, n: usize) -> (r: usize)
    requires
        i < n,
    ensures
        r == spec_next_index(i as int, n as int),
        r < n,
{
    if i + 1 == n {
        0
    } else {
        i + 1
    }
}

/// The pack index one step back, wrapping around.
pub fn previous_pack_index(i: usize, n: usize) -> (r: usize)
    requires
        i < n,
    ensures
        r == spec_prev_index(i as int, n as int),
        r < n,
{
    if i == 0 {
        n - 1
    } else {
        i - 1
    }
}

/// Whether the given optional binding matches the held keys exactly.
pub open spec fn spec_binding_matches(binding: Option<Vec<String>>, held: Seq<Seq<char>>) -> bool {
    match binding {
        Some(keys) => spec_matches(seq_views(keys@), held),
        None => false,
    }
}

/// The terminate binding matches: the tick stops the program and changes
/// nothing else.
pub open spec fn spec_terminates(s: Settings, held: Seq<Seq<char>>) -> bool {
    spec_binding_matches(s.terminate, held)
}

/// The toggle binding matches and has not yet fired during this hold.
pub open spec fn spec_toggle_fires(s: Settings, st: LoopState, held: Seq<Seq<char>>) -> bool {
    spec_binding_matches(s.toggle, held) && !st.toggle_consumed_this_press
}

/// The state after the toggle step: `active` flipped and the toggle
/// consumed, when the toggle fires.
pub open spec fn spec_after_toggle(s: Settings, st: LoopState, held: Seq<Seq<char>>) -> LoopState {
    if spec_toggle_fires(s, st, held) {
        LoopState { active: !st.active, toggle_consumed_this_press: true, ..st }
    } else {
        st
    }
}

/// The state after release detection: both consumed flags reset exactly
/// when no key is held.
pub open spec fn spec_after_release(st: LoopState, held_len: nat) -> LoopState {
    if held_len == 0 {
        LoopState { toggle_consumed_this_press: false, pack_switch_consumed_this_press: false, ..st }
    } else {
        st
    }
}

/// The pack index a switch this tick would select: "previous" is checked
/// first, then "next"; neither fires while a switch is consumed.
pub open spec fn spec_switch_target(s: Settings, st: LoopState, held: Seq<Seq<char>>) -> Option<
    usize,
>
    recommends
        state_wf(st, s),
{
    let n = s.sound_packs@.len() as int;
    if st.pack_switch_consumed_this_press {
        None
    } else if spec_binding_matches(s.previous_sound_pack, held) {
        Some(spec_prev_index(st.current_pack_index as int, n) as usize)
    } else if spec_binding_matches(s.next_sound_pack, held) {
        Some(spec_next_index(st.current_pack_index as int, n) as usize)
    } else {
        None
    }
}

/// The state after the pack-switch step.
pub open spec fn spec_after_switch(s: Settings, st: LoopState, held: Seq<Seq<char>>) -> LoopState {
    match spec_switch_target(s, st, held) {
        Some(idx) => LoopState {
            current_pack_index: idx,
            pack_switch_consumed_this_press: true,
            ..st
        },
        None => st,
    }
}

/// The state after the action steps of a tick (toggle, release detection,
/// pack switch), before playback.
pub open spec fn spec_after_actions(s: Settings, st: LoopState, held: Seq<Seq<char>>) -> LoopState {
    spec_after_switch(s, spec_after_release(spec_after_toggle(s, st, held), held.len()), held)
}

/// A new physical press: the held-key count grew since the previous tick.
/// Only the count is consulted, never which keys are held.
pub open spec fn spec_new_press(previous_count: nat, held_len: nat) -> bool {
    held_len > previous_count
}

/// A press within the cadence threshold of the previous one.
pub open spec fn spec_is_fast(last_press_ms: u64, now_ms: u64, threshold_ms: u32) -> bool
    recommends
        last_press_ms <= now_ms,
{
    now_ms - last_press_ms < threshold_ms
}

/// The pitch after a press: a fast press below the ceiling climbs one
/// step (it may overshoot the ceiling by at most one step, which is
/// deliberate); a fast press at or above the ceiling leaves it; a slow
/// press resets it to the base pitch.
pub open spec fn spec_next_pitch(pitch: u32, p: EffectiveParams, fast: bool) -> u32
    recommends
        effective_wf(p),
        pitch < 3 * QUANTITY_BOUND,
{
    if pitch < p.pitch_start + p.pitch_range && fast {
        (pitch + p.pitch_steps) as u32
    } else if !fast {
        p.pitch_start
    } else {
        pitch
    }
}

/// Whether the tick plays a clip: no terminate, active after the action
/// steps, and a new press detected.
pub open spec fn spec_plays(s: Settings, st: LoopState, held: Seq<Seq<char>>) -> bool {
    &&& !spec_terminates(s, held)
    &&& spec_after_actions(s, st, held).active
    &&& spec_new_press(st.previous_held_key_count as nat, held.len())
}

/// Whether the tick fires the toggle action.
pub open spec fn spec_toggles(s: Settings, st: LoopState, held: Seq<Seq<char>>) -> bool {
    !spec_terminates(s, held) && spec_toggle_fires(s, st, held)
}

/// The pack index the tick switches to, if it switches.
pub open spec fn spec_switches(s: Settings, st: LoopState, held: Seq<Seq<char>>) -> Option<usize> {
    if spec_terminates(s, held) {
        None
    } else {
        spec_switch_target(s, spec_after_release(spec_after_toggle(s, st, held), held.len()), held)
    }
}

/// The loop state after one tick. On terminate nothing changes; otherwise
/// the action steps run, and when the controller is active a new press
/// updates pitch and press time and the held-key count is recorded.
pub open spec fn spec_tick_state(
    s: Settings,
    st: LoopState,
    held: Seq<Seq<char>>,
    now_ms: u64,
) -> LoopState
    recommends
        state_wf(st, s),
        st.last_press_ms <= now_ms,
{
    if spec_terminates(s, held) {
        st
    } else {
        let acted = spec_after_actions(s, st, held);
        if !acted.active {
            acted
        } else {
            let pressed = if spec_new_press(acted.previous_held_key_count as nat, held.len()) {
                let p = spec_effective(s, acted.current_pack_index as int);
                let fast = spec_is_fast(acted.last_press_ms, now_ms, p.fast_threshold);
                LoopState {
                    current_pitch: spec_next_pitch(acted.current_pitch, p, fast),
                    last_press_ms: now_ms,
                    ..acted
                }
            } else {
                acted
            };
            LoopState { previous_held_key_count: held.len() as usize, ..pressed }
        }
    }
}

/// Relies on rand::random_range: a uniformly drawn value in the given
/// range. It panics on an empty range (excluded by the precondition) or
/// if the operating system fails to seed the thread-local generator.
#[verifier::external_body]
fn random_below(n: usize) -> (r: usize)
    requires
        1 <= n,
    ensures
        r < n,
{
    rand::random_range(0..n)
}

/// The initial loop state: active, on the first pack, with the pitch at
/// the configured (or default) base.
pub fn init_state(settings: &Settings, now_ms: u64) -> (st: LoopState)
    requires
        settings_wf(*settings),
    ensures
        state_wf(st, *settings),
        st.active,
        st.current_pack_index == 0,
        st.previous_held_key_count == 0,
        st.last_press_ms == now_ms,
        st.current_pitch == crate::settings::opt_or(
            settings.pitch_start,
            crate::settings::DEFAULT_PITCH_START,
        ),
        !st.toggle_consumed_this_press,
        !st.pack_switch_consumed_this_press,
{
    let current_pitch = match settings.pitch_start {
        Some(v) => v,
        None => crate::settings::DEFAULT_PITCH_START,
    };
    LoopState {
        active: true,
        current_pack_index: 0,
        previous_held_key_count: 0,
        last_press_ms: now_ms,
        current_pitch,
        toggle_consumed_this_press: false,
        pack_switch_consumed_this_press: false,
    }
}

/// One tick of the controller: sample the held keys, run the action
/// steps in order (terminate, toggle, release detection, previous pack,
/// next pack), and, when active and a new press is detected, derive pitch
/// and volume and pick a clip of the current pack at random.
///
/// `pack_sizes[i]` is the number of clips of pack `i`; every pack must
/// hold at least one clip.
pub fn tick(
    settings: &Settings,
    pack_sizes: &Vec<usize>,
    state: &mut LoopState,
    held: &Vec<String>,
    now_ms: u64,
) -> (outcome: TickOutcome)
    requires
        settings_wf(*settings),
        state_wf(*old(state), *settings),
        pack_sizes@.len() == settings.sound_packs@.len(),
        forall|i: int| 0 <= i < pack_sizes@.len() ==> #[trigger] pack_sizes@[i] >= 1,
        old(state).last_press_ms <= now_ms,
    ensures
        *final(state) == spec_tick_state(*settings, *old(state), seq_views(held@), now_ms),
        state_wf(*final(state), *settings),
        outcome.terminate == spec_terminates(*settings, seq_views(held@)),
        outcome.toggled == spec_toggles(*settings, *old(state), seq_views(held@)),
        outcome.switched_to == spec_switches(*settings, *old(state), seq_views(held@)),
        (outcome.play is Some) == spec_plays(*settings, *old(state), seq_views(held@)),
        outcome.play matches Some(cmd) ==> {
            &&& cmd.pitch == final(state).current_pitch
            &&& cmd.volume == spec_effective(
                *settings,
                final(state).current_pack_index as int,
            ).volume
            &&& cmd.clip_index < pack_sizes@[final(state).current_pack_index as int]
        },
{
    let ghost held_views = seq_views(held@);
    let held_count = held.len();
    let mut outcome = TickOutcome { terminate: false, toggled: false, switched_to: None, play: None };

    if let Some(binding) = &settings.terminate {
        if crate::matcher::matches(binding, held) {
            outcome.terminate = true;
            return outcome;
        }
    }

    if let Some(binding) = &settings.toggle {
        if !state.toggle_consumed_this_press && crate::matcher::matches(binding, held) {
            state.active = !state.active;
            state.toggle_consumed_this_press = true;
            outcome.toggled = true;
        }
    }
    assert(*state == spec_after_toggle(*settings, *old(state), held_views));

    if held_count == 0 {
        state.toggle_consumed_this_press = false;
        state.pack_switch_consumed_this_press = false;
    }

    let pack_count = settings.sound_packs.len();
    if let Some(binding) = &settings.previous_sound_pack {
        if !state.pack_switch_consumed_this_press && crate::matcher::matches(binding, held) {
            state.pack_switch_consumed_this_press = true;
            state.current_pack_index = previous_pack_index(state.current_pack_index, pack_count);
            outcome.switched_to = Some(state.current_pack_index);
        }
    }
    if outcome.switched_to.is_none() {
        if let Some(binding) = &settings.next_sound_pack {
            if !state.pack_switch_consumed_this_press && crate::matcher::matches(binding, held) {
                state.pack_switch_consumed_this_press = true;
                state.current_pack_index = next_pack_index(state.current_pack_index, pack_count);
                outcome.switched_to = Some(state.current_pack_index);
            }
        }
    }
    assert(*state == spec_after_actions(*settings, *old(state), held_views));

    if !state.active {
        return outcome;
    }

    if held_count > state.previous_held_key_count {
        let p = effective_params(settings, state.current_pack_index);
        let fast = now_ms - state.last_press_ms < p.fast_threshold as u64;
        if state.current_pitch < p.pitch_start + p.pitch_range && fast {
            state.current_pitch = state.current_pitch + p.pitch_steps;
        } else if !fast {
            state.current_pitch = p.pitch_start;
        }
        state.last_press_ms = now_ms;
        let size = pack_sizes[state.current_pack_index];
        let clip_index = random_below(size);
        outcome.play = Some(
            PlayCommand { clip_index, pitch: state.current_pitch, volume: p.volume },
        );
    }

    state.previous_held_key_count = held_count;
    outcome
}

/// A consumed toggle stays consumed as long as any key is held.
pub proof fn lemma_toggle_consumed_persists(
    s: Settings,
    st: LoopState,
    held: Seq<Seq<char>>,
    now_ms: u64,
)
    requires
        st.toggle_consumed_this_press,
        held.len() > 0,
    ensures
        spec_tick_state(s, st, held, now_ms).toggle_consumed_this_press,
{
}

/// While a matching toggle binding remains continuously held, the toggle
/// fires exactly once: on the tick it fires (flipping `active`), the
/// toggle is consumed, and no later tick fires it again before all keys
/// are released.
pub proof fn lemma_toggle_fires_once(
    s: Settings,
    st: LoopState,
    held: Seq<Seq<char>>,
    now_ms: u64,
    held_next: Seq<Seq<char>>,
)
    requires
        spec_toggles(s, st, held),
        held.len() > 0,
    ensures
        spec_tick_state(s, st, held, now_ms).active == !st.active,
        spec_tick_state(s, st, held, now_ms).toggle_consumed_this_press,
        !spec_toggles(s, spec_tick_state(s, st, held, now_ms), held_next),
{
}

/// A consumed pack switch stays consumed as long as any key is held.
pub proof fn lemma_pack_switch_consumed_persists(
    s: Settings,
    st: LoopState,
    held: Seq<Seq<char>>,
    now_ms: u64,
)
    requires
        st.pack_switch_consumed_this_press,
        held.len() > 0,
    ensures
        spec_tick_state(s, st, held, now_ms).pack_switch_consumed_this_press,
{
}

/// While a matching pack-switch binding remains continuously held, the
/// switch fires exactly once: once it has fired, no later tick switches
/// packs again before all keys are released.
pub proof fn lemma_pack_switch_fires_once(
    s: Settings,
    st: LoopState,
    held: Seq<Seq<char>>,
    now_ms: u64,
    held_next: Seq<Seq<char>>,
)
    requires
        spec_switches(s, st, held) is Some,
        held.len() > 0,
        held_next.len() > 0,
    ensures
        spec_tick_state(s, st, held, now_ms).pack_switch_consumed_this_press,
        spec_switches(s, spec_tick_state(s, st, held, now_ms), held_next) is None,
{
}

/// Releasing all keys re-arms both actions: a tick with no key held ends
/// with both consumed flags clear (provided no binding is itself empty,
/// since an empty binding matches the empty held set and fires at once).
pub proof fn lemma_release_rearms(s: Settings, st: LoopState, held: Seq<Seq<char>>, now_ms: u64)
    requires
        held.len() == 0,
        !spec_terminates(s, held),
        !spec_binding_matches(s.previous_sound_pack, held),
        !spec_binding_matches(s.next_sound_pack, held),
    ensures
        !spec_tick_state(s, st, held, now_ms).toggle_consumed_this_press,
        !spec_tick_state(s, st, held, now_ms).pack_switch_consumed_this_press,
{
}

/// A new press is detected only from the held-key count growing — never
/// from which keys are held — and it fires once per growth: the tick that
/// plays records the new count, so holding the same keys on the next tick
/// cannot fire a second press.
pub proof fn lemma_press_fires_once_per_growth(
    s: Settings,
    st: LoopState,
    held: Seq<Seq<char>>,
    now_ms: u64,
)
    requires
        spec_plays(s, st, held),
        held.len() <= usize::MAX,
    ensures
        spec_tick_state(s, st, held, now_ms).previous_held_key_count == held.len(),
        !spec_plays(s, spec_tick_state(s, st, held, now_ms), held),
{
}

/// Pitch evolution on a press: a fast press strictly below the ceiling
/// `pitch_start + pitch_range` climbs exactly one step (so it may end one
/// step past the ceiling); a fast press at or above the ceiling leaves
/// the pitch unchanged; a slow press resets it to `pitch_start`, whatever
/// it was.
pub proof fn lemma_pitch_evolution(pitch: u32, p: EffectiveParams, fast: bool)
    requires
        effective_wf(p),
        pitch < 3 * QUANTITY_BOUND,
    ensures
        fast && pitch < p.pitch_start + p.pitch_range ==> spec_next_pitch(pitch, p, fast) == pitch
            + p.pitch_steps,
        fast && pitch >= p.pitch_start + p.pitch_range ==> spec_next_pitch(pitch, p, fast)
            == pitch,
        !fast ==> spec_next_pitch(pitch, p, fast) == p.pitch_start,
{
}

} // verus!
