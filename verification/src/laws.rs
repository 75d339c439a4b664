//! Laws of the session, proved of its model.

use vstd::prelude::*;
use crate::interaction::{command_of, commanded, AppModel, Command, KeyPress, DEBOUNCE};
use crate::player::{PlayerModel, LONGEST_PLAY_TIME};
use crate::progress::{reading_of, FULL_SCALE};
use crate::volume::{lowered, raised, FULL_VOLUME};

verus! {

/// Whether `trace` is a run of advances: each state but the first is the
/// one before it, advanced at the time of the same number in `times`.
pub open spec fn is_advance_run(trace: Seq<PlayerModel>, times: Seq<nat>) -> bool {
    &&& trace.len() == times.len() + 1
    &&& forall|i: int|
        0 <= i < times.len() ==> (#[trigger] trace[i]).advanced(trace[i + 1], times[i])
}

/// An advance keeps a valid session valid.
pub proof fn lemma_advance_keeps_valid(before: PlayerModel, after: PlayerModel, now: nat)
    requires
        before.valid(),
        before.advanced(after, now),
    ensures
        after.valid(),
{
}

/// A toggle of pause keeps a valid session valid.
pub proof fn lemma_toggle_keeps_valid(before: PlayerModel, now: nat)
    requires
        before.valid(),
    ensures
        before.toggled(now).valid(),
{
}

/// Where a run of advances stands after `k` of them, for `k` up to the
/// length of the catalog: the session is valid, the catalog holds the
/// tracks it held, and the place has moved on by `k`, starting over at the
/// end of the catalog.
pub proof fn lemma_advance_run_place(trace: Seq<PlayerModel>, times: Seq<nat>, k: nat)
    requires
        is_advance_run(trace, times),
        trace[0].valid(),
        k <= times.len(),
        k <= trace[0].catalog.len(),
    ensures
        trace[k as int].valid(),
        trace[k as int].catalog.len() == trace[0].catalog.len(),
        trace[k as int].catalog.to_multiset() == trace[0].catalog.to_multiset(),
        trace[k as int].index == if trace[0].index + k < trace[0].catalog.len() {
            trace[0].index + k
        } else {
            (trace[0].index + k - trace[0].catalog.len()) as nat
        },
    decreases k,
{
    if k > 0 {
        lemma_advance_run_place(trace, times, (k - 1) as nat);
        let before = trace[k - 1];
        assert(before.advanced(trace[k - 1 + 1], times[k - 1]));
        lemma_advance_keeps_valid(before, trace[k as int], times[k - 1]);
    }
}

/// Advancing as many times as the catalog has tracks brings the place
/// back to where it was: from the first track, back to the first track.
pub proof fn lemma_full_cycle_returns(trace: Seq<PlayerModel>, times: Seq<nat>)
    requires
        is_advance_run(trace, times),
        trace[0].valid(),
        times.len() == trace[0].catalog.len(),
    ensures
        trace.last().index == trace[0].index,
        trace[0].index == 0 ==> trace.last().index == 0,
{
    lemma_advance_run_place(trace, times, times.len());
}

/// A full cycle that starts at the first track shuffles once, at its end.
/// Up to the last track the place is the number of advances made and the
/// catalog is the one the cycle started with, in its order.  The advance
/// from the last track leads to the first, over a catalog that holds the
/// same tracks.
pub proof fn lemma_cycle_shuffles_at_its_end(trace: Seq<PlayerModel>, times: Seq<nat>)
    requires
        is_advance_run(trace, times),
        trace[0].valid(),
        trace[0].index == 0,
        times.len() == trace[0].catalog.len(),
    ensures
        forall|k: int|
            0 <= k < times.len() ==> (#[trigger] trace[k]).index == k && trace[k].catalog
                == trace[0].catalog,
        trace.last().index == 0,
        trace.last().catalog.to_multiset() == trace[0].catalog.to_multiset(),
{
    let len = times.len();
    lemma_advance_run_place(trace, times, len);
    assert forall|k: int| 0 <= k < len implies (#[trigger] trace[k]).index == k && trace[k].catalog
        == trace[0].catalog by {
        lemma_cycle_prefix_unshuffled(trace, times, k as nat);
    }
}

/// Within a full cycle that starts at the first track, the catalog is
/// untouched as long as the last track has not been left.
proof fn lemma_cycle_prefix_unshuffled(trace: Seq<PlayerModel>, times: Seq<nat>, k: nat)
    requires
        is_advance_run(trace, times),
        trace[0].valid(),
        trace[0].index == 0,
        times.len() == trace[0].catalog.len(),
        k < times.len(),
    ensures
        trace[k as int].index == k,
        trace[k as int].catalog == trace[0].catalog,
    decreases k,
{
    if k > 0 {
        lemma_cycle_prefix_unshuffled(trace, times, (k - 1) as nat);
        let before = trace[k - 1];
        assert(before.advanced(trace[k - 1 + 1], times[k - 1]));
    }
}

/// Toggling pause twice, at any two times, leaves the session paused if
/// it was paused and playing if it was playing, and the play time counted
/// never goes down on the way.
pub proof fn lemma_toggle_twice(session: PlayerModel, first: nat, second: nat)
    requires
        session.valid(),
    ensures
        session.toggled(first).toggled(second).paused == session.paused,
        session.play_time <= session.toggled(first).play_time,
        session.toggled(first).play_time <= session.toggled(first).toggled(second).play_time,
        session.toggled(first).toggled(second).play_time <= LONGEST_PLAY_TIME,
{
}

/// The progress of the current track reads between zero and full scale at
/// every time, also where more play time was counted than the track is
/// long, and where the track has no length.
pub proof fn lemma_progress_in_range(session: PlayerModel, now: nat)
    ensures
        0 <= reading_of(session.elapsed(now), session.current.duration as nat) <= FULL_SCALE,
{
    crate::progress::lemma_reading_in_range(
        session.elapsed(now),
        session.current.duration as nat,
    );
}

/// Right after a skip the new track has no play time and its progress
/// reads zero.  From then on its play time is the time since the skip.
pub proof fn lemma_skip_starts_fresh(before: PlayerModel, after: PlayerModel, now: nat, later: nat)
    requires
        before.skipped(after, now),
        now <= later,
    ensures
        after.elapsed(now) == 0,
        reading_of(after.elapsed(now), after.current.duration as nat) == 0,
        after.elapsed(later) == crate::player::counted((later - now) as nat),
{
    if after.current.duration > 0 {
        assert(0 * FULL_SCALE as nat / after.current.duration as nat == 0) by (nonlinear_arith)
            requires
                after.current.duration as nat > 0,
        ;
    }
}

/// A change of the volume: up or down by some step.
pub enum VolumeChange {
    Up(nat),
    Down(nat),
}

/// `volume` after `change`.
pub open spec fn changed(volume: nat, change: VolumeChange) -> nat {
    match change {
        VolumeChange::Up(step) => raised(volume, step),
        VolumeChange::Down(step) => lowered(volume, step),
    }
}

/// `volume` after each of `changes` in turn.
pub open spec fn changed_by_all(volume: nat, changes: Seq<VolumeChange>) -> nat
    decreases changes.len(),
{
    if changes.len() == 0 {
        volume
    } else {
        changed(changed_by_all(volume, changes.drop_last()), changes.last())
    }
}

/// However often the volume is raised and lowered, and by whatever steps,
/// it stays between zero and full volume.
pub proof fn lemma_volume_stays_in_range(volume: nat, changes: Seq<VolumeChange>)
    requires
        volume <= FULL_VOLUME,
    ensures
        0 <= changed_by_all(volume, changes) <= FULL_VOLUME,
    decreases changes.len(),
{
    if changes.len() > 0 {
        lemma_volume_stays_in_range(volume, changes.drop_last());
    }
}

/// The volume commands of a session keep it valid, and move its volume as
/// one change up or down does.
pub proof fn lemma_volume_commands(session: PlayerModel, big_step: bool)
    requires
        session.valid(),
    ensures
        session.louder(big_step).valid(),
        session.quieter(big_step).valid(),
        session.louder(big_step).volume == changed(
            session.volume,
            VolumeChange::Up(crate::volume::step_of(big_step)),
        ),
        session.quieter(big_step).volume == changed(
            session.volume,
            VolumeChange::Down(crate::volume::step_of(big_step)),
        ),
{
}

/// The first key is accepted whenever it comes: as long as no key was
/// accepted, a key is noted and its command carried out, however short
/// the time since the loop started.
pub proof fn lemma_first_key_is_accepted(
    before: AppModel,
    after: AppModel,
    press: KeyPress,
    now: nat,
)
    requires
        before.last_key is None,
        before.after_key(after, press, now),
    ensures
        before.accepts_key(now),
        after.last_key == Some(now),
        command_of(press) matches Some(command) ==> commanded(
            before.player,
            after.player,
            command,
            now,
        ),
        command_of(press) == Some(Command::Quit) ==> after.should_quit,
{
}

/// After an accepted key, a key is accepted if and only if at least the
/// debounce time has passed since that key; an earlier one changes
/// nothing.
pub proof fn lemma_debounce_counts_from_last_accepted_key(
    before: AppModel,
    after: AppModel,
    press: KeyPress,
    last: nat,
    now: nat,
)
    requires
        before.last_key == Some(last),
        before.after_key(after, press, now),
    ensures
        before.accepts_key(now) <==> now >= last + DEBOUNCE,
        now < last + DEBOUNCE ==> after == before,
        now >= last + DEBOUNCE ==> after.last_key == Some(now),
{
}

} // verus!
