//! The volume, in hundredths of full volume.

use vstd::prelude::*;

verus! {

/// Full volume.  The volume never goes above it.
pub const FULL_VOLUME: u8 = 100;

/// How far one command moves the volume.
pub const SMALL_STEP: u8 = 5;

/// How far one command moves the volume when a big step is asked for.
pub const BIG_STEP: u8 = 20;

/// The step that a volume command takes.
pub open spec fn step_of(big_step: bool) -> nat {
    if big_step {
        BIG_STEP as nat
    } else {
        SMALL_STEP as nat
    }
}

/// `volume` raised by `step`, but not above full volume.
pub open spec fn raised(volume: nat, step: nat) -> nat {
    if volume + step >= FULL_VOLUME {
        FULL_VOLUME as nat
    } else {
        volume + step
    }
}

/// `volume` lowered by `step`, but not below zero.
pub open spec fn lowered(volume: nat, step: nat) -> nat {
    if step >= volume {
        0
    } else {
        (volume - step) as nat
    }
}

/// The step that a volume command takes.
pub fn step(big_step: bool) -> (s: u8)
    ensures
        s == step_of(big_step),
{
    if big_step {
        BIG_STEP
    } else {
        SMALL_STEP
    }
}

/// `volume` raised by `step`, but not above full volume.
pub fn raise(volume: u8, step: u8) -> (v: u8)
    ensures
        v == raised(volume as nat, step as nat),
        v <= FULL_VOLUME,
{
    if step >= FULL_VOLUME || volume >= FULL_VOLUME - step {
        FULL_VOLUME
    } else {
        volume + step
    }
}

/// `volume` lowered by `step`, but not below zero.
pub fn lower(volume: u8, step: u8) -> (v: u8)
    ensures
        v == lowered(volume as nat, step as nat),
        v <= volume,
{
    if step >= volume {
        0
    } else {
        volume - step
    }
}

} // verus!
