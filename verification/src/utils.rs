use vstd::prelude::*;
use crate::animation_comp::spec_frames_of;
use crate::animation_comp::spec_lookup_failure;
use crate::animation_comp::AnimationComp;
use crate::animation_comp::AnimationTimer;
use crate::animation_error::NotFoundError;
use crate::animation_frames::AnimationFrames;
use crate::animation_respo_resource::AllAnimationResource;
use crate::pos_scale_factor::SCALE_ONE;
use crate::precent::spec_clamp_percent;
use crate::precent::PercentScaleFactor;
use crate::types::AnimationIndex;
use crate::types::KeyLookUpResult;

verus! {

/// Linear index of the cell at (`row`, `column`) in a grid that has
/// `columns` cells in every row.
pub open spec fn spec_index_from_row_column(row: int, column: int, columns: int) -> int {
    row * columns + column
}

/// Computes the linear index of a grid cell.
pub fn index_from_row_column(row: usize, column: usize, columns: usize) -> (index: usize)
    requires
        spec_index_from_row_column(row as int, column as int, columns as int) <= usize::MAX,
    ensures
        index == spec_index_from_row_column(row as int, column as int, columns as int),
{
    assert(row * columns <= row * columns + column) by (nonlinear_arith);
    row * columns + column
}

/// `a * b / divisor`, rounded down, and held at the largest `u64` where it would
/// pass it.
pub open spec fn spec_scaled(a: int, b: int, divisor: int) -> int {
    if a * b / divisor > u64::MAX {
        u64::MAX as int
    } else {
        a * b / divisor
    }
}

/// The product of two `u64` numbers fits in a `u128`.
pub proof fn lemma_product_fits(a: u64, b: u64)
    ensures
        0 <= a * b <= u128::MAX,
{
    assert(0 <= a * b <= 0xffff_ffff_ffff_ffff * 0xffff_ffff_ffff_ffff) by (nonlinear_arith)
        requires
            0 <= a <= 0xffff_ffff_ffff_ffff,
            0 <= b <= 0xffff_ffff_ffff_ffff,
    ;
}

/// Computes `a * b / divisor` without overflow, rounded down and capped at `u64::MAX`.
pub fn scaled(a: u64, b: u64, divisor: u64) -> (quotient: u64)
    requires
        divisor > 0,
    ensures
        quotient == spec_scaled(a as int, b as int, divisor as int),
{
    proof {
        lemma_product_fits(a, b);
    }
    let wide: u128 = (a as u128) * (b as u128) / (divisor as u128);
    if wide > u64::MAX as u128 {
        u64::MAX
    } else {
        wide as u64
    }
}

/// How far through `frames` an entity is that shows the frame `index` with
/// `timer` running on it, in millionths: the steps taken from the first frame
/// and the timer's share of the step under way, out of all the steps; nothing
/// before the first frame, the whole from the last frame on. A band of a
/// single frame has no steps, and nothing of it is ever done.
pub open spec fn spec_progress(frames: AnimationFrames, index: int, timer: AnimationTimer) -> int {
    if frames.spec_frame_gap() <= 0 {
        0
    } else {
        spec_clamp_percent(
            ((index - frames.spec_start()) * SCALE_ONE + spec_clamp_percent(timer.spec_percent()))
                / frames.spec_frame_gap(),
        )
    }
}

/// How far through `frames` an entity is that shows the frame `index` with
/// `timer` running on it.
pub fn progress_in(frames: &AnimationFrames, index: AnimationIndex, timer: &AnimationTimer) -> (progress:
    PercentScaleFactor)
    ensures
        progress == PercentScaleFactor::from_millionths(spec_progress(*frames, index as int, *timer)),
        progress.spec_value() == spec_progress(*frames, index as int, *timer),
{
    broadcast use PercentScaleFactor::lemma_from_millionths;

    let gap = frames.frame_gap();
    let start = frames.start();
    if gap == 0 {
        return PercentScaleFactor::zero();
    }
    let share: u64 = timer.percent().to_value();
    if index < start {
        proof {
            let behind = (index - start) * SCALE_ONE + share;
            assert(behind <= 0) by (nonlinear_arith)
                requires
                    behind == (index - start) * SCALE_ONE + share,
                    index - start <= -1,
                    share <= SCALE_ONE,
            ;
            assert(behind / (gap as int) <= 0) by (nonlinear_arith)
                requires
                    behind <= 0,
                    gap > 0,
            ;
        }
        return PercentScaleFactor::zero();
    }
    let steps: u64 = (index - start) as u64;
    proof {
        lemma_product_fits(steps, SCALE_ONE);
        assert(steps * SCALE_ONE + share <= u128::MAX) by (nonlinear_arith)
            requires
                0 <= steps <= 0xffff_ffff_ffff_ffff,
                SCALE_ONE == 1_000_000,
                0 <= share <= 1_000_000,
        ;
        assert(0 <= (steps * SCALE_ONE + share) / (gap as int)) by (nonlinear_arith)
            requires
                0 <= steps,
                0 <= share,
                SCALE_ONE == 1_000_000,
                gap > 0,
        ;
    }
    let wide: u128 = ((steps as u128) * (SCALE_ONE as u128) + (share as u128)) / (gap as u128);
    if wide > SCALE_ONE as u128 {
        PercentScaleFactor::new_as_complete()
    } else {
        PercentScaleFactor::clamp_unsigned(wide as u64)
    }
}

/// How far through its state the entity `comp` is while it shows the frame
/// `sprite_index`.
pub fn get_progress_of_animation(
    comp: &AnimationComp,
    repos: &AllAnimationResource,
    sprite_index: AnimationIndex,
) -> (result: KeyLookUpResult<PercentScaleFactor>)
    ensures
        match spec_frames_of(repos@, comp.sequence@, comp.current_state@) {
            Some(found) => result == Ok::<PercentScaleFactor, NotFoundError>(
                PercentScaleFactor::from_millionths(
                    spec_progress(found, sprite_index as int, comp.duration_for_animation),
                ),
            ),
            None => result is Err && spec_lookup_failure(
                repos@,
                comp.sequence@,
                comp.current_state@,
                result->Err_0,
            ),
        },
{
    match comp.get_current_seq(repos) {
        Ok(current_animation) => Ok(
            progress_in(&current_animation, sprite_index, &comp.duration_for_animation),
        ),
        Err(error) => Err(error),
    }
}

} // verus!
