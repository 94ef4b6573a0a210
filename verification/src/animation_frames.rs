use vstd::prelude::*;
use crate::animation_error::AnimationFrameError;
use crate::pos_scale_factor::SCALE_ONE;
use crate::precent::PercentScaleFactor;
use crate::types::AnimationDuration;
use crate::types::AnimationFrameResult;
use crate::types::AnimationIndex;
use crate::utils::index_from_row_column;
use crate::utils::lemma_product_fits;
use crate::utils::spec_index_from_row_column;

verus! {

/// A band of frames in a grid atlas that plays as one animation: the frames
/// from `start` to `end`, both included, shown over `time` and either
/// repeated for ever or held on the last frame.
#[derive(Debug, Clone, Copy, PartialEq, Eq, Structural)]
pub struct AnimationFrames {
    start: AnimationIndex,
    end: AnimationIndex,
    time: AnimationDuration,
    infinite: bool,
}

/// The column a region starts in where none is given: the first.
pub open spec fn spec_column_or_default(column: Option<AnimationIndex>) -> int {
    match column {
        Some(column) => column as int,
        None => 0,
    }
}

/// The row a region ends in where none is given: the row it starts in.
pub open spec fn spec_end_row_or_default(row: AnimationIndex, end_row: Option<AnimationIndex>) -> int {
    match end_row {
        Some(end_row) => end_row as int,
        None => row as int,
    }
}

/// The column before which a region ends where none is given: the end of the row.
pub open spec fn spec_end_column_or_default(
    end_column: Option<AnimationIndex>,
    columns: AnimationIndex,
) -> int {
    match end_column {
        Some(end_column) => end_column as int,
        None => columns as int,
    }
}

/// Index of the first frame of a region.
pub open spec fn spec_region_start(
    row: AnimationIndex,
    column: Option<AnimationIndex>,
    columns: AnimationIndex,
) -> int {
    spec_index_from_row_column(row as int, spec_column_or_default(column), columns as int)
}

/// Index of the cell that follows a region's last frame.
pub open spec fn spec_region_bound(
    row: AnimationIndex,
    end_row: Option<AnimationIndex>,
    end_column: Option<AnimationIndex>,
    columns: AnimationIndex,
) -> int {
    spec_index_from_row_column(
        spec_end_row_or_default(row, end_row),
        spec_end_column_or_default(end_column, columns),
        columns as int,
    )
}

/// Index of the last frame of a region: one before its bound, and zero where
/// the bound is zero.
pub open spec fn spec_region_end(
    row: AnimationIndex,
    end_row: Option<AnimationIndex>,
    end_column: Option<AnimationIndex>,
    columns: AnimationIndex,
) -> int {
    let bound = spec_region_bound(row, end_row, end_column, columns);
    if bound == 0 {
        0
    } else {
        bound - 1
    }
}

/// Both corners of a region have an index that a machine word holds.
pub open spec fn spec_region_fits(
    row: AnimationIndex,
    column: Option<AnimationIndex>,
    end_row: Option<AnimationIndex>,
    end_column: Option<AnimationIndex>,
    columns: AnimationIndex,
) -> bool {
    &&& spec_region_start(row, column, columns) <= usize::MAX
    &&& spec_region_bound(row, end_row, end_column, columns) <= usize::MAX
}

/// Whether the cell at (`row`, `column`) of a grid with `columns` columns has
/// an index that a machine word holds.
pub fn cell_fits(row: AnimationIndex, column: AnimationIndex, columns: AnimationIndex) -> (fits: bool)
    ensures
        fits == (spec_index_from_row_column(row as int, column as int, columns as int)
            <= usize::MAX),
{
    proof {
        lemma_product_fits(row as u64, columns as u64);
        assert(row * columns + column <= u128::MAX) by (nonlinear_arith)
            requires
                0 <= row <= 0xffff_ffff_ffff_ffff,
                0 <= columns <= 0xffff_ffff_ffff_ffff,
                0 <= column <= 0xffff_ffff_ffff_ffff,
        ;
    }
    let wide: u128 = (row as u128) * (columns as u128) + (column as u128);
    wide <= usize::MAX as u128
}

/// Whether both corners of a region have an index that a machine word holds.
pub fn region_fits(
    row: AnimationIndex,
    column: Option<AnimationIndex>,
    end_row: Option<AnimationIndex>,
    end_column: Option<AnimationIndex>,
    columns: AnimationIndex,
) -> (fits: bool)
    ensures
        fits == spec_region_fits(row, column, end_row, end_column, columns),
{
    let column = match column {
        Some(column) => column,
        None => 0,
    };
    let end_row = match end_row {
        Some(end_row) => end_row,
        None => row,
    };
    let end_column = match end_column {
        Some(end_column) => end_column,
        None => columns,
    };
    cell_fits(row, column, columns) && cell_fits(end_row, end_column, columns)
}

impl AnimationFrames {
    #[verifier::type_invariant]
    spec fn ordered(self) -> bool {
        self.start <= self.end
    }

    /// Index of the first frame.
    pub closed spec fn spec_start(self) -> int {
        self.start as int
    }

    /// Index of the last frame.
    pub closed spec fn spec_end(self) -> int {
        self.end as int
    }

    /// Time that one pass over the band is given.
    pub closed spec fn spec_time(self) -> AnimationDuration {
        self.time
    }

    /// Whether the band starts over after its last frame.
    pub closed spec fn spec_is_infinite(self) -> bool {
        self.infinite
    }

    /// What describing a region of the grid gives: the band from the region's
    /// first frame to its last, or the reason why the region has none.
    pub closed spec fn spec_new(
        row: AnimationIndex,
        column: Option<AnimationIndex>,
        end_row: Option<AnimationIndex>,
        end_column: Option<AnimationIndex>,
        time: AnimationDuration,
        columns: AnimationIndex,
        infinite: bool,
    ) -> AnimationFrameResult {
        let start = spec_region_start(row, column, columns);
        let end = spec_region_end(row, end_row, end_column, columns);
        if row > spec_end_row_or_default(row, end_row) {
            Err(
                AnimationFrameError::InvalidRows {
                    start: row,
                    end: spec_end_row_or_default(row, end_row) as usize,
                },
            )
        } else if start > end {
            Err(AnimationFrameError::InvalidIndexes { start: start as usize, end: end as usize })
        } else {
            Ok(AnimationFrames { start: start as usize, end: end as usize, time, infinite })
        }
    }

    /// Both ends of a band are frame indices: numbers that a machine word holds.
    pub proof fn lemma_ends_are_indices(self)
        ensures
            0 <= self.spec_start() <= usize::MAX,
            0 <= self.spec_end() <= usize::MAX,
    {
    }

    /// In a band of no more than half a million steps, the frame that lies as
    /// far through the band as a frame of the band does is that frame.
    pub proof fn lemma_index_of_precent_of_index(self, index: int)
        requires
            self.spec_start() <= index <= self.spec_end(),
            self.spec_frame_gap() <= SCALE_ONE / 2,
        ensures
            self.spec_index_at(self.spec_millionths_at(index)) == index,
    {
        let gap = self.spec_frame_gap();
        let steps = index - self.spec_start();
        if index > self.spec_start() && index < self.spec_end() {
            let share = steps * SCALE_ONE / gap;
            assert(gap * share <= steps * SCALE_ONE < gap * share + gap) by (nonlinear_arith)
                requires
                    gap > 0,
                    steps >= 0,
                    share == steps * SCALE_ONE / gap,
            ;
            assert(steps * 1_000_000 <= gap * share + 500_000 < (steps + 1) * 1_000_000);
        } else if index > self.spec_start() {
            assert((gap * SCALE_ONE + SCALE_ONE / 2) / (SCALE_ONE as int) == gap) by (nonlinear_arith)
                requires
                    SCALE_ONE == 1_000_000,
            ;
        }
    }

    /// Number of steps from the first frame to the last.
    pub open spec fn spec_frame_gap(self) -> int {
        self.spec_end() - self.spec_start()
    }

    /// Nanoseconds each frame is shown: the band's time shared among its
    /// steps, or all of it where the band is a single frame.
    pub open spec fn spec_time_per_frame(self) -> int {
        if self.spec_frame_gap() <= 0 {
            self.spec_time().nanos as int
        } else {
            self.spec_time().nanos as int / self.spec_frame_gap()
        }
    }

    /// The frame that lies `millionths` of the way from the first frame to the
    /// last, rounded to the nearest frame (a half is rounded up).
    pub open spec fn spec_index_at(self, millionths: int) -> int {
        self.spec_start() + (self.spec_frame_gap() * millionths + SCALE_ONE / 2) / (
        SCALE_ONE as int)
    }

    /// How far `index` lies from the first frame to the last, in millionths,
    /// rounded down: nothing at or before the first frame, the whole at or
    /// after the last.
    pub open spec fn spec_millionths_at(self, index: int) -> int {
        if index <= self.spec_start() {
            0
        } else if index >= self.spec_end() {
            SCALE_ONE as int
        } else {
            (index - self.spec_start()) * SCALE_ONE / self.spec_frame_gap()
        }
    }

    /// Describes the band that covers a region of the grid: from the cell at
    /// (`row`, `column`) up to, but without, the cell at (`end_row`,
    /// `end_column`). A missing `column` is the first, a missing `end_row` is
    /// `row`, a missing `end_column` is the end of the row.
    pub fn new(
        row: AnimationIndex,
        column: Option<AnimationIndex>,
        end_row: Option<AnimationIndex>,
        end_column: Option<AnimationIndex>,
        time: AnimationDuration,
        columns: AnimationIndex,
        infinite: bool,
    ) -> (result: AnimationFrameResult)
        requires
            row <= spec_end_row_or_default(row, end_row) ==> spec_region_fits(
                row,
                column,
                end_row,
                end_column,
                columns,
            ),
        ensures
            result == Self::spec_new(row, column, end_row, end_column, time, columns, infinite),
            row > spec_end_row_or_default(row, end_row) ==> result == Err::<
                AnimationFrames,
                AnimationFrameError,
            >(
                AnimationFrameError::InvalidRows {
                    start: row,
                    end: spec_end_row_or_default(row, end_row) as usize,
                },
            ),
            row <= spec_end_row_or_default(row, end_row) && spec_region_start(row, column, columns)
                > spec_region_end(row, end_row, end_column, columns) ==> result == Err::<
                AnimationFrames,
                AnimationFrameError,
            >(
                AnimationFrameError::InvalidIndexes {
                    start: spec_region_start(row, column, columns) as usize,
                    end: spec_region_end(row, end_row, end_column, columns) as usize,
                },
            ),
            row <= spec_end_row_or_default(row, end_row) && spec_region_start(row, column, columns)
                <= spec_region_end(row, end_row, end_column, columns) ==> {
                &&& result is Ok
                &&& result->Ok_0.spec_start() == spec_region_start(row, column, columns)
                &&& result->Ok_0.spec_end() == spec_region_end(row, end_row, end_column, columns)
                &&& result->Ok_0.spec_time() == time
                &&& result->Ok_0.spec_is_infinite() == infinite
            },
    {
        let column = match column {
            Some(column) => column,
            None => 0,
        };
        let end_row = match end_row {
            Some(end_row) => end_row,
            None => row,
        };
        let end_column = match end_column {
            Some(end_column) => end_column,
            None => columns,
        };

        if row > end_row {
            return Err(AnimationFrameError::InvalidRows { start: row, end: end_row });
        }
        let start = index_from_row_column(row, column, columns);
        let bound = index_from_row_column(end_row, end_column, columns);
        let end = if bound == 0 {
            0
        } else {
            bound - 1
        };

        if start > end {
            return Err(AnimationFrameError::InvalidIndexes { start, end });
        }
        Ok(AnimationFrames { start, end, time, infinite })
    }

    /// Describes the band that covers the whole of one row of the grid. Every
    /// row gives a band: in a grid without columns it is the single frame zero.
    pub fn from_row(
        row: AnimationIndex,
        time: AnimationDuration,
        columns: usize,
        infinite: bool,
    ) -> (result: AnimationFrameResult)
        requires
            spec_region_fits(row, None, None, None, columns),
        ensures
            result is Ok,
            result->Ok_0.spec_start() == row * columns,
            result->Ok_0.spec_end() == if columns == 0 {
                0
            } else {
                row * columns + columns - 1
            },
            result->Ok_0.spec_time() == time,
            result->Ok_0.spec_is_infinite() == infinite,
    {
        proof {
            assert(columns == 0 ==> row * columns == 0) by (nonlinear_arith);
            assert(row * columns >= 0) by (nonlinear_arith)
                requires
                    row >= 0,
                    columns >= 0,
            ;
        }
        Self::new(row, None, None, None, time, columns, infinite)
    }

    /// Time that one pass over the band is given.
    pub fn time(&self) -> (time: AnimationDuration)
        ensures
            time == self.spec_time(),
    {
        self.time
    }

    /// Index of the first frame.
    pub fn start(&self) -> (start: usize)
        ensures
            start == self.spec_start(),
            start <= self.spec_end(),
    {
        proof {
            use_type_invariant(self);
        }
        self.start
    }

    /// Number of steps from the first frame to the last.
    pub fn frame_gap(&self) -> (gap: usize)
        ensures
            gap == self.spec_frame_gap(),
    {
        proof {
            use_type_invariant(self);
        }
        self.end - self.start
    }

    /// Whether the band starts over after its last frame.
    pub fn is_infinite(&self) -> (infinite: bool)
        ensures
            infinite == self.spec_is_infinite(),
    {
        self.infinite
    }

    /// Time each frame is shown. A band of a single frame has no step to share
    /// its time among, so its frame is given all of it.
    pub fn time_per_frame(&self) -> (per_frame: AnimationDuration)
        ensures
            per_frame.nanos == self.spec_time_per_frame(),
    {
        let gap = self.frame_gap();
        if gap == 0 {
            self.time
        } else {
            AnimationDuration::from_nanos(self.time.as_nanos() / (gap as u64))
        }
    }

    /// Index of the last frame.
    pub fn end(&self) -> (end: usize)
        ensures
            end == self.spec_end(),
            self.spec_start() <= end,
    {
        proof {
            use_type_invariant(self);
        }
        self.end
    }

    /// The frame that lies the share `precent` of the way through the band.
    pub fn index_from_precent(&self, precent: PercentScaleFactor) -> (index: AnimationIndex)
        ensures
            index == self.spec_index_at(precent.spec_value()),
            self.spec_start() <= index <= self.spec_end(),
    {
        proof {
            use_type_invariant(self);
        }
        let gap: u64 = (self.end - self.start) as u64;
        let share: u64 = precent.to_value();
        proof {
            lemma_product_fits(gap, share);
            assert(gap * share <= gap * SCALE_ONE) by (nonlinear_arith)
                requires
                    0 <= share <= SCALE_ONE,
                    0 <= gap,
            ;
            assert((gap * SCALE_ONE + SCALE_ONE / 2) / (SCALE_ONE as int) == gap) by (nonlinear_arith)
                requires
                    SCALE_ONE == 1_000_000,
            ;
            assert((gap * share + SCALE_ONE / 2) / (SCALE_ONE as int) <= (gap * SCALE_ONE
                + SCALE_ONE / 2) / (SCALE_ONE as int)) by (nonlinear_arith)
                requires
                    gap * share <= gap * SCALE_ONE,
                    SCALE_ONE == 1_000_000,
            ;
        }
        let wide: u128 = ((gap as u128) * (share as u128) + (SCALE_ONE / 2) as u128) / (
        SCALE_ONE as u128);
        self.start + (wide as usize)
    }

    /// How far through the band the frame `index` lies.
    pub fn precent(&self, index: AnimationIndex) -> (precent: PercentScaleFactor)
        ensures
            precent == PercentScaleFactor::from_millionths(self.spec_millionths_at(index as int)),
            precent.spec_value() == self.spec_millionths_at(index as int),
            0 <= self.spec_millionths_at(index as int) <= SCALE_ONE,
    {
        proof {
            use_type_invariant(self);
        }
        if index <= self.start {
            PercentScaleFactor::zero()
        } else if index >= self.end {
            PercentScaleFactor::new_as_complete()
        } else {
            let gap: u64 = (self.end - self.start) as u64;
            let steps: u64 = (index - self.start) as u64;
            proof {
                lemma_product_fits(steps, SCALE_ONE);
                assert(steps * SCALE_ONE / (gap as int) <= SCALE_ONE) by (nonlinear_arith)
                    requires
                        0 <= steps < gap,
                        SCALE_ONE == 1_000_000,
                ;
                assert(0 <= steps * SCALE_ONE / (gap as int)) by (nonlinear_arith)
                    requires
                        0 <= steps < gap,
                        SCALE_ONE == 1_000_000,
                ;
            }
            let wide: u128 = (steps as u128) * (SCALE_ONE as u128) / (gap as u128);
            PercentScaleFactor::clamp_unsigned(wide as u64)
        }
    }
}

} // verus!
