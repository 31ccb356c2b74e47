//! The tile scheduler: which pixel is sampled next, when radiance is
//! evaluated, what is deposited on the film and when a tile is merged.
//!
//! The image is divided into square tiles that are rendered independently.
//! For one tile the work alternates between the collaborators (the sampler,
//! the camera, the radiance estimator, the film) and the decisions taken
//! here. `TileRender` holds the decisions: it is told what a collaborator
//! answered and says what is to be done next.
use vstd::prelude::*;
use crate::float::Float;
use crate::geometry::bounds::{
    lemma_index_in_range,
    lemma_index_is_row_and_column,
    lemma_index_of_point,
    lemma_point_at_index,
    lemma_quotient_bounds,
    lemma_quotient_unique,
    lemma_tile_inside,
    Bounds2i,
};
use crate::geometry::Point2i;
use crate::spectrum::Spectrum;

pub mod whitted;

verus! {

/// The edge length of a tile, in pixels.
pub const TILE_SIZE: i32 = 16;

/// The number that names a tile within the sample bounds: its row in the
/// grid of tiles times the number of columns of the grid, plus its column.
/// Row and column are those of the tile's first pixel, counted in tiles
/// from the `min` corner of the sample bounds. The number seeds the tile's
/// own stream of samples.
pub open spec fn spec_tile_id(tile: Bounds2i, sample_bounds: Bounds2i, size: int) -> int {
    let row = (tile.min.y - sample_bounds.min.y) / size;
    let column = (tile.min.x - sample_bounds.min.x) / size;
    row * sample_bounds.tile_columns(size) + column
}

/// A whole number as the 64 bits that hold it.
pub open spec fn as_unsigned(v: int) -> int {
    if v >= 0 {
        v
    } else {
        v + 0x1_0000_0000_0000_0000
    }
}

/// The quotient rounded down, which is the quotient of the specification
/// for a positive divisor.
fn floor_div(d: i64, size: i64) -> (q: i64)
    requires
        0 < size <= 0x7fff_ffff,
        -0xffff_ffff <= d <= 0xffff_ffff,
    ensures
        q == d / size,
        -0xffff_ffff <= q <= 0xffff_ffff,
{
    if d >= 0 {
        proof {
            lemma_quotient_bounds(d as int, size as int);
            let q = d as int / size as int;
            if q > d {
                assert(q * size > d) by (nonlinear_arith)
                    requires
                        q > d,
                        d >= 0,
                        size >= 1,
                ;
            }
        }
        d / size
    } else {
        let k: i64 = (-d + size - 1) / size;
        proof {
            lemma_quotient_bounds(-d + size - 1, size as int);
            assert((k + 1) * size == k * size + size) by (nonlinear_arith);
            assert((-k) * size == -(k * size)) by (nonlinear_arith);
            assert((-k + 1) * size == -(k * size) + size) by (nonlinear_arith);
            lemma_quotient_unique(d as int, size as int, -k as int);
            if k > -d {
                assert(k * size > -d + size - 1) by (nonlinear_arith)
                    requires
                        k >= -d + 1,
                        -d >= 1,
                        size >= 1,
                ;
            }
        }
        -k
    }
}

/// The identifier of a tile of edge `tile_size` within the sample bounds.
/// For the tiles that `Bounds2i::tiles` gives it is the place of the tile in
/// that sequence (see `lemma_tile_id_is_place`).
pub fn tile_id(tile: Bounds2i, sample_bounds: Bounds2i, tile_size: i32) -> (id: u64)
    requires
        tile_size > 0,
    ensures
        id == as_unsigned(spec_tile_id(tile, sample_bounds, tile_size as int)),
{
    let size: i64 = tile_size as i64;
    let row: i128 = floor_div(tile.min.y as i64 - sample_bounds.min.y as i64, size) as i128;
    let column: i128 = floor_div(tile.min.x as i64 - sample_bounds.min.x as i64, size) as i128;
    let cols: i128 = sample_bounds.tile_column_count(tile_size) as i128;
    proof {
        assert(-0xffff_fffe_0000_0001 <= row * cols <= 0xffff_fffe_0000_0001) by (nonlinear_arith)
            requires
                -0xffff_ffff <= row <= 0xffff_ffff,
                0 <= cols <= 0xffff_ffff,
        ;
    }
    let v: i128 = row * cols + column;
    if v >= 0 {
        v as u64
    } else {
        (v + 0x1_0000_0000_0000_0000) as u64
    }
}

/// The identifier of a tile is its place among the tiles of the image: the
/// tile at place `i` of the sequence of tiles has the identifier `i`.
pub proof fn lemma_tile_id_is_place(sample_bounds: Bounds2i, size: int, i: int)
    requires
        size > 0,
        0 <= i < sample_bounds.spec_tile_count(size),
    ensures
        spec_tile_id(sample_bounds.tile_at(size, i), sample_bounds, size) == i,
        as_unsigned(spec_tile_id(sample_bounds.tile_at(size, i), sample_bounds, size)) == i,
{
    let b = sample_bounds;
    let cols = b.tile_columns(size);
    lemma_index_is_row_and_column(b, size, i);
    let row = i / cols;
    let col = i % cols;
    lemma_tile_inside(b, size, row, col);
    assert((row + 1) * size == row * size + size) by (nonlinear_arith);
    assert((col + 1) * size == col * size + size) by (nonlinear_arith);
    lemma_quotient_unique(row * size, size, row);
    lemma_quotient_unique(col * size, size, col);
}

/// Two tiles of one image never share an identifier, so no two tiles draw
/// the same stream of samples.
pub proof fn lemma_tile_ids_distinct(sample_bounds: Bounds2i, size: int, i: int, j: int)
    requires
        size > 0,
        0 <= i < sample_bounds.spec_tile_count(size),
        0 <= j < sample_bounds.spec_tile_count(size),
        i != j,
    ensures
        spec_tile_id(sample_bounds.tile_at(size, i), sample_bounds, size) != spec_tile_id(
            sample_bounds.tile_at(size, j),
            sample_bounds,
            size,
        ),
        as_unsigned(spec_tile_id(sample_bounds.tile_at(size, i), sample_bounds, size))
            != as_unsigned(spec_tile_id(sample_bounds.tile_at(size, j), sample_bounds, size)),
{
    lemma_tile_id_is_place(sample_bounds, size, i);
    lemma_tile_id_is_place(sample_bounds, size, j);
}

/// Where the rendering of a tile stands: what was last asked of a
/// collaborator and not yet answered.
#[derive(Clone, Copy, Debug, PartialEq, Eq, Structural)]
pub enum TilePhase {
    /// Nothing was asked yet.
    Ready,
    /// The sampler is starting a pixel.
    StartingPixel { pixel: Point2i },
    /// The sampler is asked whether the pixel has another sample.
    AwaitingSample { pixel: Point2i },
    /// The camera is generating the ray of the sample.
    GeneratingRay { pixel: Point2i },
    /// The radiance along the ray, which has this weight, is being
    /// estimated.
    Evaluating { pixel: Point2i, weight: Float },
    /// The sample is being put on the tile's film.
    Depositing { pixel: Point2i },
    /// The arena of the sample is being reset.
    Resetting { pixel: Point2i },
    /// The tile is being merged into the film.
    Merging,
    /// The tile is merged.
    Done,
    /// A radiance held a NaN; the rendering stopped.
    Failed,
}

/// What a collaborator answered.
#[derive(Clone, Copy, Debug, PartialEq, Eq, Structural)]
pub enum TileEvent {
    /// The rendering of the tile is to begin.
    Begin,
    /// The sampler has started the pixel.
    PixelStarted,
    /// The sampler said whether the pixel has another sample.
    SampleReady(bool),
    /// The camera generated the ray, with this weight.
    RayGenerated { weight: Float },
    /// The radiance along the ray was estimated.
    Radiance(Spectrum),
    /// The sample is on the tile's film.
    Deposited,
    /// The arena is reset.
    ArenaReset,
    /// The tile is merged into the film.
    Merged,
}

/// What is to be done next.
#[derive(Clone, Copy, Debug, PartialEq, Eq, Structural)]
pub enum TileAction {
    /// Tell the sampler to start this pixel.
    StartPixel(Point2i),
    /// Ask the sampler whether the pixel has another sample.
    NextSample,
    /// Draw the camera sample of this pixel, generate its ray with
    /// neighbours and scale the neighbours for the number of samples.
    GenerateRay(Point2i),
    /// Estimate the radiance along the ray.
    EvaluateRadiance,
    /// Put this radiance with this weight on the tile's film, at the film
    /// position of the camera sample.
    Deposit { radiance: Spectrum, weight: Float },
    /// Reset the arena, keeping its memory.
    ResetArena,
    /// Merge the tile into the film.
    MergeTile,
    /// Nothing more: the tile is rendered.
    Finish,
    /// Stop the rendering: the radiance of a sample of this pixel holds a
    /// NaN.
    Abort { pixel: Point2i, radiance: Spectrum },
}

/// The pixel that a phase is about, if it is about one.
pub open spec fn phase_pixel(phase: TilePhase) -> Option<Point2i> {
    match phase {
        TilePhase::StartingPixel { pixel } => Some(pixel),
        TilePhase::AwaitingSample { pixel } => Some(pixel),
        TilePhase::GeneratingRay { pixel } => Some(pixel),
        TilePhase::Evaluating { pixel, .. } => Some(pixel),
        TilePhase::Depositing { pixel } => Some(pixel),
        TilePhase::Resetting { pixel } => Some(pixel),
        _ => None,
    }
}

/// The phase and the action that follow when `event` arrives in `phase`, or
/// none where the event is not the answer that the phase waits for.
///
/// The pixels are visited row by row. A pixel is sampled for as long as the
/// sampler has samples. A ray whose weight is not above zero is not
/// evaluated: a black sample is deposited for it. A radiance with a NaN is
/// never deposited: it stops the rendering. When the last pixel has no more
/// samples, the tile is merged.
pub open spec fn spec_step(tile: Bounds2i, phase: TilePhase, event: TileEvent) -> Option<
    (TilePhase, TileAction),
> {
    match (phase, event) {
        (TilePhase::Ready, TileEvent::Begin) => if tile.area() > 0 {
            Some((TilePhase::StartingPixel { pixel: tile.min }, TileAction::StartPixel(tile.min)))
        } else {
            Some((TilePhase::Merging, TileAction::MergeTile))
        },
        (TilePhase::StartingPixel { pixel }, TileEvent::PixelStarted) => Some(
            (TilePhase::AwaitingSample { pixel }, TileAction::NextSample),
        ),
        (TilePhase::AwaitingSample { pixel }, TileEvent::SampleReady(more)) => if more {
            Some((TilePhase::GeneratingRay { pixel }, TileAction::GenerateRay(pixel)))
        } else if tile.index_of(pixel) + 1 < tile.area() {
            let next = tile.point_at(tile.index_of(pixel) + 1);
            Some((TilePhase::StartingPixel { pixel: next }, TileAction::StartPixel(next)))
        } else {
            Some((TilePhase::Merging, TileAction::MergeTile))
        },
        (TilePhase::GeneratingRay { pixel }, TileEvent::RayGenerated { weight }) => if weight.spec_gt(
            Float::spec_zero(),
        ) {
            Some((TilePhase::Evaluating { pixel, weight }, TileAction::EvaluateRadiance))
        } else {
            Some(
                (
                    TilePhase::Depositing { pixel },
                    TileAction::Deposit { radiance: Spectrum::spec_black(), weight },
                ),
            )
        },
        (TilePhase::Evaluating { pixel, weight }, TileEvent::Radiance(radiance)) => if radiance.spec_has_nans() {
            Some((TilePhase::Failed, TileAction::Abort { pixel, radiance }))
        } else {
            Some((TilePhase::Depositing { pixel }, TileAction::Deposit { radiance, weight }))
        },
        (TilePhase::Depositing { pixel }, TileEvent::Deposited) => Some(
            (TilePhase::Resetting { pixel }, TileAction::ResetArena),
        ),
        (TilePhase::Resetting { pixel }, TileEvent::ArenaReset) => Some(
            (TilePhase::AwaitingSample { pixel }, TileAction::NextSample),
        ),
        (TilePhase::Merging, TileEvent::Merged) => Some((TilePhase::Done, TileAction::Finish)),
        _ => None,
    }
}

/// The rendering of one tile.
#[derive(Clone, Copy, Debug)]
pub struct TileRender {
    tile: Bounds2i,
    phase: TilePhase,
}

impl TileRender {
    pub closed spec fn spec_tile(self) -> Bounds2i {
        self.tile
    }

    pub closed spec fn spec_phase(self) -> TilePhase {
        self.phase
    }

    /// The pixel that is being worked on is one of the tile.
    pub open spec fn well_formed(self) -> bool {
        phase_pixel(self.spec_phase()) matches Some(pixel) ==> self.spec_tile().contains(pixel)
    }

    #[verifier::type_invariant]
    spec fn type_inv(self) -> bool {
        self.well_formed()
    }

    pub fn new(tile: Bounds2i) -> (r: TileRender)
        ensures
            r.spec_tile() == tile,
            r.spec_phase() == TilePhase::Ready,
    {
        TileRender { tile, phase: TilePhase::Ready }
    }

    pub fn tile(&self) -> (t: Bounds2i)
        ensures
            t == self.spec_tile(),
    {
        self.tile
    }

    pub fn phase(&self) -> (p: TilePhase)
        ensures
            p == self.spec_phase(),
            self.well_formed(),
    {
        proof {
            use_type_invariant(self);
        }
        self.phase
    }

    /// Takes the answer of a collaborator and says what is to be done next.
    /// An event that the present phase does not wait for is refused: the
    /// result is none and nothing changes.
    pub fn step(&mut self, event: TileEvent) -> (action: Option<TileAction>)
        ensures
            final(self).spec_tile() == old(self).spec_tile(),
            match spec_step(old(self).spec_tile(), old(self).spec_phase(), event) {
                Some((phase, act)) => final(self).spec_phase() == phase && action == Some(act),
                None => final(self).spec_phase() == old(self).spec_phase() && action is None,
            },
            action matches Some(TileAction::Deposit { radiance, .. }) ==> !radiance.spec_has_nans(),
    {
        proof {
            use_type_invariant(&*self);
        }
        let tile = self.tile;
        match (self.phase, event) {
            (TilePhase::Ready, TileEvent::Begin) => {
                match tile.first_point() {
                    Some(pixel) => {
                        self.phase = TilePhase::StartingPixel { pixel };
                        Some(TileAction::StartPixel(pixel))
                    },
                    None => {
                        self.phase = TilePhase::Merging;
                        Some(TileAction::MergeTile)
                    },
                }
            },
            (TilePhase::StartingPixel { pixel }, TileEvent::PixelStarted) => {
                self.phase = TilePhase::AwaitingSample { pixel };
                Some(TileAction::NextSample)
            },
            (TilePhase::AwaitingSample { pixel }, TileEvent::SampleReady(more)) => {
                if more {
                    self.phase = TilePhase::GeneratingRay { pixel };
                    Some(TileAction::GenerateRay(pixel))
                } else {
                    match tile.next_point(pixel) {
                        Some(next) => {
                            proof {
                                lemma_point_at_index(tile, next);
                            }
                            self.phase = TilePhase::StartingPixel { pixel: next };
                            Some(TileAction::StartPixel(next))
                        },
                        None => {
                            self.phase = TilePhase::Merging;
                            Some(TileAction::MergeTile)
                        },
                    }
                }
            },
            (TilePhase::GeneratingRay { pixel }, TileEvent::RayGenerated { weight }) => {
                if weight.gt(Float::zero()) {
                    self.phase = TilePhase::Evaluating { pixel, weight };
                    Some(TileAction::EvaluateRadiance)
                } else {
                    self.phase = TilePhase::Depositing { pixel };
                    Some(TileAction::Deposit { radiance: Spectrum::black(), weight })
                }
            },
            (TilePhase::Evaluating { pixel, weight }, TileEvent::Radiance(radiance)) => {
                if radiance.has_nans() {
                    self.phase = TilePhase::Failed;
                    Some(TileAction::Abort { pixel, radiance })
                } else {
                    self.phase = TilePhase::Depositing { pixel };
                    Some(TileAction::Deposit { radiance, weight })
                }
            },
            (TilePhase::Depositing { pixel }, TileEvent::Deposited) => {
                self.phase = TilePhase::Resetting { pixel };
                Some(TileAction::ResetArena)
            },
            (TilePhase::Resetting { pixel }, TileEvent::ArenaReset) => {
                self.phase = TilePhase::AwaitingSample { pixel };
                Some(TileAction::NextSample)
            },
            (TilePhase::Merging, TileEvent::Merged) => {
                self.phase = TilePhase::Done;
                Some(TileAction::Finish)
            },
            _ => None,
        }
    }
}

/// The phase reached and the actions called for when the events arrive one
/// after the other, starting in `phase`. A refused event changes nothing.
pub open spec fn run(tile: Bounds2i, phase: TilePhase, events: Seq<TileEvent>) -> (
    TilePhase,
    Seq<TileAction>,
)
    decreases events.len(),
{
    if events.len() == 0 {
        (phase, Seq::empty())
    } else {
        match spec_step(tile, phase, events[0]) {
            Some((next, action)) => {
                let rest = run(tile, next, events.drop_first());
                (rest.0, seq![action] + rest.1)
            },
            None => run(tile, phase, events.drop_first()),
        }
    }
}

/// The pixels that the actions start, in their order.
pub open spec fn started_pixels(actions: Seq<TileAction>) -> Seq<Point2i>
    decreases actions.len(),
{
    if actions.len() == 0 {
        Seq::empty()
    } else {
        match actions[0] {
            TileAction::StartPixel(pixel) => seq![pixel] + started_pixels(actions.drop_first()),
            _ => started_pixels(actions.drop_first()),
        }
    }
}

/// How often the actions merge the tile.
pub open spec fn merge_count(actions: Seq<TileAction>) -> nat
    decreases actions.len(),
{
    if actions.len() == 0 {
        0
    } else if actions[0] == TileAction::MergeTile {
        1 + merge_count(actions.drop_first())
    } else {
        merge_count(actions.drop_first())
    }
}

/// The pixels that are still to be started when the rendering stands in
/// `phase`.
pub open spec fn pixels_to_start(tile: Bounds2i, phase: TilePhase) -> Seq<Point2i> {
    match phase {
        TilePhase::Ready => tile.spec_points(),
        TilePhase::Merging | TilePhase::Done | TilePhase::Failed => Seq::empty(),
        _ => tile.spec_points().subrange(
            tile.index_of(phase_pixel(phase).unwrap()) + 1,
            tile.area(),
        ),
    }
}

/// How often the tile is still to be merged when the rendering stands in
/// `phase`.
pub open spec fn merges_to_come(phase: TilePhase) -> nat {
    match phase {
        TilePhase::Merging | TilePhase::Done | TilePhase::Failed => 0,
        _ => 1,
    }
}

/// Once a tile is merged, or its rendering has failed, every event is
/// refused: nothing is deposited or merged after that.
pub proof fn lemma_terminal_phases(tile: Bounds2i, event: TileEvent)
    ensures
        spec_step(tile, TilePhase::Done, event) is None,
        spec_step(tile, TilePhase::Failed, event) is None,
{
}

/// No radiance that holds a NaN reaches the film: however the collaborators
/// answer, from whatever phase, none of the actions called for deposits
/// one.
pub proof fn lemma_no_nan_is_deposited(
    tile: Bounds2i,
    phase: TilePhase,
    events: Seq<TileEvent>,
    i: int,
)
    requires
        0 <= i < run(tile, phase, events).1.len(),
    ensures
        run(tile, phase, events).1[i] matches TileAction::Deposit { radiance, .. }
            ==> !radiance.spec_has_nans(),
    decreases events.len(),
{
    if events.len() > 0 {
        match spec_step(tile, phase, events[0]) {
            None => {
                lemma_no_nan_is_deposited(tile, phase, events.drop_first(), i);
            },
            Some((next, action)) => {
                if i > 0 {
                    lemma_no_nan_is_deposited(tile, next, events.drop_first(), i - 1);
                }
            },
        }
    }
}

/// A rendering that has failed stays failed and calls for nothing more,
/// whatever arrives.
pub proof fn lemma_failure_is_final(tile: Bounds2i, events: Seq<TileEvent>)
    ensures
        run(tile, TilePhase::Failed, events) == (TilePhase::Failed, Seq::<TileAction>::empty()),
    decreases events.len(),
{
    if events.len() > 0 {
        lemma_failure_is_final(tile, events.drop_first());
    }
}

/// However the collaborators answer, a rendering that reaches its end,
/// from any phase, has started exactly the pixels that were still to be
/// started, in the row-by-row order, and has merged the tile as often as
/// was still to come.
pub proof fn lemma_run_from_phase(tile: Bounds2i, phase: TilePhase, events: Seq<TileEvent>)
    requires
        phase_pixel(phase) matches Some(pixel) ==> tile.contains(pixel),
        run(tile, phase, events).0 == TilePhase::Done,
    ensures
        started_pixels(run(tile, phase, events).1) == pixels_to_start(tile, phase),
        merge_count(run(tile, phase, events).1) == merges_to_come(phase),
    decreases events.len(),
{
    let points = tile.spec_points();
    if events.len() == 0 {
    } else {
        let rest_events = events.drop_first();
        match spec_step(tile, phase, events[0]) {
            None => {
                lemma_run_from_phase(tile, phase, rest_events);
            },
            Some((next, action)) => {
                let rest = run(tile, next, rest_events);
                let actions = seq![action] + rest.1;
                assert(actions[0] == action);
                assert(actions.drop_first() =~= rest.1);
                match phase_pixel(phase) {
                    Some(pixel) => {
                        lemma_index_in_range(tile, pixel);
                        if tile.index_of(pixel) + 1 < tile.area() {
                            lemma_index_of_point(tile, tile.index_of(pixel) + 1);
                        }
                    },
                    None => {},
                }
                if tile.area() > 0 {
                    lemma_index_of_point(tile, 0);
                    assert(tile.width() > 0 && tile.height() > 0) by (nonlinear_arith)
                        requires
                            tile.area() > 0,
                            tile.area() == tile.width() * tile.height(),
                            tile.width() >= 0,
                            tile.height() >= 0,
                    ;
                    lemma_point_at_index(tile, tile.min);
                }
                lemma_failure_is_final(tile, rest_events);
                lemma_run_from_phase(tile, next, rest_events);
                assert(run(tile, phase, events).1 == actions);
                assert(merge_count(actions) == if action == TileAction::MergeTile {
                    1 + merge_count(rest.1)
                } else {
                    merge_count(rest.1)
                });
                assert(started_pixels(actions) == match action {
                    TileAction::StartPixel(pixel) => seq![pixel] + started_pixels(rest.1),
                    _ => started_pixels(rest.1),
                });
                match action {
                    TileAction::StartPixel(pixel) => {
                        assert(pixels_to_start(tile, phase) =~= seq![pixel] + pixels_to_start(
                            tile,
                            next,
                        ));
                    },
                    _ => {
                        assert(pixels_to_start(tile, phase) =~= pixels_to_start(tile, next));
                    },
                }
            },
        }
    }
}

/// Every pixel of a tile is rendered once and the tile is merged once:
/// however the collaborators answer, a rendering that reaches its end has
/// started the pixels of the tile, each once, row by row, and has merged
/// the tile exactly once.
pub proof fn lemma_tile_is_rendered_once(tile: Bounds2i, events: Seq<TileEvent>)
    requires
        run(tile, TilePhase::Ready, events).0 == TilePhase::Done,
    ensures
        started_pixels(run(tile, TilePhase::Ready, events).1) == tile.spec_points(),
        merge_count(run(tile, TilePhase::Ready, events).1) == 1,
{
    lemma_run_from_phase(tile, TilePhase::Ready, events);
}

} // verus!
