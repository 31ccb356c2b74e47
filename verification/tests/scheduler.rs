use raytracer::float::Float;
use raytracer::geometry::bounds::Bounds2i;
use raytracer::geometry::Point2i;
use raytracer::integrator::{TileAction, TileEvent, TilePhase, TileRender};
use raytracer::spectrum::Spectrum;

fn f(x: f32) -> Float {
    Float::from_bits(x.to_bits())
}

fn grey(x: f32) -> Spectrum {
    Spectrum::uniform(f(x))
}

fn tile(x0: i32, y0: i32, x1: i32, y1: i32) -> Bounds2i {
    Bounds2i::with_bounds(Point2i::new(x0, y0), Point2i::new(x1, y1))
}

/// Runs a tile to its end with `samples` samples in every pixel, the weight
/// and the radiance given by the pixel, and returns all actions.
fn render(
    t: Bounds2i,
    samples: u32,
    weight: impl Fn(Point2i) -> f32,
    radiance: impl Fn(Point2i) -> Spectrum,
) -> (TilePhase, Vec<TileAction>) {
    let mut machine = TileRender::new(t);
    let mut actions = Vec::new();
    let mut event = TileEvent::Begin;
    let mut current = Point2i::new(0, 0);
    let mut drawn = 0;
    loop {
        let action = match machine.step(event) {
            Some(a) => a,
            None => panic!("refused {:?} in {:?}", event, machine.phase()),
        };
        actions.push(action);
        event = match action {
            TileAction::StartPixel(p) => {
                current = p;
                drawn = 0;
                TileEvent::PixelStarted
            }
            TileAction::NextSample => {
                drawn += 1;
                TileEvent::SampleReady(drawn <= samples)
            }
            TileAction::GenerateRay(p) => {
                assert_eq!(p, current);
                TileEvent::RayGenerated { weight: f(weight(p)) }
            }
            TileAction::EvaluateRadiance => TileEvent::Radiance(radiance(current)),
            TileAction::Deposit { .. } => TileEvent::Deposited,
            TileAction::ResetArena => TileEvent::ArenaReset,
            TileAction::MergeTile => TileEvent::Merged,
            TileAction::Finish | TileAction::Abort { .. } => break,
        };
    }
    (machine.phase(), actions)
}

fn started(actions: &[TileAction]) -> Vec<Point2i> {
    actions
        .iter()
        .filter_map(|a| match a {
            TileAction::StartPixel(p) => Some(*p),
            _ => None,
        })
        .collect()
}

fn count(actions: &[TileAction], wanted: fn(&TileAction) -> bool) -> usize {
    actions.iter().filter(|a| wanted(a)).count()
}

#[test]
fn a_tile_starts_every_pixel_once_and_merges_once() {
    let t = tile(16, 32, 20, 35);
    let (phase, actions) = render(t, 3, |_| 1.0, |_| grey(0.5));
    assert_eq!(phase, TilePhase::Done);
    assert_eq!(started(&actions), t.points());
    assert_eq!(count(&actions, |a| matches!(a, TileAction::MergeTile)), 1);
    assert_eq!(actions[actions.len() - 2], TileAction::MergeTile);
    assert_eq!(actions[actions.len() - 1], TileAction::Finish);
    assert_eq!(count(&actions, |a| matches!(a, TileAction::GenerateRay(_))), 12 * 3);
    assert_eq!(count(&actions, |a| matches!(a, TileAction::EvaluateRadiance)), 12 * 3);
    assert_eq!(count(&actions, |a| matches!(a, TileAction::Deposit { .. })), 12 * 3);
    assert_eq!(count(&actions, |a| matches!(a, TileAction::ResetArena)), 12 * 3);
}

#[test]
fn rendering_a_tile_twice_gives_the_same_actions() {
    let t = tile(0, 0, 5, 4);
    let weight = |p: Point2i| if (p.x + p.y) % 3 == 0 { 0.0 } else { 1.0 };
    let radiance = |p: Point2i| grey(p.x as f32 * 0.25 + p.y as f32);
    let first = render(t, 2, weight, radiance);
    let second = render(t, 2, weight, radiance);
    assert_eq!(first.0, second.0);
    assert_eq!(first.1, second.1);
}

#[test]
fn an_empty_tile_is_merged_at_once() {
    let (phase, actions) = render(tile(4, 4, 4, 9), 5, |_| 1.0, |_| grey(1.0));
    assert_eq!(phase, TilePhase::Done);
    assert_eq!(actions, vec![TileAction::MergeTile, TileAction::Finish]);
}

#[test]
fn a_pixel_without_samples_is_started_and_passed() {
    let t = tile(0, 0, 2, 1);
    let (phase, actions) = render(t, 0, |_| 1.0, |_| grey(1.0));
    assert_eq!(phase, TilePhase::Done);
    assert_eq!(
        actions,
        vec![
            TileAction::StartPixel(Point2i::new(0, 0)),
            TileAction::NextSample,
            TileAction::StartPixel(Point2i::new(1, 0)),
            TileAction::NextSample,
            TileAction::MergeTile,
            TileAction::Finish,
        ]
    );
}

#[test]
fn one_sample_runs_through_all_collaborators() {
    let (_, actions) = render(tile(7, 9, 8, 10), 1, |_| 0.75, |_| grey(2.0));
    let p = Point2i::new(7, 9);
    assert_eq!(
        actions,
        vec![
            TileAction::StartPixel(p),
            TileAction::NextSample,
            TileAction::GenerateRay(p),
            TileAction::EvaluateRadiance,
            TileAction::Deposit { radiance: grey(2.0), weight: f(0.75) },
            TileAction::ResetArena,
            TileAction::NextSample,
            TileAction::MergeTile,
            TileAction::Finish,
        ]
    );
}

#[test]
fn a_ray_of_weight_zero_deposits_black_without_evaluation() {
    for w in [0.0f32, -0.0, -1.0, f32::NAN] {
        let (phase, actions) = render(tile(0, 0, 1, 1), 1, move |_| w, |_| grey(9.0));
        assert_eq!(phase, TilePhase::Done);
        assert_eq!(count(&actions, |a| matches!(a, TileAction::EvaluateRadiance)), 0);
        let deposits: Vec<&TileAction> =
            actions.iter().filter(|a| matches!(a, TileAction::Deposit { .. })).collect();
        assert_eq!(deposits.len(), 1);
        match deposits[0] {
            TileAction::Deposit { radiance, weight } => {
                assert_eq!(*radiance, Spectrum::black());
                assert_eq!(weight.to_bits(), w.to_bits());
            }
            _ => unreachable!(),
        }
    }
}

#[test]
fn a_nan_radiance_aborts_and_is_not_deposited() {
    let bad = Spectrum { r: f(1.0), g: f(f32::NAN), b: f(0.0) };
    let t = tile(0, 0, 3, 1);
    let (phase, actions) =
        render(t, 1, |_| 1.0, move |p| if p.x == 1 { bad } else { grey(1.0) });
    assert_eq!(phase, TilePhase::Failed);
    assert_eq!(
        actions[actions.len() - 1],
        TileAction::Abort { pixel: Point2i::new(1, 0), radiance: bad }
    );
    assert_eq!(count(&actions, |a| matches!(a, TileAction::Deposit { .. })), 1);
    assert_eq!(count(&actions, |a| matches!(a, TileAction::MergeTile)), 0);
    assert_eq!(started(&actions), vec![Point2i::new(0, 0), Point2i::new(1, 0)]);
}

#[test]
fn an_event_out_of_turn_is_refused_and_changes_nothing() {
    let mut machine = TileRender::new(tile(0, 0, 2, 2));
    assert_eq!(machine.phase(), TilePhase::Ready);
    assert_eq!(machine.step(TileEvent::Merged), None);
    assert_eq!(machine.step(TileEvent::SampleReady(true)), None);
    assert_eq!(machine.phase(), TilePhase::Ready);
    assert_eq!(machine.step(TileEvent::Begin), Some(TileAction::StartPixel(Point2i::new(0, 0))));
    assert_eq!(machine.step(TileEvent::Begin), None);
    assert_eq!(machine.phase(), TilePhase::StartingPixel { pixel: Point2i::new(0, 0) });
    assert_eq!(machine.tile(), tile(0, 0, 2, 2));
}

#[test]
fn nothing_happens_after_the_end() {
    let mut machine = TileRender::new(tile(0, 0, 0, 0));
    assert_eq!(machine.step(TileEvent::Begin), Some(TileAction::MergeTile));
    assert_eq!(machine.step(TileEvent::Merged), Some(TileAction::Finish));
    for e in [
        TileEvent::Begin,
        TileEvent::PixelStarted,
        TileEvent::SampleReady(true),
        TileEvent::Deposited,
        TileEvent::ArenaReset,
        TileEvent::Merged,
    ] {
        assert_eq!(machine.step(e), None);
        assert_eq!(machine.phase(), TilePhase::Done);
    }
}
