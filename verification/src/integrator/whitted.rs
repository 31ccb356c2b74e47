//! The recursive light-transport estimator: direct light from every light
//! of the scene, plus specular reflection and transmission down to a
//! maximum depth.
//!
//! Estimating the radiance along one ray alternates between the
//! collaborators (the scene, the material, the lights) and the decisions
//! taken here. `RadianceEstimate` holds the decisions for one ray: it is
//! told what a collaborator answered and says what is to be done next. For
//! a specular bounce the caller runs a further estimate, one level deeper.
use vstd::prelude::*;
use vstd::arithmetic::power2::{lemma_pow2_unfold, lemma2_to64, pow2};
use crate::float::Float;
use crate::light::LiSample;
use crate::spectrum::Spectrum;

verus! {

/// The estimator's one setting: rays are followed below this depth only.
#[derive(Clone, Copy, Debug, PartialEq, Eq, Structural)]
pub struct WhittedIntegrator {
    pub max_depth: u16,
}

/// Where the estimate for one ray stands: what was last asked of a
/// collaborator and not yet answered.
#[derive(Clone, Copy, Debug, PartialEq, Eq, Structural)]
pub enum RadiancePhase {
    /// Nothing was asked yet.
    Ready,
    /// The scene is intersecting the ray.
    Intersecting,
    /// The material at the hit is building its scattering functions.
    Scattering,
    /// A light is sampling its radiance towards the hit.
    SamplingLight { light: usize },
    /// The scattering function is evaluated for the direction of the
    /// light's sample.
    EvaluatingBsdf { light: usize },
    /// The scene is asked whether the way to the light is free.
    TestingVisibility { light: usize },
    /// The light's contribution is being added.
    Accumulating { light: usize },
    /// The term of specular reflection is being estimated.
    Reflecting,
    /// The term of specular transmission is being estimated.
    Transmitting,
    /// The estimate is complete.
    Done,
    /// The hit has no scattering functions; the estimate stopped.
    Failed,
}

/// What a collaborator answered.
#[derive(Clone, Copy, Debug, PartialEq, Eq, Structural)]
pub enum RadianceEvent {
    /// The estimate is to begin.
    Begin,
    /// The scene said whether the ray hits anything.
    Intersected { hit: bool },
    /// The material said whether it has scattering functions for the hit.
    ScatteringFunctions { found: bool },
    /// The light gave its sample.
    LightSampled(LiSample),
    /// The scattering function gave its value.
    BsdfEvaluated(Spectrum),
    /// The scene said whether the way to the light is free.
    VisibilityTested { unoccluded: bool },
    /// The contribution is added.
    Accumulated,
    /// The specular term is added.
    SpecularDone,
}

/// What is to be done next.
#[derive(Clone, Copy, Debug, PartialEq, Eq, Structural)]
pub enum RadianceAction {
    /// Intersect the ray with the scene.
    Intersect,
    /// The ray hits nothing: the answer is what the scene's environment
    /// emits along it.
    ReturnEnvironment,
    /// Ask the material at the hit for its scattering functions.
    ComputeScattering,
    /// Ask this light for a sample of its radiance towards the hit.
    SampleLight(usize),
    /// Evaluate the scattering function for the direction of this light's
    /// sample.
    EvaluateBsdf(usize),
    /// Ask the scene whether the way to this light is free.
    TestVisibility(usize),
    /// Add this light's contribution: the scattering value times the
    /// light's radiance times the cosine at the surface, over the density.
    Accumulate(usize),
    /// Add the term of specular reflection.
    SpecularReflect,
    /// Add the term of specular transmission.
    SpecularTransmit,
    /// The answer is the radiance gathered.
    Return,
    /// Stop: the surface that was hit has no scattering functions.
    AbortMissingMaterial,
}

/// Whether specular bounces are followed from a ray at `depth`.
pub open spec fn follows_specular(max_depth: u16, depth: u16) -> bool {
    depth + 1 < max_depth
}

/// What follows once the direct light is gathered: the specular terms,
/// where the depth allows them, or the end.
pub open spec fn after_lights(max_depth: u16, depth: u16) -> (RadiancePhase, RadianceAction) {
    if follows_specular(max_depth, depth) {
        (RadiancePhase::Reflecting, RadianceAction::SpecularReflect)
    } else {
        (RadiancePhase::Done, RadianceAction::Return)
    }
}

/// What follows when the lights before `light` are dealt with: that light,
/// if there is one, or what comes after the lights.
pub open spec fn from_light(max_depth: u16, depth: u16, lights: usize, light: int) -> (
    RadiancePhase,
    RadianceAction,
) {
    if light < lights {
        (
            RadiancePhase::SamplingLight { light: light as usize },
            RadianceAction::SampleLight(light as usize),
        )
    } else {
        after_lights(max_depth, depth)
    }
}

/// The phase and the action that follow when `event` arrives in `phase`,
/// for a ray at `depth` in a scene of `lights` lights; none where the event
/// is not the answer that the phase waits for.
///
/// A ray that hits nothing gets the environment's radiance. At a hit every
/// light is sampled once, in order. A sample that carries no light or has
/// the density zero is passed over, as is a light for whose direction the
/// scattering function gives nothing; only then is the way to the light
/// tested, and only a light whose way is free is added. After the lights
/// come specular reflection and transmission, if the depth allows them.
pub open spec fn spec_step(
    max_depth: u16,
    depth: u16,
    lights: usize,
    phase: RadiancePhase,
    event: RadianceEvent,
) -> Option<(RadiancePhase, RadianceAction)> {
    match (phase, event) {
        (RadiancePhase::Ready, RadianceEvent::Begin) => Some(
            (RadiancePhase::Intersecting, RadianceAction::Intersect),
        ),
        (RadiancePhase::Intersecting, RadianceEvent::Intersected { hit }) => if hit {
            Some((RadiancePhase::Scattering, RadianceAction::ComputeScattering))
        } else {
            Some((RadiancePhase::Done, RadianceAction::ReturnEnvironment))
        },
        (RadiancePhase::Scattering, RadianceEvent::ScatteringFunctions { found }) => if found {
            Some(from_light(max_depth, depth, lights, 0))
        } else {
            Some((RadiancePhase::Failed, RadianceAction::AbortMissingMaterial))
        },
        (RadiancePhase::SamplingLight { light }, RadianceEvent::LightSampled(sample)) => if sample.spec_contributes() {
            Some((RadiancePhase::EvaluatingBsdf { light }, RadianceAction::EvaluateBsdf(light)))
        } else {
            Some(from_light(max_depth, depth, lights, light + 1))
        },
        (RadiancePhase::EvaluatingBsdf { light }, RadianceEvent::BsdfEvaluated(f)) => if f.spec_is_black() {
            Some(from_light(max_depth, depth, lights, light + 1))
        } else {
            Some(
                (RadiancePhase::TestingVisibility { light }, RadianceAction::TestVisibility(light)),
            )
        },
        (
            RadiancePhase::TestingVisibility { light },
            RadianceEvent::VisibilityTested { unoccluded },
        ) => if unoccluded {
            Some((RadiancePhase::Accumulating { light }, RadianceAction::Accumulate(light)))
        } else {
            Some(from_light(max_depth, depth, lights, light + 1))
        },
        (RadiancePhase::Accumulating { light }, RadianceEvent::Accumulated) => Some(
            from_light(max_depth, depth, lights, light + 1),
        ),
        (RadiancePhase::Reflecting, RadianceEvent::SpecularDone) => Some(
            (RadiancePhase::Transmitting, RadianceAction::SpecularTransmit),
        ),
        (RadiancePhase::Transmitting, RadianceEvent::SpecularDone) => Some(
            (RadiancePhase::Done, RadianceAction::Return),
        ),
        _ => None,
    }
}

/// The light that a phase is about, if it is about one.
pub open spec fn phase_light(phase: RadiancePhase) -> Option<usize> {
    match phase {
        RadiancePhase::SamplingLight { light } => Some(light),
        RadiancePhase::EvaluatingBsdf { light } => Some(light),
        RadiancePhase::TestingVisibility { light } => Some(light),
        RadiancePhase::Accumulating { light } => Some(light),
        _ => None,
    }
}

/// What holds of the phase of every estimate: a light that is worked on is
/// one of the scene, and a specular term is estimated only where the depth
/// allows it.
pub open spec fn phase_fits(max_depth: u16, depth: u16, lights: usize, phase: RadiancePhase) -> bool {
    &&& phase_light(phase) matches Some(light) ==> light < lights
    &&& phase is Reflecting || phase is Transmitting ==> follows_specular(max_depth, depth)
}

/// The estimate of the radiance along one ray.
#[derive(Clone, Copy, Debug)]
pub struct RadianceEstimate {
    max_depth: u16,
    depth: u16,
    lights: usize,
    phase: RadiancePhase,
}

impl WhittedIntegrator {
    /// Whether specular bounces are followed from a ray at `depth`: the
    /// bounce would be at a depth below the maximum.
    pub fn follows_specular(&self, depth: u16) -> (r: bool)
        ensures
            r == follows_specular(self.max_depth, depth),
    {
        depth < self.max_depth && depth + 1 < self.max_depth
    }

    /// Begins the estimate of the radiance along a ray at `depth`, in a
    /// scene of `lights` lights.
    pub fn incident_radiance(&self, lights: usize, depth: u16) -> (e: RadianceEstimate)
        ensures
            e.spec_max_depth() == self.max_depth,
            e.spec_depth() == depth,
            e.spec_lights() == lights,
            e.spec_phase() == RadiancePhase::Ready,
    {
        RadianceEstimate { max_depth: self.max_depth, depth, lights, phase: RadiancePhase::Ready }
    }
}

impl RadianceEstimate {
    pub closed spec fn spec_max_depth(self) -> u16 {
        self.max_depth
    }

    pub closed spec fn spec_depth(self) -> u16 {
        self.depth
    }

    pub closed spec fn spec_lights(self) -> usize {
        self.lights
    }

    pub closed spec fn spec_phase(self) -> RadiancePhase {
        self.phase
    }

    pub open spec fn well_formed(self) -> bool {
        phase_fits(self.spec_max_depth(), self.spec_depth(), self.spec_lights(), self.spec_phase())
    }

    #[verifier::type_invariant]
    spec fn type_inv(self) -> bool {
        self.well_formed()
    }

    /// The depth of the estimate for a specular bounce, or none where no
    /// bounce is to be followed: where no specular term is being estimated,
    /// where the scattering function gave no sample, and where the sample
    /// has the density zero. A bounce that is not followed adds nothing.
    pub open spec fn spec_bounce_depth(self, sampled_pdf: Option<Float>) -> Option<u16> {
        if (self.spec_phase() is Reflecting || self.spec_phase() is Transmitting)
            && sampled_pdf is Some && !sampled_pdf.unwrap().spec_equals(Float::spec_zero()) {
            Some((self.spec_depth() + 1) as u16)
        } else {
            None
        }
    }

    pub fn depth(&self) -> (d: u16)
        ensures
            d == self.spec_depth(),
    {
        self.depth
    }

    pub fn phase(&self) -> (p: RadiancePhase)
        ensures
            p == self.spec_phase(),
            self.well_formed(),
    {
        proof {
            use_type_invariant(self);
        }
        self.phase
    }

    fn turn_to(&mut self, light: usize) -> (action: RadianceAction)
        requires
            light <= old(self).lights,
        ensures
            final(self).max_depth == old(self).max_depth,
            final(self).depth == old(self).depth,
            final(self).lights == old(self).lights,
            (final(self).phase, action) == from_light(
                old(self).max_depth,
                old(self).depth,
                old(self).lights,
                light as int,
            ),
    {
        if light < self.lights {
            self.phase = RadiancePhase::SamplingLight { light };
            RadianceAction::SampleLight(light)
        } else if self.depth < self.max_depth && self.depth + 1 < self.max_depth {
            self.phase = RadiancePhase::Reflecting;
            RadianceAction::SpecularReflect
        } else {
            self.phase = RadiancePhase::Done;
            RadianceAction::Return
        }
    }

    /// Takes the answer of a collaborator and says what is to be done next.
    /// An event that the present phase does not wait for is refused: the
    /// result is none and nothing changes.
    pub fn step(&mut self, event: RadianceEvent) -> (action: Option<RadianceAction>)
        ensures
            final(self).spec_max_depth() == old(self).spec_max_depth(),
            final(self).spec_depth() == old(self).spec_depth(),
            final(self).spec_lights() == old(self).spec_lights(),
            match spec_step(
                old(self).spec_max_depth(),
                old(self).spec_depth(),
                old(self).spec_lights(),
                old(self).spec_phase(),
                event,
            ) {
                Some((phase, act)) => final(self).spec_phase() == phase && action == Some(act),
                None => final(self).spec_phase() == old(self).spec_phase() && action is None,
            },
            action == Some(RadianceAction::SpecularReflect) || action == Some(
                RadianceAction::SpecularTransmit,
            ) ==> old(self).spec_depth() + 1 < old(self).spec_max_depth(),
    {
        proof {
            use_type_invariant(&*self);
        }
        match (self.phase, event) {
            (RadiancePhase::Ready, RadianceEvent::Begin) => {
                self.phase = RadiancePhase::Intersecting;
                Some(RadianceAction::Intersect)
            },
            (RadiancePhase::Intersecting, RadianceEvent::Intersected { hit }) => {
                if hit {
                    self.phase = RadiancePhase::Scattering;
                    Some(RadianceAction::ComputeScattering)
                } else {
                    self.phase = RadiancePhase::Done;
                    Some(RadianceAction::ReturnEnvironment)
                }
            },
            (RadiancePhase::Scattering, RadianceEvent::ScatteringFunctions { found }) => {
                if found {
                    Some(self.turn_to(0))
                } else {
                    self.phase = RadiancePhase::Failed;
                    Some(RadianceAction::AbortMissingMaterial)
                }
            },
            (RadiancePhase::SamplingLight { light }, RadianceEvent::LightSampled(sample)) => {
                if sample.contributes() {
                    self.phase = RadiancePhase::EvaluatingBsdf { light };
                    Some(RadianceAction::EvaluateBsdf(light))
                } else {
                    Some(self.turn_to(light + 1))
                }
            },
            (RadiancePhase::EvaluatingBsdf { light }, RadianceEvent::BsdfEvaluated(f)) => {
                if f.is_black() {
                    Some(self.turn_to(light + 1))
                } else {
                    self.phase = RadiancePhase::TestingVisibility { light };
                    Some(RadianceAction::TestVisibility(light))
                }
            },
            (
                RadiancePhase::TestingVisibility { light },
                RadianceEvent::VisibilityTested { unoccluded },
            ) => {
                if unoccluded {
                    self.phase = RadiancePhase::Accumulating { light };
                    Some(RadianceAction::Accumulate(light))
                } else {
                    Some(self.turn_to(light + 1))
                }
            },
            (RadiancePhase::Accumulating { light }, RadianceEvent::Accumulated) => {
                Some(self.turn_to(light + 1))
            },
            (RadiancePhase::Reflecting, RadianceEvent::SpecularDone) => {
                self.phase = RadiancePhase::Transmitting;
                Some(RadianceAction::SpecularTransmit)
            },
            (RadiancePhase::Transmitting, RadianceEvent::SpecularDone) => {
                self.phase = RadiancePhase::Done;
                Some(RadianceAction::Return)
            },
            _ => None,
        }
    }

    /// The depth at which the estimate for a specular bounce is to run,
    /// given the density of the sampled direction, or none where the bounce
    /// is not to be followed. The depth stays below the maximum.
    pub fn bounce_depth(&self, sampled_pdf: Option<Float>) -> (d: Option<u16>)
        ensures
            d == self.spec_bounce_depth(sampled_pdf),
            d matches Some(deeper) ==> deeper == self.spec_depth() + 1 && deeper
                < self.spec_max_depth(),
    {
        proof {
            use_type_invariant(self);
        }
        match (self.phase, sampled_pdf) {
            (RadiancePhase::Reflecting, Some(pdf)) | (RadiancePhase::Transmitting, Some(pdf)) => {
                if pdf.equals(Float::zero()) {
                    None
                } else {
                    Some(self.depth + 1)
                }
            },
            _ => None,
        }
    }
}

/// The greatest number of estimates that the estimate for one ray at
/// `depth` can set off, itself included: each estimate that follows
/// specular bounces sets off two more, one level deeper.
pub open spec fn most_estimates(max_depth: u16, depth: int) -> int
    decreases max_depth - depth,
{
    if depth + 1 < max_depth {
        1 + 2 * most_estimates(max_depth, depth + 1)
    } else {
        1
    }
}

/// The maximum depth caps the work for one camera ray: an estimate at a
/// depth below the maximum sets off at most 2^(max_depth - depth) - 1
/// estimates, itself included.
pub proof fn lemma_estimates_are_bounded(max_depth: u16, depth: int)
    requires
        0 <= depth < max_depth,
    ensures
        most_estimates(max_depth, depth) == pow2((max_depth - depth) as nat) - 1,
    decreases max_depth - depth,
{
    lemma2_to64();
    if depth + 1 < max_depth {
        lemma_estimates_are_bounded(max_depth, depth + 1);
        lemma_pow2_unfold((max_depth - depth) as nat);
    }
}

/// A light is added only when it can add and is seen: its contribution is
/// called for only on the answer that its way is free, that question is
/// asked only on a scattering value that is not black, and the scattering
/// function is evaluated only on a sample that carries light with a density
/// that is not zero.
pub proof fn lemma_direct_light_is_earned(
    max_depth: u16,
    depth: u16,
    lights: usize,
    phase: RadiancePhase,
    event: RadianceEvent,
    light: usize,
)
    ensures
        spec_step(max_depth, depth, lights, phase, event) matches Some((_, RadianceAction::Accumulate(l)))
            && l == light ==> phase == (RadiancePhase::TestingVisibility { light }) && event == (
            RadianceEvent::VisibilityTested { unoccluded: true }),
        spec_step(max_depth, depth, lights, phase, event) matches Some(
            (_, RadianceAction::TestVisibility(l)),
        ) && l == light ==> phase == (RadiancePhase::EvaluatingBsdf { light }) && (
        event matches RadianceEvent::BsdfEvaluated(f) && !f.spec_is_black()),
        spec_step(max_depth, depth, lights, phase, event) matches Some(
            (_, RadianceAction::EvaluateBsdf(l)),
        ) && l == light ==> phase == (RadiancePhase::SamplingLight { light }) && (
        event matches RadianceEvent::LightSampled(s) && s.spec_contributes()),
{
}

/// A light that can add and is seen is added: from the sampling of a light
/// of the scene, a sample that carries light with a density that is not
/// zero leads to the evaluation of the scattering function, a scattering
/// value that is not black leads to the question whether the way is free,
/// and the answer that it is leads to the light's contribution.
pub proof fn lemma_seen_light_is_added(
    max_depth: u16,
    depth: u16,
    lights: usize,
    light: usize,
    sample: LiSample,
    f: Spectrum,
)
    requires
        sample.spec_contributes(),
        !f.spec_is_black(),
    ensures
        spec_step(
            max_depth,
            depth,
            lights,
            RadiancePhase::SamplingLight { light },
            RadianceEvent::LightSampled(sample),
        ) == Some((RadiancePhase::EvaluatingBsdf { light }, RadianceAction::EvaluateBsdf(light))),
        spec_step(
            max_depth,
            depth,
            lights,
            RadiancePhase::EvaluatingBsdf { light },
            RadianceEvent::BsdfEvaluated(f),
        ) == Some(
            (RadiancePhase::TestingVisibility { light }, RadianceAction::TestVisibility(light)),
        ),
        spec_step(
            max_depth,
            depth,
            lights,
            RadiancePhase::TestingVisibility { light },
            RadianceEvent::VisibilityTested { unoccluded: true },
        ) == Some((RadiancePhase::Accumulating { light }, RadianceAction::Accumulate(light))),
{
}

/// A ray that hits nothing is answered with the environment's radiance and
/// with nothing else: no light is sampled for it and no bounce followed,
/// whatever the depth and the lights of the scene.
pub proof fn lemma_miss_answers_with_environment(max_depth: u16, depth: u16, lights: usize)
    ensures
        spec_step(max_depth, depth, lights, RadiancePhase::Ready, RadianceEvent::Begin) == Some(
            (RadiancePhase::Intersecting, RadianceAction::Intersect),
        ),
        spec_step(
            max_depth,
            depth,
            lights,
            RadiancePhase::Intersecting,
            RadianceEvent::Intersected { hit: false },
        ) == Some((RadiancePhase::Done, RadianceAction::ReturnEnvironment)),
        forall|event: RadianceEvent|
            spec_step(max_depth, depth, lights, RadiancePhase::Done, event) is None,
{
}

/// The phase reached and the actions called for when the events arrive one
/// after the other, starting in `phase`. A refused event changes nothing.
pub open spec fn run(
    max_depth: u16,
    depth: u16,
    lights: usize,
    phase: RadiancePhase,
    events: Seq<RadianceEvent>,
) -> (RadiancePhase, Seq<RadianceAction>)
    decreases events.len(),
{
    if events.len() == 0 {
        (phase, Seq::empty())
    } else {
        match spec_step(max_depth, depth, lights, phase, events[0]) {
            Some((next, action)) => {
                let rest = run(max_depth, depth, lights, next, events.drop_first());
                (rest.0, seq![action] + rest.1)
            },
            None => run(max_depth, depth, lights, phase, events.drop_first()),
        }
    }
}

/// The lights that the actions sample, in their order.
pub open spec fn sampled_lights(actions: Seq<RadianceAction>) -> Seq<usize>
    decreases actions.len(),
{
    if actions.len() == 0 {
        Seq::empty()
    } else {
        match actions[0] {
            RadianceAction::SampleLight(light) => seq![light] + sampled_lights(
                actions.drop_first(),
            ),
            _ => sampled_lights(actions.drop_first()),
        }
    }
}

/// Whether the actions answer with the environment's radiance, as they do
/// for a ray that hits nothing.
pub open spec fn answers_with_environment(actions: Seq<RadianceAction>) -> bool
    decreases actions.len(),
{
    actions.len() > 0 && (actions[0] == RadianceAction::ReturnEnvironment
        || answers_with_environment(actions.drop_first()))
}

/// The lights from `first` on, in order.
pub open spec fn lights_from(first: int, lights: usize) -> Seq<usize> {
    Seq::new((lights - first) as nat, |k: int| (first + k) as usize)
}

/// The lights that are still to be sampled when the estimate stands in
/// `phase`.
pub open spec fn lights_to_sample(lights: usize, phase: RadiancePhase) -> Seq<usize> {
    match phase {
        RadiancePhase::Ready | RadiancePhase::Intersecting | RadiancePhase::Scattering => lights_from(
            0,
            lights,
        ),
        RadiancePhase::Reflecting | RadiancePhase::Transmitting | RadiancePhase::Done
        | RadiancePhase::Failed => Seq::empty(),
        _ => lights_from(phase_light(phase).unwrap() + 1, lights),
    }
}

/// An estimate that has failed stays failed and calls for nothing more,
/// whatever arrives.
pub proof fn lemma_failure_is_final(max_depth: u16, depth: u16, lights: usize, events: Seq<RadianceEvent>)
    ensures
        run(max_depth, depth, lights, RadiancePhase::Failed, events) == (
            RadiancePhase::Failed,
            Seq::<RadianceAction>::empty(),
        ),
    decreases events.len(),
{
    if events.len() > 0 {
        lemma_failure_is_final(max_depth, depth, lights, events.drop_first());
    }
}

/// However the collaborators answer, an estimate that completes, from any
/// phase, without answering with the environment's radiance has sampled
/// exactly the lights that were still to be sampled, in order.
pub proof fn lemma_run_from_phase(
    max_depth: u16,
    depth: u16,
    lights: usize,
    phase: RadiancePhase,
    events: Seq<RadianceEvent>,
)
    requires
        phase_fits(max_depth, depth, lights, phase),
        run(max_depth, depth, lights, phase, events).0 == RadiancePhase::Done,
        !answers_with_environment(run(max_depth, depth, lights, phase, events).1),
    ensures
        sampled_lights(run(max_depth, depth, lights, phase, events).1) == lights_to_sample(
            lights,
            phase,
        ),
    decreases events.len(),
{
    if events.len() == 0 {
    } else {
        let rest_events = events.drop_first();
        match spec_step(max_depth, depth, lights, phase, events[0]) {
            None => {
                lemma_run_from_phase(max_depth, depth, lights, phase, rest_events);
            },
            Some((next, action)) => {
                let rest = run(max_depth, depth, lights, next, rest_events);
                let actions = seq![action] + rest.1;
                assert(actions[0] == action);
                assert(actions.drop_first() =~= rest.1);
                assert(run(max_depth, depth, lights, phase, events).1 == actions);
                lemma_failure_is_final(max_depth, depth, lights, rest_events);
                if action == RadianceAction::ReturnEnvironment {
                    assert(answers_with_environment(actions));
                } else {
                    assert(!answers_with_environment(rest.1));
                    lemma_run_from_phase(max_depth, depth, lights, next, rest_events);
                    assert(sampled_lights(actions) == match action {
                        RadianceAction::SampleLight(light) => seq![light] + sampled_lights(rest.1),
                        _ => sampled_lights(rest.1),
                    });
                    match action {
                        RadianceAction::SampleLight(light) => {
                            assert(lights_to_sample(lights, phase) =~= seq![light]
                                + lights_to_sample(lights, next));
                        },
                        _ => {
                            assert(lights_to_sample(lights, phase) =~= lights_to_sample(
                                lights,
                                next,
                            ));
                        },
                    }
                }
            },
        }
    }
}

/// At a hit every light of the scene is sampled once, none is left out and
/// none is chosen over another: however the collaborators answer, an
/// estimate that completes for a ray that hit a surface has sampled the
/// lights `0, 1, ..` up to the last, each once and in this order.
pub proof fn lemma_every_light_is_sampled_once(
    max_depth: u16,
    depth: u16,
    lights: usize,
    events: Seq<RadianceEvent>,
)
    requires
        run(max_depth, depth, lights, RadiancePhase::Ready, events).0 == RadiancePhase::Done,
        !answers_with_environment(run(max_depth, depth, lights, RadiancePhase::Ready, events).1),
    ensures
        sampled_lights(run(max_depth, depth, lights, RadiancePhase::Ready, events).1)
            == Seq::new(lights as nat, |k: int| k as usize),
{
    lemma_run_from_phase(max_depth, depth, lights, RadiancePhase::Ready, events);
    assert(lights_from(0, lights) =~= Seq::new(lights as nat, |k: int| k as usize));
}

} // verus!
