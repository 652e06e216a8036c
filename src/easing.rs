//! Easing of curve segments.
//!
//! A keyframe may name the easing that shapes the segment ending at it. The
//! curve evaluator hands the easing over to the `interpolation` crate, which
//! computes the eased progress; this module maps the crate's own easing names
//! onto that crate's.
use interpolation::EaseFunction as Easing;
use vstd::prelude::*;

verus! {

/// Relies on `interpolation::EaseFunction`: a public enum of thirty
/// variants without fields, which the verifier reads as declared there.
#[verifier::external_type_specification]
pub struct ExInterpolationEase(Easing);

/// The easing that shapes a curve segment.
#[derive(Debug, Clone, Copy, PartialEq, Eq, Structural)]
pub enum EaseFunction {
    QuadraticIn,
    QuadraticOut,
    QuadraticInOut,
    CubicIn,
    CubicOut,
    CubicInOut,
    QuarticIn,
    QuarticOut,
    QuarticInOut,
    QuinticIn,
    QuinticOut,
    QuinticInOut,
    SineIn,
    SineOut,
    SineInOut,
    CircularIn,
    CircularOut,
    CircularInOut,
    ExponentialIn,
    ExponentialOut,
    ExponentialInOut,
    ElasticIn,
    ElasticOut,
    ElasticInOut,
    BackIn,
    BackOut,
    BackInOut,
    BounceIn,
    BounceOut,
    BounceInOut,
}

/// The easing of the `interpolation` crate that carries the same name.
pub open spec fn ease_target(e: EaseFunction) -> Easing {
    match e {
        EaseFunction::QuadraticIn => Easing::QuadraticIn,
        EaseFunction::QuadraticOut => Easing::QuadraticOut,
        EaseFunction::QuadraticInOut => Easing::QuadraticInOut,
        EaseFunction::CubicIn => Easing::CubicIn,
        EaseFunction::CubicOut => Easing::CubicOut,
        EaseFunction::CubicInOut => Easing::CubicInOut,
        EaseFunction::QuarticIn => Easing::QuarticIn,
        EaseFunction::QuarticOut => Easing::QuarticOut,
        EaseFunction::QuarticInOut => Easing::QuarticInOut,
        EaseFunction::QuinticIn => Easing::QuinticIn,
        EaseFunction::QuinticOut => Easing::QuinticOut,
        EaseFunction::QuinticInOut => Easing::QuinticInOut,
        EaseFunction::SineIn => Easing::SineIn,
        EaseFunction::SineOut => Easing::SineOut,
        EaseFunction::SineInOut => Easing::SineInOut,
        EaseFunction::CircularIn => Easing::CircularIn,
        EaseFunction::CircularOut => Easing::CircularOut,
        EaseFunction::CircularInOut => Easing::CircularInOut,
        EaseFunction::ExponentialIn => Easing::ExponentialIn,
        EaseFunction::ExponentialOut => Easing::ExponentialOut,
        EaseFunction::ExponentialInOut => Easing::ExponentialInOut,
        EaseFunction::ElasticIn => Easing::ElasticIn,
        EaseFunction::ElasticOut => Easing::ElasticOut,
        EaseFunction::ElasticInOut => Easing::ElasticInOut,
        EaseFunction::BackIn => Easing::BackIn,
        EaseFunction::BackOut => Easing::BackOut,
        EaseFunction::BackInOut => Easing::BackInOut,
        EaseFunction::BounceIn => Easing::BounceIn,
        EaseFunction::BounceOut => Easing::BounceOut,
        EaseFunction::BounceInOut => Easing::BounceInOut,
    }
}

impl<'a> From<&'a EaseFunction> for Easing {
    fn from(value: &'a EaseFunction) -> (r: Easing)
        ensures
            r == ease_target(*value),
    {
        match value {
            EaseFunction::QuadraticIn => Easing::QuadraticIn,
            EaseFunction::QuadraticOut => Easing::QuadraticOut,
            EaseFunction::QuadraticInOut => Easing::QuadraticInOut,
            EaseFunction::CubicIn => Easing::CubicIn,
            EaseFunction::CubicOut => Easing::CubicOut,
            EaseFunction::CubicInOut => Easing::CubicInOut,
            EaseFunction::QuarticIn => Easing::QuarticIn,
            EaseFunction::QuarticOut => Easing::QuarticOut,
            EaseFunction::QuarticInOut => Easing::QuarticInOut,
            EaseFunction::QuinticIn => Easing::QuinticIn,
            EaseFunction::QuinticOut => Easing::QuinticOut,
            EaseFunction::QuinticInOut => Easing::QuinticInOut,
            EaseFunction::SineIn => Easing::SineIn,
            EaseFunction::SineOut => Easing::SineOut,
            EaseFunction::SineInOut => Easing::SineInOut,
            EaseFunction::CircularIn => Easing::CircularIn,
            EaseFunction::CircularOut => Easing::CircularOut,
            EaseFunction::CircularInOut => Easing::CircularInOut,
            EaseFunction::ExponentialIn => Easing::ExponentialIn,
            EaseFunction::ExponentialOut => Easing::ExponentialOut,
            EaseFunction::ExponentialInOut => Easing::ExponentialInOut,
            EaseFunction::ElasticIn => Easing::ElasticIn,
            EaseFunction::ElasticOut => Easing::ElasticOut,
            EaseFunction::ElasticInOut => Easing::ElasticInOut,
            EaseFunction::BackIn => Easing::BackIn,
            EaseFunction::BackOut => Easing::BackOut,
            EaseFunction::BackInOut => Easing::BackInOut,
            EaseFunction::BounceIn => Easing::BounceIn,
            EaseFunction::BounceOut => Easing::BounceOut,
            EaseFunction::BounceInOut => Easing::BounceInOut,
        }
    }
}

impl<'a> vstd::std_specs::convert::FromSpecImpl<&'a EaseFunction> for Easing {
    open spec fn obeys_from_spec() -> bool {
        true
    }

    open spec fn from_spec(v: &'a EaseFunction) -> Easing {
        ease_target(*v)
    }
}

/// Two easings map to the same easing of the `interpolation` crate only
/// when they are the same easing.
pub proof fn lemma_ease_target_injective(a: EaseFunction, b: EaseFunction)
    ensures
        ease_target(a) == ease_target(b) <==> a == b,
{
}

} // verus!
