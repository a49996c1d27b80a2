//! The effects of the chain. Each effect has two halves: the half that the
//! control thread keeps and edits, and the node that runs on the audio thread.
pub mod equalizer;
pub mod gain;

pub use self::equalizer::Band;
use self::equalizer::{Coefficients, Equalizer, EqualizerNode, State};
use self::gain::{Gain, GainNode};
use crate::graph::{Node, Sample, StreamInfo};
use crate::inbox::{allocatable, INBOX_CAPACITY};
use vstd::prelude::*;

verus! {

/// The arithmetic on samples, which the caller of the library supplies.
///
/// * `scale` multiplies a sample by a gain.
/// * `coefficients` derives the coefficients of a band's filter at a sample
///   rate.
/// * `filter` computes one output sample of a filter from its coefficients,
///   its state and the input sample.
pub struct Kernels<M, C, F> {
    pub scale: M,
    pub coefficients: C,
    pub filter: F,
}

impl<
    M: Fn(Sample, Sample) -> Sample,
    C: Fn(Band, Sample) -> Coefficients,
    F: Fn(Coefficients, State, Sample) -> Sample,
> Kernels<M, C, F> {
    /// Whether each of the three can be called on every input.
    pub open spec fn total(&self) -> bool {
        &&& forall|x: Sample, g: Sample| call_requires(self.scale, (x, g))
        &&& forall|band: Band, rate: Sample| call_requires(self.coefficients, (band, rate))
        &&& forall|c: Coefficients, s: State, x: Sample| call_requires(self.filter, (c, s, x))
    }
}

/// An effect of the chain, as the control thread holds it.
pub enum Effect {
    Gain(Gain),
    Equalizer(Equalizer),
}

/// An effect of the chain, as the audio thread runs it.
pub enum EffectNode {
    Gain(GainNode),
    Equalizer(EqualizerNode),
}

/// An edit of one effect's parameters.
#[derive(Clone, Copy, Debug)]
pub enum Edit {
    /// A new gain, for a gain effect.
    Gain(Sample),
    /// A new band at position `id`, for an equalizer.
    Band { id: usize, band: Band },
}

/// A gain effect with the given gain.
pub fn create_gain(gain: Sample) -> (effect: Effect)
    ensures
        effect matches Effect::Gain(inner) && inner.value() == gain && !inner.connected(),
{
    Effect::Gain(Gain::new(gain))
}

/// An equalizer with the given bands.
pub fn create_equalizer(bands: Vec<Band>) -> (effect: Effect)
    ensures
        effect matches Effect::Equalizer(inner) && inner.bands() == bands@ && !inner.connected(),
{
    Effect::Equalizer(Equalizer::new(bands))
}

impl Effect {
    /// Whether `node` is a node as `node()` makes it for this effect: of the
    /// same kind and with the effect's present parameters.
    pub open spec fn mirrored_by(&self, node: &EffectNode) -> bool {
        match (self, node) {
            (Effect::Gain(effect), EffectNode::Gain(node)) => node.value() == effect.value()
                && node.connected() == effect.connected(),
            (Effect::Equalizer(effect), EffectNode::Equalizer(node)) => node.bands()
                == effect.bands() && node.filters() is None && node.connected()
                == effect.connected(),
            _ => false,
        }
    }

    /// Whether the two are effects of the same kind with the same parameters.
    pub open spec fn same_parameters(&self, other: &Effect) -> bool {
        match (self, other) {
            (Effect::Gain(a), Effect::Gain(b)) => a.value() == b.value(),
            (Effect::Equalizer(a), Effect::Equalizer(b)) => a.bands() == b.bands(),
            _ => false,
        }
    }

    /// Whether a node has been made that this effect can send edits to.
    pub open spec fn connected(&self) -> bool {
        match self {
            Effect::Gain(effect) => effect.connected(),
            Effect::Equalizer(effect) => effect.connected(),
        }
    }

    /// Whether an inbox for this kind of effect can be allocated.
    pub open spec fn connectable(&self) -> bool {
        match self {
            Effect::Gain(_) => allocatable::<gain::Message>(INBOX_CAPACITY),
            Effect::Equalizer(_) => allocatable::<equalizer::Message>(INBOX_CAPACITY),
        }
    }

    /// Makes the node for the audio thread; see `Gain::node` and
    /// `Equalizer::node`.
    pub fn node(&mut self) -> (node: EffectNode)
        ensures
            old(self).same_parameters(final(self)),
            final(self).mirrored_by(&node),
            final(self).connected() == old(self).connectable(),
    {
        match self {
            Effect::Gain(gain) => EffectNode::Gain(gain.node()),
            Effect::Equalizer(equalizer) => EffectNode::Equalizer(equalizer.node()),
        }
    }

    /// Hands an edit to the effect; see `Gain::update` and
    /// `Equalizer::update`. An edit meant for the other kind of effect
    /// changes nothing. Returns whether the node's inbox took the edit.
    pub fn update(&mut self, edit: Edit) -> (sent: bool)
        ensures
            match (*old(self), edit, *final(self)) {
                (Effect::Gain(before), Edit::Gain(gain), Effect::Gain(after)) => {
                    &&& after.value() == gain
                    &&& after.connected() == before.connected()
                    &&& sent ==> before.connected()
                },
                (Effect::Equalizer(before), Edit::Band { id, band }, Effect::Equalizer(after)) => {
                    &&& after.connected() == before.connected()
                    &&& after.bands() == if id < before.bands().len() {
                        before.bands().update(id as int, band)
                    } else {
                        before.bands()
                    }
                    &&& sent ==> before.connected() && id < before.bands().len()
                },
                (Effect::Gain(before), _, Effect::Gain(after)) => {
                    after.value() == before.value() && after.connected() == before.connected()
                        && !sent
                },
                (Effect::Equalizer(before), _, Effect::Equalizer(after)) => {
                    after.bands() == before.bands() && after.connected() == before.connected()
                        && !sent
                },
                _ => false,
            },
    {
        match self {
            Effect::Gain(effect) => match edit {
                Edit::Gain(gain) => effect.update(gain),
                _ => false,
            },
            Effect::Equalizer(effect) => match edit {
                Edit::Band { id, band } => effect.update(id, band),
                _ => false,
            },
        }
    }

    /// The name under which the effect is shown.
    pub fn name(&self) -> (name: &'static str)
        ensures
            self is Gain ==> name@ == "Gain"@,
            self is Equalizer ==> name@ == "Equalizer"@,
    {
        match self {
            Effect::Gain(_) => "Gain",
            Effect::Equalizer(_) => "Equalizer",
        }
    }
}

impl<
    M: Fn(Sample, Sample) -> Sample,
    C: Fn(Band, Sample) -> Coefficients,
    F: Fn(Coefficients, State, Sample) -> Sample,
> Node<Kernels<M, C, F>> for EffectNode {
    open spec fn usable(kernels: &Kernels<M, C, F>) -> bool {
        kernels.total()
    }

    open spec fn reads(
        &self,
        after: &Self,
        input: Seq<Sample>,
        output: Seq<Sample>,
        info: &StreamInfo,
        kernels: &Kernels<M, C, F>,
    ) -> bool {
        match (self, after) {
            (EffectNode::Gain(before), EffectNode::Gain(after)) => before.reads(
                after,
                input,
                output,
                info,
                kernels,
            ),
            (EffectNode::Equalizer(before), EffectNode::Equalizer(after)) => before.reads(
                after,
                input,
                output,
                info,
                kernels,
            ),
            _ => false,
        }
    }

    /// Runs the effect over the block; see `GainNode` and `EqualizerNode`.
    fn read(&mut self, buffer: &mut [Sample], info: &StreamInfo, kernels: &Kernels<M, C, F>) {
        match self {
            EffectNode::Gain(node) => node.read(buffer, info, kernels),
            EffectNode::Equalizer(node) => node.read(buffer, info, kernels),
        }
    }
}

} // verus!
