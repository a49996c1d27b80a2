//! The gain effect: every sample is multiplied by one number.
use crate::effect::Kernels;
use crate::graph::{Node, Sample, StreamInfo};
use crate::inbox::{allocatable, channel, poll, INBOX_CAPACITY};
use ringbuf::{Consumer, Producer};
use vstd::prelude::*;

verus! {

/// An edit of a gain effect.
#[derive(Clone, Copy, Debug)]
pub enum Message {
    /// Replaces the gain.
    UpdateGain { gain: Sample },
}

/// The gain that a node with gain `gain` has once it has taken in `message`.
pub open spec fn received(gain: Sample, message: Message) -> Sample {
    match message {
        Message::UpdateGain { gain: newer } => newer,
    }
}

/// The gain that a node with gain `gain` has once it has taken in
/// `messages`, oldest first.
pub open spec fn gain_after(gain: Sample, messages: Seq<Message>) -> Sample
    decreases messages.len(),
{
    if messages.len() == 0 {
        gain
    } else {
        received(gain_after(gain, messages.drop_last()), messages.last())
    }
}

/// However many edits a node takes in at once, the last of them decides its
/// gain: no earlier edit and nothing of the gain before them is left in it.
pub proof fn lemma_last_edit_wins(gain: Sample, messages: Seq<Message>)
    requires
        messages.len() > 0,
    ensures
        gain_after(gain, messages) == received(gain, messages.last()),
        gain_after(gain, messages) == messages.last()->gain,
{
}

/// Whether `output` is `input` with every sample scaled by `gain`.
pub open spec fn scaled_by<M: Fn(Sample, Sample) -> Sample>(
    scale: M,
    gain: Sample,
    input: Seq<Sample>,
    output: Seq<Sample>,
) -> bool {
    &&& output.len() == input.len()
    &&& forall|i: int|
        0 <= i < input.len() ==> call_ensures(scale, (input[i], gain), #[trigger] output[i])
}

/// Scales every sample of `buffer` by `gain`, in place.
pub fn scale_block<M: Fn(Sample, Sample) -> Sample>(buffer: &mut [Sample], gain: Sample, scale: &M)
    requires
        forall|x: Sample, g: Sample| call_requires(*scale, (x, g)),
    ensures
        scaled_by(*scale, gain, old(buffer)@, final(buffer)@),
{
    let n: usize = buffer.len();
    let mut i: usize = 0;
    while i < n
        invariant
            i <= n,
            n == buffer@.len(),
            buffer@.len() == old(buffer)@.len(),
            forall|x: Sample, g: Sample| call_requires(*scale, (x, g)),
            forall|j: int|
                0 <= j < i ==> call_ensures(*scale, (old(buffer)@[j], gain), #[trigger] buffer@[j]),
            forall|j: int| i <= j < n ==> buffer@[j] == old(buffer)@[j],
        decreases n - i,
    {
        let x: Sample = buffer[i];
        let y: Sample = scale(x, gain);
        buffer[i] = y;
        i += 1;
    }
}

/// The edit that replaces the gain by `gain`.
pub fn update_gain(gain: Sample) -> (message: Message)
    ensures
        message == (Message::UpdateGain { gain }),
{
    Message::UpdateGain { gain }
}

/// The control thread's half of a gain effect.
pub struct Gain {
    gain: Sample,
    producer: Option<Producer<Message>>,
}

/// The audio thread's half of a gain effect.
pub struct GainNode {
    gain: Sample,
    consumer: Option<Consumer<Message>>,
}

impl Gain {
    /// The gain as the control thread last set it.
    pub closed spec fn value(&self) -> Sample {
        self.gain
    }

    /// Whether a node has been made that this effect can send edits to.
    pub closed spec fn connected(&self) -> bool {
        self.producer is Some
    }

    /// An effect with the given gain and no node yet.
    pub fn new(gain: Sample) -> (effect: Self)
        ensures
            effect.value() == gain,
            !effect.connected(),
    {
        Self { gain, producer: None }
    }

    /// The gain as the control thread last set it.
    pub fn gain(&self) -> (gain: Sample)
        ensures
            gain == self.value(),
    {
        self.gain
    }

    /// Makes the node for the audio thread. The node starts with the effect's
    /// present gain and a fresh inbox, to which the effect sends its edits
    /// from now on; an inbox made earlier is dropped.
    pub fn node(&mut self) -> (node: GainNode)
        ensures
            final(self).value() == old(self).value(),
            node.value() == old(self).value(),
            final(self).connected() == allocatable::<Message>(INBOX_CAPACITY),
            node.connected() == final(self).connected(),
    {
        match channel::<Message>(INBOX_CAPACITY) {
            Some((producer, consumer)) => {
                self.producer = Some(producer);
                GainNode { gain: self.gain, consumer: Some(consumer) }
            },
            None => {
                self.producer = None;
                GainNode { gain: self.gain, consumer: None }
            },
        }
    }

    /// Sets the gain and sends the edit to the node, if there is one.
    /// Returns whether the node's inbox took the edit; it does not when there
    /// is no node or when its inbox is full.
    pub fn update(&mut self, gain: Sample) -> (sent: bool)
        ensures
            final(self).value() == gain,
            final(self).connected() == old(self).connected(),
            sent ==> old(self).connected(),
    {
        self.gain = gain;
        match &mut self.producer {
            Some(producer) => producer.push(update_gain(gain)).is_ok(),
            None => false,
        }
    }
}

impl GainNode {
    /// The gain that the node multiplies by.
    pub closed spec fn value(&self) -> Sample {
        self.gain
    }

    /// Whether the node has an inbox.
    pub closed spec fn connected(&self) -> bool {
        self.consumer is Some
    }

    /// The gain that the node multiplies by.
    pub fn gain(&self) -> (gain: Sample)
        ensures
            gain == self.value(),
    {
        self.gain
    }

    /// Takes in one edit.
    pub fn apply(&mut self, message: Message)
        ensures
            final(self).value() == received(old(self).value(), message),
            final(self).connected() == old(self).connected(),
    {
        match message {
            Message::UpdateGain { gain } => {
                self.gain = gain;
            },
        }
    }

    /// Takes in `messages`, oldest first.
    pub fn apply_all(&mut self, messages: &[Message])
        ensures
            final(self).value() == gain_after(old(self).value(), messages@),
            final(self).connected() == old(self).connected(),
    {
        let n: usize = messages.len();
        let mut i: usize = 0;
        while i < n
            invariant
                i <= n,
                n == messages@.len(),
                self.connected() == old(self).connected(),
                self.gain == gain_after(old(self).gain, messages@.take(i as int)),
            decreases n - i,
        {
            assert(messages@.take(i + 1).drop_last() == messages@.take(i as int));
            self.apply(messages[i]);
            i += 1;
        }
        assert(messages@.take(n as int) == messages@);
    }

    /// Takes in the edits that wait in the inbox, oldest first, and returns
    /// their number. It stops after as many edits as an inbox holds, so that
    /// a sender that never pauses cannot keep the audio thread here. Which
    /// edits wait is up to the sender; the gain is what they leave, taken in
    /// one after the other.
    pub fn drain(&mut self) -> (count: usize)
        ensures
            count <= INBOX_CAPACITY,
            final(self).connected() == old(self).connected(),
            !old(self).connected() ==> count == 0,
            exists|taken: Seq<Message>|
                taken.len() == count && final(self).value() == #[trigger] gain_after(
                    old(self).value(),
                    taken,
                ),
    {
        let mut count: usize = 0;
        let ghost mut taken: Seq<Message> = Seq::empty();
        if self.consumer.is_none() {
            assert(taken.len() == 0 && self.value() == gain_after(old(self).value(), taken));
            return 0;
        }
        while count < INBOX_CAPACITY
            invariant
                count <= INBOX_CAPACITY,
                self.consumer is Some,
                taken.len() == count,
                self.gain == gain_after(old(self).gain, taken),
            decreases INBOX_CAPACITY - count,
        {
            match poll(&mut self.consumer) {
                Some(message) => {
                    self.apply(message);
                    proof {
                        assert(taken.push(message).drop_last() == taken);
                        taken = taken.push(message);
                    }
                    count += 1;
                },
                None => {
                    break ;
                },
            }
        }
        assert(taken.len() == count && self.value() == gain_after(old(self).value(), taken));
        count
    }
}

impl<M: Fn(Sample, Sample) -> Sample, C, F> Node<Kernels<M, C, F>> for GainNode {
    open spec fn usable(kernels: &Kernels<M, C, F>) -> bool {
        forall|x: Sample, g: Sample| call_requires(kernels.scale, (x, g))
    }

    open spec fn reads(
        &self,
        after: &Self,
        input: Seq<Sample>,
        output: Seq<Sample>,
        info: &StreamInfo,
        kernels: &Kernels<M, C, F>,
    ) -> bool {
        &&& !self.connected() ==> after.value() == self.value()
        &&& after.connected() == self.connected()
        &&& scaled_by(kernels.scale, after.value(), input, output)
    }

    /// Takes in the waiting edits, then scales the block by the gain that
    /// the last of them left.
    fn read(&mut self, buffer: &mut [Sample], info: &StreamInfo, kernels: &Kernels<M, C, F>) {
        let _ = self.drain();
        scale_block(buffer, self.gain, &kernels.scale);
    }
}

} // verus!
