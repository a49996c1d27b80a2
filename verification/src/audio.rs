//! A running session: the queue of captured samples, the graph that the
//! playback callback runs, and the inbox through which the control thread
//! adds and removes effects.
use crate::device::AudioError;
use crate::effect::equalizer::{Coefficients, State};
use crate::effect::{Band, Effect, EffectNode, Kernels};
use crate::graph::{graph_reads, Graph, InputNode, Node, Sample, StreamInfo, SILENCE};
use crate::inbox::{allocatable, can_allocate, channel, INBOX_CAPACITY};
use crate::ring::{
    push_sample, push_samples, room, same_queue, sample_ring, size, split_ring, waiting,
};
use ringbuf::{Consumer, Producer};
use vstd::prelude::*;

verus! {

/// `count` and `more` added up, or the largest count there is where the sum
/// would pass it.
pub open spec fn raised(count: u64, more: int) -> u64 {
    if count + more <= u64::MAX {
        (count + more) as u64
    } else {
        u64::MAX
    }
}

/// The capture callback's end of the sample queue. It counts the samples
/// that the queue had no room for.
pub struct SampleWriter {
    producer: Producer<Sample>,
    overflows: u64,
}

impl SampleWriter {
    /// The number of captured samples so far that were dropped.
    pub closed spec fn overflow_count(&self) -> u64 {
        self.overflows
    }

    /// The number of samples that the queue is sure to find room for.
    pub closed spec fn room_left(&self) -> nat {
        room(self.producer)
    }

    /// The number of samples that the queue holds at most.
    pub closed spec fn capacity(&self) -> nat {
        size(self.producer)
    }

    /// The number of captured samples so far that were dropped.
    pub fn overflows(&self) -> (count: u64)
        ensures
            count == self.overflow_count(),
    {
        self.overflows
    }

    /// Queues a captured block and returns how many of its samples the
    /// queue took: a leading part of the block. It takes the whole block, or
    /// else at least as many samples as it was sure to find room for.
    /// Samples that are already queued are never overwritten; the rest of
    /// the block is dropped and counted.
    pub fn write(&mut self, samples: &[Sample]) -> (taken: usize)
        ensures
            taken <= samples@.len(),
            taken == samples@.len() || taken >= old(self).room_left(),
            final(self).room_left() + taken >= old(self).room_left(),
            final(self).capacity() == old(self).capacity(),
            final(self).overflow_count() == raised(
                old(self).overflow_count(),
                samples@.len() - taken,
            ),
    {
        let taken: usize = push_samples(&mut self.producer, samples);
        let dropped: usize = samples.len() - taken;
        self.overflows = match self.overflows.checked_add(dropped as u64) {
            Some(sum) => sum,
            None => u64::MAX,
        };
        taken
    }
}

/// Whether a queue for a latency of `latency_samples` can be made: it holds
/// twice that many samples.
pub open spec fn fifo_fits(latency_samples: usize) -> bool {
    latency_samples <= usize::MAX / 2 && allocatable::<Sample>((2 * latency_samples) as usize)
}

/// A run of `n` silent samples.
pub open spec fn silence(n: nat) -> Seq<Sample> {
    Seq::new(n, |i: int| SILENCE)
}

/// Whether the two are the ends of the sample queue as a session starts
/// with it: room for twice `latency_samples` samples, of which
/// `latency_samples` are queued as silence, and nothing counted yet.
pub open spec fn fresh_fifo(writer: SampleWriter, node: InputNode, latency_samples: usize) -> bool {
    &&& writer.capacity() == 2 * latency_samples
    &&& writer.room_left() == latency_samples
    &&& writer.overflow_count() == 0
    &&& node.waiting() == silence(latency_samples as nat)
    &&& node.underrun_count() == 0
}

/// Makes the sample queue of a session: room for twice `latency_samples`
/// samples, of which `latency_samples` are queued as silence at once, so
/// that playback can start before the first captured block arrives. Returns
/// the capture side and the graph's input node, or `None` where the queue
/// cannot be made.
pub fn sample_fifo(latency_samples: usize) -> (ends: Option<(SampleWriter, InputNode)>)
    ensures
        ends is Some <==> fifo_fits(latency_samples),
        ends matches Some((writer, node)) ==> fresh_fifo(writer, node, latency_samples),
{
    if latency_samples > usize::MAX / 2 {
        return None;
    }
    let capacity: usize = 2 * latency_samples;
    if !can_allocate::<Sample>(capacity) {
        return None;
    }
    let (mut producer, mut consumer) = split_ring(sample_ring(capacity));
    let mut queued: usize = 0;
    while queued < latency_samples
        invariant
            queued <= latency_samples,
            capacity == 2 * latency_samples,
            same_queue(producer, consumer),
            size(producer) == capacity,
            room(producer) + queued == capacity,
            waiting(consumer) == silence(queued as nat),
        decreases latency_samples - queued,
    {
        if push_sample(&mut producer, &mut consumer, SILENCE).is_err() {
            return None;
        }
        assert(silence(queued as nat).push(SILENCE) == silence((queued + 1) as nat));
        queued += 1;
    }
    Some((SampleWriter { producer, overflows: 0 }, InputNode::new(consumer)))
}

/// An edit of the graph.
pub enum Message {
    /// Appends a node to the chain.
    Add { effect: EffectNode },
    /// Removes the node at position `id`.
    Remove { id: usize },
}

/// The chain `nodes` after `message`: one node longer; or without the node
/// that the message names, the ones behind it moved one place forward; or,
/// where it names none, as it was.
pub open spec fn edited(nodes: Seq<EffectNode>, message: Message) -> Seq<EffectNode> {
    match message {
        Message::Add { effect } => nodes.push(effect),
        Message::Remove { id } => if id < nodes.len() {
            nodes.remove(id as int)
        } else {
            nodes
        },
    }
}

/// The chain `nodes` after `messages`, oldest first.
pub open spec fn edited_by(nodes: Seq<EffectNode>, messages: Seq<Message>) -> Seq<EffectNode>
    decreases messages.len(),
{
    if messages.len() == 0 {
        nodes
    } else {
        edited(edited_by(nodes, messages.drop_last()), messages.last())
    }
}

/// Takes one edit into the graph.
pub fn apply_message(graph: &mut Graph<InputNode, EffectNode>, message: Message)
    ensures
        final(graph).input() == old(graph).input(),
        final(graph).nodes() == edited(old(graph).nodes(), message),
{
    match message {
        Message::Add { effect } => graph.add_node(effect),
        Message::Remove { id } => graph.remove_node(id),
    }
}

/// What the playback callback does with one block: it takes in the graph
/// edits that wait in `inbox`, oldest first and at most as many as an inbox
/// holds, then lets the graph fill and process the block. Returns the number
/// of edits taken in. Which edits wait is up to the sender; the chain that
/// processes the block is the old one after them, taken in one after the
/// other.
pub fn output_callback<
    M: Fn(Sample, Sample) -> Sample,
    C: Fn(Band, Sample) -> Coefficients,
    F: Fn(Coefficients, State, Sample) -> Sample,
>(
    graph: &mut Graph<InputNode, EffectNode>,
    inbox: &mut Consumer<Message>,
    buffer: &mut [Sample],
    info: &StreamInfo,
    kernels: &Kernels<M, C, F>,
) -> (count: usize)
    requires
        kernels.total(),
    ensures
        count <= INBOX_CAPACITY,
        final(buffer)@.len() == old(buffer)@.len(),
        exists|taken: Seq<Message>|
            {
                &&& taken.len() == count
                &&& graph_reads(
                    old(graph).input(),
                    #[trigger] edited_by(old(graph).nodes(), taken),
                    final(graph),
                    old(buffer)@,
                    final(buffer)@,
                    info,
                    kernels,
                )
            },
{
    let mut count: usize = 0;
    let ghost mut taken: Seq<Message> = Seq::empty();
    while count < INBOX_CAPACITY
        invariant
            count <= INBOX_CAPACITY,
            graph.input() == old(graph).input(),
            taken.len() == count,
            graph.nodes() == edited_by(old(graph).nodes(), taken),
        decreases INBOX_CAPACITY - count,
    {
        match inbox.pop() {
            Some(message) => {
                apply_message(graph, message);
                proof {
                    assert(taken.push(message).drop_last() == taken);
                    taken = taken.push(message);
                }
                count += 1;
            },
            None => {
                break ;
            },
        }
    }
    let ghost staged = graph.nodes();
    let ghost source = graph.input();
    graph.read(buffer, info, kernels);
    proof {
        assert(graph_reads(source, staged, graph, old(buffer)@, buffer@, info, kernels));
        assert(staged == edited_by(old(graph).nodes(), taken));
    }
    count
}

/// The control thread's handle on a running session.
pub struct AudioSession {
    input: String,
    output: String,
    producer: Producer<Message>,
}

impl AudioSession {
    /// The name of the capture device.
    pub closed spec fn input_name(&self) -> Seq<char> {
        self.input@
    }

    /// The name of the playback device.
    pub closed spec fn output_name(&self) -> Seq<char> {
        self.output@
    }

    /// The name of the capture device.
    pub fn input(&self) -> (name: &String)
        ensures
            name@ == self.input_name(),
    {
        &self.input
    }

    /// The name of the playback device.
    pub fn output(&self) -> (name: &String)
        ensures
            name@ == self.output_name(),
    {
        &self.output
    }

    /// Sends a graph edit to the playback callback. Where the inbox is full
    /// the edit is not sent and comes back inside `Err`, so that the caller
    /// can keep its own list of effects in step with the graph.
    pub fn dispatch(&mut self, message: Message) -> (sent: Result<(), Message>)
        ensures
            final(self).input_name() == old(self).input_name(),
            final(self).output_name() == old(self).output_name(),
            sent is Err ==> sent->Err_0 == message,
    {
        self.producer.push(message)
    }
}

/// Everything a session is made of. The control thread keeps `control`, the
/// capture callback gets `writer`, and the playback callback gets the rest.
pub struct SessionParts {
    pub control: AudioSession,
    pub writer: SampleWriter,
    pub graph: Graph<InputNode, EffectNode>,
    pub inbox: Consumer<Message>,
    pub info: StreamInfo,
}

/// Whether `nodes` holds, place by place, a node as `Effect::node` makes it
/// for the effect of `effects` at that place.
pub open spec fn mirrors(effects: Seq<Effect>, nodes: Seq<EffectNode>) -> bool {
    &&& nodes.len() == effects.len()
    &&& forall|i: int| 0 <= i < effects.len() ==> (#[trigger] effects[i]).mirrored_by(&nodes[i])
}

/// Whether the two lists hold, place by place, effects of the same kind with
/// the same parameters.
pub open spec fn same_effects(before: Seq<Effect>, after: Seq<Effect>) -> bool {
    &&& after.len() == before.len()
    &&& forall|i: int| 0 <= i < before.len() ==> (#[trigger] before[i]).same_parameters(&after[i])
}

/// Makes the node of every effect, in the order of the effects.
pub fn make_nodes(effects: &mut Vec<Effect>) -> (nodes: Vec<EffectNode>)
    ensures
        same_effects(old(effects)@, final(effects)@),
        mirrors(final(effects)@, nodes@),
{
    let n: usize = effects.len();
    let mut nodes: Vec<EffectNode> = Vec::new();
    let mut i: usize = 0;
    while i < n
        invariant
            i <= n,
            n == effects@.len(),
            effects@.len() == old(effects)@.len(),
            nodes@.len() == i,
            forall|j: int| i <= j < n ==> effects@[j] == old(effects)@[j],
            forall|j: int| 0 <= j < n ==> (#[trigger] old(effects)@[j]).same_parameters(&effects@[j]),
            forall|j: int| 0 <= j < i ==> (#[trigger] effects@[j]).mirrored_by(&nodes@[j]),
        decreases n - i,
    {
        let ghost before = effects@;
        let node: EffectNode = effects[i].node();
        assert(forall|j: int| 0 <= j < n && j != i ==> effects@[j] == before[j]);
        nodes.push(node);
        i += 1;
    }
    nodes
}

/// Makes a session between the devices named `input` and `output`: the
/// sample queue for the given latency, a node for every effect, the graph
/// over them, and the inbox for graph edits.
pub fn session(
    input: String,
    output: String,
    effects: &mut Vec<Effect>,
    latency_samples: usize,
    sample_rate: Sample,
) -> (made: Result<SessionParts, AudioError>)
    ensures
        same_effects(old(effects)@, final(effects)@),
        made is Ok <==> fifo_fits(latency_samples) && allocatable::<Message>(INBOX_CAPACITY),
        made is Err ==> made->Err_0 == AudioError::QueueTooLarge,
        made matches Ok(parts) ==> {
            &&& parts.control.input_name() == input@
            &&& parts.control.output_name() == output@
            &&& fresh_fifo(parts.writer, parts.graph.input(), latency_samples)
            &&& mirrors(final(effects)@, parts.graph.nodes())
            &&& parts.info.sample_rate == sample_rate
        },
{
    let nodes: Vec<EffectNode> = make_nodes(effects);
    let (writer, input_node) = match sample_fifo(latency_samples) {
        Some(ends) => ends,
        None => {
            return Err(AudioError::QueueTooLarge);
        },
    };
    let (producer, inbox) = match channel::<Message>(INBOX_CAPACITY) {
        Some(ends) => ends,
        None => {
            return Err(AudioError::QueueTooLarge);
        },
    };
    Ok(
        SessionParts {
            control: AudioSession { input, output, producer },
            writer,
            graph: Graph::new(input_node, nodes),
            inbox,
            info: StreamInfo { sample_rate },
        },
    )
}

/// The edit that appends `effect` to the chain.
pub fn addition(effect: EffectNode) -> (message: Message)
    ensures
        message == (Message::Add { effect }),
{
    Message::Add { effect }
}

/// The edit that removes the node at position `id` from the chain.
pub fn removal(id: usize) -> (message: Message)
    ensures
        message == (Message::Remove { id }),
{
    Message::Remove { id }
}

/// Brings the control thread's list in step with an addition that was sent
/// to the graph: where the inbox took it, `effect` goes to the end of the
/// list; where it did not, the list stays as it was.
pub fn settle_add(effects: &mut Vec<Effect>, effect: Effect, sent: Result<(), Message>) -> (added:
    bool)
    ensures
        added == (sent is Ok),
        !added ==> final(effects)@ == old(effects)@,
        added ==> final(effects)@ == old(effects)@.push(effect),
{
    match sent {
        Ok(_) => {
            effects.push(effect);
            true
        },
        Err(_) => false,
    }
}

/// Brings the control thread's list in step with a removal that was sent to
/// the graph: where the inbox took it, the effect at position `id` leaves
/// the list; where it did not, or where `id` names no effect, the list stays
/// as it was.
pub fn settle_remove(effects: &mut Vec<Effect>, id: usize, sent: Result<(), Message>) -> (removed:
    bool)
    ensures
        removed == (sent is Ok && id < old(effects)@.len()),
        !removed ==> final(effects)@ == old(effects)@,
        removed ==> final(effects)@ == old(effects)@.remove(id as int),
{
    match sent {
        Ok(_) => {
            if id < effects.len() {
                let _ = effects.remove(id);
                true
            } else {
                false
            }
        },
        Err(_) => false,
    }
}

/// Adds `effect` to the end of the control thread's list and, where a
/// session runs, sends its node to the graph first. The list and the graph
/// stay in step: where the graph's inbox does not take the node, the list
/// stays as it was and `false` comes back.
pub fn add_effect(
    effects: &mut Vec<Effect>,
    session: &mut Option<AudioSession>,
    effect: Effect,
) -> (added: bool)
    ensures
        ((*final(session)) is Some) == ((*old(session)) is Some),
        (*old(session)) is None ==> added,
        !added ==> final(effects)@ == old(effects)@,
        added ==> {
            &&& final(effects)@.len() == old(effects)@.len() + 1
            &&& final(effects)@.drop_last() == old(effects)@
            &&& effect.same_parameters(&final(effects)@.last())
            &&& (*old(session)) is Some ==> final(effects)@.last().connected()
                == effect.connectable()
        },
{
    let mut effect = effect;
    let sent: Result<(), Message> = match session {
        Some(running) => {
            let node: EffectNode = effect.node();
            running.dispatch(addition(node))
        },
        None => Ok(()),
    };
    let added: bool = settle_add(effects, effect, sent);
    assert(effects@.drop_last() == old(effects)@ || !added);
    added
}

/// Removes the effect at position `id` from the control thread's list and,
/// where a session runs, tells the graph first to remove its node. The list
/// and the graph stay in step: where `id` names no effect, or the graph's
/// inbox does not take the edit, the list stays as it was and `false` comes
/// back.
pub fn remove_effect(
    effects: &mut Vec<Effect>,
    session: &mut Option<AudioSession>,
    id: usize,
) -> (removed: bool)
    ensures
        ((*final(session)) is Some) == ((*old(session)) is Some),
        id >= old(effects)@.len() ==> !removed,
        (*old(session)) is None && id < old(effects)@.len() ==> removed,
        !removed ==> final(effects)@ == old(effects)@,
        removed ==> final(effects)@ == old(effects)@.remove(id as int),
{
    if id >= effects.len() {
        return false;
    }
    let sent: Result<(), Message> = match session {
        Some(running) => running.dispatch(removal(id)),
        None => Ok(()),
    };
    settle_remove(effects, id, sent)
}

/// Whether the session, if there is one, is not the one between the devices
/// named `input` and `output`, so that a new one has to be made.
pub fn needs_renewal(session: &Option<AudioSession>, input: &String, output: &String) -> (stale:
    bool)
    ensures
        stale == match *session {
            Some(running) => running.input_name() != input@ || running.output_name() != output@,
            None => true,
        },
{
    match session {
        Some(running) => *running.input() != *input || *running.output() != *output,
        None => true,
    }
}

} // verus!
