//! The processing graph: an input node followed by an ordered chain of nodes,
//! each of which rewrites the block of samples in place.
use crate::ring::{left_of, pop_samples, waiting};
use ringbuf::Consumer;
use vstd::prelude::*;

verus! {

/// One audio sample: the bit pattern of a 32-bit IEEE-754 number. The library
/// moves samples around and hands them to the arithmetic of its caller; it
/// never computes with them itself.
pub type Sample = u32;

/// The sample that stands for silence: the bit pattern of positive zero.
pub const SILENCE: Sample = 0;

/// What every node is told about the running stream.
#[derive(Clone, Copy, Debug)]
pub struct StreamInfo {
    /// Samples per second, as a `Sample` bit pattern.
    pub sample_rate: Sample,
}

/// A stage of the graph. `K` is the arithmetic that the caller supplies.
pub trait Node<K> {
    /// Whether `kernels` can be called on every input this node may hand it.
    spec fn usable(kernels: &K) -> bool;

    /// Whether one call of `read` may take the node from `self` to `after`
    /// while it turns the block `input` into `output`.
    spec fn reads(
        &self,
        after: &Self,
        input: Seq<Sample>,
        output: Seq<Sample>,
        info: &StreamInfo,
        kernels: &K,
    ) -> bool;

    /// Processes one block in place.
    fn read(&mut self, buffer: &mut [Sample], info: &StreamInfo, kernels: &K)
        requires
            Self::usable(kernels),
        ensures
            final(buffer)@.len() == old(buffer)@.len(),
            old(self).reads(final(self), old(buffer)@, final(buffer)@, info, kernels),
    ;
}

/// Overwrites the samples of `buffer` from position `from` on with silence
/// and leaves the ones before it alone.
pub fn silence_from(buffer: &mut [Sample], from: usize)
    ensures
        final(buffer)@.len() == old(buffer)@.len(),
        forall|i: int| 0 <= i < from && i < old(buffer)@.len() ==> final(buffer)@[i] == old(buffer)@[i],
        forall|i: int| from <= i < old(buffer)@.len() ==> final(buffer)@[i] == SILENCE,
{
    let n: usize = buffer.len();
    let mut i: usize = from;
    while i < n
        invariant
            n == buffer@.len(),
            buffer@.len() == old(buffer)@.len(),
            from <= i,
            forall|j: int| 0 <= j < from && j < n ==> buffer@[j] == old(buffer)@[j],
            forall|j: int| from <= j < i && j < n ==> buffer@[j] == SILENCE,
        decreases n - i,
    {
        buffer[i] = SILENCE;
        i += 1;
    }
}

/// One more than `count`, or `count` itself once it cannot grow.
pub open spec fn bumped(count: u64) -> u64 {
    if count < u64::MAX {
        (count + 1) as u64
    } else {
        count
    }
}

/// The node at the head of the graph: it fills each block from the queue of
/// captured samples and counts the blocks that the queue could not fill.
pub struct InputNode {
    consumer: Consumer<Sample>,
    underruns: u64,
}

impl InputNode {
    /// The number of blocks so far that the queue could not fill.
    pub closed spec fn underrun_count(&self) -> u64 {
        self.underruns
    }

    /// The end of the sample queue that the node reads from.
    pub closed spec fn queue(&self) -> Consumer<Sample> {
        self.consumer
    }

    /// A node that reads from `consumer` and has seen no underrun yet.
    pub fn new(consumer: Consumer<Sample>) -> (node: Self)
        ensures
            node.queue() == consumer,
            node.underrun_count() == 0,
    {
        Self { consumer, underruns: 0 }
    }

    /// The number of blocks so far that the queue could not fill.
    pub fn underruns(&self) -> (count: u64)
        ensures
            count == self.underrun_count(),
    {
        self.underruns
    }

    /// The samples that the node is sure to find in the queue, oldest first.
    pub open spec fn waiting(&self) -> Seq<Sample> {
        waiting(self.queue())
    }

    /// Whether filling a block of `len` samples, of which the queue supplied
    /// the first `taken`, may take the node from `self` to `after` and leave
    /// the block as `output`.
    pub open spec fn filled(&self, after: &Self, len: int, taken: int, output: Seq<Sample>) -> bool {
        &&& 0 <= taken <= len
        &&& output.len() == len
        &&& taken == len || taken >= self.waiting().len()
        &&& forall|i: int|
            0 <= i < taken && i < self.waiting().len() ==> output[i] == self.waiting()[i]
        &&& forall|i: int| taken <= i < len ==> output[i] == SILENCE
        &&& after.waiting() == left_of(self.waiting(), taken as nat)
        &&& after.underrun_count() == if taken < len {
            bumped(self.underrun_count())
        } else {
            self.underrun_count()
        }
    }

    /// Takes as many samples from the queue as the block holds, or as many as
    /// the queue has, and returns their number. They stand at the front of
    /// the block, oldest first; what the queue could not supply is silence,
    /// and a block that was not filled counts as one underrun.
    pub fn fill(&mut self, buffer: &mut [Sample]) -> (taken: usize)
        ensures
            old(self).filled(final(self), old(buffer)@.len() as int, taken as int, final(buffer)@),
    {
        let taken: usize = pop_samples(&mut self.consumer, buffer);
        if taken < buffer.len() {
            silence_from(buffer, taken);
            if self.underruns < u64::MAX {
                self.underruns = self.underruns + 1;
            }
        }
        taken
    }
}

impl<K> Node<K> for InputNode {
    open spec fn usable(kernels: &K) -> bool {
        true
    }

    open spec fn reads(
        &self,
        after: &Self,
        input: Seq<Sample>,
        output: Seq<Sample>,
        info: &StreamInfo,
        kernels: &K,
    ) -> bool {
        exists|taken: int| #[trigger] self.filled(after, input.len() as int, taken, output)
    }

    /// Fills the block from the queue; see `fill`.
    fn read(&mut self, buffer: &mut [Sample], info: &StreamInfo, kernels: &K) {
        let _ = self.fill(buffer);
    }
}

/// Whether running the nodes `before` one after the other, each on what the
/// one before it left in the block, may turn `input` into `output` and leave
/// the nodes as `after`.
pub open spec fn chain_reads<K, N: Node<K>>(
    before: Seq<N>,
    after: Seq<N>,
    input: Seq<Sample>,
    output: Seq<Sample>,
    info: &StreamInfo,
    kernels: &K,
) -> bool
    decreases before.len(),
{
    if before.len() == 0 {
        after.len() == 0 && output == input
    } else {
        &&& after.len() == before.len()
        &&& exists|mid: Seq<Sample>|
            {
                &&& chain_reads(
                    before.drop_last(),
                    after.drop_last(),
                    input,
                    mid,
                    info,
                    kernels,
                )
                &&& #[trigger] before.last().reads(&after.last(), mid, output, info, kernels)
            }
    }
}

/// Runs every node of `nodes` over the block, first to last, each on what
/// the one before it left there.
pub fn run_chain<K, N: Node<K>>(
    nodes: &mut Vec<N>,
    buffer: &mut [Sample],
    info: &StreamInfo,
    kernels: &K,
)
    requires
        N::usable(kernels),
    ensures
        final(buffer)@.len() == old(buffer)@.len(),
        chain_reads(old(nodes)@, final(nodes)@, old(buffer)@, final(buffer)@, info, kernels),
{
    let n: usize = nodes.len();
    let mut i: usize = 0;
    while i < n
        invariant
            i <= n,
            n == nodes@.len(),
            nodes@.len() == old(nodes)@.len(),
            buffer@.len() == old(buffer)@.len(),
            N::usable(kernels),
            forall|j: int| i <= j < n ==> nodes@[j] == old(nodes)@[j],
            chain_reads(
                old(nodes)@.take(i as int),
                nodes@.take(i as int),
                old(buffer)@,
                buffer@,
                info,
                kernels,
            ),
        decreases n - i,
    {
        let ghost mid = buffer@;
        let ghost before = nodes@;
        nodes[i].read(buffer, info, kernels);
        proof {
            let a = old(nodes)@.take(i + 1);
            let b = nodes@.take(i + 1);
            assert(forall|j: int| 0 <= j < n && j != i ==> nodes@[j] == before[j]);
            assert(a.drop_last() == old(nodes)@.take(i as int));
            assert(b.drop_last() == before.take(i as int));
            assert(a.last() == before[i as int]);
            assert(b.last() == nodes@[i as int]);
            assert(a.last().reads(&b.last(), mid, buffer@, info, kernels));
        }
        i += 1;
    }
    proof {
        assert(old(nodes)@.take(n as int) == old(nodes)@);
        assert(nodes@.take(n as int) == nodes@);
    }
}

/// An input node and the chain of nodes behind it.
pub struct Graph<I, N> {
    input: I,
    nodes: Vec<N>,
}

impl<I, N> Graph<I, N> {
    /// The input node.
    pub closed spec fn input(&self) -> I {
        self.input
    }

    /// The chain, in processing order.
    pub closed spec fn nodes(&self) -> Seq<N> {
        self.nodes@
    }

    /// A graph that reads from `input` and then runs `nodes` in order.
    pub fn new(input: I, nodes: Vec<N>) -> (graph: Self)
        ensures
            graph.input() == input,
            graph.nodes() == nodes@,
    {
        Self { input, nodes }
    }

    /// Appends `node` to the end of the chain.
    pub fn add_node(&mut self, node: N)
        ensures
            final(self).input() == old(self).input(),
            final(self).nodes() == old(self).nodes().push(node),
    {
        self.nodes.push(node);
    }

    /// Removes the node at position `id`; the nodes behind it move one place
    /// forward. An `id` past the end of the chain changes nothing.
    pub fn remove_node(&mut self, id: usize)
        ensures
            final(self).input() == old(self).input(),
            id < old(self).nodes().len() ==> final(self).nodes() == old(self).nodes().remove(
                id as int,
            ),
            id >= old(self).nodes().len() ==> final(self).nodes() == old(self).nodes(),
    {
        if id < self.nodes.len() {
            let _ = self.nodes.remove(id);
        }
    }

    /// The input node.
    pub fn source(&self) -> (node: &I)
        ensures
            *node == self.input(),
    {
        &self.input
    }

    /// How many nodes the chain holds.
    pub fn len(&self) -> (n: usize)
        ensures
            n == self.nodes().len(),
    {
        self.nodes.len()
    }
}

/// Whether a graph made of `input_node` and `nodes` may turn the block
/// `input` into `output` and end up as `after`: the input node fills the
/// block, then the chain runs over what it filled in.
pub open spec fn graph_reads<K, I: Node<K>, N: Node<K>>(
    input_node: I,
    nodes: Seq<N>,
    after: &Graph<I, N>,
    input: Seq<Sample>,
    output: Seq<Sample>,
    info: &StreamInfo,
    kernels: &K,
) -> bool {
    exists|filled: Seq<Sample>|
        {
            &&& #[trigger] input_node.reads(&after.input(), input, filled, info, kernels)
            &&& chain_reads(nodes, after.nodes(), filled, output, info, kernels)
        }
}

impl<K, I: Node<K>, N: Node<K>> Node<K> for Graph<I, N> {
    open spec fn usable(kernels: &K) -> bool {
        I::usable(kernels) && N::usable(kernels)
    }

    open spec fn reads(
        &self,
        after: &Self,
        input: Seq<Sample>,
        output: Seq<Sample>,
        info: &StreamInfo,
        kernels: &K,
    ) -> bool {
        graph_reads(self.input(), self.nodes(), after, input, output, info, kernels)
    }

    /// Lets the input node fill the block, then runs every node of the chain
    /// over it, first to last.
    fn read(&mut self, buffer: &mut [Sample], info: &StreamInfo, kernels: &K) {
        self.input.read(buffer, info, kernels);
        let ghost filled = buffer@;
        run_chain(&mut self.nodes, buffer, info, kernels);
        proof {
            assert(old(self).input().reads(&self.input(), old(buffer)@, filled, info, kernels));
            assert(chain_reads(old(self).nodes(), self.nodes(), filled, buffer@, info, kernels));
        }
    }
}

} // verus!
