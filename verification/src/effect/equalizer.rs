//! The parametric equalizer: a bank of second-order filters, one per band,
//! run one after the other over each block.
use crate::effect::Kernels;
use crate::graph::{chain_reads, run_chain, Node, Sample, StreamInfo, SILENCE};
use crate::inbox::{allocatable, channel, poll, INBOX_CAPACITY};
use ringbuf::{Consumer, Producer};
use vstd::prelude::*;

verus! {

/// One band of the equalizer. Every field is a `Sample` bit pattern.
#[derive(Clone, Copy, Debug)]
pub enum Band {
    Peaking { frequency: Sample, q: Sample, gain: Sample },
    LowPass { frequency: Sample, q: Sample },
    HighPass { frequency: Sample, q: Sample },
    Notch { frequency: Sample, q: Sample },
    LowShelf { frequency: Sample, slope: Sample, gain: Sample },
    HighShelf { frequency: Sample, slope: Sample, gain: Sample },
}

/// The five normalized coefficients of a filter: `a0`, `a1`, `a2` weigh the
/// present and the two last inputs, `a3`, `a4` the two last outputs.
#[derive(Clone, Copy, Debug)]
pub struct Coefficients {
    pub a0: Sample,
    pub a1: Sample,
    pub a2: Sample,
    pub a3: Sample,
    pub a4: Sample,
}

/// What a filter remembers between samples: its two last inputs, `x1` the
/// newer, and its two last outputs, `y1` the newer.
#[derive(Clone, Copy, Debug)]
pub struct State {
    pub x1: Sample,
    pub x2: Sample,
    pub y1: Sample,
    pub y2: Sample,
}

/// The state of a filter that has seen nothing but silence.
pub open spec fn rest() -> State {
    State { x1: SILENCE, x2: SILENCE, y1: SILENCE, y2: SILENCE }
}

/// The state after a filter in `state` has turned the input `x` into the
/// output `y`.
pub open spec fn advanced(state: State, x: Sample, y: Sample) -> State {
    State { x1: x, x2: state.x1, y1: y, y2: state.y1 }
}

/// The state after a filter that started in `before` has turned `input`
/// into `output`, sample by sample.
pub open spec fn state_after(before: State, input: Seq<Sample>, output: Seq<Sample>) -> State
    recommends
        input.len() == output.len(),
    decreases input.len(),
{
    if input.len() == 0 || output.len() == 0 {
        before
    } else {
        advanced(
            state_after(before, input.drop_last(), output.drop_last()),
            input.last(),
            output.last(),
        )
    }
}

/// Whether a filter with coefficients `c` that starts in `before` may turn
/// `input` into `output`: each output sample is what `filter` gives for the
/// input sample and the state that the samples before it left.
pub open spec fn filtered<F: Fn(Coefficients, State, Sample) -> Sample>(
    filter: F,
    c: Coefficients,
    before: State,
    input: Seq<Sample>,
    output: Seq<Sample>,
) -> bool {
    &&& output.len() == input.len()
    &&& forall|k: int|
        0 <= k < input.len() ==> call_ensures(
            filter,
            (c, state_after(before, input.take(k), output.take(k)), input[k]),
            #[trigger] output[k],
        )
}

/// The state after two runs, the second starting where the first ended, is
/// the state after one run over both inputs.
pub proof fn lemma_state_after_concat(
    before: State,
    first_in: Seq<Sample>,
    first_out: Seq<Sample>,
    second_in: Seq<Sample>,
    second_out: Seq<Sample>,
)
    requires
        first_in.len() == first_out.len(),
        second_in.len() == second_out.len(),
    ensures
        state_after(before, first_in + second_in, first_out + second_out) == state_after(
            state_after(before, first_in, first_out),
            second_in,
            second_out,
        ),
    decreases second_in.len(),
{
    if second_in.len() == 0 {
        assert(first_in + second_in == first_in);
        assert(first_out + second_out == first_out);
    } else {
        lemma_state_after_concat(
            before,
            first_in,
            first_out,
            second_in.drop_last(),
            second_out.drop_last(),
        );
        assert((first_in + second_in).drop_last() == first_in + second_in.drop_last());
        assert((first_out + second_out).drop_last() == first_out + second_out.drop_last());
        assert((first_in + second_in).last() == second_in.last());
        assert((first_out + second_out).last() == second_out.last());
    }
}

/// A filter keeps its state from one block to the next: filtering a block in
/// one run is the same as filtering its first `at` samples and then, from
/// the state they left, the rest.
pub proof fn lemma_filtered_split<F: Fn(Coefficients, State, Sample) -> Sample>(
    filter: F,
    c: Coefficients,
    before: State,
    input: Seq<Sample>,
    output: Seq<Sample>,
    at: int,
)
    requires
        0 <= at <= input.len(),
        input.len() == output.len(),
    ensures
        filtered(filter, c, before, input, output) <==> {
            &&& filtered(filter, c, before, input.take(at), output.take(at))
            &&& filtered(
                filter,
                c,
                state_after(before, input.take(at), output.take(at)),
                input.skip(at),
                output.skip(at),
            )
        },
        state_after(before, input, output) == state_after(
            state_after(before, input.take(at), output.take(at)),
            input.skip(at),
            output.skip(at),
        ),
{
    let head_in = input.take(at);
    let head_out = output.take(at);
    let tail_in = input.skip(at);
    let tail_out = output.skip(at);
    let mid = state_after(before, head_in, head_out);
    assert(head_in + tail_in == input);
    assert(head_out + tail_out == output);
    lemma_state_after_concat(before, head_in, head_out, tail_in, tail_out);
    assert forall|k: int| 0 <= k < at implies head_in.take(k) == input.take(k) && head_out.take(k)
        == output.take(k) by {}
    assert forall|k: int| 0 <= k <= tail_in.len() implies state_after(
        mid,
        #[trigger] tail_in.take(k),
        tail_out.take(k),
    ) == state_after(before, input.take(at + k), output.take(at + k)) by {
        lemma_state_after_concat(before, head_in, head_out, tail_in.take(k), tail_out.take(k));
        assert(head_in + tail_in.take(k) == input.take(at + k));
        assert(head_out + tail_out.take(k) == output.take(at + k));
    }
    if filtered(filter, c, before, input, output) {
        assert forall|k: int| 0 <= k < head_in.len() implies call_ensures(
            filter,
            (c, state_after(before, head_in.take(k), head_out.take(k)), head_in[k]),
            #[trigger] head_out[k],
        ) by {
            assert(head_out[k] == output[k]);
        }
        assert forall|k: int| 0 <= k < tail_in.len() implies call_ensures(
            filter,
            (c, state_after(mid, tail_in.take(k), tail_out.take(k)), tail_in[k]),
            #[trigger] tail_out[k],
        ) by {
            assert(tail_out[k] == output[at + k]);
            assert(tail_in[k] == input[at + k]);
        }
    }
    if filtered(filter, c, before, head_in, head_out) && filtered(
        filter,
        c,
        mid,
        tail_in,
        tail_out,
    ) {
        assert forall|k: int| 0 <= k < input.len() implies call_ensures(
            filter,
            (c, state_after(before, input.take(k), output.take(k)), input[k]),
            #[trigger] output[k],
        ) by {
            if k < at {
                assert(head_out[k] == output[k]);
            } else {
                assert(tail_out[k - at] == output[k]);
                assert(tail_in[k - at] == input[k]);
                assert(tail_in.take(k - at).len() == k - at);
            }
        }
    }
}

/// A second-order filter in direct form I.
#[derive(Clone, Copy, Debug)]
pub struct BiQuadFilter {
    pub coefficients: Coefficients,
    pub state: State,
}

impl BiQuadFilter {
    /// This filter with its coefficients replaced and its state kept.
    pub open spec fn with_coefficients(self, coefficients: Coefficients) -> Self {
        BiQuadFilter { coefficients, state: self.state }
    }

    /// A filter at rest with the given coefficients.
    pub fn new(coefficients: Coefficients) -> (filter: Self)
        ensures
            filter.coefficients == coefficients,
            filter.state == rest(),
    {
        Self {
            coefficients,
            state: State { x1: SILENCE, x2: SILENCE, y1: SILENCE, y2: SILENCE },
        }
    }

    /// Replaces the coefficients. The state stays, so that the output goes on
    /// without a jump.
    pub fn set_coefficients(&mut self, coefficients: Coefficients)
        ensures
            *final(self) == old(self).with_coefficients(coefficients),
    {
        self.coefficients = coefficients;
    }

    /// Filters the block in place, one sample after the other, and keeps the
    /// state that the last sample left.
    pub fn process<F: Fn(Coefficients, State, Sample) -> Sample>(
        &mut self,
        buffer: &mut [Sample],
        filter: &F,
    )
        requires
            forall|c: Coefficients, s: State, x: Sample| call_requires(*filter, (c, s, x)),
        ensures
            final(self).coefficients == old(self).coefficients,
            filtered(*filter, old(self).coefficients, old(self).state, old(buffer)@, final(buffer)@),
            final(self).state == state_after(old(self).state, old(buffer)@, final(buffer)@),
    {
        let n: usize = buffer.len();
        let coefficients: Coefficients = self.coefficients;
        let mut state: State = self.state;
        let mut i: usize = 0;
        while i < n
            invariant
                i <= n,
                n == buffer@.len(),
                buffer@.len() == old(buffer)@.len(),
                coefficients == old(self).coefficients,
                forall|c: Coefficients, s: State, x: Sample| call_requires(*filter, (c, s, x)),
                forall|j: int| i <= j < n ==> buffer@[j] == old(buffer)@[j],
                state == state_after(
                    old(self).state,
                    old(buffer)@.take(i as int),
                    buffer@.take(i as int),
                ),
                forall|k: int|
                    0 <= k < i ==> call_ensures(
                        *filter,
                        (
                            coefficients,
                            state_after(old(self).state, old(buffer)@.take(k), buffer@.take(k)),
                            old(buffer)@[k],
                        ),
                        #[trigger] buffer@[k],
                    ),
            decreases n - i,
        {
            let ghost earlier = buffer@;
            let x: Sample = buffer[i];
            let y: Sample = filter(coefficients, state, x);
            buffer[i] = y;
            state = State { x1: x, x2: state.x1, y1: y, y2: state.y1 };
            proof {
                assert forall|k: int| 0 <= k <= i implies #[trigger] buffer@.take(k)
                    == earlier.take(k) by {}
                assert(old(buffer)@.take(i + 1).drop_last() == old(buffer)@.take(i as int));
                assert(buffer@.take(i + 1).drop_last() == buffer@.take(i as int));
            }
            i += 1;
        }
        proof {
            assert(old(buffer)@.take(n as int) == old(buffer)@);
            assert(buffer@.take(n as int) == buffer@);
        }
        self.state = state;
    }
}

/// Setting a filter's coefficients to the ones it already has changes
/// nothing in it, so what it puts out afterwards is what it would have put
/// out anyway.
pub proof fn lemma_same_coefficients_change_nothing(filter: BiQuadFilter)
    ensures
        filter.with_coefficients(filter.coefficients) == filter,
{
}

impl<M, C, F: Fn(Coefficients, State, Sample) -> Sample> Node<Kernels<M, C, F>> for BiQuadFilter {
    open spec fn usable(kernels: &Kernels<M, C, F>) -> bool {
        forall|c: Coefficients, s: State, x: Sample| call_requires(kernels.filter, (c, s, x))
    }

    open spec fn reads(
        &self,
        after: &Self,
        input: Seq<Sample>,
        output: Seq<Sample>,
        info: &StreamInfo,
        kernels: &Kernels<M, C, F>,
    ) -> bool {
        &&& after.coefficients == self.coefficients
        &&& filtered(kernels.filter, self.coefficients, self.state, input, output)
        &&& after.state == state_after(self.state, input, output)
    }

    /// Filters the block in place; see `process`.
    fn read(&mut self, buffer: &mut [Sample], info: &StreamInfo, kernels: &Kernels<M, C, F>) {
        self.process(buffer, &kernels.filter);
    }
}

/// An edit of an equalizer.
#[derive(Clone, Copy, Debug)]
pub enum Message {
    /// Replaces the band at position `id`.
    UpdateBand { id: usize, band: Band },
}

/// Whether `bank` is a bank of filters at rest, one per band and in the
/// order of `bands`, each with coefficients that `derive` gives for its band
/// at `sample_rate`.
pub open spec fn fresh_bank<C: Fn(Band, Sample) -> Coefficients>(
    derive: C,
    bands: Seq<Band>,
    sample_rate: Sample,
    bank: Seq<BiQuadFilter>,
) -> bool {
    &&& bank.len() == bands.len()
    &&& forall|i: int|
        0 <= i < bands.len() ==> {
            &&& (#[trigger] bank[i]).state == rest()
            &&& call_ensures(derive, (bands[i], sample_rate), bank[i].coefficients)
        }
}

/// Whether taking in `message` may turn the bank `before` into `after`: the
/// filter that the message names gets coefficients that `derive` gives for
/// the message's band and keeps its state, and no other filter changes. A
/// message that names no filter of the bank changes nothing.
pub open spec fn retuned<C: Fn(Band, Sample) -> Coefficients>(
    derive: C,
    sample_rate: Sample,
    message: Message,
    before: Seq<BiQuadFilter>,
    after: Seq<BiQuadFilter>,
) -> bool {
    if message->id < before.len() {
        &&& after.len() == before.len()
        &&& forall|j: int| 0 <= j < before.len() && j != message->id ==> after[j] == before[j]
        &&& after[message->id as int].state == before[message->id as int].state
        &&& call_ensures(
            derive,
            (message->band, sample_rate),
            after[message->id as int].coefficients,
        )
    } else {
        after == before
    }
}

/// Whether taking in `messages`, oldest first, may turn the bank `before`
/// into `after`; see `retuned`.
pub open spec fn retuned_by<C: Fn(Band, Sample) -> Coefficients>(
    derive: C,
    sample_rate: Sample,
    messages: Seq<Message>,
    before: Seq<BiQuadFilter>,
    after: Seq<BiQuadFilter>,
) -> bool
    decreases messages.len(),
{
    if messages.len() == 0 {
        after == before
    } else {
        exists|mid: Seq<BiQuadFilter>|
            {
                &&& retuned_by(derive, sample_rate, messages.drop_last(), before, mid)
                &&& #[trigger] retuned(derive, sample_rate, messages.last(), mid, after)
            }
    }
}

/// An edit that brings a filter the band which gave it its coefficients
/// changes nothing in the bank, so that what the bank puts out afterwards is
/// what it would have put out without the edit. This holds where `derive`
/// gives one result for that band at that rate.
pub proof fn lemma_same_band_changes_nothing<C: Fn(Band, Sample) -> Coefficients>(
    derive: C,
    sample_rate: Sample,
    id: usize,
    band: Band,
    before: Seq<BiQuadFilter>,
    after: Seq<BiQuadFilter>,
)
    requires
        forall|c1: Coefficients, c2: Coefficients|
            call_ensures(derive, (band, sample_rate), c1) && call_ensures(
                derive,
                (band, sample_rate),
                c2,
            ) ==> c1 == c2,
        id < before.len() ==> call_ensures(
            derive,
            (band, sample_rate),
            before[id as int].coefficients,
        ),
        retuned(derive, sample_rate, Message::UpdateBand { id, band }, before, after),
    ensures
        after == before,
{
    if id < before.len() {
        assert(after[id as int] == before[id as int]);
        assert(after =~= before);
    }
}

/// Whether `c` is what `derive` may give for some band at `sample_rate`.
pub open spec fn derivable<C: Fn(Band, Sample) -> Coefficients>(
    derive: C,
    sample_rate: Sample,
    c: Coefficients,
) -> bool {
    exists|band: Band| call_ensures(derive, (band, sample_rate), c)
}

/// Whether edits may turn the bank `before` into `after`: there are as many
/// filters, each in the state of the one at its place in `before`, and each
/// with the coefficients it had or with coefficients that `derive` gives for
/// some band at `sample_rate`.
pub open spec fn tuned_from<C: Fn(Band, Sample) -> Coefficients>(
    derive: C,
    sample_rate: Sample,
    before: Seq<BiQuadFilter>,
    after: Seq<BiQuadFilter>,
) -> bool {
    &&& after.len() == before.len()
    &&& forall|j: int|
        0 <= j < before.len() ==> {
            &&& (#[trigger] after[j]).state == before[j].state
            &&& after[j].coefficients == before[j].coefficients || derivable(
                derive,
                sample_rate,
                after[j].coefficients,
            )
        }
}

/// The edit that replaces the band at position `id` by `band`.
pub fn update_band(id: usize, band: Band) -> (message: Message)
    ensures
        message == (Message::UpdateBand { id, band }),
{
    Message::UpdateBand { id, band }
}

/// The control thread's half of an equalizer.
pub struct Equalizer {
    bands: Vec<Band>,
    producer: Option<Producer<Message>>,
}

/// The audio thread's half of an equalizer. Its filters are made on the first
/// block, when the sample rate is known.
pub struct EqualizerNode {
    bands: Vec<Band>,
    filters: Option<Vec<BiQuadFilter>>,
    consumer: Option<Consumer<Message>>,
}

/// A copy of `bands`.
fn copy_bands(bands: &Vec<Band>) -> (copy: Vec<Band>)
    ensures
        copy@ == bands@,
{
    let mut copy: Vec<Band> = Vec::new();
    let mut i: usize = 0;
    while i < bands.len()
        invariant
            i <= bands@.len(),
            copy@ == bands@.take(i as int),
        decreases bands@.len() - i,
    {
        copy.push(bands[i]);
        assert(bands@.take(i + 1) == bands@.take(i as int).push(bands@[i as int]));
        i += 1;
    }
    assert(bands@.take(bands@.len() as int) == bands@);
    copy
}

impl Equalizer {
    /// The bands as the control thread last set them, in processing order.
    pub closed spec fn bands(&self) -> Seq<Band> {
        self.bands@
    }

    /// Whether a node has been made that this effect can send edits to.
    pub closed spec fn connected(&self) -> bool {
        self.producer is Some
    }

    /// An effect with the given bands and no node yet.
    pub fn new(bands: Vec<Band>) -> (effect: Self)
        ensures
            effect.bands() == bands@,
            !effect.connected(),
    {
        Self { bands, producer: None }
    }

    /// How many bands the effect has.
    pub fn len(&self) -> (n: usize)
        ensures
            n == self.bands().len(),
    {
        self.bands.len()
    }

    /// The band at position `id`, if there is one.
    pub fn band(&self, id: usize) -> (band: Option<Band>)
        ensures
            id < self.bands().len() ==> band == Some(self.bands()[id as int]),
            id >= self.bands().len() ==> band is None,
    {
        if id < self.bands.len() {
            Some(self.bands[id])
        } else {
            None
        }
    }

    /// Makes the node for the audio thread. The node starts with the effect's
    /// present bands, no filters, and a fresh inbox, to which the effect
    /// sends its edits from now on; an inbox made earlier is dropped.
    pub fn node(&mut self) -> (node: EqualizerNode)
        ensures
            final(self).bands() == old(self).bands(),
            node.bands() == old(self).bands(),
            node.filters() is None,
            final(self).connected() == allocatable::<Message>(INBOX_CAPACITY),
            node.connected() == final(self).connected(),
    {
        let bands: Vec<Band> = copy_bands(&self.bands);
        match channel::<Message>(INBOX_CAPACITY) {
            Some((producer, consumer)) => {
                self.producer = Some(producer);
                EqualizerNode { bands, filters: None, consumer: Some(consumer) }
            },
            None => {
                self.producer = None;
                EqualizerNode { bands, filters: None, consumer: None }
            },
        }
    }

    /// Replaces the band at position `id` and sends the edit to the node, if
    /// there is one. Returns whether the node's inbox took the edit; it does
    /// not when there is no node or when its inbox is full. An `id` past the
    /// last band changes nothing and sends nothing.
    pub fn update(&mut self, id: usize, band: Band) -> (sent: bool)
        ensures
            final(self).connected() == old(self).connected(),
            id < old(self).bands().len() ==> final(self).bands() == old(self).bands().update(
                id as int,
                band,
            ),
            id >= old(self).bands().len() ==> final(self).bands() == old(self).bands() && !sent,
            sent ==> old(self).connected(),
    {
        if id >= self.bands.len() {
            return false;
        }
        self.bands[id] = band;
        match &mut self.producer {
            Some(producer) => producer.push(update_band(id, band)).is_ok(),
            None => false,
        }
    }
}

/// Takes `message` into a bank of filters; see `retuned`. Where there is no
/// bank yet, nothing happens.
fn retune<C: Fn(Band, Sample) -> Coefficients>(
    filters: &mut Option<Vec<BiQuadFilter>>,
    message: Message,
    sample_rate: Sample,
    derive: &C,
)
    requires
        forall|band: Band, rate: Sample| call_requires(*derive, (band, rate)),
    ensures
        (*old(filters)) is None ==> (*final(filters)) is None,
        (*old(filters)) is Some ==> (*final(filters)) is Some && retuned(
            *derive,
            sample_rate,
            message,
            (*old(filters))->Some_0@,
            (*final(filters))->Some_0@,
        ),
{
    match message {
        Message::UpdateBand { id, band } => {
            match filters {
                Some(bank) => {
                    if id < bank.len() {
                        let coefficients: Coefficients = derive(band, sample_rate);
                        let mut filter: BiQuadFilter = bank[id];
                        filter.set_coefficients(coefficients);
                        bank[id] = filter;
                    }
                },
                None => {},
            }
        },
    }
}

/// Runs a bank of filters over the block, first to last. Where there is no
/// bank, the block stays as it is.
fn run_bank<M, C, F: Fn(Coefficients, State, Sample) -> Sample>(
    filters: &mut Option<Vec<BiQuadFilter>>,
    buffer: &mut [Sample],
    info: &StreamInfo,
    kernels: &Kernels<M, C, F>,
)
    requires
        forall|c: Coefficients, s: State, x: Sample| call_requires(kernels.filter, (c, s, x)),
    ensures
        final(buffer)@.len() == old(buffer)@.len(),
        (*old(filters)) is None ==> (*final(filters)) is None && final(buffer)@ == old(buffer)@,
        (*old(filters)) is Some ==> (*final(filters)) is Some && (*final(filters))->Some_0@.len() == (*old(filters))->Some_0@.len() && chain_reads(
            (*old(filters))->Some_0@,
            (*final(filters))->Some_0@,
            old(buffer)@,
            final(buffer)@,
            info,
            kernels,
        ),
{
    match filters {
        Some(bank) => {
            run_chain(bank, buffer, info, kernels);
        },
        None => {},
    }
}

impl EqualizerNode {
    /// The bands that the filters are made from, in processing order.
    pub closed spec fn bands(&self) -> Seq<Band> {
        self.bands@
    }

    /// The filters, once they are made.
    pub closed spec fn filters(&self) -> Option<Seq<BiQuadFilter>> {
        match self.filters {
            Some(bank) => Some(bank@),
            None => None,
        }
    }

    /// Whether the node has an inbox.
    pub closed spec fn connected(&self) -> bool {
        self.consumer is Some
    }

    /// How many filters the node holds, or `None` before they are made.
    pub fn filter_count(&self) -> (count: Option<usize>)
        ensures
            self.filters() is None ==> count is None,
            self.filters() is Some ==> count == Some(self.filters()->Some_0.len() as usize),
    {
        match &self.filters {
            Some(bank) => Some(bank.len()),
            None => None,
        }
    }

    /// The filter at position `id`, if the filters are made and there is one.
    pub fn filter(&self, id: usize) -> (filter: Option<BiQuadFilter>)
        ensures
            filter is Some <==> self.filters() is Some && id < self.filters()->Some_0.len(),
            filter is Some ==> filter->Some_0 == self.filters()->Some_0[id as int],
    {
        match &self.filters {
            Some(bank) => {
                if id < bank.len() {
                    Some(bank[id])
                } else {
                    None
                }
            },
            None => None,
        }
    }

    /// Makes the filters if they are not made yet: one per band, in the
    /// order of the bands, each at rest and with the coefficients of its band
    /// at the stream's sample rate. Filters that exist are left alone.
    pub fn materialize<C: Fn(Band, Sample) -> Coefficients>(
        &mut self,
        info: &StreamInfo,
        derive: &C,
    )
        requires
            forall|band: Band, rate: Sample| call_requires(*derive, (band, rate)),
        ensures
            final(self).bands() == old(self).bands(),
            final(self).connected() == old(self).connected(),
            final(self).filters() is Some,
            old(self).filters() is Some ==> final(self).filters() == old(self).filters(),
            old(self).filters() is None ==> fresh_bank(
                *derive,
                old(self).bands(),
                info.sample_rate,
                final(self).filters()->Some_0,
            ),
    {
        if self.filters.is_some() {
            return ;
        }
        let n: usize = self.bands.len();
        let mut bank: Vec<BiQuadFilter> = Vec::new();
        let mut i: usize = 0;
        while i < n
            invariant
                i <= n,
                n == self.bands@.len(),
                bank@.len() == i,
                forall|band: Band, rate: Sample| call_requires(*derive, (band, rate)),
                forall|j: int|
                    0 <= j < i ==> {
                        &&& (#[trigger] bank@[j]).state == rest()
                        &&& call_ensures(
                            *derive,
                            (self.bands@[j], info.sample_rate),
                            bank@[j].coefficients,
                        )
                    },
            decreases n - i,
        {
            let coefficients: Coefficients = derive(self.bands[i], info.sample_rate);
            bank.push(BiQuadFilter::new(coefficients));
            i += 1;
        }
        self.filters = Some(bank);
    }

    /// Takes in one edit; see `retuned`. Before the filters are made an edit
    /// changes nothing.
    pub fn apply<C: Fn(Band, Sample) -> Coefficients>(
        &mut self,
        message: Message,
        info: &StreamInfo,
        derive: &C,
    )
        requires
            forall|band: Band, rate: Sample| call_requires(*derive, (band, rate)),
        ensures
            final(self).bands() == old(self).bands(),
            final(self).connected() == old(self).connected(),
            old(self).filters() is None ==> final(self).filters() is None,
            old(self).filters() is Some ==> final(self).filters() is Some && retuned(
                *derive,
                info.sample_rate,
                message,
                old(self).filters()->Some_0,
                final(self).filters()->Some_0,
            ),
    {
        retune(&mut self.filters, message, info.sample_rate, derive);
    }
}

impl EqualizerNode {
    /// Takes in the edits that wait in the inbox, oldest first, and returns
    /// their number. It stops after as many edits as an inbox holds, and it
    /// takes none before the filters are made. Which edits wait is up to the
    /// sender; the bank is what they leave, taken in one after the other.
    /// Whatever they are, they replace coefficients only, and every filter
    /// keeps its state.
    pub fn drain<C: Fn(Band, Sample) -> Coefficients>(
        &mut self,
        info: &StreamInfo,
        derive: &C,
    ) -> (count: usize)
        requires
            forall|band: Band, rate: Sample| call_requires(*derive, (band, rate)),
        ensures
            count <= INBOX_CAPACITY,
            final(self).bands() == old(self).bands(),
            final(self).connected() == old(self).connected(),
            !old(self).connected() || old(self).filters() is None ==> count == 0,
            count == 0 ==> final(self).filters() == old(self).filters(),
            old(self).filters() is Some ==> final(self).filters() is Some && tuned_from(
                *derive,
                info.sample_rate,
                old(self).filters()->Some_0,
                final(self).filters()->Some_0,
            ),
            old(self).filters() is Some ==> exists|taken: Seq<Message>|
                taken.len() == count && #[trigger] retuned_by(
                    *derive,
                    info.sample_rate,
                    taken,
                    old(self).filters()->Some_0,
                    final(self).filters()->Some_0,
                ),
    {
        let mut count: usize = 0;
        let ghost mut taken: Seq<Message> = Seq::empty();
        if self.consumer.is_none() || self.filters.is_none() {
            proof {
                if self.filters() is Some {
                    assert(retuned_by(
                        *derive,
                        info.sample_rate,
                        taken,
                        self.filters()->Some_0,
                        self.filters()->Some_0,
                    ));
                }
            }
            return 0;
        }
        while count < INBOX_CAPACITY
            invariant
                count <= INBOX_CAPACITY,
                self.consumer is Some,
                self.bands() == old(self).bands(),
                old(self).filters() is Some,
                self.filters() is Some,
                tuned_from(
                    *derive,
                    info.sample_rate,
                    old(self).filters()->Some_0,
                    self.filters()->Some_0,
                ),
                taken.len() == count,
                retuned_by(
                    *derive,
                    info.sample_rate,
                    taken,
                    old(self).filters()->Some_0,
                    self.filters()->Some_0,
                ),
                count == 0 ==> self.filters() == old(self).filters(),
                forall|band: Band, rate: Sample| call_requires(*derive, (band, rate)),
            decreases INBOX_CAPACITY - count,
        {
            let ghost mid = self.filters()->Some_0;
            match poll(&mut self.consumer) {
                Some(message) => {
                    self.apply(message, info, derive);
                    proof {
                        assert(taken.push(message).drop_last() == taken);
                        assert(retuned(
                            *derive,
                            info.sample_rate,
                            message,
                            mid,
                            self.filters()->Some_0,
                        ));
                        assert(retuned_by(
                            *derive,
                            info.sample_rate,
                            taken,
                            old(self).filters()->Some_0,
                            mid,
                        ));
                        assert(taken.push(message).last() == message);
                        taken = taken.push(message);
                        assert(retuned_by(
                            *derive,
                            info.sample_rate,
                            taken,
                            old(self).filters()->Some_0,
                            self.filters()->Some_0,
                        ));
                    }
                    count += 1;
                },
                None => {
                    break ;
                },
            }
        }
        count
    }
}

impl<
    M,
    C: Fn(Band, Sample) -> Coefficients,
    F: Fn(Coefficients, State, Sample) -> Sample,
> Node<Kernels<M, C, F>> for EqualizerNode {
    open spec fn usable(kernels: &Kernels<M, C, F>) -> bool {
        &&& forall|band: Band, rate: Sample| call_requires(kernels.coefficients, (band, rate))
        &&& forall|c: Coefficients, s: State, x: Sample| call_requires(kernels.filter, (c, s, x))
    }

    open spec fn reads(
        &self,
        after: &Self,
        input: Seq<Sample>,
        output: Seq<Sample>,
        info: &StreamInfo,
        kernels: &Kernels<M, C, F>,
    ) -> bool {
        &&& after.bands() == self.bands()
        &&& after.connected() == self.connected()
        &&& after.filters() is Some
        &&& self.filters() is None ==> after.filters()->Some_0.len() == self.bands().len()
        &&& exists|tuned: Seq<BiQuadFilter>|
            {
                &&& match self.filters() {
                    Some(bank) => {
                        &&& tuned_from(kernels.coefficients, info.sample_rate, bank, tuned)
                        &&& !self.connected() ==> tuned == bank
                    },
                    None => {
                        &&& tuned.len() == self.bands().len()
                        &&& forall|j: int|
                            0 <= j < tuned.len() ==> {
                                &&& (#[trigger] tuned[j]).state == rest()
                                &&& derivable(
                                    kernels.coefficients,
                                    info.sample_rate,
                                    tuned[j].coefficients,
                                )
                            }
                        &&& !self.connected() ==> fresh_bank(
                            kernels.coefficients,
                            self.bands(),
                            info.sample_rate,
                            tuned,
                        )
                    },
                }
                &&& #[trigger] chain_reads(
                    tuned,
                    after.filters()->Some_0,
                    input,
                    output,
                    info,
                    kernels,
                )
            }
    }

    /// Makes the filters on the first block, takes in the waiting edits, then
    /// runs the filters over the block in the order of the bands.
    fn read(&mut self, buffer: &mut [Sample], info: &StreamInfo, kernels: &Kernels<M, C, F>) {
        self.materialize(info, &kernels.coefficients);
        let _ = self.drain(info, &kernels.coefficients);
        let ghost tuned = self.filters()->Some_0;
        run_bank(&mut self.filters, buffer, info, kernels);
        proof {
            assert(chain_reads(
                tuned,
                self.filters()->Some_0,
                old(buffer)@,
                buffer@,
                info,
                kernels,
            ));
        }
    }
}

} // verus!
