use zing::effect::equalizer::{
    update_band, Band, BiQuadFilter, Coefficients, Equalizer, Message as BandMessage, State,
};
use zing::effect::gain::{scale_block, update_gain, Gain, Message as GainMessage};
use zing::effect::{create_equalizer, create_gain, Edit, Effect, EffectNode, Kernels};
use zing::graph::{run_chain, Node, StreamInfo, SILENCE};

type Scale = fn(u32, u32) -> u32;
type Derive = fn(Band, u32) -> Coefficients;
type Step = fn(Coefficients, State, u32) -> u32;

fn bits(x: f32) -> u32 {
    x.to_bits()
}

fn val(x: u32) -> f32 {
    f32::from_bits(x)
}

fn block(samples: &[f32]) -> Vec<u32> {
    samples.iter().map(|x| x.to_bits()).collect()
}

fn scale(x: u32, gain: u32) -> u32 {
    bits(val(x) * val(gain))
}

fn pack(raw_a0: f32, raw_a1: f32, raw_a2: f32, b0: f32, b1: f32, b2: f32) -> Coefficients {
    Coefficients {
        a0: bits(b0 / raw_a0),
        a1: bits(b1 / raw_a0),
        a2: bits(b2 / raw_a0),
        a3: bits(raw_a1 / raw_a0),
        a4: bits(raw_a2 / raw_a0),
    }
}

fn derive(band: Band, sample_rate: u32) -> Coefficients {
    match band {
        Band::Peaking { frequency, q, gain } => {
            let w0 = 2.0 * std::f32::consts::PI * val(frequency) / val(sample_rate);
            let alpha = w0.sin() / (2.0 * val(q));
            let a = f32::powf(10.0, val(gain) / 40.0);
            pack(
                1.0 + alpha / a,
                -2.0 * w0.cos(),
                1.0 - alpha / a,
                1.0 + alpha * a,
                -2.0 * w0.cos(),
                1.0 - alpha * a,
            )
        }
        _ => pack(1.0, 0.0, 0.0, 1.0, 0.0, 0.0),
    }
}

fn step(c: Coefficients, s: State, x: u32) -> u32 {
    bits(
        val(c.a0) * val(x) + val(c.a1) * val(s.x1) + val(c.a2) * val(s.x2)
            - val(c.a3) * val(s.y1)
            - val(c.a4) * val(s.y2),
    )
}

fn kernels() -> Kernels<Scale, Derive, Step> {
    Kernels { scale: scale as Scale, coefficients: derive as Derive, filter: step as Step }
}

fn info() -> StreamInfo {
    StreamInfo { sample_rate: bits(48_000.0) }
}

fn peaking(frequency: f32, q: f32, gain: f32) -> Band {
    Band::Peaking { frequency: bits(frequency), q: bits(q), gain: bits(gain) }
}

fn ramp(n: usize) -> Vec<u32> {
    (0..n).map(|i| bits(((i * 37 % 101) as f32 - 50.0) / 64.0)).collect()
}

#[test]
fn silence_is_positive_zero() {
    assert_eq!(SILENCE, bits(0.0));
}

#[test]
fn biquad_impulse_response_matches_cookbook() {
    let c = derive(peaking(1_000.0, 1.0, 6.0), bits(48_000.0));
    let (a0, a1, a2, a3, a4) = (val(c.a0), val(c.a1), val(c.a2), val(c.a3), val(c.a4));

    // The coefficients themselves, against the formulas worked in double precision.
    let w0 = 2.0 * std::f64::consts::PI * 1_000.0 / 48_000.0;
    let alpha = w0.sin() / 2.0;
    let a = 10f64.powf(6.0 / 40.0);
    let raw_a0 = 1.0 + alpha / a;
    assert!((a0 as f64 - (1.0 + alpha * a) / raw_a0).abs() < 1e-6);
    assert!((a1 as f64 - (-2.0 * w0.cos()) / raw_a0).abs() < 1e-6);
    assert!((a2 as f64 - (1.0 - alpha * a) / raw_a0).abs() < 1e-6);
    assert!((a3 as f64 - (-2.0 * w0.cos()) / raw_a0).abs() < 1e-6);
    assert!((a4 as f64 - (1.0 - alpha / a) / raw_a0).abs() < 1e-6);

    let mut buffer = vec![bits(0.0); 512];
    buffer[0] = bits(1.0);
    let mut filter = BiQuadFilter::new(c);
    filter.process(&mut buffer, &(step as Step));

    let h0 = a0;
    let h1 = a1 - a3 * h0;
    let h2 = a2 - a3 * h1 - a4 * h0;
    let h3 = -a3 * h2 - a4 * h1;
    let h4 = -a3 * h3 - a4 * h2;
    let expected = [h0, h1, h2, h3, h4];
    for (i, want) in expected.iter().enumerate() {
        assert!((val(buffer[i]) - want).abs() < 1e-6, "sample {}", i);
    }
    assert_eq!(buffer.len(), 512);
}

#[test]
fn biquad_state_persists_across_buffers() {
    let c = derive(peaking(1_000.0, 1.0, 6.0), bits(48_000.0));
    let input = ramp(100);

    let mut whole = input.clone();
    let mut one = BiQuadFilter::new(c);
    one.process(&mut whole, &(step as Step));

    let mut first = input[..50].to_vec();
    let mut second = input[50..].to_vec();
    let mut two = BiQuadFilter::new(c);
    two.process(&mut first, &(step as Step));
    two.process(&mut second, &(step as Step));

    assert_eq!(&whole[..50], &first[..]);
    assert_eq!(&whole[50..], &second[..]);
    assert_eq!(one.state.x1, two.state.x1);
    assert_eq!(one.state.x2, two.state.x2);
    assert_eq!(one.state.y1, two.state.y1);
    assert_eq!(one.state.y2, two.state.y2);
}

#[test]
fn biquad_state_holds_last_two_inputs_and_outputs() {
    let c = derive(peaking(500.0, 0.7, -3.0), bits(44_100.0));
    let input = ramp(7);
    let mut buffer = input.clone();
    let mut filter = BiQuadFilter::new(c);
    filter.process(&mut buffer, &(step as Step));
    assert_eq!(filter.state.x1, input[6]);
    assert_eq!(filter.state.x2, input[5]);
    assert_eq!(filter.state.y1, buffer[6]);
    assert_eq!(filter.state.y2, buffer[5]);
    assert_eq!(filter.coefficients.a0, c.a0);
}

#[test]
fn biquad_starts_at_rest() {
    let c = derive(peaking(1_000.0, 1.0, 6.0), bits(48_000.0));
    let filter = BiQuadFilter::new(c);
    assert_eq!(filter.state.x1, SILENCE);
    assert_eq!(filter.state.x2, SILENCE);
    assert_eq!(filter.state.y1, SILENCE);
    assert_eq!(filter.state.y2, SILENCE);
    assert_eq!(filter.coefficients.a3, c.a3);
}

#[test]
fn biquad_on_empty_block_changes_nothing() {
    let c = derive(peaking(1_000.0, 1.0, 6.0), bits(48_000.0));
    let mut filter = BiQuadFilter::new(c);
    let mut buffer: Vec<u32> = Vec::new();
    filter.process(&mut buffer, &(step as Step));
    assert_eq!(filter.state.x1, SILENCE);
    assert_eq!(filter.state.y1, SILENCE);
}

#[test]
fn gain_is_linear() {
    let mut effect = Gain::new(bits(2.0));
    let mut node = effect.node();
    let mut buffer = block(&[0.1, -0.3, 0.5]);
    node.read(&mut buffer, &info(), &kernels());
    assert_eq!(buffer, block(&[0.2, -0.6, 1.0]));
}

#[test]
fn scale_block_scales_every_sample() {
    let mut buffer = block(&[1.0, 2.0, -4.0, 0.0]);
    scale_block(&mut buffer, bits(0.5), &(scale as Scale));
    assert_eq!(buffer, block(&[0.5, 1.0, -2.0, 0.0]));
}

#[test]
fn replacing_coefficients_keeps_state() {
    let c = derive(peaking(1_000.0, 1.0, 6.0), bits(48_000.0));
    let d = derive(peaking(2_000.0, 2.0, -6.0), bits(48_000.0));
    let mut filter = BiQuadFilter::new(c);
    let mut buffer = ramp(16);
    filter.process(&mut buffer, &(step as Step));
    let before = filter.state;
    filter.set_coefficients(d);
    assert_eq!(filter.state.x1, before.x1);
    assert_eq!(filter.state.x2, before.x2);
    assert_eq!(filter.state.y1, before.y1);
    assert_eq!(filter.state.y2, before.y2);
    assert_eq!(filter.coefficients.a0, d.a0);
    assert_eq!(filter.coefficients.a4, d.a4);
}

#[test]
fn identical_coefficient_update_gives_identical_output() {
    let c = derive(peaking(1_000.0, 1.0, 6.0), bits(48_000.0));
    let input = ramp(64);

    let mut plain = BiQuadFilter::new(c);
    let mut a = input[..32].to_vec();
    let mut b = input[32..].to_vec();
    plain.process(&mut a, &(step as Step));
    plain.process(&mut b, &(step as Step));

    let mut updated = BiQuadFilter::new(c);
    let mut x = input[..32].to_vec();
    let mut y = input[32..].to_vec();
    updated.process(&mut x, &(step as Step));
    updated.set_coefficients(c);
    updated.process(&mut y, &(step as Step));

    assert_eq!(a, x);
    assert_eq!(b, y);
}

#[test]
fn identical_band_update_gives_identical_output() {
    let band = peaking(1_000.0, 1.0, 6.0);
    let input = ramp(48);

    let mut plain = Equalizer::new(vec![band]);
    let mut plain_node = plain.node();
    let mut a = input[..24].to_vec();
    let mut b = input[24..].to_vec();
    plain_node.read(&mut a, &info(), &kernels());
    plain_node.read(&mut b, &info(), &kernels());

    let mut edited = Equalizer::new(vec![band]);
    let mut edited_node = edited.node();
    let mut x = input[..24].to_vec();
    let mut y = input[24..].to_vec();
    edited_node.read(&mut x, &info(), &kernels());
    assert!(edited.update(0, band));
    edited_node.read(&mut y, &info(), &kernels());

    assert_eq!(a, x);
    assert_eq!(b, y);
}

#[test]
fn equalizer_makes_its_filters_on_the_first_block() {
    let bands = vec![peaking(90.0, 1.0, 0.0), peaking(250.0, 1.0, 3.0), peaking(500.0, 2.0, -3.0)];
    let mut effect = Equalizer::new(bands.clone());
    let mut node = effect.node();
    assert_eq!(node.filter_count(), None);
    assert!(node.filter(0).is_none());

    let mut nothing: Vec<u32> = Vec::new();
    node.read(&mut nothing, &info(), &kernels());
    assert_eq!(node.filter_count(), Some(3));
    for (i, band) in bands.iter().enumerate() {
        let filter = node.filter(i).unwrap();
        assert_eq!(filter.state.x1, SILENCE);
        assert_eq!(filter.state.x2, SILENCE);
        assert_eq!(filter.state.y1, SILENCE);
        assert_eq!(filter.state.y2, SILENCE);
        let want = derive(*band, bits(48_000.0));
        assert_eq!(filter.coefficients.a0, want.a0);
        assert_eq!(filter.coefficients.a1, want.a1);
        assert_eq!(filter.coefficients.a2, want.a2);
        assert_eq!(filter.coefficients.a3, want.a3);
        assert_eq!(filter.coefficients.a4, want.a4);
    }
    assert!(node.filter(3).is_none());
}

#[test]
fn materialize_leaves_existing_filters_alone() {
    let mut effect = Equalizer::new(vec![peaking(1_000.0, 1.0, 6.0)]);
    let mut node = effect.node();
    let mut buffer = ramp(8);
    node.read(&mut buffer, &info(), &kernels());
    let before = node.filter(0).unwrap();
    node.materialize(&StreamInfo { sample_rate: bits(8_000.0) }, &(derive as Derive));
    let after = node.filter(0).unwrap();
    assert_eq!(before.state.x1, after.state.x1);
    assert_eq!(before.state.y1, after.state.y1);
    assert_eq!(before.coefficients.a1, after.coefficients.a1);
}

#[test]
fn equalizer_runs_bands_in_order() {
    let first = peaking(300.0, 1.0, 6.0);
    let second = peaking(3_000.0, 0.5, -9.0);
    let input = ramp(32);

    let mut node = Equalizer::new(vec![first, second]).node();
    let mut through_node = input.clone();
    node.read(&mut through_node, &info(), &kernels());

    let mut by_hand = input.clone();
    let mut one = BiQuadFilter::new(derive(first, bits(48_000.0)));
    let mut two = BiQuadFilter::new(derive(second, bits(48_000.0)));
    one.process(&mut by_hand, &(step as Step));
    two.process(&mut by_hand, &(step as Step));

    assert_eq!(through_node, by_hand);
    assert_eq!(node.filter(0).unwrap().state.y1, one.state.y1);
    assert_eq!(node.filter(1).unwrap().state.y1, two.state.y1);
}

#[test]
fn band_update_replaces_coefficients_only() {
    let mut effect = Equalizer::new(vec![peaking(300.0, 1.0, 6.0), peaking(3_000.0, 1.0, 0.0)]);
    let mut node = effect.node();
    let mut buffer = ramp(16);
    node.read(&mut buffer, &info(), &kernels());
    let untouched = node.filter(0).unwrap();
    let before = node.filter(1).unwrap();

    let newer = peaking(4_000.0, 2.0, 3.0);
    assert!(effect.update(1, newer));
    assert_eq!(node.drain(&info(), &(derive as Derive)), 1);
    let after = node.filter(1).unwrap();
    let want = derive(newer, bits(48_000.0));
    assert_eq!(after.coefficients.a0, want.a0);
    assert_eq!(after.coefficients.a3, want.a3);
    assert_eq!(after.state.x1, before.state.x1);
    assert_eq!(after.state.x2, before.state.x2);
    assert_eq!(after.state.y1, before.state.y1);
    assert_eq!(after.state.y2, before.state.y2);
    let same = node.filter(0).unwrap();
    assert_eq!(same.coefficients.a0, untouched.coefficients.a0);
    assert_eq!(same.state.y1, untouched.state.y1);
    assert_eq!(effect.band(1).map(|b| matches!(b, Band::Peaking { .. })), Some(true));
}

#[test]
fn band_update_past_the_last_filter_is_ignored() {
    let mut effect = Equalizer::new(vec![peaking(300.0, 1.0, 6.0)]);
    let mut node = effect.node();
    let mut nothing: Vec<u32> = Vec::new();
    node.read(&mut nothing, &info(), &kernels());
    let before = node.filter(0).unwrap();
    node.apply(
        zing::effect::equalizer::Message::UpdateBand { id: 5, band: peaking(1.0, 1.0, 1.0) },
        &info(),
        &(derive as Derive),
    );
    let after = node.filter(0).unwrap();
    assert_eq!(node.filter_count(), Some(1));
    assert_eq!(before.coefficients.a0, after.coefficients.a0);
    assert!(!effect.update(5, peaking(1.0, 1.0, 1.0)));
    assert_eq!(effect.len(), 1);
    assert!(effect.band(5).is_none());
}

#[test]
fn edits_wait_until_the_filters_are_made() {
    let mut effect = Equalizer::new(vec![peaking(300.0, 1.0, 6.0)]);
    let mut node = effect.node();
    let newer = peaking(4_000.0, 2.0, 3.0);
    assert!(effect.update(0, newer));
    assert_eq!(node.drain(&info(), &(derive as Derive)), 0);
    assert_eq!(node.filter_count(), None);
    let mut nothing: Vec<u32> = Vec::new();
    node.read(&mut nothing, &info(), &kernels());
    let want = derive(newer, bits(48_000.0));
    assert_eq!(node.filter(0).unwrap().coefficients.a0, want.a0);
}

#[test]
fn gain_then_flat_peaking_halves_the_signal() {
    let mut gain = create_gain(bits(0.5));
    let mut equalizer = create_equalizer(vec![peaking(1_000.0, 1.0, 0.0)]);
    let mut nodes: Vec<EffectNode> = vec![gain.node(), equalizer.node()];
    let mut buffer = block(&[0.1, 0.1, 0.1, 0.1]);
    run_chain(&mut nodes, &mut buffer, &info(), &kernels());
    for sample in &buffer {
        assert!((val(*sample) - 0.05).abs() < 1e-6);
    }
}

#[test]
fn last_of_many_gain_updates_wins() {
    let mut effect = Gain::new(bits(1.0));
    let mut node = effect.node();
    for i in 0..1_000 {
        assert!(effect.update(bits(i as f32 / 250.0)));
    }
    let mut buffer = block(&[1.0, -1.0]);
    node.read(&mut buffer, &info(), &kernels());
    let last = 999.0f32 / 250.0;
    assert_eq!(node.gain(), bits(last));
    assert_eq!(effect.gain(), bits(last));
    assert_eq!(buffer, block(&[last, -last]));
}

#[test]
fn apply_all_keeps_the_last_gain() {
    let mut node = Gain::new(bits(1.0)).node();
    let messages: Vec<GainMessage> =
        (0..1_000).map(|i| GainMessage::UpdateGain { gain: bits(i as f32) }).collect();
    node.apply_all(&messages);
    assert_eq!(node.gain(), bits(999.0));
    node.apply_all(&[]);
    assert_eq!(node.gain(), bits(999.0));
    node.apply(GainMessage::UpdateGain { gain: bits(0.25) });
    assert_eq!(node.gain(), bits(0.25));
}

#[test]
fn gain_without_updates_keeps_its_value() {
    let mut effect = Gain::new(bits(3.0));
    let mut node = effect.node();
    assert_eq!(node.drain(), 0);
    assert_eq!(node.gain(), bits(3.0));
    let mut buffer = block(&[1.0]);
    node.read(&mut buffer, &info(), &kernels());
    assert_eq!(buffer, block(&[3.0]));
}

#[test]
fn gain_update_without_node_is_not_sent() {
    let mut effect = Gain::new(bits(1.0));
    assert!(!effect.update(bits(2.0)));
    assert_eq!(effect.gain(), bits(2.0));
    let node = effect.node();
    assert_eq!(node.gain(), bits(2.0));
}

#[test]
fn full_inbox_turns_updates_away() {
    let mut effect = Gain::new(bits(1.0));
    let mut node = effect.node();
    for i in 0..zing::inbox::INBOX_CAPACITY {
        assert!(effect.update(bits(i as f32)));
    }
    assert!(!effect.update(bits(-1.0)));
    assert_eq!(node.drain(), zing::inbox::INBOX_CAPACITY);
    assert_eq!(node.gain(), bits((zing::inbox::INBOX_CAPACITY - 1) as f32));
    assert!(effect.update(bits(7.0)));
    assert_eq!(node.drain(), 1);
    assert_eq!(node.gain(), bits(7.0));
}

#[test]
fn effect_names() {
    assert_eq!(create_gain(bits(1.0)).name(), "Gain");
    assert_eq!(create_equalizer(Vec::new()).name(), "Equalizer");
}

#[test]
fn effect_update_reaches_the_right_kind() {
    let mut gain = create_gain(bits(1.0));
    let mut node = gain.node();
    assert!(gain.update(Edit::Gain(bits(2.0))));
    assert!(!gain.update(Edit::Band { id: 0, band: peaking(1.0, 1.0, 1.0) }));
    let mut buffer = block(&[1.5]);
    node.read(&mut buffer, &info(), &kernels());
    assert_eq!(buffer, block(&[3.0]));

    let mut equalizer = create_equalizer(vec![peaking(300.0, 1.0, 6.0)]);
    let _node = equalizer.node();
    assert!(!equalizer.update(Edit::Gain(bits(2.0))));
    assert!(equalizer.update(Edit::Band { id: 0, band: peaking(1.0, 1.0, 1.0) }));
    assert!(!equalizer.update(Edit::Band { id: 1, band: peaking(1.0, 1.0, 1.0) }));
    match equalizer {
        Effect::Equalizer(inner) => assert_eq!(inner.len(), 1),
        Effect::Gain(_) => panic!("an equalizer was made"),
    }
}

#[test]
fn parameter_edits_are_built_as_named() {
    match update_gain(bits(0.75)) {
        GainMessage::UpdateGain { gain } => assert_eq!(gain, bits(0.75)),
    }
    match update_band(3, peaking(440.0, 2.0, -1.5)) {
        BandMessage::UpdateBand { id, band: Band::Peaking { frequency, q, gain } } => {
            assert_eq!(id, 3);
            assert_eq!(frequency, bits(440.0));
            assert_eq!(q, bits(2.0));
            assert_eq!(gain, bits(-1.5));
        }
        _ => panic!("a peaking band was handed in"),
    }
}

#[test]
fn equalizer_update_names_the_band_it_edits() {
    let mut effect = Equalizer::new(vec![peaking(300.0, 1.0, 6.0), peaking(3_000.0, 1.0, 0.0)]);
    let mut node = effect.node();
    let mut nothing: Vec<u32> = Vec::new();
    node.read(&mut nothing, &info(), &kernels());
    let first = node.filter(0).unwrap();
    let newer = peaking(4_000.0, 2.0, 3.0);
    assert!(effect.update(1, newer));
    node.read(&mut nothing, &info(), &kernels());
    let want = derive(newer, bits(48_000.0));
    assert_eq!(node.filter(1).unwrap().coefficients.a0, want.a0);
    assert_eq!(node.filter(0).unwrap().coefficients.a0, first.coefficients.a0);
}
