use audiofx::AudioError;
use audiofx::biquad::BiquadFilter;
use audiofx::engine::AudioEffectsProcessor;
use audiofx::eq::{EqDesign, PeakWords, ShelfWords, band_angle};

fn bits(x: f32) -> u32 {
    x.to_bits()
}

fn un(w: u32) -> f32 {
    f32::from_bits(w)
}

fn shelf_words(freq: f32, rate: f32, gain_db: f32) -> ShelfWords {
    let gain = 10.0_f32.powf(gain_db / 20.0);
    let w = 2.0 * std::f32::consts::PI * freq / rate;
    ShelfWords {
        sin_w: bits(w.sin()),
        cos_w: bits(w.cos()),
        gain: bits(gain),
        beta: bits((gain / 1.0).sqrt()),
    }
}

fn peak_words(freq: f32, rate: f32, q: f32, gain_db: f32) -> PeakWords {
    let gain = 10.0_f32.powf(gain_db / 20.0);
    let w = 2.0 * std::f32::consts::PI * freq / rate;
    PeakWords {
        sin_w: bits(w.sin()),
        cos_w: bits(w.cos()),
        q: bits(q),
        gain: bits(gain),
    }
}

fn design(rate: f32) -> EqDesign {
    EqDesign {
        low_shelf: shelf_words(100.0, rate, 1.0),
        band1: peak_words(250.0, rate, 1.0, 1.0),
        band2: peak_words(500.0, rate, 1.0, 1.0),
        band3: peak_words(1000.0, rate, 1.0, 1.0),
        band4: peak_words(2000.0, rate, 1.0, 1.0),
        band5: peak_words(4000.0, rate, 1.0, 1.0),
        high_shelf: shelf_words(8000.0, rate, 1.0),
    }
}

fn make_engine(n: usize, rate: f32) -> AudioEffectsProcessor {
    AudioEffectsProcessor::new(n, bits(rate), &design(rate))
}

fn load(p: &mut AudioEffectsProcessor, xs: &[f32]) {
    let v: Vec<u32> = xs.iter().map(|x| x.to_bits()).collect();
    p.buffer_manager.load_input(&v);
}

fn output(p: &AudioEffectsProcessor) -> Vec<f32> {
    p.buffer_manager.output_words().iter().map(|w| un(*w)).collect()
}

/// A plain-f32 mirror of the biquad cell, used to cross-check the
/// bit-pattern arithmetic against the machine's own IEEE operations.
struct NativeBiquad {
    b0: f32,
    b1: f32,
    b2: f32,
    a1: f32,
    a2: f32,
    x1: f32,
    x2: f32,
    y1: f32,
    y2: f32,
}

fn native_peaking(freq: f32, rate: f32, q: f32, gain_db: f32) -> NativeBiquad {
    let gain = 10.0_f32.powf(gain_db / 20.0);
    let w = 2.0 * std::f32::consts::PI * freq / rate;
    let cos_w = w.cos();
    let sin_w = w.sin();
    let alpha = sin_w / (2.0 * q);
    let b0 = 1.0 + alpha * gain;
    let b1 = -2.0 * cos_w;
    let b2 = 1.0 - alpha * gain;
    let a0 = 1.0 + alpha / gain;
    let a1 = -2.0 * cos_w;
    let a2 = 1.0 - alpha / gain;
    NativeBiquad {
        b0: b0 / a0,
        b1: b1 / a0,
        b2: b2 / a0,
        a1: a1 / a0,
        a2: a2 / a0,
        x1: 0.0,
        x2: 0.0,
        y1: 0.0,
        y2: 0.0,
    }
}

fn native_low_shelf(freq: f32, rate: f32, gain_db: f32) -> NativeBiquad {
    let gain = 10.0_f32.powf(gain_db / 20.0);
    let w = 2.0 * std::f32::consts::PI * freq / rate;
    let cos_w = w.cos();
    let sin_w = w.sin();
    let s = 1.0;
    let beta = (gain / s).sqrt();
    let b0 = gain * ((gain + 1.0) - (gain - 1.0) * cos_w + beta * sin_w);
    let b1 = 2.0 * gain * ((gain - 1.0) - (gain + 1.0) * cos_w);
    let b2 = gain * ((gain + 1.0) - (gain - 1.0) * cos_w - beta * sin_w);
    let a0 = (gain + 1.0) + (gain - 1.0) * cos_w + beta * sin_w;
    let a1 = -2.0 * ((gain - 1.0) + (gain + 1.0) * cos_w);
    let a2 = (gain + 1.0) + (gain - 1.0) * cos_w - beta * sin_w;
    NativeBiquad {
        b0: b0 / a0,
        b1: b1 / a0,
        b2: b2 / a0,
        a1: a1 / a0,
        a2: a2 / a0,
        x1: 0.0,
        x2: 0.0,
        y1: 0.0,
        y2: 0.0,
    }
}

impl NativeBiquad {
    fn process(&mut self, input: f32) -> f32 {
        let output = self.b0 * input + self.b1 * self.x1 + self.b2 * self.x2
            - self.a1 * self.y1 - self.a2 * self.y2;
        self.x2 = self.x1;
        self.x1 = input;
        self.y2 = self.y1;
        self.y1 = output;
        output
    }
}

#[test]
fn new_zeroes_both_regions() {
    let p = make_engine(8, 44100.0);
    assert_eq!(p.buffer_manager.buffer_size(), 8);
    for i in 0..8 {
        assert_eq!(p.buffer_manager.input_word(i), 0);
        assert_eq!(p.buffer_manager.output_word(i), 0);
        assert_eq!(un(p.buffer_manager.input_word(i)), 0.0);
    }
}

#[test]
fn copy_to_output_is_identity_and_idempotent() {
    let mut p = make_engine(4, 44100.0);
    let xs = [0.1_f32, -2.5, 3.75, 0.0];
    load(&mut p, &xs);
    p.copy_to_output();
    let first: Vec<u32> = p.buffer_manager.output_words();
    for i in 0..4 {
        assert_eq!(first[i], xs[i].to_bits());
    }
    p.copy_to_output();
    assert_eq!(p.buffer_manager.output_words(), first);
}

#[test]
fn bass_boost_zero_db_is_pure_tanh() {
    let mut p = make_engine(4, 44100.0);
    let xs = [0.5_f32, -0.25, 2.0, -3.0];
    load(&mut p, &xs);
    let factor = 10.0_f32.powf(0.0 / 20.0);
    assert_eq!(factor, 1.0);
    let scaled = p.scaled_input(bits(factor));
    for i in 0..4 {
        assert_eq!(scaled[i], (xs[i] * factor).to_bits());
    }
    let saturated: Vec<u32> = scaled.iter().map(|w| un(*w).tanh().to_bits()).collect();
    p.write_output_block(&saturated);
    let out = output(&p);
    for i in 0..4 {
        assert_eq!(out[i], xs[i].tanh());
        assert!(out[i] > -1.0 && out[i] < 1.0);
    }
    // Saturation is applied even at zero gain: tanh(0.5) != 0.5.
    assert_ne!(out[0], xs[0]);
}

#[test]
fn bass_boost_high_gain_saturates_into_unit_interval() {
    let mut p = make_engine(3, 44100.0);
    let xs = [0.9_f32, -0.9, 0.01];
    load(&mut p, &xs);
    let factor = 10.0_f32.powf(40.0 / 20.0);
    let scaled = p.scaled_input(bits(factor));
    for i in 0..3 {
        assert_eq!(scaled[i], (xs[i] * factor).to_bits());
        assert_ne!(scaled[i], xs[i].to_bits());
    }
    let saturated: Vec<u32> = scaled.iter().map(|w| un(*w).tanh().to_bits()).collect();
    p.write_output_block(&saturated);
    for y in output(&p) {
        assert!((-1.0..=1.0).contains(&y));
    }
}

#[test]
fn eq_wrong_gain_count_is_rejected_and_output_untouched() {
    let mut p = make_engine(4, 44100.0);
    let xs = [0.3_f32, -0.6, 0.9, -0.1];
    load(&mut p, &xs);
    p.copy_to_output();
    let before = p.buffer_manager.output_words();
    let six: Vec<u32> = vec![bits(1.0); 6];
    let eight: Vec<u32> = vec![bits(1.0); 8];
    assert_eq!(p.process_eq_7band(&six), Err(AudioError::InvalidArgument));
    assert_eq!(p.buffer_manager.output_words(), before);
    assert_eq!(p.process_eq_7band(&eight), Err(AudioError::InvalidArgument));
    assert_eq!(p.buffer_manager.output_words(), before);
}

#[test]
fn eq_seven_bands_matches_native_cascade_bit_for_bit() {
    let rate = 44100.0_f32;
    let n = 16;
    let mut p = make_engine(n, rate);
    let xs: Vec<f32> = (0..n).map(|i| ((i as f32) * 0.37).sin() * 0.8).collect();
    load(&mut p, &xs);
    let gains: Vec<u32> = vec![bits(1.0); 7];
    assert_eq!(p.process_eq_7band(&gains), Ok(()));
    let out = p.buffer_manager.output_words();

    let mut chain = [
        native_low_shelf(100.0, rate, 1.0),
        native_peaking(250.0, rate, 1.0, 1.0),
        native_peaking(500.0, rate, 1.0, 1.0),
        native_peaking(1000.0, rate, 1.0, 1.0),
        native_peaking(2000.0, rate, 1.0, 1.0),
        native_peaking(4000.0, rate, 1.0, 1.0),
        native_low_shelf(8000.0, rate, 1.0),
    ];
    for i in 0..n {
        let mut s = xs[i];
        for cell in chain.iter_mut() {
            s = cell.process(s);
        }
        assert_eq!(out[i], s.to_bits(), "sample {i}");
    }
}

#[test]
fn peaking_at_zero_gain_passes_an_impulse_nearly_unchanged() {
    let rate = 44100.0_f32;
    let w = 2.0 * std::f32::consts::PI * 1000.0 / rate;
    let mut f = BiquadFilter::new_peaking(bits(w.sin()), bits(w.cos()), bits(1.0), bits(1.0));
    let impulse = [1.0_f32, 0.0, 0.0, 0.0, 0.0];
    let expected = [1.0_f32, 0.0, 0.0, 0.0, 0.0];
    for i in 0..5 {
        let y = un(f.process(bits(impulse[i])));
        assert!((y - expected[i]).abs() < 1e-6, "sample {i}: {y}");
    }
}

#[test]
fn biquad_process_shifts_history_in_order() {
    let rate = 44100.0_f32;
    let w = 2.0 * std::f32::consts::PI * 500.0 / rate;
    let mut f = BiquadFilter::new_peaking(bits(w.sin()), bits(w.cos()), bits(0.7), bits(2.0));
    let y0 = f.process(bits(0.25));
    assert_eq!(f.x1, bits(0.25));
    assert_eq!(f.x2, 0);
    assert_eq!(f.y1, y0);
    assert_eq!(f.y2, 0);
    let y1 = f.process(bits(-0.5));
    assert_eq!(f.x1, bits(-0.5));
    assert_eq!(f.x2, bits(0.25));
    assert_eq!(f.y1, y1);
    assert_eq!(f.y2, y0);
}

#[test]
fn lofi_bit_depth_one_is_a_hard_rounder() {
    let mut p = make_engine(4, 44100.0);
    let xs = [0.4_f32, 0.6, -0.5, 1.2];
    load(&mut p, &xs);
    let levels = 2.0_f32.powf(1.0) - 1.0;
    assert_eq!(levels, 1.0);
    p.process_lo_fi_with_levels(bits(levels), bits(1.0));
    let out = output(&p);
    for i in 0..4 {
        assert_eq!(out[i].to_bits(), xs[i].round().to_bits(), "sample {i}");
    }
    assert_eq!(out[0], 0.0);
    assert_eq!(out[1], 1.0);
    assert_eq!(out[2], -1.0);
    assert_eq!(out[3], 1.0);
}

#[test]
fn lofi_huge_downsample_factor_holds_the_first_sample() {
    let mut p = make_engine(4, 44100.0);
    let xs = [0.9_f32, 0.1, 0.7, -0.3];
    load(&mut p, &xs);
    let levels = 2.0_f32.powf(1.0) - 1.0;
    p.process_lo_fi_with_levels(bits(levels), bits(1_000_000.0));
    let out = output(&p);
    assert_eq!(out[0], 0.9_f32.round());
    for i in 1..4 {
        assert_eq!(out[i].to_bits(), out[0].to_bits(), "sample {i}");
    }
}

#[test]
fn lofi_matches_native_quantize_and_hold() {
    let mut p = make_engine(8, 44100.0);
    let xs: Vec<f32> = (0..8).map(|i| ((i as f32) * 0.61).cos() * 0.9).collect();
    load(&mut p, &xs);
    let levels = 2.0_f32.powf(8.0) - 1.0;
    let factor = 2.0_f32;
    p.process_lo_fi_with_levels(bits(levels), bits(factor));
    let out = p.buffer_manager.output_words();
    let mut expected: Vec<f32> = Vec::new();
    for i in 0..8 {
        let quantized = (xs[i] * levels).round() / levels;
        let v = if (i as f32) % factor < 1.0 {
            quantized
        } else if i > 0 {
            expected[i - 1]
        } else {
            0.0
        };
        expected.push(v);
        assert_eq!(out[i], v.to_bits(), "sample {i}");
    }
}

#[test]
fn pitch_shift_at_unity_factor_reproduces_the_block() {
    let mut p = make_engine(5, 44100.0);
    let xs = [0.1_f32, 0.2, 0.3, 0.4, 0.5];
    load(&mut p, &xs);
    p.process_pitch_shift(bits(1.0));
    let out = p.buffer_manager.output_words();
    for i in 0..5 {
        assert_eq!(out[i], xs[i].to_bits(), "sample {i}");
    }
    // The phase crossed 1.0 on every step and the held sample tracked the
    // input, ending on the last sample with the phase back at zero.
    assert_eq!(p.pitch_shift_state.phase, 0.0_f32.to_bits());
    assert_eq!(p.pitch_shift_state.previous_sample, 0.5_f32.to_bits());
}

#[test]
fn pitch_shift_matches_native_resampler() {
    let mut p = make_engine(6, 44100.0);
    let xs = [0.05_f32, -0.4, 0.8, 0.33, -0.9, 0.6];
    load(&mut p, &xs);
    let factor = 0.5_f32;
    p.process_pitch_shift(bits(factor));
    let out = p.buffer_manager.output_words();
    let mut phase = 0.0_f32;
    let mut previous = 0.0_f32;
    for i in 0..6 {
        phase += factor;
        if phase >= 1.0 {
            phase -= 1.0;
            previous = xs[i];
        }
        let expected = previous + (xs[i] - previous) * phase;
        assert_eq!(out[i], expected.to_bits(), "sample {i}");
    }
    assert_eq!(p.pitch_shift_state.phase, phase.to_bits());
    assert_eq!(p.pitch_shift_state.previous_sample, previous.to_bits());
}

#[test]
fn band_angle_matches_native_arithmetic() {
    let w = band_angle(bits(1000.0), bits(44100.0));
    assert_eq!(w, (2.0 * std::f32::consts::PI * 1000.0 / 44100.0).to_bits());
}

#[test]
fn eq_state_persists_across_blocks() {
    let rate = 48000.0_f32;
    let n = 6;
    let mut p = make_engine(n, rate);
    let mut chain = [
        native_low_shelf(100.0, rate, 1.0),
        native_peaking(250.0, rate, 1.0, 1.0),
        native_peaking(500.0, rate, 1.0, 1.0),
        native_peaking(1000.0, rate, 1.0, 1.0),
        native_peaking(2000.0, rate, 1.0, 1.0),
        native_peaking(4000.0, rate, 1.0, 1.0),
        native_low_shelf(8000.0, rate, 1.0),
    ];
    let gains: Vec<u32> = vec![bits(1.0); 7];
    let blocks = [
        [0.5_f32, -0.5, 0.25, -0.25, 0.75, -0.75],
        [0.1_f32, 0.2, -0.3, 0.4, -0.5, 0.6],
    ];
    for block in blocks.iter() {
        load(&mut p, block);
        assert_eq!(p.process_eq_7band(&gains), Ok(()));
        let out = p.buffer_manager.output_words();
        for i in 0..n {
            let mut s = block[i];
            for cell in chain.iter_mut() {
                s = cell.process(s);
            }
            assert_eq!(out[i], s.to_bits(), "sample {i}");
        }
    }
}

#[test]
fn pitch_phase_persists_across_blocks() {
    let mut p = make_engine(4, 44100.0);
    let factor = 0.7_f32;
    let blocks = [[0.3_f32, -0.1, 0.6, 0.2], [-0.8_f32, 0.4, 0.0, 0.9]];
    let mut phase = 0.0_f32;
    let mut previous = 0.0_f32;
    for block in blocks.iter() {
        load(&mut p, block);
        p.process_pitch_shift(bits(factor));
        let out = p.buffer_manager.output_words();
        for i in 0..4 {
            phase += factor;
            if phase >= 1.0 {
                phase -= 1.0;
                previous = block[i];
            }
            let expected = previous + (block[i] - previous) * phase;
            assert_eq!(out[i], expected.to_bits(), "sample {i}");
        }
    }
    assert_eq!(p.pitch_shift_state.phase, phase.to_bits());
}
