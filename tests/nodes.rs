use dsp::signals::{GainNode, SumNode};
use dsp::{ComplexToRealNode, ProcessingNode, RealToComplexNode};
use num_complex::Complex32;

fn assert_close(actual: f32, expected: f32) {
    assert!(
        (actual - expected).abs() <= 1e-5f32,
        "{} is not within 1e-5 of {}",
        actual,
        expected
    );
}

#[test]
fn test_real_to_complex() {
    let real = vec![1.0, 2.0, 3.0, 4.0];
    let expected = vec![
        Complex32::new(1.0, 0.0),
        Complex32::new(2.0, 0.0),
        Complex32::new(3.0, 0.0),
        Complex32::new(4.0, 0.0),
    ];
    let mut rtc = RealToComplexNode::new(4);
    let complex = rtc.process(&real);
    assert_eq!(complex, &expected);
}

#[test]
fn test_complex_to_real() {
    let complex = vec![
        Complex32::new(1.0, 0.0),
        Complex32::new(2.0, 0.0),
        Complex32::new(3.0, 0.0),
        Complex32::new(4.0, 0.0),
    ];
    let expected = vec![1.0, 2.0, 3.0, 4.0];
    let mut ctr = ComplexToRealNode::new(4);
    let real = ctr.process(&complex);
    assert_eq!(real, &expected);
}

// One frame of a unit sine at a quarter of the sample rate.
fn sine_frame() -> Vec<f32> {
    vec![0.0, 1.0, 0.0, -1.0]
}

// One frame of a unit step that rises after the first sample.
fn step_frame() -> Vec<f32> {
    vec![0.0, 1.0, 1.0, 1.0]
}

#[test]
fn test_gen_node() {
    let signal = sine_frame();
    let mut gain_node = GainNode::new(2.0, 4);
    let scaled_signal = gain_node.process(&signal);

    assert_close(scaled_signal[0], 0.0);
    assert_close(scaled_signal[1], 2.0);
    assert_close(scaled_signal[2], 0.0);
    assert_close(scaled_signal[3], -2.0);
}

#[test]
fn test_sum_node() {
    let sine_signal = sine_frame();
    let mut gain_node = GainNode::new(0.5, 4);
    let mut sum_node = SumNode::new(4);

    let frame1 = gain_node.process(&sine_signal);
    let frame2 = step_frame();
    let sum_signal = sum_node.process(frame1, &frame2);

    assert_close(sum_signal[0], 0.0);
    assert_close(sum_signal[1], 1.5);
    assert_close(sum_signal[2], 1.0);
    assert_close(sum_signal[3], 0.5);
}

#[test]
fn gain_doubles_frame() {
    let mut node = GainNode::new(2.0f32, 4);
    let out = node.process(&vec![0.0, 1.0, 0.0, -1.0]);
    assert_eq!(out, &vec![0.0, 2.0, 0.0, -2.0]);
}

#[test]
fn sum_adds_frames() {
    let mut node = SumNode::new(4);
    let out = node.process(&vec![0.0f32, 1.0, 0.0, -1.0], &vec![0.0, 0.5, 0.5, 0.5]);
    assert_eq!(out, &vec![0.0, 1.5, 0.5, -0.5]);
}

#[test]
fn conversions_round_trip() {
    let real = vec![1.0f32, 2.0, 3.0, 4.0];
    let mut to_complex = RealToComplexNode::new(4);
    let mut to_real = ComplexToRealNode::new(4);
    let complex = to_complex.process(&real);
    assert_eq!(
        complex,
        &vec![
            Complex32::new(1.0, 0.0),
            Complex32::new(2.0, 0.0),
            Complex32::new(3.0, 0.0),
            Complex32::new(4.0, 0.0),
        ]
    );
    let back = to_real.process(complex);
    assert_eq!(back, &real);
}

#[test]
fn complex_to_real_drops_imaginary_part() {
    let mut node = ComplexToRealNode::new(3);
    let out = node.process(&vec![
        Complex32::new(1.5, -2.0),
        Complex32::new(-0.25, 7.0),
        Complex32::new(0.0, 1.0),
    ]);
    assert_eq!(out, &vec![1.5f32, -0.25, 0.0]);
}

#[test]
fn gain_truncates_longer_input() {
    let mut node = GainNode::new(3.0f32, 2);
    let out = node.process(&vec![1.0, 2.0, 3.0, 4.0]);
    assert_eq!(out, &vec![3.0, 6.0]);
}

#[test]
fn gain_shorter_input_leaves_stale_tail() {
    let mut node = GainNode::new(2.0f32, 4);
    node.process(&vec![1.0, 2.0, 3.0, 4.0]);
    let out = node.process(&vec![10.0, 20.0]);
    assert_eq!(out, &vec![20.0, 40.0, 6.0, 8.0]);
}

#[test]
fn gain_on_integer_samples() {
    let mut node = GainNode::new(-3i64, 3);
    let out = node.process(&vec![1, 0, 7]);
    assert_eq!(out, &vec![-3, 0, -21]);
}

#[test]
fn fresh_node_output_is_zero() {
    let mut node = GainNode::new(5.0f32, 3);
    let out = node.process(&vec![]);
    assert_eq!(out, &vec![0.0, 0.0, 0.0]);
    let mut to_complex = RealToComplexNode::<f32>::new(2);
    assert_eq!(to_complex.process(&vec![]), &vec![Complex32::new(0.0, 0.0); 2]);
}

#[test]
fn zero_capacity_node_returns_empty_frame() {
    let mut node = SumNode::new(0);
    let out = node.process(&vec![1.0f32, 2.0], &vec![3.0, 4.0]);
    assert!(out.is_empty());
}

#[test]
fn sum_truncates_to_shorter_input() {
    let mut node = SumNode::new(4);
    node.process(&vec![1i32, 1, 1, 1], &vec![1, 1, 1, 1]);
    let out = node.process(&vec![5, 6, 7], &vec![10, 20]);
    assert_eq!(out, &vec![15, 26, 2, 2]);
}

#[test]
fn real_to_complex_shorter_input_keeps_tail() {
    let mut node = RealToComplexNode::new(3);
    node.process(&vec![1.0f32, 2.0, 3.0]);
    let out = node.process(&vec![9.0]);
    assert_eq!(
        out,
        &vec![
            Complex32::new(9.0, 0.0),
            Complex32::new(2.0, 0.0),
            Complex32::new(3.0, 0.0),
        ]
    );
}

#[test]
fn output_length_is_capacity() {
    let mut gain = GainNode::new(1.0f32, 5);
    assert_eq!(gain.process(&vec![1.0; 9]).len(), 5);
    assert_eq!(gain.process(&vec![1.0; 2]).len(), 5);
    let mut to_real = ComplexToRealNode::<f32>::new(3);
    assert_eq!(to_real.process(&vec![Complex32::new(1.0, 1.0); 7]).len(), 3);
    assert_eq!(to_real.process(&vec![]).len(), 3);
}
