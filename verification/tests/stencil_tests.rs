use fluid_sim::clear::{clear, ClearUniforms};
use fluid_sim::curl::curl;
use fluid_sim::divergence::divergence;
use fluid_sim::field::{ChannelLayout, Field, Sample};
use fluid_sim::pass::PassError;

fn velocity_field(width: usize, height: usize, flow: fn(i32, i32) -> (i32, i32)) -> Field {
    let mut field = Field::allocate(width, height, ChannelLayout::Velocity).unwrap();
    for y in 0..height {
        for x in 0..width {
            let (vx, vy) = flow(x as i32, y as i32);
            assert!(field.set(x, y, Sample::new(vx, vy, 11, 12)));
        }
    }
    field
}

fn scratch(width: usize, height: usize) -> Field {
    let mut field = Field::allocate(width, height, ChannelLayout::Scalar).unwrap();
    field.fill(Sample::new(9, 9, 9, 9));
    field
}

#[test]
fn uniform_flow_has_no_divergence_anywhere() {
    let velocity = velocity_field(5, 4, |_, _| (123_456, -654_321));
    let mut output = scratch(5, 4);
    assert_eq!(divergence(&velocity, &mut output), Ok(()));
    for sample in output.samples() {
        assert_eq!(*sample, Sample::new(0, 0, 0, 0));
    }
}

#[test]
fn extreme_uniform_flow_has_no_divergence_either() {
    let velocity = velocity_field(3, 3, |_, _| (i32::MIN, i32::MAX));
    let mut output = scratch(3, 3);
    assert_eq!(divergence(&velocity, &mut output), Ok(()));
    for sample in output.samples() {
        assert_eq!(*sample, Sample::new(0, 0, 0, 0));
    }
}

#[test]
fn divergence_of_a_spreading_flow() {
    let velocity = velocity_field(4, 4, |x, y| (5 * x, 7 * y));
    let mut output = scratch(4, 4);
    assert_eq!(divergence(&velocity, &mut output), Ok(()));
    // inside: (10 + 14) / 2
    assert_eq!(output.get(1, 1), Some(Sample::new(12, 0, 0, 0)));
    assert_eq!(output.get(2, 2), Some(Sample::new(12, 0, 0, 0)));
    // at the left edge the left neighbour is the point itself: (5 + 14) / 2
    assert_eq!(output.get(0, 1), Some(Sample::new(9, 0, 0, 0)));
    // at the top edge: (10 + 7) / 2
    assert_eq!(output.get(1, 3), Some(Sample::new(8, 0, 0, 0)));
    // in a corner: (5 + 7) / 2
    assert_eq!(output.get(0, 0), Some(Sample::new(6, 0, 0, 0)));
    assert_eq!(output.get(3, 3), Some(Sample::new(6, 0, 0, 0)));
}

#[test]
fn divergence_rounds_toward_zero() {
    let gathering = velocity_field(3, 3, |x, y| (-3 * x, -2 * y * y));
    let mut output = scratch(3, 3);
    assert_eq!(divergence(&gathering, &mut output), Ok(()));
    // (-6 - 8) / 2
    assert_eq!(output.get(1, 1).unwrap().r, -7);
    // left edge, middle row: (-3 - 8) / 2 = -5.5
    assert_eq!(output.get(0, 1).unwrap().r, -5);
    let spreading = velocity_field(3, 3, |x, y| (3 * x, 2 * y * y));
    assert_eq!(divergence(&spreading, &mut output), Ok(()));
    assert_eq!(output.get(0, 1).unwrap().r, 5);
}

#[test]
fn divergence_saturates() {
    let velocity = velocity_field(3, 3, |x, y| {
        (
            if x == 0 { i32::MIN } else { i32::MAX },
            if y == 0 { i32::MIN } else { i32::MAX },
        )
    });
    let mut output = scratch(3, 3);
    assert_eq!(divergence(&velocity, &mut output), Ok(()));
    assert_eq!(output.get(1, 1).unwrap().r, i32::MAX);
}

#[test]
fn divergence_refuses_an_output_of_another_shape() {
    let velocity = velocity_field(4, 3, |x, y| (x, y));
    let mut output = scratch(3, 4);
    assert_eq!(divergence(&velocity, &mut output), Err(PassError::ShapeMismatch));
    assert!(output.samples().iter().all(|s| *s == Sample::new(9, 9, 9, 9)));
}

#[test]
fn rotation_has_constant_curl_inside() {
    let velocity = velocity_field(6, 5, |x, y| (-3 * y, 3 * x));
    let mut output = scratch(6, 5);
    assert_eq!(curl(&velocity, &mut output), Ok(()));
    for y in 1..4 {
        for x in 1..5 {
            assert_eq!(output.get(x, y), Some(Sample::new(6, 0, 0, 0)));
        }
    }
}

#[test]
fn rotation_curl_is_weaker_at_the_edges() {
    let velocity = velocity_field(6, 5, |x, y| (-3 * y, 3 * x));
    let mut output = scratch(6, 5);
    assert_eq!(curl(&velocity, &mut output), Ok(()));
    // left edge: (3 + 6) / 2 = 4.5
    assert_eq!(output.get(0, 2).unwrap().r, 4);
    // corner: (3 + 3) / 2
    assert_eq!(output.get(0, 0).unwrap().r, 3);
    assert_eq!(output.get(5, 4).unwrap().r, 3);
}

#[test]
fn rotation_the_other_way_has_negative_curl() {
    let velocity = velocity_field(4, 4, |x, y| (y, -x));
    let mut output = scratch(4, 4);
    assert_eq!(curl(&velocity, &mut output), Ok(()));
    assert_eq!(output.get(1, 1), Some(Sample::new(-2, 0, 0, 0)));
    assert_eq!(output.get(2, 2), Some(Sample::new(-2, 0, 0, 0)));
}

#[test]
fn uniform_flow_and_spreading_flow_have_no_curl() {
    let uniform = velocity_field(4, 4, |_, _| (77, -5));
    let mut output = scratch(4, 4);
    assert_eq!(curl(&uniform, &mut output), Ok(()));
    assert!(output.samples().iter().all(|s| *s == Sample::new(0, 0, 0, 0)));
    let spreading = velocity_field(4, 4, |x, y| (5 * x, 7 * y));
    assert_eq!(curl(&spreading, &mut output), Ok(()));
    assert!(output.samples().iter().all(|s| *s == Sample::new(0, 0, 0, 0)));
}

#[test]
fn curl_refuses_an_output_of_another_shape() {
    let velocity = velocity_field(4, 3, |x, y| (x, y));
    let mut output = scratch(4, 4);
    assert_eq!(curl(&velocity, &mut output), Err(PassError::ShapeMismatch));
    assert!(output.samples().iter().all(|s| *s == Sample::new(9, 9, 9, 9)));
}

#[test]
fn clearing_scales_every_channel() {
    let mut source = Field::allocate(2, 1, ChannelLayout::Scalar).unwrap();
    assert!(source.set(0, 0, Sample::new(1000, -1000, 65536, 1)));
    assert!(source.set(1, 0, Sample::new(i32::MAX, i32::MIN, 0, -1)));
    let mut output = scratch(2, 1);
    // eight tenths
    assert_eq!(clear(&source, ClearUniforms { value: 52429 }, &mut output), Ok(()));
    assert_eq!(output.get(0, 0), Some(Sample::new(800, -800, 52429, 0)));
    assert_eq!(output.get(1, 0), Some(Sample::new(1_717_993_471, -1_717_993_472, 0, 0)));
    assert_eq!(clear(&source, ClearUniforms { value: 0 }, &mut output), Ok(()));
    assert!(output.samples().iter().all(|s| *s == Sample::new(0, 0, 0, 0)));
    assert_eq!(clear(&source, ClearUniforms { value: 65536 }, &mut output), Ok(()));
    assert_eq!(output.samples(), source.samples());
    assert_eq!(clear(&source, ClearUniforms { value: 2 * 65536 }, &mut output), Ok(()));
    assert_eq!(output.get(1, 0), Some(Sample::new(i32::MAX, i32::MIN, 0, -2)));
}

#[test]
fn clearing_refuses_an_output_of_another_shape() {
    let source = Field::allocate(2, 1, ChannelLayout::Scalar).unwrap();
    let mut output = scratch(1, 2);
    assert_eq!(
        clear(&source, ClearUniforms { value: 65536 }, &mut output),
        Err(PassError::ShapeMismatch)
    );
    assert!(output.samples().iter().all(|s| *s == Sample::new(9, 9, 9, 9)));
}
