use fluid_sim::field::{ChannelLayout, Field, Sample, MAX_DIM};

fn numbered(width: usize, height: usize) -> Field {
    let mut samples = Vec::new();
    for i in 0..(width * height) as i32 {
        samples.push(Sample::new(i, 10 * i, -i, 7));
    }
    Field::from_samples(width, height, ChannelLayout::Color, samples).unwrap()
}

#[test]
fn allocation_gives_zeroes() {
    let field = Field::allocate(5, 3, ChannelLayout::Velocity).unwrap();
    assert_eq!(field.width(), 5);
    assert_eq!(field.height(), 3);
    assert_eq!(field.len(), 15);
    assert_eq!(field.layout(), ChannelLayout::Velocity);
    assert_eq!(field.samples().len(), 15);
    for sample in field.samples() {
        assert_eq!(*sample, Sample::new(0, 0, 0, 0));
    }
}

#[test]
fn allocation_refuses_empty_and_oversized_grids() {
    assert!(Field::allocate(0, 3, ChannelLayout::Scalar).is_none());
    assert!(Field::allocate(3, 0, ChannelLayout::Scalar).is_none());
    assert!(Field::allocate(0, 0, ChannelLayout::Scalar).is_none());
    assert!(Field::allocate(MAX_DIM + 1, 1, ChannelLayout::Scalar).is_none());
    assert!(Field::allocate(1, MAX_DIM + 1, ChannelLayout::Scalar).is_none());
    assert!(Field::allocate(usize::MAX, usize::MAX, ChannelLayout::Scalar).is_none());
    assert!(Field::allocate(MAX_DIM, 1, ChannelLayout::Scalar).is_some());
    assert!(Field::allocate(1, MAX_DIM, ChannelLayout::Scalar).is_some());
    assert!(Field::allocate(1, 1, ChannelLayout::Scalar).is_some());
}

#[test]
fn building_from_samples_checks_the_count() {
    let three = vec![Sample::new(1, 2, 3, 4); 3];
    assert!(Field::from_samples(3, 1, ChannelLayout::Color, three.clone()).is_some());
    assert!(Field::from_samples(1, 3, ChannelLayout::Color, three.clone()).is_some());
    assert!(Field::from_samples(2, 2, ChannelLayout::Color, three.clone()).is_none());
    assert!(Field::from_samples(2, 1, ChannelLayout::Color, three.clone()).is_none());
    assert!(Field::from_samples(0, 3, ChannelLayout::Color, three.clone()).is_none());
    assert!(Field::from_samples(0, 0, ChannelLayout::Color, Vec::new()).is_none());
    assert!(Field::from_samples(MAX_DIM + 1, 1, ChannelLayout::Color, three).is_none());
}

#[test]
fn samples_are_stored_row_major() {
    let field = numbered(4, 3);
    assert_eq!(field.get(0, 0), Some(Sample::new(0, 0, 0, 7)));
    assert_eq!(field.get(3, 0), Some(Sample::new(3, 30, -3, 7)));
    assert_eq!(field.get(0, 1), Some(Sample::new(4, 40, -4, 7)));
    assert_eq!(field.get(2, 2), Some(Sample::new(10, 100, -10, 7)));
    assert_eq!(field.read_row_major(10), Some(Sample::new(10, 100, -10, 7)));
    assert_eq!(field.read_row_major(11), Some(Sample::new(11, 110, -11, 7)));
}

#[test]
fn reads_outside_the_grid_give_nothing() {
    let field = numbered(4, 3);
    assert_eq!(field.get(4, 0), None);
    assert_eq!(field.get(0, 3), None);
    assert_eq!(field.get(4, 3), None);
    assert_eq!(field.get(usize::MAX, 0), None);
    assert_eq!(field.get(0, usize::MAX), None);
    assert_eq!(field.read_row_major(12), None);
    assert_eq!(field.read_row_major(usize::MAX), None);
}

#[test]
fn clamped_reads_take_the_nearest_edge() {
    let field = numbered(4, 3);
    assert_eq!(field.sample_clamped(1, 1).r, 5);
    assert_eq!(field.sample_clamped(-1, 1).r, 4);
    assert_eq!(field.sample_clamped(4, 1).r, 7);
    assert_eq!(field.sample_clamped(1, -1).r, 1);
    assert_eq!(field.sample_clamped(1, 3).r, 9);
    assert_eq!(field.sample_clamped(-5, -5).r, 0);
    assert_eq!(field.sample_clamped(9, 9).r, 11);
    assert_eq!(field.sample_clamped(i64::MIN, i64::MAX).r, 8);
    assert_eq!(field.sample_clamped(i64::MAX, i64::MIN).r, 3);
}

#[test]
fn writing_by_index_is_bounds_checked() {
    let mut field = numbered(4, 3);
    let before = field.samples().clone();
    assert!(!field.write_row_major(12, Sample::new(9, 9, 9, 9)));
    assert!(!field.write_row_major(usize::MAX, Sample::new(9, 9, 9, 9)));
    assert_eq!(field.samples(), &before);
    assert!(field.write_row_major(11, Sample::new(9, 8, 7, 6)));
    assert_eq!(field.get(3, 2), Some(Sample::new(9, 8, 7, 6)));
    for i in 0..11 {
        assert_eq!(field.samples()[i], before[i]);
    }
}

#[test]
fn writing_by_point_is_bounds_checked() {
    let mut field = numbered(4, 3);
    let before = field.samples().clone();
    assert!(!field.set(4, 0, Sample::new(9, 9, 9, 9)));
    assert!(!field.set(0, 3, Sample::new(9, 9, 9, 9)));
    // a column past the end of a row must not reach into the next row
    assert!(!field.set(5, 1, Sample::new(9, 9, 9, 9)));
    assert_eq!(field.samples(), &before);
    assert!(field.set(1, 2, Sample::new(9, 8, 7, 6)));
    assert_eq!(field.read_row_major(9), Some(Sample::new(9, 8, 7, 6)));
    for i in 0..12 {
        if i != 9 {
            assert_eq!(field.samples()[i], before[i]);
        }
    }
}

#[test]
fn filling_overwrites_every_sample() {
    let mut field = numbered(4, 3);
    field.fill(Sample::new(1, -2, 3, -4));
    assert_eq!(field.len(), 12);
    assert_eq!(field.width(), 4);
    assert_eq!(field.height(), 3);
    for sample in field.samples() {
        assert_eq!(*sample, Sample::new(1, -2, 3, -4));
    }
}

#[test]
fn samples_decode_and_encode_bytes() {
    let sample = Sample::from_unorm8(0, 1, 128, 255);
    assert_eq!(sample, Sample::new(0, 257, 32896, 65536));
    assert_eq!(sample.to_unorm8(), [0, 1, 128, 255]);
    assert_eq!(Sample::new(-5, 70000, 32768, 65535).to_unorm8(), [0, 255, 128, 255]);
}

#[test]
fn a_field_becomes_an_rgba_image() {
    let samples = vec![
        Sample::from_unorm8(1, 2, 3, 4),
        Sample::from_unorm8(5, 6, 7, 8),
        Sample::new(-1, 65536, 999_999, 0),
    ];
    let field = Field::from_samples(3, 1, ChannelLayout::Color, samples).unwrap();
    assert_eq!(field.to_rgba8(), vec![1, 2, 3, 4, 5, 6, 7, 8, 0, 255, 255, 0]);
}
