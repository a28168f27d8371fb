use deepfry::{deepfry, deepfry_all, ChangeMode, DeepfryAlgorithm, Raster};

#[test]
fn xor_on_a_single_pixel() {
    let mut image = Raster::from_samples(1, 1, vec![10, 20, 30]).unwrap();
    let done = deepfry(&mut image, DeepfryAlgorithm::BitChange(ChangeMode::Xor, 1, 1, 1));
    assert!(done.is_ok());
    assert_eq!(image.width(), 1);
    assert_eq!(image.height(), 1);
    assert_eq!(image.into_samples(), vec![11, 21, 31]);
}

#[test]
fn empty_image_stays_empty_under_every_mode() {
    for mode in ChangeMode::value_variants() {
        let mut image = Raster::from_samples(0, 0, Vec::new()).unwrap();
        assert!(deepfry(&mut image, DeepfryAlgorithm::BitChange(mode, 1, 2, 3)).is_ok());
        assert_eq!(image.width(), 0);
        assert_eq!(image.height(), 0);
        assert_eq!(image.into_samples(), Vec::<u8>::new());
    }
}

#[test]
fn image_without_rows_or_columns_is_left_alone() {
    let mut image = Raster::from_samples(0, 5, Vec::new()).unwrap();
    assert!(deepfry(&mut image, DeepfryAlgorithm::BitChange(ChangeMode::Not, 0, 0, 0)).is_ok());
    assert_eq!((image.width(), image.height()), (0, 5));
    let mut image = Raster::from_samples(4, 0, Vec::new()).unwrap();
    assert!(deepfry(&mut image, DeepfryAlgorithm::BitChange(ChangeMode::Not, 0, 0, 0)).is_ok());
    assert_eq!((image.width(), image.height()), (4, 0));
    assert_eq!(image.into_samples(), Vec::<u8>::new());
}

#[test]
fn each_channel_takes_its_own_parameter() {
    let mut image = Raster::from_samples(2, 1, vec![1, 1, 1, 8, 8, 8]).unwrap();
    deepfry(&mut image, DeepfryAlgorithm::BitChange(ChangeMode::ShiftLeft, 1, 2, 3)).unwrap();
    assert_eq!(image.into_samples(), vec![2, 4, 8, 16, 32, 64]);
}

#[test]
fn every_pixel_of_every_row_is_changed() {
    let samples: Vec<u8> = (0..3 * 3 * 2).map(|i| i as u8).collect();
    let mut image = Raster::from_samples(3, 2, samples.clone()).unwrap();
    deepfry(&mut image, DeepfryAlgorithm::BitChange(ChangeMode::Not, 0, 0, 0)).unwrap();
    assert_eq!((image.width(), image.height()), (3, 2));
    let expected: Vec<u8> = samples.iter().map(|s| !s).collect();
    assert_eq!(image.into_samples(), expected);
}

#[test]
fn pixels_are_independent_of_their_place() {
    let algo = DeepfryAlgorithm::BitChange(ChangeMode::Multiply, 3, 5, 7);
    let mut wide = Raster::from_samples(4, 1, vec![9, 8, 7, 6, 5, 4, 3, 2, 1, 0, 255, 254]).unwrap();
    let mut tall = Raster::from_samples(1, 4, vec![9, 8, 7, 6, 5, 4, 3, 2, 1, 0, 255, 254]).unwrap();
    deepfry(&mut wide, algo).unwrap();
    deepfry(&mut tall, algo).unwrap();
    let expected = vec![27, 40, 49, 18, 25, 28, 9, 10, 7, 0, 251, 242];
    assert_eq!(wide.into_samples(), expected);
    assert_eq!(tall.into_samples(), expected);
}

#[test]
fn apply_changes_one_pixel() {
    let algo = DeepfryAlgorithm::BitChange(ChangeMode::Xor, 1, 2, 4);
    assert_eq!(algo.apply((10, 20, 30)), (11, 22, 26));
    let algo = DeepfryAlgorithm::BitChange(ChangeMode::Sqrt, 1, 2, 4);
    assert_eq!(algo.apply((200, 0, 255)), (14, 0, 15));
}

#[test]
fn random_add_uses_one_byte_per_seed_across_pixels() {
    let mut image = Raster::from_samples(2, 2, vec![0; 12]).unwrap();
    deepfry(&mut image, DeepfryAlgorithm::BitChange(ChangeMode::RandomAdd, 0, 1, 42)).unwrap();
    assert_eq!(image.into_samples(), vec![201, 74, 66, 201, 74, 66, 201, 74, 66, 201, 74, 66]);
}

#[test]
fn passes_run_in_listed_order() {
    let first = DeepfryAlgorithm::BitChange(ChangeMode::ShiftLeft, 1, 1, 1);
    let second = DeepfryAlgorithm::BitChange(ChangeMode::Or, 1, 1, 1);
    let mut image = Raster::from_samples(1, 1, vec![1, 2, 3]).unwrap();
    deepfry_all(&mut image, &vec![first, second]);
    assert_eq!(image.into_samples(), vec![3, 5, 7]);
    let mut image = Raster::from_samples(1, 1, vec![1, 2, 3]).unwrap();
    deepfry_all(&mut image, &vec![second, first]);
    assert_eq!(image.into_samples(), vec![2, 6, 6]);
}

#[test]
fn a_run_of_passes_equals_the_passes_one_at_a_time() {
    let passes = vec![
        DeepfryAlgorithm::BitChange(ChangeMode::Multiply, 3, 5, 7),
        DeepfryAlgorithm::BitChange(ChangeMode::Xor, 255, 0, 15),
        DeepfryAlgorithm::BitChange(ChangeMode::ShiftRight, 1, 2, 3),
        DeepfryAlgorithm::BitChange(ChangeMode::RandomAdd, 7, 8, 9),
    ];
    let samples: Vec<u8> = (0..5 * 4 * 3).map(|i| (i * 7 % 256) as u8).collect();
    let mut together = Raster::from_samples(5, 4, samples.clone()).unwrap();
    deepfry_all(&mut together, &passes);
    let mut stepwise = Raster::from_samples(5, 4, samples).unwrap();
    for pass in &passes {
        deepfry(&mut stepwise, *pass).unwrap();
    }
    assert_eq!(together.into_samples(), stepwise.into_samples());
}

#[test]
fn no_pass_leaves_the_image_as_it_was() {
    let mut image = Raster::from_samples(1, 2, vec![1, 2, 3, 4, 5, 6]).unwrap();
    deepfry_all(&mut image, &Vec::new());
    assert_eq!(image.into_samples(), vec![1, 2, 3, 4, 5, 6]);
}

#[test]
fn from_samples_needs_enough_samples() {
    assert!(Raster::from_samples(2, 2, vec![0; 11]).is_none());
    assert!(Raster::from_samples(2, 2, vec![0; 12]).is_some());
    assert!(Raster::from_samples(1, 1, Vec::new()).is_none());
    assert!(Raster::from_samples(4294967295, 4294967295, vec![0; 3]).is_none());
}

#[test]
fn samples_beyond_the_pixels_are_not_touched() {
    let mut image = Raster::from_samples(1, 1, vec![1, 2, 3, 4, 5]).unwrap();
    deepfry(&mut image, DeepfryAlgorithm::BitChange(ChangeMode::Not, 0, 0, 0)).unwrap();
    let samples = image.into_samples();
    assert_eq!(samples[..3], [254, 253, 252]);
    assert_eq!(samples.len(), 5);
}
