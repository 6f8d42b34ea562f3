use stft::{ComplexSample, StftError, STFT};

fn words(first: u64, count: u64) -> Vec<u64> {
    (first..first + count).collect()
}

fn zero_column(len: usize) -> Vec<ComplexSample> {
    vec![ComplexSample { re: 0, im: 0 }; len]
}

#[test]
fn invalid_sizes_are_refused() {
    assert_eq!(
        STFT::new_with_window_vec(None, 8, 0).err(),
        Some(StftError::InvalidConfiguration)
    );
    assert_eq!(
        STFT::new_with_window_vec(None, 8, 8).err(),
        Some(StftError::InvalidConfiguration)
    );
    assert_eq!(
        STFT::new_with_window_vec(None, 8, 9).err(),
        Some(StftError::InvalidConfiguration)
    );
    assert_eq!(
        STFT::new_with_window_vec_and_zero_padding(None, 8, 7, 4).err(),
        Some(StftError::InvalidConfiguration)
    );
    assert_eq!(
        STFT::new_with_window_vec_and_zero_padding(None, 0, 0, 0).err(),
        Some(StftError::InvalidConfiguration)
    );
    assert!(STFT::new_with_window_vec_and_zero_padding(None, 8, 8, 7).is_ok());
    assert!(STFT::new_with_window_vec_and_zero_padding(None, 2, 2, 1).is_ok());
}

#[test]
fn a_new_engine_is_empty() {
    let stft = STFT::new_with_window_vec_and_zero_padding(Some(words(1, 8)), 8, 32, 4).unwrap();
    assert_eq!(stft.window_size(), 8);
    assert_eq!(stft.fft_size(), 32);
    assert_eq!(stft.step_size(), 4);
    assert_eq!(stft.window(), &Some(words(1, 8)));
    assert_eq!(stft.len(), 0);
    assert!(stft.is_empty());
    assert!(!stft.contains_enough_to_compute());
    assert_eq!(stft.complex_input_output(), &zero_column(32));
    assert!(stft.window_operands().iter().all(|pair| pair.0 == 0));
}

#[test]
fn output_size_is_half_the_transform() {
    for fft_size in 8..40 {
        let stft = STFT::new_with_window_vec_and_zero_padding(None, 8, fft_size, 4).unwrap();
        assert_eq!(stft.output_size(), fft_size / 2);
    }
    let odd = STFT::new_with_window_vec(None, 9, 4).unwrap();
    assert_eq!(odd.output_size(), 4);
}

#[test]
fn appending_and_advancing_are_accounted_for() {
    let mut stft = STFT::new_with_window_vec(None, 8, 4).unwrap();
    stft.append_samples(&words(0, 3));
    assert_eq!(stft.len(), 3);
    assert!(!stft.is_empty());
    assert!(!stft.contains_enough_to_compute());
    stft.append_samples(&[]);
    assert_eq!(stft.len(), 3);
    stft.append_samples(&words(3, 4));
    assert_eq!(stft.len(), 7);
    assert!(!stft.contains_enough_to_compute());
    stft.append_samples(&words(7, 1));
    assert_eq!(stft.len(), 8);
    assert!(stft.contains_enough_to_compute());
    stft.append_samples(&words(8, 5));
    assert_eq!(stft.len(), 13);
    stft.move_to_next_column();
    assert_eq!(stft.len(), 9);
    assert!(stft.contains_enough_to_compute());
    stft.move_to_next_column();
    assert_eq!(stft.len(), 5);
    assert!(!stft.contains_enough_to_compute());
    stft.move_to_next_column();
    assert_eq!(stft.len(), 1);
}

#[test]
fn advancing_past_the_end_empties_the_buffer() {
    let mut stft = STFT::new_with_window_vec(None, 8, 4).unwrap();
    stft.append_samples(&words(0, 3));
    stft.move_to_next_column();
    assert_eq!(stft.len(), 0);
    stft.move_to_next_column();
    assert_eq!(stft.len(), 0);
    stft.append_samples(&words(10, 8));
    assert_eq!(stft.peek_window(), Ok(()));
    stft.load_transform_input();
    let re: Vec<u64> = stft.complex_input_output().iter().map(|c| c.re).collect();
    assert_eq!(re, words(10, 8));
}

#[test]
fn a_column_needs_a_full_window_and_a_fitting_output() {
    let mut stft = STFT::new_with_window_vec_and_zero_padding(None, 8, 32, 4).unwrap();
    stft.append_samples(&words(0, 7));
    assert_eq!(stft.check_column(16), Err(StftError::InsufficientSamples));
    assert_eq!(stft.check_column(15), Err(StftError::InsufficientSamples));
    assert_eq!(stft.peek_window(), Err(StftError::InsufficientSamples));
    stft.append_samples(&words(7, 1));
    assert_eq!(stft.check_column(16), Ok(()));
    assert_eq!(stft.check_column(15), Err(StftError::SizeMismatch));
    assert_eq!(stft.check_column(32), Err(StftError::SizeMismatch));
    assert_eq!(stft.peek_window(), Ok(()));
}

#[test]
fn a_refused_peek_leaves_the_staging_buffer_alone() {
    let coefficients = vec![1u64; 4];
    let mut stft = STFT::new_with_window_vec(Some(coefficients), 4, 2).unwrap();
    stft.append_samples(&[5, 6, 7, 8]);
    assert_eq!(stft.peek_window(), Ok(()));
    stft.move_to_next_column();
    assert_eq!(stft.peek_window(), Err(StftError::InsufficientSamples));
    assert_eq!(stft.window_operands(), vec![(5, 1), (6, 1), (7, 1), (8, 1)]);
    assert_eq!(stft.len(), 2);
}

#[test]
fn peeking_does_not_consume() {
    let mut stft = STFT::new_with_window_vec(Some(words(100, 4)), 4, 2).unwrap();
    stft.append_samples(&[5, 6, 7, 8, 9]);
    assert_eq!(stft.peek_window(), Ok(()));
    assert_eq!(stft.len(), 5);
    assert_eq!(
        stft.window_operands(),
        vec![(5, 100), (6, 101), (7, 102), (8, 103)]
    );
    assert_eq!(stft.peek_window(), Ok(()));
    assert_eq!(stft.len(), 5);
    assert_eq!(
        stft.window_operands(),
        vec![(5, 100), (6, 101), (7, 102), (8, 103)]
    );
}

#[test]
fn operands_reach_as_far_as_the_shorter_of_window_and_frame() {
    let mut none = STFT::new_with_window_vec(None, 4, 2).unwrap();
    none.append_samples(&[5, 6, 7, 8]);
    none.peek_window().unwrap();
    assert_eq!(none.window_operands(), vec![]);

    let mut short = STFT::new_with_window_vec(Some(vec![100, 101]), 4, 2).unwrap();
    short.append_samples(&[5, 6, 7, 8]);
    short.peek_window().unwrap();
    assert_eq!(short.window_operands(), vec![(5, 100), (6, 101)]);

    let mut long = STFT::new_with_window_vec(Some(words(100, 6)), 4, 2).unwrap();
    long.append_samples(&[5, 6, 7, 8]);
    long.peek_window().unwrap();
    assert_eq!(
        long.window_operands(),
        vec![(5, 100), (6, 101), (7, 102), (8, 103)]
    );
}

#[test]
fn products_take_the_place_of_their_samples() {
    let mut stft = STFT::new_with_window_vec_and_zero_padding(Some(vec![100, 101]), 4, 6, 2).unwrap();
    stft.append_samples(&[5, 6, 7, 8]);
    stft.peek_window().unwrap();
    assert_eq!(stft.apply_window(&[1]), Err(StftError::SizeMismatch));
    assert_eq!(stft.apply_window(&[1, 2, 3]), Err(StftError::SizeMismatch));
    assert_eq!(stft.window_operands(), vec![(5, 100), (6, 101)]);
    assert_eq!(stft.apply_window(&[50, 60]), Ok(()));
    stft.load_transform_input();
    let expected = vec![
        ComplexSample { re: 50, im: 0 },
        ComplexSample { re: 60, im: 0 },
        ComplexSample { re: 7, im: 0 },
        ComplexSample { re: 8, im: 0 },
        ComplexSample { re: 0, im: 0 },
        ComplexSample { re: 0, im: 0 },
    ];
    assert_eq!(stft.complex_input_output(), &expected);
}

#[test]
fn no_window_means_no_products() {
    let mut stft = STFT::new_with_window_vec(None, 4, 2).unwrap();
    stft.append_samples(&[5, 6, 7, 8]);
    stft.peek_window().unwrap();
    assert_eq!(stft.apply_window(&[1]), Err(StftError::SizeMismatch));
    assert_eq!(stft.apply_window(&[]), Ok(()));
    stft.load_transform_input();
    let re: Vec<u64> = stft.complex_input_output().iter().map(|c| c.re).collect();
    assert_eq!(re, vec![5, 6, 7, 8]);
}

#[test]
fn the_transform_input_is_zero_padded_afresh() {
    let mut stft = STFT::new_with_window_vec_and_zero_padding(None, 4, 8, 2).unwrap();
    stft.append_samples(&[5, 6, 7, 8]);
    let garbage = vec![ComplexSample { re: 77, im: 99 }; 8];
    assert_eq!(stft.store_transform_output(&garbage), Ok(()));
    assert_eq!(stft.complex_input_output(), &garbage);
    stft.peek_window().unwrap();
    stft.load_transform_input();
    let buffer = stft.complex_input_output();
    assert_eq!(buffer.len(), 8);
    for (i, value) in buffer.iter().enumerate() {
        assert_eq!(value.im, 0);
        assert_eq!(value.re, if i < 4 { 5 + i as u64 } else { 0 });
    }
}

#[test]
fn the_spectrum_must_have_the_length_of_the_transform() {
    let mut stft = STFT::new_with_window_vec_and_zero_padding(None, 4, 8, 2).unwrap();
    let short = vec![ComplexSample { re: 1, im: 2 }; 7];
    let long = vec![ComplexSample { re: 1, im: 2 }; 9];
    assert_eq!(
        stft.store_transform_output(&short),
        Err(StftError::SizeMismatch)
    );
    assert_eq!(
        stft.store_transform_output(&long),
        Err(StftError::SizeMismatch)
    );
    assert_eq!(stft.complex_input_output(), &zero_column(8));
}

#[test]
fn the_column_is_the_lower_half_of_the_spectrum() {
    let mut stft = STFT::new_with_window_vec_and_zero_padding(None, 4, 9, 2).unwrap();
    let spectrum: Vec<ComplexSample> = (0..9u64)
        .map(|i| ComplexSample {
            re: 10 + i,
            im: 20 + i,
        })
        .collect();
    stft.store_transform_output(&spectrum).unwrap();

    let mut short = zero_column(3);
    assert_eq!(stft.copy_column(&mut short), Err(StftError::SizeMismatch));
    assert_eq!(short, zero_column(3));
    let mut long = zero_column(5);
    assert_eq!(stft.copy_column(&mut long), Err(StftError::SizeMismatch));
    assert_eq!(long, zero_column(5));

    let mut column = zero_column(4);
    assert_eq!(stft.copy_column(&mut column), Ok(()));
    assert_eq!(column, spectrum[..4].to_vec());
}

#[test]
fn consecutive_windows_overlap() {
    let mut stft = STFT::new_with_window_vec(Some(vec![1; 8]), 8, 3).unwrap();
    stft.append_samples(&words(0, 20));
    stft.peek_window().unwrap();
    let first: Vec<u64> = stft.window_operands().iter().map(|pair| pair.0).collect();
    assert_eq!(first, words(0, 8));
    stft.move_to_next_column();
    stft.peek_window().unwrap();
    let second: Vec<u64> = stft.window_operands().iter().map(|pair| pair.0).collect();
    assert_eq!(second, words(3, 8));
    assert_eq!(first[3..], second[..5]);
}

#[test]
fn samples_keep_their_order_through_many_rounds() {
    let mut stft = STFT::new_with_window_vec(Some(vec![1; 8]), 8, 4).unwrap();
    stft.append_samples(&words(1, 7));
    stft.move_to_next_column();
    stft.append_samples(&words(8, 3));
    stft.append_samples(&words(11, 2));
    assert_eq!(stft.len(), 8);
    stft.peek_window().unwrap();
    let frame: Vec<u64> = stft.window_operands().iter().map(|pair| pair.0).collect();
    assert_eq!(frame, words(5, 8));

    let mut next: u64 = 13;
    let mut front: u64 = 5;
    for round in 0..200u64 {
        let count = 1 + (round * 7) % 23;
        stft.append_samples(&words(next, count));
        next += count;
        while stft.contains_enough_to_compute() {
            stft.peek_window().unwrap();
            let frame: Vec<u64> = stft.window_operands().iter().map(|pair| pair.0).collect();
            assert_eq!(frame, words(front, 8));
            stft.move_to_next_column();
            front += 4;
        }
        assert_eq!(stft.len() as u64, next - front);
    }
}

#[test]
fn computing_a_column_twice_stages_the_same_input() {
    let mut stft = STFT::new_with_window_vec_and_zero_padding(Some(words(100, 4)), 4, 8, 2).unwrap();
    stft.append_samples(&[5, 6, 7, 8, 9]);
    let spectrum: Vec<ComplexSample> = (0..8u64)
        .map(|i| ComplexSample { re: i, im: 2 * i })
        .collect();

    let mut inputs = Vec::new();
    let mut columns = Vec::new();
    for _ in 0..2 {
        stft.check_column(4).unwrap();
        stft.peek_window().unwrap();
        let products: Vec<u64> = stft
            .window_operands()
            .iter()
            .map(|pair| pair.0 * pair.1)
            .collect();
        stft.apply_window(&products).unwrap();
        stft.load_transform_input();
        inputs.push(stft.complex_input_output().clone());
        stft.store_transform_output(&spectrum).unwrap();
        let mut column = zero_column(4);
        stft.copy_column(&mut column).unwrap();
        columns.push(column);
    }
    assert_eq!(inputs[0], inputs[1]);
    assert_eq!(columns[0], columns[1]);
    assert_eq!(stft.len(), 5);
    let re: Vec<u64> = inputs[0].iter().map(|c| c.re).collect();
    assert_eq!(re, vec![500, 606, 714, 824, 0, 0, 0, 0]);
}
