use cpaldevice::{
    capacity_fits, copy_input, take_front, write_data_from_device, write_data_to_device,
    FeedAction, OutputFeeder,
};
use std::collections::VecDeque;

#[test]
fn output_takes_from_the_front() {
    let mut queue: VecDeque<i16> = VecDeque::from(vec![1, 2, 3, 4, 5]);
    let mut output: Vec<i16> = vec![0; 3];
    write_data_to_device(&mut output, &mut queue);
    assert_eq!(output, vec![1, 2, 3]);
    assert_eq!(queue, VecDeque::from(vec![4, 5]));
}

#[test]
fn output_can_take_all_or_nothing() {
    let mut queue: VecDeque<f32> = VecDeque::from(vec![0.5, -0.5]);
    let mut nothing: Vec<f32> = Vec::new();
    write_data_to_device(&mut nothing, &mut queue);
    assert_eq!(queue.len(), 2);
    let mut all: Vec<f32> = vec![0.0; 2];
    write_data_to_device(&mut all, &mut queue);
    assert_eq!(all, vec![0.5, -0.5]);
    assert!(queue.is_empty());
}

#[test]
fn input_goes_to_the_back() {
    let mut queue: VecDeque<i16> = VecDeque::from(vec![7]);
    write_data_from_device(&[8, 9], &mut queue);
    write_data_from_device(&[], &mut queue);
    assert_eq!(queue, VecDeque::from(vec![7, 8, 9]));
}

#[test]
fn queue_gives_back_what_it_took() {
    let data: Vec<i16> = vec![3, 1, 4, 1, 5, 9, 2, 6];
    let mut queue: VecDeque<i16> = VecDeque::new();
    write_data_from_device(&data, &mut queue);
    let mut output: Vec<i16> = vec![0; data.len()];
    write_data_to_device(&mut output, &mut queue);
    assert_eq!(output, data);
    assert!(queue.is_empty());
}

#[test]
fn requests_can_be_split() {
    let data: Vec<i16> = (0..10).collect();
    let mut queue: VecDeque<i16> = VecDeque::new();
    write_data_from_device(&data, &mut queue);
    let mut first: Vec<i16> = vec![0; 4];
    let mut second: Vec<i16> = vec![0; 6];
    write_data_to_device(&mut first, &mut queue);
    write_data_to_device(&mut second, &mut queue);
    first.extend(second);
    assert_eq!(first, data);
}

#[test]
fn an_input_buffer_is_copied() {
    assert_eq!(copy_input(&[1i16, -2, 3]), vec![1, -2, 3]);
    assert_eq!(copy_input::<f32>(&[]), Vec::<f32>::new());
}

#[test]
fn samples_are_taken_from_the_front() {
    let mut queue: VecDeque<i16> = VecDeque::from(vec![1, 2, 3, 4, 5]);
    assert_eq!(take_front(&mut queue, 4), VecDeque::from(vec![1, 2, 3, 4]));
    assert_eq!(queue, VecDeque::from(vec![5]));
    assert_eq!(take_front(&mut queue, 0), VecDeque::new());
    assert_eq!(queue, VecDeque::from(vec![5]));
}

#[test]
fn capacities_that_cannot_be_had_are_found() {
    assert!(capacity_fits::<i16>(4, 1024, 2));
    assert!(capacity_fits::<i16>(4, 0, 0));
    assert!(!capacity_fits::<i16>(4, usize::MAX, 0));
    assert!(!capacity_fits::<i16>(4, usize::MAX / 4, 2));
    assert!(!capacity_fits::<f32>(1, usize::MAX / 4, 1));
    assert!(!capacity_fits::<f32>(1, usize::MAX / 2, 1));
    assert!(capacity_fits::<i16>(1, usize::MAX / 4, 1));
}

#[test]
fn a_short_queue_asks_for_a_chunk() {
    let mut feeder: OutputFeeder<i16> = OutputFeeder::new(4, 1);
    let mut output: Vec<i16> = vec![-1; 3];
    assert_eq!(feeder.step(&mut output), FeedAction::NeedChunk);
    assert_eq!(output, vec![-1; 3]);
    feeder.accept(&mut VecDeque::from(vec![10, 11]), 0);
    assert_eq!(feeder.step(&mut output), FeedAction::NeedChunk);
    let mut chunk: VecDeque<i16> = VecDeque::from(vec![12, 13]);
    feeder.accept(&mut chunk, 0);
    assert!(chunk.is_empty());
    assert_eq!(feeder.step(&mut output), FeedAction::Filled { buffer_fill: 1, clipped: None });
    assert_eq!(output, vec![10, 11, 12]);
}

#[test]
fn clipped_samples_are_given_again_until_the_next_chunk() {
    let mut feeder: OutputFeeder<i16> = OutputFeeder::new(4, 1);
    let mut output: Vec<i16> = vec![0; 2];
    feeder.accept(&mut VecDeque::from(vec![1, 2, 3, 4]), 5);
    let first = feeder.step(&mut output);
    assert_eq!(first, FeedAction::Filled { buffer_fill: 2, clipped: Some(5) });
    let second = feeder.step(&mut output);
    assert_eq!(second, FeedAction::Filled { buffer_fill: 0, clipped: Some(5) });
    feeder.accept(&mut VecDeque::from(vec![5, 6]), 0);
    let third = feeder.step(&mut output);
    assert_eq!(third, FeedAction::Filled { buffer_fill: 0, clipped: None });
    assert_eq!(output, vec![5, 6]);
}

#[test]
fn only_the_last_chunk_of_a_request_counts_as_clipped() {
    let mut feeder: OutputFeeder<i16> = OutputFeeder::new(4, 1);
    let mut output: Vec<i16> = vec![0; 4];
    feeder.accept(&mut VecDeque::from(vec![1, 2]), 7);
    assert_eq!(feeder.step(&mut output), FeedAction::NeedChunk);
    feeder.accept(&mut VecDeque::from(vec![3, 4]), 1);
    let res = feeder.step(&mut output);
    assert_eq!(res, FeedAction::Filled { buffer_fill: 0, clipped: Some(1) });
}

#[test]
fn feeder_keeps_every_sample() {
    let mut feeder: OutputFeeder<i16> = OutputFeeder::new(8, 2);
    let mut played: Vec<i16> = Vec::new();
    let mut next: i16 = 0;
    for wanted in [3usize, 5, 1, 0, 9, 2] {
        let mut output: Vec<i16> = vec![0; wanted];
        while feeder.step(&mut output) == FeedAction::NeedChunk {
            feeder.accept(&mut (next..next + 4).collect(), 0);
            next += 4;
        }
        played.extend(output);
    }
    assert_eq!(played, (0..20).collect::<Vec<i16>>());
}
