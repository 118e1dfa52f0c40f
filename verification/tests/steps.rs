use kludged::keyboards::steps::{same_step_indexes, Indexes, Steps};

#[test]
fn test_same_step_indexes() {
    let indexes: [Indexes; 5] = same_step_indexes(1, 1);
    for (i, index) in indexes.into_iter().enumerate() {
        assert_eq!(i + 1, index.index);
    }

    let indexes: [Indexes; 20] = same_step_indexes(1, 100);
    for (i, index) in indexes.into_iter().enumerate() {
        assert_eq!(i + 100, index.index);
    }

    let indexes: [Indexes; 50] = same_step_indexes(1, 420);
    for (i, index) in indexes.into_iter().enumerate() {
        assert_eq!(i + 420, index.index);
    }
}

#[test]
fn same_step_indexes_keep_the_step() {
    let indexes: [Indexes; 5] = same_step_indexes(1, 1);
    let offsets: Vec<usize> = indexes.iter().map(|index| index.index).collect();
    assert_eq!(offsets, vec![1, 2, 3, 4, 5]);
    assert!(indexes.iter().all(|index| index.step == 1));
}

#[test]
fn same_step_indexes_of_no_length() {
    let indexes: [Indexes; 0] = same_step_indexes(3, 9);
    assert_eq!(indexes.len(), 0);
}

#[test]
fn indexes_new_keeps_both_parts() {
    let index = Indexes::new(4, 17);
    assert_eq!(index.step, 4);
    assert_eq!(index.index, 17);
}

#[test]
fn new_seeds_every_step() {
    let steps: Steps<12> = Steps::new(3, 4, &[0xAA, 0xBB]);
    assert_eq!(steps.step_count, 3);
    assert_eq!(steps.step_len, 4);
    assert_eq!(
        steps.data,
        [0xAA, 0xBB, 0, 0, 0xAA, 0xBB, 0, 0, 0xAA, 0xBB, 0, 0]
    );
}

#[test]
fn new_without_starter_is_all_zero() {
    let steps: Steps<6> = Steps::new(2, 3, &[]);
    assert_eq!(steps.data, [0; 6]);
}

#[test]
fn new_with_a_starter_as_long_as_a_step() {
    let steps: Steps<4> = Steps::new(2, 2, &[7, 9]);
    assert_eq!(steps.data, [7, 9, 7, 9]);
}

#[test]
fn new_of_no_steps_is_empty() {
    let steps: Steps<0> = Steps::new(0, 5, &[1, 2]);
    assert_eq!(steps.steps().len(), 0);
    let steps: Steps<0> = Steps::new(4, 0, &[]);
    assert_eq!(steps.steps().len(), 4);
    assert!(steps.steps().iter().all(|step| step.is_empty()));
}

#[test]
fn steps_cover_the_buffer() {
    for (step_count, step_len) in [(1usize, 12usize), (2, 6), (3, 4), (4, 3), (6, 2), (12, 1)] {
        let mut steps: Steps<12> = Steps::new(step_count, step_len, &[]);
        for (place, byte) in steps.data.iter_mut().enumerate() {
            *byte = place as u8;
        }
        let parts = steps.steps();
        assert_eq!(parts.len(), step_count);
        assert!(parts.iter().all(|part| part.len() == step_len));
        let joined: Vec<u8> = parts.concat();
        assert_eq!(joined, steps.data.to_vec());
    }
}

#[test]
fn steps_can_be_taken_again() {
    let steps: Steps<6> = Steps::new(3, 2, &[5]);
    let first: Vec<Vec<u8>> = steps.steps().iter().map(|step| step.to_vec()).collect();
    let second: Vec<Vec<u8>> = steps.steps().iter().map(|step| step.to_vec()).collect();
    assert_eq!(first, second);
    assert_eq!(first, vec![vec![5, 0], vec![5, 0], vec![5, 0]]);
}

#[test]
fn nth_step_is_the_step() {
    let mut steps: Steps<6> = Steps::new(2, 3, &[1]);
    steps.data = [1, 2, 3, 4, 5, 6];
    assert_eq!(steps.nth_step(0), &[1, 2, 3]);
    assert_eq!(steps.nth_step(1), &[4, 5, 6]);
}

#[test]
fn nth_step_mut_writes_into_its_step_only() {
    let mut steps: Steps<6> = Steps::new(2, 3, &[1]);
    {
        let step = steps.nth_step_mut(1);
        assert_eq!(step, &[1, 0, 0]);
        step[2] = 9;
    }
    assert_eq!(steps.data, [1, 0, 0, 1, 0, 9]);
    assert_eq!(steps.step_count, 2);
    assert_eq!(steps.step_len, 3);
}

#[test]
fn steps_mut_writes_into_every_step() {
    let mut steps: Steps<6> = Steps::new(3, 2, &[]);
    {
        let parts = steps.steps_mut();
        assert_eq!(parts.len(), 3);
        for (number, part) in parts.into_iter().enumerate() {
            assert_eq!(part.len(), 2);
            part[1] = number as u8 + 1;
        }
    }
    assert_eq!(steps.data, [0, 1, 0, 2, 0, 3]);
}

#[test]
fn writing_and_reading_meet_at_the_same_byte() {
    let mut steps: Steps<6> = Steps::new(2, 3, &[]);
    steps[Indexes::new(1, 2)] = 0x42;
    assert_eq!(steps[Indexes::new(1, 2)], 0x42);
    assert_eq!(steps.data, [0, 0, 0, 0, 0, 0x42]);
    steps[Indexes::new(0, 0)] = 7;
    assert_eq!(steps[Indexes::new(0, 0)], 7);
    assert_eq!(steps[Indexes::new(1, 0)], 0);
}

#[test]
fn deref_is_the_whole_buffer() {
    let mut steps: Steps<4> = Steps::new(2, 2, &[3]);
    assert_eq!(steps.len(), 4);
    assert_eq!(&*steps, &[3, 0, 3, 0]);
    assert_eq!(steps.iter().map(|byte| *byte as usize).sum::<usize>(), 6);
    steps.copy_from_slice(&[1, 2, 3, 4]);
    assert_eq!(steps.data, [1, 2, 3, 4]);
}

#[test]
fn is_wf_tells_whether_the_steps_fill_the_buffer() {
    let mut steps: Steps<6> = Steps::new(2, 3, &[]);
    assert!(steps.is_wf());
    steps.step_len = 4;
    assert!(!steps.is_wf());
    steps.step_len = 2;
    assert!(steps.is_wf());
    steps.step_count = 3;
    assert!(steps.is_wf());
    steps.step_count = 4;
    assert!(!steps.is_wf());
    steps.step_count = usize::MAX;
    assert!(!steps.is_wf());
}

#[test]
fn a_trailing_part_is_no_step() {
    let steps: Steps<7> = Steps::new(2, 3, &[1]);
    assert_eq!(steps.data, [1, 0, 0, 1, 0, 0, 0]);
    let parts: Vec<Vec<u8>> = steps.steps().iter().map(|step| step.to_vec()).collect();
    assert_eq!(parts, vec![vec![1, 0, 0], vec![1, 0, 0]]);
    assert_eq!(steps.nth_step(1), &[1, 0, 0]);
}

#[test]
fn steps_are_as_many_as_the_step_count() {
    let mut steps: Steps<12> = Steps::new(2, 3, &[7]);
    assert_eq!(steps.data, [7, 0, 0, 7, 0, 0, 0, 0, 0, 0, 0, 0]);
    assert_eq!(steps.steps().len(), 2);
    assert_eq!(steps.steps_mut().len(), 2);
}

#[test]
fn writing_steps_leaves_the_tail() {
    let mut steps: Steps<8> = Steps::new(2, 3, &[]);
    steps.data[6] = 0xEE;
    steps.data[7] = 0xFF;
    {
        let parts = steps.steps_mut();
        assert_eq!(parts.len(), 2);
        for part in parts {
            part.copy_from_slice(&[1, 2, 3]);
        }
    }
    assert_eq!(steps.data, [1, 2, 3, 1, 2, 3, 0xEE, 0xFF]);
    steps.nth_step_mut(0)[0] = 9;
    steps[Indexes::new(1, 2)] = 8;
    assert_eq!(steps.data, [9, 2, 3, 1, 2, 8, 0xEE, 0xFF]);
}
