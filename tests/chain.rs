use pendulum::{get_color, remove_clicked, steps_for_frame, Rgb, GRAY_LEVEL, STEPS_PER_FRAME};

#[test]
fn remove_one_arm_keeps_order() {
    let mut arms = vec!['a', 'b', 'c', 'd'];
    remove_clicked(&mut arms, &vec![false, true, false, false]);
    assert_eq!(arms, vec!['a', 'c', 'd']);
}

#[test]
fn remove_first_and_last_arm() {
    let mut arms = vec![1u32, 2, 3];
    remove_clicked(&mut arms, &vec![true, false, false]);
    assert_eq!(arms, vec![2, 3]);
    remove_clicked(&mut arms, &vec![false, true]);
    assert_eq!(arms, vec![2]);
}

#[test]
fn remove_several_arms() {
    let mut arms = vec![10u8, 20, 30, 40, 50];
    remove_clicked(&mut arms, &vec![true, false, true, true, false]);
    assert_eq!(arms, vec![20, 50]);
}

#[test]
fn remove_nothing_clicked() {
    let mut arms = vec![5i64, 6, 7];
    remove_clicked(&mut arms, &vec![false, false, false]);
    assert_eq!(arms, vec![5, 6, 7]);
}

#[test]
fn remove_all_clicked() {
    let mut arms = vec![5i64, 6, 7];
    remove_clicked(&mut arms, &vec![true, true, true]);
    assert!(arms.is_empty());
}

#[test]
fn remove_from_empty_chain() {
    let mut arms: Vec<u16> = Vec::new();
    remove_clicked(&mut arms, &Vec::new());
    assert!(arms.is_empty());
}

#[test]
fn remove_arms_of_floats() {
    let mut arms = vec![(50.0f32, 25.0f32), (40.0, 10.0), (30.0, 5.0)];
    remove_clicked(&mut arms, &vec![false, false, true]);
    assert_eq!(arms, vec![(50.0, 25.0), (40.0, 10.0)]);
}

#[test]
fn frame_runs_all_sub_steps() {
    assert_eq!(steps_for_frame(false), 100);
    assert_eq!(STEPS_PER_FRAME, 100);
}

#[test]
fn paused_frame_runs_no_step() {
    assert_eq!(steps_for_frame(true), 0);
}

#[test]
fn first_arm_color() {
    assert_eq!(get_color(0), Rgb { r: 0x1f, g: 0x77, b: 0xb4 });
}

#[test]
fn second_arm_color() {
    assert_eq!(get_color(1), Rgb { r: 0xff, g: 0x7f, b: 0x0e });
}

#[test]
fn last_palette_color() {
    assert_eq!(get_color(9), Rgb { r: 0x17, g: 0xbe, b: 0xcf });
}

#[test]
fn every_palette_color() {
    let expected: [u32; 10] = [
        0x1f77b4, 0xff7f0e, 0x2ca02c, 0xd62728, 0x9467bd, 0x8c564b, 0xe377c2, 0x7f7f7f, 0xbcbd22,
        0x17becf,
    ];
    for (i, n) in expected.iter().enumerate() {
        let c = get_color(i);
        assert_eq!(c, Rgb { r: (n >> 16) as u8, g: (n >> 8) as u8, b: *n as u8 });
    }
}

#[test]
fn gray_past_palette() {
    let gray = Rgb { r: GRAY_LEVEL, g: GRAY_LEVEL, b: GRAY_LEVEL };
    assert_eq!(GRAY_LEVEL, 160);
    assert_eq!(get_color(10), gray);
    assert_eq!(get_color(11), gray);
    assert_eq!(get_color(usize::MAX), gray);
}
