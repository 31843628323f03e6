use higher_dimension_playground::session::{
    hotbar_frame_step, HotbarFrameInput, HotbarFrameOutcome, HotbarSelection,
};

fn input(scroll_steps: i32, scale_prev: bool, scale_next: bool, digit: Option<u32>) -> HotbarFrameInput {
    HotbarFrameInput { scroll_steps, scroll_pair_cycle: false, scale_prev, scale_next, digit }
}

#[test]
fn hotbar_frame_scroll_takes_slot_scale() {
    let mut scales: Vec<i8> = vec![0, 1, 2, 3, -1, -2, -3, 0, 1];
    let out = hotbar_frame_step(HotbarSelection { index: 0, scale_exp: 0 }, input(2, false, false, None), &mut scales);
    assert_eq!(
        out,
        HotbarFrameOutcome {
            selection: HotbarSelection { index: 7, scale_exp: 0 },
            reselected: true,
            scale_changed: false,
        }
    );
    let down = hotbar_frame_step(HotbarSelection { index: 8, scale_exp: 1 }, input(-5, false, false, None), &mut scales);
    assert_eq!(down.selection, HotbarSelection { index: 4, scale_exp: -1 });
    assert_eq!(scales, vec![0, 1, 2, 3, -1, -2, -3, 0, 1]);
}

#[test]
fn hotbar_frame_scale_keys_write_the_slot() {
    let mut scales: Vec<i8> = vec![0; 9];
    let out = hotbar_frame_step(HotbarSelection { index: 3, scale_exp: 3 }, input(0, false, true, None), &mut scales);
    assert_eq!(out.selection, HotbarSelection { index: 3, scale_exp: 3 });
    assert!(!out.reselected);
    assert!(out.scale_changed);
    assert_eq!(scales[3], 3);
    let low = hotbar_frame_step(HotbarSelection { index: 3, scale_exp: -3 }, input(0, true, false, None), &mut scales);
    assert_eq!(low.selection.scale_exp, -3);
    assert_eq!(scales[3], -3);
    // Scroll, then step the new slot's scale down.
    let both = hotbar_frame_step(HotbarSelection { index: 3, scale_exp: -3 }, input(1, true, false, None), &mut scales);
    assert_eq!(both.selection, HotbarSelection { index: 2, scale_exp: -1 });
    assert_eq!(scales, vec![0, 0, -1, -3, 0, 0, 0, 0, 0]);
}

#[test]
fn hotbar_frame_digit_wins() {
    let mut scales: Vec<i8> = vec![0, 0, 0, 0, 2, 0, 0, 0, 0];
    let out = hotbar_frame_step(HotbarSelection { index: 0, scale_exp: 0 }, input(3, false, false, Some(5)), &mut scales);
    assert_eq!(out.selection, HotbarSelection { index: 4, scale_exp: 2 });
    assert!(out.reselected);
    let other = hotbar_frame_step(HotbarSelection { index: 0, scale_exp: 0 }, input(0, false, false, Some(0)), &mut scales);
    assert_eq!(other.selection, HotbarSelection { index: 0, scale_exp: 0 });
    assert!(!other.reselected);
}

#[test]
fn hotbar_frame_pair_cycle_leaves_the_hotbar() {
    let mut scales: Vec<i8> = vec![1; 9];
    let mut i = input(4, false, false, None);
    i.scroll_pair_cycle = true;
    let out = hotbar_frame_step(HotbarSelection { index: 2, scale_exp: 0 }, i, &mut scales);
    assert_eq!(out.selection, HotbarSelection { index: 2, scale_exp: 0 });
    assert!(!out.reselected);
}
