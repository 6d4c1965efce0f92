use streamduck::device_thread::{button_changes, render_step, RenderStep};

#[test]
fn changes_report_presses_and_releases() {
    assert_eq!(button_changes(&vec![0, 1, 0], &vec![1, 0, 0]), vec![(0, true), (1, false)]);
    assert_eq!(button_changes(&vec![], &vec![0, 1]), vec![(1, true)]);
    assert_eq!(button_changes(&vec![1, 1], &vec![1]), vec![]);
}

#[test]
fn key_numbers_wrap_at_256() {
    let mut current = vec![0u8; 258];
    current[257] = 1;
    assert_eq!(button_changes(&vec![], &current), vec![(1, true)]);
}

#[test]
fn render_steps() {
    assert_eq!(render_step(false, false, false, 5, Some(3)), RenderStep::Clear);
    assert_eq!(render_step(false, false, false, 5, Some(0)), RenderStep::Keep);
    assert_eq!(render_step(false, true, true, 5, None), RenderStep::Keep);
    assert_eq!(render_step(true, true, true, 5, Some(5)), RenderStep::Keep);
    assert_eq!(render_step(true, true, true, 5, Some(4)), RenderStep::ShowCached);
    assert_eq!(render_step(true, true, true, 5, None), RenderStep::ShowCached);
    assert_eq!(render_step(true, false, true, 5, Some(4)), RenderStep::Draw);
    assert_eq!(render_step(true, true, false, 5, Some(4)), RenderStep::Draw);
}
