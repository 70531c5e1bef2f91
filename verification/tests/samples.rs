use pid_pendulum::samples::{pid_layout_ok, segment_layout_ok, stencil_at, Stencil};

#[test]
fn pid_layout_needs_one_more_measure_than_steps() {
    assert!(pid_layout_ok(1, 0));
    assert!(pid_layout_ok(3, 2));
    assert!(!pid_layout_ok(0, 0));
    assert!(!pid_layout_ok(2, 2));
    assert!(!pid_layout_ok(4, 2));
    assert!(!pid_layout_ok(0, usize::MAX));
    assert!(pid_layout_ok(usize::MAX, usize::MAX - 1));
}

#[test]
fn segment_layout_needs_a_step() {
    assert!(segment_layout_ok(2, 1));
    assert!(segment_layout_ok(4, 3));
    assert!(!segment_layout_ok(1, 0));
    assert!(!segment_layout_ok(0, 0));
    assert!(!segment_layout_ok(3, 3));
    assert!(!segment_layout_ok(5, 3));
}

#[test]
fn layouts_agree_except_for_a_lone_measure() {
    for n in 0..6usize {
        for d in 0..6usize {
            let differ = pid_layout_ok(n, d) && !segment_layout_ok(n, d);
            assert_eq!(differ, n == 1 && d == 0);
            if segment_layout_ok(n, d) {
                assert!(pid_layout_ok(n, d));
            }
        }
    }
}

#[test]
fn stencil_forward_at_first_sample() {
    assert_eq!(stencil_at(2, 0), Stencil::Forward { step: 0, before: 0, after: 1 });
}

#[test]
fn stencil_central_between() {
    // measures [0, 2, 6] over steps [1, 2]: the end time 3 is located at sample 1
    assert_eq!(stencil_at(2, 1), Stencil::Central { prev: 0, curr: 1, next: 2 });
    assert_eq!(stencil_at(5, 3), Stencil::Central { prev: 2, curr: 3, next: 4 });
}

#[test]
fn stencil_backward_past_last_step() {
    assert_eq!(stencil_at(2, 2), Stencil::Backward { step: 1, before: 1, after: 2 });
    assert_eq!(stencil_at(3, 7), Stencil::Backward { step: 2, before: 2, after: 3 });
}

#[test]
fn stencil_never_backward_inside_trace() {
    for d in 1..8usize {
        for idx in 0..d {
            assert!(!matches!(stencil_at(d, idx), Stencil::Backward { .. }));
        }
    }
}
