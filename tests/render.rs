use raytracing::render::trace_path;

fn climb(limit: u64) -> impl Fn(&u64) -> Option<u64> {
    move |x: &u64| if *x < limit { Some(*x + 1) } else { None }
}

#[test]
fn escaped_ray_is_returned() {
    assert_eq!(trace_path(0u64, 10, climb(3)), Some(3));
}

#[test]
fn immediate_miss_returns_start() {
    assert_eq!(trace_path(5u64, 1, climb(3)), Some(5));
}

#[test]
fn budget_exhaustion_absorbs_path() {
    // three scatters are needed before the miss; two are allowed
    assert_eq!(trace_path(0u64, 2, climb(3)), None);
    // the miss needs a fourth call, beyond a budget of three
    assert_eq!(trace_path(0u64, 3, climb(3)), None);
    assert_eq!(trace_path(0u64, 4, climb(3)), Some(3));
}

#[test]
fn zero_budget_traces_nothing() {
    assert_eq!(trace_path(0u64, 0, climb(3)), None);
}
