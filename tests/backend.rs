use theo::{registry, Backend, DisplayBuilder, Fallback, Selection};

fn drive(mut f: Fallback<Backend, String>, works: &[Backend]) -> (Result<Backend, String>, Vec<Backend>) {
    let mut tried = Vec::new();
    loop {
        match f.next() {
            Selection::Try(b) => {
                tried.push(b);
                if works.contains(&b) {
                    f.succeeded();
                } else {
                    f.failed(format!("{:?} failed", b));
                }
            }
            Selection::Selected(_) | Selection::Exhausted => break,
        }
    }
    (f.outcome().unwrap(), tried)
}

#[test]
fn registry_orders_backends_by_priority() {
    assert_eq!(
        registry(true, true, false),
        vec![Backend::Wgpu, Backend::DesktopGl, Backend::SwRast]
    );
    assert_eq!(registry(false, false, false), vec![Backend::SwRast]);
    assert_eq!(
        registry(true, false, true),
        vec![Backend::Wgpu, Backend::WebGl, Backend::SwRast]
    );
}

#[test]
fn first_succeeding_candidate_is_selected() {
    let reg = registry(true, true, false);
    let f = DisplayBuilder::new().selector::<String>(&reg);
    let (r, tried) = drive(f, &[Backend::DesktopGl, Backend::SwRast]);
    assert_eq!(r, Ok(Backend::DesktopGl));
    assert_eq!(tried, vec![Backend::Wgpu, Backend::DesktopGl]);
}

#[test]
fn most_capable_wins_when_all_succeed() {
    let reg = registry(true, true, false);
    let f = DisplayBuilder::new().selector::<String>(&reg);
    let (r, tried) = drive(f, &[Backend::Wgpu, Backend::DesktopGl, Backend::SwRast]);
    assert_eq!(r, Ok(Backend::Wgpu));
    assert_eq!(tried, vec![Backend::Wgpu]);
}

#[test]
fn forced_fallback_selects_software_rasterizer() {
    let reg = registry(true, true, false);
    let f = DisplayBuilder::new().force_swrast(true).selector::<String>(&reg);
    let (r, tried) = drive(f, &[Backend::Wgpu, Backend::DesktopGl, Backend::SwRast]);
    assert_eq!(r, Ok(Backend::SwRast));
    assert_eq!(tried, vec![Backend::SwRast]);
}

#[test]
fn last_error_is_reported_when_all_fail() {
    let reg = registry(true, true, false);
    let f = DisplayBuilder::new().selector::<String>(&reg);
    let (r, tried) = drive(f, &[]);
    assert_eq!(r, Err("SwRast failed".to_string()));
    assert_eq!(tried.len(), 3);
}

#[test]
fn outcome_is_open_while_a_candidate_is_pending() {
    let reg = registry(false, true, false);
    let f: Fallback<Backend, String> = DisplayBuilder::new().selector(&reg);
    assert_eq!(f.next(), Selection::Try(Backend::DesktopGl));
    assert!(f.outcome().is_none());
}

#[test]
fn empty_fallback_is_exhausted_without_error() {
    let f: Fallback<u8, String> = Fallback::new(Vec::new());
    assert_eq!(f.next(), Selection::Exhausted);
    assert!(f.outcome().is_none());
}

#[test]
fn builder_defaults_and_setters() {
    let b = DisplayBuilder::default();
    assert!(b.is_transparent());
    assert!(!b.forces_swrast());
    assert!(b.window_handle().is_none());
    let b = b.transparent(false).force_swrast(true);
    assert!(!b.is_transparent());
    assert!(b.forces_swrast());
}

#[test]
fn candidate_order_filters_under_force() {
    let reg = registry(true, true, true);
    assert_eq!(theo::candidate_order(&reg, true), vec![Backend::SwRast]);
    assert_eq!(theo::candidate_order(&reg, false), reg);
}

#[test]
fn builder_keeps_the_bootstrap_window() {
    let mut handle = raw_window_handle::XlibWindowHandle::empty();
    handle.window = 42;
    let raw = raw_window_handle::RawWindowHandle::Xlib(handle);
    let b = DisplayBuilder::new().window(raw).transparent(false);
    assert_eq!(b.window_handle(), Some(raw));
    assert!(!b.is_transparent());
}
