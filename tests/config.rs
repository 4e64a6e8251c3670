use theo::{
    choose_alpha_mode, choose_config, choose_format, context_attempts, find_adapter, AlphaKind,
    FormatKind, GlConfigInfo, GlContextKind,
};
use theo::{validate_size, Error};

fn cfg(t: Option<bool>, samples: u8) -> GlConfigInfo {
    GlConfigInfo { transparency: t, samples }
}

#[test]
fn config_choice_prefers_transparency_then_samples() {
    assert_eq!(choose_config(&vec![]), None);
    assert_eq!(choose_config(&vec![cfg(None, 0)]), Some(0));
    let cs = vec![cfg(Some(false), 4), cfg(Some(true), 0), cfg(None, 2)];
    assert_eq!(choose_config(&cs), Some(2));
    let cs = vec![cfg(Some(false), 4), cfg(Some(true), 0), cfg(Some(false), 0)];
    assert_eq!(choose_config(&cs), Some(1));
    let cs = vec![cfg(Some(true), 2), cfg(Some(true), 8), cfg(Some(true), 4)];
    assert_eq!(choose_config(&cs), Some(1));
}

#[test]
fn context_attempts_in_order() {
    assert_eq!(
        context_attempts(),
        vec![GlContextKind::Modern, GlContextKind::Gles, GlContextKind::Legacy]
    );
}

#[test]
fn format_choice() {
    assert_eq!(choose_format(&vec![]), None);
    assert_eq!(choose_format(&vec![FormatKind::Other, FormatKind::Bgra8Unorm]), Some(1));
    assert_eq!(choose_format(&vec![FormatKind::Other, FormatKind::Other]), Some(0));
}

#[test]
fn alpha_mode_choice() {
    let modes = vec![AlphaKind::Opaque, AlphaKind::Inherit, AlphaKind::PostMultiplied];
    assert_eq!(choose_alpha_mode(&modes, true), Some(1));
    assert_eq!(choose_alpha_mode(&modes, false), Some(0));
    assert_eq!(choose_alpha_mode(&vec![AlphaKind::Opaque], true), Some(0));
    assert_eq!(choose_alpha_mode(&vec![], false), None);
}

#[test]
fn adapter_reuse() {
    assert_eq!(find_adapter(&vec![false, true, true]), Some(1));
    assert_eq!(find_adapter(&vec![false, false]), None);
    assert_eq!(find_adapter(&vec![]), None);
}

#[test]
fn zero_sizes_are_invalid() {
    assert_eq!(validate_size(0, 5), Err(Error::InvalidInput));
    assert_eq!(validate_size(5, 0), Err(Error::InvalidInput));
    assert_eq!(validate_size(1, 1), Ok(()));
}
