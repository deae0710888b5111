use eatcoffee::surface::{
    configure, format_flags, preferred_index, select_format, ConfigureError, SurfaceCapabilities,
    SurfaceConfiguration,
};
use wgpu::{CompositeAlphaMode, PresentMode, TextureFormat};

fn caps(formats: Vec<TextureFormat>) -> SurfaceCapabilities {
    SurfaceCapabilities {
        formats,
        present_modes: vec![PresentMode::Fifo],
        alpha_modes: vec![CompositeAlphaMode::Opaque],
    }
}

#[test]
fn preferred_index_of_empty_list_is_none() {
    assert_eq!(preferred_index(&Vec::new()), None);
}

#[test]
fn preferred_index_is_first_flagged_entry() {
    assert_eq!(preferred_index(&vec![false, true, true]), Some(1));
    assert_eq!(preferred_index(&vec![true, false]), Some(0));
    assert_eq!(preferred_index(&vec![false, false, false, true]), Some(3));
}

#[test]
fn preferred_index_falls_back_to_first_entry() {
    assert_eq!(preferred_index(&vec![false]), Some(0));
    assert_eq!(preferred_index(&vec![false, false, false]), Some(0));
}

#[test]
fn format_flags_follow_the_format_descriptions() {
    let formats = vec![
        TextureFormat::Bgra8Unorm,
        TextureFormat::Bgra8UnormSrgb,
        TextureFormat::Rgba16Float,
        TextureFormat::Rgba8UnormSrgb,
    ];
    assert_eq!(format_flags(&formats), vec![false, true, false, true]);
    assert_eq!(format_flags(&Vec::new()), Vec::<bool>::new());
}

#[test]
fn select_format_prefers_first_srgb_format() {
    let formats = vec![
        TextureFormat::Bgra8Unorm,
        TextureFormat::Rgba8UnormSrgb,
        TextureFormat::Bgra8UnormSrgb,
    ];
    assert_eq!(select_format(&formats), Some(TextureFormat::Rgba8UnormSrgb));
}

#[test]
fn select_format_without_srgb_takes_first_format() {
    let formats = vec![TextureFormat::Rgba16Float, TextureFormat::Bgra8Unorm];
    assert_eq!(select_format(&formats), Some(TextureFormat::Rgba16Float));
}

#[test]
fn select_format_of_empty_list_is_none() {
    assert_eq!(select_format(&Vec::new()), None);
}

#[test]
fn select_format_is_repeatable() {
    let formats = vec![TextureFormat::Bgra8Unorm, TextureFormat::Bgra8UnormSrgb];
    assert_eq!(select_format(&formats), select_format(&formats));
}

#[test]
fn configure_scenario_srgb_second_at_800_by_600() {
    let caps = caps(vec![TextureFormat::Bgra8Unorm, TextureFormat::Bgra8UnormSrgb]);
    assert_eq!(
        configure(&caps, 800, 600),
        Ok(SurfaceConfiguration {
            format: TextureFormat::Bgra8UnormSrgb,
            present_mode: PresentMode::Fifo,
            alpha_mode: CompositeAlphaMode::Opaque,
            width: 800,
            height: 600,
        })
    );
}

#[test]
fn configure_takes_first_present_and_alpha_mode() {
    let caps = SurfaceCapabilities {
        formats: vec![TextureFormat::Bgra8Unorm],
        present_modes: vec![PresentMode::Mailbox, PresentMode::Fifo],
        alpha_modes: vec![CompositeAlphaMode::PreMultiplied, CompositeAlphaMode::Opaque],
    };
    let config = configure(&caps, 1, 1).unwrap();
    assert_eq!(config.format, TextureFormat::Bgra8Unorm);
    assert_eq!(config.present_mode, PresentMode::Mailbox);
    assert_eq!(config.alpha_mode, CompositeAlphaMode::PreMultiplied);
    assert_eq!((config.width, config.height), (1, 1));
}

#[test]
fn configure_rejects_empty_size() {
    let caps = caps(vec![TextureFormat::Bgra8Unorm]);
    assert_eq!(configure(&caps, 0, 600), Err(ConfigureError::EmptySize));
    assert_eq!(configure(&caps, 800, 0), Err(ConfigureError::EmptySize));
    assert_eq!(configure(&caps, 0, 0), Err(ConfigureError::EmptySize));
}

#[test]
fn configure_reports_what_the_adapter_lacks() {
    assert_eq!(configure(&caps(Vec::new()), 8, 8), Err(ConfigureError::NoFormat));
    let mut no_present = caps(vec![TextureFormat::Bgra8Unorm]);
    no_present.present_modes.clear();
    assert_eq!(configure(&no_present, 8, 8), Err(ConfigureError::NoPresentMode));
    let mut no_alpha = caps(vec![TextureFormat::Bgra8Unorm]);
    no_alpha.alpha_modes.clear();
    assert_eq!(configure(&no_alpha, 8, 8), Err(ConfigureError::NoAlphaMode));
}

#[test]
fn configure_checks_size_before_lists() {
    assert_eq!(configure(&caps(Vec::new()), 0, 8), Err(ConfigureError::EmptySize));
}
