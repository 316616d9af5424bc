use irid::AdapterError;
use irid::PresentMode;
use irid::Surface;
use irid::SurfaceError;
use irid::TextureFormat;
use irid::WindowSize;

#[test]
fn surface_takes_preferred_format_over_detected() {
    let s = Surface::new(
        true,
        Some(TextureFormat::Rgba8UnormSrgb),
        Some(TextureFormat::Bgra8UnormSrgb),
        WindowSize::new(800, 600),
        PresentMode::Fifo,
    )
    .unwrap();
    assert_eq!(s.format(), TextureFormat::Rgba8UnormSrgb);
    assert_eq!(s.configuration.width, 800);
    assert_eq!(s.configuration.height, 600);
    assert_eq!(s.configuration.present_mode, PresentMode::Fifo);
}

#[test]
fn surface_falls_back_to_the_detected_format() {
    let s = Surface::new(
        true,
        None,
        Some(TextureFormat::Bgra8UnormSrgb),
        WindowSize::new(800, 600),
        PresentMode::Mailbox,
    )
    .unwrap();
    assert_eq!(s.format(), TextureFormat::Bgra8UnormSrgb);
}

#[test]
fn surface_fails_without_any_format() {
    let r = Surface::new(true, None, None, WindowSize::new(800, 600), PresentMode::Fifo);
    assert_eq!(r.err(), Some(SurfaceError::NoPreferredFormat));
}

#[test]
fn surface_fails_without_an_adapter() {
    let r = Surface::new(
        false,
        Some(TextureFormat::Rgba8UnormSrgb),
        None,
        WindowSize::new(800, 600),
        PresentMode::Fifo,
    );
    assert_eq!(
        r.err(),
        Some(SurfaceError::AdapterNotObtained { source: AdapterError::NotObtained })
    );
}

#[test]
fn surface_update_keeps_format_and_present_mode() {
    let mut s = Surface::new(
        true,
        None,
        Some(TextureFormat::Bgra8UnormSrgb),
        WindowSize::new(800, 600),
        PresentMode::Fifo,
    )
    .unwrap();
    s.update(WindowSize::new(1024, 768));
    assert_eq!(s.configuration.width, 1024);
    assert_eq!(s.configuration.height, 768);
    assert_eq!(s.format(), TextureFormat::Bgra8UnormSrgb);
    assert_eq!(s.configuration.present_mode, PresentMode::Fifo);
}
