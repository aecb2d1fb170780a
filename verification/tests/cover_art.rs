use image::{DynamicImage, ImageFormat, Rgb, RgbImage};
use ratatui::backend::TestBackend;
use ratatui::Terminal;
use ratatui_image::picker::{Picker, ProtocolType};
use spotatui::cover_art::{CoverArt, CoverArtError, CoverArtState, Fetched, Rect};

fn image(width: u32, height: u32) -> DynamicImage {
    DynamicImage::ImageRgb8(RgbImage::from_pixel(width, height, Rgb([200, 10, 20])))
}

fn png(width: u32, height: u32) -> Vec<u8> {
    let mut bytes = std::io::Cursor::new(Vec::new());
    image(width, height).write_to(&mut bytes, ImageFormat::Png).unwrap();
    bytes.into_inner()
}

fn area(width: u16, height: u16) -> Rect {
    Rect { x: 0, y: 0, width, height }
}

#[test]
fn a_terminal_that_does_not_answer_gets_halfblocks() {
    let art = CoverArt::new(None);
    assert!(!art.full_image_support());
    assert!(!art.available());
    assert!(art.fullscreen_state.is_none());
    assert_eq!(art.get_url(), None);
    assert_eq!(art.picker.protocol_type(), ProtocolType::Halfblocks);
}

#[test]
fn full_images_need_a_pixel_protocol() {
    for (kind, supported) in [
        (ProtocolType::Kitty, true),
        (ProtocolType::Iterm2, true),
        (ProtocolType::Sixel, true),
        (ProtocolType::Halfblocks, false),
    ] {
        let mut picker = Picker::halfblocks();
        picker.set_protocol_type(kind);
        assert_eq!(CoverArt::new(Some(picker)).full_image_support(), supported);
    }
}

#[test]
fn fetches_have_timeouts() {
    let timeouts = CoverArt::fetch_timeouts();
    assert_eq!(timeouts.connect_secs, 10);
    assert_eq!(timeouts.total_secs, 30);
}

#[test]
fn a_body_is_decoded() {
    let bytes = png(30, 20);
    for announced in [None, Some(bytes.len() as u64), Some(1)] {
        let decoded = CoverArt::fetch_and_decode(Fetched::Body(announced, bytes.clone())).unwrap();
        assert_eq!((decoded.width(), decoded.height()), (30, 20));
        assert_eq!(decoded.to_rgb8().get_pixel(7, 9), &Rgb([200, 10, 20]));
    }
}

#[test]
fn failures_say_where_they_happened() {
    // An address without a scheme makes an error without any network.
    let error = || reqwest::Client::new().get("no address").build().unwrap_err();
    assert!(error().is_builder());
    let failed = |fetched: Fetched| CoverArt::fetch_and_decode(fetched).unwrap_err();
    assert!(matches!(
        failed(Fetched::NoClient(error())),
        CoverArtError::Client(e) if e.is_builder()
    ));
    assert!(matches!(
        failed(Fetched::NoResponse(error())),
        CoverArtError::Request(e) if e.is_builder()
    ));
    assert!(matches!(
        failed(Fetched::NoBody(error())),
        CoverArtError::Body(e) if e.is_builder()
    ));
    let expected = image::load_from_memory(b"no image").unwrap_err().to_string();
    assert!(matches!(
        failed(Fetched::Body(None, b"no image".to_vec())),
        CoverArtError::Decode(e) if e.to_string() == expected
    ));
}

#[test]
fn a_stored_image_shows_in_both_views() {
    let mut art = CoverArt::new(None);
    art.store_decoded("https://cdn/one".to_string(), image(300, 200));
    assert!(art.available());
    assert_eq!(art.get_url().as_deref(), Some("https://cdn/one"));
    assert_eq!(art.fullscreen_state.as_ref().unwrap().url, "https://cdn/one");
    for (width, height) in [(80, 24), (10, 10), (3, 1), (1, 9), (0, 0)] {
        let size = art.size_for(area(width, height)).unwrap();
        assert_eq!(art.fullscreen_size_for(area(width, height)), Some(size));
        assert_eq!((size.x, size.y), (0, 0));
    }
    art.store_decoded("https://cdn/two".to_string(), image(10, 20));
    assert_eq!(art.get_url().as_deref(), Some("https://cdn/two"));
}

#[test]
fn sizes_are_those_of_a_fitted_image() {
    let mut art = CoverArt::new(None);
    assert_eq!(art.size_for(area(80, 24)), None);
    assert_eq!(art.fullscreen_size_for(area(80, 24)), None);
    // With cells of 10 by 20 pixels, 300 by 200 pixels take 30 by 10 cells.
    art.store_decoded("u".to_string(), image(300, 200));
    assert_eq!(art.size_for(area(80, 24)), Some(area(30, 10)));
    assert_eq!(art.size_for(Rect { x: 7, y: 8, width: 15, height: 24 }), Some(area(15, 5)));
    assert_eq!(art.fullscreen_size_for(area(80, 5)), Some(area(15, 5)));
}

#[test]
fn set_state_changes_the_playbar_only() {
    let mut art = CoverArt::new(None);
    art.store_decoded("one".to_string(), image(300, 200));
    let other = art.picker.new_resize_protocol(image(10, 20));
    art.set_state(CoverArtState::new("two".to_string(), other));
    assert_eq!(art.get_url().as_deref(), Some("two"));
    assert_eq!(art.size_for(area(80, 24)), Some(area(1, 1)));
    assert_eq!(art.fullscreen_state.as_ref().unwrap().url, "one");
    assert_eq!(art.fullscreen_size_for(area(80, 24)), Some(area(30, 10)));
}

#[test]
fn pictures_are_drawn_where_they_fit() {
    let mut art = CoverArt::new(None);
    let mut terminal = Terminal::new(TestBackend::new(40, 12)).unwrap();
    let blank = terminal.backend().buffer().clone();
    terminal
        .draw(|f| {
            assert!(art.try_render(f, area(40, 12)));
            assert!(art.try_render_fullscreen(f, area(40, 12)));
            art.render(f, area(40, 12));
        })
        .unwrap();
    assert_eq!(terminal.backend().buffer(), &blank);

    art.store_decoded("one".to_string(), image(100, 200));
    let before = art.size_for(area(40, 12));
    terminal
        .draw(|f| {
            assert!(art.try_render(f, Rect { x: 2, y: 1, width: 10, height: 10 }));
        })
        .unwrap();
    assert_ne!(terminal.backend().buffer(), &blank);
    assert_eq!(terminal.backend().buffer()[(0, 0)], blank[(0, 0)]);
    assert_ne!(terminal.backend().buffer()[(2, 1)], blank[(2, 1)]);
    assert_eq!(art.size_for(area(40, 12)), before);
    assert_eq!(art.get_url().as_deref(), Some("one"));

    let playbar = terminal.backend().buffer().clone();
    terminal
        .draw(|f| {
            art.render_fullscreen(f, Rect { x: 2, y: 1, width: 10, height: 10 });
        })
        .unwrap();
    assert_eq!(terminal.backend().buffer(), &playbar);
}

#[test]
fn areas_beyond_the_coordinates_are_refused() {
    let mut art = CoverArt::new(None);
    art.store_decoded("one".to_string(), image(100, 200));
    let mut terminal = Terminal::new(TestBackend::new(4, 4)).unwrap();
    terminal
        .draw(|f| {
            let beyond = Rect { x: 65530, y: 0, width: 10, height: 10 };
            assert!(!art.try_render(f, beyond));
            assert!(!art.try_render_fullscreen(f, beyond));
            assert!(art.try_render(f, area(0, 10)));
        })
        .unwrap();
}

#[test]
fn a_decoders_result_is_taken_over() {
    let taken = CoverArt::take_decoded(Ok(image(3, 2))).unwrap();
    assert_eq!((taken.width(), taken.height()), (3, 2));
    let error = image::load_from_memory(b"no image").unwrap_err();
    let text = error.to_string();
    assert!(matches!(
        CoverArt::take_decoded(Err(error)),
        Err(CoverArtError::Decode(e)) if e.to_string() == text
    ));
}

#[test]
fn views_are_drawn_apart_in_one_frame() {
    let mut art = CoverArt::new(None);
    art.store_decoded("one".to_string(), image(100, 200));
    art.state = None;
    let mut terminal = Terminal::new(TestBackend::new(40, 12)).unwrap();
    let blank = terminal.backend().buffer().clone();
    terminal
        .draw(|f| {
            assert!(art.try_render_fullscreen(f, area(10, 10)));
            assert!(art.try_render(f, Rect { x: 20, y: 0, width: 10, height: 10 }));
        })
        .unwrap();
    assert!(!art.available());
    assert_ne!(terminal.backend().buffer()[(0, 0)], blank[(0, 0)]);
    assert_eq!(terminal.backend().buffer()[(20, 0)], blank[(20, 0)]);
}
