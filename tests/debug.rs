use wolfengate::coord::{MapPoint, ScreenPoint};
use wolfengate::debug::DebugInfo;
use wolfengate::index::FontIndex;

#[test]
fn fps_is_published_after_the_window() {
    let mut info = DebugInfo::new(FontIndex::new(1));
    assert!(!info.shows_fps());
    info = info.toggle_fps();
    assert!(info.display_fps());
    for _ in 0..26 {
        info = info.with_another_frame_displayed(20_000);
    }
    assert_eq!(0, info.last_fps());
    info = info.with_another_frame_displayed(20_000);
    assert_eq!(50, info.last_fps());
    assert!(info.shows_fps());
    assert_eq!(1, info.font().id());
}

#[test]
fn toggling_twice_hides_the_rate_again() {
    let info = DebugInfo::new(FontIndex::new(0)).toggle_fps().toggle_fps();
    assert!(!info.display_fps());
}

#[test]
fn points_keep_their_coordinates() {
    let screen = ScreenPoint::new(-3, 800);
    assert_eq!((-3, 800), (screen.x(), screen.y()));
    let tile = MapPoint::new(i16::MIN, i16::MAX);
    assert_eq!((i16::MIN, i16::MAX), (tile.x(), tile.y()));
}
