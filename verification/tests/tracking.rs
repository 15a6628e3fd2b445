use gpu_video::layout_tracker::{ImageLayoutTracker, LayoutTrackerError};

#[test]
fn images_are_registered_once() {
    let mut tracker = ImageLayoutTracker::new();
    assert_eq!(tracker.register_image(7, 1, 3), Ok(()));
    assert_eq!(tracker.layouts_of(7), Some(&vec![1, 1, 1]));
    assert_eq!(tracker.register_image(7, 2, 1), Err(LayoutTrackerError::RegisteredNewImageTwice(7)));
    assert_eq!(tracker.layouts_of(7), Some(&vec![1, 1, 1]));
    tracker.set_layouts(7, vec![7]);
    assert_eq!(tracker.layouts_of(7), Some(&vec![7]));
}

#[test]
fn unregistering_forgets_the_image() {
    let mut tracker = ImageLayoutTracker::new();
    assert_eq!(tracker.unregister_image(3), Err(LayoutTrackerError::UnregisteredNonexistentImage(3)));
    tracker.register_image(3, 0, 1).unwrap();
    tracker.register_image(4, 0, 2).unwrap();
    assert_eq!(tracker.unregister_image(3), Ok(()));
    assert_eq!(tracker.layouts_of(3), None);
    assert_eq!(tracker.layouts_of(4), Some(&vec![0, 0]));
}
