use camera_controller_rust::camera_core::zoom_core::Core;
use camera_controller_rust::controller::Controller;
use camera_controller_rust::driver::Driver;
use camera_controller_rust::types::Zoom;

#[test]
fn controller_keeps_only_valid_zoom_values() {
    let mut controller = Controller::new(Core::new(Driver::new(Zoom(10))));
    assert_eq!(controller.get_zoom().0, 10);
    controller.set_zoom(Zoom(100));
    assert_eq!(controller.get_zoom().0, 100);
    controller.set_zoom(Zoom(101));
    assert_eq!(controller.get_zoom().0, 100);
    controller.set_zoom(Zoom(0));
    assert_eq!(controller.get_zoom().0, 0);
}

#[test]
fn driver_stores_what_it_is_given() {
    let mut driver = Driver::new(Zoom(5));
    driver.set_zoom(Zoom(500));
    assert_eq!(driver.get_zoom().0, 500);
    assert!(!Zoom(101).is_valid());
    assert!(Zoom(100).is_valid());
}
