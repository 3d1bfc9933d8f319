//! Tests of the window resource model: root geometry and named properties.

use display_server::protocol::BackingStore;
use display_server::protocol::BitGravity;
use display_server::protocol::Class;
use display_server::protocol::MapState;
use display_server::protocol::Rectangle;
use display_server::protocol::WinGravity;
use display_server::window::WindowAttributes;
use display_server::window::Property;
use display_server::window::Window;

#[test]
fn new_root_starts_at_origin_with_zero_size() {
    let w = Window::new_root();
    let r = w.get_rectangle();
    assert_eq!(*r, Rectangle { x: 0, y: 0, width: 0, height: 0 });
    assert_eq!(w.get_depth(), 24);
    assert_eq!(w.get_border_width(), 0);
    assert_eq!(w.get_root(), 0);
    assert_eq!(w.get_x(), 0);
    assert_eq!(w.get_y(), 0);
    assert_eq!(w.get_width(), 0);
    assert_eq!(w.get_height(), 0);
}

#[test]
fn root_rejects_nonzero_offset() {
    let mut w = Window::new_root();
    w.set_rectangle(Rectangle { x: 10, y: 0, width: 640, height: 480 });
    assert_eq!(*w.get_rectangle(), Rectangle { x: 0, y: 0, width: 0, height: 0 });
    w.set_rectangle(Rectangle { x: 0, y: -3, width: 640, height: 480 });
    assert_eq!(*w.get_rectangle(), Rectangle { x: 0, y: 0, width: 0, height: 0 });
}

#[test]
fn root_accepts_any_size_at_origin() {
    let mut w = Window::new_root();
    w.set_rectangle(Rectangle { x: 0, y: 0, width: 1920, height: 1080 });
    assert_eq!(*w.get_rectangle(), Rectangle { x: 0, y: 0, width: 1920, height: 1080 });
}

#[test]
fn property_round_trip() {
    let mut w = Window::new_root();
    w.set_property("k".to_owned(), Property::new(31, 8, vec![1, 2, 3]));
    let p = w.get_property(&"k".to_owned()).expect("stored property must be readable");
    assert_eq!(p.get_type(), 31);
    assert_eq!(p.get_format(), 8);
    assert_eq!(p.get_data(), &[1, 2, 3]);
}

#[test]
fn property_overwrite_keeps_last_value() {
    let mut w = Window::new_root();
    w.set_property("k".to_owned(), Property::new(31, 8, vec![1]));
    w.set_property("k".to_owned(), Property::new(32, 16, vec![9, 9]));
    let p = w.get_property(&"k".to_owned()).unwrap();
    assert_eq!(p.get_type(), 32);
    assert_eq!(p.get_format(), 16);
    assert_eq!(p.get_data(), &[9, 9]);
}

#[test]
fn delete_property_removes_only_that_name() {
    let mut w = Window::new_root();
    w.set_property("a".to_owned(), Property::new(1, 8, vec![1]));
    w.set_property("b".to_owned(), Property::new(2, 8, vec![2]));
    w.delete_property(&"a".to_owned());
    assert!(w.get_property(&"a".to_owned()).is_none());
    let b = w.get_property(&"b".to_owned()).unwrap();
    assert_eq!(b.get_type(), 2);
}

#[test]
fn delete_missing_property_is_a_no_op() {
    let mut w = Window::new_root();
    w.delete_property(&"missing".to_owned());
    assert!(w.get_property(&"missing".to_owned()).is_none());
}

#[test]
fn default_attributes_are_the_documented_policy() {
    let a = WindowAttributes::default();
    assert_eq!(a.background_pixmap, 0);
    assert_eq!(a.background_pixel, 0);
    assert_eq!(a.border_pixmap, 0);
    assert_eq!(a.border_pixel, 0);
    assert_eq!(a.bit_gravity, BitGravity::Forget);
    assert_eq!(a.win_gravity, WinGravity::Unmap);
    assert_eq!(a.backing_store, BackingStore::NotUseful);
    assert_eq!(a.backing_planes, 0);
    assert_eq!(a.backing_pixel, 0);
    assert!(!a.override_redirect);
    assert!(!a.save_under);
    assert_eq!(a.event_mask, 0);
    assert_eq!(a.do_not_propagate_mask, 0);
    assert_eq!(a.colormap, 0);
    assert_eq!(a.cursor, 0);
    assert_eq!(a.visual, 0);
    assert_eq!(a.class, Class::InputOnly);
    assert_eq!(a.backing_places, 0);
    assert_eq!(a.map_is_installed, 0);
    assert_eq!(a.map_state, MapState::Unviewable);
}
