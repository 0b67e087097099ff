use fractal_view::property::{Listener, Property};
use fractal_view::resources::{resource_name_to_path, vet_loaded_bytes, Error, Resources};
use std::cell::Cell;
use std::rc::Rc;

#[test]
fn resource_names_resolve_under_the_root() {
    let root = b"assets/shaders".to_vec();
    let name = b"mandelbrot.frag".to_vec();
    assert_eq!(
        resource_name_to_path(&root, &name),
        b"assets/shaders/mandelbrot.frag".to_vec()
    );
    let nested = b"color/hsv.glsl".to_vec();
    assert_eq!(
        resource_name_to_path(&root, &nested),
        b"assets/shaders/color/hsv.glsl".to_vec()
    );
}

#[test]
fn resources_resolve_through_their_root() {
    let res = Resources::new(b"data".to_vec());
    assert_eq!(res.full_path(&b"a.txt".to_vec()), b"data/a.txt".to_vec());
}

#[test]
fn loaded_text_with_a_nul_byte_is_rejected() {
    let r = vet_loaded_bytes(b"abc\0def".to_vec());
    assert!(matches!(r, Err(Error::FileContainsNil)));
}

#[test]
fn empty_loaded_text_is_an_io_error() {
    match vet_loaded_bytes(Vec::new()) {
        Err(Error::Io(m)) => assert_eq!(m, "File is empty"),
        other => panic!("expected an I/O error, got {:?}", other),
    }
}

#[test]
fn clean_loaded_text_passes_through_unchanged() {
    let r = vet_loaded_bytes(b"void main() {}".to_vec());
    assert_eq!(r.unwrap(), b"void main() {}".to_vec());
}

struct Recorder {
    seen: Rc<Cell<i32>>,
}

impl Listener<i32> for Recorder {
    fn notify(&self, value: &i32) {
        self.seen.set(*value);
    }
}

#[test]
fn property_holds_and_returns_its_value() {
    let mut p: Property<i32, Recorder> = Property::new(7);
    assert_eq!(*p.get_value(), 7);
    p.set_value(42);
    assert_eq!(*p.get_value(), 42);
}

#[test]
fn property_notifies_subscribers_on_every_write() {
    let seen = Rc::new(Cell::new(0));
    let mut p: Property<i32, Recorder> = Property::new(1);
    p.subscribe(Recorder { seen: seen.clone() });
    assert_eq!(seen.get(), 0);
    p.set_value(5);
    assert_eq!(seen.get(), 5);
    p.set_value(-3);
    assert_eq!(seen.get(), -3);
}

#[test]
fn all_subscribers_are_notified() {
    let a = Rc::new(Cell::new(0));
    let b = Rc::new(Cell::new(0));
    let mut p: Property<i32, Recorder> = Property::new(0);
    p.subscribe(Recorder { seen: a.clone() });
    p.subscribe(Recorder { seen: b.clone() });
    p.set_value(9);
    assert_eq!(a.get(), 9);
    assert_eq!(b.get(), 9);
}
