use x11_clock::atom::{AtomTable, ATOM_CARDINAL, ATOM_STRING, ATOM_WM_CLASS, ATOM_WM_NAME, ATOM_WM_NORMAL_HINTS, ATOM_WM_SIZE_HINTS, ATOM_ATOM};
use x11_clock::property::{encode_words, PropID, PropVal};
use x11_clock::window::{PropertyChange, Request, SetPropError, Window, EVENT_MASK_EXPOSURE, EVENT_MASK_KEY_PRESS};

fn str_name(p: &PropID) -> Option<&str> {
    match p {
        PropID::Str(s) => Some(s.as_str()),
        PropID::Atom(_) => None,
    }
}

fn atom_of(p: &PropID) -> Option<u32> {
    match p {
        PropID::Atom(a) => Some(*a),
        PropID::Str(_) => None,
    }
}

fn words(v: &PropVal) -> Vec<u32> {
    match v {
        PropVal::Words(w) => w.clone(),
        _ => panic!("not a word list"),
    }
}

fn bytes(v: &PropVal) -> Vec<u8> {
    match v {
        PropVal::Bytes(b) => b.clone(),
        _ => panic!("not a byte list"),
    }
}

#[test]
fn atom_lookup_of_unknown_name_is_none() {
    let t = AtomTable::new();
    assert_eq!(t.lookup(b"_MOTIF_WM_HINTS"), None);
}

#[test]
fn atom_resolved_twice_gives_same_atom() {
    let mut t = AtomTable::new();
    assert_eq!(t.resolve_with(b"_NET_WM_WINDOW_TYPE", 301), Some(301));
    assert_eq!(t.resolve_with(b"_NET_WM_WINDOW_TYPE", 999), Some(301));
    assert_eq!(t.lookup(b"_NET_WM_WINDOW_TYPE"), Some(301));
}

#[test]
fn atom_given_to_two_names_is_refused() {
    let mut t = AtomTable::new();
    assert!(t.record(b"A", 7));
    assert!(!t.record(b"B", 7));
    assert_eq!(t.lookup(b"B"), None);
    assert_eq!(t.resolve_with(b"B", 7), None);
    assert_eq!(t.lookup(b"A"), Some(7));
}

#[test]
fn prop_id_get_atom() {
    let mut t = AtomTable::new();
    assert_eq!(PropID::Atom(39).get_atom(&t), Some(39));
    let p = PropID::Str("_MOTIF_WM_HINTS".to_string());
    assert_eq!(p.get_atom(&t), None);
    assert_eq!(p.pending_name(), Some(&b"_MOTIF_WM_HINTS"[..]));
    t.record(b"_MOTIF_WM_HINTS", 400);
    assert_eq!(p.get_atom(&t), Some(400));
    assert_eq!(PropID::Atom(4).pending_name(), None);
}

#[test]
fn words_are_encoded_least_significant_byte_first() {
    assert_eq!(encode_words(&[0x0403_0201, 2]), vec![1, 2, 3, 4, 2, 0, 0, 0]);
    assert_eq!(encode_words(&[]), Vec::<u8>::new());
}

#[test]
fn encode_each_kind_of_value() {
    let mut t = AtomTable::new();
    let b = PropVal::Bytes(b"abc".to_vec()).encode(&t).unwrap();
    assert_eq!((b.format, b.count, b.data), (8, 3, b"abc".to_vec()));
    let w = PropVal::Words(vec![2, 0x100]).encode(&t).unwrap();
    assert_eq!((w.format, w.count, w.data), (32, 2, vec![2, 0, 0, 0, 0, 1, 0, 0]));
    let id = PropVal::PropID(PropID::Str("_NET_WM_WINDOW_TYPE_NORMAL".to_string()));
    assert!(id.encode(&t).is_none());
    t.record(b"_NET_WM_WINDOW_TYPE_NORMAL", 0x1_0203);
    let a = id.encode(&t).unwrap();
    assert_eq!((a.format, a.count, a.data), (32, 1, vec![3, 2, 1, 0]));
}

#[test]
fn set_name_writes_exact_title_bytes() {
    let w = Window::new(5, (145, 40), (20, 1020));
    let changes = w.set_name("X11SimpleClock", "clock");
    assert_eq!(changes.len(), 2);
    assert_eq!(changes[0].window, 5);
    assert_eq!(atom_of(&changes[0].property), Some(ATOM_WM_NAME));
    assert_eq!(atom_of(&changes[0].type_), Some(ATOM_STRING));
    assert_eq!(bytes(&changes[0].value), b"X11SimpleClock".to_vec());
    assert_eq!(atom_of(&changes[1].property), Some(ATOM_WM_CLASS));
    assert_eq!(bytes(&changes[1].value), b"X11SimpleClock\0clock".to_vec());
    let t = AtomTable::new();
    let r = changes[0].resolve(&t).unwrap();
    assert_eq!((r.window, r.property, r.type_), (5, ATOM_WM_NAME, ATOM_STRING));
    assert_eq!((r.value.format, r.value.count), (8, 14));
    assert_eq!(r.value.data, b"X11SimpleClock".to_vec());
}

#[test]
fn decoration_disabled_changes() {
    let w = Window::new(9, (145, 40), (20, 1020));
    let c = w.set_decoration_disabled();
    assert_eq!(c.len(), 3);
    assert_eq!(str_name(&c[0].property), Some("_MOTIF_WM_HINTS"));
    assert_eq!(str_name(&c[0].type_), Some("_MOTIF_WM_HINTS"));
    assert_eq!(words(&c[0].value), vec![2, 0, 0, 0, 0]);
    assert_eq!(str_name(&c[1].property), Some("_NET_WM_BYPASS_COMPOSITOR"));
    assert_eq!(atom_of(&c[1].type_), Some(ATOM_CARDINAL));
    assert_eq!(words(&c[1].value), vec![2]);
    assert_eq!(str_name(&c[2].property), Some("_NET_WM_WINDOW_TYPE"));
    assert_eq!(atom_of(&c[2].type_), Some(ATOM_ATOM));
    match &c[2].value {
        PropVal::PropID(p) => assert_eq!(str_name(p), Some("_NET_WM_WINDOW_TYPE_NORMAL")),
        _ => panic!("window type value is an atom"),
    }
    for ch in c.iter() {
        assert_eq!(ch.window, 9);
    }
}

#[test]
fn normal_hints_layout() {
    let w = Window::new(9, (145, 40), (20, 1020));
    let c = w.set_normal_hints();
    assert_eq!(atom_of(&c.property), Some(ATOM_WM_NORMAL_HINTS));
    assert_eq!(atom_of(&c.type_), Some(ATOM_WM_SIZE_HINTS));
    assert_eq!(
        words(&c.value),
        vec![52, 20, 1020, 145, 40, 145, 40, 145, 40, 0, 0, 0, 0, 0, 0, 145, 40, 1]
    );
}

#[test]
fn resolve_names_the_missing_part() {
    let mut t = AtomTable::new();
    let w = Window::new(1, (10, 10), (0, 0));
    let c = w.set_decoration_disabled();
    assert_eq!(c[0].resolve(&t).err(), Some(SetPropError::Property));
    t.record(b"_NET_WM_WINDOW_TYPE", 500);
    assert_eq!(c[2].resolve(&t).err(), Some(SetPropError::Value));
    let odd = PropertyChange {
        window: 1,
        property: PropID::Atom(ATOM_WM_NAME),
        type_: PropID::Str("UTF8_STRING".to_string()),
        value: PropVal::Bytes(vec![]),
    };
    assert_eq!(odd.resolve(&t).err(), Some(SetPropError::Type));
    t.record(b"_NET_WM_WINDOW_TYPE_NORMAL", 501);
    let r = c[2].resolve(&t).unwrap();
    assert_eq!((r.property, r.type_), (500, ATOM_ATOM));
    assert_eq!(r.value.data, vec![0xf5, 1, 0, 0]);
}

#[test]
fn create_window_request() {
    let w = Window::new(77, (145, 40), (20, 1020));
    let r = w.create_window(0x100, 0x21);
    assert_eq!((r.window, r.parent, r.visual), (77, 0x100, 0x21));
    assert_eq!((r.x, r.y, r.width, r.height, r.border_width), (20, 1020, 145, 40, 0));
    assert_eq!(r.class, 1);
    assert_eq!(r.depth, 0);
    assert_eq!(r.event_mask, EVENT_MASK_EXPOSURE | EVENT_MASK_KEY_PRESS);
    assert_eq!(r.event_mask, 0x8001);
}

#[test]
fn show_maps_then_restates_position() {
    let w = Window::new(77, (145, 40), (20, 1020));
    let r = w.show();
    assert_eq!(r.len(), 2);
    assert!(matches!(r[0], Request::MapWindow(77)));
    match &r[1] {
        Request::ConfigurePosition(c) => assert_eq!((c.window, c.x, c.y), (77, 20, 1020)),
        _ => panic!("second request restates the position"),
    }
}

#[test]
fn graphics_context_binds_window_size() {
    let w = Window::new(77, (145, 40), (20, 1020));
    let g = w.get_graphics_context();
    assert_eq!((g.drawable, g.width, g.height), (77, 145, 40));
}

#[test]
fn decoration_and_normal_hints_do_not_overlap() {
    let mut t = AtomTable::new();
    t.record(b"_MOTIF_WM_HINTS", 300);
    t.record(b"_NET_WM_BYPASS_COMPOSITOR", 301);
    t.record(b"_NET_WM_WINDOW_TYPE", 302);
    t.record(b"_NET_WM_WINDOW_TYPE_NORMAL", 303);
    let w = Window::new(3, (145, 40), (20, 1020));
    let mut props: Vec<u32> = w
        .set_decoration_disabled()
        .iter()
        .map(|c| c.resolve(&t).unwrap().property)
        .collect();
    let n = w.set_normal_hints().resolve(&t).unwrap().property;
    assert!(!props.contains(&n));
    props.push(n);
    assert_eq!(props, vec![300, 301, 302, ATOM_WM_NORMAL_HINTS]);
}
