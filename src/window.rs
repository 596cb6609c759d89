use vstd::prelude::*;
use crate::atom::{
    AtomTable, ATOM_ATOM, ATOM_CARDINAL, ATOM_STRING, ATOM_WM_CLASS, ATOM_WM_NAME,
    ATOM_WM_NORMAL_HINTS, ATOM_WM_SIZE_HINTS,
};
use crate::property::{
    encoding, name_bytes, resolve_id, EncodedValue, PropID, PropIdView, PropVal, PropValView,
};

verus! {

/// Event mask bits a window is created with.
pub const EVENT_MASK_KEY_PRESS: u32 = 1;
pub const EVENT_MASK_EXPOSURE: u32 = 32768;

/// Window class InputOutput, and the depth taken from the parent.
pub const WINDOW_CLASS_INPUT_OUTPUT: u16 = 1;
pub const COPY_FROM_PARENT: u8 = 0;

/// Motif hints flag: the decorations field is meaningful.
pub const MWM_HINTS_DECORATIONS: u32 = 2;

/// `_NET_WM_BYPASS_COMPOSITOR` value 2: keep the compositor for this window.
pub const BYPASS_COMPOSITOR_KEEP: u32 = 2;

/// Size hint flags: program-specified position, minimum size, maximum size.
pub const SIZE_HINT_P_POSITION: u32 = 4;
pub const SIZE_HINT_P_MIN_SIZE: u32 = 16;
pub const SIZE_HINT_P_MAX_SIZE: u32 = 32;
pub const NORMAL_HINTS_FLAGS: u32 = 52;

/// Window gravity NorthWest.
pub const GRAVITY_NORTH_WEST: u32 = 1;

/// A change-property request in replace mode, before its atoms are resolved.
pub struct PropertyChange {
    pub window: u32,
    pub property: PropID,
    pub type_: PropID,
    pub value: PropVal,
}

/// What a `PropertyChange` asks for, as plain values.
pub struct ChangeView {
    pub window: u32,
    pub property: PropIdView,
    pub type_: PropIdView,
    pub value: PropValView,
}

impl View for PropertyChange {
    type V = ChangeView;

    open spec fn view(&self) -> ChangeView {
        ChangeView {
            window: self.window,
            property: self.property@,
            type_: self.type_@,
            value: self.value@,
        }
    }
}

/// A change-property request with every atom resolved and the value encoded.
pub struct ResolvedChange {
    pub window: u32,
    pub property: u32,
    pub type_: u32,
    pub value: EncodedValue,
}

/// The part of a property change whose atom is not known.
#[derive(PartialEq, Eq, Structural, Clone, Copy, Debug)]
pub enum SetPropError {
    Property,
    Type,
    Value,
}

/// What resolving `c` under `m` gives: the window, property atom, type atom
/// and encoded value, or the first part that cannot be resolved.
pub open spec fn resolution(c: ChangeView, m: Map<Seq<u8>, u32>) -> Result<
    (u32, u32, u32, (u8, nat, Seq<u8>)),
    SetPropError,
> {
    match resolve_id(c.property, m) {
        None => Err(SetPropError::Property),
        Some(p) => match resolve_id(c.type_, m) {
            None => Err(SetPropError::Type),
            Some(t) => match encoding(c.value, m) {
                None => Err(SetPropError::Value),
                Some(v) => Ok((c.window, p, t, v)),
            },
        },
    }
}

impl PropertyChange {
    /// Resolves the property name, the type name and the value's atom, in
    /// that order, and encodes the value.
    pub fn resolve(&self, table: &AtomTable) -> (r: Result<ResolvedChange, SetPropError>)
        requires
            table.wf(),
        ensures
            match resolution(self@, table@) {
                Ok(v) => r matches Ok(rc) && v == (rc.window, rc.property, rc.type_, rc.value@),
                Err(e) => r == Err::<ResolvedChange, SetPropError>(e),
            },
    {
        let property = match self.property.get_atom(table) {
            Some(a) => a,
            None => return Err(SetPropError::Property),
        };
        let type_ = match self.type_.get_atom(table) {
            Some(a) => a,
            None => return Err(SetPropError::Type),
        };
        let value = match self.value.encode(table) {
            Some(v) => v,
            None => return Err(SetPropError::Value),
        };
        Ok(ResolvedChange { window: self.window, property, type_, value })
    }
}

fn append_bytes(out: &mut Vec<u8>, b: &[u8])
    ensures
        final(out)@ == old(out)@ + b@,
{
    let mut i: usize = 0;
    while i < b.len()
        invariant
            0 <= i <= b@.len(),
            out@ == old(out)@ + b@.subrange(0, i as int),
        decreases b@.len() - i,
    {
        out.push(b[i]);
        assert(b@.subrange(0, i + 1) =~= b@.subrange(0, i as int).push(b@[i as int]));
        i = i + 1;
    }
    assert(b@.subrange(0, b@.len() as int) =~= b@);
}

/// The request that creates a window.
pub struct CreateWindowRequest {
    pub depth: u8,
    pub window: u32,
    pub parent: u32,
    pub x: i16,
    pub y: i16,
    pub width: u16,
    pub height: u16,
    pub border_width: u16,
    pub class: u16,
    pub visual: u32,
    pub event_mask: u32,
}

/// The request that moves a window to `(x, y)`.
#[derive(PartialEq, Eq, Structural, Clone, Copy, Debug)]
pub struct ConfigurePositionRequest {
    pub window: u32,
    pub x: u32,
    pub y: u32,
}

/// The surface a drawing context is bound to: a drawable and its pixel size.
#[derive(PartialEq, Eq, Structural, Clone, Copy, Debug)]
pub struct SurfaceBinding {
    pub drawable: u32,
    pub width: i32,
    pub height: i32,
}

/// The protocol requests a window issues.
pub enum Request {
    Create(CreateWindowRequest),
    ChangeProperty(PropertyChange),
    MapWindow(u32),
    ConfigurePosition(ConfigurePositionRequest),
}

/// A created window: its id, its size and its position, fixed at creation.
#[derive(Clone, Copy, Debug)]
pub struct Window {
    pub window: u32,
    pub size: (u16, u16),
    pub pos: (u32, u32),
}

pub open spec fn name_change(w: u32, name: Seq<char>) -> ChangeView {
    ChangeView {
        window: w,
        property: PropIdView::Atom(ATOM_WM_NAME),
        type_: PropIdView::Atom(ATOM_STRING),
        value: PropValView::Bytes(name_bytes(name)),
    }
}

/// `WM_CLASS` holds the instance name and the class name, a zero byte between.
pub open spec fn class_change(w: u32, name: Seq<char>, class: Seq<char>) -> ChangeView {
    ChangeView {
        window: w,
        property: PropIdView::Atom(ATOM_WM_CLASS),
        type_: PropIdView::Atom(ATOM_STRING),
        value: PropValView::Bytes(name_bytes(name) + seq![0u8] + name_bytes(class)),
    }
}

/// Motif hints: flags, functions, decorations, input mode, status; only the
/// decorations field is set, to none.
pub open spec fn motif_change(w: u32) -> ChangeView {
    ChangeView {
        window: w,
        property: PropIdView::Name("_MOTIF_WM_HINTS"@),
        type_: PropIdView::Name("_MOTIF_WM_HINTS"@),
        value: PropValView::Words(seq![MWM_HINTS_DECORATIONS, 0u32, 0u32, 0u32, 0u32]),
    }
}

pub open spec fn bypass_compositor_change(w: u32) -> ChangeView {
    ChangeView {
        window: w,
        property: PropIdView::Name("_NET_WM_BYPASS_COMPOSITOR"@),
        type_: PropIdView::Atom(ATOM_CARDINAL),
        value: PropValView::Words(seq![BYPASS_COMPOSITOR_KEEP]),
    }
}

pub open spec fn wm_type_normal_change(w: u32) -> ChangeView {
    ChangeView {
        window: w,
        property: PropIdView::Name("_NET_WM_WINDOW_TYPE"@),
        type_: PropIdView::Atom(ATOM_ATOM),
        value: PropValView::Id(PropIdView::Name("_NET_WM_WINDOW_TYPE_NORMAL"@)),
    }
}

/// The three changes that ask the window manager for no decorations, in the
/// order they are sent.
pub open spec fn decoration_changes(w: u32) -> Seq<ChangeView> {
    seq![motif_change(w), bypass_compositor_change(w), wm_type_normal_change(w)]
}

/// The eighteen fields of `WM_SIZE_HINTS`: flags; x, y, width, height;
/// minimum and maximum size; width and height increments; minimum and
/// maximum aspect; base size; gravity. Position, minimum and maximum size are
/// marked meaningful, and all sizes are the window's own.
pub open spec fn normal_hints_words(size: (u16, u16), pos: (u32, u32)) -> Seq<u32> {
    let w = size.0 as u32;
    let h = size.1 as u32;
    seq![
        NORMAL_HINTS_FLAGS, pos.0, pos.1, w, h, w, h, w, h,
        0u32, 0u32, 0u32, 0u32, 0u32, 0u32,
        w, h, GRAVITY_NORTH_WEST,
    ]
}

pub open spec fn normal_hints_change(w: u32, size: (u16, u16), pos: (u32, u32)) -> ChangeView {
    ChangeView {
        window: w,
        property: PropIdView::Atom(ATOM_WM_NORMAL_HINTS),
        type_: PropIdView::Atom(ATOM_WM_SIZE_HINTS),
        value: PropValView::Words(normal_hints_words(size, pos)),
    }
}

impl Window {
    /// A window record for the server-side window `window`.
    pub fn new(window: u32, size: (u16, u16), pos: (u32, u32)) -> (r: Window)
        ensures
            r.window == window,
            r.size == size,
            r.pos == pos,
    {
        Window { window, size, pos }
    }

    /// The request that creates this window as a child of `parent`, with the
    /// parent's visual, no border, and interest in exposure and key presses.
    /// The protocol carries the position in 16-bit signed fields.
    pub fn create_window(&self, parent: u32, visual: u32) -> (r: CreateWindowRequest)
        ensures
            r.depth == COPY_FROM_PARENT,
            r.window == self.window,
            r.parent == parent,
            r.x == self.pos.0 as i16,
            r.y == self.pos.1 as i16,
            r.width == self.size.0,
            r.height == self.size.1,
            r.border_width == 0,
            r.class == WINDOW_CLASS_INPUT_OUTPUT,
            r.visual == visual,
            r.event_mask == EVENT_MASK_EXPOSURE | EVENT_MASK_KEY_PRESS,
    {
        CreateWindowRequest {
            depth: COPY_FROM_PARENT,
            window: self.window,
            parent,
            x: self.pos.0 as i16,
            y: self.pos.1 as i16,
            width: self.size.0,
            height: self.size.1,
            border_width: 0,
            class: WINDOW_CLASS_INPUT_OUTPUT,
            visual,
            event_mask: EVENT_MASK_EXPOSURE | EVENT_MASK_KEY_PRESS,
        }
    }

    /// The changes that name the window: `WM_NAME`, then `WM_CLASS`.
    pub fn set_name(&self, name: &str, class: &str) -> (r: Vec<PropertyChange>)
        ensures
            r@.len() == 2,
            r@[0]@ == name_change(self.window, name@),
            r@[1]@ == class_change(self.window, name@, class@),
    {
        let mut name_value: Vec<u8> = Vec::new();
        append_bytes(&mut name_value, name.as_bytes());
        let mut class_value: Vec<u8> = Vec::new();
        append_bytes(&mut class_value, name.as_bytes());
        class_value.push(0u8);
        append_bytes(&mut class_value, class.as_bytes());
        assert(class_value@ =~= name_bytes(name@) + seq![0u8] + name_bytes(class@));
        let mut r: Vec<PropertyChange> = Vec::new();
        r.push(
            PropertyChange {
                window: self.window,
                property: PropID::Atom(ATOM_WM_NAME),
                type_: PropID::Atom(ATOM_STRING),
                value: PropVal::Bytes(name_value),
            },
        );
        r.push(
            PropertyChange {
                window: self.window,
                property: PropID::Atom(ATOM_WM_CLASS),
                type_: PropID::Atom(ATOM_STRING),
                value: PropVal::Bytes(class_value),
            },
        );
        r
    }

    fn set_decoration_disabled_motif(&self) -> (r: PropertyChange)
        ensures
            r@ == motif_change(self.window),
    {
        let words: Vec<u32> = vec![MWM_HINTS_DECORATIONS, 0u32, 0u32, 0u32, 0u32];
        let r = PropertyChange {
            window: self.window,
            property: PropID::Str("_MOTIF_WM_HINTS".to_owned()),
            type_: PropID::Str("_MOTIF_WM_HINTS".to_owned()),
            value: PropVal::Words(words),
        };
        assert(words@ =~= seq![MWM_HINTS_DECORATIONS, 0u32, 0u32, 0u32, 0u32]);
        r
    }

    fn set_decoration_disabled_net(&self) -> (r: PropertyChange)
        ensures
            r@ == bypass_compositor_change(self.window),
    {
        let words: Vec<u32> = vec![BYPASS_COMPOSITOR_KEEP];
        let r = PropertyChange {
            window: self.window,
            property: PropID::Str("_NET_WM_BYPASS_COMPOSITOR".to_owned()),
            type_: PropID::Atom(ATOM_CARDINAL),
            value: PropVal::Words(words),
        };
        assert(words@ =~= seq![BYPASS_COMPOSITOR_KEEP]);
        r
    }

    fn set_wm_type_normal(&self) -> (r: PropertyChange)
        ensures
            r@ == wm_type_normal_change(self.window),
    {
        PropertyChange {
            window: self.window,
            property: PropID::Str("_NET_WM_WINDOW_TYPE".to_owned()),
            type_: PropID::Atom(ATOM_ATOM),
            value: PropVal::PropID(PropID::Str("_NET_WM_WINDOW_TYPE_NORMAL".to_owned())),
        }
    }

    /// The changes that ask for an undecorated window: Motif hints, the
    /// compositor hint, and the window type "normal", in that order.
    pub fn set_decoration_disabled(&self) -> (r: Vec<PropertyChange>)
        ensures
            r@.len() == 3,
            forall|i: int| 0 <= i < 3 ==> #[trigger] r@[i]@ == decoration_changes(self.window)[i],
    {
        let mut r: Vec<PropertyChange> = Vec::new();
        r.push(self.set_decoration_disabled_motif());
        r.push(self.set_decoration_disabled_net());
        r.push(self.set_wm_type_normal());
        r
    }

    /// The `WM_NORMAL_HINTS` change that pins the window to its size and
    /// position.
    pub fn set_normal_hints(&self) -> (r: PropertyChange)
        ensures
            r@ == normal_hints_change(self.window, self.size, self.pos),
    {
        let w = self.size.0 as u32;
        let h = self.size.1 as u32;
        let words: Vec<u32> = vec![
            NORMAL_HINTS_FLAGS, self.pos.0, self.pos.1, w, h, w, h, w, h,
            0u32, 0u32, 0u32, 0u32, 0u32, 0u32,
            w, h, GRAVITY_NORTH_WEST,
        ];
        assert(words@ =~= normal_hints_words(self.size, self.pos));
        PropertyChange {
            window: self.window,
            property: PropID::Atom(ATOM_WM_NORMAL_HINTS),
            type_: PropID::Atom(ATOM_WM_SIZE_HINTS),
            value: PropVal::Words(words),
        }
    }

    /// The surface binding for drawing into this window at its size.
    pub fn get_graphics_context(&self) -> (r: SurfaceBinding)
        ensures
            r.drawable == self.window,
            r.width == self.size.0 as i32,
            r.height == self.size.1 as i32,
    {
        SurfaceBinding {
            drawable: self.window,
            width: self.size.0 as i32,
            height: self.size.1 as i32,
        }
    }

    /// Moves the window back to its own position.
    fn set_position(&self) -> (r: ConfigurePositionRequest)
        ensures
            r == (ConfigurePositionRequest { window: self.window, x: self.pos.0, y: self.pos.1 }),
    {
        ConfigurePositionRequest { window: self.window, x: self.pos.0, y: self.pos.1 }
    }

    /// The requests that show the window: map it, then restate its position,
    /// since window managers tend to move a window while mapping it.
    pub fn show(&self) -> (r: Vec<Request>)
        ensures
            r@.len() == 2,
            r@[0] matches Request::MapWindow(w) && w == self.window,
            r@[1] matches Request::ConfigurePosition(c) && c == (ConfigurePositionRequest {
                window: self.window,
                x: self.pos.0,
                y: self.pos.1,
            }),
    {
        let mut r: Vec<Request> = Vec::new();
        r.push(Request::MapWindow(self.window));
        r.push(Request::ConfigurePosition(self.set_position()));
        r
    }
}

/// What one change does to a window's properties, each held as property
/// atom to type atom and encoded value; `None` where it cannot be resolved.
pub open spec fn apply_change(
    store: Map<u32, (u32, (u8, nat, Seq<u8>))>,
    c: ChangeView,
    m: Map<Seq<u8>, u32>,
) -> Option<Map<u32, (u32, (u8, nat, Seq<u8>))>> {
    match resolution(c, m) {
        Ok((_w, p, t, v)) => Some(store.insert(p, (t, v))),
        Err(_) => None,
    }
}

/// What a list of changes sent in order does to a window's properties: each
/// one that succeeds replaces its property; the first that fails ends the
/// list, and those before it stay.
pub open spec fn apply_changes(
    store: Map<u32, (u32, (u8, nat, Seq<u8>))>,
    cs: Seq<ChangeView>,
    m: Map<Seq<u8>, u32>,
) -> Map<u32, (u32, (u8, nat, Seq<u8>))>
    decreases cs.len(),
{
    if cs.len() == 0 {
        store
    } else {
        match apply_change(store, cs[0], m) {
            Some(next) => apply_changes(next, cs.drop_first(), m),
            None => store,
        }
    }
}

/// No change of `cs` writes property `k`.
pub open spec fn never_writes(cs: Seq<ChangeView>, m: Map<Seq<u8>, u32>, k: u32) -> bool {
    forall|i: int| 0 <= i < cs.len() ==> resolve_id(#[trigger] cs[i].property, m) != Some(k)
}

proof fn lemma_apply_commutes_with_insert(
    store: Map<u32, (u32, (u8, nat, Seq<u8>))>,
    cs: Seq<ChangeView>,
    m: Map<Seq<u8>, u32>,
    k: u32,
    v: (u32, (u8, nat, Seq<u8>)),
)
    requires
        never_writes(cs, m, k),
    ensures
        apply_changes(store.insert(k, v), cs, m) == apply_changes(store, cs, m).insert(k, v),
        apply_changes(store, cs, m).contains_key(k) == store.contains_key(k),
        store.contains_key(k) ==> apply_changes(store, cs, m)[k] == store[k],
    decreases cs.len(),
{
    if cs.len() > 0 {
        assert(resolve_id(cs[0].property, m) != Some(k));
        let rest = cs.drop_first();
        assert(never_writes(rest, m, k)) by {
            assert forall|i: int| 0 <= i < rest.len() implies resolve_id(
                #[trigger] rest[i].property,
                m,
            ) != Some(k) by {
                assert(rest[i] == cs[i + 1]);
            }
        }
        match resolution(cs[0], m) {
            Ok((_w, p, t, val)) => {
                assert(store.insert(k, v).insert(p, (t, val)) =~= store.insert(p, (t, val)).insert(
                    k,
                    v,
                ));
                lemma_apply_commutes_with_insert(store.insert(p, (t, val)), rest, m, k, v);
            },
            Err(_) => {},
        }
    }
}

/// The value `WM_NORMAL_HINTS` holds once set for a window of this size and
/// position.
pub open spec fn normal_hints_value(size: (u16, u16), pos: (u32, u32)) -> (
    u32,
    (u8, nat, Seq<u8>),
) {
    (ATOM_WM_SIZE_HINTS, (32u8, 18nat, crate::property::words_bytes(normal_hints_words(size, pos))))
}

/// Disabling decorations and setting the normal hints touch disjoint
/// properties: either order gives the same properties, decorations alone leave
/// `WM_NORMAL_HINTS` as it was (absent stays absent), and the normal hints
/// alone replace that one property and nothing else. This needs only that no
/// decoration property name resolves to the atom of `WM_NORMAL_HINTS`.
pub proof fn lemma_decoration_independent_of_normal_hints(
    store: Map<u32, (u32, (u8, nat, Seq<u8>))>,
    m: Map<Seq<u8>, u32>,
    w: u32,
    size: (u16, u16),
    pos: (u32, u32),
)
    requires
        resolve_id(PropIdView::Name("_MOTIF_WM_HINTS"@), m) != Some(ATOM_WM_NORMAL_HINTS),
        resolve_id(PropIdView::Name("_NET_WM_BYPASS_COMPOSITOR"@), m) != Some(
            ATOM_WM_NORMAL_HINTS,
        ),
        resolve_id(PropIdView::Name("_NET_WM_WINDOW_TYPE"@), m) != Some(ATOM_WM_NORMAL_HINTS),
    ensures
        apply_changes(store, seq![normal_hints_change(w, size, pos)], m) == store.insert(
            ATOM_WM_NORMAL_HINTS,
            normal_hints_value(size, pos),
        ),
        apply_changes(
            apply_changes(store, decoration_changes(w), m),
            seq![normal_hints_change(w, size, pos)],
            m,
        ) == apply_changes(
            apply_changes(store, seq![normal_hints_change(w, size, pos)], m),
            decoration_changes(w),
            m,
        ),
        apply_changes(store, decoration_changes(w), m).contains_key(ATOM_WM_NORMAL_HINTS)
            == store.contains_key(ATOM_WM_NORMAL_HINTS),
        store.contains_key(ATOM_WM_NORMAL_HINTS) ==> apply_changes(
            store,
            decoration_changes(w),
            m,
        )[ATOM_WM_NORMAL_HINTS] == store[ATOM_WM_NORMAL_HINTS],
{
    let d = decoration_changes(w);
    let n = seq![normal_hints_change(w, size, pos)];
    let v = normal_hints_value(size, pos);
    assert(never_writes(d, m, ATOM_WM_NORMAL_HINTS)) by {
        assert forall|i: int| 0 <= i < d.len() implies resolve_id(
            #[trigger] d[i].property,
            m,
        ) != Some(ATOM_WM_NORMAL_HINTS) by {
            if i == 0 {
                assert(d[0] == motif_change(w));
            } else if i == 1 {
                assert(d[1] == bypass_compositor_change(w));
            } else {
                assert(d[2] == wm_type_normal_change(w));
            }
        }
    }
    assert(normal_hints_words(size, pos).len() == 18);
    assert(apply_change(store, n[0], m) == Some(store.insert(ATOM_WM_NORMAL_HINTS, v)));
    assert(n.drop_first().len() == 0);
    assert(apply_changes(store.insert(ATOM_WM_NORMAL_HINTS, v), n.drop_first(), m) == store.insert(
        ATOM_WM_NORMAL_HINTS,
        v,
    ));
    assert(apply_changes(store, n, m) == store.insert(ATOM_WM_NORMAL_HINTS, v));
    let after_d = apply_changes(store, d, m);
    assert(apply_change(after_d, n[0], m) == Some(after_d.insert(ATOM_WM_NORMAL_HINTS, v)));
    assert(apply_changes(after_d.insert(ATOM_WM_NORMAL_HINTS, v), n.drop_first(), m)
        == after_d.insert(ATOM_WM_NORMAL_HINTS, v));
    assert(apply_changes(after_d, n, m) == after_d.insert(ATOM_WM_NORMAL_HINTS, v));
    lemma_apply_commutes_with_insert(store, d, m, ATOM_WM_NORMAL_HINTS, v);
}

} // verus!
