//! The window resource model: geometry, presentation attributes and named
//! properties, owned by the server and shared by every client connection.

use crate::protocol::BackingStore;
use crate::protocol::BitGravity;
use crate::protocol::Class;
use crate::protocol::MapState;
use crate::protocol::Rectangle;
use crate::protocol::WinGravity;
use vstd::prelude::*;

verus! {

/// Mathematical value of a property: its type atom, its unit format and its
/// data bytes.
pub ghost struct PropertyView {
    /// The atom identifying the semantic type of the data.
    pub property_type: u32,
    /// Bit width of each data unit (8, 16 or 32).
    pub format: u8,
    /// The raw data bytes.
    pub data: Seq<u8>,
}

/// A property associated to a window: a typed, named byte blob.
pub struct Property {
    /// The atom of the name of the data's type.
    property_type: u32,
    /// The data's format.
    format: u8,
    /// The property's data.
    data: Vec<u8>,
}

impl View for Property {
    type V = PropertyView;

    closed spec fn view(&self) -> PropertyView {
        PropertyView {
            property_type: self.property_type,
            format: self.format,
            data: self.data@,
        }
    }
}

impl Property {
    /// Builds a property from its type atom, unit format and data bytes.
    pub fn new(property_type: u32, format: u8, data: Vec<u8>) -> (r: Self)
        ensures
            r@ == (PropertyView { property_type, format, data: data@ }),
    {
        Self { property_type, format, data }
    }

    /// Returns the atom of the type of the property.
    pub fn get_type(&self) -> (r: u32)
        ensures
            r == self@.property_type,
    {
        self.property_type
    }

    /// Returns the format of the property.
    pub fn get_format(&self) -> (r: u8)
        ensures
            r == self@.format,
    {
        self.format
    }

    /// Returns a slice to the property's data.
    pub fn get_data(&self) -> (r: &[u8])
        ensures
            r@ == self@.data,
    {
        self.data.as_slice()
    }
}

/// Structure storing a window's presentation attributes: pure value data, no
/// behavior. The defaults are the server's policy, stated by
/// [`spec_default_attributes`].
#[derive(Clone, Copy, Debug, PartialEq, Eq, Structural)]
pub struct WindowAttributes {
    /// Pixmap painted behind the window, if any.
    pub background_pixmap: u32,
    /// Solid background color when no pixmap is set.
    pub background_pixel: u32,
    /// Pixmap painted on the border, if any.
    pub border_pixmap: u32,
    /// Solid border color when no pixmap is set.
    pub border_pixel: u32,
    /// Which region of the contents is kept on resize.
    pub bit_gravity: BitGravity,
    /// Where the window moves when its parent is resized.
    pub win_gravity: WinGravity,
    /// Whether obscured contents should be preserved.
    pub backing_store: BackingStore,
    /// Planes to preserve when backing is in use.
    pub backing_planes: u32,
    /// Pixel used for planes that are not preserved.
    pub backing_pixel: u32,
    /// Whether map/configure requests from other clients are overridden.
    pub override_redirect: bool,
    /// Whether the region under the window should be saved.
    pub save_under: bool,
    /// Events selected on the window.
    pub event_mask: u32,
    /// Events that must not propagate to ancestors.
    pub do_not_propagate_mask: u32,
    /// Colormap of the window.
    pub colormap: u32,
    /// Cursor shown over the window.
    pub cursor: u32,
    /// Identifier of the window's visual.
    pub visual: u32,
    /// Input/output class of the window.
    pub class: Class,
    /// Backing placement hint.
    pub backing_places: u32,
    /// Whether the window's colormap is installed.
    pub map_is_installed: u8,
    /// Visibility state of the window.
    pub map_state: MapState,
}

/// The attribute record a window starts with.
pub open spec fn spec_default_attributes() -> WindowAttributes {
    WindowAttributes {
        background_pixmap: 0,
        background_pixel: 0,
        border_pixmap: 0,
        border_pixel: 0,
        bit_gravity: BitGravity::Forget,
        win_gravity: WinGravity::Unmap,
        backing_store: BackingStore::NotUseful,
        backing_planes: 0,
        backing_pixel: 0,
        override_redirect: false,
        save_under: false,
        event_mask: 0,
        do_not_propagate_mask: 0,
        colormap: 0,
        cursor: 0,
        visual: 0,
        class: Class::InputOnly,
        backing_places: 0,
        map_is_installed: 0,
        map_state: MapState::Unviewable,
    }
}

impl Default for WindowAttributes {
    /// Returns the server's default presentation attributes.
    fn default() -> (r: Self)
        ensures
            r == spec_default_attributes(),
    {
        Self {
            background_pixmap: 0,
            background_pixel: 0,
            border_pixmap: 0,
            border_pixel: 0,
            bit_gravity: BitGravity::Forget,
            win_gravity: WinGravity::Unmap,
            backing_store: BackingStore::NotUseful,
            backing_planes: 0,
            backing_pixel: 0,
            override_redirect: false,
            save_under: false,
            event_mask: 0,
            do_not_propagate_mask: 0,
            colormap: 0,
            cursor: 0,
            visual: 0,
            class: Class::InputOnly,
            backing_places: 0,
            map_is_installed: 0,
            map_state: MapState::Unviewable,
        }
    }
}

/// Holds when the entry at index `i` of `s` carries the property name `k`.
pub open spec fn prop_key_at(s: Seq<(String, Property)>, k: Seq<char>, i: int) -> bool {
    0 <= i < s.len() && s[i].0@ == k
}

/// The property stored in `s` under the name `k`, if any.
pub open spec fn prop_lookup(s: Seq<(String, Property)>, k: Seq<char>) -> Option<PropertyView> {
    if exists|i: int| prop_key_at(s, k, i) {
        Some(s[choose|i: int| prop_key_at(s, k, i)].1@)
    } else {
        None
    }
}

/// A window to be rendered on screen.
pub struct Window {
    /// Tells whether the window is a root window.
    root: bool,
    /// The depth of the pixmap.
    depth: u8,
    /// The position and size of the window.
    rect: Rectangle,
    /// The width of the window's border.
    border_width: u16,
    /// The properties of the window, each under a distinct name.
    properties: Vec<(String, Property)>,
    /// The window's attributes.
    pub attributes: WindowAttributes,
}

impl Window {
    /// Whether the window is a root window.
    pub closed spec fn is_root(&self) -> bool {
        self.root
    }

    /// The stored position and size.
    pub closed spec fn spec_rect(&self) -> Rectangle {
        self.rect
    }

    /// The stored pixmap depth.
    pub closed spec fn spec_depth(&self) -> u8 {
        self.depth
    }

    /// The stored border width.
    pub closed spec fn spec_border_width(&self) -> u16 {
        self.border_width
    }

    /// The stored presentation attributes.
    pub closed spec fn spec_attributes(&self) -> WindowAttributes {
        self.attributes
    }

    /// The property stored under name `k`, if any.
    pub closed spec fn spec_prop(&self, k: Seq<char>) -> Option<PropertyView> {
        prop_lookup(self.properties@, k)
    }

    /// Well-formedness: a root window sits at the origin, and no two
    /// properties share a name.
    pub closed spec fn wf(&self) -> bool {
        &&& self.root ==> self.rect.x == 0 && self.rect.y == 0
        &&& forall|i: int, j: int|
            0 <= i < j < self.properties@.len() ==> self.properties@[i].0@
                != self.properties@[j].0@
    }

    /// Creates a new root window. By default, the window has size 0*0.
    pub fn new_root() -> (r: Self)
        ensures
            r.wf(),
            r.is_root(),
            r.spec_rect() == (Rectangle { x: 0i16, y: 0i16, width: 0u16, height: 0u16 }),
            r.spec_depth() == 24u8,
            r.spec_border_width() == 0u16,
            forall|k: Seq<char>| r.spec_prop(k) is None,
            r.spec_attributes() == spec_default_attributes(),
    {
        Self {
            root: true,
            depth: 24,
            rect: Rectangle { x: 0, y: 0, width: 0, height: 0 },
            border_width: 0,
            properties: Vec::new(),
            attributes: WindowAttributes::default(),
        }
    }

    /// Returns the position and size of the window.
    pub fn get_rectangle(&self) -> (r: &Rectangle)
        ensures
            *r == self.spec_rect(),
    {
        &self.rect
    }

    /// Sets the position and size of the window.
    ///
    /// A root window is pinned to the origin: a rectangle with a nonzero
    /// offset is silently rejected and the stored rectangle is left
    /// unchanged, while an origin rectangle of any size is accepted fully.
    pub fn set_rectangle(&mut self, rect: Rectangle)
        requires
            old(self).wf(),
        ensures
            final(self).wf(),
            old(self).is_root() && (rect.x != 0 || rect.y != 0) ==> *final(self) == *old(self),
            !(old(self).is_root() && (rect.x != 0 || rect.y != 0)) ==> final(self).spec_rect()
                == rect,
            final(self).is_root() == old(self).is_root(),
            final(self).spec_depth() == old(self).spec_depth(),
            final(self).spec_border_width() == old(self).spec_border_width(),
            final(self).spec_attributes() == old(self).spec_attributes(),
            forall|k: Seq<char>| final(self).spec_prop(k) == old(self).spec_prop(k),
    {
        if self.root && (rect.x != 0 || rect.y != 0) {
            return;
        }
        self.rect = rect;
    }

    /// Returns the property with the given name. If the property doesn't
    /// exist, the function returns None.
    pub fn get_property(&self, name: &String) -> (r: Option<&Property>)
        requires
            self.wf(),
        ensures
            match r {
                Some(p) => self.spec_prop(name@) == Some(p@),
                None => self.spec_prop(name@) is None,
            },
    {
        let n = self.properties.len();
        let mut i: usize = 0;
        while i < n
            invariant
                self.wf(),
                n == self.properties@.len(),
                i <= n,
                forall|j: int| 0 <= j < i ==> self.properties@[j].0@ != name@,
            decreases n - i,
        {
            if self.properties[i].0 == *name {
                proof {
                    assert(prop_key_at(self.properties@, name@, i as int));
                    let w = choose|w: int| prop_key_at(self.properties@, name@, w);
                    assert(w == i as int);
                }
                return Some(&self.properties[i].1);
            }
            i += 1;
        }
        None
    }

    /// Stores `prop` under `name`, replacing any property already stored
    /// under that name. Together with [`Self::get_property`], this says that
    /// a stored property reads back exactly as it was written, and that no
    /// other name is disturbed.
    pub fn set_property(&mut self, name: String, prop: Property)
        requires
            old(self).wf(),
        ensures
            final(self).wf(),
            final(self).spec_prop(name@) == Some(prop@),
            forall|k: Seq<char>| k != name@ ==> final(self).spec_prop(k) == old(self).spec_prop(
                k,
            ),
            final(self).is_root() == old(self).is_root(),
            final(self).spec_rect() == old(self).spec_rect(),
            final(self).spec_depth() == old(self).spec_depth(),
            final(self).spec_border_width() == old(self).spec_border_width(),
            final(self).spec_attributes() == old(self).spec_attributes(),
    {
        self.delete_property(&name);
        let ghost s1 = self.properties@;
        let ghost mid = *self;
        self.properties.push((name, prop));
        proof {
            let s2 = self.properties@;
            let last = s1.len() as int;
            assert(s2[last].0@ == name@);
            assert(prop_key_at(s2, name@, last));
            assert(mid.spec_prop(name@) is None);
            assert forall|i: int| 0 <= i < s1.len() implies s2[i] == s1[i] by {}
            assert forall|i: int| !prop_key_at(s1, name@, i) by {}
            assert forall|a: int, b: int| 0 <= a < b < s2.len() implies s2[a].0@ != s2[b].0@ by {
                if b < last {
                    assert(s2[a] == s1[a] && s2[b] == s1[b]);
                } else {
                    assert(s2[a] == s1[a]);
                    assert(!prop_key_at(s1, name@, a));
                }
            }
            assert forall|k: Seq<char>| k != name@ implies self.spec_prop(k) == mid.spec_prop(
                k,
            ) by {
                if exists|i: int| prop_key_at(s2, k, i) {
                    let i = choose|i: int| prop_key_at(s2, k, i);
                    assert(i < last);
                    assert(prop_key_at(s1, k, i));
                    let j = choose|j: int| prop_key_at(s1, k, j);
                    assert(i == j);
                } else {
                    assert forall|i: int| !prop_key_at(s1, k, i) by {
                        if 0 <= i < s1.len() {
                            assert(!prop_key_at(s2, k, i));
                        }
                    }
                }
            }
            let w = choose|w: int| prop_key_at(s2, name@, w);
            if w != last {
                assert(prop_key_at(s1, name@, w));
            }
            assert(self.spec_prop(name@) == Some(prop@));
        }
    }

    /// Deletes the property with the given name. If the property doesn't
    /// exist, the function does nothing.
    pub fn delete_property(&mut self, name: &String)
        requires
            old(self).wf(),
        ensures
            final(self).wf(),
            final(self).spec_prop(name@) is None,
            forall|k: Seq<char>| k != name@ ==> final(self).spec_prop(k) == old(self).spec_prop(
                k,
            ),
            final(self).is_root() == old(self).is_root(),
            final(self).spec_rect() == old(self).spec_rect(),
            final(self).spec_depth() == old(self).spec_depth(),
            final(self).spec_border_width() == old(self).spec_border_width(),
            final(self).spec_attributes() == old(self).spec_attributes(),
    {
        let n = self.properties.len();
        let mut i: usize = 0;
        while i < n
            invariant
                self.wf(),
                n == self.properties@.len(),
                i <= n,
                forall|j: int| 0 <= j < i ==> self.properties@[j].0@ != name@,
                *self == *old(self),
            decreases n - i,
        {
            if self.properties[i].0 == *name {
                let ghost s1 = self.properties@;
                let ghost i0 = i as int;
                self.properties.remove(i);
                proof {
                    let s2 = self.properties@;
                    assert forall|a: int, b: int|
                        0 <= a < b < s2.len() implies s2[a].0@ != s2[b].0@ by {
                        let a1: int = if a < i0 { a } else { a + 1 };
                        let b1: int = if b < i0 { b } else { b + 1 };
                        assert(s2[a] == s1[a1] && s2[b] == s1[b1]);
                    }
                    assert forall|j: int| !prop_key_at(s2, name@, j) by {
                        if 0 <= j < s2.len() {
                            let j1: int = if j < i0 { j } else { j + 1 };
                            assert(s2[j] == s1[j1]);
                            assert(s1[j1].0@ != name@);
                        }
                    }
                    assert forall|k: Seq<char>| k != name@ implies self.spec_prop(k)
                        == old(self).spec_prop(k) by {
                        if exists|a: int| prop_key_at(s2, k, a) {
                            let a = choose|a: int| prop_key_at(s2, k, a);
                            let a1: int = if a < i0 { a } else { a + 1 };
                            assert(s2[a] == s1[a1]);
                            assert(prop_key_at(s1, k, a1));
                            let b = choose|b: int| prop_key_at(s1, k, b);
                            assert(b == a1);
                        } else if exists|b: int| prop_key_at(s1, k, b) {
                            let b = choose|b: int| prop_key_at(s1, k, b);
                            assert(b != i0);
                            let b2: int = if b < i0 { b } else { b - 1 };
                            assert(s2[b2] == s1[b]);
                            assert(prop_key_at(s2, k, b2));
                        }
                    }
                }
                return;
            }
            i += 1;
        }
    }

    /// Returns the depth of the window's pixmap.
    pub fn get_depth(&self) -> (r: u8)
        ensures
            r == self.spec_depth(),
    {
        self.depth
    }

    /// Returns the identifier of the window's root drawable. This server has
    /// a single root, which carries the identifier zero.
    pub fn get_root(&self) -> (r: u32)
        ensures
            r == 0u32,
    {
        0
    }

    /// Returns the horizontal position of the window.
    pub fn get_x(&self) -> (r: i16)
        ensures
            r == self.spec_rect().x,
    {
        self.rect.x
    }

    /// Returns the vertical position of the window.
    pub fn get_y(&self) -> (r: i16)
        ensures
            r == self.spec_rect().y,
    {
        self.rect.y
    }

    /// Returns the width of the window.
    pub fn get_width(&self) -> (r: u16)
        ensures
            r == self.spec_rect().width,
    {
        self.rect.width
    }

    /// Returns the height of the window.
    pub fn get_height(&self) -> (r: u16)
        ensures
            r == self.spec_rect().height,
    {
        self.rect.height
    }

    /// Returns the width of the window's border.
    pub fn get_border_width(&self) -> (r: u16)
        ensures
            r == self.spec_border_width(),
    {
        self.border_width
    }
}

} // verus!
