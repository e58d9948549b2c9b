use vstd::prelude::*;
use crate::focus_taken::{FocusTaken, focus_join, focus_rank};
use crate::mouse_data::{ButtonState, MouseState};
use crate::output::{CursorStyle, GuiOutput, GuiOutputView, clipboard_opt_view};
use crate::DearMirlGuiCoordinateType;

verus! {

#[derive(Debug, Clone, Copy, PartialEq, Eq, Structural, Hash)]
/// A boolean for each simple direction: in which directions a window may be resized
pub struct ResizeDirections {
    /// Top edge
    pub top: bool,
    /// Bottom edge
    pub bottom: bool,
    /// Left edge
    pub left: bool,
    /// Right edge
    pub right: bool,
    /// Top left corner
    pub top_left: bool,
    /// Top right corner
    pub top_right: bool,
    /// Bottom left corner
    pub bottom_left: bool,
    /// Bottom right corner
    pub bottom_right: bool,
}

/// If the edge or corner `direction` is allowed (0 top left, then clockwise to 7 left)
pub open spec fn direction_allowed(d: ResizeDirections, direction: u8) -> bool {
    if direction == 0 {
        d.top_left
    } else if direction == 1 {
        d.top
    } else if direction == 2 {
        d.top_right
    } else if direction == 3 {
        d.right
    } else if direction == 4 {
        d.bottom_right
    } else if direction == 5 {
        d.bottom
    } else if direction == 6 {
        d.bottom_left
    } else if direction == 7 {
        d.left
    } else {
        false
    }
}

impl ResizeDirections {
    /// Create the directions from the four edges; a corner is allowed when both its edges are
    pub fn new(top: bool, bottom: bool, left: bool, right: bool) -> (r: Self)
        ensures
            r == (ResizeDirections {
                top,
                bottom,
                left,
                right,
                top_left: top && left,
                top_right: top && right,
                bottom_left: bottom && left,
                bottom_right: bottom && right,
            }),
    {
        ResizeDirections {
            top,
            bottom,
            left,
            right,
            top_left: top && left,
            top_right: top && right,
            bottom_left: bottom && left,
            bottom_right: bottom && right,
        }
    }

    /// Every direction allowed
    pub fn all_true() -> (r: Self)
        ensures
            forall|d: u8| d < 8 ==> #[trigger] direction_allowed(r, d),
    {
        ResizeDirections {
            top: true,
            bottom: true,
            left: true,
            right: true,
            top_left: true,
            top_right: true,
            bottom_left: true,
            bottom_right: true,
        }
    }

    /// No direction allowed
    pub fn all_false() -> (r: Self)
        ensures
            forall|d: u8| !#[trigger] direction_allowed(r, d),
    {
        ResizeDirections {
            top: false,
            bottom: false,
            left: false,
            right: false,
            top_left: false,
            top_right: false,
            bottom_left: false,
            bottom_right: false,
        }
    }

    /// Check if a direction is allowed
    pub fn is_direction_allowed_u8(&self, direction: u8) -> (r: bool)
        ensures
            r == direction_allowed(*self, direction),
    {
        match direction {
            0 => self.top_left,
            1 => self.top,
            2 => self.top_right,
            3 => self.right,
            4 => self.bottom_right,
            5 => self.bottom,
            6 => self.bottom_left,
            7 => self.left,
            _ => false,
        }
    }
}

/// The point lies in the rectangle at (x, y) of the given size, edges included
pub open spec fn rect_contains(x: int, y: int, width: int, height: int, p: (i32, i32)) -> bool {
    x <= p.0 <= x + width && y <= p.1 <= y + height
}

/// The point lies in the circle drawn in the square at (x, y) with side `radius`
/// (its center is half a radius in from the corner)
pub open spec fn circle_contains(x: int, y: int, radius: int, p: (i32, i32)) -> bool {
    let half = radius / 2;
    let dx = p.0 - (x + half);
    let dy = p.1 - (y + half);
    dx * dx + dy * dy <= radius * radius
}

/// How dragging the given corner or edge by `d` changes (x, y, width, height)
pub open spec fn metric_change(corner: u8, d: (i32, i32)) -> (int, int, int, int) {
    if corner == 0 {
        (d.0 as int, d.1 as int, -d.0, -d.1)
    } else if corner == 1 {
        (0, d.1 as int, 0, -d.1)
    } else if corner == 2 {
        (0, d.1 as int, d.0 as int, -d.1)
    } else if corner == 3 {
        (0, 0, d.0 as int, 0)
    } else if corner == 4 {
        (0, 0, d.0 as int, d.1 as int)
    } else if corner == 5 {
        (0, 0, 0, d.1 as int)
    } else if corner == 6 {
        (d.0 as int, 0, -d.0, d.1 as int)
    } else if corner == 7 {
        (d.0 as int, 0, -d.0, 0)
    } else {
        (0, 0, 0, 0)
    }
}

/// The cursor shown at a corner or edge
pub open spec fn corner_cursor(corner: u8) -> Option<CursorStyle> {
    if corner == 0 || corner == 4 {
        Some(CursorStyle::ResizeNWSE)
    } else if corner == 1 || corner == 5 {
        Some(CursorStyle::ResizeVertically)
    } else if corner == 2 || corner == 6 {
        Some(CursorStyle::ResizeNESW)
    } else if corner == 3 || corner == 7 {
        Some(CursorStyle::ResizeHorizontally)
    } else {
        None
    }
}

/// Convert a corner type into the cursor style for resizing there
pub fn corner_type_to_cursor_style(corner: u8) -> (r: Option<CursorStyle>)
    ensures
        r == corner_cursor(corner),
{
    match corner {
        0 | 4 => Some(CursorStyle::ResizeNWSE),
        1 | 5 => Some(CursorStyle::ResizeVertically),
        2 | 6 => Some(CursorStyle::ResizeNESW),
        3 | 7 => Some(CursorStyle::ResizeHorizontally),
        _ => None,
    }
}

/// Convert a corner type and a mouse movement into the change of x, y, width and height
pub fn corner_type_and_delta_to_metric_change(corner: u8, d: (i32, i32)) -> (r: (i32, i32, i32, i32))
    requires
        d.0 > i32::MIN,
        d.1 > i32::MIN,
    ensures
        (r.0 as int, r.1 as int, r.2 as int, r.3 as int) == metric_change(corner, d),
{
    match corner {
        0 => (d.0, d.1, -d.0, -d.1),
        1 => (0, d.1, 0, -d.1),
        2 => (0, d.1, d.0, -d.1),
        3 => (0, 0, d.0, 0),
        4 => (0, 0, d.0, d.1),
        5 => (0, 0, 0, d.1),
        6 => (d.0, 0, -d.0, d.1),
        7 => (d.0, 0, -d.0, 0),
        _ => (0, 0, 0, 0),
    }
}

/// The value an `i32` holds, as an integer
pub open spec fn fits_i32(v: int) -> bool {
    i32::MIN <= v <= i32::MAX
}

/// A size as a screen coordinate (the cast keeps the low 32 bits)
pub open spec fn coord(v: usize) -> int {
    (v as i32) as int
}

/// A size as a screen coordinate
#[verifier::truncate]
fn to_coord(v: usize) -> (r: i32)
    ensures
        r as int == coord(v),
{
    #[verifier::truncate]
    (v as i32)
}


/// A single window: its place, size, modules and the state of dragging and resizing it
pub struct DearMirlGui<const FAST: bool, const USE_CACHE: bool> {
    /// Title displayed on top of the menu bar
    pub title: String,
    /// Width of the window - modules that exceed this will be visually cut off
    pub width: usize,
    /// Height of the window - modules that exceed this will be visually cut off
    pub height: usize,
    /// X position on screen
    pub x: DearMirlGuiCoordinateType,
    /// Y position on screen
    pub y: DearMirlGuiCoordinateType,
    /// Added modules
    pub modules: Vec<u32>,
    /// Toolbar modules - Arranged horizontally instead of vertically
    pub toolbar_modules: Vec<u32>,
    /// Last saved mouse position - is `(i32::MIN, i32::MIN)` when invalidated
    pub last_mouse_pos: (i32, i32),
    /// If the left mouse button was pressed last frame
    pub last_left_mouse_down: bool,
    /// If the middle mouse button was pressed last frame
    pub last_middle_mouse_down: bool,
    /// If the right mouse button was pressed last frame
    pub last_right_mouse_down: bool,
    /// If the user is currently resizing the window
    pub resizing: bool,
    /// At what corner the user currently has their mouse, is `u8::MAX` when not in range
    pub at_corner: u8,
    /// If the user is currently dragging the window
    pub dragging: bool,
    /// Just the menu height, windows cannot be vertically smaller than this
    pub menu_height: usize,
    /// The minimum menu width - Menus cannot be horizontally smaller than this
    pub min_width: usize,
    /// If the window should be collapsed
    pub collapsed: bool,
    /// If the collapse button collision should be circular
    pub collapse_button_collision_is_circle: bool,
    /// If there have been any changes to the gui
    pub needs_redraw: bool,
    /// In what directions resizing is allowed
    pub resizing_allowed_in_directions: ResizeDirections,
    /// If you're allowed to drag the window
    pub allow_dragging: bool,
    /// The container id of the window
    pub id: usize,
    /// A small cache for the total size - Not always 100% accurate
    pub size_to_see_all_modules: Option<(DearMirlGuiCoordinateType, DearMirlGuiCoordinateType)>,
}

/// The height of the menu bar when none is given
pub const DEFAULT_MENU_HEIGHT: usize = 20;

/// `a` with the first `x` removed, if there is one
pub open spec fn without_first(a: Seq<u32>, x: u32) -> Seq<u32> {
    match a.index_of_first(x) {
        Some(i) => a.remove(i),
        None => a,
    }
}

/// The first position of `x` in `v`, if any
fn find_u32(v: &Vec<u32>, x: u32) -> (r: Option<usize>)
    ensures
        match r {
            Some(i) => i < v@.len() && v@[i as int] == x && forall|j: int| 0 <= j < i ==> v@[j] != x,
            None => !v@.contains(x),
        },
{
    let mut i: usize = 0;
    while i < v.len()
        invariant
            i <= v@.len(),
            forall|j: int| 0 <= j < i ==> v@[j] != x,
        decreases v.len() - i,
    {
        if v[i] == x {
            return Some(i);
        }
        i = i + 1;
    }
    None
}

/// Remove the first `x` from a list, if there is one
fn remove_first(v: &mut Vec<u32>, x: u32)
    ensures
        final(v)@ == without_first(old(v)@, x),
{
    match find_u32(v, x) {
        Some(i) => {
            proof {
                let a = old(v)@;
                a.index_of_first_ensures(x);
                let k = a.index_of_first(x)->0;
                assert(k == i as int) by {
                    if k < i {
                        assert(a[k] != x);
                    }
                    if i < k {
                        assert(a[i as int] != x);
                    }
                }
            }
            v.remove(i);
        },
        None => {
            proof {
                old(v)@.index_of_first_ensures(x);
            }
        },
    }
}

impl<const FAST: bool, const USE_CACHE: bool> DearMirlGui<FAST, USE_CACHE> {
    /// Create a window at `pos` with the given modules; `title_width` is the width of the
    /// title text at the menu height, `id` its container id. Its size starts at zero.
    pub fn new_simple(title: &str, pos: (DearMirlGuiCoordinateType, DearMirlGuiCoordinateType), modules: &Vec<u32>, title_width: usize, id: usize) -> (r: Self)
        requires
            title_width + DEFAULT_MENU_HEIGHT <= usize::MAX,
        ensures
            r.title@ == title@,
            r.x == pos.0,
            r.y == pos.1,
            r.width == 0,
            r.height == 0,
            r.modules@ == modules@,
            r.toolbar_modules@.len() == 0,
            r.menu_height == DEFAULT_MENU_HEIGHT,
            r.min_width == title_width + DEFAULT_MENU_HEIGHT,
            !r.collapsed,
            !r.dragging,
            !r.resizing,
            r.at_corner == u8::MAX,
            r.allow_dragging,
            !r.needs_redraw,
            r.last_mouse_pos == (0i32, 0i32),
            forall|d: u8| d < 8 ==> #[trigger] direction_allowed(r.resizing_allowed_in_directions, d),
            r.id == id,
            r.size_to_see_all_modules is None,
    {
        let mut gui = DearMirlGui {
            title: title.to_owned(),
            width: 0,
            height: 0,
            x: pos.0,
            y: pos.1,
            modules: Vec::new(),
            toolbar_modules: Vec::new(),
            last_mouse_pos: (0, 0),
            last_left_mouse_down: false,
            last_middle_mouse_down: false,
            last_right_mouse_down: false,
            resizing: false,
            at_corner: u8::MAX,
            dragging: false,
            menu_height: DEFAULT_MENU_HEIGHT,
            min_width: title_width + DEFAULT_MENU_HEIGHT,
            collapsed: false,
            collapse_button_collision_is_circle: false,
            needs_redraw: false,
            resizing_allowed_in_directions: ResizeDirections::all_true(),
            allow_dragging: true,
            id,
            size_to_see_all_modules: None,
        };
        let mut i: usize = 0;
        while i < modules.len()
            invariant
                i <= modules@.len(),
                gui.modules@ == modules@.subrange(0, i as int),
                gui.title@ == title@,
                gui.x == pos.0,
                gui.y == pos.1,
                gui.width == 0,
                gui.height == 0,
                gui.toolbar_modules@.len() == 0,
                gui.menu_height == DEFAULT_MENU_HEIGHT,
                gui.min_width == title_width + DEFAULT_MENU_HEIGHT,
                !gui.collapsed && !gui.dragging && !gui.resizing && gui.allow_dragging && !gui.needs_redraw,
                gui.at_corner == u8::MAX,
                gui.last_mouse_pos == (0i32, 0i32),
                forall|d: u8| d < 8 ==> #[trigger] direction_allowed(gui.resizing_allowed_in_directions, d),
                gui.id == id,
                gui.size_to_see_all_modules is None,
            decreases modules.len() - i,
        {
            gui.add_module(modules[i]);
            assert(modules@.subrange(0, i + 1) =~= modules@.subrange(0, i as int).push(modules@[i as int]));
            i = i + 1;
        }
        assert(modules@.subrange(0, modules@.len() as int) =~= modules@);
        gui
    }

    /// Create a window with every setting given: the menu height defaults to
    /// `DEFAULT_MENU_HEIGHT`, the minimum width to the title's width (`title_width`, measured at
    /// the menu height) plus the menu height, the resize directions to all; the window starts
    /// out needing a redraw
    pub fn new_advanced(
        title: &str,
        x: DearMirlGuiCoordinateType,
        y: DearMirlGuiCoordinateType,
        width: usize,
        height: usize,
        modules: &Vec<u32>,
        toolbar_modules: &Vec<u32>,
        title_width: usize,
        menu_height: Option<usize>,
        min_width: Option<usize>,
        allow_resizing_in_directions: Option<ResizeDirections>,
        allow_dragging: bool,
        collapsed: bool,
        id: usize,
    ) -> (r: Self)
        requires
            min_width is None ==> title_width + match menu_height { Some(m) => m, None => DEFAULT_MENU_HEIGHT } <= usize::MAX,
        ensures
            r.title@ == title@,
            r.x == x && r.y == y,
            r.width == width && r.height == height,
            r.modules@ == modules@,
            r.toolbar_modules@ == toolbar_modules@,
            r.menu_height == match menu_height { Some(m) => m, None => DEFAULT_MENU_HEIGHT },
            r.min_width == match min_width { Some(m) => m, None => (title_width + r.menu_height) as usize },
            r.collapsed == collapsed,
            r.allow_dragging == allow_dragging,
            !r.dragging && !r.resizing,
            r.at_corner == u8::MAX,
            r.needs_redraw,
            r.last_mouse_pos == (0i32, 0i32),
            match allow_resizing_in_directions {
                Some(d) => r.resizing_allowed_in_directions == d,
                None => forall|d: u8| d < 8 ==> #[trigger] direction_allowed(r.resizing_allowed_in_directions, d),
            },
            r.id == id,
            r.size_to_see_all_modules is None,
    {
        let mh = match menu_height { Some(m) => m, None => DEFAULT_MENU_HEIGHT };
        let mw = match min_width { Some(m) => m, None => title_width + mh };
        let dirs = match allow_resizing_in_directions { Some(d) => d, None => ResizeDirections::all_true() };
        let mut gui = DearMirlGui {
            title: title.to_owned(),
            width,
            height,
            x,
            y,
            modules: Vec::new(),
            toolbar_modules: Vec::new(),
            last_mouse_pos: (0, 0),
            last_left_mouse_down: false,
            last_middle_mouse_down: false,
            last_right_mouse_down: false,
            resizing: false,
            at_corner: u8::MAX,
            dragging: false,
            menu_height: mh,
            min_width: mw,
            collapsed,
            collapse_button_collision_is_circle: false,
            needs_redraw: true,
            resizing_allowed_in_directions: dirs,
            allow_dragging,
            id,
            size_to_see_all_modules: None,
        };
        let mut i: usize = 0;
        while i < modules.len()
            invariant
                i <= modules@.len(),
                gui.modules@ == modules@.subrange(0, i as int),
                gui.toolbar_modules@.len() == 0,
                gui.title@ == title@,
                gui.x == x && gui.y == y && gui.width == width && gui.height == height,
                gui.menu_height == mh && gui.min_width == mw,
                gui.collapsed == collapsed && gui.allow_dragging == allow_dragging,
                !gui.dragging && !gui.resizing && gui.needs_redraw,
                gui.at_corner == u8::MAX,
                gui.last_mouse_pos == (0i32, 0i32),
                gui.resizing_allowed_in_directions == dirs,
                gui.id == id,
                gui.size_to_see_all_modules is None,
            decreases modules.len() - i,
        {
            gui.add_module(modules[i]);
            assert(modules@.subrange(0, i + 1) =~= modules@.subrange(0, i as int).push(modules@[i as int]));
            i = i + 1;
        }
        assert(modules@.subrange(0, modules@.len() as int) =~= modules@);
        let mut j: usize = 0;
        while j < toolbar_modules.len()
            invariant
                j <= toolbar_modules@.len(),
                gui.toolbar_modules@ == toolbar_modules@.subrange(0, j as int),
                gui.modules@ == modules@,
                gui.title@ == title@,
                gui.x == x && gui.y == y && gui.width == width && gui.height == height,
                gui.menu_height == mh && gui.min_width == mw,
                gui.collapsed == collapsed && gui.allow_dragging == allow_dragging,
                !gui.dragging && !gui.resizing && gui.needs_redraw,
                gui.at_corner == u8::MAX,
                gui.last_mouse_pos == (0i32, 0i32),
                gui.resizing_allowed_in_directions == dirs,
                gui.id == id,
                gui.size_to_see_all_modules is None,
            decreases toolbar_modules.len() - j,
        {
            gui.add_toolbar_module(toolbar_modules[j]);
            assert(toolbar_modules@.subrange(0, j + 1) =~= toolbar_modules@.subrange(0, j as int).push(toolbar_modules@[j as int]));
            j = j + 1;
        }
        assert(toolbar_modules@.subrange(0, toolbar_modules@.len() as int) =~= toolbar_modules@);
        gui
    }

    /// Get the current height of the window: only the menu bar when collapsed
    pub fn get_height(&self) -> (r: usize)
        ensures
            r == if self.collapsed { self.menu_height } else { self.height },
    {
        if self.collapsed { self.menu_height } else { self.height }
    }

    /// Get the current width of the window
    pub fn get_width(&self) -> (r: usize)
        ensures
            r == self.width,
    {
        self.width
    }

    /// Add a module; the cached total size is forgotten
    pub fn add_module(&mut self, name: u32)
        ensures
            final(self).modules@ == old(self).modules@.push(name),
            final(self).size_to_see_all_modules is None,
            final(self).toolbar_modules == old(self).toolbar_modules,
            final(self).title == old(self).title,
            final(self).x == old(self).x && final(self).y == old(self).y,
            final(self).width == old(self).width && final(self).height == old(self).height,
            final(self).menu_height == old(self).menu_height && final(self).min_width == old(self).min_width,
            final(self).collapsed == old(self).collapsed && final(self).dragging == old(self).dragging,
            final(self).resizing == old(self).resizing && final(self).at_corner == old(self).at_corner,
            final(self).allow_dragging == old(self).allow_dragging && final(self).needs_redraw == old(self).needs_redraw,
            final(self).last_mouse_pos == old(self).last_mouse_pos,
            final(self).resizing_allowed_in_directions == old(self).resizing_allowed_in_directions,
            final(self).id == old(self).id,
    {
        self.modules.push(name);
        self.size_to_see_all_modules = None;
    }

    /// Remove (the first occurrence of) a module; the cached total size is forgotten
    pub fn remove_module(&mut self, name: u32)
        ensures
            final(self).modules@ == without_first(old(self).modules@, name),
            final(self).size_to_see_all_modules is None,
            final(self).toolbar_modules == old(self).toolbar_modules,
            final(self).id == old(self).id,
    {
        remove_first(&mut self.modules, name);
        self.size_to_see_all_modules = None;
    }

    /// Add a module to the toolbar; the cached total size is forgotten
    pub fn add_toolbar_module(&mut self, name: u32)
        ensures
            final(self).toolbar_modules@ == old(self).toolbar_modules@.push(name),
            final(self).size_to_see_all_modules is None,
            final(self).modules == old(self).modules,
            final(self).title == old(self).title,
            final(self).x == old(self).x && final(self).y == old(self).y,
            final(self).width == old(self).width && final(self).height == old(self).height,
            final(self).menu_height == old(self).menu_height && final(self).min_width == old(self).min_width,
            final(self).collapsed == old(self).collapsed && final(self).dragging == old(self).dragging,
            final(self).resizing == old(self).resizing && final(self).at_corner == old(self).at_corner,
            final(self).allow_dragging == old(self).allow_dragging && final(self).needs_redraw == old(self).needs_redraw,
            final(self).last_mouse_pos == old(self).last_mouse_pos,
            final(self).resizing_allowed_in_directions == old(self).resizing_allowed_in_directions,
            final(self).id == old(self).id,
    {
        self.toolbar_modules.push(name);
        self.size_to_see_all_modules = None;
    }

    /// Remove (the first occurrence of) a toolbar module; the cached total size is forgotten
    pub fn remove_toolbar_module(&mut self, name: u32)
        ensures
            final(self).toolbar_modules@ == without_first(old(self).toolbar_modules@, name),
            final(self).size_to_see_all_modules is None,
            final(self).modules == old(self).modules,
            final(self).id == old(self).id,
    {
        remove_first(&mut self.toolbar_modules, name);
        self.size_to_see_all_modules = None;
    }

    /// Set the initial state of the window to be closed
    pub fn collapsed(self) -> (r: Self)
        ensures
            r.collapsed,
            r.width == self.width && r.height == self.height && r.x == self.x && r.y == self.y,
            r.modules == self.modules && r.menu_height == self.menu_height,
    {
        let mut s = self;
        s.collapsed = true;
        s
    }

    /// Set the size of the window so that everything in `size` (the size at which every
    /// module is visible) fits, keeping at least the minimum width and the menu height
    pub fn set_size_to_see_all_modules(&mut self, size: (DearMirlGuiCoordinateType, DearMirlGuiCoordinateType))
        requires
            ({
                let h = if size.1 >= coord(old(self).menu_height) { size.1 as int } else { coord(old(self).menu_height) };
                (h as usize) + old(self).menu_height <= usize::MAX
            }),
        ensures
            final(self).width == (if size.0 >= coord(old(self).min_width) { size.0 as int } else { coord(old(self).min_width) }) as usize,
            final(self).height == ((if size.1 >= coord(old(self).menu_height) { size.1 as int } else { coord(old(self).menu_height) }) as usize)
                + old(self).menu_height,
            final(self).x == old(self).x && final(self).y == old(self).y,
            final(self).modules == old(self).modules,
            final(self).menu_height == old(self).menu_height && final(self).min_width == old(self).min_width,
    {
        let mw = to_coord(self.min_width);
        let mh = to_coord(self.menu_height);
        let w = if size.0 >= mw { size.0 } else { mw };
        let h = if size.1 >= mh { size.1 } else { mh };
        #[verifier::truncate]
        let wu = w as usize;
        #[verifier::truncate]
        let hu = h as usize;
        self.width = wu;
        self.height = hu + self.menu_height;
    }
}


/// The mouse is on the draggable part of the menu bar (right of the collapse button)
pub open spec fn on_menu_bar<const F: bool, const C: bool>(g: DearMirlGui<F, C>, p: (i32, i32)) -> bool {
    rect_contains(g.x + coord(g.menu_height), g.y as int, coord(g.width) - coord(g.menu_height), coord(g.menu_height), p)
}

/// The menu bar rectangle can be computed without leaving the `i32` range
pub open spec fn menu_bar_fits<const F: bool, const C: bool>(g: DearMirlGui<F, C>) -> bool {
    &&& fits_i32(g.x + coord(g.menu_height))
    &&& fits_i32(coord(g.width) - coord(g.menu_height))
    &&& fits_i32(g.x + coord(g.width))
    &&& fits_i32(g.y + coord(g.menu_height))
}

/// Dragging goes on (or starts with a click on the menu bar)
pub open spec fn drag_continues<const F: bool, const C: bool>(
    g: DearMirlGui<F, C>,
    p: (i32, i32),
    mouse_info: MouseState,
    over_collapse_button: bool,
) -> bool {
    (g.dragging && mouse_info.left.down) || (mouse_info.left.clicked && on_menu_bar(g, p) && !g.resizing
        && !over_collapse_button)
}

/// The window after a frame of dragging
#[verifier::opaque]
pub open spec fn dragged<const F: bool, const C: bool>(
    g: DearMirlGui<F, C>,
    mouse_pos: Option<(i32, i32)>,
    d: (i32, i32),
    mouse_info: MouseState,
    over_collapse_button: bool,
) -> DearMirlGui<F, C> {
    match mouse_pos {
        Some(p) => if drag_continues(g, p, mouse_info, over_collapse_button) {
            DearMirlGui { dragging: true, x: (g.x + d.0) as i32, y: (g.y + d.1) as i32, last_mouse_pos: p, ..g }
        } else {
            DearMirlGui { dragging: false, last_mouse_pos: p, ..g }
        },
        None => DearMirlGui { last_mouse_pos: (i32::MIN, i32::MIN), ..g },
    }
}

/// The cursor and focus a frame of dragging asks for
#[verifier::opaque]
pub open spec fn drag_result<const F: bool, const C: bool>(
    g: DearMirlGui<F, C>,
    mouse_pos: Option<(i32, i32)>,
    mouse_info: MouseState,
    over_collapse_button: bool,
) -> (Option<CursorStyle>, FocusTaken) {
    match mouse_pos {
        Some(p) => if drag_continues(g, p, mouse_info, over_collapse_button) {
            (if over_collapse_button { None } else { Some(CursorStyle::AllScroll) }, FocusTaken::FunctionallyTaken)
        } else if on_menu_bar(g, p) {
            (if over_collapse_button { None } else { Some(CursorStyle::Copy) }, FocusTaken::VisuallyTaken)
        } else {
            (None, FocusTaken::FocusFree)
        },
        None => (None, FocusTaken::FocusFree),
    }
}

/// The corner or edge the resizing works on: the one held, else the one under the mouse
pub open spec fn resize_corner<const F: bool, const C: bool>(g: DearMirlGui<F, C>, edge_at_mouse: u8) -> u8 {
    if g.at_corner == u8::MAX { edge_at_mouse } else { g.at_corner }
}

/// Resizing goes on (or starts with a click on an edge)
pub open spec fn resize_continues<const F: bool, const C: bool>(
    g: DearMirlGui<F, C>,
    corner: u8,
    mouse_info: MouseState,
    over_collapse_button: bool,
) -> bool {
    (g.resizing && mouse_info.left.down) || (mouse_info.left.clicked && corner != u8::MAX && !over_collapse_button
        && !g.dragging)
}

/// The resize arithmetic stays inside the `i32` range
pub open spec fn resize_fits<const F: bool, const C: bool>(g: DearMirlGui<F, C>, corner: u8, d: (i32, i32)) -> bool {
    let mc = metric_change(corner, d);
    &&& d.0 > i32::MIN && d.1 > i32::MIN
    &&& fits_i32(coord(g.width) + mc.2)
    &&& fits_i32(coord(g.height) + mc.3)
    &&& fits_i32(g.x + mc.0)
    &&& fits_i32(g.y + mc.1)
}

/// The window resized at `corner` by the mouse movement `d`, kept at least as wide as its
/// minimum width and as high as its menu bar
pub open spec fn resized_at<const F: bool, const C: bool>(g: DearMirlGui<F, C>, corner: u8, d: (i32, i32)) -> DearMirlGui<F, C> {
    let mc = metric_change(corner, d);
    let w = coord(g.width) + mc.2;
    let h = coord(g.height) + mc.3;
    let (width, x) = if w < coord(g.min_width) { (g.min_width, g.x) } else { (w as usize, (g.x + mc.0) as i32) };
    let (height, y) = if h < coord(g.menu_height) { (g.menu_height, g.y) } else { (h as usize, (g.y + mc.1) as i32) };
    DearMirlGui { resizing: true, at_corner: corner, width, x, height, y, ..g }
}

/// The window after a frame of resizing
#[verifier::opaque]
pub open spec fn resized<const F: bool, const C: bool>(
    g: DearMirlGui<F, C>,
    mouse_pos: Option<(i32, i32)>,
    d: (i32, i32),
    mouse_info: MouseState,
    over_collapse_button: bool,
    edge_at_mouse: u8,
) -> DearMirlGui<F, C> {
    if mouse_pos is None {
        g
    } else if g.dragging {
        DearMirlGui { at_corner: u8::MAX, resizing: false, ..g }
    } else {
        let corner = resize_corner(g, edge_at_mouse);
        if !direction_allowed(g.resizing_allowed_in_directions, corner) {
            g
        } else if resize_continues(g, corner, mouse_info, over_collapse_button) {
            resized_at(g, corner, d)
        } else {
            DearMirlGui { at_corner: u8::MAX, resizing: false, ..g }
        }
    }
}

/// The cursor and focus a frame of resizing asks for
#[verifier::opaque]
pub open spec fn resize_result<const F: bool, const C: bool>(
    g: DearMirlGui<F, C>,
    mouse_pos: Option<(i32, i32)>,
    mouse_info: MouseState,
    over_collapse_button: bool,
    edge_at_mouse: u8,
) -> (Option<CursorStyle>, FocusTaken) {
    if mouse_pos is None || g.dragging {
        (None, FocusTaken::FocusFree)
    } else {
        let corner = resize_corner(g, edge_at_mouse);
        if !direction_allowed(g.resizing_allowed_in_directions, corner) {
            (None, FocusTaken::FocusFree)
        } else {
            let shown = corner != u8::MAX && (g.resizing || !over_collapse_button);
            let cursor = if over_collapse_button { None } else if shown { corner_cursor(corner) } else { None };
            if resize_continues(g, corner, mouse_info, over_collapse_button) {
                (cursor, FocusTaken::FunctionallyTaken)
            } else if shown {
                (cursor, FocusTaken::VisuallyTaken)
            } else {
                (None, FocusTaken::FocusFree)
            }
        }
    }
}

impl<const FAST: bool, const USE_CACHE: bool> DearMirlGui<FAST, USE_CACHE> {
    /// Drag the window by the menu bar: a click on the bar starts dragging, holding the
    /// left button keeps it going, and the window moves with the mouse
    pub fn handle_dragging(
        &mut self,
        mouse_pos: Option<(i32, i32)>,
        mouse_pos_delta: (i32, i32),
        mouse_info: &MouseState,
        over_collapse_button: bool,
    ) -> (r: (Option<CursorStyle>, FocusTaken))
        requires
            mouse_pos is Some ==> menu_bar_fits(*old(self)),
            mouse_pos is Some && drag_continues(*old(self), mouse_pos->0, *mouse_info, over_collapse_button) ==> {
                &&& fits_i32(old(self).x + mouse_pos_delta.0)
                &&& fits_i32(old(self).y + mouse_pos_delta.1)
            },
        ensures
            *final(self) == dragged(*old(self), mouse_pos, mouse_pos_delta, *mouse_info, over_collapse_button),
            r == drag_result(*old(self), mouse_pos, *mouse_info, over_collapse_button),
    {
        reveal(dragged);
        reveal(drag_result);
        let mut cursor_style: Option<CursorStyle> = None;
        let mut gui_in_focus = FocusTaken::FocusFree;
        match mouse_pos {
            Some(p) => {
                let mh = to_coord(self.menu_height);
                let left = self.x + mh;
                let width = to_coord(self.width) - mh;
                let collides = left <= p.0 && p.0 <= left + width && self.y <= p.1 && p.1 <= self.y + mh;
                if collides {
                    cursor_style = Some(CursorStyle::Copy);
                    gui_in_focus = FocusTaken::VisuallyTaken;
                }
                if (self.dragging && mouse_info.left.down) || (mouse_info.left.clicked && collides && !self.resizing
                    && !over_collapse_button) {
                    gui_in_focus = FocusTaken::FunctionallyTaken;
                    cursor_style = Some(CursorStyle::AllScroll);
                    self.dragging = true;
                    self.x = self.x + mouse_pos_delta.0;
                    self.y = self.y + mouse_pos_delta.1;
                } else {
                    self.dragging = false;
                }
                self.last_mouse_pos = p;
            },
            None => {
                self.last_mouse_pos = (i32::MIN, i32::MIN);
            },
        }
        (if over_collapse_button { None } else { cursor_style }, gui_in_focus)
    }

    /// Resize at `corner` by the mouse movement `d`
    #[verifier::spinoff_prover]
    #[verifier::rlimit(30)]
    fn resize_at(&mut self, corner: u8, d: (i32, i32))
        requires
            resize_fits(*old(self), corner, d),
        ensures
            *final(self) == resized_at(*old(self), corner, d),
    {
        self.resizing = true;
        self.at_corner = corner;
        let metric_change = corner_type_and_delta_to_metric_change(corner, d);
        let width = to_coord(self.width) + metric_change.2;
        if width < to_coord(self.min_width) {
            self.width = self.min_width;
        } else {
            #[verifier::truncate]
            let wu = width as usize;
            self.width = wu;
            self.x = self.x + metric_change.0;
        }
        let height = to_coord(self.height) + metric_change.3;
        if height < to_coord(self.menu_height) {
            self.height = self.menu_height;
        } else {
            #[verifier::truncate]
            let hu = height as usize;
            self.height = hu;
            self.y = self.y + metric_change.1;
        }
    }

    /// Resize the window at an edge or corner: `edge_at_mouse` is the edge or corner of the
    /// window the mouse is near (0 top left, clockwise to 7 left, `u8::MAX` for none). A
    /// click there starts resizing, holding the left button keeps it going; the window
    /// never gets narrower than its minimum width or lower than its menu bar
    pub fn handle_resizing(
        &mut self,
        mouse_pos: Option<(i32, i32)>,
        mouse_pos_delta: (i32, i32),
        mouse_info: &MouseState,
        over_collapse_button: bool,
        edge_at_mouse: u8,
    ) -> (r: (Option<CursorStyle>, FocusTaken))
        requires
            ({
                let g = *old(self);
                let corner = resize_corner(g, edge_at_mouse);
                mouse_pos is Some && !g.dragging && direction_allowed(g.resizing_allowed_in_directions, corner)
                    && resize_continues(g, corner, *mouse_info, over_collapse_button)
                    ==> resize_fits(g, corner, mouse_pos_delta)
            }),
        ensures
            *final(self) == resized(*old(self), mouse_pos, mouse_pos_delta, *mouse_info, over_collapse_button, edge_at_mouse),
            r == resize_result(*old(self), mouse_pos, *mouse_info, over_collapse_button, edge_at_mouse),
    {
        reveal(resized);
        reveal(resize_result);
        let mut cursor_style: Option<CursorStyle> = None;
        let mut gui_in_focus = FocusTaken::FocusFree;
        if mouse_pos.is_some() {
            if self.dragging {
                self.at_corner = u8::MAX;
                self.resizing = false;
            } else {
                let at_corner = if self.at_corner == u8::MAX { edge_at_mouse } else { self.at_corner };
                if !self.resizing_allowed_in_directions.is_direction_allowed_u8(at_corner) {
                    return (None, FocusTaken::FocusFree);
                }
                if at_corner != u8::MAX && (self.resizing || !over_collapse_button) {
                    cursor_style = corner_type_to_cursor_style(at_corner);
                    gui_in_focus = FocusTaken::VisuallyTaken;
                }
                if (self.resizing && mouse_info.left.down) || (mouse_info.left.clicked && at_corner != u8::MAX
                    && !over_collapse_button && !self.dragging) {
                    gui_in_focus = FocusTaken::FunctionallyTaken;
                    self.resize_at(at_corner, mouse_pos_delta);
                } else {
                    self.at_corner = u8::MAX;
                    self.resizing = false;
                }
            }
        }
        (if over_collapse_button { None } else { cursor_style }, gui_in_focus)
    }
}


/// The mouse is over the collapse button: the square (or the circle in it) at the left end
/// of the menu bar
pub open spec fn collapse_hit<const F: bool, const C: bool>(g: DearMirlGui<F, C>, mouse_pos: Option<(i32, i32)>) -> bool {
    match mouse_pos {
        Some(p) => if g.collapse_button_collision_is_circle {
            let t = coord(g.menu_height) / 2;
            circle_contains(g.x + t, g.y + t, t, p)
        } else {
            rect_contains(g.x as int, g.y as int, coord(g.menu_height), coord(g.menu_height), p)
        },
        None => false,
    }
}

/// The collapse button test stays inside the `i32` range
pub open spec fn collapse_hit_fits<const F: bool, const C: bool>(g: DearMirlGui<F, C>, mouse_pos: Option<(i32, i32)>) -> bool {
    match mouse_pos {
        Some(p) => if g.collapse_button_collision_is_circle {
            let t = coord(g.menu_height) / 2;
            let half = t / 2;
            let dx = p.0 - (g.x + t + half);
            let dy = p.1 - (g.y + t + half);
            &&& g.menu_height <= i32::MAX
            &&& fits_i32(g.x + t) && fits_i32(g.y + t)
            &&& fits_i32(g.x + t + half) && fits_i32(g.y + t + half)
            &&& fits_i32(dx) && fits_i32(dy)
            &&& fits_i32(dx * dx) && fits_i32(dy * dy) && fits_i32(dx * dx + dy * dy)
            &&& fits_i32(t * t)
        } else {
            fits_i32(g.x + coord(g.menu_height)) && fits_i32(g.y + coord(g.menu_height))
        },
        None => true,
    }
}

/// The window, cursor and focus after the frame itself (collapse button, dragging and
/// resizing) has handled the mouse, when no one took focus before
pub open spec fn frame_update<const F: bool, const C: bool>(
    g0: DearMirlGui<F, C>,
    focus_in: FocusTaken,
    cursor_in: Option<CursorStyle>,
    mouse_pos: Option<(i32, i32)>,
    d: (i32, i32),
    mouse_info: MouseState,
    edge_at_mouse: u8,
) -> (DearMirlGui<F, C>, Option<CursorStyle>, FocusTaken) {
    if focus_in != FocusTaken::FocusFree {
        (g0, cursor_in, focus_in)
    } else {
        let over = !(g0.dragging || g0.resizing) && collapse_hit(g0, mouse_pos);
        let f1 = if g0.collapsed { FocusTaken::FunctionallyTaken } else { focus_in };
        let g1 = if over && mouse_info.left.clicked { DearMirlGui { collapsed: !g0.collapsed, ..g0 } } else { g0 };
        let c1 = if over { Some(CursorStyle::ContextMenu) } else { cursor_in };
        let f2 = if over {
            focus_join(f1, if mouse_info.left.clicked { FocusTaken::FunctionallyTaken } else { FocusTaken::VisuallyTaken })
        } else {
            f1
        };
        let g2 = match mouse_pos {
            Some(p) => DearMirlGui { last_mouse_pos: p, ..g1 },
            None => g1,
        };
        let o3 = drag_result(g2, mouse_pos, mouse_info, over);
        let g3 = if g2.allow_dragging { dragged(g2, mouse_pos, d, mouse_info, over) } else { g2 };
        let c3 = if g2.allow_dragging && o3.0 is Some && c1 is None { o3.0 } else { c1 };
        let f3 = if g2.allow_dragging { focus_join(f2, o3.1) } else { f2 };
        let o4 = resize_result(g3, mouse_pos, mouse_info, over, edge_at_mouse);
        let g4 = if !g3.collapsed { resized(g3, mouse_pos, d, mouse_info, over, edge_at_mouse) } else { g3 };
        let c4 = if !g3.collapsed && o4.0 is Some && c3 is None { o4.0 } else { c3 };
        let f4 = if !g3.collapsed { focus_join(f3, o4.1) } else { f3 };
        (g4, c4, f4)
    }
}

/// The frame update stays inside the `i32` range
pub open spec fn frame_update_fits<const F: bool, const C: bool>(
    g0: DearMirlGui<F, C>,
    focus_in: FocusTaken,
    mouse_pos: Option<(i32, i32)>,
    d: (i32, i32),
    mouse_info: MouseState,
    edge_at_mouse: u8,
) -> bool {
    focus_in == FocusTaken::FocusFree ==> {
        let over = !(g0.dragging || g0.resizing) && collapse_hit(g0, mouse_pos);
        let g1 = if over && mouse_info.left.clicked { DearMirlGui { collapsed: !g0.collapsed, ..g0 } } else { g0 };
        let g2 = match mouse_pos {
            Some(p) => DearMirlGui { last_mouse_pos: p, ..g1 },
            None => g1,
        };
        let g3 = if g2.allow_dragging { dragged(g2, mouse_pos, d, mouse_info, over) } else { g2 };
        let corner = resize_corner(g3, edge_at_mouse);
        &&& collapse_hit_fits(g0, mouse_pos)
        &&& g2.allow_dragging && mouse_pos is Some ==> menu_bar_fits(g2)
        &&& g2.allow_dragging && mouse_pos is Some && drag_continues(g2, mouse_pos->0, mouse_info, over) ==> {
            &&& fits_i32(g2.x + d.0)
            &&& fits_i32(g2.y + d.1)
        }
        &&& !g3.collapsed && mouse_pos is Some && !g3.dragging && direction_allowed(g3.resizing_allowed_in_directions, corner)
            && resize_continues(g3, corner, mouse_info, over) ==> resize_fits(g3, corner, d)
    }
}

impl<const FAST: bool, const USE_CACHE: bool> DearMirlGui<FAST, USE_CACHE> {
    /// If the mouse is over the collapse button
    pub fn collapse_button_hit(&self, mouse_pos: Option<(i32, i32)>) -> (r: bool)
        requires
            collapse_hit_fits(*self, mouse_pos),
        ensures
            r == collapse_hit(*self, mouse_pos),
    {
        match mouse_pos {
            Some(p) => {
                if self.collapse_button_collision_is_circle {
                    let t = to_coord(self.menu_height) / 2;
                    let cx = self.x + t;
                    let cy = self.y + t;
                    let half = t / 2;
                    let dx = p.0 - (cx + half);
                    let dy = p.1 - (cy + half);
                    dx * dx + dy * dy <= t * t
                } else {
                    let mh = to_coord(self.menu_height);
                    self.x <= p.0 && p.0 <= self.x + mh && self.y <= p.1 && p.1 <= self.y + mh
                }
            },
            None => false,
        }
    }

    /// Let the frame handle the mouse when no one took focus before: the collapse button
    /// toggles collapsing, then the window is dragged and resized. Returns the cursor style
    /// and the focus taken so far. `edge_at_mouse` is the edge or corner of the window the
    /// mouse is near (see `handle_resizing`).
    #[verifier::spinoff_prover]
    #[verifier::rlimit(50)]
    pub fn update_frame(
        &mut self,
        focus_in: FocusTaken,
        cursor_in: Option<CursorStyle>,
        mouse_pos: Option<(i32, i32)>,
        mouse_pos_delta: (i32, i32),
        mouse_info: &MouseState,
        edge_at_mouse: u8,
    ) -> (r: (Option<CursorStyle>, FocusTaken))
        requires
            frame_update_fits(*old(self), focus_in, mouse_pos, mouse_pos_delta, *mouse_info, edge_at_mouse),
        ensures
            ({
                let (g, c, f) = frame_update(*old(self), focus_in, cursor_in, mouse_pos, mouse_pos_delta, *mouse_info, edge_at_mouse);
                *final(self) == g && r == (c, f)
            }),
    {
        let mut gui_in_focus = focus_in;
        let mut cursor_style = cursor_in;
        if gui_in_focus == FocusTaken::FocusFree {
            let mut over_collapse_button = false;
            let hit = self.collapse_button_hit(mouse_pos);
            if self.collapsed {
                gui_in_focus = FocusTaken::FunctionallyTaken;
            }
            if !(self.dragging || self.resizing) && hit {
                over_collapse_button = true;
                cursor_style = Some(CursorStyle::ContextMenu);
                if mouse_info.left.clicked {
                    self.collapsed = !self.collapsed;
                    gui_in_focus = gui_in_focus | FocusTaken::FunctionallyTaken;
                } else {
                    gui_in_focus = gui_in_focus | FocusTaken::VisuallyTaken;
                }
            }
            if self.last_mouse_pos.0 == i32::MIN && self.last_mouse_pos.1 == i32::MIN {
                if let Some(p) = mouse_pos {
                    self.last_mouse_pos = p;
                }
            }
            if let Some(p) = mouse_pos {
                self.last_mouse_pos = p;
            }
            if self.allow_dragging {
                let out = self.handle_dragging(mouse_pos, mouse_pos_delta, mouse_info, over_collapse_button);
                if out.0.is_some() && cursor_style.is_none() {
                    cursor_style = out.0;
                }
                gui_in_focus = gui_in_focus | out.1;
            }
            if !self.collapsed {
                let out = self.handle_resizing(mouse_pos, mouse_pos_delta, mouse_info, over_collapse_button, edge_at_mouse);
                if out.0.is_some() && cursor_style.is_none() {
                    cursor_style = out.0;
                }
                gui_in_focus = gui_in_focus | out.1;
            }
        }
        (cursor_style, gui_in_focus)
    }
}

/// Resizing never makes a window narrower than its minimum width or lower than its menu bar.
pub proof fn lemma_resize_keeps_minimum<const F: bool, const C: bool>(g: DearMirlGui<F, C>, corner: u8, d: (i32, i32))
    requires
        resize_fits(g, corner, d),
        g.min_width <= i32::MAX,
        g.menu_height <= i32::MAX,
    ensures
        resized_at(g, corner, d).width >= g.min_width,
        resized_at(g, corner, d).height >= g.menu_height,
{
    assert(coord(g.min_width) == g.min_width as int);
    assert(coord(g.menu_height) == g.menu_height as int);
}

/// Resizing at a corner or an edge moves the grabbed edges with the mouse and keeps the
/// opposite ones in place, while the window stays at least at its minimum size. Grabbing the
/// right side (corners 2, 3 and 4) the width grows by the horizontal movement and x stays;
/// grabbing the left side (0, 6 and 7) x moves by it and the right edge stays; grabbing
/// neither (1 and 5) x and the width stay. Likewise vertically: the top (0, 1 and 2) moves
/// y and keeps the bottom edge, the bottom (4, 5 and 6) grows the height and keeps y, and
/// neither (3 and 7) keeps both.
pub proof fn lemma_resized_edges_follow_the_mouse<const F: bool, const C: bool>(
    g: DearMirlGui<F, C>,
    corner: u8,
    d: (i32, i32),
)
    requires
        resize_fits(g, corner, d),
        g.min_width <= g.width <= i32::MAX,
        g.menu_height <= g.height <= i32::MAX,
    ensures
        ({
            let r = resized_at(g, corner, d);
            let (w, h) = (g.width as int, g.height as int);
            &&& (corner == 2 || corner == 3 || corner == 4) && w + d.0 >= g.min_width ==>
                r.width == w + d.0 && r.x == g.x
            &&& (corner == 0 || corner == 6 || corner == 7) && w - d.0 >= g.min_width ==>
                r.x == g.x + d.0 && r.x + r.width == g.x + w
            &&& (corner == 1 || corner == 5) ==> r.width == g.width && r.x == g.x
            &&& (corner == 4 || corner == 5 || corner == 6) && h + d.1 >= g.menu_height ==>
                r.height == h + d.1 && r.y == g.y
            &&& (corner == 0 || corner == 1 || corner == 2) && h - d.1 >= g.menu_height ==>
                r.y == g.y + d.1 && r.y + r.height == g.y + h
            &&& (corner == 3 || corner == 7) ==> r.height == g.height && r.y == g.y
        }),
{
    assert(coord(g.width) == g.width as int);
    assert(coord(g.height) == g.height as int);
    assert(coord(g.min_width) == g.min_width as int);
    assert(coord(g.menu_height) == g.menu_height as int);
}

/// Dragging never changes the window's size or whether it is collapsed; while a drag goes on
/// the window follows the mouse movement, and once it ends the window stays where it is
pub proof fn lemma_dragging_moves_without_resizing<const F: bool, const C: bool>(
    g: DearMirlGui<F, C>,
    mouse_pos: Option<(i32, i32)>,
    d: (i32, i32),
    mouse_info: MouseState,
    over_collapse_button: bool,
)
    ensures
        ({
            let r = dragged(g, mouse_pos, d, mouse_info, over_collapse_button);
            &&& r.width == g.width && r.height == g.height && r.collapsed == g.collapsed
            &&& mouse_pos is Some && drag_continues(g, mouse_pos->0, mouse_info, over_collapse_button)
                && fits_i32(g.x + d.0) && fits_i32(g.y + d.1) ==> r.x == g.x + d.0 && r.y == g.y + d.1 && r.dragging
            &&& !(mouse_pos is Some && drag_continues(g, mouse_pos->0, mouse_info, over_collapse_button)) ==>
                r.x == g.x && r.y == g.y
        }),
{
    reveal(dragged);
}

/// A left click on the collapse button, when no one took focus before and the window is
/// neither dragged nor resized, flips whether the window is collapsed: a collapsed window
/// opens again and an open one collapses. Nothing else in the frame changes it.
pub proof fn lemma_collapse_click_flips<const F: bool, const C: bool>(
    g: DearMirlGui<F, C>,
    focus_in: FocusTaken,
    cursor_in: Option<CursorStyle>,
    mouse_pos: Option<(i32, i32)>,
    d: (i32, i32),
    mouse_info: MouseState,
    edge_at_mouse: u8,
)
    ensures
        frame_update(g, focus_in, cursor_in, mouse_pos, d, mouse_info, edge_at_mouse).0.collapsed == if focus_in
            == FocusTaken::FocusFree && collapse_hit(g, mouse_pos) && mouse_info.left.clicked && !g.dragging && !g.resizing {
            !g.collapsed
        } else {
            g.collapsed
        },
{
    reveal(dragged);
    reveal(resized);
}


/// The output gathered so far after one more module has reported: flags are or-ed, the
/// cursor style of a module is taken when it raises the focus, focus keeps the stronger
/// level, and the latest cursor position and clipboard data win
pub open spec fn absorbed(acc: GuiOutputView, out: GuiOutputView) -> GuiOutputView {
    GuiOutputView {
        new_cursor_style: if focus_rank(acc.focus_taken) < focus_rank(out.focus_taken) && out.new_cursor_style is Some {
            out.new_cursor_style
        } else {
            acc.new_cursor_style
        },
        focus_taken: focus_join(acc.focus_taken, out.focus_taken),
        new_cursor_position: if out.new_cursor_position is Some { out.new_cursor_position } else { acc.new_cursor_position },
        hide_cursor: acc.hide_cursor || out.hide_cursor,
        new_clipboard_data: if out.new_clipboard_data is Some { out.new_clipboard_data } else { acc.new_clipboard_data },
        text_input_selected: acc.text_input_selected || out.text_input_selected,
        request_clipboard_data: acc.request_clipboard_data || out.request_clipboard_data,
    }
}

/// Take in what one module reported during a window update
pub fn absorb_module_output(acc: &mut GuiOutput, out: GuiOutput)
    ensures
        final(acc)@ == absorbed(old(acc)@, out@),
{
    acc.request_clipboard_data = acc.request_clipboard_data || out.request_clipboard_data;
    acc.hide_cursor = acc.hide_cursor || out.hide_cursor;
    let raises = match (acc.focus_taken, out.focus_taken) {
        (FocusTaken::FocusFree, FocusTaken::VisuallyTaken) => true,
        (FocusTaken::FocusFree, FocusTaken::FunctionallyTaken) => true,
        (FocusTaken::VisuallyTaken, FocusTaken::FunctionallyTaken) => true,
        _ => false,
    };
    if raises && out.new_cursor_style.is_some() {
        acc.new_cursor_style = out.new_cursor_style;
    }
    acc.focus_taken = acc.focus_taken | out.focus_taken;
    acc.text_input_selected = acc.text_input_selected || out.text_input_selected;
    if out.new_cursor_position.is_some() {
        acc.new_cursor_position = out.new_cursor_position;
    }
    if out.new_clipboard_data.is_some() {
        acc.new_clipboard_data = out.new_clipboard_data;
    }
}

/// The focus after the mouse wheel was looked at: over the window (or while resizing) a
/// still wheel takes visual focus (functional on a click), a turned wheel scrolls and takes
/// functional focus; a collapsed window keeps focus only to show a cursor
pub open spec fn final_focus<const F: bool, const C: bool>(
    g: DearMirlGui<F, C>,
    acc: GuiOutputView,
    real_mouse_pos: Option<(i32, i32)>,
    wheel_still: Option<bool>,
    left_clicked: bool,
) -> (FocusTaken, bool) {
    let over = match real_mouse_pos {
        Some(p) => acc.focus_taken != FocusTaken::FunctionallyTaken && (window_contains(g, p) || g.resizing),
        None => false,
    };
    let (f, scroll) = if over && wheel_still is Some {
        if wheel_still->0 {
            (if left_clicked { FocusTaken::FunctionallyTaken } else { FocusTaken::VisuallyTaken }, false)
        } else {
            (FocusTaken::FunctionallyTaken, true)
        }
    } else {
        (acc.focus_taken, false)
    };
    if g.collapsed {
        (if acc.new_cursor_style is None { FocusTaken::FocusFree } else { FocusTaken::VisuallyTaken }, scroll)
    } else {
        (f, scroll)
    }
}

/// The point lies in the window's rectangle (its current height: the menu bar when collapsed)
pub open spec fn window_contains<const F: bool, const C: bool>(g: DearMirlGui<F, C>, p: (i32, i32)) -> bool {
    rect_contains(g.x as int, g.y as int, coord(g.width), coord(if g.collapsed { g.menu_height } else { g.height }), p)
}

impl<const FAST: bool, const USE_CACHE: bool> DearMirlGui<FAST, USE_CACHE> {
    /// Finish a window update from what the frame and the modules reported: look at the
    /// mouse wheel (`wheel_still` is `Some(true)` for a wheel that did not move, `Some(false)`
    /// for one that did, `None` without a wheel), settle the focus, and remember the mouse
    /// buttons for the next frame. Returns the window's output and whether the camera should
    /// scroll by the wheel.
    pub fn finish_update(
        &mut self,
        acc: GuiOutput,
        real_mouse_pos: Option<(i32, i32)>,
        wheel_still: Option<bool>,
        mouse_info: &MouseState,
    ) -> (r: (GuiOutput, bool))
        requires
            real_mouse_pos is Some ==> {
                &&& fits_i32(old(self).x + coord(old(self).width))
                &&& fits_i32(old(self).y + coord(if old(self).collapsed { old(self).menu_height } else { old(self).height }))
            },
        ensures
            ({
                let (f, scroll) = final_focus(*old(self), acc@, real_mouse_pos, wheel_still, mouse_info.left.clicked);
                &&& r.0@ == GuiOutputView { focus_taken: f, ..acc@ }
                &&& r.1 == scroll
            }),
            *final(self) == (DearMirlGui {
                last_left_mouse_down: mouse_info.left.down,
                last_middle_mouse_down: mouse_info.middle.down,
                last_right_mouse_down: mouse_info.right.down,
                ..*old(self)
            }),
    {
        let mut out = acc;
        let mut scroll = false;
        if out.focus_taken != FocusTaken::FunctionallyTaken {
            if let Some(p) = real_mouse_pos {
                let w = to_coord(self.get_width());
                let h = to_coord(self.get_height());
                let inside = self.x <= p.0 && p.0 <= self.x + w && self.y <= p.1 && p.1 <= self.y + h;
                if inside || self.resizing {
                    if let Some(still) = wheel_still {
                        if still {
                            if mouse_info.left.clicked {
                                out.focus_taken = FocusTaken::FunctionallyTaken;
                            } else {
                                out.focus_taken = FocusTaken::VisuallyTaken;
                            }
                        } else {
                            scroll = true;
                            out.focus_taken = FocusTaken::FunctionallyTaken;
                        }
                    }
                }
            }
        }
        if self.collapsed {
            if out.new_cursor_style.is_none() {
                out.focus_taken = FocusTaken::FocusFree;
            } else {
                out.focus_taken = FocusTaken::VisuallyTaken;
            }
        }
        self.last_left_mouse_down = mouse_info.left.down;
        self.last_middle_mouse_down = mouse_info.middle.down;
        self.last_right_mouse_down = mouse_info.right.down;
        (out, scroll)
    }
}


impl<const FAST: bool, const USE_CACHE: bool> DearMirlGui<FAST, USE_CACHE> {
    /// The mouse buttons of this frame (with what was held last frame) and how far the mouse
    /// moved since the last frame (measured from the origin without a mouse position)
    pub fn mouse_inputs(&self, mouse_pos: Option<(i32, i32)>, left_mouse_down: bool, middle_mouse_down: bool, right_mouse_down: bool) -> (r: (MouseState, (i32, i32)))
        requires
            ({
                let p = match mouse_pos { Some(p) => p, None => (0i32, 0i32) };
                fits_i32(p.0 - self.last_mouse_pos.0) && fits_i32(p.1 - self.last_mouse_pos.1)
            }),
        ensures
            r.0.left == (ButtonState { down: left_mouse_down, clicked: left_mouse_down && !self.last_left_mouse_down, released: !left_mouse_down && self.last_left_mouse_down }),
            r.0.middle == (ButtonState { down: middle_mouse_down, clicked: middle_mouse_down && !self.last_middle_mouse_down, released: !middle_mouse_down && self.last_middle_mouse_down }),
            r.0.right == (ButtonState { down: right_mouse_down, clicked: right_mouse_down && !self.last_right_mouse_down, released: !right_mouse_down && self.last_right_mouse_down }),
            ({
                let p = match mouse_pos { Some(p) => p, None => (0i32, 0i32) };
                r.1.0 == p.0 - self.last_mouse_pos.0 && r.1.1 == p.1 - self.last_mouse_pos.1
            }),
    {
        let mouse_data = MouseState {
            left: ButtonState::new(left_mouse_down, self.last_left_mouse_down),
            middle: ButtonState::new(middle_mouse_down, self.last_middle_mouse_down),
            right: ButtonState::new(right_mouse_down, self.last_right_mouse_down),
        };
        let p = match mouse_pos {
            Some(p) => p,
            None => (0, 0),
        };
        (mouse_data, (p.0 - self.last_mouse_pos.0, p.1 - self.last_mouse_pos.1))
    }
}

} // verus!
