use vstd::prelude::*;
use vstd::assert_seqs_equal;
use crate::config::Config;
use crate::wm::request::{
    Geometry, Request, ScreenInfo, BORDER_WIDTH, FOCUSED_BORDER, UNFOCUSED_BORDER,
};

verus! {

/// The windows and layout state bound to one monitor region.
pub struct Workspace<'a> {
    pub config: &'a Config,
    pub x: i16,
    pub y: i16,
    pub width: u16,
    pub height: u16,
    pub master_width: u16,
    pub windows: Vec<u32>,
    pub focused: usize,
    pub active: bool,
    pub is_full: bool,
}

/// The mathematical value of a [`Workspace`]: its fields with the window list
/// as a sequence, and the constants it reads from its configuration.
pub struct WorkspaceView {
    pub x: i16,
    pub y: i16,
    pub width: u16,
    pub height: u16,
    pub gap: u16,
    pub protocol_atom: u32,
    pub delete_atom: u32,
    pub master_width: u16,
    pub windows: Seq<u32>,
    pub focused: int,
    pub active: bool,
    pub is_full: bool,
}

/// The requests that style one window: four for the window that is
/// interactively focused, two for any other.
pub open spec fn styling(window: u32, highlighted: bool) -> Seq<Request> {
    if highlighted {
        seq![
            Request::UngrabButton { window },
            Request::SetBorderColor { window, pixel: FOCUSED_BORDER },
            Request::Raise { window },
            Request::SetInputFocus { window },
        ]
    } else {
        seq![
            Request::GrabButton { window },
            Request::SetBorderColor { window, pixel: UNFOCUSED_BORDER },
        ]
    }
}

/// The styling of the first `n` windows, in order, where `highlighted` tells
/// by index which ones are interactively focused.
pub open spec fn style_requests(
    windows: Seq<u32>,
    highlighted: spec_fn(int) -> bool,
    n: int,
) -> Seq<Request>
    decreases n,
{
    if n <= 0 {
        Seq::empty()
    } else {
        style_requests(windows, highlighted, n - 1) + styling(windows[n - 1], highlighted(n - 1))
    }
}

/// Tells a window apart from `window`.
pub open spec fn other_than(window: u32) -> spec_fn(u32) -> bool {
    |w: u32| w != window
}

/// Tells the index that is interactively focused: `focused`, where the
/// workspace is active.
pub open spec fn at_focus(focused: int, active: bool) -> spec_fn(int) -> bool {
    |i: int| i == focused && active
}

/// Tells the indices at which `windows` holds `window`.
pub open spec fn holding(windows: Seq<u32>, window: u32) -> spec_fn(int) -> bool {
    |i: int| windows[i] == window
}

/// The greatest index at which `window` occurs, or -1 where it does not.
pub open spec fn last_position(windows: Seq<u32>, window: u32) -> int
    decreases windows.len(),
{
    if windows.len() == 0 {
        -1
    } else if windows.last() == window {
        windows.len() - 1
    } else {
        last_position(windows.drop_last(), window)
    }
}

/// `width` held to between a tenth and nine tenths of `region_width`.
pub open spec fn clamp_master(region_width: u16, width: int) -> u16 {
    if width < region_width / 10 {
        (region_width / 10) as u16
    } else if width > 9 * region_width / 10 {
        (9 * region_width / 10) as u16
    } else {
        width as u16
    }
}

impl WorkspaceView {
    /// The focus index is a valid index, or 0 where there are no windows.
    pub open spec fn focus_valid(self) -> bool {
        if self.windows.len() == 0 {
            self.focused == 0
        } else {
            0 <= self.focused < self.windows.len()
        }
    }

    /// The master column takes between a tenth and nine tenths of the region.
    pub open spec fn master_in_range(self) -> bool {
        self.width / 10 <= self.master_width <= 9 * self.width / 10
    }

    /// A valid focus index and a master width in range.
    pub open spec fn wf(self) -> bool {
        self.focus_valid() && self.master_in_range()
    }

    /// Border width of every window in the current mode.
    pub open spec fn border_width(self) -> u32 {
        if self.is_full {
            0
        } else {
            BORDER_WIDTH
        }
    }

    /// Where the master-stack layout puts the window at index `i`.
    pub open spec fn layout(self, i: int) -> Geometry {
        let n = self.windows.len() as int;
        if self.is_full {
            Geometry {
                x: self.x as i32,
                y: self.y as i32,
                width: self.width as i32,
                height: self.height as i32,
            }
        } else if n == 1 || i == 0 {
            Geometry {
                x: (self.gap + self.x) as i32,
                y: (self.gap + self.y) as i32,
                width: ((if n == 1 { self.width } else { self.master_width }) - 2 * self.gap) as i32,
                height: (self.height - 2 * self.gap) as i32,
            }
        } else {
            let stack_height = self.height as int / (n - 1);
            Geometry {
                x: (self.master_width + self.x) as i32,
                y: (stack_height * (i - 1) + self.gap + self.y) as i32,
                width: (self.width - self.master_width - self.gap) as i32,
                height: (stack_height - self.gap * (if i == n - 1 { 2int } else { 1int })) as i32,
            }
        }
    }

    /// The border width that the layout itself asks for: none in fullscreen
    /// mode, and nothing said of it otherwise.
    pub open spec fn layout_border(self) -> Option<u32> {
        if self.is_full {
            Some(0u32)
        } else {
            None
        }
    }

    /// One configure request per window, in window order.
    pub open spec fn tile_requests(self) -> Seq<Request> {
        Seq::new(
            self.windows.len(),
            |i: int|
                Request::Configure {
                    window: self.windows[i],
                    geometry: self.layout(i),
                    border_width: self.layout_border(),
                },
        )
    }

    /// One border-width request per window, in window order.
    pub open spec fn border_requests(self) -> Seq<Request> {
        Seq::new(
            self.windows.len(),
            |i: int| Request::SetBorderWidth { window: self.windows[i], width: self.border_width() },
        )
    }

    /// The styling of every window: highlighted at the focus index where the
    /// workspace is active, plain everywhere else.
    pub open spec fn focus_requests(self) -> Seq<Request> {
        style_requests(
            self.windows,
            at_focus(self.focused, self.active),
            self.windows.len() as int,
        )
    }

    /// The workspace with its focus at `index` modulo the number of windows, or
    /// at 0 where it has none.
    pub open spec fn with_focus(self, index: int) -> WorkspaceView {
        WorkspaceView {
            focused: if self.windows.len() == 0 {
                0
            } else {
                index % (self.windows.len() as int)
            },
            ..self
        }
    }

    /// The workspace made active or inactive, its focus index brought into
    /// range.
    pub open spec fn with_active(self, state: bool) -> WorkspaceView {
        WorkspaceView { active: state, ..self }.with_focus(self.focused)
    }

    /// The workspace with `window` as its new master, focused.
    pub open spec fn with_window(self, window: u32) -> WorkspaceView {
        WorkspaceView { windows: seq![window] + self.windows, focused: 0, ..self }
    }

    /// The requests of an addition: the new window's border width, then the
    /// styling and the layout of all windows.
    pub open spec fn add_requests(self, window: u32) -> Seq<Request> {
        seq![Request::SetBorderWidth { window, width: self.border_width() }]
            + self.with_window(window).focus_requests() + self.with_window(window).tile_requests()
    }

    /// The workspace without any occurrence of `window`, its focus index
    /// brought into range; the workspace itself where it does not hold `window`.
    pub open spec fn without_window(self, window: u32) -> WorkspaceView {
        if self.windows.contains(window) {
            WorkspaceView {
                windows: self.windows.filter(other_than(window)),
                ..self
            }.with_focus(self.focused)
        } else {
            self
        }
    }

    /// The requests of a removal: styling, then layout, of what is left; nothing
    /// where the workspace does not hold `window`.
    pub open spec fn remove_requests(self, window: u32) -> Seq<Request> {
        if self.windows.contains(window) {
            self.without_window(window).focus_requests() + self.without_window(
                window,
            ).tile_requests()
        } else {
            Seq::empty()
        }
    }

    /// The workspace with its master width set to `width`, held to its range;
    /// the workspace itself where it has no windows.
    pub open spec fn with_master_width(self, width: u16) -> WorkspaceView {
        if self.windows.len() == 0 {
            self
        } else {
            WorkspaceView { master_width: clamp_master(self.width, width as int), ..self }
        }
    }

    /// The workspace with its master width changed by `amount`: the sum,
    /// taken over the integers, held to the range; the workspace itself
    /// where it has no windows.
    pub open spec fn with_master_change(self, amount: i32) -> WorkspaceView {
        if self.windows.len() == 0 {
            self
        } else {
            WorkspaceView {
                master_width: clamp_master(self.width, self.master_width + amount),
                ..self
            }
        }
    }

    /// The workspace with its focused window moved to the front and focused
    /// there.
    pub open spec fn promoted(self) -> WorkspaceView {
        if self.windows.len() == 0 {
            self
        } else {
            WorkspaceView {
                windows: seq![self.windows[self.focused]] + self.windows.remove(self.focused),
                focused: 0,
                ..self
            }
        }
    }

    /// The workspace in the other mode: fullscreen or not.
    pub open spec fn toggled(self) -> WorkspaceView {
        WorkspaceView { is_full: !self.is_full, ..self }
    }

    /// The workspace after a search for `window`: focused on its last
    /// occurrence and active where it is found, unchanged where it is not; with
    /// the focus at 0 where there are no windows.
    pub open spec fn focused_on(self, window: u32) -> WorkspaceView {
        if self.windows.len() == 0 {
            WorkspaceView { focused: 0, ..self }
        } else if self.windows.contains(window) {
            WorkspaceView { focused: last_position(self.windows, window), active: true, ..self }
        } else {
            self
        }
    }

    /// The styling of every window, with exactly the occurrences of `window`
    /// highlighted.
    pub open spec fn focus_on_requests(self, window: u32) -> Seq<Request> {
        style_requests(
            self.windows,
            holding(self.windows, window),
            self.windows.len() as int,
        )
    }

    /// One close message to the focused window, where there is one.
    pub open spec fn close_requests(self) -> Seq<Request> {
        if self.windows.len() == 0 {
            Seq::empty()
        } else {
            seq![
                Request::SendClose {
                    window: self.windows[self.focused],
                    protocol: self.protocol_atom,
                    delete: self.delete_atom,
                },
            ]
        }
    }
}

/// A workspace's only window lies within the workspace's region, in either
/// mode.
pub proof fn lemma_single_window_within_region(ws: WorkspaceView)
    requires
        ws.windows.len() == 1,
    ensures
        ws.x <= ws.layout(0).x,
        ws.y <= ws.layout(0).y,
        ws.layout(0).x + ws.layout(0).width <= ws.x + ws.width,
        ws.layout(0).y + ws.layout(0).height <= ws.y + ws.height,
{
}

/// Outside fullscreen mode, with two windows or more, the master window
/// ends where the stack column begins, or to the left of that.
pub proof fn lemma_master_clear_of_stack(ws: WorkspaceView, i: int)
    requires
        !ws.is_full,
        1 <= i < ws.windows.len(),
    ensures
        ws.layout(0).x + ws.layout(0).width <= ws.layout(i).x,
{
}

/// Outside fullscreen mode, each window of the stack ends where the next
/// one begins, or above that, and all of them share one column.
pub proof fn lemma_stack_in_order(ws: WorkspaceView, i: int)
    requires
        !ws.is_full,
        1 <= i,
        i + 1 < ws.windows.len(),
    ensures
        ws.layout(i).y + ws.layout(i).height <= ws.layout(i + 1).y,
        ws.layout(i).x == ws.layout(i + 1).x,
        ws.layout(i).width == ws.layout(i + 1).width,
{
    let n = ws.windows.len() as int;
    let h = ws.height as int;
    let stack_height = h / (n - 1);
    assert(0 <= stack_height * (i - 1) && stack_height * i == stack_height * (i - 1) + stack_height
        && stack_height * i <= h) by (nonlinear_arith)
        requires
            stack_height == h / (n - 1),
            1 <= i < n - 1,
            0 <= h,
    ;
}

/// Toggling fullscreen mode twice gives back the workspace, and with it the
/// border widths and the layout it had.
pub proof fn lemma_toggle_full_twice(ws: WorkspaceView)
    ensures
        ws.toggled().toggled() == ws,
        ws.toggled().toggled().border_requests() == ws.border_requests(),
        ws.toggled().toggled().tile_requests() == ws.tile_requests(),
{
}

/// Once a window has been removed it is gone: removing it again changes
/// nothing and asks for nothing.
pub proof fn lemma_remove_window_twice(ws: WorkspaceView, window: u32)
    ensures
        !ws.without_window(window).windows.contains(window),
        ws.without_window(window).without_window(window) == ws.without_window(window),
        ws.without_window(window).remove_requests(window) == Seq::<Request>::empty(),
{
    let kept = ws.windows.filter(other_than(window));
    assert forall|i: int| 0 <= i < kept.len() implies kept[i] != window by {
        ws.windows.lemma_filter_pred(other_than(window), i);
    }
}

/// Wherever the focus is set on a workspace with windows, it lands on a
/// valid index: `index` modulo the number of windows.
pub proof fn lemma_set_focus_in_range(ws: WorkspaceView, index: int)
    requires
        ws.windows.len() > 0,
    ensures
        ws.with_focus(index).focused == index % (ws.windows.len() as int),
        0 <= ws.with_focus(index).focused < ws.windows.len(),
        ws.with_focus(index).focus_valid(),
{
}

/// However the master width is set, a workspace whose master width was in
/// range keeps it in range, and one with windows has it in range afterwards.
pub proof fn lemma_master_width_in_range(ws: WorkspaceView, width: u16)
    ensures
        ws.windows.len() > 0 ==> ws.with_master_width(width).master_in_range(),
        ws.master_in_range() ==> ws.with_master_width(width).master_in_range(),
{
}

/// A change of the master width by any amount, however large, leaves it in
/// range on a workspace with windows: at the lower bound where the sum falls
/// below it, at the upper bound where the sum exceeds it, and at the sum
/// otherwise.
pub proof fn lemma_master_change_in_range(ws: WorkspaceView, amount: i32)
    requires
        ws.windows.len() > 0,
    ensures
        ws.with_master_change(amount).master_in_range(),
        ws.master_width + amount < ws.width / 10 ==> ws.with_master_change(amount).master_width
            == ws.width / 10,
        ws.master_width + amount > 9 * ws.width / 10 ==> ws.with_master_change(
            amount,
        ).master_width == 9 * ws.width / 10,
        ws.width / 10 <= ws.master_width + amount <= 9 * ws.width / 10 ==> ws.with_master_change(
            amount,
        ).master_width == ws.master_width + amount,
{
}

impl<'a> View for Workspace<'a> {
    type V = WorkspaceView;

    open spec fn view(&self) -> WorkspaceView {
        WorkspaceView {
            x: self.x,
            y: self.y,
            width: self.width,
            height: self.height,
            gap: self.config.gap,
            protocol_atom: self.config.protocol_atom,
            delete_atom: self.config.delete_atom,
            master_width: self.master_width,
            windows: self.windows@,
            focused: self.focused as int,
            active: self.active,
            is_full: self.is_full,
        }
    }
}

/// Appends the styling of one window to `out`.
fn push_styling(out: &mut Vec<Request>, window: u32, highlighted: bool)
    ensures
        final(out)@ == old(out)@ + styling(window, highlighted),
{
    if highlighted {
        out.push(Request::UngrabButton { window });
        out.push(Request::SetBorderColor { window, pixel: FOCUSED_BORDER });
        out.push(Request::Raise { window });
        out.push(Request::SetInputFocus { window });
    } else {
        out.push(Request::GrabButton { window });
        out.push(Request::SetBorderColor { window, pixel: UNFOCUSED_BORDER });
    }
    proof {
        assert_seqs_equal!(out@, old(out)@ + styling(window, highlighted));
    }
}

impl<'a> Workspace<'a> {
    /// An empty, inactive workspace on `screen`, with the master column at
    /// half the region's width.
    pub fn new(screen: &ScreenInfo, config: &'a Config) -> (ws: Self)
        ensures
            ws.config == config,
            ws.x == screen.x_org,
            ws.y == screen.y_org,
            ws.width == screen.width,
            ws.height == screen.height,
            ws.master_width == screen.width / 2,
            ws.windows@ == Seq::<u32>::empty(),
            ws.focused == 0,
            !ws.active,
            !ws.is_full,
            ws@.wf(),
    {
        Self {
            config,
            x: screen.x_org,
            y: screen.y_org,
            width: screen.width,
            height: screen.height,
            master_width: screen.width / 2,
            windows: Vec::new(),
            focused: 0,
            active: false,
            is_full: false,
        }
    }

    /// The geometry of the window at index `i`.
    fn geometry_of(&self, i: usize) -> (g: Geometry)
        requires
            i < self.windows@.len(),
        ensures
            g == self@.layout(i as int),
    {
        let n: usize = self.windows.len();
        let gap: i32 = self.config.gap as i32;
        if self.is_full {
            Geometry {
                x: self.x as i32,
                y: self.y as i32,
                width: self.width as i32,
                height: self.height as i32,
            }
        } else if n == 1 || i == 0 {
            let span: i32 = if n == 1 {
                self.width as i32
            } else {
                self.master_width as i32
            };
            Geometry {
                x: gap + self.x as i32,
                y: gap + self.y as i32,
                width: span - 2 * gap,
                height: self.height as i32 - 2 * gap,
            }
        } else {
            let stack_height: usize = self.height as usize / (n - 1);
            assert(stack_height * (i - 1) <= self.height) by (nonlinear_arith)
                requires
                    stack_height == self.height as int / (n - 1),
                    1 <= i < n,
            ;
            let offset: usize = stack_height * (i - 1);
            let gaps: i32 = if i == n - 1 {
                2 * gap
            } else {
                gap
            };
            Geometry {
                x: self.master_width as i32 + self.x as i32,
                y: offset as i32 + gap + self.y as i32,
                width: self.width as i32 - self.master_width as i32 - gap,
                height: stack_height as i32 - gaps,
            }
        }
    }

    /// Computes the geometry of every window by the master-stack layout and
    /// returns one configure request for each, in window order. In
    /// fullscreen mode the request also sets the border width to zero.
    pub fn tile(&self) -> (out: Vec<Request>)
        ensures
            out@ == self@.tile_requests(),
    {
        let mut out: Vec<Request> = Vec::new();
        let border_width: Option<u32> = if self.is_full {
            Some(0)
        } else {
            None
        };
        let n: usize = self.windows.len();
        let mut i: usize = 0;
        while i < n
            invariant
                n == self.windows@.len(),
                i <= n,
                border_width == self@.layout_border(),
                out@.len() == i,
                forall|j: int| 0 <= j < i ==> out@[j] == self@.tile_requests()[j],
            decreases n - i,
        {
            let geometry = self.geometry_of(i);
            out.push(Request::Configure { window: self.windows[i], geometry, border_width });
            i += 1;
        }
        proof {
            assert_seqs_equal!(out@, self@.tile_requests());
        }
        out
    }

    /// One border-width request per window, in window order.
    fn border_all(&self) -> (out: Vec<Request>)
        ensures
            out@ == self@.border_requests(),
    {
        let mut out: Vec<Request> = Vec::new();
        let width: u32 = if self.is_full {
            0
        } else {
            BORDER_WIDTH
        };
        let n: usize = self.windows.len();
        let mut i: usize = 0;
        while i < n
            invariant
                n == self.windows@.len(),
                i <= n,
                width == self@.border_width(),
                out@.len() == i,
                forall|j: int| 0 <= j < i ==> out@[j] == self@.border_requests()[j],
            decreases n - i,
        {
            out.push(Request::SetBorderWidth { window: self.windows[i], width });
            i += 1;
        }
        proof {
            assert_seqs_equal!(out@, self@.border_requests());
        }
        out
    }

    /// Does nothing.
    pub fn hide_all(&mut self)
        ensures
            *final(self) == *old(self),
    {
    }

    /// Does nothing.
    pub fn show(&mut self)
        ensures
            *final(self) == *old(self),
    {
    }

    /// Puts `window` at index 0, focuses it, and lays the windows out again.
    pub fn add_window(&mut self, window: u32) -> (out: Vec<Request>)
        ensures
            final(self)@ == old(self)@.with_window(window),
            final(self).windows@[0] == window,
            final(self).focused == 0,
            final(self).config == old(self).config,
            out@ == old(self)@.add_requests(window),
    {
        let width: u32 = if self.is_full {
            0
        } else {
            BORDER_WIDTH
        };
        let mut out: Vec<Request> = Vec::new();
        out.push(Request::SetBorderWidth { window, width });
        self.windows.insert(0, window);
        proof {
            assert_seqs_equal!(self.windows@, seq![window] + old(self).windows@);
        }
        let mut focus = self.set_focus(0);
        let mut tiles = self.tile();
        out.append(&mut focus);
        out.append(&mut tiles);
        proof {
            assert(self@ == old(self)@.with_window(window));
            assert_seqs_equal!(out@, old(self)@.add_requests(window));
        }
        out
    }

    /// Removes the focused window, if there is one.
    pub fn remove_focused(&mut self) -> (res: (Option<u32>, Vec<Request>))
        requires
            old(self)@.focus_valid(),
        ensures
            final(self).config == old(self).config,
            old(self)@.windows.len() == 0 ==> res.0 == None::<u32> && *final(self) == *old(self)
                && res.1@ == Seq::<Request>::empty(),
            old(self)@.windows.len() > 0 ==> {
                let window = old(self)@.windows[old(self)@.focused];
                &&& res.0 == Some(window)
                &&& final(self)@ == old(self)@.without_window(window)
                &&& res.1@ == old(self)@.remove_requests(window)
            },
    {
        if self.windows.is_empty() {
            return (None, Vec::new());
        }
        let window: u32 = self.windows[self.focused];
        self.remove_window(window)
    }

    /// Removes every occurrence of `to_remove`. Where there was one, the
    /// focus index is brought back into range and the windows are laid out
    /// again; where there was none, nothing changes.
    pub fn remove_window(&mut self, to_remove: u32) -> (res: (Option<u32>, Vec<Request>))
        ensures
            final(self).config == old(self).config,
            final(self)@ == old(self)@.without_window(to_remove),
            res.1@ == old(self)@.remove_requests(to_remove),
            res.0 == if old(self)@.windows.contains(to_remove) {
                Some(to_remove)
            } else {
                None::<u32>
            },
            !old(self)@.windows.contains(to_remove) ==> *final(self) == *old(self),
    {
        let ghost keep = other_than(to_remove);
        let n: usize = self.windows.len();
        let mut kept: Vec<u32> = Vec::new();
        let mut i: usize = 0;
        while i < n
            invariant
                n == self.windows@.len(),
                i <= n,
                *self == *old(self),
                keep == other_than(to_remove),
                kept@ == self.windows@.subrange(0, i as int).filter(keep),
                (kept@.len() == i) <==> !self.windows@.subrange(0, i as int).contains(to_remove),
                kept@.len() <= i,
            decreases n - i,
        {
            let w: u32 = self.windows[i];
            proof {
                let before = self.windows@.subrange(0, i as int);
                let after = self.windows@.subrange(0, i as int + 1);
                assert(after.drop_last() =~= before);
                assert(after.last() == w);
                reveal(Seq::filter);
                assert(after.filter(keep) == if keep(w) {
                    before.filter(keep).push(w)
                } else {
                    before.filter(keep)
                });
                if before.contains(to_remove) {
                    let k = choose|k: int| 0 <= k < before.len() && before[k] == to_remove;
                    assert(after[k] == to_remove);
                }
                if after.contains(to_remove) && w != to_remove {
                    let k = choose|k: int| 0 <= k < after.len() && after[k] == to_remove;
                    assert(before[k] == to_remove);
                }
                if w == to_remove {
                    assert(after[i as int] == to_remove);
                }
            }
            if w != to_remove {
                kept.push(w);
            }
            i += 1;
        }
        proof {
            assert(self.windows@.subrange(0, n as int) =~= self.windows@);
        }
        if kept.len() == n {
            return (None, Vec::new());
        }
        self.windows = kept;
        let mut out = self.set_focus(self.focused);
        let mut tiles = self.tile();
        out.append(&mut tiles);
        (Some(to_remove), out)
    }

    /// Marks the workspace active or not, and styles its windows to match.
    pub fn set_active(&mut self, state: bool) -> (out: Vec<Request>)
        ensures
            final(self).config == old(self).config,
            final(self)@ == old(self)@.with_active(state),
            out@ == final(self)@.focus_requests(),
    {
        self.active = state;
        self.set_focus(self.focused)
    }

    /// Moves the focus to `index` modulo the number of windows, or to 0 where
    /// there are none, and styles every window: the focused one is
    /// highlighted where the workspace is active, the others never.
    pub fn set_focus(&mut self, index: usize) -> (out: Vec<Request>)
        ensures
            final(self).config == old(self).config,
            final(self)@ == old(self)@.with_focus(index as int),
            final(self)@.focus_valid(),
            old(self)@.windows.len() > 0 ==> final(self).focused == (index as int) % (old(
                self,
            ).windows@.len() as int),
            out@ == final(self)@.focus_requests(),
    {
        let mut out: Vec<Request> = Vec::new();
        if self.windows.is_empty() {
            self.focused = 0;
            return out;
        }
        let n: usize = self.windows.len();
        self.focused = index % n;
        let ghost highlighted = at_focus(self@.focused, self@.active);
        let mut i: usize = 0;
        while i < n
            invariant
                n == self.windows@.len(),
                i <= n,
                highlighted == at_focus(self@.focused, self@.active),
                out@ == style_requests(self.windows@, highlighted, i as int),
            decreases n - i,
        {
            push_styling(&mut out, self.windows[i], i == self.focused && self.active);
            i += 1;
        }
        out
    }

    /// Sets the master column's width, held to between a tenth and nine
    /// tenths of the region's width, and lays the windows out again. Does
    /// nothing where there are no windows.
    pub fn set_master_width(&mut self, width: u16) -> (out: Vec<Request>)
        ensures
            final(self).config == old(self).config,
            final(self)@ == old(self)@.with_master_width(width),
            old(self)@.windows.len() > 0 ==> final(self)@.master_in_range(),
            old(self)@.master_in_range() ==> final(self)@.master_in_range(),
            out@ == if old(self)@.windows.len() == 0 {
                Seq::<Request>::empty()
            } else {
                final(self)@.tile_requests()
            },
    {
        if self.windows.is_empty() {
            return Vec::new();
        }
        let low: u16 = self.width / 10;
        let high: u16 = (9 * (self.width as u32) / 10) as u16;
        self.master_width = if width < low {
            low
        } else if width > high {
            high
        } else {
            width
        };
        self.tile()
    }

    /// Asks the client of the focused window to close it.
    pub fn close_focused(&self) -> (out: Vec<Request>)
        requires
            self@.focus_valid(),
        ensures
            out@ == self@.close_requests(),
    {
        let mut out: Vec<Request> = Vec::new();
        if self.windows.is_empty() {
            return out;
        }
        out.push(
            Request::SendClose {
                window: self.windows[self.focused],
                protocol: self.config.protocol_atom,
                delete: self.config.delete_atom,
            },
        );
        proof {
            assert_seqs_equal!(out@, self@.close_requests());
        }
        out
    }

    /// Makes the focused window the master: moves it to index 0 and focuses
    /// it there.
    pub fn promote_focused(&mut self) -> (out: Vec<Request>)
        requires
            old(self)@.focus_valid(),
        ensures
            final(self).config == old(self).config,
            final(self)@ == old(self)@.promoted(),
            out@ == if old(self)@.windows.len() == 0 {
                Seq::<Request>::empty()
            } else {
                final(self)@.focus_requests() + final(self)@.tile_requests()
            },
    {
        if self.windows.is_empty() {
            return Vec::new();
        }
        let win: u32 = self.windows.remove(self.focused);
        self.windows.insert(0, win);
        proof {
            assert_seqs_equal!(
                self.windows@,
                seq![old(self)@.windows[old(self)@.focused]] + old(self)@.windows.remove(
                    old(self)@.focused,
                )
            );
        }
        let mut out = self.set_focus(0);
        let mut tiles = self.tile();
        out.append(&mut tiles);
        out
    }

    /// Enters or leaves fullscreen mode: sets every window's border width
    /// for the new mode and lays the windows out again.
    pub fn toggle_full(&mut self) -> (out: Vec<Request>)
        ensures
            final(self).config == old(self).config,
            final(self)@ == old(self)@.toggled(),
            out@ == final(self)@.border_requests() + final(self)@.tile_requests(),
    {
        self.is_full = !self.is_full;
        let mut out = self.border_all();
        let mut tiles = self.tile();
        out.append(&mut tiles);
        out
    }

    /// Looks for `win` among the windows. Where it is found, the focus moves
    /// to it, the workspace becomes active, and every window is styled:
    /// `win` highlighted, the others plain.
    pub fn focus_window_id(&mut self, win: u32) -> (res: (bool, Vec<Request>))
        ensures
            final(self).config == old(self).config,
            final(self)@ == old(self)@.focused_on(win),
            res.0 == old(self)@.windows.contains(win),
            res.1@ == old(self)@.focus_on_requests(win),
            old(self)@.focus_valid() ==> final(self)@.focus_valid(),
    {
        let mut out: Vec<Request> = Vec::new();
        if self.windows.is_empty() {
            self.focused = 0;
            return (false, out);
        }
        let mut ret: bool = false;
        let n: usize = self.windows.len();
        let ghost highlighted = holding(self.windows@, win);
        let mut i: usize = 0;
        while i < n
            invariant
                n == self.windows@.len(),
                i <= n,
                self.windows == old(self).windows,
                self.config == old(self).config,
                self.x == old(self).x,
                self.y == old(self).y,
                self.width == old(self).width,
                self.height == old(self).height,
                self.master_width == old(self).master_width,
                self.is_full == old(self).is_full,
                highlighted == holding(old(self)@.windows, win),
                out@ == style_requests(self.windows@, highlighted, i as int),
                ret == self.windows@.subrange(0, i as int).contains(win),
                ret ==> self.active && self.focused == last_position(
                    self.windows@.subrange(0, i as int),
                    win,
                ) && self.focused < i,
                !ret ==> self.active == old(self).active && self.focused == old(self).focused,
            decreases n - i,
        {
            let found: bool = self.windows[i] == win;
            proof {
                let before = self.windows@.subrange(0, i as int);
                let after = self.windows@.subrange(0, i as int + 1);
                assert(after.drop_last() =~= before);
                assert(after.last() == self.windows@[i as int]);
                if before.contains(win) {
                    let k = choose|k: int| 0 <= k < before.len() && before[k] == win;
                    assert(after[k] == win);
                }
                if after.contains(win) && !found {
                    let k = choose|k: int| 0 <= k < after.len() && after[k] == win;
                    assert(before[k] == win);
                }
                if found {
                    assert(after[i as int] == win);
                }
            }
            if found {
                self.focused = i;
                self.active = true;
                ret = true;
            }
            push_styling(&mut out, self.windows[i], found);
            i += 1;
        }
        proof {
            assert(self.windows@.subrange(0, n as int) =~= self.windows@);
        }
        (ret, out)
    }
}

} // verus!
