use vstd::prelude::*;
use crate::config::keybind::Keybind;
use crate::wm::request::Request;
use crate::wm::{joined, ManagerView, WindowManager};

verus! {

/// What the server reports, as far as the manager reads it.
#[derive(Clone, Copy, Debug, PartialEq, Eq)]
pub enum Event {
    /// A window wants to be shown.
    MapRequest { window: u32 },
    /// A window has been unmapped.
    UnmapNotify { window: u32 },
    /// A pointer button went down on the window `event`.
    ButtonPress { event: u32, detail: u8 },
    /// A pointer button came up.
    ButtonRelease { detail: u8 },
    /// The key `detail` went down while the modifiers `state` were held.
    KeyPress { detail: u8, state: u16 },
    /// A key came up.
    KeyRelease { detail: u8 },
    /// The client of `window` asks for a geometry.
    ConfigureRequest { window: u32 },
    /// Anything else.
    Other,
}

/// The binding is for the key `detail` under the modifiers `state`.
pub open spec fn binds(binding: Keybind, detail: u8, state: u16) -> bool {
    binding.keycode == detail && binding.modkeys == state
}

/// The index of the first binding for `detail` under `state`, if there is one.
pub open spec fn first_binding(keybindings: Seq<Keybind>, detail: u8, state: u16) -> Option<int>
    decreases keybindings.len(),
{
    if keybindings.len() == 0 {
        None
    } else {
        match first_binding(keybindings.drop_last(), detail, state) {
            Some(i) => Some(i),
            None => if binds(keybindings.last(), detail, state) {
                Some(keybindings.len() - 1)
            } else {
                None
            },
        }
    }
}

/// The event is a button press on a window other than the root: the one
/// event that may activate a workspace without deactivating another.
pub open spec fn moves_activation(event: Event, root: u32) -> bool {
    match event {
        Event::ButtonPress { event: window, .. } => window != root,
        _ => false,
    }
}

impl ManagerView {
    /// The manager once `window` has joined the current workspace.
    pub open spec fn mapped(self, window: u32) -> ManagerView {
        self.with_current(self.current().with_window(window))
    }

    /// The requests of a map request: adoption, addition to the current
    /// workspace, layout of every workspace, styling of the current one.
    pub open spec fn map_requests(self, window: u32) -> Seq<Request> {
        seq![Request::Adopt { window }] + self.current().add_requests(window)
            + self.mapped(window).tile_requests() + self.mapped(window).current().focus_requests()
    }

    /// The manager once `window` has left every workspace.
    pub open spec fn unmapped(self, window: u32) -> ManagerView {
        ManagerView {
            workspaces: Seq::new(
                self.workspaces.len(),
                |i: int| self.workspaces[i].without_window(window),
            ),
            ..self
        }
    }

    /// The requests of each workspace for the removal of `window`, by workspace.
    pub open spec fn unmap_parts(self, window: u32) -> Seq<Seq<Request>> {
        Seq::new(self.workspaces.len(), |i: int| self.workspaces[i].remove_requests(window))
    }

    /// The requests of an unmap notification, in workspace order.
    pub open spec fn unmap_requests(self, window: u32) -> Seq<Request> {
        joined(self.unmap_parts(window), self.workspaces.len() as int)
    }

    /// The manager after a button press on `window`, where `root` is the
    /// root window: a press on the root changes nothing.
    pub open spec fn pressed(self, window: u32, root: u32) -> ManagerView {
        if window != root {
            self.focused_on(window)
        } else {
            self
        }
    }

    /// The requests of a button press on `window`: the styling of every
    /// workspace, unless `window` is the root.
    pub open spec fn press_requests(self, window: u32, root: u32) -> Seq<Request> {
        if window != root {
            self.focus_on_requests(window)
        } else {
            Seq::empty()
        }
    }

    /// The requests of a configure request: the client's wish, then the layout
    /// of every workspace.
    pub open spec fn configure_requests(self, window: u32) -> Seq<Request> {
        seq![Request::HonorConfigure { window }] + self.tile_requests()
    }

    /// A key press takes the manager from `self` to `after` and asks for
    /// `out`: what the action of the first matching binding performs, or
    /// nothing where no binding matches.
    pub open spec fn key_performs(
        self,
        keybindings: Seq<Keybind>,
        detail: u8,
        state: u16,
        after: ManagerView,
        out: Seq<Request>,
    ) -> bool {
        match first_binding(keybindings, detail, state) {
            Some(i) => self.performs(keybindings[i].action, after, out),
            None => after == self && out == Seq::<Request>::empty(),
        }
    }
}

/// Looks for the first binding for the key `detail` under the modifiers
/// `state`.
pub fn find_binding(keybindings: &Vec<Keybind>, detail: u8, state: u16) -> (found: Option<usize>)
    ensures
        match found {
            Some(i) => first_binding(keybindings@, detail, state) == Some(i as int) && i
                < keybindings@.len(),
            None => first_binding(keybindings@, detail, state).is_none(),
        },
{
    let mut found: Option<usize> = None;
    let n: usize = keybindings.len();
    let mut i: usize = 0;
    while i < n
        invariant
            n == keybindings@.len(),
            i <= n,
            match found {
                Some(k) => first_binding(keybindings@.subrange(0, i as int), detail, state) == Some(
                    k as int,
                ) && k < i,
                None => first_binding(keybindings@.subrange(0, i as int), detail, state).is_none(),
            },
        decreases n - i,
    {
        proof {
            assert(keybindings@.subrange(0, i as int + 1).drop_last() =~= keybindings@.subrange(
                0,
                i as int,
            ));
        }
        if found.is_none() && keybindings[i].keycode == detail && keybindings[i].modkeys == state {
            found = Some(i);
        }
        i += 1;
    }
    proof {
        assert(keybindings@.subrange(0, n as int) =~= keybindings@);
    }
    found
}

impl<'a> WindowManager<'a> {
    /// Reacts to one event of the server.
    pub fn handle_event(&mut self, event: Event) -> (out: Vec<Request>)
        requires
            old(self)@.wf(),
        ensures
            final(self).config == old(self).config,
            final(self)@.wf(),
            match event {
                Event::MapRequest { window } => final(self)@ == old(self)@.mapped(window) && out@
                    == old(self)@.map_requests(window),
                Event::UnmapNotify { window } => final(self)@ == old(self)@.unmapped(window) && out@
                    == old(self)@.unmap_requests(window),
                Event::ButtonPress { event, .. } => final(self)@ == old(self)@.pressed(
                    event,
                    old(self).config.root,
                ) && out@ == old(self)@.press_requests(event, old(self).config.root),
                Event::KeyPress { detail, state } => old(self)@.key_performs(
                    old(self).config.keybindings@,
                    detail,
                    state,
                    final(self)@,
                    out@,
                ),
                Event::ConfigureRequest { window } => final(self)@ == old(self)@ && out@ == old(
                    self,
                )@.configure_requests(window),
                _ => final(self)@ == old(self)@ && out@ == Seq::<Request>::empty(),
            },
            (old(self)@.one_active() && !moves_activation(event, old(self).config.root))
                ==> final(self)@.one_active(),
    {
        match event {
            Event::MapRequest { window } => self.handle_map_request(window),
            Event::UnmapNotify { window } => self.handle_unmap_notify(window),
            Event::ButtonPress { event, detail: _ } => self.handle_button_press(event),
            Event::ButtonRelease { detail: _ } => Vec::new(),
            Event::KeyPress { detail, state } => self.handle_key_press(detail, state),
            Event::KeyRelease { detail: _ } => Vec::new(),
            Event::ConfigureRequest { window } => self.handle_configure_request(window),
            Event::Other => Vec::new(),
        }
    }

    /// Takes a new window into the current workspace, as its master, and
    /// focuses it.
    fn handle_map_request(&mut self, window: u32) -> (out: Vec<Request>)
        requires
            old(self)@.wf(),
        ensures
            final(self).config == old(self).config,
            final(self)@.wf(),
            final(self)@ == old(self)@.mapped(window),
            old(self)@.one_active() ==> final(self)@.one_active(),
            out@ == old(self)@.map_requests(window),
    {
        let mut out: Vec<Request> = Vec::new();
        out.push(Request::Adopt { window });
        let mut added = self.workspaces[self.focused].add_window(window);
        proof {
            assert(self@.workspaces =~= old(self)@.mapped(window).workspaces);
        }
        let mut tiles = self.tile_windows();
        let mut focus = self.set_focus(0);
        proof {
            assert(self@.workspaces =~= old(self)@.mapped(window).workspaces);
        }
        out.append(&mut added);
        out.append(&mut tiles);
        out.append(&mut focus);
        out
    }

    /// Removes a window from every workspace that holds it.
    fn handle_unmap_notify(&mut self, window: u32) -> (out: Vec<Request>)
        requires
            old(self)@.wf(),
        ensures
            final(self).config == old(self).config,
            final(self)@.wf(),
            final(self)@ == old(self)@.unmapped(window),
            old(self)@.one_active() ==> final(self)@.one_active(),
            out@ == old(self)@.unmap_requests(window),
    {
        let mut out: Vec<Request> = Vec::new();
        let n: usize = self.workspaces.len();
        let mut i: usize = 0;
        proof {
            assert forall|j: int| 0 <= j < n implies (#[trigger] self.workspaces@[j])@.focus_valid() by {
                assert(self@.workspaces[j].focus_valid());
            }
        }
        while i < n
            invariant
                n == self.workspaces@.len(),
                n == old(self).workspaces@.len(),
                i <= n,
                self.config == old(self).config,
                self.focused == old(self).focused,
                old(self)@.wf(),
                forall|j: int|
                    0 <= j < i ==> (#[trigger] self.workspaces@[j])@ == old(
                        self,
                    ).workspaces@[j]@.without_window(window),
                forall|j: int| i <= j < n ==> #[trigger] self.workspaces@[j] == old(self).workspaces@[j],
                forall|j: int| 0 <= j < n ==> (#[trigger] self.workspaces@[j])@.focus_valid(),
                out@ == joined(old(self)@.unmap_parts(window), i as int),
            decreases n - i,
        {
            let (_, mut part) = self.workspaces[i].remove_window(window);
            out.append(&mut part);
            i += 1;
        }
        proof {
            assert(self@.workspaces =~= old(self)@.unmapped(window).workspaces);
        }
        out
    }

    /// Focuses the window that a button went down on, unless it is the root.
    fn handle_button_press(&mut self, window: u32) -> (out: Vec<Request>)
        requires
            old(self)@.wf(),
        ensures
            final(self).config == old(self).config,
            final(self)@.wf(),
            final(self)@ == old(self)@.pressed(window, old(self).config.root),
            (old(self)@.one_active() && window == old(self).config.root) ==> final(self)@.one_active(),
            out@ == old(self)@.press_requests(window, old(self).config.root),
    {
        if window != self.config.root {
            self.focus_window_id(window)
        } else {
            Vec::new()
        }
    }

    /// Carries out the action of the first binding that matches the key.
    fn handle_key_press(&mut self, detail: u8, state: u16) -> (out: Vec<Request>)
        requires
            old(self)@.wf(),
        ensures
            final(self).config == old(self).config,
            final(self)@.wf(),
            old(self)@.key_performs(
                old(self).config.keybindings@,
                detail,
                state,
                final(self)@,
                out@,
            ),
            old(self)@.one_active() ==> final(self)@.one_active(),
    {
        let config = self.config;
        match find_binding(&config.keybindings, detail, state) {
            Some(i) => self.execute(&config.keybindings[i].action),
            None => Vec::new(),
        }
    }

    /// Grants a client the geometry it asked for, then lays everything out
    /// again.
    fn handle_configure_request(&self, window: u32) -> (out: Vec<Request>)
        ensures
            out@ == self@.configure_requests(window),
    {
        let mut out: Vec<Request> = Vec::new();
        out.push(Request::HonorConfigure { window });
        let mut tiles = self.tile_windows();
        out.append(&mut tiles);
        out
    }
}

} // verus!
