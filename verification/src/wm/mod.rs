use vstd::prelude::*;

pub mod actions;
pub mod event;
pub mod ownership;
pub mod request;
pub mod workspace;

use crate::config::Config;
use crate::config::keybind::Keybind;
use crate::wm::request::{Request, ScreenInfo};
use crate::wm::workspace::{Workspace, WorkspaceView};

verus! {

/// The manager: one workspace per monitor region, and which of them
/// receives the user's input.
pub struct WindowManager<'a> {
    pub config: &'a Config,
    pub workspaces: Vec<Workspace<'a>>,
    pub focused: usize,
}

/// The mathematical value of a [`WindowManager`].
pub struct ManagerView {
    pub workspaces: Seq<WorkspaceView>,
    pub focused: int,
}

/// Why the manager could not start.
#[derive(Clone, Copy, Debug, PartialEq, Eq)]
pub enum StartError {
    /// The server reported no monitor region.
    NoScreens,
}

/// What a poll of a spawned process found.
#[derive(Clone, Copy, Debug, PartialEq, Eq)]
pub enum ProcessPoll {
    /// The process has ended.
    Exited,
    /// The process is still running.
    Running,
    /// The poll itself failed.
    Failed,
}

/// Whether a process stays tracked after a poll: always, unless it was seen
/// to have ended. A failed poll keeps it.
pub fn keep_tracking(poll: ProcessPoll) -> (keep: bool)
    ensures
        keep == (poll != ProcessPoll::Exited),
{
    match poll {
        ProcessPoll::Exited => false,
        ProcessPoll::Running => true,
        ProcessPoll::Failed => true,
    }
}

/// The first `n` of `parts`, one after the other.
pub open spec fn joined(parts: Seq<Seq<Request>>, n: int) -> Seq<Request>
    decreases n,
{
    if n <= 0 {
        Seq::empty()
    } else {
        joined(parts, n - 1) + parts[n - 1]
    }
}

/// A workspace as `start` makes it for `screen`: empty, the master column at
/// half the width, active where `active` says so.
pub open spec fn fresh_workspace(screen: ScreenInfo, config: &Config, active: bool) -> WorkspaceView {
    WorkspaceView {
        x: screen.x_org,
        y: screen.y_org,
        width: screen.width,
        height: screen.height,
        gap: config.gap,
        protocol_atom: config.protocol_atom,
        delete_atom: config.delete_atom,
        master_width: (screen.width / 2) as u16,
        windows: Seq::empty(),
        focused: 0,
        active,
        is_full: false,
    }
}

/// One key grab per binding, in the order of the bindings.
pub open spec fn grab_requests(keybindings: Seq<Keybind>) -> Seq<Request> {
    Seq::new(
        keybindings.len(),
        |i: int| Request::GrabKey { keycode: keybindings[i].keycode, modifiers: keybindings[i].modkeys },
    )
}

/// The manager as `start` leaves it: one fresh workspace per screen, the
/// first of them active and current.
pub open spec fn started(screens: Seq<ScreenInfo>, config: &Config) -> ManagerView {
    ManagerView {
        workspaces: Seq::new(screens.len(), |i: int| fresh_workspace(screens[i], config, i == 0)),
        focused: 0,
    }
}

impl ManagerView {
    /// There is a workspace, the focus index names one, and every workspace
    /// has a valid focus index of its own.
    pub open spec fn wf(self) -> bool {
        &&& 0 <= self.focused < self.workspaces.len()
        &&& forall|i: int| 0 <= i < self.workspaces.len() ==> (#[trigger] self.workspaces[i]).focus_valid()
    }

    /// The focused workspace is active and no other is.
    pub open spec fn one_active(self) -> bool {
        forall|i: int|
            0 <= i < self.workspaces.len() ==> ((#[trigger] self.workspaces[i]).active <==> i
                == self.focused)
    }

    /// The workspace that receives the user's input.
    pub open spec fn current(self) -> WorkspaceView {
        self.workspaces[self.focused]
    }

    /// The manager with `workspace` in place of the current one.
    pub open spec fn with_current(self, workspace: WorkspaceView) -> ManagerView {
        ManagerView { workspaces: self.workspaces.update(self.focused, workspace), ..self }
    }

    /// The configure requests of each workspace, by workspace.
    pub open spec fn tile_parts(self) -> Seq<Seq<Request>> {
        Seq::new(self.workspaces.len(), |i: int| self.workspaces[i].tile_requests())
    }

    /// The configure requests of every workspace, in workspace order.
    pub open spec fn tile_requests(self) -> Seq<Request> {
        joined(self.tile_parts(), self.workspaces.len() as int)
    }

    /// The index of the last workspace among the first `n` that holds
    /// `window`, or the current focus index where none does.
    pub open spec fn last_holder(self, window: u32, n: int) -> int
        decreases n,
    {
        if n <= 0 {
            self.focused
        } else if self.workspaces[n - 1].windows.contains(window) {
            n - 1
        } else {
            self.last_holder(window, n - 1)
        }
    }

    /// The manager after a search for `window` in every workspace: the last
    /// workspace that holds it is current.
    pub open spec fn focused_on(self, window: u32) -> ManagerView {
        ManagerView {
            workspaces: Seq::new(self.workspaces.len(), |i: int| self.workspaces[i].focused_on(window)),
            focused: self.last_holder(window, self.workspaces.len() as int),
        }
    }

    /// The styling that the search for `window` asks of each workspace.
    pub open spec fn focus_on_parts(self, window: u32) -> Seq<Seq<Request>> {
        Seq::new(self.workspaces.len(), |i: int| self.workspaces[i].focus_on_requests(window))
    }

    /// The styling that the search for `window` asks for, in workspace order.
    pub open spec fn focus_on_requests(self, window: u32) -> Seq<Request> {
        joined(self.focus_on_parts(window), self.workspaces.len() as int)
    }
}

impl<'a> View for WindowManager<'a> {
    type V = ManagerView;

    open spec fn view(&self) -> ManagerView {
        ManagerView {
            workspaces: Seq::new(self.workspaces@.len(), |i: int| self.workspaces@[i]@),
            focused: self.focused as int,
        }
    }
}

impl<'a> WindowManager<'a> {
    /// A manager that has no workspace yet.
    pub fn new(config: &'a Config) -> (wm: Self)
        ensures
            wm.config == config,
            wm.workspaces@.len() == 0,
            wm.focused == 0,
    {
        Self { config, workspaces: Vec::new(), focused: 0 }
    }

    /// Builds one workspace per screen, makes the first one active, and
    /// asks for a grab of every bound key. Fails where there is no screen.
    pub fn start(&mut self, screens: &Vec<ScreenInfo>) -> (res: Result<Vec<Request>, StartError>)
        requires
            old(self).workspaces@.len() == 0,
            old(self).focused == 0,
        ensures
            final(self).config == old(self).config,
            screens@.len() == 0 ==> res == Err::<Vec<Request>, StartError>(StartError::NoScreens)
                && final(self)@ == old(self)@,
            screens@.len() > 0 ==> {
                &&& res is Ok
                &&& res->Ok_0@ == grab_requests(old(self).config.keybindings@)
                &&& final(self)@ == started(screens@, old(self).config)
                &&& final(self)@.wf()
                &&& final(self)@.one_active()
            },
    {
        let n: usize = screens.len();
        let mut i: usize = 0;
        while i < n
            invariant
                n == screens@.len(),
                i <= n,
                self.config == old(self).config,
                self.focused == 0,
                self.workspaces@.len() == i,
                forall|j: int|
                    0 <= j < i ==> (#[trigger] self.workspaces@[j])@ == fresh_workspace(
                        screens@[j],
                        self.config,
                        false,
                    ),
            decreases n - i,
        {
            let ws = Workspace::new(&screens[i], self.config);
            self.workspaces.push(ws);
            i += 1;
        }
        if self.workspaces.is_empty() {
            proof {
                assert(self@.workspaces =~= old(self)@.workspaces);
            }
            return Err(StartError::NoScreens);
        }
        let _ = self.workspaces[self.focused].set_active(true);
        let mut out: Vec<Request> = Vec::new();
        let config: &Config = self.config;
        let count: usize = config.keybindings.len();
        let mut k: usize = 0;
        while k < count
            invariant
                count == config.keybindings@.len(),
                k <= count,
                out@.len() == k,
                forall|j: int| 0 <= j < k ==> out@[j] == grab_requests(config.keybindings@)[j],
            decreases count - k,
        {
            let binding = &config.keybindings[k];
            out.push(Request::GrabKey { keycode: binding.keycode, modifiers: binding.modkeys });
            k += 1;
        }
        proof {
            assert(out@ =~= grab_requests(config.keybindings@));
            assert(self@.workspaces =~= started(screens@, self.config).workspaces);
        }
        Ok(out)
    }

    /// Lays out every workspace again.
    pub fn tile_windows(&self) -> (out: Vec<Request>)
        ensures
            out@ == self@.tile_requests(),
    {
        let mut out: Vec<Request> = Vec::new();
        let n: usize = self.workspaces.len();
        let mut i: usize = 0;
        while i < n
            invariant
                n == self.workspaces@.len(),
                i <= n,
                out@ == joined(self@.tile_parts(), i as int),
            decreases n - i,
        {
            let mut tiles = self.workspaces[i].tile();
            out.append(&mut tiles);
            i += 1;
        }
        out
    }

    /// Moves the focus within the current workspace.
    pub fn set_focus(&mut self, index: usize) -> (out: Vec<Request>)
        requires
            old(self).focused < old(self).workspaces@.len(),
        ensures
            final(self).config == old(self).config,
            final(self)@ == old(self)@.with_current(old(self)@.current().with_focus(index as int)),
            out@ == final(self)@.current().focus_requests(),
            old(self)@.wf() ==> final(self)@.wf(),
    {
        let out = self.workspaces[self.focused].set_focus(index);
        proof {
            assert(self@.workspaces =~= old(self)@.workspaces.update(
                old(self)@.focused,
                old(self)@.current().with_focus(index as int),
            ));
        }
        out
    }

    /// Sets the master width of the current workspace.
    pub fn set_master_width(&mut self, width: u16) -> (out: Vec<Request>)
        requires
            old(self).focused < old(self).workspaces@.len(),
        ensures
            final(self).config == old(self).config,
            final(self)@ == old(self)@.with_current(old(self)@.current().with_master_width(width)),
            out@ == if old(self)@.current().windows.len() == 0 {
                Seq::<Request>::empty()
            } else {
                final(self)@.current().tile_requests()
            },
            old(self)@.wf() ==> final(self)@.wf(),
    {
        let out = self.workspaces[self.focused].set_master_width(width);
        proof {
            assert(self@.workspaces =~= old(self)@.workspaces.update(
                old(self)@.focused,
                old(self)@.current().with_master_width(width),
            ));
        }
        out
    }

    /// Focuses `win` in every workspace that holds it; the last such
    /// workspace becomes the current one.
    pub fn focus_window_id(&mut self, win: u32) -> (out: Vec<Request>)
        ensures
            final(self).config == old(self).config,
            final(self)@ == old(self)@.focused_on(win),
            out@ == old(self)@.focus_on_requests(win),
            old(self)@.wf() ==> final(self)@.wf(),
    {
        let mut out: Vec<Request> = Vec::new();
        let n: usize = self.workspaces.len();
        let mut i: usize = 0;
        while i < n
            invariant
                n == self.workspaces@.len(),
                n == old(self).workspaces@.len(),
                i <= n,
                self.config == old(self).config,
                forall|j: int|
                    0 <= j < i ==> (#[trigger] self.workspaces@[j])@ == old(
                        self,
                    ).workspaces@[j]@.focused_on(win),
                forall|j: int| i <= j < n ==> #[trigger] self.workspaces@[j] == old(self).workspaces@[j],
                forall|j: int|
                    0 <= j < n && old(self)@.workspaces[j].focus_valid() ==> (
                    #[trigger] self.workspaces@[j])@.focus_valid(),
                self.focused == old(self)@.last_holder(win, i as int),
                old(self)@.wf() ==> self.focused < n,
                out@ == joined(old(self)@.focus_on_parts(win), i as int),
            decreases n - i,
        {
            let (found, mut part) = self.workspaces[i].focus_window_id(win);
            if found {
                self.focused = i;
            }
            out.append(&mut part);
            i += 1;
        }
        proof {
            assert(self@.workspaces =~= old(self)@.focused_on(win).workspaces);
        }
        out
    }
}

} // verus!
