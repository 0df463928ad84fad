use vstd::prelude::*;
use vstd::arithmetic::div_mod::{
    lemma_add_mod_noop, lemma_mod_add_multiples_vanish, lemma_small_mod,
};
use crate::wm::request::Request;
use crate::wm::workspace::lemma_remove_window_twice;
use crate::wm::{ManagerView, WindowManager};

verus! {

/// What a key binding can trigger.
#[derive(Clone, Debug, PartialEq, Eq)]
pub enum ActionType {
    Run { prog: String, args: Vec<String> },
    Close,
    CycleFocus { direction: bool },
    ChangeSize { amount: i32 },
    NextScreen,
    PromoteWindow,
    MoveWindow,
    ToggleFull,
    Quit,
}

/// `request` asks to start `prog` with the arguments `args`.
pub open spec fn spawns(request: Request, prog: String, args: Seq<String>) -> bool {
    match request {
        Request::Spawn { prog: p, args: a } => p == prog && a@ == args,
        _ => false,
    }
}

impl ManagerView {
    /// The manager once the focus of the current workspace has moved one window
    /// on (`true`) or back (`false`), wrapping at either end.
    pub open spec fn cycled(self, direction: bool) -> ManagerView {
        let ws = self.current();
        let index = if direction {
            ws.focused + 1
        } else {
            ws.focused + ws.windows.len() - 1
        };
        if ws.windows.len() == 0 {
            self
        } else {
            self.with_current(ws.with_focus(index))
        }
    }

    /// The requests of a focus cycle: the styling of the current workspace.
    pub open spec fn cycle_requests(self, direction: bool) -> Seq<Request> {
        if self.current().windows.len() == 0 {
            Seq::empty()
        } else {
            self.cycled(direction).current().focus_requests()
        }
    }

    /// The current workspace inactive, the one after it (the first after the
    /// last) active and current.
    pub open spec fn next_screen(self) -> ManagerView {
        let off = self.with_current(self.current().with_active(false));
        let next = (self.focused + 1) % (self.workspaces.len() as int);
        ManagerView {
            workspaces: off.workspaces.update(next, off.workspaces[next].with_active(true)),
            focused: next,
        }
    }

    /// The requests of a switch: the styling of the workspace that is left, then
    /// of the one that is entered.
    pub open spec fn next_screen_requests(self) -> Seq<Request> {
        self.current().with_active(false).focus_requests()
            + self.next_screen().current().focus_requests()
    }

    /// The manager once the master width of the current workspace has changed
    /// by `amount` and been held to its range.
    pub open spec fn resized(self, amount: i32) -> ManagerView {
        self.with_current(self.current().with_master_change(amount))
    }

    /// The requests of a resize: the layout of the current workspace, where it
    /// has windows.
    pub open spec fn resize_requests(self, amount: i32) -> Seq<Request> {
        if self.current().windows.len() == 0 {
            Seq::empty()
        } else {
            self.resized(amount).current().tile_requests()
        }
    }

    /// The requests of a promotion: styling, then layout, of the current
    /// workspace.
    pub open spec fn promote_requests(self) -> Seq<Request> {
        let ws = self.current();
        if ws.windows.len() == 0 {
            Seq::empty()
        } else {
            ws.promoted().focus_requests() + ws.promoted().tile_requests()
        }
    }

    /// The requests of a fullscreen toggle: border widths, then layout.
    pub open spec fn toggle_requests(self) -> Seq<Request> {
        let ws = self.current().toggled();
        ws.border_requests() + ws.tile_requests()
    }

    /// Whether `MoveWindow` has anything to do: a second workspace to move
    /// to, and a window to move.
    pub open spec fn can_move(self) -> bool {
        self.workspaces.len() > 1 && self.current().windows.len() > 0
    }

    /// The manager once the focused window has left the current workspace.
    pub open spec fn lifted(self) -> ManagerView {
        let ws = self.current();
        self.with_current(ws.without_window(ws.windows[ws.focused]))
    }

    /// The manager once the focused window has moved to the next workspace and
    /// the input has followed it.
    pub open spec fn moved(self) -> ManagerView {
        if self.can_move() {
            let ws = self.current();
            let switched = self.lifted().next_screen();
            switched.with_current(switched.current().with_window(ws.windows[ws.focused]))
        } else {
            self
        }
    }

    /// The requests of a move: those of the removal, of the switch and of the
    /// addition, in that order.
    pub open spec fn move_requests(self) -> Seq<Request> {
        if self.can_move() {
            let ws = self.current();
            let window = ws.windows[ws.focused];
            ws.remove_requests(window) + self.lifted().next_screen_requests()
                + self.lifted().next_screen().current().add_requests(window)
        } else {
            Seq::empty()
        }
    }

    /// The manager after `action`.
    pub open spec fn after(self, action: ActionType) -> ManagerView {
        match action {
            ActionType::Run { .. } => self,
            ActionType::Close => self,
            ActionType::CycleFocus { direction } => self.cycled(direction),
            ActionType::ChangeSize { amount } => self.resized(amount),
            ActionType::NextScreen => self.next_screen(),
            ActionType::PromoteWindow => self.with_current(self.current().promoted()),
            ActionType::MoveWindow => self.moved(),
            ActionType::ToggleFull => self.with_current(self.current().toggled()),
            ActionType::Quit => self,
        }
    }

    /// `action` takes the manager from `self` to `after` and asks for `out`:
    /// for `Run` one process, with the program and arguments of the action;
    /// for every other action what `requests` lists.
    pub open spec fn performs(self, action: ActionType, after: ManagerView, out: Seq<Request>) -> bool {
        &&& after == self.after(action)
        &&& match action {
            ActionType::Run { prog, args } => out.len() == 1 && spawns(out[0], prog, args@),
            _ => out == self.requests(action),
        }
    }

    /// The requests that `action` gives rise to, for every action but `Run`.
    pub open spec fn requests(self, action: ActionType) -> Seq<Request> {
        match action {
            ActionType::Run { .. } => Seq::empty(),
            ActionType::Close => self.current().close_requests(),
            ActionType::CycleFocus { direction } => self.cycle_requests(direction),
            ActionType::ChangeSize { amount } => self.resize_requests(amount),
            ActionType::NextScreen => self.next_screen_requests(),
            ActionType::PromoteWindow => self.promote_requests(),
            ActionType::MoveWindow => self.move_requests(),
            ActionType::ToggleFull => self.toggle_requests(),
            ActionType::Quit => seq![Request::Exit],
        }
    }
}

/// Where exactly the current workspace is active, the same holds after the
/// input has gone to the next workspace.
pub proof fn lemma_next_screen_one_active(wm: ManagerView)
    requires
        wm.wf(),
        wm.one_active(),
    ensures
        wm.next_screen().one_active(),
        wm.next_screen().wf(),
        wm.next_screen().focused == (wm.focused + 1) % (wm.workspaces.len() as int),
{
}

/// The manager after `count` switches to the next workspace.
pub open spec fn after_switches(wm: ManagerView, count: nat) -> ManagerView
    decreases count,
{
    if count == 0 {
        wm
    } else {
        after_switches(wm, (count - 1) as nat).next_screen()
    }
}

/// Switching goes round: after `count` switches the input is `count`
/// workspaces further on, counted modulo their number, so after as many
/// switches as there are workspaces it is back where it was. Where exactly
/// the current workspace was active, that holds all the way.
pub proof fn lemma_switches_go_round(wm: ManagerView, count: nat)
    requires
        wm.wf(),
    ensures
        after_switches(wm, count).wf(),
        after_switches(wm, count).workspaces.len() == wm.workspaces.len(),
        after_switches(wm, count).focused == (wm.focused + count) % (wm.workspaces.len() as int),
        count == wm.workspaces.len() ==> after_switches(wm, count).focused == wm.focused,
        wm.one_active() ==> after_switches(wm, count).one_active(),
    decreases count,
{
    let n = wm.workspaces.len() as int;
    if count == 0 {
        lemma_small_mod(wm.focused as nat, n as nat);
    } else {
        let before = after_switches(wm, (count - 1) as nat);
        lemma_switches_go_round(wm, (count - 1) as nat);
        if wm.one_active() {
            lemma_next_screen_one_active(before);
        }
        lemma_add_mod_noop(wm.focused + count - 1, 1, n);
        if n > 1 {
            lemma_small_mod(1, n as nat);
        } else {
            assert(before.focused == 0);
            assert(before.next_screen().focused == 0);
            assert((wm.focused + count) % n == 0) by (nonlinear_arith)
                requires
                    n == 1,
            ;
        }
        if count == n {
            lemma_mod_add_multiples_vanish(wm.focused, n);
            lemma_small_mod(wm.focused as nat, n as nat);
        }
    }
}

/// No action but a switch of screens touches the activation, and a switch
/// hands it on: where exactly the current workspace is active, the same
/// holds after any action.
pub proof fn lemma_action_one_active(wm: ManagerView, action: ActionType)
    requires
        wm.wf(),
        wm.one_active(),
    ensures
        wm.after(action).one_active(),
{
    if action == ActionType::MoveWindow && wm.can_move() {
        let lifted = wm.lifted();
        assert(lifted.wf() && lifted.one_active());
        lemma_next_screen_one_active(lifted);
    }
}

/// Where a window can be moved, it leaves the current workspace for good,
/// becomes the master of the next one, and the input follows it there; the
/// next workspace keeps the windows it had, behind the new one.
pub proof fn lemma_move_window_relocates(wm: ManagerView)
    requires
        wm.wf(),
        wm.can_move(),
    ensures
        ({
            let window = wm.current().windows[wm.current().focused];
            let next = (wm.focused + 1) % (wm.workspaces.len() as int);
            &&& next != wm.focused
            &&& wm.moved().focused == next
            &&& wm.moved().workspaces.len() == wm.workspaces.len()
            &&& !wm.moved().workspaces[wm.focused].windows.contains(window)
            &&& wm.moved().workspaces[next].windows == seq![window] + wm.workspaces[next].windows
            &&& wm.moved().workspaces[next].focused == 0
            &&& wm.moved().workspaces[next].active
            &&& !wm.moved().workspaces[wm.focused].active
        }),
{
    let ws = wm.current();
    let window = ws.windows[ws.focused];
    lemma_remove_window_twice(ws, window);
    let f = wm.focused;
    let n = wm.workspaces.len() as int;
    if f + 1 < n {
        lemma_small_mod((f + 1) as nat, n as nat);
    } else {
        lemma_mod_add_multiples_vanish(0, n);
        lemma_small_mod(0, n as nat);
    }
}

impl<'a> WindowManager<'a> {
    /// Carries out `action`. `Run` changes nothing and asks for one process;
    /// every other action changes the manager and asks for what `requests`
    /// lists.
    pub fn execute(&mut self, action: &ActionType) -> (out: Vec<Request>)
        requires
            old(self)@.wf(),
        ensures
            final(self).config == old(self).config,
            final(self)@.wf(),
            old(self)@.performs(*action, final(self)@, out@),
            old(self)@.one_active() ==> final(self)@.one_active(),
    {
        proof {
            if self@.one_active() {
                lemma_action_one_active(self@, *action);
            }
        }
        match action {
            ActionType::Run { prog, args } => self.run(prog, args),
            ActionType::Close => self.close(),
            ActionType::CycleFocus { direction } => self.cycle_focus(direction),
            ActionType::ChangeSize { amount } => self.change_size(amount),
            ActionType::NextScreen => self.next_screen(),
            ActionType::PromoteWindow => self.promote_window(),
            ActionType::MoveWindow => self.move_window(),
            ActionType::ToggleFull => self.toggle_full(),
            ActionType::Quit => self.quit(),
        }
    }

    /// Asks for the program `prog` to be started with the arguments `args`.
    pub fn run(&self, prog: &String, args: &Vec<String>) -> (out: Vec<Request>)
        ensures
            out@.len() == 1,
            spawns(out@[0], *prog, args@),
    {
        let mut copied: Vec<String> = Vec::new();
        let n: usize = args.len();
        let mut i: usize = 0;
        while i < n
            invariant
                n == args@.len(),
                i <= n,
                copied@ == args@.subrange(0, i as int),
            decreases n - i,
        {
            copied.push(args[i].clone());
            proof {
                assert(copied@ =~= args@.subrange(0, i as int + 1));
            }
            i += 1;
        }
        proof {
            assert(args@.subrange(0, n as int) =~= args@);
        }
        let mut out: Vec<Request> = Vec::new();
        out.push(Request::Spawn { prog: prog.clone(), args: copied });
        out
    }

    /// Asks the focused window of the current workspace to close.
    pub fn close(&self) -> (out: Vec<Request>)
        requires
            self@.wf(),
        ensures
            out@ == self@.current().close_requests(),
    {
        proof {
            assert(self@.workspaces[self.focused as int].focus_valid());
        }
        self.workspaces[self.focused].close_focused()
    }

    /// Moves the focus of the current workspace one window on (`true`) or
    /// back (`false`), from the last to the first and from the first to the
    /// last.
    pub fn cycle_focus(&mut self, direction: &bool) -> (out: Vec<Request>)
        requires
            old(self)@.wf(),
        ensures
            final(self).config == old(self).config,
            final(self)@.wf(),
            final(self)@ == old(self)@.cycled(*direction),
            old(self)@.one_active() ==> final(self)@.one_active(),
            out@ == old(self)@.cycle_requests(*direction),
    {
        let n: usize = self.workspaces[self.focused].windows.len();
        if n == 0 {
            return Vec::new();
        }
        let at: usize = self.workspaces[self.focused].focused;
        let index: usize = if *direction {
            at + 1
        } else if at == 0 {
            n - 1
        } else {
            at - 1
        };
        proof {
            if !*direction {
                if at == 0 {
                    lemma_mod_add_multiples_vanish(n as int - 1, n as int);
                } else {
                    lemma_mod_add_multiples_vanish(at as int - 1, n as int);
                }
            }
        }
        let out = self.workspaces[self.focused].set_focus(index);
        proof {
            assert(self@.workspaces =~= old(self)@.cycled(*direction).workspaces);
        }
        out
    }

    /// Hands the input over to the next workspace, the first after the last.
    pub fn next_screen(&mut self) -> (out: Vec<Request>)
        requires
            old(self)@.wf(),
        ensures
            final(self).config == old(self).config,
            final(self)@.wf(),
            final(self)@ == old(self)@.next_screen(),
            out@ == old(self)@.next_screen_requests(),
            old(self)@.one_active() ==> final(self)@.one_active(),
    {
        let mut out = self.workspaces[self.focused].set_active(false);
        let count: usize = self.workspaces.len();
        assert(self.focused < count);
        self.focused = (self.focused + 1) % count;
        let mut on = self.workspaces[self.focused].set_active(true);
        out.append(&mut on);
        proof {
            assert(self@.workspaces =~= old(self)@.next_screen().workspaces);
        }
        out
    }

    /// Changes the master width of the current workspace by `amount`. The
    /// sum is taken over the integers and then held to the workspace's
    /// range, so a change below the range ends at the lower bound and one
    /// above it at the upper bound.
    pub fn change_size(&mut self, amount: &i32) -> (out: Vec<Request>)
        requires
            old(self)@.wf(),
        ensures
            final(self).config == old(self).config,
            final(self)@.wf(),
            final(self)@ == old(self)@.resized(*amount),
            old(self)@.one_active() ==> final(self)@.one_active(),
            out@ == old(self)@.resize_requests(*amount),
    {
        let current: u16 = self.workspaces[self.focused].master_width;
        let sum: i64 = current as i64 + *amount as i64;
        let width: u16 = if sum < 0 {
            0
        } else if sum > 65535 {
            65535
        } else {
            sum as u16
        };
        let out = self.workspaces[self.focused].set_master_width(width);
        proof {
            assert(self@.workspaces =~= old(self)@.resized(*amount).workspaces);
        }
        out
    }

    /// Makes the focused window of the current workspace its master.
    pub fn promote_window(&mut self) -> (out: Vec<Request>)
        requires
            old(self)@.wf(),
        ensures
            final(self).config == old(self).config,
            final(self)@.wf(),
            final(self)@ == old(self)@.with_current(old(self)@.current().promoted()),
            old(self)@.one_active() ==> final(self)@.one_active(),
            out@ == old(self)@.promote_requests(),
    {
        proof {
            assert(self@.workspaces[self.focused as int].focus_valid());
        }
        let out = self.workspaces[self.focused].promote_focused();
        proof {
            assert(self@.workspaces =~= old(self)@.with_current(
                old(self)@.current().promoted(),
            ).workspaces);
        }
        out
    }

    /// Moves the focused window to the next workspace and follows it there.
    /// Does nothing where there is one workspace only, or no window to move.
    pub fn move_window(&mut self) -> (out: Vec<Request>)
        requires
            old(self)@.wf(),
        ensures
            final(self).config == old(self).config,
            final(self)@.wf(),
            final(self)@ == old(self)@.moved(),
            old(self)@.one_active() ==> final(self)@.one_active(),
            out@ == old(self)@.move_requests(),
    {
        if self.workspaces.len() <= 1 || self.workspaces[self.focused].windows.is_empty() {
            return Vec::new();
        }
        let (win_opt, mut out) = self.workspaces[self.focused].remove_focused();
        proof {
            assert(self@.workspaces =~= old(self)@.lifted().workspaces);
        }
        if let Some(win) = win_opt {
            let mut switch = self.next_screen();
            let mut added = self.workspaces[self.focused].add_window(win);
            out.append(&mut switch);
            out.append(&mut added);
            proof {
                assert(self@.workspaces =~= old(self)@.moved().workspaces);
            }
        }
        out
    }

    /// Takes the current workspace into or out of fullscreen mode.
    pub fn toggle_full(&mut self) -> (out: Vec<Request>)
        requires
            old(self)@.wf(),
        ensures
            final(self).config == old(self).config,
            final(self)@.wf(),
            final(self)@ == old(self)@.with_current(old(self)@.current().toggled()),
            old(self)@.one_active() ==> final(self)@.one_active(),
            out@ == old(self)@.toggle_requests(),
    {
        let out = self.workspaces[self.focused].toggle_full();
        proof {
            assert(self@.workspaces =~= old(self)@.with_current(
                old(self)@.current().toggled(),
            ).workspaces);
        }
        out
    }

    /// Asks for the process to end.
    pub fn quit(&self) -> (out: Vec<Request>)
        ensures
            out@ == seq![Request::Exit],
    {
        let mut out: Vec<Request> = Vec::new();
        out.push(Request::Exit);
        proof {
            assert(out@ =~= seq![Request::Exit]);
        }
        out
    }
}

} // verus!
