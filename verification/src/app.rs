//! The `app` module contains the `App` struct: the session-level state of
//! the application.  It owns the table of open windows keyed by window
//! identity, resolves keyboard input to actions through the binding table,
//! applies actions to the window table, and plans monitor-bounded frames
//! for new windows.
//!
//! The OS assigns window identities and enumerates monitors; callers hand
//! those in as plain values (a `u64` identity, a [`Monitor`] size) and
//! perform the actual OS calls themselves.

use crate::act::Act;
use crate::arrive::{Arrive, Blame, Excuse};
use crate::cmd::{Cmd, KeyEvent};
use crate::lens::{default_title, Lens, WindowAttrs};
use rand::Rng;
use vstd::prelude::*;

verus! {

/// The number of starting frames handed to a batch producer of new-window
/// requests.
pub const FRAME_POOL: usize = 100;

/// The number of frames handed to each single producer.
pub const FRAMES: usize = 10;

/// The minimum width and height of a new window, and at the same time the
/// minimum padding kept between a window and the edge of its monitor.
pub const MIN_SPAN: u32 = 50;

/// A monitor descriptor: the physical size of one monitor, as enumerated by
/// the OS through a live window handle.
#[derive(Debug, Clone, Copy, PartialEq, Eq, Hash, Structural)]
pub struct Monitor {
    /// The monitor width in physical pixels.
    pub width: u32,
    /// The monitor height in physical pixels.
    pub height: u32,
}

impl Monitor {
    /// A monitor can take a planned window only when it leaves room for the
    /// minimum span plus padding on both axes.
    pub open spec fn plannable(self) -> bool {
        self.width > 2 * MIN_SPAN && self.height > 2 * MIN_SPAN
    }
}

/// A physical position in pixels: the anchor of a planned window.
#[derive(Debug, Clone, Copy, PartialEq, Eq, Hash, Structural)]
pub struct Position {
    /// Horizontal offset from the monitor's left edge.
    pub x: u32,
    /// Vertical offset from the monitor's top edge.
    pub y: u32,
}

/// A physical size in pixels: the extent of a planned window.
#[derive(Debug, Clone, Copy, PartialEq, Eq, Hash, Structural)]
pub struct Size {
    /// The width.
    pub width: u32,
    /// The height.
    pub height: u32,
}

/// A target monitor, position and size for one new window.  A frame is
/// consumed exactly once, to parameterize a new-window request.
#[derive(Debug, Clone, Copy, PartialEq, Eq, Hash, Structural)]
pub struct Frame {
    /// The monitor the window is placed on.
    pub monitor: Monitor,
    /// The anchor position of the window on that monitor.
    pub position: Position,
    /// The size of the window.
    pub size: Size,
}

impl Frame {
    /// The placement invariant: both dimensions at least the minimum span,
    /// the anchor at least the minimum padding from the top-left edges, and
    /// the window contained in the monitor.
    pub open spec fn wf(self) -> bool {
        &&& self.size.width >= MIN_SPAN
        &&& self.size.height >= MIN_SPAN
        &&& self.position.x >= MIN_SPAN
        &&& self.position.y >= MIN_SPAN
        &&& self.position.x + self.size.width <= self.monitor.width
        &&& self.position.y + self.size.height <= self.monitor.height
    }

    /// Samples a monitor-bounded frame: first a size, uniformly from the
    /// spans the monitor leaves after padding, then a position, uniformly
    /// from the room the sampled size leaves.  The size must be fixed
    /// before the valid position range (which depends on it) exists.
    pub fn plan(monitor: Monitor) -> (f: Frame)
        requires
            monitor.plannable(),
        ensures
            f.monitor == monitor,
            f.wf(),
    {
        let width = gen_range_u32(MIN_SPAN, monitor.width - MIN_SPAN);
        let height = gen_range_u32(MIN_SPAN, monitor.height - MIN_SPAN);
        let clip_x = monitor.width - width;
        let clip_y = monitor.height - height;
        let x = gen_range_u32(MIN_SPAN, clip_x);
        let y = gen_range_u32(MIN_SPAN, clip_y);
        Frame { monitor, position: Position { x, y }, size: Size { width, height } }
    }

    /// Plans a frame after checking the monitor, reporting a monitor too
    /// small to take a window as a fatal planning error rather than
    /// clamping silently.
    pub fn try_plan(monitor: Monitor) -> (r: Arrive<Frame>)
        ensures
            match r {
                Ok(f) => monitor.plannable() && f.monitor == monitor && f.wf(),
                Err(e) => !monitor.plannable() && e == Blame::Excuse(Excuse::SmallMonitor),
            },
    {
        if monitor.width > 2 * MIN_SPAN && monitor.height > 2 * MIN_SPAN {
            Ok(Frame::plan(monitor))
        } else {
            Err(Blame::Excuse(Excuse::SmallMonitor))
        }
    }
}

/// The window table a pair list stands for: later entries shadow earlier
/// ones, though in a well-formed session the keys are unique and no
/// shadowing ever happens.
pub open spec fn assoc_map(s: Seq<(u64, Lens)>) -> Map<u64, Lens>
    decreases s.len(),
{
    if s.len() == 0 {
        Map::empty()
    } else {
        assoc_map(s.drop_last()).insert(s.last().0, s.last().1)
    }
}

/// No two entries of the pair list share a window identity.
pub open spec fn unique_keys(s: Seq<(u64, Lens)>) -> bool {
    forall|i: int, j: int| 0 <= i < j < s.len() ==> s[i].0 != s[j].0
}

/// The kinds of OS window event the session reacts to, keyed by the window
/// identity they arrived for.
#[derive(Debug, Clone)]
pub enum WindowEventKind {
    /// The user asked the OS to close the window.
    CloseRequested,
    /// A keyboard event reached the window.
    Keyboard(KeyEvent),
    /// The OS asked for the window to be redrawn.
    RedrawRequested,
    /// Any other window event; ignored.
    Other,
}

/// The session: the binding table, the table of open windows keyed by
/// OS-assigned window identity, and whether a window was ever opened.  The
/// window table is the single source of truth for whether the application
/// is still running: once it has been non-empty and empties, the session is
/// terminating and the owning event loop must exit.
#[derive(Debug)]
pub struct App {
    /// The key-binding table, built once at startup.
    pub cmd: Cmd,
    /// The open windows: identity and per-window state, in creation order.
    pub windows: Vec<(u64, Lens)>,
    /// Whether any window was ever created in this session.
    pub opened: bool,
}

impl App {
    /// Well-formedness: window identities are unique while live.
    pub open spec fn wf(self) -> bool {
        unique_keys(self.windows@)
    }

    /// The window table as a map from identity to per-window state.
    pub open spec fn table(self) -> Map<u64, Lens> {
        assoc_map(self.windows@)
    }

    /// What `post` must look like after `a` was applied to `pre`, aimed at
    /// window `id`, with `new_id` the fresh OS identity and `frame` the
    /// placement a `NewWindow` action would use.
    pub open spec fn step(
        pre: App,
        post: App,
        a: Act,
        id: u64,
        new_id: u64,
        frame: Option<Frame>,
    ) -> bool {
        match a {
            Act::CloseWindow => post.table() == pre.table().remove(id) && post.opened
                == pre.opened,
            Act::Exit => post.table() == Map::<u64, Lens>::empty() && post.opened == pre.opened,
            Act::NewWindow => post.table() == pre.table().insert(new_id, post.table()[new_id])
                && post.table()[new_id].refresh == false && post.table()[new_id].attrs.title@
                == default_title() && post.table()[new_id].attrs.transparent
                && post.table()[new_id].attrs.frame == frame && post.opened,
            Act::Be => post == pre,
        }
    }

    /// The action an incoming keyboard event resolves to: only presses
    /// resolve, and only through the binding table.
    pub open spec fn resolution(self, event: KeyEvent) -> Option<Act> {
        if event.pressed {
            self.cmd.act_spec(event)
        } else {
            None
        }
    }

    /// A fresh session around a binding table: no window yet.
    pub fn new(cmd: Cmd) -> (r: App)
        ensures
            r.wf(),
            r.table() == Map::<u64, Lens>::empty(),
            r.cmd == cmd,
            !r.opened,
    {
        App { cmd, windows: Vec::new(), opened: false }
    }

    /// The index of the entry for `id`, if the window is open.
    fn find_index(&self, id: u64) -> (r: Option<usize>)
        ensures
            match r {
                Some(i) => i < self.windows@.len() && self.windows@[i as int].0 == id,
                None => forall|i: int| 0 <= i < self.windows@.len() ==> self.windows@[i].0 != id,
            },
    {
        let mut i: usize = 0;
        while i < self.windows.len()
            invariant
                i <= self.windows@.len(),
                forall|j: int| 0 <= j < i ==> self.windows@[j].0 != id,
            decreases self.windows@.len() - i,
        {
            if self.windows[i].0 == id {
                return Some(i);
            }
            i = i + 1;
        }
        None
    }

    /// Whether the window named by `id` is open.
    pub fn contains_window(&self, id: u64) -> (r: bool)
        ensures
            r == self.table().contains_key(id),
    {
        proof {
            lemma_assoc_map_contains(self.windows@, id);
        }
        match self.find_index(id) {
            Some(_) => true,
            None => false,
        }
    }

    /// How many windows are open.
    pub fn window_count(&self) -> (r: usize)
        requires
            self.wf(),
        ensures
            r == self.windows@.len(),
            r == self.table().dom().len(),
    {
        proof {
            lemma_assoc_map_len(self.windows@);
        }
        self.windows.len()
    }

    /// Registers a new window under the fresh identity the OS assigned to
    /// it, with the caller-supplied attributes or the defaults.  Never
    /// touches existing windows.  The OS call that could fail happens at
    /// the caller before this registration, so registration itself always
    /// succeeds and returns the new identity.
    pub fn create_window(&mut self, id: u64, attributes: Option<WindowAttrs>) -> (r: Arrive<u64>)
        requires
            old(self).wf(),
            !old(self).table().contains_key(id),
        ensures
            final(self).wf(),
            r == Ok::<u64, Blame>(id),
            final(self).cmd == old(self).cmd,
            final(self).opened,
            final(self).table() == old(self).table().insert(id, final(self).table()[id]),
            final(self).table()[id].refresh == false,
            match attributes {
                Some(a) => final(self).table()[id].attrs == a,
                None => final(self).table()[id].attrs.is_default(),
            },
    {
        let attrs = match attributes {
            Some(a) => a,
            None => WindowAttrs::default_attrs(),
        };
        let lens = Lens::new(attrs);
        let ghost pre = self.windows@;
        self.windows.push((id, lens));
        self.opened = true;
        proof {
            assert(self.windows@.drop_last() =~= pre);
            lemma_assoc_map_contains(pre, id);
            assert forall|i: int, j: int|
                0 <= i < j < self.windows@.len() implies self.windows@[i].0
                != self.windows@[j].0 by {
                if j == self.windows@.len() - 1 {
                    assert(self.windows@[i] == pre[i]);
                }
            }
        }
        Ok(id)
    }

    /// Applies an action to the session: the state-transition table of the
    /// window session.  `id` names the window the action is aimed at,
    /// `new_id` the fresh OS identity a `NewWindow` action registers, and
    /// `frame` the placement it uses (defaults when `None`).  Closing an
    /// absent window is not an error; `Exit` removes every window
    /// unconditionally; `Be` does nothing, and always succeeds.
    pub fn act(&mut self, act: &Act, id: u64, new_id: u64, frame: Option<Frame>) -> (r: Arrive<()>)
        requires
            old(self).wf(),
            *act == Act::NewWindow ==> !old(self).table().contains_key(new_id),
        ensures
            final(self).wf(),
            r == Ok::<(), Blame>(()),
            final(self).cmd == old(self).cmd,
            App::step(*old(self), *final(self), *act, id, new_id, frame),
    {
        match act {
            Act::CloseWindow => {
                self.close_window(id);
                Ok(())
            },
            Act::Exit => {
                self.windows.clear();
                Ok(())
            },
            Act::NewWindow => {
                let attrs = match frame {
                    Some(f) => WindowAttrs::for_frame(f),
                    None => WindowAttrs::default_attrs(),
                };
                let _ = self.create_window(new_id, Some(attrs));
                Ok(())
            },
            Act::Be => Ok(()),
        }
    }

    /// Removes the window named by `id` from the table if it is present;
    /// absence is not an error and leaves the table unchanged.
    pub fn close_window(&mut self, id: u64)
        requires
            old(self).wf(),
        ensures
            final(self).wf(),
            final(self).cmd == old(self).cmd,
            final(self).opened == old(self).opened,
            final(self).table() == old(self).table().remove(id),
    {
        proof {
            lemma_assoc_map_contains(self.windows@, id);
        }
        match self.find_index(id) {
            Some(i) => {
                proof {
                    lemma_assoc_map_remove(self.windows@, i as int);
                    lemma_unique_keys_remove(self.windows@, i as int);
                }
                self.windows.remove(i);
            },
            None => {
                proof {
                    assert(old(self).table().remove(id) =~= old(self).table());
                }
            },
        }
    }

    /// Resolves a keyboard event and, when it maps to an action, applies
    /// that action to the window named by `id`.  Fires only on presses;
    /// unresolved keys are silently ignored, not an error.
    pub fn keyboard_input(&mut self, id: u64, event: &KeyEvent, new_id: u64) -> (r: Arrive<()>)
        requires
            old(self).wf(),
            old(self).resolution(*event) == Some(Act::NewWindow) ==> !old(self).table().contains_key(
                new_id,
            ),
        ensures
            final(self).wf(),
            r == Ok::<(), Blame>(()),
            final(self).cmd == old(self).cmd,
            match old(self).resolution(*event) {
                Some(a) => App::step(*old(self), *final(self), a, id, new_id, None),
                None => *final(self) == *old(self),
            },
    {
        if event.pressed {
            match self.cmd.act(event) {
                Some(a) => self.act(&a, id, new_id, None),
                None => Ok(()),
            }
        } else {
            Ok(())
        }
    }

    /// Reacts to one OS window event.  Events for a window that is not in
    /// the table are ignored.  A close request removes the window; a
    /// keyboard event goes through the binding table; a redraw request
    /// clears the window's redraw-pending flag and tells the caller, by
    /// returning true, to ask the OS for the redraw.
    pub fn window_event(&mut self, id: u64, event: &WindowEventKind, new_id: u64) -> (r: Arrive<
        bool,
    >)
        requires
            old(self).wf(),
            match *event {
                WindowEventKind::Keyboard(ev) => (old(self).table().contains_key(id) && old(
                    self,
                ).resolution(ev) == Some(Act::NewWindow)) ==> !old(self).table().contains_key(
                    new_id,
                ),
                _ => true,
            },
        ensures
            final(self).wf(),
            final(self).cmd == old(self).cmd,
            !old(self).table().contains_key(id) ==> *final(self) == *old(self) && r == Ok::<
                bool,
                Blame,
            >(false),
            old(self).table().contains_key(id) ==> match *event {
                WindowEventKind::CloseRequested => final(self).table() == old(
                    self,
                ).table().remove(id) && final(self).opened == old(self).opened && r == Ok::<
                    bool,
                    Blame,
                >(false),
                WindowEventKind::Keyboard(ev) => r == Ok::<bool, Blame>(false) && match old(
                    self,
                ).resolution(ev) {
                    Some(a) => App::step(*old(self), *final(self), a, id, new_id, None),
                    None => *final(self) == *old(self),
                },
                WindowEventKind::RedrawRequested => r == Ok::<bool, Blame>(
                    old(self).table()[id].refresh,
                ) && final(self).opened == old(self).opened && final(self).table() == old(
                    self,
                ).table().insert(id, final(self).table()[id]) && final(self).table()[id].refresh
                    == false && final(self).table()[id].attrs == old(self).table()[id].attrs,
                WindowEventKind::Other => *final(self) == *old(self) && r == Ok::<bool, Blame>(
                    false,
                ),
            },
    {
        proof {
            lemma_assoc_map_contains(self.windows@, id);
        }
        let at = match self.find_index(id) {
            Some(i) => i,
            None => {
                return Ok(false);
            },
        };
        match event {
            WindowEventKind::CloseRequested => {
                self.close_window(id);
                Ok(false)
            },
            WindowEventKind::Keyboard(ev) => {
                let _ = self.keyboard_input(id, ev, new_id);
                Ok(false)
            },
            WindowEventKind::RedrawRequested => {
                proof {
                    lemma_assoc_map_index(self.windows@, at as int);
                }
                let was = self.windows[at].1.refresh;
                self.windows[at].1.refresh = false;
                proof {
                    lemma_assoc_map_update(old(self).windows@, at as int, self.windows@[at as int]);
                }
                Ok(was)
            },
            WindowEventKind::Other => Ok(false),
        }
    }

    /// Whether the session is terminating: at least one window was opened
    /// and none remains.  Terminating is absorbing: once the owning event
    /// loop sees it, it exits and dispatches no further events.
    pub fn terminating(&self) -> (r: bool)
        ensures
            r <==> (self.opened && self.windows@.len() == 0),
    {
        self.opened && self.windows.len() == 0
    }

    /// Whether the owning event loop should exit: no window remains open.
    pub fn should_exit(&self) -> (r: bool)
        ensures
            r <==> self.windows@.len() == 0,
    {
        self.windows.len() == 0
    }

    /// The open windows' states, in creation order — or unavailable
    /// (`None`) when no window is open.
    pub fn lenses(&self) -> (r: Option<Vec<Lens>>)
        ensures
            match r {
                Some(v) => self.windows@.len() > 0 && v@.len() == self.windows@.len() && (forall|
                    i: int,
                |
                    0 <= i < v@.len() ==> v@[i] == self.windows@[i].1),
                None => self.windows@.len() == 0,
            },
    {
        if self.windows.len() == 0 {
            return None;
        }
        let mut v: Vec<Lens> = Vec::new();
        let mut i: usize = 0;
        while i < self.windows.len()
            invariant
                i <= self.windows@.len(),
                v@.len() == i,
                forall|j: int| 0 <= j < i ==> v@[j] == self.windows@[j].1,
            decreases self.windows@.len() - i,
        {
            v.push(self.windows[i].1.duplicate());
            i = i + 1;
        }
        Some(v)
    }

    /// The monitor list, as the caller enumerated it from the OS through a
    /// live window handle — or unavailable (`None`) when no window is
    /// open, since monitor enumeration needs at least one live window.
    /// The system cannot answer "what monitors exist" before the first
    /// window is created.
    pub fn monitors(&self, available: &Vec<Monitor>) -> (r: Option<Vec<Monitor>>)
        ensures
            match r {
                Some(v) => self.windows@.len() > 0 && v@ == available@,
                None => self.windows@.len() == 0,
            },
    {
        if self.windows.len() == 0 {
            return None;
        }
        let mut v: Vec<Monitor> = Vec::new();
        let mut i: usize = 0;
        while i < available.len()
            invariant
                i <= available@.len(),
                v@.len() == i,
                forall|j: int| 0 <= j < i ==> v@[j] == available@[j],
            decreases available@.len() - i,
        {
            v.push(available[i]);
            i = i + 1;
        }
        proof {
            assert(v@ =~= available@);
        }
        Some(v)
    }

    /// The physical size of each available monitor, in enumeration order —
    /// or unavailable (`None`) when no window is open to enumerate
    /// through.  Used to avoid asking for windows larger than their
    /// target screen.
    pub fn screen_sizes(&self, available: &Vec<Monitor>) -> (r: Option<Vec<Size>>)
        ensures
            match r {
                Some(v) => self.windows@.len() > 0 && v@.len() == available@.len() && (forall|
                    i: int,
                |
                    0 <= i < v@.len() ==> v@[i] == (Size {
                        width: available@[i].width,
                        height: available@[i].height,
                    })),
                None => self.windows@.len() == 0,
            },
    {
        if self.windows.len() == 0 {
            return None;
        }
        let mut v: Vec<Size> = Vec::new();
        let mut i: usize = 0;
        while i < available.len()
            invariant
                i <= available@.len(),
                v@.len() == i,
                forall|j: int|
                    0 <= j < i ==> v@[j] == (Size {
                        width: available@[j].width,
                        height: available@[j].height,
                    }),
            decreases available@.len() - i,
        {
            v.push(Size { width: available[i].width, height: available[i].height });
            i = i + 1;
        }
        Some(v)
    }

    /// One monitor sampled uniformly from the available list — or
    /// unavailable (`None`) when no window is open or the list is empty.
    /// Each call samples independently, so repeated calls may repeat a
    /// monitor.
    pub fn random_monitor(&self, available: &Vec<Monitor>) -> (r: Option<Monitor>)
        ensures
            match r {
                Some(m) => self.windows@.len() > 0 && available@.contains(m),
                None => self.windows@.len() == 0 || available@.len() == 0,
            },
    {
        if self.windows.len() == 0 || available.len() == 0 {
            return None;
        }
        let idx: usize = gen_range_usize(0, available.len());
        proof {
            assert(available@.contains(available@[idx as int]));
        }
        Some(available[idx])
    }

    /// `count` monitors sampled uniformly, independently and with
    /// replacement from the available list — or unavailable (`None`) when
    /// no window is open or the list is empty.
    pub fn random_monitors(&self, available: &Vec<Monitor>, count: usize) -> (r: Option<
        Vec<Monitor>,
    >)
        ensures
            match r {
                Some(v) => self.windows@.len() > 0 && available@.len() > 0 && v@.len() == count
                    && (forall|i: int| 0 <= i < v@.len() ==> available@.contains(v@[i])),
                None => self.windows@.len() == 0 || available@.len() == 0,
            },
    {
        if self.windows.len() == 0 || available.len() == 0 {
            return None;
        }
        let mut v: Vec<Monitor> = Vec::new();
        let mut i: usize = 0;
        while i < count
            invariant
                available@.len() > 0,
                i <= count,
                v@.len() == i,
                forall|j: int| 0 <= j < i ==> available@.contains(v@[j]),
            decreases count - i,
        {
            let idx: usize = gen_range_usize(0, available.len());
            proof {
                assert(available@.contains(available@[idx as int]));
            }
            v.push(available[idx]);
            i = i + 1;
        }
        Some(v)
    }

    /// One frame planned on one randomly sampled monitor.  Unavailable
    /// monitors (no open window, or an empty list) and monitors too small
    /// to plan on are reported as errors, never clamped.
    pub fn frame(&self, available: &Vec<Monitor>) -> (r: Arrive<Frame>)
        ensures
            r == Err::<Frame, Blame>(Blame::Excuse(Excuse::NoMonitors)) <==> (self.windows@.len()
                == 0 || available@.len() == 0),
            r == Err::<Frame, Blame>(Blame::Excuse(Excuse::SmallMonitor)) <==> (self.windows@.len()
                > 0 && available@.len() > 0 && !all_plannable(available@)),
            r is Ok <==> (self.windows@.len() > 0 && available@.len() > 0 && all_plannable(
                available@,
            )),
            match r {
                Ok(f) => available@.contains(f.monitor) && f.wf(),
                Err(e) => true,
            },
    {
        if self.windows.len() == 0 || available.len() == 0 {
            return Err(Blame::Excuse(Excuse::NoMonitors));
        }
        if !check_plannable(available) {
            return Err(Blame::Excuse(Excuse::SmallMonitor));
        }
        let idx: usize = gen_range_usize(0, available.len());
        proof {
            assert(available@.contains(available@[idx as int]));
        }
        Ok(Frame::plan(available[idx]))
    }

    /// `count` frames, each planned on an independently sampled monitor:
    /// the batch that seeds a background producer of window-spawn
    /// requests.  Repeated monitor selection is permitted.  Unavailable
    /// monitors and monitors too small to plan on are reported as errors.
    pub fn frames(&self, available: &Vec<Monitor>, count: usize) -> (r: Arrive<Vec<Frame>>)
        ensures
            r == Err::<Vec<Frame>, Blame>(Blame::Excuse(Excuse::NoMonitors)) <==> (
            self.windows@.len() == 0 || available@.len() == 0),
            r == Err::<Vec<Frame>, Blame>(Blame::Excuse(Excuse::SmallMonitor)) <==> (
            self.windows@.len() > 0 && available@.len() > 0 && !all_plannable(available@)),
            r is Ok <==> (self.windows@.len() > 0 && available@.len() > 0 && all_plannable(
                available@,
            )),
            match r {
                Ok(v) => v@.len() == count && (forall|i: int|
                    0 <= i < v@.len() ==> available@.contains(#[trigger] v@[i].monitor)
                        && v@[i].wf()),
                Err(e) => true,
            },
    {
        if self.windows.len() == 0 || available.len() == 0 {
            return Err(Blame::Excuse(Excuse::NoMonitors));
        }
        if !check_plannable(available) {
            return Err(Blame::Excuse(Excuse::SmallMonitor));
        }
        let mut v: Vec<Frame> = Vec::new();
        let mut i: usize = 0;
        while i < count
            invariant
                available@.len() > 0,
                all_plannable(available@),
                i <= count,
                v@.len() == i,
                forall|j: int|
                    0 <= j < i ==> available@.contains(#[trigger] v@[j].monitor) && v@[j].wf(),
            decreases count - i,
        {
            let idx: usize = gen_range_usize(0, available.len());
            proof {
                assert(available@.contains(available@[idx as int]));
            }
            v.push(Frame::plan(available[idx]));
            i = i + 1;
        }
        Ok(v)
    }
}

/// Applying `Be` to any session state changes nothing: not the window
/// table, not the bindings, not the history flag.
pub proof fn lemma_be_is_idle(pre: App, post: App, id: u64, new_id: u64, frame: Option<Frame>)
    requires
        App::step(pre, post, Act::Be, id, new_id, frame),
    ensures
        post == pre,
        post.table() == pre.table(),
{
}

/// Whatever windows a session has accumulated, one `Exit` empties the
/// window table.
pub proof fn lemma_exit_clears(pre: App, post: App, id: u64, new_id: u64, frame: Option<Frame>)
    requires
        App::step(pre, post, Act::Exit, id, new_id, frame),
    ensures
        post.table().is_empty(),
        post.table().dom().len() == 0,
{
    assert(post.table().dom() =~= Set::<u64>::empty());
}

/// Closing a window identity that is not in the table leaves the table
/// unchanged (and, by the contract of `act`, still succeeds).
pub proof fn lemma_close_absent(pre: App, post: App, id: u64, new_id: u64, frame: Option<Frame>)
    requires
        App::step(pre, post, Act::CloseWindow, id, new_id, frame),
        !pre.table().contains_key(id),
    ensures
        post.table() == pre.table(),
{
    assert(pre.table().remove(id) =~= pre.table());
}

/// Every monitor of the list can take a planned window.
pub open spec fn all_plannable(ms: Seq<Monitor>) -> bool {
    forall|i: int| 0 <= i < ms.len() ==> ms[i].plannable()
}

/// Checks every monitor of the list against the minimum-span constraint.
fn check_plannable(ms: &Vec<Monitor>) -> (r: bool)
    ensures
        r == all_plannable(ms@),
{
    let mut i: usize = 0;
    while i < ms.len()
        invariant
            i <= ms@.len(),
            forall|j: int| 0 <= j < i ==> ms@[j].plannable(),
        decreases ms@.len() - i,
    {
        let m = ms[i];
        if !(m.width > 2 * MIN_SPAN && m.height > 2 * MIN_SPAN) {
            return false;
        }
        i = i + 1;
    }
    true
}

/// An entry is in the table exactly when some position of the list holds
/// its key.
proof fn lemma_assoc_map_contains(s: Seq<(u64, Lens)>, k: u64)
    ensures
        assoc_map(s).contains_key(k) <==> exists|i: int| 0 <= i < s.len() && s[i].0 == k,
    decreases s.len(),
{
    if s.len() > 0 {
        let t = s.drop_last();
        lemma_assoc_map_contains(t, k);
        if s.last().0 == k {
            assert(s[s.len() - 1].0 == k);
        } else {
            if assoc_map(s).contains_key(k) {
                let i = choose|i: int| 0 <= i < t.len() && t[i].0 == k;
                assert(s[i].0 == k);
            }
            if exists|i: int| 0 <= i < s.len() && s[i].0 == k {
                let i = choose|i: int| 0 <= i < s.len() && s[i].0 == k;
                assert(t[i].0 == k);
            }
        }
    }
}

/// Unique keys survive dropping the last entry.
proof fn lemma_unique_keys_drop_last(s: Seq<(u64, Lens)>)
    requires
        unique_keys(s),
        s.len() > 0,
    ensures
        unique_keys(s.drop_last()),
{
    assert forall|i: int, j: int| 0 <= i < j < s.drop_last().len() implies s.drop_last()[i].0
        != s.drop_last()[j].0 by {
        assert(s.drop_last()[i] == s[i]);
        assert(s.drop_last()[j] == s[j]);
    }
}

/// With unique keys, the table maps each listed key to its listed state.
proof fn lemma_assoc_map_index(s: Seq<(u64, Lens)>, i: int)
    requires
        unique_keys(s),
        0 <= i < s.len(),
    ensures
        assoc_map(s).contains_key(s[i].0),
        assoc_map(s)[s[i].0] == s[i].1,
    decreases s.len(),
{
    if i < s.len() - 1 {
        lemma_unique_keys_drop_last(s);
        lemma_assoc_map_index(s.drop_last(), i);
        assert(s.drop_last()[i] == s[i]);
        assert(s.last().0 != s[i].0);
    }
}

/// With unique keys, the table has exactly one entry per list position.
proof fn lemma_assoc_map_len(s: Seq<(u64, Lens)>)
    requires
        unique_keys(s),
    ensures
        assoc_map(s).dom().finite(),
        assoc_map(s).dom().len() == s.len(),
    decreases s.len(),
{
    if s.len() == 0 {
        assert(assoc_map(s).dom() =~= Set::<u64>::empty());
    } else {
        let t = s.drop_last();
        lemma_unique_keys_drop_last(s);
        lemma_assoc_map_len(t);
        lemma_assoc_map_contains(t, s.last().0);
        assert forall|i: int| 0 <= i < t.len() implies t[i].0 != s.last().0 by {
            assert(t[i] == s[i]);
        }
        assert(!assoc_map(t).contains_key(s.last().0));
        assert(assoc_map(s).dom() =~= assoc_map(t).dom().insert(s.last().0));
    }
}

/// Unique keys survive removing one entry.
proof fn lemma_unique_keys_remove(s: Seq<(u64, Lens)>, i: int)
    requires
        unique_keys(s),
        0 <= i < s.len(),
    ensures
        unique_keys(s.remove(i)),
{
    assert forall|a: int, b: int| 0 <= a < b < s.remove(i).len() implies s.remove(i)[a].0
        != s.remove(i)[b].0 by {
        assert(s.remove(i)[a] == (if a < i {
            s[a]
        } else {
            s[a + 1]
        }));
        assert(s.remove(i)[b] == (if b < i {
            s[b]
        } else {
            s[b + 1]
        }));
    }
}

/// With unique keys, removing the entry at position `i` from the list
/// removes exactly its key from the table.
proof fn lemma_assoc_map_remove(s: Seq<(u64, Lens)>, i: int)
    requires
        unique_keys(s),
        0 <= i < s.len(),
    ensures
        assoc_map(s.remove(i)) == assoc_map(s).remove(s[i].0),
    decreases s.len(),
{
    let k = s[i].0;
    let t = s.drop_last();
    lemma_unique_keys_drop_last(s);
    if i == s.len() - 1 {
        assert(s.remove(i) =~= t);
        lemma_assoc_map_contains(t, k);
        assert forall|j: int| 0 <= j < t.len() implies t[j].0 != k by {
            assert(t[j] == s[j]);
        }
        assert(!assoc_map(t).contains_key(k));
        assert(assoc_map(t).insert(k, s.last().1).remove(k) =~= assoc_map(t));
    } else {
        lemma_assoc_map_remove(t, i);
        assert(s.remove(i).drop_last() =~= t.remove(i));
        assert(s.remove(i).last() == s.last());
        assert(s.last().0 != k);
        assert(assoc_map(t).insert(s.last().0, s.last().1).remove(k) =~= assoc_map(t).remove(
            k,
        ).insert(s.last().0, s.last().1));
    }
}

/// With unique keys, replacing the entry at position `i` by one with the
/// same key updates exactly that key's state in the table.
proof fn lemma_assoc_map_update(s: Seq<(u64, Lens)>, i: int, p: (u64, Lens))
    requires
        unique_keys(s),
        0 <= i < s.len(),
        p.0 == s[i].0,
    ensures
        unique_keys(s.update(i, p)),
        assoc_map(s.update(i, p)) == assoc_map(s).insert(p.0, p.1),
    decreases s.len(),
{
    assert forall|a: int, b: int| 0 <= a < b < s.update(i, p).len() implies s.update(i, p)[a].0
        != s.update(i, p)[b].0 by {
        assert(s.update(i, p)[a].0 == s[a].0);
        assert(s.update(i, p)[b].0 == s[b].0);
    }
    let t = s.drop_last();
    lemma_unique_keys_drop_last(s);
    if i == s.len() - 1 {
        assert(s.update(i, p).drop_last() =~= t);
        assert(s.update(i, p).last() == p);
        assert(assoc_map(t).insert(s.last().0, s.last().1).insert(p.0, p.1) =~= assoc_map(
            t,
        ).insert(p.0, p.1));
    } else {
        lemma_assoc_map_update(t, i, p);
        assert(s.update(i, p).drop_last() =~= t.update(i, p));
        assert(s.update(i, p).last() == s.last());
        assert(s.last().0 != p.0);
        assert(assoc_map(t).insert(p.0, p.1).insert(s.last().0, s.last().1) =~= assoc_map(
            t,
        ).insert(s.last().0, s.last().1).insert(p.0, p.1));
    }
}

/// Relies on `rand::thread_rng` and `rand::Rng::gen_range` over a half-open
/// `u32` range: the result lies in `[lo, hi)`.  `gen_range` panics on an
/// empty range, so the requires excludes one.
#[verifier::external_body]
fn gen_range_u32(lo: u32, hi: u32) -> (r: u32)
    requires
        lo < hi,
    ensures
        lo <= r < hi,
{
    let mut rng = rand::thread_rng();
    rng.gen_range(lo..hi)
}

/// Relies on `rand::thread_rng` and `rand::Rng::gen_range` over a half-open
/// `usize` range: the result lies in `[lo, hi)`.  `gen_range` panics on an
/// empty range, so the requires excludes one.
#[verifier::external_body]
fn gen_range_usize(lo: usize, hi: usize) -> (r: usize)
    requires
        lo < hi,
    ensures
        lo <= r < hi,
{
    let mut rng = rand::thread_rng();
    rng.gen_range(lo..hi)
}

} // verus!
