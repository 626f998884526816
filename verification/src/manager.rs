//! The multi-window dock manager: one `BarWindow` state machine per
//! configured bar, a router from OS window identifiers to bar identifiers,
//! and the decision logic the event loop runs on.
//!
//! The manager owns no OS resources itself. The surrounding event loop
//! creates and destroys windows and GPU surfaces, tells the manager what
//! happened (as plain values), and carries out the [`Action`] the manager
//! decides on. Everything the manager promises is therefore proved for
//! every possible outcome of that outside work.

use vstd::prelude::*;

use vstd::hash_map::HashMapWithView;

use crate::bar::Config;
use crate::error::Error;
use crate::geometry::{rect_fits, rect_for, resolve, select_monitor, Monitor, Rect};

verus! {

broadcast use
    vstd::std_specs::hash::group_hash_axioms,
    vstd::hash_map::axiom_hash_map_with_view_spec_len;

/// A process-unique bar identifier, assigned when the bar is constructed and
/// stable across suspend and resume — unlike an OS window identifier, which
/// is reissued on every window re-creation.
#[derive(Debug, Clone, Copy, PartialEq, Eq, Hash, Structural)]
pub struct BarWindowId(pub u64);

/// The dimensions a GPU render surface was last configured with. The surface
/// itself lives outside the library; these are the values the resize
/// bookkeeping is about.
#[derive(Debug, Clone, Copy, PartialEq, Eq, Structural)]
pub struct RenderSurface {
    pub width: u32,
    pub height: u32,
}

/// The live OS resources of an active bar: the OS window identifier and the
/// render surface bound to that window. The two are created and destroyed
/// together, never separately.
#[derive(Debug, Clone, Copy, PartialEq, Eq, Structural)]
pub struct LiveWindow {
    pub os_window: u64,
    pub surface: RenderSurface,
}

/// One bar's state machine: its stable identifier, its immutable
/// configuration, the monitor snapshot it was resolved against, and — when
/// active — its live OS window and surface. `live` is `None` exactly when
/// the bar is suspended.
#[derive(Debug, Clone, PartialEq)]
pub struct BarWindow {
    pub id: BarWindowId,
    pub config: Config,
    pub monitor: Monitor,
    pub live: Option<LiveWindow>,
}

impl BarWindow {
    /// A bar is active when it owns a live OS window, suspended otherwise.
    pub open spec fn is_active(self) -> bool {
        self.live is Some
    }

    /// The rectangle this bar occupies, a function of its configuration and
    /// monitor snapshot alone.
    pub open spec fn spec_rect(self) -> Rect {
        rect_for(self.monitor, self.config.position, self.config.size)
    }

    /// The bar's rectangle is representable in 32-bit coordinates.
    pub open spec fn fits(self) -> bool {
        rect_fits(self.monitor, self.config.position, self.config.size)
    }

    /// This bar after the suspend transition: live resources dropped,
    /// configuration and monitor snapshot kept.
    pub open spec fn suspended(self) -> BarWindow {
        BarWindow { live: None, ..self }
    }

    /// This bar after the resume transition: a fresh OS window and a surface
    /// of the given dimensions, configuration and monitor snapshot kept.
    pub open spec fn activated(self, os_window: u64, width: u32, height: u32) -> BarWindow {
        BarWindow {
            live: Some(
                LiveWindow { os_window, surface: RenderSurface { width, height } },
            ),
            ..self
        }
    }

    /// This bar after a resize: same OS window, surface dimensions updated
    /// in place.
    pub open spec fn resized(self, width: u32, height: u32) -> BarWindow {
        BarWindow {
            live: Some(
                LiveWindow {
                    os_window: self.live->Some_0.os_window,
                    surface: RenderSurface { width, height },
                },
            ),
            ..self
        }
    }

    /// Construct a bar in its initial, suspended state.
    pub fn new(id: BarWindowId, config: Config, monitor: Monitor) -> (b: BarWindow)
        ensures
            b.id == id,
            b.config == config,
            b.monitor == monitor,
            !b.is_active(),
    {
        BarWindow { id, config, monitor, live: None }
    }

    /// The absolute rectangle this bar occupies on screen.
    pub fn position(&self) -> (r: Rect)
        requires
            self.fits(),
        ensures
            r == self.spec_rect(),
    {
        resolve(&self.monitor, &self.config.position, self.config.size)
    }
}

/// A bar's resolved rectangle is untouched by a suspend/resume round trip:
/// the rectangle depends only on the configuration and the monitor snapshot,
/// and both transitions keep those. Resuming against the same monitor
/// snapshot therefore restores a window of exactly the geometry first
/// computed.
pub proof fn lemma_suspend_resume_rect(b: BarWindow, os_window: u64, width: u32, height: u32)
    ensures
        b.suspended().activated(os_window, width, height).spec_rect() == b.spec_rect(),
        b.suspended().activated(os_window, width, height).is_active(),
        b.suspended().activated(os_window, width, height).config == b.config,
{
}

/// The index in `configs` of the first bar whose monitor index is not below
/// `count`, scanning from position `i`; the sequence's length when every bar
/// from `i` on is in range.
pub open spec fn first_invalid_from(configs: Seq<Config>, count: nat, i: int) -> int
    decreases configs.len() - i,
{
    if i < 0 || i >= configs.len() {
        configs.len() as int
    } else if configs[i].monitor >= count {
        i
    } else {
        first_invalid_from(configs, count, i + 1)
    }
}


/// The window events the manager decides on, already routed by OS window
/// identifier and stripped to the values the decision needs.
#[derive(Debug, Clone, Copy, PartialEq, Eq, Structural)]
pub enum WindowEvent {
    Resized { width: u32, height: u32 },
    CloseRequested,
}

/// What the event loop must do after the manager has taken a window event:
/// nothing (the identifier routed to no live bar), reconfigure a bar's GPU
/// surface, or tear a bar's window and surface down — exiting the process
/// when that was the last live window and the user closed it.
#[derive(Debug, Clone, Copy, PartialEq, Eq, Structural)]
pub enum Action {
    Ignore,
    ResizeSurface { bar: BarWindowId, width: u32, height: u32 },
    Teardown { bar: BarWindowId, exit: bool },
}


/// The router invariant, read as a bijection: under [`Manager::inv`], the
/// table maps each of its OS window identifiers to an active bar carrying
/// that identifier, every active bar's identifier is in the table and maps
/// back to that bar, and no two active bars share an OS window identifier.
pub proof fn lemma_router_bijection(m: Manager, i: int, j: int)
    requires
        m.inv(),
        0 <= i < m.bar_count(),
        0 <= j < m.bar_count(),
        m.bars_view()[i].is_active(),
        m.bars_view()[j].is_active(),
        m.bars_view()[i].live->Some_0.os_window == m.bars_view()[j].live->Some_0.os_window,
    ensures
        i == j,
        m.router_view()[m.bars_view()[i].live->Some_0.os_window] == m.bars_view()[i].id,
{
    let os = m.bars_view()[i].live->Some_0.os_window;
    assert(m.router_view()[os] == BarWindowId(i as u64));
    assert(m.router_view()[os] == BarWindowId(j as u64));
    assert(m.bars.len() == m.bars@.len());
    assert(i as u64 == j as u64);
}

/// The dock manager: every configured bar's state machine, and the window
/// router that maps each live OS window identifier to its bar.
pub struct Manager {
    bars: Vec<BarWindow>,
    router: HashMapWithView<u64, BarWindowId>,
}

impl Manager {
    /// The bars, in configuration order; a bar's identifier is its position
    /// in this sequence.
    pub closed spec fn bars_view(self) -> Seq<BarWindow> {
        self.bars@
    }

    /// The router table: OS window identifier to bar identifier, one entry
    /// per currently-live window.
    pub closed spec fn router_view(self) -> Map<u64, BarWindowId> {
        self.router@
    }

    pub open spec fn bar_count(self) -> nat {
        self.bars_view().len()
    }

    /// The manager's invariant. Bars are numbered by position and their
    /// rectangles are representable; the router and the set of active bars
    /// determine each other exactly: every entry points at an active bar
    /// whose live window carries that OS identifier, and every active bar's
    /// OS identifier is in the table, mapped to that bar — a bijection
    /// between table entries and active bars.
    pub open spec fn inv(self) -> bool {
        &&& forall|i: int|
            0 <= i < self.bars_view().len() ==> (#[trigger] self.bars_view()[i]).id
                == BarWindowId(i as u64)
        &&& forall|i: int| 0 <= i < self.bars_view().len() ==> (#[trigger] self.bars_view()[i]).fits()
        &&& forall|i: int|
            0 <= i < self.bars_view().len() && (#[trigger] self.bars_view()[i]).is_active() ==> {
                let os = self.bars_view()[i].live->Some_0.os_window;
                &&& self.router_view().contains_key(os)
                &&& self.router_view()[os] == self.bars_view()[i].id
            }
        &&& forall|os: u64|
            #[trigger] self.router_view().contains_key(os) ==> {
                let id = self.router_view()[os];
                &&& id.0 < self.bars_view().len()
                &&& self.bars_view()[id.0 as int].is_active()
                &&& self.bars_view()[id.0 as int].live->Some_0.os_window == os
            }
    }

    /// Build one suspended bar per configuration, resolving each bar's
    /// monitor snapshot from the enumerated list. A configuration naming a
    /// monitor that was not enumerated is the fatal startup error; the first
    /// such configuration (in order) decides the error, and no manager is
    /// produced.
    pub fn create_bars(configs: Vec<Config>, monitors: &Vec<Monitor>) -> (r: Result<Manager, Error>)
        requires
            forall|i: int|
                0 <= i < configs@.len() && (#[trigger] configs@[i]).monitor < monitors@.len()
                    ==> rect_fits(
                    monitors@[configs@[i].monitor as int],
                    configs@[i].position,
                    configs@[i].size,
                ),
        ensures
            r is Ok <==> first_invalid_from(configs@, monitors@.len(), 0) == configs@.len(),
            match r {
                Ok(m) => {
                    &&& m.inv()
                    &&& m.bar_count() == configs@.len()
                    &&& forall|i: int|
                        0 <= i < configs@.len() ==> {
                            &&& (#[trigger] m.bars_view()[i]).config == configs@[i]
                            &&& m.bars_view()[i].monitor == monitors@[configs@[i].monitor as int]
                            &&& !m.bars_view()[i].is_active()
                        }
                    &&& m.router_view() == Map::<u64, BarWindowId>::empty()
                },
                Err(e) => {
                    let j = first_invalid_from(configs@, monitors@.len(), 0);
                    &&& 0 <= j < configs@.len()
                    &&& configs@[j].monitor >= monitors@.len()
                    &&& e == (Error::MonitorOutOfRange {
                        index: configs@[j].monitor,
                        count: monitors@.len() as usize,
                    })
                },
            },
    {
        let ghost all = configs@;
        let ghost count: nat = monitors@.len();
        let mut remaining = configs;
        let mut bars: Vec<BarWindow> = Vec::new();
        #[verifier::loop_isolation(false)]
        while remaining.len() > 0
            invariant
                monitors@.len() == count,
                bars@.len() + remaining@.len() == all.len(),
                remaining@ == all.subrange(bars@.len() as int, all.len() as int),
                first_invalid_from(all, count, 0) == first_invalid_from(
                    all,
                    count,
                    bars@.len() as int,
                ),
                forall|i: int|
                    0 <= i < bars@.len() ==> {
                        &&& (#[trigger] bars@[i]).id == BarWindowId(i as u64)
                        &&& bars@[i].config == all[i]
                        &&& all[i].monitor < count
                        &&& bars@[i].monitor == monitors@[all[i].monitor as int]
                        &&& !bars@[i].is_active()
                        &&& bars@[i].fits()
                    },
                forall|i: int|
                    0 <= i < all.len() && (#[trigger] all[i]).monitor < monitors@.len()
                        ==> rect_fits(
                        monitors@[all[i].monitor as int],
                        all[i].position,
                        all[i].size,
                    ),
            decreases remaining@.len(),
        {
            let ghost k = bars@.len() as int;
            let cfg = remaining.remove(0);
            assert(cfg == all[k]);
            assert(remaining@ =~= all.subrange(k + 1, all.len() as int));
            let monitor = match select_monitor(monitors, cfg.monitor) {
                Ok(m) => m,
                Err(e) => {
                    proof {
                        assert(first_invalid_from(all, count, k) == k);
                    }
                    return Err(e);
                },
            };
            let id = BarWindowId(bars.len() as u64);
            let bar = BarWindow::new(id, cfg, monitor);
            bars.push(bar);
            proof {
                assert(first_invalid_from(all, count, k) == first_invalid_from(all, count, k + 1));
            }
        }
        let router = HashMapWithView::<u64, BarWindowId>::new();
        let m = Manager { bars, router };
        proof {
            assert(m.bars_view() == bars@);
            assert forall|os: u64| !(#[trigger] m.router_view().contains_key(os)) by {
                assert(m.router_view() == Map::<u64, BarWindowId>::empty());
            }
        }
        Ok(m)
    }

    /// The number of configured bars, active or not.
    pub fn num_bars(&self) -> (n: usize)
        ensures
            n == self.bar_count(),
    {
        self.bars.len()
    }

    /// Whether the given bar currently owns a live OS window.
    pub fn bar_is_active(&self, bar: usize) -> (active: bool)
        requires
            bar < self.bar_count(),
        ensures
            active == self.bars_view()[bar as int].is_active(),
    {
        self.bars[bar].live.is_some()
    }

    /// Route an OS window identifier to the bar that owns it: a single table
    /// lookup, never a scan over the bars.
    pub fn route(&self, os_window: u64) -> (r: Option<BarWindowId>)
        ensures
            match r {
                Some(id) => self.router_view().contains_key(os_window) && id
                    == self.router_view()[os_window],
                None => !self.router_view().contains_key(os_window),
            },
    {
        match self.router.get(&os_window) {
            Some(id) => Some(*id),
            None => None,
        }
    }

    /// The rectangle the given bar occupies, resolved from its configuration
    /// and its monitor snapshot.
    pub fn resolve_rect(&self, bar: usize) -> (r: Rect)
        requires
            self.inv(),
            bar < self.bar_count(),
        ensures
            r == self.bars_view()[bar as int].spec_rect(),
    {
        self.bars[bar].position()
    }

    /// The resume transition for one bar: record the freshly created OS
    /// window and render surface, and register the window in the router.
    /// The caller resolves the bar's rectangle first, creates the window
    /// still hidden, and shows it only after the first redraw; this method
    /// is the state change in the middle. The OS window identifier must be
    /// fresh: the OS only reissues an identifier after the previous window
    /// carrying it was destroyed and deregistered.
    pub fn activate(&mut self, bar: usize, os_window: u64, width: u32, height: u32)
        requires
            old(self).inv(),
            bar < old(self).bar_count(),
            !old(self).bars_view()[bar as int].is_active(),
            !old(self).router_view().contains_key(os_window),
        ensures
            final(self).inv(),
            final(self).bars_view() == old(self).bars_view().update(
                bar as int,
                old(self).bars_view()[bar as int].activated(os_window, width, height),
            ),
            final(self).router_view() == old(self).router_view().insert(
                os_window,
                BarWindowId(bar as u64),
            ),
    {
        let id = self.bars[bar].id;
        self.bars[bar].live = Some(
            LiveWindow { os_window, surface: RenderSurface { width, height } },
        );
        self.router.insert(os_window, id);
        proof {
            assert(self.bars_view() =~= old(self).bars_view().update(
                bar as int,
                old(self).bars_view()[bar as int].activated(os_window, width, height),
            ));
            assert forall|os: u64| #[trigger]
                self.router_view().contains_key(os) implies {
                let rid = self.router_view()[os];
                &&& rid.0 < self.bars_view().len()
                &&& self.bars_view()[rid.0 as int].is_active()
                &&& self.bars_view()[rid.0 as int].live->Some_0.os_window == os
            } by {
                if os != os_window {
                    assert(old(self).router_view().contains_key(os));
                }
            }
        }
    }

    /// The suspend transition for one bar: deregister its OS window from the
    /// router and drop the live resources, in that order — the router entry
    /// never outlives the window. A suspended bar is left untouched. The
    /// caller destroys the render surface and the OS window afterwards.
    pub fn suspend(&mut self, bar: usize)
        requires
            old(self).inv(),
            bar < old(self).bar_count(),
        ensures
            final(self).inv(),
            old(self).bars_view()[bar as int].is_active() ==> {
                &&& final(self).bars_view() == old(self).bars_view().update(
                    bar as int,
                    old(self).bars_view()[bar as int].suspended(),
                )
                &&& final(self).router_view() == old(self).router_view().remove(
                    old(self).bars_view()[bar as int].live->Some_0.os_window,
                )
            },
            !old(self).bars_view()[bar as int].is_active() ==> {
                &&& final(self).bars_view() == old(self).bars_view()
                &&& final(self).router_view() == old(self).router_view()
            },
    {
        let live = if let Some(lw) = &self.bars[bar].live {
            Some(lw.os_window)
        } else {
            None
        };
        match live {
            Some(os_window) => {
                self.router.remove(&os_window);
                self.bars[bar].live = None;
                proof {
                    assert(self.bars_view() =~= old(self).bars_view().update(
                        bar as int,
                        old(self).bars_view()[bar as int].suspended(),
                    ));
                    assert forall|i: int|
                        0 <= i < self.bars_view().len() && (#[trigger]
                    self.bars_view()[i]).is_active() implies {
                        let os = self.bars_view()[i].live->Some_0.os_window;
                        &&& self.router_view().contains_key(os)
                        &&& self.router_view()[os] == self.bars_view()[i].id
                    } by {
                        let os = self.bars_view()[i].live->Some_0.os_window;
                        assert(old(self).bars_view()[i].is_active());
                        assert(old(self).router_view().contains_key(os));
                        if os == os_window {
                            assert(old(self).router_view()[os] == BarWindowId(i as u64));
                            assert(old(self).router_view()[os_window] == BarWindowId(bar as u64));
                            assert(old(self).bars.len() == old(self).bars@.len());
                            assert(i as u64 == bar as u64);
                            assert(i == bar as int);
                            assert(!self.bars_view()[i].is_active());
                        }
                    }
                }
            },
            None => {
                proof {
                    assert(self.bars_view() =~= old(self).bars_view());
                }
            },
        }
    }
    /// The system-level suspend transition: every bar drops its live
    /// resources and the router is left empty. Configurations and monitor
    /// snapshots are kept, so a subsequent resume recreates every window
    /// with identical geometry.
    pub fn suspend_all(&mut self)
        requires
            old(self).inv(),
        ensures
            final(self).inv(),
            final(self).bar_count() == old(self).bar_count(),
            forall|i: int|
                0 <= i < old(self).bar_count() ==> #[trigger] final(self).bars_view()[i] == old(
                    self,
                ).bars_view()[i].suspended(),
            final(self).router_view() == Map::<u64, BarWindowId>::empty(),
    {
        let n = self.bars.len();
        let mut i: usize = 0;
        #[verifier::loop_isolation(false)]
        while i < n
            invariant
                self.inv(),
                self.bar_count() == old(self).bar_count(),
                i <= n,
                forall|j: int|
                    0 <= j < i ==> #[trigger] self.bars_view()[j]
                        == old(self).bars_view()[j].suspended(),
                forall|j: int|
                    i <= j < n ==> #[trigger] self.bars_view()[j] == old(self).bars_view()[j],
            decreases n - i,
        {
            self.suspend(i);
            i = i + 1;
        }
        proof {
            assert forall|os: u64| !(#[trigger] self.router_view().contains_key(os)) by {
                if self.router_view().contains_key(os) {
                    let id = self.router_view()[os];
                    assert(self.bars_view()[id.0 as int].is_active());
                }
            }
            assert(self.router_view() =~= Map::<u64, BarWindowId>::empty());
        }
    }

    /// Take one routed window event and decide what the event loop must do.
    /// An identifier that routes to no live bar is ignored. A resize updates
    /// the bar's surface bookkeeping in place, no state change. A close
    /// request suspends the bar; when that leaves the router empty, the last
    /// window was user-closed and the loop must exit.
    pub fn on_window_event(&mut self, os_window: u64, event: WindowEvent) -> (a: Action)
        requires
            old(self).inv(),
        ensures
            final(self).inv(),
            !old(self).router_view().contains_key(os_window) ==> {
                &&& a == Action::Ignore
                &&& final(self).bars_view() == old(self).bars_view()
                &&& final(self).router_view() == old(self).router_view()
            },
            old(self).router_view().contains_key(os_window) ==> {
                let id = old(self).router_view()[os_window];
                match event {
                    WindowEvent::Resized { width, height } => {
                        &&& a == (Action::ResizeSurface { bar: id, width, height })
                        &&& final(self).bars_view() == old(self).bars_view().update(
                            id.0 as int,
                            old(self).bars_view()[id.0 as int].resized(width, height),
                        )
                        &&& final(self).router_view() == old(self).router_view()
                    },
                    WindowEvent::CloseRequested => {
                        &&& a == (Action::Teardown {
                            bar: id,
                            exit: old(self).router_view().remove(os_window) =~= Map::<
                                u64,
                                BarWindowId,
                            >::empty(),
                        })
                        &&& final(self).bars_view() == old(self).bars_view().update(
                            id.0 as int,
                            old(self).bars_view()[id.0 as int].suspended(),
                        )
                        &&& final(self).router_view() == old(self).router_view().remove(os_window)
                    },
                }
            },
    {
        let routed = self.route(os_window);
        match routed {
            None => Action::Ignore,
            Some(id) => {
                proof {
                    assert(self.bars.len() == self.bars@.len());
                }
                let bar = id.0 as usize;
                match event {
                    WindowEvent::Resized { width, height } => {
                        self.bars[bar].live = Some(
                            LiveWindow { os_window, surface: RenderSurface { width, height } },
                        );
                        proof {
                            assert(self.bars_view() =~= old(self).bars_view().update(
                                bar as int,
                                old(self).bars_view()[bar as int].resized(width, height),
                            ));
                            assert forall|os: u64| #[trigger]
                                self.router_view().contains_key(os) implies {
                                let rid = self.router_view()[os];
                                &&& rid.0 < self.bars_view().len()
                                &&& self.bars_view()[rid.0 as int].is_active()
                                &&& self.bars_view()[rid.0 as int].live->Some_0.os_window == os
                            } by {
                                let rid = self.router_view()[os];
                                if rid.0 as int == bar as int {
                                    assert(old(self).bars_view()[bar as int].live->Some_0.os_window
                                        == os_window);
                                }
                            }
                        }
                        Action::ResizeSurface { bar: id, width, height }
                    },
                    WindowEvent::CloseRequested => {
                        self.suspend(bar);
                        let exit = self.router.is_empty();
                        proof {
                            if exit {
                                assert(self.router_view() =~= Map::<u64, BarWindowId>::empty());
                            }
                            if self.router_view() =~= Map::<u64, BarWindowId>::empty() {
                                assert(self.router_view().is_empty());
                            }
                        }
                        Action::Teardown { bar: id, exit }
                    },
                }
            },
        }
    }

    /// Decide a redraw request: the bar that owns the window, if any, and
    /// the content area its render callback must be given — the size of the
    /// bar's resolved rectangle.
    pub fn on_redraw_request(&self, os_window: u64) -> (r: Option<(BarWindowId, u32, u32)>)
        requires
            self.inv(),
        ensures
            !self.router_view().contains_key(os_window) ==> r is None,
            self.router_view().contains_key(os_window) ==> {
                let id = self.router_view()[os_window];
                let rect = self.bars_view()[id.0 as int].spec_rect();
                r == Some((id, rect.width, rect.height))
            },
    {
        match self.route(os_window) {
            None => None,
            Some(id) => {
                proof {
                    assert(self.bars.len() == self.bars@.len());
                }
                let rect = self.resolve_rect(id.0 as usize);
                Some((id, rect.width, rect.height))
            },
        }
    }

    /// Decide a repaint-signal event: redraw exactly when the window still
    /// belongs to a live bar.
    pub fn on_user_event(&self, os_window: u64) -> (redraw: bool)
        ensures
            redraw == self.router_view().contains_key(os_window),
    {
        self.router.contains_key(&os_window)
    }

    /// The identifiers of all currently active bars, in ascending order —
    /// what the idle tick walks to request opportunistic redraws.
    pub fn active_bars(&self) -> (v: Vec<BarWindowId>)
        requires
            self.inv(),
        ensures
            forall|k: int|
                0 <= k < v@.len() ==> (#[trigger] v@[k]).0 < self.bar_count() && self.bars_view()[
                    v@[k].0 as int
                ].is_active(),
            forall|i: int|
                0 <= i < self.bar_count() && (#[trigger] self.bars_view()[i]).is_active()
                    ==> v@.contains(BarWindowId(i as u64)),
            forall|k1: int, k2: int| 0 <= k1 < k2 < v@.len() ==> v@[k1].0 < v@[k2].0,
    {
        let n = self.bars.len();
        let mut v: Vec<BarWindowId> = Vec::new();
        let mut i: usize = 0;
        #[verifier::loop_isolation(false)]
        while i < n
            invariant
                i <= n,
                forall|k: int|
                    0 <= k < v@.len() ==> (#[trigger] v@[k]).0 < i && self.bars_view()[
                        v@[k].0 as int
                    ].is_active(),
                forall|j: int|
                    0 <= j < i && (#[trigger] self.bars_view()[j]).is_active() ==> v@.contains(
                        BarWindowId(j as u64),
                    ),
                forall|k1: int, k2: int| 0 <= k1 < k2 < v@.len() ==> v@[k1].0 < v@[k2].0,
            decreases n - i,
        {
            if self.bars[i].live.is_some() {
                let ghost w = v@;
                v.push(self.bars[i].id);
                proof {
                    assert forall|j: int|
                        0 <= j < i + 1 && (#[trigger] self.bars_view()[j]).is_active() implies v@
                        .contains(BarWindowId(j as u64)) by {
                        if j < i {
                            assert(w.contains(BarWindowId(j as u64)));
                            let k = choose|k: int|
                                0 <= k < w.len() && w[k] == BarWindowId(j as u64);
                            assert(v@[k] == BarWindowId(j as u64));
                        } else {
                            assert(v@[w.len() as int] == BarWindowId(i as u64));
                        }
                    }
                }
            }
            i = i + 1;
        }
        v
    }
}

} // verus!
