//! The visualization session: owns the committed configuration and the
//! layout derived from it, and answers per-frame queries.
//!
//! A session starts uninitialized and becomes ready with the first
//! successful commit, which replaces the configuration and layout together,
//! atomically: a rejected commit leaves the prior pair untouched. The
//! reveal clock's zero point is the moment of the last commit; callers
//! thread the elapsed time since then into every frame query.

use vstd::prelude::*;
use crate::config::{Config, Mode, VizError};
use crate::layout::{layout, layout_matches, spec_point_at, Layout};
use crate::clock::{reveal_at, spec_reveal_state, spec_visible_count, RevealState};
use crate::arrow::{cycle_arrow_target, reduction_arrow_indices};
use vstd::arithmetic::div_mod::{
    lemma_mod_decreases, lemma_mod_division_less_than_divisor, lemma_small_mod,
};

verus! {

/// A committed configuration with the layout derived from it. Replaced
/// only as a whole by [`Session::commit`], never edited in place.
#[derive(Debug, PartialEq, Eq)]
pub struct ActiveConfiguration {
    /// The parameters the diagram is drawn from.
    pub config: Config,
    /// The layout the engine derived from `config`.
    pub layout: Layout,
}

/// The orchestrator: holds the active configuration, if any.
#[derive(Debug, PartialEq, Eq)]
pub struct Session {
    /// `None` until the first successful commit.
    pub active: Option<ActiveConfiguration>,
}

/// Everything one frame draws: the visibility state and the arrows, as
/// index pairs into the layout's points. A renderer turns the indexed
/// points into screen positions and shrinks each arrow before drawing it.
#[derive(Debug, PartialEq, Eq)]
pub struct FrameView {
    /// Which points and rings are visible, and whether the reduction
    /// highlight arrow may render.
    pub visibility: RevealState,
    /// The reduction highlight arrow as `(source, destination)` point
    /// indices: from the outermost point congruent to the residue down to
    /// the innermost. `None` until every point is revealed, and in cycle
    /// mode.
    pub reduction_arrow: Option<(usize, usize)>,
    /// One `(source, destination)` index pair per revealed point of a
    /// cycle diagram; empty in reduction mode.
    pub cycle_arrows: Vec<(usize, usize)>,
}

impl Session {
    /// The session has a committed configuration to draw.
    pub open spec fn is_ready(self) -> bool {
        self.active is Some
    }

    /// The committed configuration.
    pub open spec fn active_config(self) -> Config
        recommends
            self.is_ready(),
    {
        self.active->Some_0.config
    }

    /// The layout derived from the committed configuration.
    pub open spec fn active_layout(self) -> Layout
        recommends
            self.is_ready(),
    {
        self.active->Some_0.layout
    }

    /// Whatever is committed is a valid configuration whose layout is
    /// exactly what the engine derives from it.
    pub open spec fn wf(self) -> bool {
        self.is_ready() ==> {
            &&& self.active_config().valid()
            &&& layout_matches(self.active_layout(), self.active_config())
        }
    }

    /// A fresh session with nothing committed.
    pub fn new() -> (session: Session)
        ensures
            !session.is_ready(),
            session.wf(),
    {
        Session { active: None }
    }

    /// Validates `config` and, when it is acceptable, derives its layout
    /// and replaces the active pair with the new one — both together, or
    /// neither. A rejected commit returns the error and leaves the session
    /// exactly as it was. Committing also restarts the reveal animation:
    /// the caller measures the elapsed time of later frame queries from
    /// this moment.
    pub fn commit(&mut self, config: Config) -> (result: Result<(), VizError>)
        requires
            config.natural < u32::MAX,
        ensures
            match result {
                Ok(()) => {
                    &&& config.modulus >= 1
                    &&& final(self).wf()
                    &&& final(self).is_ready()
                    &&& final(self).active_config() == config
                    &&& layout_matches(final(self).active_layout(), config)
                },
                Err(e) => {
                    &&& config.modulus == 0
                    &&& e == VizError::InvalidConfiguration
                    &&& *final(self) == *old(self)
                },
            },
    {
        match layout(config) {
            Ok(derived) => {
                self.active = Some(ActiveConfiguration { config, layout: derived });
                Ok(())
            },
            Err(e) => Err(e),
        }
    }

    /// Answers one per-frame query: given the elapsed time since the last
    /// commit, the visibility state and the arrows to draw. `None` while
    /// nothing is committed yet.
    ///
    /// In reduction mode the highlight arrow, once every point is
    /// revealed, runs from the outermost point congruent to
    /// `natural % modulus` — the point labeled `natural` itself — down to
    /// the innermost one, the point labeled `natural % modulus`. In cycle
    /// mode each revealed point `i` sends one arrow to point
    /// `(i + natural) % modulus`.
    pub fn frame(&self, elapsed: u64) -> (result: Option<FrameView>)
        requires
            self.wf(),
        ensures
            match result {
                None => !self.is_ready(),
                Some(view) => {
                    let cfg = self.active_config();
                    let lay = self.active_layout();
                    let total = lay.points@.len() as int;
                    let visible = spec_visible_count(elapsed as int, total);
                    &&& self.is_ready()
                    &&& spec_reveal_state(view.visibility, elapsed as int, lay, cfg.mode)
                    &&& match cfg.mode {
                        Mode::Reduction => {
                            &&& view.cycle_arrows@.len() == 0
                            &&& if elapsed > total {
                                view.reduction_arrow == Some(
                                    (cfg.natural as usize, (cfg.natural % cfg.modulus) as usize),
                                )
                            } else {
                                view.reduction_arrow is None
                            }
                        },
                        Mode::Cycle => {
                            &&& view.reduction_arrow is None
                            &&& view.cycle_arrows@.len() == visible
                            &&& forall|k: int| #![trigger view.cycle_arrows@[k]] 0 <= k < visible
                                ==> view.cycle_arrows@[k].0 == k && view.cycle_arrows@[k].1 == (k
                                    + cfg.natural) % (cfg.modulus as int)
                        },
                    }
                },
            },
    {
        let active = match &self.active {
            None => { return None; },
            Some(a) => a,
        };
        let cfg = active.config;
        let visibility = match reveal_at(elapsed, &active.layout, cfg.mode) {
            Ok(state) => state,
            Err(_) => {
                proof {
                    assert(false);  // the committed layout has modulus points per ring
                }
                return None;
            },
        };
        let total: usize = active.layout.points.len();
        match cfg.mode {
            Mode::Reduction => {
                let reduction_arrow: Option<(usize, usize)> = if elapsed > total as u64 {
                    let target: u32 = cfg.natural % cfg.modulus;
                    proof {
                        self.lemma_residue_point_matches(target);
                    }
                    match reduction_arrow_indices(&active.layout.points, cfg.modulus, target) {
                        Ok(pair) => {
                            proof {
                                self.lemma_match_range_pins_endpoints(target, pair.0 as int, pair.1 as int);
                            }
                            Some((pair.1, pair.0))
                        },
                        Err(_) => {
                            // unreachable: the residue's own point always matches
                            return None;
                        },
                    }
                } else {
                    None
                };
                Some(FrameView { visibility, reduction_arrow, cycle_arrows: Vec::new() })
            },
            Mode::Cycle => {
                let visible: usize = visibility.visible_point_count;
                let mut cycle_arrows: Vec<(usize, usize)> = Vec::new();
                let mut k: usize = 0;
                while k < visible
                    invariant
                        cfg.modulus >= 1,
                        visible <= cfg.modulus,
                        k <= visible,
                        cycle_arrows@.len() == k,
                        forall|j: int| #![trigger cycle_arrows@[j]] 0 <= j < k
                            ==> cycle_arrows@[j].0 == j && cycle_arrows@[j].1 == (j + cfg.natural)
                                % (cfg.modulus as int),
                    decreases visible - k,
                {
                    let target = cycle_arrow_target(k, cfg.natural, cfg.modulus);
                    cycle_arrows.push((k, target));
                    k = k + 1;
                }
                Some(FrameView { visibility, reduction_arrow: None, cycle_arrows })
            },
        }
    }

    /// In a well-formed ready reduction session, the point indexed by the
    /// residue `natural % modulus` carries that residue as its label, so
    /// the congruence filter always has a match.
    proof fn lemma_residue_point_matches(self, target: u32)
        requires
            self.wf(),
            self.is_ready(),
            self.active_config().mode is Reduction,
            target == self.active_config().natural % self.active_config().modulus,
        ensures
            target < self.active_layout().points@.len(),
            self.active_layout().points@[target as int].label % self.active_config().modulus
                == target,
            self.active_layout().points@[self.active_config().natural as int].label
                % self.active_config().modulus == target,
    {
        let cfg = self.active_config();
        let lay = self.active_layout();
        let m = cfg.modulus;
        let n = cfg.natural;
        lemma_mod_division_less_than_divisor(n as int, m as int);
        lemma_mod_decreases(n as nat, m as nat);
        assert(lay.points@[target as int] == spec_point_at(Mode::Reduction, n, m, target as int));
        assert(lay.points@[target as int].label == target);
        lemma_small_mod(target as nat, m as nat);
        assert(lay.points@[n as int] == spec_point_at(Mode::Reduction, n, m, n as int));
        assert(lay.points@[n as int].label == n);
    }

    /// In a well-formed ready reduction session, the innermost and
    /// outermost matching indices of the congruence filter are exactly the
    /// residue and `natural` itself.
    proof fn lemma_match_range_pins_endpoints(self, target: u32, inner: int, outer: int)
        requires
            self.wf(),
            self.is_ready(),
            self.active_config().mode is Reduction,
            target == self.active_config().natural % self.active_config().modulus,
            0 <= inner <= outer < self.active_layout().points@.len(),
            self.active_layout().points@[inner].label % self.active_config().modulus == target,
            self.active_layout().points@[outer].label % self.active_config().modulus == target,
            forall|i: int| 0 <= i < self.active_layout().points@.len()
                && self.active_layout().points@[i].label % self.active_config().modulus == target
                ==> inner <= i <= outer,
        ensures
            inner == target,
            outer == self.active_config().natural,
    {
        let cfg = self.active_config();
        let lay = self.active_layout();
        let m = cfg.modulus;
        let n = cfg.natural;
        self.lemma_residue_point_matches(target);
        // both the residue's point and the last point match, so the range
        // covers them
        assert(inner <= target as int);
        assert(n as int <= outer);
        // a matching label can never lie below its own residue
        assert(lay.points@[inner] == spec_point_at(Mode::Reduction, n, m, inner));
        assert(lay.points@[inner].label == inner as u32);
        lemma_mod_decreases(inner as nat, m as nat);
        assert(target as int <= inner);
    }
}

} // verus!
