//! The replay watcher: it keeps the list of best genomes, follows the
//! generation the user asks for, and plays the chosen genome against the
//! scene.
//!
//! Polling the pool and the simulator are outside work; their answers
//! arrive as events in the tick context, and everything the watcher wants
//! done comes back as an effect.

use vstd::prelude::*;
use crate::bt::BTResult;
use crate::scoring::{spec_net_input, net_input};
use crate::vec2::{Vec2, in_range};

verus! {

/// One genome of the pool's best list, as the watcher keeps it. The
/// network payload itself stays with the caller, under the same index.
#[derive(Clone, Copy, Debug)]
pub struct GeneInfo {
    pub generation: u32,
    pub fitness: i64,
    pub experiment: uuid::Uuid,
}

/// What the simulator's watcher endpoint is told on a switch.
#[derive(Clone, Copy, Debug)]
pub struct WatcherStatus {
    pub experiment: uuid::Uuid,
    pub generation: u32,
    pub max_generation: u32,
    pub score: i64,
}

/// A switch to another genome: which entry to load, and the status to post.
#[derive(Clone, Copy, Debug)]
pub struct WatcherStatusSwitch {
    pub index: usize,
    pub status: WatcherStatus,
}

/// What the watcher saw this tick: the scene, the round clock, and any
/// events the two background polls delivered.
pub struct WatcherContext {
    pub ball: Vec2,
    pub target_goal: Vec2,
    pub n_goals: u32,
    pub elapsed_ms: u64,
    pub gen_request: Option<u32>,
    pub gene_list: Option<Vec<GeneInfo>>,
}

/// What the caller must do after a watcher tick.
pub struct WatcherEffect {
    pub result: BTResult,
    pub reset_sim: bool,
    pub restart_timer: bool,
    /// Load this genome and post its status.
    pub switch: Option<WatcherStatusSwitch>,
    /// Run the loaded network on this input.
    pub net_input: Option<Vec<i64>>,
}

/// The watcher's state: the known genomes, the one being played, and the
/// goal count of the current attempt.
pub struct BotWatcher {
    pub genes: Vec<GeneInfo>,
    pub generation: u32,
    pub n_goals: u32,
    pub active: bool,
    pub experiment: Option<uuid::Uuid>,
}

/// The largest generation in the list; zero when it is empty.
pub open spec fn spec_max_generation(genes: Seq<GeneInfo>) -> int
    decreases genes.len(),
{
    if genes.len() == 0 {
        0
    } else {
        crate::math::spec_max(spec_max_generation(genes.drop_last()), genes.last().generation as int)
    }
}

/// The first entry of the list with the given generation.
pub open spec fn spec_find_generation(genes: Seq<GeneInfo>, g: int) -> Option<int> {
    if exists|i: int| 0 <= i < genes.len() && #[trigger] genes[i].generation == g {
        Some(choose|i: int|
            0 <= i < genes.len() && #[trigger] genes[i].generation == g && forall|j: int|
                0 <= j < i ==> genes[j].generation != g)
    } else {
        None
    }
}



/// The watcher switched to the gene at `i` of its own list.
pub open spec fn spec_switched(pre: BotWatcher, i: int) -> BotWatcher {
    BotWatcher {
        generation: pre.genes@[i].generation,
        n_goals: 0,
        active: true,
        experiment: Some(pre.genes@[i].experiment),
        ..pre
    }
}

/// The switch report for the gene at `i`: its own data, and the largest
/// generation on the list as the range the user can pick from.
pub open spec fn spec_switch_report(pre: BotWatcher, i: int) -> WatcherStatusSwitch {
    WatcherStatusSwitch {
        index: i as usize,
        status: WatcherStatus {
            experiment: pre.genes@[i].experiment,
            generation: pre.genes@[i].generation,
            max_generation: spec_max_generation(pre.genes@) as u32,
            score: pre.genes@[i].fitness,
        },
    }
}

/// The candidate played after a quiet stretch: the entry after the one
/// currently playing, wrapping at the end of the list, or the first entry
/// when the playing generation is no longer listed.
pub open spec fn spec_next_candidate(pre: BotWatcher) -> int {
    match spec_find_generation(pre.genes@, pre.generation as int) {
        Some(i) => if i + 1 < pre.genes@.len() {
            i + 1
        } else {
            0
        },
        None => 0,
    }
}

/// `spec_find_generation` answers exactly the first matching index.
pub proof fn lemma_find_generation(genes: Seq<GeneInfo>, g: int, i: int)
    requires
        0 <= i < genes.len(),
        genes[i].generation == g,
        forall|j: int| 0 <= j < i ==> genes[j].generation != g,
    ensures
        spec_find_generation(genes, g) == Some(i),
{
    assert(exists|k: int|
        0 <= k < genes.len() && #[trigger] genes[k].generation == g && forall|j: int|
            0 <= j < k ==> genes[j].generation != g) by {
        assert(0 <= i < genes.len() && genes[i].generation == g && forall|j: int|
            0 <= j < i ==> genes[j].generation != g);
    }
    let k = choose|k: int|
        0 <= k < genes.len() && #[trigger] genes[k].generation == g && forall|j: int|
            0 <= j < k ==> genes[j].generation != g;
    if k < i {
        assert(genes[k].generation != g);
    }
    if i < k {
        assert(genes[i].generation != g);
    }
}

impl BotWatcher {
    pub open spec fn wf(self) -> bool {
        self.active ==> self.experiment is Some
    }

    /// A watcher with no genomes yet.
    pub fn new() -> (r: BotWatcher)
        ensures
            r.wf(),
            r.genes@.len() == 0,
            r.generation == 0,
            r.n_goals == 0,
            !r.active,
    {
        BotWatcher { genes: Vec::new(), generation: 0, n_goals: 0, active: false, experiment: None }
    }

    /// The largest generation on the list; what the status posts as the
    /// count of available generations.
    pub fn find_max_generation(&self) -> (r: u32)
        ensures
            r == spec_max_generation(self.genes@),
    {
        let n = self.genes.len();
        let mut best: u32 = 0;
        let mut i: usize = 0;
        while i < n
            invariant
                i <= n,
                n == self.genes@.len(),
                best == spec_max_generation(self.genes@.take(i as int)),
            decreases n - i,
        {
            let g = self.genes[i].generation;
            if g > best {
                best = g;
            }
            proof {
                assert(self.genes@.take(i + 1).drop_last() =~= self.genes@.take(i as int));
                assert(self.genes@.take(i + 1).last() == self.genes@[i as int]);
            }
            i += 1;
        }
        proof {
            assert(self.genes@.take(n as int) =~= self.genes@);
        }
        best
    }

    /// Find the first genome of the given generation; switch to it and
    /// report the switch, or answer `None` and stand still.
    pub fn select_generation(&mut self, g: u32) -> (r: Option<WatcherStatusSwitch>)
        requires
            old(self).wf(),
        ensures
            final(self).wf(),
            r is Some <==> spec_find_generation(old(self).genes@, g as int) is Some,
            r is None ==> *final(self) == *old(self),
            r is Some ==> ({
                let i = spec_find_generation(old(self).genes@, g as int)->0;
                &&& *final(self) == spec_switched(*old(self), i)
                &&& r == Some(spec_switch_report(*old(self), i))
            }),
    {
        match self.find_index(g) {
            Some(i) => Some(self.switch_to(i)),
            None => None,
        }
    }

    /// The first list index playing the given generation.
    fn find_index(&self, g: u32) -> (r: Option<usize>)
        ensures
            match r {
                Some(i) => Some(i as int) == spec_find_generation(self.genes@, g as int) && i
                    < self.genes@.len(),
                None => spec_find_generation(self.genes@, g as int) is None,
            },
    {
        let n = self.genes.len();
        let mut i: usize = 0;
        while i < n
            invariant
                i <= n,
                n == self.genes@.len(),
                forall|j: int| 0 <= j < i ==> self.genes@[j].generation != g,
            decreases n - i,
        {
            if self.genes[i].generation == g {
                proof {
                    lemma_find_generation(self.genes@, g as int, i as int);
                }
                return Some(i);
            }
            i += 1;
        }
        None
    }

    /// Play the gene at `i`: adopt its generation, start a fresh attempt,
    /// and report the switch.
    fn switch_to(&mut self, i: usize) -> (r: WatcherStatusSwitch)
        requires
            old(self).wf(),
            i < old(self).genes@.len(),
        ensures
            final(self).wf(),
            *final(self) == spec_switched(*old(self), i as int),
            r == spec_switch_report(*old(self), i as int),
    {
        let gene = self.genes[i];
        let max_generation = self.find_max_generation();
        self.generation = gene.generation;
        self.n_goals = 0;
        self.active = true;
        self.experiment = Some(gene.experiment);
        WatcherStatusSwitch {
            index: i,
            status: WatcherStatus {
                experiment: gene.experiment,
                generation: gene.generation,
                max_generation,
                score: gene.fitness,
            },
        }
    }

    /// A fresh best-list arrived: adopt it, and if the watcher had been
    /// sitting on the newest generation, follow the list to its new
    /// maximum; then play whatever entry matches the current generation.
    pub fn adopt_gene_list(&mut self, genes: Vec<GeneInfo>) -> (r: Option<WatcherStatusSwitch>)
        requires
            old(self).wf(),
        ensures
            final(self).wf(),
            ({
                let autostep = old(self).generation == spec_max_generation(old(self).genes@);
                let target: int = if autostep {
                    spec_max_generation(genes@)
                } else {
                    old(self).generation as int
                };
                let mid = BotWatcher {
                    genes: genes,
                    generation: target as u32,
                    ..*old(self)
                };
                &&& r is Some <==> spec_find_generation(genes@, target) is Some
                &&& r is None ==> *final(self) == mid
                &&& r is Some ==> ({
                    let i = spec_find_generation(genes@, target)->0;
                    &&& *final(self) == spec_switched(mid, i)
                    &&& r == Some(spec_switch_report(mid, i))
                })
            }),
    {
        let autostep = self.generation == self.find_max_generation();
        self.genes = genes;
        if autostep {
            self.generation = self.find_max_generation();
        }
        let g = self.generation;
        let r = self.select_generation(g);
        r
    }
}


/// A watcher effect that carries the network input for this scene.
pub open spec fn weff_net_input(eff: WatcherEffect, ctx: WatcherContext) -> bool {
    &&& eff.net_input is Some
    &&& eff.net_input->0@.len() == 7
    &&& forall|i: int|
        0 <= i < 7 ==> #[trigger] eff.net_input->0@[i] as int == spec_net_input(
            ctx.ball,
            ctx.target_goal,
        )[i]
}

/// Everything one watcher tick does: switch on a pending event, extend on
/// a goal, rotate to the next candidate after eight quiet seconds, else
/// play the loaded genome.
pub open spec fn spec_watcher_tick(
    pre: BotWatcher,
    ctx: WatcherContext,
    post: BotWatcher,
    eff: WatcherEffect,
) -> bool {
    let req_hit = ctx.gen_request is Some && spec_find_generation(
        pre.genes@,
        ctx.gen_request->0 as int,
    ) is Some;
    if req_hit {
        let i = spec_find_generation(pre.genes@, ctx.gen_request->0 as int)->0;
        &&& post == spec_switched(pre, i)
        &&& eff.switch == Some(spec_switch_report(pre, i))
        &&& eff.result == BTResult::Pending
        &&& eff.reset_sim
        &&& eff.restart_timer
        &&& eff.net_input is None
    } else if ctx.gene_list is Some {
        let l = ctx.gene_list->0;
        let autostep = pre.generation == spec_max_generation(pre.genes@);
        let target: int = if autostep {
            spec_max_generation(l@)
        } else {
            pre.generation as int
        };
        let mid = BotWatcher { genes: l, generation: target as u32, ..pre };
        &&& (if spec_find_generation(l@, target) is Some {
            let i = spec_find_generation(l@, target)->0;
            &&& post == spec_switched(mid, i)
            &&& eff.switch == Some(spec_switch_report(mid, i))
        } else {
            &&& post == mid
            &&& eff.switch is None
        })
        &&& eff.result == BTResult::Pending
        &&& eff.reset_sim
        &&& eff.restart_timer
        &&& eff.net_input is None
    } else {
        let bumped = ctx.n_goals > pre.n_goals;
        let s1 = if bumped {
            BotWatcher { n_goals: ctx.n_goals, ..pre }
        } else {
            pre
        };
        let elapsed: int = if bumped {
            0
        } else {
            ctx.elapsed_ms as int
        };
        if elapsed > 8000 {
            &&& (if s1.active && s1.genes@.len() > 0 {
                let i = spec_next_candidate(s1);
                &&& post == spec_switched(s1, i)
                &&& eff.switch == Some(spec_switch_report(s1, i))
            } else {
                &&& post == s1
                &&& eff.switch is None
            })
            &&& eff.result == BTResult::Pending
            &&& eff.reset_sim
            &&& eff.restart_timer
            &&& eff.net_input is None
        } else {
            &&& post == s1
            &&& eff.switch is None
            &&& eff.result == BTResult::Pending
            &&& !eff.reset_sim
            &&& eff.restart_timer == bumped
            &&& (if pre.active {
                weff_net_input(eff, ctx)
            } else {
                eff.net_input is None
            })
        }
    }
}

impl BotWatcher {
    /// One watcher tick against the scene and whatever the background
    /// polls delivered.
    pub fn tick(&mut self, ctx: WatcherContext) -> (eff: WatcherEffect)
        requires
            old(self).wf(),
            in_range(ctx.ball),
            in_range(ctx.target_goal),
        ensures
            final(self).wf(),
            spec_watcher_tick(*old(self), ctx, *final(self), eff),
    {
        let mut switched: Option<WatcherStatusSwitch> = None;
        match ctx.gen_request {
            Some(g) => {
                switched = self.select_generation(g);
            }
            None => {}
        }
        match switched {
            Some(sw) => {
                return WatcherEffect {
                    result: BTResult::Pending,
                    reset_sim: true,
                    restart_timer: true,
                    switch: Some(sw),
                    net_input: None,
                };
            }
            None => {}
        }
        match ctx.gene_list {
            Some(l) => {
                let sw = self.adopt_gene_list(l);
                return WatcherEffect {
                    result: BTResult::Pending,
                    reset_sim: true,
                    restart_timer: true,
                    switch: sw,
                    net_input: None,
                };
            }
            None => {}
        }

        let mut bumped = false;
        if ctx.n_goals > self.n_goals {
            self.n_goals = ctx.n_goals;
            bumped = true;
        }
        let elapsed: u64 = if bumped {
            0
        } else {
            ctx.elapsed_ms
        };
        if elapsed > 8000 {
            let switch: Option<WatcherStatusSwitch> = if self.active && self.genes.len() > 0 {
                let len = self.genes.len();
                let g = self.generation;
                let next: usize = match self.find_index(g) {
                    Some(j) => if j + 1 < len {
                        j + 1
                    } else {
                        0
                    },
                    None => 0,
                };
                Some(self.switch_to(next))
            } else {
                None
            };
            return WatcherEffect {
                result: BTResult::Pending,
                reset_sim: true,
                restart_timer: true,
                switch,
                net_input: None,
            };
        }
        let input: Option<Vec<i64>> = if self.active {
            Some(net_input(ctx.ball, ctx.target_goal))
        } else {
            None
        };
        WatcherEffect {
            result: BTResult::Pending,
            reset_sim: false,
            restart_timer: bumped,
            switch: None,
            net_input: input,
        }
    }
}

} // verus!
