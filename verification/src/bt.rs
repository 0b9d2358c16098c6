//! Behaviour-tree core: composable tick nodes with decorator predicates.
//!
//! A node is anything that can be ticked against a blackboard `B` and
//! reset; its trait carries a transition relation that each implementation
//! pins down for itself. The combinators — `BTAction`, `BTSequence`,
//! `BTRepeat` — are verified once, generically, against the relations of
//! their children. Trees are composed by type: a sequence of repeats of
//! actions is one concrete type, with one exact contract.

use vstd::prelude::*;

verus! {

/// What a tick returns: the node finished, failed, or wants more ticks.
#[derive(Clone, Copy, Debug, PartialEq, Eq, Structural)]
pub enum BTResult {
    Success,
    Failure,
    Pending,
}

/// What a decorator predicate returns: pass or reject.
#[derive(Clone, Copy, Debug, PartialEq, Eq, Structural)]
pub enum BTDecoratorResult {
    Success,
    Failure,
}

/// A predicate over the blackboard, gating a node's execution.
pub trait BTDecorator<B>: Sized {
    /// What `evaluate` answers on each blackboard.
    spec fn eval_spec(self, blackboard: B) -> BTDecoratorResult;

    fn evaluate(&self, blackboard: &B) -> (r: BTDecoratorResult)
        ensures
            r == self.eval_spec(*blackboard),
    ;
}

/// Every decorator in the list passes the blackboard.
pub open spec fn decorators_pass<B, D: BTDecorator<B>>(decorators: Seq<D>, blackboard: B) -> bool {
    forall|i: int|
        0 <= i < decorators.len() ==> #[trigger] decorators[i].eval_spec(blackboard)
            == BTDecoratorResult::Success
}

/// A tick node over the blackboard `B`.
pub trait BTNode<B>: Sized {
    /// The transitions one tick may make: from node `pre` on blackboard
    /// `preb` to node `post`, blackboard `postb` and result `r`.
    spec fn tick_rel(pre: Self, preb: B, post: Self, postb: B, r: BTResult) -> bool;

    /// The transitions a reset may make.
    spec fn reset_rel(pre: Self, post: Self) -> bool;

    fn tick(&mut self, blackboard: &mut B) -> (r: BTResult)
        ensures
            Self::tick_rel(*old(self), *old(blackboard), *final(self), *final(blackboard), r),
    ;

    fn reset(&mut self)
        ensures
            Self::reset_rel(*old(self), *final(self)),
    ;
}

/// Evaluate a node's decorators in order; the first rejection wins.
fn check_decorators<B, D: BTDecorator<B>>(decorators: &Vec<D>, blackboard: &B) -> (r:
    BTDecoratorResult)
    ensures
        r == BTDecoratorResult::Success <==> decorators_pass(decorators@, *blackboard),
{
    let n = decorators.len();
    let mut i: usize = 0;
    while i < n
        invariant
            i <= n,
            n == decorators@.len(),
            forall|j: int|
                0 <= j < i ==> #[trigger] decorators@[j].eval_spec(*blackboard)
                    == BTDecoratorResult::Success,
        decreases n - i,
    {
        if let BTDecoratorResult::Failure = decorators[i].evaluate(blackboard) {
            return BTDecoratorResult::Failure;
        }
        i += 1;
    }
    BTDecoratorResult::Success
}

/// A leaf: one inner action, gated by decorators. Ticking runs the action;
/// resetting is a no-op, as a plain action holds no tree position.
pub struct BTAction<A, D> {
    pub action: A,
    pub decorators: Vec<D>,
}

impl<A, D> BTAction<A, D> {
    pub fn new(action: A) -> (r: BTAction<A, D>)
        ensures
            r.action == action,
            r.decorators@.len() == 0,
    {
        BTAction { action, decorators: Vec::new() }
    }
}

impl<B, A: BTNode<B>, D: BTDecorator<B>> BTNode<B> for BTAction<A, D> {
    open spec fn tick_rel(pre: Self, preb: B, post: Self, postb: B, r: BTResult) -> bool {
        &&& post.decorators@ == pre.decorators@
        &&& if !decorators_pass(pre.decorators@, preb) {
            r == BTResult::Failure && post.action == pre.action && postb == preb
        } else {
            A::tick_rel(pre.action, preb, post.action, postb, r)
        }
    }

    open spec fn reset_rel(pre: Self, post: Self) -> bool {
        post == pre
    }

    fn tick(&mut self, blackboard: &mut B) -> (r: BTResult) {
        if let BTDecoratorResult::Failure = check_decorators(&self.decorators, blackboard) {
            return BTResult::Failure;
        }
        self.action.tick(blackboard)
    }

    fn reset(&mut self) {
    }
}

/// An ordered list of children and a cursor. Each tick advances the
/// cursor over one succeeding child; a failing child fails the sequence,
/// a pending child keeps it pending.
pub struct BTSequence<C, D> {
    pub nodes: Vec<C>,
    pub index: usize,
    pub decorators: Vec<D>,
}

impl<C, D> BTSequence<C, D> {
    pub fn new(nodes: Vec<C>) -> (r: BTSequence<C, D>)
        ensures
            r.nodes@ == nodes@,
            r.index == 0,
            r.decorators@.len() == 0,
    {
        BTSequence { nodes, index: 0, decorators: Vec::new() }
    }
}

impl<B, C: BTNode<B>, D: BTDecorator<B>> BTNode<B> for BTSequence<C, D> {
    open spec fn tick_rel(pre: Self, preb: B, post: Self, postb: B, r: BTResult) -> bool {
        &&& post.decorators@ == pre.decorators@
        &&& if !decorators_pass(pre.decorators@, preb) {
            r == BTResult::Failure && post.nodes@ == pre.nodes@ && post.index == pre.index
                && postb == preb
        } else if pre.index >= pre.nodes@.len() {
            r == BTResult::Failure && post.nodes@ == pre.nodes@ && post.index == pre.index
                && postb == preb
        } else {
            exists|cpost: C, cr: BTResult|
                {
                    &&& #[trigger] C::tick_rel(pre.nodes@[pre.index as int], preb, cpost, postb, cr)
                    &&& post.nodes@ == pre.nodes@.update(pre.index as int, cpost)
                    &&& match cr {
                        BTResult::Success => {
                            &&& post.index == pre.index + 1
                            &&& r == if pre.index + 1 < pre.nodes@.len() {
                                BTResult::Pending
                            } else {
                                BTResult::Success
                            }
                        },
                        BTResult::Pending => post.index == pre.index && r == BTResult::Pending,
                        BTResult::Failure => post.index == pre.index && r == BTResult::Failure,
                    }
                }
        }
    }

    open spec fn reset_rel(pre: Self, post: Self) -> bool {
        &&& post.decorators@ == pre.decorators@
        &&& post.index == 0
        &&& post.nodes@.len() == pre.nodes@.len()
        &&& forall|i: int|
            0 <= i < pre.nodes@.len() ==> #[trigger] C::reset_rel(pre.nodes@[i], post.nodes@[i])
    }

    fn tick(&mut self, blackboard: &mut B) -> (r: BTResult) {
        if let BTDecoratorResult::Failure = check_decorators(&self.decorators, blackboard) {
            return BTResult::Failure;
        }
        let len = self.nodes.len();
        if self.index >= len {
            return BTResult::Failure;
        }
        let at = self.index;
        let mut child = self.nodes.remove(at);
        let cr = child.tick(blackboard);
        self.nodes.insert(at, child);
        proof {
            assert(self.nodes@ =~= old(self).nodes@.update(at as int, child));
        }
        match cr {
            BTResult::Success => {
                self.index = at + 1;
                if self.index < len {
                    BTResult::Pending
                } else {
                    BTResult::Success
                }
            },
            BTResult::Pending => BTResult::Pending,
            BTResult::Failure => BTResult::Failure,
        }
    }

    fn reset(&mut self) {
        self.index = 0;
        let len = self.nodes.len();
        let mut i: usize = 0;
        while i < len
            invariant
                i <= len,
                len == self.nodes@.len(),
                self.nodes@.len() == old(self).nodes@.len(),
                self.index == 0,
                self.decorators@ == old(self).decorators@,
                forall|j: int|
                    0 <= j < i ==> #[trigger] C::reset_rel(old(self).nodes@[j], self.nodes@[j]),
                forall|j: int| i <= j < len ==> self.nodes@[j] == old(self).nodes@[j],
            decreases len - i,
        {
            let mut child = self.nodes.remove(i);
            child.reset();
            self.nodes.insert(i, child);
            proof {
                assert(forall|j: int|
                    0 <= j < i ==> #[trigger] C::reset_rel(old(self).nodes@[j], self.nodes@[j]));
            }
            i += 1;
        }
    }
}

/// Retries a failing child: without a counter it retries forever; with
/// one, each failure consumes a retry until none is left.
pub struct BTRepeat<C, D> {
    pub node: C,
    pub counter: Option<u32>,
    pub decorators: Vec<D>,
}

impl<C, D> BTRepeat<C, D> {
    pub fn new(counter: Option<u32>, node: C) -> (r: BTRepeat<C, D>)
        ensures
            r.node == node,
            r.counter == counter,
            r.decorators@.len() == 0,
    {
        BTRepeat { node, counter, decorators: Vec::new() }
    }
}

impl<B, C: BTNode<B>, D: BTDecorator<B>> BTNode<B> for BTRepeat<C, D> {
    open spec fn tick_rel(pre: Self, preb: B, post: Self, postb: B, r: BTResult) -> bool {
        &&& post.decorators@ == pre.decorators@
        &&& if !decorators_pass(pre.decorators@, preb) {
            r == BTResult::Failure && post.node == pre.node && post.counter == pre.counter
                && postb == preb
        } else {
            exists|cpost: C, cr: BTResult|
                {
                    &&& #[trigger] C::tick_rel(pre.node, preb, cpost, postb, cr)
                    &&& match cr {
                        BTResult::Failure => match pre.counter {
                            Some(v) => if v > 0 {
                                &&& post.counter == Some((v - 1) as u32)
                                &&& C::reset_rel(cpost, post.node)
                                &&& r == BTResult::Pending
                            } else {
                                &&& post.counter == pre.counter
                                &&& post.node == cpost
                                &&& r == BTResult::Failure
                            },
                            None => {
                                &&& post.counter == pre.counter
                                &&& C::reset_rel(cpost, post.node)
                                &&& r == BTResult::Pending
                            },
                        },
                        BTResult::Success => post.counter == pre.counter && post.node == cpost
                            && r == BTResult::Success,
                        BTResult::Pending => post.counter == pre.counter && post.node == cpost
                            && r == BTResult::Pending,
                    }
                }
        }
    }

    open spec fn reset_rel(pre: Self, post: Self) -> bool {
        &&& post.decorators@ == pre.decorators@
        &&& post.counter == pre.counter
        &&& C::reset_rel(pre.node, post.node)
    }

    fn tick(&mut self, blackboard: &mut B) -> (r: BTResult) {
        if let BTDecoratorResult::Failure = check_decorators(&self.decorators, blackboard) {
            return BTResult::Failure;
        }
        let cr = self.node.tick(blackboard);
        match cr {
            BTResult::Failure => match self.counter {
                Some(v) => {
                    if v > 0 {
                        self.counter = Some(v - 1);
                        self.node.reset();
                        BTResult::Pending
                    } else {
                        BTResult::Failure
                    }
                },
                None => {
                    self.node.reset();
                    BTResult::Pending
                },
            },
            BTResult::Success => BTResult::Success,
            BTResult::Pending => BTResult::Pending,
        }
    }

    fn reset(&mut self) {
        self.node.reset();
    }
}

/// The tree: a root node and the blackboard it reads and writes.
pub struct BehaviorTree<R, B> {
    pub blackboard: B,
    pub root: R,
}

impl<R, B> BehaviorTree<R, B> {
    pub fn new(root: R, blackboard: B) -> (r: BehaviorTree<R, B>)
        ensures
            r.root == root,
            r.blackboard == blackboard,
    {
        BehaviorTree { blackboard, root }
    }

    /// Read access to the blackboard between ticks.
    pub fn get_blackboard(&self) -> (r: &B)
        ensures
            r == self.blackboard,
    {
        &self.blackboard
    }

    /// Replace the blackboard (the scene snapshot) before a tick.
    pub fn set_blackboard(&mut self, blackboard: B)
        ensures
            final(self).blackboard == blackboard,
            final(self).root == old(self).root,
    {
        self.blackboard = blackboard;
    }
}

impl<R, B> BehaviorTree<R, B> where R: BTNode<B> {
    /// One traversal of the tree against its own blackboard.
    pub fn tick(&mut self) -> (r: BTResult)
        ensures
            R::tick_rel(
                old(self).root,
                old(self).blackboard,
                final(self).root,
                final(self).blackboard,
                r,
            ),
    {
        self.root.tick(&mut self.blackboard)
    }

    pub fn reset(&mut self)
        ensures
            R::reset_rel(old(self).root, final(self).root),
            final(self).blackboard == old(self).blackboard,
    {
        self.root.reset();
    }
}

} // verus!
