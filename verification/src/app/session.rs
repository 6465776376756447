//! Sessions: what holds of the navigator after any sequence of steps.

use crate::app::pagination::{lemma_motion_stays_in_range, Motion};
use crate::app::tree_page::TreePageView;
use crate::app::AppView;
use crate::objects::ObjectId;
use vstd::prelude::*;

verus! {

/// One step of a session: a change of the navigator's state.
pub ghost enum Step {
    /// The active page's cursor moves.
    Move(Motion),
    /// The page of a tree is pushed.
    OpenTree(TreePageView),
    /// A commit is entered and the page of its root tree is pushed.
    OpenCommit(ObjectId, TreePageView),
    /// The top page is popped.
    Back,
}

impl Step {
    /// The step pushes a page.
    pub open spec fn opens(self) -> bool {
        self is OpenTree || self is OpenCommit
    }
}

/// Number of steps of `steps` that push a page.
pub open spec fn opened(steps: Seq<Step>) -> nat
    decreases steps.len(),
{
    if steps.len() == 0 {
        0
    } else {
        opened(steps.drop_last()) + if steps.last().opens() {
            1nat
        } else {
            0nat
        }
    }
}

/// No step of `steps` goes back.
pub open spec fn descends(steps: Seq<Step>) -> bool {
    forall|i: int| 0 <= i < steps.len() ==> !(#[trigger] steps[i] is Back)
}

/// `times` steps back.
pub open spec fn backs(times: nat) -> Seq<Step> {
    Seq::new(times, |i: int| Step::Back)
}

impl AppView {
    /// The state after `step`.
    pub open spec fn step(self, step: Step) -> AppView {
        match step {
            Step::Move(motion) => self.moved(motion),
            Step::OpenTree(page) => self.pushed(page),
            Step::OpenCommit(commit, page) => self.entered(commit, page),
            Step::Back => self.popped(),
        }
    }

    /// The state after the steps of `steps`, first to last.
    pub open spec fn run(self, steps: Seq<Step>) -> AppView
        decreases steps.len(),
    {
        if steps.len() == 0 {
            self
        } else {
            self.run(steps.drop_last()).step(steps.last())
        }
    }

    /// Every cursor is on an entry of its page.
    pub open spec fn cursors_in_range(self) -> bool {
        &&& self.refs.in_range()
        &&& forall|i: int| 0 <= i < self.stack.len() ==> (#[trigger] self.stack[i]).list.in_range()
    }
}

/// The cursors of the pages that `steps` pushes are on entries of their
/// pages.
pub open spec fn opens_in_range(steps: Seq<Step>) -> bool {
    forall|i: int|
        0 <= i < steps.len() ==> match #[trigger] steps[i] {
            Step::OpenTree(page) => page.list.in_range(),
            Step::OpenCommit(_, page) => page.list.in_range(),
            _ => true,
        }
}

/// A step pushes at most one page and pops at most one: opening adds
/// exactly one page, going back removes exactly one unless the stack is
/// empty, and moving a cursor leaves the stack as deep as it was.
pub proof fn lemma_step_depth(state: AppView, step: Step)
    ensures
        step.opens() ==> state.step(step).depth() == state.depth() + 1,
        step is Back && state.depth() > 0 ==> state.step(step).depth() == state.depth() - 1,
        step is Back && state.depth() == 0 ==> state.step(step).depth() == 0,
        step is Move ==> state.step(step).depth() == state.depth(),
{
}

/// Whatever the steps, a commit is open only while the stack is not empty.
pub proof fn lemma_commit_needs_a_page(start: AppView, steps: Seq<Step>)
    requires
        start.consistent(),
    ensures
        start.run(steps).consistent(),
    decreases steps.len(),
{
    if steps.len() > 0 {
        lemma_commit_needs_a_page(start, steps.drop_last());
    }
}

/// Whatever the steps, every cursor stays on an entry of its page, provided
/// that the pages that are pushed start that way.
pub proof fn lemma_cursors_stay_in_range(start: AppView, steps: Seq<Step>)
    requires
        start.cursors_in_range(),
        opens_in_range(steps),
    ensures
        start.run(steps).cursors_in_range(),
    decreases steps.len(),
{
    if steps.len() > 0 {
        let earlier = steps.drop_last();
        assert(opens_in_range(earlier)) by {
            assert forall|i: int| 0 <= i < earlier.len() implies match #[trigger] earlier[i] {
                Step::OpenTree(page) => page.list.in_range(),
                Step::OpenCommit(_, page) => page.list.in_range(),
                _ => true,
            } by {
                assert(earlier[i] == steps[i]);
            }
        }
        lemma_cursors_stay_in_range(start, earlier);
        let before = start.run(earlier);
        assert(steps[steps.len() - 1] == steps.last());
        if let Step::Move(motion) = steps.last() {
            let active = before.active();
            lemma_motion_stays_in_range(active.cursor, motion, active.entries.len());
        }
    }
}

/// The state after the first `count` steps of `steps`.
pub open spec fn state_after(start: AppView, steps: Seq<Step>, count: int) -> AppView {
    start.run(steps.subrange(0, count))
}

/// Step `k` of `steps` opened a commit, and the stack has not been empty
/// since.
pub open spec fn open_since(start: AppView, steps: Seq<Step>, k: int) -> bool {
    &&& 0 <= k < steps.len()
    &&& steps[k] is OpenCommit
    &&& forall|j: int| k < j <= steps.len() ==> (#[trigger] state_after(start, steps, j)).depth() > 0
}

/// From an empty stack with no commit open, and whatever the steps: a commit
/// is open exactly if a step opened one and the stack has not been empty
/// since.
pub proof fn lemma_commit_open_iff_opened(start: AppView, steps: Seq<Step>)
    requires
        start.depth() == 0,
        start.commit is None,
    ensures
        start.run(steps).commit is Some <==> exists|k: int| open_since(start, steps, k),
    decreases steps.len(),
{
    let n: int = steps.len() as int;
    if n > 0 {
        let earlier = steps.drop_last();
        lemma_commit_open_iff_opened(start, earlier);
        assert(steps.subrange(0, n) =~= steps);
        assert(earlier.subrange(0, n - 1) =~= earlier);
        assert forall|j: int| 0 <= j < n implies #[trigger] state_after(start, earlier, j)
            == state_after(start, steps, j) by {
            assert(earlier.subrange(0, j) =~= steps.subrange(0, j));
        }
        let before = start.run(earlier);
        let after = start.run(steps);
        assert(after == state_after(start, steps, n));
        assert(before == state_after(start, earlier, n - 1));
        if after.commit is Some {
            if steps.last() is OpenCommit {
                assert(open_since(start, steps, n - 1));
            } else {
                let k = choose|k: int| open_since(start, earlier, k);
                assert(steps[k] == earlier[k]);
                assert forall|j: int| k < j <= n implies (#[trigger] state_after(
                    start,
                    steps,
                    j,
                )).depth() > 0 by {
                    if j < n {
                        assert(state_after(start, earlier, j).depth() > 0);
                    }
                }
                assert(open_since(start, steps, k));
            }
        } else {
            if exists|k: int| open_since(start, steps, k) {
                let k = choose|k: int| open_since(start, steps, k);
                assert(state_after(start, steps, n).depth() > 0);
                if k < n - 1 {
                    assert(earlier[k] == steps[k]);
                    assert forall|j: int| k < j <= n - 1 implies (#[trigger] state_after(
                        start,
                        earlier,
                        j,
                    )).depth() > 0 by {
                        assert(state_after(start, steps, j).depth() > 0);
                    }
                    assert(open_since(start, earlier, k));
                }
            }
        }
    } else {
        assert(steps.subrange(0, 0) =~= steps);
    }
}

/// A descent makes the stack deeper by the number of pages that it opens,
/// and leaves the search input and the references as they were.
pub proof fn lemma_descent_depth(start: AppView, descent: Seq<Step>)
    requires
        descends(descent),
    ensures
        start.run(descent).depth() == start.depth() + opened(descent),
        start.run(descent).search_input == start.search_input,
        start.run(descent).refs.entries == start.refs.entries,
        start.run(descent).refs.title == start.refs.title,
    decreases descent.len(),
{
    if descent.len() > 0 {
        let earlier = descent.drop_last();
        assert(descends(earlier)) by {
            assert forall|i: int| 0 <= i < earlier.len() implies !(#[trigger] earlier[i]
                is Back) by {
                assert(earlier[i] == descent[i]);
            }
        }
        lemma_descent_depth(start, earlier);
        assert(!(descent[descent.len() - 1] is Back));
    }
}

/// Going back `times` times removes `times` pages, or all of them if there
/// are fewer. The commit is closed when the last page goes; the reference
/// list and the search input are untouched.
pub proof fn lemma_backs(state: AppView, times: nat)
    ensures
        state.run(backs(times)).depth() == if state.depth() >= times {
            state.depth() - times
        } else {
            0
        },
        times > 0 && state.depth() <= times ==> state.run(backs(times)).commit is None,
        state.run(backs(times)).refs == state.refs,
        state.run(backs(times)).search_input == state.search_input,
    decreases times,
{
    if times > 0 {
        let fewer: nat = (times - 1) as nat;
        assert(backs(times).drop_last() =~= backs(fewer));
        assert(backs(times).last() == Step::Back);
        lemma_backs(state, fewer);
    }
}

/// Round trip: from an empty stack with no commit open, any descent, with
/// whatever pages, commits and cursor movements, followed by as many steps
/// back as it opened pages, ends with an empty stack and no commit open, on
/// the same references.
pub proof fn lemma_round_trip(start: AppView, descent: Seq<Step>)
    requires
        start.depth() == 0,
        start.commit is None,
        descends(descent),
    ensures
        start.run(descent).run(backs(opened(descent))).depth() == 0,
        start.run(descent).run(backs(opened(descent))).commit is None,
        start.run(descent).run(backs(opened(descent))).search_input == start.search_input,
        start.run(descent).run(backs(opened(descent))).refs.entries == start.refs.entries,
        start.run(descent).run(backs(opened(descent))).refs.title == start.refs.title,
{
    lemma_descent_depth(start, descent);
    lemma_commit_needs_a_page(start, descent);
    lemma_backs(start.run(descent), opened(descent));
}

} // verus!
