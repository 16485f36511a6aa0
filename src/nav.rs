//! The page stack as a state machine: each navigation command becomes a new stack,
//! a new dirty flag, and the exact sequence of lifecycle steps the loop must perform.
use crate::router::RouterAction;
use vstd::prelude::*;

verus! {

/// How a page on the stack was constructed.
#[derive(Clone, Copy, Debug, PartialEq, Eq)]
pub enum PageOrigin<ID> {
    /// The default page, built with no identifier.
    Initial,
    /// A page built for an identifier.
    Named(ID),
}

/// One unit of work for the loop: a change to its page stack together with one hook call.
#[derive(Clone, Copy, Debug, PartialEq, Eq)]
pub enum Step<ID> {
    /// Call `on_pause` on the current page.
    Pause,
    /// Call `on_resume` on the current page.
    Resume,
    /// Remove the current page and call `on_exit` on it.
    ExitTop,
    /// Remove the page directly under the current one and call `on_exit` on it.
    ExitBelowTop,
    /// Construct a page, call `on_enter` on it, and put it on top.
    Enter(PageOrigin<ID>),
}

/// A lifecycle hook.
#[derive(Clone, Copy, Debug, PartialEq, Eq)]
pub enum Hook {
    Enter,
    Exit,
    Pause,
    Resume,
}

/// A hook call as observed: which hook, the stack position of the page, and the page.
pub struct HookCall<ID> {
    pub hook: Hook,
    pub position: int,
    pub page: PageOrigin<ID>,
}

/// The stack that a command leaves behind.
pub open spec fn stack_after<ID>(s: Seq<PageOrigin<ID>>, a: RouterAction<ID>) -> Seq<PageOrigin<ID>> {
    match a {
        RouterAction::PUSH(id) => s.push(PageOrigin::Named(id)),
        RouterAction::REPLACE(id) => s.drop_last().push(PageOrigin::Named(id)),
        RouterAction::BACK => if s.len() > 1 { s.drop_last() } else { s },
        RouterAction::CLEAR => seq![s.last()],
        RouterAction::RESTART => seq![PageOrigin::Initial],
        RouterAction::EXIT => Seq::empty(),
        RouterAction::REDRAW => s,
    }
}

/// The dirty flag that a command leaves behind: every command sets it, but `BACK`
/// on a single page, which changes nothing.
pub open spec fn dirty_after<ID>(s: Seq<PageOrigin<ID>>, dirty: bool, a: RouterAction<ID>) -> bool {
    match a {
        RouterAction::BACK => if s.len() > 1 { true } else { dirty },
        _ => true,
    }
}

/// `n` copies of one step.
pub open spec fn repeat<ID>(step: Step<ID>, n: nat) -> Seq<Step<ID>> {
    Seq::new(n, |k: int| step)
}

/// The steps that carry out a command on stack `s`, in order.
pub open spec fn plan<ID>(s: Seq<PageOrigin<ID>>, a: RouterAction<ID>) -> Seq<Step<ID>> {
    match a {
        RouterAction::PUSH(id) => seq![Step::Pause, Step::Enter(PageOrigin::Named(id))],
        RouterAction::REPLACE(id) => seq![Step::ExitTop, Step::Enter(PageOrigin::Named(id))],
        RouterAction::BACK => if s.len() > 1 { seq![Step::ExitTop, Step::Resume] } else { seq![] },
        RouterAction::CLEAR => repeat(Step::ExitBelowTop, (s.len() - 1) as nat),
        RouterAction::RESTART => repeat(Step::ExitTop, s.len()).push(Step::Enter(PageOrigin::Initial)),
        RouterAction::EXIT => repeat(Step::ExitTop, s.len()),
        RouterAction::REDRAW => seq![],
    }
}

/// Whether a step can be performed on stack `s`.
pub open spec fn step_enabled<ID>(s: Seq<PageOrigin<ID>>, step: Step<ID>) -> bool {
    match step {
        Step::ExitBelowTop => s.len() >= 2,
        Step::Enter(_) => true,
        _ => s.len() >= 1,
    }
}

/// The stack after one step.
pub open spec fn step_stack<ID>(s: Seq<PageOrigin<ID>>, step: Step<ID>) -> Seq<PageOrigin<ID>> {
    match step {
        Step::Pause => s,
        Step::Resume => s,
        Step::ExitTop => s.drop_last(),
        Step::ExitBelowTop => s.subrange(0, s.len() - 2).push(s.last()),
        Step::Enter(o) => s.push(o),
    }
}

/// The hook call that one step makes.
pub open spec fn step_hook<ID>(s: Seq<PageOrigin<ID>>, step: Step<ID>) -> HookCall<ID> {
    match step {
        Step::Pause => HookCall { hook: Hook::Pause, position: s.len() - 1, page: s.last() },
        Step::Resume => HookCall { hook: Hook::Resume, position: s.len() - 1, page: s.last() },
        Step::ExitTop => HookCall { hook: Hook::Exit, position: s.len() - 1, page: s.last() },
        Step::ExitBelowTop => HookCall { hook: Hook::Exit, position: s.len() - 2, page: s[s.len() - 2] },
        Step::Enter(o) => HookCall { hook: Hook::Enter, position: s.len() as int, page: o },
    }
}

/// Whether every step of `steps` can be performed in turn, starting from `s`.
pub open spec fn steps_enabled<ID>(s: Seq<PageOrigin<ID>>, steps: Seq<Step<ID>>) -> bool
    decreases steps.len(),
{
    steps.len() == 0 || (step_enabled(s, steps[0]) && steps_enabled(
        step_stack(s, steps[0]),
        steps.drop_first(),
    ))
}

/// The stack after performing `steps` in turn, starting from `s`.
pub open spec fn run_stack<ID>(s: Seq<PageOrigin<ID>>, steps: Seq<Step<ID>>) -> Seq<PageOrigin<ID>>
    decreases steps.len(),
{
    if steps.len() == 0 {
        s
    } else {
        run_stack(step_stack(s, steps[0]), steps.drop_first())
    }
}

/// The hook calls made by performing `steps` in turn, starting from `s`, in order.
pub open spec fn run_hooks<ID>(s: Seq<PageOrigin<ID>>, steps: Seq<Step<ID>>) -> Seq<HookCall<ID>>
    decreases steps.len(),
{
    if steps.len() == 0 {
        Seq::empty()
    } else {
        seq![step_hook(s, steps[0])] + run_hooks(step_stack(s, steps[0]), steps.drop_first())
    }
}

/// `n` exit calls made top-down, starting at position `top` of stack `s`.
pub open spec fn exits_down<ID>(s: Seq<PageOrigin<ID>>, top: int, n: nat) -> Seq<HookCall<ID>> {
    Seq::new(n, |k: int| HookCall { hook: Hook::Exit, position: top - k, page: s[top - k] })
}

/// The hook calls that a command makes on stack `s`, in order.
pub open spec fn hooks_of<ID>(s: Seq<PageOrigin<ID>>, a: RouterAction<ID>) -> Seq<HookCall<ID>> {
    let top = s.len() - 1;
    match a {
        RouterAction::PUSH(id) => seq![
            HookCall { hook: Hook::Pause, position: top, page: s.last() },
            HookCall { hook: Hook::Enter, position: s.len() as int, page: PageOrigin::Named(id) },
        ],
        RouterAction::REPLACE(id) => seq![
            HookCall { hook: Hook::Exit, position: top, page: s.last() },
            HookCall { hook: Hook::Enter, position: top, page: PageOrigin::Named(id) },
        ],
        RouterAction::BACK => if s.len() > 1 {
            seq![
                HookCall { hook: Hook::Exit, position: top, page: s.last() },
                HookCall { hook: Hook::Resume, position: top - 1, page: s[top - 1] },
            ]
        } else {
            seq![]
        },
        RouterAction::CLEAR => exits_down(s, top - 1, (s.len() - 1) as nat),
        RouterAction::RESTART => exits_down(s, top, s.len()).push(
            HookCall { hook: Hook::Enter, position: 0, page: PageOrigin::Initial },
        ),
        RouterAction::EXIT => exits_down(s, top, s.len()),
        RouterAction::REDRAW => seq![],
    }
}

/// The stack and dirty flag after a sequence of commands, applied in order.
pub open spec fn apply_all<ID>(s: Seq<PageOrigin<ID>>, dirty: bool, acts: Seq<RouterAction<ID>>) -> (
    Seq<PageOrigin<ID>>,
    bool,
)
    decreases acts.len(),
{
    if acts.len() == 0 {
        (s, dirty)
    } else {
        apply_all(stack_after(s, acts[0]), dirty_after(s, dirty, acts[0]), acts.drop_first())
    }
}

/// The draw check made before each wait: whether it draws, and the dirty flag after it.
pub open spec fn draw_check(dirty: bool) -> (bool, bool) {
    (dirty, false)
}

proof fn lemma_exit_tops<ID>(s: Seq<PageOrigin<ID>>, n: nat)
    requires
        n <= s.len(),
    ensures
        steps_enabled(s, repeat(Step::ExitTop, n)),
        run_stack(s, repeat(Step::ExitTop, n)) == s.subrange(0, s.len() - n),
        run_hooks(s, repeat(Step::ExitTop, n)) == exits_down(s, s.len() - 1, n),
    decreases n,
{
    let steps = repeat(Step::<ID>::ExitTop, n);
    if n == 0 {
        assert(s.subrange(0, s.len() as int) =~= s);
        assert(exits_down(s, s.len() - 1, n) =~= Seq::empty());
    } else {
        let t = s.drop_last();
        assert(steps.drop_first() =~= repeat(Step::<ID>::ExitTop, (n - 1) as nat));
        lemma_exit_tops(t, (n - 1) as nat);
        assert(t.subrange(0, t.len() - (n - 1)) =~= s.subrange(0, s.len() - n));
        assert(run_hooks(s, steps) =~= exits_down(s, s.len() - 1, n));
    }
}

proof fn lemma_exit_belows<ID>(s: Seq<PageOrigin<ID>>, n: nat)
    requires
        n + 1 <= s.len(),
    ensures
        steps_enabled(s, repeat(Step::ExitBelowTop, n)),
        run_stack(s, repeat(Step::ExitBelowTop, n)) == s.subrange(0, s.len() - 1 - n).push(s.last()),
        run_hooks(s, repeat(Step::ExitBelowTop, n)) == exits_down(s, s.len() - 2, n),
    decreases n,
{
    let steps = repeat(Step::<ID>::ExitBelowTop, n);
    if n == 0 {
        assert(s.subrange(0, s.len() - 1).push(s.last()) =~= s);
        assert(exits_down(s, s.len() - 2, n) =~= Seq::empty());
    } else {
        let t = s.subrange(0, s.len() - 2).push(s.last());
        assert(steps.drop_first() =~= repeat(Step::<ID>::ExitBelowTop, (n - 1) as nat));
        lemma_exit_belows(t, (n - 1) as nat);
        assert(t.subrange(0, t.len() - 1 - (n - 1)) =~= s.subrange(0, s.len() - 1 - n));
        assert(run_hooks(s, steps) =~= exits_down(s, s.len() - 2, n));
    }
}

/// Carrying out the plan of a command is always possible on a non-empty stack, leaves
/// exactly the stack that the command describes, and makes exactly the hook calls that
/// the command describes, in that order.
pub proof fn lemma_plan_carries_out<ID>(s: Seq<PageOrigin<ID>>, a: RouterAction<ID>)
    requires
        s.len() >= 1,
    ensures
        steps_enabled(s, plan(s, a)),
        run_stack(s, plan(s, a)) == stack_after(s, a),
        run_hooks(s, plan(s, a)) == hooks_of(s, a),
{
    reveal_with_fuel(steps_enabled, 3);
    reveal_with_fuel(run_stack, 3);
    reveal_with_fuel(run_hooks, 3);
    let p = plan(s, a);
    match a {
        RouterAction::PUSH(id) => {
            assert(p.drop_first().drop_first() =~= Seq::<Step<ID>>::empty());
            assert(run_hooks(s, p) =~= hooks_of(s, a));
        },
        RouterAction::REPLACE(id) => {
            assert(p.drop_first().drop_first() =~= Seq::<Step<ID>>::empty());
            assert(run_hooks(s, p) =~= hooks_of(s, a));
        },
        RouterAction::BACK => {
            if s.len() > 1 {
                assert(p.drop_first().drop_first() =~= Seq::<Step<ID>>::empty());
                assert(run_hooks(s, p) =~= hooks_of(s, a));
            }
        },
        RouterAction::CLEAR => {
            lemma_exit_belows(s, (s.len() - 1) as nat);
            assert(s.subrange(0, 0).push(s.last()) =~= seq![s.last()]);
        },
        RouterAction::RESTART => {
            lemma_run_then_enter(s, repeat(Step::ExitTop, s.len()), PageOrigin::Initial);
            lemma_exit_tops(s, s.len());
            assert(s.subrange(0, 0).push(PageOrigin::<ID>::Initial) =~= seq![PageOrigin::Initial]);
        },
        RouterAction::EXIT => {
            lemma_exit_tops(s, s.len());
            assert(s.subrange(0, 0) =~= Seq::<PageOrigin<ID>>::empty());
        },
        RouterAction::REDRAW => {},
    }
}

proof fn lemma_run_then_enter<ID>(s: Seq<PageOrigin<ID>>, steps: Seq<Step<ID>>, o: PageOrigin<ID>)
    ensures
        steps_enabled(s, steps) ==> steps_enabled(s, steps.push(Step::Enter(o))),
        run_stack(s, steps.push(Step::Enter(o))) == run_stack(s, steps).push(o),
        run_hooks(s, steps.push(Step::Enter(o))) == run_hooks(s, steps).push(
            HookCall { hook: Hook::Enter, position: run_stack(s, steps).len() as int, page: o },
        ),
    decreases steps.len(),
{
    let q = steps.push(Step::Enter(o));
    if steps.len() == 0 {
        reveal_with_fuel(steps_enabled, 2);
        reveal_with_fuel(run_stack, 2);
        reveal_with_fuel(run_hooks, 2);
        assert(q.drop_first() =~= Seq::<Step<ID>>::empty());
        assert(run_hooks(s, q) =~= run_hooks(s, steps).push(
            HookCall { hook: Hook::Enter, position: run_stack(s, steps).len() as int, page: o },
        ));
    } else {
        let t = step_stack(s, steps[0]);
        assert(q.drop_first() =~= steps.drop_first().push(Step::Enter(o)));
        lemma_run_then_enter(t, steps.drop_first(), o);
        assert(run_hooks(s, q) =~= run_hooks(s, steps).push(
            HookCall { hook: Hook::Enter, position: run_stack(s, steps).len() as int, page: o },
        ));
    }
}

/// Stack length after each command: one more after `PUSH`, unchanged after `REPLACE` and
/// `REDRAW`, one less but never under one after `BACK`, one after `CLEAR`, one default
/// page after `RESTART`, and none after `EXIT`.
pub proof fn lemma_stack_lengths<ID>(s: Seq<PageOrigin<ID>>, a: RouterAction<ID>)
    requires
        s.len() >= 1,
    ensures
        a is PUSH ==> stack_after(s, a).len() == s.len() + 1,
        a is REPLACE ==> stack_after(s, a).len() == s.len(),
        a is BACK ==> stack_after(s, a).len() == if s.len() > 1 { s.len() - 1 } else { 1 },
        a is CLEAR ==> stack_after(s, a).len() == 1,
        a is RESTART ==> stack_after(s, a) == seq![PageOrigin::<ID>::Initial],
        a is EXIT ==> stack_after(s, a).len() == 0,
        a is REDRAW ==> stack_after(s, a) == s,
{
}

/// `BACK` on a single page is a no-op: no steps, no hook calls, the same stack, and the
/// dirty flag as it was.
pub proof fn lemma_back_on_single_page<ID>(s: Seq<PageOrigin<ID>>, dirty: bool)
    requires
        s.len() == 1,
    ensures
        plan(s, RouterAction::BACK) == Seq::<Step<ID>>::empty(),
        run_hooks(s, plan(s, RouterAction::BACK)) == Seq::<HookCall<ID>>::empty(),
        stack_after(s, RouterAction::BACK) == s,
        dirty_after(s, dirty, RouterAction::BACK) == dirty,
{
    assert(plan(s, RouterAction::BACK) =~= Seq::<Step<ID>>::empty());
}

/// Hook order: `PUSH` pauses the old current page strictly before entering the new one;
/// `REPLACE` exits before it enters; `CLEAR` exits the removed pages from the top down and
/// calls no hook on the page that stays, which ends up alone at the bottom.
pub proof fn lemma_hook_order<ID>(s: Seq<PageOrigin<ID>>, a: RouterAction<ID>)
    requires
        s.len() >= 1,
    ensures
        a matches RouterAction::PUSH(id) ==> run_hooks(s, plan(s, a)) == seq![
            HookCall { hook: Hook::Pause, position: s.len() - 1, page: s.last() },
            HookCall { hook: Hook::Enter, position: s.len() as int, page: PageOrigin::Named(id) },
        ],
        a matches RouterAction::REPLACE(id) ==> run_hooks(s, plan(s, a)) == seq![
            HookCall { hook: Hook::Exit, position: s.len() - 1, page: s.last() },
            HookCall { hook: Hook::Enter, position: s.len() - 1, page: PageOrigin::Named(id) },
        ],
        a is CLEAR ==> {
            let h = run_hooks(s, plan(s, a));
            &&& h.len() == s.len() - 1
            &&& forall|k: int|
                0 <= k < h.len() ==> h[k].hook == Hook::Exit && h[k].position == s.len() - 2 - k
                    && h[k].page == s[s.len() - 2 - k]
            &&& stack_after(s, a) == seq![s.last()]
        },
{
    lemma_plan_carries_out(s, a);
}

/// Redraw coalescing: any number `n >= 1` of `REDRAW` commands between two draw checks
/// leave the stack as it was and owe exactly one draw: the first check draws, the next
/// one does not.
pub proof fn lemma_redraws_coalesce<ID>(s: Seq<PageOrigin<ID>>, dirty: bool, n: nat)
    requires
        n >= 1,
    ensures
        ({
            let (s2, d2) = apply_all(s, dirty, Seq::new(n, |k: int| RouterAction::<ID>::REDRAW));
            let first = draw_check(d2);
            &&& s2 == s
            &&& first.0
            &&& !draw_check(first.1).0
        }),
    decreases n,
{
    let acts = Seq::new(n, |k: int| RouterAction::<ID>::REDRAW);
    if n == 1 {
        reveal_with_fuel(apply_all, 2);
        assert(acts.drop_first() =~= Seq::<RouterAction<ID>>::empty());
    } else {
        assert(acts.drop_first() =~= Seq::new((n - 1) as nat, |k: int| RouterAction::<ID>::REDRAW));
        lemma_redraws_coalesce(s, true, (n - 1) as nat);
    }
}

/// The navigation state owned by the loop: the page stack (tail is current) and the dirty flag.
pub struct Navigator<ID> {
    pages: Vec<PageOrigin<ID>>,
    dirty: bool,
}

impl<ID: Copy> Navigator<ID> {
    /// The page stack, bottom first.
    pub closed spec fn stack(&self) -> Seq<PageOrigin<ID>> {
        self.pages@
    }

    /// Whether a draw is owed before the next wait.
    pub closed spec fn dirty(&self) -> bool {
        self.dirty
    }

    /// A navigator holding the default page, with a draw owed, and the step that enters it.
    pub fn start() -> (r: (Self, Vec<Step<ID>>))
        ensures
            r.0.stack() == seq![PageOrigin::<ID>::Initial],
            r.0.dirty(),
            r.1@ == seq![Step::<ID>::Enter(PageOrigin::Initial)],
            run_stack(Seq::empty(), r.1@) == r.0.stack(),
    {
        let nav = Navigator { pages: vec![PageOrigin::Initial], dirty: true };
        let steps = vec![Step::Enter(PageOrigin::Initial)];
        proof {
            assert(run_stack(Seq::<PageOrigin<ID>>::empty(), steps@) =~= nav.pages@) by {
                reveal_with_fuel(run_stack, 2);
            }
        }
        (nav, steps)
    }

    /// Number of pages on the stack; zero once the loop has exited.
    pub fn len(&self) -> (r: usize)
        ensures
            r == self.stack().len(),
    {
        self.pages.len()
    }

    /// Whether the loop goes on: some page is still on the stack.
    pub fn is_running(&self) -> (r: bool)
        ensures
            r == (self.stack().len() > 0),
    {
        self.pages.len() > 0
    }

    /// Whether a draw is owed before the next wait.
    pub fn is_dirty(&self) -> (r: bool)
        ensures
            r == self.dirty(),
    {
        self.dirty
    }

    /// The current page, if any.
    pub fn current(&self) -> (r: Option<PageOrigin<ID>>)
        ensures
            self.stack().len() == 0 ==> r is None,
            self.stack().len() > 0 ==> r == Some(self.stack().last()),
    {
        if self.pages.len() == 0 {
            None
        } else {
            Some(self.pages[self.pages.len() - 1])
        }
    }

    /// Notes an input event: a resize always owes a draw.
    pub fn note_input(&mut self, is_resize: bool)
        ensures
            final(self).stack() == old(self).stack(),
            final(self).dirty() == (old(self).dirty() || is_resize),
    {
        if is_resize {
            self.dirty = true;
        }
    }

    /// The draw check made once per iteration before waiting: reports whether a draw
    /// is owed and clears the flag.
    pub fn take_draw(&mut self) -> (r: bool)
        ensures
            r == old(self).dirty(),
            !final(self).dirty(),
            final(self).stack() == old(self).stack(),
    {
        let r = self.dirty;
        self.dirty = false;
        r
    }
    /// Applies one command: returns the steps the loop must perform, in order, to carry it out.
    pub fn apply(&mut self, action: RouterAction<ID>) -> (steps: Vec<Step<ID>>)
        requires
            old(self).stack().len() >= 1,
        ensures
            final(self).stack() == stack_after(old(self).stack(), action),
            final(self).dirty() == dirty_after(old(self).stack(), old(self).dirty(), action),
            steps@ == plan(old(self).stack(), action),
            steps_enabled(old(self).stack(), steps@),
            run_stack(old(self).stack(), steps@) == final(self).stack(),
            run_hooks(old(self).stack(), steps@) == hooks_of(old(self).stack(), action),
    {
        proof {
            lemma_plan_carries_out(self.pages@, action);
        }
        let n = self.pages.len();
        match action {
            RouterAction::PUSH(id) => {
                self.pages.push(PageOrigin::Named(id));
                self.dirty = true;
                vec![Step::Pause, Step::Enter(PageOrigin::Named(id))]
            },
            RouterAction::REPLACE(id) => {
                self.pages.pop();
                self.pages.push(PageOrigin::Named(id));
                self.dirty = true;
                vec![Step::ExitTop, Step::Enter(PageOrigin::Named(id))]
            },
            RouterAction::BACK => {
                if n > 1 {
                    self.pages.pop();
                    self.dirty = true;
                    vec![Step::ExitTop, Step::Resume]
                } else {
                    Vec::new()
                }
            },
            RouterAction::CLEAR => {
                let top = self.pages[n - 1];
                let steps = repeat_step(Step::ExitBelowTop, n - 1);
                self.pages = vec![top];
                self.dirty = true;
                steps
            },
            RouterAction::RESTART => {
                let mut steps = repeat_step(Step::ExitTop, n);
                steps.push(Step::Enter(PageOrigin::Initial));
                self.pages = vec![PageOrigin::Initial];
                self.dirty = true;
                steps
            },
            RouterAction::EXIT => {
                self.pages = Vec::new();
                self.dirty = true;
                repeat_step(Step::ExitTop, n)
            },
            RouterAction::REDRAW => {
                self.dirty = true;
                Vec::new()
            },
        }
    }
}

/// `n` copies of one step, as a vector.
fn repeat_step<ID: Copy>(step: Step<ID>, n: usize) -> (r: Vec<Step<ID>>)
    ensures
        r@ == repeat(step, n as nat),
{
    let mut r: Vec<Step<ID>> = Vec::new();
    let mut i: usize = 0;
    while i < n
        invariant
            i <= n,
            r@ == repeat(step, i as nat),
        decreases n - i,
    {
        r.push(step);
        i = i + 1;
        assert(r@ =~= repeat(step, i as nat));
    }
    r
}

} // verus!
