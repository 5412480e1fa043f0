//! The step stack machine, abstractly: opening a step pushes a fresh node,
//! closing one moves the top of the stack into its parent's children (or
//! into the roots). For any properly nested sequence of start and finish
//! calls — the serialization of a forest — the machine reproduces exactly
//! that forest, in call order.

use vstd::prelude::*;

use crate::enums::Status;
use crate::model::StepResult;

verus! {

/// The shape of one step: its name, its status, and its children's shapes,
/// in order.
pub struct StepTree {
    /// Step name.
    pub name: Seq<char>,
    /// Step status.
    pub status: Status,
    /// Shapes of the nested steps, in the order they finished.
    pub kids: Seq<StepTree>,
}

/// The machine's state: the shapes of the finished top-level steps and of
/// the open steps, innermost last.
pub struct MachineState {
    /// Shapes of the finished top-level steps.
    pub roots: Seq<StepTree>,
    /// Shapes of the open steps, outermost first.
    pub stack: Seq<StepTree>,
}

/// One call against the step machine.
pub enum StepEvent {
    /// A step opens under the given name.
    Start {
        /// The new step's name.
        name: Seq<char>,
    },
    /// The most recently opened step closes with the given status.
    Finish {
        /// The closing status.
        status: Status,
    },
}

/// The shapes of the first `n` steps of a sequence.
pub open spec fn shapes_to(ss: Seq<StepResult>, n: int) -> Seq<StepTree>
    decreases ss, 0int, n,
{
    if n <= 0 || n > ss.len() {
        Seq::empty()
    } else {
        shapes_to(ss, n - 1).push(shape_of(ss[n - 1]))
    }
}

/// The shape of one step, nested steps included.
pub open spec fn shape_of(s: StepResult) -> StepTree
    decreases s, 1int, 0int,
{
    StepTree { name: s.name@, status: s.status, kids: shapes_to(s.steps@, s.steps@.len() as int) }
}

/// The shapes of a step sequence.
pub open spec fn shapes(ss: Seq<StepResult>) -> Seq<StepTree> {
    shapes_to(ss, ss.len() as int)
}

/// The machine state a context stands in: the shapes of its root's steps and
/// of its open stack.
pub open spec fn machine_of(root_steps: Seq<StepResult>, stack: Seq<StepResult>) -> MachineState {
    MachineState { roots: shapes(root_steps), stack: shapes(stack) }
}

/// One transition: a start pushes a fresh open node; a finish pops the top,
/// stamps the status, and appends it to the new top's children, or to the
/// roots when the stack empties; a finish on an empty stack changes nothing.
pub open spec fn step1(m: MachineState, e: StepEvent) -> MachineState {
    match e {
        StepEvent::Start { name } => MachineState {
            roots: m.roots,
            stack: m.stack.push(StepTree { name, status: Status::Unknown, kids: Seq::empty() }),
        },
        StepEvent::Finish { status } => {
            if m.stack.len() == 0 {
                m
            } else {
                let closed = StepTree { status, ..m.stack.last() };
                if m.stack.len() == 1 {
                    MachineState { roots: m.roots.push(closed), stack: m.stack.drop_last() }
                } else {
                    let parent = m.stack[m.stack.len() - 2];
                    let parent2 = StepTree { kids: parent.kids.push(closed), ..parent };
                    MachineState {
                        roots: m.roots,
                        stack: m.stack.drop_last().update(m.stack.len() - 2, parent2),
                    }
                }
            }
        },
    }
}

/// The machine run over a sequence of events.
pub open spec fn run(m: MachineState, evs: Seq<StepEvent>) -> MachineState
    decreases evs.len(),
{
    if evs.len() == 0 {
        m
    } else {
        run(step1(m, evs[0]), evs.drop_first())
    }
}

/// The events that build the first `n` trees of a forest, in order.
pub open spec fn events_of_forest_to(ts: Seq<StepTree>, n: int) -> Seq<StepEvent>
    decreases ts, 0int, n,
{
    if n <= 0 || n > ts.len() {
        Seq::empty()
    } else {
        events_of_forest_to(ts, n - 1) + events_of_tree(ts[n - 1])
    }
}

/// The events that build one tree: its start, its children's events, its
/// finish.
pub open spec fn events_of_tree(t: StepTree) -> Seq<StepEvent>
    decreases t, 1int, 0int,
{
    seq![StepEvent::Start { name: t.name }] + events_of_forest_to(t.kids, t.kids.len() as int)
        + seq![StepEvent::Finish { status: t.status }]
}

/// The events that build a forest, tree by tree.
pub open spec fn events_of_forest(ts: Seq<StepTree>) -> Seq<StepEvent> {
    events_of_forest_to(ts, ts.len() as int)
}

/// Attaching a completed tree: to the children of the innermost open step,
/// or to the roots when no step is open.
pub open spec fn attach(m: MachineState, t: StepTree) -> MachineState {
    if m.stack.len() == 0 {
        MachineState { roots: m.roots.push(t), stack: m.stack }
    } else {
        let parent = m.stack.last();
        let parent2 = StepTree { kids: parent.kids.push(t), ..parent };
        MachineState { roots: m.roots, stack: m.stack.update(m.stack.len() - 1, parent2) }
    }
}

/// Attaching a sequence of completed trees, in order.
pub open spec fn attach_all(m: MachineState, ts: Seq<StepTree>) -> MachineState
    decreases ts.len(),
{
    if ts.len() == 0 {
        m
    } else {
        attach(attach_all(m, ts.drop_last()), ts.last())
    }
}

/// Running over concatenated events is running over each part in turn.
pub proof fn lemma_run_concat(m: MachineState, a: Seq<StepEvent>, b: Seq<StepEvent>)
    ensures
        run(m, a + b) == run(run(m, a), b),
    decreases a.len(),
{
    if a.len() == 0 {
        assert(a + b =~= b);
    } else {
        lemma_run_concat(step1(m, a[0]), a.drop_first(), b);
        assert((a + b)[0] == a[0]);
        assert((a + b).drop_first() =~= a.drop_first() + b);
    }
}

/// Attaching trees to a state with an open step keeps the roots and only
/// extends the innermost open step's children.
proof fn lemma_attach_all_open(m: MachineState, ts: Seq<StepTree>)
    requires
        m.stack.len() > 0,
    ensures
        attach_all(m, ts).roots == m.roots,
        attach_all(m, ts).stack == m.stack.update(
            m.stack.len() - 1,
            (StepTree { kids: m.stack.last().kids + ts, ..m.stack.last() }),
        ),
    decreases ts.len(),
{
    if ts.len() == 0 {
        assert(m.stack.last().kids + ts =~= m.stack.last().kids);
        assert(m.stack.update(m.stack.len() - 1, m.stack.last()) =~= m.stack);
    } else {
        lemma_attach_all_open(m, ts.drop_last());
        let m1 = attach_all(m, ts.drop_last());
        assert(m1.stack.len() == m.stack.len());
        assert(m1.stack.last() == (StepTree {
            kids: m.stack.last().kids + ts.drop_last(),
            ..m.stack.last()
        }));
        assert((m.stack.last().kids + ts.drop_last()).push(ts.last()) =~= m.stack.last().kids + ts);
        assert(attach(m1, ts.last()).stack =~= m.stack.update(
            m.stack.len() - 1,
            (StepTree { kids: m.stack.last().kids + ts, ..m.stack.last() }),
        ));
    }
}

/// Attaching trees to a state with no open step appends them to the roots.
proof fn lemma_attach_all_closed(m: MachineState, ts: Seq<StepTree>)
    requires
        m.stack.len() == 0,
    ensures
        attach_all(m, ts) == (MachineState { roots: m.roots + ts, stack: m.stack }),
    decreases ts.len(),
{
    if ts.len() == 0 {
        assert(m.roots + ts =~= m.roots);
        assert(attach_all(m, ts) =~= (MachineState { roots: m.roots + ts, stack: m.stack }))
            by {
            assert(attach_all(m, ts) == m);
        }
        assert(attach_all(m, ts) == (MachineState { roots: m.roots + ts, stack: m.stack }));
    } else {
        lemma_attach_all_closed(m, ts.drop_last());
        assert(m.roots + ts.drop_last() + seq![ts.last()] =~= m.roots + ts);
        assert(attach(attach_all(m, ts.drop_last()), ts.last()).roots =~= m.roots + ts);
    }
}

/// Running the events of one tree attaches exactly that tree.
proof fn lemma_run_tree(m: MachineState, t: StepTree)
    ensures
        run(m, events_of_tree(t)) == attach(m, t),
    decreases t, 1int,
{
    let start = seq![StepEvent::Start { name: t.name }];
    let inner = events_of_forest_to(t.kids, t.kids.len() as int);
    let fin = seq![StepEvent::Finish { status: t.status }];
    lemma_run_concat(m, start, inner);
    lemma_run_concat(m, start + inner, fin);
    assert(events_of_tree(t) =~= (start + inner) + fin);
    let fresh = StepTree { name: t.name, status: Status::Unknown, kids: Seq::empty() };
    let m1 = MachineState { roots: m.roots, stack: m.stack.push(fresh) };
    assert(run(m, start) == m1) by {
        assert(start[0] == StepEvent::Start { name: t.name });
        assert(start.drop_first() =~= Seq::<StepEvent>::empty());
        assert(run(step1(m, start[0]), Seq::<StepEvent>::empty()) == step1(m, start[0]));
        assert(step1(m, start[0]) == m1);
    }
    lemma_run_forest_to(m1, t.kids, t.kids.len() as int);
    assert(t.kids.take(t.kids.len() as int) =~= t.kids);
    let m2 = attach_all(m1, t.kids);
    lemma_attach_all_open(m1, t.kids);
    assert(m2.stack.last() == (StepTree {
        name: t.name,
        status: Status::Unknown,
        kids: Seq::empty() + t.kids,
    }));
    assert(Seq::empty() + t.kids =~= t.kids);
    assert(run(m2, fin) == attach(m, t)) by {
        assert(fin[0] == StepEvent::Finish { status: t.status });
        assert(fin.drop_first() =~= Seq::<StepEvent>::empty());
        assert(run(step1(m2, fin[0]), Seq::<StepEvent>::empty()) == step1(m2, fin[0]));
        assert(run(m2, fin) == step1(m2, fin[0]));
        let closed = StepTree { status: t.status, ..m2.stack.last() };
        assert(closed == t);
        if m.stack.len() == 0 {
            assert(m2.stack.drop_last() =~= m.stack);
        } else {
            assert(m2.stack.len() == m.stack.len() + 1);
            assert(m2.stack.drop_last() =~= m.stack);
            assert(m2.stack[m2.stack.len() - 2] == m.stack.last());
            assert(run(m2, fin).stack =~= attach(m, t).stack);
        }
    }
}

/// Running the events of the first `n` trees of a forest attaches exactly
/// those trees, in order.
proof fn lemma_run_forest_to(m: MachineState, ts: Seq<StepTree>, n: int)
    requires
        n <= ts.len(),
    ensures
        run(m, events_of_forest_to(ts, n)) == attach_all(m, ts.take(if n < 0 {
            0
        } else {
            n
        })),
    decreases ts, 0int, n,
{
    if n <= 0 {
        assert(ts.take(0) =~= Seq::<StepTree>::empty());
    } else {
        lemma_run_forest_to(m, ts, n - 1);
        lemma_run_concat(m, events_of_forest_to(ts, n - 1), events_of_tree(ts[n - 1]));
        lemma_run_tree(run(m, events_of_forest_to(ts, n - 1)), ts[n - 1]);
        assert(ts.take(n).drop_last() =~= ts.take(n - 1));
        assert(ts.take(n).last() == ts[n - 1]);
    }
}

/// For any properly nested, balanced sequence of start and finish calls —
/// the events that serialize a forest of steps — run against a state with no
/// open step, the machine closes every step it opened and appends to the
/// roots exactly that forest: the resulting tree shape equals the
/// call-nesting shape, and children appear in call order.
pub proof fn lemma_nested_calls_build_forest(m: MachineState, ts: Seq<StepTree>)
    requires
        m.stack.len() == 0,
    ensures
        run(m, events_of_forest(ts)) == (MachineState { roots: m.roots + ts, stack: m.stack }),
{
    lemma_run_forest_to(m, ts, ts.len() as int);
    assert(ts.take(ts.len() as int) =~= ts);
    lemma_attach_all_closed(m, ts);
}

/// The shapes of a pushed sequence.
pub proof fn lemma_shapes_push(ss: Seq<StepResult>, s: StepResult)
    ensures
        shapes(ss.push(s)) == shapes(ss).push(shape_of(s)),
{
    lemma_shapes_to_len(ss, ss.len() as int);
    lemma_shapes_to_len(ss.push(s), ss.len() as int + 1);
    assert forall|i: int| 0 <= i < ss.len() + 1 implies shapes_to(ss.push(s), ss.len() as int + 1)[i]
        == shapes(ss).push(shape_of(s))[i] by {
        lemma_shapes_to_index(ss.push(s), ss.len() as int + 1, i);
        if i < ss.len() {
            lemma_shapes_to_index(ss, ss.len() as int, i);
            assert(ss.push(s)[i] == ss[i]);
        } else {
            assert(ss.push(s)[i] == s);
        }
    }
    assert(shapes(ss.push(s)) =~= shapes(ss).push(shape_of(s)));
}

/// The shapes of an updated sequence.
pub proof fn lemma_shapes_update(ss: Seq<StepResult>, i: int, s: StepResult)
    requires
        0 <= i < ss.len(),
    ensures
        shapes(ss.update(i, s)) == shapes(ss).update(i, shape_of(s)),
{
    lemma_shapes_to_len(ss, ss.len() as int);
    lemma_shapes_to_len(ss.update(i, s), ss.len() as int);
    assert forall|j: int| 0 <= j < ss.len() implies shapes_to(ss.update(i, s), ss.len() as int)[j]
        == shapes(ss).update(i, shape_of(s))[j] by {
        lemma_shapes_to_index(ss.update(i, s), ss.len() as int, j);
        lemma_shapes_to_index(ss, ss.len() as int, j);
        if j != i {
            assert(ss.update(i, s)[j] == ss[j]);
        } else {
            assert(ss.update(i, s)[j] == s);
        }
    }
    assert(shapes(ss.update(i, s)) =~= shapes(ss).update(i, shape_of(s)));
}

/// The shapes of a shortened sequence.
pub proof fn lemma_shapes_drop_last(ss: Seq<StepResult>)
    requires
        ss.len() > 0,
    ensures
        shapes(ss.drop_last()) == shapes(ss).drop_last(),
{
    lemma_shapes_to_len(ss, ss.len() as int);
    lemma_shapes_to_len(ss.drop_last(), ss.len() as int - 1);
    assert forall|j: int| 0 <= j < ss.len() - 1 implies shapes_to(
        ss.drop_last(),
        ss.len() as int - 1,
    )[j] == shapes(ss).drop_last()[j] by {
        lemma_shapes_to_index(ss.drop_last(), ss.len() as int - 1, j);
        lemma_shapes_to_index(ss, ss.len() as int, j);
        assert(ss.drop_last()[j] == ss[j]);
    }
    assert(shapes(ss.drop_last()) =~= shapes(ss).drop_last());
}

/// Each of the first `n` shapes is the shape of its step.
pub proof fn lemma_shapes_to_index(ss: Seq<StepResult>, n: int, i: int)
    requires
        0 <= n <= ss.len(),
        0 <= i < n,
    ensures
        shapes_to(ss, n).len() == n,
        shapes_to(ss, n)[i] == shape_of(ss[i]),
    decreases n,
{
    lemma_shapes_to_len(ss, n);
    if i < n - 1 {
        lemma_shapes_to_index(ss, n - 1, i);
    }
}

/// The first `n` shapes are `n` shapes.
pub proof fn lemma_shapes_to_len(ss: Seq<StepResult>, n: int)
    requires
        0 <= n <= ss.len(),
    ensures
        shapes_to(ss, n).len() == n,
    decreases n,
{
    if n > 0 {
        lemma_shapes_to_len(ss, n - 1);
    }
}

} // verus!
