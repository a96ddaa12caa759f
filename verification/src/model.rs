use vstd::prelude::*;

use crate::prep::PreExecContext;
use crate::prep::PrepAction;
use crate::prep::prep_plan;
use crate::pty::Size;

verus! {

broadcast use vstd::set::group_set_axioms, vstd::map::group_map_axioms;

/// A specification-level model of one process's state as far as this
/// library touches it: which descriptors are open and which open file each
/// refers to, whether the process leads its own session, and the device of
/// its controlling terminal, if any.
pub struct ProcessModel {
    /// Open descriptors, each mapped to the identity of the open file it
    /// refers to.
    pub table: Map<int, int>,
    /// Whether the process is a session leader.
    pub session_leader: bool,
    /// Identity of the controlling terminal's device, if any.
    pub controlling: Option<int>,
}

/// The effect of one preparation action on a process's state: a new
/// session detaches the process from any controlling terminal, adopting a
/// terminal requires session leadership and an open descriptor for it, and
/// closing a descriptor removes it from the table.
pub open spec fn apply_prep(s: ProcessModel, a: PrepAction) -> ProcessModel {
    match a {
        PrepAction::NewSession => ProcessModel {
            session_leader: true,
            controlling: None,
            ..s
        },
        PrepAction::SetControllingTerminal(fd) => ProcessModel {
            controlling: if s.session_leader && s.table.dom().contains(fd as int) {
                Some(s.table[fd as int])
            } else {
                s.controlling
            },
            ..s
        },
        PrepAction::CloseFd(fd) => ProcessModel { table: s.table.remove(fd as int), ..s },
    }
}

/// The state after running a sequence of preparation actions in order.
pub open spec fn run_prep(s: ProcessModel, actions: Seq<PrepAction>) -> ProcessModel
    decreases actions.len(),
{
    if actions.len() == 0 {
        s
    } else {
        run_prep(apply_prep(s, actions[0]), actions.drop_first())
    }
}

/// The parent's descriptor table after pty setup: the pty pair's two
/// descriptors and the three duplicates of the subordinate side, all
/// referring to the terminal device `dev`, on top of the baseline `t`.
pub open spec fn parent_after_setup(t: Map<int, int>, dev: int, ctx: PreExecContext) -> Map<
    int,
    int,
> {
    t.insert(ctx.pt_fd as int, dev).insert(ctx.pts_fd as int, dev).insert(
        ctx.stdin_fd as int,
        dev,
    ).insert(ctx.stdout_fd as int, dev).insert(ctx.stderr_fd as int, dev)
}

/// The parent's table once a successful spawn is over: the subordinate
/// descriptor and the three stdio duplicates are released; only the
/// controlling side, retained by the returned handle, survives.
pub open spec fn parent_after_spawn(t: Map<int, int>, dev: int, ctx: PreExecContext) -> Map<
    int,
    int,
> {
    parent_after_setup(t, dev, ctx).remove(ctx.pts_fd as int).remove(ctx.stdin_fd as int).remove(
        ctx.stdout_fd as int,
    ).remove(ctx.stderr_fd as int)
}

/// The builder's standard-fd assignment in the forked child: the three
/// duplicates are installed as descriptors 0, 1 and 2.
pub open spec fn install_stdio(t: Map<int, int>, ctx: PreExecContext) -> Map<int, int> {
    t.insert(0, t[ctx.stdin_fd as int]).insert(1, t[ctx.stdout_fd as int]).insert(
        2,
        t[ctx.stderr_fd as int],
    )
}

/// The five retained descriptors are mutually distinct and none of them is
/// open at baseline — what the OS guarantees for freshly created
/// descriptors.
pub open spec fn ctx_fresh_for(t: Map<int, int>, ctx: PreExecContext) -> bool {
    &&& !t.dom().contains(ctx.pt_fd as int)
    &&& !t.dom().contains(ctx.pts_fd as int)
    &&& !t.dom().contains(ctx.stdin_fd as int)
    &&& !t.dom().contains(ctx.stdout_fd as int)
    &&& !t.dom().contains(ctx.stderr_fd as int)
    &&& ctx.pt_fd != ctx.pts_fd && ctx.pt_fd != ctx.stdin_fd && ctx.pt_fd != ctx.stdout_fd
        && ctx.pt_fd != ctx.stderr_fd
    &&& ctx.pts_fd != ctx.stdin_fd && ctx.pts_fd != ctx.stdout_fd && ctx.pts_fd != ctx.stderr_fd
    &&& ctx.stdin_fd != ctx.stdout_fd && ctx.stdin_fd != ctx.stderr_fd
    &&& ctx.stdout_fd != ctx.stderr_fd
}

/// The five retained descriptors lie above the three stdio slots.
pub open spec fn ctx_above_stdio(ctx: PreExecContext) -> bool {
    &&& 2 < ctx.pt_fd
    &&& 2 < ctx.pts_fd
    &&& 2 < ctx.stdin_fd
    &&& 2 < ctx.stdout_fd
    &&& 2 < ctx.stderr_fd
}

/// Pty setup creates exactly three duplicate descriptors, whatever size
/// was requested: beyond the pty pair itself, the table gains precisely
/// the three stdio duplicates. The setup's effect does not mention the
/// requested size at all, so the count is the same for every `size`.
pub proof fn lemma_setup_duplicates_exactly_three(
    t: Map<int, int>,
    dev: int,
    ctx: PreExecContext,
    size: Option<Size>,
)
    requires
        t.dom().finite(),
        ctx_fresh_for(t, ctx),
    ensures
        parent_after_setup(t, dev, ctx).dom() =~= t.dom().insert(ctx.pt_fd as int).insert(
            ctx.pts_fd as int,
        ).insert(ctx.stdin_fd as int).insert(ctx.stdout_fd as int).insert(ctx.stderr_fd as int),
        parent_after_setup(t, dev, ctx).dom().len() == t.dom().len() + 5,
        parent_after_setup(t, dev, ctx).dom().difference(
            t.dom().insert(ctx.pt_fd as int).insert(ctx.pts_fd as int),
        ) =~= set![ctx.stdin_fd as int, ctx.stdout_fd as int, ctx.stderr_fd as int],
        set![ctx.stdin_fd as int, ctx.stdout_fd as int, ctx.stderr_fd as int].len() == 3,
{
    let three = set![ctx.stdin_fd as int, ctx.stdout_fd as int, ctx.stderr_fd as int];
    assert(three =~= Set::empty().insert(ctx.stdin_fd as int).insert(ctx.stdout_fd as int).insert(
        ctx.stderr_fd as int,
    ));
    assert(three.len() == 3);
}

/// After a successful spawn the parent's open-descriptor table is its
/// baseline plus exactly one descriptor: the controlling side of the pty,
/// which the returned handle retains.
pub proof fn lemma_spawn_leaves_baseline_plus_controlling(
    t: Map<int, int>,
    dev: int,
    ctx: PreExecContext,
)
    requires
        t.dom().finite(),
        ctx_fresh_for(t, ctx),
    ensures
        parent_after_spawn(t, dev, ctx).dom() =~= t.dom().insert(ctx.pt_fd as int),
        parent_after_spawn(t, dev, ctx).dom().len() == t.dom().len() + 1,
        parent_after_spawn(t, dev, ctx)[ctx.pt_fd as int] == dev,
{
    assert(parent_after_spawn(t, dev, ctx).dom() =~= t.dom().insert(ctx.pt_fd as int));
}

/// Running the full preparation sequence in the forked child makes it a
/// session leader whose controlling terminal is the pty's device, leaves
/// its stdin, stdout and stderr all resolving to that same device, and
/// closes every one of the five retained descriptors — the child keeps
/// exactly the three stdio slots from this library's work.
///
/// The child starts from a copy of the parent's post-setup table in which
/// the builder's standard-fd assignment has already installed the three
/// duplicates as descriptors 0, 1 and 2; its initial session and
/// controlling-terminal state is arbitrary.
pub proof fn lemma_child_prepared(
    t: Map<int, int>,
    dev: int,
    ctx: PreExecContext,
    leader: bool,
    ctty: Option<int>,
)
    requires
        t.dom().finite(),
        ctx_fresh_for(t, ctx),
        ctx_above_stdio(ctx),
    ensures
        ({
            let forked = ProcessModel {
                table: install_stdio(parent_after_setup(t, dev, ctx), ctx),
                session_leader: leader,
                controlling: ctty,
            };
            let done = run_prep(forked, prep_plan(ctx));
            &&& done.session_leader
            &&& done.controlling == Some(dev)
            &&& done.table.dom().contains(0) && done.table[0] == dev
            &&& done.table.dom().contains(1) && done.table[1] == dev
            &&& done.table.dom().contains(2) && done.table[2] == dev
            &&& !done.table.dom().contains(ctx.pt_fd as int)
            &&& !done.table.dom().contains(ctx.pts_fd as int)
            &&& !done.table.dom().contains(ctx.stdin_fd as int)
            &&& !done.table.dom().contains(ctx.stdout_fd as int)
            &&& !done.table.dom().contains(ctx.stderr_fd as int)
        }),
{
    let forked = ProcessModel {
        table: install_stdio(parent_after_setup(t, dev, ctx), ctx),
        session_leader: leader,
        controlling: ctty,
    };
    let p = prep_plan(ctx);
    assert(p.len() == 7);

    let s1 = apply_prep(forked, p[0]);
    let s2 = apply_prep(s1, p[1]);
    let s3 = apply_prep(s2, p[2]);
    let s4 = apply_prep(s3, p[3]);
    let s5 = apply_prep(s4, p[4]);
    let s6 = apply_prep(s5, p[5]);
    let s7 = apply_prep(s6, p[6]);

    assert(run_prep(forked, p) == s7) by {
        assert(p.drop_first() =~= p.subrange(1, 7));
        assert(run_prep(forked, p) == run_prep(s1, p.subrange(1, 7)));
        assert(p.subrange(1, 7).drop_first() =~= p.subrange(2, 7));
        assert(run_prep(s1, p.subrange(1, 7)) == run_prep(s2, p.subrange(2, 7)));
        assert(p.subrange(2, 7).drop_first() =~= p.subrange(3, 7));
        assert(run_prep(s2, p.subrange(2, 7)) == run_prep(s3, p.subrange(3, 7)));
        assert(p.subrange(3, 7).drop_first() =~= p.subrange(4, 7));
        assert(run_prep(s3, p.subrange(3, 7)) == run_prep(s4, p.subrange(4, 7)));
        assert(p.subrange(4, 7).drop_first() =~= p.subrange(5, 7));
        assert(run_prep(s4, p.subrange(4, 7)) == run_prep(s5, p.subrange(5, 7)));
        assert(p.subrange(5, 7).drop_first() =~= p.subrange(6, 7));
        assert(run_prep(s5, p.subrange(5, 7)) == run_prep(s6, p.subrange(6, 7)));
        assert(p.subrange(6, 7).drop_first() =~= p.subrange(7, 7));
        assert(run_prep(s6, p.subrange(6, 7)) == run_prep(s7, p.subrange(7, 7)));
        assert(p.subrange(7, 7).len() == 0);
    }

    assert(s1.session_leader);
    assert(forked.table[ctx.pts_fd as int] == dev);
    assert(s2.controlling == Some(dev));
    assert(s7.table =~= forked.table.remove(ctx.pt_fd as int).remove(ctx.pts_fd as int).remove(
        ctx.stdin_fd as int,
    ).remove(ctx.stdout_fd as int).remove(ctx.stderr_fd as int));
    assert(s7.table[0] == dev);
    assert(s7.table[1] == dev);
    assert(s7.table[2] == dev);
}

} // verus!
