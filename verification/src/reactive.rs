use vstd::prelude::*;

verus! {

/// Whether a reactive UI has to run its build function again. The build function
/// is not called on every frame: it runs for the first layout and afterwards only
/// when a rebuild was requested.
pub struct RebuildRequest {
    pending: bool,
}

impl RebuildRequest {
    /// Whether a rebuild is pending.
    pub closed spec fn is_pending(&self) -> bool {
        self.pending
    }

    /// A new reactive UI has not been built yet, so a build is pending.
    pub fn new() -> (r: Self)
        ensures
            r.is_pending(),
    {
        RebuildRequest { pending: true }
    }

    /// Requests a rebuild.
    pub fn request(&mut self)
        ensures
            final(self).is_pending(),
    {
        self.pending = true;
    }

    /// Whether a rebuild is pending.
    pub fn is_requested(&self) -> (r: bool)
        ensures
            r == self.is_pending(),
    {
        self.pending
    }

    /// Says whether to build now, and clears the request (after the build).
    pub fn take(&mut self) -> (build_now: bool)
        ensures
            build_now == old(self).is_pending(),
            !final(self).is_pending(),
    {
        let p = self.pending;
        self.pending = false;
        p
    }
}

} // verus!

verus! {

/// What happens to a reactive UI between two looks at its rebuild request.
pub enum RebuildStep {
    /// A rebuild is requested ([`RebuildRequest::request`]).
    Request,
    /// The UI is laid out ([`RebuildRequest::take`]); it builds if a rebuild is pending.
    Layout,
}

/// Runs the steps from the pending state `pending`: the pending state after them,
/// and for each `Layout` step, in order, whether the build function ran.
pub open spec fn rebuild_run(pending: bool, steps: Seq<RebuildStep>) -> (bool, Seq<bool>)
    decreases steps.len(),
{
    if steps.len() == 0 {
        (pending, Seq::empty())
    } else {
        let (p, builds) = rebuild_run(pending, steps.drop_last());
        match steps.last() {
            RebuildStep::Request => (true, builds),
            RebuildStep::Layout => (false, builds.push(p)),
        }
    }
}

/// Without requests, only the first layout of a new reactive UI builds: the build
/// function is not called on every frame.
pub proof fn law_builds_once_without_requests(n: nat)
    requires
        n > 0,
    ensures
        rebuild_run(true, Seq::new(n, |i: int| RebuildStep::Layout)).1 == seq![true] + Seq::new(
            (n - 1) as nat,
            |i: int| false,
        ),
    decreases n,
{
    let steps = Seq::new(n, |i: int| RebuildStep::Layout);
    if n == 1 {
        reveal_with_fuel(rebuild_run, 2);
        assert(steps.drop_last() =~= Seq::<RebuildStep>::empty());
        assert(rebuild_run(true, steps).1 =~= seq![true] + Seq::new(0, |i: int| false));
    } else {
        law_builds_once_without_requests((n - 1) as nat);
        assert(steps.drop_last() =~= Seq::new((n - 1) as nat, |i: int| RebuildStep::Layout));
        lemma_run_after_layout_clears(true, steps.drop_last());
        assert(rebuild_run(true, steps).1 =~= seq![true] + Seq::new((n - 1) as nat, |i: int| false));
    }
}

/// After a layout, nothing is pending.
proof fn lemma_run_after_layout_clears(pending: bool, steps: Seq<RebuildStep>)
    requires
        steps.len() > 0,
        steps.last() == RebuildStep::Layout,
    ensures
        !rebuild_run(pending, steps).0,
{
}

/// A layout right after a request builds.
pub proof fn law_request_then_layout_builds(pending: bool, steps: Seq<RebuildStep>)
    ensures
        rebuild_run(pending, steps.push(RebuildStep::Request).push(RebuildStep::Layout)).1.last(),
{
    reveal_with_fuel(rebuild_run, 3);
    let s1 = steps.push(RebuildStep::Request);
    let s2 = s1.push(RebuildStep::Layout);
    assert(s2.drop_last() =~= s1);
    assert(s1.drop_last() =~= steps);
}

/// A layout right after another layout does not build.
pub proof fn law_layout_after_layout_skips(pending: bool, steps: Seq<RebuildStep>)
    ensures
        !rebuild_run(
            pending,
            steps.push(RebuildStep::Layout).push(RebuildStep::Layout),
        ).1.last(),
{
    reveal_with_fuel(rebuild_run, 3);
    let s1 = steps.push(RebuildStep::Layout);
    let s2 = s1.push(RebuildStep::Layout);
    assert(s2.drop_last() =~= s1);
    assert(s1.drop_last() =~= steps);
}

} // verus!
