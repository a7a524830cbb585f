//! The order in which shared memory regions are checked and mapped.
//!
//! All regions are checked before anything is mapped, so that a bad region leaves
//! the mapping as it was.

use crate::error::Error;
use crate::message::VhostUserMemoryRegion;
use vstd::prelude::*;

verus! {

/// One step: to check a region, to drop all mappings, or to map a region.
pub ghost enum MappingStep {
    Check(int),
    Reset,
    MapIn(int),
}

/// The steps for `n` regions: check each, drop the old mappings unless the region
/// is the log's, then map each.
pub open spec fn script(n: nat, for_log: bool) -> Seq<MappingStep> {
    Seq::new(n, |i: int| MappingStep::Check(i)) + (if for_log {
        Seq::<MappingStep>::empty()
    } else {
        seq![MappingStep::Reset]
    }) + Seq::new(n, |i: int| MappingStep::MapIn(i))
}

/// What the caller has to do next.
pub enum MappingAction<F> {
    /// Check that the region can be mapped.
    CheckRegion(VhostUserMemoryRegion),
    /// Drop all mappings.
    Reset,
    /// Map a region that was checked.
    MapRegion { region: VhostUserMemoryRegion, file: F },
    /// Nothing more: this is how the request ended.
    Done(Result<(), Error>),
}

/// Regions to check and to map, with how far this has gone.
pub struct MappingPlan<F> {
    regions: Vec<VhostUserMemoryRegion>,
    files: Vec<F>,
    all_files: Ghost<Seq<F>>,
    for_log: bool,
    taken: usize,
    done: bool,
}

impl<F> MappingPlan<F> {
    /// The regions, in the order of the message.
    pub closed spec fn regions(self) -> Seq<VhostUserMemoryRegion> {
        self.regions@
    }

    /// The file of each region.
    pub closed spec fn files(self) -> Seq<F> {
        self.all_files@
    }

    /// The one region is that of the log, which is added to the others.
    pub closed spec fn for_log(self) -> bool {
        self.for_log
    }

    /// How many steps of the script were handed out.
    pub closed spec fn taken(self) -> nat {
        self.taken as nat
    }

    /// The plan came to an end.
    pub closed spec fn finished(self) -> bool {
        self.done
    }

    /// The script of the plan.
    pub open spec fn steps(self) -> Seq<MappingStep> {
        script(self.regions().len(), self.for_log())
    }

    /// A file is kept for each region that is still to be mapped.
    pub closed spec fn wf(self) -> bool {
        let first_map = self.regions@.len() + (if self.for_log { 0int } else { 1int });
        &&& self.all_files@.len() == self.regions@.len()
        &&& self.regions@.len() <= 0x1000
        &&& self.taken <= self.steps().len()
        &&& self.files@ == self.all_files@.skip(if self.taken <= first_map { 0 } else { self.taken - first_map })
    }

    /// The action that a step stands for.
    pub open spec fn action_for(self, step: MappingStep) -> MappingAction<F> {
        match step {
            MappingStep::Check(i) => MappingAction::CheckRegion(self.regions()[i]),
            MappingStep::Reset => MappingAction::Reset,
            MappingStep::MapIn(i) => MappingAction::MapRegion { region: self.regions()[i], file: self.files()[i] },
        }
    }

    /// The same plan, apart from how far it has gone.
    pub open spec fn same_as(self, other: MappingPlan<F>) -> bool {
        &&& self.regions() == other.regions()
        &&& self.files() == other.files()
        &&& self.for_log() == other.for_log()
    }

    /// A plan for regions with a file each.
    pub fn new(regions: Vec<VhostUserMemoryRegion>, files: Vec<F>, for_log: bool) -> (plan: MappingPlan<F>)
        requires
            regions@.len() == files@.len(),
            regions@.len() <= 0x1000,
        ensures
            plan.wf(),
            plan.regions() == regions@,
            plan.files() == files@,
            plan.for_log() == for_log,
            plan.taken() == 0,
            !plan.finished(),
    {
        let ghost all = files@;
        assert(all =~= all.skip(0));
        MappingPlan { regions, files, all_files: Ghost(all), for_log, taken: 0, done: false }
    }

    /// Whether the one region is that of the log.
    pub fn is_for_log(&self) -> (for_log: bool)
        ensures
            for_log == self.for_log(),
    {
        self.for_log
    }

    /// Takes the outcome of the last action, `Ok` before the first one, and says
    /// what comes next. The first failure ends the plan.
    pub fn advance(&mut self, outcome: Result<(), Error>) -> (action: MappingAction<F>)
        requires
            old(self).wf(),
            !old(self).finished(),
        ensures
            final(self).wf(),
            final(self).same_as(*old(self)),
            plan_moves(*old(self), *final(self), outcome, action),
    {
        if let Err(e) = outcome {
            self.done = true;
            return MappingAction::Done(Err(e));
        }
        let n: usize = self.regions.len();
        let first_map: usize = if self.for_log { n } else { n + 1 };
        if self.taken == first_map + n {
            self.done = true;
            return MappingAction::Done(Ok(()));
        }
        let step: usize = self.taken;
        let ghost before = *self;
        if step < n {
            self.taken = step + 1;
            assert(before.steps()[step as int] == MappingStep::Check(step as int));
            MappingAction::CheckRegion(self.regions[step])
        } else if step < first_map {
            self.taken = step + 1;
            assert(before.steps()[step as int] == MappingStep::Reset);
            MappingAction::Reset
        } else {
            let index: usize = step - first_map;
            assert(before.steps()[step as int] == MappingStep::MapIn(index as int));
            let file = self.files.remove(0);
            self.taken = step + 1;
            assert(self.files@ =~= self.all_files@.skip(index + 1));
            MappingAction::MapRegion { region: self.regions[index], file }
        }
    }
}

/// One step of a mapping plan: the next step of its script, or its end.
pub open spec fn plan_moves<F>(
    before: MappingPlan<F>,
    after: MappingPlan<F>,
    outcome: Result<(), Error>,
    action: MappingAction<F>,
) -> bool {
    match outcome {
        Err(e) => action == MappingAction::<F>::Done(Err(e)) && after.finished() && after.taken() == before.taken(),
        Ok(_) => if before.taken() >= before.steps().len() {
            action == MappingAction::<F>::Done(Ok(())) && after.finished() && after.taken() == before.taken()
        } else {
            action == before.action_for(before.steps()[before.taken() as int]) && !after.finished() && after.taken()
                == before.taken() + 1
        },
    }
}

/// Nothing is dropped or mapped before every region was checked: behind a step
/// that is no check there is no check.
pub proof fn law_all_checks_come_first(n: nat, for_log: bool, i: int, j: int)
    requires
        0 <= i < j < script(n, for_log).len(),
        !(script(n, for_log)[i] is Check),
    ensures
        !(script(n, for_log)[j] is Check),
{
}

/// Every region is checked, and every region is mapped, once each and in order.
pub proof fn law_each_region_once(n: nat, for_log: bool, k: int)
    requires
        0 <= k < n,
    ensures
        script(n, for_log)[k] == MappingStep::Check(k),
        script(n, for_log)[script(n, for_log).len() - n + k] == MappingStep::MapIn(k),
        script(n, for_log).len() == 2 * n + (if for_log { 0int } else { 1int }),
        !for_log ==> script(n, for_log)[n as int] == MappingStep::Reset,
{
}

/// A plan that is never disturbed checks region after region, in the order of the
/// message, then drops the old mappings unless it is for the log, and then maps region
/// after region, each from its own file. After that it ends well. A failure ends it at
/// once, with that failure.
pub proof fn law_regions_are_worked_off_in_order<F>(
    before: MappingPlan<F>,
    after: MappingPlan<F>,
    outcome: Result<(), Error>,
    action: MappingAction<F>,
)
    requires
        plan_moves(before, after, outcome, action),
    ensures
        ({
            let n = before.regions().len() as int;
            let first_map = if before.for_log() { n } else { n + 1 };
            let at = before.taken() as int;
            match outcome {
                Err(e) => action == MappingAction::<F>::Done(Err(e)),
                Ok(_) => {
                    &&& 0 <= at < n ==> action == MappingAction::<F>::CheckRegion(before.regions()[at])
                    &&& n <= at < first_map ==> action == MappingAction::<F>::Reset
                    &&& first_map <= at < first_map + n ==> action == (MappingAction::MapRegion {
                        region: before.regions()[at - first_map],
                        file: before.files()[at - first_map],
                    })
                    &&& at >= first_map + n ==> action == MappingAction::<F>::Done(Ok(()))
                    &&& at < first_map + n ==> after.taken() == at + 1 && !after.finished()
                },
            }
        }),
        action is Done <==> after.finished(),
        action is Done ==> after.taken() == before.taken(),
{
}

/// Plans that are the same apart from how far they have gone have the same script, and do
/// the same at each of its steps.
pub proof fn law_same_plans_do_the_same<F>(a: MappingPlan<F>, b: MappingPlan<F>, i: int)
    requires
        a.same_as(b),
        0 <= i < a.steps().len(),
    ensures
        a.steps() == b.steps(),
        a.action_for(a.steps()[i]) == b.action_for(b.steps()[i]),
        a.files() == b.files(),
        a.regions() == b.regions(),
{
}

} // verus!
