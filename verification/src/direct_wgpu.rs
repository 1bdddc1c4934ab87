//! Rendering jobs that a backend recorded itself.
use std::rc::Rc;
use vstd::prelude::*;

use crate::rectangle::Rectangle;

verus! {

/// A render job: a bundle of commands that a backend recorded, which says what
/// to render, and the bounds that say where to render it. The library carries
/// the bundle and never looks into it.
pub struct DirectWgpuJob<Bundle> {
    /// The recorded commands, shared with whoever recorded them.
    pub bundle: Rc<Bundle>,
    /// Where the commands render.
    pub bounds: Rectangle,
}

/// One render pass of a frame: the region of the target that the pass is
/// confined to, and the commands to execute in it.
pub struct Pass<'a, Bundle> {
    /// The region of the target that the pass is confined to.
    pub viewport: Rectangle,
    /// The commands to execute.
    pub bundle: &'a Bundle,
}

impl<Bundle> DirectWgpuJob<Bundle> {
    /// Create a new job that will execute the given bundle within `bounds`.
    pub fn new(bundle: Bundle, bounds: Rectangle) -> (job: DirectWgpuJob<Bundle>)
        ensures
            *job.bundle == bundle,
            job.bounds == bounds,
    {
        DirectWgpuJob::new_rc(Rc::new(bundle), bounds)
    }

    /// Create a new job that will execute the given bundle within `bounds`.
    /// The job keeps the bundle shared, so a bundle that is shared already
    /// is taken as it is.
    pub fn new_rc(bundle: Rc<Bundle>, bounds: Rectangle) -> (job: DirectWgpuJob<Bundle>)
        ensures
            job.bundle == bundle,
            job.bounds == bounds,
    {
        DirectWgpuJob { bundle, bounds }
    }
}

/// The pipeline that executes the jobs of a frame.
#[derive(Debug)]
pub struct Pipeline;

impl Pipeline {
    /// A new pipeline.
    pub fn new() -> (pipeline: Pipeline)
        ensures
            pipeline == Pipeline,
    {
        Pipeline
    }

    /// Plans the execution of `jobs`: one render pass for each job, in the
    /// order of the jobs, each confined to the bounds of its job. The passes
    /// load what the target holds, so that each job paints over the ones
    /// before it.
    pub fn draw<'a, Bundle>(&mut self, jobs: &'a Vec<DirectWgpuJob<Bundle>>) -> (passes: Vec<Pass<'a, Bundle>>)
        ensures
            *final(self) == *old(self),
            passes@.len() == jobs@.len(),
            forall|i: int|
                0 <= i < jobs@.len() ==> (#[trigger] passes@[i]).viewport == jobs@[i].bounds && *passes@[i].bundle
                    == *jobs@[i].bundle,
    {
        let mut passes: Vec<Pass<'a, Bundle>> = Vec::new();
        let mut i: usize = 0;
        while i < jobs.len()
            invariant
                i <= jobs@.len(),
                passes@.len() == i,
                forall|j: int|
                    0 <= j < i ==> (#[trigger] passes@[j]).viewport == jobs@[j].bounds && *passes@[j].bundle
                        == *jobs@[j].bundle,
            decreases jobs@.len() - i,
        {
            let job = &jobs[i];
            passes.push(Pass { viewport: job.bounds, bundle: &*job.bundle });
            i += 1;
        }
        passes
    }
}

} // verus!
