//! Which native objects are alive, and the order they may go in.
//!
//! An object may only be destroyed once, and only after every object made
//! from it has been destroyed; it may only be made while everything it is
//! made from is alive.
use vstd::prelude::*;

verus! {

#[derive(Clone, Copy, Debug, PartialEq, Eq, Structural)]
pub enum Resource {
    Instance,
    DebugMessenger,
    Surface,
    Device,
    Swapchain,
    ImageViews,
    PipelineLayout,
    Pipeline,
    CommandPool,
    SyncObjects,
}

#[derive(Clone, Copy, Debug, PartialEq, Eq, Structural)]
pub enum LifecycleError {
    /// The object is alive already.
    AlreadyLive,
    /// Something it is made from is not alive.
    MissingDependency,
    /// The object is not alive.
    NotLive,
    /// Something made from it is still alive.
    DependentsLive,
}

pub const RESOURCE_COUNT: usize = 10;

pub open spec fn index_of(r: Resource) -> int {
    match r {
        Resource::Instance => 0,
        Resource::DebugMessenger => 1,
        Resource::Surface => 2,
        Resource::Device => 3,
        Resource::Swapchain => 4,
        Resource::ImageViews => 5,
        Resource::PipelineLayout => 6,
        Resource::Pipeline => 7,
        Resource::CommandPool => 8,
        Resource::SyncObjects => 9,
    }
}

/// `a` is made from `b`: `a` must be destroyed first.
pub open spec fn depends_on(a: Resource, b: Resource) -> bool {
    match a {
        Resource::Instance => false,
        Resource::DebugMessenger | Resource::Surface | Resource::Device => b == Resource::Instance,
        Resource::Swapchain => b == Resource::Device || b == Resource::Surface,
        Resource::ImageViews => b == Resource::Swapchain || b == Resource::Device,
        Resource::PipelineLayout | Resource::CommandPool | Resource::SyncObjects => b
            == Resource::Device,
        Resource::Pipeline => b == Resource::Device || b == Resource::PipelineLayout,
    }
}

/// The order of a full teardown.
pub open spec fn teardown_order_spec() -> Seq<Resource> {
    seq![
        Resource::SyncObjects,
        Resource::CommandPool,
        Resource::ImageViews,
        Resource::Swapchain,
        Resource::Pipeline,
        Resource::PipelineLayout,
        Resource::Surface,
        Resource::DebugMessenger,
        Resource::Device,
        Resource::Instance,
    ]
}

/// Where `r` stands in [`teardown_order_spec`].
pub open spec fn teardown_position(r: Resource) -> int {
    match r {
        Resource::SyncObjects => 0,
        Resource::CommandPool => 1,
        Resource::ImageViews => 2,
        Resource::Swapchain => 3,
        Resource::Pipeline => 4,
        Resource::PipelineLayout => 5,
        Resource::Surface => 6,
        Resource::DebugMessenger => 7,
        Resource::Device => 8,
        Resource::Instance => 9,
    }
}

/// The full teardown names every object once, and destroys each one after
/// everything made from it.
pub proof fn lemma_teardown_order_sound(a: Resource, b: Resource)
    ensures
        teardown_order_spec().len() == RESOURCE_COUNT,
        0 <= teardown_position(a) < RESOURCE_COUNT,
        teardown_order_spec()[teardown_position(a)] == a,
        depends_on(a, b) ==> teardown_position(a) < teardown_position(b),
{
}

fn resource_index(r: Resource) -> (i: usize)
    ensures
        i as int == index_of(r),
{
    match r {
        Resource::Instance => 0,
        Resource::DebugMessenger => 1,
        Resource::Surface => 2,
        Resource::Device => 3,
        Resource::Swapchain => 4,
        Resource::ImageViews => 5,
        Resource::PipelineLayout => 6,
        Resource::Pipeline => 7,
        Resource::CommandPool => 8,
        Resource::SyncObjects => 9,
    }
}

/// The objects `r` is made from.
pub fn dependencies(r: Resource) -> (v: Vec<Resource>)
    ensures
        forall|b: Resource| depends_on(r, b) <==> v@.contains(b),
{
    let v = match r {
        Resource::Instance => vec![],
        Resource::DebugMessenger | Resource::Surface | Resource::Device => vec![
            Resource::Instance,
        ],
        Resource::Swapchain => vec![Resource::Device, Resource::Surface],
        Resource::ImageViews => vec![Resource::Swapchain, Resource::Device],
        Resource::PipelineLayout | Resource::CommandPool | Resource::SyncObjects => vec![
            Resource::Device,
        ],
        Resource::Pipeline => vec![Resource::Device, Resource::PipelineLayout],
    };
    assert forall|b: Resource| depends_on(r, b) <==> v@.contains(b) by {
        if depends_on(r, b) {
            assert(v@[if v@.len() == 2 && v@[1] == b { 1int } else { 0int }] == b);
        }
    }
    v
}

/// The order of a full teardown.
pub fn teardown_order() -> (v: Vec<Resource>)
    ensures
        v@ == teardown_order_spec(),
{
    let v = vec![
        Resource::SyncObjects,
        Resource::CommandPool,
        Resource::ImageViews,
        Resource::Swapchain,
        Resource::Pipeline,
        Resource::PipelineLayout,
        Resource::Surface,
        Resource::DebugMessenger,
        Resource::Device,
        Resource::Instance,
    ];
    assert(v@ =~= teardown_order_spec());
    v
}

/// The set of objects that are alive.
pub struct ResourceTracker {
    live: Vec<bool>,
}

impl ResourceTracker {
    pub closed spec fn is_live(&self, r: Resource) -> bool {
        self.live@[index_of(r)]
    }

    pub closed spec fn wf(&self) -> bool {
        self.live@.len() == RESOURCE_COUNT
    }

    /// Nothing is alive.
    pub fn new() -> (r: ResourceTracker)
        ensures
            r.wf(),
            forall|x: Resource| !#[trigger] r.is_live(x),
    {
        ResourceTracker { live: vec![false, false, false, false, false, false, false, false, false, false] }
    }

    pub fn live(&self, r: Resource) -> (b: bool)
        requires
            self.wf(),
        ensures
            b == self.is_live(r),
    {
        self.live[resource_index(r)]
    }

    /// Records that `r` was made, if everything it is made from is alive.
    pub fn create(&mut self, r: Resource) -> (res: Result<(), LifecycleError>)
        requires
            old(self).wf(),
        ensures
            final(self).wf(),
            old(self).is_live(r) ==> res == Err::<(), LifecycleError>(LifecycleError::AlreadyLive),
            !old(self).is_live(r) && (exists|b: Resource| depends_on(r, b) && !old(self).is_live(b))
                ==> res == Err::<(), LifecycleError>(LifecycleError::MissingDependency),
            res.is_ok() <==> (!old(self).is_live(r) && forall|b: Resource|
                depends_on(r, b) ==> old(self).is_live(b)),
            res.is_ok() ==> forall|x: Resource|
                #[trigger] final(self).is_live(x) == (x == r || old(self).is_live(x)),
            res.is_err() ==> *final(self) == *old(self),
    {
        if self.live(r) {
            return Err(LifecycleError::AlreadyLive);
        }
        let deps = dependencies(r);
        let mut i: usize = 0;
        while i < deps.len()
            invariant
                self.wf(),
                *self == *old(self),
                !self.is_live(r),
                0 <= i <= deps@.len(),
                forall|b: Resource| depends_on(r, b) <==> deps@.contains(b),
                forall|k: int| 0 <= k < i ==> self.is_live(#[trigger] deps@[k]),
            decreases deps.len() - i,
        {
            if !self.live(deps[i]) {
                assert(deps@.contains(deps@[i as int]));
                assert(depends_on(r, deps@[i as int]) && !old(self).is_live(deps@[i as int]));
                return Err(LifecycleError::MissingDependency);
            }
            i = i + 1;
        }
        let k = resource_index(r);
        self.live.set(k, true);
        proof {
            assert forall|x: Resource| #[trigger] self.is_live(x) == (x == r || old(self).is_live(x)) by {
                if x != r {
                    assert(index_of(x) != index_of(r));
                }
            }
        }
        Ok(())
    }

    /// Records that `r` was destroyed, if nothing made from it is alive.
    pub fn release(&mut self, r: Resource) -> (res: Result<(), LifecycleError>)
        requires
            old(self).wf(),
        ensures
            final(self).wf(),
            !old(self).is_live(r) ==> res == Err::<(), LifecycleError>(LifecycleError::NotLive),
            old(self).is_live(r) && (exists|d: Resource| depends_on(d, r) && old(self).is_live(d))
                ==> res == Err::<(), LifecycleError>(LifecycleError::DependentsLive),
            res.is_ok() <==> (old(self).is_live(r) && forall|d: Resource|
                depends_on(d, r) ==> !old(self).is_live(d)),
            res.is_ok() ==> forall|x: Resource|
                #[trigger] final(self).is_live(x) == (x != r && old(self).is_live(x)),
            res.is_err() ==> *final(self) == *old(self),
    {
        if !self.live(r) {
            return Err(LifecycleError::NotLive);
        }
        let all = teardown_order();
        let mut i: usize = 0;
        while i < all.len()
            invariant
                self.wf(),
                *self == *old(self),
                self.is_live(r),
                all@ == teardown_order_spec(),
                0 <= i <= all@.len(),
                forall|k: int|
                    0 <= k < i ==> !(depends_on(#[trigger] all@[k], r) && self.is_live(all@[k])),
            decreases all.len() - i,
        {
            let d = all[i];
            if self.live(d) && depends_on_exec(d, r) {
                return Err(LifecycleError::DependentsLive);
            }
            i = i + 1;
        }
        proof {
            assert forall|d: Resource| depends_on(d, r) implies !self.is_live(d) by {
                lemma_teardown_order_sound(d, r);
                assert(all@[teardown_position(d)] == d);
            }
        }
        let k = resource_index(r);
        self.live.set(k, false);
        proof {
            assert forall|x: Resource| #[trigger] self.is_live(x) == (x != r && old(self).is_live(x)) by {
                if x != r {
                    assert(index_of(x) != index_of(r));
                }
            }
        }
        Ok(())
    }
}

fn depends_on_exec(a: Resource, b: Resource) -> (r: bool)
    ensures
        r == depends_on(a, b),
{
    match a {
        Resource::Instance => false,
        Resource::DebugMessenger | Resource::Surface | Resource::Device => b == Resource::Instance,
        Resource::Swapchain => b == Resource::Device || b == Resource::Surface,
        Resource::ImageViews => b == Resource::Swapchain || b == Resource::Device,
        Resource::PipelineLayout | Resource::CommandPool | Resource::SyncObjects => b
            == Resource::Device,
        Resource::Pipeline => b == Resource::Device || b == Resource::PipelineLayout,
    }
}

} // verus!
