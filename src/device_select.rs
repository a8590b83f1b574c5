//! Choosing a physical accelerator and its queue families.
//!
//! Everything here works on what was read from the driver: a candidate is a
//! plain record of the features, limits and queue-family capabilities that
//! the enumeration reported.
use vstd::prelude::*;

use crate::error::AppError;

verus! {

/// The class a physical device reports.
#[derive(Clone, Copy, Debug, PartialEq, Eq, Structural)]
pub enum DeviceClass {
    Discrete,
    Integrated,
    Other,
}

/// The features the renderer cannot run without.
#[derive(Clone, Copy, Debug, PartialEq, Eq, Structural)]
pub struct DeviceFeatures {
    pub geometry_shader: bool,
    pub shader_draw_parameters: bool,
    pub buffer_device_address: bool,
}

/// What one queue family can do: run graphics work, and present to the
/// target surface.
#[derive(Clone, Copy, Debug, PartialEq, Eq, Structural)]
pub struct QueueFamilyCaps {
    pub graphics: bool,
    pub present: bool,
}

/// One enumerated physical device.
#[derive(Clone, Debug)]
pub struct Candidate {
    pub class: DeviceClass,
    pub features: DeviceFeatures,
    /// The largest 2D image dimension the device supports.
    pub max_image_dimension_2d: u32,
    pub queue_families: Vec<QueueFamilyCaps>,
}

/// The queue families chosen on the selected device.
#[derive(Clone, Copy, Debug, PartialEq, Eq, Structural)]
pub struct QueueFamilySelection {
    pub graphics_index: u32,
    pub present_index: u32,
}

/// What device creation needs: the chosen candidate, its queue families,
/// and the family of each queue-creation record.
#[derive(Clone, Debug)]
pub struct DevicePlan {
    pub device_index: usize,
    pub queues: QueueFamilySelection,
    pub queue_create_families: Vec<u32>,
}

/// Score bonus of a discrete device.
pub const DISCRETE_BONUS: u64 = 1000;

pub open spec fn features_ok(f: DeviceFeatures) -> bool {
    f.geometry_shader && f.shader_draw_parameters && f.buffer_device_address
}

/// Family `f` has the capabilities asked for (a `false` asks for nothing).
pub open spec fn fits(f: QueueFamilyCaps, want_graphics: bool, want_present: bool) -> bool {
    (want_graphics ==> f.graphics) && (want_present ==> f.present)
}

pub open spec fn has_family(s: Seq<QueueFamilyCaps>, want_graphics: bool, want_present: bool) -> bool {
    exists|i: int| 0 <= i < s.len() && #[trigger] fits(s[i], want_graphics, want_present)
}

/// `i` is the first family of `s` with the capabilities asked for.
pub open spec fn is_first(s: Seq<QueueFamilyCaps>, i: int, want_graphics: bool, want_present: bool) -> bool {
    &&& 0 <= i < s.len()
    &&& fits(s[i], want_graphics, want_present)
    &&& forall|j: int| 0 <= j < i ==> !#[trigger] fits(s[j], want_graphics, want_present)
}

/// At least one graphics family and one present family (maybe the same).
pub open spec fn queue_reqs_met(s: Seq<QueueFamilyCaps>) -> bool {
    has_family(s, true, false) && has_family(s, false, true)
}

pub open spec fn suitable(c: Candidate) -> bool {
    features_ok(c.features) && queue_reqs_met(c.queue_families@)
}

pub open spec fn score(c: Candidate) -> int {
    (if c.class == DeviceClass::Discrete { DISCRETE_BONUS as int } else { 0int })
        + c.max_image_dimension_2d as int
}

/// `i` is the suitable candidate of highest score, the first of those on a tie.
pub open spec fn is_best(cs: Seq<Candidate>, i: int) -> bool {
    &&& 0 <= i < cs.len()
    &&& suitable(cs[i])
    &&& forall|j: int| 0 <= j < cs.len() && #[trigger] suitable(cs[j]) ==> score(cs[j]) <= score(cs[i])
    &&& forall|j: int| 0 <= j < i && #[trigger] suitable(cs[j]) ==> score(cs[j]) < score(cs[i])
}

pub open spec fn any_suitable(cs: Seq<Candidate>) -> bool {
    exists|i: int| 0 <= i < cs.len() && #[trigger] suitable(cs[i])
}

/// Selection is deterministic: at most one candidate is the best, so the
/// highest score wins and a tie goes to the first enumerated.
pub proof fn lemma_best_is_unique(cs: Seq<Candidate>, i: int, j: int)
    requires
        is_best(cs, i),
        is_best(cs, j),
    ensures
        i == j,
{
    if i < j {
        assert(score(cs[i]) < score(cs[j]));
    } else if j < i {
        assert(score(cs[j]) < score(cs[i]));
    }
}

/// A candidate that lacks a required feature, a graphics family or a
/// present family is never the one chosen, whatever its score.
pub proof fn lemma_unsuitable_never_chosen(cs: Seq<Candidate>, i: int)
    requires
        0 <= i < cs.len(),
        !suitable(cs[i]),
    ensures
        !is_best(cs, i),
{
}

/// The selection a family table calls for: one family that does both when
/// there is one (the first such), else the first graphics family and the
/// first present family.
pub open spec fn is_queue_selection(s: Seq<QueueFamilyCaps>, sel: QueueFamilySelection) -> bool {
    if has_family(s, true, true) {
        is_first(s, sel.graphics_index as int, true, true) && sel.present_index == sel.graphics_index
    } else {
        is_first(s, sel.graphics_index as int, true, false)
            && is_first(s, sel.present_index as int, false, true)
    }
}

/// One queue-creation record for each distinct family of the selection.
pub open spec fn queue_create_families(sel: QueueFamilySelection) -> Seq<u32> {
    if sel.graphics_index == sel.present_index {
        seq![sel.graphics_index]
    } else {
        seq![sel.graphics_index, sel.present_index]
    }
}

/// The first family of `fams` with the capabilities asked for, if any.
fn first_family(fams: &Vec<QueueFamilyCaps>, want_graphics: bool, want_present: bool) -> (r: Option<usize>)
    ensures
        match r {
            Some(i) => is_first(fams@, i as int, want_graphics, want_present),
            None => !has_family(fams@, want_graphics, want_present),
        },
{
    let mut i: usize = 0;
    while i < fams.len()
        invariant
            0 <= i <= fams.len(),
            forall|j: int| 0 <= j < i ==> !#[trigger] fits(fams@[j], want_graphics, want_present),
        decreases fams.len() - i,
    {
        let f = fams[i];
        if (!want_graphics || f.graphics) && (!want_present || f.present) {
            return Some(i);
        }
        i = i + 1;
    }
    None
}

/// The required features are all present.
pub fn has_required_features(f: &DeviceFeatures) -> (r: bool)
    ensures
        r == features_ok(*f),
{
    f.geometry_shader && f.shader_draw_parameters && f.buffer_device_address
}

/// The score of a candidate: a bonus for a discrete device plus its largest
/// image dimension.
pub fn candidate_score(c: &Candidate) -> (r: u64)
    ensures
        r as int == score(*c),
{
    let bonus: u64 = match c.class {
        DeviceClass::Discrete => DISCRETE_BONUS,
        _ => 0,
    };
    bonus + c.max_image_dimension_2d as u64
}

/// A family count that fits the `u32` indices of the API.
pub open spec fn family_counts_fit(cs: Seq<Candidate>) -> bool {
    forall|i: int| 0 <= i < cs.len() ==> (#[trigger] cs[i]).queue_families@.len() <= u32::MAX
}

/// The device this library was set up on, and the queue families it uses.
pub struct DeviceContext {
    pub physical_device: ash::vk::PhysicalDevice,
    pub device: ash::Device,
    pub graphics_index: u32,
    pub present_index: u32,
    pub graphics_queue: ash::vk::Queue,
    pub present_queue: ash::vk::Queue,
}

impl DeviceContext {
    /// Whether a family table has a graphics family and a present family.
    pub fn has_minimum_queue_families_reqs(fams: &Vec<QueueFamilyCaps>) -> (r: bool)
        ensures
            r == queue_reqs_met(fams@),
    {
        let g = first_family(fams, true, false);
        let p = first_family(fams, false, true);
        g.is_some() && p.is_some()
    }

    /// Whether a candidate meets every requirement.
    pub fn is_suitable(c: &Candidate) -> (r: bool)
        ensures
            r == suitable(*c),
    {
        has_required_features(&c.features) && DeviceContext::has_minimum_queue_families_reqs(
            &c.queue_families,
        )
    }

    /// Picks the suitable candidate of highest score, the first one on a tie.
    pub fn pick_physical_device(cands: &Vec<Candidate>) -> (r: Result<usize, AppError>)
        ensures
            cands.len() == 0 <==> r == Err::<usize, AppError>(AppError::NoDevices),
            (cands.len() > 0 && !any_suitable(cands@)) <==> r == Err::<usize, AppError>(
                AppError::NoSuitableDevice,
            ),
            any_suitable(cands@) <==> r.is_ok(),
            r matches Ok(i) ==> is_best(cands@, i as int),
    {
        if cands.len() == 0 {
            return Err(AppError::NoDevices);
        }
        let mut best: Option<usize> = None;
        let mut best_score: u64 = 0;
        let mut i: usize = 0;
        while i < cands.len()
            invariant
                0 <= i <= cands.len(),
                match best {
                    Some(b) => {
                        &&& b < i
                        &&& suitable(cands@[b as int])
                        &&& best_score as int == score(cands@[b as int])
                        &&& forall|j: int|
                            0 <= j < i && #[trigger] suitable(cands@[j]) ==> score(cands@[j])
                                <= best_score
                        &&& forall|j: int|
                            0 <= j < b && #[trigger] suitable(cands@[j]) ==> score(cands@[j])
                                < best_score
                    },
                    None => forall|j: int| 0 <= j < i ==> !#[trigger] suitable(cands@[j]),
                },
            decreases cands.len() - i,
        {
            let c = &cands[i];
            if DeviceContext::is_suitable(c) {
                let s = candidate_score(c);
                match best {
                    Some(_) => {
                        if s > best_score {
                            best = Some(i);
                            best_score = s;
                        }
                    },
                    None => {
                        best = Some(i);
                        best_score = s;
                    },
                }
            }
            i = i + 1;
        }
        match best {
            Some(b) => Ok(b),
            None => Err(AppError::NoSuitableDevice),
        }
    }

    /// Chooses the graphics and present families on a table that has both.
    pub fn find_queue_families(fams: &Vec<QueueFamilyCaps>) -> (r: QueueFamilySelection)
        requires
            queue_reqs_met(fams@),
            fams.len() <= u32::MAX as usize + 1,
        ensures
            is_queue_selection(fams@, r),
    {
        match first_family(fams, true, true) {
            Some(i) => QueueFamilySelection { graphics_index: i as u32, present_index: i as u32 },
            None => {
                let g = first_family(fams, true, false).unwrap();
                let p = first_family(fams, false, true).unwrap();
                QueueFamilySelection { graphics_index: g as u32, present_index: p as u32 }
            },
        }
    }

    /// The family of each queue-creation record: one per distinct family.
    pub fn queue_create_families(sel: &QueueFamilySelection) -> (r: Vec<u32>)
        ensures
            r@ == queue_create_families(*sel),
    {
        if sel.graphics_index == sel.present_index {
            vec![sel.graphics_index]
        } else {
            vec![sel.graphics_index, sel.present_index]
        }
    }

    /// Chooses the device, its queue families and its queue-creation
    /// records from the enumerated candidates.
    pub fn plan(cands: &Vec<Candidate>) -> (r: Result<DevicePlan, AppError>)
        requires
            family_counts_fit(cands@),
        ensures
            cands.len() == 0 <==> r == Err::<DevicePlan, AppError>(AppError::NoDevices),
            (cands.len() > 0 && !any_suitable(cands@)) <==> r == Err::<DevicePlan, AppError>(
                AppError::NoSuitableDevice,
            ),
            any_suitable(cands@) <==> r.is_ok(),
            r matches Ok(p) ==> {
                &&& is_best(cands@, p.device_index as int)
                &&& is_queue_selection(cands@[p.device_index as int].queue_families@, p.queues)
                &&& p.queue_create_families@ == queue_create_families(p.queues)
            },
    {
        let i = match DeviceContext::pick_physical_device(cands) {
            Ok(i) => i,
            Err(e) => {
                return Err(e);
            },
        };
        let queues = DeviceContext::find_queue_families(&cands[i].queue_families);
        let families = DeviceContext::queue_create_families(&queues);
        Ok(DevicePlan { device_index: i, queues, queue_create_families: families })
    }

    /// Assembles the context from the created device and its queues.
    pub fn new(
        physical_device: ash::vk::PhysicalDevice,
        device: ash::Device,
        queues: QueueFamilySelection,
        graphics_queue: ash::vk::Queue,
        present_queue: ash::vk::Queue,
    ) -> (r: DeviceContext)
        ensures
            r.physical_device == physical_device,
            r.device == device,
            r.graphics_index == queues.graphics_index,
            r.present_index == queues.present_index,
            r.graphics_queue == graphics_queue,
            r.present_queue == present_queue,
    {
        DeviceContext {
            physical_device,
            device,
            graphics_index: queues.graphics_index,
            present_index: queues.present_index,
            graphics_queue,
            present_queue,
        }
    }

    pub fn device(&self) -> (r: &ash::Device)
        ensures
            *r == self.device,
    {
        &self.device
    }

    pub fn phys_device(&self) -> (r: ash::vk::PhysicalDevice)
        ensures
            r == self.physical_device,
    {
        self.physical_device
    }

    /// The queue families in use.
    pub fn queues(&self) -> (r: QueueFamilySelection)
        ensures
            r.graphics_index == self.graphics_index,
            r.present_index == self.present_index,
    {
        QueueFamilySelection { graphics_index: self.graphics_index, present_index: self.present_index }
    }
}

} // verus!
