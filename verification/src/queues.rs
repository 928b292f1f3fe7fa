//! Choosing the queue families for graphics and for presentation, and how
//! the swapchain's images are shared between them.

use vstd::prelude::*;

use crate::error::{unsuitable, SetupError, Unsuitability, SuitabilityError, VulkanError};
use crate::model::QUEUE_GRAPHICS_BIT;

verus! {

/// The queue families that the renderer uses.
#[derive(Clone, Copy, Debug, PartialEq, Eq, Structural)]
pub struct QueueFamilyIndices {
    pub graphics: u32,
    pub present: u32,
}

/// Whether a queue family with these flag bits supports graphics.
pub open spec fn supports_graphics(flags: u32) -> bool {
    flags & QUEUE_GRAPHICS_BIT == QUEUE_GRAPHICS_BIT
}

/// `i` is the first family that supports graphics.
pub open spec fn is_first_graphics_family(flags: Seq<u32>, i: int) -> bool {
    &&& 0 <= i < flags.len()
    &&& supports_graphics(flags[i])
    &&& forall|j: int| 0 <= j < i ==> !supports_graphics(#[trigger] flags[j])
}

/// An answer to "can this family present to the surface?" that ends the
/// search: a yes, or a failed query.
pub open spec fn ends_present_search(answer: Result<bool, VulkanError>) -> bool {
    answer != Ok::<bool, VulkanError>(false)
}

/// `i` is the first answer that ends the search for a present family.
pub open spec fn is_first_present_answer(answers: Seq<Result<bool, VulkanError>>, i: int) -> bool {
    &&& 0 <= i < answers.len()
    &&& ends_present_search(answers[i])
    &&& forall|j: int| 0 <= j < i ==> !ends_present_search(#[trigger] answers[j])
}

/// The graphics family: the first family whose flags include graphics.
pub open spec fn graphics_family(flags: Seq<u32>) -> Option<u32> {
    if exists|i: int| is_first_graphics_family(flags, i) {
        Some((choose|i: int| is_first_graphics_family(flags, i)) as u32)
    } else {
        None
    }
}

/// The present family: the first family the surface can be presented from,
/// or the error of the first query that failed before one was found.
pub open spec fn present_family(answers: Seq<Result<bool, VulkanError>>) -> Result<Option<u32>, VulkanError> {
    if exists|i: int| is_first_present_answer(answers, i) {
        let i = choose|i: int| is_first_present_answer(answers, i);
        match answers[i] {
            Ok(_) => Ok(Some(i as u32)),
            Err(e) => Err(e),
        }
    } else {
        Ok(None)
    }
}

/// The outcome of choosing queue families.
pub open spec fn queue_family_choice(
    flags: Seq<u32>,
    answers: Seq<Result<bool, VulkanError>>,
) -> Result<QueueFamilyIndices, SetupError> {
    match present_family(answers) {
        Err(e) => Err(SetupError::Vulkan(e)),
        Ok(present) => match (graphics_family(flags), present) {
            (Some(g), Some(p)) => Ok(QueueFamilyIndices { graphics: g, present: p }),
            _ => Err(unsuitable(Unsuitability::MissingQueueFamilies)),
        },
    }
}

proof fn lemma_first_graphics_unique(flags: Seq<u32>, i: int, k: int)
    requires
        is_first_graphics_family(flags, i),
        is_first_graphics_family(flags, k),
    ensures
        i == k,
{
    if i < k {
        assert(!supports_graphics(flags[i]));
    } else if k < i {
        assert(!supports_graphics(flags[k]));
    }
}

proof fn lemma_first_present_unique(answers: Seq<Result<bool, VulkanError>>, i: int, k: int)
    requires
        is_first_present_answer(answers, i),
        is_first_present_answer(answers, k),
    ensures
        i == k,
{
    if i < k {
        assert(!ends_present_search(answers[i]));
    } else if k < i {
        assert(!ends_present_search(answers[k]));
    }
}

impl QueueFamilyIndices {
    /// Chooses the queue families of a physical device from the flags of its
    /// queue families (in order) and from the answers, in the same order, to
    /// whether each family can present to the surface. The answers need only
    /// go as far as the first yes or the first failed query: later ones are
    /// never read.
    pub fn get(
        queue_flags: &Vec<u32>,
        present_support: &Vec<Result<bool, VulkanError>>,
    ) -> (r: Result<QueueFamilyIndices, SetupError>)
        ensures
            r == queue_family_choice(queue_flags@, present_support@),
            queue_flags@.len() <= u32::MAX && present_support@.len() <= u32::MAX ==> (r matches Ok(q)
                ==> {
                &&& is_first_graphics_family(queue_flags@, q.graphics as int)
                &&& is_first_present_answer(present_support@, q.present as int)
                &&& present_support@[q.present as int] == Ok::<bool, VulkanError>(true)
            }),
    {
        let mut graphics: Option<u32> = None;
        let mut i: usize = 0;
        while i < queue_flags.len()
            invariant_except_break
                graphics is None,
            invariant
                0 <= i <= queue_flags@.len(),
                forall|j: int| 0 <= j < i ==> !supports_graphics(#[trigger] queue_flags@[j]),
            ensures
                graphics is None ==> i == queue_flags@.len(),
                graphics is Some ==> i < queue_flags@.len() && supports_graphics(queue_flags@[i as int])
                    && graphics == Some(i as u32),
            decreases queue_flags@.len() - i,
        {
            if queue_flags[i] & QUEUE_GRAPHICS_BIT == QUEUE_GRAPHICS_BIT {
                graphics = Some(i as u32);
                break;
            }
            i = i + 1;
        }
        proof {
            if graphics is Some {
                assert(is_first_graphics_family(queue_flags@, i as int));
                lemma_first_graphics_unique_all(queue_flags@, i as int);
            } else {
                assert forall|k: int| !is_first_graphics_family(queue_flags@, k) by {
                    if is_first_graphics_family(queue_flags@, k) {
                        assert(!supports_graphics(queue_flags@[k]));
                    }
                }
            }
        }
        let mut present: Option<u32> = None;
        let mut k: usize = 0;
        while k < present_support.len()
            invariant_except_break
                present is None,
            invariant
                0 <= k <= present_support@.len(),
                forall|j: int| 0 <= j < k ==> !ends_present_search(#[trigger] present_support@[j]),
            ensures
                present is None ==> k == present_support@.len(),
                present is Some ==> k < present_support@.len()
                    && present_support@[k as int] == Ok::<bool, VulkanError>(true)
                    && present == Some(k as u32),
            decreases present_support@.len() - k,
        {
            match present_support[k] {
                Err(e) => {
                    proof {
                        assert(is_first_present_answer(present_support@, k as int));
                        lemma_first_present_unique_all(present_support@, k as int);
                    }
                    return Err(SetupError::Vulkan(e));
                },
                Ok(true) => {
                    present = Some(k as u32);
                    break;
                },
                Ok(false) => {},
            }
            k = k + 1;
        }
        proof {
            if present is Some {
                assert(is_first_present_answer(present_support@, k as int));
                lemma_first_present_unique_all(present_support@, k as int);
            } else {
                assert forall|m: int| !is_first_present_answer(present_support@, m) by {
                    if is_first_present_answer(present_support@, m) {
                        assert(!ends_present_search(present_support@[m]));
                    }
                }
            }
        }
        match (graphics, present) {
            (Some(graphics), Some(present)) => Ok(QueueFamilyIndices { graphics, present }),
            _ => Err(SetupError::Unsuitable(SuitabilityError(Unsuitability::MissingQueueFamilies))),
        }
    }
}

pub(crate) proof fn lemma_first_graphics_unique_all(flags: Seq<u32>, i: int)
    requires
        is_first_graphics_family(flags, i),
    ensures
        (choose|k: int| is_first_graphics_family(flags, k)) == i,
{
    let k = choose|k: int| is_first_graphics_family(flags, k);
    lemma_first_graphics_unique(flags, i, k);
}

pub(crate) proof fn lemma_first_present_unique_all(answers: Seq<Result<bool, VulkanError>>, i: int)
    requires
        is_first_present_answer(answers, i),
    ensures
        (choose|k: int| is_first_present_answer(answers, k)) == i,
{
    let k = choose|k: int| is_first_present_answer(answers, k);
    lemma_first_present_unique(answers, i, k);
}

/// The distinct queue families that the logical device needs queues from.
pub open spec fn unique_families(indices: QueueFamilyIndices) -> Seq<u32> {
    if indices.graphics == indices.present {
        seq![indices.graphics]
    } else {
        seq![indices.graphics, indices.present]
    }
}

/// Lists each queue family that the renderer uses once.
pub fn unique_queue_families(indices: &QueueFamilyIndices) -> (r: Vec<u32>)
    ensures
        r@ == unique_families(*indices),
        r@.contains(indices.graphics),
        r@.contains(indices.present),
        r@.no_duplicates(),
{
    let mut families: Vec<u32> = Vec::new();
    families.push(indices.graphics);
    if indices.present != indices.graphics {
        families.push(indices.present);
    }
    proof {
        assert(families@[0] == indices.graphics);
        if indices.present != indices.graphics {
            assert(families@[1] == indices.present);
        }
    }
    families
}

/// How swapchain images are shared between queue families.
#[derive(Clone, Copy, Debug, PartialEq, Eq, Structural)]
pub enum SharingMode {
    /// Owned by one queue family at a time.
    Exclusive,
    /// Used by the listed queue families without ownership transfers.
    Concurrent,
}

/// The sharing mode for the swapchain and the queue families it is shared
/// between: concurrent between the two families where they differ, exclusive
/// with no list where they are the same.
pub fn image_sharing(indices: &QueueFamilyIndices) -> (r: (SharingMode, Vec<u32>))
    ensures
        indices.graphics != indices.present ==> r.0 == SharingMode::Concurrent
            && r.1@ == seq![indices.graphics, indices.present],
        indices.graphics == indices.present ==> r.0 == SharingMode::Exclusive && r.1@.len() == 0,
{
    let mut queue_family_indices: Vec<u32> = Vec::new();
    if indices.graphics != indices.present {
        queue_family_indices.push(indices.graphics);
        queue_family_indices.push(indices.present);
        (SharingMode::Concurrent, queue_family_indices)
    } else {
        (SharingMode::Exclusive, queue_family_indices)
    }
}

} // verus!
