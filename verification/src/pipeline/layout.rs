//! The layout of a pipeline: the layouts of the descriptor sets that can be
//! bound when the pipeline is in use.

use crate::descriptor_set::layout::DescriptorDesc;
use crate::descriptor_set::layout::DescriptorSetDesc;
use crate::descriptor_set::layout::DescriptorSetLayout;
use crate::descriptor_set::layout::MAX_BINDINGS;
use crate::pipeline::shader::truncate_count;
use crate::device::Device;
use crate::OomError;
use std::sync::Arc;
use vstd::prelude::*;

verus! {

/// Describes the layout of descriptor sets that can be bound when a
/// pipeline is in use.
#[derive(Debug)]
pub struct PipelineLayout {
    handle: u64,
    device: Arc<Device>,
    descriptor_set_layouts: Vec<Arc<DescriptorSetLayout>>,
}

impl PipelineLayout {
    /// The number that identifies the native layout object.
    pub closed spec fn spec_handle(self) -> u64 {
        self.handle
    }

    /// The device that the layout was created on.
    pub closed spec fn spec_device(self) -> Device {
        *self.device
    }

    /// The layouts of the descriptor sets, by set number.
    pub closed spec fn spec_descriptor_set_layouts(self) -> Seq<Arc<DescriptorSetLayout>> {
        self.descriptor_set_layouts@
    }

    /// Describes the layout object `handle`, which was created on `device`
    /// for sets of the given layouts.
    pub fn new(
        handle: u64,
        device: Arc<Device>,
        descriptor_set_layouts: Vec<Arc<DescriptorSetLayout>>,
    ) -> (r: PipelineLayout)
        ensures
            r.spec_handle() == handle,
            r.spec_device() == *device,
            r.spec_descriptor_set_layouts() == descriptor_set_layouts@,
    {
        PipelineLayout { handle, device, descriptor_set_layouts }
    }

    /// Returns the number that identifies the native layout object.
    pub fn handle(&self) -> (r: u64)
        ensures
            r == self.spec_handle(),
    {
        self.handle
    }

    /// Returns the device that the layout was created on.
    pub fn device(&self) -> (r: &Arc<Device>)
        ensures
            **r == self.spec_device(),
    {
        &self.device
    }

    /// Returns the layouts of the descriptor sets, by set number.
    pub fn descriptor_set_layouts(&self) -> (r: &Vec<Arc<DescriptorSetLayout>>)
        ensures
            r@ == self.spec_descriptor_set_layouts(),
    {
        &self.descriptor_set_layouts
    }
}

/// Error when checking whether a pipeline layout is within the limits of a
/// device.
#[derive(Debug, Copy, Clone, PartialEq, Eq, Structural)]
pub enum PipelineLayoutLimitsError {
    /// The maximum number of descriptor sets has been exceeded.
    MaxDescriptorSetsLimitExceeded {
        /// The limit that must be fulfilled.
        limit: u32,
        /// What was requested.
        requested: u32,
    },
    /// The maximum size of push constants has been exceeded.
    MaxPushConstantsSizeExceeded {
        /// The limit that must be fulfilled.
        limit: u32,
        /// What was requested.
        requested: u32,
    },
}

/// Error that can happen when creating a pipeline layout.
#[derive(Debug, Copy, Clone, PartialEq, Eq, Structural)]
pub enum PipelineLayoutCreationError {
    /// Not enough memory.
    OomError(OomError),
    /// The pipeline layout description doesn't fulfill the limit
    /// requirements.
    LimitsError(PipelineLayoutLimitsError),
    /// One of the push constants range didn't obey the rules. The list of
    /// stages must not be empty, the size must not be 0, and the size must
    /// be a multiple or 4.
    InvalidPushConstant,
    /// Conflict between different push constants ranges.
    PushConstantsConflict,
}

/// Error when checking whether a pipeline layout is a superset of another
/// one.
#[derive(Debug, Copy, Clone, PartialEq, Eq, Structural)]
pub enum PipelineLayoutSupersetError {
    /// A set of the one layout has less descriptors than the same set of
    /// the other.
    DescriptorsCountMismatch { set_num: u32, self_num_descriptors: u32, other_num_descriptors: u32 },
    /// A descriptor that the other layout has is empty in this one.
    DescriptorMissing { set_num: u32, descriptor: u32 },
    /// A descriptor of the one layout does not meet what the other asks of
    /// it.
    DescriptorRequirementsNotMet { set_num: u32, descriptor: u32 },
}

/// What is wrong with one binding of a layout for a shader that asks for
/// `required` at that binding, if anything: a shader that asks for nothing
/// is content, and any other finds a descriptor that is good for it.
pub open spec fn binding_violation(
    mine: Option<DescriptorDesc>,
    required: Option<DescriptorDesc>,
    set_num: u32,
    descriptor: u32,
) -> Option<PipelineLayoutSupersetError> {
    match required {
        None => None,
        Some(theirs) => match mine {
            None => Some(PipelineLayoutSupersetError::DescriptorMissing { set_num, descriptor }),
            Some(own) => if own.spec_satisfies(theirs) {
                None
            } else {
                Some(
                    PipelineLayoutSupersetError::DescriptorRequirementsNotMet {
                        set_num,
                        descriptor,
                    },
                )
            },
        },
    }
}

/// The first thing that is wrong among the first `count` bindings of a
/// set, in the order of the bindings.
pub open spec fn bindings_violation(
    mine: Seq<Option<DescriptorDesc>>,
    required: Seq<Option<DescriptorDesc>>,
    set_num: u32,
    count: nat,
) -> Option<PipelineLayoutSupersetError>
    decreases count,
{
    if count == 0 {
        None
    } else {
        match bindings_violation(mine, required, set_num, (count - 1) as nat) {
            Some(error) => Some(error),
            None => binding_violation(
                mine[count - 1],
                required[count - 1],
                set_num,
                (count - 1) as u32,
            ),
        }
    }
}

/// What is wrong with a set of a layout for a shader that asks for the
/// bindings `required`, if anything: the set has at least as many bindings
/// as the shader asks for, and each of them is good for the shader.
pub open spec fn set_violation(
    mine: Seq<Option<DescriptorDesc>>,
    required: Seq<Option<DescriptorDesc>>,
    set_num: u32,
) -> Option<PipelineLayoutSupersetError> {
    if mine.len() < required.len() {
        Some(
            PipelineLayoutSupersetError::DescriptorsCountMismatch {
                set_num,
                self_num_descriptors: mine.len() as u32,
                other_num_descriptors: required.len() as u32,
            },
        )
    } else {
        bindings_violation(mine, required, set_num, required.len())
    }
}

/// The bindings of set number `set` of a layout. A set that the layout does
/// not have is a set without bindings.
pub open spec fn bindings_of_set(layouts: Seq<Arc<DescriptorSetLayout>>, set: int) -> Seq<
    Option<DescriptorDesc>,
> {
    if 0 <= set < layouts.len() {
        layouts[set].spec_bindings()
    } else {
        Seq::empty()
    }
}

/// The first thing that is wrong among the first `count` sets of a layout
/// for shaders that ask for the sets `required`, in the order of the sets.
pub open spec fn sets_violation(
    layouts: Seq<Arc<DescriptorSetLayout>>,
    required: Seq<DescriptorSetDesc>,
    count: nat,
) -> Option<PipelineLayoutSupersetError>
    decreases count,
{
    if count == 0 {
        None
    } else {
        match sets_violation(layouts, required, (count - 1) as nat) {
            Some(error) => Some(error),
            None => set_violation(
                bindings_of_set(layouts, count - 1),
                required[count - 1].spec_bindings(),
                (count - 1) as u32,
            ),
        }
    }
}

/// What is found among the first bindings of a set is what is found in
/// the whole set.
proof fn lemma_bindings_violation_prefix(
    mine: Seq<Option<DescriptorDesc>>,
    required: Seq<Option<DescriptorDesc>>,
    set_num: u32,
    n: nat,
    m: nat,
)
    requires
        n <= m,
        bindings_violation(mine, required, set_num, n) is Some,
    ensures
        bindings_violation(mine, required, set_num, m) == bindings_violation(
            mine,
            required,
            set_num,
            n,
        ),
    decreases m - n,
{
    if n < m {
        lemma_bindings_violation_prefix(mine, required, set_num, n, (m - 1) as nat);
    }
}

/// What is found among the first sets of a layout is what is found in the
/// whole layout.
proof fn lemma_sets_violation_prefix(
    layouts: Seq<Arc<DescriptorSetLayout>>,
    required: Seq<DescriptorSetDesc>,
    n: nat,
    m: nat,
)
    requires
        n <= m,
        sets_violation(layouts, required, n) is Some,
    ensures
        sets_violation(layouts, required, m) == sets_violation(layouts, required, n),
    decreases m - n,
{
    if n < m {
        lemma_sets_violation_prefix(layouts, required, n, (m - 1) as nat);
    }
}

/// Holds the bindings of one set against what a shader asks of the set.
fn check_set(
    mine: Option<&Vec<Option<DescriptorDesc>>>,
    required: &Vec<Option<DescriptorDesc>>,
    set_num: u32,
) -> (r: Option<PipelineLayoutSupersetError>)
    requires
        required@.len() <= MAX_BINDINGS,
    ensures
        r == set_violation(
            match mine {
                Some(bindings) => bindings@,
                None => Seq::empty(),
            },
            required@,
            set_num,
        ),
{
    let ghost own = match mine {
        Some(bindings) => bindings@,
        None => Seq::empty(),
    };
    let own_len = match mine {
        Some(bindings) => bindings.len(),
        None => 0,
    };
    if own_len < required.len() {
        return Some(
            PipelineLayoutSupersetError::DescriptorsCountMismatch {
                set_num,
                self_num_descriptors: truncate_count(own_len),
                other_num_descriptors: truncate_count(required.len()),
            },
        );
    }
    let mut descriptor: usize = 0;
    while descriptor < required.len()
        invariant
            descriptor <= required.len() <= own_len,
            required@.len() <= MAX_BINDINGS,
            own_len == own.len(),
            own == match mine {
                Some(bindings) => bindings@,
                None => Seq::empty(),
            },
            bindings_violation(own, required@, set_num, descriptor as nat) is None,
        decreases required.len() - descriptor,
    {
        let found = match &required[descriptor] {
            None => None,
            Some(theirs) => {
                let bindings = mine.unwrap();
                match &bindings[descriptor] {
                    None => Some(
                        PipelineLayoutSupersetError::DescriptorMissing {
                            set_num,
                            descriptor: descriptor as u32,
                        },
                    ),
                    Some(own_desc) => if own_desc.satisfies(theirs) {
                        None
                    } else {
                        Some(
                            PipelineLayoutSupersetError::DescriptorRequirementsNotMet {
                                set_num,
                                descriptor: descriptor as u32,
                            },
                        )
                    },
                }
            },
        };
        assert(found == binding_violation(
            own[descriptor as int],
            required@[descriptor as int],
            set_num,
            descriptor as u32,
        ));
        assert(bindings_violation(own, required@, set_num, (descriptor + 1) as nat) == found);
        if found.is_some() {
            proof {
                lemma_bindings_violation_prefix(
                    own,
                    required@,
                    set_num,
                    (descriptor + 1) as nat,
                    required@.len(),
                );
            }
            return found;
        }
        descriptor += 1;
    }
    None
}

impl PipelineLayout {
    /// What is wrong with the layout for shaders that ask for the sets
    /// `required`, if anything: the first set, and in it the first binding,
    /// that does not give a shader what it asks for.
    pub open spec fn superset_violation(self, required: Seq<DescriptorSetDesc>) -> Option<
        PipelineLayoutSupersetError,
    > {
        sets_violation(self.spec_descriptor_set_layouts(), required, required.len())
    }

    /// Makes sure that the layout gives shaders what they ask for: `required`
    /// holds the descriptors that the shaders access, by set number.
    ///
    /// Returns `Ok` if each set of the layout has the descriptors that the
    /// shaders access in it, and the first set and binding that does not
    /// otherwise.
    pub fn ensure_superset_of(&self, required: &Vec<DescriptorSetDesc>) -> (r: Result<
        (),
        PipelineLayoutSupersetError,
    >)
        ensures
            r == match self.superset_violation(required@) {
                Some(error) => Err::<(), PipelineLayoutSupersetError>(error),
                None => Ok(()),
            },
    {
        let mut set: usize = 0;
        while set < required.len()
            invariant
                set <= required.len(),
                sets_violation(self.spec_descriptor_set_layouts(), required@, set as nat) is None,
            decreases required.len() - set,
        {
            let mine = if set < self.descriptor_set_layouts.len() {
                Some(self.descriptor_set_layouts[set].desc().bindings())
            } else {
                None
            };
            let found = check_set(mine, required[set].bindings(), truncate_count(set));
            assert(found == set_violation(
                bindings_of_set(self.spec_descriptor_set_layouts(), set as int),
                required@[set as int].spec_bindings(),
                set as u32,
            ));
            assert(sets_violation(self.spec_descriptor_set_layouts(), required@, (set + 1) as nat)
                == found);
            if let Some(error) = found {
                proof {
                    lemma_sets_violation_prefix(
                        self.spec_descriptor_set_layouts(),
                        required@,
                        (set + 1) as nat,
                        required@.len(),
                    );
                }
                return Err(error);
            }
            set += 1;
        }
        Ok(())
    }
}

} // verus!
