//! The request for a device: its limits, the steps from candidate to device,
//! and the search through the candidates.

use crate::renderer::wgpu::backend::{
    attempted, attempted_candidate_prefix, first_position, Backend, Backends, DeviceType, Platform,
    WgpuBackendCandidate,
};
use vstd::prelude::*;

verus! {

/// The limits of a device that rendering depends on.
#[derive(Debug, Clone, Copy, PartialEq, Eq, Structural)]
pub struct DeviceLimits {
    pub max_texture_dimension_1d: u32,
    pub max_texture_dimension_2d: u32,
    pub max_texture_dimension_3d: u32,
    pub max_uniform_buffer_binding_size: u64,
    pub min_uniform_buffer_offset_alignment: u32,
    pub min_storage_buffer_offset_alignment: u32,
    pub max_compute_workgroup_storage_size: u32,
    pub max_compute_invocations_per_workgroup: u32,
    pub max_compute_workgroup_size_x: u32,
    pub max_compute_workgroup_size_y: u32,
    pub max_compute_workgroup_size_z: u32,
    pub max_compute_workgroups_per_dimension: u32,
}

/// The portable limits that the rest of a request is built on.
#[derive(Debug, Clone, Copy, PartialEq, Eq, Structural)]
pub enum LimitsBaseline {
    /// What every GLES 3.1 adapter has.
    Downlevel,
    /// What every GLES 3.0 adapter has, which need not compute.
    DownlevelWebGl2,
}

/// The limits that every GLES 3.1 adapter has.
pub open spec fn downlevel() -> DeviceLimits {
    DeviceLimits {
        max_texture_dimension_1d: 2048,
        max_texture_dimension_2d: 2048,
        max_texture_dimension_3d: 256,
        max_uniform_buffer_binding_size: 16384,
        min_uniform_buffer_offset_alignment: 256,
        min_storage_buffer_offset_alignment: 256,
        max_compute_workgroup_storage_size: 16352,
        max_compute_invocations_per_workgroup: 256,
        max_compute_workgroup_size_x: 256,
        max_compute_workgroup_size_y: 256,
        max_compute_workgroup_size_z: 64,
        max_compute_workgroups_per_dimension: 65535,
    }
}

/// The limits that every GLES 3.0 adapter has: those of GLES 3.1 without
/// compute.
pub open spec fn downlevel_webgl2() -> DeviceLimits {
    DeviceLimits {
        max_compute_workgroup_storage_size: 0,
        max_compute_invocations_per_workgroup: 0,
        max_compute_workgroup_size_x: 0,
        max_compute_workgroup_size_y: 0,
        max_compute_workgroup_size_z: 0,
        max_compute_workgroups_per_dimension: 0,
        ..downlevel()
    }
}

/// `wgpu::Limits::downlevel_defaults`, which returns fixed limits: a texture
/// side of 2048 in one and two dimensions and 256 in three, uniform bindings of
/// 16 KiB, offsets aligned to 256, and the compute minima of GLES 3.1.
#[verifier::external_body]
fn downlevel_defaults() -> (limits: DeviceLimits)
    ensures
        limits == downlevel(),
{
    let l = ::wgpu::Limits::downlevel_defaults();
    DeviceLimits {
        max_texture_dimension_1d: l.max_texture_dimension_1d,
        max_texture_dimension_2d: l.max_texture_dimension_2d,
        max_texture_dimension_3d: l.max_texture_dimension_3d,
        max_uniform_buffer_binding_size: l.max_uniform_buffer_binding_size,
        min_uniform_buffer_offset_alignment: l.min_uniform_buffer_offset_alignment,
        min_storage_buffer_offset_alignment: l.min_storage_buffer_offset_alignment,
        max_compute_workgroup_storage_size: l.max_compute_workgroup_storage_size,
        max_compute_invocations_per_workgroup: l.max_compute_invocations_per_workgroup,
        max_compute_workgroup_size_x: l.max_compute_workgroup_size_x,
        max_compute_workgroup_size_y: l.max_compute_workgroup_size_y,
        max_compute_workgroup_size_z: l.max_compute_workgroup_size_z,
        max_compute_workgroups_per_dimension: l.max_compute_workgroups_per_dimension }
}

/// `wgpu::Limits::downlevel_webgl2_defaults`, which returns fixed limits. Of
/// those held here they are the ones of `downlevel_defaults`, with every
/// compute limit at zero.
#[verifier::external_body]
fn downlevel_webgl2_defaults() -> (limits: DeviceLimits)
    ensures
        limits == downlevel_webgl2(),
{
    let l = ::wgpu::Limits::downlevel_webgl2_defaults();
    DeviceLimits {
        max_texture_dimension_1d: l.max_texture_dimension_1d,
        max_texture_dimension_2d: l.max_texture_dimension_2d,
        max_texture_dimension_3d: l.max_texture_dimension_3d,
        max_uniform_buffer_binding_size: l.max_uniform_buffer_binding_size,
        min_uniform_buffer_offset_alignment: l.min_uniform_buffer_offset_alignment,
        min_storage_buffer_offset_alignment: l.min_storage_buffer_offset_alignment,
        max_compute_workgroup_storage_size: l.max_compute_workgroup_storage_size,
        max_compute_invocations_per_workgroup: l.max_compute_invocations_per_workgroup,
        max_compute_workgroup_size_x: l.max_compute_workgroup_size_x,
        max_compute_workgroup_size_y: l.max_compute_workgroup_size_y,
        max_compute_workgroup_size_z: l.max_compute_workgroup_size_z,
        max_compute_workgroups_per_dimension: l.max_compute_workgroups_per_dimension }
}

/// The baseline that a backend's devices are asked for.
pub fn limits_baseline(backend: Backend) -> (baseline: LimitsBaseline)
    ensures
        baseline == if backend == Backend::Gl {
            LimitsBaseline::DownlevelWebGl2
        } else {
            LimitsBaseline::Downlevel
        },
{
    if backend == Backend::Gl {
        LimitsBaseline::DownlevelWebGl2
    } else {
        LimitsBaseline::Downlevel
    }
}

/// The limits that a device is asked for: the portable baseline, with the
/// adapter's own texture resolution and buffer alignment.
pub open spec fn requested_limits(adapter: DeviceLimits, backend: Backend) -> DeviceLimits {
    DeviceLimits {
        max_texture_dimension_1d: adapter.max_texture_dimension_1d,
        max_texture_dimension_2d: adapter.max_texture_dimension_2d,
        max_texture_dimension_3d: adapter.max_texture_dimension_3d,
        min_uniform_buffer_offset_alignment: adapter.min_uniform_buffer_offset_alignment,
        min_storage_buffer_offset_alignment: adapter.min_storage_buffer_offset_alignment,
        ..if backend == Backend::Gl {
            downlevel_webgl2()
        } else {
            downlevel()
        }
    }
}

/// The limits that a device is asked for. The uniform binding size stays at the
/// 16 KiB that software Vulkan has, video textures keep the adapter's real
/// resolution, and GLES adapters are asked for no compute.
pub fn requested_device_limits(adapter_limits: DeviceLimits, backend: Backend) -> (limits:
    DeviceLimits)
    ensures
        limits == requested_limits(adapter_limits, backend),
{
    let baseline: DeviceLimits = match limits_baseline(backend) {
        LimitsBaseline::DownlevelWebGl2 => downlevel_webgl2_defaults(),
        LimitsBaseline::Downlevel => downlevel_defaults(),
    };
    DeviceLimits {
        max_texture_dimension_1d: adapter_limits.max_texture_dimension_1d,
        max_texture_dimension_2d: adapter_limits.max_texture_dimension_2d,
        max_texture_dimension_3d: adapter_limits.max_texture_dimension_3d,
        min_uniform_buffer_offset_alignment: adapter_limits.min_uniform_buffer_offset_alignment,
        min_storage_buffer_offset_alignment: adapter_limits.min_storage_buffer_offset_alignment,
        ..baseline
    }
}

/// What is known of an adapter.
#[derive(Debug, Clone, Copy, PartialEq, Eq, Structural)]
pub struct AdapterReport {
    pub backend: Backend,
    pub device_type: DeviceType,
    /// The adapter has 16-bit normalised textures.
    pub supports_16bit_norm: bool,
    pub limits: DeviceLimits,
}

/// Why a candidate has no device.
#[derive(Debug, Clone, Copy, PartialEq, Eq, Structural)]
pub enum DeviceFailure {
    InteropUnavailable,
    AdapterRequestFailed,
    /// The adapter computes on the processor, and better ones are still to be
    /// tried.
    SoftwareVulkanDeferred,
    DeviceRequestFailed,
}

/// A device that a candidate has produced.
#[derive(Debug, Clone, Copy, PartialEq, Eq, Structural)]
pub struct DeviceOutcome {
    pub candidate_index: usize,
    pub supports_16bit_norm: bool,
    /// The device shares buffers with the platform's decoders.
    pub interop: bool,
}

/// What is to be done next to get a candidate's device.
#[derive(Debug, Clone, Copy, PartialEq, Eq, Structural)]
pub enum DeviceStep {
    CreateInteropDevice,
    RequestAdapter { backends: Backends, force_fallback_adapter: bool },
    RequestDevice { require_16bit_norm: bool, limits: DeviceLimits },
    Created { device: DeviceOutcome },
    Failed { failure: DeviceFailure },
}

/// What came of a step.
#[derive(Debug, Clone, Copy, PartialEq, Eq, Structural)]
pub enum DeviceReply {
    /// An interop device, and whether it has 16-bit normalised textures.
    InteropDevice { supports_16bit_norm: bool },
    Adapter { report: AdapterReport },
    Device,
    /// The step failed.
    Refused,
}

/// Whether a software adapter has to wait until the other candidates have
/// failed.
pub open spec fn deferred(
    platform: Platform,
    candidate: WgpuBackendCandidate,
    device_type: DeviceType,
) -> bool {
    &&& platform == Platform::Android
    &&& candidate.backends == Backends::Vulkan
    &&& device_type == DeviceType::Cpu
    &&& !candidate.allow_cpu_adapter
}

/// Whether a candidate's device shares buffers with the platform's decoders.
pub open spec fn wants_interop(platform: Platform, candidate: WgpuBackendCandidate) -> bool {
    ||| platform == Platform::Android && candidate.android_ahb_interop
    ||| platform == Platform::Ohos && candidate.ohos_native_buffer_interop
}

/// The first step towards a candidate's device.
pub open spec fn first_step(platform: Platform, candidate: WgpuBackendCandidate) -> DeviceStep {
    if wants_interop(platform, candidate) {
        DeviceStep::CreateInteropDevice
    } else {
        DeviceStep::RequestAdapter {
            backends: candidate.backends,
            force_fallback_adapter: candidate.force_fallback_adapter,
        }
    }
}

/// Whether a reply can come of a step.
pub open spec fn answers(step: DeviceStep, reply: DeviceReply) -> bool {
    match step {
        DeviceStep::CreateInteropDevice => reply is InteropDevice || reply is Refused,
        DeviceStep::RequestAdapter { .. } => reply is Adapter || reply is Refused,
        DeviceStep::RequestDevice { .. } => reply is Device || reply is Refused,
        _ => false,
    }
}

/// The step that follows a reply.
pub open spec fn next_step(
    platform: Platform,
    candidate: WgpuBackendCandidate,
    index: usize,
    step: DeviceStep,
    reply: DeviceReply,
) -> DeviceStep {
    match (step, reply) {
        (
            DeviceStep::CreateInteropDevice,
            DeviceReply::InteropDevice { supports_16bit_norm },
        ) => DeviceStep::Created {
            device: DeviceOutcome { candidate_index: index, supports_16bit_norm, interop: true },
        },
        (DeviceStep::CreateInteropDevice, _) => DeviceStep::Failed {
            failure: DeviceFailure::InteropUnavailable,
        },
        (DeviceStep::RequestAdapter { .. }, DeviceReply::Adapter { report }) => if deferred(
            platform,
            candidate,
            report.device_type,
        ) {
            DeviceStep::Failed { failure: DeviceFailure::SoftwareVulkanDeferred }
        } else {
            DeviceStep::RequestDevice {
                require_16bit_norm: report.supports_16bit_norm,
                limits: requested_limits(report.limits, report.backend),
            }
        },
        (DeviceStep::RequestAdapter { .. }, _) => DeviceStep::Failed {
            failure: DeviceFailure::AdapterRequestFailed,
        },
        (
            DeviceStep::RequestDevice { require_16bit_norm, .. },
            DeviceReply::Device,
        ) => DeviceStep::Created {
            device: DeviceOutcome {
                candidate_index: index,
                supports_16bit_norm: require_16bit_norm,
                interop: false,
            },
        },
        (DeviceStep::RequestDevice { .. }, _) => DeviceStep::Failed {
            failure: DeviceFailure::DeviceRequestFailed,
        },
        (finished, _) => finished,
    }
}

/// The request for one candidate's device, step by step.
#[derive(Debug)]
pub struct DeviceRequest {
    pub platform: Platform,
    pub candidate: WgpuBackendCandidate,
    pub candidate_index: usize,
    pub step: DeviceStep,
}

impl DeviceRequest {
    /// A request that has not been answered yet.
    pub fn new(
        platform: Platform,
        candidate: WgpuBackendCandidate,
        candidate_index: usize,
    ) -> (request: Self)
        ensures
            request == (DeviceRequest {
                platform,
                candidate,
                candidate_index,
                step: first_step(platform, candidate),
            }),
    {
        let interop: bool = match platform {
            Platform::Android => candidate.android_ahb_interop,
            Platform::Ohos => candidate.ohos_native_buffer_interop,
            _ => false,
        };
        let step: DeviceStep = if interop {
            DeviceStep::CreateInteropDevice
        } else {
            DeviceStep::RequestAdapter {
                backends: candidate.backends,
                force_fallback_adapter: candidate.force_fallback_adapter,
            }
        };
        DeviceRequest { platform, candidate, candidate_index, step }
    }

    /// Takes in what came of the step. The 16-bit normalised textures that
    /// ten-bit video needs are asked for exactly where the adapter has them.
    pub fn answered(&mut self, reply: DeviceReply)
        requires
            answers(old(self).step, reply),
        ensures
            *final(self) == (DeviceRequest {
                step: next_step(
                    old(self).platform,
                    old(self).candidate,
                    old(self).candidate_index,
                    old(self).step,
                    reply,
                ),
                ..*old(self)
            }),
    {
        let step: DeviceStep = match (self.step, reply) {
            (
                DeviceStep::CreateInteropDevice,
                DeviceReply::InteropDevice { supports_16bit_norm },
            ) => DeviceStep::Created {
                device: DeviceOutcome {
                    candidate_index: self.candidate_index,
                    supports_16bit_norm,
                    interop: true,
                },
            },
            (DeviceStep::CreateInteropDevice, _) => DeviceStep::Failed {
                failure: DeviceFailure::InteropUnavailable,
            },
            (DeviceStep::RequestAdapter { .. }, DeviceReply::Adapter { report }) => {
                if self.platform == Platform::Android && self.candidate.backends == Backends::Vulkan
                    && report.device_type == DeviceType::Cpu && !self.candidate.allow_cpu_adapter {
                    DeviceStep::Failed { failure: DeviceFailure::SoftwareVulkanDeferred }
                } else {
                    DeviceStep::RequestDevice {
                        require_16bit_norm: report.supports_16bit_norm,
                        limits: requested_device_limits(report.limits, report.backend),
                    }
                }
            },
            (DeviceStep::RequestAdapter { .. }, _) => DeviceStep::Failed {
                failure: DeviceFailure::AdapterRequestFailed,
            },
            (
                DeviceStep::RequestDevice { require_16bit_norm, .. },
                DeviceReply::Device,
            ) => DeviceStep::Created {
                device: DeviceOutcome {
                    candidate_index: self.candidate_index,
                    supports_16bit_norm: require_16bit_norm,
                    interop: false,
                },
            },
            (DeviceStep::RequestDevice { .. }, _) => DeviceStep::Failed {
                failure: DeviceFailure::DeviceRequestFailed,
            },
            (finished, _) => finished,
        };
        self.step = step;
    }
}

/// A software Vulkan adapter is never used on Android unless its candidate
/// allows it.
pub proof fn lemma_software_vulkan_waits(
    candidate: WgpuBackendCandidate,
    index: usize,
    step: DeviceStep,
    report: AdapterReport,
)
    requires
        candidate.backends == Backends::Vulkan,
        !candidate.allow_cpu_adapter,
        report.device_type == DeviceType::Cpu,
        step is RequestAdapter,
    ensures
        next_step(Platform::Android, candidate, index, step, DeviceReply::Adapter { report })
            == (DeviceStep::Failed { failure: DeviceFailure::SoftwareVulkanDeferred }),
{
}

/// A request ends after at most two replies.
pub proof fn lemma_request_ends_after_two_replies(
    platform: Platform,
    candidate: WgpuBackendCandidate,
    index: usize,
    first: DeviceReply,
    second: DeviceReply,
)
    ensures
        ({
            let step = next_step(
                platform,
                candidate,
                index,
                first_step(platform, candidate),
                first,
            );
            let last = next_step(platform, candidate, index, step, second);
            last is Created || last is Failed
        }),
{
}

/// A candidate that was tried in vain.
#[derive(Debug, Clone, Copy, PartialEq, Eq, Structural)]
pub struct CandidateFailure {
    pub candidate_index: usize,
    pub failure: DeviceFailure,
}

/// The search for a device, candidate by candidate: the first that succeeds is
/// taken.
#[derive(Debug)]
pub struct CandidateSearch {
    order: Vec<usize>,
    failures: Vec<CandidateFailure>,
    selected: Option<usize>,
}

/// A search by what it has done.
pub struct CandidateSearchView {
    pub order: Seq<usize>,
    pub failures: Seq<CandidateFailure>,
    pub selected: Option<usize>,
}

impl View for CandidateSearch {
    type V = CandidateSearchView;

    closed spec fn view(&self) -> CandidateSearchView {
        CandidateSearchView {
            order: self.order@,
            failures: self.failures@,
            selected: self.selected,
        }
    }
}

impl CandidateSearchView {
    /// The failures are those of the first candidates, and the selected one
    /// follows them.
    pub open spec fn well_formed(self) -> bool {
        &&& self.order.len() > 0
        &&& self.failures.len() <= self.order.len()
        &&& forall|i: int|
            0 <= i < self.failures.len() ==> (#[trigger] self.failures[i]).candidate_index
                == self.order[i]
        &&& self.selected matches Some(selected) ==> self.failures.len() < self.order.len()
            && self.order[self.failures.len() as int] == selected
    }

    /// The candidate that is to be tried next.
    pub open spec fn current(self) -> Option<usize> {
        if self.selected is Some || self.failures.len() >= self.order.len() {
            None
        } else {
            Some(self.order[self.failures.len() as int])
        }
    }
}

impl CandidateSearch {
    /// A search through the candidates of an order, or `None` where there is
    /// nothing to try.
    pub fn new(order: Vec<usize>) -> (search: Option<Self>)
        ensures
            search is Some <==> order@.len() > 0,
            search matches Some(search) ==> {
                &&& search@.well_formed()
                &&& search@.order == order@
                &&& search@.failures.len() == 0
                &&& search@.selected is None
            },
    {
        if order.len() == 0 {
            None
        } else {
            Some(CandidateSearch { order, failures: Vec::new(), selected: None })
        }
    }

    /// The candidate that is to be tried next, unless one was selected or all
    /// have failed.
    pub fn current(&self) -> (candidate: Option<usize>)
        requires
            self@.well_formed(),
        ensures
            candidate == self@.current(),
    {
        if self.selected.is_some() || self.failures.len() >= self.order.len() {
            None
        } else {
            Some(self.order[self.failures.len()])
        }
    }

    /// The current candidate has a device.
    pub fn succeeded(&mut self)
        requires
            old(self)@.well_formed(),
            old(self)@.current() is Some,
        ensures
            final(self)@.well_formed(),
            final(self)@ == (CandidateSearchView {
                selected: old(self)@.current(),
                ..old(self)@
            }),
    {
        let selected: Option<usize> = self.current();
        self.selected = selected;
    }

    /// The current candidate has none: the next one's turn has come.
    pub fn failed(&mut self, failure: DeviceFailure)
        requires
            old(self)@.well_formed(),
            old(self)@.current() is Some,
        ensures
            final(self)@.well_formed(),
            final(self)@ == (CandidateSearchView {
                failures: old(self)@.failures.push(
                    CandidateFailure { candidate_index: old(self)@.current()->0, failure },
                ),
                ..old(self)@
            }),
    {
        let candidate_index: usize = self.order[self.failures.len()];
        self.failures.push(CandidateFailure { candidate_index, failure });
    }

    /// The candidate whose device was taken.
    pub fn selected(&self) -> (selected: Option<usize>)
        ensures
            selected == self@.selected,
    {
        self.selected
    }

    /// The candidates that were tried in vain, in order.
    pub fn failures(&self) -> (failures: &Vec<CandidateFailure>)
        ensures
            failures@ == self@.failures,
    {
        &self.failures
    }

    /// The candidates that have been tried: those up to the selected one, or
    /// all where the search is over without one.
    pub fn attempted(&self) -> (tried: Vec<usize>)
        requires
            self@.well_formed(),
        ensures
            tried@ == attempted(self@.order, self@.selected),
    {
        attempted_candidate_prefix(self.order.as_slice(), self.selected)
    }
}

/// A candidate is selected only once all those before it have failed, and the
/// attempts are then those failures and the selected candidate.
pub proof fn lemma_attempts_are_failures_and_selection(search: CandidateSearchView)
    requires
        search.well_formed(),
        search.order.no_duplicates(),
        search.selected is Some,
    ensures
        attempted(search.order, search.selected) == search.failures.map_values(
            |failure: CandidateFailure| failure.candidate_index,
        ).push(search.selected->0),
{
    let selected = search.selected->0;
    let position = search.failures.len() as int;
    assert(search.order[position] == selected);
    lemma_position_of_distinct(search.order, position);
    assert(attempted(search.order, search.selected) =~= search.failures.map_values(
        |failure: CandidateFailure| failure.candidate_index,
    ).push(selected));
}

proof fn lemma_position_of_distinct(order: Seq<usize>, position: int)
    requires
        order.no_duplicates(),
        0 <= position < order.len(),
    ensures
        first_position(order, order[position]) == position,
    decreases order.len(),
{
    if position > 0 {
        assert(order[0] != order[position]);
        let rest = order.drop_first();
        assert(rest.no_duplicates());
        lemma_position_of_distinct(rest, position - 1);
    }
}

} // verus!
