use ash::vk;
use vstd::prelude::*;
use vstd::slice::slice_to_vec;

use crate::result::{error_of, is_success, vkfft_ok, VkFFTResult, VkFftError, VkfftError};

verus! {

/// The largest number of axes the native engine accepts.
pub const MAX_FFT_DIMENSIONS: usize = 4;

pub const ERR_NO_DIMENSIONS: &'static str = "configure_dimensions: at least one axis is required";

pub const ERR_TOO_MANY_DIMENSIONS: &'static str =
    "configure_dimensions: more axes than the engine supports";

pub const ERR_ZERO_EXTENT: &'static str = "configure_dimensions: every axis extent must be positive";

pub const ERR_NO_INPUT_BUFFERS: &'static str =
    "configure_buffers: at least one input buffer is required";

pub const ERR_EMPTY_OUTPUT_BUFFERS: &'static str =
    "configure_buffers: output buffer slice must not be empty";

pub const ERR_BUFFER_COUNT_MISMATCH: &'static str =
    "configure_buffers: input/output buffer counts must match";

pub const ERR_BATCH_COUNT_MISMATCH: &'static str =
    "configure_buffers: buffer count must match configured numberBatches";

pub const ERR_PLAN_LIVE: &'static str = "the configuration cannot change while a plan exists";

pub const ERR_DOWNLOAD_NOT_REQUESTED: &'static str = "no plan download was requested";

pub const ERR_NO_LIVE_PLAN: &'static str = "no plan has been created";

pub const ERR_CALLBACKS_UNSUPPORTED: &'static str =
    "Callback pointers are not exposed by the generated bindings";

/// The flat configuration record handed to the native engine.
///
/// Flags are stored as 0 or 1; arrays hold one entry per axis slot.
#[derive(Copy, Clone, Debug, PartialEq, Eq)]
pub struct Configuration {
    pub fft_dim: u64,
    pub size: [u64; 4],
    pub buffer_num: u64,
    pub input_buffer_num: u64,
    pub output_buffer_num: u64,
    pub number_batches: u64,
    pub double_precision: u64,
    pub half_precision: u64,
    pub buffer_stride: [u64; 4],
    pub input_buffer_stride: [u64; 4],
    pub output_buffer_stride: [u64; 4],
    pub is_input_formatted: u64,
    pub is_output_formatted: u64,
    pub save_application_to_string: u64,
    pub load_application_from_string: u64,
}

/// The life stage of the native plan owned by a wrapper.
#[derive(Copy, Clone, Debug, PartialEq, Eq, Structural)]
pub enum PlanState {
    Uninitialized,
    Initialized,
    Destroyed,
}

/// The abstract state of a wrapper: its configuration record and the
/// storage whose contents the record refers to.
pub struct VkFftView {
    pub config: Configuration,
    pub state: PlanState,
    pub physical_device: Option<vk::PhysicalDevice>,
    pub device: Option<vk::Device>,
    pub queue: Option<vk::Queue>,
    pub command_pool: Option<vk::CommandPool>,
    pub buffers: Seq<vk::Buffer>,
    pub output_buffers: Seq<vk::Buffer>,
    pub buffer_sizes: Seq<u64>,
    pub temp_buffer_sizes: Seq<u64>,
    pub plan_upload: Option<Seq<u8>>,
    pub plan_download: Option<Seq<u8>>,
    /// Whether the native interface offers callback hooks.
    pub callback_hooks: bool,
    pub callback: Option<usize>,
}

/// The axis extents after `sizes` is written into the fixed-width array,
/// with every unused slot set to 1.
pub open spec fn padded_extents(sizes: Seq<u64>) -> Seq<u64> {
    Seq::new(MAX_FFT_DIMENSIONS as nat, |i: int| if i < sizes.len() { sizes[i] } else { 1u64 })
}

/// 1 for `true`, 0 for `false`.
pub open spec fn flag(b: bool) -> u64 {
    if b {
        1
    } else {
        0
    }
}

impl VkFftView {
    /// The consistency that every wrapper keeps between its record and its storage.
    pub open spec fn wf(self) -> bool {
        &&& self.config.fft_dim <= MAX_FFT_DIMENSIONS
        &&& self.config.double_precision <= 1
        &&& self.config.half_precision <= 1
        &&& self.config.is_input_formatted <= 1
        &&& self.config.is_output_formatted <= 1
        &&& self.config.save_application_to_string <= 1
        &&& self.config.load_application_from_string == flag(self.plan_upload is Some)
        &&& (self.plan_download is Some ==> self.config.save_application_to_string == 1)
        &&& (self.callback is Some ==> self.callback_hooks)
        &&& (if self.output_buffers.len() == 0 {
            self.config.input_buffer_num == 0 && self.config.output_buffer_num == 0
        } else {
            &&& self.output_buffers.len() == self.buffers.len()
            &&& self.config.input_buffer_num == self.buffers.len()
            &&& self.config.output_buffer_num == self.output_buffers.len()
        })
    }

    /// The state after `configure_dimensions(sizes)` succeeds.
    pub open spec fn with_dimensions(self, sizes: Seq<u64>) -> VkFftView {
        let p = padded_extents(sizes);
        VkFftView {
            config: Configuration {
                fft_dim: sizes.len() as u64,
                size: [p[0], p[1], p[2], p[3]],
                ..self.config
            },
            ..self
        }
    }

    /// The state after `configure_buffers(inputs, outputs)` succeeds.
    pub open spec fn with_buffers(
        self,
        inputs: Seq<vk::Buffer>,
        outputs: Option<Seq<vk::Buffer>>,
    ) -> VkFftView {
        let n = inputs.len() as u64;
        VkFftView {
            config: Configuration {
                buffer_num: n,
                input_buffer_num: if outputs is Some {
                    n
                } else {
                    0
                },
                output_buffer_num: if outputs is Some {
                    n
                } else {
                    0
                },
                ..self.config
            },
            buffers: inputs,
            output_buffers: match outputs {
                Some(o) => o,
                None => Seq::empty(),
            },
            ..self
        }
    }

    /// The state after `configure_buffer_size(size)`.
    pub open spec fn with_buffer_size(self, size: u64) -> VkFftView {
        VkFftView {
            config: Configuration { buffer_num: 1, ..self.config },
            buffer_sizes: seq![size],
            ..self
        }
    }

    /// The explicit size of the first primary buffer, if any was given.
    pub open spec fn primary_buffer_size(self) -> Option<u64> {
        if self.buffer_sizes.len() > 0 {
            Some(self.buffer_sizes[0])
        } else {
            None
        }
    }
}

/// The view of an optional slice.
pub open spec fn opt_slice_view<T>(s: Option<&[T]>) -> Option<Seq<T>> {
    match s {
        Some(x) => Some(x@),
        None => None,
    }
}

/// The error `configure_buffers` reports, if any, given the configured batch count.
pub open spec fn buffers_error(
    number_batches: u64,
    inputs: Seq<vk::Buffer>,
    outputs: Option<Seq<vk::Buffer>>,
) -> Option<&'static str> {
    if inputs.len() == 0 {
        Some(ERR_NO_INPUT_BUFFERS)
    } else if outputs is Some && outputs->0.len() == 0 {
        Some(ERR_EMPTY_OUTPUT_BUFFERS)
    } else if outputs is Some && outputs->0.len() != inputs.len() {
        Some(ERR_BUFFER_COUNT_MISMATCH)
    } else if number_batches > 1 && inputs.len() > 1 && inputs.len() != number_batches {
        Some(ERR_BATCH_COUNT_MISMATCH)
    } else {
        None
    }
}

/// `Err` of the error, if any, else `Ok`.
pub open spec fn outcome_of(e: Option<&'static str>) -> Result<(), &'static str> {
    match e {
        Some(m) => Err(m),
        None => Ok(()),
    }
}

/// Whether `configure_dimensions` accepts `sizes`.
pub open spec fn dimensions_valid(sizes: Seq<u64>) -> bool {
    &&& 1 <= sizes.len() <= MAX_FFT_DIMENSIONS
    &&& forall|i: int| 0 <= i < sizes.len() ==> sizes[i] > 0
}

/// The error `configure_dimensions` reports for `sizes`, if any.
pub open spec fn dimensions_error(sizes: Seq<u64>) -> Option<&'static str> {
    if sizes.len() == 0 {
        Some(ERR_NO_DIMENSIONS)
    } else if sizes.len() > MAX_FFT_DIMENSIONS {
        Some(ERR_TOO_MANY_DIMENSIONS)
    } else if exists|i: int| 0 <= i < sizes.len() && sizes[i] == 0 {
        Some(ERR_ZERO_EXTENT)
    } else {
        None
    }
}

/// What the engine is given to record one transform into a command buffer.
#[derive(Copy, Clone, Debug, PartialEq, Eq)]
pub struct LaunchParams {
    pub command_buffer: vk::CommandBuffer,
    /// Conventionally 1 for the forward and -1 for the inverse transform.
    pub direction: i32,
}

/// The next plan state and the reported result once the engine has answered
/// a plan creation with `outcome`. Only a wrapper without a plan takes one.
pub open spec fn initialize_transition(state: PlanState, outcome: VkFFTResult) -> (
    PlanState,
    Result<(), VkfftError>,
) {
    match state {
        PlanState::Uninitialized => if is_success(outcome) {
            (PlanState::Initialized, Ok(()))
        } else {
            (PlanState::Uninitialized, Err(VkfftError::Vkfft(outcome)))
        },
        _ => (state, Err(VkfftError::Vkfft(VkFFTResult::VKFFT_ERROR_NONZERO_APP_INITIALIZATION))),
    }
}

/// Whether a plan may be created in `state`, and the error reported when not.
pub open spec fn initialize_precheck(state: PlanState) -> Option<VkfftError> {
    if state is Uninitialized {
        None
    } else {
        Some(VkfftError::Vkfft(VkFFTResult::VKFFT_ERROR_NONZERO_APP_INITIALIZATION))
    }
}

/// What `append` yields in `state`: the launch record, or the
/// plan-not-initialized error when there is no live plan.
pub open spec fn append_result(state: PlanState, command_buffer: vk::CommandBuffer, direction: i32) -> Result<
    LaunchParams,
    VkFftError,
> {
    if state is Initialized {
        Ok(LaunchParams { command_buffer, direction })
    } else {
        Err(error_of(VkFFTResult::VKFFT_ERROR_PLAN_NOT_INITIALIZED))
    }
}

/// The next plan state on teardown, and whether the native plan must be released.
pub open spec fn destroy_transition(state: PlanState) -> (PlanState, bool) {
    if state is Initialized {
        (PlanState::Destroyed, true)
    } else {
        (state, false)
    }
}

/// Whether every entry of `values` is above zero.
fn all_positive(values: &[u64]) -> (r: bool)
    ensures
        r == (forall|j: int| 0 <= j < values@.len() ==> values@[j] > 0),
{
    let mut i: usize = 0;
    while i < values.len()
        invariant
            i <= values@.len(),
            forall|j: int| 0 <= j < i ==> values@[j] > 0,
        decreases values@.len() - i,
    {
        if values[i] == 0 {
            assert(values@[i as int] == 0);
            return false;
        }
        i = i + 1;
    }
    true
}

/// Owner of a native FFT plan and of everything its configuration refers to.
///
/// The configuration is filled by the setters while no plan exists; a plan is
/// then created from it, used to record transforms, and released once.
pub struct VkFft {
    config: Configuration,
    state: PlanState,
    phys: Option<vk::PhysicalDevice>,
    dev: Option<vk::Device>,
    queue: Option<vk::Queue>,
    command_pool: Option<vk::CommandPool>,
    buffers: Vec<vk::Buffer>,
    output_buffers: Vec<vk::Buffer>,
    buffer_sizes: Vec<u64>,
    temp_buffer_sizes: Vec<u64>,
    plan_upload: Option<Vec<u8>>,
    plan_download: Option<Vec<u8>>,
    callback_hooks: bool,
    callback: Option<usize>,
}

impl View for VkFft {
    type V = VkFftView;

    closed spec fn view(&self) -> VkFftView {
        VkFftView {
            config: self.config,
            state: self.state,
            physical_device: self.phys,
            device: self.dev,
            queue: self.queue,
            command_pool: self.command_pool,
            buffers: self.buffers@,
            output_buffers: self.output_buffers@,
            buffer_sizes: self.buffer_sizes@,
            temp_buffer_sizes: self.temp_buffer_sizes@,
            plan_upload: match self.plan_upload {
                Some(b) => Some(b@),
                None => None,
            },
            plan_download: match self.plan_download {
                Some(b) => Some(b@),
                None => None,
            },
            callback_hooks: self.callback_hooks,
            callback: self.callback,
        }
    }
}

/// The all-zero record a wrapper starts from.
pub open spec fn zero_configuration() -> Configuration {
    Configuration {
        fft_dim: 0,
        size: [0u64, 0u64, 0u64, 0u64],
        buffer_num: 0,
        input_buffer_num: 0,
        output_buffer_num: 0,
        number_batches: 0,
        double_precision: 0,
        half_precision: 0,
        buffer_stride: [0u64, 0u64, 0u64, 0u64],
        input_buffer_stride: [0u64, 0u64, 0u64, 0u64],
        output_buffer_stride: [0u64, 0u64, 0u64, 0u64],
        is_input_formatted: 0,
        is_output_formatted: 0,
        save_application_to_string: 0,
        load_application_from_string: 0,
    }
}

/// The state of a fresh wrapper: an all-zero record, empty storage, no plan,
/// and callback hooks as the native interface offers them.
pub open spec fn fresh_view(callback_hooks: bool) -> VkFftView {
    VkFftView {
        config: zero_configuration(),
        state: PlanState::Uninitialized,
        physical_device: None,
        device: None,
        queue: None,
        command_pool: None,
        buffers: Seq::empty(),
        output_buffers: Seq::empty(),
        buffer_sizes: Seq::empty(),
        temp_buffer_sizes: Seq::empty(),
        plan_upload: None,
        plan_download: None,
        callback_hooks,
        callback: None,
    }
}

impl VkFft {
    /// A wrapper for the native interface as it stands, which offers no
    /// callback hooks.
    pub fn new() -> (r: Self)
        ensures
            r@.wf(),
            r@ == fresh_view(false),
    {
        Self::with_capabilities(false)
    }

    /// A wrapper with an all-zero configuration, empty storage and no plan,
    /// for an interface that does, or does not, offer callback hooks.
    pub fn with_capabilities(callback_hooks: bool) -> (r: Self)
        ensures
            r@.wf(),
            r@ == fresh_view(callback_hooks),
    {
        let config = Configuration {
            fft_dim: 0,
            size: [0u64, 0u64, 0u64, 0u64],
            buffer_num: 0,
            input_buffer_num: 0,
            output_buffer_num: 0,
            number_batches: 0,
            double_precision: 0,
            half_precision: 0,
            buffer_stride: [0u64, 0u64, 0u64, 0u64],
            input_buffer_stride: [0u64, 0u64, 0u64, 0u64],
            output_buffer_stride: [0u64, 0u64, 0u64, 0u64],
            is_input_formatted: 0,
            is_output_formatted: 0,
            save_application_to_string: 0,
            load_application_from_string: 0,
        };
        let r = VkFft {
            config,
            state: PlanState::Uninitialized,
            phys: None,
            dev: None,
            queue: None,
            command_pool: None,
            buffers: Vec::new(),
            output_buffers: Vec::new(),
            buffer_sizes: Vec::new(),
            temp_buffer_sizes: Vec::new(),
            plan_upload: None,
            plan_download: None,
            callback_hooks,
            callback: None,
        };
        proof {
            assert(r@.buffers =~= Seq::empty());
            assert(r@.output_buffers =~= Seq::empty());
            assert(r@.buffer_sizes =~= Seq::empty());
            assert(r@.temp_buffer_sizes =~= Seq::empty());
        }
        r
    }

    /// Sets the number of axes and their extents; unused axis slots are set to 1.
    ///
    /// Fails, and changes nothing, when `sizes` is empty, longer than
    /// `MAX_FFT_DIMENSIONS`, or holds a zero extent.
    pub fn configure_dimensions(&mut self, sizes: &[u64]) -> (r: Result<(), &'static str>)
        requires
            old(self)@.wf(),
            old(self)@.state is Uninitialized,
        ensures
            final(self)@.wf(),
            r == outcome_of(dimensions_error(sizes@)),
            r is Ok <==> dimensions_valid(sizes@),
            r is Ok ==> final(self)@ == old(self)@.with_dimensions(sizes@),
            r is Err ==> final(self)@ == old(self)@,
    {
        let n = sizes.len();
        if n == 0 {
            return Err(ERR_NO_DIMENSIONS);
        }
        if n > MAX_FFT_DIMENSIONS {
            return Err(ERR_TOO_MANY_DIMENSIONS);
        }
        if !all_positive(sizes) {
            return Err(ERR_ZERO_EXTENT);
        }
        let s0 = sizes[0];
        let s1 = if n > 1 {
            sizes[1]
        } else {
            1
        };
        let s2 = if n > 2 {
            sizes[2]
        } else {
            1
        };
        let s3 = if n > 3 {
            sizes[3]
        } else {
            1
        };
        self.config.fft_dim = n as u64;
        self.config.size = [s0, s1, s2, s3];
        proof {
            assert(!(exists|j: int| 0 <= j < sizes@.len() && sizes@[j] == 0));
        }
        Ok(())
    }

    /// Stores the input buffers, and the output buffers for an out-of-place
    /// transform; without output buffers the transform runs in place.
    ///
    /// Fails, and changes nothing, when the input set is empty, an output set
    /// is empty or of another size than the input set, or there is more than
    /// one input buffer and their number differs from a batch count above 1.
    pub fn configure_buffers(
        &mut self,
        input_buffers: &[vk::Buffer],
        output_buffers: Option<&[vk::Buffer]>,
    ) -> (r: Result<(), &'static str>)
        requires
            old(self)@.wf(),
            old(self)@.state is Uninitialized,
        ensures
            final(self)@.wf(),
            r == outcome_of(
                buffers_error(old(self)@.config.number_batches, input_buffers@, opt_slice_view(output_buffers)),
            ),
            r is Ok ==> final(self)@ == old(self)@.with_buffers(
                input_buffers@,
                opt_slice_view(output_buffers),
            ),
            r is Err ==> final(self)@ == old(self)@,
    {
        if input_buffers.len() == 0 {
            return Err(ERR_NO_INPUT_BUFFERS);
        }
        if let Some(out) = output_buffers {
            if out.len() == 0 {
                return Err(ERR_EMPTY_OUTPUT_BUFFERS);
            }
            if out.len() != input_buffers.len() {
                return Err(ERR_BUFFER_COUNT_MISMATCH);
            }
        }
        let n = input_buffers.len() as u64;
        if self.config.number_batches > 1 && n > 1 && n != self.config.number_batches {
            return Err(ERR_BATCH_COUNT_MISMATCH);
        }
        self.buffers = slice_to_vec(input_buffers);
        self.config.buffer_num = n;
        match output_buffers {
            Some(out) => {
                self.output_buffers = slice_to_vec(out);
                self.config.input_buffer_num = n;
                self.config.output_buffer_num = n;
            },
            None => {
                self.output_buffers = Vec::new();
                self.config.input_buffer_num = 0;
                self.config.output_buffer_num = 0;
            },
        }
        proof {
            assert(self@.output_buffers =~= old(self)@.with_buffers(
                input_buffers@,
                opt_slice_view(output_buffers),
            ).output_buffers);
        }
        Ok(())
    }

    /// Stores the device context the plan is built for: physical device,
    /// device, queue and command pool.
    pub fn configure_vulkan(
        &mut self,
        physical_device: vk::PhysicalDevice,
        device: vk::Device,
        queue: vk::Queue,
        command_pool: vk::CommandPool,
    )
        requires
            old(self)@.wf(),
            old(self)@.state is Uninitialized,
        ensures
            final(self)@.wf(),
            final(self)@ == (VkFftView {
                physical_device: Some(physical_device),
                device: Some(device),
                queue: Some(queue),
                command_pool: Some(command_pool),
                ..old(self)@
            }),
    {
        self.phys = Some(physical_device);
        self.dev = Some(device);
        self.queue = Some(queue);
        self.command_pool = Some(command_pool);
    }

    /// Selects double-precision kernels, or not.
    pub fn set_double_precision(&mut self, enabled: bool)
        requires
            old(self)@.wf(),
            old(self)@.state is Uninitialized,
        ensures
            final(self)@.wf(),
            final(self)@ == (VkFftView {
                config: Configuration { double_precision: flag(enabled), ..old(self)@.config },
                ..old(self)@
            }),
    {
        self.config.double_precision = if enabled {
            1
        } else {
            0
        };
    }

    /// Selects half-precision kernels, or not.
    pub fn set_half_precision(&mut self, enabled: bool)
        requires
            old(self)@.wf(),
            old(self)@.state is Uninitialized,
        ensures
            final(self)@.wf(),
            final(self)@ == (VkFftView {
                config: Configuration { half_precision: flag(enabled), ..old(self)@.config },
                ..old(self)@
            }),
    {
        self.config.half_precision = if enabled {
            1
        } else {
            0
        };
    }

    /// Sets the number of batched transforms; 0 leaves the engine's default of one.
    pub fn set_batch_count(&mut self, batches: u64)
        requires
            old(self)@.wf(),
            old(self)@.state is Uninitialized,
        ensures
            final(self)@.wf(),
            final(self)@ == (VkFftView {
                config: Configuration { number_batches: batches, ..old(self)@.config },
                ..old(self)@
            }),
    {
        self.config.number_batches = batches;
    }

    /// Sets the per-axis strides of the buffers, and of the input and output
    /// buffers where given; a stride set that is not given keeps its value.
    pub fn set_strides(
        &mut self,
        buffer_stride: [u64; 4],
        input_stride: Option<[u64; 4]>,
        output_stride: Option<[u64; 4]>,
    )
        requires
            old(self)@.wf(),
            old(self)@.state is Uninitialized,
        ensures
            final(self)@.wf(),
            final(self)@ == (VkFftView {
                config: Configuration {
                    buffer_stride: buffer_stride,
                    input_buffer_stride: match input_stride {
                        Some(st) => st,
                        None => old(self)@.config.input_buffer_stride,
                    },
                    output_buffer_stride: match output_stride {
                        Some(st) => st,
                        None => old(self)@.config.output_buffer_stride,
                    },
                    ..old(self)@.config
                },
                ..old(self)@
            }),
    {
        self.config.buffer_stride = buffer_stride;
        if let Some(stride) = input_stride {
            self.config.input_buffer_stride = stride;
        }
        if let Some(stride) = output_stride {
            self.config.output_buffer_stride = stride;
        }
    }

    /// Declares whether the input and the output buffers are already in the
    /// engine's layout.
    pub fn set_layout_flags(&mut self, input_formatted: bool, output_formatted: bool)
        requires
            old(self)@.wf(),
            old(self)@.state is Uninitialized,
        ensures
            final(self)@.wf(),
            final(self)@ == (VkFftView {
                config: Configuration {
                    is_input_formatted: flag(input_formatted),
                    is_output_formatted: flag(output_formatted),
                    ..old(self)@.config
                },
                ..old(self)@
            }),
    {
        self.config.is_input_formatted = if input_formatted {
            1
        } else {
            0
        };
        self.config.is_output_formatted = if output_formatted {
            1
        } else {
            0
        };
    }

    /// Stores explicit byte sizes of the primary buffers; an empty list lets
    /// the engine derive them.
    pub fn set_buffer_sizes(&mut self, sizes: &[u64])
        requires
            old(self)@.wf(),
            old(self)@.state is Uninitialized,
        ensures
            final(self)@.wf(),
            final(self)@ == (VkFftView { buffer_sizes: sizes@, ..old(self)@ }),
    {
        self.buffer_sizes = slice_to_vec(sizes);
    }

    /// Stores explicit byte sizes of the temporary buffers; an empty list lets
    /// the engine choose them.
    pub fn set_temp_buffer_sizes(&mut self, sizes: &[u64])
        requires
            old(self)@.wf(),
            old(self)@.state is Uninitialized,
        ensures
            final(self)@.wf(),
            final(self)@ == (VkFftView { temp_buffer_sizes: sizes@, ..old(self)@ }),
    {
        self.temp_buffer_sizes = slice_to_vec(sizes);
    }

    /// Declares a single primary buffer of `buffer_size` bytes.
    pub fn configure_buffer_size(&mut self, buffer_size: u64)
        requires
            old(self)@.wf(),
            old(self)@.state is Uninitialized,
        ensures
            final(self)@.wf(),
            final(self)@ == old(self)@.with_buffer_size(buffer_size),
    {
        self.buffer_sizes = vec![buffer_size];
        self.config.buffer_num = 1;
        proof {
            assert(self@.buffer_sizes =~= seq![buffer_size]);
        }
    }

    /// Asks the engine to serialize the compiled plan when it is created.
    pub fn configure_plan_download(&mut self)
        requires
            old(self)@.wf(),
            old(self)@.state is Uninitialized,
        ensures
            final(self)@.wf(),
            final(self)@ == (VkFftView {
                config: Configuration { save_application_to_string: 1, ..old(self)@.config },
                ..old(self)@
            }),
    {
        self.config.save_application_to_string = 1;
    }

    /// Stores a serialized plan for the engine to load instead of compiling one.
    pub fn configure_plan_upload(&mut self, blob: &[u8])
        requires
            old(self)@.wf(),
            old(self)@.state is Uninitialized,
        ensures
            final(self)@.wf(),
            final(self)@ == (VkFftView {
                config: Configuration { load_application_from_string: 1, ..old(self)@.config },
                plan_upload: Some(blob@),
                ..old(self)@
            }),
    {
        self.plan_upload = Some(slice_to_vec(blob));
        self.config.load_application_from_string = 1;
    }

    /// Requests a user callback hook. Refused, with nothing changed, when the
    /// native interface offers no callback hooks, or while a plan exists.
    pub fn set_callback_pointer(&mut self, callback: usize) -> (r: Result<(), &'static str>)
        requires
            old(self)@.wf(),
        ensures
            final(self)@.wf(),
            r == (if !old(self)@.callback_hooks {
                Err(ERR_CALLBACKS_UNSUPPORTED)
            } else if !(old(self)@.state is Uninitialized) {
                Err(ERR_PLAN_LIVE)
            } else {
                Ok(())
            }),
            r is Ok ==> final(self)@ == (VkFftView { callback: Some(callback), ..old(self)@ }),
            r is Err ==> final(self)@ == old(self)@,
    {
        if !self.callback_hooks {
            return Err(ERR_CALLBACKS_UNSUPPORTED);
        }
        match self.state {
            PlanState::Uninitialized => {
                self.callback = Some(callback);
                Ok(())
            },
            _ => Err(ERR_PLAN_LIVE),
        }
    }

    /// Whether the native interface offers callback hooks.
    pub fn supports_callback_hooks(&self) -> (r: bool)
        ensures
            r == self@.callback_hooks,
    {
        self.callback_hooks
    }

    /// Keeps the serialized plan the engine produced on creation. Accepted
    /// only when a download was requested and the plan exists; otherwise
    /// nothing changes.
    pub fn accept_plan_download(&mut self, blob: &[u8]) -> (r: Result<(), &'static str>)
        requires
            old(self)@.wf(),
        ensures
            final(self)@.wf(),
            r == (if old(self)@.config.save_application_to_string != 1 {
                Err(ERR_DOWNLOAD_NOT_REQUESTED)
            } else if !(old(self)@.state is Initialized) {
                Err(ERR_NO_LIVE_PLAN)
            } else {
                Ok(())
            }),
            r is Ok ==> final(self)@ == (VkFftView { plan_download: Some(blob@), ..old(self)@ }),
            r is Err ==> final(self)@ == old(self)@,
    {
        if self.config.save_application_to_string != 1 {
            return Err(ERR_DOWNLOAD_NOT_REQUESTED);
        }
        if !self.is_initialized() {
            return Err(ERR_NO_LIVE_PLAN);
        }
        self.plan_download = Some(slice_to_vec(blob));
        Ok(())
    }

    /// The serialized plan the engine produced, once accepted.
    pub fn plan_download(&self) -> (r: Option<&[u8]>)
        ensures
            opt_slice_view(r) == self@.plan_download,
    {
        match &self.plan_download {
            Some(b) => Some(b.as_slice()),
            None => None,
        }
    }

    /// The callback hook, if one was accepted.
    pub fn callback_pointer(&self) -> (r: Option<usize>)
        ensures
            r == self@.callback,
    {
        self.callback
    }

    /// Checks that a plan may be created now and hands out the configuration
    /// record to build it from.
    pub fn begin_initialize(&self) -> (r: Result<Configuration, VkfftError>)
        requires
            self@.wf(),
        ensures
            r == match initialize_precheck(self@.state) {
                Some(e) => Err(e),
                None => Ok(self@.config),
            },
    {
        match self.state {
            PlanState::Uninitialized => Ok(self.config),
            _ => Err(VkfftError::Vkfft(VkFFTResult::VKFFT_ERROR_NONZERO_APP_INITIALIZATION)),
        }
    }

    /// Takes the engine's answer to a plan creation: on success the plan is
    /// live; on failure nothing changes and the code is reported. A wrapper
    /// that already has, or had, a plan refuses and keeps its state.
    pub fn initialize(&mut self, outcome: VkFFTResult) -> (r: Result<(), VkfftError>)
        requires
            old(self)@.wf(),
        ensures
            final(self)@.wf(),
            (final(self)@.state, r) == initialize_transition(old(self)@.state, outcome),
            final(self)@ == (VkFftView { state: final(self)@.state, ..old(self)@ }),
    {
        match self.state {
            PlanState::Uninitialized => {
                if vkfft_ok(outcome) {
                    self.state = PlanState::Initialized;
                    Ok(())
                } else {
                    Err(VkfftError::from(outcome))
                }
            },
            _ => Err(VkfftError::Vkfft(VkFFTResult::VKFFT_ERROR_NONZERO_APP_INITIALIZATION)),
        }
    }

    /// Builds the launch record for one transform into `command_buffer`.
    /// Without a live plan this fails with the plan-not-initialized error and
    /// nothing is handed to the engine.
    pub fn append(&self, command_buffer: vk::CommandBuffer, direction: i32) -> (r: Result<
        LaunchParams,
        VkFftError,
    >)
        requires
            self@.wf(),
        ensures
            r == append_result(self@.state, command_buffer, direction),
    {
        if !self.is_initialized() {
            return Err(VkFftError::from_result(VkFFTResult::VKFFT_ERROR_PLAN_NOT_INITIALIZED));
        }
        Ok(LaunchParams { command_buffer, direction })
    }

    /// Tears the plan down: returns whether the native plan must now be
    /// released. That is so at most once, and never without a live plan.
    pub fn destroy(&mut self) -> (release: bool)
        requires
            old(self)@.wf(),
        ensures
            final(self)@.wf(),
            (final(self)@.state, release) == destroy_transition(old(self)@.state),
            final(self)@ == (VkFftView { state: final(self)@.state, ..old(self)@ }),
    {
        if self.is_initialized() {
            self.state = PlanState::Destroyed;
            true
        } else {
            false
        }
    }

    /// Whether a live plan exists.
    pub fn is_initialized(&self) -> (r: bool)
        ensures
            r == (self@.state is Initialized),
    {
        match self.state {
            PlanState::Initialized => true,
            _ => false,
        }
    }

    /// The life stage of the plan.
    pub fn state(&self) -> (r: PlanState)
        ensures
            r == self@.state,
    {
        self.state
    }

    /// The configuration record.
    pub fn config(&self) -> (r: &Configuration)
        ensures
            *r == self@.config,
    {
        &self.config
    }

    /// The input buffers (the only buffers of an in-place transform).
    pub fn buffers(&self) -> (r: &[vk::Buffer])
        ensures
            r@ == self@.buffers,
    {
        self.buffers.as_slice()
    }

    /// The output buffers of an out-of-place transform; empty otherwise.
    pub fn output_buffers(&self) -> (r: &[vk::Buffer])
        ensures
            r@ == self@.output_buffers,
    {
        self.output_buffers.as_slice()
    }

    /// The explicit primary buffer sizes.
    pub fn buffer_sizes(&self) -> (r: &[u64])
        ensures
            r@ == self@.buffer_sizes,
    {
        self.buffer_sizes.as_slice()
    }

    /// The explicit temporary buffer sizes.
    pub fn temp_buffer_sizes(&self) -> (r: &[u64])
        ensures
            r@ == self@.temp_buffer_sizes,
    {
        self.temp_buffer_sizes.as_slice()
    }

    /// The serialized plan the engine is to load, if one was given.
    pub fn plan_upload(&self) -> (r: Option<&[u8]>)
        ensures
            opt_slice_view(r) == self@.plan_upload,
    {
        match &self.plan_upload {
            Some(b) => Some(b.as_slice()),
            None => None,
        }
    }

    /// The physical device, if configured.
    pub fn physical_device(&self) -> (r: Option<vk::PhysicalDevice>)
        ensures
            r == self@.physical_device,
    {
        self.phys
    }

    /// The device, if configured.
    pub fn device(&self) -> (r: Option<vk::Device>)
        ensures
            r == self@.device,
    {
        self.dev
    }

    /// The queue, if configured.
    pub fn queue(&self) -> (r: Option<vk::Queue>)
        ensures
            r == self@.queue,
    {
        self.queue
    }

    /// The command pool, if configured.
    pub fn command_pool(&self) -> (r: Option<vk::CommandPool>)
        ensures
            r == self@.command_pool,
    {
        self.command_pool
    }
}

} // verus!
