use std::collections::HashSet;

use ash::vk;
use ash::vk::Handle;
use vkfft::plan::{
    ERR_BATCH_COUNT_MISMATCH, ERR_BUFFER_COUNT_MISMATCH, ERR_CALLBACKS_UNSUPPORTED,
    ERR_DOWNLOAD_NOT_REQUESTED, ERR_EMPTY_OUTPUT_BUFFERS, ERR_NO_DIMENSIONS, ERR_NO_INPUT_BUFFERS,
    ERR_NO_LIVE_PLAN, ERR_PLAN_LIVE, ERR_TOO_MANY_DIMENSIONS, ERR_ZERO_EXTENT,
};
use vkfft::result::UNKNOWN_RESULT_NAME;
use vkfft::{
    vkfft_check, vkfft_ok, vkfft_result_to_str, LaunchParams, PlanState, VkFFTResult, VkFft,
    VkFftError, VkfftError,
};

fn dummy_callback(_userdata: usize) {}

fn defined_results() -> Vec<VkFFTResult> {
    vec![
        VkFFTResult::VKFFT_SUCCESS,
        VkFFTResult::VKFFT_ERROR_MALLOC_FAILED,
        VkFFTResult::VKFFT_ERROR_INSUFFICIENT_CODE_BUFFER,
        VkFFTResult::VKFFT_ERROR_INSUFFICIENT_TEMP_BUFFER,
        VkFFTResult::VKFFT_ERROR_PLAN_NOT_INITIALIZED,
        VkFFTResult::VKFFT_ERROR_NULL_TEMP_PASSED,
        VkFFTResult::VKFFT_ERROR_MATH_FAILED,
        VkFFTResult::VKFFT_ERROR_FFTdim_GT_MAX_FFT_DIMENSIONS,
        VkFFTResult::VKFFT_ERROR_NONZERO_APP_INITIALIZATION,
        VkFFTResult::VKFFT_ERROR_INVALID_PHYSICAL_DEVICE,
        VkFFTResult::VKFFT_ERROR_INVALID_DEVICE,
        VkFFTResult::VKFFT_ERROR_INVALID_QUEUE,
        VkFFTResult::VKFFT_ERROR_INVALID_COMMAND_POOL,
        VkFFTResult::VKFFT_ERROR_INVALID_FENCE,
        VkFFTResult::VKFFT_ERROR_ONLY_FORWARD_FFT_INITIALIZED,
        VkFFTResult::VKFFT_ERROR_ONLY_INVERSE_FFT_INITIALIZED,
        VkFFTResult::VKFFT_ERROR_INVALID_CONTEXT,
        VkFFTResult::VKFFT_ERROR_INVALID_PLATFORM,
        VkFFTResult::VKFFT_ERROR_ENABLED_saveApplicationToString,
        VkFFTResult::VKFFT_ERROR_EMPTY_FILE,
        VkFFTResult::VKFFT_ERROR_EMPTY_FFTdim,
        VkFFTResult::VKFFT_ERROR_EMPTY_size,
        VkFFTResult::VKFFT_ERROR_EMPTY_bufferSize,
        VkFFTResult::VKFFT_ERROR_EMPTY_buffer,
        VkFFTResult::VKFFT_ERROR_EMPTY_tempBufferSize,
        VkFFTResult::VKFFT_ERROR_EMPTY_tempBuffer,
        VkFFTResult::VKFFT_ERROR_EMPTY_inputBufferSize,
        VkFFTResult::VKFFT_ERROR_EMPTY_inputBuffer,
        VkFFTResult::VKFFT_ERROR_EMPTY_outputBufferSize,
        VkFFTResult::VKFFT_ERROR_EMPTY_outputBuffer,
        VkFFTResult::VKFFT_ERROR_EMPTY_kernelSize,
        VkFFTResult::VKFFT_ERROR_EMPTY_kernel,
        VkFFTResult::VKFFT_ERROR_EMPTY_applicationString,
        VkFFTResult::VKFFT_ERROR_EMPTY_useCustomBluesteinPaddingPattern_arrays,
        VkFFTResult::VKFFT_ERROR_EMPTY_app,
        VkFFTResult::VKFFT_ERROR_INVALID_user_tempBuffer_too_small,
        VkFFTResult::VKFFT_ERROR_UNSUPPORTED_RADIX,
        VkFFTResult::VKFFT_ERROR_UNSUPPORTED_FFT_LENGTH,
        VkFFTResult::VKFFT_ERROR_UNSUPPORTED_FFT_LENGTH_R2C,
        VkFFTResult::VKFFT_ERROR_UNSUPPORTED_FFT_LENGTH_R2R,
        VkFFTResult::VKFFT_ERROR_UNSUPPORTED_FFT_OMIT,
        VkFFTResult::VKFFT_ERROR_FAILED_TO_ALLOCATE,
        VkFFTResult::VKFFT_ERROR_FAILED_TO_MAP_MEMORY,
        VkFFTResult::VKFFT_ERROR_FAILED_TO_ALLOCATE_COMMAND_BUFFERS,
        VkFFTResult::VKFFT_ERROR_FAILED_TO_BEGIN_COMMAND_BUFFER,
        VkFFTResult::VKFFT_ERROR_FAILED_TO_END_COMMAND_BUFFER,
        VkFFTResult::VKFFT_ERROR_FAILED_TO_SUBMIT_QUEUE,
        VkFFTResult::VKFFT_ERROR_FAILED_TO_WAIT_FOR_FENCES,
        VkFFTResult::VKFFT_ERROR_FAILED_TO_RESET_FENCES,
        VkFFTResult::VKFFT_ERROR_FAILED_TO_CREATE_DESCRIPTOR_POOL,
        VkFFTResult::VKFFT_ERROR_FAILED_TO_CREATE_DESCRIPTOR_SET_LAYOUT,
        VkFFTResult::VKFFT_ERROR_FAILED_TO_ALLOCATE_DESCRIPTOR_SETS,
        VkFFTResult::VKFFT_ERROR_FAILED_TO_CREATE_PIPELINE_LAYOUT,
        VkFFTResult::VKFFT_ERROR_FAILED_SHADER_PREPROCESS,
        VkFFTResult::VKFFT_ERROR_FAILED_SHADER_PARSE,
        VkFFTResult::VKFFT_ERROR_FAILED_SHADER_LINK,
        VkFFTResult::VKFFT_ERROR_FAILED_SPIRV_GENERATE,
        VkFFTResult::VKFFT_ERROR_FAILED_TO_CREATE_SHADER_MODULE,
        VkFFTResult::VKFFT_ERROR_FAILED_TO_CREATE_INSTANCE,
        VkFFTResult::VKFFT_ERROR_FAILED_TO_SETUP_DEBUG_MESSENGER,
        VkFFTResult::VKFFT_ERROR_FAILED_TO_FIND_PHYSICAL_DEVICE,
        VkFFTResult::VKFFT_ERROR_FAILED_TO_CREATE_DEVICE,
        VkFFTResult::VKFFT_ERROR_FAILED_TO_CREATE_FENCE,
        VkFFTResult::VKFFT_ERROR_FAILED_TO_CREATE_COMMAND_POOL,
        VkFFTResult::VKFFT_ERROR_FAILED_TO_CREATE_BUFFER,
        VkFFTResult::VKFFT_ERROR_FAILED_TO_ALLOCATE_MEMORY,
        VkFFTResult::VKFFT_ERROR_FAILED_TO_BIND_BUFFER_MEMORY,
        VkFFTResult::VKFFT_ERROR_FAILED_TO_FIND_MEMORY,
        VkFFTResult::VKFFT_ERROR_FAILED_TO_SYNCHRONIZE,
        VkFFTResult::VKFFT_ERROR_FAILED_TO_COPY,
        VkFFTResult::VKFFT_ERROR_FAILED_TO_CREATE_PROGRAM,
        VkFFTResult::VKFFT_ERROR_FAILED_TO_COMPILE_PROGRAM,
        VkFFTResult::VKFFT_ERROR_FAILED_TO_GET_CODE_SIZE,
        VkFFTResult::VKFFT_ERROR_FAILED_TO_GET_CODE,
        VkFFTResult::VKFFT_ERROR_FAILED_TO_DESTROY_PROGRAM,
        VkFFTResult::VKFFT_ERROR_FAILED_TO_LOAD_MODULE,
        VkFFTResult::VKFFT_ERROR_FAILED_TO_GET_FUNCTION,
        VkFFTResult::VKFFT_ERROR_FAILED_TO_SET_DYNAMIC_SHARED_MEMORY,
        VkFFTResult::VKFFT_ERROR_FAILED_TO_MODULE_GET_GLOBAL,
        VkFFTResult::VKFFT_ERROR_FAILED_TO_LAUNCH_KERNEL,
        VkFFTResult::VKFFT_ERROR_FAILED_TO_EVENT_RECORD,
        VkFFTResult::VKFFT_ERROR_FAILED_TO_ADD_NAME_EXPRESSION,
        VkFFTResult::VKFFT_ERROR_FAILED_TO_INITIALIZE,
        VkFFTResult::VKFFT_ERROR_FAILED_TO_SET_DEVICE_ID,
        VkFFTResult::VKFFT_ERROR_FAILED_TO_GET_DEVICE,
        VkFFTResult::VKFFT_ERROR_FAILED_TO_CREATE_CONTEXT,
        VkFFTResult::VKFFT_ERROR_FAILED_TO_CREATE_PIPELINE,
        VkFFTResult::VKFFT_ERROR_FAILED_TO_SET_KERNEL_ARG,
        VkFFTResult::VKFFT_ERROR_FAILED_TO_CREATE_COMMAND_QUEUE,
        VkFFTResult::VKFFT_ERROR_FAILED_TO_RELEASE_COMMAND_QUEUE,
        VkFFTResult::VKFFT_ERROR_FAILED_TO_ENUMERATE_DEVICES,
        VkFFTResult::VKFFT_ERROR_FAILED_TO_GET_ATTRIBUTE,
        VkFFTResult::VKFFT_ERROR_FAILED_TO_CREATE_EVENT,
        VkFFTResult::VKFFT_ERROR_FAILED_TO_CREATE_COMMAND_LIST,
        VkFFTResult::VKFFT_ERROR_FAILED_TO_DESTROY_COMMAND_LIST,
        VkFFTResult::VKFFT_ERROR_FAILED_TO_SUBMIT_BARRIER,
    ]
}

#[test]
fn callback_pointer_api_is_exposed() {
    let mut fft = VkFft::new();

    let res = fft.set_callback_pointer(dummy_callback as usize);

    assert!(res.is_err());
}

#[test]
fn configures_dimensions_and_buffers() {
    let mut fft = VkFft::new();
    assert!(!fft.is_initialized());

    fft.configure_dimensions(&[16, 8]).unwrap();
    assert_eq!(fft.config().fft_dim, 2);
    assert_eq!(fft.config().size[0], 16);
    assert_eq!(fft.config().size[1], 8);
    assert_eq!(fft.config().size[2], 1);
    assert_eq!(fft.config().size[3], 1);

    let dummy_buffer = vk::Buffer::from_raw(0xDEADBEEF_u64);
    fft.configure_buffers(&[dummy_buffer], None).unwrap();

    assert_eq!(fft.buffers()[0], dummy_buffer);
}

#[test]
fn configures_buffer_size() {
    let mut fft = VkFft::new();

    fft.configure_buffer_size(1024);
    assert_eq!(fft.buffer_sizes()[0], 1024);
    assert_eq!(fft.config().buffer_num, 1);
}

#[test]
fn append_rejects_when_not_initialized() {
    let fft = VkFft::new();
    assert_eq!(fft.is_initialized(), false);

    let err = fft
        .append(vk::CommandBuffer::null(), 1)
        .expect_err("append should fail before initialize");
    assert_eq!(err.code, VkFFTResult::VKFFT_ERROR_PLAN_NOT_INITIALIZED);
}

#[test]
fn new_wrapper_is_zeroed() {
    let fft = VkFft::new();
    assert_eq!(fft.state(), PlanState::Uninitialized);
    assert_eq!(fft.config().fft_dim, 0);
    assert_eq!(fft.config().size, [0, 0, 0, 0]);
    assert!(fft.buffers().is_empty());
    assert!(fft.output_buffers().is_empty());
    assert!(fft.buffer_sizes().is_empty());
    assert!(fft.temp_buffer_sizes().is_empty());
    assert!(fft.plan_upload().is_none());
    assert!(fft.physical_device().is_none());
}

#[test]
fn dimensions_of_every_valid_length_are_padded() {
    let all = [7u64, 5, 3, 2];
    for n in 1..=4usize {
        let mut fft = VkFft::new();
        fft.configure_dimensions(&all[..n]).unwrap();
        assert_eq!(fft.config().fft_dim, n as u64);
        for i in 0..4 {
            let expected = if i < n { all[i] } else { 1 };
            assert_eq!(fft.config().size[i], expected);
        }
    }
}

#[test]
fn dimensions_rejects_empty_too_many_and_zero() {
    let mut fft = VkFft::new();
    fft.configure_dimensions(&[32]).unwrap();
    let before = *fft.config();

    assert_eq!(fft.configure_dimensions(&[]), Err(ERR_NO_DIMENSIONS));
    assert_eq!(fft.configure_dimensions(&[2, 2, 2, 2, 2]), Err(ERR_TOO_MANY_DIMENSIONS));
    assert_eq!(fft.configure_dimensions(&[4, 0]), Err(ERR_ZERO_EXTENT));
    assert_eq!(*fft.config(), before);
    assert_eq!(fft.config().size, [32, 1, 1, 1]);
}

#[test]
fn dimensions_overwrite_previous_setting() {
    let mut fft = VkFft::new();
    fft.configure_dimensions(&[4, 4, 4, 4]).unwrap();
    fft.configure_dimensions(&[9]).unwrap();
    assert_eq!(fft.config().fft_dim, 1);
    assert_eq!(fft.config().size, [9, 1, 1, 1]);
}

#[test]
fn buffers_out_of_place() {
    let mut fft = VkFft::new();
    let a = vk::Buffer::from_raw(1);
    let b = vk::Buffer::from_raw(2);
    let c = vk::Buffer::from_raw(3);
    let d = vk::Buffer::from_raw(4);
    fft.configure_buffers(&[a, b], Some(&[c, d])).unwrap();
    assert_eq!(fft.buffers(), &[a, b]);
    assert_eq!(fft.output_buffers(), &[c, d]);
    assert_eq!(fft.config().buffer_num, 2);
    assert_eq!(fft.config().input_buffer_num, 2);
    assert_eq!(fft.config().output_buffer_num, 2);

    fft.configure_buffers(&[d], None).unwrap();
    assert_eq!(fft.buffers(), &[d]);
    assert!(fft.output_buffers().is_empty());
    assert_eq!(fft.config().buffer_num, 1);
    assert_eq!(fft.config().input_buffer_num, 0);
    assert_eq!(fft.config().output_buffer_num, 0);
}

#[test]
fn buffers_errors() {
    let mut fft = VkFft::new();
    let a = vk::Buffer::from_raw(1);
    let b = vk::Buffer::from_raw(2);
    assert_eq!(fft.configure_buffers(&[], None), Err(ERR_NO_INPUT_BUFFERS));
    assert_eq!(fft.configure_buffers(&[a], Some(&[])), Err(ERR_EMPTY_OUTPUT_BUFFERS));
    fft.set_batch_count(3);
    assert_eq!(fft.configure_buffers(&[a, b], None), Err(ERR_BATCH_COUNT_MISMATCH));
    fft.configure_buffers(&[a], None).unwrap();
    fft.set_batch_count(2);
    fft.configure_buffers(&[a, b], None).unwrap();
    assert_eq!(fft.buffers(), &[a, b]);
}

#[test]
fn mismatched_buffer_sets_leave_state_unchanged() {
    let mut fft = VkFft::new();
    let a = vk::Buffer::from_raw(10);
    let b = vk::Buffer::from_raw(11);
    let c = vk::Buffer::from_raw(12);
    fft.configure_buffers(&[a], Some(&[b])).unwrap();
    let before = *fft.config();

    assert_eq!(fft.configure_buffers(&[a, b], Some(&[c])), Err(ERR_BUFFER_COUNT_MISMATCH));
    assert_eq!(*fft.config(), before);
    assert_eq!(fft.buffers(), &[a]);
    assert_eq!(fft.output_buffers(), &[b]);
}

#[test]
fn explicit_sizes_round_trip() {
    let mut fft = VkFft::new();
    fft.set_buffer_sizes(&[1024]);
    assert_eq!(fft.buffer_sizes(), &[1024]);
    assert_eq!(fft.buffer_sizes().len(), 1);
    fft.set_temp_buffer_sizes(&[64, 128]);
    assert_eq!(fft.temp_buffer_sizes(), &[64, 128]);
    fft.set_buffer_sizes(&[]);
    assert!(fft.buffer_sizes().is_empty());
    fft.configure_buffer_size(4096);
    assert_eq!(fft.buffer_sizes(), &[4096]);
}

#[test]
fn scalar_setters() {
    let mut fft = VkFft::new();
    fft.set_double_precision(true);
    fft.set_half_precision(true);
    fft.set_batch_count(8);
    fft.set_layout_flags(true, false);
    assert_eq!(fft.config().double_precision, 1);
    assert_eq!(fft.config().half_precision, 1);
    assert_eq!(fft.config().number_batches, 8);
    assert_eq!(fft.config().is_input_formatted, 1);
    assert_eq!(fft.config().is_output_formatted, 0);
    fft.set_double_precision(false);
    assert_eq!(fft.config().double_precision, 0);
}

#[test]
fn strides_keep_unset_sets() {
    let mut fft = VkFft::new();
    fft.set_strides([1, 2, 3, 4], Some([5, 6, 7, 8]), None);
    assert_eq!(fft.config().buffer_stride, [1, 2, 3, 4]);
    assert_eq!(fft.config().input_buffer_stride, [5, 6, 7, 8]);
    assert_eq!(fft.config().output_buffer_stride, [0, 0, 0, 0]);
    fft.set_strides([9, 9, 9, 9], None, Some([2, 2, 2, 2]));
    assert_eq!(fft.config().input_buffer_stride, [5, 6, 7, 8]);
    assert_eq!(fft.config().output_buffer_stride, [2, 2, 2, 2]);
}

#[test]
fn plan_cache_routing() {
    let mut fft = VkFft::new();
    fft.configure_plan_download();
    assert_eq!(fft.config().save_application_to_string, 1);
    fft.configure_plan_upload(&[1, 2, 3]);
    assert_eq!(fft.config().load_application_from_string, 1);
    assert_eq!(fft.plan_upload(), Some(&[1u8, 2, 3][..]));
}

#[test]
fn vulkan_handles_are_stored() {
    let mut fft = VkFft::new();
    let p = vk::PhysicalDevice::from_raw(0x10);
    let d = vk::Device::from_raw(0x20);
    let q = vk::Queue::from_raw(0x30);
    let c = vk::CommandPool::from_raw(0x40);
    fft.configure_vulkan(p, d, q, c);
    assert_eq!(fft.physical_device(), Some(p));
    assert_eq!(fft.device(), Some(d));
    assert_eq!(fft.queue(), Some(q));
    assert_eq!(fft.command_pool(), Some(c));
}

#[test]
fn callback_request_changes_nothing() {
    let mut fft = VkFft::new();
    fft.configure_dimensions(&[8, 8]).unwrap();
    let before = *fft.config();
    assert_eq!(fft.set_callback_pointer(dummy_callback as usize), Err(ERR_CALLBACKS_UNSUPPORTED));
    assert_eq!(*fft.config(), before);
    assert_eq!(fft.state(), PlanState::Uninitialized);
}

#[test]
fn initialize_lifecycle() {
    let mut fft = VkFft::new();
    fft.configure_dimensions(&[256]).unwrap();
    let cfg = fft.begin_initialize().unwrap();
    assert_eq!(cfg.fft_dim, 1);

    let failed = fft.initialize(VkFFTResult::VKFFT_ERROR_INVALID_DEVICE);
    assert_eq!(failed, Err(VkfftError::Vkfft(VkFFTResult::VKFFT_ERROR_INVALID_DEVICE)));
    assert_eq!(fft.state(), PlanState::Uninitialized);

    assert_eq!(fft.initialize(VkFFTResult::VKFFT_SUCCESS), Ok(()));
    assert!(fft.is_initialized());
    let again = Err(VkfftError::Vkfft(VkFFTResult::VKFFT_ERROR_NONZERO_APP_INITIALIZATION));
    assert_eq!(fft.begin_initialize(), again.map(|_: ()| cfg));
    assert_eq!(fft.initialize(VkFFTResult::VKFFT_SUCCESS), again);
    assert_eq!(fft.state(), PlanState::Initialized);
}

#[test]
fn append_after_initialize_builds_launch() {
    let mut fft = VkFft::new();
    fft.initialize(VkFFTResult::VKFFT_SUCCESS).unwrap();
    let cb = vk::CommandBuffer::from_raw(0x99);
    let launch = fft.append(cb, -1).unwrap();
    assert_eq!(launch, LaunchParams { command_buffer: cb, direction: -1 });
    assert_eq!(fft.append(cb, 1).unwrap().direction, 1);
    assert!(fft.is_initialized());
}

#[test]
fn destroy_is_idempotent() {
    let mut fft = VkFft::new();
    fft.initialize(VkFFTResult::VKFFT_SUCCESS).unwrap();
    assert!(fft.destroy());
    assert_eq!(fft.state(), PlanState::Destroyed);
    assert!(!fft.destroy());
    assert_eq!(fft.state(), PlanState::Destroyed);
    assert!(fft.append(vk::CommandBuffer::null(), 1).is_err());
}

#[test]
fn destroy_after_failed_initialize_releases_nothing() {
    let mut fft = VkFft::new();
    assert!(fft.initialize(VkFFTResult::VKFFT_ERROR_MALLOC_FAILED).is_err());
    assert!(!fft.destroy());
    assert!(!fft.destroy());
    assert_eq!(fft.state(), PlanState::Uninitialized);
}

#[test]
fn result_names_are_distinct_and_stable() {
    let all = defined_results();
    assert_eq!(all.len(), 96);
    let mut seen = HashSet::new();
    for r in &all {
        let name = vkfft_result_to_str(*r);
        assert_eq!(name, vkfft_result_to_str(*r));
        assert_ne!(name, UNKNOWN_RESULT_NAME);
        assert!(seen.insert(name));
    }
    assert_eq!(vkfft_result_to_str(VkFFTResult::VKFFT_SUCCESS), "VKFFT_SUCCESS");
    assert_eq!(
        vkfft_result_to_str(VkFFTResult::VKFFT_ERROR_FAILED_TO_SUBMIT_BARRIER),
        "VKFFT_ERROR_FAILED_TO_SUBMIT_BARRIER"
    );
}

#[test]
fn unrecognized_codes_map_to_catch_all() {
    assert_eq!(vkfft_result_to_str(VkFFTResult::Unrecognized(-1)), "Unknown VkFFT error");
    assert_eq!(vkfft_result_to_str(VkFFTResult::Unrecognized(123456)), UNKNOWN_RESULT_NAME);
}

#[test]
fn error_carries_code_and_name() {
    let e = VkFftError::from_result(VkFFTResult::VKFFT_ERROR_INVALID_QUEUE);
    assert_eq!(e.code, VkFFTResult::VKFFT_ERROR_INVALID_QUEUE);
    assert_eq!(e.message, "VKFFT_ERROR_INVALID_QUEUE");
    assert_eq!(e.to_string(), "VKFFT_ERROR_INVALID_QUEUE");
    let f: VkfftError = VkFFTResult::VKFFT_ERROR_EMPTY_FILE.into();
    assert_eq!(f, VkfftError::Vkfft(VkFFTResult::VKFFT_ERROR_EMPTY_FILE));
}

#[test]
fn check_centralizes_success() {
    assert!(vkfft_ok(VkFFTResult::VKFFT_SUCCESS));
    assert!(!vkfft_ok(VkFFTResult::VKFFT_ERROR_MATH_FAILED));
    assert_eq!(vkfft_check(VkFFTResult::VKFFT_SUCCESS), Ok(()));
    let e = vkfft_check(VkFFTResult::VKFFT_ERROR_UNSUPPORTED_RADIX).unwrap_err();
    assert_eq!(e.code, VkFFTResult::VKFFT_ERROR_UNSUPPORTED_RADIX);
    assert_eq!(e.message, "VKFFT_ERROR_UNSUPPORTED_RADIX");
}

#[test]
fn callback_refusal_keeps_its_message() {
    let mut fft = VkFft::new();
    assert!(!fft.supports_callback_hooks());
    assert_eq!(
        fft.set_callback_pointer(dummy_callback as usize),
        Err("Callback pointers are not exposed by the generated bindings")
    );
    assert_eq!(fft.callback_pointer(), None);
}

#[test]
fn callback_accepted_when_hooks_exist() {
    let mut fft = VkFft::with_capabilities(true);
    assert!(fft.supports_callback_hooks());
    let addr = dummy_callback as usize;
    assert_eq!(fft.set_callback_pointer(addr), Ok(()));
    assert_eq!(fft.callback_pointer(), Some(addr));
    fft.initialize(VkFFTResult::VKFFT_SUCCESS).unwrap();
    assert_eq!(fft.set_callback_pointer(7), Err(ERR_PLAN_LIVE));
    assert_eq!(fft.callback_pointer(), Some(addr));
}

#[test]
fn plan_download_reaches_the_caller() {
    let mut fft = VkFft::new();
    assert_eq!(fft.accept_plan_download(&[1, 2]), Err(ERR_DOWNLOAD_NOT_REQUESTED));
    fft.configure_plan_download();
    assert_eq!(fft.accept_plan_download(&[1, 2]), Err(ERR_NO_LIVE_PLAN));
    assert_eq!(fft.plan_download(), None);
    fft.initialize(VkFFTResult::VKFFT_SUCCESS).unwrap();
    assert_eq!(fft.accept_plan_download(&[9, 8, 7]), Ok(()));
    assert_eq!(fft.plan_download(), Some(&[9u8, 8, 7][..]));
}

#[test]
fn release_happens_once_over_a_long_sequence() {
    let mut fft = VkFft::new();
    let mut releases = 0;
    assert!(fft.initialize(VkFFTResult::VKFFT_ERROR_INVALID_QUEUE).is_err());
    if fft.destroy() {
        releases += 1;
    }
    fft.initialize(VkFFTResult::VKFFT_SUCCESS).unwrap();
    assert!(fft.append(vk::CommandBuffer::null(), 1).is_ok());
    for _ in 0..3 {
        if fft.destroy() {
            releases += 1;
        }
        assert!(fft.initialize(VkFFTResult::VKFFT_SUCCESS).is_err());
    }
    assert_eq!(releases, 1);
    assert_eq!(fft.state(), PlanState::Destroyed);
}
