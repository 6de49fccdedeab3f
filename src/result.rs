use vstd::prelude::*;

verus! {

/// A result code of the native FFT engine.
///
/// Every code the engine defines has a variant of its own; a code outside
/// that set is carried as `Unrecognized` with its raw value.
#[allow(non_camel_case_types)]
#[derive(Copy, Clone, Debug, PartialEq, Eq, Structural)]
pub enum VkFFTResult {
    VKFFT_SUCCESS,
    VKFFT_ERROR_MALLOC_FAILED,
    VKFFT_ERROR_INSUFFICIENT_CODE_BUFFER,
    VKFFT_ERROR_INSUFFICIENT_TEMP_BUFFER,
    VKFFT_ERROR_PLAN_NOT_INITIALIZED,
    VKFFT_ERROR_NULL_TEMP_PASSED,
    VKFFT_ERROR_MATH_FAILED,
    VKFFT_ERROR_FFTdim_GT_MAX_FFT_DIMENSIONS,
    VKFFT_ERROR_NONZERO_APP_INITIALIZATION,
    VKFFT_ERROR_INVALID_PHYSICAL_DEVICE,
    VKFFT_ERROR_INVALID_DEVICE,
    VKFFT_ERROR_INVALID_QUEUE,
    VKFFT_ERROR_INVALID_COMMAND_POOL,
    VKFFT_ERROR_INVALID_FENCE,
    VKFFT_ERROR_ONLY_FORWARD_FFT_INITIALIZED,
    VKFFT_ERROR_ONLY_INVERSE_FFT_INITIALIZED,
    VKFFT_ERROR_INVALID_CONTEXT,
    VKFFT_ERROR_INVALID_PLATFORM,
    VKFFT_ERROR_ENABLED_saveApplicationToString,
    VKFFT_ERROR_EMPTY_FILE,
    VKFFT_ERROR_EMPTY_FFTdim,
    VKFFT_ERROR_EMPTY_size,
    VKFFT_ERROR_EMPTY_bufferSize,
    VKFFT_ERROR_EMPTY_buffer,
    VKFFT_ERROR_EMPTY_tempBufferSize,
    VKFFT_ERROR_EMPTY_tempBuffer,
    VKFFT_ERROR_EMPTY_inputBufferSize,
    VKFFT_ERROR_EMPTY_inputBuffer,
    VKFFT_ERROR_EMPTY_outputBufferSize,
    VKFFT_ERROR_EMPTY_outputBuffer,
    VKFFT_ERROR_EMPTY_kernelSize,
    VKFFT_ERROR_EMPTY_kernel,
    VKFFT_ERROR_EMPTY_applicationString,
    VKFFT_ERROR_EMPTY_useCustomBluesteinPaddingPattern_arrays,
    VKFFT_ERROR_EMPTY_app,
    VKFFT_ERROR_INVALID_user_tempBuffer_too_small,
    VKFFT_ERROR_UNSUPPORTED_RADIX,
    VKFFT_ERROR_UNSUPPORTED_FFT_LENGTH,
    VKFFT_ERROR_UNSUPPORTED_FFT_LENGTH_R2C,
    VKFFT_ERROR_UNSUPPORTED_FFT_LENGTH_R2R,
    VKFFT_ERROR_UNSUPPORTED_FFT_OMIT,
    VKFFT_ERROR_FAILED_TO_ALLOCATE,
    VKFFT_ERROR_FAILED_TO_MAP_MEMORY,
    VKFFT_ERROR_FAILED_TO_ALLOCATE_COMMAND_BUFFERS,
    VKFFT_ERROR_FAILED_TO_BEGIN_COMMAND_BUFFER,
    VKFFT_ERROR_FAILED_TO_END_COMMAND_BUFFER,
    VKFFT_ERROR_FAILED_TO_SUBMIT_QUEUE,
    VKFFT_ERROR_FAILED_TO_WAIT_FOR_FENCES,
    VKFFT_ERROR_FAILED_TO_RESET_FENCES,
    VKFFT_ERROR_FAILED_TO_CREATE_DESCRIPTOR_POOL,
    VKFFT_ERROR_FAILED_TO_CREATE_DESCRIPTOR_SET_LAYOUT,
    VKFFT_ERROR_FAILED_TO_ALLOCATE_DESCRIPTOR_SETS,
    VKFFT_ERROR_FAILED_TO_CREATE_PIPELINE_LAYOUT,
    VKFFT_ERROR_FAILED_SHADER_PREPROCESS,
    VKFFT_ERROR_FAILED_SHADER_PARSE,
    VKFFT_ERROR_FAILED_SHADER_LINK,
    VKFFT_ERROR_FAILED_SPIRV_GENERATE,
    VKFFT_ERROR_FAILED_TO_CREATE_SHADER_MODULE,
    VKFFT_ERROR_FAILED_TO_CREATE_INSTANCE,
    VKFFT_ERROR_FAILED_TO_SETUP_DEBUG_MESSENGER,
    VKFFT_ERROR_FAILED_TO_FIND_PHYSICAL_DEVICE,
    VKFFT_ERROR_FAILED_TO_CREATE_DEVICE,
    VKFFT_ERROR_FAILED_TO_CREATE_FENCE,
    VKFFT_ERROR_FAILED_TO_CREATE_COMMAND_POOL,
    VKFFT_ERROR_FAILED_TO_CREATE_BUFFER,
    VKFFT_ERROR_FAILED_TO_ALLOCATE_MEMORY,
    VKFFT_ERROR_FAILED_TO_BIND_BUFFER_MEMORY,
    VKFFT_ERROR_FAILED_TO_FIND_MEMORY,
    VKFFT_ERROR_FAILED_TO_SYNCHRONIZE,
    VKFFT_ERROR_FAILED_TO_COPY,
    VKFFT_ERROR_FAILED_TO_CREATE_PROGRAM,
    VKFFT_ERROR_FAILED_TO_COMPILE_PROGRAM,
    VKFFT_ERROR_FAILED_TO_GET_CODE_SIZE,
    VKFFT_ERROR_FAILED_TO_GET_CODE,
    VKFFT_ERROR_FAILED_TO_DESTROY_PROGRAM,
    VKFFT_ERROR_FAILED_TO_LOAD_MODULE,
    VKFFT_ERROR_FAILED_TO_GET_FUNCTION,
    VKFFT_ERROR_FAILED_TO_SET_DYNAMIC_SHARED_MEMORY,
    VKFFT_ERROR_FAILED_TO_MODULE_GET_GLOBAL,
    VKFFT_ERROR_FAILED_TO_LAUNCH_KERNEL,
    VKFFT_ERROR_FAILED_TO_EVENT_RECORD,
    VKFFT_ERROR_FAILED_TO_ADD_NAME_EXPRESSION,
    VKFFT_ERROR_FAILED_TO_INITIALIZE,
    VKFFT_ERROR_FAILED_TO_SET_DEVICE_ID,
    VKFFT_ERROR_FAILED_TO_GET_DEVICE,
    VKFFT_ERROR_FAILED_TO_CREATE_CONTEXT,
    VKFFT_ERROR_FAILED_TO_CREATE_PIPELINE,
    VKFFT_ERROR_FAILED_TO_SET_KERNEL_ARG,
    VKFFT_ERROR_FAILED_TO_CREATE_COMMAND_QUEUE,
    VKFFT_ERROR_FAILED_TO_RELEASE_COMMAND_QUEUE,
    VKFFT_ERROR_FAILED_TO_ENUMERATE_DEVICES,
    VKFFT_ERROR_FAILED_TO_GET_ATTRIBUTE,
    VKFFT_ERROR_FAILED_TO_CREATE_EVENT,
    VKFFT_ERROR_FAILED_TO_CREATE_COMMAND_LIST,
    VKFFT_ERROR_FAILED_TO_DESTROY_COMMAND_LIST,
    VKFFT_ERROR_FAILED_TO_SUBMIT_BARRIER,
    Unrecognized(i32),
}

/// The category string reported for codes the engine does not define.
pub const UNKNOWN_RESULT_NAME: &'static str = "Unknown VkFFT error";

/// The stable symbolic name of a native result code.
pub open spec fn result_name(result: VkFFTResult) -> &'static str {
    match result {
        VkFFTResult::VKFFT_SUCCESS => "VKFFT_SUCCESS",
        VkFFTResult::VKFFT_ERROR_MALLOC_FAILED => "VKFFT_ERROR_MALLOC_FAILED",
        VkFFTResult::VKFFT_ERROR_INSUFFICIENT_CODE_BUFFER => "VKFFT_ERROR_INSUFFICIENT_CODE_BUFFER",
        VkFFTResult::VKFFT_ERROR_INSUFFICIENT_TEMP_BUFFER => "VKFFT_ERROR_INSUFFICIENT_TEMP_BUFFER",
        VkFFTResult::VKFFT_ERROR_PLAN_NOT_INITIALIZED => "VKFFT_ERROR_PLAN_NOT_INITIALIZED",
        VkFFTResult::VKFFT_ERROR_NULL_TEMP_PASSED => "VKFFT_ERROR_NULL_TEMP_PASSED",
        VkFFTResult::VKFFT_ERROR_MATH_FAILED => "VKFFT_ERROR_MATH_FAILED",
        VkFFTResult::VKFFT_ERROR_FFTdim_GT_MAX_FFT_DIMENSIONS => "VKFFT_ERROR_FFTdim_GT_MAX_FFT_DIMENSIONS",
        VkFFTResult::VKFFT_ERROR_NONZERO_APP_INITIALIZATION => "VKFFT_ERROR_NONZERO_APP_INITIALIZATION",
        VkFFTResult::VKFFT_ERROR_INVALID_PHYSICAL_DEVICE => "VKFFT_ERROR_INVALID_PHYSICAL_DEVICE",
        VkFFTResult::VKFFT_ERROR_INVALID_DEVICE => "VKFFT_ERROR_INVALID_DEVICE",
        VkFFTResult::VKFFT_ERROR_INVALID_QUEUE => "VKFFT_ERROR_INVALID_QUEUE",
        VkFFTResult::VKFFT_ERROR_INVALID_COMMAND_POOL => "VKFFT_ERROR_INVALID_COMMAND_POOL",
        VkFFTResult::VKFFT_ERROR_INVALID_FENCE => "VKFFT_ERROR_INVALID_FENCE",
        VkFFTResult::VKFFT_ERROR_ONLY_FORWARD_FFT_INITIALIZED => "VKFFT_ERROR_ONLY_FORWARD_FFT_INITIALIZED",
        VkFFTResult::VKFFT_ERROR_ONLY_INVERSE_FFT_INITIALIZED => "VKFFT_ERROR_ONLY_INVERSE_FFT_INITIALIZED",
        VkFFTResult::VKFFT_ERROR_INVALID_CONTEXT => "VKFFT_ERROR_INVALID_CONTEXT",
        VkFFTResult::VKFFT_ERROR_INVALID_PLATFORM => "VKFFT_ERROR_INVALID_PLATFORM",
        VkFFTResult::VKFFT_ERROR_ENABLED_saveApplicationToString => "VKFFT_ERROR_ENABLED_saveApplicationToString",
        VkFFTResult::VKFFT_ERROR_EMPTY_FILE => "VKFFT_ERROR_EMPTY_FILE",
        VkFFTResult::VKFFT_ERROR_EMPTY_FFTdim => "VKFFT_ERROR_EMPTY_FFTdim",
        VkFFTResult::VKFFT_ERROR_EMPTY_size => "VKFFT_ERROR_EMPTY_size",
        VkFFTResult::VKFFT_ERROR_EMPTY_bufferSize => "VKFFT_ERROR_EMPTY_bufferSize",
        VkFFTResult::VKFFT_ERROR_EMPTY_buffer => "VKFFT_ERROR_EMPTY_buffer",
        VkFFTResult::VKFFT_ERROR_EMPTY_tempBufferSize => "VKFFT_ERROR_EMPTY_tempBufferSize",
        VkFFTResult::VKFFT_ERROR_EMPTY_tempBuffer => "VKFFT_ERROR_EMPTY_tempBuffer",
        VkFFTResult::VKFFT_ERROR_EMPTY_inputBufferSize => "VKFFT_ERROR_EMPTY_inputBufferSize",
        VkFFTResult::VKFFT_ERROR_EMPTY_inputBuffer => "VKFFT_ERROR_EMPTY_inputBuffer",
        VkFFTResult::VKFFT_ERROR_EMPTY_outputBufferSize => "VKFFT_ERROR_EMPTY_outputBufferSize",
        VkFFTResult::VKFFT_ERROR_EMPTY_outputBuffer => "VKFFT_ERROR_EMPTY_outputBuffer",
        VkFFTResult::VKFFT_ERROR_EMPTY_kernelSize => "VKFFT_ERROR_EMPTY_kernelSize",
        VkFFTResult::VKFFT_ERROR_EMPTY_kernel => "VKFFT_ERROR_EMPTY_kernel",
        VkFFTResult::VKFFT_ERROR_EMPTY_applicationString => "VKFFT_ERROR_EMPTY_applicationString",
        VkFFTResult::VKFFT_ERROR_EMPTY_useCustomBluesteinPaddingPattern_arrays => "VKFFT_ERROR_EMPTY_useCustomBluesteinPaddingPattern_arrays",
        VkFFTResult::VKFFT_ERROR_EMPTY_app => "VKFFT_ERROR_EMPTY_app",
        VkFFTResult::VKFFT_ERROR_INVALID_user_tempBuffer_too_small => "VKFFT_ERROR_INVALID_user_tempBuffer_too_small",
        VkFFTResult::VKFFT_ERROR_UNSUPPORTED_RADIX => "VKFFT_ERROR_UNSUPPORTED_RADIX",
        VkFFTResult::VKFFT_ERROR_UNSUPPORTED_FFT_LENGTH => "VKFFT_ERROR_UNSUPPORTED_FFT_LENGTH",
        VkFFTResult::VKFFT_ERROR_UNSUPPORTED_FFT_LENGTH_R2C => "VKFFT_ERROR_UNSUPPORTED_FFT_LENGTH_R2C",
        VkFFTResult::VKFFT_ERROR_UNSUPPORTED_FFT_LENGTH_R2R => "VKFFT_ERROR_UNSUPPORTED_FFT_LENGTH_R2R",
        VkFFTResult::VKFFT_ERROR_UNSUPPORTED_FFT_OMIT => "VKFFT_ERROR_UNSUPPORTED_FFT_OMIT",
        VkFFTResult::VKFFT_ERROR_FAILED_TO_ALLOCATE => "VKFFT_ERROR_FAILED_TO_ALLOCATE",
        VkFFTResult::VKFFT_ERROR_FAILED_TO_MAP_MEMORY => "VKFFT_ERROR_FAILED_TO_MAP_MEMORY",
        VkFFTResult::VKFFT_ERROR_FAILED_TO_ALLOCATE_COMMAND_BUFFERS => "VKFFT_ERROR_FAILED_TO_ALLOCATE_COMMAND_BUFFERS",
        VkFFTResult::VKFFT_ERROR_FAILED_TO_BEGIN_COMMAND_BUFFER => "VKFFT_ERROR_FAILED_TO_BEGIN_COMMAND_BUFFER",
        VkFFTResult::VKFFT_ERROR_FAILED_TO_END_COMMAND_BUFFER => "VKFFT_ERROR_FAILED_TO_END_COMMAND_BUFFER",
        VkFFTResult::VKFFT_ERROR_FAILED_TO_SUBMIT_QUEUE => "VKFFT_ERROR_FAILED_TO_SUBMIT_QUEUE",
        VkFFTResult::VKFFT_ERROR_FAILED_TO_WAIT_FOR_FENCES => "VKFFT_ERROR_FAILED_TO_WAIT_FOR_FENCES",
        VkFFTResult::VKFFT_ERROR_FAILED_TO_RESET_FENCES => "VKFFT_ERROR_FAILED_TO_RESET_FENCES",
        VkFFTResult::VKFFT_ERROR_FAILED_TO_CREATE_DESCRIPTOR_POOL => "VKFFT_ERROR_FAILED_TO_CREATE_DESCRIPTOR_POOL",
        VkFFTResult::VKFFT_ERROR_FAILED_TO_CREATE_DESCRIPTOR_SET_LAYOUT => "VKFFT_ERROR_FAILED_TO_CREATE_DESCRIPTOR_SET_LAYOUT",
        VkFFTResult::VKFFT_ERROR_FAILED_TO_ALLOCATE_DESCRIPTOR_SETS => "VKFFT_ERROR_FAILED_TO_ALLOCATE_DESCRIPTOR_SETS",
        VkFFTResult::VKFFT_ERROR_FAILED_TO_CREATE_PIPELINE_LAYOUT => "VKFFT_ERROR_FAILED_TO_CREATE_PIPELINE_LAYOUT",
        VkFFTResult::VKFFT_ERROR_FAILED_SHADER_PREPROCESS => "VKFFT_ERROR_FAILED_SHADER_PREPROCESS",
        VkFFTResult::VKFFT_ERROR_FAILED_SHADER_PARSE => "VKFFT_ERROR_FAILED_SHADER_PARSE",
        VkFFTResult::VKFFT_ERROR_FAILED_SHADER_LINK => "VKFFT_ERROR_FAILED_SHADER_LINK",
        VkFFTResult::VKFFT_ERROR_FAILED_SPIRV_GENERATE => "VKFFT_ERROR_FAILED_SPIRV_GENERATE",
        VkFFTResult::VKFFT_ERROR_FAILED_TO_CREATE_SHADER_MODULE => "VKFFT_ERROR_FAILED_TO_CREATE_SHADER_MODULE",
        VkFFTResult::VKFFT_ERROR_FAILED_TO_CREATE_INSTANCE => "VKFFT_ERROR_FAILED_TO_CREATE_INSTANCE",
        VkFFTResult::VKFFT_ERROR_FAILED_TO_SETUP_DEBUG_MESSENGER => "VKFFT_ERROR_FAILED_TO_SETUP_DEBUG_MESSENGER",
        VkFFTResult::VKFFT_ERROR_FAILED_TO_FIND_PHYSICAL_DEVICE => "VKFFT_ERROR_FAILED_TO_FIND_PHYSICAL_DEVICE",
        VkFFTResult::VKFFT_ERROR_FAILED_TO_CREATE_DEVICE => "VKFFT_ERROR_FAILED_TO_CREATE_DEVICE",
        VkFFTResult::VKFFT_ERROR_FAILED_TO_CREATE_FENCE => "VKFFT_ERROR_FAILED_TO_CREATE_FENCE",
        VkFFTResult::VKFFT_ERROR_FAILED_TO_CREATE_COMMAND_POOL => "VKFFT_ERROR_FAILED_TO_CREATE_COMMAND_POOL",
        VkFFTResult::VKFFT_ERROR_FAILED_TO_CREATE_BUFFER => "VKFFT_ERROR_FAILED_TO_CREATE_BUFFER",
        VkFFTResult::VKFFT_ERROR_FAILED_TO_ALLOCATE_MEMORY => "VKFFT_ERROR_FAILED_TO_ALLOCATE_MEMORY",
        VkFFTResult::VKFFT_ERROR_FAILED_TO_BIND_BUFFER_MEMORY => "VKFFT_ERROR_FAILED_TO_BIND_BUFFER_MEMORY",
        VkFFTResult::VKFFT_ERROR_FAILED_TO_FIND_MEMORY => "VKFFT_ERROR_FAILED_TO_FIND_MEMORY",
        VkFFTResult::VKFFT_ERROR_FAILED_TO_SYNCHRONIZE => "VKFFT_ERROR_FAILED_TO_SYNCHRONIZE",
        VkFFTResult::VKFFT_ERROR_FAILED_TO_COPY => "VKFFT_ERROR_FAILED_TO_COPY",
        VkFFTResult::VKFFT_ERROR_FAILED_TO_CREATE_PROGRAM => "VKFFT_ERROR_FAILED_TO_CREATE_PROGRAM",
        VkFFTResult::VKFFT_ERROR_FAILED_TO_COMPILE_PROGRAM => "VKFFT_ERROR_FAILED_TO_COMPILE_PROGRAM",
        VkFFTResult::VKFFT_ERROR_FAILED_TO_GET_CODE_SIZE => "VKFFT_ERROR_FAILED_TO_GET_CODE_SIZE",
        VkFFTResult::VKFFT_ERROR_FAILED_TO_GET_CODE => "VKFFT_ERROR_FAILED_TO_GET_CODE",
        VkFFTResult::VKFFT_ERROR_FAILED_TO_DESTROY_PROGRAM => "VKFFT_ERROR_FAILED_TO_DESTROY_PROGRAM",
        VkFFTResult::VKFFT_ERROR_FAILED_TO_LOAD_MODULE => "VKFFT_ERROR_FAILED_TO_LOAD_MODULE",
        VkFFTResult::VKFFT_ERROR_FAILED_TO_GET_FUNCTION => "VKFFT_ERROR_FAILED_TO_GET_FUNCTION",
        VkFFTResult::VKFFT_ERROR_FAILED_TO_SET_DYNAMIC_SHARED_MEMORY => "VKFFT_ERROR_FAILED_TO_SET_DYNAMIC_SHARED_MEMORY",
        VkFFTResult::VKFFT_ERROR_FAILED_TO_MODULE_GET_GLOBAL => "VKFFT_ERROR_FAILED_TO_MODULE_GET_GLOBAL",
        VkFFTResult::VKFFT_ERROR_FAILED_TO_LAUNCH_KERNEL => "VKFFT_ERROR_FAILED_TO_LAUNCH_KERNEL",
        VkFFTResult::VKFFT_ERROR_FAILED_TO_EVENT_RECORD => "VKFFT_ERROR_FAILED_TO_EVENT_RECORD",
        VkFFTResult::VKFFT_ERROR_FAILED_TO_ADD_NAME_EXPRESSION => "VKFFT_ERROR_FAILED_TO_ADD_NAME_EXPRESSION",
        VkFFTResult::VKFFT_ERROR_FAILED_TO_INITIALIZE => "VKFFT_ERROR_FAILED_TO_INITIALIZE",
        VkFFTResult::VKFFT_ERROR_FAILED_TO_SET_DEVICE_ID => "VKFFT_ERROR_FAILED_TO_SET_DEVICE_ID",
        VkFFTResult::VKFFT_ERROR_FAILED_TO_GET_DEVICE => "VKFFT_ERROR_FAILED_TO_GET_DEVICE",
        VkFFTResult::VKFFT_ERROR_FAILED_TO_CREATE_CONTEXT => "VKFFT_ERROR_FAILED_TO_CREATE_CONTEXT",
        VkFFTResult::VKFFT_ERROR_FAILED_TO_CREATE_PIPELINE => "VKFFT_ERROR_FAILED_TO_CREATE_PIPELINE",
        VkFFTResult::VKFFT_ERROR_FAILED_TO_SET_KERNEL_ARG => "VKFFT_ERROR_FAILED_TO_SET_KERNEL_ARG",
        VkFFTResult::VKFFT_ERROR_FAILED_TO_CREATE_COMMAND_QUEUE => "VKFFT_ERROR_FAILED_TO_CREATE_COMMAND_QUEUE",
        VkFFTResult::VKFFT_ERROR_FAILED_TO_RELEASE_COMMAND_QUEUE => "VKFFT_ERROR_FAILED_TO_RELEASE_COMMAND_QUEUE",
        VkFFTResult::VKFFT_ERROR_FAILED_TO_ENUMERATE_DEVICES => "VKFFT_ERROR_FAILED_TO_ENUMERATE_DEVICES",
        VkFFTResult::VKFFT_ERROR_FAILED_TO_GET_ATTRIBUTE => "VKFFT_ERROR_FAILED_TO_GET_ATTRIBUTE",
        VkFFTResult::VKFFT_ERROR_FAILED_TO_CREATE_EVENT => "VKFFT_ERROR_FAILED_TO_CREATE_EVENT",
        VkFFTResult::VKFFT_ERROR_FAILED_TO_CREATE_COMMAND_LIST => "VKFFT_ERROR_FAILED_TO_CREATE_COMMAND_LIST",
        VkFFTResult::VKFFT_ERROR_FAILED_TO_DESTROY_COMMAND_LIST => "VKFFT_ERROR_FAILED_TO_DESTROY_COMMAND_LIST",
        VkFFTResult::VKFFT_ERROR_FAILED_TO_SUBMIT_BARRIER => "VKFFT_ERROR_FAILED_TO_SUBMIT_BARRIER",
        VkFFTResult::Unrecognized(_) => UNKNOWN_RESULT_NAME,
    }
}

/// Whether a code is one the engine defines.
pub open spec fn is_defined_result(result: VkFFTResult) -> bool {
    !(result is Unrecognized)
}

/// Translates a native result code into its symbolic name; codes the engine
/// does not define all map to the catch-all name.
pub fn vkfft_result_to_str(result: VkFFTResult) -> (r: &'static str)
    ensures
        r == result_name(result),
        !is_defined_result(result) ==> r == UNKNOWN_RESULT_NAME,
{
    match result {
        VkFFTResult::VKFFT_SUCCESS => "VKFFT_SUCCESS",
        VkFFTResult::VKFFT_ERROR_MALLOC_FAILED => "VKFFT_ERROR_MALLOC_FAILED",
        VkFFTResult::VKFFT_ERROR_INSUFFICIENT_CODE_BUFFER => "VKFFT_ERROR_INSUFFICIENT_CODE_BUFFER",
        VkFFTResult::VKFFT_ERROR_INSUFFICIENT_TEMP_BUFFER => "VKFFT_ERROR_INSUFFICIENT_TEMP_BUFFER",
        VkFFTResult::VKFFT_ERROR_PLAN_NOT_INITIALIZED => "VKFFT_ERROR_PLAN_NOT_INITIALIZED",
        VkFFTResult::VKFFT_ERROR_NULL_TEMP_PASSED => "VKFFT_ERROR_NULL_TEMP_PASSED",
        VkFFTResult::VKFFT_ERROR_MATH_FAILED => "VKFFT_ERROR_MATH_FAILED",
        VkFFTResult::VKFFT_ERROR_FFTdim_GT_MAX_FFT_DIMENSIONS => "VKFFT_ERROR_FFTdim_GT_MAX_FFT_DIMENSIONS",
        VkFFTResult::VKFFT_ERROR_NONZERO_APP_INITIALIZATION => "VKFFT_ERROR_NONZERO_APP_INITIALIZATION",
        VkFFTResult::VKFFT_ERROR_INVALID_PHYSICAL_DEVICE => "VKFFT_ERROR_INVALID_PHYSICAL_DEVICE",
        VkFFTResult::VKFFT_ERROR_INVALID_DEVICE => "VKFFT_ERROR_INVALID_DEVICE",
        VkFFTResult::VKFFT_ERROR_INVALID_QUEUE => "VKFFT_ERROR_INVALID_QUEUE",
        VkFFTResult::VKFFT_ERROR_INVALID_COMMAND_POOL => "VKFFT_ERROR_INVALID_COMMAND_POOL",
        VkFFTResult::VKFFT_ERROR_INVALID_FENCE => "VKFFT_ERROR_INVALID_FENCE",
        VkFFTResult::VKFFT_ERROR_ONLY_FORWARD_FFT_INITIALIZED => "VKFFT_ERROR_ONLY_FORWARD_FFT_INITIALIZED",
        VkFFTResult::VKFFT_ERROR_ONLY_INVERSE_FFT_INITIALIZED => "VKFFT_ERROR_ONLY_INVERSE_FFT_INITIALIZED",
        VkFFTResult::VKFFT_ERROR_INVALID_CONTEXT => "VKFFT_ERROR_INVALID_CONTEXT",
        VkFFTResult::VKFFT_ERROR_INVALID_PLATFORM => "VKFFT_ERROR_INVALID_PLATFORM",
        VkFFTResult::VKFFT_ERROR_ENABLED_saveApplicationToString => "VKFFT_ERROR_ENABLED_saveApplicationToString",
        VkFFTResult::VKFFT_ERROR_EMPTY_FILE => "VKFFT_ERROR_EMPTY_FILE",
        VkFFTResult::VKFFT_ERROR_EMPTY_FFTdim => "VKFFT_ERROR_EMPTY_FFTdim",
        VkFFTResult::VKFFT_ERROR_EMPTY_size => "VKFFT_ERROR_EMPTY_size",
        VkFFTResult::VKFFT_ERROR_EMPTY_bufferSize => "VKFFT_ERROR_EMPTY_bufferSize",
        VkFFTResult::VKFFT_ERROR_EMPTY_buffer => "VKFFT_ERROR_EMPTY_buffer",
        VkFFTResult::VKFFT_ERROR_EMPTY_tempBufferSize => "VKFFT_ERROR_EMPTY_tempBufferSize",
        VkFFTResult::VKFFT_ERROR_EMPTY_tempBuffer => "VKFFT_ERROR_EMPTY_tempBuffer",
        VkFFTResult::VKFFT_ERROR_EMPTY_inputBufferSize => "VKFFT_ERROR_EMPTY_inputBufferSize",
        VkFFTResult::VKFFT_ERROR_EMPTY_inputBuffer => "VKFFT_ERROR_EMPTY_inputBuffer",
        VkFFTResult::VKFFT_ERROR_EMPTY_outputBufferSize => "VKFFT_ERROR_EMPTY_outputBufferSize",
        VkFFTResult::VKFFT_ERROR_EMPTY_outputBuffer => "VKFFT_ERROR_EMPTY_outputBuffer",
        VkFFTResult::VKFFT_ERROR_EMPTY_kernelSize => "VKFFT_ERROR_EMPTY_kernelSize",
        VkFFTResult::VKFFT_ERROR_EMPTY_kernel => "VKFFT_ERROR_EMPTY_kernel",
        VkFFTResult::VKFFT_ERROR_EMPTY_applicationString => "VKFFT_ERROR_EMPTY_applicationString",
        VkFFTResult::VKFFT_ERROR_EMPTY_useCustomBluesteinPaddingPattern_arrays => "VKFFT_ERROR_EMPTY_useCustomBluesteinPaddingPattern_arrays",
        VkFFTResult::VKFFT_ERROR_EMPTY_app => "VKFFT_ERROR_EMPTY_app",
        VkFFTResult::VKFFT_ERROR_INVALID_user_tempBuffer_too_small => "VKFFT_ERROR_INVALID_user_tempBuffer_too_small",
        VkFFTResult::VKFFT_ERROR_UNSUPPORTED_RADIX => "VKFFT_ERROR_UNSUPPORTED_RADIX",
        VkFFTResult::VKFFT_ERROR_UNSUPPORTED_FFT_LENGTH => "VKFFT_ERROR_UNSUPPORTED_FFT_LENGTH",
        VkFFTResult::VKFFT_ERROR_UNSUPPORTED_FFT_LENGTH_R2C => "VKFFT_ERROR_UNSUPPORTED_FFT_LENGTH_R2C",
        VkFFTResult::VKFFT_ERROR_UNSUPPORTED_FFT_LENGTH_R2R => "VKFFT_ERROR_UNSUPPORTED_FFT_LENGTH_R2R",
        VkFFTResult::VKFFT_ERROR_UNSUPPORTED_FFT_OMIT => "VKFFT_ERROR_UNSUPPORTED_FFT_OMIT",
        VkFFTResult::VKFFT_ERROR_FAILED_TO_ALLOCATE => "VKFFT_ERROR_FAILED_TO_ALLOCATE",
        VkFFTResult::VKFFT_ERROR_FAILED_TO_MAP_MEMORY => "VKFFT_ERROR_FAILED_TO_MAP_MEMORY",
        VkFFTResult::VKFFT_ERROR_FAILED_TO_ALLOCATE_COMMAND_BUFFERS => "VKFFT_ERROR_FAILED_TO_ALLOCATE_COMMAND_BUFFERS",
        VkFFTResult::VKFFT_ERROR_FAILED_TO_BEGIN_COMMAND_BUFFER => "VKFFT_ERROR_FAILED_TO_BEGIN_COMMAND_BUFFER",
        VkFFTResult::VKFFT_ERROR_FAILED_TO_END_COMMAND_BUFFER => "VKFFT_ERROR_FAILED_TO_END_COMMAND_BUFFER",
        VkFFTResult::VKFFT_ERROR_FAILED_TO_SUBMIT_QUEUE => "VKFFT_ERROR_FAILED_TO_SUBMIT_QUEUE",
        VkFFTResult::VKFFT_ERROR_FAILED_TO_WAIT_FOR_FENCES => "VKFFT_ERROR_FAILED_TO_WAIT_FOR_FENCES",
        VkFFTResult::VKFFT_ERROR_FAILED_TO_RESET_FENCES => "VKFFT_ERROR_FAILED_TO_RESET_FENCES",
        VkFFTResult::VKFFT_ERROR_FAILED_TO_CREATE_DESCRIPTOR_POOL => "VKFFT_ERROR_FAILED_TO_CREATE_DESCRIPTOR_POOL",
        VkFFTResult::VKFFT_ERROR_FAILED_TO_CREATE_DESCRIPTOR_SET_LAYOUT => "VKFFT_ERROR_FAILED_TO_CREATE_DESCRIPTOR_SET_LAYOUT",
        VkFFTResult::VKFFT_ERROR_FAILED_TO_ALLOCATE_DESCRIPTOR_SETS => "VKFFT_ERROR_FAILED_TO_ALLOCATE_DESCRIPTOR_SETS",
        VkFFTResult::VKFFT_ERROR_FAILED_TO_CREATE_PIPELINE_LAYOUT => "VKFFT_ERROR_FAILED_TO_CREATE_PIPELINE_LAYOUT",
        VkFFTResult::VKFFT_ERROR_FAILED_SHADER_PREPROCESS => "VKFFT_ERROR_FAILED_SHADER_PREPROCESS",
        VkFFTResult::VKFFT_ERROR_FAILED_SHADER_PARSE => "VKFFT_ERROR_FAILED_SHADER_PARSE",
        VkFFTResult::VKFFT_ERROR_FAILED_SHADER_LINK => "VKFFT_ERROR_FAILED_SHADER_LINK",
        VkFFTResult::VKFFT_ERROR_FAILED_SPIRV_GENERATE => "VKFFT_ERROR_FAILED_SPIRV_GENERATE",
        VkFFTResult::VKFFT_ERROR_FAILED_TO_CREATE_SHADER_MODULE => "VKFFT_ERROR_FAILED_TO_CREATE_SHADER_MODULE",
        VkFFTResult::VKFFT_ERROR_FAILED_TO_CREATE_INSTANCE => "VKFFT_ERROR_FAILED_TO_CREATE_INSTANCE",
        VkFFTResult::VKFFT_ERROR_FAILED_TO_SETUP_DEBUG_MESSENGER => "VKFFT_ERROR_FAILED_TO_SETUP_DEBUG_MESSENGER",
        VkFFTResult::VKFFT_ERROR_FAILED_TO_FIND_PHYSICAL_DEVICE => "VKFFT_ERROR_FAILED_TO_FIND_PHYSICAL_DEVICE",
        VkFFTResult::VKFFT_ERROR_FAILED_TO_CREATE_DEVICE => "VKFFT_ERROR_FAILED_TO_CREATE_DEVICE",
        VkFFTResult::VKFFT_ERROR_FAILED_TO_CREATE_FENCE => "VKFFT_ERROR_FAILED_TO_CREATE_FENCE",
        VkFFTResult::VKFFT_ERROR_FAILED_TO_CREATE_COMMAND_POOL => "VKFFT_ERROR_FAILED_TO_CREATE_COMMAND_POOL",
        VkFFTResult::VKFFT_ERROR_FAILED_TO_CREATE_BUFFER => "VKFFT_ERROR_FAILED_TO_CREATE_BUFFER",
        VkFFTResult::VKFFT_ERROR_FAILED_TO_ALLOCATE_MEMORY => "VKFFT_ERROR_FAILED_TO_ALLOCATE_MEMORY",
        VkFFTResult::VKFFT_ERROR_FAILED_TO_BIND_BUFFER_MEMORY => "VKFFT_ERROR_FAILED_TO_BIND_BUFFER_MEMORY",
        VkFFTResult::VKFFT_ERROR_FAILED_TO_FIND_MEMORY => "VKFFT_ERROR_FAILED_TO_FIND_MEMORY",
        VkFFTResult::VKFFT_ERROR_FAILED_TO_SYNCHRONIZE => "VKFFT_ERROR_FAILED_TO_SYNCHRONIZE",
        VkFFTResult::VKFFT_ERROR_FAILED_TO_COPY => "VKFFT_ERROR_FAILED_TO_COPY",
        VkFFTResult::VKFFT_ERROR_FAILED_TO_CREATE_PROGRAM => "VKFFT_ERROR_FAILED_TO_CREATE_PROGRAM",
        VkFFTResult::VKFFT_ERROR_FAILED_TO_COMPILE_PROGRAM => "VKFFT_ERROR_FAILED_TO_COMPILE_PROGRAM",
        VkFFTResult::VKFFT_ERROR_FAILED_TO_GET_CODE_SIZE => "VKFFT_ERROR_FAILED_TO_GET_CODE_SIZE",
        VkFFTResult::VKFFT_ERROR_FAILED_TO_GET_CODE => "VKFFT_ERROR_FAILED_TO_GET_CODE",
        VkFFTResult::VKFFT_ERROR_FAILED_TO_DESTROY_PROGRAM => "VKFFT_ERROR_FAILED_TO_DESTROY_PROGRAM",
        VkFFTResult::VKFFT_ERROR_FAILED_TO_LOAD_MODULE => "VKFFT_ERROR_FAILED_TO_LOAD_MODULE",
        VkFFTResult::VKFFT_ERROR_FAILED_TO_GET_FUNCTION => "VKFFT_ERROR_FAILED_TO_GET_FUNCTION",
        VkFFTResult::VKFFT_ERROR_FAILED_TO_SET_DYNAMIC_SHARED_MEMORY => "VKFFT_ERROR_FAILED_TO_SET_DYNAMIC_SHARED_MEMORY",
        VkFFTResult::VKFFT_ERROR_FAILED_TO_MODULE_GET_GLOBAL => "VKFFT_ERROR_FAILED_TO_MODULE_GET_GLOBAL",
        VkFFTResult::VKFFT_ERROR_FAILED_TO_LAUNCH_KERNEL => "VKFFT_ERROR_FAILED_TO_LAUNCH_KERNEL",
        VkFFTResult::VKFFT_ERROR_FAILED_TO_EVENT_RECORD => "VKFFT_ERROR_FAILED_TO_EVENT_RECORD",
        VkFFTResult::VKFFT_ERROR_FAILED_TO_ADD_NAME_EXPRESSION => "VKFFT_ERROR_FAILED_TO_ADD_NAME_EXPRESSION",
        VkFFTResult::VKFFT_ERROR_FAILED_TO_INITIALIZE => "VKFFT_ERROR_FAILED_TO_INITIALIZE",
        VkFFTResult::VKFFT_ERROR_FAILED_TO_SET_DEVICE_ID => "VKFFT_ERROR_FAILED_TO_SET_DEVICE_ID",
        VkFFTResult::VKFFT_ERROR_FAILED_TO_GET_DEVICE => "VKFFT_ERROR_FAILED_TO_GET_DEVICE",
        VkFFTResult::VKFFT_ERROR_FAILED_TO_CREATE_CONTEXT => "VKFFT_ERROR_FAILED_TO_CREATE_CONTEXT",
        VkFFTResult::VKFFT_ERROR_FAILED_TO_CREATE_PIPELINE => "VKFFT_ERROR_FAILED_TO_CREATE_PIPELINE",
        VkFFTResult::VKFFT_ERROR_FAILED_TO_SET_KERNEL_ARG => "VKFFT_ERROR_FAILED_TO_SET_KERNEL_ARG",
        VkFFTResult::VKFFT_ERROR_FAILED_TO_CREATE_COMMAND_QUEUE => "VKFFT_ERROR_FAILED_TO_CREATE_COMMAND_QUEUE",
        VkFFTResult::VKFFT_ERROR_FAILED_TO_RELEASE_COMMAND_QUEUE => "VKFFT_ERROR_FAILED_TO_RELEASE_COMMAND_QUEUE",
        VkFFTResult::VKFFT_ERROR_FAILED_TO_ENUMERATE_DEVICES => "VKFFT_ERROR_FAILED_TO_ENUMERATE_DEVICES",
        VkFFTResult::VKFFT_ERROR_FAILED_TO_GET_ATTRIBUTE => "VKFFT_ERROR_FAILED_TO_GET_ATTRIBUTE",
        VkFFTResult::VKFFT_ERROR_FAILED_TO_CREATE_EVENT => "VKFFT_ERROR_FAILED_TO_CREATE_EVENT",
        VkFFTResult::VKFFT_ERROR_FAILED_TO_CREATE_COMMAND_LIST => "VKFFT_ERROR_FAILED_TO_CREATE_COMMAND_LIST",
        VkFFTResult::VKFFT_ERROR_FAILED_TO_DESTROY_COMMAND_LIST => "VKFFT_ERROR_FAILED_TO_DESTROY_COMMAND_LIST",
        VkFFTResult::VKFFT_ERROR_FAILED_TO_SUBMIT_BARRIER => "VKFFT_ERROR_FAILED_TO_SUBMIT_BARRIER",
        VkFFTResult::Unrecognized(_) => UNKNOWN_RESULT_NAME,
    }
}

/// Whether a native result code reports success.
pub open spec fn is_success(result: VkFFTResult) -> bool {
    result is VKFFT_SUCCESS
}

/// Tests a native result code for success.
pub fn vkfft_ok(r: VkFFTResult) -> (ok: bool)
    ensures
        ok == is_success(r),
{
    r == VkFFTResult::VKFFT_SUCCESS
}

/// An error reported by the engine: the originating code and its symbolic name.
#[derive(Copy, Clone, Debug, PartialEq, Eq)]
pub struct VkFftError {
    pub code: VkFFTResult,
    pub message: &'static str,
}

/// The error value that stands for a native result code.
pub open spec fn error_of(code: VkFFTResult) -> VkFftError {
    VkFftError { code, message: result_name(code) }
}

impl VkFftError {
    /// Wraps a native result code together with its symbolic name.
    pub fn from_result(code: VkFFTResult) -> (r: Self)
        ensures
            r == error_of(code),
    {
        Self { code, message: vkfft_result_to_str(code) }
    }

    /// The symbolic name carried by this error.
    pub fn to_string(&self) -> (r: String)
        ensures
            r@ == self.message@,
    {
        String::from_str(self.message)
    }
}

/// Turns a native result code into `Ok` on success and the matching error otherwise.
pub fn vkfft_check(res: VkFFTResult) -> (r: Result<(), VkFftError>)
    ensures
        r == (if is_success(res) {
            Ok(())
        } else {
            Err(error_of(res))
        }),
{
    if vkfft_ok(res) {
        Ok(())
    } else {
        Err(VkFftError::from_result(res))
    }
}

/// An error of plan creation, carrying the native result code.
#[derive(Copy, Clone, Debug, PartialEq, Eq, Structural)]
pub enum VkfftError {
    Vkfft(VkFFTResult),
}

impl From<VkFFTResult> for VkfftError {
    fn from(value: VkFFTResult) -> (r: Self)
        ensures
            r == VkfftError::Vkfft(value),
    {
        Self::Vkfft(value)
    }
}

impl vstd::std_specs::convert::FromSpecImpl<VkFFTResult> for VkfftError {
    open spec fn obeys_from_spec() -> bool {
        true
    }

    open spec fn from_spec(v: VkFFTResult) -> VkfftError {
        VkfftError::Vkfft(v)
    }
}

/// The defined code whose symbolic name is `s`, if there is one.
pub open spec fn result_of_name(s: Seq<char>) -> Option<VkFFTResult> {
    if s == UNKNOWN_RESULT_NAME@ {
        None
    } else if s == "VKFFT_SUCCESS"@ {
        Some(VkFFTResult::VKFFT_SUCCESS)
    } else if s == "VKFFT_ERROR_MALLOC_FAILED"@ {
        Some(VkFFTResult::VKFFT_ERROR_MALLOC_FAILED)
    } else if s == "VKFFT_ERROR_INSUFFICIENT_CODE_BUFFER"@ {
        Some(VkFFTResult::VKFFT_ERROR_INSUFFICIENT_CODE_BUFFER)
    } else if s == "VKFFT_ERROR_INSUFFICIENT_TEMP_BUFFER"@ {
        Some(VkFFTResult::VKFFT_ERROR_INSUFFICIENT_TEMP_BUFFER)
    } else if s == "VKFFT_ERROR_PLAN_NOT_INITIALIZED"@ {
        Some(VkFFTResult::VKFFT_ERROR_PLAN_NOT_INITIALIZED)
    } else if s == "VKFFT_ERROR_NULL_TEMP_PASSED"@ {
        Some(VkFFTResult::VKFFT_ERROR_NULL_TEMP_PASSED)
    } else if s == "VKFFT_ERROR_MATH_FAILED"@ {
        Some(VkFFTResult::VKFFT_ERROR_MATH_FAILED)
    } else if s == "VKFFT_ERROR_FFTdim_GT_MAX_FFT_DIMENSIONS"@ {
        Some(VkFFTResult::VKFFT_ERROR_FFTdim_GT_MAX_FFT_DIMENSIONS)
    } else if s == "VKFFT_ERROR_NONZERO_APP_INITIALIZATION"@ {
        Some(VkFFTResult::VKFFT_ERROR_NONZERO_APP_INITIALIZATION)
    } else if s == "VKFFT_ERROR_INVALID_PHYSICAL_DEVICE"@ {
        Some(VkFFTResult::VKFFT_ERROR_INVALID_PHYSICAL_DEVICE)
    } else if s == "VKFFT_ERROR_INVALID_DEVICE"@ {
        Some(VkFFTResult::VKFFT_ERROR_INVALID_DEVICE)
    } else if s == "VKFFT_ERROR_INVALID_QUEUE"@ {
        Some(VkFFTResult::VKFFT_ERROR_INVALID_QUEUE)
    } else if s == "VKFFT_ERROR_INVALID_COMMAND_POOL"@ {
        Some(VkFFTResult::VKFFT_ERROR_INVALID_COMMAND_POOL)
    } else if s == "VKFFT_ERROR_INVALID_FENCE"@ {
        Some(VkFFTResult::VKFFT_ERROR_INVALID_FENCE)
    } else if s == "VKFFT_ERROR_ONLY_FORWARD_FFT_INITIALIZED"@ {
        Some(VkFFTResult::VKFFT_ERROR_ONLY_FORWARD_FFT_INITIALIZED)
    } else if s == "VKFFT_ERROR_ONLY_INVERSE_FFT_INITIALIZED"@ {
        Some(VkFFTResult::VKFFT_ERROR_ONLY_INVERSE_FFT_INITIALIZED)
    } else if s == "VKFFT_ERROR_INVALID_CONTEXT"@ {
        Some(VkFFTResult::VKFFT_ERROR_INVALID_CONTEXT)
    } else if s == "VKFFT_ERROR_INVALID_PLATFORM"@ {
        Some(VkFFTResult::VKFFT_ERROR_INVALID_PLATFORM)
    } else if s == "VKFFT_ERROR_ENABLED_saveApplicationToString"@ {
        Some(VkFFTResult::VKFFT_ERROR_ENABLED_saveApplicationToString)
    } else if s == "VKFFT_ERROR_EMPTY_FILE"@ {
        Some(VkFFTResult::VKFFT_ERROR_EMPTY_FILE)
    } else if s == "VKFFT_ERROR_EMPTY_FFTdim"@ {
        Some(VkFFTResult::VKFFT_ERROR_EMPTY_FFTdim)
    } else if s == "VKFFT_ERROR_EMPTY_size"@ {
        Some(VkFFTResult::VKFFT_ERROR_EMPTY_size)
    } else if s == "VKFFT_ERROR_EMPTY_bufferSize"@ {
        Some(VkFFTResult::VKFFT_ERROR_EMPTY_bufferSize)
    } else if s == "VKFFT_ERROR_EMPTY_buffer"@ {
        Some(VkFFTResult::VKFFT_ERROR_EMPTY_buffer)
    } else if s == "VKFFT_ERROR_EMPTY_tempBufferSize"@ {
        Some(VkFFTResult::VKFFT_ERROR_EMPTY_tempBufferSize)
    } else if s == "VKFFT_ERROR_EMPTY_tempBuffer"@ {
        Some(VkFFTResult::VKFFT_ERROR_EMPTY_tempBuffer)
    } else if s == "VKFFT_ERROR_EMPTY_inputBufferSize"@ {
        Some(VkFFTResult::VKFFT_ERROR_EMPTY_inputBufferSize)
    } else if s == "VKFFT_ERROR_EMPTY_inputBuffer"@ {
        Some(VkFFTResult::VKFFT_ERROR_EMPTY_inputBuffer)
    } else if s == "VKFFT_ERROR_EMPTY_outputBufferSize"@ {
        Some(VkFFTResult::VKFFT_ERROR_EMPTY_outputBufferSize)
    } else if s == "VKFFT_ERROR_EMPTY_outputBuffer"@ {
        Some(VkFFTResult::VKFFT_ERROR_EMPTY_outputBuffer)
    } else if s == "VKFFT_ERROR_EMPTY_kernelSize"@ {
        Some(VkFFTResult::VKFFT_ERROR_EMPTY_kernelSize)
    } else if s == "VKFFT_ERROR_EMPTY_kernel"@ {
        Some(VkFFTResult::VKFFT_ERROR_EMPTY_kernel)
    } else if s == "VKFFT_ERROR_EMPTY_applicationString"@ {
        Some(VkFFTResult::VKFFT_ERROR_EMPTY_applicationString)
    } else if s == "VKFFT_ERROR_EMPTY_useCustomBluesteinPaddingPattern_arrays"@ {
        Some(VkFFTResult::VKFFT_ERROR_EMPTY_useCustomBluesteinPaddingPattern_arrays)
    } else if s == "VKFFT_ERROR_EMPTY_app"@ {
        Some(VkFFTResult::VKFFT_ERROR_EMPTY_app)
    } else if s == "VKFFT_ERROR_INVALID_user_tempBuffer_too_small"@ {
        Some(VkFFTResult::VKFFT_ERROR_INVALID_user_tempBuffer_too_small)
    } else if s == "VKFFT_ERROR_UNSUPPORTED_RADIX"@ {
        Some(VkFFTResult::VKFFT_ERROR_UNSUPPORTED_RADIX)
    } else if s == "VKFFT_ERROR_UNSUPPORTED_FFT_LENGTH"@ {
        Some(VkFFTResult::VKFFT_ERROR_UNSUPPORTED_FFT_LENGTH)
    } else if s == "VKFFT_ERROR_UNSUPPORTED_FFT_LENGTH_R2C"@ {
        Some(VkFFTResult::VKFFT_ERROR_UNSUPPORTED_FFT_LENGTH_R2C)
    } else if s == "VKFFT_ERROR_UNSUPPORTED_FFT_LENGTH_R2R"@ {
        Some(VkFFTResult::VKFFT_ERROR_UNSUPPORTED_FFT_LENGTH_R2R)
    } else if s == "VKFFT_ERROR_UNSUPPORTED_FFT_OMIT"@ {
        Some(VkFFTResult::VKFFT_ERROR_UNSUPPORTED_FFT_OMIT)
    } else if s == "VKFFT_ERROR_FAILED_TO_ALLOCATE"@ {
        Some(VkFFTResult::VKFFT_ERROR_FAILED_TO_ALLOCATE)
    } else if s == "VKFFT_ERROR_FAILED_TO_MAP_MEMORY"@ {
        Some(VkFFTResult::VKFFT_ERROR_FAILED_TO_MAP_MEMORY)
    } else if s == "VKFFT_ERROR_FAILED_TO_ALLOCATE_COMMAND_BUFFERS"@ {
        Some(VkFFTResult::VKFFT_ERROR_FAILED_TO_ALLOCATE_COMMAND_BUFFERS)
    } else if s == "VKFFT_ERROR_FAILED_TO_BEGIN_COMMAND_BUFFER"@ {
        Some(VkFFTResult::VKFFT_ERROR_FAILED_TO_BEGIN_COMMAND_BUFFER)
    } else if s == "VKFFT_ERROR_FAILED_TO_END_COMMAND_BUFFER"@ {
        Some(VkFFTResult::VKFFT_ERROR_FAILED_TO_END_COMMAND_BUFFER)
    } else if s == "VKFFT_ERROR_FAILED_TO_SUBMIT_QUEUE"@ {
        Some(VkFFTResult::VKFFT_ERROR_FAILED_TO_SUBMIT_QUEUE)
    } else if s == "VKFFT_ERROR_FAILED_TO_WAIT_FOR_FENCES"@ {
        Some(VkFFTResult::VKFFT_ERROR_FAILED_TO_WAIT_FOR_FENCES)
    } else if s == "VKFFT_ERROR_FAILED_TO_RESET_FENCES"@ {
        Some(VkFFTResult::VKFFT_ERROR_FAILED_TO_RESET_FENCES)
    } else if s == "VKFFT_ERROR_FAILED_TO_CREATE_DESCRIPTOR_POOL"@ {
        Some(VkFFTResult::VKFFT_ERROR_FAILED_TO_CREATE_DESCRIPTOR_POOL)
    } else if s == "VKFFT_ERROR_FAILED_TO_CREATE_DESCRIPTOR_SET_LAYOUT"@ {
        Some(VkFFTResult::VKFFT_ERROR_FAILED_TO_CREATE_DESCRIPTOR_SET_LAYOUT)
    } else if s == "VKFFT_ERROR_FAILED_TO_ALLOCATE_DESCRIPTOR_SETS"@ {
        Some(VkFFTResult::VKFFT_ERROR_FAILED_TO_ALLOCATE_DESCRIPTOR_SETS)
    } else if s == "VKFFT_ERROR_FAILED_TO_CREATE_PIPELINE_LAYOUT"@ {
        Some(VkFFTResult::VKFFT_ERROR_FAILED_TO_CREATE_PIPELINE_LAYOUT)
    } else if s == "VKFFT_ERROR_FAILED_SHADER_PREPROCESS"@ {
        Some(VkFFTResult::VKFFT_ERROR_FAILED_SHADER_PREPROCESS)
    } else if s == "VKFFT_ERROR_FAILED_SHADER_PARSE"@ {
        Some(VkFFTResult::VKFFT_ERROR_FAILED_SHADER_PARSE)
    } else if s == "VKFFT_ERROR_FAILED_SHADER_LINK"@ {
        Some(VkFFTResult::VKFFT_ERROR_FAILED_SHADER_LINK)
    } else if s == "VKFFT_ERROR_FAILED_SPIRV_GENERATE"@ {
        Some(VkFFTResult::VKFFT_ERROR_FAILED_SPIRV_GENERATE)
    } else if s == "VKFFT_ERROR_FAILED_TO_CREATE_SHADER_MODULE"@ {
        Some(VkFFTResult::VKFFT_ERROR_FAILED_TO_CREATE_SHADER_MODULE)
    } else if s == "VKFFT_ERROR_FAILED_TO_CREATE_INSTANCE"@ {
        Some(VkFFTResult::VKFFT_ERROR_FAILED_TO_CREATE_INSTANCE)
    } else if s == "VKFFT_ERROR_FAILED_TO_SETUP_DEBUG_MESSENGER"@ {
        Some(VkFFTResult::VKFFT_ERROR_FAILED_TO_SETUP_DEBUG_MESSENGER)
    } else if s == "VKFFT_ERROR_FAILED_TO_FIND_PHYSICAL_DEVICE"@ {
        Some(VkFFTResult::VKFFT_ERROR_FAILED_TO_FIND_PHYSICAL_DEVICE)
    } else if s == "VKFFT_ERROR_FAILED_TO_CREATE_DEVICE"@ {
        Some(VkFFTResult::VKFFT_ERROR_FAILED_TO_CREATE_DEVICE)
    } else if s == "VKFFT_ERROR_FAILED_TO_CREATE_FENCE"@ {
        Some(VkFFTResult::VKFFT_ERROR_FAILED_TO_CREATE_FENCE)
    } else if s == "VKFFT_ERROR_FAILED_TO_CREATE_COMMAND_POOL"@ {
        Some(VkFFTResult::VKFFT_ERROR_FAILED_TO_CREATE_COMMAND_POOL)
    } else if s == "VKFFT_ERROR_FAILED_TO_CREATE_BUFFER"@ {
        Some(VkFFTResult::VKFFT_ERROR_FAILED_TO_CREATE_BUFFER)
    } else if s == "VKFFT_ERROR_FAILED_TO_ALLOCATE_MEMORY"@ {
        Some(VkFFTResult::VKFFT_ERROR_FAILED_TO_ALLOCATE_MEMORY)
    } else if s == "VKFFT_ERROR_FAILED_TO_BIND_BUFFER_MEMORY"@ {
        Some(VkFFTResult::VKFFT_ERROR_FAILED_TO_BIND_BUFFER_MEMORY)
    } else if s == "VKFFT_ERROR_FAILED_TO_FIND_MEMORY"@ {
        Some(VkFFTResult::VKFFT_ERROR_FAILED_TO_FIND_MEMORY)
    } else if s == "VKFFT_ERROR_FAILED_TO_SYNCHRONIZE"@ {
        Some(VkFFTResult::VKFFT_ERROR_FAILED_TO_SYNCHRONIZE)
    } else if s == "VKFFT_ERROR_FAILED_TO_COPY"@ {
        Some(VkFFTResult::VKFFT_ERROR_FAILED_TO_COPY)
    } else if s == "VKFFT_ERROR_FAILED_TO_CREATE_PROGRAM"@ {
        Some(VkFFTResult::VKFFT_ERROR_FAILED_TO_CREATE_PROGRAM)
    } else if s == "VKFFT_ERROR_FAILED_TO_COMPILE_PROGRAM"@ {
        Some(VkFFTResult::VKFFT_ERROR_FAILED_TO_COMPILE_PROGRAM)
    } else if s == "VKFFT_ERROR_FAILED_TO_GET_CODE_SIZE"@ {
        Some(VkFFTResult::VKFFT_ERROR_FAILED_TO_GET_CODE_SIZE)
    } else if s == "VKFFT_ERROR_FAILED_TO_GET_CODE"@ {
        Some(VkFFTResult::VKFFT_ERROR_FAILED_TO_GET_CODE)
    } else if s == "VKFFT_ERROR_FAILED_TO_DESTROY_PROGRAM"@ {
        Some(VkFFTResult::VKFFT_ERROR_FAILED_TO_DESTROY_PROGRAM)
    } else if s == "VKFFT_ERROR_FAILED_TO_LOAD_MODULE"@ {
        Some(VkFFTResult::VKFFT_ERROR_FAILED_TO_LOAD_MODULE)
    } else if s == "VKFFT_ERROR_FAILED_TO_GET_FUNCTION"@ {
        Some(VkFFTResult::VKFFT_ERROR_FAILED_TO_GET_FUNCTION)
    } else if s == "VKFFT_ERROR_FAILED_TO_SET_DYNAMIC_SHARED_MEMORY"@ {
        Some(VkFFTResult::VKFFT_ERROR_FAILED_TO_SET_DYNAMIC_SHARED_MEMORY)
    } else if s == "VKFFT_ERROR_FAILED_TO_MODULE_GET_GLOBAL"@ {
        Some(VkFFTResult::VKFFT_ERROR_FAILED_TO_MODULE_GET_GLOBAL)
    } else if s == "VKFFT_ERROR_FAILED_TO_LAUNCH_KERNEL"@ {
        Some(VkFFTResult::VKFFT_ERROR_FAILED_TO_LAUNCH_KERNEL)
    } else if s == "VKFFT_ERROR_FAILED_TO_EVENT_RECORD"@ {
        Some(VkFFTResult::VKFFT_ERROR_FAILED_TO_EVENT_RECORD)
    } else if s == "VKFFT_ERROR_FAILED_TO_ADD_NAME_EXPRESSION"@ {
        Some(VkFFTResult::VKFFT_ERROR_FAILED_TO_ADD_NAME_EXPRESSION)
    } else if s == "VKFFT_ERROR_FAILED_TO_INITIALIZE"@ {
        Some(VkFFTResult::VKFFT_ERROR_FAILED_TO_INITIALIZE)
    } else if s == "VKFFT_ERROR_FAILED_TO_SET_DEVICE_ID"@ {
        Some(VkFFTResult::VKFFT_ERROR_FAILED_TO_SET_DEVICE_ID)
    } else if s == "VKFFT_ERROR_FAILED_TO_GET_DEVICE"@ {
        Some(VkFFTResult::VKFFT_ERROR_FAILED_TO_GET_DEVICE)
    } else if s == "VKFFT_ERROR_FAILED_TO_CREATE_CONTEXT"@ {
        Some(VkFFTResult::VKFFT_ERROR_FAILED_TO_CREATE_CONTEXT)
    } else if s == "VKFFT_ERROR_FAILED_TO_CREATE_PIPELINE"@ {
        Some(VkFFTResult::VKFFT_ERROR_FAILED_TO_CREATE_PIPELINE)
    } else if s == "VKFFT_ERROR_FAILED_TO_SET_KERNEL_ARG"@ {
        Some(VkFFTResult::VKFFT_ERROR_FAILED_TO_SET_KERNEL_ARG)
    } else if s == "VKFFT_ERROR_FAILED_TO_CREATE_COMMAND_QUEUE"@ {
        Some(VkFFTResult::VKFFT_ERROR_FAILED_TO_CREATE_COMMAND_QUEUE)
    } else if s == "VKFFT_ERROR_FAILED_TO_RELEASE_COMMAND_QUEUE"@ {
        Some(VkFFTResult::VKFFT_ERROR_FAILED_TO_RELEASE_COMMAND_QUEUE)
    } else if s == "VKFFT_ERROR_FAILED_TO_ENUMERATE_DEVICES"@ {
        Some(VkFFTResult::VKFFT_ERROR_FAILED_TO_ENUMERATE_DEVICES)
    } else if s == "VKFFT_ERROR_FAILED_TO_GET_ATTRIBUTE"@ {
        Some(VkFFTResult::VKFFT_ERROR_FAILED_TO_GET_ATTRIBUTE)
    } else if s == "VKFFT_ERROR_FAILED_TO_CREATE_EVENT"@ {
        Some(VkFFTResult::VKFFT_ERROR_FAILED_TO_CREATE_EVENT)
    } else if s == "VKFFT_ERROR_FAILED_TO_CREATE_COMMAND_LIST"@ {
        Some(VkFFTResult::VKFFT_ERROR_FAILED_TO_CREATE_COMMAND_LIST)
    } else if s == "VKFFT_ERROR_FAILED_TO_DESTROY_COMMAND_LIST"@ {
        Some(VkFFTResult::VKFFT_ERROR_FAILED_TO_DESTROY_COMMAND_LIST)
    } else if s == "VKFFT_ERROR_FAILED_TO_SUBMIT_BARRIER"@ {
        Some(VkFFTResult::VKFFT_ERROR_FAILED_TO_SUBMIT_BARRIER)
    } else {
        None
    }
}

/// Each defined code is recovered from its symbolic name.
proof fn lemma_result_name_decodes(r: VkFFTResult)
    requires
        is_defined_result(r),
    ensures
        result_of_name(result_name(r)@) == Some(r),
{
    reveal_strlit("Unknown VkFFT error");
    reveal_strlit("VKFFT_SUCCESS");
    reveal_strlit("VKFFT_ERROR_MALLOC_FAILED");
    reveal_strlit("VKFFT_ERROR_INSUFFICIENT_CODE_BUFFER");
    reveal_strlit("VKFFT_ERROR_INSUFFICIENT_TEMP_BUFFER");
    reveal_strlit("VKFFT_ERROR_PLAN_NOT_INITIALIZED");
    reveal_strlit("VKFFT_ERROR_NULL_TEMP_PASSED");
    reveal_strlit("VKFFT_ERROR_MATH_FAILED");
    reveal_strlit("VKFFT_ERROR_FFTdim_GT_MAX_FFT_DIMENSIONS");
    reveal_strlit("VKFFT_ERROR_NONZERO_APP_INITIALIZATION");
    reveal_strlit("VKFFT_ERROR_INVALID_PHYSICAL_DEVICE");
    reveal_strlit("VKFFT_ERROR_INVALID_DEVICE");
    reveal_strlit("VKFFT_ERROR_INVALID_QUEUE");
    reveal_strlit("VKFFT_ERROR_INVALID_COMMAND_POOL");
    reveal_strlit("VKFFT_ERROR_INVALID_FENCE");
    reveal_strlit("VKFFT_ERROR_ONLY_FORWARD_FFT_INITIALIZED");
    reveal_strlit("VKFFT_ERROR_ONLY_INVERSE_FFT_INITIALIZED");
    reveal_strlit("VKFFT_ERROR_INVALID_CONTEXT");
    reveal_strlit("VKFFT_ERROR_INVALID_PLATFORM");
    reveal_strlit("VKFFT_ERROR_ENABLED_saveApplicationToString");
    reveal_strlit("VKFFT_ERROR_EMPTY_FILE");
    reveal_strlit("VKFFT_ERROR_EMPTY_FFTdim");
    reveal_strlit("VKFFT_ERROR_EMPTY_size");
    reveal_strlit("VKFFT_ERROR_EMPTY_bufferSize");
    reveal_strlit("VKFFT_ERROR_EMPTY_buffer");
    reveal_strlit("VKFFT_ERROR_EMPTY_tempBufferSize");
    reveal_strlit("VKFFT_ERROR_EMPTY_tempBuffer");
    reveal_strlit("VKFFT_ERROR_EMPTY_inputBufferSize");
    reveal_strlit("VKFFT_ERROR_EMPTY_inputBuffer");
    reveal_strlit("VKFFT_ERROR_EMPTY_outputBufferSize");
    reveal_strlit("VKFFT_ERROR_EMPTY_outputBuffer");
    reveal_strlit("VKFFT_ERROR_EMPTY_kernelSize");
    reveal_strlit("VKFFT_ERROR_EMPTY_kernel");
    reveal_strlit("VKFFT_ERROR_EMPTY_applicationString");
    reveal_strlit("VKFFT_ERROR_EMPTY_useCustomBluesteinPaddingPattern_arrays");
    reveal_strlit("VKFFT_ERROR_EMPTY_app");
    reveal_strlit("VKFFT_ERROR_INVALID_user_tempBuffer_too_small");
    reveal_strlit("VKFFT_ERROR_UNSUPPORTED_RADIX");
    reveal_strlit("VKFFT_ERROR_UNSUPPORTED_FFT_LENGTH");
    reveal_strlit("VKFFT_ERROR_UNSUPPORTED_FFT_LENGTH_R2C");
    reveal_strlit("VKFFT_ERROR_UNSUPPORTED_FFT_LENGTH_R2R");
    reveal_strlit("VKFFT_ERROR_UNSUPPORTED_FFT_OMIT");
    reveal_strlit("VKFFT_ERROR_FAILED_TO_ALLOCATE");
    reveal_strlit("VKFFT_ERROR_FAILED_TO_MAP_MEMORY");
    reveal_strlit("VKFFT_ERROR_FAILED_TO_ALLOCATE_COMMAND_BUFFERS");
    reveal_strlit("VKFFT_ERROR_FAILED_TO_BEGIN_COMMAND_BUFFER");
    reveal_strlit("VKFFT_ERROR_FAILED_TO_END_COMMAND_BUFFER");
    reveal_strlit("VKFFT_ERROR_FAILED_TO_SUBMIT_QUEUE");
    reveal_strlit("VKFFT_ERROR_FAILED_TO_WAIT_FOR_FENCES");
    reveal_strlit("VKFFT_ERROR_FAILED_TO_RESET_FENCES");
    reveal_strlit("VKFFT_ERROR_FAILED_TO_CREATE_DESCRIPTOR_POOL");
    reveal_strlit("VKFFT_ERROR_FAILED_TO_CREATE_DESCRIPTOR_SET_LAYOUT");
    reveal_strlit("VKFFT_ERROR_FAILED_TO_ALLOCATE_DESCRIPTOR_SETS");
    reveal_strlit("VKFFT_ERROR_FAILED_TO_CREATE_PIPELINE_LAYOUT");
    reveal_strlit("VKFFT_ERROR_FAILED_SHADER_PREPROCESS");
    reveal_strlit("VKFFT_ERROR_FAILED_SHADER_PARSE");
    reveal_strlit("VKFFT_ERROR_FAILED_SHADER_LINK");
    reveal_strlit("VKFFT_ERROR_FAILED_SPIRV_GENERATE");
    reveal_strlit("VKFFT_ERROR_FAILED_TO_CREATE_SHADER_MODULE");
    reveal_strlit("VKFFT_ERROR_FAILED_TO_CREATE_INSTANCE");
    reveal_strlit("VKFFT_ERROR_FAILED_TO_SETUP_DEBUG_MESSENGER");
    reveal_strlit("VKFFT_ERROR_FAILED_TO_FIND_PHYSICAL_DEVICE");
    reveal_strlit("VKFFT_ERROR_FAILED_TO_CREATE_DEVICE");
    reveal_strlit("VKFFT_ERROR_FAILED_TO_CREATE_FENCE");
    reveal_strlit("VKFFT_ERROR_FAILED_TO_CREATE_COMMAND_POOL");
    reveal_strlit("VKFFT_ERROR_FAILED_TO_CREATE_BUFFER");
    reveal_strlit("VKFFT_ERROR_FAILED_TO_ALLOCATE_MEMORY");
    reveal_strlit("VKFFT_ERROR_FAILED_TO_BIND_BUFFER_MEMORY");
    reveal_strlit("VKFFT_ERROR_FAILED_TO_FIND_MEMORY");
    reveal_strlit("VKFFT_ERROR_FAILED_TO_SYNCHRONIZE");
    reveal_strlit("VKFFT_ERROR_FAILED_TO_COPY");
    reveal_strlit("VKFFT_ERROR_FAILED_TO_CREATE_PROGRAM");
    reveal_strlit("VKFFT_ERROR_FAILED_TO_COMPILE_PROGRAM");
    reveal_strlit("VKFFT_ERROR_FAILED_TO_GET_CODE_SIZE");
    reveal_strlit("VKFFT_ERROR_FAILED_TO_GET_CODE");
    reveal_strlit("VKFFT_ERROR_FAILED_TO_DESTROY_PROGRAM");
    reveal_strlit("VKFFT_ERROR_FAILED_TO_LOAD_MODULE");
    reveal_strlit("VKFFT_ERROR_FAILED_TO_GET_FUNCTION");
    reveal_strlit("VKFFT_ERROR_FAILED_TO_SET_DYNAMIC_SHARED_MEMORY");
    reveal_strlit("VKFFT_ERROR_FAILED_TO_MODULE_GET_GLOBAL");
    reveal_strlit("VKFFT_ERROR_FAILED_TO_LAUNCH_KERNEL");
    reveal_strlit("VKFFT_ERROR_FAILED_TO_EVENT_RECORD");
    reveal_strlit("VKFFT_ERROR_FAILED_TO_ADD_NAME_EXPRESSION");
    reveal_strlit("VKFFT_ERROR_FAILED_TO_INITIALIZE");
    reveal_strlit("VKFFT_ERROR_FAILED_TO_SET_DEVICE_ID");
    reveal_strlit("VKFFT_ERROR_FAILED_TO_GET_DEVICE");
    reveal_strlit("VKFFT_ERROR_FAILED_TO_CREATE_CONTEXT");
    reveal_strlit("VKFFT_ERROR_FAILED_TO_CREATE_PIPELINE");
    reveal_strlit("VKFFT_ERROR_FAILED_TO_SET_KERNEL_ARG");
    reveal_strlit("VKFFT_ERROR_FAILED_TO_CREATE_COMMAND_QUEUE");
    reveal_strlit("VKFFT_ERROR_FAILED_TO_RELEASE_COMMAND_QUEUE");
    reveal_strlit("VKFFT_ERROR_FAILED_TO_ENUMERATE_DEVICES");
    reveal_strlit("VKFFT_ERROR_FAILED_TO_GET_ATTRIBUTE");
    reveal_strlit("VKFFT_ERROR_FAILED_TO_CREATE_EVENT");
    reveal_strlit("VKFFT_ERROR_FAILED_TO_CREATE_COMMAND_LIST");
    reveal_strlit("VKFFT_ERROR_FAILED_TO_DESTROY_COMMAND_LIST");
    reveal_strlit("VKFFT_ERROR_FAILED_TO_SUBMIT_BARRIER");
    match r {
        VkFFTResult::VKFFT_SUCCESS => {
            assert("VKFFT_SUCCESS"@.len() == 13);
        },
        VkFFTResult::VKFFT_ERROR_MALLOC_FAILED => {
            assert("VKFFT_ERROR_MALLOC_FAILED"@.len() == 25);
            assert("VKFFT_ERROR_MALLOC_FAILED"@[12] == 'M');
        },
        VkFFTResult::VKFFT_ERROR_INSUFFICIENT_CODE_BUFFER => {
            assert("VKFFT_ERROR_INSUFFICIENT_CODE_BUFFER"@.len() == 36);
            assert("VKFFT_ERROR_INSUFFICIENT_CODE_BUFFER"@[12] == 'I');
            assert("VKFFT_ERROR_INSUFFICIENT_CODE_BUFFER"@[25] == 'C');
        },
        VkFFTResult::VKFFT_ERROR_INSUFFICIENT_TEMP_BUFFER => {
            assert("VKFFT_ERROR_INSUFFICIENT_TEMP_BUFFER"@.len() == 36);
            assert("VKFFT_ERROR_INSUFFICIENT_TEMP_BUFFER"@[12] == 'I');
            assert("VKFFT_ERROR_INSUFFICIENT_TEMP_BUFFER"@[25] == 'T');
        },
        VkFFTResult::VKFFT_ERROR_PLAN_NOT_INITIALIZED => {
            assert("VKFFT_ERROR_PLAN_NOT_INITIALIZED"@.len() == 32);
            assert("VKFFT_ERROR_PLAN_NOT_INITIALIZED"@[12] == 'P');
        },
        VkFFTResult::VKFFT_ERROR_NULL_TEMP_PASSED => {
            assert("VKFFT_ERROR_NULL_TEMP_PASSED"@.len() == 28);
            assert("VKFFT_ERROR_NULL_TEMP_PASSED"@[12] == 'N');
        },
        VkFFTResult::VKFFT_ERROR_MATH_FAILED => {
            assert("VKFFT_ERROR_MATH_FAILED"@.len() == 23);
        },
        VkFFTResult::VKFFT_ERROR_FFTdim_GT_MAX_FFT_DIMENSIONS => {
            assert("VKFFT_ERROR_FFTdim_GT_MAX_FFT_DIMENSIONS"@.len() == 40);
            assert("VKFFT_ERROR_FFTdim_GT_MAX_FFT_DIMENSIONS"@[12] == 'F');
            assert("VKFFT_ERROR_FFTdim_GT_MAX_FFT_DIMENSIONS"@[13] == 'F');
        },
        VkFFTResult::VKFFT_ERROR_NONZERO_APP_INITIALIZATION => {
            assert("VKFFT_ERROR_NONZERO_APP_INITIALIZATION"@.len() == 38);
            assert("VKFFT_ERROR_NONZERO_APP_INITIALIZATION"@[12] == 'N');
        },
        VkFFTResult::VKFFT_ERROR_INVALID_PHYSICAL_DEVICE => {
            assert("VKFFT_ERROR_INVALID_PHYSICAL_DEVICE"@.len() == 35);
            assert("VKFFT_ERROR_INVALID_PHYSICAL_DEVICE"@[12] == 'I');
        },
        VkFFTResult::VKFFT_ERROR_INVALID_DEVICE => {
            assert("VKFFT_ERROR_INVALID_DEVICE"@.len() == 26);
            assert("VKFFT_ERROR_INVALID_DEVICE"@[12] == 'I');
        },
        VkFFTResult::VKFFT_ERROR_INVALID_QUEUE => {
            assert("VKFFT_ERROR_INVALID_QUEUE"@.len() == 25);
            assert("VKFFT_ERROR_INVALID_QUEUE"@[12] == 'I');
            assert("VKFFT_ERROR_INVALID_QUEUE"@[20] == 'Q');
        },
        VkFFTResult::VKFFT_ERROR_INVALID_COMMAND_POOL => {
            assert("VKFFT_ERROR_INVALID_COMMAND_POOL"@.len() == 32);
            assert("VKFFT_ERROR_INVALID_COMMAND_POOL"@[12] == 'I');
        },
        VkFFTResult::VKFFT_ERROR_INVALID_FENCE => {
            assert("VKFFT_ERROR_INVALID_FENCE"@.len() == 25);
            assert("VKFFT_ERROR_INVALID_FENCE"@[12] == 'I');
            assert("VKFFT_ERROR_INVALID_FENCE"@[20] == 'F');
        },
        VkFFTResult::VKFFT_ERROR_ONLY_FORWARD_FFT_INITIALIZED => {
            assert("VKFFT_ERROR_ONLY_FORWARD_FFT_INITIALIZED"@.len() == 40);
            assert("VKFFT_ERROR_ONLY_FORWARD_FFT_INITIALIZED"@[12] == 'O');
            assert("VKFFT_ERROR_ONLY_FORWARD_FFT_INITIALIZED"@[17] == 'F');
        },
        VkFFTResult::VKFFT_ERROR_ONLY_INVERSE_FFT_INITIALIZED => {
            assert("VKFFT_ERROR_ONLY_INVERSE_FFT_INITIALIZED"@.len() == 40);
            assert("VKFFT_ERROR_ONLY_INVERSE_FFT_INITIALIZED"@[12] == 'O');
            assert("VKFFT_ERROR_ONLY_INVERSE_FFT_INITIALIZED"@[17] == 'I');
        },
        VkFFTResult::VKFFT_ERROR_INVALID_CONTEXT => {
            assert("VKFFT_ERROR_INVALID_CONTEXT"@.len() == 27);
        },
        VkFFTResult::VKFFT_ERROR_INVALID_PLATFORM => {
            assert("VKFFT_ERROR_INVALID_PLATFORM"@.len() == 28);
            assert("VKFFT_ERROR_INVALID_PLATFORM"@[12] == 'I');
        },
        VkFFTResult::VKFFT_ERROR_ENABLED_saveApplicationToString => {
            assert("VKFFT_ERROR_ENABLED_saveApplicationToString"@.len() == 43);
            assert("VKFFT_ERROR_ENABLED_saveApplicationToString"@[12] == 'E');
        },
        VkFFTResult::VKFFT_ERROR_EMPTY_FILE => {
            assert("VKFFT_ERROR_EMPTY_FILE"@.len() == 22);
            assert("VKFFT_ERROR_EMPTY_FILE"@[18] == 'F');
        },
        VkFFTResult::VKFFT_ERROR_EMPTY_FFTdim => {
            assert("VKFFT_ERROR_EMPTY_FFTdim"@.len() == 24);
            assert("VKFFT_ERROR_EMPTY_FFTdim"@[18] == 'F');
        },
        VkFFTResult::VKFFT_ERROR_EMPTY_size => {
            assert("VKFFT_ERROR_EMPTY_size"@.len() == 22);
            assert("VKFFT_ERROR_EMPTY_size"@[18] == 's');
        },
        VkFFTResult::VKFFT_ERROR_EMPTY_bufferSize => {
            assert("VKFFT_ERROR_EMPTY_bufferSize"@.len() == 28);
            assert("VKFFT_ERROR_EMPTY_bufferSize"@[12] == 'E');
            assert("VKFFT_ERROR_EMPTY_bufferSize"@[18] == 'b');
        },
        VkFFTResult::VKFFT_ERROR_EMPTY_buffer => {
            assert("VKFFT_ERROR_EMPTY_buffer"@.len() == 24);
            assert("VKFFT_ERROR_EMPTY_buffer"@[18] == 'b');
        },
        VkFFTResult::VKFFT_ERROR_EMPTY_tempBufferSize => {
            assert("VKFFT_ERROR_EMPTY_tempBufferSize"@.len() == 32);
            assert("VKFFT_ERROR_EMPTY_tempBufferSize"@[12] == 'E');
        },
        VkFFTResult::VKFFT_ERROR_EMPTY_tempBuffer => {
            assert("VKFFT_ERROR_EMPTY_tempBuffer"@.len() == 28);
            assert("VKFFT_ERROR_EMPTY_tempBuffer"@[12] == 'E');
            assert("VKFFT_ERROR_EMPTY_tempBuffer"@[18] == 't');
        },
        VkFFTResult::VKFFT_ERROR_EMPTY_inputBufferSize => {
            assert("VKFFT_ERROR_EMPTY_inputBufferSize"@.len() == 33);
            assert("VKFFT_ERROR_EMPTY_inputBufferSize"@[12] == 'E');
        },
        VkFFTResult::VKFFT_ERROR_EMPTY_inputBuffer => {
            assert("VKFFT_ERROR_EMPTY_inputBuffer"@.len() == 29);
            assert("VKFFT_ERROR_EMPTY_inputBuffer"@[12] == 'E');
        },
        VkFFTResult::VKFFT_ERROR_EMPTY_outputBufferSize => {
            assert("VKFFT_ERROR_EMPTY_outputBufferSize"@.len() == 34);
            assert("VKFFT_ERROR_EMPTY_outputBufferSize"@[12] == 'E');
        },
        VkFFTResult::VKFFT_ERROR_EMPTY_outputBuffer => {
            assert("VKFFT_ERROR_EMPTY_outputBuffer"@.len() == 30);
            assert("VKFFT_ERROR_EMPTY_outputBuffer"@[12] == 'E');
        },
        VkFFTResult::VKFFT_ERROR_EMPTY_kernelSize => {
            assert("VKFFT_ERROR_EMPTY_kernelSize"@.len() == 28);
            assert("VKFFT_ERROR_EMPTY_kernelSize"@[12] == 'E');
            assert("VKFFT_ERROR_EMPTY_kernelSize"@[18] == 'k');
        },
        VkFFTResult::VKFFT_ERROR_EMPTY_kernel => {
            assert("VKFFT_ERROR_EMPTY_kernel"@.len() == 24);
            assert("VKFFT_ERROR_EMPTY_kernel"@[18] == 'k');
        },
        VkFFTResult::VKFFT_ERROR_EMPTY_applicationString => {
            assert("VKFFT_ERROR_EMPTY_applicationString"@.len() == 35);
            assert("VKFFT_ERROR_EMPTY_applicationString"@[12] == 'E');
        },
        VkFFTResult::VKFFT_ERROR_EMPTY_useCustomBluesteinPaddingPattern_arrays => {
            assert("VKFFT_ERROR_EMPTY_useCustomBluesteinPaddingPattern_arrays"@.len() == 57);
        },
        VkFFTResult::VKFFT_ERROR_EMPTY_app => {
            assert("VKFFT_ERROR_EMPTY_app"@.len() == 21);
        },
        VkFFTResult::VKFFT_ERROR_INVALID_user_tempBuffer_too_small => {
            assert("VKFFT_ERROR_INVALID_user_tempBuffer_too_small"@.len() == 45);
        },
        VkFFTResult::VKFFT_ERROR_UNSUPPORTED_RADIX => {
            assert("VKFFT_ERROR_UNSUPPORTED_RADIX"@.len() == 29);
            assert("VKFFT_ERROR_UNSUPPORTED_RADIX"@[12] == 'U');
        },
        VkFFTResult::VKFFT_ERROR_UNSUPPORTED_FFT_LENGTH => {
            assert("VKFFT_ERROR_UNSUPPORTED_FFT_LENGTH"@.len() == 34);
            assert("VKFFT_ERROR_UNSUPPORTED_FFT_LENGTH"@[12] == 'U');
        },
        VkFFTResult::VKFFT_ERROR_UNSUPPORTED_FFT_LENGTH_R2C => {
            assert("VKFFT_ERROR_UNSUPPORTED_FFT_LENGTH_R2C"@.len() == 38);
            assert("VKFFT_ERROR_UNSUPPORTED_FFT_LENGTH_R2C"@[12] == 'U');
            assert("VKFFT_ERROR_UNSUPPORTED_FFT_LENGTH_R2C"@[37] == 'C');
        },
        VkFFTResult::VKFFT_ERROR_UNSUPPORTED_FFT_LENGTH_R2R => {
            assert("VKFFT_ERROR_UNSUPPORTED_FFT_LENGTH_R2R"@.len() == 38);
            assert("VKFFT_ERROR_UNSUPPORTED_FFT_LENGTH_R2R"@[12] == 'U');
            assert("VKFFT_ERROR_UNSUPPORTED_FFT_LENGTH_R2R"@[37] == 'R');
        },
        VkFFTResult::VKFFT_ERROR_UNSUPPORTED_FFT_OMIT => {
            assert("VKFFT_ERROR_UNSUPPORTED_FFT_OMIT"@.len() == 32);
            assert("VKFFT_ERROR_UNSUPPORTED_FFT_OMIT"@[12] == 'U');
        },
        VkFFTResult::VKFFT_ERROR_FAILED_TO_ALLOCATE => {
            assert("VKFFT_ERROR_FAILED_TO_ALLOCATE"@.len() == 30);
            assert("VKFFT_ERROR_FAILED_TO_ALLOCATE"@[12] == 'F');
            assert("VKFFT_ERROR_FAILED_TO_ALLOCATE"@[19] == 'T');
            assert("VKFFT_ERROR_FAILED_TO_ALLOCATE"@[22] == 'A');
        },
        VkFFTResult::VKFFT_ERROR_FAILED_TO_MAP_MEMORY => {
            assert("VKFFT_ERROR_FAILED_TO_MAP_MEMORY"@.len() == 32);
            assert("VKFFT_ERROR_FAILED_TO_MAP_MEMORY"@[12] == 'F');
            assert("VKFFT_ERROR_FAILED_TO_MAP_MEMORY"@[22] == 'M');
        },
        VkFFTResult::VKFFT_ERROR_FAILED_TO_ALLOCATE_COMMAND_BUFFERS => {
            assert("VKFFT_ERROR_FAILED_TO_ALLOCATE_COMMAND_BUFFERS"@.len() == 46);
            assert("VKFFT_ERROR_FAILED_TO_ALLOCATE_COMMAND_BUFFERS"@[31] == 'C');
        },
        VkFFTResult::VKFFT_ERROR_FAILED_TO_BEGIN_COMMAND_BUFFER => {
            assert("VKFFT_ERROR_FAILED_TO_BEGIN_COMMAND_BUFFER"@.len() == 42);
            assert("VKFFT_ERROR_FAILED_TO_BEGIN_COMMAND_BUFFER"@[22] == 'B');
        },
        VkFFTResult::VKFFT_ERROR_FAILED_TO_END_COMMAND_BUFFER => {
            assert("VKFFT_ERROR_FAILED_TO_END_COMMAND_BUFFER"@.len() == 40);
            assert("VKFFT_ERROR_FAILED_TO_END_COMMAND_BUFFER"@[12] == 'F');
            assert("VKFFT_ERROR_FAILED_TO_END_COMMAND_BUFFER"@[13] == 'A');
            assert("VKFFT_ERROR_FAILED_TO_END_COMMAND_BUFFER"@[22] == 'E');
        },
        VkFFTResult::VKFFT_ERROR_FAILED_TO_SUBMIT_QUEUE => {
            assert("VKFFT_ERROR_FAILED_TO_SUBMIT_QUEUE"@.len() == 34);
            assert("VKFFT_ERROR_FAILED_TO_SUBMIT_QUEUE"@[12] == 'F');
            assert("VKFFT_ERROR_FAILED_TO_SUBMIT_QUEUE"@[22] == 'S');
        },
        VkFFTResult::VKFFT_ERROR_FAILED_TO_WAIT_FOR_FENCES => {
            assert("VKFFT_ERROR_FAILED_TO_WAIT_FOR_FENCES"@.len() == 37);
            assert("VKFFT_ERROR_FAILED_TO_WAIT_FOR_FENCES"@[22] == 'W');
        },
        VkFFTResult::VKFFT_ERROR_FAILED_TO_RESET_FENCES => {
            assert("VKFFT_ERROR_FAILED_TO_RESET_FENCES"@.len() == 34);
            assert("VKFFT_ERROR_FAILED_TO_RESET_FENCES"@[12] == 'F');
            assert("VKFFT_ERROR_FAILED_TO_RESET_FENCES"@[22] == 'R');
        },
        VkFFTResult::VKFFT_ERROR_FAILED_TO_CREATE_DESCRIPTOR_POOL => {
            assert("VKFFT_ERROR_FAILED_TO_CREATE_DESCRIPTOR_POOL"@.len() == 44);
            assert("VKFFT_ERROR_FAILED_TO_CREATE_DESCRIPTOR_POOL"@[29] == 'D');
        },
        VkFFTResult::VKFFT_ERROR_FAILED_TO_CREATE_DESCRIPTOR_SET_LAYOUT => {
            assert("VKFFT_ERROR_FAILED_TO_CREATE_DESCRIPTOR_SET_LAYOUT"@.len() == 50);
        },
        VkFFTResult::VKFFT_ERROR_FAILED_TO_ALLOCATE_DESCRIPTOR_SETS => {
            assert("VKFFT_ERROR_FAILED_TO_ALLOCATE_DESCRIPTOR_SETS"@.len() == 46);
            assert("VKFFT_ERROR_FAILED_TO_ALLOCATE_DESCRIPTOR_SETS"@[31] == 'D');
        },
        VkFFTResult::VKFFT_ERROR_FAILED_TO_CREATE_PIPELINE_LAYOUT => {
            assert("VKFFT_ERROR_FAILED_TO_CREATE_PIPELINE_LAYOUT"@.len() == 44);
            assert("VKFFT_ERROR_FAILED_TO_CREATE_PIPELINE_LAYOUT"@[29] == 'P');
        },
        VkFFTResult::VKFFT_ERROR_FAILED_SHADER_PREPROCESS => {
            assert("VKFFT_ERROR_FAILED_SHADER_PREPROCESS"@.len() == 36);
            assert("VKFFT_ERROR_FAILED_SHADER_PREPROCESS"@[12] == 'F');
            assert("VKFFT_ERROR_FAILED_SHADER_PREPROCESS"@[19] == 'S');
        },
        VkFFTResult::VKFFT_ERROR_FAILED_SHADER_PARSE => {
            assert("VKFFT_ERROR_FAILED_SHADER_PARSE"@.len() == 31);
        },
        VkFFTResult::VKFFT_ERROR_FAILED_SHADER_LINK => {
            assert("VKFFT_ERROR_FAILED_SHADER_LINK"@.len() == 30);
            assert("VKFFT_ERROR_FAILED_SHADER_LINK"@[12] == 'F');
            assert("VKFFT_ERROR_FAILED_SHADER_LINK"@[19] == 'S');
        },
        VkFFTResult::VKFFT_ERROR_FAILED_SPIRV_GENERATE => {
            assert("VKFFT_ERROR_FAILED_SPIRV_GENERATE"@.len() == 33);
            assert("VKFFT_ERROR_FAILED_SPIRV_GENERATE"@[12] == 'F');
            assert("VKFFT_ERROR_FAILED_SPIRV_GENERATE"@[19] == 'S');
        },
        VkFFTResult::VKFFT_ERROR_FAILED_TO_CREATE_SHADER_MODULE => {
            assert("VKFFT_ERROR_FAILED_TO_CREATE_SHADER_MODULE"@.len() == 42);
            assert("VKFFT_ERROR_FAILED_TO_CREATE_SHADER_MODULE"@[22] == 'C');
            assert("VKFFT_ERROR_FAILED_TO_CREATE_SHADER_MODULE"@[29] == 'S');
        },
        VkFFTResult::VKFFT_ERROR_FAILED_TO_CREATE_INSTANCE => {
            assert("VKFFT_ERROR_FAILED_TO_CREATE_INSTANCE"@.len() == 37);
            assert("VKFFT_ERROR_FAILED_TO_CREATE_INSTANCE"@[22] == 'C');
            assert("VKFFT_ERROR_FAILED_TO_CREATE_INSTANCE"@[23] == 'R');
            assert("VKFFT_ERROR_FAILED_TO_CREATE_INSTANCE"@[29] == 'I');
        },
        VkFFTResult::VKFFT_ERROR_FAILED_TO_SETUP_DEBUG_MESSENGER => {
            assert("VKFFT_ERROR_FAILED_TO_SETUP_DEBUG_MESSENGER"@.len() == 43);
            assert("VKFFT_ERROR_FAILED_TO_SETUP_DEBUG_MESSENGER"@[12] == 'F');
            assert("VKFFT_ERROR_FAILED_TO_SETUP_DEBUG_MESSENGER"@[22] == 'S');
        },
        VkFFTResult::VKFFT_ERROR_FAILED_TO_FIND_PHYSICAL_DEVICE => {
            assert("VKFFT_ERROR_FAILED_TO_FIND_PHYSICAL_DEVICE"@.len() == 42);
            assert("VKFFT_ERROR_FAILED_TO_FIND_PHYSICAL_DEVICE"@[22] == 'F');
        },
        VkFFTResult::VKFFT_ERROR_FAILED_TO_CREATE_DEVICE => {
            assert("VKFFT_ERROR_FAILED_TO_CREATE_DEVICE"@.len() == 35);
            assert("VKFFT_ERROR_FAILED_TO_CREATE_DEVICE"@[12] == 'F');
            assert("VKFFT_ERROR_FAILED_TO_CREATE_DEVICE"@[22] == 'C');
            assert("VKFFT_ERROR_FAILED_TO_CREATE_DEVICE"@[29] == 'D');
        },
        VkFFTResult::VKFFT_ERROR_FAILED_TO_CREATE_FENCE => {
            assert("VKFFT_ERROR_FAILED_TO_CREATE_FENCE"@.len() == 34);
            assert("VKFFT_ERROR_FAILED_TO_CREATE_FENCE"@[12] == 'F');
            assert("VKFFT_ERROR_FAILED_TO_CREATE_FENCE"@[22] == 'C');
            assert("VKFFT_ERROR_FAILED_TO_CREATE_FENCE"@[29] == 'F');
        },
        VkFFTResult::VKFFT_ERROR_FAILED_TO_CREATE_COMMAND_POOL => {
            assert("VKFFT_ERROR_FAILED_TO_CREATE_COMMAND_POOL"@.len() == 41);
            assert("VKFFT_ERROR_FAILED_TO_CREATE_COMMAND_POOL"@[22] == 'C');
            assert("VKFFT_ERROR_FAILED_TO_CREATE_COMMAND_POOL"@[37] == 'P');
        },
        VkFFTResult::VKFFT_ERROR_FAILED_TO_CREATE_BUFFER => {
            assert("VKFFT_ERROR_FAILED_TO_CREATE_BUFFER"@.len() == 35);
            assert("VKFFT_ERROR_FAILED_TO_CREATE_BUFFER"@[12] == 'F');
            assert("VKFFT_ERROR_FAILED_TO_CREATE_BUFFER"@[22] == 'C');
            assert("VKFFT_ERROR_FAILED_TO_CREATE_BUFFER"@[29] == 'B');
        },
        VkFFTResult::VKFFT_ERROR_FAILED_TO_ALLOCATE_MEMORY => {
            assert("VKFFT_ERROR_FAILED_TO_ALLOCATE_MEMORY"@.len() == 37);
            assert("VKFFT_ERROR_FAILED_TO_ALLOCATE_MEMORY"@[22] == 'A');
        },
        VkFFTResult::VKFFT_ERROR_FAILED_TO_BIND_BUFFER_MEMORY => {
            assert("VKFFT_ERROR_FAILED_TO_BIND_BUFFER_MEMORY"@.len() == 40);
            assert("VKFFT_ERROR_FAILED_TO_BIND_BUFFER_MEMORY"@[12] == 'F');
            assert("VKFFT_ERROR_FAILED_TO_BIND_BUFFER_MEMORY"@[13] == 'A');
            assert("VKFFT_ERROR_FAILED_TO_BIND_BUFFER_MEMORY"@[22] == 'B');
        },
        VkFFTResult::VKFFT_ERROR_FAILED_TO_FIND_MEMORY => {
            assert("VKFFT_ERROR_FAILED_TO_FIND_MEMORY"@.len() == 33);
            assert("VKFFT_ERROR_FAILED_TO_FIND_MEMORY"@[12] == 'F');
            assert("VKFFT_ERROR_FAILED_TO_FIND_MEMORY"@[19] == 'T');
            assert("VKFFT_ERROR_FAILED_TO_FIND_MEMORY"@[22] == 'F');
        },
        VkFFTResult::VKFFT_ERROR_FAILED_TO_SYNCHRONIZE => {
            assert("VKFFT_ERROR_FAILED_TO_SYNCHRONIZE"@.len() == 33);
            assert("VKFFT_ERROR_FAILED_TO_SYNCHRONIZE"@[12] == 'F');
            assert("VKFFT_ERROR_FAILED_TO_SYNCHRONIZE"@[19] == 'T');
            assert("VKFFT_ERROR_FAILED_TO_SYNCHRONIZE"@[22] == 'S');
        },
        VkFFTResult::VKFFT_ERROR_FAILED_TO_COPY => {
            assert("VKFFT_ERROR_FAILED_TO_COPY"@.len() == 26);
            assert("VKFFT_ERROR_FAILED_TO_COPY"@[12] == 'F');
        },
        VkFFTResult::VKFFT_ERROR_FAILED_TO_CREATE_PROGRAM => {
            assert("VKFFT_ERROR_FAILED_TO_CREATE_PROGRAM"@.len() == 36);
            assert("VKFFT_ERROR_FAILED_TO_CREATE_PROGRAM"@[12] == 'F');
            assert("VKFFT_ERROR_FAILED_TO_CREATE_PROGRAM"@[19] == 'T');
            assert("VKFFT_ERROR_FAILED_TO_CREATE_PROGRAM"@[22] == 'C');
            assert("VKFFT_ERROR_FAILED_TO_CREATE_PROGRAM"@[29] == 'P');
        },
        VkFFTResult::VKFFT_ERROR_FAILED_TO_COMPILE_PROGRAM => {
            assert("VKFFT_ERROR_FAILED_TO_COMPILE_PROGRAM"@.len() == 37);
            assert("VKFFT_ERROR_FAILED_TO_COMPILE_PROGRAM"@[22] == 'C');
            assert("VKFFT_ERROR_FAILED_TO_COMPILE_PROGRAM"@[23] == 'O');
        },
        VkFFTResult::VKFFT_ERROR_FAILED_TO_GET_CODE_SIZE => {
            assert("VKFFT_ERROR_FAILED_TO_GET_CODE_SIZE"@.len() == 35);
            assert("VKFFT_ERROR_FAILED_TO_GET_CODE_SIZE"@[12] == 'F');
            assert("VKFFT_ERROR_FAILED_TO_GET_CODE_SIZE"@[22] == 'G');
            assert("VKFFT_ERROR_FAILED_TO_GET_CODE_SIZE"@[26] == 'C');
        },
        VkFFTResult::VKFFT_ERROR_FAILED_TO_GET_CODE => {
            assert("VKFFT_ERROR_FAILED_TO_GET_CODE"@.len() == 30);
            assert("VKFFT_ERROR_FAILED_TO_GET_CODE"@[12] == 'F');
            assert("VKFFT_ERROR_FAILED_TO_GET_CODE"@[19] == 'T');
            assert("VKFFT_ERROR_FAILED_TO_GET_CODE"@[22] == 'G');
        },
        VkFFTResult::VKFFT_ERROR_FAILED_TO_DESTROY_PROGRAM => {
            assert("VKFFT_ERROR_FAILED_TO_DESTROY_PROGRAM"@.len() == 37);
            assert("VKFFT_ERROR_FAILED_TO_DESTROY_PROGRAM"@[22] == 'D');
        },
        VkFFTResult::VKFFT_ERROR_FAILED_TO_LOAD_MODULE => {
            assert("VKFFT_ERROR_FAILED_TO_LOAD_MODULE"@.len() == 33);
            assert("VKFFT_ERROR_FAILED_TO_LOAD_MODULE"@[12] == 'F');
            assert("VKFFT_ERROR_FAILED_TO_LOAD_MODULE"@[19] == 'T');
            assert("VKFFT_ERROR_FAILED_TO_LOAD_MODULE"@[22] == 'L');
        },
        VkFFTResult::VKFFT_ERROR_FAILED_TO_GET_FUNCTION => {
            assert("VKFFT_ERROR_FAILED_TO_GET_FUNCTION"@.len() == 34);
            assert("VKFFT_ERROR_FAILED_TO_GET_FUNCTION"@[12] == 'F');
            assert("VKFFT_ERROR_FAILED_TO_GET_FUNCTION"@[22] == 'G');
        },
        VkFFTResult::VKFFT_ERROR_FAILED_TO_SET_DYNAMIC_SHARED_MEMORY => {
            assert("VKFFT_ERROR_FAILED_TO_SET_DYNAMIC_SHARED_MEMORY"@.len() == 47);
        },
        VkFFTResult::VKFFT_ERROR_FAILED_TO_MODULE_GET_GLOBAL => {
            assert("VKFFT_ERROR_FAILED_TO_MODULE_GET_GLOBAL"@.len() == 39);
            assert("VKFFT_ERROR_FAILED_TO_MODULE_GET_GLOBAL"@[22] == 'M');
        },
        VkFFTResult::VKFFT_ERROR_FAILED_TO_LAUNCH_KERNEL => {
            assert("VKFFT_ERROR_FAILED_TO_LAUNCH_KERNEL"@.len() == 35);
            assert("VKFFT_ERROR_FAILED_TO_LAUNCH_KERNEL"@[12] == 'F');
            assert("VKFFT_ERROR_FAILED_TO_LAUNCH_KERNEL"@[22] == 'L');
        },
        VkFFTResult::VKFFT_ERROR_FAILED_TO_EVENT_RECORD => {
            assert("VKFFT_ERROR_FAILED_TO_EVENT_RECORD"@.len() == 34);
            assert("VKFFT_ERROR_FAILED_TO_EVENT_RECORD"@[12] == 'F');
            assert("VKFFT_ERROR_FAILED_TO_EVENT_RECORD"@[22] == 'E');
        },
        VkFFTResult::VKFFT_ERROR_FAILED_TO_ADD_NAME_EXPRESSION => {
            assert("VKFFT_ERROR_FAILED_TO_ADD_NAME_EXPRESSION"@.len() == 41);
            assert("VKFFT_ERROR_FAILED_TO_ADD_NAME_EXPRESSION"@[22] == 'A');
        },
        VkFFTResult::VKFFT_ERROR_FAILED_TO_INITIALIZE => {
            assert("VKFFT_ERROR_FAILED_TO_INITIALIZE"@.len() == 32);
            assert("VKFFT_ERROR_FAILED_TO_INITIALIZE"@[12] == 'F');
            assert("VKFFT_ERROR_FAILED_TO_INITIALIZE"@[22] == 'I');
        },
        VkFFTResult::VKFFT_ERROR_FAILED_TO_SET_DEVICE_ID => {
            assert("VKFFT_ERROR_FAILED_TO_SET_DEVICE_ID"@.len() == 35);
            assert("VKFFT_ERROR_FAILED_TO_SET_DEVICE_ID"@[12] == 'F');
            assert("VKFFT_ERROR_FAILED_TO_SET_DEVICE_ID"@[22] == 'S');
        },
        VkFFTResult::VKFFT_ERROR_FAILED_TO_GET_DEVICE => {
            assert("VKFFT_ERROR_FAILED_TO_GET_DEVICE"@.len() == 32);
            assert("VKFFT_ERROR_FAILED_TO_GET_DEVICE"@[12] == 'F');
            assert("VKFFT_ERROR_FAILED_TO_GET_DEVICE"@[22] == 'G');
        },
        VkFFTResult::VKFFT_ERROR_FAILED_TO_CREATE_CONTEXT => {
            assert("VKFFT_ERROR_FAILED_TO_CREATE_CONTEXT"@.len() == 36);
            assert("VKFFT_ERROR_FAILED_TO_CREATE_CONTEXT"@[12] == 'F');
            assert("VKFFT_ERROR_FAILED_TO_CREATE_CONTEXT"@[19] == 'T');
            assert("VKFFT_ERROR_FAILED_TO_CREATE_CONTEXT"@[22] == 'C');
            assert("VKFFT_ERROR_FAILED_TO_CREATE_CONTEXT"@[29] == 'C');
        },
        VkFFTResult::VKFFT_ERROR_FAILED_TO_CREATE_PIPELINE => {
            assert("VKFFT_ERROR_FAILED_TO_CREATE_PIPELINE"@.len() == 37);
            assert("VKFFT_ERROR_FAILED_TO_CREATE_PIPELINE"@[22] == 'C');
            assert("VKFFT_ERROR_FAILED_TO_CREATE_PIPELINE"@[23] == 'R');
            assert("VKFFT_ERROR_FAILED_TO_CREATE_PIPELINE"@[29] == 'P');
        },
        VkFFTResult::VKFFT_ERROR_FAILED_TO_SET_KERNEL_ARG => {
            assert("VKFFT_ERROR_FAILED_TO_SET_KERNEL_ARG"@.len() == 36);
            assert("VKFFT_ERROR_FAILED_TO_SET_KERNEL_ARG"@[12] == 'F');
            assert("VKFFT_ERROR_FAILED_TO_SET_KERNEL_ARG"@[19] == 'T');
            assert("VKFFT_ERROR_FAILED_TO_SET_KERNEL_ARG"@[22] == 'S');
            assert("VKFFT_ERROR_FAILED_TO_SET_KERNEL_ARG"@[23] == 'E');
        },
        VkFFTResult::VKFFT_ERROR_FAILED_TO_CREATE_COMMAND_QUEUE => {
            assert("VKFFT_ERROR_FAILED_TO_CREATE_COMMAND_QUEUE"@.len() == 42);
            assert("VKFFT_ERROR_FAILED_TO_CREATE_COMMAND_QUEUE"@[22] == 'C');
            assert("VKFFT_ERROR_FAILED_TO_CREATE_COMMAND_QUEUE"@[29] == 'C');
        },
        VkFFTResult::VKFFT_ERROR_FAILED_TO_RELEASE_COMMAND_QUEUE => {
            assert("VKFFT_ERROR_FAILED_TO_RELEASE_COMMAND_QUEUE"@.len() == 43);
            assert("VKFFT_ERROR_FAILED_TO_RELEASE_COMMAND_QUEUE"@[12] == 'F');
            assert("VKFFT_ERROR_FAILED_TO_RELEASE_COMMAND_QUEUE"@[22] == 'R');
        },
        VkFFTResult::VKFFT_ERROR_FAILED_TO_ENUMERATE_DEVICES => {
            assert("VKFFT_ERROR_FAILED_TO_ENUMERATE_DEVICES"@.len() == 39);
            assert("VKFFT_ERROR_FAILED_TO_ENUMERATE_DEVICES"@[22] == 'E');
        },
        VkFFTResult::VKFFT_ERROR_FAILED_TO_GET_ATTRIBUTE => {
            assert("VKFFT_ERROR_FAILED_TO_GET_ATTRIBUTE"@.len() == 35);
            assert("VKFFT_ERROR_FAILED_TO_GET_ATTRIBUTE"@[12] == 'F');
            assert("VKFFT_ERROR_FAILED_TO_GET_ATTRIBUTE"@[22] == 'G');
            assert("VKFFT_ERROR_FAILED_TO_GET_ATTRIBUTE"@[26] == 'A');
        },
        VkFFTResult::VKFFT_ERROR_FAILED_TO_CREATE_EVENT => {
            assert("VKFFT_ERROR_FAILED_TO_CREATE_EVENT"@.len() == 34);
            assert("VKFFT_ERROR_FAILED_TO_CREATE_EVENT"@[12] == 'F');
            assert("VKFFT_ERROR_FAILED_TO_CREATE_EVENT"@[22] == 'C');
            assert("VKFFT_ERROR_FAILED_TO_CREATE_EVENT"@[29] == 'E');
        },
        VkFFTResult::VKFFT_ERROR_FAILED_TO_CREATE_COMMAND_LIST => {
            assert("VKFFT_ERROR_FAILED_TO_CREATE_COMMAND_LIST"@.len() == 41);
            assert("VKFFT_ERROR_FAILED_TO_CREATE_COMMAND_LIST"@[22] == 'C');
            assert("VKFFT_ERROR_FAILED_TO_CREATE_COMMAND_LIST"@[37] == 'L');
        },
        VkFFTResult::VKFFT_ERROR_FAILED_TO_DESTROY_COMMAND_LIST => {
            assert("VKFFT_ERROR_FAILED_TO_DESTROY_COMMAND_LIST"@.len() == 42);
            assert("VKFFT_ERROR_FAILED_TO_DESTROY_COMMAND_LIST"@[22] == 'D');
        },
        VkFFTResult::VKFFT_ERROR_FAILED_TO_SUBMIT_BARRIER => {
            assert("VKFFT_ERROR_FAILED_TO_SUBMIT_BARRIER"@.len() == 36);
            assert("VKFFT_ERROR_FAILED_TO_SUBMIT_BARRIER"@[12] == 'F');
            assert("VKFFT_ERROR_FAILED_TO_SUBMIT_BARRIER"@[19] == 'T');
            assert("VKFFT_ERROR_FAILED_TO_SUBMIT_BARRIER"@[22] == 'S');
            assert("VKFFT_ERROR_FAILED_TO_SUBMIT_BARRIER"@[23] == 'U');
        },
        VkFFTResult::Unrecognized(_) => {},
    }
}

/// Distinct codes that the engine defines have distinct names, and none of
/// those names is the catch-all name.
pub proof fn lemma_result_names_distinct(a: VkFFTResult, b: VkFFTResult)
    requires
        is_defined_result(a),
        is_defined_result(b),
        a != b,
    ensures
        result_name(a)@ != result_name(b)@,
        result_name(a)@ != UNKNOWN_RESULT_NAME@,
{
    lemma_result_name_decodes(a);
    lemma_result_name_decodes(b);
}

} // verus!
