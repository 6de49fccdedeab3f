pub mod handles;
pub mod laws;
pub mod plan;
pub mod result;

pub use plan::{Configuration, LaunchParams, PlanState, VkFft};
pub use result::{vkfft_check, vkfft_ok, vkfft_result_to_str, VkFFTResult, VkFftError, VkfftError};
