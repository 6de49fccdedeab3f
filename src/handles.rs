use vstd::prelude::*;

verus! {

/// `ash::vk::PhysicalDevice`, an opaque Vulkan handle: stored and handed back unchanged,
/// never looked into.
#[verifier::external_type_specification]
#[verifier::external_body]
pub struct ExPhysicalDevice(ash::vk::PhysicalDevice);

/// `ash::vk::Device`, an opaque Vulkan handle: stored and handed back unchanged,
/// never looked into.
#[verifier::external_type_specification]
#[verifier::external_body]
pub struct ExDevice(ash::vk::Device);

/// `ash::vk::Queue`, an opaque Vulkan handle: stored and handed back unchanged,
/// never looked into.
#[verifier::external_type_specification]
#[verifier::external_body]
pub struct ExQueue(ash::vk::Queue);

/// `ash::vk::CommandPool`, an opaque Vulkan handle: stored and handed back unchanged,
/// never looked into.
#[verifier::external_type_specification]
#[verifier::external_body]
pub struct ExCommandPool(ash::vk::CommandPool);

/// `ash::vk::Buffer`, an opaque Vulkan handle: stored and handed back unchanged,
/// never looked into.
#[verifier::external_type_specification]
#[verifier::external_body]
pub struct ExBuffer(ash::vk::Buffer);

/// `ash::vk::CommandBuffer`, an opaque Vulkan handle: stored and handed back unchanged,
/// never looked into.
#[verifier::external_type_specification]
#[verifier::external_body]
pub struct ExCommandBuffer(ash::vk::CommandBuffer);

} // verus!
