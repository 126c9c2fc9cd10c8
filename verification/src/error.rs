use vstd::prelude::*;
use vstd::std_specs::convert::FromSpecImpl;

verus! {

/// What ash reports when the Vulkan library cannot be loaded. The library
/// hands it on unread.
#[verifier::external_type_specification]
#[verifier::external_body]
pub struct ExLoadingError(ash::LoadingError);

/// The result code of a driver call. The library hands it on unread.
#[verifier::external_type_specification]
#[verifier::external_body]
pub struct ExVkResult(ash::vk::Result);

pub type InstanceResult<T> = Result<T, InstanceError>;

/// Why an instance or a device could not be built.
#[derive(Debug)]
pub enum InstanceError {
    /// The Vulkan library could not be found or loaded.
    CannotLoadVulkanEntry(ash::LoadingError),
    /// The extensions that were asked for and that the driver does not offer.
    MissingExtensions(Vec<String>),
    /// The layers that were asked for and that the driver does not offer.
    MissingLayers(Vec<String>),
    /// Any other failure that the driver reported, with its result code.
    UnexpectedVulkanError(ash::vk::Result),
}

impl From<ash::LoadingError> for InstanceError {
    fn from(error: ash::LoadingError) -> (wrapped: Self) {
        InstanceError::CannotLoadVulkanEntry(error)
    }
}

impl FromSpecImpl<ash::LoadingError> for InstanceError {
    open spec fn obeys_from_spec() -> bool {
        true
    }

    open spec fn from_spec(error: ash::LoadingError) -> Self {
        InstanceError::CannotLoadVulkanEntry(error)
    }
}

impl From<ash::vk::Result> for InstanceError {
    fn from(code: ash::vk::Result) -> (wrapped: Self) {
        InstanceError::UnexpectedVulkanError(code)
    }
}

impl FromSpecImpl<ash::vk::Result> for InstanceError {
    open spec fn obeys_from_spec() -> bool {
        true
    }

    open spec fn from_spec(code: ash::vk::Result) -> Self {
        InstanceError::UnexpectedVulkanError(code)
    }
}

} // verus!
