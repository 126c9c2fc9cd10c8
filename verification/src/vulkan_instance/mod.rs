use vstd::prelude::*;

use crate::{InstanceError, InstanceResult};

mod create_instance;
mod debug_callback;

pub use self::create_instance::{
    contains_name, find_missing, layer_name_buffers, lemma_missing_names_exact, missing_names,
    ApplicationInfo, InstanceCreateInfo, LayerProperties, APPLICATION_NAME, ENGINE_NAME,
    MAX_DESCRIPTION_SIZE,
};
pub use self::debug_callback::{
    break_after_semicolons, compose_debug_message, debug_message, debug_message_head,
    debug_message_text, debug_messenger_config, decimal_digits, decimal_text, digit_char,
    is_known_severity, level_of_severity, log_level, mark_unknown_severity,
    message_type_flags_text, push_decimal, severity_flags_text, sink_text,
    with_breaks_after_semicolons, DebugMessage, DebugMessengerConfig, LogLevel,
    MESSAGE_TYPE_GENERAL, MESSAGE_TYPE_PERFORMANCE, MESSAGE_TYPE_VALIDATION, SEVERITY_ERROR,
    SEVERITY_INFO, SEVERITY_VERBOSE, SEVERITY_WARNING,
};

verus! {

/// ash's entry point: the functions of the Vulkan library that need no
/// instance, and the library itself. The library hands it on unread.
#[verifier::external_type_specification]
#[verifier::external_body]
pub struct ExAshEntry(ash::Entry);

/// ash's instance: the handle and the functions that were loaded for it. The
/// library hands it on unread.
#[verifier::external_type_specification]
#[verifier::external_body]
pub struct ExAshInstance(ash::Instance);

/// ash's loader for the functions of the extension for debug messages. The
/// library hands it on unread.
#[verifier::external_type_specification]
#[verifier::external_body]
pub struct ExAshDebugUtils(ash::extensions::ext::DebugUtils);

/// The handle by which the driver knows a subscription to its messages. The
/// library hands it on unread.
#[verifier::external_type_specification]
#[verifier::external_body]
pub struct ExVkDebugUtilsMessenger(ash::vk::DebugUtilsMessengerEXT);

/// A subscription to the messages of the driver: the functions of the
/// extension, and the handle of the subscription.
pub struct DebugSubscription {
    pub debug_utils: ash::extensions::ext::DebugUtils,
    pub debug_messenger: ash::vk::DebugUtilsMessengerEXT,
}

/// What there is to destroy when an instance is torn down.
#[derive(Copy, Clone, Debug, PartialEq, Eq, Structural)]
pub enum TeardownStep {
    /// End the subscription to the messages of the driver.
    DestroyDebugMessenger,
    /// Destroy the handle of the instance.
    DestroyInstance,
}

/// The steps by which an instance is torn down, in their order: the
/// subscription to the messages of the driver goes first, where there is one,
/// and the handle of the instance goes last.
pub open spec fn teardown_order(debug_attached: bool) -> Seq<TeardownStep> {
    if debug_attached {
        seq![TeardownStep::DestroyDebugMessenger, TeardownStep::DestroyInstance]
    } else {
        seq![TeardownStep::DestroyInstance]
    }
}

/// The ash instance, entry, and additional data provided when the instance was
/// created.
///
/// An instance is created, may then be given a subscription to the messages
/// of the driver, and is torn down once, after everything that was built
/// from it.
pub struct VulkanInstance {
    layers: Vec<String>,
    extensions: Vec<String>,
    debug: Option<DebugSubscription>,
    entry: ash::Entry,
    ash: ash::Instance,
}

impl VulkanInstance {
    /// The layers that the instance was created with.
    pub closed spec fn spec_layers(&self) -> Seq<String> {
        self.layers@
    }

    /// The extensions that the instance was created with.
    pub closed spec fn spec_extensions(&self) -> Seq<String> {
        self.extensions@
    }

    /// The subscription to the messages of the driver, if there is one.
    pub closed spec fn spec_debug(&self) -> Option<DebugSubscription> {
        self.debug
    }

    /// The entry point that the instance was created through.
    pub closed spec fn spec_entry(&self) -> ash::Entry {
        self.entry
    }

    /// The instance as the driver created it.
    pub closed spec fn spec_ash(&self) -> ash::Instance {
        self.ash
    }

    /// Takes an instance that the driver has created, with the layers and the
    /// extensions that it was created with. The instance has no subscription
    /// to the messages of the driver yet.
    pub fn new(
        entry: ash::Entry,
        ash: ash::Instance,
        layers: &[String],
        extensions: &[String],
    ) -> (instance: Self)
        ensures
            instance.spec_entry() == entry,
            instance.spec_ash() == ash,
            instance.spec_layers() == layers@,
            instance.spec_extensions() == extensions@,
            instance.spec_debug().is_none(),
    {
        VulkanInstance {
            layers: crate::clone_names(layers),
            extensions: crate::clone_names(extensions),
            debug: None,
            entry,
            ash,
        }
    }

    /// Takes what the driver answered to the request for a subscription to
    /// its messages.
    ///
    /// Where the driver made the subscription, the instance keeps it, to end
    /// it when the instance is torn down. Where the driver reported an error,
    /// that error is returned and the instance stays as it was.
    pub fn setup_debug_logger(
        &mut self,
        debug_utils: ash::extensions::ext::DebugUtils,
        created: Result<ash::vk::DebugUtilsMessengerEXT, ash::vk::Result>,
    ) -> (attached: InstanceResult<()>)
        ensures
            final(self).spec_entry() == old(self).spec_entry(),
            final(self).spec_ash() == old(self).spec_ash(),
            final(self).spec_layers() == old(self).spec_layers(),
            final(self).spec_extensions() == old(self).spec_extensions(),
            created matches Ok(debug_messenger) ==> attached.is_ok() && final(self).spec_debug()
                == Some(DebugSubscription { debug_utils, debug_messenger }),
            created matches Err(code) ==> attached == Err::<(), InstanceError>(
                InstanceError::UnexpectedVulkanError(code),
            ) && final(self).spec_debug() == old(self).spec_debug(),
    {
        match created {
            Ok(debug_messenger) => {
                self.debug = Some(DebugSubscription { debug_utils, debug_messenger });
                Ok(())
            },
            Err(code) => Err(InstanceError::from(code)),
        }
    }

    /// The raw ash entry.
    pub fn entry(&self) -> (entry: &ash::Entry)
        ensures
            *entry == self.spec_entry(),
    {
        &self.entry
    }

    /// The raw ash library instance.
    pub fn ash(&self) -> (ash: &ash::Instance)
        ensures
            *ash == self.spec_ash(),
    {
        &self.ash
    }

    /// The layers used to create this Vulkan instance.
    pub fn layers(&self) -> (layers: &[String])
        ensures
            layers@ == self.spec_layers(),
    {
        self.layers.as_slice()
    }

    /// The extensions used to create this Vulkan instance.
    pub fn extensions(&self) -> (extensions: &[String])
        ensures
            extensions@ == self.spec_extensions(),
    {
        self.extensions.as_slice()
    }

    /// The subscription to the messages of the driver, if there is one.
    pub fn debug_subscription(&self) -> (debug: Option<&DebugSubscription>)
        ensures
            debug.is_some() == self.spec_debug().is_some(),
            debug matches Some(subscription) ==> Some(*subscription) == self.spec_debug(),
    {
        self.debug.as_ref()
    }

    /// The steps by which the instance is torn down, in their order: the
    /// subscription to the messages of the driver goes first, where there is
    /// one, and the handle of the instance goes last.
    ///
    /// Everything that was built from the instance must have been destroyed
    /// before the first step, and the instance must not be used after the
    /// last.
    pub fn destroy(&self) -> (steps: Vec<TeardownStep>)
        ensures
            steps@ == teardown_order(self.spec_debug().is_some()),
    {
        let mut steps: Vec<TeardownStep> = Vec::new();
        if self.debug.is_some() {
            steps.push(TeardownStep::DestroyDebugMessenger);
        }
        steps.push(TeardownStep::DestroyInstance);
        assert(steps@ =~= teardown_order(self.spec_debug().is_some()));
        steps
    }
}

} // verus!
