//! Device-command dispatch: route an RFID-refresh command to the command
//! adapter registered for a provider identity.

use vstd::prelude::*;

use crate::ports::AmsService;
use crate::ports::ProviderAmsService;
use crate::ports::ProviderType;
use crate::registry::AmsProviderManager;

verus! {

/// Why dispatching a device command failed.
#[derive(Clone, Copy, Debug, PartialEq, Eq, Structural)]
pub enum AmsError {
    /// No command adapter is registered for the provider identity; no
    /// network call was issued.
    ProviderNotFound,
    /// The adapter's transport failed to deliver the command.
    CommandFailed,
}

/// Why the message-transport client failed. The transport itself lives
/// outside the library; its user maps connection handling onto these cases.
#[derive(Debug)]
pub enum MqttError {
    ConnectionError(String),
    PublishError(String),
    SubscriptionError(String),
    GeneralError(String),
}

/// Routes a device command to the command adapter registered for a
/// provider identity: resolve the capability, then delegate.
#[derive(Debug)]
pub struct AmsServiceImpl<P> where P: ProviderAmsService {
    ams_provider_manager: AmsProviderManager<P>,
}

impl<P> AmsServiceImpl<P> where P: ProviderAmsService {
    /// The directory of command adapters.
    pub closed spec fn providers(&self) -> Map<ProviderType, P> {
        self.ams_provider_manager@
    }

    pub fn new(ams_provider_manager: AmsProviderManager<P>) -> (r: Self)
        ensures
            r.providers() == ams_provider_manager@,
    {
        AmsServiceImpl { ams_provider_manager }
    }

    /// Dispatches one RFID-refresh command for a tray slot to the adapter
    /// registered for the provider identity. An unregistered identity is
    /// terminal and issues no network call; otherwise exactly one delivery
    /// is attempted, synchronously and without retry, and a transport
    /// failure reports `CommandFailed`.
    pub fn refresh_rfid(
        &mut self,
        tray_id: String,
        provider: ProviderType,
        device_id: String,
    ) -> (r: Result<(), AmsError>)
        ensures
            !old(self).providers().contains_key(provider) ==> (r matches Err(
                AmsError::ProviderNotFound,
            )) && *final(self) == *old(self),
            old(self).providers().contains_key(provider) ==> {
                &&& final(self).providers() == old(self).providers().insert(
                    provider,
                    final(self).providers()[provider],
                )
                &&& final(self).providers()[provider].sent() == old(
                    self,
                ).providers()[provider].sent().push((tray_id@, device_id@))
                &&& (r matches Err(e) ==> e is CommandFailed)
            },
    {
        // Resolve first: an unknown identity must not touch any adapter.
        if self.ams_provider_manager.get_provider(&provider).is_none() {
            return Err(AmsError::ProviderNotFound);
        }
        // The vendor account credentials ride on the adapter's own
        // transport session; the dispatcher hands empty ones through.
        match self.ams_provider_manager.refresh_rfid_with(
            &provider,
            tray_id,
            device_id,
            String::new(),
            String::new(),
        ) {
            None => unreached(),
            Some(res) => res,
        }
    }
}

impl<P> AmsService for AmsServiceImpl<P> where P: ProviderAmsService {
    fn refresh_rfid(
        &mut self,
        tray_id: String,
        provider: ProviderType,
        device_id: String,
    ) -> Result<(), AmsError> {
        AmsServiceImpl::refresh_rfid(self, tray_id, provider, device_id)
    }
}

} // verus!
