//! The data carried over the control channel: the onboarding settings, the
//! two commands, and the observable onboarding state.

use vstd::prelude::*;
use crate::wifi::MyceliumWifiSettings;
use crate::wifi::wifi_basic;

verus! {

/// Mathematical model of [`OnboardingSettings`].
pub struct SettingsView {
    pub name: Seq<char>,
    pub location: Seq<char>,
    pub description: Seq<char>,
    pub wifi_ssid: Seq<char>,
    pub wifi_password: Seq<char>,
}

/// Everything the human supplies to provision the device: display data and
/// the target network's SSID and credential. Immutable once received.
pub struct OnboardingSettings {
    pub name: String,
    pub location: String,
    pub description: String,
    pub wifi_ssid: String,
    pub wifi_password: String,
}

impl View for OnboardingSettings {
    type V = SettingsView;

    open spec fn view(&self) -> SettingsView {
        SettingsView {
            name: self.name@,
            location: self.location@,
            description: self.description@,
            wifi_ssid: self.wifi_ssid@,
            wifi_password: self.wifi_password@,
        }
    }
}

impl OnboardingSettings {
    /// Derives un-enriched join settings from the supplied SSID and
    /// credential.
    pub fn wifi_settings(self) -> (r: MyceliumWifiSettings)
        ensures
            r@ == wifi_basic(self@.wifi_ssid, self@.wifi_password),
    {
        MyceliumWifiSettings::basic(self.wifi_ssid, self.wifi_password)
    }
}

impl Clone for OnboardingSettings {
    fn clone(&self) -> (r: Self)
        ensures
            r@ == self@,
    {
        OnboardingSettings {
            name: self.name.clone(),
            location: self.location.clone(),
            description: self.description.clone(),
            wifi_ssid: self.wifi_ssid.clone(),
            wifi_password: self.wifi_password.clone(),
        }
    }
}

/// Mathematical model of [`OnboardingCommand`].
pub enum CommandView {
    Initialize { settings: SettingsView },
    Reboot,
}

/// A decoded control-channel command.
pub enum OnboardingCommand {
    Initialize { settings: OnboardingSettings },
    Reboot,
}

impl View for OnboardingCommand {
    type V = CommandView;

    open spec fn view(&self) -> CommandView {
        match self {
            OnboardingCommand::Initialize { settings } => CommandView::Initialize {
                settings: settings@,
            },
            OnboardingCommand::Reboot => CommandView::Reboot,
        }
    }
}

/// Mathematical model of [`OnboardingState`].
pub enum StateView {
    AwaitingSettings,
    ProvisioningWifi,
    Failed { error: Seq<char> },
    AwaitingAuthorization { url: Seq<char> },
    Complete,
}

/// The observable onboarding state, published over the control channel.
/// `Complete` and `Failed` are terminal; a new `Initialize` command restarts
/// from the beginning rather than resuming.
pub enum OnboardingState {
    AwaitingSettings,
    ProvisioningWifi,
    Failed { error: String },
    AwaitingAuthorization { url: String },
    Complete,
}

impl View for OnboardingState {
    type V = StateView;

    open spec fn view(&self) -> StateView {
        match self {
            OnboardingState::AwaitingSettings => StateView::AwaitingSettings,
            OnboardingState::ProvisioningWifi => StateView::ProvisioningWifi,
            OnboardingState::Failed { error } => StateView::Failed { error: error@ },
            OnboardingState::AwaitingAuthorization { url } => StateView::AwaitingAuthorization {
                url: url@,
            },
            OnboardingState::Complete => StateView::Complete,
        }
    }
}

impl Clone for OnboardingState {
    fn clone(&self) -> (r: Self)
        ensures
            r@ == self@,
    {
        match self {
            OnboardingState::AwaitingSettings => OnboardingState::AwaitingSettings,
            OnboardingState::ProvisioningWifi => OnboardingState::ProvisioningWifi,
            OnboardingState::Failed { error } => OnboardingState::Failed { error: error.clone() },
            OnboardingState::AwaitingAuthorization { url } => {
                OnboardingState::AwaitingAuthorization { url: url.clone() }
            },
            OnboardingState::Complete => OnboardingState::Complete,
        }
    }
}

} // verus!
