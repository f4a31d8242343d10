//! The control channel's command dispatch: one entry point that decodes a
//! raw command and either starts an onboarding sequence, asks for an
//! immediate restart, or rejects the bytes.

use vstd::prelude::*;
use crate::codec::decode_command;
use crate::codec::spec_decode_command;
use crate::flow::FlowPhaseView;
use crate::flow::FlowView;
use crate::flow::ONBOARDING_RETRIES;
use crate::flow::OnboardingFlow;
use crate::flow::StepResult;
use crate::flow::StepView;
use crate::flow::ActionView;
use crate::flow::selected_join_settings;
use crate::onboarding::CommandView;
use crate::onboarding::OnboardingCommand;
use crate::onboarding::StateView;
use crate::settings::FlashState;
use crate::settings::StoreView;

verus! {

/// Mathematical model of [`CommandOutcome`].
pub enum OutcomeView {
    Started { flow: FlowView, step: StepView },
    Reboot,
    Rejected,
}

/// What one received command leads to. `Reboot` asks the caller to
/// restart the process at once, with no state publication — that restart
/// is the only cancellation mechanism. `Rejected` answers bytes outside
/// the command grammar.
pub enum CommandOutcome {
    Started { flow: OnboardingFlow, step: StepResult },
    Reboot,
    Rejected,
}

impl View for CommandOutcome {
    type V = OutcomeView;

    open spec fn view(&self) -> OutcomeView {
        match self {
            CommandOutcome::Started { flow, step } => OutcomeView::Started {
                flow: flow@,
                step: step@,
            },
            CommandOutcome::Reboot => OutcomeView::Reboot,
            CommandOutcome::Rejected => OutcomeView::Rejected,
        }
    }
}

/// What each decoded command leads to: an initialize command starts a
/// fresh flow with a full retry budget, a reboot command is handed
/// through, and undecodable bytes are rejected.
pub open spec fn spec_on_command(store: StoreView, mac: Seq<char>, raw: Seq<char>) -> OutcomeView {
    match spec_decode_command(raw) {
        None => OutcomeView::Rejected,
        Some(CommandView::Reboot) => OutcomeView::Reboot,
        Some(CommandView::Initialize { settings }) => OutcomeView::Started {
            flow: FlowView {
                settings: settings,
                mac: mac,
                retries_left: ONBOARDING_RETRIES,
                phase: FlowPhaseView::Joining,
            },
            step: StepView {
                publish: Some(StateView::ProvisioningWifi),
                action: ActionView::Join {
                    settings: selected_join_settings(store.wifi, settings),
                },
            },
        },
    }
}

/// Decodes one raw command and dispatches it.
pub fn on_command(store: &FlashState, mac: String, raw: &str) -> (r: CommandOutcome)
    ensures
        r@ == spec_on_command(store@, mac@, raw@),
{
    match decode_command(raw) {
        None => CommandOutcome::Rejected,
        Some(OnboardingCommand::Reboot) => CommandOutcome::Reboot,
        Some(OnboardingCommand::Initialize { settings }) => {
            let (flow, step) = OnboardingFlow::start(settings, mac, store);
            CommandOutcome::Started { flow, step }
        },
    }
}

/// A reboot command never publishes a state and never touches the durable
/// records: its whole effect is the immediate process restart the caller
/// performs.
pub proof fn lemma_reboot_is_pure_restart(store: StoreView, mac: Seq<char>, raw: Seq<char>)
    requires
        spec_decode_command(raw) == Some(CommandView::Reboot),
    ensures
        spec_on_command(store, mac, raw) == OutcomeView::Reboot,
{
}

} // verus!
