//! Updates: from the address that they are looked up at to their installation.

use vstd::prelude::*;
use vstd::string::*;

use crate::commands;
use crate::commands::{validate_update_version, validate_updater_endpoint};
use crate::commands_core::UpdateInfo;
use crate::error;
use crate::error::{AppError, AppResult};
use crate::outside;

verus! {

/// The steps that the platform's updater can fail at.
#[derive(Clone, Copy, PartialEq, Eq, Debug, Structural)]
pub enum UpdaterStep {
    /// Reading the address.
    Url,
    /// Taking the address over.
    Endpoint,
    /// Putting the updater together for an address.
    Build,
    /// Getting the updater for the configured address.
    Default,
    /// Looking for an update.
    Check,
    /// Fetching and installing an update.
    Install,
}

/// How a failure at a step is introduced.
pub open spec fn failure_prefix(step: UpdaterStep) -> Seq<char> {
    match step {
        UpdaterStep::Url => "Invalid URL: "@,
        UpdaterStep::Endpoint => "Invalid endpoint: "@,
        UpdaterStep::Build => "Build failed: "@,
        UpdaterStep::Default => "Updater not available: "@,
        UpdaterStep::Check => "Update check failed: "@,
        UpdaterStep::Install => "Update install failed: "@,
    }
}

/// The error for a failure at a step.
pub open spec fn step_error(step: UpdaterStep, reason: Seq<char>) -> error::ErrorView {
    error::ErrorView::Updater(failure_prefix(step) + reason)
}

/// Reports a failure at a step.
pub fn updater_error(step: UpdaterStep, reason: &str) -> (r: AppError)
    ensures
        r@ == step_error(step, reason@),
{
    let prefix = match step {
        UpdaterStep::Url => "Invalid URL: ",
        UpdaterStep::Endpoint => "Invalid endpoint: ",
        UpdaterStep::Build => "Build failed: ",
        UpdaterStep::Default => "Updater not available: ",
        UpdaterStep::Check => "Update check failed: ",
        UpdaterStep::Install => "Update install failed: ",
    };
    let mut message = prefix.to_owned();
    message.append(reason);
    AppError::Updater(message)
}

/// What is wrong with the address that the frontend may name for an update.
pub open spec fn source_fault(endpoint: Option<String>) -> Option<error::ErrorView> {
    match endpoint {
        Some(url) => commands::endpoint_fault(outside::url_parts(url@)),
        None => None,
    }
}

/// Decides which updater to build: one for the address that is named, once that is accepted, or
/// the configured one where none is named.
pub fn build_updater(endpoint: Option<String>) -> (r: AppResult<Option<String>>)
    ensures
        match source_fault(endpoint) {
            None => r == Ok::<Option<String>, AppError>(endpoint),
            Some(e) => error::fails_with(r, e),
        },
{
    if let Some(url) = &endpoint {
        if let Err(e) = validate_updater_endpoint(url.as_str()) {
            return Err(e);
        }
    }
    Ok(endpoint)
}

/// An update that the updater found.
#[derive(Debug)]
pub struct FoundUpdate {
    pub version: String,
    pub body: Option<String>,
    pub date: Option<String>,
}

/// How looking for an update ended.
#[derive(Debug)]
pub enum CheckOutcome {
    Found { update: FoundUpdate },
    UpToDate,
    Failed { reason: String },
}

/// Answers the question whether there is an update. One that would lead back is an error.
pub fn check_for_updates(current: &str, outcome: CheckOutcome) -> (r: AppResult<
    Option<UpdateInfo>,
>)
    ensures
        match outcome {
            CheckOutcome::Found { update } => match commands::update_fault(
                current@,
                update.version@,
            ) {
                None => {
                    &&& r matches Ok(Some(info))
                    &&& info.version == update.version
                    &&& info.current_version@ == current@
                    &&& info.body == update.body
                    &&& info.date == update.date
                },
                Some(e) => error::fails_with(r, e),
            },
            CheckOutcome::UpToDate => r == Ok::<Option<UpdateInfo>, AppError>(None),
            CheckOutcome::Failed { reason } => error::fails_with(
                r,
                step_error(UpdaterStep::Check, reason@),
            ),
        },
{
    match outcome {
        CheckOutcome::Found { update } => {
            if let Err(e) = validate_update_version(current, update.version.as_str()) {
                return Err(e);
            }
            Ok(
                Some(
                    UpdateInfo {
                        version: update.version,
                        current_version: current.to_owned(),
                        body: update.body,
                        date: update.date,
                    },
                ),
            )
        },
        CheckOutcome::UpToDate => Ok(None),
        CheckOutcome::Failed { reason } => Err(
            updater_error(UpdaterStep::Check, reason.as_str()),
        ),
    }
}

/// How far an installation has come.
#[derive(Debug)]
pub enum InstallStage {
    /// It has not begun.
    Idle,
    /// The updater is being put together.
    Building,
    /// The updater is looking for an update.
    Checking,
    /// This version is being fetched and installed.
    Installing { version: String },
    /// It has ended, well or not.
    Finished,
}

/// What an [`InstallStage`] holds.
pub enum StageView {
    Idle,
    Building,
    Checking,
    Installing { version: Seq<char> },
    Finished,
}

impl View for InstallStage {
    type V = StageView;

    open spec fn view(&self) -> StageView {
        match *self {
            InstallStage::Idle => StageView::Idle,
            InstallStage::Building => StageView::Building,
            InstallStage::Checking => StageView::Checking,
            InstallStage::Installing { version } => StageView::Installing { version: version@ },
            InstallStage::Finished => StageView::Finished,
        }
    }
}

/// What happened to an installation.
#[derive(Debug)]
pub enum InstallEvent {
    /// The frontend asked for it, naming an address or none.
    Requested { endpoint: Option<String> },
    /// The updater was put together.
    Built,
    /// The updater could not be put together.
    BuildFailed { step: UpdaterStep, reason: String },
    /// Looking for an update ended.
    Checked { outcome: CheckOutcome },
    /// The update was fetched and installed.
    Installed,
    /// The update was not fetched or not installed.
    InstallFailed { reason: String },
}

/// What the frontend is told of the progress.
#[derive(Clone, Copy, PartialEq, Eq, Debug, Structural)]
pub enum UpdateStatus {
    Checking,
    Downloading,
    Installed,
}

impl UpdateStatus {
    /// The word for a status.
    pub open spec fn word(self) -> Seq<char> {
        match self {
            UpdateStatus::Checking => "checking"@,
            UpdateStatus::Downloading => "downloading"@,
            UpdateStatus::Installed => "installed"@,
        }
    }

    /// The word that the frontend is sent.
    pub fn as_str(self) -> (r: &'static str)
        ensures
            r@ == self.word(),
    {
        match self {
            UpdateStatus::Checking => "checking",
            UpdateStatus::Downloading => "downloading",
            UpdateStatus::Installed => "installed",
        }
    }
}

/// What to do next for an installation, after the status has been sent.
#[derive(Debug)]
pub enum InstallAction {
    /// The event does not belong to the stage.
    Nothing,
    /// Put the updater together for this address, or for the configured one.
    Build { endpoint: Option<String> },
    /// Look for an update.
    Check,
    /// Fetch and install the update that was found.
    Install,
    /// Give the frontend this answer.
    Answer { result: AppResult<()> },
}

/// What an [`InstallAction`] holds.
pub enum ActionView {
    Nothing,
    Build { endpoint: Option<String> },
    Check,
    Install,
    Done,
    Fail { error: error::ErrorView },
}

impl View for InstallAction {
    type V = ActionView;

    open spec fn view(&self) -> ActionView {
        match *self {
            InstallAction::Nothing => ActionView::Nothing,
            InstallAction::Build { endpoint } => ActionView::Build { endpoint },
            InstallAction::Check => ActionView::Check,
            InstallAction::Install => ActionView::Install,
            InstallAction::Answer { result: Ok(_) } => ActionView::Done,
            InstallAction::Answer { result: Err(e) } => ActionView::Fail { error: e@ },
        }
    }
}

/// One step of an installation: where it leads, what the frontend is told, and what to do next.
pub struct InstallOutcome {
    pub stage: StageView,
    pub status: Option<UpdateStatus>,
    pub action: ActionView,
}

/// An installation that ends with an error.
pub open spec fn failed(status: Option<UpdateStatus>, error: error::ErrorView) -> InstallOutcome {
    InstallOutcome { stage: StageView::Finished, status, action: ActionView::Fail { error } }
}

/// What follows from an event at a stage.
pub open spec fn install_outcome(
    current: Seq<char>,
    stage: StageView,
    event: InstallEvent,
) -> InstallOutcome {
    match (stage, event) {
        (StageView::Idle, InstallEvent::Requested { endpoint }) => match source_fault(endpoint) {
            None => InstallOutcome {
                stage: StageView::Building,
                status: Some(UpdateStatus::Checking),
                action: ActionView::Build { endpoint },
            },
            Some(e) => failed(Some(UpdateStatus::Checking), e),
        },
        (StageView::Building, InstallEvent::Built) => InstallOutcome {
            stage: StageView::Checking,
            status: None,
            action: ActionView::Check,
        },
        (StageView::Building, InstallEvent::BuildFailed { step, reason }) => failed(
            None,
            step_error(step, reason@),
        ),
        (StageView::Checking, InstallEvent::Checked { outcome }) => match outcome {
            CheckOutcome::Found { update } => match commands::update_fault(
                current,
                update.version@,
            ) {
                None => InstallOutcome {
                    stage: StageView::Installing { version: update.version@ },
                    status: Some(UpdateStatus::Downloading),
                    action: ActionView::Install,
                },
                Some(e) => failed(None, e),
            },
            CheckOutcome::UpToDate => failed(
                None,
                error::ErrorView::Updater("No update available"@),
            ),
            CheckOutcome::Failed { reason } => failed(
                None,
                step_error(UpdaterStep::Check, reason@),
            ),
        },
        (StageView::Installing { .. }, InstallEvent::Installed) => InstallOutcome {
            stage: StageView::Finished,
            status: Some(UpdateStatus::Installed),
            action: ActionView::Done,
        },
        (StageView::Installing { .. }, InstallEvent::InstallFailed { reason }) => failed(
            None,
            step_error(UpdaterStep::Install, reason@),
        ),
        _ => InstallOutcome { stage, status: None, action: ActionView::Nothing },
    }
}

/// The result of one step of an installation.
#[derive(Debug)]
pub struct InstallStep {
    /// What to tell the frontend first.
    pub status: Option<UpdateStatus>,
    /// What to do then.
    pub action: InstallAction,
}

fn give_up(stage: &mut InstallStage, status: Option<UpdateStatus>, e: AppError) -> (r: InstallStep)
    ensures
        final(stage)@ == StageView::Finished,
        r.status == status,
        r.action@ == (ActionView::Fail { error: e@ }),
{
    *stage = InstallStage::Finished;
    InstallStep { status, action: InstallAction::Answer { result: Err(e) } }
}

/// Fetches and installs an update, step by step: the caller does what the action says and hands
/// back what came of it.
pub fn download_and_install_update(
    current: &str,
    stage: &mut InstallStage,
    event: InstallEvent,
) -> (r: InstallStep)
    ensures
        ({
            let outcome = install_outcome(current@, old(stage)@, event);
            &&& final(stage)@ == outcome.stage
            &&& r.status == outcome.status
            &&& r.action@ == outcome.action
        }),
{
    match (&*stage, event) {
        (InstallStage::Idle, InstallEvent::Requested { endpoint }) => match build_updater(
            endpoint,
        ) {
            Ok(endpoint) => {
                *stage = InstallStage::Building;
                InstallStep {
                    status: Some(UpdateStatus::Checking),
                    action: InstallAction::Build { endpoint },
                }
            },
            Err(e) => give_up(stage, Some(UpdateStatus::Checking), e),
        },
        (InstallStage::Building, InstallEvent::Built) => {
            *stage = InstallStage::Checking;
            InstallStep { status: None, action: InstallAction::Check }
        },
        (InstallStage::Building, InstallEvent::BuildFailed { step, reason }) => give_up(
            stage,
            None,
            updater_error(step, reason.as_str()),
        ),
        (InstallStage::Checking, InstallEvent::Checked { outcome }) => match outcome {
            CheckOutcome::Found { update } => {
                if let Err(e) = validate_update_version(current, update.version.as_str()) {
                    return give_up(stage, None, e);
                }
                *stage = InstallStage::Installing { version: update.version };
                InstallStep {
                    status: Some(UpdateStatus::Downloading),
                    action: InstallAction::Install,
                }
            },
            CheckOutcome::UpToDate => give_up(
                stage,
                None,
                AppError::Updater("No update available".to_owned()),
            ),
            CheckOutcome::Failed { reason } => give_up(
                stage,
                None,
                updater_error(UpdaterStep::Check, reason.as_str()),
            ),
        },
        (InstallStage::Installing { .. }, InstallEvent::Installed) => {
            *stage = InstallStage::Finished;
            InstallStep {
                status: Some(UpdateStatus::Installed),
                action: InstallAction::Answer { result: Ok(()) },
            }
        },
        (InstallStage::Installing { .. }, InstallEvent::InstallFailed { reason }) => give_up(
            stage,
            None,
            updater_error(UpdaterStep::Install, reason.as_str()),
        ),
        _ => InstallStep { status: None, action: InstallAction::Nothing },
    }
}

/// Where an installation stands after several events.
pub open spec fn install_run(current: Seq<char>, events: Seq<InstallEvent>) -> StageView
    decreases events.len(),
{
    if events.len() == 0 {
        StageView::Idle
    } else {
        install_outcome(current, install_run(current, events.drop_last()), events.last()).stage
    }
}

/// The statuses that the frontend is told over several events.
pub open spec fn statuses(current: Seq<char>, events: Seq<InstallEvent>) -> Seq<UpdateStatus>
    decreases events.len(),
{
    if events.len() == 0 {
        Seq::empty()
    } else {
        let before = statuses(current, events.drop_last());
        match install_outcome(
            current,
            install_run(current, events.drop_last()),
            events.last(),
        ).status {
            Some(status) => before.push(status),
            None => before,
        }
    }
}

/// Whatever happens, the frontend is told of the progress in order: checking, downloading,
/// installed, each at most once and none before the one ahead of it. The version that is being
/// installed is one that was found and that does not lead back.
pub proof fn lemma_installation_goes_in_order(current: Seq<char>, events: Seq<InstallEvent>)
    ensures
        ({
            let told = statuses(current, events);
            let all = seq![
                UpdateStatus::Checking,
                UpdateStatus::Downloading,
                UpdateStatus::Installed,
            ];
            &&& told.len() <= 3 && told == all.take(told.len() as int)
            &&& match install_run(current, events) {
                StageView::Idle => told.len() == 0,
                StageView::Building => told.len() == 1,
                StageView::Checking => told.len() == 1,
                StageView::Installing { version } => told.len() == 2 && commands::update_fault(
                    current,
                    version,
                ) is None,
                StageView::Finished => told.len() >= 1,
            }
        }),
    decreases events.len(),
{
    let all = seq![UpdateStatus::Checking, UpdateStatus::Downloading, UpdateStatus::Installed];
    if events.len() > 0 {
        lemma_installation_goes_in_order(current, events.drop_last());
        let before = statuses(current, events.drop_last());
        if before.len() < 3 {
            assert(all.take(before.len() as int + 1) =~= all.take(before.len() as int).push(
                all[before.len() as int],
            ));
        }
    }
}

/// The frontend is told that an update is installed only at the moment when the platform says so,
/// and only of a version that was found and does not lead back; it is then that the command
/// succeeds.
pub proof fn lemma_success_means_installed(
    current: Seq<char>,
    events: Seq<InstallEvent>,
    event: InstallEvent,
)
    ensures
        ({
            let before = install_run(current, events);
            let outcome = install_outcome(current, before, event);
            let installed = before is Installing && event is Installed;
            &&& outcome.status == Some(UpdateStatus::Installed) <==> installed
            &&& outcome.action is Done <==> installed
            &&& installed ==> commands::update_fault(current, before->version) is None
        }),
{
    lemma_installation_goes_in_order(current, events);
}

/// An installation that has ended stays so, and does nothing more.
pub proof fn lemma_finished_installation_rests(current: Seq<char>, event: InstallEvent)
    ensures
        install_outcome(current, StageView::Finished, event) == (InstallOutcome {
            stage: StageView::Finished,
            status: None,
            action: ActionView::Nothing,
        }),
{
}

/// How a failure at each step is put, and that it is an error of the updater.
pub proof fn lemma_failures(reason: Seq<char>)
    ensures
        step_error(UpdaterStep::Url, reason) == error::ErrorView::Updater(
            "Invalid URL: "@ + reason,
        ),
        step_error(UpdaterStep::Endpoint, reason) == error::ErrorView::Updater(
            "Invalid endpoint: "@ + reason,
        ),
        step_error(UpdaterStep::Build, reason) == error::ErrorView::Updater(
            "Build failed: "@ + reason,
        ),
        step_error(UpdaterStep::Default, reason) == error::ErrorView::Updater(
            "Updater not available: "@ + reason,
        ),
        step_error(UpdaterStep::Check, reason) == error::ErrorView::Updater(
            "Update check failed: "@ + reason,
        ),
        step_error(UpdaterStep::Install, reason) == error::ErrorView::Updater(
            "Update install failed: "@ + reason,
        ),
{
}

/// The words that the frontend is sent.
pub proof fn lemma_status_words()
    ensures
        UpdateStatus::Checking.word() == "checking"@,
        UpdateStatus::Downloading.word() == "downloading"@,
        UpdateStatus::Installed.word() == "installed"@,
{
}

/// An installation that is asked for is begun, and said to be checking, exactly if it names no
/// address, or one that updates may be fetched from; the updater is then put together for just
/// that address. Otherwise it ends with what is wrong with the address.
pub proof fn lemma_installation_begins(current: Seq<char>, endpoint: Option<String>)
    ensures
        ({
            let o = install_outcome(
                current,
                StageView::Idle,
                InstallEvent::Requested { endpoint },
            );
            let accepted = match endpoint {
                Some(url) => commands::endpoint_fault(outside::url_parts(url@)) is None,
                None => true,
            };
            &&& o.status == Some(UpdateStatus::Checking)
            &&& accepted ==> o.stage is Building && o.action == (ActionView::Build { endpoint })
            &&& !accepted ==> o.stage is Finished && o.action == (ActionView::Fail {
                error: commands::endpoint_fault(outside::url_parts(endpoint->0@))->0,
            })
        }),
{
}

/// Once the updater has been put together it looks for an update. One that is found and does not
/// lead back is fetched and installed, and said to be downloading. One that leads back, no update,
/// and a failed look end the installation, each with its own error.
pub proof fn lemma_installation_goes_on(current: Seq<char>, update: FoundUpdate, reason: String)
    ensures
        ({
            let built = install_outcome(current, StageView::Building, InstallEvent::Built);
            &&& built.stage is Checking && built.action is Check && built.status is None
        }),
        ({
            let found = install_outcome(
                current,
                StageView::Checking,
                InstallEvent::Checked { outcome: CheckOutcome::Found { update } },
            );
            match commands::update_fault(current, update.version@) {
                None => {
                    &&& found.stage == (StageView::Installing { version: update.version@ })
                    &&& found.action is Install
                    &&& found.status == Some(UpdateStatus::Downloading)
                },
                Some(e) => {
                    &&& found.stage is Finished && found.status is None
                    &&& found.action == (ActionView::Fail { error: e })
                },
            }
        }),
        ({
            let none = install_outcome(
                current,
                StageView::Checking,
                InstallEvent::Checked { outcome: CheckOutcome::UpToDate },
            );
            &&& none.stage is Finished && none.status is None
            &&& none.action == (ActionView::Fail {
                error: error::ErrorView::Updater("No update available"@),
            })
        }),
        ({
            let missed = install_outcome(
                current,
                StageView::Checking,
                InstallEvent::Checked { outcome: CheckOutcome::Failed { reason } },
            );
            &&& missed.stage is Finished && missed.status is None
            &&& missed.action == (ActionView::Fail {
                error: error::ErrorView::Updater("Update check failed: "@ + reason@),
            })
        }),
{
}

/// An installation ends well exactly if the platform says that the update is installed, and
/// otherwise with the reason why the updater could not be put together or the update not be
/// installed.
pub proof fn lemma_installation_ends(
    current: Seq<char>,
    version: Seq<char>,
    step: UpdaterStep,
    reason: String,
)
    ensures
        ({
            let done = install_outcome(
                current,
                StageView::Installing { version },
                InstallEvent::Installed,
            );
            &&& done.stage is Finished && done.action is Done
            &&& done.status == Some(UpdateStatus::Installed)
        }),
        ({
            let lost = install_outcome(
                current,
                StageView::Installing { version },
                InstallEvent::InstallFailed { reason },
            );
            &&& lost.stage is Finished && lost.status is None
            &&& lost.action == (ActionView::Fail {
                error: error::ErrorView::Updater("Update install failed: "@ + reason@),
            })
        }),
        ({
            let unbuilt = install_outcome(
                current,
                StageView::Building,
                InstallEvent::BuildFailed { step, reason },
            );
            &&& unbuilt.stage is Finished && unbuilt.status is None
            &&& unbuilt.action == (ActionView::Fail { error: step_error(step, reason@) })
        }),
{
}

/// An event that does not belong to the stage changes nothing.
pub proof fn lemma_unexpected_event_is_ignored(
    current: Seq<char>,
    stage: StageView,
    event: InstallEvent,
)
    requires
        ({
            &&& !(stage is Idle && event is Requested)
            &&& !(stage is Building && (event is Built || event is BuildFailed))
            &&& !(stage is Checking && event is Checked)
            &&& !(stage is Installing && (event is Installed || event is InstallFailed))
        }),
    ensures
        ({
            let o = install_outcome(current, stage, event);
            o.stage == stage && o.status is None && o.action is Nothing
        }),
{
}

/// What stages and actions hold is what their views say.
pub proof fn lemma_views_of_an_installation(
    version: String,
    endpoint: Option<String>,
    e: AppError,
)
    ensures
        InstallStage::Idle@ is Idle && InstallStage::Building@ is Building,
        InstallStage::Checking@ is Checking && InstallStage::Finished@ is Finished,
        (InstallStage::Installing { version })@ == (StageView::Installing { version: version@ }),
        InstallAction::Nothing@ is Nothing && InstallAction::Check@ is Check,
        InstallAction::Install@ is Install,
        (InstallAction::Build { endpoint })@ == (ActionView::Build { endpoint }),
        (InstallAction::Answer { result: Ok(()) })@ is Done,
        (InstallAction::Answer { result: Err(e) })@ == (ActionView::Fail { error: e@ }),
{
}

} // verus!
