//! What becomes of a request: the reply, or the command to run first.

use vstd::prelude::*;
use crate::config::{checked, is_given, Config, Settings, SettingsView};
use crate::path::bare_path;
use crate::status::{Reply, Status};

verus! {

/// What is to be done for a request once the settings have been read.
#[derive(Debug, PartialEq, Eq)]
pub enum Step {
    /// Reply at once; no command is run.
    Respond(Status),
    /// Run this command with no arguments, wait for it to end, and reply
    /// with what `conclude` makes of it.
    Run(String),
}

/// A `Step`, with the command as text.
pub enum StepView {
    Respond(Status),
    Run(Seq<char>),
}

impl View for Step {
    type V = StepView;

    open spec fn view(&self) -> StepView {
        match self {
            Step::Respond(status) => StepView::Respond(*status),
            Step::Run(command) => StepView::Run(command@),
        }
    }
}

/// How an attempt to run the command ended.
#[derive(Clone, Copy, Debug, PartialEq, Eq, Structural)]
pub enum Execution {
    /// The command was started and has ended, with this exit code if it left
    /// one.
    Exited(Option<i32>),
    /// The command could not be started, or could not be waited for.
    Failed,
}

/// The step that a request for `path` calls for under `settings`.
///
/// The settings come first: while one of them is missing every path gets the
/// same failure. With both given, any path but the secret is not found, and
/// that is all a caller learns of it.
pub open spec fn next_step(path: Seq<char>, settings: SettingsView) -> StepView {
    match checked(settings) {
        Err(_) => StepView::Respond(Status::InternalServerError),
        Ok(config) => if config.authorizes(path) {
            StepView::Run(config.command)
        } else {
            StepView::Respond(Status::NotFound)
        },
    }
}

/// The reply after an attempt to run the command. A command that ended has
/// been run, whatever its exit code says.
pub open spec fn status_after(execution: Execution) -> Status {
    match execution {
        Execution::Exited(_) => Status::Success,
        Execution::Failed => Status::InternalServerError,
    }
}

/// Decides what a request for `path` calls for under the settings read for it.
pub fn plan(path: &str, settings: Settings) -> (step: Step)
    ensures
        step@ == next_step(path@, settings@),
{
    match Config::from_settings(settings) {
        Err(_) => Step::Respond(Status::InternalServerError),
        Ok(config) => {
            if config.authorizes(path) {
                Step::Run(config.into_command())
            } else {
                Step::Respond(Status::NotFound)
            }
        },
    }
}

/// Turns the end of a run into the reply.
pub fn conclude(execution: Execution) -> (status: Status)
    ensures
        status == status_after(execution),
{
    match execution {
        Execution::Exited(_) => Status::Success,
        Execution::Failed => Status::InternalServerError,
    }
}

/// Whether `run` can be handed whatever a request for `path` under
/// `settings` may call on it to run. Where the request calls for no run this
/// asks nothing of `run`, which is then never called.
pub open spec fn can_run<F: FnOnce(&str) -> Execution>(
    path: Seq<char>,
    settings: SettingsView,
    run: F,
) -> bool {
    next_step(path, settings) matches StepView::Run(command) ==> forall|text: &str|
        text@ == command ==> call_requires(run, (text,))
}

/// Whether `status` answers a request for `path` under `settings` where
/// `run` does the running: it is the reply that the step names, or the one
/// that follows from an end that `run` can come to on the configured command.
pub open spec fn answers<F: FnOnce(&str) -> Execution>(
    path: Seq<char>,
    settings: SettingsView,
    run: F,
    status: Status,
) -> bool {
    match next_step(path, settings) {
        StepView::Respond(reply) => status == reply,
        StepView::Run(command) => exists|text: &str, execution: Execution|
            text@ == command && call_ensures(run, (text,), execution) && status == status_after(
                execution,
            ),
    }
}

/// Handles one request: decides on the step and, where that is a run, hands
/// the command to `run`, waits for it, and makes the reply of how it ended.
///
/// `path` is the path of the request as the server read it; the method, the
/// query, the headers and the body of the request have no say. `run` is
/// called at most once, and with nothing but the configured command.
pub fn handle_request<F: FnOnce(&str) -> Execution>(path: &str, settings: Settings, run: F) -> (status:
    Status)
    requires
        can_run(path@, settings@, run),
    ensures
        answers(path@, settings@, run, status),
{
    match plan(path, settings) {
        Step::Respond(status) => status,
        Step::Run(command) => {
            let execution = run(command.as_str());
            conclude(execution)
        },
    }
}

/// Handles one request as `handle_request` does, and wraps the status in
/// the reply that goes out, whose body is empty.
pub fn respond<F: FnOnce(&str) -> Execution>(path: &str, settings: Settings, run: F) -> (reply:
    Reply)
    requires
        can_run(path@, settings@, run),
    ensures
        answers(path@, settings@, run, reply.status),
        reply.body@ == Seq::<u8>::empty(),
{
    Reply::empty(handle_request(path, settings, run))
}

/// With both settings given, a request whose path, without its leading
/// slash, is not the secret path is answered as not found, and no run is
/// called for.
pub proof fn lemma_wrong_path_is_not_found<F: FnOnce(&str) -> Execution>(
    path: Seq<char>,
    settings: SettingsView,
    run: F,
    status: Status,
)
    requires
        is_given(settings.secret_path),
        is_given(settings.command),
        bare_path(path) != settings.secret_path->Some_0,
        answers(path, settings, run, status),
    ensures
        status == Status::NotFound,
        next_step(path, settings) == StepView::Respond(Status::NotFound),
{
}

/// While the secret path is not set, or is empty, every request is answered
/// as failed, whatever its path, and no run is called for.
pub proof fn lemma_missing_secret_path_fails<F: FnOnce(&str) -> Execution>(
    path: Seq<char>,
    settings: SettingsView,
    run: F,
    status: Status,
)
    requires
        !is_given(settings.secret_path),
        answers(path, settings, run, status),
    ensures
        status == Status::InternalServerError,
        next_step(path, settings) == StepView::Respond(Status::InternalServerError),
{
}

/// While the command is not set, or is empty, every request is answered as
/// failed, also one whose path names the secret, and no run is called for.
pub proof fn lemma_missing_command_fails<F: FnOnce(&str) -> Execution>(
    path: Seq<char>,
    settings: SettingsView,
    run: F,
    status: Status,
)
    requires
        !is_given(settings.command),
        answers(path, settings, run, status),
    ensures
        status == Status::InternalServerError,
        next_step(path, settings) == StepView::Respond(Status::InternalServerError),
{
}

/// With both settings given, a request whose path names the secret calls for
/// a run of the configured command, and is answered as a success where every
/// run of that command comes to an end.
pub proof fn lemma_authorized_request_runs_command<F: FnOnce(&str) -> Execution>(
    path: Seq<char>,
    settings: SettingsView,
    run: F,
    status: Status,
)
    requires
        is_given(settings.secret_path),
        is_given(settings.command),
        bare_path(path) == settings.secret_path->Some_0,
        forall|text: &str, execution: Execution|
            call_ensures(run, (text,), execution) ==> execution is Exited,
        answers(path, settings, run, status),
    ensures
        status == Status::Success,
        next_step(path, settings) == StepView::Run(settings.command->Some_0),
{
}

/// The exit code of the command has no say in the reply: a command that has
/// ended counts as run, whatever its code, and where it left none.
pub proof fn lemma_exit_code_is_ignored(first: Option<i32>, second: Option<i32>)
    ensures
        status_after(Execution::Exited(first)) == status_after(Execution::Exited(second)),
        status_after(Execution::Exited(first)) == Status::Success,
{
}

/// Requests are answered one by one. Of two requests that both name the
/// secret, also where they are the same request, each calls for a run of its
/// own, and each is answered by how its own run ended.
pub proof fn lemma_each_authorized_request_runs<
    F: FnOnce(&str) -> Execution,
    G: FnOnce(&str) -> Execution,
>(
    first: Seq<char>,
    second: Seq<char>,
    settings: SettingsView,
    first_run: F,
    second_run: G,
    first_status: Status,
    second_status: Status,
)
    requires
        is_given(settings.secret_path),
        is_given(settings.command),
        bare_path(first) == settings.secret_path->Some_0,
        bare_path(second) == settings.secret_path->Some_0,
        answers(first, settings, first_run, first_status),
        answers(second, settings, second_run, second_status),
    ensures
        next_step(first, settings) == StepView::Run(settings.command->Some_0),
        next_step(second, settings) == StepView::Run(settings.command->Some_0),
        exists|text: &str, execution: Execution|
            text@ == settings.command->Some_0 && call_ensures(first_run, (text,), execution)
                && first_status == status_after(execution),
        exists|text: &str, execution: Execution|
            text@ == settings.command->Some_0 && call_ensures(second_run, (text,), execution)
                && second_status == status_after(execution),
{
}

} // verus!
