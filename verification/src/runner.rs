//! The run itself: five operations in a fixed order, each reported whatever
//! it came back with, none of them able to stop the ones after it.

use crate::config::{
    configure, configured, credential, ClientConfig, ConfigError, ConfigModel, Environment,
    Variable,
};
use crate::outcome::{report, spec_report, TransferResult};
use crate::request::{step_at, Request, RequestModel, Step, Targets, TargetsModel, STEPS};
use vstd::prelude::*;

verus! {

/// The mathematical content of a [`Runner`]: its configuration, its targets
/// and, for each operation that is over, whether it succeeded.
pub struct RunnerModel {
    pub config: ConfigModel,
    pub targets: TargetsModel,
    pub outcomes: Seq<bool>,
}

impl RunnerModel {
    /// A run that has not sent anything yet.
    pub open spec fn started(config: ConfigModel, targets: TargetsModel) -> RunnerModel {
        RunnerModel { config, targets, outcomes: Seq::empty() }
    }

    /// The configuration is valid and no more operations are over than a
    /// run has.
    pub open spec fn valid(self) -> bool {
        self.config.valid() && self.outcomes.len() <= STEPS
    }

    /// The run is over when all five operations are.
    pub open spec fn finished(self) -> bool {
        self.outcomes.len() >= STEPS
    }

    /// The operation whose turn it is: the place in the run alone decides
    /// it, never what came before.
    pub open spec fn current(self) -> Option<Step> {
        step_at(self.outcomes.len() as int)
    }

    /// The request to send next.
    pub open spec fn request(self) -> Option<RequestModel> {
        match self.current() {
            Some(step) => Some(step.spec_request(self.targets)),
            None => None,
        }
    }

    /// The run after the current operation has ended, well or badly. A run
    /// that is over stays as it is.
    pub open spec fn record(self, success: bool) -> RunnerModel {
        if self.finished() {
            self
        } else {
            RunnerModel { outcomes: self.outcomes.push(success), ..self }
        }
    }

    /// The run after one operation has ended for each of `outcomes`, in turn.
    pub open spec fn record_all(self, outcomes: Seq<bool>) -> RunnerModel
        decreases outcomes.len(),
    {
        if outcomes.len() == 0 {
            self
        } else {
            self.record_all(outcomes.drop_last()).record(outcomes.last())
        }
    }
}

/// A run in progress.
pub struct Runner {
    config: ClientConfig,
    targets: Targets,
    outcomes: Vec<bool>,
}

impl View for Runner {
    type V = RunnerModel;

    closed spec fn view(&self) -> RunnerModel {
        RunnerModel { config: self.config@, targets: self.targets@, outcomes: self.outcomes@ }
    }
}

impl Runner {
    #[verifier::type_invariant]
    spec fn well_formed(self) -> bool {
        self.outcomes@.len() <= STEPS
    }

    /// Starts a run. Nothing has been sent yet.
    pub fn new(config: ClientConfig, targets: Targets) -> (run: Runner)
        ensures
            run@ == RunnerModel::started(config@, targets@),
            run@.valid(),
    {
        proof {
            use_type_invariant(&config);
        }
        Runner { config, targets, outcomes: Vec::new() }
    }

    /// The configuration of the client that sends the requests.
    pub fn config(&self) -> (config: &ClientConfig)
        ensures
            config@ == self@.config,
            self@.valid(),
    {
        proof {
            use_type_invariant(self);
            use_type_invariant(&self.config);
        }
        &self.config
    }

    /// What the run acts on.
    pub fn targets(&self) -> (targets: &Targets)
        ensures
            targets@ == self@.targets,
    {
        &self.targets
    }

    /// Whether all five operations are over.
    pub fn is_finished(&self) -> (yes: bool)
        ensures
            yes == self@.finished(),
            yes == self@.current().is_none(),
    {
        proof {
            use_type_invariant(self);
        }
        self.outcomes.len() >= STEPS
    }

    /// The operation whose turn it is, or `None` when the run is over.
    pub fn current(&self) -> (step: Option<Step>)
        ensures
            step == self@.current(),
    {
        Step::at(self.outcomes.len())
    }

    /// The request to send next, or `None` when the run is over.
    pub fn request(&self) -> (request: Option<Request>)
        ensures
            match request {
                Some(request) => self@.request() == Some(request@),
                None => self@.request().is_none(),
            },
    {
        match Step::at(self.outcomes.len()) {
            Some(step) => Some(step.request(&self.targets)),
            None => None,
        }
    }

    /// Whether the operation succeeded, or `None` while it is not over.
    pub fn outcome(&self, step: Step) -> (success: Option<bool>)
        ensures
            success == if step.spec_position() < self@.outcomes.len() {
                Some(self@.outcomes[step.spec_position()])
            } else {
                None
            },
    {
        let place: usize = step.position();
        if place < self.outcomes.len() {
            Some(self.outcomes[place])
        } else {
            None
        }
    }

    /// The status with which the process ends after this run: 0, whatever
    /// the operations came back with. A failure is reported, not escalated.
    pub fn exit_code(&self) -> (code: u8)
        ensures
            code == 0,
    {
        0
    }

    /// Ends the current operation with `result` and returns the line that
    /// reports it. The run moves on to the next operation whether `result`
    /// is a success or a failure. On a run that is over nothing changes and
    /// there is no line.
    pub fn complete(&mut self, result: &TransferResult) -> (line: Option<String>)
        ensures
            final(self)@ == old(self)@.record(result.is_success()),
            match line {
                Some(text) => old(self)@.current() matches Some(step) && text@ == spec_report(
                    step,
                    *result,
                ),
                None => old(self)@.finished(),
            },
    {
        proof {
            use_type_invariant(&*self);
        }
        match Step::at(self.outcomes.len()) {
            Some(step) => {
                let mut outcomes = self.outcomes.clone();
                outcomes.push(result.succeeded());
                self.outcomes = outcomes;
                Some(report(step, result))
            },
            None => None,
        }
    }
}

/// What `prepare` makes of an environment: a run that has sent nothing yet,
/// or the error of the configuration.
pub open spec fn prepared(env: Environment, targets: TargetsModel) -> Result<
    RunnerModel,
    ConfigError,
> {
    match configured(env) {
        Ok(config) => Ok(RunnerModel::started(config, targets)),
        Err(fault) => Err(fault),
    }
}

/// Makes the configuration and, only if that succeeds, starts a run: with a
/// credential missing, empty or not text there is no run, so no request is
/// ever handed out.
pub fn prepare(env: &Environment, targets: Targets) -> (out: Result<Runner, ConfigError>)
    ensures
        match out {
            Ok(run) => prepared(*env, targets@) == Ok::<RunnerModel, ConfigError>(run@)
                && run@.valid(),
            Err(fault) => prepared(*env, targets@) == Err::<RunnerModel, ConfigError>(fault),
        },
{
    match configure(env) {
        Ok(config) => Ok(Runner::new(config, targets)),
        Err(fault) => Err(fault),
    }
}

/// Without both credentials there is no run, and so no request: `prepare`
/// fails before anything is sent. With them, the run it starts has sent
/// nothing yet and begins with the listing.
pub proof fn lemma_no_run_without_credentials(env: Environment, targets: TargetsModel)
    ensures
        prepared(env, targets).is_ok() <==> credential(env.access_key_id, Variable::AccessKeyId).is_ok()
            && credential(env.secret_access_key, Variable::SecretAccessKey).is_ok(),
        prepared(env, targets) matches Ok(run) ==> run.valid() && run.outcomes.len() == 0
            && run.current() == Some(Step::ListBuckets),
{
}

/// The operation after the current one is the same whether the current one
/// succeeds or fails, and it is the next in the fixed order: a failure ends
/// neither the run nor any later operation.
pub proof fn lemma_failure_does_not_stop_the_run(run: RunnerModel, step: Step, success: bool)
    requires
        run.valid(),
        run.current() == Some(step),
    ensures
        run.record(success).valid(),
        run.record(success).current() == step.spec_next(),
        run.record(success).current() == run.record(!success).current(),
        run.record(success).targets == run.targets,
        run.record(success).config == run.config,
        step == Step::DeleteBucket ==> run.record(success).current() == Some(Step::CreateBucket),
        run.record(success).finished() <==> step == Step::Download,
{
}

/// Whatever the operations come back with, a run goes through list, delete,
/// create, upload and download in this order and is over after the fifth.
pub proof fn lemma_the_order_is_fixed(
    config: ConfigModel,
    targets: TargetsModel,
    outcomes: Seq<bool>,
)
    requires
        config.valid(),
    ensures
        ({
            let run = RunnerModel::started(config, targets).record_all(outcomes);
            &&& run.valid()
            &&& run.targets == targets
            &&& run.config == config
            &&& run.outcomes == if outcomes.len() <= STEPS {
                outcomes
            } else {
                outcomes.take(STEPS as int)
            }
            &&& run.current() == step_at(outcomes.len() as int)
            &&& run.finished() <==> outcomes.len() >= STEPS
        }),
    decreases outcomes.len(),
{
    if outcomes.len() > 0 {
        lemma_the_order_is_fixed(config, targets, outcomes.drop_last());
        let before = RunnerModel::started(config, targets).record_all(outcomes.drop_last());
        let run = before.record(outcomes.last());
        if outcomes.len() <= STEPS {
            assert(outcomes.drop_last().push(outcomes.last()) == outcomes);
        } else if outcomes.len() == STEPS + 1 {
            assert(outcomes.drop_last() == outcomes.take(STEPS as int));
        } else {
            assert(outcomes.drop_last().take(STEPS as int) == outcomes.take(STEPS as int));
        }
    }
}

} // verus!
