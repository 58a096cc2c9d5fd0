//! One container's way through a pass: inspect, classify, publish.

use vstd::prelude::*;
use crate::common::Config;
use crate::common::LogLevel;
use crate::common::MissingContainerHandling;
use crate::common::MissingEnvVarHandling;
use crate::companion::Context;
use crate::companion::enumerated;
use crate::companion::marked;
use crate::error::CompanionError;
use crate::inspector::Inspect;
use crate::inspector::Inspection;
use crate::inspector::InspectionError;
use crate::inspector::inspect_answers;
use crate::merge::enumeration_error;
use crate::merge::found_names;
use crate::merge::is_merge;
use crate::merge::names;
use crate::pending::Pending;
use crate::publisher::Publication;
use crate::publisher::Publish;
use crate::publisher::PublishingError;
use crate::publisher::publish_answers;

verus! {

/// How a failure is treated.
#[derive(Clone, Copy, Debug, PartialEq, Eq, Structural)]
pub struct Verdict {
    /// How loudly it is written to the log.
    pub level: LogLevel,
    /// Whether it is added to the errors of the pass.
    pub counts: bool,
}

/// The treatment of a container that could not be inspected.
///
/// | policy | explicit | level | counts |
/// |--------|----------|-------|--------|
/// | Report | any      | Error | yes    |
/// | Ignore | yes      | Warn  | yes    |
/// | Ignore | no       | Info  | no     |
pub open spec fn inspection_failure_verdict(
    policy: MissingContainerHandling,
    explicit: bool,
) -> Verdict {
    match policy {
        MissingContainerHandling::Report => Verdict { level: LogLevel::Error, counts: true },
        MissingContainerHandling::Ignore => if explicit {
            Verdict { level: LogLevel::Warn, counts: true }
        } else {
            Verdict { level: LogLevel::Info, counts: false }
        },
    }
}

/// The treatment of a container that lacks the environment variable.
///
/// | policy    | explicit | level | counts |
/// |-----------|----------|-------|--------|
/// | Report    | any      | Error | yes    |
/// | Automatic | yes      | Error | yes    |
/// | Automatic | no       | Info  | no     |
/// | Ignore    | any      | Info  | no     |
pub open spec fn missing_envvar_verdict(policy: MissingEnvVarHandling, explicit: bool) -> Verdict {
    match policy {
        MissingEnvVarHandling::Report => Verdict { level: LogLevel::Error, counts: true },
        MissingEnvVarHandling::Automatic => if explicit {
            Verdict { level: LogLevel::Error, counts: true }
        } else {
            Verdict { level: LogLevel::Info, counts: false }
        },
        MissingEnvVarHandling::Ignore => Verdict { level: LogLevel::Info, counts: false },
    }
}

/// Computes `inspection_failure_verdict`.
pub fn judge_inspection_failure(policy: MissingContainerHandling, explicit: bool) -> (verdict:
    Verdict)
    ensures
        verdict == inspection_failure_verdict(policy, explicit),
{
    match policy {
        MissingContainerHandling::Report => Verdict { level: LogLevel::Error, counts: true },
        MissingContainerHandling::Ignore => {
            if explicit {
                Verdict { level: LogLevel::Warn, counts: true }
            } else {
                Verdict { level: LogLevel::Info, counts: false }
            }
        },
    }
}

/// Computes `missing_envvar_verdict`.
pub fn judge_missing_envvar(policy: MissingEnvVarHandling, explicit: bool) -> (verdict: Verdict)
    ensures
        verdict == missing_envvar_verdict(policy, explicit),
{
    match (explicit, policy) {
        (true, MissingEnvVarHandling::Automatic) | (_, MissingEnvVarHandling::Report) => Verdict {
            level: LogLevel::Error,
            counts: true,
        },
        _ => Verdict { level: LogLevel::Info, counts: false },
    }
}

/// The publication that an inspection asks for: its host with its domains.
pub fn to_publication(inspection: Pending<Inspection>) -> (publication: Publication)
    ensures
        publication.host == inspection.todo.host,
        publication.specs == inspection.todo.specs,
{
    Publication { host: inspection.todo.host, specs: inspection.todo.specs }
}

/// What is to happen with a container once its inspection has come back.
#[derive(Debug)]
pub enum Assessment {
    /// Nothing more: the inspection failed.
    InspectionFailed { verdict: Verdict, error: CompanionError },
    /// Nothing more: the container lacks the environment variable.
    EnvVarMissing { verdict: Verdict },
    /// Nothing more: this is a dry run. Holds what would have been
    /// published.
    DryRun(Publication),
    /// The publication is to be handed to the publishing backend.
    Publish(Publication),
}

/// The assessment of a container that was asked for as `explicit` says and
/// whose inspection brought `inspected`.
pub open spec fn assessment(
    config: Config,
    explicit: bool,
    inspected: Result<Pending<Inspection>, CompanionError>,
) -> Assessment {
    match inspected {
        Err(error) => Assessment::InspectionFailed {
            verdict: inspection_failure_verdict(config.missing_container, explicit),
            error,
        },
        Ok(inspection) => if !inspection.todo.envvar_present {
            Assessment::EnvVarMissing {
                verdict: missing_envvar_verdict(config.missing_envvar, explicit),
            }
        } else if config.dry_run {
            Assessment::DryRun(
                Publication { host: inspection.todo.host, specs: inspection.todo.specs },
            )
        } else {
            Assessment::Publish(
                Publication { host: inspection.todo.host, specs: inspection.todo.specs },
            )
        },
    }
}

/// Computes `assessment`.
pub fn assess(
    config: &Config,
    explicit: bool,
    inspected: Result<Pending<Inspection>, CompanionError>,
) -> (assessed: Assessment)
    ensures
        assessed == assessment(*config, explicit, inspected),
{
    match inspected {
        Err(error) => Assessment::InspectionFailed {
            verdict: judge_inspection_failure(config.missing_container, explicit),
            error,
        },
        Ok(inspection) => {
            if !inspection.todo.envvar_present {
                Assessment::EnvVarMissing {
                    verdict: judge_missing_envvar(config.missing_envvar, explicit),
                }
            } else if config.dry_run {
                Assessment::DryRun(to_publication(inspection))
            } else {
                Assessment::Publish(to_publication(inspection))
            }
        },
    }
}

/// In a dry run no assessment asks for a publication, and nothing that
/// could be published is ever an error.
pub proof fn lemma_dry_run_never_publishes(
    config: Config,
    explicit: bool,
    inspected: Result<Pending<Inspection>, CompanionError>,
)
    requires
        config.dry_run,
    ensures
        !(assessment(config, explicit, inspected) is Publish),
        inspected matches Ok(inspection) && inspection.todo.envvar_present ==> assessment(
            config,
            explicit,
            inspected,
        ) is DryRun,
{
}

/// How one container fared in a pass. A failure is told with its cause,
/// whether it counts or not.
#[derive(Debug)]
pub enum RefreshOutcome {
    /// The container could not be inspected. `counted` says whether the
    /// failure was added to the errors of the pass.
    InspectionFailed { level: LogLevel, cause: InspectionError, counted: bool },
    /// The container lacks the environment variable. `counted` says whether
    /// that was added to the errors of the pass.
    EnvVarMissing { level: LogLevel, counted: bool },
    /// Dry run: this is what would have been published.
    DryRun(Publication),
    /// The registry took the publication.
    Published(Publication),
    /// The registry refused the publication; the failure was added to the
    /// errors of the pass.
    PublishingFailed { publication: Publication, refusal: PublishingError },
}

impl RefreshOutcome {
    /// Whether the outcome added an error to the errors of the pass.
    pub open spec fn counted(self) -> bool {
        match self {
            RefreshOutcome::InspectionFailed { counted, .. } => counted,
            RefreshOutcome::EnvVarMissing { counted, .. } => counted,
            RefreshOutcome::PublishingFailed { .. } => true,
            _ => false,
        }
    }

    /// Whether the publishing backend was called.
    pub open spec fn published(self) -> bool {
        self is Published || self is PublishingFailed
    }

    /// How loudly the outcome is to be written to the log.
    pub open spec fn spec_level(self) -> LogLevel {
        match self {
            RefreshOutcome::InspectionFailed { level, .. } => level,
            RefreshOutcome::EnvVarMissing { level, .. } => level,
            RefreshOutcome::PublishingFailed { .. } => LogLevel::Error,
            _ => LogLevel::Info,
        }
    }

    /// How loudly the outcome is to be written to the log.
    pub fn level(&self) -> (level: LogLevel)
        ensures
            level == self.spec_level(),
    {
        match self {
            RefreshOutcome::InspectionFailed { level, .. } => *level,
            RefreshOutcome::EnvVarMissing { level, .. } => *level,
            RefreshOutcome::PublishingFailed { .. } => LogLevel::Error,
            _ => LogLevel::Info,
        }
    }
}

/// The errors `errors`, with `error` behind them if there is one.
pub open spec fn with_error(errors: Seq<CompanionError>, error: Option<CompanionError>) -> Seq<
    CompanionError,
> {
    match error {
        Some(error) => errors.push(error),
        None => errors,
    }
}

/// How a container has fared, and the error that this adds to the errors of
/// the pass, if any.
pub struct Settlement {
    pub outcome: RefreshOutcome,
    pub error: Option<CompanionError>,
}

/// What becomes of the container `name` under `config` when the inspection
/// backend answers `inspected` and the publishing backend, should it be
/// called, answers `published`.
///
/// The outcome tells a failure with its cause. A failure that counts, by
/// the policy tables, is also the error that is added. A failed publication
/// always counts.
pub open spec fn settled(
    config: Config,
    name: Pending<String>,
    inspected: Result<Inspection, InspectionError>,
    published: Result<(), PublishingError>,
) -> Settlement {
    match assessment(config, name.explicit, marked(name.explicit, inspected)) {
        Assessment::InspectionFailed { verdict, error } => Settlement {
            outcome: RefreshOutcome::InspectionFailed {
                level: verdict.level,
                cause: inspected->Err_0,
                counted: verdict.counts,
            },
            error: if verdict.counts {
                Some(error)
            } else {
                None
            },
        },
        Assessment::EnvVarMissing { verdict } => Settlement {
            outcome: RefreshOutcome::EnvVarMissing { level: verdict.level, counted: verdict.counts },
            error: if verdict.counts {
                Some(CompanionError::EnvVarMissing(name.todo, config.envvar))
            } else {
                None
            },
        },
        Assessment::DryRun(publication) => Settlement {
            outcome: RefreshOutcome::DryRun(publication),
            error: None,
        },
        Assessment::Publish(publication) => match published {
            Ok(_) => Settlement { outcome: RefreshOutcome::Published(publication), error: None },
            Err(refusal) => Settlement {
                outcome: RefreshOutcome::PublishingFailed { publication, refusal },
                error: Some(CompanionError::Publishing(refusal)),
            },
        },
    }
}

/// The container `name` has been brought up to date with the outcome
/// `outcome`, which made `errors_after` of the errors `errors_before`.
///
/// The inspection backend was asked, through the call `asked`, about the
/// container of that name. The publishing backend was handed, through the
/// call `handed`, the publication that the inspection asks for, if the
/// assessment of the inspection calls for publishing. Outcome and errors
/// are those that `settled` gives for the two answers.
pub open spec fn refreshes<I: Inspect, P: Publish>(
    config: Config,
    name: Pending<String>,
    asked: &mut I,
    handed: &mut P,
    errors_before: Seq<CompanionError>,
    errors_after: Seq<CompanionError>,
    outcome: RefreshOutcome,
) -> bool {
    exists|inspected: Result<Inspection, InspectionError>, published: Result<(), PublishingError>|
        {
            &&& inspect_answers(asked, name.todo@, inspected)
            &&& assessment(config, name.explicit, marked(name.explicit, inspected)) matches Assessment::Publish(
                publication,
            ) ==> publish_answers(handed, publication, published)
            &&& outcome == (#[trigger] settled(config, name, inspected, published)).outcome
            &&& errors_after == with_error(
                errors_before,
                settled(config, name, inspected, published).error,
            )
        }
}

/// `outcome` is a way in which the container `name` can fare under
/// `config`, and `after` is what it makes of the errors `before`.
///
/// The level and the counting of a failure are those of the two policy
/// tables. An outcome that counts adds exactly one error, made of its own
/// cause, at the end; any other leaves the errors as they were.
/// Publishing, or failing to, happens outside a dry run only.
pub open spec fn refreshed(
    config: Config,
    name: Pending<String>,
    before: Seq<CompanionError>,
    after: Seq<CompanionError>,
    outcome: RefreshOutcome,
) -> bool {
    match outcome {
        RefreshOutcome::InspectionFailed { level, cause, counted } => {
            let verdict = inspection_failure_verdict(config.missing_container, name.explicit);
            &&& level == verdict.level
            &&& counted == verdict.counts
            &&& after == if counted {
                before.push(CompanionError::Inspection(cause))
            } else {
                before
            }
        },
        RefreshOutcome::EnvVarMissing { level, counted } => {
            let verdict = missing_envvar_verdict(config.missing_envvar, name.explicit);
            &&& level == verdict.level
            &&& counted == verdict.counts
            &&& after == if counted {
                before.push(CompanionError::EnvVarMissing(name.todo, config.envvar))
            } else {
                before
            }
        },
        RefreshOutcome::DryRun(_) => config.dry_run && after == before,
        RefreshOutcome::Published(_) => !config.dry_run && after == before,
        RefreshOutcome::PublishingFailed { refusal, .. } => !config.dry_run && after
            == before.push(CompanionError::Publishing(refusal)),
    }
}

/// Whatever the backends answer, a container fares as the policies say:
/// what `settled` gives fits `refreshed`, an outcome adds an error exactly
/// where it counts, and an outcome that tells of a call of the publishing
/// backend stems from an assessment that asks for it.
pub proof fn lemma_settled_fits_policies(
    config: Config,
    name: Pending<String>,
    inspected: Result<Inspection, InspectionError>,
    published: Result<(), PublishingError>,
    before: Seq<CompanionError>,
)
    ensures
        ({
            let settlement = settled(config, name, inspected, published);
            &&& refreshed(
                config,
                name,
                before,
                with_error(before, settlement.error),
                settlement.outcome,
            )
            &&& settlement.error is Some <==> settlement.outcome.counted()
            &&& settlement.outcome.published() <==> assessment(
                config,
                name.explicit,
                marked(name.explicit, inspected),
            ) is Publish
            &&& config.dry_run ==> !settlement.outcome.published()
        }),
{
}

/// Brings one container up to date: inspects it, and publishes what it asks
/// for unless the inspection fails, the environment variable is missing, or
/// this is a dry run. Always returns; what went wrong is told by the outcome
/// and, where the policies say so, added to `errors`.
///
/// Outcome and errors are those of `refreshes`: what `settled` makes of the
/// backends' answers. The inspection backend of the context was asked about
/// this container, once, and is left as that call left it. The publishing
/// backend of the context was handed the publication of the inspection and
/// is left as that call left it, if the outcome says that it was called,
/// which in a dry run it never does; else it is left alone.
pub fn refresh_container<I: Inspect, P: Publish>(
    name: Pending<String>,
    errors: &mut Vec<CompanionError>,
    ctx: &mut Context<I, P>,
) -> (outcome: RefreshOutcome)
    ensures
        exists|asked: &mut I, handed: &mut P|
            {
                &&& #[trigger] refreshes(
                    old(ctx).spec_config(),
                    name,
                    asked,
                    handed,
                    old(errors)@,
                    final(errors)@,
                    outcome,
                )
                &&& mut_ref_current(asked) == old(ctx).spec_inspector()
                &&& mut_ref_future(asked) == final(ctx).spec_inspector()
                &&& outcome.published() ==> mut_ref_current(handed) == old(ctx).spec_publisher()
                    && mut_ref_future(handed) == final(ctx).spec_publisher()
            },
        final(ctx).spec_config() == old(ctx).spec_config(),
        final(ctx).spec_next_watchdog() == old(ctx).spec_next_watchdog(),
        !outcome.published() ==> final(ctx).spec_publisher() == old(ctx).spec_publisher(),
        old(ctx).spec_config().dry_run ==> final(ctx).spec_publisher() == old(
            ctx,
        ).spec_publisher(),
{
    let ghost config = ctx.spec_config();
    let current_container = name.todo.clone();
    let was_explicit = name.explicit;
    let inspected = ctx.inspect(name);
    let ghost (asked, asked_name, answer) = choose|
        asked: &mut I,
        asked_name: &str,
        answer: Result<Inspection, InspectionError>,
    |
        {
            &&& #[trigger] call_ensures(I::inspect, (asked, asked_name), answer)
            &&& asked_name@ == name.todo@
            &&& mut_ref_current(asked) == old(ctx).spec_inspector()
            &&& mut_ref_future(asked) == ctx.spec_inspector()
            &&& inspected == marked(name.explicit, answer)
        };
    let ghost mut handing: Option<(Publication, Result<(), CompanionError>)> = None;
    let outcome = match assess(ctx.config(), was_explicit, inspected) {
        Assessment::InspectionFailed { verdict, error } => {
            // The context hands on failures of the inspection backend and no
            // other, so the second arm is never taken.
            let cause = match &error {
                CompanionError::Inspection(cause) => cause.duplicate(),
                _ => InspectionError::NotFound(current_container),
            };
            if verdict.counts {
                errors.push(error);
            }
            RefreshOutcome::InspectionFailed {
                level: verdict.level,
                cause,
                counted: verdict.counts,
            }
        },
        Assessment::EnvVarMissing { verdict } => {
            if verdict.counts {
                let envvar = ctx.config().envvar.clone();
                errors.push(CompanionError::EnvVarMissing(current_container, envvar));
            }
            RefreshOutcome::EnvVarMissing { level: verdict.level, counted: verdict.counts }
        },
        Assessment::DryRun(publication) => RefreshOutcome::DryRun(publication),
        Assessment::Publish(publication) => {
            let published = ctx.publish(&publication);
            proof {
                handing = Some((publication, published));
            }
            match published {
                Ok(_) => RefreshOutcome::Published(publication),
                Err(error) => {
                    // The context hands on failures of the publishing
                    // backend and no other, so the second arm is never taken.
                    let refusal = match &error {
                        CompanionError::Publishing(refusal) => refusal.duplicate(),
                        _ => PublishingError { cause: current_container },
                    };
                    errors.push(error);
                    RefreshOutcome::PublishingFailed { publication, refusal }
                },
            }
        },
    };
    proof {
        let unasked: (&mut P, Result<(), PublishingError>) = (arbitrary(), Ok(()));
        let (handed, told) = if handing is Some {
            choose|handed: &mut P, told: Result<(), PublishingError>|
                {
                    &&& #[trigger] call_ensures(P::publish, (handed, &(handing->0).0), told)
                    &&& mut_ref_current(handed) == old(ctx).spec_publisher()
                    &&& mut_ref_future(handed) == ctx.spec_publisher()
                    &&& (handing->0).1 == match told {
                        Ok(_) => Ok::<(), CompanionError>(()),
                        Err(error) => Err(CompanionError::Publishing(error)),
                    }
                }
        } else {
            unasked
        };
        let settlement = settled(config, name, answer, told);
        assert(outcome == settlement.outcome);
        assert(refreshes(config, name, asked, handed, old(errors)@, errors@, outcome));
    }
    outcome
}

/// One container of a pass and how it fared.
#[derive(Debug)]
pub struct Report {
    pub container: Pending<String>,
    pub outcome: RefreshOutcome,
}

/// What a pass over all containers brought.
#[derive(Debug)]
pub struct Pass {
    /// Why enumeration failed, if it was tried and failed. The failure is
    /// then the first of `errors` too.
    pub enumeration_failure: Option<InspectionError>,
    /// The errors that count, in the order in which they came up.
    pub errors: Vec<CompanionError>,
    /// Every container that was looked at, in the order of the pass.
    pub reports: Vec<Report>,
}

/// The containers that a list of reports is about.
pub open spec fn reported(reports: Seq<Report>) -> Seq<Pending<String>> {
    reports.map_values(|report: Report| report.container)
}

/// The containers of `reports` have been brought up to date one after the
/// other, each as `refreshes` says with the outcome of its report and
/// through the calls that `asked` and `handed` hold for it, and that has
/// made `errors_after` of the errors `errors_before`.
pub open spec fn reports_fit<I: Inspect, P: Publish>(
    config: Config,
    errors_before: Seq<CompanionError>,
    errors_after: Seq<CompanionError>,
    reports: Seq<Report>,
    asked: Seq<&mut I>,
    handed: Seq<&mut P>,
) -> bool
    decreases reports.len(),
{
    if reports.len() == 0 {
        errors_after == errors_before
    } else {
        &&& asked.len() == reports.len()
        &&& handed.len() == reports.len()
        &&& exists|errors_between: Seq<CompanionError>|
            {
                &&& #[trigger] refreshes(
                    config,
                    reports.last().container,
                    asked.last(),
                    handed.last(),
                    errors_between,
                    errors_after,
                    reports.last().outcome,
                )
                &&& reports_fit(
                    config,
                    errors_before,
                    errors_between,
                    reports.drop_last(),
                    asked.drop_last(),
                    handed.drop_last(),
                )
            }
    }
}

/// Why enumeration failed, if it did.
pub open spec fn failure_of(enumeration: Option<Result<Vec<String>, InspectionError>>) -> Option<
    InspectionError,
> {
    match enumeration {
        Some(Err(cause)) => Some(cause),
        _ => None,
    }
}

/// The errors with which a pass begins: the failure of its enumeration, if
/// that failed.
pub open spec fn first_errors(
    enumeration: Option<Result<Vec<String>, InspectionError>>,
) -> Seq<CompanionError> {
    match enumeration {
        Some(Err(cause)) => seq![CompanionError::Inspection(cause)],
        _ => Seq::empty(),
    }
}

/// Errors and reports are those of one pass under `config` over the
/// explicit containers `explicit`.
///
/// Enumeration has brought `enumeration`: nothing where it is switched
/// off, else the backend's answer to the call `listed`. The reports are
/// about a merge of the explicit containers with what that brought. A
/// failed enumeration is the first error. Behind it stand the errors that
/// the containers added, in the order of the reports, each container having
/// been refreshed through its calls in `asked` and `handed`.
pub open spec fn pass_made<I: Inspect, P: Publish>(
    config: Config,
    explicit: Seq<Seq<char>>,
    listed: &mut I,
    enumeration: Option<Result<Vec<String>, InspectionError>>,
    asked: Seq<&mut I>,
    handed: Seq<&mut P>,
    enumeration_failure: Option<InspectionError>,
    errors: Seq<CompanionError>,
    reports: Seq<Report>,
) -> bool {
    &&& enumerated(config, listed, enumeration)
    &&& enumeration_failure == failure_of(enumeration)
    &&& is_merge(explicit, found_names(enumeration), reported(reports))
    &&& asked.len() == reports.len()
    &&& handed.len() == reports.len()
    &&& reports_fit(config, first_errors(enumeration), errors, reports, asked, handed)
}

/// As many states as it takes to tell what the backends were before and
/// after each of `n` containers.
pub open spec fn lined_up<I, P>(inspectors: Seq<I>, publishers: Seq<P>, n: nat) -> bool {
    inspectors.len() == n + 1 && publishers.len() == n + 1
}

/// The errors that were there before the containers of the reports were
/// looked at are still there afterwards, in front, and each container has
/// added one error at most. In a dry run no report tells of a call of the
/// publishing backend.
pub proof fn lemma_reports_add_errors<I: Inspect, P: Publish>(
    config: Config,
    errors_before: Seq<CompanionError>,
    errors_after: Seq<CompanionError>,
    reports: Seq<Report>,
    asked: Seq<&mut I>,
    handed: Seq<&mut P>,
)
    requires
        reports_fit(config, errors_before, errors_after, reports, asked, handed),
    ensures
        errors_before.len() <= errors_after.len() <= errors_before.len() + reports.len(),
        errors_after.take(errors_before.len() as int) == errors_before,
        config.dry_run ==> forall|i: int|
            0 <= i < reports.len() ==> !(#[trigger] reports[i]).outcome.published(),
    decreases reports.len(),
{
    if reports.len() > 0 {
        let errors_between = choose|errors_between: Seq<CompanionError>|
            {
                &&& #[trigger] refreshes(
                    config,
                    reports.last().container,
                    asked.last(),
                    handed.last(),
                    errors_between,
                    errors_after,
                    reports.last().outcome,
                )
                &&& reports_fit(
                    config,
                    errors_before,
                    errors_between,
                    reports.drop_last(),
                    asked.drop_last(),
                    handed.drop_last(),
                )
            };
        lemma_reports_add_errors(
            config,
            errors_before,
            errors_between,
            reports.drop_last(),
            asked.drop_last(),
            handed.drop_last(),
        );
        let name = reports.last().container;
        let (inspected, published) = choose|
            inspected: Result<Inspection, InspectionError>,
            published: Result<(), PublishingError>,
        |
            {
                &&& inspect_answers(asked.last(), name.todo@, inspected)
                &&& reports.last().outcome == (#[trigger] settled(
                    config,
                    name,
                    inspected,
                    published,
                )).outcome
                &&& errors_after == with_error(
                    errors_between,
                    settled(config, name, inspected, published).error,
                )
            };
        lemma_settled_fits_policies(config, name, inspected, published, errors_between);
        if config.dry_run {
            assert forall|i: int| 0 <= i < reports.len() implies !(
            #[trigger] reports[i]).outcome.published() by {
                if i < reports.len() - 1 {
                    assert(reports.drop_last()[i] == reports[i]);
                }
            }
        }
    }
}

/// A pass whose enumeration failed has that failure as its first error,
/// and has looked at the explicit containers all the same: at each once,
/// and at no other.
pub proof fn lemma_failed_enumeration_comes_first<I: Inspect, P: Publish>(
    config: Config,
    explicit: Seq<Seq<char>>,
    listed: &mut I,
    enumeration: Option<Result<Vec<String>, InspectionError>>,
    asked: Seq<&mut I>,
    handed: Seq<&mut P>,
    cause: InspectionError,
    errors: Seq<CompanionError>,
    reports: Seq<Report>,
)
    requires
        pass_made(
            config,
            explicit,
            listed,
            enumeration,
            asked,
            handed,
            Some(cause),
            errors,
            reports,
        ),
    ensures
        errors.len() >= 1,
        errors[0] == CompanionError::Inspection(cause),
        is_merge(explicit, Seq::empty(), reported(reports)),
{
    let first = first_errors(enumeration);
    lemma_reports_add_errors(config, first, errors, reports, asked, handed);
    assert(errors.take(1)[0] == first[0]);
}

/// One pass: finds the containers to look at and brings each up to date.
/// An enumeration failure is the first error of the pass and keeps no
/// explicit container from being looked at.
///
/// Errors and reports are those of `pass_made`, whatever the backends
/// answer. The calls were made on the backends of the context, one after
/// the other: the enumeration, where it is switched on, found the
/// inspection backend as it was before the pass; each container found the
/// backends as the container before it left them; and the context holds
/// them as the last container left them. A container whose outcome tells of
/// no call of the publishing backend left that backend as it was, which in
/// a dry run holds of all.
pub fn refresh_all<I: Inspect, P: Publish>(
    ctx: &mut Context<I, P>,
    explicit_container_names: &Vec<String>,
) -> (pass: Pass)
    ensures
        exists|
            listed: &mut I,
            enumeration: Option<Result<Vec<String>, InspectionError>>,
            asked: Seq<&mut I>,
            handed: Seq<&mut P>,
            inspectors: Seq<I>,
            publishers: Seq<P>,
        |
            #![trigger
                pass_made(
                    old(ctx).spec_config(),
                    names(explicit_container_names@),
                    listed,
                    enumeration,
                    asked,
                    handed,
                    pass.enumeration_failure,
                    pass.errors@,
                    pass.reports@,
                ),
                lined_up(inspectors, publishers, pass.reports@.len()),
            ]
            {
                &&& pass_made(
                    old(ctx).spec_config(),
                    names(explicit_container_names@),
                    listed,
                    enumeration,
                    asked,
                    handed,
                    pass.enumeration_failure,
                    pass.errors@,
                    pass.reports@,
                )
                &&& lined_up(inspectors, publishers, pass.reports@.len())
                &&& enumeration is Some ==> mut_ref_current(listed) == old(ctx).spec_inspector()
                    && mut_ref_future(listed) == inspectors[0]
                &&& enumeration is None ==> inspectors[0] == old(ctx).spec_inspector()
                &&& publishers[0] == old(ctx).spec_publisher()
                &&& inspectors.last() == final(ctx).spec_inspector()
                &&& publishers.last() == final(ctx).spec_publisher()
                &&& forall|k: int|
                    0 <= k < pass.reports@.len() ==> {
                        &&& mut_ref_current(#[trigger] asked[k]) == inspectors[k]
                        &&& mut_ref_future(asked[k]) == inspectors[k + 1]
                        &&& if pass.reports@[k].outcome.published() {
                            mut_ref_current(handed[k]) == publishers[k] && mut_ref_future(
                                handed[k],
                            ) == publishers[k + 1]
                        } else {
                            publishers[k + 1] == publishers[k]
                        }
                    }
            },
        final(ctx).spec_config() == old(ctx).spec_config(),
        final(ctx).spec_next_watchdog() == old(ctx).spec_next_watchdog(),
        old(ctx).spec_config().dry_run ==> final(ctx).spec_publisher() == old(
            ctx,
        ).spec_publisher(),
{
    let ghost config = ctx.spec_config();
    let mut errors: Vec<CompanionError> = Vec::new();
    let (containers, enumerated_names) = ctx.enumerate(explicit_container_names);
    let ghost unasked: (&mut I, Option<Result<Vec<String>, InspectionError>>) = (
        arbitrary(),
        None,
    );
    let ghost (listed, enumeration) = if config.enumerate {
        let (listed, answer) = choose|listed: &mut I, answer: Result<Vec<String>, InspectionError>|
            {
                &&& #[trigger] call_ensures(I::enumerate, (listed,), answer)
                &&& mut_ref_current(listed) == old(ctx).spec_inspector()
                &&& mut_ref_future(listed) == ctx.spec_inspector()
                &&& is_merge(
                    names(explicit_container_names@),
                    found_names(Some(answer)),
                    containers@,
                )
                &&& enumerated_names == enumeration_error(Some(answer))
            };
        (listed, Some(answer))
    } else {
        unasked
    };
    let enumeration_failure = match enumerated_names {
        Ok(_) => None,
        Err(error) => {
            let cause = match &error {
                CompanionError::Inspection(cause) => Some(cause.duplicate()),
                _ => None,
            };
            errors.push(error);
            cause
        },
    };
    let mut reports: Vec<Report> = Vec::new();
    let ghost first = errors@;
    let ghost inspector_listed = ctx.spec_inspector();
    refresh_first(ctx, &containers, containers.len(), &mut errors, &mut reports);
    let pass = Pass { enumeration_failure, errors, reports };
    proof {
        let (asked, handed, inspectors, publishers) = choose|
            asked: Seq<&mut I>,
            handed: Seq<&mut P>,
            inspectors: Seq<I>,
            publishers: Seq<P>,
        |
            #![trigger
                reports_fit(config, first, pass.errors@, pass.reports@, asked, handed),
                lined_up(inspectors, publishers, pass.reports@.len()),
            ]
            {
                &&& reports_fit(config, first, pass.errors@, pass.reports@, asked, handed)
                &&& lined_up(inspectors, publishers, pass.reports@.len())
                &&& asked.len() == pass.reports@.len()
                &&& handed.len() == pass.reports@.len()
                &&& inspectors[0] == inspector_listed
                &&& publishers[0] == old(ctx).spec_publisher()
                &&& inspectors.last() == ctx.spec_inspector()
                &&& publishers.last() == ctx.spec_publisher()
                &&& forall|k: int|
                    0 <= k < pass.reports@.len() ==> {
                        &&& mut_ref_current(#[trigger] asked[k]) == inspectors[k]
                        &&& mut_ref_future(asked[k]) == inspectors[k + 1]
                        &&& if pass.reports@[k].outcome.published() {
                            mut_ref_current(handed[k]) == publishers[k] && mut_ref_future(
                                handed[k],
                            ) == publishers[k + 1]
                        } else {
                            publishers[k + 1] == publishers[k]
                        }
                    }
            };
        assert(containers@.take(containers@.len() as int) == containers@);
        assert(pass_made(
            config,
            names(explicit_container_names@),
            listed,
            enumeration,
            asked,
            handed,
            pass.enumeration_failure,
            pass.errors@,
            pass.reports@,
        ));
    }
    pass
}

/// Brings the first `count` of `containers` up to date, one after the
/// other, and adds a report for each to `reports`, which is empty before.
///
/// The calls were made on the backends of the context: each container
/// found them as the container before it left them, the first as they
/// were, and the context holds them as the last left them.
fn refresh_first<I: Inspect, P: Publish>(
    ctx: &mut Context<I, P>,
    containers: &Vec<Pending<String>>,
    count: usize,
    errors: &mut Vec<CompanionError>,
    reports: &mut Vec<Report>,
)
    requires
        count <= containers.len(),
        old(reports)@.len() == 0,
    ensures
        final(reports)@.len() == count,
        reported(final(reports)@) == containers@.take(count as int),
        exists|asked: Seq<&mut I>, handed: Seq<&mut P>, inspectors: Seq<I>, publishers: Seq<P>|
            #![trigger
                reports_fit(
                    old(ctx).spec_config(),
                    old(errors)@,
                    final(errors)@,
                    final(reports)@,
                    asked,
                    handed,
                ),
                lined_up(inspectors, publishers, final(reports)@.len()),
            ]
            {
                &&& reports_fit(
                    old(ctx).spec_config(),
                    old(errors)@,
                    final(errors)@,
                    final(reports)@,
                    asked,
                    handed,
                )
                &&& lined_up(inspectors, publishers, final(reports)@.len())
                &&& asked.len() == count
                &&& handed.len() == count
                &&& inspectors[0] == old(ctx).spec_inspector()
                &&& publishers[0] == old(ctx).spec_publisher()
                &&& inspectors.last() == final(ctx).spec_inspector()
                &&& publishers.last() == final(ctx).spec_publisher()
                &&& forall|k: int|
                    0 <= k < count ==> {
                        &&& mut_ref_current(#[trigger] asked[k]) == inspectors[k]
                        &&& mut_ref_future(asked[k]) == inspectors[k + 1]
                        &&& if final(reports)@[k].outcome.published() {
                            mut_ref_current(handed[k]) == publishers[k] && mut_ref_future(
                                handed[k],
                            ) == publishers[k + 1]
                        } else {
                            publishers[k + 1] == publishers[k]
                        }
                    }
            },
        final(ctx).spec_config() == old(ctx).spec_config(),
        final(ctx).spec_next_watchdog() == old(ctx).spec_next_watchdog(),
        old(ctx).spec_config().dry_run ==> final(ctx).spec_publisher() == old(
            ctx,
        ).spec_publisher(),
    decreases count,
{
    let ghost config = ctx.spec_config();
    if count == 0 {
        proof {
            let asked = Seq::<&mut I>::empty();
            let handed = Seq::<&mut P>::empty();
            let inspectors = seq![ctx.spec_inspector()];
            let publishers = seq![ctx.spec_publisher()];
            assert(reports_fit(config, errors@, errors@, reports@, asked, handed));
            assert(lined_up(inspectors, publishers, reports@.len()));
        }
        return ;
    }
    refresh_first(ctx, containers, count - 1, errors, reports);
    let ghost errors_between = errors@;
    let ghost reports_before = reports@;
    let ghost inspector = ctx.spec_inspector();
    let ghost publisher = ctx.spec_publisher();
    let container = Pending {
        explicit: containers[count - 1].explicit,
        todo: containers[count - 1].todo.clone(),
    };
    let name = Pending {
        explicit: containers[count - 1].explicit,
        todo: containers[count - 1].todo.clone(),
    };
    let outcome = refresh_container(name, errors, ctx);
    reports.push(Report { container, outcome });
    proof {
        let (asked_before, handed_before, inspectors_before, publishers_before) = choose|
            asked: Seq<&mut I>,
            handed: Seq<&mut P>,
            inspectors: Seq<I>,
            publishers: Seq<P>,
        |
            #![trigger
                reports_fit(config, old(errors)@, errors_between, reports_before, asked, handed),
                lined_up(inspectors, publishers, reports_before.len()),
            ]
            {
                &&& reports_fit(
                    config,
                    old(errors)@,
                    errors_between,
                    reports_before,
                    asked,
                    handed,
                )
                &&& lined_up(inspectors, publishers, reports_before.len())
                &&& asked.len() == count - 1
                &&& handed.len() == count - 1
                &&& inspectors[0] == old(ctx).spec_inspector()
                &&& publishers[0] == old(ctx).spec_publisher()
                &&& inspectors.last() == inspector
                &&& publishers.last() == publisher
                &&& forall|k: int|
                    0 <= k < count - 1 ==> {
                        &&& mut_ref_current(#[trigger] asked[k]) == inspectors[k]
                        &&& mut_ref_future(asked[k]) == inspectors[k + 1]
                        &&& if reports_before[k].outcome.published() {
                            mut_ref_current(handed[k]) == publishers[k] && mut_ref_future(
                                handed[k],
                            ) == publishers[k + 1]
                        } else {
                            publishers[k + 1] == publishers[k]
                        }
                    }
            };
        let (by, to) = choose|by: &mut I, to: &mut P|
            {
                &&& #[trigger] refreshes(config, name, by, to, errors_between, errors@, outcome)
                &&& mut_ref_current(by) == inspector
                &&& mut_ref_future(by) == ctx.spec_inspector()
                &&& outcome.published() ==> mut_ref_current(to) == publisher && mut_ref_future(to)
                    == ctx.spec_publisher()
            };
        let asked = asked_before.push(by);
        let handed = handed_before.push(to);
        let inspectors = inspectors_before.push(ctx.spec_inspector());
        let publishers = publishers_before.push(ctx.spec_publisher());
        assert(reports@.drop_last() == reports_before);
        assert(asked.drop_last() == asked_before);
        assert(handed.drop_last() == handed_before);
        assert(refreshes(
            config,
            reports@.last().container,
            asked.last(),
            handed.last(),
            errors_between,
            errors@,
            reports@.last().outcome,
        ));
        assert(reports_fit(config, old(errors)@, errors@, reports@, asked, handed));
        assert(lined_up(inspectors, publishers, reports@.len()));
        assert forall|k: int| 0 <= k < count implies {
            &&& mut_ref_current(#[trigger] asked[k]) == inspectors[k]
            &&& mut_ref_future(asked[k]) == inspectors[k + 1]
            &&& if reports@[k].outcome.published() {
                mut_ref_current(handed[k]) == publishers[k] && mut_ref_future(handed[k])
                    == publishers[k + 1]
            } else {
                publishers[k + 1] == publishers[k]
            }
        } by {
            if k < count - 1 {
                assert(asked[k] == asked_before[k]);
            }
        }
    }
}

} // verus!
