//! The decisions of a worker: which detector set it runs, and what it does
//! with each delivery from its queue. The caller performs the queue
//! operations and hands the outcome in.
use vstd::prelude::*;
use crate::consensus::{
    analyze_consensus_safety_v3, consensus_findings, lemma_consensus_findings_bounded,
    CONSENSUS_WORKER_NAME,
};
use crate::finding::{finding_views, lines_within, AnalysisJob, AnalysisResult, FindingView};
use crate::portability::{
    analyze_portability_v3, context_enabled, context_gas_limit,
    lemma_portability_findings_bounded, portability_findings, PORTABILITY_WORKER_NAME,
};
use crate::registry::{address_views, Registry};
use crate::staking::{
    analyze_staking_precompiles_v3, lemma_staking_findings_bounded, staking_findings,
    STAKING_WORKER_NAME,
};
use crate::text::lines_of;

verus! {

/// The detector sets, one per worker.
#[derive(Clone, Copy, Debug, PartialEq, Eq, Structural)]
pub enum Worker {
    ConsensusCompliance,
    StakingPrecompile,
    SubnetPortability,
}

/// What a worker's queue handed over.
#[derive(Debug)]
pub enum Delivery {
    /// A payload that parsed as a job.
    Job(AnalysisJob),
    /// A payload that did not parse as a job.
    Malformed,
    /// The queue operation itself failed.
    TransportError,
}

/// What the worker does next.
#[derive(Debug)]
pub enum Action {
    /// Publish this result, then wait for the next job.
    Publish(AnalysisResult),
    /// Drop the malformed payload without publishing anything.
    Drop,
    /// Report the queue failure, then wait for the next job.
    ReportTransportError,
}

/// The identity a worker writes into its results.
pub open spec fn worker_name(worker: Worker) -> Seq<char> {
    match worker {
        Worker::ConsensusCompliance => CONSENSUS_WORKER_NAME@,
        Worker::StakingPrecompile => STAKING_WORKER_NAME@,
        Worker::SubnetPortability => PORTABILITY_WORKER_NAME@,
    }
}

/// The findings a worker reports for a job.
pub open spec fn worker_findings(worker: Worker, job: AnalysisJob, registry: Registry) -> Seq<
    FindingView,
> {
    match worker {
        Worker::ConsensusCompliance => consensus_findings(job.source_code@),
        Worker::StakingPrecompile => staking_findings(
            job.source_code@,
            address_views(registry.staking_precompiles@),
        ),
        Worker::SubnetPortability => portability_findings(
            job.source_code@,
            address_views(registry.chain_specific@),
            address_views(registry.optional_precompiles@),
            context_gas_limit(job.context),
            context_enabled(job.context),
        ),
    }
}

/// `r` is the answer of `worker` to `job`.
pub open spec fn answers(worker: Worker, job: AnalysisJob, registry: Registry, r: AnalysisResult) -> bool {
    &&& r.job_id@ == job.job_id@
    &&& r.worker_name@ == worker_name(worker)
    &&& finding_views(r.output@) == worker_findings(worker, job, registry)
}

/// Runs the detector set of `worker` on `job`.
pub fn analyze(worker: Worker, job: &AnalysisJob, registry: &Registry) -> (r: AnalysisResult)
    ensures
        answers(worker, *job, *registry, r),
        lines_within(finding_views(r.output@), lines_of(job.source_code@).len()),
{
    match worker {
        Worker::ConsensusCompliance => analyze_consensus_safety_v3(job),
        Worker::StakingPrecompile => analyze_staking_precompiles_v3(job, registry),
        Worker::SubnetPortability => analyze_portability_v3(job, registry),
    }
}

/// Decides what `worker` does with one delivery: a job is analyzed and its
/// result published; a malformed payload is dropped with no result; a
/// queue failure is reported.
pub fn next_action(worker: Worker, delivery: Delivery, registry: &Registry) -> (r: Action)
    ensures
        match delivery {
            Delivery::Job(job) => match r {
                Action::Publish(result) => answers(worker, job, *registry, result),
                _ => false,
            },
            Delivery::Malformed => r is Drop,
            Delivery::TransportError => r is ReportTransportError,
        },
{
    match delivery {
        Delivery::Job(job) => Action::Publish(analyze(worker, &job, registry)),
        Delivery::Malformed => Action::Drop,
        Delivery::TransportError => Action::ReportTransportError,
    }
}

/// Decides what the worker that relays the external analyzer does with one
/// delivery: a job is handed to the analyzer; a malformed payload is dropped
/// and a queue failure reported, with nothing to run.
pub fn job_to_relay(delivery: Delivery) -> (r: Option<AnalysisJob>)
    ensures
        match delivery {
            Delivery::Job(job) => r == Some(job),
            _ => r is None,
        },
{
    match delivery {
        Delivery::Job(job) => Some(job),
        Delivery::Malformed | Delivery::TransportError => None,
    }
}

/// For a fixed worker, source text and context, any two results that meet
/// the contract of `analyze` report the same findings.
pub proof fn lemma_analysis_deterministic(
    worker: Worker,
    job: AnalysisJob,
    registry: Registry,
    first: AnalysisResult,
    second: AnalysisResult,
)
    requires
        answers(worker, job, registry, first),
        answers(worker, job, registry, second),
    ensures
        finding_views(first.output@) == finding_views(second.output@),
        finding_views(first.output@).to_set() == finding_views(second.output@).to_set(),
{
}

/// Every finding that a worker reports for a job names a line of the job's
/// source text, or line 0 for the whole file.
pub proof fn lemma_findings_within_source(worker: Worker, job: AnalysisJob, registry: Registry)
    ensures
        lines_within(worker_findings(worker, job, registry), lines_of(job.source_code@).len()),
{
    match worker {
        Worker::ConsensusCompliance => lemma_consensus_findings_bounded(job.source_code@),
        Worker::StakingPrecompile => lemma_staking_findings_bounded(
            job.source_code@,
            address_views(registry.staking_precompiles@),
        ),
        Worker::SubnetPortability => lemma_portability_findings_bounded(
            job.source_code@,
            address_views(registry.chain_specific@),
            address_views(registry.optional_precompiles@),
            context_gas_limit(job.context),
            context_enabled(job.context),
        ),
    }
}

} // verus!
