use sentinel::consensus::CONSENSUS_WORKER_NAME;
use sentinel::finding::AnalysisJob;
use sentinel::orchestrator::{analyze, job_to_relay, next_action, Action, Delivery, Worker};
use sentinel::portability::PORTABILITY_WORKER_NAME;
use sentinel::registry::Registry;
use sentinel::staking::STAKING_WORKER_NAME;

fn job(source: &str) -> AnalysisJob {
    AnalysisJob { job_id: "o-9".to_string(), source_code: source.to_string(), context: None }
}

#[test]
fn a_job_is_answered_with_its_identifier() {
    let registry = Registry::standard();
    match next_action(Worker::ConsensusCompliance, Delivery::Job(job("a.getReserves();")), &registry) {
        Action::Publish(result) => {
            assert_eq!(result.job_id, "o-9");
            assert_eq!(result.worker_name, CONSENSUS_WORKER_NAME);
            assert_eq!(result.output.len(), 1);
        }
        other => panic!("unexpected action {:?}", other),
    }
}

#[test]
fn a_malformed_payload_is_dropped_without_a_result() {
    let registry = Registry::standard();
    assert!(matches!(next_action(Worker::StakingPrecompile, Delivery::Malformed, &registry), Action::Drop));
}

#[test]
fn a_transport_error_is_reported() {
    let registry = Registry::standard();
    assert!(matches!(
        next_action(Worker::SubnetPortability, Delivery::TransportError, &registry),
        Action::ReportTransportError
    ));
}

#[test]
fn each_worker_names_itself() {
    let registry = Registry::standard();
    assert_eq!(analyze(Worker::ConsensusCompliance, &job(""), &registry).worker_name, CONSENSUS_WORKER_NAME);
    assert_eq!(analyze(Worker::StakingPrecompile, &job(""), &registry).worker_name, STAKING_WORKER_NAME);
    assert_eq!(analyze(Worker::SubnetPortability, &job(""), &registry).worker_name, PORTABILITY_WORKER_NAME);
}

#[test]
fn an_empty_source_yields_an_empty_result() {
    let registry = Registry::standard();
    for worker in [Worker::ConsensusCompliance, Worker::StakingPrecompile, Worker::SubnetPortability] {
        assert!(analyze(worker, &job(""), &registry).output.is_empty());
    }
}

#[test]
fn the_standard_registry_holds_the_known_addresses() {
    let registry = Registry::standard();
    assert_eq!(registry.staking_precompiles.len(), 1);
    assert_eq!(registry.chain_specific.len(), 5);
    assert_eq!(registry.optional_precompiles.len(), 4);
    assert_eq!(registry.optional_precompiles[3].name, "Fee Manager");
}

#[test]
fn the_relay_worker_runs_only_parsed_jobs() {
    let relayed = job_to_relay(Delivery::Job(job("contract A {}")));
    assert_eq!(relayed.map(|j| j.job_id), Some("o-9".to_string()));
    assert!(job_to_relay(Delivery::Malformed).is_none());
    assert!(job_to_relay(Delivery::TransportError).is_none());
}
