use stasis::network::{
    network_evidence_protocol_error, network_time_protocol_error, EvidenceLedgerError,
};
use stasis::profile::{
    controlled_network_blocks_document_replacement, controlled_network_blocks_virtual_advance,
    SessionProfile,
};

#[test]
fn active_controlled_network_freezes_v2_virtual_advance() {
    assert!(controlled_network_blocks_virtual_advance(
        Some(SessionProfile::ControlledWebSessionV1),
        1,
    ));
    assert!(!controlled_network_blocks_virtual_advance(
        Some(SessionProfile::ControlledWebSessionV1),
        0,
    ));
    assert!(!controlled_network_blocks_virtual_advance(
        Some(SessionProfile::ControlledWebappV1),
        1,
    ));
}

#[test]
fn active_controlled_network_latches_v2_document_replacement_only() {
    assert!(controlled_network_blocks_document_replacement(
        Some(SessionProfile::ControlledWebSessionV2),
        1,
    ));
    assert!(!controlled_network_blocks_document_replacement(
        Some(SessionProfile::ControlledWebSessionV2),
        0,
    ));
    assert!(!controlled_network_blocks_document_replacement(
        Some(SessionProfile::ControlledWebSessionV1),
        1,
    ));
    assert!(!controlled_network_blocks_document_replacement(
        Some(SessionProfile::ControlledWebappV1),
        1,
    ));
}

#[test]
fn a_page_limit_is_refused_with_its_bounds_and_a_broken_ledger_is_fatal() {
    let error = network_evidence_protocol_error(&EvidenceLedgerError::InvalidPageLimit {
        observed: 300,
        limit: 256,
    });
    assert_eq!(error.code, "invalid_request");
    assert_eq!(error.message, "invalid session audit page limit");
    assert!(!error.fatal);
    let details = error.details.unwrap();
    assert_eq!(details["observed"], 300);
    assert_eq!(details["limit"], 256);

    let inexact = network_evidence_protocol_error(&EvidenceLedgerError::InvalidPageLimit {
        observed: 9_007_199_254_740_992,
        limit: 256,
    });
    assert_eq!(inexact.code, "internal_runtime_failure");
    assert_eq!(
        inexact.message,
        "failed to construct bounded protocol error details: protocol error details contain an \
         integer that TypeScript cannot decode exactly"
    );
    assert!(inexact.fatal);
    assert!(inexact.details.is_none());

    let error = network_evidence_protocol_error(&EvidenceLedgerError::Other {
        diagnostic: "Poisoned".to_owned(),
    });
    assert_eq!(error.code, "internal_runtime_failure");
    assert_eq!(
        error.message,
        "controlled-network evidence ledger failed: Poisoned"
    );
    assert!(error.fatal);
    assert_eq!(error.state_effect, "none");
}

#[test]
fn a_regressed_network_time_leaves_the_outcome_unknown() {
    let error = network_time_protocol_error("Regressed");
    assert_eq!(error.code, "internal_runtime_failure");
    assert_eq!(
        error.message,
        "controlled-network virtual time regressed: Regressed"
    );
    assert!(error.fatal);
    assert_eq!(error.state_effect, "indeterminate");
}
