use icp_registration::convergence::{ConvergenceLoop, LoopState, RegistrationRequest};
use icp_registration::error::IcpError;

fn valid_request() -> RegistrationRequest {
    RegistrationRequest {
        source_len: 10,
        target_len: 10,
        max_iterations: 10,
        interval_threshold_above_epsilon: true,
        absolute_threshold_above_epsilon: None,
    }
}

fn error_text(req: &RegistrationRequest) -> &'static str {
    ConvergenceLoop::validate(req).unwrap_err().message()
}

#[test]
fn test_icp_errors() {
    let req = RegistrationRequest { source_len: 0, ..valid_request() };
    assert_eq!(error_text(&req), "Source point cloud is empty");

    let req = RegistrationRequest { target_len: 0, ..valid_request() };
    assert_eq!(error_text(&req), "Target point cloud is empty");

    let req = RegistrationRequest { max_iterations: 0, ..valid_request() };
    assert_eq!(error_text(&req), "Must have more than one iteration");

    let req = RegistrationRequest { interval_threshold_above_epsilon: false, ..valid_request() };
    assert_eq!(
        error_text(&req),
        "MSE interval threshold too low, convergence impossible"
    );

    let req = RegistrationRequest { absolute_threshold_above_epsilon: Some(false), ..valid_request() };
    assert_eq!(
        error_text(&req),
        "Absolute MSE threshold too low, convergence impossible"
    );
}

#[test]
fn empty_source_is_reported_before_every_other_failure() {
    let req = RegistrationRequest {
        source_len: 0,
        target_len: 0,
        max_iterations: 0,
        interval_threshold_above_epsilon: false,
        absolute_threshold_above_epsilon: Some(false),
    };
    assert_eq!(ConvergenceLoop::validate(&req), Err(IcpError::EmptySourceCloud));
}

#[test]
fn empty_target_is_reported_before_configuration_failures() {
    let req = RegistrationRequest {
        source_len: 3,
        target_len: 0,
        max_iterations: 0,
        interval_threshold_above_epsilon: false,
        absolute_threshold_above_epsilon: Some(false),
    };
    assert_eq!(ConvergenceLoop::validate(&req), Err(IcpError::EmptyTargetCloud));
}

#[test]
fn zero_iteration_budget_is_rejected_with_valid_clouds() {
    let req = RegistrationRequest {
        max_iterations: 0,
        interval_threshold_above_epsilon: false,
        ..valid_request()
    };
    assert_eq!(ConvergenceLoop::validate(&req), Err(IcpError::InvalidIterationBudget));
}

#[test]
fn interval_threshold_is_checked_before_absolute_threshold() {
    let req = RegistrationRequest {
        interval_threshold_above_epsilon: false,
        absolute_threshold_above_epsilon: Some(false),
        ..valid_request()
    };
    assert_eq!(ConvergenceLoop::validate(&req), Err(IcpError::IntervalThresholdTooLow));
}

#[test]
fn absolute_threshold_too_low_is_rejected() {
    let req = RegistrationRequest { absolute_threshold_above_epsilon: Some(false), ..valid_request() };
    assert_eq!(ConvergenceLoop::validate(&req), Err(IcpError::AbsoluteThresholdTooLow));
}

#[test]
fn valid_requests_start_at_iteration_zero() {
    let expected = ConvergenceLoop { max_iterations: 10, state: LoopState::Iterating { iteration: 0 } };
    assert_eq!(ConvergenceLoop::validate(&valid_request()), Ok(expected));

    let req = RegistrationRequest {
        source_len: 1,
        target_len: 1,
        max_iterations: usize::MAX,
        interval_threshold_above_epsilon: true,
        absolute_threshold_above_epsilon: Some(true),
    };
    let expected = ConvergenceLoop { max_iterations: usize::MAX, state: LoopState::Iterating { iteration: 0 } };
    assert_eq!(ConvergenceLoop::validate(&req), Ok(expected));
}

#[test]
fn every_error_has_its_message() {
    assert_eq!(IcpError::EmptySourceCloud.message(), "Source point cloud is empty");
    assert_eq!(IcpError::EmptyTargetCloud.message(), "Target point cloud is empty");
    assert_eq!(IcpError::InvalidIterationBudget.message(), "Must have more than one iteration");
    assert_eq!(
        IcpError::IntervalThresholdTooLow.message(),
        "MSE interval threshold too low, convergence impossible"
    );
    assert_eq!(
        IcpError::AbsoluteThresholdTooLow.message(),
        "Absolute MSE threshold too low, convergence impossible"
    );
    assert_eq!(IcpError::DidNotConverge.message(), "Could not converge");
}
