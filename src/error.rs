use vstd::prelude::*;

verus! {

/// Every way a registration can fail. All of them are terminal.
#[derive(Debug, Clone, Copy, PartialEq, Eq, Structural)]
pub enum IcpError {
    EmptySourceCloud,
    EmptyTargetCloud,
    InvalidIterationBudget,
    IntervalThresholdTooLow,
    AbsoluteThresholdTooLow,
    DidNotConverge,
}

/// The human-readable text of each failure.
pub open spec fn message_of(e: IcpError) -> Seq<char> {
    match e {
        IcpError::EmptySourceCloud => "Source point cloud is empty"@,
        IcpError::EmptyTargetCloud => "Target point cloud is empty"@,
        IcpError::InvalidIterationBudget => "Must have more than one iteration"@,
        IcpError::IntervalThresholdTooLow => "MSE interval threshold too low, convergence impossible"@,
        IcpError::AbsoluteThresholdTooLow => "Absolute MSE threshold too low, convergence impossible"@,
        IcpError::DidNotConverge => "Could not converge"@,
    }
}

impl IcpError {
    /// Describes the failure in words.
    pub fn message(&self) -> (r: &'static str)
        ensures
            r@ == message_of(*self),
    {
        match self {
            IcpError::EmptySourceCloud => "Source point cloud is empty",
            IcpError::EmptyTargetCloud => "Target point cloud is empty",
            IcpError::InvalidIterationBudget => "Must have more than one iteration",
            IcpError::IntervalThresholdTooLow => "MSE interval threshold too low, convergence impossible",
            IcpError::AbsoluteThresholdTooLow => "Absolute MSE threshold too low, convergence impossible",
            IcpError::DidNotConverge => "Could not converge",
        }
    }
}

} // verus!
