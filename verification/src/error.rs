use vstd::prelude::*;
use vstd::string::StringExecFns;

verus! {

/// Everything that can go wrong in the engine. Each variant carries a
/// human-readable detail.
#[derive(Debug)]
pub enum FerroFlowError {
    /// The GPU device, its kernel library or one of its pipelines failed.
    MetalError(String),
    /// The host backend failed.
    CPUError(String),
    /// Data and shape, or the shapes of two operands, do not fit together.
    ShapeMismatch(String),
    /// The operation cannot be represented for the given operands.
    InvalidOperation(String),
    /// No execution context could be set up.
    InitError(String),
    /// A backend was handed buffers whose sizes do not match the request.
    BufferError(String),
}

/// The outcome of an engine operation.
pub type Result<T> = core::result::Result<T, FerroFlowError>;

impl FerroFlowError {
    /// The detail carried by the error, whatever its variant.
    pub open spec fn detail(self) -> Seq<char> {
        match self {
            FerroFlowError::MetalError(m) => m@,
            FerroFlowError::CPUError(m) => m@,
            FerroFlowError::ShapeMismatch(m) => m@,
            FerroFlowError::InvalidOperation(m) => m@,
            FerroFlowError::InitError(m) => m@,
            FerroFlowError::BufferError(m) => m@,
        }
    }

    /// The fixed heading under which a variant is reported.
    pub open spec fn heading(self) -> Seq<char> {
        match self {
            FerroFlowError::MetalError(_) => "Metal device error: "@,
            FerroFlowError::CPUError(_) => "CPU backend error: "@,
            FerroFlowError::ShapeMismatch(_) => "Shape mismatch: "@,
            FerroFlowError::InvalidOperation(_) => "Invalid operation: "@,
            FerroFlowError::InitError(_) => "Initialization error: "@,
            FerroFlowError::BufferError(_) => "Buffer error: "@,
        }
    }

    /// The detail carried by the error.
    pub fn message(&self) -> (r: &str)
        ensures
            r@ == self.detail(),
    {
        match self {
            FerroFlowError::MetalError(m) => m.as_str(),
            FerroFlowError::CPUError(m) => m.as_str(),
            FerroFlowError::ShapeMismatch(m) => m.as_str(),
            FerroFlowError::InvalidOperation(m) => m.as_str(),
            FerroFlowError::InitError(m) => m.as_str(),
            FerroFlowError::BufferError(m) => m.as_str(),
        }
    }

    /// The full report: the variant's heading followed by the detail.
    pub fn describe(&self) -> (r: String)
        ensures
            r@ == self.heading() + self.detail(),
    {
        let head = match self {
            FerroFlowError::MetalError(_) => "Metal device error: ",
            FerroFlowError::CPUError(_) => "CPU backend error: ",
            FerroFlowError::ShapeMismatch(_) => "Shape mismatch: ",
            FerroFlowError::InvalidOperation(_) => "Invalid operation: ",
            FerroFlowError::InitError(_) => "Initialization error: ",
            FerroFlowError::BufferError(_) => "Buffer error: ",
        };
        let mut out = String::from_str(head);
        out.append(self.message());
        out
    }
}

} // verus!
