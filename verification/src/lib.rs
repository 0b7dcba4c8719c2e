pub mod engine;
pub mod report;
pub mod validator;

pub use validator::Validator;

pub use report::Classification;
pub use report::print_errors;
pub use report::print_summary;
