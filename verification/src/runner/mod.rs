/// Run a program whose inputs someone types
pub mod stdio;
/// Test a program with given inputs and expected outputs
pub mod tester;
