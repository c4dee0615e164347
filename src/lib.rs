pub mod audit;
pub mod cli;
pub mod diagnostics;
pub mod remote;
pub mod scan;
pub mod text;
