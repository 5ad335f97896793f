//! Task-execution engine for a code-judging backend.
//!
//! A submission (source code plus ordered test cases) is compiled and run
//! under a wall-clock timeout; every raw process outcome is classified into
//! a typed verdict, and the per-task lifecycle (insert a pending record,
//! compile, run each test case in order, write the completed record, clean
//! up the artifacts) is modelled as a verified state machine whose driver
//! performs the actual I/O.

pub mod broker;
pub mod classifier;
pub mod domain;
pub mod engine;
pub mod runner;
pub mod testrun;
pub mod text;
pub mod verdict;
