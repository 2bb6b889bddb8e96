//! A task: a named working context, kept as a directory.

use crate::config::TaskConfig;
use vstd::prelude::*;

verus! {

/// Represents a task in the grill environment
#[allow(dead_code)]
pub struct Task {
    name: String,
    path: String,
    config: TaskConfig,
}

} // verus!
