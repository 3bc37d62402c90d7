//! Screens: the pipeline list, the pipeline detail view and the workflow view.

pub mod line_range;
pub mod pipelines;
pub mod pipeline_detail;
pub mod workflow;
