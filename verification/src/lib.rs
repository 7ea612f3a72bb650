//! Frame-by-frame scoring of a perception system's 3D object detections.
//!
//! The crate compares, frame by frame, a list of estimated objects against
//! ground-truth objects, then aggregates label-wise precision/recall
//! statistics into Average Precision (AP) and heading-weighted AP (APH)
//! reports across four geometric matching criteria.
//!
//! All quantities are plain integers in fixed-point form, so that every
//! formula has an exact, machine-checked meaning: lengths share one length
//! unit chosen by the caller (the tests use millimetres), dimensionless
//! ratios are scaled by [`math::FIX_ONE`], and angles are measured in units
//! of pi / [`math::HALF_TURN`].

pub mod config;
pub mod dataset;
pub mod evaluation_task;
pub mod filter;
pub mod frame_id;
pub mod label;
pub mod manager;
pub mod matching;
pub mod math;
pub mod metrics;
pub mod object;
pub mod point;
pub mod result;
pub mod polygon;
pub mod text;
pub mod threshold;
