//! Safe handles over the reference-counted, vtable-dispatched objects of the
//! AMD Device Library eXtra (ADLX).
//!
//! The foreign library hands out objects that it counts references to and
//! that are called through function tables. This crate wraps each such
//! object in a handle that owns one reference, and states for every
//! operation of a handle what it does to the counts and what it returns.
//!
//! - [`result`] turns the status of a foreign call into a typed result.
//! - [`library`] is the foreign library as the handles see it: a model of
//!   its objects, and the trait [`Adlx`] through which every call goes.
//! - [`interface`] holds the handle of the base interface, with casting,
//!   cloning and dropping; [`list`] the handle of a list and a pass over it.
//! - The other modules hold one interface each, built on these.
//! - [`helper`] loads and starts the library and shuts it down.
//! - [`fake`] is an implementation of [`Adlx`] that runs in this process.
//!
//! A handle cannot reach the foreign library by itself. Every operation
//! takes the library as an argument, and a handle gives its reference up
//! when it is handed to `drop`, not when it goes out of scope.

#![allow(non_camel_case_types)]
#![allow(non_snake_case)]

pub mod call;
pub mod display;
pub mod display_free_sync;
pub mod display_list;
pub mod display_services;
pub mod fake;
pub mod ffi;
pub mod gpu;
pub mod gpu_list;
pub mod gpu_metrics;
pub mod helper;
pub mod identities;
pub mod interface;
pub mod library;
pub mod list;
pub mod performance_monitoring_services;
pub mod result;
pub mod system;
pub mod three_d_chill;
pub mod three_d_frame_rate_target_control;
pub mod three_d_settings_services;
pub mod three_d_wait_for_vertical_refresh;
pub mod wide;

pub use display::Display;
pub use display_free_sync::DisplayFreeSync;
pub use display_list::{DisplayIterator, DisplayList};
pub use display_services::{DisplayServices, DisplaysServices};
pub use gpu::{Gpu, Gpu1};
pub use gpu_list::{GpuIterator, GpuList};
pub use gpu_metrics::{GpuMetrics, GpuMetricsList, GpuMetricsSupport};
pub use helper::{AdlxFunctions, AdlxHelper};
pub use interface::{Interface, InterfaceImpl};
pub use library::Adlx;
pub use list::List;
pub use performance_monitoring_services::PerformanceMonitoringServices;
pub use result::Error;
pub use system::{System, System1};
pub use three_d_chill::{Chill, ThreeDChill};
pub use three_d_frame_rate_target_control::{FrameRateTargetControl, ThreeDFrameRateTargetControl};
pub use three_d_settings_services::ThreeDSettingsServices;
pub use three_d_wait_for_vertical_refresh::ThreeDWaitForVerticalRefresh;
