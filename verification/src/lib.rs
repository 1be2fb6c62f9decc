//! Native-platform application-delegate bridge, modelled and verified.
//!
//! The host application framework owns the process's single application
//! object and drives it through lifecycle notifications and service
//! requests.  This crate holds the verified core of that bridge: the
//! auxiliary configuration record attached to each delegate instance, the
//! instance's allocation/deallocation discipline, the reentrancy-guarded
//! accessor for the record, the single-slot service-event registry, the
//! init-once delegate class descriptor, and the dispatch rules that turn
//! each host notification into a call on the engine's lifecycle state
//! machine or on an externally supplied handler.

pub mod aux_state;
pub mod delegate_class;
pub mod event_manager;
pub mod instance;
pub mod lifecycle;
