//! Causal-clock building blocks for replicated, eventually consistent stores:
//! dots, the causal order, vector clocks, dotted version vectors, and two
//! counters built on clocks.
//!
//! Every clock is described by a view, a finite map from actors to counters,
//! and every operation by what it does to that view. The laws that make
//! replicas converge are proved in `laws`.

pub mod actor;
pub mod causal;
pub mod crdt;
pub mod dot;
pub mod dvv;
pub mod gcounter;
pub mod laws;
pub mod model;
pub mod pncounter;
pub mod text;
pub mod vclock;

pub use crate::actor::Actor;
pub use crate::causal::{CausalOrd, CausalOrdering};
pub use crate::crdt::{CmRDT, CvRDT};
pub use crate::dot::Dot;
pub use crate::dvv::Dvv;
pub use crate::gcounter::GCounter;
pub use crate::pncounter::{PnCounter, PnCounterOp};
pub use crate::vclock::{DotRange, IntoIter, VClock};
