//! A message broadcasting library based on the Plumtree/HyParView algorithms.
//!
//! The crate holds the part of a broadcast node that decides and computes:
//! identifiers, the wire format of every protocol frame, the registry of the
//! local nodes of a process, the counters, and the node engine that ties the
//! membership protocol to the broadcast tree. Sockets, timers and the two
//! protocol state machines are driven from outside; the engine tells the
//! driver what to do next and is told what happened.
//!
//! # References
//!
//! - [HyParView: a membership protocol for reliable gossip-based broadcast][HyParView]
//! - [Plumtree: Epidemic Broadcast Trees][Plumtree]
//!
//! [HyParView]: http://asc.di.fct.unl.pt/~jleitao/pdf/dsn07-leitao.pdf
//! [Plumtree]: http://www.gsd.inesc-id.pt/~ler/reports/srds07.pdf
pub use error::{Error, ErrorKind, RpcErrorKind};
pub use node_id::{LocalNodeId, NodeId, SocketAddr};

pub mod clock;
pub mod codec;
pub mod error;
pub mod hyparview_misc;
pub mod message;
pub mod metrics;
pub mod node;
pub mod node_id;
pub mod node_id_generator;
pub mod plumtree_misc;
pub mod rpc;
pub mod service;
pub mod time;
