pub mod clean;
pub mod dependency;
pub mod error;
pub mod hash_value;
pub mod identifiable;
pub mod input_node;
pub mod is_dirty;
pub mod laws;
pub mod named;
pub mod node_hash;
pub mod node_state;
pub mod resolve;
pub mod resolve_state;
pub mod update_input;
pub mod visitor;

pub use clean::Clean;
pub use dependency::{DepRef, Dependency, DependencyState};
pub use error::{ResolveError, ResolveResult};
pub use hash_value::HashValue;
pub use identifiable::{Identifiable, NodeIds};
pub use input_node::InputNode;
pub use is_dirty::IsDirty;
pub use named::Named;
pub use node_hash::NodeHash;
pub use node_state::NodeState;
pub use resolve::Resolve;
pub use resolve_state::{GuardEvent, ResolveState};
pub use update_input::UpdateInput;
pub use visitor::{HashSetVisitor, Visitor};
