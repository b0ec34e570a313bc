//! The accessibility collaborator: node emission through `accesskit`.
//!
//! The traversal hands each visible leaf an accessibility node; the node id
//! is derived from the leaf's `ViewId`.

use vstd::prelude::*;

verus! {

use crate::viewid::ViewId;

#[verifier::external_type_specification]
pub struct ExNodeId(accesskit::NodeId);

#[verifier::external_type_specification]
#[verifier::external_body]
pub struct ExNode(accesskit::Node);

/// Relies on accesskit::Node::new: a fresh node carrying the label role
/// and nothing else.
#[verifier::external_body]
pub(crate) fn label_node() -> accesskit::Node {
    accesskit::Node::new(accesskit::Role::Label)
}

impl ViewId {
    /// The accessibility node id that stands for this view.
    pub fn access_id(&self) -> (r: accesskit::NodeId)
        ensures
            r.0 == self.id,
    {
        accesskit::NodeId(self.id)
    }
}

} // verus!
