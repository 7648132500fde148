//! Who follows topics.

use crate::topic::TopicTree;
use vstd::prelude::*;

verus! {

/// Follows topics, and stops following them.
pub trait Subscriber {
    type E;

    /// What a request is awaited through.
    type Pending: std::future::Future<Output = Result<(), Self::E>> + Send;

    fn subscribe(&self, topic: &TopicTree) -> Self::Pending;

    fn un_subscribe(&self, topic: &TopicTree) -> Self::Pending;
}

} // verus!
