//! The state behind the views of the interface. Drawing is left to the
//! caller; what a view holds and how it reacts is here.

pub mod messages_view;
pub mod publish_view;

pub use messages_view::MessagesView;
pub use publish_view::PublishView;
