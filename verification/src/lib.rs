//! Typed, host-independent core of a DOM binding: event names, listener
//! options, subscription guards, node classification and request settings.
pub mod element;
pub mod event;
pub mod node;
pub mod fetch;
