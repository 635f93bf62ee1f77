//! Classic design patterns, each in several styles of dispatch, with
//! what every operation does stated and proved.
//!
//! Nothing here prints: where a pattern is about writing text, the
//! operation gives the text that is to be written, and the caller writes
//! it.

pub mod adaptor;
pub mod bridge;
pub mod builder;
pub mod chain_of_responsibility;
pub mod command;
pub mod composite;
pub mod decorator;
pub mod factory_method;
pub mod flyweight;
pub mod handles;
pub mod iterator;
pub mod mediator;
pub mod observer;
pub mod proxy;
pub mod random;
pub mod singleton;
pub mod state;
pub mod strategy;
pub mod template_method;
pub mod template_method_new;
pub mod text;
pub mod visitor;
