//! Fifteen classic object-oriented design patterns, each shown on a small
//! scenario, together with the decisions of the menu that presents them.
//!
//! Every operation returns what it reports instead of printing it, so that
//! its behaviour is stated and proved in its contract.

pub mod adapter;
pub mod builder;
pub mod chain_of_responsibility;
pub mod command;
pub mod decorator;
pub mod facade;
pub mod factory;
pub mod memento;
pub mod menu;
pub mod observer;
pub mod proxy;
pub mod singleton;
pub mod state;
pub mod strategy;
pub mod template_method;
pub mod text;
pub mod visitor;
