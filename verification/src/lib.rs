//! A signal dispatch runtime: a registry that routes an (object type, action)
//! pair plus a binary payload to at most one handler, produces a fixed-layout
//! three-byte result header, notifies subscribers of the outcome, and keeps
//! monotonic dispatch metrics.

pub mod actions;
pub mod context;
pub mod dispatch;
pub mod dispatcher;
pub mod frame;
pub mod plugins;
pub mod runtime;
pub mod text;
