//! Asset-resolution and sandboxed-export core of a desktop audio-processing
//! backend. The library holds the decision logic: restricting UI-supplied
//! paths to a sandbox root, resolving configurable directory roots, locating
//! sidecar executables across installer layouts (with a repair plan), choosing
//! the newest downloaded artifact, and driving one export request while
//! accumulating its ordered diagnostic trail. The thin shell around it
//! performs the actual filesystem and subprocess work and feeds the results
//! back in as plain values.

pub mod errors;
pub mod ident;
pub mod paths;
pub mod fsview;
pub mod text;
pub mod provision;
pub mod trail;
pub mod locate;
pub mod names;
pub mod latest;
pub mod numbers;
pub mod trace;
pub mod sys;
pub mod export;
pub mod bundle;
