//! Events that the windows send to the application.

use vstd::prelude::*;

verus! {

#[derive(Debug, PartialEq, Clone)]
pub enum ApplicationEvent {
    PasswordEntered(String),
    AddKnownDevice(String),
    PairWithDevice(String),
    UnpairWithDevice(String),
    AllowSecretAccess(String),
}

} // verus!
