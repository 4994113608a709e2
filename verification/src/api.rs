//! The Roblox instance classes and services the simulated API knows.

use vstd::prelude::*;

verus! {

/// Represents a Roblox instance class name
#[derive(Debug, Clone, Copy, PartialEq, Eq, Structural, Hash)]
pub enum InstanceClass {
    DataModel,
    Part,
    Model,
    Folder,
    Script,
    LocalScript,
    ModuleScript,
    Workspace,
    Players,
    ReplicatedStorage,
    ServerStorage,
    StarterGui,
}

/// Base trait for all Roblox services
pub trait Service {
    /// The name of the service.
    spec fn name_of_service() -> Seq<char>;

    /// Get the name of this service
    fn service_name() -> (r: String)
        ensures
            r@ == Self::name_of_service(),
    ;
}

/// The Workspace service
pub struct Workspace;

impl Service for Workspace {
    open spec fn name_of_service() -> Seq<char> {
        "Workspace"@
    }

    fn service_name() -> (r: String) {
        String::from_str("Workspace")
    }
}

/// The Players service
pub struct Players;

impl Service for Players {
    open spec fn name_of_service() -> Seq<char> {
        "Players"@
    }

    fn service_name() -> (r: String) {
        String::from_str("Players")
    }
}

/// The ReplicatedStorage service
pub struct ReplicatedStorage;

impl Service for ReplicatedStorage {
    open spec fn name_of_service() -> Seq<char> {
        "ReplicatedStorage"@
    }

    fn service_name() -> (r: String) {
        String::from_str("ReplicatedStorage")
    }
}

/// The ServerStorage service
pub struct ServerStorage;

impl Service for ServerStorage {
    open spec fn name_of_service() -> Seq<char> {
        "ServerStorage"@
    }

    fn service_name() -> (r: String) {
        String::from_str("ServerStorage")
    }
}

/// The StarterGui service
pub struct StarterGui;

impl Service for StarterGui {
    open spec fn name_of_service() -> Seq<char> {
        "StarterGui"@
    }

    fn service_name() -> (r: String) {
        String::from_str("StarterGui")
    }
}

} // verus!
