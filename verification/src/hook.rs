//! What every hook declares of itself, and the moments at which the store
//! calls hooks.

use vstd::prelude::*;

verus! {

/// The access that a hook asks for. The pipeline grants a hook this access
/// and no wider one.
#[derive(Clone, Copy, Debug, PartialEq, Eq, Structural)]
pub enum Capability {
    /// The identifier of the entry, nothing of its content.
    IdentifierOnly,
    /// The entry, read-only.
    ImmutableEntry,
    /// The entry, with the right to change it.
    MutableEntry,
}

/// A moment in the life of an entry at which hooks run.
#[derive(Clone, Copy, Debug, PartialEq, Eq, Structural)]
pub enum LifecyclePoint {
    PreCreate,
    PostCreate,
    PreRetrieve,
    PostRetrieve,
    PreUpdate,
    PostUpdate,
    PreDelete,
    PostDelete,
    SessionUnload,
}

/// What happened to the store, for the hooks that record it in a repository.
#[derive(Clone, Copy, Debug, PartialEq, Eq, Structural)]
pub enum StoreAction {
    Create,
    Retrieve,
    Update,
    Delete,
    StoreUnload,
}

/// The name of each action, in capitals.
pub open spec fn action_name(action: StoreAction) -> Seq<char> {
    match action {
        StoreAction::Create => "CREATE"@,
        StoreAction::Retrieve => "RETRIEVE"@,
        StoreAction::Update => "UPDATE"@,
        StoreAction::Delete => "DELETE"@,
        StoreAction::StoreUnload => "STORE UNLOAD"@,
    }
}

/// The action that belongs to a moment: the moments before and after an
/// operation belong to that operation.
pub open spec fn action_at(point: LifecyclePoint) -> StoreAction {
    match point {
        LifecyclePoint::PreCreate | LifecyclePoint::PostCreate => StoreAction::Create,
        LifecyclePoint::PreRetrieve | LifecyclePoint::PostRetrieve => StoreAction::Retrieve,
        LifecyclePoint::PreUpdate | LifecyclePoint::PostUpdate => StoreAction::Update,
        LifecyclePoint::PreDelete | LifecyclePoint::PostDelete => StoreAction::Delete,
        LifecyclePoint::SessionUnload => StoreAction::StoreUnload,
    }
}

impl StoreAction {
    /// The name of the action, in capitals.
    pub fn uppercase(&self) -> (name: &'static str)
        ensures
            name@ == action_name(*self),
    {
        match self {
            StoreAction::Create => "CREATE",
            StoreAction::Retrieve => "RETRIEVE",
            StoreAction::Update => "UPDATE",
            StoreAction::Delete => "DELETE",
            StoreAction::StoreUnload => "STORE UNLOAD",
        }
    }
}

impl LifecyclePoint {
    /// The action that this moment belongs to.
    pub fn action(&self) -> (action: StoreAction)
        ensures
            action == action_at(*self),
    {
        match self {
            LifecyclePoint::PreCreate | LifecyclePoint::PostCreate => StoreAction::Create,
            LifecyclePoint::PreRetrieve | LifecyclePoint::PostRetrieve => StoreAction::Retrieve,
            LifecyclePoint::PreUpdate | LifecyclePoint::PostUpdate => StoreAction::Update,
            LifecyclePoint::PreDelete | LifecyclePoint::PostDelete => StoreAction::Delete,
            LifecyclePoint::SessionUnload => StoreAction::StoreUnload,
        }
    }
}

/// What every hook offers to the pipeline that runs it.
pub trait Hook {
    /// The name under which the hook is registered and configured.
    fn name(&self) -> &'static str;

    /// Replaces the configuration of the hook. Never fails: a configuration
    /// that makes no sense is found out when it is read.
    fn set_config(&mut self, config: &toml::Value);

    /// The access that the hook asks for.
    fn accessor(&self) -> Capability;
}

/// The identifier of an entry: a path within the store, such as
/// `collection/unique-name`. The hooks carry it along and never take it apart.
#[derive(Debug, PartialEq, Eq)]
pub struct StoreId {
    pub path: String,
}

impl View for StoreId {
    type V = Seq<char>;

    open spec fn view(&self) -> Seq<char> {
        self.path@
    }
}

impl Clone for StoreId {
    fn clone(&self) -> (copy: StoreId)
        ensures
            copy@ == self@,
    {
        StoreId { path: self.path.clone() }
    }
}

impl StoreId {
    /// The identifier with the given path.
    pub fn new(path: String) -> (id: StoreId)
        ensures
            id@ == path@,
    {
        StoreId { path }
    }

    /// The path of the entry within the store.
    pub fn local(&self) -> (path: &str)
        ensures
            path@ == self@,
    {
        self.path.as_str()
    }
}

} // verus!
