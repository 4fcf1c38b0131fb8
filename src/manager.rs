use crate::bus::Message;
use vstd::prelude::*;

verus! {

/// What the system that owns the allocator does next.
pub enum ManagerAction {
    /// The deallocation channel is closed: ask everyone to stop, and leave.
    StopAll,
    /// Load the asset file at this path and upload its resources.
    LoadAsset(String),
    /// Create the per-window resources and post them.
    PrepareWindowResources,
    /// Nothing for this system.
    Idle,
}

/// One turn of the allocator-owning system, given whether the deallocation
/// channel has closed and the message its box delivered (if any). A closed
/// channel wins over any message.
pub fn manager_step<W, M, S>(deallocations_closed: bool, message: Option<Message<W, M, S>>) -> (r: ManagerAction)
    ensures
        deallocations_closed ==> r is StopAll,
        !deallocations_closed ==> (message matches Some(Message::RequestAsset(p)) ==> (r matches ManagerAction::LoadAsset(q) && q@ == p@)),
        !deallocations_closed && (message matches Some(Message::RequestWindowResources)) ==> r is PrepareWindowResources,
        !deallocations_closed && !(message matches Some(Message::RequestAsset(_))) && !(message matches Some(Message::RequestWindowResources)) ==> r is Idle,
{
    if deallocations_closed {
        return ManagerAction::StopAll;
    }
    match message {
        Some(Message::RequestAsset(path)) => ManagerAction::LoadAsset(path),
        Some(Message::RequestWindowResources) => ManagerAction::PrepareWindowResources,
        _ => ManagerAction::Idle,
    }
}

} // verus!
