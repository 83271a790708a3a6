use vstd::prelude::*;

verus! {

/// Which path is used to reach the selected instance.
#[derive(Debug, Clone, Copy, PartialEq, Eq, Structural)]
pub enum ConnectMode {
    /// Connect to the instance's private address.
    Private,
    /// Connect to the instance's public address.
    Public,
    /// Connect through a managed session, by instance id.
    ManagedSession,
}

/// The mode that follows `m` in the cycle private, public, managed session.
pub open spec fn toggled(m: ConnectMode) -> ConnectMode {
    match m {
        ConnectMode::Private => ConnectMode::Public,
        ConnectMode::Public => ConnectMode::ManagedSession,
        ConnectMode::ManagedSession => ConnectMode::Private,
    }
}

impl ConnectMode {
    /// Moves to the next mode of the cycle.
    pub fn toggle(&mut self)
        ensures
            *final(self) == toggled(*old(self)),
    {
        *self = match *self {
            ConnectMode::Private => ConnectMode::Public,
            ConnectMode::Public => ConnectMode::ManagedSession,
            ConnectMode::ManagedSession => ConnectMode::Private,
        };
    }
}

/// Toggling goes private, public, managed session and back to private: every
/// mode returns to itself after three toggles and to no other mode sooner, so
/// from any mode all three and only these are reached.
pub proof fn lemma_toggle_cycle(m: ConnectMode)
    ensures
        toggled(ConnectMode::Private) == ConnectMode::Public,
        toggled(ConnectMode::Public) == ConnectMode::ManagedSession,
        toggled(ConnectMode::ManagedSession) == ConnectMode::Private,
        toggled(toggled(toggled(m))) == m,
        toggled(m) != m,
        toggled(toggled(m)) != m,
{
}

} // verus!
