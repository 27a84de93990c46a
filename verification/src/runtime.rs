use crate::input::StardustAction;
use crate::input::StardustActionSet;
use crate::instance::StardustInstance;
use crate::registry::HandleRegistry;
use crate::session::StardustSession;
use vstd::prelude::*;

verus! {

/// The objects of the runtime, one table for each category. A handle means something in its
/// own category only: the same number may name an instance and a session.
pub struct Runtime {
    pub instances: HandleRegistry<StardustInstance>,
    pub sessions: HandleRegistry<StardustSession>,
    pub action_sets: HandleRegistry<StardustActionSet>,
    pub actions: HandleRegistry<StardustAction>,
}

impl Runtime {
    /// A runtime without objects.
    pub fn new() -> (rt: Runtime)
        ensures
            rt.instances@.dom() == Set::<u64>::empty(),
            rt.sessions@.dom() == Set::<u64>::empty(),
            rt.action_sets@.dom() == Set::<u64>::empty(),
            rt.actions@.dom() == Set::<u64>::empty(),
            rt.instances.issued() == 0,
            rt.sessions.issued() == 0,
            rt.action_sets.issued() == 0,
            rt.actions.issued() == 0,
    {
        Runtime {
            instances: HandleRegistry::new(),
            sessions: HandleRegistry::new(),
            action_sets: HandleRegistry::new(),
            actions: HandleRegistry::new(),
        }
    }
}

} // verus!
