use vstd::prelude::*;

verus! {

/// The single persisted record: the counter value, the identity that
/// initialized the instance, and how many resets have succeeded.
pub struct State {
    pub count: i32,
    pub owner: String,
    pub reset_count: i32,
}

/// Mathematical model of a [`State`]: the owner identity as a character
/// sequence, the two counters as machine integers.
pub struct StateView {
    pub count: i32,
    pub owner: Seq<char>,
    pub reset_count: i32,
}

impl View for State {
    type V = StateView;

    open spec fn view(&self) -> StateView {
        StateView { count: self.count, owner: self.owner@, reset_count: self.reset_count }
    }
}

impl Clone for State {
    fn clone(&self) -> (r: Self)
        ensures
            r@ == self@,
    {
        State { count: self.count, owner: self.owner.clone(), reset_count: self.reset_count }
    }
}

/// The storage collaborator: a store addressing exactly one record, with the
/// load/save contract the host's key-value storage provides under the fixed
/// key of the counter record. `load` on a store nothing was saved to yields
/// `None`; a `save` is complete once it returns.
pub struct Storage {
    record: Option<State>,
}

impl View for Storage {
    type V = Option<StateView>;

    closed spec fn view(&self) -> Option<StateView> {
        match self.record {
            Some(s) => Some(s@),
            None => None,
        }
    }
}

impl Storage {
    /// A store holding no record yet: the uninitialized instance.
    pub fn new() -> (s: Storage)
        ensures
            s@ is None,
    {
        Storage { record: None }
    }

    /// Read the record, if one has been saved.
    pub fn load(&self) -> (r: Option<State>)
        ensures
            match r {
                Some(s) => self@ == Some(s@),
                None => self@ is None,
            },
    {
        match &self.record {
            Some(s) => Some(s.clone()),
            None => None,
        }
    }

    /// Persist `state` as the sole record, overwriting any prior value.
    pub fn save(&mut self, state: State)
        ensures
            final(self)@ == Some(state@),
    {
        self.record = Some(state);
    }
}

} // verus!
