use vstd::prelude::*;

verus! {

/// The display's slot for a native graphics context that is not current.
///
/// The slot holds the context while no session draws. A session borrows it
/// out to make it current, and hands it back, made not current again, when
/// it ends. While it is out the slot is empty, so no second session can take
/// it.
pub struct ContextSlot<N> {
    idle: Option<N>,
}

impl<N> ContextSlot<N> {
    /// The context that the slot holds, if it is not lent out.
    pub closed spec fn held(&self) -> Option<N> {
        self.idle
    }

    /// A slot that holds `context`.
    pub fn new(context: N) -> (r: Self)
        ensures
            r.held() == Some(context),
    {
        ContextSlot { idle: Some(context) }
    }

    /// Whether the slot holds its context.
    pub fn is_idle(&self) -> (r: bool)
        ensures
            r == self.held() is Some,
    {
        self.idle.is_some()
    }

    /// Takes the context out; `None` when it is already lent out.
    pub fn lend(&mut self) -> (r: Option<N>)
        ensures
            r == old(self).held(),
            final(self).held() is None,
    {
        self.idle.take()
    }

    /// Puts `context` back into an empty slot. A slot that already holds a
    /// context is left as it is and `context` is handed back.
    pub fn give_back(&mut self, context: N) -> (r: Result<(), N>)
        ensures
            old(self).held() is None ==> r is Ok && final(self).held() == Some(context),
            old(self).held() is Some ==> r == Err::<(), N>(context) && final(self).held() == old(
                self,
            ).held(),
    {
        if self.idle.is_some() {
            Err(context)
        } else {
            self.idle = Some(context);
            Ok(())
        }
    }
}

/// Owns the current native context for the lifetime of one session.
///
/// The context enters the scope once, made current, and leaves it once, to
/// be made not current and given back to its [`ContextSlot`].
pub struct ContextScope<C> {
    current: Option<C>,
}

impl<C> ContextScope<C> {
    /// The context that the scope owns, until it leaves.
    pub closed spec fn owned(&self) -> Option<C> {
        self.current
    }

    /// A scope that owns `context`, which the caller has made current.
    pub fn enter(context: C) -> (r: Self)
        ensures
            r.owned() == Some(context),
    {
        ContextScope { current: Some(context) }
    }

    /// Whether the scope still owns its context.
    pub fn is_live(&self) -> (r: bool)
        ensures
            r == self.owned() is Some,
    {
        self.current.is_some()
    }

    /// The context that the scope owns.
    pub fn context(&self) -> (r: &C)
        requires
            self.owned() is Some,
        ensures
            *r == self.owned()->0,
    {
        self.current.as_ref().unwrap()
    }

    /// Takes the context out of the scope; it comes out once, and `None`
    /// every time after.
    pub fn leave(&mut self) -> (r: Option<C>)
        ensures
            r == old(self).owned(),
            final(self).owned() is None,
    {
        self.current.take()
    }
}

} // verus!
