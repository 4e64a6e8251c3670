use vstd::prelude::*;

use crate::backend::Backend;
use crate::error::Error;

verus! {

/// The per-thread flag that says whether a checked drawing session is open.
///
/// The flag starts cleared. Opening a checked session sets it; closing that
/// session clears it.
pub struct SessionLock {
    active: bool,
}

impl SessionLock {
    /// Whether a checked session holds the lock.
    pub closed spec fn held(&self) -> bool {
        self.active
    }

    /// A cleared flag.
    pub fn new() -> (r: Self)
        ensures
            !r.held(),
    {
        SessionLock { active: false }
    }

    /// Whether a checked session holds the lock.
    pub fn is_held(&self) -> (r: bool)
        ensures
            r == self.held(),
    {
        self.active
    }

    /// Sets the flag, failing with [`Error::Concurrency`] and changing nothing
    /// when it is already set.
    pub fn try_acquire(&mut self) -> (r: Result<(), Error>)
        ensures
            old(self).held() ==> r == Err::<(), Error>(Error::Concurrency) && final(self).held(),
            !old(self).held() ==> r is Ok && final(self).held(),
    {
        if self.active {
            Err(Error::Concurrency)
        } else {
            self.active = true;
            Ok(())
        }
    }

    /// Clears the flag.
    pub fn release(&mut self)
        ensures
            !final(self).held(),
    {
        self.active = false;
    }
}

/// Whether sessions of backend `b` draw through a native context that must be
/// current on the calling thread.
pub open spec fn context_bound(b: Backend) -> bool {
    b == Backend::DesktopGl
}

/// The abstract state of a drawing session.
pub struct SessionView {
    /// The backend of the session, which tags every resource it makes.
    pub backend: Backend,
    /// Whether the session holds the thread's [`SessionLock`].
    pub checked: bool,
    /// Whether each operation first checks that the native context is current.
    pub check_current: bool,
    /// The number of saved frames above the base frame.
    pub depth: nat,
    /// Whether `finish` has run.
    pub finished: bool,
    /// The first error recorded and not yet reported by `status`.
    pub pending: Option<Error>,
}

/// The session that a successful open yields.
pub open spec fn opened(backend: Backend, checked: bool) -> SessionView {
    SessionView {
        backend,
        checked,
        check_current: checked && context_bound(backend),
        depth: 0,
        finished: false,
        pending: None,
    }
}

/// What opening a session yields, given whether the lock was held.
pub open spec fn open_outcome(
    held: bool,
    display: Backend,
    surface: Backend,
    width: u32,
    height: u32,
    checked: bool,
) -> Result<SessionView, Error> {
    if checked && held {
        Err(Error::Concurrency)
    } else if display != surface || width == 0 || height == 0 {
        Err(Error::InvalidInput)
    } else {
        Ok(opened(display, checked))
    }
}

/// Whether the lock is held after opening a session.
pub open spec fn held_after_open(
    held: bool,
    display: Backend,
    surface: Backend,
    width: u32,
    height: u32,
    checked: bool,
) -> bool {
    held || (checked && open_outcome(held, display, surface, width, height, checked) is Ok)
}

/// Whether `finish` consumes the renderer of backend `b`, so that a session
/// of it cannot go on afterwards. Only the software rasterizer hands its
/// buffer over to be presented; the others keep their renderer.
pub open spec fn ends_at_finish(b: Backend) -> bool {
    b == Backend::SwRast
}

/// Whether the renderer of session `s` is still there to be called.
pub open spec fn renderer_live(s: SessionView) -> bool {
    !(s.finished && ends_at_finish(s.backend))
}

/// Why an operation on session `s` is refused, if it is: the renderer is
/// gone, or the session checks that its native context is current and it is
/// not.
pub open spec fn refusal(s: SessionView, is_current: bool) -> Option<Error> {
    if !renderer_live(s) {
        Some(Error::Finished)
    } else if s.check_current && !is_current {
        Some(Error::ContextNotCurrent)
    } else {
        None
    }
}

/// `s` with `e` recorded, unless an earlier error is still pending.
pub open spec fn recorded(s: SessionView, e: Error) -> SessionView {
    if s.pending is Some {
        s
    } else {
        SessionView { pending: Some(e), ..s }
    }
}

/// The session after a successful `save`.
pub open spec fn saved(s: SessionView) -> SessionView {
    SessionView { depth: s.depth + 1, ..s }
}

/// The session after a successful `restore`.
pub open spec fn restored(s: SessionView) -> SessionView {
    SessionView { depth: (s.depth - 1) as nat, ..s }
}

/// The core of one drawing session: the state that every backend shares.
pub struct Session {
    backend: Backend,
    checked: bool,
    check_current: bool,
    depth: usize,
    finished: bool,
    pending: Option<Error>,
}

impl Session {
    pub closed spec fn view(&self) -> SessionView {
        SessionView {
            backend: self.backend,
            checked: self.checked,
            check_current: self.check_current,
            depth: self.depth as nat,
            finished: self.finished,
            pending: self.pending,
        }
    }

    /// Opens a session of the backend of `display` on `surface`, sized
    /// `width` by `height`.
    ///
    /// A checked session fails with [`Error::Concurrency`] while the lock is
    /// held, and leaves the lock as it was; otherwise it takes the lock. A
    /// display and a surface of different backends, or a zero size, fail with
    /// [`Error::InvalidInput`] and leave the lock as it was.
    pub fn open(
        lock: &mut SessionLock,
        display: Backend,
        surface: Backend,
        width: u32,
        height: u32,
        checked: bool,
    ) -> (r: Result<Session, Error>)
        ensures
            match r {
                Ok(s) => open_outcome(old(lock).held(), display, surface, width, height, checked)
                    == Ok::<SessionView, Error>(s.view()),
                Err(e) => open_outcome(old(lock).held(), display, surface, width, height, checked)
                    == Err::<SessionView, Error>(e),
            },
            final(lock).held() == held_after_open(
                old(lock).held(),
                display,
                surface,
                width,
                height,
                checked,
            ),
    {
        if checked && lock.is_held() {
            return Err(Error::Concurrency);
        }
        if display != surface || width == 0 || height == 0 {
            return Err(Error::InvalidInput);
        }
        if checked {
            let _ = lock.try_acquire();
        }
        Ok(
            Session {
                backend: display,
                checked,
                check_current: checked && display == Backend::DesktopGl,
                depth: 0,
                finished: false,
                pending: None,
            },
        )
    }

    /// Closes the session, clearing the lock if the session held it.
    pub fn close(self, lock: &mut SessionLock)
        ensures
            final(lock).held() == (old(lock).held() && !self.view().checked),
    {
        if self.checked {
            lock.release();
        }
    }

    /// The backend of the session; resources that it makes carry this tag.
    pub fn backend(&self) -> (r: Backend)
        ensures
            r == self.view().backend,
    {
        self.backend
    }

    /// Whether a resource tagged `tag` may be used in this session: only one
    /// made by a session of the same backend.
    pub fn accepts(&self, tag: Backend) -> (r: bool)
        ensures
            r == (tag == self.view().backend),
    {
        tag == self.backend
    }

    /// The number of saved frames above the base frame.
    pub fn depth(&self) -> (r: usize)
        ensures
            r == self.view().depth,
    {
        self.depth
    }

    /// Whether `finish` has run.
    pub fn is_finished(&self) -> (r: bool)
        ensures
            r == self.view().finished,
    {
        self.finished
    }

    /// Why an operation is refused now, given whether the native context is
    /// current on this thread.
    pub fn check(&self, is_current: bool) -> (r: Result<(), Error>)
        ensures
            match refusal(self.view(), is_current) {
                Some(e) => r == Err::<(), Error>(e),
                None => r is Ok,
            },
    {
        if self.finished && self.backend == Backend::SwRast {
            Err(Error::Finished)
        } else if self.check_current && !is_current {
            Err(Error::ContextNotCurrent)
        } else {
            Ok(())
        }
    }

    /// Records `e` to be reported by the next `status`, unless an earlier
    /// error is still pending.
    pub fn record(&mut self, e: Error)
        ensures
            final(self).view() == recorded(old(self).view(), e),
    {
        if self.pending.is_none() {
            self.pending = Some(e);
        }
    }

    /// Decides whether a drawing call goes ahead. A refused call is a no-op
    /// whose reason is recorded for `status`.
    pub fn begin_draw(&mut self, is_current: bool) -> (proceed: bool)
        ensures
            proceed == (refusal(old(self).view(), is_current) is None),
            final(self).view() == match refusal(old(self).view(), is_current) {
                Some(e) => recorded(old(self).view(), e),
                None => old(self).view(),
            },
    {
        match self.check(is_current) {
            Ok(()) => true,
            Err(e) => {
                self.record(e);
                false
            },
        }
    }

    /// Reports the pending error, if any, and clears it.
    pub fn status(&mut self) -> (r: Result<(), Error>)
        ensures
            match old(self).view().pending {
                Some(e) => r == Err::<(), Error>(e),
                None => r is Ok,
            },
            final(self).view() == (SessionView { pending: None, ..old(self).view() }),
    {
        match self.pending.take() {
            Some(e) => Err(e),
            None => Ok(()),
        }
    }

    /// Whether the renderer of the session is still there to be called: it
    /// is, unless `finish` consumed it.
    pub fn renderer_live(&self) -> (r: bool)
        ensures
            r == renderer_live(self.view()),
    {
        !(self.finished && self.backend == Backend::SwRast)
    }

    /// Pushes a copy of the top frame. This always succeeds.
    pub fn save(&mut self)
        requires
            old(self).view().depth < usize::MAX,
        ensures
            final(self).view() == saved(old(self).view()),
    {
        self.depth = self.depth + 1;
    }

    /// Pops the top frame. With only the base frame on the stack it fails
    /// with [`Error::StackUnbalance`] and changes nothing.
    pub fn restore(&mut self, is_current: bool) -> (r: Result<(), Error>)
        ensures
            match refusal(old(self).view(), is_current) {
                Some(e) => r == Err::<(), Error>(e) && final(self).view() == old(self).view(),
                None => if old(self).view().depth == 0 {
                    r == Err::<(), Error>(Error::StackUnbalance) && final(self).view() == old(
                        self,
                    ).view()
                } else {
                    r is Ok && final(self).view() == restored(old(self).view())
                },
            },
    {
        self.check(is_current)?;
        if self.depth == 0 {
            return Err(Error::StackUnbalance);
        }
        self.depth = self.depth - 1;
        Ok(())
    }

    /// Ends the drawing of the session. On a backend whose renderer `finish`
    /// consumes, every later operation is refused.
    pub fn finish(&mut self, is_current: bool) -> (r: Result<(), Error>)
        ensures
            match refusal(old(self).view(), is_current) {
                Some(e) => r == Err::<(), Error>(e) && final(self).view() == old(self).view(),
                None => r is Ok && final(self).view() == (SessionView {
                    finished: true,
                    ..old(self).view()
                }),
            },
    {
        self.check(is_current)?;
        self.finished = true;
        Ok(())
    }
}

/// The combined report of two error sources: the first error of `first`,
/// else that of `second`.
pub fn first_error<E>(first: Result<(), E>, second: Result<(), E>) -> (r: Result<(), E>)
    ensures
        r == match first {
            Err(e) => Err::<(), E>(e),
            Ok(()) => second,
        },
{
    match first {
        Err(e) => Err(e),
        Ok(()) => second,
    }
}

/// While a checked session is open on a thread, opening a second checked
/// session there fails with [`Error::Concurrency`], whatever its display,
/// surface and size, and leaves the lock as it was.
pub proof fn lemma_second_session_refused(
    held: bool,
    display: Backend,
    surface: Backend,
    width: u32,
    height: u32,
    display2: Backend,
    surface2: Backend,
    width2: u32,
    height2: u32,
)
    requires
        open_outcome(held, display, surface, width, height, true) is Ok,
    ensures
        ({
            let now = held_after_open(held, display, surface, width, height, true);
            &&& now
            &&& open_outcome(now, display2, surface2, width2, height2, true) == Err::<
                SessionView,
                Error,
            >(Error::Concurrency)
            &&& held_after_open(now, display2, surface2, width2, height2, true) == now
        }),
{
}

/// `s` after `n` successful saves.
pub open spec fn saved_times(s: SessionView, n: nat) -> SessionView
    decreases n,
{
    if n == 0 {
        s
    } else {
        saved(saved_times(s, (n - 1) as nat))
    }
}

/// `s` after `n` successful restores.
pub open spec fn restored_times(s: SessionView, n: nat) -> SessionView
    decreases n,
{
    if n == 0 {
        s
    } else {
        restored_times(restored(s), (n - 1) as nat)
    }
}

/// Any number of saves followed by as many restores bring a session back to
/// the state it had before them; none of those restores finds only the base
/// frame, and each is refused exactly when an operation on the session was
/// refused before the saves.
pub proof fn lemma_save_restore_round_trip(s: SessionView, n: nat, is_current: bool)
    ensures
        restored_times(saved_times(s, n), n) == s,
        forall|k: nat|
            k < n ==> #[trigger] restored_times(saved_times(s, n), k).depth > 0
                && refusal(restored_times(saved_times(s, n), k), is_current) == refusal(s, is_current),
    decreases n,
{
    if n > 0 {
        let m = (n - 1) as nat;
        lemma_save_restore_round_trip(s, m, is_current);
        assert(restored(saved(saved_times(s, m))) == saved_times(s, m));
        assert forall|k: nat| k < n implies #[trigger] restored_times(saved_times(s, n), k).depth > 0
            && refusal(restored_times(saved_times(s, n), k), is_current) == refusal(s, is_current) by {
            lemma_saved_times_depth(s, n);
            lemma_restored_times_depth(saved_times(s, n), k);
        }
    }
}

proof fn lemma_saved_times_depth(s: SessionView, n: nat)
    ensures
        saved_times(s, n) == (SessionView { depth: s.depth + n, ..s }),
    decreases n,
{
    if n > 0 {
        lemma_saved_times_depth(s, (n - 1) as nat);
    }
}

proof fn lemma_restored_times_depth(s: SessionView, k: nat)
    requires
        k <= s.depth,
    ensures
        restored_times(s, k) == (SessionView { depth: (s.depth - k) as nat, ..s }),
    decreases k,
{
    if k > 0 {
        lemma_restored_times_depth(restored(s), (k - 1) as nat);
    }
}

} // verus!
