use vstd::prelude::*;

verus! {

/// The rendering backends that a display can be built on.
#[derive(Clone, Copy, Debug, PartialEq, Eq, Structural)]
pub enum Backend {
    /// The GPU-API backend.
    Wgpu,
    /// The hardware-accelerated GL backend of desktop platforms.
    DesktopGl,
    /// The GL backend of web targets.
    WebGl,
    /// The CPU software rasterizer, the fallback of last resort.
    SwRast,
}

/// Whether `b` may be tried when the fallback is forced or not.
pub open spec fn admitted(b: Backend, force_fallback: bool) -> bool {
    !force_fallback || b == Backend::SwRast
}

/// The candidates that are tried, in priority order: the registry without the
/// backends that the fallback setting excludes.
pub open spec fn candidates(registry: Seq<Backend>, force_fallback: bool) -> Seq<Backend>
    decreases registry.len(),
{
    if registry.len() == 0 {
        Seq::empty()
    } else {
        let rest = candidates(registry.drop_last(), force_fallback);
        if admitted(registry.last(), force_fallback) {
            rest.push(registry.last())
        } else {
            rest
        }
    }
}

/// The abstract state of a [`Fallback`]: the candidates in order, how many of
/// them have failed, and the one that succeeded, if any.
pub struct FallbackView<T> {
    pub order: Seq<T>,
    pub failed: nat,
    pub chosen: Option<T>,
}

/// What a [`Fallback`] asks its driver to do next.
#[derive(Debug, PartialEq, Eq, Structural)]
pub enum Selection<T> {
    /// Attempt to build this candidate and report the outcome.
    Try(T),
    /// This candidate was built; nothing more is tried.
    Selected(T),
    /// Every candidate failed.
    Exhausted,
}

/// The action that a fallback in state `s` asks for.
pub open spec fn action<T>(s: FallbackView<T>) -> Selection<T> {
    if s.chosen is Some {
        Selection::Selected(s.chosen->0)
    } else if s.failed < s.order.len() {
        Selection::Try(s.order[s.failed as int])
    } else {
        Selection::Exhausted
    }
}

/// The state after the candidate under trial succeeded or failed.
pub open spec fn after<T>(s: FallbackView<T>, succeeded: bool) -> FallbackView<T> {
    if succeeded {
        FallbackView { chosen: Some(s.order[s.failed as int]), ..s }
    } else {
        FallbackView { failed: s.failed + 1, ..s }
    }
}

/// The state reached from `s` when each candidate `c` that is tried succeeds
/// exactly when `succeeds(c)`.
pub open spec fn settle<T>(s: FallbackView<T>, succeeds: spec_fn(T) -> bool) -> FallbackView<T>
    decreases s.order.len() - s.failed + (if s.chosen is None { 1int } else { 0int }),
{
    if s.chosen is None && s.failed < s.order.len() {
        settle(after(s, succeeds(s.order[s.failed as int])), succeeds)
    } else {
        s
    }
}

/// The state of a fallback that has tried nothing yet.
pub open spec fn start<T>(order: Seq<T>) -> FallbackView<T> {
    FallbackView { order, failed: 0, chosen: None }
}

/// Tries candidates in a fixed order until one succeeds.
///
/// The first candidate that succeeds is chosen and no later one is tried.
/// When all fail, the error of the last one is the result; the errors of the
/// others are dropped.
pub struct Fallback<T, E> {
    order: Vec<T>,
    failed: usize,
    chosen: Option<T>,
    last_error: Option<E>,
}

impl<T: Copy, E> Fallback<T, E> {
    pub closed spec fn view(&self) -> FallbackView<T> {
        FallbackView { order: self.order@, failed: self.failed as nat, chosen: self.chosen }
    }

    /// The error of the most recent failure, if any candidate failed.
    pub closed spec fn last_error(&self) -> Option<E> {
        self.last_error
    }

    pub closed spec fn wf(&self) -> bool {
        &&& self.failed <= self.order.len()
        &&& (self.chosen is Some ==> self.failed < self.order.len())
        &&& (self.failed > 0 <==> self.last_error is Some)
    }

    /// A fallback over `order`, most preferred first.
    pub fn new(order: Vec<T>) -> (r: Self)
        ensures
            r.wf(),
            r.view() == start(order@),
            r.last_error() is None,
    {
        Fallback { order, failed: 0, chosen: None, last_error: None }
    }

    /// What to do next.
    pub fn next(&self) -> (r: Selection<T>)
        requires
            self.wf(),
        ensures
            r == action(self.view()),
    {
        match self.chosen {
            Some(c) => Selection::Selected(c),
            None => {
                if self.failed < self.order.len() {
                    Selection::Try(self.order[self.failed])
                } else {
                    Selection::Exhausted
                }
            },
        }
    }

    /// Reports that the candidate under trial was built.
    pub fn succeeded(&mut self)
        requires
            old(self).wf(),
            action(old(self).view()) is Try,
        ensures
            final(self).wf(),
            final(self).view() == after(old(self).view(), true),
            final(self).last_error() == old(self).last_error(),
    {
        self.chosen = Some(self.order[self.failed]);
    }

    /// Reports that the candidate under trial failed with `error`.
    pub fn failed(&mut self, error: E)
        requires
            old(self).wf(),
            action(old(self).view()) is Try,
        ensures
            final(self).wf(),
            final(self).view() == after(old(self).view(), false),
            final(self).last_error() == Some(error),
    {
        self.failed = self.failed + 1;
        self.last_error = Some(error);
    }

    /// The chosen candidate, or the error of the last failure once every
    /// candidate has failed; `None` while a candidate is still to be tried or
    /// when there was no candidate at all.
    pub fn outcome(self) -> (r: Option<Result<T, E>>)
        requires
            self.wf(),
        ensures
            r == match action(self.view()) {
                Selection::Selected(c) => Some(Ok(c)),
                Selection::Exhausted => match self.last_error() {
                    Some(e) => Some(Err(e)),
                    None => None,
                },
                Selection::Try(_) => None,
            },
    {
        match self.chosen {
            Some(c) => Some(Ok(c)),
            None => {
                if self.failed < self.order.len() {
                    None
                } else {
                    match self.last_error {
                        Some(e) => Some(Err(e)),
                        None => None,
                    }
                }
            },
        }
    }
}

/// The candidates of `registry` under the fallback setting, in order.
pub fn candidate_order(registry: &Vec<Backend>, force_fallback: bool) -> (r: Vec<Backend>)
    ensures
        r@ == candidates(registry@, force_fallback),
{
    let mut r: Vec<Backend> = Vec::new();
    let mut i: usize = 0;
    while i < registry.len()
        invariant
            i <= registry.len(),
            r@ == candidates(registry@.subrange(0, i as int), force_fallback),
        decreases registry.len() - i,
    {
        let b = registry[i];
        proof {
            assert(registry@.subrange(0, i + 1).drop_last() =~= registry@.subrange(0, i as int));
        }
        if !force_fallback || b == Backend::SwRast {
            r.push(b);
        }
        i = i + 1;
    }
    proof {
        assert(registry@.subrange(0, registry.len() as int) =~= registry@);
    }
    r
}

/// A registry is well formed when it ends with the software rasterizer and
/// names it nowhere else.
pub open spec fn registry_wf(registry: Seq<Backend>) -> bool {
    &&& registry.len() > 0
    &&& registry.last() == Backend::SwRast
    &&& forall|k: int| 0 <= k < registry.len() - 1 ==> registry[k] != Backend::SwRast
}

/// `b` alone when `present`, else nothing.
pub open spec fn present_if(b: Backend, present: bool) -> Seq<Backend> {
    if present {
        seq![b]
    } else {
        Seq::empty()
    }
}

/// The registry of the backends that are available, most capable first and
/// the software rasterizer, always available, last.
pub open spec fn registry_of(wgpu: bool, desktop_gl: bool, web_gl: bool) -> Seq<Backend> {
    present_if(Backend::Wgpu, wgpu) + present_if(Backend::DesktopGl, desktop_gl) + present_if(
        Backend::WebGl,
        web_gl,
    ) + seq![Backend::SwRast]
}

/// The registry of the backends that are available.
pub fn registry(wgpu: bool, desktop_gl: bool, web_gl: bool) -> (r: Vec<Backend>)
    ensures
        r@ == registry_of(wgpu, desktop_gl, web_gl),
        registry_wf(r@),
{
    let mut r: Vec<Backend> = Vec::new();
    if wgpu {
        r.push(Backend::Wgpu);
    }
    if desktop_gl {
        r.push(Backend::DesktopGl);
    }
    if web_gl {
        r.push(Backend::WebGl);
    }
    r.push(Backend::SwRast);
    assert(r@ =~= registry_of(wgpu, desktop_gl, web_gl));
    r
}

proof fn lemma_first_index<T>(order: Seq<T>, succeeds: spec_fn(T) -> bool, i: int) -> (j: int)
    requires
        0 <= i < order.len(),
        succeeds(order[i]),
    ensures
        0 <= j <= i,
        succeeds(order[j]),
        forall|k: int| 0 <= k < j ==> !succeeds(#[trigger] order[k]),
    decreases i,
{
    if exists|k: int| 0 <= k < i && succeeds(order[k]) {
        let k = choose|k: int| 0 <= k < i && succeeds(order[k]);
        lemma_first_index(order, succeeds, k)
    } else {
        i
    }
}

proof fn lemma_settle_at<T>(s: FallbackView<T>, succeeds: spec_fn(T) -> bool, j: int)
    requires
        s.chosen is None,
        s.failed <= j < s.order.len(),
        succeeds(s.order[j]),
        forall|k: int| s.failed <= k < j ==> !succeeds(#[trigger] s.order[k]),
    ensures
        settle(s, succeeds) == (FallbackView { order: s.order, failed: j as nat, chosen: Some(s.order[j]) }),
    decreases j - s.failed,
{
    if s.failed < j {
        lemma_settle_at(after(s, false), succeeds, j);
    } else {
        let t = after(s, true);
        assert(settle(t, succeeds) == t);
    }
}

/// Display construction chooses the most preferred candidate that succeeds,
/// whatever the candidates before it did: when some candidate succeeds, the
/// chosen one is the first in priority order that succeeds, every candidate
/// before it failed, and none after it is tried.
pub proof fn lemma_first_success_chosen(
    registry: Seq<Backend>,
    force_fallback: bool,
    succeeds: spec_fn(Backend) -> bool,
    i: int,
)
    requires
        0 <= i < candidates(registry, force_fallback).len(),
        succeeds(candidates(registry, force_fallback)[i]),
    ensures
        ({
            let order = candidates(registry, force_fallback);
            exists|j: int|
                0 <= j <= i && succeeds(order[j]) && (forall|k: int|
                    0 <= k < j ==> !succeeds(#[trigger] order[k])) && settle(start(order), succeeds)
                    == (FallbackView { order, failed: j as nat, chosen: Some(order[j]) })
        }),
{
    let order = candidates(registry, force_fallback);
    let j = lemma_first_index(order, succeeds, i);
    lemma_settle_at(start(order), succeeds, j);
}

proof fn lemma_forced_without_fallback(registry: Seq<Backend>)
    requires
        forall|k: int| 0 <= k < registry.len() ==> registry[k] != Backend::SwRast,
    ensures
        candidates(registry, true) == Seq::<Backend>::empty(),
    decreases registry.len(),
{
    if registry.len() > 0 {
        lemma_forced_without_fallback(registry.drop_last());
    }
}

/// With the fallback forced, the software rasterizer is the only candidate:
/// it is chosen when it succeeds, even where the others would have succeeded,
/// and nothing is chosen when it fails.
pub proof fn lemma_forced_fallback(registry: Seq<Backend>, succeeds: spec_fn(Backend) -> bool)
    requires
        registry_wf(registry),
    ensures
        candidates(registry, true) == seq![Backend::SwRast],
        settle(start(candidates(registry, true)), succeeds).chosen == (if succeeds(Backend::SwRast) {
            Some(Backend::SwRast)
        } else {
            None::<Backend>
        }),
{
    lemma_forced_without_fallback(registry.drop_last());
    assert(candidates(registry, true) =~= seq![Backend::SwRast]);
    let s0 = start(seq![Backend::SwRast]);
    let s1 = after(s0, succeeds(Backend::SwRast));
    assert(settle(s1, succeeds) == s1);
}

} // verus!
