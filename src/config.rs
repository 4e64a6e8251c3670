use vstd::prelude::*;

verus! {

/// What the GL backend reads of a framebuffer configuration that the
/// platform offers.
#[derive(Clone, Copy, Debug, PartialEq, Eq, Structural)]
pub struct GlConfigInfo {
    /// Whether the configuration supports transparency; `None` when the
    /// platform cannot tell.
    pub transparency: Option<bool>,
    /// The number of samples per pixel.
    pub samples: u8,
}

/// Whether `c` is known to support transparency.
pub open spec fn transparent(c: GlConfigInfo) -> bool {
    c.transparency == Some(true)
}

/// Whether `c` replaces `best` as the pick: it adds transparency that `best`
/// lacks, or it has more samples.
pub open spec fn replaces(c: GlConfigInfo, best: GlConfigInfo) -> bool {
    (transparent(c) && !transparent(best)) || c.samples > best.samples
}

/// The position of the configuration picked from `cs`: the first one, then
/// each later one that replaces the pick so far.
pub open spec fn picked(cs: Seq<GlConfigInfo>) -> int
    decreases cs.len(),
{
    if cs.len() <= 1 {
        0
    } else {
        let p = picked(cs.drop_last());
        if replaces(cs.last(), cs[p]) {
            cs.len() - 1
        } else {
            p
        }
    }
}

/// The position of the configuration that the GL backend uses among those
/// the platform offers; `None` when it offers none.
pub fn choose_config(configs: &Vec<GlConfigInfo>) -> (r: Option<usize>)
    ensures
        configs@.len() == 0 ==> r is None,
        configs@.len() > 0 ==> r == Some(picked(configs@) as usize),
        r matches Some(i) ==> i < configs@.len(),
{
    if configs.len() == 0 {
        return None;
    }
    let mut best: usize = 0;
    let mut i: usize = 1;
    while i < configs.len()
        invariant
            1 <= i <= configs@.len(),
            best as int == picked(configs@.subrange(0, i as int)),
            best < i,
        decreases configs.len() - i,
    {
        let c = configs[i];
        let b = configs[best];
        proof {
            let next = configs@.subrange(0, i + 1);
            assert(next.drop_last() =~= configs@.subrange(0, i as int));
        }
        let c_transparent = c.transparency == Some(true);
        let b_transparent = b.transparency == Some(true);
        if (c_transparent && !b_transparent) || c.samples > b.samples {
            best = i;
        }
        i = i + 1;
    }
    proof {
        assert(configs@.subrange(0, configs@.len() as int) =~= configs@);
    }
    Some(best)
}

/// The kinds of GL context that the GL backend asks for.
#[derive(Clone, Copy, Debug, PartialEq, Eq, Structural)]
pub enum GlContextKind {
    /// The platform's default desktop GL context.
    Modern,
    /// A GL ES context.
    Gles,
    /// A desktop GL 3.3 context.
    Legacy,
}

/// The kinds of GL context to try, in order: a modern one, then GL ES, then
/// GL 3.3. The first that the platform creates is used.
pub fn context_attempts() -> (r: Vec<GlContextKind>)
    ensures
        r@ == seq![GlContextKind::Modern, GlContextKind::Gles, GlContextKind::Legacy],
{
    let r = vec![GlContextKind::Modern, GlContextKind::Gles, GlContextKind::Legacy];
    assert(r@ =~= seq![GlContextKind::Modern, GlContextKind::Gles, GlContextKind::Legacy]);
    r
}

} // verus!
