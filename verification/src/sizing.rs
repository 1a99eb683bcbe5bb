use vstd::prelude::*;

verus! {

/// The offset and the allotted size of one child of a layout.
#[derive(Clone, Copy, Debug)]
pub struct Area {
    pub offset: (i32, i32),
    pub size: (u32, u32),
}

/// `x` clamped into `[lo, hi]`, taking the upper bound last: `min(hi, max(lo, x))`.
pub open spec fn clamp(x: u32, lo: u32, hi: u32) -> u32 {
    if x < lo {
        if lo < hi { lo } else { hi }
    } else {
        if x < hi { x } else { hi }
    }
}

/// `a + b`, or `u32::MAX` where the sum does not fit.
pub open spec fn sat_add(a: u32, b: u32) -> u32 {
    if a + b > u32::MAX { u32::MAX } else { (a + b) as u32 }
}

/// The range of sizes a drawable accepts: at least `min_*` and at most `max_*`
/// in each dimension.
#[derive(Debug, Clone, Copy, PartialEq, Eq, PartialOrd, Ord)]
pub struct SizeRequest {
    min_width: u32,
    min_height: u32,
    max_width: u32,
    max_height: u32,
}

impl SizeRequest {
    #[verifier::type_invariant]
    spec fn inv(self) -> bool {
        &&& self.min_width <= self.max_width
        &&& self.min_height <= self.max_height
    }

    pub closed spec fn spec_min_width(self) -> u32 {
        self.min_width
    }

    pub closed spec fn spec_min_height(self) -> u32 {
        self.min_height
    }

    pub closed spec fn spec_max_width(self) -> u32 {
        self.max_width
    }

    pub closed spec fn spec_max_height(self) -> u32 {
        self.max_height
    }

    /// The request holds a non-empty range in both dimensions; every value of
    /// the type satisfies it.
    pub open spec fn wf(self) -> bool {
        &&& self.spec_min_width() <= self.spec_max_width()
        &&& self.spec_min_height() <= self.spec_max_height()
    }

    /// The request with exactly these bounds.
    pub open spec fn has_bounds(self, min_width: u32, min_height: u32, max_width: u32, max_height: u32) -> bool {
        &&& self.spec_min_width() == min_width
        &&& self.spec_min_height() == min_height
        &&& self.spec_max_width() == max_width
        &&& self.spec_max_height() == max_height
    }

    /// The size a layout hands out for an offered `size`.
    pub open spec fn spec_get(self, size: (u32, u32)) -> (u32, u32) {
        (
            clamp(size.0, self.spec_min_width(), self.spec_max_width()),
            clamp(size.1, self.spec_min_height(), self.spec_max_height()),
        )
    }

    pub fn min_width(&self) -> (r: u32)
        ensures
            r == self.spec_min_width(),
            self.wf(),
    {
        proof {
            use_type_invariant(self);
        }
        self.min_width
    }

    pub fn min_height(&self) -> (r: u32)
        ensures
            r == self.spec_min_height(),
            self.wf(),
    {
        proof {
            use_type_invariant(self);
        }
        self.min_height
    }

    pub fn max_width(&self) -> (r: u32)
        ensures
            r == self.spec_max_width(),
            self.wf(),
    {
        proof {
            use_type_invariant(self);
        }
        self.max_width
    }

    pub fn max_height(&self) -> (r: u32)
        ensures
            r == self.spec_max_height(),
            self.wf(),
    {
        proof {
            use_type_invariant(self);
        }
        self.max_height
    }

    /// A request for the given bounds. A minimum above its maximum is refused.
    pub fn new(min_width: u32, min_height: u32, max_width: u32, max_height: u32) -> (r: Self)
        requires
            min_width <= max_width,
            min_height <= max_height,
        ensures
            r.has_bounds(min_width, min_height, max_width, max_height),
            r.wf(),
    {
        SizeRequest { min_width, min_height, max_width, max_height }
    }

    /// A request for exactly `size`.
    pub fn fixed(size: (u32, u32)) -> (r: Self)
        ensures
            r.has_bounds(size.0, size.1, size.0, size.1),
            r.wf(),
    {
        SizeRequest { min_width: size.0, min_height: size.1, max_width: size.0, max_height: size.1 }
    }

    /// A request that accepts any size.
    pub fn fill() -> (r: Self)
        ensures
            r.has_bounds(0, 0, u32::MAX, u32::MAX),
            r.wf(),
    {
        SizeRequest { min_width: 0, min_height: 0, max_width: u32::MAX, max_height: u32::MAX }
    }

    /// The offered `size` clamped into the request, dimension by dimension.
    pub fn get(&self, size: (u32, u32)) -> (r: (u32, u32))
        ensures
            r == self.spec_get(size),
            self.spec_min_width() <= r.0 <= self.spec_max_width(),
            self.spec_min_height() <= r.1 <= self.spec_max_height(),
    {
        proof {
            use_type_invariant(self);
        }
        let w = if size.0 < self.min_width {
            self.min_width
        } else if size.0 < self.max_width {
            size.0
        } else {
            self.max_width
        };
        let h = if size.1 < self.min_height {
            self.min_height
        } else if size.1 < self.max_height {
            size.1
        } else {
            self.max_height
        };
        (w, h)
    }

    /// Both bounds of the width grown by `w` and both bounds of the height grown by `h`,
    /// each saturating at `u32::MAX`.
    pub fn add(&self, w: u32, h: u32) -> (r: SizeRequest)
        ensures
            r.has_bounds(
                sat_add(self.spec_min_width(), w),
                sat_add(self.spec_min_height(), h),
                sat_add(self.spec_max_width(), w),
                sat_add(self.spec_max_height(), h),
            ),
            r.wf(),
    {
        self.add_width(w).add_height(h)
    }

    /// Both bounds of the width grown by `w`, saturating at `u32::MAX`.
    pub fn add_width(&self, w: u32) -> (r: SizeRequest)
        ensures
            r.has_bounds(
                sat_add(self.spec_min_width(), w),
                self.spec_min_height(),
                sat_add(self.spec_max_width(), w),
                self.spec_max_height(),
            ),
            r.wf(),
    {
        proof {
            use_type_invariant(self);
        }
        SizeRequest::new(
            self.min_width.saturating_add(w),
            self.min_height,
            self.max_width.saturating_add(w),
            self.max_height,
        )
    }

    /// Both bounds of the height grown by `h`, saturating at `u32::MAX`.
    pub fn add_height(&self, h: u32) -> (r: SizeRequest)
        ensures
            r.has_bounds(
                self.spec_min_width(),
                sat_add(self.spec_min_height(), h),
                self.spec_max_width(),
                sat_add(self.spec_max_height(), h),
            ),
            r.wf(),
    {
        proof {
            use_type_invariant(self);
        }
        SizeRequest::new(
            self.min_width,
            self.min_height.saturating_add(h),
            self.max_width,
            self.max_height.saturating_add(h),
        )
    }
}

impl Default for SizeRequest {
    /// The request for exactly the empty size.
    fn default() -> (r: Self)
        ensures
            r.has_bounds(0, 0, 0, 0),
    {
        SizeRequest { min_width: 0, min_height: 0, max_width: 0, max_height: 0 }
    }
}

/// A drawable's size request together with the request branches of its
/// children, in the order of the children.
#[derive(Debug)]
pub struct RequestBranch(pub SizeRequest, pub Vec<RequestBranch>);

impl RequestBranch {
    /// The requests of the direct children, in order: what a component's
    /// layout is handed to size and place them.
    pub fn child_requests(&self) -> (r: Vec<SizeRequest>)
        ensures
            r@.len() == self.1@.len(),
            forall|i: int| 0 <= i < r@.len() ==> #[trigger] r@[i] == self.1@[i].0,
    {
        let mut out: Vec<SizeRequest> = Vec::new();
        let mut i: usize = 0;
        while i < self.1.len()
            invariant
                i <= self.1@.len(),
                out@.len() == i,
                forall|j: int| 0 <= j < i ==> #[trigger] out@[j] == self.1@[j].0,
            decreases self.1@.len() - i,
        {
            out.push(self.1[i].0);
            i += 1;
        }
        out
    }
}

impl Default for RequestBranch {
    /// The empty request, with no children.
    fn default() -> (r: Self)
        ensures
            r.0.has_bounds(0, 0, 0, 0),
            r.1@.len() == 0,
    {
        RequestBranch(SizeRequest::default(), Vec::new())
    }
}

} // verus!

verus! {

/// An offered size already inside a request is handed out unchanged.
pub proof fn lemma_get_keeps_sizes_inside(r: SizeRequest, size: (u32, u32))
    requires
        r.spec_min_width() <= size.0 <= r.spec_max_width(),
        r.spec_min_height() <= size.1 <= r.spec_max_height(),
    ensures
        r.spec_get(size) == size,
{
}

/// Handing out a size twice gives the same size: a size that the request handed
/// out is inside it.
pub proof fn lemma_get_idempotent(r: SizeRequest, size: (u32, u32))
    requires
        r.wf(),
    ensures
        r.spec_get(r.spec_get(size)) == r.spec_get(size),
{
}

/// A larger offer never yields a smaller size, in either dimension.
pub proof fn lemma_get_monotone(r: SizeRequest, a: (u32, u32), b: (u32, u32))
    requires
        r.wf(),
        a.0 <= b.0,
        a.1 <= b.1,
    ensures
        r.spec_get(a).0 <= r.spec_get(b).0,
        r.spec_get(a).1 <= r.spec_get(b).1,
{
}

/// A fixed request hands out its own size whatever is offered.
pub proof fn lemma_fixed_gets_its_size(r: SizeRequest, fixed: (u32, u32), size: (u32, u32))
    requires
        r.has_bounds(fixed.0, fixed.1, fixed.0, fixed.1),
    ensures
        r.spec_get(size) == fixed,
{
}

/// A filling request hands out whatever is offered.
pub proof fn lemma_fill_gets_the_offer(r: SizeRequest, size: (u32, u32))
    requires
        r.has_bounds(0, 0, u32::MAX, u32::MAX),
    ensures
        r.spec_get(size) == size,
{
}

/// Growing the width by `a` and then by `b` is growing it once by `a + b`
/// (saturating): the bounds of both results agree.
pub proof fn lemma_add_width_twice(r: SizeRequest, a: u32, b: u32, once: SizeRequest, twice: SizeRequest, total: SizeRequest)
    requires
        once.has_bounds(sat_add(r.spec_min_width(), a), r.spec_min_height(), sat_add(r.spec_max_width(), a), r.spec_max_height()),
        twice.has_bounds(sat_add(once.spec_min_width(), b), once.spec_min_height(), sat_add(once.spec_max_width(), b), once.spec_max_height()),
        total.has_bounds(sat_add(r.spec_min_width(), sat_add(a, b)), r.spec_min_height(), sat_add(r.spec_max_width(), sat_add(a, b)), r.spec_max_height()),
    ensures
        twice.has_bounds(total.spec_min_width(), total.spec_min_height(), total.spec_max_width(), total.spec_max_height()),
{
}

/// Growing the height first and the width second gives the same bounds as `add`,
/// which grows the width first.
pub proof fn lemma_add_order_irrelevant(r: SizeRequest, w: u32, h: u32, high: SizeRequest, both: SizeRequest, added: SizeRequest)
    requires
        high.has_bounds(r.spec_min_width(), sat_add(r.spec_min_height(), h), r.spec_max_width(), sat_add(r.spec_max_height(), h)),
        both.has_bounds(sat_add(high.spec_min_width(), w), high.spec_min_height(), sat_add(high.spec_max_width(), w), high.spec_max_height()),
        added.has_bounds(sat_add(r.spec_min_width(), w), sat_add(r.spec_min_height(), h), sat_add(r.spec_max_width(), w), sat_add(r.spec_max_height(), h)),
    ensures
        both.has_bounds(added.spec_min_width(), added.spec_min_height(), added.spec_max_width(), added.spec_max_height()),
{
}

} // verus!
