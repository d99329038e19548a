use vstd::prelude::*;

verus! {

/// The long-lived GPU objects whose destruction order matters.
#[derive(Clone, Copy, PartialEq, Eq, Structural, Debug)]
pub enum ObjectKind {
    Instance,
    Surface,
    Device,
    Allocator,
    Swapchain,
}

/// `a` holds a handle of `b`, so `b` must outlive `a`.
pub open spec fn depends_on(a: ObjectKind, b: ObjectKind) -> bool {
    match a {
        ObjectKind::Instance => false,
        ObjectKind::Surface => b == ObjectKind::Instance,
        ObjectKind::Device => b == ObjectKind::Instance || b == ObjectKind::Surface,
        ObjectKind::Allocator => b == ObjectKind::Instance || b == ObjectKind::Device,
        ObjectKind::Swapchain => b == ObjectKind::Instance || b == ObjectKind::Surface || b
            == ObjectKind::Device,
    }
}

/// Objects alive, in creation order: none twice, and each created after
/// everything it depends on.
pub open spec fn creation_order_ok(alive: Seq<ObjectKind>) -> bool {
    &&& alive.no_duplicates()
    &&& forall|i: int, k: ObjectKind|
        0 <= i < alive.len() && #[trigger] depends_on(alive[i], k) ==> exists|j: int|
            0 <= j < i && alive[j] == k
}

/// No object of `order` is destroyed while a later one still depends on it.
pub open spec fn destruction_order_ok(order: Seq<ObjectKind>) -> bool {
    forall|i: int, j: int| 0 <= i < j < order.len() ==> !depends_on(#[trigger] order[j], #[trigger] order[i])
}

/// Why an object could not be created.
#[derive(Clone, Copy, PartialEq, Eq, Structural, Debug)]
pub enum LifetimeError {
    /// An object it depends on is not alive.
    MissingDependency(ObjectKind),
    /// An object of this kind is already alive.
    AlreadyAlive,
}

/// The dependencies of each kind, in creation order.
pub open spec fn dependencies_of(kind: ObjectKind) -> Seq<ObjectKind> {
    match kind {
        ObjectKind::Instance => seq![],
        ObjectKind::Surface => seq![ObjectKind::Instance],
        ObjectKind::Device => seq![ObjectKind::Instance, ObjectKind::Surface],
        ObjectKind::Allocator => seq![ObjectKind::Instance, ObjectKind::Device],
        ObjectKind::Swapchain => seq![ObjectKind::Instance, ObjectKind::Surface, ObjectKind::Device],
    }
}

/// The listed dependencies are exactly the objects a kind depends on.
proof fn lemma_dependencies_of(kind: ObjectKind, k: ObjectKind)
    ensures
        depends_on(kind, k) <==> dependencies_of(kind).contains(k),
{
    let d = dependencies_of(kind);
    if depends_on(kind, k) {
        match kind {
            ObjectKind::Instance => {},
            ObjectKind::Surface => {
                assert(d[0] == k);
            },
            ObjectKind::Device => {
                if k == ObjectKind::Instance {
                    assert(d[0] == k);
                } else {
                    assert(d[1] == k);
                }
            },
            ObjectKind::Allocator => {
                if k == ObjectKind::Instance {
                    assert(d[0] == k);
                } else {
                    assert(d[1] == k);
                }
            },
            ObjectKind::Swapchain => {
                if k == ObjectKind::Instance {
                    assert(d[0] == k);
                } else if k == ObjectKind::Surface {
                    assert(d[1] == k);
                } else {
                    assert(d[2] == k);
                }
            },
        }
    }
    if d.contains(k) {
        let i = choose|i: int| 0 <= i < d.len() && d[i] == k;
        assert(depends_on(kind, d[i]));
    }
}

fn dependencies(kind: ObjectKind) -> (r: Vec<ObjectKind>)
    ensures
        r@ == dependencies_of(kind),
{
    let mut v: Vec<ObjectKind> = Vec::new();
    match kind {
        ObjectKind::Instance => {},
        ObjectKind::Surface => {
            v.push(ObjectKind::Instance);
        },
        ObjectKind::Device => {
            v.push(ObjectKind::Instance);
            v.push(ObjectKind::Surface);
        },
        ObjectKind::Allocator => {
            v.push(ObjectKind::Instance);
            v.push(ObjectKind::Device);
        },
        ObjectKind::Swapchain => {
            v.push(ObjectKind::Instance);
            v.push(ObjectKind::Surface);
            v.push(ObjectKind::Device);
        },
    }
    assert(v@ =~= dependencies_of(kind));
    v
}

fn is_alive(alive: &Vec<ObjectKind>, kind: ObjectKind) -> (r: bool)
    ensures
        r == alive@.contains(kind),
{
    let mut i: usize = 0;
    while i < alive.len()
        invariant
            0 <= i <= alive.len(),
            forall|j: int| 0 <= j < i ==> alive@[j] != kind,
        decreases alive.len() - i,
    {
        if alive[i] == kind {
            return true;
        }
        i += 1;
    }
    false
}

/// The objects alive, tracked in creation order so that they are destroyed
/// in exactly the reverse order.
pub struct TeardownStack {
    pub alive: Vec<ObjectKind>,
}

impl TeardownStack {
    pub open spec fn wf(&self) -> bool {
        creation_order_ok(self.alive@)
    }

    pub fn new() -> (r: TeardownStack)
        ensures
            r.wf(),
            r.alive@.len() == 0,
    {
        TeardownStack { alive: Vec::new() }
    }

    /// Records the creation of an object of `kind`. It is refused when such
    /// an object is already alive or when something it depends on is not.
    pub fn create(&mut self, kind: ObjectKind) -> (r: Result<(), LifetimeError>)
        requires
            old(self).wf(),
        ensures
            final(self).wf(),
            match r {
                Ok(()) => {
                    &&& !old(self).alive@.contains(kind)
                    &&& forall|k: ObjectKind| depends_on(kind, k) ==> old(self).alive@.contains(k)
                    &&& final(self).alive@ == old(self).alive@.push(kind)
                },
                Err(LifetimeError::AlreadyAlive) => {
                    old(self).alive@.contains(kind) && final(self).alive@ == old(self).alive@
                },
                Err(LifetimeError::MissingDependency(k)) => {
                    &&& !old(self).alive@.contains(kind)
                    &&& depends_on(kind, k)
                    &&& !old(self).alive@.contains(k)
                    &&& final(self).alive@ == old(self).alive@
                },
            },
    {
        if is_alive(&self.alive, kind) {
            return Err(LifetimeError::AlreadyAlive);
        }
        let deps = dependencies(kind);
        let mut i: usize = 0;
        while i < deps.len()
            invariant
                0 <= i <= deps.len(),
                deps@ == dependencies_of(kind),
                self.wf(),
                self.alive@ == old(self).alive@,
                !self.alive@.contains(kind),
                forall|j: int| 0 <= j < i ==> self.alive@.contains(#[trigger] deps@[j]),
            decreases deps.len() - i,
        {
            if !is_alive(&self.alive, deps[i]) {
                proof {
                    assert(deps@.contains(deps@[i as int]));
                    lemma_dependencies_of(kind, deps@[i as int]);
                }
                return Err(LifetimeError::MissingDependency(deps[i]));
            }
            i += 1;
        }
        let ghost before = self.alive@;
        self.alive.push(kind);
        proof {
            assert forall|k: ObjectKind| depends_on(kind, k) implies before.contains(k) by {
                lemma_dependencies_of(kind, k);
                let j = choose|j: int| 0 <= j < deps@.len() && deps@[j] == k;
                assert(before.contains(deps@[j]));
            }
            assert forall|i: int, k: ObjectKind|
                0 <= i < self.alive@.len() && #[trigger] depends_on(self.alive@[i], k) implies exists|j: int|
                0 <= j < i && self.alive@[j] == k by {
                if i < before.len() {
                    let j = choose|j: int| 0 <= j < i && before[j] == k;
                    assert(self.alive@[j] == k);
                } else {
                    let j = choose|j: int| 0 <= j < before.len() && before[j] == k;
                    assert(self.alive@[j] == k);
                }
            }
            assert forall|a: int, b: int| 0 <= a < self.alive@.len() && 0 <= b < self.alive@.len() && a != b
                implies self.alive@[a] != self.alive@[b] by {
                if a < before.len() && b < before.len() {
                } else if a < before.len() {
                    assert(before.contains(before[a]));
                } else {
                    assert(before.contains(before[b]));
                }
            }
        }
        Ok(())
    }

    /// Tears everything down: returns the objects in the order they must be
    /// destroyed, the exact reverse of their creation, and forgets them.
    pub fn teardown(&mut self) -> (r: Vec<ObjectKind>)
        requires
            old(self).wf(),
        ensures
            r@ == old(self).alive@.reverse(),
            destruction_order_ok(r@),
            final(self).wf(),
            final(self).alive@.len() == 0,
    {
        let mut order: Vec<ObjectKind> = Vec::new();
        let n = self.alive.len();
        let mut i: usize = n;
        while i > 0
            invariant
                0 <= i <= n == self.alive.len(),
                order@ == self.alive@.subrange(i as int, n as int).reverse(),
            decreases i,
        {
            i -= 1;
            let k = self.alive[i];
            order.push(k);
            assert(order@ =~= self.alive@.subrange(i as int, n as int).reverse());
        }
        assert(self.alive@.subrange(0, n as int) =~= self.alive@);
        proof {
            lemma_reverse_respects_dependencies(self.alive@);
        }
        self.alive = Vec::new();
        order
    }
}

/// Destroying objects in the reverse of a valid creation order never
/// destroys an object while another that depends on it is still alive.
pub proof fn lemma_reverse_respects_dependencies(alive: Seq<ObjectKind>)
    requires
        creation_order_ok(alive),
    ensures
        destruction_order_ok(alive.reverse()),
{
    let rev = alive.reverse();
    let n = alive.len();
    assert forall|i: int, j: int| 0 <= i < j < rev.len() implies !depends_on(#[trigger] rev[j], #[trigger] rev[i]) by {
        let p = n - 1 - j;
        let q = n - 1 - i;
        assert(rev[j] == alive[p]);
        assert(rev[i] == alive[q]);
        if depends_on(alive[p], alive[q]) {
            let m = choose|m: int| 0 <= m < p && alive[m] == alive[q];
            assert(alive[m] == alive[q]);
        }
    }
}

} // verus!
