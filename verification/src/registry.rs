use vstd::prelude::*;

verus! {

/// What a backend adapter can do: answer a chat prompt, or run a search.
#[derive(Clone, Copy, Debug, PartialEq, Eq, Structural)]
pub enum Capability {
    Chat,
    Search,
}

/// One configured backend adapter: a unique name and a capability tag.
/// The handle that actually performs the wire call lives with the caller
/// that drives the invocations; the orchestrator only decides and records.
#[derive(Debug)]
pub struct AdapterDescriptor {
    pub name: String,
    pub capability: Capability,
}

/// The mathematical value of an adapter descriptor.
pub ghost struct AdapterDescriptorView {
    pub name: Seq<char>,
    pub capability: Capability,
}

impl View for AdapterDescriptor {
    type V = AdapterDescriptorView;

    open spec fn view(&self) -> AdapterDescriptorView {
        AdapterDescriptorView { name: self.name@, capability: self.capability }
    }
}

impl Clone for AdapterDescriptor {
    fn clone(&self) -> (res: AdapterDescriptor)
        ensures
            res@ == self@,
    {
        AdapterDescriptor { name: self.name.clone(), capability: self.capability }
    }
}

/// The process-wide, ordered list of configured adapters.  Built once at
/// startup; read-only afterwards.  Names are unique within the registry.
pub struct AdapterRegistry {
    pub adapters: Vec<AdapterDescriptor>,
}

impl AdapterRegistry {
    pub open spec fn view_seq(&self) -> Seq<AdapterDescriptorView> {
        self.adapters@.map_values(|d: AdapterDescriptor| d@)
    }

    /// Well-formedness: no two adapters share a name.
    pub open spec fn wf(&self) -> bool {
        forall|i: int, j: int|
            0 <= i < j < self.view_seq().len() ==> self.view_seq()[i].name
                != self.view_seq()[j].name
    }

    pub fn new() -> (r: AdapterRegistry)
        ensures
            r.view_seq() == Seq::<AdapterDescriptorView>::empty(),
            r.wf(),
    {
        let r = AdapterRegistry { adapters: Vec::new() };
        proof {
            assert(r.view_seq() =~= Seq::<AdapterDescriptorView>::empty());
        }
        r
    }

    /// Whether some configured adapter already carries this name.
    pub fn contains_name(&self, name: &String) -> (b: bool)
        ensures
            b == exists|i: int| 0 <= i < self.view_seq().len() && self.view_seq()[i].name == name@,
    {
        let n = self.adapters.len();
        let mut i: usize = 0;
        while i < n
            invariant
                0 <= i <= n,
                n == self.view_seq().len(),
                forall|k: int| 0 <= k < i ==> self.view_seq()[k].name != name@,
            decreases n - i,
        {
            if self.adapters[i].name.eq(name) {
                assert(self.view_seq()[i as int].name == name@);
                return true;
            }
            i = i + 1;
        }
        false
    }

    /// Add one adapter at registration time.  A duplicate name is refused,
    /// which keeps the registry well formed.
    pub fn register(&mut self, d: AdapterDescriptor) -> (added: bool)
        requires
            old(self).wf(),
        ensures
            final(self).wf(),
            added == !(exists|i: int|
                0 <= i < old(self).view_seq().len() && old(self).view_seq()[i].name == d@.name),
            added ==> final(self).view_seq() == old(self).view_seq().push(d@),
            !added ==> *final(self) == *old(self),
    {
        if self.contains_name(&d.name) {
            return false;
        }
        let ghost pre = self.view_seq();
        let ghost dv = d@;
        self.adapters.push(d);
        proof {
            assert(self.view_seq() =~= pre.push(dv));
        }
        true
    }

    pub fn len(&self) -> (n: usize)
        ensures
            n == self.view_seq().len(),
    {
        self.adapters.len()
    }

    /// The full registration-ordered list.
    pub fn all(&self) -> (r: &Vec<AdapterDescriptor>)
        ensures
            r@.map_values(|d: AdapterDescriptor| d@) == self.view_seq(),
    {
        &self.adapters
    }

    /// The subsequence of adapters that carry the given capability tag, in
    /// registration order.
    pub fn by_capability(&self, tag: Capability) -> (r: Vec<AdapterDescriptor>)
        ensures
            r@.map_values(|d: AdapterDescriptor| d@) == with_capability(self.view_seq(), tag),
    {
        let n = self.adapters.len();
        let mut out: Vec<AdapterDescriptor> = Vec::new();
        let mut i: usize = 0;
        proof {
            assert(out@.map_values(|d: AdapterDescriptor| d@) =~= with_capability(
                self.view_seq().take(0),
                tag,
            ));
        }
        while i < n
            invariant
                0 <= i <= n,
                n == self.view_seq().len(),
                out@.map_values(|d: AdapterDescriptor| d@) == with_capability(
                    self.view_seq().take(i as int),
                    tag,
                ),
            decreases n - i,
        {
            let ghost pre = out@.map_values(|d: AdapterDescriptor| d@);
            if self.adapters[i].capability == tag {
                out.push(self.adapters[i].clone());
                proof {
                    assert(out@.map_values(|d: AdapterDescriptor| d@) =~= pre.push(
                        self.view_seq()[i as int],
                    ));
                }
            }
            proof {
                assert(self.view_seq().take(i as int + 1).drop_last() =~= self.view_seq().take(
                    i as int,
                ));
                assert(self.view_seq().take(i as int + 1).last() == self.view_seq()[i as int]);
            }
            i = i + 1;
        }
        proof {
            assert(self.view_seq().take(n as int) =~= self.view_seq());
        }
        out
    }
}

/// The subsequence of `s` whose capability is `tag`, order kept.
pub open spec fn with_capability(s: Seq<AdapterDescriptorView>, tag: Capability) -> Seq<
    AdapterDescriptorView,
>
    decreases s.len(),
{
    if s.len() == 0 {
        Seq::empty()
    } else {
        let rest = with_capability(s.drop_last(), tag);
        if s.last().capability == tag {
            rest.push(s.last())
        } else {
            rest
        }
    }
}

} // verus!
