//! The registry: every live instance, at most one per window.

use vstd::prelude::*;
use crate::gfx::gfx_state::{GfxState, GfxStateView};
use crate::types::InstanceHandle;

verus! {

/// One rendering surface: its window, its state and its identity.
#[derive(Debug)]
pub struct AppInstance<W> {
    pub window: W,
    pub gfx: GfxState,
    pub handle: InstanceHandle,
}

/// The mathematical content of an [`AppInstance`].
pub struct AppInstanceView<W> {
    pub window: W,
    pub gfx: GfxStateView,
    pub handle: InstanceHandle,
}

impl<W> View for AppInstance<W> {
    type V = AppInstanceView<W>;

    open spec fn view(&self) -> AppInstanceView<W> {
        AppInstanceView { window: self.window, gfx: self.gfx@, handle: self.handle }
    }
}

/// The instances, each by its view, in order.
pub open spec fn views_of<W>(instances: Seq<AppInstance<W>>) -> Seq<AppInstanceView<W>> {
    instances.map_values(|instance: AppInstance<W>| instance@)
}

/// Whether one of the instances belongs to the window.
pub open spec fn has_instance<W>(instances: Seq<AppInstanceView<W>>, window_id: u64) -> bool {
    exists|i: int| 0 <= i < instances.len() && (#[trigger] instances[i]).handle.window_id == window_id
}

/// The position of the window's instance, where there is one.
pub open spec fn position_of<W>(instances: Seq<AppInstanceView<W>>, window_id: u64) -> int {
    choose|i: int| 0 <= i < instances.len() && (#[trigger] instances[i]).handle.window_id == window_id
}

/// No two instances belong to one window.
pub open spec fn unique_instances<W>(instances: Seq<AppInstanceView<W>>) -> bool {
    forall|i: int, j: int|
        0 <= i < j < instances.len() ==> (#[trigger] instances[i]).handle.window_id != (
        #[trigger] instances[j]).handle.window_id
}

/// The window's instance, if it has one.
pub open spec fn find_instance<W>(instances: Seq<AppInstanceView<W>>, window_id: u64) -> Option<
    AppInstanceView<W>,
> {
    if has_instance(instances, window_id) {
        Some(instances[position_of(instances, window_id)])
    } else {
        None
    }
}

/// The registry after `instance` was offered to it: appended, unless its
/// window has an instance already.
pub open spec fn with_instance<W>(
    instances: Seq<AppInstanceView<W>>,
    instance: AppInstanceView<W>,
) -> Seq<AppInstanceView<W>> {
    if has_instance(instances, instance.handle.window_id) {
        instances
    } else {
        instances.push(instance)
    }
}

/// The registry without the window's instance; the others keep their order.
pub open spec fn without_instance<W>(instances: Seq<AppInstanceView<W>>, window_id: u64) -> Seq<
    AppInstanceView<W>,
> {
    if has_instance(instances, window_id) {
        instances.remove(position_of(instances, window_id))
    } else {
        instances
    }
}

/// The registry with the state of the window's instance replaced by `gfx`;
/// unchanged where the window has no instance.
pub open spec fn with_gfx<W>(
    instances: Seq<AppInstanceView<W>>,
    window_id: u64,
    gfx: GfxStateView,
) -> Seq<AppInstanceView<W>> {
    if has_instance(instances, window_id) {
        let i = position_of(instances, window_id);
        instances.update(i, AppInstanceView { gfx, ..instances[i] })
    } else {
        instances
    }
}

/// Under unique identities, an instance of the window stands at the
/// window's position.
pub proof fn lemma_position_is_unique<W>(
    instances: Seq<AppInstanceView<W>>,
    window_id: u64,
    i: int,
)
    requires
        unique_instances(instances),
        0 <= i < instances.len(),
        instances[i].handle.window_id == window_id,
    ensures
        has_instance(instances, window_id),
        position_of(instances, window_id) == i,
{
    let p = position_of(instances, window_id);
    assert(0 <= p < instances.len() && instances[p].handle.window_id == window_id);
    if p < i {
        assert(instances[p].handle.window_id != instances[i].handle.window_id);
    } else if i < p {
        assert(instances[i].handle.window_id != instances[p].handle.window_id);
    }
}

/// The registry of instances.
#[derive(Debug)]
pub struct App<W> {
    instances: Vec<AppInstance<W>>,
}

impl<W> View for App<W> {
    type V = Seq<AppInstanceView<W>>;

    open spec fn view(&self) -> Seq<AppInstanceView<W>> {
        views_of(self.entries())
    }
}

impl<W> App<W> {
    /// The instances as they are stored, in the order in which they were
    /// created.
    pub closed spec fn entries(&self) -> Seq<AppInstance<W>> {
        self.instances@
    }

    /// At most one instance per window.
    #[verifier::type_invariant]
    pub open spec fn well_formed(self) -> bool {
        unique_instances(self@)
    }

    /// The empty registry.
    pub fn new() -> (app: Self)
        ensures
            app@ == Seq::<AppInstanceView<W>>::empty(),
    {
        App { instances: Vec::new() }
    }

    /// The number of instances.
    pub fn len(&self) -> (count: usize)
        ensures
            count == self@.len(),
    {
        self.instances.len()
    }

    /// Takes the instances out and leaves the registry empty, so that one
    /// of them can be changed; [`App::put`] hands them back.
    pub(crate) fn take(&mut self) -> (instances: Vec<AppInstance<W>>)
        ensures
            instances@ == old(self).entries(),
            views_of(instances@) == old(self)@,
            unique_instances(old(self)@),
            final(self)@.len() == 0,
    {
        proof {
            use_type_invariant(&*self);
        }
        let mut instances: Vec<AppInstance<W>> = Vec::new();
        core::mem::swap(&mut instances, &mut self.instances);
        instances
    }

    /// Makes `instances` the registry.
    pub(crate) fn put(&mut self, instances: Vec<AppInstance<W>>)
        requires
            unique_instances(views_of(instances@)),
        ensures
            final(self).entries() == instances@,
            final(self)@ == views_of(instances@),
    {
        self.instances = instances;
    }

    /// Where the window's instance stands.
    pub(crate) fn position(&self, window_id: u64) -> (position: Option<usize>)
        ensures
            unique_instances(self@),
            match position {
                Some(i) => has_instance(self@, window_id) && i == position_of(self@, window_id),
                None => !has_instance(self@, window_id),
            },
    {
        proof {
            use_type_invariant(self);
        }
        let mut i: usize = 0;
        while i < self.instances.len()
            invariant
                i <= self.instances@.len(),
                unique_instances(self@),
                forall|k: int| 0 <= k < i ==> (#[trigger] self@[k]).handle.window_id != window_id,
            decreases self.instances@.len() - i,
        {
            if self.instances[i].handle.window_id == window_id {
                proof {
                    lemma_position_is_unique(self@, window_id, i as int);
                }
                return Some(i);
            }
            i += 1;
        }
        None
    }

    /// The window's instance, if it has one.
    pub fn find(&self, window_id: u64) -> (found: Option<&AppInstance<W>>)
        ensures
            match found {
                Some(instance) => find_instance(self@, window_id) == Some(instance@),
                None => find_instance(self@, window_id) is None,
            },
    {
        match self.position(window_id) {
            Some(i) => Some(&self.instances[i]),
            None => None,
        }
    }

    /// Adds `instance`, unless its window has an instance already: then the
    /// registry stays as it is and `instance` comes back.
    pub fn create(&mut self, instance: AppInstance<W>) -> (created: Result<
        InstanceHandle,
        AppInstance<W>,
    >)
        ensures
            unique_instances(final(self)@),
            final(self)@ == with_instance(old(self)@, instance@),
            match created {
                Ok(handle) => !has_instance(old(self)@, instance.handle.window_id) && handle
                    == instance.handle,
                Err(rejected) => has_instance(old(self)@, instance.handle.window_id) && rejected
                    == instance,
            },
    {
        match self.position(instance.handle.window_id) {
            Some(_) => Err(instance),
            None => {
                let handle = instance.handle;
                let mut instances = self.take();
                instances.push(instance);
                proof {
                    assert(views_of(instances@) =~= old(self)@.push(instance@));
                    lemma_create_keeps_unique(old(self)@, instance@);
                }
                self.put(instances);
                Ok(handle)
            },
        }
    }

    /// Removes the window's instance and returns it; without one, nothing
    /// changes.
    pub fn remove(&mut self, window_id: u64) -> (removed: Option<AppInstance<W>>)
        ensures
            unique_instances(final(self)@),
            final(self)@ == without_instance(old(self)@, window_id),
            !has_instance(final(self)@, window_id),
            match removed {
                Some(instance) => find_instance(old(self)@, window_id) == Some(instance@),
                None => find_instance(old(self)@, window_id) is None,
            },
    {
        match self.position(window_id) {
            Some(i) => {
                let mut instances = self.take();
                let instance = instances.remove(i);
                proof {
                    assert(views_of(instances@) =~= old(self)@.remove(i as int));
                    lemma_remove_keeps_unique(old(self)@, window_id);
                }
                self.put(instances);
                Some(instance)
            },
            None => None,
        }
    }

    /// Hands each instance to `callback`, in the order of creation, and
    /// collects what it returns.
    pub fn for_each<R, F: Fn(&AppInstance<W>) -> R>(&self, callback: F) -> (results: Vec<R>)
        requires
            forall|instance: &AppInstance<W>| call_requires(callback, (instance,)),
        ensures
            results@.len() == self@.len(),
            forall|i: int|
                0 <= i < self@.len() ==> call_ensures(
                    callback,
                    (&self.entries()[i],),
                    #[trigger] results@[i],
                ),
    {
        let mut results: Vec<R> = Vec::new();
        let mut i: usize = 0;
        while i < self.instances.len()
            invariant
                i <= self.instances@.len(),
                results@.len() == i,
                forall|instance: &AppInstance<W>| call_requires(callback, (instance,)),
                forall|k: int|
                    0 <= k < i ==> call_ensures(
                        callback,
                        (&self.instances@[k],),
                        #[trigger] results@[k],
                    ),
            decreases self.instances@.len() - i,
        {
            let result = callback(&self.instances[i]);
            results.push(result);
            i += 1;
        }
        results
    }
}

/// A registry in which one instance got a new state, and nothing else
/// changed, is the registry with that state put in; its identities are as
/// unique as they were.
pub proof fn lemma_gfx_replaced<W>(
    before: Seq<AppInstanceView<W>>,
    after: Seq<AppInstanceView<W>>,
    window_id: u64,
    position: int,
)
    requires
        unique_instances(before),
        has_instance(before, window_id),
        position == position_of(before, window_id),
        after.len() == before.len(),
        forall|k: int| 0 <= k < before.len() && k != position ==> after[k] == before[k],
        after[position].window == before[position].window,
        after[position].handle == before[position].handle,
    ensures
        after == with_gfx(before, window_id, after[position].gfx),
        unique_instances(after),
{
    assert(after =~= with_gfx(before, window_id, after[position].gfx));
    assert forall|i: int, j: int| 0 <= i < j < after.len() implies (
    #[trigger] after[i]).handle.window_id != (#[trigger] after[j]).handle.window_id by {
        assert(after[i].handle == before[i].handle);
        assert(after[j].handle == before[j].handle);
        assert(before[i].handle.window_id != before[j].handle.window_id);
    }
}

/// Removing a window's instance from a registry with unique identities
/// leaves unique identities, none of them the window's.
pub proof fn lemma_remove_keeps_unique<W>(instances: Seq<AppInstanceView<W>>, window_id: u64)
    requires
        unique_instances(instances),
    ensures
        unique_instances(without_instance(instances, window_id)),
        !has_instance(without_instance(instances, window_id), window_id),
{
    let after = without_instance(instances, window_id);
    if has_instance(instances, window_id) {
        let p = position_of(instances, window_id);
        assert forall|i: int, j: int| 0 <= i < j < after.len() implies (
        #[trigger] after[i]).handle.window_id != (#[trigger] after[j]).handle.window_id by {
            let a = if i < p { i } else { i + 1 };
            let b = if j < p { j } else { j + 1 };
            assert(after[i] == instances[a]);
            assert(after[j] == instances[b]);
            assert(instances[a].handle.window_id != instances[b].handle.window_id);
        }
        assert forall|i: int| 0 <= i < after.len() implies (
        #[trigger] after[i]).handle.window_id != window_id by {
            let a = if i < p { i } else { i + 1 };
            assert(after[i] == instances[a]);
            if a < p {
                assert(instances[a].handle.window_id != instances[p].handle.window_id);
            } else {
                assert(instances[p].handle.window_id != instances[a].handle.window_id);
            }
        }
    }
}

/// Adding an instance to a registry with unique identities leaves unique
/// identities.
pub proof fn lemma_create_keeps_unique<W>(
    instances: Seq<AppInstanceView<W>>,
    instance: AppInstanceView<W>,
)
    requires
        unique_instances(instances),
    ensures
        unique_instances(with_instance(instances, instance)),
        has_instance(with_instance(instances, instance), instance.handle.window_id),
{
    let after = with_instance(instances, instance);
    if has_instance(instances, instance.handle.window_id) {
    } else {
        assert forall|i: int, j: int| 0 <= i < j < after.len() implies (
        #[trigger] after[i]).handle.window_id != (#[trigger] after[j]).handle.window_id by {
            if j < instances.len() {
                assert(instances[i].handle.window_id != instances[j].handle.window_id);
            } else {
                assert(instances[i].handle.window_id != instance.handle.window_id);
            }
        }
        assert(after[instances.len() as int].handle.window_id == instance.handle.window_id);
    }
}

/// One change of the registry: an instance is offered, or a window's
/// instance is destroyed.
pub enum RegistryStep<W> {
    Create(AppInstanceView<W>),
    Destroy(u64),
}

/// The registry after one step.
pub open spec fn registry_after_step<W>(
    instances: Seq<AppInstanceView<W>>,
    step: RegistryStep<W>,
) -> Seq<AppInstanceView<W>> {
    match step {
        RegistryStep::Create(instance) => with_instance(instances, instance),
        RegistryStep::Destroy(window_id) => without_instance(instances, window_id),
    }
}

/// The registry after the steps were taken in order, starting with no
/// instance at all.
pub open spec fn registry_after<W>(steps: Seq<RegistryStep<W>>) -> Seq<AppInstanceView<W>>
    decreases steps.len(),
{
    if steps.len() == 0 {
        Seq::empty()
    } else {
        registry_after_step(registry_after(steps.drop_last()), steps.last())
    }
}

/// Whatever instances are created and destroyed, in whatever order, no
/// window ever has two instances.
pub proof fn lemma_registry_stays_unique<W>(steps: Seq<RegistryStep<W>>)
    ensures
        unique_instances(registry_after(steps)),
    decreases steps.len(),
{
    if steps.len() > 0 {
        let before = registry_after(steps.drop_last());
        lemma_registry_stays_unique(steps.drop_last());
        match steps.last() {
            RegistryStep::Create(instance) => {
                lemma_create_keeps_unique(before, instance);
            },
            RegistryStep::Destroy(window_id) => {
                lemma_remove_keeps_unique(before, window_id);
            },
        }
    }
}

/// Once a window's instance is removed it cannot be found, and every other
/// window finds what it found before.
pub proof fn lemma_find_after_remove<W>(
    instances: Seq<AppInstanceView<W>>,
    window_id: u64,
    other: u64,
)
    requires
        unique_instances(instances),
    ensures
        find_instance(without_instance(instances, window_id), window_id) is None,
        other != window_id ==> find_instance(without_instance(instances, window_id), other)
            == find_instance(instances, other),
{
    lemma_remove_keeps_unique(instances, window_id);
    let after = without_instance(instances, window_id);
    if has_instance(instances, window_id) && other != window_id {
        let p = position_of(instances, window_id);
        if has_instance(instances, other) {
            let q = position_of(instances, other);
            let q_after = if q < p {
                q
            } else {
                q - 1
            };
            assert(after[q_after] == instances[q]);
            lemma_position_is_unique(after, other, q_after);
        } else {
            if has_instance(after, other) {
                let q_after = position_of(after, other);
                let q = if q_after < p {
                    q_after
                } else {
                    q_after + 1
                };
                assert(after[q_after] == instances[q]);
                assert(instances[q].handle.window_id == other);
            }
        }
    }
}

/// Replacing the state of one window's instance leaves every other window's
/// instance as it was, and at its place.
pub proof fn lemma_with_gfx_keeps_others<W>(
    instances: Seq<AppInstanceView<W>>,
    window_id: u64,
    gfx: GfxStateView,
    other: u64,
)
    requires
        unique_instances(instances),
        other != window_id,
    ensures
        unique_instances(with_gfx(instances, window_id, gfx)),
        has_instance(with_gfx(instances, window_id, gfx), other) == has_instance(instances, other),
        has_instance(with_gfx(instances, window_id, gfx), window_id) == has_instance(
            instances,
            window_id,
        ),
        has_instance(instances, other) ==> position_of(with_gfx(instances, window_id, gfx), other)
            == position_of(instances, other),
        has_instance(instances, window_id) ==> position_of(
            with_gfx(instances, window_id, gfx),
            window_id,
        ) == position_of(instances, window_id),
        find_instance(with_gfx(instances, window_id, gfx), other) == find_instance(
            instances,
            other,
        ),
{
    let after = with_gfx(instances, window_id, gfx);
    if has_instance(instances, window_id) {
        let p = position_of(instances, window_id);
        assert forall|i: int, j: int| 0 <= i < j < after.len() implies (
        #[trigger] after[i]).handle.window_id != (#[trigger] after[j]).handle.window_id by {
            assert(after[i].handle == instances[i].handle);
            assert(after[j].handle == instances[j].handle);
            assert(instances[i].handle.window_id != instances[j].handle.window_id);
        }
        lemma_position_is_unique(after, window_id, p);
        if has_instance(instances, other) {
            let q = position_of(instances, other);
            assert(after[q] == instances[q]);
            lemma_position_is_unique(after, other, q);
        } else {
            if has_instance(after, other) {
                let q = position_of(after, other);
                assert(instances[q].handle.window_id == other);
            }
        }
    }
}

} // verus!
