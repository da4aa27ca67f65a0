//! The table that owns every registered object and issues the handles.

use crate::error::{ErrorKind, Failure, FailureView};
use crate::object::{
    handle_not_found, handles_exhausted, type_mismatch, AnyIndyObject, IndyObject,
};
use std::collections::HashMap;
use vstd::prelude::*;

verus! {

/// A handle: a number that names one registered object and has no other
/// meaning. Zero names no object.
#[derive(Clone, Copy, Debug, PartialEq, Eq, Hash, Structural)]
pub struct ObjectHandle(pub usize);

/// What a registry holds: the live objects by handle, and how many handles
/// it has issued since it was made.
pub struct RegistryView {
    pub objects: Map<ObjectHandle, IndyObject>,
    pub issued: nat,
}

impl RegistryView {
    /// The registry that has issued no handle.
    pub open spec fn empty() -> RegistryView {
        RegistryView { objects: Map::empty(), issued: 0 }
    }

    /// Every live handle is one of those issued so far, and the count of
    /// issued handles is a machine number.
    pub open spec fn wf(self) -> bool {
        &&& self.issued <= usize::MAX
        &&& forall|h: ObjectHandle| #[trigger]
            self.objects.contains_key(h) ==> 1 <= h.0 <= self.issued
    }

    /// Whether the handle has been issued, live or released since.
    pub open spec fn was_issued(self, handle: ObjectHandle) -> bool {
        1 <= handle.0 <= self.issued
    }

    /// Whether every handle has been issued.
    pub open spec fn exhausted(self) -> bool {
        self.issued >= usize::MAX
    }

    /// The handle that the next object gets.
    pub open spec fn next_handle(self) -> ObjectHandle {
        ObjectHandle((self.issued + 1) as usize)
    }

    /// The registry after it has taken in `object`.
    pub open spec fn create(self, object: IndyObject) -> RegistryView {
        RegistryView {
            objects: self.objects.insert(self.next_handle(), object),
            issued: self.issued + 1,
        }
    }

    /// The registry after it has given up `handle`.
    pub open spec fn release(self, handle: ObjectHandle) -> RegistryView {
        RegistryView { objects: self.objects.remove(handle), issued: self.issued }
    }
}

/// What resolving `handle` to an object of type `O` gives: the object, a
/// failure for a handle that is not live, or a failure for an object of
/// another type.
pub open spec fn resolve_spec<O: AnyIndyObject>(
    registry: RegistryView,
    handle: ObjectHandle,
) -> Result<IndyObject, FailureView> {
    if !registry.objects.contains_key(handle) {
        Err(handle_not_found())
    } else if registry.objects[handle].type_tag_spec() != O::tag_spec() {
        Err(type_mismatch(O::tag_spec(), registry.objects[handle].type_tag_spec()))
    } else {
        Ok(registry.objects[handle])
    }
}

/// One operation on a registry.
pub enum Step {
    Create(IndyObject),
    Release(ObjectHandle),
}

impl RegistryView {
    /// The registry after one operation. An operation that fails (a create
    /// on an exhausted registry, a release of a handle that is not live)
    /// leaves it as it was.
    pub open spec fn step(self, step: Step) -> RegistryView {
        match step {
            Step::Create(object) => if self.exhausted() {
                self
            } else {
                self.create(object)
            },
            Step::Release(handle) => if self.objects.contains_key(handle) {
                self.release(handle)
            } else {
                self
            },
        }
    }

    /// The registry after a sequence of operations, in any interleaving of
    /// the callers that made them.
    pub open spec fn run(self, steps: Seq<Step>) -> RegistryView
        decreases steps.len(),
    {
        if steps.len() == 0 {
            self
        } else {
            self.run(steps.drop_last()).step(steps.last())
        }
    }

    /// Whether operation `i` of `steps`, run from this registry, is a create
    /// that succeeds.
    pub open spec fn creates_at(self, steps: Seq<Step>, i: int) -> bool {
        &&& 0 <= i < steps.len()
        &&& steps[i] is Create
        &&& !self.run(steps.take(i)).exhausted()
    }

    /// The handle that operation `i` of `steps` returns, where it is a
    /// create that succeeds.
    pub open spec fn handle_at(self, steps: Seq<Step>, i: int) -> ObjectHandle {
        self.run(steps.take(i)).next_handle()
    }
}

/// Loading the handle that a create returned gives back the object that was
/// created. The handle was not live before, and every object that was live
/// before is still there, under its handle and unchanged.
pub proof fn lemma_create_then_load(registry: RegistryView, object: IndyObject)
    requires
        registry.wf(),
        !registry.exhausted(),
    ensures
        registry.create(object).wf(),
        !registry.objects.contains_key(registry.next_handle()),
        !registry.was_issued(registry.next_handle()),
        registry.create(object).objects.contains_key(registry.next_handle()),
        registry.create(object).objects[registry.next_handle()] == object,
        forall|h: ObjectHandle| #[trigger]
            registry.objects.contains_key(h) ==> registry.create(object).objects.contains_key(h)
                && registry.create(object).objects[h] == registry.objects[h],
{
}

/// An object that was created as a value of one type resolves as that type
/// and as no other: asking for another type gives a `TypeMismatch` that
/// names both, never a value.
pub proof fn lemma_resolve_tells_the_type<A: AnyIndyObject, B: AnyIndyObject>(
    registry: RegistryView,
    value: A,
)
    requires
        registry.wf(),
        !registry.exhausted(),
        A::tag_spec() != B::tag_spec(),
    ensures
        resolve_spec::<A>(registry.create(value.wrap_spec()), registry.next_handle()) == Ok::<
            IndyObject,
            FailureView,
        >(value.wrap_spec()),
        resolve_spec::<B>(registry.create(value.wrap_spec()), registry.next_handle()) == Err::<
            IndyObject,
            FailureView,
        >(type_mismatch(B::tag_spec(), A::tag_spec())),
{
    value.lemma_wrap_tag();
}

/// After a release the handle is not live, and every other object is still
/// there, under its handle and unchanged.
pub proof fn lemma_release_then_load(registry: RegistryView, handle: ObjectHandle)
    requires
        registry.wf(),
    ensures
        registry.release(handle).wf(),
        !registry.release(handle).objects.contains_key(handle),
        forall|h: ObjectHandle|
            h != handle && #[trigger] registry.objects.contains_key(h) ==> registry.release(
                handle,
            ).objects.contains_key(h) && registry.release(handle).objects[h]
                == registry.objects[h],
{
}

/// No sequence of operations breaks the invariant or takes back a handle
/// that was issued.
pub proof fn lemma_run_keeps_issued(registry: RegistryView, steps: Seq<Step>)
    requires
        registry.wf(),
    ensures
        registry.run(steps).wf(),
        registry.run(steps).issued >= registry.issued,
    decreases steps.len(),
{
    if steps.len() > 0 {
        lemma_run_keeps_issued(registry, steps.drop_last());
    }
}

/// A handle that was released is never live again, whatever is created or
/// released afterwards: no later create returns it.
pub proof fn lemma_released_handle_stays_released(
    registry: RegistryView,
    handle: ObjectHandle,
    steps: Seq<Step>,
)
    requires
        registry.wf(),
        registry.objects.contains_key(handle),
    ensures
        !registry.release(handle).run(steps).objects.contains_key(handle),
        forall|i: int| #[trigger]
            registry.release(handle).creates_at(steps, i) ==> registry.release(handle).handle_at(
                steps,
                i,
            ) != handle,
    decreases steps.len(),
{
    let start = registry.release(handle);
    if steps.len() > 0 {
        lemma_released_handle_stays_released(registry, handle, steps.drop_last());
        lemma_run_keeps_issued(start, steps.drop_last());
    }
    assert forall|i: int| #[trigger] start.creates_at(steps, i) implies start.handle_at(steps, i)
        != handle by {
        lemma_run_keeps_issued(start, steps.take(i));
    }
}

/// The count of issued handles never falls along a sequence of operations.
pub proof fn lemma_issued_grows(registry: RegistryView, steps: Seq<Step>, i: int, j: int)
    requires
        registry.wf(),
        0 <= i <= j <= steps.len(),
    ensures
        registry.run(steps.take(i)).issued <= registry.run(steps.take(j)).issued,
        registry.run(steps.take(j)).wf(),
    decreases j - i,
{
    lemma_run_keeps_issued(registry, steps.take(j));
    if i < j {
        lemma_issued_grows(registry, steps, i, j - 1);
        assert(steps.take(j).drop_last() =~= steps.take(j - 1));
    }
}

/// Two creates that succeed return two different handles, wherever they
/// stand in the sequence of operations.
pub proof fn lemma_created_handles_differ(
    registry: RegistryView,
    steps: Seq<Step>,
    i: int,
    j: int,
)
    requires
        registry.wf(),
        i < j,
        registry.creates_at(steps, i),
        registry.creates_at(steps, j),
    ensures
        registry.handle_at(steps, i) != registry.handle_at(steps, j),
{
    lemma_issued_grows(registry, steps, i + 1, j);
    lemma_issued_grows(registry, steps, i, i + 1);
    assert(steps.take(i + 1).drop_last() =~= steps.take(i));
    assert(steps.take(i + 1).last() == steps[i]);
}

/// No entry is lost: an object that a create took in is live under the
/// handle that the create returned, and unchanged, for as long as no later
/// operation releases that handle.
pub proof fn lemma_created_object_stays(registry: RegistryView, steps: Seq<Step>, i: int)
    requires
        registry.wf(),
        registry.creates_at(steps, i),
        forall|k: int|
            i < k < steps.len() ==> #[trigger] steps[k] != Step::Release(
                registry.handle_at(steps, i),
            ),
    ensures
        registry.run(steps).objects.contains_key(registry.handle_at(steps, i)),
        registry.run(steps).objects[registry.handle_at(steps, i)] == steps[i]->Create_0,
    decreases steps.len(),
{
    let handle = registry.handle_at(steps, i);
    let before = steps.drop_last();
    if i == steps.len() - 1 {
        assert(steps.take(i) =~= before);
        lemma_run_keeps_issued(registry, before);
    } else {
        assert(before.take(i) =~= steps.take(i));
        assert forall|k: int| i < k < before.len() implies #[trigger] before[k] != Step::Release(
            registry.handle_at(before, i),
        ) by {
            assert(before[k] == steps[k]);
        }
        lemma_created_object_stays(registry, before, i);
        lemma_run_keeps_issued(registry, before);
        assert(steps.last() == steps[steps.len() - 1]);
    }
}

/// The object registry.
pub struct Registry {
    objects: HashMap<usize, IndyObject>,
    issued: usize,
}

impl View for Registry {
    type V = RegistryView;

    closed spec fn view(&self) -> RegistryView {
        RegistryView {
            objects: Map::new(
                |h: ObjectHandle| self.objects@.contains_key(h.0),
                |h: ObjectHandle| self.objects@[h.0],
            ),
            issued: self.issued as nat,
        }
    }
}

impl Registry {
    /// The invariant of a registry.
    pub open spec fn wf(&self) -> bool {
        self@.wf()
    }

    /// A registry that holds nothing and has issued no handle.
    pub fn new() -> (registry: Registry)
        ensures
            registry@ == RegistryView::empty(),
            registry.wf(),
    {
        let registry = Registry { objects: HashMap::new(), issued: 0 };
        assert(registry@.objects =~= Map::empty());
        registry
    }

    /// A registry that holds nothing and counts the first `issued` handles as
    /// issued already: the next object gets the handle after them.
    pub fn starting_after(issued: usize) -> (registry: Registry)
        ensures
            registry@ == (RegistryView { objects: Map::empty(), issued: issued as nat }),
            registry.wf(),
    {
        let registry = Registry { objects: HashMap::new(), issued };
        assert(registry@.objects =~= Map::empty());
        registry
    }

    /// How many handles the registry can still issue.
    pub fn remaining(&self) -> (n: usize)
        ensures
            n == usize::MAX - self@.issued,
    {
        usize::MAX - self.issued
    }

    /// Takes ownership of `value` and returns the fresh handle that names
    /// it. Fails only when every handle has been issued.
    pub fn create<O: AnyIndyObject>(&mut self, value: O) -> (result: Result<ObjectHandle, Failure>)
        requires
            old(self).wf(),
        ensures
            final(self).wf(),
            match result {
                Ok(handle) => {
                    &&& !old(self)@.exhausted()
                    &&& handle == old(self)@.next_handle()
                    &&& final(self)@ == old(self)@.create(value.wrap_spec())
                },
                Err(failure) => {
                    &&& old(self)@.exhausted()
                    &&& final(self)@ == old(self)@
                    &&& failure@ == handles_exhausted()
                },
            },
    {
        if self.issued == usize::MAX {
            return Err(Failure::new(ErrorKind::Resource, "Object handles are exhausted"));
        }
        let number: usize = self.issued + 1;
        self.issued = number;
        self.objects.insert(number, value.into_object());
        assert(self@.objects =~= old(self)@.create(value.wrap_spec()).objects);
        Ok(ObjectHandle(number))
    }

    /// Whether `handle` names a live object.
    pub fn contains(&self, handle: ObjectHandle) -> (live: bool)
        ensures
            live == self@.objects.contains_key(handle),
    {
        self.objects.contains_key(&handle.0)
    }

    /// The object that `handle` names.
    pub fn load(&self, handle: ObjectHandle) -> (result: Result<&IndyObject, Failure>)
        ensures
            match result {
                Ok(object) => self@.objects.contains_key(handle) && *object
                    == self@.objects[handle],
                Err(failure) => !self@.objects.contains_key(handle) && failure@
                    == handle_not_found(),
            },
    {
        match self.objects.get(&handle.0) {
            Some(object) => Ok(object),
            None => Err(Failure::new(ErrorKind::HandleNotFound, "Invalid object handle")),
        }
    }

    /// The object that `handle` names, as a value of type `O`.
    pub fn resolve<O: AnyIndyObject>(&self, handle: ObjectHandle) -> (result: Result<&O, Failure>)
        ensures
            match result {
                Ok(value) => resolve_spec::<O>(self@, handle) == Ok::<IndyObject, FailureView>(
                    value.wrap_spec(),
                ),
                Err(failure) => resolve_spec::<O>(self@, handle) == Err::<IndyObject, FailureView>(
                    failure@,
                ),
            },
    {
        match self.load(handle) {
            Ok(object) => object.cast_ref::<O>(),
            Err(failure) => Err(failure),
        }
    }

    /// Removes the object that `handle` names and hands it back. The handle
    /// names nothing from then on; releasing it again fails.
    pub fn release(&mut self, handle: ObjectHandle) -> (result: Result<IndyObject, Failure>)
        requires
            old(self).wf(),
        ensures
            final(self).wf(),
            match result {
                Ok(object) => {
                    &&& old(self)@.objects.contains_key(handle)
                    &&& object == old(self)@.objects[handle]
                    &&& final(self)@ == old(self)@.release(handle)
                },
                Err(failure) => {
                    &&& !old(self)@.objects.contains_key(handle)
                    &&& final(self)@ == old(self)@
                    &&& failure@ == handle_not_found()
                },
            },
    {
        match self.objects.remove(&handle.0) {
            Some(object) => {
                assert(self@.objects =~= old(self)@.release(handle).objects);
                Ok(object)
            },
            None => {
                assert(self@.objects =~= old(self)@.objects);
                Err(Failure::new(ErrorKind::HandleNotFound, "Invalid object handle"))
            },
        }
    }
}

} // verus!
