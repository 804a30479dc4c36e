//! Owning containers for native resources.
//!
//! A container holds the obligation to release one resource. The release
//! itself is carried out by whoever drives the native side; the container
//! decides whether a release is owed and hands the resource over at most once.

use vstd::prelude::*;

verus! {

/// A container that owns its resource outright: the resource can be borrowed
/// but never taken out, so disposing of the container always releases it.
#[derive(Debug)]
pub struct CBox<T> {
    resource: T,
}

impl<T> CBox<T> {
    /// The resource this container is responsible for.
    pub closed spec fn resource(&self) -> T {
        self.resource
    }

    /// The resources that disposing of this container releases.
    pub open spec fn releases(&self) -> Seq<T> {
        seq![self.resource()]
    }

    /// Wraps a freshly created resource.
    pub fn new(resource: T) -> (boxed: Self)
        ensures
            boxed.resource() == resource,
    {
        CBox { resource }
    }

    /// Borrows the resource for no longer than the container lives.
    pub fn as_ref(&self) -> (borrowed: &T)
        ensures
            *borrowed == self.resource(),
    {
        &self.resource
    }

    /// Borrows the resource for changes, for no longer than the container
    /// lives.
    pub fn as_mut(&mut self) -> (borrowed: &mut T)
        ensures
            *borrowed == old(self).resource(),
            final(self).resource() == *final(borrowed),
    {
        &mut self.resource
    }

    /// Turns the container into one whose resource may later be detached.
    pub fn into_semi(self) -> (semi: CSemiBox<T>)
        ensures
            semi == CSemiBox::fresh(self.resource()),
            semi.holds() == Some(self.resource()),
    {
        CSemiBox { slot: Some(self.resource) }
    }

    /// Ends the container's life and hands back the one resource to release.
    pub fn dispose(self) -> (released: T)
        ensures
            released == self.resource(),
    {
        self.resource
    }
}

/// A container that owns its resource until the resource is detached. After a
/// detachment the obligation to release lies with whoever received the
/// resource, and disposing of the container releases nothing.
#[derive(Debug)]
pub struct CSemiBox<T> {
    slot: Option<T>,
}

impl<T> CSemiBox<T> {
    /// The resource still held, if any.
    pub closed spec fn holds(&self) -> Option<T> {
        self.slot
    }

    /// The resources that disposing of this container releases.
    pub open spec fn releases(&self) -> Seq<T> {
        match self.holds() {
            Some(resource) => seq![resource],
            None => Seq::empty(),
        }
    }

    /// The container as it is once its resource has been detached.
    pub closed spec fn emptied(&self) -> Self {
        CSemiBox { slot: None }
    }

    /// The container as it is right after it was made around `resource`.
    pub closed spec fn fresh(resource: T) -> Self {
        CSemiBox { slot: Some(resource) }
    }

    /// Wraps a freshly created resource.
    pub fn new(resource: T) -> (boxed: Self)
        ensures
            boxed == Self::fresh(resource),
            boxed.holds() == Some(resource),
    {
        CSemiBox { slot: Some(resource) }
    }

    /// Whether the container still holds its resource.
    pub fn is_attached(&self) -> (attached: bool)
        ensures
            attached == self.holds().is_some(),
    {
        self.slot.is_some()
    }

    /// Borrows the resource for no longer than the container lives; `None`
    /// once the resource has been detached.
    pub fn as_ref(&self) -> (borrowed: Option<&T>)
        ensures
            borrowed.is_some() == self.holds().is_some(),
            borrowed.is_some() ==> *borrowed.unwrap() == self.holds().unwrap(),
    {
        self.slot.as_ref()
    }

    /// Borrows the resource for changes, for no longer than the container
    /// lives; `None` once the resource has been detached.
    pub fn as_mut(&mut self) -> (borrowed: Option<&mut T>)
        ensures
            borrowed.is_some() == old(self).holds().is_some(),
            borrowed matches Some(resource) ==> *resource == old(self).holds().unwrap()
                && final(self).holds() == Some(*final(resource)),
            borrowed.is_none() ==> *final(self) == *old(self),
    {
        self.slot.as_mut()
    }

    /// Transfers the resource, and with it the obligation to release it, out
    /// of the container. A second detachment finds nothing to hand over.
    pub fn detach(&mut self) -> (resource: Option<T>)
        ensures
            resource == old(self).holds(),
            final(self).holds().is_none(),
            *final(self) == old(self).emptied(),
    {
        self.slot.take()
    }

    /// Ends the container's life and hands back the resource to release, or
    /// `None` when the resource was detached before.
    pub fn dispose(self) -> (released: Option<T>)
        ensures
            released == self.holds(),
            released.is_some() ==> self.releases() == seq![released.unwrap()],
            released.is_none() ==> self.releases() == Seq::<T>::empty(),
    {
        self.slot
    }
}

/// A container from which the resource was detached holds nothing, and
/// detaching again changes nothing.
pub proof fn law_detach_leaves_nothing<T>(boxed: CSemiBox<T>)
    ensures
        boxed.emptied().holds().is_none(),
        boxed.emptied().releases().len() == 0,
        boxed.emptied().emptied() == boxed.emptied(),
{
}

/// Over the whole life of a container around `resource`, whatever number of
/// detachments happen before it is disposed of, the resource is released
/// exactly once when none happened and not at all otherwise; together, what
/// the first detachment hands over and what disposal releases is the resource
/// exactly once.
pub proof fn law_release_exactly_once<T>(resource: T, detachments: nat)
    ensures
        ({
            let fresh = CSemiBox::<T>::fresh(resource);
            let end = after_detachments(fresh, detachments);
            &&& fresh.holds() == Some(resource)
            &&& detachments == 0 ==> end.releases() == seq![resource]
            &&& detachments > 0 ==> end.releases().len() == 0
            &&& handed_over(fresh, detachments) + end.releases() == seq![resource]
        }),
    decreases detachments,
{
    let fresh = CSemiBox::<T>::fresh(resource);
    if detachments > 0 {
        law_release_exactly_once(resource, (detachments - 1) as nat);
        let before = after_detachments(fresh, (detachments - 1) as nat);
        if detachments == 1 {
            assert(before == fresh);
        } else {
            assert(before.holds().is_none());
            assert(before.releases().len() == 0);
            assert(before.releases() =~= Seq::<T>::empty());
        }
    }
    let end = after_detachments(fresh, detachments);
    assert(handed_over(fresh, detachments) + end.releases() =~= seq![resource]);
}

/// An owning container that was never turned into a detachable one releases
/// its resource exactly once.
pub proof fn law_owned_released_once<T>(boxed: CBox<T>)
    ensures
        boxed.releases().len() == 1,
        boxed.releases()[0] == boxed.resource(),
{
}

/// The container after `count` detachments.
pub open spec fn after_detachments<T>(boxed: CSemiBox<T>, count: nat) -> CSemiBox<T>
    decreases count,
{
    if count == 0 {
        boxed
    } else {
        after_detachments(boxed, (count - 1) as nat).emptied()
    }
}

/// The resources that `count` detachments in a row hand over, in order.
pub open spec fn handed_over<T>(boxed: CSemiBox<T>, count: nat) -> Seq<T>
    decreases count,
{
    if count == 0 {
        Seq::empty()
    } else {
        let before = after_detachments(boxed, (count - 1) as nat);
        handed_over(boxed, (count - 1) as nat) + before.releases()
    }
}

} // verus!
