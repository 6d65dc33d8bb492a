use vstd::prelude::*;

verus! {

/// GPU resources (textures, uniform buffers, custom pipelines) held in the
/// order they were added; a resource's id is its position.
pub struct ResourceStore<T> {
    items: Vec<T>,
}

impl<T> View for ResourceStore<T> {
    type V = Seq<T>;

    closed spec fn view(&self) -> Seq<T> {
        self.items@
    }
}

/// What `id` selects in `items`, falling back to `fallback` when there is no
/// id or no item with it.
pub open spec fn resolved<T>(items: Seq<T>, id: Option<usize>, fallback: T) -> T {
    match id {
        Some(i) => if i < items.len() {
            items[i as int]
        } else {
            fallback
        },
        None => fallback,
    }
}

impl<T> ResourceStore<T> {
    /// An empty store.
    pub fn new() -> (r: Self)
        ensures
            r@ == Seq::<T>::empty(),
    {
        ResourceStore { items: Vec::new() }
    }

    /// Adds a resource and returns its id: the number of resources before it.
    pub fn insert(&mut self, item: T) -> (id: usize)
        ensures
            id == old(self)@.len(),
            final(self)@ == old(self)@.push(item),
    {
        let id = self.items.len();
        self.items.push(item);
        id
    }

    /// The resource with `id`, if there is one.
    pub fn get(&self, id: usize) -> (r: Option<&T>)
        ensures
            r is Some <==> id < self@.len(),
            r matches Some(x) ==> *x == self@[id as int],
    {
        if id < self.items.len() {
            Some(&self.items[id])
        } else {
            None
        }
    }

    /// The resource that `id` selects, or `fallback` when there is none
    /// (no id given, or no resource with it).
    pub fn get_or<'a>(&'a self, id: Option<usize>, fallback: &'a T) -> (r: &'a T)
        ensures
            *r == resolved(self@, id, *fallback),
    {
        match id {
            Some(i) => if i < self.items.len() {
                &self.items[i]
            } else {
                fallback
            },
            None => fallback,
        }
    }

    /// Replaces the resource with `id`; every other resource stays.
    pub fn replace(&mut self, id: usize, item: T)
        requires
            id < old(self)@.len(),
        ensures
            final(self)@ == old(self)@.update(id as int, item),
    {
        self.items.set(id, item);
    }

    /// Number of resources held.
    pub fn len(&self) -> (r: usize)
        ensures
            r == self@.len(),
    {
        self.items.len()
    }
}

/// An added resource is found again under the id it was given, and every
/// resource added before keeps its id.
pub proof fn law_insert_then_get<T>(items: Seq<T>, item: T, fallback: T, other: usize)
    requires
        items.len() < usize::MAX,
    ensures
        resolved(items.push(item), Some(items.len() as usize), fallback) == item,
        other < items.len() ==> resolved(items.push(item), Some(other), fallback)
            == resolved(items, Some(other), fallback),
{
}

/// A replaced resource is found under its id; the others are unchanged.
pub proof fn law_replace_then_get<T>(items: Seq<T>, id: usize, item: T, fallback: T, other: Option<usize>)
    requires
        id < items.len(),
    ensures
        resolved(items.update(id as int, item), Some(id), fallback) == item,
        other != Some(id) ==> resolved(items.update(id as int, item), other, fallback)
            == resolved(items, other, fallback),
{
}

} // verus!
