use crate::context::{Core, CoreView};
use crate::geometry::SurfaceGeom;
use crate::handle::Handle;
use crate::math::Transform;
use crate::topology::Surface;
use std::collections::HashMap;
use vstd::prelude::*;

verus! {

broadcast use vstd::std_specs::hash::group_hash_axioms;

/// What one transform operation has transformed so far: for each object
/// that it was asked to transform, the handle that it made for it.
pub struct TransformCache {
    surfaces: HashMap<u64, Handle<Surface>>,
}

impl View for TransformCache {
    type V = Map<u64, u64>;

    /// From the slot of each object that was transformed to the slot of
    /// what it became.
    closed spec fn view(&self) -> Map<u64, u64> {
        self.surfaces@.map_values(|handle: Handle<Surface>| handle.id())
    }
}

impl TransformCache {
    /// The cache of an operation that has transformed nothing yet.
    pub fn new() -> (cache: Self)
        ensures
            cache@ == Map::<u64, u64>::empty(),
    {
        let cache = TransformCache { surfaces: HashMap::new() };
        assert(cache@ =~= Map::<u64, u64>::empty());
        cache
    }
}

impl CoreView {
    /// Whether the surface can be transformed: it comes from the store of
    /// the context, its embedding is defined, the moved embedding fits the
    /// machine's integers, and the store has a slot for the new surface.
    pub open spec fn surface_is_transformable(self, surface: u64, transform: Transform) -> bool {
        &&& self.knows(surface)
        &&& self.geometry.surfaces.contains_key(surface)
        &&& self.geometry.surfaces[surface].geometry.fits(&transform)
        &&& self.next < u64::MAX
    }

    /// The context after the surface was transformed anew: a new surface in
    /// the next slot, with the moved embedding.
    pub open spec fn with_transformed_surface(self, surface: u64, transform: Transform) -> CoreView {
        CoreView {
            next: (self.next + 1) as u64,
            provenance: self.provenance,
            geometry: self.geometry.define_surface(
                self.next,
                SurfaceGeom {
                    geometry: self.geometry.surfaces[surface].geometry.transformed(&transform),
                },
            ),
        }
    }
}

/// The slot of the transformed surface: the one that the cache holds for
/// `surface`, and else the next free slot.
pub open spec fn transformed_slot(cache: Map<u64, u64>, core: CoreView, surface: u64) -> u64 {
    if cache.contains_key(surface) {
        cache[surface]
    } else {
        core.next
    }
}

/// The cache after `surface` was transformed: it holds the slot returned.
pub open spec fn cache_after(cache: Map<u64, u64>, core: CoreView, surface: u64) -> Map<u64, u64> {
    cache.insert(surface, transformed_slot(cache, core, surface))
}

/// The context after `surface` was transformed: unchanged where the cache
/// held it, and else with the new surface.
pub open spec fn core_after(
    cache: Map<u64, u64>,
    core: CoreView,
    surface: u64,
    transform: Transform,
) -> CoreView {
    if cache.contains_key(surface) {
        core
    } else {
        core.with_transformed_surface(surface, transform)
    }
}

/// Whether `transform_with_cache` can be called with these arguments.
pub fn can_transform_with_cache(
    surface: &Handle<Surface>,
    transform: &Transform,
    core: &Core,
    cache: &TransformCache,
) -> (possible: bool)
    ensures
        possible == (cache@.contains_key(surface.id()) || core@.surface_is_transformable(
            surface.id(),
            *transform,
        )),
{
    let key: u64 = surface.slot();
    if cache.surfaces.get(&key).is_some() {
        return true;
    }
    if core.store.room() == 0 || !core.store.has_issued(surface) {
        return false;
    }
    match core.geometry.of_surface(surface) {
        Some(entry) => entry.geometry.can_transform(transform),
        None => false,
    }
}

/// Transforms a surface, once per cache: where the cache holds a
/// transformed surface for `surface`, that one is returned and nothing
/// changes; else a new surface is inserted, given the moved embedding,
/// remembered in the cache and returned.
pub fn transform_with_cache(
    surface: &Handle<Surface>,
    transform: &Transform,
    core: &mut Core,
    cache: &mut TransformCache,
) -> (transformed: Handle<Surface>)
    requires
        old(cache)@.contains_key(surface.id()) || old(core)@.surface_is_transformable(
            surface.id(),
            *transform,
        ),
    ensures
        transformed.id() == transformed_slot(old(cache)@, old(core)@, surface.id()),
        final(cache)@ == cache_after(old(cache)@, old(core)@, surface.id()),
        final(core)@ == core_after(old(cache)@, old(core)@, surface.id(), *transform),
{
    let key: u64 = surface.slot();
    match cache.surfaces.get(&key) {
        Some(known) => {
            let transformed = known.clone();
            assert(cache@ =~= cache_after(cache@, core@, key));
            return transformed;
        },
        None => {},
    }
    let made = core.store.insert(Surface::new());
    let geometry = core.geometry.of_surface(surface).unwrap().geometry.transform(transform);
    core.geometry.define_surface(made.clone(), SurfaceGeom { geometry });
    cache.surfaces.insert(key, made.clone());
    assert(cache@ =~= cache_after(old(cache)@, old(core)@, key));
    made
}

/// Within one cache an object is transformed once: asking again for the
/// same object returns the same handle and changes neither the cache nor
/// the context.
pub proof fn transform_is_shared(
    cache: Map<u64, u64>,
    core: CoreView,
    surface: u64,
    transform: Transform,
)
    ensures
        ({
            let first = transformed_slot(cache, core, surface);
            let cache_then = cache_after(cache, core, surface);
            let core_then = core_after(cache, core, surface, transform);
            &&& cache_then.contains_key(surface)
            &&& transformed_slot(cache_then, core_then, surface) == first
            &&& cache_after(cache_then, core_then, surface) == cache_then
            &&& core_after(cache_then, core_then, surface, transform) == core_then
        }),
{
    let cache_then = cache_after(cache, core, surface);
    let core_then = core_after(cache, core, surface, transform);
    assert(cache_after(cache_then, core_then, surface) =~= cache_then);
}

/// Transforming a surface touches nothing but the new surface: the
/// positions of the vertices, the paths of the curves and the embedding of
/// every surface that the store of the context handed out stay as they
/// were.
pub proof fn transform_keeps_other_geometry(
    cache: Map<u64, u64>,
    core: CoreView,
    surface: u64,
    transform: Transform,
    other: u64,
)
    requires
        core.knows(other),
    ensures
        ({
            let after = core_after(cache, core, surface, transform);
            &&& after.geometry.vertices == core.geometry.vertices
            &&& after.geometry.curves == core.geometry.curves
            &&& after.provenance == core.provenance
            &&& after.geometry.surfaces.contains_key(other)
                == core.geometry.surfaces.contains_key(other)
            &&& core.geometry.surfaces.contains_key(other) ==> after.geometry.surfaces[other]
                == core.geometry.surfaces[other]
        }),
{
}

/// A surface that is transformed anew gets the image of the embedding of
/// its source.
pub proof fn transformed_surface_has_the_image(
    cache: Map<u64, u64>,
    core: CoreView,
    surface: u64,
    transform: Transform,
)
    requires
        !cache.contains_key(surface),
    ensures
        ({
            let after = core_after(cache, core, surface, transform);
            let made = transformed_slot(cache, core, surface);
            &&& made == core.next
            &&& after.geometry.surfaces.contains_key(made)
            &&& after.geometry.surfaces[made].geometry
                == core.geometry.surfaces[surface].geometry.transformed(&transform)
        }),
{
}

/// Transforming another object leaves what the cache holds of an object
/// that was transformed before.
pub proof fn transform_keeps_earlier_results(
    cache: Map<u64, u64>,
    core: CoreView,
    earlier: u64,
    surface: u64,
)
    requires
        cache.contains_key(earlier),
    ensures
        cache_after(cache, core, surface).contains_key(earlier),
        cache_after(cache, core, surface)[earlier] == cache[earlier],
{
}

} // verus!
