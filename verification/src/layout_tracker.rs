//! The layout each array layer of each tracked Vulkan image is in.
use vstd::prelude::*;

use rustc_hash::FxHashMap;

use crate::fx_table::{fx_contains_key, fx_get, fx_insert, fx_remove};

verus! {

/// Misuse of the layout tracker.
#[derive(Debug, Clone, Copy, PartialEq, Eq, Structural)]
pub enum LayoutTrackerError {
    RegisteredNewImageTwice(u64),
    UnregisteredNonexistentImage(u64),
}

/// The layouts (`VkImageLayout`) of the array layers of each tracked image, by image handle.
pub struct ImageLayoutTracker {
    map: FxHashMap<u64, Vec<i32>>,
}

/// `count` layers, all in `layout`.
pub open spec fn uniform_layouts(layout: i32, count: nat) -> Seq<i32> {
    Seq::new(count, |_i: int| layout)
}

impl ImageLayoutTracker {
    /// The tracked images and their layers' layouts.
    pub closed spec fn layouts(&self) -> Map<u64, Vec<i32>> {
        self.map@
    }

    /// A tracker of no images.
    pub fn new() -> (r: Self)
        ensures
            r.layouts() == Map::<u64, Vec<i32>>::empty(),
    {
        ImageLayoutTracker { map: FxHashMap::default() }
    }

    /// Starts tracking an image whose `array_layers` layers are all in `initial_layout`; an
    /// image that is already tracked is refused and nothing changes.
    pub fn register_image(&mut self, image: u64, initial_layout: i32, array_layers: usize) -> (r:
        Result<(), LayoutTrackerError>)
        ensures
            old(self).layouts().contains_key(image) ==> r == Err::<(), LayoutTrackerError>(
                LayoutTrackerError::RegisteredNewImageTwice(image),
            ) && final(self).layouts() == old(self).layouts(),
            !old(self).layouts().contains_key(image) ==> r is Ok && exists|layers: Vec<i32>|
                layers@ == uniform_layouts(initial_layout, array_layers as nat) && final(
                    self).layouts() == old(self).layouts().insert(image, layers),
    {
        if fx_contains_key(&self.map, &image) {
            return Err(LayoutTrackerError::RegisteredNewImageTwice(image));
        }
        let mut layers: Vec<i32> = Vec::new();
        let mut i: usize = 0;
        while i < array_layers
            invariant
                i <= array_layers,
                layers@ == uniform_layouts(initial_layout, i as nat),
            decreases array_layers - i,
        {
            layers.push(initial_layout);
            proof {
                assert(layers@ =~= uniform_layouts(initial_layout, (i + 1) as nat));
            }
            i = i + 1;
        }
        let ghost inserted = layers;
        fx_insert(&mut self.map, image, layers);
        assert(self.map@ == old(self).map@.insert(image, inserted));
        Ok(())
    }

    /// Stops tracking an image; one that is not tracked is refused and nothing changes.
    pub fn unregister_image(&mut self, image: u64) -> (r: Result<(), LayoutTrackerError>)
        ensures
            old(self).layouts().contains_key(image) ==> r is Ok
                && final(self).layouts() == old(self).layouts().remove(image),
            !old(self).layouts().contains_key(image) ==> r == Err::<(), LayoutTrackerError>(
                LayoutTrackerError::UnregisteredNonexistentImage(image),
            ) && final(self).layouts() == old(self).layouts(),
    {
        match fx_remove(&mut self.map, &image) {
            Some(_) => Ok(()),
            None => {
                proof {
                    assert(self.map@ =~= old(self).map@);
                }
                Err(LayoutTrackerError::UnregisteredNonexistentImage(image))
            },
        }
    }

    /// Records the layouts an image's layers are in now.
    pub fn set_layouts(&mut self, image: u64, layouts: Vec<i32>)
        ensures
            final(self).layouts() == old(self).layouts().insert(image, layouts),
    {
        fx_insert(&mut self.map, image, layouts);
    }

    /// The layouts of an image's layers, where it is tracked.
    pub fn layouts_of(&self, image: u64) -> (r: Option<&Vec<i32>>)
        ensures
            self.layouts().contains_key(image) ==> r == Some(&self.layouts()[image]),
            !self.layouts().contains_key(image) ==> r is None,
    {
        fx_get(&self.map, &image)
    }
}


/// Unregistering an image right after registering it leaves the tracker as it was.
pub proof fn law_unregister_undoes_register(tracked_before: Map<u64, Vec<i32>>, image: u64, layers: Vec<i32>)
    requires
        !tracked_before.contains_key(image),
    ensures
        tracked_before.insert(image, layers).remove(image) == tracked_before,
{
    assert(tracked_before.insert(image, layers).remove(image) =~= tracked_before);
}

} // verus!
