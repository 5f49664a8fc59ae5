use vstd::prelude::*;

verus! {

/// The storage-image descriptor type, in the graphics API's numbering.
pub const STORAGE_IMAGE: i32 = 3;

/// How many descriptor sets the engine's pool holds.
pub const DESCRIPTOR_MAX_SETS: u32 = 10;

/// One binding of a descriptor set layout.
#[derive(Debug, Copy, Clone, PartialEq, Eq, Structural)]
pub struct LayoutBinding {
    pub binding: u32,
    pub descriptor_type: i32,
    pub count: u32,
    pub stage_flags: u32,
}

/// Collects the bindings of a descriptor set layout.
#[derive(Debug)]
pub struct DescriptorLayoutBuilder {
    pub bindings: Vec<LayoutBinding>,
}

/// `b` made visible to the shader stages `stages` as well.
pub open spec fn with_stages(b: LayoutBinding, stages: u32) -> LayoutBinding {
    LayoutBinding { stage_flags: b.stage_flags | stages, ..b }
}

impl DescriptorLayoutBuilder {
    /// A builder with no bindings.
    pub fn new() -> (r: Self)
        ensures
            r.bindings@ == Seq::<LayoutBinding>::empty(),
    {
        DescriptorLayoutBuilder { bindings: Vec::new() }
    }

    /// Adds binding number `binding`: one descriptor of `descriptor_type`,
    /// visible to no stage until `build`.
    pub fn add_binding(&mut self, binding: u32, descriptor_type: i32)
        ensures
            final(self).bindings@ == old(self).bindings@.push(
                LayoutBinding { binding, descriptor_type, count: 1, stage_flags: 0 },
            ),
    {
        self.bindings.push(LayoutBinding { binding, descriptor_type, count: 1, stage_flags: 0 });
    }

    /// Removes every binding.
    pub fn clear(&mut self)
        ensures
            final(self).bindings@ == Seq::<LayoutBinding>::empty(),
    {
        self.bindings.clear();
    }

    /// Makes every binding visible to `shader_stages` and returns the
    /// bindings of the layout to create.
    pub fn build(&mut self, shader_stages: u32) -> (r: Vec<LayoutBinding>)
        ensures
            final(self).bindings@ == old(self).bindings@.map_values(|b: LayoutBinding| with_stages(b, shader_stages)),
            r@ == final(self).bindings@,
    {
        let mut i: usize = 0;
        while i < self.bindings.len()
            invariant
                self.bindings@.len() == old(self).bindings@.len(),
                i <= self.bindings@.len(),
                forall|j: int| 0 <= j < i ==> #[trigger] self.bindings@[j] == with_stages(old(self).bindings@[j], shader_stages),
                forall|j: int| i <= j < self.bindings@.len() ==> #[trigger] self.bindings@[j] == old(self).bindings@[j],
            decreases self.bindings@.len() - i,
        {
            let b = self.bindings[i];
            self.bindings.set(i, LayoutBinding { stage_flags: b.stage_flags | shader_stages, ..b });
            i = i + 1;
        }
        assert(self.bindings@ =~= old(self).bindings@.map_values(|b: LayoutBinding| with_stages(b, shader_stages)));
        self.bindings.clone()
    }
}

/// How many descriptors of a type each set of a pool may take.
#[derive(Debug, Copy, Clone, PartialEq, Eq, Structural)]
pub struct PoolRatio {
    pub descriptor_type: i32,
    pub per_set: u32,
}

/// How many descriptors of a type a pool holds.
#[derive(Debug, Copy, Clone, PartialEq, Eq, Structural)]
pub struct PoolSize {
    pub descriptor_type: i32,
    pub count: u32,
}

/// The pool sizes for `max_sets` sets with the given per-set ratios, or
/// `None` when a count does not fit in 32 bits.
pub fn pool_sizes(max_sets: u32, ratios: &Vec<PoolRatio>) -> (r: Option<Vec<PoolSize>>)
    ensures
        r is Some <==> forall|j: int| 0 <= j < ratios@.len() ==> #[trigger] ratios@[j].per_set * max_sets <= u32::MAX,
        r is Some ==> r->Some_0@.len() == ratios@.len() && forall|j: int| 0 <= j < ratios@.len() ==>
            #[trigger] r->Some_0@[j] == (PoolSize {
                descriptor_type: ratios@[j].descriptor_type,
                count: (ratios@[j].per_set * max_sets) as u32,
            }),
{
    let mut out: Vec<PoolSize> = Vec::new();
    let mut i: usize = 0;
    while i < ratios.len()
        invariant
            i <= ratios@.len(),
            out@.len() == i,
            forall|j: int| 0 <= j < i ==> #[trigger] ratios@[j].per_set * max_sets <= u32::MAX,
            forall|j: int| 0 <= j < i ==> #[trigger] out@[j] == (PoolSize {
                descriptor_type: ratios@[j].descriptor_type,
                count: (ratios@[j].per_set * max_sets) as u32,
            }),
        decreases ratios@.len() - i,
    {
        let ratio = ratios[i];
        match ratio.per_set.checked_mul(max_sets) {
            Some(count) => out.push(PoolSize { descriptor_type: ratio.descriptor_type, count }),
            None => return None,
        }
        i = i + 1;
    }
    Some(out)
}

/// The engine's pool ratios: one storage image per set for each of the
/// pool's sets.
pub fn draw_image_pool_ratios() -> (r: Vec<PoolRatio>)
    ensures
        r@.len() == DESCRIPTOR_MAX_SETS,
        forall|j: int| 0 <= j < r@.len() ==> #[trigger] r@[j] == (PoolRatio { descriptor_type: STORAGE_IMAGE, per_set: 1 }),
{
    let mut out: Vec<PoolRatio> = Vec::new();
    let mut i: u32 = 0;
    while i < DESCRIPTOR_MAX_SETS
        invariant
            i <= DESCRIPTOR_MAX_SETS,
            out@.len() == i,
            forall|j: int| 0 <= j < i ==> #[trigger] out@[j] == (PoolRatio { descriptor_type: STORAGE_IMAGE, per_set: 1 }),
        decreases DESCRIPTOR_MAX_SETS - i,
    {
        out.push(PoolRatio { descriptor_type: STORAGE_IMAGE, per_set: 1 });
        i = i + 1;
    }
    out
}

} // verus!
