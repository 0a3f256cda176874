//! Space-craft module definitions and the table they are loaded into.
//!
//! Definitions arrive as parsed records (one logical record per file;
//! the reading and decoding happen outside this crate). Within one load
//! pass, the first definition of each name wins: a later definition of
//! the same name is reported back and discarded, never merged.

use vstd::prelude::*;
use crate::math::Vec3Fx;
use crate::transform::Transform;

verus! {

/// A renderable part of a module, offset from the module's origin.
#[derive(Clone, Debug)]
pub struct ModuleModel {
    pub offset: Transform,
    pub mesh: String,
    pub material: String,
}

/// How a module collides: by a named collision mesh.
#[derive(Clone, Debug)]
pub enum ColliderType {
    Mesh(String),
}

/// A collision volume of a module.
#[derive(Clone, Debug)]
pub struct ModuleCollider {
    pub offset: Transform,
    pub collider_type: ColliderType,
}

/// An axis-aligned direction on the construction grid.
#[derive(Clone, Copy, Debug, PartialEq, Eq, Structural)]
pub enum GridDirection {
    Forward,
    Back,
    Left,
    Right,
    Up,
    Down,
}

/// An axis-aligned docking port that lets modules connect.
#[derive(Clone, Copy, Debug, PartialEq, Eq)]
pub struct GridDockingPort {
    pub offset: [i64; 3],
    pub direction: GridDirection,
}

/// A mount point for attachments such as turrets.
#[derive(Clone, Copy, Debug, PartialEq, Eq, Structural)]
pub struct ModuleHardPoint {
    pub size: u16,
    pub offset: Transform,
}

/// A tank that can hold liquids or gases.
#[derive(Clone, Copy, Debug, PartialEq, Eq, Structural)]
pub struct ModuleTank {
    /// Offset of the tank from the module's center, for mass
    /// calculations.
    pub offset: Vec3Fx,
    /// Total capacity in cubic meters (16.16).
    pub capacity: i64,
}

/// One module definition, keyed by its unique name.
#[derive(Clone, Debug)]
pub struct ModuleDefinition {
    pub name: String,
    pub categories: Vec<String>,
    /// Mass in kilograms (16.16).
    pub base_mass: i64,
    /// Local health pool; damage bypasses to global health when absent.
    pub local_max_health: Option<i64>,
    /// Incoming damage is scaled by this factor (16.16).
    pub damage_multiplier: i64,
    pub connectors: Vec<GridDockingPort>,
    pub hard_points: Vec<ModuleHardPoint>,
    pub tanks: Vec<ModuleTank>,
    pub exterior_model: Option<ModuleModel>,
    pub exterior_colliders: Vec<ModuleCollider>,
    pub interior: Option<()>,
}

/// A craft: named modules placed on grid positions.
#[derive(Clone, Debug)]
pub struct SpaceCraftDefinition {
    pub name: String,
    pub categories: Vec<String>,
    pub modules: Vec<([i64; 3], String)>,
}

/// A sequence of definitions contains one with the given name.
pub open spec fn defs_contain_name(s: Seq<ModuleDefinition>, name: Seq<char>) -> bool {
    exists|i: int| 0 <= i < s.len() && (#[trigger] s[i]).name@ == name
}

/// Insert one definition: appended if its name is new, dropped
/// otherwise.
pub open spec fn spec_insert_def(
    entries: Seq<ModuleDefinition>,
    d: ModuleDefinition,
) -> Seq<ModuleDefinition> {
    if defs_contain_name(entries, d.name@) {
        entries
    } else {
        entries.push(d)
    }
}

/// The table contents after loading `defs` in order, first name wins.
pub open spec fn spec_load_defs(
    entries: Seq<ModuleDefinition>,
    defs: Seq<ModuleDefinition>,
) -> Seq<ModuleDefinition>
    decreases defs.len(),
{
    if defs.len() == 0 {
        entries
    } else {
        spec_load_defs(spec_insert_def(entries, defs[0]), defs.skip(1))
    }
}

/// The names rejected while loading `defs` in order: each definition
/// whose name was already taken when its turn came.
pub open spec fn spec_load_rejects(
    entries: Seq<ModuleDefinition>,
    defs: Seq<ModuleDefinition>,
) -> Seq<Seq<char>>
    decreases defs.len(),
{
    if defs.len() == 0 {
        Seq::empty()
    } else if defs_contain_name(entries, defs[0].name@) {
        seq![defs[0].name@] + spec_load_rejects(entries, defs.skip(1))
    } else {
        spec_load_rejects(entries.push(defs[0]), defs.skip(1))
    }
}

/// The table of loaded module definitions, with unique names.
pub struct ModuleTable {
    entries: Vec<ModuleDefinition>,
}

impl ModuleTable {
    /// Names are unique.
    pub closed spec fn wf(self) -> bool {
        forall|i: int, j: int|
            0 <= i < j < self.entries@.len() ==> (#[trigger] self.entries@[i]).name@ != (
            #[trigger] self.entries@[j]).name@
    }

    /// The loaded definitions, in load order.
    pub closed spec fn defs(self) -> Seq<ModuleDefinition> {
        self.entries@
    }

    /// A definition with this name has been loaded.
    pub open spec fn contains_name(self, name: Seq<char>) -> bool {
        defs_contain_name(self.defs(), name)
    }

    pub fn new() -> (t: Self)
        ensures
            t.wf(),
            t.defs() == Seq::<ModuleDefinition>::empty(),
    {
        ModuleTable { entries: Vec::new() }
    }

    pub fn len(&self) -> (n: usize)
        ensures
            n == self.defs().len(),
    {
        self.entries.len()
    }

    /// Read the definition at a load position.
    pub fn entry_at(&self, i: usize) -> (d: &ModuleDefinition)
        requires
            i < self.defs().len(),
        ensures
            *d == self.defs()[i as int],
    {
        &self.entries[i]
    }

    /// Whether a definition with this name has been loaded.
    pub fn has_name(&self, name: &String) -> (b: bool)
        ensures
            b == self.contains_name(name@),
    {
        let mut i: usize = 0;
        while i < self.entries.len()
            invariant
                i <= self.entries@.len(),
                forall|j: int| 0 <= j < i ==> (#[trigger] self.entries@[j]).name@ != name@,
            decreases self.entries@.len() - i,
        {
            if self.entries[i].name == *name {
                return true;
            }
            i = i + 1;
        }
        false
    }

    /// Insert one definition. It is accepted exactly when its name is
    /// not yet taken; a rejected definition leaves the table unchanged.
    pub fn insert_module(&mut self, module: ModuleDefinition) -> (accepted: bool)
        requires
            old(self).wf(),
        ensures
            final(self).wf(),
            accepted == !old(self).contains_name(module.name@),
            final(self).defs() == spec_insert_def(old(self).defs(), module),
    {
        if self.has_name(&module.name) {
            false
        } else {
            self.entries.push(module);
            true
        }
    }

    /// Load a batch of definitions in order. The first definition of
    /// each name wins; the names of the discarded later duplicates are
    /// returned so the caller can report them.
    pub fn load_modules(&mut self, defs: Vec<ModuleDefinition>) -> (rejected: Vec<String>)
        requires
            old(self).wf(),
        ensures
            final(self).wf(),
            final(self).defs() == spec_load_defs(old(self).defs(), defs@),
            rejected@.map_values(|s: String| s@) == spec_load_rejects(old(self).defs(), defs@),
    {
        let mut rejected: Vec<String> = Vec::new();
        let mut remaining = defs;
        proof {
            assert(rejected@.map_values(|s: String| s@) =~= Seq::<Seq<char>>::empty());
        }
        while remaining.len() > 0
            invariant
                self.wf(),
                spec_load_defs(old(self).defs(), defs@) == spec_load_defs(
                    self.defs(),
                    remaining@,
                ),
                spec_load_rejects(old(self).defs(), defs@) == rejected@.map_values(
                    |s: String| s@,
                ) + spec_load_rejects(self.defs(), remaining@),
            decreases remaining@.len(),
        {
            let ghost pre_entries = self.defs();
            let ghost pre_rejected = rejected@;
            let ghost pre_remaining = remaining@;
            let d = remaining.remove(0);
            let dup_name = d.name.clone();
            let ghost name = d.name@;
            let taken = !self.insert_module(d);
            if taken {
                rejected.push(dup_name);
            }
            proof {
                assert(remaining@ == pre_remaining.skip(1));
                if defs_contain_name(pre_entries, name) {
                    assert(rejected@.map_values(|s: String| s@) =~= pre_rejected.map_values(
                        |s: String| s@,
                    ) + seq![name]);
                    assert(pre_rejected.map_values(|s: String| s@) + (seq![name]
                        + spec_load_rejects(self.defs(), remaining@)) =~= (pre_rejected.map_values(
                        |s: String| s@,
                    ) + seq![name]) + spec_load_rejects(self.defs(), remaining@));
                } else {
                    assert(rejected@.map_values(|s: String| s@) == pre_rejected.map_values(
                        |s: String| s@,
                    ));
                }
            }
        }
        proof {
            assert(rejected@.map_values(|s: String| s@) + spec_load_rejects(
                self.defs(),
                remaining@,
            ) =~= rejected@.map_values(|s: String| s@));
        }
        rejected
    }

}

} // verus!
