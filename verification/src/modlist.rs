//! The local mod-list: which mods are wanted and whether each is
//! enabled.
use vstd::prelude::*;

verus! {

/// One entry of the local mod-list.
#[derive(Debug, PartialEq, Eq)]
pub struct ModEntry {
    /// The name of the mod.
    pub name: String,
    /// Whether the mod is enabled.
    pub enabled: bool,
}

/// The local mod-list.
#[derive(Debug, PartialEq, Eq)]
pub struct ModList {
    /// The entries, in file order.
    pub mods: Vec<ModEntry>,
}

impl ModList {
    /// The names of the listed mods, in order: what a caller looks up
    /// with the remote service to gather each mod's information.
    pub fn names(&self) -> (r: Vec<String>)
        ensures
            r.deep_view() == self.mods@.map_values(|m: ModEntry| m.name@),
    {
        let mut r: Vec<String> = Vec::new();
        let mut i: usize = 0;
        while i < self.mods.len()
            invariant
                i <= self.mods@.len(),
                r.deep_view() =~= self.mods@.take(i as int).map_values(|m: ModEntry| m.name@),
            decreases self.mods@.len() - i,
        {
            let ghost prev = r.deep_view();
            r.push(self.mods[i].name.clone());
            proof {
                assert(r.deep_view() =~= prev.push(self.mods@[i as int].name@));
                assert(self.mods@.take(i + 1) =~= self.mods@.take(i as int).push(
                    self.mods@[i as int],
                ));
                assert(r.deep_view() =~= self.mods@.take(i + 1).map_values(
                    |m: ModEntry| m.name@,
                ));
            }
            i = i + 1;
        }
        proof {
            assert(self.mods@.take(self.mods@.len() as int) =~= self.mods@);
        }
        r
    }
}

} // verus!
