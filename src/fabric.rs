//! The data of the Fabric meta API: installer, loader and game versions,
//! and the choice of the latest stable one.

use vstd::prelude::*;

verus! {

/// A version of the Fabric installer.
#[derive(Debug, Clone)]
pub struct InstallerVersion {
    pub url: String,
    pub maven: String,
    pub version: String,
    pub stable: bool,
}

/// A version of the Fabric loader.
#[derive(Debug, Clone)]
pub struct LoaderVersion {
    pub separator: String,
    pub build: u32,
    pub maven: String,
    pub version: String,
    pub stable: bool,
}

/// A version of the game.
#[derive(Debug, Clone)]
pub struct GameVersion {
    pub version: String,
    pub stable: bool,
}

/// The versions of game, loader and installer that a project is set up with.
#[derive(Debug, Clone)]
pub struct FabricVersion {
    pub loader: String,
    pub game: String,
    pub installer: String,
}

/// A release that is either stable or not.
pub trait Release: Sized {
    spec fn stable_spec(&self) -> bool;

    fn is_stable(&self) -> (r: bool)
        ensures
            r == self.stable_spec(),
    ;
}

impl Release for InstallerVersion {
    open spec fn stable_spec(&self) -> bool {
        self.stable
    }

    fn is_stable(&self) -> (r: bool) {
        self.stable
    }
}

impl Release for LoaderVersion {
    open spec fn stable_spec(&self) -> bool {
        self.stable
    }

    fn is_stable(&self) -> (r: bool) {
        self.stable
    }
}

impl Release for GameVersion {
    open spec fn stable_spec(&self) -> bool {
        self.stable
    }

    fn is_stable(&self) -> (r: bool) {
        self.stable
    }
}

/// The first stable release of a list that the API sorts newest first, or
/// `None` when none is stable.
pub fn latest_stable<T: Release>(versions: Vec<T>) -> (r: Option<T>)
    ensures
        r is None <==> forall|i: int| 0 <= i < versions@.len() ==> !(#[trigger] versions@[i]).stable_spec(),
        r matches Some(v) ==> exists|i: int|
            0 <= i < versions@.len() && #[trigger] versions@[i] == v && v.stable_spec()
                && forall|j: int| 0 <= j < i ==> !(#[trigger] versions@[j]).stable_spec(),
{
    let mut i: usize = 0;
    while i < versions.len()
        invariant
            i <= versions@.len(),
            forall|j: int| 0 <= j < i ==> !(#[trigger] versions@[j]).stable_spec(),
        decreases versions@.len() - i,
    {
        if versions[i].is_stable() {
            let mut rest = versions;
            let v = rest.swap_remove(i);
            return Some(v);
        }
        i = i + 1;
    }
    None
}

} // verus!
