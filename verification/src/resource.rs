//! The loading counters: how many patch meshes and how many textures are
//! ready, and what that means for the progress bar.

use vstd::prelude::*;

verus! {

/// Number of patch meshes that make up the sphere.
pub const MESH_TARGET: usize = 24;

/// Number of textures of the sphere's material.
pub const TEXTURE_TARGET: usize = 3;

/// The denominator in which `LoadingProgress::progress` counts.
pub const PROGRESS_DENOMINATOR: u128 = 240;

/// An exact fraction.
#[derive(Clone, Copy, Debug, PartialEq, Eq, Structural)]
pub struct Ratio {
    pub numerator: u128,
    pub denominator: u128,
}

/// What the loading screen reports as under way.
#[derive(Clone, Copy, Debug, PartialEq, Eq, Structural)]
pub enum LoadingStage {
    /// Fewer than all meshes are ready.
    Meshes,
    /// All meshes are ready, fewer than all textures.
    Textures,
    /// Everything is ready.
    Complete,
}

/// Counters of what has been loaded so far.
#[derive(Clone, Copy, Debug, PartialEq, Eq, Structural)]
pub struct LoadingProgress {
    /// Patch meshes completed.
    pub mesh: usize,
    /// Textures completed.
    pub texture: usize,
}

impl Default for LoadingProgress {
    fn default() -> (r: LoadingProgress)
        ensures
            r.mesh == 0,
            r.texture == 0,
    {
        LoadingProgress { mesh: 0, texture: 0 }
    }
}

/// How many of three flags are set.
pub open spec fn spec_count_loaded(first: bool, second: bool, third: bool) -> int {
    (if first {
        1int
    } else {
        0int
    }) + (if second {
        1int
    } else {
        0int
    }) + (if third {
        1int
    } else {
        0int
    })
}

impl LoadingProgress {
    /// Both counters have reached their targets.
    pub open spec fn spec_is_complete(&self) -> bool {
        self.texture >= TEXTURE_TARGET && self.mesh >= MESH_TARGET
    }

    /// The progress in 240ths: seven tenths for the share of textures
    /// loaded, three tenths for the share of meshes, that is
    /// `7/10 * texture/3 + 3/10 * mesh/24 = (56 * texture + 3 * mesh) / 240`.
    pub open spec fn spec_progress_numerator(&self) -> int {
        56 * self.texture + 3 * self.mesh
    }

    /// What the loading screen reports: meshes first, then textures.
    pub open spec fn spec_stage(&self) -> LoadingStage {
        if self.mesh < MESH_TARGET {
            LoadingStage::Meshes
        } else if self.texture < TEXTURE_TARGET {
            LoadingStage::Textures
        } else {
            LoadingStage::Complete
        }
    }

    /// Whether both counters have reached their targets.
    pub fn is_complete(&self) -> (r: bool)
        ensures
            r == self.spec_is_complete(),
    {
        self.texture >= TEXTURE_TARGET && self.mesh >= MESH_TARGET
    }

    /// The progress as an exact fraction of 240ths. While neither counter
    /// exceeds its target the fraction lies between 0 and 1, and it is 1
    /// exactly when loading is complete.
    pub fn progress(&self) -> (r: Ratio)
        ensures
            r.denominator == PROGRESS_DENOMINATOR,
            r.numerator == self.spec_progress_numerator(),
            self.texture <= TEXTURE_TARGET && self.mesh <= MESH_TARGET ==> r.numerator
                <= r.denominator && (r.numerator == r.denominator <==> self.spec_is_complete()),
    {
        let texture: u128 = self.texture as u128;
        let mesh: u128 = self.mesh as u128;
        Ratio { numerator: 56 * texture + 3 * mesh, denominator: PROGRESS_DENOMINATOR }
    }

    /// What the loading screen reports as under way.
    pub fn stage(&self) -> (r: LoadingStage)
        ensures
            r == self.spec_stage(),
    {
        if self.mesh < MESH_TARGET {
            LoadingStage::Meshes
        } else if self.texture < TEXTURE_TARGET {
            LoadingStage::Textures
        } else {
            LoadingStage::Complete
        }
    }
}

/// Folds the three texture flags into the texture counter and says whether
/// loading is complete. The mesh counter is left alone.
pub fn check_ready(
    progress: &mut LoadingProgress,
    base_color: bool,
    metallic_roughness: bool,
    normal_map: bool,
) -> (complete: bool)
    ensures
        final(progress).texture == spec_count_loaded(base_color, metallic_roughness, normal_map),
        final(progress).mesh == old(progress).mesh,
        complete == final(progress).spec_is_complete(),
{
    let mut loaded: usize = 0;
    if base_color {
        loaded += 1;
    }
    if metallic_roughness {
        loaded += 1;
    }
    if normal_map {
        loaded += 1;
    }
    progress.texture = loaded;
    progress.is_complete()
}

} // verus!
