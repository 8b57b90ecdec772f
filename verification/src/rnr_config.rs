//! The project's own settings: the version that set the project up and the
//! platforms it carries binaries for.

use vstd::prelude::*;
use crate::path::DirPath;
use crate::platform::{platform_with_id, Platform};
use crate::sorting::{sort_strings, sorted};
use crate::text::{copy_strings, str_eq, texts, Text};

verus! {

/// The directory, inside the project, that holds the settings and binaries.
pub const RNR_DIR: &'static str = ".rnr";

/// The settings file, inside [`RNR_DIR`].
pub const CONFIG_FILE: &'static str = "config.yaml";

/// The directory of the binaries, inside [`RNR_DIR`].
pub const BIN_DIR: &'static str = "bin";

/// The settings of a project.
#[derive(Debug, PartialEq, Eq)]
pub struct RnrConfig {
    /// Version that created these settings.
    pub version: String,
    /// Identifiers of the configured platforms.
    pub platforms: Vec<String>,
}

/// The mathematical value of the settings.
pub struct SettingsModel {
    pub version: Text,
    pub platforms: Seq<Text>,
}

impl View for RnrConfig {
    type V = SettingsModel;

    open spec fn view(&self) -> SettingsModel {
        SettingsModel { version: self.version@, platforms: texts(self.platforms@) }
    }
}

/// The identifiers of `platforms`.
pub open spec fn ids_of(platforms: Seq<Platform>) -> Seq<Text> {
    platforms.map_values(|p: Platform| p.id_text())
}

/// The platforms that `ids` name, in their order; an identifier that names
/// none is passed over.
pub open spec fn known_platforms(ids: Seq<Text>) -> Seq<Platform>
    decreases ids.len(),
{
    if ids.len() == 0 {
        Seq::empty()
    } else {
        match platform_with_id(ids.last()) {
            Some(p) => known_platforms(ids.drop_last()).push(p),
            None => known_platforms(ids.drop_last()),
        }
    }
}

impl RnrConfig {
    /// Settings for `version` with the given platforms.
    pub fn new(version: &str, platforms: &[Platform]) -> (config: RnrConfig)
        ensures
            config@ == (SettingsModel { version: version@, platforms: ids_of(platforms@) }),
    {
        let mut ids: Vec<String> = Vec::new();
        let mut i: usize = 0;
        while i < platforms.len()
            invariant
                i <= platforms.len(),
                ids@.len() == i,
                forall|j: int| 0 <= j < i ==> ids@[j]@ == platforms@[j].id_text(),
            decreases platforms.len() - i,
        {
            ids.push(platforms[i].id().to_owned());
            i += 1;
        }
        assert(texts(ids@) =~= ids_of(platforms@));
        RnrConfig { version: version.to_owned(), platforms: ids }
    }

    /// The configured platforms that are known, in the order they are
    /// configured in.
    pub fn get_platforms(&self) -> (platforms: Vec<Platform>)
        ensures
            platforms@ == known_platforms(self@.platforms),
    {
        let ghost ids = texts(self.platforms@);
        let mut platforms: Vec<Platform> = Vec::new();
        let mut i: usize = 0;
        assert(ids.take(0) =~= Seq::empty());
        while i < self.platforms.len()
            invariant
                i <= self.platforms.len(),
                ids == texts(self.platforms@),
                platforms@ == known_platforms(ids.take(i as int)),
            decreases self.platforms.len() - i,
        {
            assert(ids.take(i + 1).drop_last() =~= ids.take(i as int));
            match Platform::from_id(self.platforms[i].as_str()) {
                Some(p) => platforms.push(p),
                None => {},
            }
            i += 1;
        }
        assert(ids.take(i as int) =~= ids);
        platforms
    }

    /// Whether `platform` is configured.
    pub fn has_platform(&self, platform: Platform) -> (has: bool)
        ensures
            has == self@.platforms.contains(platform.id_text()),
    {
        let id = platform.id();
        let mut i: usize = 0;
        while i < self.platforms.len()
            invariant
                i <= self.platforms.len(),
                id@ == platform.id_text(),
                forall|j: int| 0 <= j < i ==> texts(self.platforms@)[j] != id@,
            decreases self.platforms.len() - i,
        {
            if str_eq(self.platforms[i].as_str(), id) {
                assert(texts(self.platforms@)[i as int] == id@);
                return true;
            }
            i += 1;
        }
        false
    }

    /// Configures `platform`: unless it is configured already, its
    /// identifier is added and the list is sorted.
    pub fn add_platform(&mut self, platform: Platform)
        ensures
            final(self)@.version == old(self)@.version,
            final(self)@.platforms.contains(platform.id_text()),
            old(self)@.platforms.contains(platform.id_text()) ==> final(self)@.platforms == old(
                self,
            )@.platforms,
            !old(self)@.platforms.contains(platform.id_text()) ==> sorted(final(self)@.platforms)
                && final(self)@.platforms.to_multiset() == old(self)@.platforms.to_multiset().insert(
                platform.id_text(),
            ),
    {
        if !self.has_platform(platform) {
            let ghost before = texts(self.platforms@);
            self.platforms.push(platform.id().to_owned());
            proof {
                assert(texts(self.platforms@) =~= before.push(platform.id_text()));
                vstd::seq_lib::to_multiset_build(before, platform.id_text());
            }
            self.platforms = sort_strings(&self.platforms);
            proof {
                let after = texts(self.platforms@);
                after.to_multiset_ensures();
                assert(after.to_multiset().count(platform.id_text()) > 0);
            }
        }
    }

    /// Takes `platform` out of the configured ones; the others stay in their
    /// order.
    pub fn remove_platform(&mut self, platform: Platform)
        ensures
            final(self)@.version == old(self)@.version,
            !final(self)@.platforms.contains(platform.id_text()),
            final(self)@.platforms == old(self)@.platforms.filter(
                |id: Text| id != platform.id_text(),
            ),
    {
        let id = platform.id();
        let ghost ids = texts(self.platforms@);
        let ghost keep = |t: Text| t != platform.id_text();
        let mut kept: Vec<String> = Vec::new();
        let mut i: usize = 0;
        proof {
            reveal(Seq::filter);
            assert(ids.take(0) =~= Seq::empty());
            assert(texts(kept@) =~= ids.take(0).filter(keep));
        }
        while i < self.platforms.len()
            invariant
                i <= self.platforms.len(),
                ids == texts(self.platforms@),
                id@ == platform.id_text(),
                keep == |t: Text| t != platform.id_text(),
                texts(kept@) == ids.take(i as int).filter(keep),
            decreases self.platforms.len() - i,
        {
            let ghost before = texts(kept@);
            proof {
                reveal(Seq::filter);
                assert(ids.take(i + 1).drop_last() =~= ids.take(i as int));
            }
            if !str_eq(self.platforms[i].as_str(), id) {
                kept.push(self.platforms[i].clone());
                assert(texts(kept@) =~= before.push(ids[i as int]));
            }
            i += 1;
        }
        assert(ids.take(i as int) =~= ids);
        proof {
            let left = ids.filter(keep);
            if left.contains(platform.id_text()) {
                let k = choose|k: int| 0 <= k < left.len() && left[k] == platform.id_text();
                ids.lemma_filter_pred(keep, k);
            }
        }
        self.platforms = kept;
    }
}

impl Clone for RnrConfig {
    fn clone(&self) -> (copy: RnrConfig)
        ensures
            copy@ == self@,
    {
        RnrConfig { version: self.version.clone(), platforms: copy_strings(&self.platforms) }
    }
}

/// The settings directory of the project in `current`.
pub fn rnr_dir(current: &DirPath) -> (dir: DirPath)
    ensures
        dir@ == current@.join(RNR_DIR@),
{
    current.join(RNR_DIR)
}

/// The settings file of the project in `current`.
pub fn config_path(current: &DirPath) -> (path: DirPath)
    ensures
        path@ == current@.join(RNR_DIR@).join(CONFIG_FILE@),
{
    rnr_dir(current).join(CONFIG_FILE)
}

/// The directory of the binaries of the project in `current`.
pub fn bin_dir(current: &DirPath) -> (dir: DirPath)
    ensures
        dir@ == current@.join(RNR_DIR@).join(BIN_DIR@),
{
    rnr_dir(current).join(BIN_DIR)
}

} // verus!
