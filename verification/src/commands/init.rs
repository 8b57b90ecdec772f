//! Setting a project up: which platforms it is to support, and what a change
//! of platforms comes to.

use vstd::prelude::*;
use vstd::string::*;
use crate::cli::{InitArgs, InitArgsModel};
use crate::commands::upgrade::GITHUB_REPO;
use crate::platform::{all_platforms, platform_with_id, supported, Platform};
use crate::rnr_config::{known_platforms, RnrConfig, SettingsModel};
use crate::text::{decimal, pad_right, padded, texts, Text};

verus! {

/// What `init` is asked to do.
#[derive(Debug, PartialEq, Eq)]
pub enum InitMode {
    /// Show the configured platforms.
    Show,
    /// Add the platform of this identifier.
    Add { id: String },
    /// Remove the platform of this identifier.
    Remove { id: String },
    /// Set the project up.
    Fresh,
}

/// The mathematical value of an [`InitMode`].
pub enum InitModeModel {
    Show,
    Add { id: Text },
    Remove { id: Text },
    Fresh,
}

impl View for InitMode {
    type V = InitModeModel;

    open spec fn view(&self) -> InitModeModel {
        match self {
            InitMode::Show => InitModeModel::Show,
            InitMode::Add { id } => InitModeModel::Add { id: id@ },
            InitMode::Remove { id } => InitModeModel::Remove { id: id@ },
            InitMode::Fresh => InitModeModel::Fresh,
        }
    }
}

/// What `init` is asked to do: showing goes before adding, adding before
/// removing, and without any of them the project is set up.
pub open spec fn mode_of(args: InitArgsModel) -> InitModeModel {
    if args.show_platforms {
        InitModeModel::Show
    } else if args.add_platform is Some {
        InitModeModel::Add { id: args.add_platform->0 }
    } else if args.remove_platform is Some {
        InitModeModel::Remove { id: args.remove_platform->0 }
    } else {
        InitModeModel::Fresh
    }
}

/// What `init` is asked to do.
pub fn init_mode(args: &InitArgs) -> (mode: InitMode)
    ensures
        mode@ == mode_of(args@),
{
    if args.show_platforms {
        return InitMode::Show;
    }
    match &args.add_platform {
        Some(id) => InitMode::Add { id: id.clone() },
        None => match &args.remove_platform {
            Some(id) => InitMode::Remove { id: id.clone() },
            None => InitMode::Fresh,
        },
    }
}

/// Whether a project may be set up.
#[derive(Debug, Clone, Copy, PartialEq, Eq, Structural)]
pub enum Readiness {
    /// It is set up already; nothing is done.
    AlreadyInitialized,
    /// The directory is not the root of a git repository, and the check was
    /// not waived.
    NotRepositoryRoot,
    /// The platforms can be chosen and the project set up.
    Ready,
}

/// Whether a project may be set up: one that is set up already is left as it
/// is; otherwise the directory has to be the root of a git repository unless
/// `force` waives that.
pub fn readiness(initialized: bool, force: bool, at_repository_root: bool) -> (ready: Readiness)
    ensures
        ready == if initialized {
            Readiness::AlreadyInitialized
        } else if !force && !at_repository_root {
            Readiness::NotRepositoryRoot
        } else {
            Readiness::Ready
        },
{
    if initialized {
        Readiness::AlreadyInitialized
    } else if !force && !at_repository_root {
        Readiness::NotRepositoryRoot
    } else {
        Readiness::Ready
    }
}

/// The platforms to set a project up for, as far as the arguments say.
#[derive(Debug, PartialEq, Eq)]
pub enum Selection {
    /// These platforms.
    Chosen { platforms: Vec<Platform> },
    /// An identifier in the list names no platform.
    UnknownPlatform { id: String },
    /// The current platform was asked for and is not a supported one.
    NoCurrentPlatform,
    /// The arguments do not say: the user is to be asked.
    Interactive,
}

/// The mathematical value of a [`Selection`].
pub enum SelectionModel {
    Chosen { platforms: Seq<Platform> },
    UnknownPlatform { id: Text },
    NoCurrentPlatform,
    Interactive,
}

impl View for Selection {
    type V = SelectionModel;

    open spec fn view(&self) -> SelectionModel {
        match self {
            Selection::Chosen { platforms } => SelectionModel::Chosen { platforms: platforms@ },
            Selection::UnknownPlatform { id } => SelectionModel::UnknownPlatform { id: id@ },
            Selection::NoCurrentPlatform => SelectionModel::NoCurrentPlatform,
            Selection::Interactive => SelectionModel::Interactive,
        }
    }
}

/// `chosen` and then what `rest` selects.
pub open spec fn and_then_selected(chosen: Seq<Platform>, rest: SelectionModel) -> SelectionModel {
    match rest {
        SelectionModel::Chosen { platforms } => SelectionModel::Chosen {
            platforms: chosen + platforms,
        },
        other => other,
    }
}

/// The platforms that the identifiers `ids` name, in their order; the first
/// identifier that names none is an error.
pub open spec fn named_platforms(ids: Seq<Text>) -> SelectionModel
    decreases ids.len(),
{
    if ids.len() == 0 {
        SelectionModel::Chosen { platforms: Seq::empty() }
    } else {
        match platform_with_id(ids.first()) {
            Some(p) => and_then_selected(seq![p], named_platforms(ids.drop_first())),
            None => SelectionModel::UnknownPlatform { id: ids.first() },
        }
    }
}

/// The platforms to set a project up for: all of them where all are asked
/// for, else the current one where only that is asked for, else those of the
/// list where one is given; otherwise the user is to be asked.
pub open spec fn selection_of(args: InitArgsModel, current: Option<Platform>) -> SelectionModel {
    if args.all_platforms {
        SelectionModel::Chosen { platforms: supported() }
    } else if args.current_platform_only {
        match current {
            Some(p) => SelectionModel::Chosen { platforms: seq![p] },
            None => SelectionModel::NoCurrentPlatform,
        }
    } else {
        match args.platforms {
            Some(ids) => named_platforms(ids),
            None => SelectionModel::Interactive,
        }
    }
}

/// The platforms to set a project up for, on a host whose own platform is
/// `current`.
pub fn select_platforms(args: &InitArgs, current: Option<Platform>) -> (selection: Selection)
    ensures
        selection@ == selection_of(args@, current),
{
    if args.all_platforms {
        return Selection::Chosen { platforms: all_platforms() };
    }
    if args.current_platform_only {
        return match current {
            Some(p) => {
                let mut platforms: Vec<Platform> = Vec::new();
                platforms.push(p);
                assert(platforms@ =~= seq![p]);
                Selection::Chosen { platforms }
            },
            None => Selection::NoCurrentPlatform,
        };
    }
    match &args.platforms {
        Some(ids) => {
            let ghost all = texts(ids@);
            let mut platforms: Vec<Platform> = Vec::new();
            let mut i: usize = 0;
            assert(all.skip(0) =~= all);
            assert(and_then_selected(platforms@, named_platforms(all)) == named_platforms(all)) by {
                match named_platforms(all) {
                    SelectionModel::Chosen { platforms: p } => {
                        assert(Seq::<Platform>::empty() + p =~= p);
                    },
                    _ => {},
                }
            }
            while i < ids.len()
                invariant
                    i <= ids.len(),
                    all == texts(ids@),
                    selection_of(args@, current) == named_platforms(all),
                    named_platforms(all) == and_then_selected(
                        platforms@,
                        named_platforms(all.skip(i as int)),
                    ),
                decreases ids.len() - i,
            {
                let ghost before = platforms@;
                let ghost rest = all.skip(i as int);
                assert(rest.first() == all[i as int]);
                assert(rest.drop_first() =~= all.skip(i + 1));
                match Platform::from_id(ids[i].as_str()) {
                    Some(p) => {
                        platforms.push(p);
                        proof {
                            match named_platforms(all.skip(i + 1)) {
                                SelectionModel::Chosen { platforms: later } => {
                                    assert(before + (seq![p] + later) =~= before.push(p) + later);
                                },
                                _ => {},
                            }
                        }
                    },
                    None => {
                        return Selection::UnknownPlatform { id: ids[i].clone() };
                    },
                }
                i += 1;
            }
            assert(all.skip(i as int) =~= Seq::empty());
            assert(platforms@ + Seq::<Platform>::empty() =~= platforms@);
            Selection::Chosen { platforms }
        },
        None => Selection::Interactive,
    }
}

/// How `platform` is offered for selection: its identifier, set to a width
/// of 16, its size, and a mark if it is the current platform.
pub open spec fn item_of(platform: Platform, current: Option<Platform>) -> Text {
    padded(platform.id_text(), 16) + " ("@ + decimal(platform.bytes() / 1024) + " KB"@ + ")"@
        + if current == Some(platform) {
        " <- current"@
    } else {
        ""@
    }
}

/// The platforms as they are offered for selection, in their order.
pub fn selection_items(current: Option<Platform>) -> (items: Vec<String>)
    ensures
        items@.len() == supported().len(),
        forall|i: int| 0 <= i < supported().len() ==> items@[i]@ == item_of(supported()[i], current),
{
    let all = all_platforms();
    let mut items: Vec<String> = Vec::new();
    let mut i: usize = 0;
    while i < all.len()
        invariant
            i <= all.len(),
            all@ == supported(),
            items@.len() == i,
            forall|j: int| 0 <= j < i ==> items@[j]@ == item_of(supported()[j], current),
        decreases all.len() - i,
    {
        let platform = all[i];
        let marker = match current {
            Some(p) => if p == platform {
                " <- current"
            } else {
                ""
            },
            None => "",
        };
        let item = pad_right(platform.id(), 16).concat(" (").concat(
            platform.size_display().as_str(),
        ).concat(")").concat(marker);
        assert(item@ =~= item_of(platform, current));
        items.push(item);
        i += 1;
    }
    items
}

/// Which of the platforms offered for selection are ticked at the start: the
/// current one, if it is among them.
pub fn selection_defaults(current: Option<Platform>) -> (defaults: Vec<bool>)
    ensures
        defaults@.len() == supported().len(),
        forall|i: int|
            0 <= i < supported().len() ==> defaults@[i] == (current == Some(supported()[i])),
{
    let all = all_platforms();
    let mut defaults: Vec<bool> = Vec::new();
    let mut i: usize = 0;
    while i < all.len()
        invariant
            i <= all.len(),
            all@ == supported(),
            defaults@.len() == i,
            forall|j: int| 0 <= j < i ==> defaults@[j] == (current == Some(supported()[j])),
        decreases all.len() - i,
    {
        let ticked = match current {
            Some(p) => p == all[i],
            None => false,
        };
        defaults.push(ticked);
        i += 1;
    }
    defaults
}

/// The platforms at the positions `picked` of the platforms offered for
/// selection, in the order picked.
pub fn selected_platforms(picked: &[usize]) -> (platforms: Vec<Platform>)
    requires
        forall|i: int| 0 <= i < picked@.len() ==> picked@[i] < supported().len(),
    ensures
        platforms@.len() == picked@.len(),
        forall|i: int| 0 <= i < picked@.len() ==> platforms@[i] == supported()[picked@[i] as int],
{
    let all = all_platforms();
    let mut platforms: Vec<Platform> = Vec::new();
    let mut i: usize = 0;
    while i < picked.len()
        invariant
            i <= picked.len(),
            all@ == supported(),
            platforms@.len() == i,
            forall|j: int| 0 <= j < picked@.len() ==> picked@[j] < supported().len(),
            forall|j: int| 0 <= j < i ==> platforms@[j] == supported()[picked@[j] as int],
        decreases picked.len() - i,
    {
        platforms.push(all[picked[i]]);
        i += 1;
    }
    platforms
}

/// What adding a platform to a project comes to.
#[derive(Debug, Clone, Copy, PartialEq, Eq, Structural)]
pub enum AddPlan {
    /// The identifier names no platform.
    Unknown,
    /// The platform is configured already; nothing is done.
    AlreadyConfigured { platform: Platform },
    /// The binary is to be fetched and the platform configured.
    Install { platform: Platform },
}

/// What adding the platform `id` to a project with `settings` comes to.
pub open spec fn add_plan_of(settings: SettingsModel, id: Text) -> AddPlan {
    match platform_with_id(id) {
        None => AddPlan::Unknown,
        Some(platform) => if settings.platforms.contains(platform.id_text()) {
            AddPlan::AlreadyConfigured { platform }
        } else {
            AddPlan::Install { platform }
        },
    }
}

/// What adding the platform `platform_id` to the project comes to.
pub fn plan_add(config: &RnrConfig, platform_id: &str) -> (plan: AddPlan)
    ensures
        plan == add_plan_of(config@, platform_id@),
{
    match Platform::from_id(platform_id) {
        None => AddPlan::Unknown,
        Some(platform) => if config.has_platform(platform) {
            AddPlan::AlreadyConfigured { platform }
        } else {
            AddPlan::Install { platform }
        },
    }
}

/// What removing a platform from a project comes to.
#[derive(Debug, Clone, Copy, PartialEq, Eq, Structural)]
pub enum RemovePlan {
    /// The identifier names no platform.
    Unknown,
    /// The platform is not configured; nothing is done.
    NotConfigured { platform: Platform },
    /// It is the only platform configured, and one has to stay.
    LastPlatform,
    /// The binary is to be deleted and the platform taken out.
    Remove { platform: Platform },
}

/// What removing the platform `id` from a project with `settings` comes to.
pub open spec fn remove_plan_of(settings: SettingsModel, id: Text) -> RemovePlan {
    match platform_with_id(id) {
        None => RemovePlan::Unknown,
        Some(platform) => if !settings.platforms.contains(platform.id_text()) {
            RemovePlan::NotConfigured { platform }
        } else if known_platforms(settings.platforms).len() == 1 {
            RemovePlan::LastPlatform
        } else {
            RemovePlan::Remove { platform }
        },
    }
}

/// What removing the platform `platform_id` from the project comes to.
pub fn plan_remove(config: &RnrConfig, platform_id: &str) -> (plan: RemovePlan)
    ensures
        plan == remove_plan_of(config@, platform_id@),
{
    match Platform::from_id(platform_id) {
        None => RemovePlan::Unknown,
        Some(platform) => if !config.has_platform(platform) {
            RemovePlan::NotConfigured { platform }
        } else if config.get_platforms().len() == 1 {
            RemovePlan::LastPlatform
        } else {
            RemovePlan::Remove { platform }
        },
    }
}

/// Where the binary of `platform` in the latest release is fetched from.
pub fn latest_binary_url(platform: Platform) -> (url: String)
    ensures
        url@ == "https://github.com/"@ + GITHUB_REPO@ + "/releases/latest/download/"@
            + platform.binary_text(),
{
    "https://github.com/".to_owned().concat(GITHUB_REPO).concat("/releases/latest/download/").concat(
        platform.binary_name(),
    )
}

} // verus!
