//! What a run is told about its components and about the host's layout,
//! and the names and paths that follow from it.

use vstd::prelude::*;
use crate::extract::{RenameRule, RuleView, rules_view};
use crate::install::ArtifactKind;
use crate::platform::{PlatformKey, asset_file_name, asset_name_spec, suffix_of};
use crate::text::{join_path, join_spec, lowercase, lowercase_of};

verus! {

/// How the sources of a component are fetched and laid out.
#[derive(Clone, Debug, PartialEq, Eq)]
pub struct ArchiveLayout {
    /// What stands before the tag in the archive's address.
    pub url_base: String,
    /// What stands behind the tag in the archive's address.
    pub url_ext: String,
    /// Where the downloaded archive is kept until it is unpacked.
    pub archive_path: String,
    /// The directory the archive is unpacked into.
    pub target_dir: String,
    /// The renames that follow the unpacking.
    pub renames: Vec<RenameRule>,
}

/// What an [`ArchiveLayout`] stands for.
pub struct LayoutView {
    pub url_base: Seq<char>,
    pub url_ext: Seq<char>,
    pub archive_path: Seq<char>,
    pub target_dir: Seq<char>,
    pub renames: Seq<RuleView>,
}

impl View for ArchiveLayout {
    type V = LayoutView;

    open spec fn view(&self) -> LayoutView {
        LayoutView {
            url_base: self.url_base@,
            url_ext: self.url_ext@,
            archive_path: self.archive_path@,
            target_dir: self.target_dir@,
            renames: rules_view(self.renames@),
        }
    }
}

/// The form in which a component is published and installed.
#[derive(Clone, Debug, PartialEq, Eq)]
pub enum Artifact {
    /// One native module among the assets of a release, installed as a file
    /// of the binary directory. `module` is the name that the module's file
    /// name is made of.
    Binary { module: String },
    /// The archive of a tag's sources, unpacked into a directory of its own.
    Archive(ArchiveLayout),
}

/// What an [`Artifact`] stands for.
pub enum ArtifactView {
    Binary { module: Seq<char> },
    Archive(LayoutView),
}

impl View for Artifact {
    type V = ArtifactView;

    open spec fn view(&self) -> ArtifactView {
        match *self {
            Artifact::Binary { module } => ArtifactView::Binary { module: module@ },
            Artifact::Archive(layout) => ArtifactView::Archive(layout@),
        }
    }
}

/// One tracked component.
#[derive(Clone, Debug, PartialEq, Eq)]
pub struct Component {
    /// The name the version cache files the component under.
    pub name: String,
    /// The address of the component's release feed.
    pub feed_url: String,
    pub artifact: Artifact,
}

/// What a [`Component`] stands for.
pub struct ComponentView {
    pub name: Seq<char>,
    pub feed_url: Seq<char>,
    pub artifact: ArtifactView,
}

impl View for Component {
    type V = ComponentView;

    open spec fn view(&self) -> ComponentView {
        ComponentView { name: self.name@, feed_url: self.feed_url@, artifact: self.artifact@ }
    }
}

/// The components of a list, each by its view.
pub open spec fn components_view(components: Seq<Component>) -> Seq<ComponentView> {
    Seq::new(components.len(), |i: int| components[i]@)
}

/// The file that tells others that the primary component was just updated.
#[derive(Clone, Debug, PartialEq, Eq)]
pub struct SignalFile {
    pub path: String,
    pub content: String,
}

/// What a [`SignalFile`] stands for.
pub struct SignalView {
    pub path: Seq<char>,
    pub content: Seq<char>,
}

impl View for SignalFile {
    type V = SignalView;

    open spec fn view(&self) -> SignalView {
        SignalView { path: self.path@, content: self.content@ }
    }
}

/// All that a run is told.
#[derive(Clone, Debug, PartialEq, Eq)]
pub struct Config {
    pub platform: PlatformKey,
    /// The `User-Agent` of every request.
    pub user_agent: String,
    /// The directory in which native modules are installed.
    pub bin_dir: String,
    /// What native modules' file names begin with.
    pub asset_prefix: String,
    /// The extension of native modules' file names.
    pub asset_ext: String,
    /// Where the version cache is kept.
    pub cache_path: String,
    /// The signal file, where one is wanted.
    pub signal: Option<SignalFile>,
    /// The auxiliary components, in the order in which they are checked.
    pub dependencies: Vec<Component>,
    /// The primary component, checked last.
    pub primary: Component,
    /// The name of the native module the run hands over to, where there is
    /// one.
    pub delegate_to: Option<String>,
    /// The entry point called on startup.
    pub start_symbol: String,
    /// The entry point called on shutdown.
    pub stop_symbol: String,
}

/// What a [`Config`] stands for.
pub struct ConfigView {
    pub platform: PlatformKey,
    pub user_agent: Seq<char>,
    pub bin_dir: Seq<char>,
    pub asset_prefix: Seq<char>,
    pub asset_ext: Seq<char>,
    pub cache_path: Seq<char>,
    pub signal: Option<SignalView>,
    pub dependencies: Seq<ComponentView>,
    pub primary: ComponentView,
    pub delegate_to: Option<Seq<char>>,
    pub start_symbol: Seq<char>,
    pub stop_symbol: Seq<char>,
}

impl View for Config {
    type V = ConfigView;

    open spec fn view(&self) -> ConfigView {
        ConfigView {
            platform: self.platform,
            user_agent: self.user_agent@,
            bin_dir: self.bin_dir@,
            asset_prefix: self.asset_prefix@,
            asset_ext: self.asset_ext@,
            cache_path: self.cache_path@,
            signal: match self.signal {
                Some(s) => Some(s@),
                None => None,
            },
            dependencies: components_view(self.dependencies@),
            primary: self.primary@,
            delegate_to: match self.delegate_to {
                Some(name) => Some(name@),
                None => None,
            },
            start_symbol: self.start_symbol@,
            stop_symbol: self.stop_symbol@,
        }
    }
}

impl ConfigView {
    /// The component checked at position `index`: the dependencies in their
    /// order, then the primary component.
    pub open spec fn component(self, index: int) -> ComponentView {
        if 0 <= index < self.dependencies.len() {
            self.dependencies[index]
        } else {
            self.primary
        }
    }

    /// Whether position `index` is that of the primary component.
    pub open spec fn is_primary(self, index: int) -> bool {
        !(0 <= index < self.dependencies.len())
    }

    /// The file name of the native module called `name`.
    pub open spec fn module_file(self, name: Seq<char>) -> Seq<char> {
        asset_name_spec(
            self.asset_prefix,
            lowercase_of(name),
            suffix_of(self.platform),
            self.asset_ext,
        )
    }

    /// Where the native module called `name` is installed.
    pub open spec fn module_location(self, name: Seq<char>) -> Seq<char> {
        join_spec(self.bin_dir, self.module_file(name))
    }

    /// The file or directory whose presence shows that a component is
    /// installed.
    pub open spec fn artifact_path(self, component: ComponentView) -> Seq<char> {
        match component.artifact {
            ArtifactView::Binary { module } => self.module_location(module),
            ArtifactView::Archive(layout) => layout.target_dir,
        }
    }
}

/// The kind of file that is downloaded for an artifact.
pub open spec fn kind_of(artifact: ArtifactView) -> ArtifactKind {
    match artifact {
        ArtifactView::Binary { .. } => ArtifactKind::Binary,
        ArtifactView::Archive(_) => ArtifactKind::Archive,
    }
}

impl Artifact {
    /// The kind of file that is downloaded for this artifact.
    pub fn kind(&self) -> (r: ArtifactKind)
        ensures
            r == kind_of(self@),
    {
        match self {
            Artifact::Binary { .. } => ArtifactKind::Binary,
            Artifact::Archive(_) => ArtifactKind::Archive,
        }
    }
}

impl Config {
    /// The component checked at position `index`.
    pub fn component(&self, index: usize) -> (r: &Component)
        ensures
            r@ == self@.component(index as int),
    {
        if index < self.dependencies.len() {
            &self.dependencies[index]
        } else {
            &self.primary
        }
    }

    /// Whether position `index` is that of the primary component.
    pub fn is_primary(&self, index: usize) -> (r: bool)
        ensures
            r == self@.is_primary(index as int),
            !r ==> index < usize::MAX,
    {
        index >= self.dependencies.len()
    }

    /// The file name of the native module called `name`:
    /// the prefix, the name in lower case, the platform's suffix and the
    /// extension.
    pub fn module_file(&self, name: &str) -> (r: String)
        ensures
            r@ == self@.module_file(name@),
    {
        let lowered = lowercase(name);
        asset_file_name(
            self.asset_prefix.as_str(),
            lowered.as_str(),
            self.platform.suffix(),
            self.asset_ext.as_str(),
        )
    }

    /// Where the native module called `name` is installed.
    pub fn module_location(&self, name: &str) -> (r: String)
        ensures
            r@ == self@.module_location(name@),
    {
        let file = self.module_file(name);
        join_path(self.bin_dir.as_str(), file.as_str())
    }

    /// The file or directory whose presence shows that `component` is
    /// installed.
    pub fn artifact_path(&self, component: &Component) -> (r: String)
        ensures
            r@ == self@.artifact_path(component@),
    {
        match &component.artifact {
            Artifact::Binary { module } => self.module_location(module.as_str()),
            Artifact::Archive(layout) => layout.target_dir.clone(),
        }
    }
}

/// A component that is installed as the native module `module`.
pub open spec fn binary_component(
    name: Seq<char>,
    module: Seq<char>,
    feed_url: Seq<char>,
) -> ComponentView {
    ComponentView { name, feed_url, artifact: ArtifactView::Binary { module } }
}

/// The configuration of the loader: it keeps the integration's native
/// module up to date and hands over to it.
pub open spec fn loader_config(platform: PlatformKey) -> ConfigView {
    ConfigView {
        platform,
        user_agent: "Gmod-Auto-Loader"@,
        bin_dir: "garrysmod/lua/bin"@,
        asset_prefix: "gmsv"@,
        asset_ext: "dll"@,
        cache_path: "garrysmod/lua/bin/versions.json"@,
        signal: None,
        dependencies: Seq::empty(),
        primary: binary_component(
            "gmod_integration_loader"@,
            "gmod_integration"@,
            "https://api.github.com/repos/gmod-integration/auto-loader/releases/latest"@,
        ),
        delegate_to: Some("gmod_integration"@),
        start_symbol: "gmod13_open"@,
        stop_symbol: "gmod13_close"@,
    }
}

/// The renames that give the addon's files the names the host expects.
pub open spec fn addon_renames() -> Seq<RuleView> {
    seq![
        RuleView {
            from: "lua/autorun/gmod_integration.lua"@,
            to: "lua/autorun/_gmod_integration_latest.lua"@,
        },
        RuleView { from: "gmod_integration"@, to: "_gmod_integration_latest"@ },
        RuleView { from: "lua/gmod_integration"@, to: "lua/_gmod_integration_latest"@ },
    ]
}

/// The configuration of the updater: it keeps two native dependencies and
/// the addon's sources up to date, tells the addon when it was updated,
/// and hands over to nothing.
pub open spec fn updater_config(platform: PlatformKey) -> ConfigView {
    ConfigView {
        platform,
        user_agent: "Gmod-Integration-Updater"@,
        bin_dir: "garrysmod/lua/bin"@,
        asset_prefix: "gmsv"@,
        asset_ext: "dll"@,
        cache_path: "garrysmod/lua/bin/versions.json"@,
        signal: Some(
            SignalView {
                path: "garrysmod/data/gm_integration/tmp.json"@,
                content: "{\n\t\"gmod_integration_latest_updated\": true\n}"@,
            },
        ),
        dependencies: seq![
            binary_component(
                "gwsockets"@,
                "gwsockets"@,
                "https://api.github.com/repos/FredyH/GWSockets/releases/latest"@,
            ),
            binary_component(
                "reqwest"@,
                "reqwest"@,
                "https://api.github.com/repos/WilliamVenner/gmsv_reqwest/releases/latest"@,
            ),
        ],
        primary: ComponentView {
            name: "gmod_integration"@,
            feed_url: "https://api.github.com/repos/gmod-integration/gmod-integration/releases/latest"@,
            artifact: ArtifactView::Archive(
                LayoutView {
                    url_base: "https://github.com/gmod-integration/gmod-integration/archive/refs/tags/"@,
                    url_ext: ".zip"@,
                    archive_path: "gmod-integration.zip"@,
                    target_dir: "./garrysmod/addons/_gmod_integration_latest"@,
                    renames: addon_renames(),
                },
            ),
        },
        delegate_to: None,
        start_symbol: "gmod13_open"@,
        stop_symbol: "gmod13_close"@,
    }
}

/// Builds a component that is installed as a native module.
fn binary(name: &str, module: &str, feed_url: &str) -> (r: Component)
    ensures
        r@ == binary_component(name@, module@, feed_url@),
{
    Component {
        name: String::from_str(name),
        feed_url: String::from_str(feed_url),
        artifact: Artifact::Binary { module: String::from_str(module) },
    }
}

/// Builds a rename rule.
fn rule(from: &str, to: &str) -> (r: RenameRule)
    ensures
        r@ == (RuleView { from: from@, to: to@ }),
{
    RenameRule { from: String::from_str(from), to: String::from_str(to) }
}

impl Config {
    /// The configuration of the loader, see [`loader_config`].
    pub fn loader(platform: PlatformKey) -> (r: Config)
        ensures
            r@ == loader_config(platform),
    {
        let dependencies: Vec<Component> = Vec::new();
        assert(components_view(dependencies@) =~= Seq::<ComponentView>::empty());
        Config {
            platform,
            user_agent: String::from_str("Gmod-Auto-Loader"),
            bin_dir: String::from_str("garrysmod/lua/bin"),
            asset_prefix: String::from_str("gmsv"),
            asset_ext: String::from_str("dll"),
            cache_path: String::from_str("garrysmod/lua/bin/versions.json"),
            signal: None,
            dependencies,
            primary: binary(
                "gmod_integration_loader",
                "gmod_integration",
                "https://api.github.com/repos/gmod-integration/auto-loader/releases/latest",
            ),
            delegate_to: Some(String::from_str("gmod_integration")),
            start_symbol: String::from_str("gmod13_open"),
            stop_symbol: String::from_str("gmod13_close"),
        }
    }

    /// The configuration of the updater, see [`updater_config`].
    pub fn updater(platform: PlatformKey) -> (r: Config)
        ensures
            r@ == updater_config(platform),
    {
        let mut dependencies: Vec<Component> = Vec::new();
        dependencies.push(
            binary(
                "gwsockets",
                "gwsockets",
                "https://api.github.com/repos/FredyH/GWSockets/releases/latest",
            ),
        );
        dependencies.push(
            binary(
                "reqwest",
                "reqwest",
                "https://api.github.com/repos/WilliamVenner/gmsv_reqwest/releases/latest",
            ),
        );
        let mut renames: Vec<RenameRule> = Vec::new();
        renames.push(
            rule("lua/autorun/gmod_integration.lua", "lua/autorun/_gmod_integration_latest.lua"),
        );
        renames.push(rule("gmod_integration", "_gmod_integration_latest"));
        renames.push(rule("lua/gmod_integration", "lua/_gmod_integration_latest"));
        assert(components_view(dependencies@) =~= updater_config(platform).dependencies);
        assert(rules_view(renames@) =~= addon_renames());
        let layout = ArchiveLayout {
            url_base: String::from_str(
                "https://github.com/gmod-integration/gmod-integration/archive/refs/tags/",
            ),
            url_ext: String::from_str(".zip"),
            archive_path: String::from_str("gmod-integration.zip"),
            target_dir: String::from_str("./garrysmod/addons/_gmod_integration_latest"),
            renames,
        };
        Config {
            platform,
            user_agent: String::from_str("Gmod-Integration-Updater"),
            bin_dir: String::from_str("garrysmod/lua/bin"),
            asset_prefix: String::from_str("gmsv"),
            asset_ext: String::from_str("dll"),
            cache_path: String::from_str("garrysmod/lua/bin/versions.json"),
            signal: Some(
                SignalFile {
                    path: String::from_str("garrysmod/data/gm_integration/tmp.json"),
                    content: String::from_str(
                        "{\n\t\"gmod_integration_latest_updated\": true\n}",
                    ),
                },
            ),
            dependencies,
            primary: Component {
                name: String::from_str("gmod_integration"),
                feed_url: String::from_str(
                    "https://api.github.com/repos/gmod-integration/gmod-integration/releases/latest",
                ),
                artifact: Artifact::Archive(layout),
            },
            delegate_to: None,
            start_symbol: String::from_str("gmod13_open"),
            stop_symbol: String::from_str("gmod13_close"),
        }
    }
}

} // verus!
