//! Paths in the file system, held as text.
//!
//! Which directory a file of the application lies in, and which parts
//! lead there, is decided here. How a path is taken apart and put
//! together is the standard library's matter: its answers are named by
//! [`path_stem`] and [`path_joined`]. Where the user's directories are
//! is the environment's matter, and nothing is promised of it.

use crate::platform::Platform;
use vstd::prelude::*;

verus! {

/// The stem of the file name of a path, as the standard library's
/// `Path` takes it from the path's text; none where the path has no file
/// name.
pub uninterp spec fn path_stem(path: Seq<char>) -> Option<Seq<char>>;

/// The path that the standard library's `Path` gives for a path and a
/// further part joined to it, both as text.
pub uninterp spec fn path_joined(base: Seq<char>, part: Seq<char>) -> Seq<char>;

/// Trusted: `Path::file_stem` of the given path returns the stem that
/// [`path_stem`] names.
#[verifier::external_body]
pub(crate) fn file_stem(path: &str) -> (r: Option<String>)
    ensures
        r.deep_view() == path_stem(path@),
{
    std::path::Path::new(path).file_stem().map(|s| s.to_string_lossy().to_string())
}

/// Trusted: `Path::join` of a path and a further part returns the path
/// that [`path_joined`] names.
#[verifier::external_body]
pub(crate) fn join_path(base: &str, part: &str) -> (r: String)
    ensures
        r@ == path_joined(base@, part@),
{
    std::path::Path::new(base).join(part).to_string_lossy().to_string()
}

/// Trusted: `dirs::home_dir`, the user's home directory as text. It
/// depends on the environment; nothing is promised of it.
#[verifier::external_body]
pub(crate) fn home_dir() -> (r: Option<String>)
{
    dirs::home_dir().map(|p| p.to_string_lossy().to_string())
}

/// Trusted: `dirs::config_dir`, the user's configuration directory as
/// text. It depends on the environment; nothing is promised of it.
#[verifier::external_body]
pub(crate) fn config_dir() -> (r: Option<String>)
{
    dirs::config_dir().map(|p| p.to_string_lossy().to_string())
}

/// The unit name for the stem of a file's name: the stem itself, or the
/// empty name where there is none.
pub open spec fn unit_name_for(stem: Option<Seq<char>>) -> Seq<char> {
    match stem {
        Some(name) => name,
        None => Seq::empty(),
    }
}

/// The unit name for the stem of a file's name.
pub fn unit_name_from(stem: Option<String>) -> (r: String)
    ensures
        r@ == unit_name_for(stem.deep_view()),
{
    match stem {
        Some(name) => name,
        None => String::new(),
    }
}

/// The name by which a supervisor that addresses units by name knows the
/// unit file at `path`: the stem of the file's name, or the empty name
/// where the path has none.
pub fn unit_name_of(path: &str) -> (r: String)
    ensures
        r@ == unit_name_for(path_stem(path@)),
{
    unit_name_from(file_stem(path))
}

/// The name of the unit file of the service with the given label.
pub open spec fn unit_file_name_of(label: Seq<char>) -> Seq<char> {
    label + ".plist"@
}

/// The name of the unit file of the service with the given label.
pub fn unit_file_name(label: &str) -> (r: String)
    ensures
        r@ == unit_file_name_of(label@),
{
    crate::text::joined(label, ".plist")
}

/// The name of the unit file is derived one to one from the label: two
/// labels with the same file name are the same label.
pub proof fn lemma_unit_file_name_is_one_to_one(a: Seq<char>, b: Seq<char>)
    requires
        unit_file_name_of(a) == unit_file_name_of(b),
    ensures
        a == b,
{
    let suffix = ".plist"@;
    assert((a + suffix).len() == a.len() + suffix.len());
    assert((b + suffix).len() == b.len() + suffix.len());
    assert forall|i: int| 0 <= i < a.len() implies a[i] == b[i] by {
        assert((a + suffix)[i] == a[i]);
        assert((b + suffix)[i] == b[i]);
    }
    assert(a =~= b);
}

/// The path of the unit file of the service with the given label in the
/// given directory: the file's name joined to the directory.
pub open spec fn unit_file_path_of(agents_dir: Seq<char>, label: Seq<char>) -> Seq<char> {
    path_joined(agents_dir, unit_file_name_of(label))
}

/// The path of the unit file of the service with the given label in the
/// given directory.
pub fn unit_file_path(agents_dir: &str, label: &str) -> (r: String)
    ensures
        r@ == unit_file_path_of(agents_dir@, label@),
{
    let name = unit_file_name(label);
    join_path(agents_dir, name.as_str())
}

/// The directory from which a location is reckoned.
#[derive(Clone, Copy, Debug, PartialEq, Eq, Structural)]
pub enum BaseDir {
    /// The user's home directory.
    Home,
    /// The user's configuration directory. Where that is unknown, the
    /// home directory with the fallback parts takes its place.
    Config,
}

/// Where a file or directory of the application is: a base directory
/// and the parts that lead from there.
#[derive(Debug, PartialEq, Eq)]
pub struct Location {
    pub base: BaseDir,
    /// Parts that lead from the home directory to the stand-in for an
    /// unknown configuration directory.
    pub fallback: Vec<String>,
    pub parts: Vec<String>,
}

/// Mathematical form of [`Location`].
pub struct LocationView {
    pub base: BaseDir,
    pub fallback: Seq<Seq<char>>,
    pub parts: Seq<Seq<char>>,
}

impl View for Location {
    type V = LocationView;

    open spec fn view(&self) -> LocationView {
        LocationView {
            base: self.base,
            fallback: self.fallback.deep_view(),
            parts: self.parts.deep_view(),
        }
    }
}

/// A file of the application's own, in its directory under the
/// configuration directory.
pub open spec fn own_file(name: Seq<char>) -> LocationView {
    LocationView {
        base: BaseDir::Config,
        fallback: seq![".config"@],
        parts: seq!["service-master"@, name],
    }
}

/// Whether a location can be resolved with the directories that are
/// known.
pub open spec fn resolvable(location: LocationView, home_known: bool, config_known: bool) -> bool {
    home_known || (location.base == BaseDir::Config && config_known)
}

fn owned_parts(parts: Vec<&str>) -> (r: Vec<String>)
    ensures
        r.deep_view() == parts.deep_view(),
{
    let mut r: Vec<String> = Vec::new();
    let mut i: usize = 0;
    while i < parts.len()
        invariant
            i <= parts.len(),
            r@.len() == i,
            forall|j: int| 0 <= j < i ==> r@[j]@ == parts@[j]@,
        decreases parts.len() - i,
    {
        r.push(parts[i].to_owned());
        i = i + 1;
    }
    r
}

fn own_file_location(name: &str) -> (r: Location)
    ensures
        r@ == own_file(name@),
{
    let fallback = vec![".config"];
    let parts = vec!["service-master", name];
    proof {
        assert(fallback.deep_view() =~= seq![".config"@]);
        assert(parts.deep_view() =~= seq!["service-master"@, name@]);
    }
    Location { base: BaseDir::Config, fallback: owned_parts(fallback), parts: owned_parts(parts) }
}

/// Where the metadata document is kept.
pub fn metadata_file_location() -> (r: Location)
    ensures
        r@ == own_file("metadata.json"@),
{
    own_file_location("metadata.json")
}

/// Where the settings document is kept.
pub fn settings_file_location() -> (r: Location)
    ensures
        r@ == own_file("settings.json"@),
{
    own_file_location("settings.json")
}

/// The path that the parts lead to from a base, each joined to what came
/// before. With no parts it is the base itself.
pub open spec fn joined_all(base: Seq<char>, parts: Seq<Seq<char>>) -> Seq<char>
    decreases parts.len(),
{
    if parts.len() == 0 {
        base
    } else {
        path_joined(joined_all(base, parts.drop_last()), parts.last())
    }
}

/// The path that the parts lead to from a base.
fn join_all(base: String, parts: &Vec<String>) -> (r: String)
    ensures
        r@ == joined_all(base@, parts.deep_view()),
{
    let ghost start = base@;
    let ghost all = parts.deep_view();
    let mut path = base;
    let mut i: usize = 0;
    proof {
        assert(all.take(0) =~= Seq::<Seq<char>>::empty());
    }
    while i < parts.len()
        invariant
            i <= parts.len(),
            all == parts.deep_view(),
            path@ == joined_all(start, all.take(i as int)),
        decreases parts.len() - i,
    {
        proof {
            assert(all.take(i + 1).drop_last() == all.take(i as int));
            assert(all.take(i + 1).last() == parts@[i as int]@);
        }
        path = join_path(path.as_str(), parts[i].as_str());
        i = i + 1;
    }
    proof {
        assert(all.take(parts@.len() as int) == all);
    }
    path
}

/// The path of a location, given the directories that are known: its
/// parts joined to its base. An unknown configuration directory is
/// stood in for by the fallback parts joined to the home directory.
/// There is no path where the directory that is needed is unknown.
pub open spec fn resolved(
    location: LocationView,
    home: Option<Seq<char>>,
    config: Option<Seq<char>>,
) -> Option<Seq<char>> {
    match location.base {
        BaseDir::Home => match home {
            Some(h) => Some(joined_all(h, location.parts)),
            None => None,
        },
        BaseDir::Config => match config {
            Some(c) => Some(joined_all(c, location.parts)),
            None => match home {
                Some(h) => Some(joined_all(joined_all(h, location.fallback), location.parts)),
                None => None,
            },
        },
    }
}

/// A location has a path exactly where the directory it needs is known.
pub proof fn lemma_resolved_where_resolvable(
    location: LocationView,
    home: Option<Seq<char>>,
    config: Option<Seq<char>>,
)
    ensures
        resolved(location, home, config) is Some <==> resolvable(
            location,
            home is Some,
            config is Some,
        ),
{
}

/// Resolves a location against the directories that are known.
pub fn resolve(location: &Location, home: Option<&str>, config: Option<&str>) -> (r: Option<
    String,
>)
    ensures
        r.deep_view() == resolved(location@, home.deep_view(), config.deep_view()),
{
    let base = match location.base {
        BaseDir::Home => match home {
            Some(h) => h.to_owned(),
            None => {
                return None;
            },
        },
        BaseDir::Config => match config {
            Some(c) => c.to_owned(),
            None => match home {
                Some(h) => join_all(h.to_owned(), &location.fallback),
                None => {
                    return None;
                },
            },
        },
    };
    Some(join_all(base, &location.parts))
}

/// Resolves a location against the directories that the environment
/// gives: the result is the location's path for whatever the home and
/// the configuration directory are.
pub fn resolve_here(location: &Location) -> (r: Option<String>)
    ensures
        exists|home: Option<Seq<char>>, config: Option<Seq<char>>|
            r.deep_view() == resolved(location@, home, config),
{
    let home = home_dir();
    let config = config_dir();
    let home_ref = match &home {
        Some(h) => Some(h.as_str()),
        None => None,
    };
    let config_ref = match &config {
        Some(c) => Some(c.as_str()),
        None => None,
    };
    resolve(location, home_ref, config_ref)
}

/// The path of the metadata document, for whatever the home and the
/// configuration directory are.
pub fn get_metadata_file_path() -> (r: Option<String>)
    ensures
        exists|home: Option<Seq<char>>, config: Option<Seq<char>>|
            r.deep_view() == resolved(own_file("metadata.json"@), home, config),
{
    resolve_here(&metadata_file_location())
}

/// The path of the settings document, for whatever the home and the
/// configuration directory are.
pub fn get_settings_file_path() -> (r: Option<String>)
    ensures
        exists|home: Option<Seq<char>>, config: Option<Seq<char>>|
            r.deep_view() == resolved(own_file("settings.json"@), home, config),
{
    resolve_here(&settings_file_location())
}

/// Where the unit files are kept unless the user has chosen a
/// directory: under the home directory where the platform's supervisor
/// scans one, else beside the application's own files.
pub open spec fn default_agents_location(platform: Platform) -> LocationView {
    match platform {
        Platform::MacOs => LocationView {
            base: BaseDir::Home,
            fallback: Seq::empty(),
            parts: seq!["Library"@, "LaunchAgents"@],
        },
        Platform::Windows => LocationView {
            base: BaseDir::Config,
            fallback: Seq::empty(),
            parts: seq!["service-master"@, "services"@],
        },
        Platform::Linux => LocationView {
            base: BaseDir::Home,
            fallback: Seq::empty(),
            parts: seq![".config"@, "systemd"@, "user"@],
        },
    }
}

/// Where the unit files are kept unless the user has chosen a
/// directory.
pub fn default_agents_dir(platform: Platform) -> (r: Location)
    ensures
        r@ == default_agents_location(platform),
{
    let none: Vec<&str> = Vec::new();
    proof {
        assert(none.deep_view() =~= Seq::<Seq<char>>::empty());
    }
    match platform {
        Platform::MacOs => {
            let parts = vec!["Library", "LaunchAgents"];
            proof {
                assert(parts.deep_view() =~= seq!["Library"@, "LaunchAgents"@]);
            }
            Location { base: BaseDir::Home, fallback: owned_parts(none), parts: owned_parts(parts) }
        },
        Platform::Windows => {
            let parts = vec!["service-master", "services"];
            proof {
                assert(parts.deep_view() =~= seq!["service-master"@, "services"@]);
            }
            Location {
                base: BaseDir::Config,
                fallback: owned_parts(none),
                parts: owned_parts(parts),
            }
        },
        Platform::Linux => {
            let parts = vec![".config", "systemd", "user"];
            proof {
                assert(parts.deep_view() =~= seq![".config"@, "systemd"@, "user"@]);
            }
            Location { base: BaseDir::Home, fallback: owned_parts(none), parts: owned_parts(parts) }
        },
    }
}

/// The directory of unit files: the directory that the user has chosen
/// where there is one and it is a directory that exists, else the path
/// of the platform's default.
pub open spec fn agents_dir(
    platform: Platform,
    chosen: Option<Seq<char>>,
    chosen_is_dir: bool,
    home: Option<Seq<char>>,
    config: Option<Seq<char>>,
) -> Option<Seq<char>> {
    if chosen is Some && chosen_is_dir {
        chosen
    } else {
        resolved(default_agents_location(platform), home, config)
    }
}

/// The directory of unit files, given the directories that are known.
pub fn choose_agents_dir(
    platform: Platform,
    chosen: Option<&str>,
    chosen_is_dir: bool,
    home: Option<&str>,
    config: Option<&str>,
) -> (r: Option<String>)
    ensures
        r.deep_view() == agents_dir(
            platform,
            chosen.deep_view(),
            chosen_is_dir,
            home.deep_view(),
            config.deep_view(),
        ),
{
    match chosen {
        Some(path) => {
            if chosen_is_dir {
                return Some(path.to_owned());
            }
        },
        None => {},
    }
    resolve(&default_agents_dir(platform), home, config)
}

/// The directory of unit files, with the platform's default resolved
/// against the directories that the environment gives: the directory
/// that the user has chosen where it counts, else the default's path for
/// whatever the home and the configuration directory are.
pub fn get_launch_agents_dir(platform: Platform, chosen: Option<&str>, chosen_is_dir: bool) -> (r:
    Option<String>)
    ensures
        exists|home: Option<Seq<char>>, config: Option<Seq<char>>|
            r.deep_view() == agents_dir(platform, chosen.deep_view(), chosen_is_dir, home, config),
        chosen is Some && chosen_is_dir ==> r.deep_view() == chosen.deep_view(),
{
    let home = home_dir();
    let config = config_dir();
    let home_ref = match &home {
        Some(h) => Some(h.as_str()),
        None => None,
    };
    let config_ref = match &config {
        Some(c) => Some(c.as_str()),
        None => None,
    };
    choose_agents_dir(platform, chosen, chosen_is_dir, home_ref, config_ref)
}

} // verus!
