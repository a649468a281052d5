use vstd::prelude::*;

use crate::result::{RobloxStudioError, RobloxStudioResult};

verus! {

/// From index `i` on, `s` holds no separator and no drive colon.
pub open spec fn plain_from(s: Seq<char>, i: int) -> bool
    decreases s.len() - i,
{
    i >= s.len() || (s[i] != '/' && s[i] != '\\' && s[i] != ':' && plain_from(s, i + 1))
}

/// `name` is one relative path component: not empty, not `.` or `..`, and free
/// of separators and drive colons.
pub open spec fn is_component(name: Seq<char>) -> bool {
    &&& name.len() > 0
    &&& !(name.len() == 1 && name[0] == '.')
    &&& !(name.len() == 2 && name[0] == '.' && name[1] == '.')
    &&& plain_from(name, 0)
}

/// `c` separates path components on some platform.
pub open spec fn is_separator(c: char) -> bool {
    c == '/' || c == '\\'
}

/// `p` has a Windows verbatim prefix (`\\?\`, where the parser also takes
/// `/` for `\\`): paths under it are rebuilt from their components when joined.
pub open spec fn is_verbatim(p: Seq<char>) -> bool {
    p.len() >= 3 && is_separator(p[0]) && is_separator(p[1]) && p[2] == '?'
}

/// `base` needs no separator before a further component: it is empty, or
/// already ends in a separator or in a drive colon.
pub open spec fn needs_no_separator(base: Seq<char>) -> bool {
    base.len() == 0 || is_separator(base.last()) || base.last() == ':'
}

/// `r` ends with `name`.
pub open spec fn ends_with(r: Seq<char>, name: Seq<char>) -> bool {
    r.len() >= name.len() && r.subrange(r.len() - name.len(), r.len() as int) == name
}

/// `r` is the component `name` placed under the directory `base`: after a
/// separator, or directly where `base` needs none. Under a verbatim base, whose
/// components are rebuilt, only that `r` ends with `name`.
pub open spec fn is_joined(base: Seq<char>, name: Seq<char>, r: Seq<char>) -> bool {
    if is_verbatim(base) {
        ends_with(r, name)
    } else {
        r == base + seq!['/'] + name || r == base + seq!['\\'] + name || (needs_no_separator(base)
            && r == base + name)
    }
}

/// `r` is the component `a`, then the component `b`, placed under `base`.
pub open spec fn is_joined2(base: Seq<char>, a: Seq<char>, b: Seq<char>, r: Seq<char>) -> bool {
    exists|m: Seq<char>| #[trigger] is_joined(base, a, m) && is_joined(m, b, r)
}

/// The file name of the Windows executable.
pub open spec fn windows_exe_name() -> Seq<char> {
    "RobloxStudioBeta.exe"@
}

pub(crate) proof fn lemma_components()
    ensures
        is_component("Roblox"@),
        is_component("Plugins"@),
        is_component("server.rbxl"@),
        is_component("Versions"@),
        is_component("RobloxStudioBeta.exe"@),
        is_component("content"@),
        is_component("BuiltInPlugins"@),
{
    reveal_strlit("Roblox");
    reveal_strlit("Plugins");
    reveal_strlit("server.rbxl");
    reveal_strlit("Versions");
    reveal_strlit("RobloxStudioBeta.exe");
    reveal_strlit("content");
    reveal_strlit("BuiltInPlugins");
    reveal_with_fuel(plain_from, 21);
}

/// Relies on `std::path::Path::join`: a relative path of one plain component is
/// appended to the base, after the platform's separator unless the base is
/// empty or already ends in a separator (or, on Windows, is a bare drive such
/// as `C:`). Under a Windows verbatim prefix the path is rebuilt from its
/// components, the new one last. The result of joining two texts is text again.
#[verifier::external_body]
pub(crate) fn join(base: &str, name: &str) -> (r: String)
    requires
        is_component(name@),
    ensures
        is_joined(base@, name@, r@),
{
    std::path::Path::new(base).join(name).to_string_lossy().into_owned()
}

pub(crate) fn join2(base: &str, a: &str, b: &str) -> (r: String)
    requires
        is_component(a@),
        is_component(b@),
    ensures
        is_joined2(base@, a@, b@, r@),
{
    let m = join(base, a);
    let r = join(m.as_str(), b);
    assert(is_joined(base@, a@, m@) && is_joined(m@, b@, r@));
    r
}

/// `p` ends in a normal component on every platform: it is not empty, its last
/// character is no separator, drive colon or dot, and it does not begin with
/// two separators (a network or verbatim prefix).
pub open spec fn ends_in_name(p: Seq<char>) -> bool {
    &&& p.len() > 0
    &&& !is_separator(p.last())
    &&& p.last() != ':'
    &&& p.last() != '.'
    &&& !(p.len() >= 2 && is_separator(p[0]) && is_separator(p[1]))
}

/// `p` holds nothing but `/`, the separator of every platform, if anything:
/// no component to remove.
pub open spec fn only_separators(p: Seq<char>) -> bool {
    forall|i: int| 0 <= i < p.len() ==> #[trigger] p[i] == '/'
}

/// `p` ends in a name and every platform splits it alike: its only separator
/// is `/`, it has no drive colon, and no `.` component stands after its start.
pub open spec fn is_plain_path(p: Seq<char>) -> bool {
    &&& ends_in_name(p)
    &&& forall|i: int| 0 <= i < p.len() ==> #[trigger] p[i] != '\\' && p[i] != ':'
    &&& forall|i: int|
        0 <= i && i + 2 < p.len() ==> !(#[trigger] p[i] == '/' && p[i + 1] == '.' && p[i + 2]
            == '/')
}

/// The index of the last `/` before index `i` of `p`, or -1 if there is none.
pub open spec fn last_slash(p: Seq<char>, i: int) -> int
    decreases i,
{
    if i <= 0 {
        -1
    } else if p[i - 1] == '/' {
        i - 1
    } else {
        last_slash(p, i - 1)
    }
}

/// `p` without its trailing `/`s, though a lone root `/` stays.
pub open spec fn trim_slashes(p: Seq<char>) -> Seq<char>
    decreases p.len(),
{
    if p.len() > 1 && p.last() == '/' {
        trim_slashes(p.drop_last())
    } else {
        p
    }
}

/// The parent of a plain path: its last component and the separators before
/// it dropped, a leading root kept.
pub open spec fn parent_text(p: Seq<char>) -> Seq<char> {
    let k = last_slash(p, p.len() as int);
    if k < 0 {
        Seq::empty()
    } else {
        trim_slashes(p.subrange(0, k + 1))
    }
}

/// Relies on `std::path::Path::parent`: where there is one, the parent is the
/// path with its last component removed, a strict prefix of the path. A path
/// that ends in a normal component has one; a path of separators alone (or an
/// empty one) has none. Of a plain path, which every platform splits alike,
/// the parent is its text up to the last separator, trailing separators
/// removed.
#[verifier::external_body]
fn parent_dir(p: &str) -> (r: Option<String>)
    ensures
        r matches Some(q) ==> q@.len() < p@.len() && q@ == p@.subrange(0, q@.len() as int),
        ends_in_name(p@) ==> r is Some,
        is_plain_path(p@) ==> r is Some && r->0@ == parent_text(p@),
        only_separators(p@) ==> r is None,
{
    match std::path::Path::new(p).parent() {
        Some(q) => Some(q.to_string_lossy().into_owned()),
        None => None,
    }
}

/// Relies on `dirs::data_local_dir`: the user's local data directory where the
/// platform defines one; a directory whose path is not text counts as missing.
/// It depends on the environment, so nothing is promised of it.
#[verifier::external_body]
pub(crate) fn data_local_dir() -> (r: Option<String>) {
    match dirs::data_local_dir() {
        Some(p) => p.into_os_string().into_string().ok(),
        None => None,
    }
}

/// An entry of the `Versions` directory of a Windows installation, as listed
/// by the operating system.
#[derive(Debug, Clone)]
pub enum VersionEntry {
    /// The entry could not be read; the scan stops here.
    Unreadable,
    /// Not a directory, or its type could not be read; the scan skips it.
    Other,
    /// A directory at `path`, and whether the executable stands in it.
    Dir { path: String, has_exe: bool },
}

/// The index of the entry that the scan of the `Versions` directory settles
/// on, from index `i` on: the first directory that holds the executable,
/// unless an unreadable entry comes before it.
pub open spec fn first_install(entries: Seq<VersionEntry>, i: int) -> Option<int>
    decreases entries.len() - i,
{
    if i < 0 || i >= entries.len() {
        None
    } else {
        match entries[i] {
            VersionEntry::Unreadable => None,
            VersionEntry::Dir { path, has_exe } => {
                if has_exe {
                    Some(i)
                } else {
                    first_install(entries, i + 1)
                }
            },
            VersionEntry::Other => first_install(entries, i + 1),
        }
    }
}

/// Discovered paths to the Roblox Studio executable, content, and plugins
/// directories.
#[derive(Debug, Clone)]
pub struct RobloxStudioPaths {
    exe: String,
    content: String,
    plugins_user: String,
    plugins_builtin: String,
}

/// `p` is the direct layout of a Windows installation under `root`.
pub open spec fn direct_layout(p: RobloxStudioPaths, root: Seq<char>, content: Seq<char>) -> bool {
    &&& is_joined(root, windows_exe_name(), p.exe_path())
    &&& p.content_path() == content
    &&& is_joined(root, "BuiltInPlugins"@, p.built_in_plugins_path())
}

/// `p` is the layout of one version directory `dir` of a Windows installation.
pub open spec fn versioned_layout(p: RobloxStudioPaths, dir: Seq<char>) -> bool {
    &&& is_joined(dir, windows_exe_name(), p.exe_path())
    &&& is_joined(dir, "content"@, p.content_path())
    &&& is_joined(dir, "BuiltInPlugins"@, p.built_in_plugins_path())
}

/// `p` is the layout of the macOS application bundle, with the user plugins
/// under the documents directory `documents`.
pub open spec fn bundle_layout(p: RobloxStudioPaths, documents: Seq<char>) -> bool {
    &&& p.exe_path() == "/Applications/RobloxStudio.app/Contents/MacOS/RobloxStudio"@
    &&& p.content_path() == "/Applications/RobloxStudio.app/Contents/Resources/content"@
    &&& p.built_in_plugins_path()
        == "/Applications/RobloxStudio.app/Contents/Resources/BuiltInPlugins"@
    &&& is_joined2(documents, "Roblox"@, "Plugins"@, p.user_plugins_path())
}

/// What the search of a Windows installation under `root` settles on, given
/// whether the executable stands directly in `root` and the listing of its
/// `Versions` directory (`None` where that is no readable directory).
pub open spec fn windows_layout(
    p: RobloxStudioPaths,
    root: Seq<char>,
    content: Seq<char>,
    direct_exe: bool,
    versions: Option<Seq<VersionEntry>>,
) -> bool {
    if direct_exe {
        direct_layout(p, root, content)
    } else {
        match versions {
            Some(es) => match first_install(es, 0) {
                Some(k) => match es[k] {
                    VersionEntry::Dir { path, has_exe } => versioned_layout(p, path@),
                    _ => false,
                },
                None => false,
            },
            None => false,
        }
    }
}

/// Whether the search of a Windows installation finds one.
pub open spec fn windows_found(direct_exe: bool, versions: Option<Seq<VersionEntry>>) -> bool {
    direct_exe || (versions matches Some(es) && first_install(es, 0) is Some)
}

proof fn lemma_first_install(entries: Seq<VersionEntry>, i: int)
    requires
        0 <= i,
    ensures
        first_install(entries, i) matches Some(k) ==> i <= k < entries.len() && (
        entries[k] matches VersionEntry::Dir { path, has_exe } && has_exe),
    decreases entries.len() - i,
{
    if i < entries.len() {
        lemma_first_install(entries, i + 1);
    }
}

impl RobloxStudioPaths {
    pub closed spec fn exe_path(self) -> Seq<char> {
        self.exe@
    }

    pub closed spec fn content_path(self) -> Seq<char> {
        self.content@
    }

    pub closed spec fn user_plugins_path(self) -> Seq<char> {
        self.plugins_user@
    }

    pub closed spec fn built_in_plugins_path(self) -> Seq<char> {
        self.plugins_builtin@
    }

    /// Returns the path to the Roblox Studio executable.
    pub fn exe(&self) -> (r: &str)
        ensures
            r@ == self.exe_path(),
    {
        self.exe.as_str()
    }

    /// Returns the path to the Roblox Studio content directory, which holds
    /// bundled assets such as fonts, sounds and textures.
    pub fn content(&self) -> (r: &str)
        ensures
            r@ == self.content_path(),
    {
        self.content.as_str()
    }

    /// Returns the path to the **user plugins** directory. It may not exist
    /// yet: Roblox Studio creates it on demand.
    pub fn user_plugins(&self) -> (r: &str)
        ensures
            r@ == self.user_plugins_path(),
    {
        self.plugins_user.as_str()
    }

    /// Returns the path to the **built-in plugins** directory, which is
    /// bundled with Roblox Studio and always exists.
    pub fn built_in_plugins(&self) -> (r: &str)
        ensures
            r@ == self.built_in_plugins_path(),
    {
        self.plugins_builtin.as_str()
    }

    /// The paths of the macOS application bundle, given the user's documents
    /// directory, where the platform has one.
    pub fn from_bundle_in(documents: Option<String>) -> (r: RobloxStudioResult<Self>)
        ensures
            documents is None ==> r matches Err(RobloxStudioError::UserDocumentsDirMissing),
            documents matches Some(d) ==> (r matches Ok(p) && bundle_layout(p, d@)),
    {
        match documents {
            None => Err(RobloxStudioError::UserDocumentsDirMissing),
            Some(d) => {
                proof {
                    lemma_components();
                }
                Ok(RobloxStudioPaths {
                    exe: "/Applications/RobloxStudio.app/Contents/MacOS/RobloxStudio".to_owned(),
                    content: "/Applications/RobloxStudio.app/Contents/Resources/content".to_owned(),
                    plugins_user: join2(d.as_str(), "Roblox", "Plugins"),
                    plugins_builtin:
                        "/Applications/RobloxStudio.app/Contents/Resources/BuiltInPlugins".to_owned(),
                })
            },
        }
    }

    /// The installation root of Windows: the parent of the content directory
    /// that the registry records. `registry` is the outcome of reading that
    /// value, or the detail of why it could not be read.
    pub fn install_root(registry: &Result<String, String>) -> (r: RobloxStudioResult<String>)
        ensures
            registry matches Err(e) ==> (r matches Err(RobloxStudioError::Io(d)) && d@ == e@),
            registry matches Ok(c) ==> match r {
                Ok(root) => root@.len() < c@.len() && root@ == c@.subrange(0, root@.len() as int),
                Err(RobloxStudioError::Io(_)) => true,
                Err(_) => false,
            },
            registry matches Ok(c) && ends_in_name(c@) ==> r is Ok,
            registry matches Ok(c) ==> (is_plain_path(c@) ==> (r matches Ok(root) && root@
                == parent_text(c@))),
            registry matches Ok(c) && only_separators(c@) ==> r matches Err(RobloxStudioError::Io(_)),
    {
        match registry {
            Err(e) => Err(RobloxStudioError::Io(e.clone())),
            Ok(c) => match parent_dir(c.as_str()) {
                Some(root) => Ok(root),
                None => Err(
                    RobloxStudioError::Io(
                        "Malformed registry entry: content folder has no parent directory".to_owned(),
                    ),
                ),
            },
        }
    }

    /// The path at which the Windows executable would stand in `dir`.
    pub fn exe_in(dir: &str) -> (r: String)
        ensures
            is_joined(dir@, windows_exe_name(), r@),
    {
        proof {
            lemma_components();
        }
        join(dir, "RobloxStudioBeta.exe")
    }

    /// The `Versions` directory under the installation root `root`.
    pub fn versions_dir(root: &str) -> (r: String)
        ensures
            is_joined(root@, "Versions"@, r@),
    {
        proof {
            lemma_components();
        }
        join(root, "Versions")
    }

    fn find_paths_direct(root: &str, content: &str, plugins_user: &str, exe_found: bool) -> (r:
        Option<Self>)
        ensures
            exe_found ==> (r matches Some(p) && direct_layout(p, root@, content@)
                && p.user_plugins_path() == plugins_user@),
            !exe_found ==> r is None,
    {
        if exe_found {
            proof {
                lemma_components();
            }
            Some(
                RobloxStudioPaths {
                    exe: Self::exe_in(root),
                    content: content.to_owned(),
                    plugins_user: plugins_user.to_owned(),
                    plugins_builtin: join(root, "BuiltInPlugins"),
                },
            )
        } else {
            None
        }
    }

    fn find_paths_versioned(entries: &Vec<VersionEntry>, plugins_user: &str) -> (r: Option<Self>)
        ensures
            match first_install(entries@, 0) {
                Some(k) => r matches Some(p) && (entries@[k] matches VersionEntry::Dir {
                    path,
                    has_exe,
                } && versioned_layout(p, path@)) && p.user_plugins_path() == plugins_user@,
                None => r is None,
            },
    {
        let mut i: usize = 0;
        while i < entries.len()
            invariant
                i <= entries@.len(),
                first_install(entries@, 0) == first_install(entries@, i as int),
            decreases entries@.len() - i,
        {
            match &entries[i] {
                VersionEntry::Unreadable => {
                    return None;
                },
                VersionEntry::Other => {},
                VersionEntry::Dir { path, has_exe } => {
                    if *has_exe {
                        proof {
                            lemma_components();
                        }
                        return Some(
                            RobloxStudioPaths {
                                exe: Self::exe_in(path.as_str()),
                                content: join(path.as_str(), "content"),
                                plugins_user: plugins_user.to_owned(),
                                plugins_builtin: join(path.as_str(), "BuiltInPlugins"),
                            },
                        );
                    }
                },
            }
            i = i + 1;
        }
        None
    }

    /// The search of a Windows installation under `root`, given the recorded
    /// content directory, the user's local data directory where the platform
    /// has one, whether the executable stands directly in `root` (at
    /// `exe_in(root)`), and the listing of `versions_dir(root)` (`None` where
    /// that is no readable directory), in the order the system gave it, each
    /// directory with whether the executable stands in it.
    ///
    /// The direct layout wins over the versioned one; of the versions, the
    /// first in listing order that holds the executable is taken.
    pub fn find_paths_in(
        root: &str,
        content: &str,
        local_data: Option<String>,
        direct_exe: bool,
        versions: Option<Vec<VersionEntry>>,
    ) -> (r: RobloxStudioResult<Self>)
        ensures
            local_data is None ==> r matches Err(RobloxStudioError::LocalDataDirMissing),
            local_data matches Some(d) ==> {
                let vs = match versions {
                    Some(v) => Some(v@),
                    None => None,
                };
                &&& windows_found(direct_exe, vs) ==> (r matches Ok(p) && windows_layout(
                    p,
                    root@,
                    content@,
                    direct_exe,
                    vs,
                ) && is_joined2(d@, "Roblox"@, "Plugins"@, p.user_plugins_path()))
                &&& !windows_found(direct_exe, vs) ==> r matches Err(
                    RobloxStudioError::InstallationNotFound,
                )
            },
    {
        let d = match local_data {
            Some(d) => d,
            None => {
                return Err(RobloxStudioError::LocalDataDirMissing);
            },
        };
        proof {
            lemma_components();
        }
        let plugins_user = join2(d.as_str(), "Roblox", "Plugins");
        if let Some(p) = Self::find_paths_direct(root, content, plugins_user.as_str(), direct_exe) {
            return Ok(p);
        }
        match versions {
            Some(entries) => {
                let found = Self::find_paths_versioned(&entries, plugins_user.as_str());
                proof {
                    lemma_first_install(entries@, 0);
                }
                match found {
                    Some(p) => Ok(p),
                    None => Err(RobloxStudioError::InstallationNotFound),
                }
            },
            None => Err(RobloxStudioError::InstallationNotFound),
        }
    }

    /// The search of a Windows installation under `root`, as `find_paths_in`
    /// describes it, with the user plugins under the user's local data
    /// directory.
    pub fn find_paths(
        root: &str,
        content: &str,
        direct_exe: bool,
        versions: Option<Vec<VersionEntry>>,
    ) -> (r: RobloxStudioResult<Self>)
        ensures
            ({
                let vs = match versions {
                    Some(v) => Some(v@),
                    None => None,
                };
                &&& r matches Ok(p) ==> windows_found(direct_exe, vs) && windows_layout(
                    p,
                    root@,
                    content@,
                    direct_exe,
                    vs,
                )
                &&& r is Err ==> (r matches Err(RobloxStudioError::LocalDataDirMissing) || (r matches Err(
                    RobloxStudioError::InstallationNotFound,
                ) && !windows_found(direct_exe, vs)))
                &&& windows_found(direct_exe, vs) ==> !(r matches Err(
                    RobloxStudioError::InstallationNotFound,
                ))
                &&& r matches Ok(p) ==> exists|d: Seq<char>|
                    is_joined2(d, "Roblox"@, "Plugins"@, p.user_plugins_path())
            }),
    {
        let local_data = data_local_dir();
        let ghost d = local_data->0@;
        let r = Self::find_paths_in(root, content, local_data, direct_exe, versions);
        proof {
            if r is Ok {
                assert(is_joined2(d, "Roblox"@, "Plugins"@, r->Ok_0.user_plugins_path()));
            }
        }
        r
    }
}

} // verus!
