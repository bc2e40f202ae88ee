//! The package data the application shows: formulae, casks, details and
//! dependency trees, and how a package is presented in the list.

use vstd::prelude::*;

verus! {

/// Status label of a package that is up to date.
pub const STATUS_CURRENT: &'static str = "Current";

/// Status label of a package with a newer version available.
pub const STATUS_OUTDATED: &'static str = "Outdated";

/// Status label of a pinned formula.
pub const STATUS_PINNED: &'static str = "Pinned";

/// Symbol shown before the status of an up-to-date package.
pub const SYMBOL_CURRENT: &'static str = "✓";

/// Symbol shown before the status of an outdated package.
pub const SYMBOL_OUTDATED: &'static str = "↑";

/// Symbol shown before the status of a pinned formula.
pub const SYMBOL_PINNED: &'static str = "📌";

/// Longest description, in bytes, shown in the package list.
pub const DESC_TRUNCATE_LEN: usize = 50;

/// Common display operations of formulae and casks.
pub trait PackageDisplay {
    /// The name shown in the list.
    fn display_name(&self) -> &str;

    /// The version shown in the list.
    fn display_version(&self) -> &str;

    /// The description shown in the list (empty when there is none).
    fn display_description(&self) -> &str;

    /// The status label.
    fn status_display(&self) -> &str;

    /// Whether a newer version is available.
    fn is_outdated(&self) -> bool;

    /// Whether the package is pinned; packages that cannot be pinned never are.
    fn is_pinned(&self) -> (r: bool)
        default_ensures
            r == false,
    {
        false
    }
}

/// Version information of a formula.
#[derive(Debug, Clone)]
pub struct Versions {
    pub stable: Option<String>,
    pub head: Option<String>,
    pub bottle: bool,
}

impl Default for Versions {
    fn default() -> (r: Self)
        ensures
            r.stable is None,
            r.head is None,
            !r.bottle,
    {
        Versions { stable: None, head: None, bottle: false }
    }
}

/// One installed version of a formula.
#[derive(Debug, Clone)]
pub struct InstalledVersion {
    pub version: String,
    pub installed_on_request: bool,
    pub installed_as_dependency: bool,
}

/// An installed formula.
#[derive(Debug, Clone)]
pub struct Package {
    pub name: String,
    pub full_name: String,
    pub versions: Versions,
    pub desc: Option<String>,
    pub homepage: Option<String>,
    pub pinned: bool,
    pub outdated: bool,
    pub installed: Vec<InstalledVersion>,
    pub dependencies: Vec<String>,
}

/// An installed cask.
#[derive(Debug, Clone)]
pub struct Cask {
    pub token: String,
    pub name: Vec<String>,
    pub version: String,
    pub desc: Option<String>,
    pub homepage: Option<String>,
    pub outdated: bool,
}

/// The details of one package, shown in the details panel.
#[derive(Debug, Clone)]
pub struct PackageInfo {
    pub name: String,
    pub version: String,
    pub description: String,
    pub homepage: String,
    pub dependencies: Vec<String>,
    pub dependents: Vec<String>,
    pub pinned: bool,
    pub outdated: bool,
}

/// What a package depends on and what depends on it.
#[derive(Debug, Clone)]
pub struct DependencyTreeData {
    pub package_name: String,
    pub dependencies: Vec<String>,
    pub dependents: Vec<String>,
}

/// The characters of an optional text, empty when there is none.
pub open spec fn text_or_empty(t: Option<String>) -> Seq<char> {
    match t {
        Some(s) => s@,
        None => Seq::empty(),
    }
}

impl Package {
    /// The version shown for a formula: the first installed version, else
    /// the stable version, else "unknown".
    pub open spec fn version_text(self) -> Seq<char> {
        if self.installed@.len() > 0 {
            self.installed@[0].version@
        } else {
            match self.versions.stable {
                Some(s) => s@,
                None => "unknown"@,
            }
        }
    }

    /// The status label of a formula: pinned before outdated before current.
    pub open spec fn status_text(self) -> Seq<char> {
        if self.pinned {
            STATUS_PINNED@
        } else if self.outdated {
            STATUS_OUTDATED@
        } else {
            STATUS_CURRENT@
        }
    }
}

impl Cask {
    /// The name shown for a cask: its first name, else its token.
    pub open spec fn name_text(self) -> Seq<char> {
        if self.name@.len() > 0 {
            self.name@[0]@
        } else {
            self.token@
        }
    }

    /// The status label of a cask.
    pub open spec fn status_text(self) -> Seq<char> {
        if self.outdated {
            STATUS_OUTDATED@
        } else {
            STATUS_CURRENT@
        }
    }
}

impl PackageDisplay for Package {
    fn display_name(&self) -> (r: &str)
        ensures
            r@ == self.name@,
    {
        self.name.as_str()
    }

    fn display_version(&self) -> (r: &str)
        ensures
            r@ == self.version_text(),
    {
        if self.installed.len() > 0 {
            self.installed[0].version.as_str()
        } else {
            match &self.versions.stable {
                Some(s) => s.as_str(),
                None => "unknown",
            }
        }
    }

    fn display_description(&self) -> (r: &str)
        ensures
            r@ == text_or_empty(self.desc),
    {
        proof {
            reveal_strlit("");
        }
        match &self.desc {
            Some(d) => d.as_str(),
            None => "",
        }
    }

    fn status_display(&self) -> (r: &str)
        ensures
            r@ == self.status_text(),
    {
        if self.pinned {
            STATUS_PINNED
        } else if self.outdated {
            STATUS_OUTDATED
        } else {
            STATUS_CURRENT
        }
    }

    fn is_outdated(&self) -> (r: bool)
        ensures
            r == self.outdated,
    {
        self.outdated
    }

    fn is_pinned(&self) -> (r: bool)
        ensures
            r == self.pinned,
    {
        self.pinned
    }
}

impl PackageDisplay for Cask {
    fn display_name(&self) -> (r: &str)
        ensures
            r@ == self.name_text(),
    {
        if self.name.len() > 0 {
            self.name[0].as_str()
        } else {
            self.token.as_str()
        }
    }

    fn display_version(&self) -> (r: &str)
        ensures
            r@ == self.version@,
    {
        self.version.as_str()
    }

    fn display_description(&self) -> (r: &str)
        ensures
            r@ == text_or_empty(self.desc),
    {
        proof {
            reveal_strlit("");
        }
        match &self.desc {
            Some(d) => d.as_str(),
            None => "",
        }
    }

    fn status_display(&self) -> (r: &str)
        ensures
            r@ == self.status_text(),
    {
        if self.outdated {
            STATUS_OUTDATED
        } else {
            STATUS_CURRENT
        }
    }

    fn is_outdated(&self) -> (r: bool)
        ensures
            r == self.outdated,
    {
        self.outdated
    }
}

/// How a package is presented: a formula shows its first installed
/// version, else its stable version, else "unknown"; its status is pinned
/// before outdated before current; a cask shows its first name, else its
/// token, and is current or outdated.
pub proof fn lemma_display_rules(p: Package, c: Cask)
    ensures
        p.installed@.len() > 0 ==> p.version_text() == p.installed@[0].version@,
        p.versions.stable matches Some(v) ==> (p.installed@.len() == 0 ==> p.version_text() == v@),
        p.installed@.len() == 0 && p.versions.stable is None ==> p.version_text() == "unknown"@,
        p.pinned ==> p.status_text() == "Pinned"@,
        !p.pinned && p.outdated ==> p.status_text() == "Outdated"@,
        !p.pinned && !p.outdated ==> p.status_text() == "Current"@,
        c.name@.len() > 0 ==> c.name_text() == c.name@[0]@,
        c.name@.len() == 0 ==> c.name_text() == c.token@,
        c.outdated ==> c.status_text() == "Outdated"@,
        !c.outdated ==> c.status_text() == "Current"@,
{
}


} // verus!
