use vstd::prelude::*;

verus! {

/// A package to install, and optionally one link that it brings along.
pub struct Package {
    pub name: String,
    /// Where the link goes (the link's destination).
    pub config: String,
    /// What the link points at (the link's source).
    pub path: String,
    /// Read by the package manager only.
    pub aur: bool,
}

/// A link requested independently of any package.
pub struct SysLink {
    /// The link's destination.
    pub config: String,
    /// The link's source.
    pub path: String,
}

/// The desired state: packages first, then standalone links, each in order.
pub struct Config {
    pub packages: Vec<Package>,
    pub sys_links: Vec<SysLink>,
}

impl Package {
    /// A package contributes a link when both its paths are non-empty.
    pub open spec fn contributes_link(&self) -> bool {
        self.config@.len() > 0 && self.path@.len() > 0
    }

    pub fn has_link(&self) -> (r: bool)
        ensures
            r == self.contributes_link(),
    {
        !self.config.as_str().is_empty() && !self.path.as_str().is_empty()
    }
}

impl Config {
    /// A configuration from its two lists, kept in the order given.
    pub fn from_parts(packages: Vec<Package>, sys_links: Vec<SysLink>) -> (r: Config)
        ensures
            r.packages@ == packages@,
            r.sys_links@ == sys_links@,
    {
        Config { packages, sys_links }
    }
}

} // verus!
