//! The manifest of a technique, its `info.json`.

use vstd::prelude::*;
use vstd::string::*;

verus! {

/// The two groups a technique can belong to.
#[derive(Clone, Copy, Debug, PartialEq, Eq, Structural)]
pub enum TechniqueType {
    DENOISER,
    SAMPLER,
}

impl TechniqueType {
    /// Directory name of the group, as a sequence of characters.
    pub open spec fn spec_as_str(self) -> Seq<char> {
        match self {
            TechniqueType::DENOISER => "denoisers"@,
            TechniqueType::SAMPLER => "samplers"@,
        }
    }

    /// Directory name of the group under the workspaces and page data folders.
    pub fn as_str(&self) -> (name: &'static str)
        ensures
            name@ == self.spec_as_str(),
    {
        match self {
            TechniqueType::DENOISER => "denoisers",
            TechniqueType::SAMPLER => "samplers",
        }
    }

    /// The other group.
    pub open spec fn spec_opposite(self) -> TechniqueType {
        match self {
            TechniqueType::DENOISER => TechniqueType::SAMPLER,
            TechniqueType::SAMPLER => TechniqueType::DENOISER,
        }
    }

    /// The other group.
    pub fn opposite(&self) -> (other: TechniqueType)
        ensures
            other == self.spec_opposite(),
    {
        match self {
            TechniqueType::DENOISER => TechniqueType::SAMPLER,
            TechniqueType::SAMPLER => TechniqueType::DENOISER,
        }
    }
}

/// One version entry of a technique manifest.
#[derive(Debug)]
pub struct Version {
    pub name: String,
    pub comment: String,
    pub executable: String,
}

/// Mathematical content of a `Version`.
pub ghost struct VersionView {
    pub name: Seq<char>,
    pub comment: Seq<char>,
    pub executable: Seq<char>,
}

impl View for Version {
    type V = VersionView;

    open spec fn view(&self) -> VersionView {
        VersionView { name: self.name@, comment: self.comment@, executable: self.executable@ }
    }
}

impl Clone for Version {
    fn clone(&self) -> (copy: Self)
        ensures
            copy == *self,
    {
        Version {
            name: self.name.clone(),
            comment: self.comment.clone(),
            executable: self.executable.clone(),
        }
    }
}

/// The manifest that a technique ships in its `info.json`.
#[derive(Debug)]
pub struct TechniqueInfo {
    pub technique_type: TechniqueType,
    pub short_name: String,
    pub full_name: String,
    pub comment: String,
    pub citation: String,
    pub versions: Vec<Version>,
}

/// Mathematical content of a `TechniqueInfo`.
pub ghost struct TechniqueInfoView {
    pub technique_type: TechniqueType,
    pub short_name: Seq<char>,
    pub full_name: Seq<char>,
    pub comment: Seq<char>,
    pub citation: Seq<char>,
    pub versions: Seq<VersionView>,
}

impl View for TechniqueInfo {
    type V = TechniqueInfoView;

    open spec fn view(&self) -> TechniqueInfoView {
        TechniqueInfoView {
            technique_type: self.technique_type,
            short_name: self.short_name@,
            full_name: self.full_name@,
            comment: self.comment@,
            citation: self.citation@,
            versions: self.versions@.map_values(|v: Version| v@),
        }
    }
}

impl TechniqueInfoView {
    /// The rule on versions: there is none, or exactly one and it is named `default`.
    pub open spec fn versions_allowed(self) -> bool {
        self.versions.len() == 0 || (self.versions.len() == 1 && self.versions[0].name
            == "default"@)
    }
}

impl TechniqueInfo {
    /// Whether the manifest lists no version, or only the one named `default`.
    pub fn versions_allowed(&self) -> (allowed: bool)
        ensures
            allowed == self@.versions_allowed(),
    {
        if self.versions.len() > 1 {
            false
        } else if self.versions.len() == 1 {
            let default = String::from_str("default");
            self.versions[0].name == default
        } else {
            true
        }
    }
}

} // verus!
