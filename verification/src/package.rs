//! Packaging metadata: what is recorded about a blueprint beside its files.

use vstd::prelude::*;
use vstd::string::to_string_from_display_ensures;
use crate::blueprint::Blueprint;
use crate::text::text_view;

verus! {

/// The metadata of a packaged blueprint.
#[derive(Debug)]
pub struct BlueprintMetadata {
    pub name: Option<String>,
    pub version: String,
    pub description: String,
    pub author: String,
    pub license: Option<String>,
    pub keywords: Vec<String>,
    pub dependencies: Vec<String>,
}

impl Default for BlueprintMetadata {
    fn default() -> (r: BlueprintMetadata)
        ensures
            r.name is None,
            r.version@.len() == 0,
            r.description@.len() == 0,
            r.author@.len() == 0,
            r.license is None,
            r.keywords@.len() == 0,
            r.dependencies@.len() == 0,
    {
        BlueprintMetadata {
            name: None,
            version: String::new(),
            description: String::new(),
            author: String::new(),
            license: None,
            keywords: Vec::new(),
            dependencies: Vec::new(),
        }
    }
}

impl BlueprintMetadata {
    /// Names the package; nothing else changes.
    pub fn set_name(&mut self, name: String)
        ensures
            final(self).name == Some(name),
            final(self).version == old(self).version,
            final(self).description == old(self).description,
            final(self).author == old(self).author,
            final(self).license == old(self).license,
            final(self).keywords == old(self).keywords,
            final(self).dependencies == old(self).dependencies,
    {
        self.name = Some(name);
    }

    /// The metadata that a blueprint gives: its version in decimal, its
    /// author, and its mass (handed in as text) as the description. The
    /// package is unnamed and has no licence, keywords or dependencies.
    pub fn summarize(blueprint: &Blueprint, mass: &str) -> (r: BlueprintMetadata)
        ensures
            r.name is None,
            to_string_from_display_ensures::<i64>(&blueprint.version, r.version),
            r.description@ == "mass: "@ + mass@,
            r.author@ == blueprint.author@,
            r.license is None,
            r.keywords@.len() == 0,
            r.dependencies@.len() == 0,
    {
        let mut description = "mass: ".to_owned();
        description.append(mass);
        BlueprintMetadata {
            name: None,
            version: blueprint.version.to_string(),
            description,
            author: blueprint.author.clone(),
            license: None,
            keywords: Vec::new(),
            dependencies: Vec::new(),
        }
    }

    /// The metadata of a blueprint packaged under `name`.
    pub fn describe(blueprint: &Blueprint, mass: &str, name: String) -> (r: BlueprintMetadata)
        ensures
            text_view(r.name) == Some(name@),
            to_string_from_display_ensures::<i64>(&blueprint.version, r.version),
            r.description@ == "mass: "@ + mass@,
            r.author@ == blueprint.author@,
            r.license is None,
            r.keywords@.len() == 0,
            r.dependencies@.len() == 0,
    {
        let mut r = BlueprintMetadata::summarize(blueprint, mass);
        r.set_name(name);
        r
    }
}

} // verus!
