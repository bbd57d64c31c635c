//! One observed build of a branch.

use vstd::prelude::*;
use crate::decimal::{i64_text, int_text};

verus! {

/// What a build descriptor holds, as plain values.
pub struct BuildInfoView {
    pub branch: Seq<char>,
    pub build_id: int,
    pub timestamp: int,
    pub description: Seq<char>,
}

/// The text that stands for a description the provider left out.
pub open spec fn default_description_text() -> Seq<char> {
    "No description"@
}

/// The descriptor that is shown where no build was observed.
pub open spec fn default_build() -> BuildInfoView {
    BuildInfoView {
        branch: "none"@,
        build_id: 0,
        timestamp: 0,
        description: default_description_text(),
    }
}

/// The one-line text of a descriptor.
pub open spec fn build_text(b: BuildInfoView) -> Seq<char> {
    "Branch: "@ + b.branch + "; Build ID: "@ + int_text(b.build_id) + "; Timestamp: "@ + int_text(
        b.timestamp,
    ) + "; Description: "@ + b.description
}

/// A snapshot of one published build. It never changes once made: a new
/// observation is a new value.
#[derive(Debug, PartialEq, Eq)]
pub struct BuildInfo {
    branch: String,
    build_id: i64,
    timestamp: i64,
    description: String,
}

impl View for BuildInfo {
    type V = BuildInfoView;

    closed spec fn view(&self) -> BuildInfoView {
        BuildInfoView {
            branch: self.branch@,
            build_id: self.build_id as int,
            timestamp: self.timestamp as int,
            description: self.description@,
        }
    }
}

impl Clone for BuildInfo {
    fn clone(&self) -> (copy: Self)
        ensures
            copy == *self,
    {
        BuildInfo {
            branch: self.branch.clone(),
            build_id: self.build_id,
            timestamp: self.timestamp,
            description: self.description.clone(),
        }
    }
}

/// The placeholder for a description that the provider left out.
pub fn default_description() -> (text: String)
    ensures
        text@ == default_description_text(),
{
    "No description".to_owned()
}

impl BuildInfo {
    pub fn new(branch: String, build_id: i64, timestamp: i64, description: String) -> (b: Self)
        ensures
            b@ == (BuildInfoView {
                branch: branch@,
                build_id: build_id as int,
                timestamp: timestamp as int,
                description: description@,
            }),
    {
        BuildInfo { branch, build_id, timestamp, description }
    }

    pub fn branch(&self) -> (branch: &str)
        ensures
            branch@ == self@.branch,
    {
        self.branch.as_str()
    }

    pub fn build_id(&self) -> (id: i64)
        ensures
            id == self@.build_id,
    {
        self.build_id
    }

    pub fn timestamp(&self) -> (seconds: i64)
        ensures
            seconds == self@.timestamp,
    {
        self.timestamp
    }

    pub fn description(&self) -> (description: &str)
        ensures
            description@ == self@.description,
    {
        self.description.as_str()
    }

    /// The descriptor as one line of text.
    pub fn render(&self) -> (text: String)
        ensures
            text@ == build_text(self@),
    {
        let mut text = "Branch: ".to_owned();
        text.append(self.branch.as_str());
        text.append("; Build ID: ");
        text.append(i64_text(self.build_id).as_str());
        text.append("; Timestamp: ");
        text.append(i64_text(self.timestamp).as_str());
        text.append("; Description: ");
        text.append(self.description.as_str());
        text
    }
}

impl Default for BuildInfo {
    /// The descriptor that is shown where no build was observed.
    fn default() -> (b: Self)
        ensures
            b@ == default_build(),
    {
        BuildInfo {
            branch: "none".to_owned(),
            build_id: 0,
            timestamp: 0,
            description: default_description(),
        }
    }
}

} // verus!
