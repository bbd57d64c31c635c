//! The provider's answer: applications by id, each with its branches
//! by name.

use vstd::prelude::*;
use vstd::hash_map::StringHashMap;
use std::collections::HashMap;
use crate::descriptor::{default_description, default_description_text};

verus! {

broadcast use vstd::std_specs::hash::group_hash_axioms;

/// One branch as the provider describes it: every field is still text.
pub struct BranchView {
    pub buildid: Seq<char>,
    pub timeupdated: Seq<char>,
    pub description: Seq<char>,
}

/// The text of the time of the last update where the provider gives none.
pub open spec fn default_timeupload_text() -> Seq<char> {
    "0"@
}

/// The fields of a branch once the absent ones have their defaults.
pub open spec fn branch_with_defaults(
    buildid: Seq<char>,
    timeupdated: Option<Seq<char>>,
    description: Option<Seq<char>>,
) -> BranchView {
    BranchView {
        buildid,
        timeupdated: match timeupdated {
            Some(t) => t,
            None => default_timeupload_text(),
        },
        description: match description {
            Some(d) => d,
            None => default_description_text(),
        },
    }
}

/// The text of a string that may be absent.
pub open spec fn text_of(s: Option<String>) -> Option<Seq<char>> {
    match s {
        Some(t) => Some(t@),
        None => None,
    }
}

/// The time of the last update where the provider gives none: the
/// text of zero.
pub fn default_timeupload() -> (text: String)
    ensures
        text@ == default_timeupload_text(),
{
    "0".to_owned()
}

/// A branch descriptor of the provider.
#[derive(Debug)]
pub struct Branch {
    buildid: String,
    timeupdated: String,
    description: String,
}

impl View for Branch {
    type V = BranchView;

    closed spec fn view(&self) -> BranchView {
        BranchView {
            buildid: self.buildid@,
            timeupdated: self.timeupdated@,
            description: self.description@,
        }
    }
}

impl Branch {
    /// A branch from the fields that the provider sent. An absent time
    /// of update or description gets its default.
    pub fn new(buildid: String, timeupdated: Option<String>, description: Option<String>) -> (b:
        Self)
        ensures
            b@ == branch_with_defaults(buildid@, text_of(timeupdated), text_of(description)),
    {
        let timeupdated = match timeupdated {
            Some(t) => t,
            None => default_timeupload(),
        };
        let description = match description {
            Some(d) => d,
            None => default_description(),
        };
        Branch { buildid, timeupdated, description }
    }

    pub fn buildid(&self) -> (text: &str)
        ensures
            text@ == self@.buildid,
    {
        self.buildid.as_str()
    }

    pub fn timeupdated(&self) -> (text: &str)
        ensures
            text@ == self@.timeupdated,
    {
        self.timeupdated.as_str()
    }

    pub fn description(&self) -> (text: &str)
        ensures
            text@ == self@.description,
    {
        self.description.as_str()
    }
}

/// The branches of one application, by name.
pub struct Depots {
    branches: StringHashMap<Branch>,
}

impl View for Depots {
    type V = Map<Seq<char>, BranchView>;

    closed spec fn view(&self) -> Map<Seq<char>, BranchView> {
        self.branches@.map_values(|b: Branch| b@)
    }
}

impl Depots {
    /// No branch at all.
    pub fn new() -> (d: Self)
        ensures
            d@ == Map::<Seq<char>, BranchView>::empty(),
    {
        let d = Depots { branches: StringHashMap::new() };
        assert(d@ =~= Map::<Seq<char>, BranchView>::empty());
        d
    }

    /// Sets the branch called `name`; one of that name is replaced.
    pub fn insert(&mut self, name: String, branch: Branch)
        ensures
            final(self)@ == old(self)@.insert(name@, branch@),
    {
        self.branches.insert(name, branch);
        assert(final(self)@ =~= old(self)@.insert(name@, branch@));
    }

    /// The branch called `name`, if there is one.
    pub fn branch(&self, name: &str) -> (found: Option<&Branch>)
        ensures
            match found {
                Some(b) => self@.contains_key(name@) && b@ == self@[name@],
                None => !self@.contains_key(name@),
            },
    {
        self.branches.get(name)
    }
}

/// What the provider says of one application.
pub struct Data {
    depots: Depots,
}

impl View for Data {
    type V = Map<Seq<char>, BranchView>;

    closed spec fn view(&self) -> Map<Seq<char>, BranchView> {
        self.depots@
    }
}

impl Data {
    pub fn new(depots: Depots) -> (d: Self)
        ensures
            d@ == depots@,
    {
        Data { depots }
    }

    pub fn depots(&self) -> (depots: &Depots)
        ensures
            depots@ == self@,
    {
        &self.depots
    }
}

/// The whole answer, as plain values.
pub struct SteamResponseView {
    pub status: Seq<char>,
    pub data: Map<i32, Map<Seq<char>, BranchView>>,
}

/// The provider's answer to one request.
pub struct SteamResponse {
    status: String,
    data: HashMap<i32, Data>,
}

impl View for SteamResponse {
    type V = SteamResponseView;

    closed spec fn view(&self) -> SteamResponseView {
        SteamResponseView { status: self.status@, data: self.data@.map_values(|d: Data| d@) }
    }
}

impl SteamResponse {
    /// An answer that names no application.
    pub fn new(status: String) -> (r: Self)
        ensures
            r@ == (SteamResponseView { status: status@, data: Map::empty() }),
    {
        let r = SteamResponse { status, data: HashMap::new() };
        assert(r@.data =~= Map::<i32, Map<Seq<char>, BranchView>>::empty());
        r
    }

    /// Sets what is said of the application `app_id`; an earlier entry
    /// for it is replaced.
    pub fn insert(&mut self, app_id: i32, data: Data)
        ensures
            final(self)@ == (SteamResponseView {
                status: old(self)@.status,
                data: old(self)@.data.insert(app_id, data@),
            }),
    {
        self.data.insert(app_id, data);
        assert(final(self)@.data =~= old(self)@.data.insert(app_id, data@));
    }

    pub fn status(&self) -> (status: &str)
        ensures
            status@ == self@.status,
    {
        self.status.as_str()
    }

    /// What is said of the application `app_id`, if anything.
    pub fn app(&self, app_id: i32) -> (found: Option<&Data>)
        ensures
            match found {
                Some(d) => self@.data.contains_key(app_id) && d@ == self@.data[app_id],
                None => !self@.data.contains_key(app_id),
            },
    {
        self.data.get(&app_id)
    }
}

} // verus!
