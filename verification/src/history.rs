//! The two-slot history of observed builds and the rule that moves it.

use vstd::prelude::*;
use crate::descriptor::{build_text, default_build, BuildInfo, BuildInfoView};

verus! {

/// The history as plain values.
pub struct StateView {
    /// The build seen last, if any was seen.
    pub current: Option<BuildInfoView>,
    /// The build that was current before the last change, if any change
    /// was seen.
    pub previous: Option<BuildInfoView>,
}

/// What an observation did to the history.
#[derive(Clone, Copy, Debug, PartialEq, Eq, Structural)]
pub enum Transition {
    /// Nothing had been observed before: the build became current.
    First,
    /// The build has the id of the current one: nothing moved.
    Unchanged,
    /// The build has another id: the current one became previous.
    Changed,
}

impl StateView {
    /// The history before any observation.
    pub open spec fn empty() -> StateView {
        StateView { current: None, previous: None }
    }

    /// What an observation of `build` does to this history.
    pub open spec fn transition(self, build: BuildInfoView) -> Transition {
        match self.current {
            None => Transition::First,
            Some(current) => if current.build_id == build.build_id {
                Transition::Unchanged
            } else {
                Transition::Changed
            },
        }
    }

    /// The history after an observation of `build`. Two builds are the
    /// same build where their ids are equal, whatever else they hold.
    pub open spec fn observe(self, build: BuildInfoView) -> StateView {
        match self.transition(build) {
            Transition::First => StateView { current: Some(build), previous: self.previous },
            Transition::Unchanged => self,
            Transition::Changed => StateView { current: Some(build), previous: self.current },
        }
    }

    /// The history after the observations `builds`, in their order.
    pub open spec fn observe_all(self, builds: Seq<BuildInfoView>) -> StateView
        decreases builds.len(),
    {
        if builds.len() == 0 {
            self
        } else {
            self.observe_all(builds.drop_last()).observe(builds.last())
        }
    }

    /// What holds of every history that observations alone have made:
    /// a previous build comes only with a current one, and the two have
    /// different ids.
    pub open spec fn wf(self) -> bool {
        self.previous matches Some(previous) ==> (self.current matches Some(current)
            && current.build_id != previous.build_id)
    }

    /// The report of the two slots; an empty slot shows the default
    /// descriptor.
    pub open spec fn text(self) -> Seq<char> {
        "Current build:\n\t"@ + build_text(slot_or_default(self.current)) + "\nPrevious build:\n\t"@
            + build_text(slot_or_default(self.previous))
    }
}

/// What is shown for a slot.
pub open spec fn slot_or_default(slot: Option<BuildInfoView>) -> BuildInfoView {
    match slot {
        Some(build) => build,
        None => default_build(),
    }
}

/// The plain values of a slot.
pub open spec fn slot_view(slot: Option<BuildInfo>) -> Option<BuildInfoView> {
    match slot {
        Some(build) => Some(build@),
        None => None,
    }
}

/// The current and the previous build of the watched branch.
#[derive(Debug, PartialEq, Eq)]
pub struct State {
    curr_build: Option<BuildInfo>,
    prev_build: Option<BuildInfo>,
}

impl View for State {
    type V = StateView;

    closed spec fn view(&self) -> StateView {
        StateView { current: slot_view(self.curr_build), previous: slot_view(self.prev_build) }
    }
}

impl Clone for State {
    fn clone(&self) -> (copy: Self)
        ensures
            copy == *self,
    {
        proof {
            use_type_invariant(self);
        }
        let curr_build = match &self.curr_build {
            Some(build) => Some(build.clone()),
            None => None,
        };
        let prev_build = match &self.prev_build {
            Some(build) => Some(build.clone()),
            None => None,
        };
        State { curr_build, prev_build }
    }
}

impl State {
    /// No value of this type is anything but well-formed.
    #[verifier::type_invariant]
    closed spec fn inv(self) -> bool {
        self@.wf()
    }

    /// The history at the start: both slots empty.
    pub fn new() -> (s: Self)
        ensures
            s@ == StateView::empty(),
            s@.wf(),
    {
        State { curr_build: None, prev_build: None }
    }

    /// The build seen last, if any was seen. There is one wherever
    /// there is a previous build.
    pub fn current(&self) -> (slot: Option<&BuildInfo>)
        ensures
            match slot {
                Some(build) => self@.current == Some(build@),
                None => self@.current is None,
            },
            self@.wf(),
    {
        proof {
            use_type_invariant(self);
        }
        self.curr_build.as_ref()
    }

    /// The build that was current before the last change, if any. Its
    /// id is never that of the current build.
    pub fn previous(&self) -> (slot: Option<&BuildInfo>)
        ensures
            match slot {
                Some(build) => self@.previous == Some(build@),
                None => self@.previous is None,
            },
            self@.wf(),
    {
        proof {
            use_type_invariant(self);
        }
        self.prev_build.as_ref()
    }

    /// Takes in one observation. A first build becomes current. A build
    /// with the id of the current one leaves everything as it is. Any
    /// other build becomes current, and the one that was current
    /// becomes previous.
    pub fn observe(&mut self, new_build: BuildInfo) -> (t: Transition)
        ensures
            t == old(self)@.transition(new_build@),
            final(self)@ == old(self)@.observe(new_build@),
            final(self)@.wf(),
            t == Transition::Unchanged ==> *final(self) == *old(self),
    {
        proof {
            use_type_invariant(&*self);
        }
        let transition = match &self.curr_build {
            None => Transition::First,
            Some(current) => if current.build_id() == new_build.build_id() {
                Transition::Unchanged
            } else {
                Transition::Changed
            },
        };
        match transition {
            Transition::First => {
                self.curr_build = Some(new_build);
            },
            Transition::Unchanged => {},
            Transition::Changed => {
                // Both slots move at once: no state in between holds a
                // previous build beside an empty or an equal current one.
                let mut displaced = State::new();
                core::mem::swap(self, &mut displaced);
                *self = State { curr_build: Some(new_build), prev_build: displaced.curr_build };
            },
        }
        transition
    }

    /// The report of the two slots.
    pub fn render(&self) -> (text: String)
        ensures
            text@ == self@.text(),
    {
        let placeholder = BuildInfo::default();
        let mut text = "Current build:\n\t".to_owned();
        let current = match &self.curr_build {
            Some(build) => build.render(),
            None => placeholder.render(),
        };
        text.append(current.as_str());
        text.append("\nPrevious build:\n\t");
        let previous = match &self.prev_build {
            Some(build) => build.render(),
            None => placeholder.render(),
        };
        text.append(previous.as_str());
        text
    }
}

/// Where the last run of equal ids begins in `builds`: the index of
/// the first of the builds at its end that all have the id of the last.
pub open spec fn last_run_start(builds: Seq<BuildInfoView>) -> int
    decreases builds.len(),
{
    if builds.len() <= 1 {
        0
    } else if builds[builds.len() - 2].build_id == builds.last().build_id {
        last_run_start(builds.drop_last())
    } else {
        builds.len() - 1
    }
}

/// `last_run_start` is what its name says: from there on every build
/// has the id of the last one, and the build just before it, if there is
/// one, has another id.
pub proof fn lemma_last_run_start(builds: Seq<BuildInfoView>)
    requires
        builds.len() > 0,
    ensures
        0 <= last_run_start(builds) < builds.len(),
        forall|m: int|
            last_run_start(builds) <= m < builds.len() ==> (#[trigger] builds[m]).build_id
                == builds.last().build_id,
        last_run_start(builds) > 0 ==> builds[last_run_start(builds) - 1].build_id
            != builds.last().build_id,
    decreases builds.len(),
{
    if builds.len() > 1 && builds[builds.len() - 2].build_id == builds.last().build_id {
        let earlier = builds.drop_last();
        lemma_last_run_start(earlier);
        assert forall|m: int| last_run_start(builds) <= m < builds.len() implies (
        #[trigger] builds[m]).build_id == builds.last().build_id by {
            if m < earlier.len() {
                assert(earlier[m] == builds[m]);
            }
        }
    }
}

/// A first observation makes its build current and leaves the previous
/// slot empty.
pub proof fn lemma_first_observation(build: BuildInfoView)
    ensures
        StateView::empty().observe(build) == (StateView { current: Some(build), previous: None }),
{
}

/// A build with the id of the one observed just before it changes
/// nothing, whatever else the two hold.
pub proof fn lemma_repeat_changes_nothing(
    history: StateView,
    build: BuildInfoView,
    again: BuildInfoView,
)
    requires
        build.build_id == again.build_id,
    ensures
        history.observe(build).observe(again) == history.observe(build),
{
}

/// An observation keeps a history well-formed.
pub proof fn lemma_observe_keeps_wf(history: StateView, build: BuildInfoView)
    requires
        history.wf(),
    ensures
        history.observe(build).wf(),
{
}

/// Observing one list and then another is observing the two in a row.
pub proof fn lemma_observe_all_concat(
    history: StateView,
    first: Seq<BuildInfoView>,
    then: Seq<BuildInfoView>,
)
    ensures
        history.observe_all(first + then) == history.observe_all(first).observe_all(then),
    decreases then.len(),
{
    if then.len() == 0 {
        assert(first + then =~= first);
    } else {
        lemma_observe_all_concat(history, first, then.drop_last());
        assert((first + then).drop_last() =~= first + then.drop_last());
    }
}

/// Anywhere in a list of observations, a build that repeats the id of
/// the one before it can be left out: the history at the end is the same.
pub proof fn lemma_repeat_can_be_dropped(
    history: StateView,
    before: Seq<BuildInfoView>,
    build: BuildInfoView,
    again: BuildInfoView,
    after: Seq<BuildInfoView>,
)
    requires
        build.build_id == again.build_id,
    ensures
        history.observe_all(before + seq![build, again] + after) == history.observe_all(
            before + seq![build] + after,
        ),
{
    let at = history.observe_all(before);
    assert(at.observe_all(seq![build]) == at.observe(build)) by {
        assert(seq![build].drop_last() =~= Seq::<BuildInfoView>::empty());
        assert(at.observe_all(Seq::empty()) == at);
    }
    assert(at.observe_all(seq![build, again]) == at.observe(build).observe(again)) by {
        assert(seq![build, again].drop_last() =~= seq![build]);
    }
    lemma_observe_all_concat(history, before, seq![build, again]);
    lemma_observe_all_concat(history, before, seq![build]);
    lemma_observe_all_concat(history, before + seq![build, again], after);
    lemma_observe_all_concat(history, before + seq![build], after);
}

/// After any observations from the empty history, the current build is
/// the one that began the last run of equal ids, and the previous build
/// is the one that began the run before that; there is none where all
/// ids are equal.
pub proof fn lemma_history_of_observations(builds: Seq<BuildInfoView>)
    requires
        builds.len() > 0,
    ensures
        StateView::empty().observe_all(builds).current == Some(builds[last_run_start(builds)]),
        StateView::empty().observe_all(builds).previous == if last_run_start(builds) == 0 {
            None
        } else {
            Some(builds[last_run_start(builds.take(last_run_start(builds)))])
        },
    decreases builds.len(),
{
    let earlier = builds.drop_last();
    if builds.len() == 1 {
        assert(StateView::empty().observe_all(earlier) == StateView::empty());
    } else {
        // By induction the claim holds before the last observation;
        // that one either lengthens the last run or begins a new one.
        lemma_history_of_observations(earlier);
        lemma_last_run_start(earlier);
        let start = last_run_start(earlier);
        assert(earlier[start] == builds[start]);
        if earlier.last().build_id == builds.last().build_id {
            assert(builds.take(start) =~= earlier.take(start));
            if start > 0 {
                lemma_last_run_start(earlier.take(start));
                let before = last_run_start(earlier.take(start));
                assert(earlier[before] == builds[before]);
            }
        } else {
            assert(builds.take(builds.len() - 1) =~= earlier);
        }
    }
}

/// Whether the build at `k` is the last in `builds` whose id is not
/// the id of the last build: the most recent change came right after it.
pub open spec fn before_last_change(builds: Seq<BuildInfoView>, k: int) -> bool {
    &&& 0 <= k < builds.len()
    &&& builds[k].build_id != builds.last().build_id
    &&& forall|m: int|
        k < m < builds.len() ==> (#[trigger] builds[m]).build_id == builds.last().build_id
}

/// After the observations `builds` from the empty history: the current
/// build has the id of the last of them. There is no previous build
/// exactly where all ids are equal. Otherwise the previous build has
/// the id that was current right before the most recent change: the
/// id of the build just before the last run of equal ids.
pub proof fn lemma_ids_of_history(builds: Seq<BuildInfoView>)
    requires
        builds.len() > 0,
    ensures
        StateView::empty().observe_all(builds).current matches Some(current) && current.build_id
            == builds.last().build_id,
        StateView::empty().observe_all(builds).previous is None <==> forall|i: int|
            0 <= i < builds.len() ==> (#[trigger] builds[i]).build_id == builds[0].build_id,
        forall|k: int| #[trigger]
            before_last_change(builds, k) ==> (StateView::empty().observe_all(
                builds,
            ).previous matches Some(previous) && previous.build_id == builds[k].build_id),
        StateView::empty().observe_all(builds).previous is Some ==> before_last_change(
            builds,
            last_run_start(builds) - 1,
        ),
{
    lemma_history_of_observations(builds);
    lemma_last_run_start(builds);
    let start = last_run_start(builds);
    if start > 0 {
        lemma_last_run_start(builds.take(start));
        assert(builds.take(start).last() == builds[start - 1]);
        let before = last_run_start(builds.take(start));
        assert(builds.take(start)[before] == builds[before]);
    }
}

/// Every history that observations have made from the empty one is
/// well-formed.
pub proof fn lemma_observed_history_wf(builds: Seq<BuildInfoView>)
    ensures
        StateView::empty().observe_all(builds).wf(),
    decreases builds.len(),
{
    if builds.len() > 0 {
        lemma_observed_history_wf(builds.drop_last());
    }
}

} // verus!
