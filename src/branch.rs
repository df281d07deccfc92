use vstd::prelude::*;

verus! {

/// The branch a conditional view has live.
#[derive(Clone, Copy, Debug, PartialEq, Eq, Structural)]
pub enum Branch {
    Present,
    Absent,
}

/// What an update pass does.
#[derive(Clone, Copy, Debug, PartialEq, Eq, Structural)]
pub enum UpdateAction {
    /// The branch was rebuilt; the host must be told the children changed.
    Rebuild,
    /// The update goes on into the live branch.
    Forward,
}

pub open spec fn branch_for(present: bool) -> Branch {
    if present {
        Branch::Present
    } else {
        Branch::Absent
    }
}

/// A view that shows one of two branches, depending on whether an optional
/// value is present. It tracks which branch is live.
pub struct Maybe {
    pub widget: Branch,
}

impl Maybe {
    /// A conditional view; the present branch is built first.
    pub fn new() -> (r: Maybe)
        ensures
            r.widget == Branch::Present,
    {
        Maybe { widget: Branch::Present }
    }

    /// Whether the live branch is the present one.
    pub fn is_some(&self) -> (r: bool)
        ensures
            r == (self.widget == Branch::Present),
    {
        match self.widget {
            Branch::Present => true,
            Branch::Absent => false,
        }
    }

    /// Replaces the live branch with a fresh one for the given presence.
    pub fn rebuild_widget(&mut self, is_some: bool)
        ensures
            final(self).widget == branch_for(is_some),
    {
        if is_some {
            self.widget = Branch::Present;
        } else {
            self.widget = Branch::Absent;
        }
    }

    /// Whether an event goes on into the live branch: only when it agrees with
    /// the data.
    pub fn routes_event(&self, present: bool) -> (r: bool)
        ensures
            r == (self.widget == branch_for(present)),
    {
        self.is_some() == present
    }

    /// A lifecycle pass: rebuilds the branch if it disagrees with the data.
    /// Afterwards the live branch always agrees with the data.
    pub fn lifecycle(&mut self, present: bool) -> (rebuilt: bool)
        ensures
            final(self).widget == branch_for(present),
            rebuilt == (old(self).widget != branch_for(present)),
    {
        if self.is_some() != present {
            self.rebuild_widget(present);
            true
        } else {
            false
        }
    }

    /// An update pass: rebuilds the branch exactly when presence changed.
    pub fn update(&mut self, old_present: bool, present: bool) -> (r: UpdateAction)
        ensures
            r == update_action(old_present, present),
            old_present != present ==> final(self).widget == branch_for(present),
            old_present == present ==> final(self).widget == old(self).widget,
    {
        if old_present != present {
            self.rebuild_widget(present);
            UpdateAction::Rebuild
        } else {
            UpdateAction::Forward
        }
    }
}

pub open spec fn update_action(old_present: bool, present: bool) -> UpdateAction {
    if old_present != present {
        UpdateAction::Rebuild
    } else {
        UpdateAction::Forward
    }
}

/// The number of rebuilds over a run of update passes, starting from `prev`.
pub open spec fn rebuilds(prev: bool, states: Seq<bool>) -> nat
    decreases states.len(),
{
    if states.len() == 0 {
        0
    } else {
        (if update_action(prev, states[0]) == UpdateAction::Rebuild {
            1nat
        } else {
            0nat
        }) + rebuilds(states[0], states.drop_first())
    }
}

/// The number of times presence flips over a run of states, starting from `prev`.
pub open spec fn flips(prev: bool, states: Seq<bool>) -> nat
    decreases states.len(),
{
    if states.len() == 0 {
        0
    } else {
        (if prev != states[0] {
            1nat
        } else {
            0nat
        }) + flips(states[0], states.drop_first())
    }
}

/// Over any run of update passes, the branch is rebuilt (and the host told of
/// changed children) exactly as often as presence flips; a run in which
/// presence holds still rebuilds nothing.
pub proof fn lemma_rebuilds_follow_flips(prev: bool, states: Seq<bool>)
    ensures
        rebuilds(prev, states) == flips(prev, states),
        (forall|i: int| 0 <= i < states.len() ==> states[i] == prev) ==> rebuilds(prev, states)
            == 0,
    decreases states.len(),
{
    if states.len() > 0 {
        lemma_rebuilds_follow_flips(states[0], states.drop_first());
        if forall|i: int| 0 <= i < states.len() ==> states[i] == prev {
            assert forall|i: int| 0 <= i < states.drop_first().len() implies states.drop_first()[i]
                == states[0] by {
                assert(states[i + 1] == prev);
            }
        }
    }
}

/// Starting absent: becoming present rebuilds once, becoming absent again
/// rebuilds once more.
pub proof fn lemma_absent_present_absent()
    ensures
        rebuilds(false, seq![true]) == 1,
        rebuilds(false, seq![true, false]) == 2,
{
    reveal_with_fuel(rebuilds, 3);
    assert(seq![true].drop_first() =~= Seq::<bool>::empty());
    assert(seq![true, false].drop_first() =~= seq![false]);
    assert(seq![false].drop_first() =~= Seq::<bool>::empty());
}

} // verus!
