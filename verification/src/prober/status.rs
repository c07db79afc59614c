//! The three-level severity of any monitored entity, and how severities of
//! children roll up into their parent.

use vstd::prelude::*;

verus! {

/// How well an entity is doing. The variants are ordered by severity:
/// `Healthy` < `Sick` < `Dead`.
#[derive(Clone, Copy, Debug, PartialEq, Eq, Structural)]
pub enum Status {
    Healthy,
    Sick,
    Dead,
}

impl Status {
    /// The severity as a number: 0 for `Healthy`, 1 for `Sick`, 2 for `Dead`.
    pub open spec fn severity(self) -> nat {
        match self {
            Status::Healthy => 0,
            Status::Sick => 1,
            Status::Dead => 2,
        }
    }

    /// The text written on status pages and in notifications.
    pub open spec fn spec_as_str(self) -> Seq<char> {
        match self {
            Status::Healthy => "healthy"@,
            Status::Sick => "sick"@,
            Status::Dead => "dead"@,
        }
    }

    /// The pictogram shown beside the status.
    pub open spec fn spec_as_icon(self) -> Seq<char> {
        match self {
            Status::Dead => "\u{274c}"@,
            Status::Sick => "\u{26a0}"@,
            Status::Healthy => "\u{2705}"@,
        }
    }

    /// The name of the variant.
    pub open spec fn spec_label(self) -> Seq<char> {
        match self {
            Status::Healthy => "Healthy"@,
            Status::Sick => "Sick"@,
            Status::Dead => "Dead"@,
        }
    }

    /// The text of the status in capital letters.
    pub open spec fn spec_as_upper(self) -> Seq<char> {
        match self {
            Status::Healthy => "HEALTHY"@,
            Status::Sick => "SICK"@,
            Status::Dead => "DEAD"@,
        }
    }

    /// Names the variant.
    pub fn label(&self) -> (text: &'static str)
        ensures
            text@ == self.spec_label(),
    {
        match self {
            Status::Healthy => "Healthy",
            Status::Sick => "Sick",
            Status::Dead => "Dead",
        }
    }

    /// Writes the status in capital letters.
    pub fn as_upper(&self) -> (text: &'static str)
        ensures
            text@ == self.spec_as_upper(),
    {
        match self {
            Status::Healthy => "HEALTHY",
            Status::Sick => "SICK",
            Status::Dead => "DEAD",
        }
    }

    /// Writes the status.
    pub fn as_str(&self) -> (text: &'static str)
        ensures
            text@ == self.spec_as_str(),
    {
        match self {
            Status::Healthy => "healthy",
            Status::Sick => "sick",
            Status::Dead => "dead",
        }
    }

    /// Gives the pictogram of the status.
    pub fn as_icon(&self) -> (icon: &'static str)
        ensures
            icon@ == self.spec_as_icon(),
    {
        match self {
            Status::Dead => "\u{274c}",
            Status::Sick => "\u{26a0}",
            Status::Healthy => "\u{2705}",
        }
    }

    /// The status of a parent that stood at `self` once a child at `child`
    /// has been taken into account: the more severe of the two.
    pub open spec fn merged_with(self, child: Status) -> Status {
        if child == Status::Dead {
            Status::Dead
        } else if child == Status::Sick && self != Status::Dead {
            Status::Sick
        } else {
            self
        }
    }

    /// Takes one more child into account.
    pub fn merge(self, child: Status) -> (merged: Status)
        ensures
            merged == self.merged_with(child),
    {
        match child {
            Status::Dead => Status::Dead,
            Status::Sick => match self {
                Status::Dead => Status::Dead,
                _ => Status::Sick,
            },
            Status::Healthy => self,
        }
    }
}

/// The most severe status among `children`; `Healthy` where there is none.
pub open spec fn worst_of(children: Seq<Status>) -> Status {
    if children.contains(Status::Dead) {
        Status::Dead
    } else if children.contains(Status::Sick) {
        Status::Sick
    } else {
        Status::Healthy
    }
}

/// The pairwise fold that the aggregator runs over the children of one
/// parent, starting from `Healthy`.
pub open spec fn folded(children: Seq<Status>) -> Status
    decreases children.len(),
{
    if children.len() == 0 {
        Status::Healthy
    } else {
        folded(children.drop_last()).merged_with(children.last())
    }
}

/// Merging is taking the maximum of the two severities.
pub proof fn lemma_merge_is_max(parent: Status, child: Status)
    ensures
        parent.merged_with(child).severity() == if parent.severity() >= child.severity() {
            parent.severity()
        } else {
            child.severity()
        },
        parent.merged_with(child) == parent || parent.merged_with(child) == child,
{
}

/// `worst_of` is the maximum severity: no child is more severe, and where
/// there is a child, one of them has exactly that status.
pub proof fn lemma_worst_is_max(children: Seq<Status>)
    ensures
        forall|i: int| 0 <= i < children.len() ==> (#[trigger] children[i]).severity() <= worst_of(children).severity(),
        children.len() > 0 ==> children.contains(worst_of(children)),
        children.len() == 0 ==> worst_of(children) == Status::Healthy,
{
    assert forall|i: int| 0 <= i < children.len() implies (#[trigger] children[i]).severity() <= worst_of(
        children,
    ).severity() by {
        assert(children.contains(children[i]));
    }
    if children.len() > 0 && worst_of(children) == Status::Healthy {
        assert(children.contains(children[0]));
        assert(children[0] == Status::Healthy);
    }
}

/// One more child changes the worst status as a merge does.
pub proof fn lemma_worst_of_push(children: Seq<Status>, child: Status)
    ensures
        worst_of(children.push(child)) == worst_of(children).merged_with(child),
{
    let longer = children.push(child);
    assert(longer[children.len() as int] == child);
    assert forall|s: Status| longer.contains(s) <==> (children.contains(s) || s == child) by {
        if children.contains(s) {
            let i = choose|i: int| 0 <= i < children.len() && children[i] == s;
            assert(longer[i] == s);
        }
        if longer.contains(s) {
            let i = choose|i: int| 0 <= i < longer.len() && longer[i] == s;
            if i < children.len() {
                assert(children[i] == s);
            }
        }
    }
}

/// The rollup is max-severity: the pairwise fold over the children of a
/// parent ends at the most severe status among them.
pub proof fn lemma_fold_is_worst(children: Seq<Status>)
    ensures
        folded(children) == worst_of(children),
    decreases children.len(),
{
    if children.len() == 0 {
        assert(!children.contains(Status::Dead));
        assert(!children.contains(Status::Sick));
    } else {
        lemma_fold_is_worst(children.drop_last());
        lemma_worst_of_push(children.drop_last(), children.last());
        assert(children.drop_last().push(children.last()) =~= children);
    }
}

/// No downgrade mid-fold: once the fold has seen a dead child, whatever
/// siblings follow, the result stays `Dead`.
pub proof fn lemma_dead_is_never_downgraded(seen: Seq<Status>, later: Seq<Status>)
    requires
        seen.contains(Status::Dead),
    ensures
        folded(seen) == Status::Dead,
        folded(seen + later) == Status::Dead,
{
    lemma_fold_is_worst(seen);
    lemma_fold_is_worst(seen + later);
    let i = choose|i: int| 0 <= i < seen.len() && seen[i] == Status::Dead;
    assert((seen + later)[i] == Status::Dead);
}

/// Rolling up in two levels is rolling up all descendants at once: the worst
/// of the groups' worst statuses is the worst status in any group.
pub proof fn lemma_worst_of_groups(groups: Seq<Seq<Status>>)
    ensures
        worst_of(groups.map_values(|group: Seq<Status>| worst_of(group))) == worst_of(groups.flatten()),
    decreases groups.len(),
{
    let tops = groups.map_values(|group: Seq<Status>| worst_of(group));
    let all = groups.flatten();
    assert forall|s: Status| s != Status::Healthy && tops.contains(s) implies all.contains(s) by {
        let g = choose|g: int| 0 <= g < tops.len() && tops[g] == s;
        assert(worst_of(groups[g]) == s);
        assert(groups[g].contains(s));
        let k = choose|k: int| 0 <= k < groups[g].len() && groups[g][k] == s;
        lemma_flatten_contains(groups, g, k);
    }
    assert forall|s: Status| s != Status::Healthy && all.contains(s) implies tops.contains(s) || (s
        == Status::Sick && tops.contains(Status::Dead)) by {
        let (g, k) = lemma_flatten_origin(groups, s);
        assert(groups[g].contains(s));
        assert(tops[g] == worst_of(groups[g]));
        if s == Status::Dead {
            assert(tops[g] == Status::Dead);
        } else {
            assert(tops[g] == Status::Sick || tops[g] == Status::Dead);
        }
    }
}

/// An item of a group is an item of the flattened groups.
pub proof fn lemma_flatten_contains<A>(groups: Seq<Seq<A>>, g: int, k: int)
    requires
        0 <= g < groups.len(),
        0 <= k < groups[g].len(),
    ensures
        groups.flatten().contains(groups[g][k]),
    decreases groups.len(),
{
    let rest = groups.drop_first();
    if g == 0 {
        assert(groups.flatten() == groups.first() + rest.flatten());
        assert((groups.first() + rest.flatten())[k] == groups[g][k]);
    } else {
        lemma_flatten_contains(rest, g - 1, k);
        let i = choose|i: int| 0 <= i < rest.flatten().len() && rest.flatten()[i] == groups[g][k];
        assert((groups.first() + rest.flatten())[groups.first().len() + i] == groups[g][k]);
    }
}

/// An item of the flattened groups comes from one of the groups.
pub proof fn lemma_flatten_origin<A>(groups: Seq<Seq<A>>, item: A) -> (place: (int, int))
    requires
        groups.flatten().contains(item),
    ensures
        0 <= place.0 < groups.len(),
        0 <= place.1 < groups[place.0].len(),
        groups[place.0][place.1] == item,
    decreases groups.len(),
{
    if groups.len() == 0 {
        (0, 0)
    } else {
        let rest = groups.drop_first();
        let i = choose|i: int| 0 <= i < groups.flatten().len() && groups.flatten()[i] == item;
        assert(groups.flatten() == groups.first() + rest.flatten());
        if i < groups.first().len() {
            (0, i)
        } else {
            assert(rest.flatten()[i - groups.first().len()] == item);
            let (g, k) = lemma_flatten_origin(rest, item);
            (g + 1, k)
        }
    }
}

} // verus!
