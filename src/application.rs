use vstd::prelude::*;

verus! {

/// An application installed on a machine, as its agent reports it.
#[derive(Clone, Debug, PartialEq, Eq)]
pub struct ApplicationInfo {
    pub name: String,
    /// RGBA pixels of a square icon, when one was found.
    pub icon_bytes: Option<Vec<u8>>,
    pub icon_name: String,
    /// Command line that starts the application.
    pub command: String,
    pub category: String,
}

impl ApplicationInfo {
    pub fn icon_name(&self) -> (r: &str)
        ensures
            r@ == self.icon_name@,
    {
        self.icon_name.as_str()
    }
}

/// An application as the web client shows it.
#[derive(Clone, Debug, PartialEq, Eq)]
pub struct ApplicationDisplay {
    pub name: String,
    /// Where the client fetches the icon.
    pub icon: String,
}

/// The applications of one category.
#[derive(Clone, Debug, PartialEq, Eq)]
pub struct ApplicationGroup {
    pub category: String,
    pub applications: Vec<ApplicationDisplay>,
}

/// Applications by category.
#[derive(Clone, Debug, PartialEq, Eq)]
pub struct GroupedApplication {
    pub groups: Vec<ApplicationGroup>,
}

/// The applications of `items` that belong to `category`, in order.
pub open spec fn members(items: Seq<(String, ApplicationDisplay)>, category: Seq<char>) -> Seq<
    ApplicationDisplay,
>
    decreases items.len(),
{
    if items.len() == 0 {
        seq![]
    } else {
        let rest = members(items.drop_last(), category);
        if items.last().0@ == category {
            rest.push(items.last().1)
        } else {
            rest
        }
    }
}

/// Some item before position `k` has this category.
pub open spec fn appears_before(items: Seq<(String, ApplicationDisplay)>, category: Seq<char>, k: int) -> bool {
    exists|j: int| 0 <= j < k && (#[trigger] items[j]).0@ == category
}

/// `groups` holds each category of `items` once and nothing else, in the
/// order in which the categories first appear, with its applications in
/// the order of `items`.
pub open spec fn grouped(groups: Seq<ApplicationGroup>, items: Seq<(String, ApplicationDisplay)>) -> bool {
    &&& forall|a: int, b: int|
        0 <= a < b < groups.len() ==> (#[trigger] groups[a]).category@ != (#[trigger] groups[b]).category@
    &&& forall|a: int|
        0 <= a < groups.len() ==> (#[trigger] groups[a]).applications@ == members(
            items,
            groups[a].category@,
        )
    &&& forall|a: int| 0 <= a < groups.len() ==> (#[trigger] groups[a]).applications@.len() > 0
    &&& forall|k: int|
        0 <= k < items.len() ==> exists|a: int|
            0 <= a < groups.len() && (#[trigger] groups[a]).category@ == (#[trigger] items[k]).0@
    &&& forall|a: int|
        0 <= a < groups.len() ==> appears_before(items, (#[trigger] groups[a]).category@, items.len() as int)
    &&& forall|a: int, b: int, k: int|
        #![trigger groups[a], groups[b], items[k]]
        0 <= a < b < groups.len() && 0 <= k < items.len() && items[k].0@ == groups[b].category@
            ==> appears_before(items, groups[a].category@, k)
}

proof fn lemma_appears_extend(
    prefix: Seq<(String, ApplicationDisplay)>,
    next: Seq<(String, ApplicationDisplay)>,
    category: Seq<char>,
    k: int,
)
    requires
        appears_before(prefix, category, k),
        k <= prefix.len() < next.len(),
        next.subrange(0, prefix.len() as int) == prefix,
    ensures
        appears_before(next, category, k),
{
    let j = choose|j: int| 0 <= j < k && (#[trigger] prefix[j]).0@ == category;
    assert(next[j] == next.subrange(0, prefix.len() as int)[j]);
}

proof fn lemma_members_absent(items: Seq<(String, ApplicationDisplay)>, category: Seq<char>)
    requires
        forall|k: int| 0 <= k < items.len() ==> (#[trigger] items[k]).0@ != category,
    ensures
        members(items, category) == Seq::<ApplicationDisplay>::empty(),
    decreases items.len(),
{
    if items.len() > 0 {
        let rest = items.drop_last();
        assert forall|k: int| 0 <= k < rest.len() implies (#[trigger] rest[k]).0@ != category by {
            assert(rest[k] == items[k]);
        }
        lemma_members_absent(rest, category);
        assert(items.last() == items[items.len() - 1]);
    }
}

impl GroupedApplication {
    /// Groups applications by category: one group per category, in the
    /// order the categories first appear, each holding its applications in
    /// the order given.
    pub fn from_list(items: Vec<(String, ApplicationDisplay)>) -> (r: GroupedApplication)
        ensures
            grouped(r.groups@, items@),
    {
        let ghost all = items@;
        let mut rest = items;
        let mut groups: Vec<ApplicationGroup> = Vec::new();
        let n = rest.len();
        let mut k: usize = 0;
        while k < n
            invariant
                n == all.len(),
                k <= n,
                rest@ == all.subrange(k as int, n as int),
                grouped(groups@, all.subrange(0, k as int)),
            decreases n - k,
        {
            let ghost prefix = all.subrange(0, k as int);
            let ghost next = all.subrange(0, k + 1);
            assert(next.drop_last() =~= prefix);
            assert(rest@[0] == all[k as int]);
            let (category, display) = rest.remove(0);
            assert(next.last() == (category, display));
            assert forall|c: Seq<char>|
                #![trigger members(next, c)]
                members(next, c) == if category@ == c {
                    members(prefix, c).push(display)
                } else {
                    members(prefix, c)
                } by {
                assert(next.len() > 0);
            }
            let mut a: usize = 0;
            let mut found = false;
            while a < groups.len() && !found
                invariant
                    a <= groups@.len(),
                    forall|b: int| 0 <= b < a ==> (#[trigger] groups@[b]).category@ != category@,
                    found ==> a < groups@.len() && groups@[a as int].category@ == category@,
                decreases groups@.len() - a + if found {
                    0int
                } else {
                    1int
                },
            {
                if groups[a].category == category {
                    found = true;
                } else {
                    a = a + 1;
                }
            }
            if found {
                let ghost before = groups@;
                groups[a].applications.push(display);
                assert forall|b: int| 0 <= b < groups@.len() implies (#[trigger] groups@[b]).applications@
                    == members(next, groups@[b].category@) by {
                    if b != a {
                        assert(groups@[b] == before[b]);
                    }
                }
                assert forall|j: int| 0 <= j < next.len() implies exists|b: int|
                    0 <= b < groups@.len() && (#[trigger] groups@[b]).category@ == (#[trigger] next[j]).0@ by {
                    if j < k {
                        assert(next[j] == prefix[j]);
                        let b = choose|b: int| 0 <= b < before.len() && (#[trigger] before[b]).category@ == prefix[j].0@;
                        assert(groups@[b].category@ == before[b].category@);
                    } else {
                        assert(groups@[a as int].category@ == next[j].0@);
                    }
                }
                assert forall|x: int, y: int| 0 <= x < y < groups@.len() implies (#[trigger] groups@[x]).category@
                    != (#[trigger] groups@[y]).category@ by {
                    assert(groups@[x].category@ == before[x].category@);
                    assert(groups@[y].category@ == before[y].category@);
                }
                assert(next.subrange(0, prefix.len() as int) =~= prefix);
                assert forall|x: int| 0 <= x < groups@.len() implies appears_before(
                    next,
                    (#[trigger] groups@[x]).category@,
                    next.len() as int,
                ) by {
                    assert(groups@[x].category@ == before[x].category@);
                    assert(appears_before(prefix, before[x].category@, prefix.len() as int));
                    lemma_appears_extend(prefix, next, before[x].category@, prefix.len() as int);
                    let j = choose|j: int| 0 <= j < prefix.len() && (#[trigger] next[j]).0@ == before[x].category@;
                    assert(0 <= j < next.len() && next[j].0@ == groups@[x].category@);
                }
                assert forall|x: int, y: int, j: int|
                    #![trigger groups@[x], groups@[y], next[j]]
                    0 <= x < y < groups@.len() && 0 <= j < next.len() && next[j].0@ == groups@[y].category@
                        implies appears_before(next, groups@[x].category@, j) by {
                    assert(groups@[x].category@ == before[x].category@);
                    assert(groups@[y].category@ == before[y].category@);
                    if j < prefix.len() {
                        assert(next[j] == prefix[j]);
                        assert(appears_before(prefix, before[x].category@, j));
                        lemma_appears_extend(prefix, next, before[x].category@, j);
                    } else {
                        assert(appears_before(prefix, before[y].category@, prefix.len() as int));
                        let j0 = choose|j0: int| 0 <= j0 < prefix.len() && (#[trigger] prefix[j0]).0@ == before[y].category@;
                        assert(appears_before(prefix, before[x].category@, j0));
                        lemma_appears_extend(prefix, next, before[x].category@, j0);
                        let w = choose|w: int| 0 <= w < j0 && (#[trigger] next[w]).0@ == before[x].category@;
                        assert(0 <= w < j && next[w].0@ == groups@[x].category@);
                    }
                }
            } else {
                proof {
                    assert forall|j: int| 0 <= j < prefix.len() implies (#[trigger] prefix[j]).0@ != category@ by {
                        let b = choose|b: int| 0 <= b < groups@.len() && (#[trigger] groups@[b]).category@ == prefix[j].0@;
                        assert(groups@[b].category@ != category@);
                    }
                    lemma_members_absent(prefix, category@);
                }
                let ghost before = groups@;
                let mut applications: Vec<ApplicationDisplay> = Vec::new();
                applications.push(display);
                groups.push(ApplicationGroup { category, applications });
                assert(groups@[before.len() as int].applications@ =~= members(next, category@));
                assert forall|b: int| 0 <= b < groups@.len() implies (#[trigger] groups@[b]).applications@
                    == members(next, groups@[b].category@) by {
                    if b < before.len() {
                        assert(groups@[b] == before[b]);
                    }
                }
                assert forall|j: int| 0 <= j < next.len() implies exists|b: int|
                    0 <= b < groups@.len() && (#[trigger] groups@[b]).category@ == (#[trigger] next[j]).0@ by {
                    if j < k {
                        assert(next[j] == prefix[j]);
                        let b = choose|b: int| 0 <= b < before.len() && (#[trigger] before[b]).category@ == prefix[j].0@;
                        assert(groups@[b] == before[b]);
                    } else {
                        assert(groups@[before.len() as int].category@ == next[j].0@);
                    }
                }
                assert forall|x: int, y: int| 0 <= x < y < groups@.len() implies (#[trigger] groups@[x]).category@
                    != (#[trigger] groups@[y]).category@ by {
                    assert(groups@[x] == before[x]);
                    if y < before.len() {
                        assert(groups@[y] == before[y]);
                    }
                }
                assert(next.subrange(0, prefix.len() as int) =~= prefix);
                assert forall|x: int| 0 <= x < groups@.len() implies appears_before(
                    next,
                    (#[trigger] groups@[x]).category@,
                    next.len() as int,
                ) by {
                    if x < before.len() {
                        assert(groups@[x] == before[x]);
                        assert(appears_before(prefix, before[x].category@, prefix.len() as int));
                        lemma_appears_extend(prefix, next, before[x].category@, prefix.len() as int);
                        let j = choose|j: int| 0 <= j < prefix.len() && (#[trigger] next[j]).0@ == before[x].category@;
                        assert(0 <= j < next.len() && next[j].0@ == groups@[x].category@);
                    } else {
                        assert(next[prefix.len() as int].0@ == groups@[x].category@);
                    }
                }
                assert forall|x: int, y: int, j: int|
                    #![trigger groups@[x], groups@[y], next[j]]
                    0 <= x < y < groups@.len() && 0 <= j < next.len() && next[j].0@ == groups@[y].category@
                        implies appears_before(next, groups@[x].category@, j) by {
                    assert(groups@[x] == before[x]);
                    if y < before.len() {
                        assert(groups@[y] == before[y]);
                        if j < prefix.len() {
                            assert(next[j] == prefix[j]);
                            assert(appears_before(prefix, before[x].category@, j));
                            lemma_appears_extend(prefix, next, before[x].category@, j);
                        } else {
                            assert(next[j].0@ == category@);
                            assert(false);
                        }
                    } else {
                        if j < prefix.len() {
                            assert(next[j] == prefix[j]);
                            assert(prefix[j].0@ != category@);
                            assert(false);
                        }
                        assert(appears_before(prefix, before[x].category@, prefix.len() as int));
                        lemma_appears_extend(prefix, next, before[x].category@, prefix.len() as int);
                        let w = choose|w: int| 0 <= w < prefix.len() && (#[trigger] next[w]).0@ == before[x].category@;
                        assert(0 <= w < j && next[w].0@ == groups@[x].category@);
                    }
                }
            }
            assert(rest@ =~= all.subrange(k + 1, n as int));
            k = k + 1;
        }
        assert(all.subrange(0, n as int) =~= all);
        GroupedApplication { groups }
    }
}


/// `items` lists each application of `apps` under its category, in order,
/// with no icon location (this library keeps no icon cache).
pub open spec fn displays_of(items: Seq<(String, ApplicationDisplay)>, apps: Seq<ApplicationInfo>) -> bool {
    &&& items.len() == apps.len()
    &&& forall|k: int|
        0 <= k < items.len() ==> {
            &&& (#[trigger] items[k]).0 == apps[k].category
            &&& items[k].1.name == apps[k].name
            &&& items[k].1.icon@.len() == 0
        }
}

/// `g` is what clients see of the catalog `apps`: its applications grouped
/// by category.
pub open spec fn catalog_grouped(g: GroupedApplication, apps: Seq<ApplicationInfo>) -> bool {
    exists|items: Seq<(String, ApplicationDisplay)>| displays_of(items, apps) && grouped(g.groups@, items)
}

impl GroupedApplication {
    /// The applications of a catalog grouped by category (see `from_list`).
    pub fn from_catalog(apps: &Vec<ApplicationInfo>) -> (r: GroupedApplication)
        ensures
            catalog_grouped(r, apps@),
    {
        let mut items: Vec<(String, ApplicationDisplay)> = Vec::new();
        let mut k: usize = 0;
        while k < apps.len()
            invariant
                k <= apps@.len(),
                displays_of(items@, apps@.subrange(0, k as int)),
            decreases apps@.len() - k,
        {
            let display = ApplicationDisplay { name: apps[k].name.clone(), icon: String::new() };
            items.push((apps[k].category.clone(), display));
            k = k + 1;
        }
        assert(apps@.subrange(0, k as int) =~= apps@);
        let ghost shown = items@;
        let r = Self::from_list(items);
        assert(displays_of(shown, apps@) && grouped(r.groups@, shown));
        r
    }
}


/// An empty catalog is shown as no group at all.
pub proof fn lemma_empty_catalog(g: GroupedApplication)
    requires
        catalog_grouped(g, Seq::<ApplicationInfo>::empty()),
    ensures
        g.groups@.len() == 0,
{
    let items = choose|items: Seq<(String, ApplicationDisplay)>|
        displays_of(items, Seq::<ApplicationInfo>::empty()) && grouped(g.groups@, items);
    if g.groups@.len() > 0 {
        assert(appears_before(items, g.groups@[0].category@, items.len() as int));
    }
}

} // verus!
