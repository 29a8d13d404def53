//! Lists of app connectors.

use vstd::prelude::*;

use crate::json::Json;
use crate::json::JsonView;
use crate::text::same_text;

verus! {

/// A connector, by its id, with whatever else is known of it.
#[derive(Debug, Clone, PartialEq)]
pub struct AppInfo {
    pub id: String,
    pub payload: Json,
}

/// What a `AppInfo` means.
#[verifier::ext_equal]
pub struct AppInfoView {
    pub id: Seq<char>,
    pub payload: JsonView,
}

impl View for AppInfo {
    type V = AppInfoView;

    open spec fn view(&self) -> AppInfoView {
        AppInfoView {
            id: self.id.deep_view(),
            payload: self.payload.deep_view(),
        }
    }
}

impl DeepView for AppInfo {
    type V = AppInfoView;

    open spec fn deep_view(&self) -> AppInfoView {
        self.view()
    }
}

/// Whether a connector with an id is in the list.
pub open spec fn has_id(connectors: Seq<AppInfoView>, id: Seq<char>) -> bool {
    exists|i: int| 0 <= i < connectors.len() && (#[trigger] connectors[i]).id == id
}

/// The connectors that are also in the catalog, in their order.
pub open spec fn in_catalog(
    accessible: Seq<AppInfoView>,
    catalog: Seq<AppInfoView>,
) -> Seq<AppInfoView>
    decreases accessible.len(),
{
    if accessible.len() == 0 {
        Seq::empty()
    } else if has_id(catalog, accessible.last().id) {
        in_catalog(accessible.drop_last(), catalog).push(accessible.last())
    } else {
        in_catalog(accessible.drop_last(), catalog)
    }
}

fn lists(connectors: &Vec<AppInfo>, id: &str) -> (r: bool)
    ensures
        r == has_id(connectors.deep_view(), id@),
{
    let ghost all = connectors.deep_view();
    let mut i: usize = 0;
    while i < connectors.len()
        invariant
            i <= connectors@.len(),
            all == connectors.deep_view(),
            forall|k: int| 0 <= k < i ==> (#[trigger] all[k]).id != id@,
        decreases connectors@.len() - i,
    {
        assert(all[i as int] == connectors@[i as int]@);
        if same_text(connectors[i].id.as_str(), id) {
            return true;
        }
        i += 1;
    }
    false
}

/// The accessible connectors that are to be merged with the catalog: those that
/// the catalog lists once it is complete, and all of them before.
pub fn accessible_to_merge(
    connectors: &Vec<AppInfo>,
    accessible_connectors: Vec<AppInfo>,
    all_connectors_loaded: bool,
) -> (r: Vec<AppInfo>)
    ensures
        r.deep_view() == (if all_connectors_loaded {
            in_catalog(accessible_connectors.deep_view(), connectors.deep_view())
        } else {
            accessible_connectors.deep_view()
        }),
{
    if !all_connectors_loaded {
        return accessible_connectors;
    }
    let ghost all = accessible_connectors.deep_view();
    let mut kept: Vec<AppInfo> = Vec::new();
    assert(all.take(0) =~= Seq::<AppInfoView>::empty());
    assert(kept.deep_view() =~= Seq::<AppInfoView>::empty());
    for connector in it: accessible_connectors
        invariant
            it.seq() == accessible_connectors@,
            all == accessible_connectors.deep_view(),
            kept.deep_view() == in_catalog(all.take(it.index() as int), connectors.deep_view()),
    {
        proof {
            let i = it.index() as int;
            assert(all.take(i + 1).drop_last() =~= all.take(i));
            assert(all.take(i + 1).last() == connector@);
        }
        if lists(connectors, connector.id.as_str()) {
            let ghost before = kept.deep_view();
            let ghost added = connector@;
            kept.push(connector);
            assert(kept.deep_view() =~= before.push(added));
        }
    }
    assert(all.take(all.len() as int) =~= all);
    kept
}

/// The last connector with an id.
pub open spec fn last_with(connectors: Seq<AppInfoView>, id: Seq<char>) -> Option<AppInfoView>
    decreases connectors.len(),
{
    if connectors.len() == 0 {
        None
    } else if connectors.last().id == id {
        Some(connectors.last())
    } else {
        last_with(connectors.drop_last(), id)
    }
}

/// The connectors of the apps, in the order of the apps, each app once.
pub open spec fn picked(connectors: Seq<AppInfoView>, apps: Seq<Seq<char>>) -> Seq<AppInfoView>
    decreases apps.len(),
{
    if apps.len() == 0 {
        Seq::empty()
    } else {
        let before = picked(connectors, apps.drop_last());
        match last_with(connectors, apps.last()) {
            Some(connector) => if apps.drop_last().contains(apps.last()) {
                before
            } else {
                before.push(connector)
            },
            None => before,
        }
    }
}

impl AppInfo {
    /// A copy of the connector.
    pub fn copy(&self) -> (r: AppInfo)
        ensures
            r@ == self@,
    {
        AppInfo { id: self.id.clone(), payload: self.payload.copy() }
    }
}

fn find_last(connectors: &Vec<AppInfo>, id: &str) -> (r: Option<AppInfo>)
    ensures
        r.deep_view() == last_with(connectors.deep_view(), id@),
{
    let ghost all = connectors.deep_view();
    let mut k: usize = connectors.len();
    assert(all.take(k as int) =~= all);
    while k > 0
        invariant
            k <= connectors@.len(),
            all == connectors.deep_view(),
            last_with(all, id@) == last_with(all.take(k as int), id@),
        decreases k,
    {
        proof {
            assert(all.take(k as int).drop_last() =~= all.take(k - 1));
            assert(all.take(k as int).last() == connectors@[k - 1]@);
        }
        if same_text(connectors[k - 1].id.as_str(), id) {
            return Some(connectors[k - 1].copy());
        }
        k -= 1;
    }
    None
}

fn names_before(apps: &Vec<String>, end: usize, id: &str) -> (r: bool)
    requires
        end <= apps@.len(),
    ensures
        r == apps.deep_view().take(end as int).contains(id@),
{
    let ghost all = apps.deep_view();
    let mut i: usize = 0;
    while i < end
        invariant
            i <= end <= apps@.len(),
            all == apps.deep_view(),
            forall|k: int| 0 <= k < i ==> #[trigger] all.take(end as int)[k] != id@,
        decreases end - i,
    {
        assert(all.take(end as int)[i as int] == apps@[i as int]@);
        if same_text(apps[i].as_str(), id) {
            return true;
        }
        i += 1;
    }
    false
}

/// The connectors that a plugin's apps name, out of a list that has been merged
/// with them.
pub fn connectors_for_plugin_apps(connectors: &Vec<AppInfo>, plugin_apps: &Vec<String>) -> (r: Vec<
    AppInfo,
>)
    ensures
        r.deep_view() == picked(connectors.deep_view(), plugin_apps.deep_view()),
{
    let ghost apps = plugin_apps.deep_view();
    let mut out: Vec<AppInfo> = Vec::new();
    let mut i: usize = 0;
    assert(apps.take(0) =~= Seq::<Seq<char>>::empty());
    assert(out.deep_view() =~= Seq::<AppInfoView>::empty());
    while i < plugin_apps.len()
        invariant
            i <= plugin_apps@.len(),
            apps == plugin_apps.deep_view(),
            out.deep_view() == picked(connectors.deep_view(), apps.take(i as int)),
        decreases plugin_apps@.len() - i,
    {
        proof {
            assert(apps.take(i + 1).drop_last() =~= apps.take(i as int));
            assert(apps.take(i + 1).last() == plugin_apps@[i as int]@);
        }
        let id = plugin_apps[i].as_str();
        if let Some(connector) = find_last(connectors, id) {
            if !names_before(plugin_apps, i, id) {
                let ghost before = out.deep_view();
                let ghost added = connector@;
                out.push(connector);
                assert(out.deep_view() =~= before.push(added));
            }
        }
        i += 1;
    }
    assert(apps.take(i as int) =~= apps);
    out
}

/// Of the accessible connectors those are kept, in their order, whose id stands in the
/// catalog.
pub proof fn law_listed_connectors_are_kept(
    accessible: Seq<AppInfoView>,
    catalog: Seq<AppInfoView>,
    connector: AppInfoView,
    i: int,
)
    ensures
        in_catalog(Seq::empty(), catalog).len() == 0,
        0 <= i < catalog.len() && catalog[i].id == connector.id ==> in_catalog(
            accessible.push(connector),
            catalog,
        ) == in_catalog(accessible, catalog).push(connector),
        (forall|k: int| 0 <= k < catalog.len() ==> (#[trigger] catalog[k]).id != connector.id)
            ==> in_catalog(accessible.push(connector), catalog) == in_catalog(accessible, catalog),
{
    assert(accessible.push(connector).drop_last() =~= accessible);
}

proof fn lemma_last_with(connectors: Seq<AppInfoView>, id: Seq<char>, k: int)
    ensures
        0 <= k < connectors.len() && connectors[k].id == id && (forall|i: int|
            k < i < connectors.len() ==> (#[trigger] connectors[i]).id != id) ==> last_with(
            connectors,
            id,
        ) == Some(connectors[k]),
        (forall|i: int| 0 <= i < connectors.len() ==> (#[trigger] connectors[i]).id != id)
            ==> last_with(connectors, id) is None,
    decreases connectors.len(),
{
    if connectors.len() > 0 {
        let rest = connectors.drop_last();
        lemma_last_with(rest, id, k);
        let last = connectors.len() - 1;
        if 0 <= k < last && connectors[k].id == id && (forall|i: int|
            k < i < connectors.len() ==> (#[trigger] connectors[i]).id != id) {
            assert(connectors[last].id != id);
            assert forall|i: int| k < i < rest.len() implies (#[trigger] rest[i]).id != id by {
                assert(connectors[i].id != id);
            }
        }
        if forall|i: int| 0 <= i < connectors.len() ==> (#[trigger] connectors[i]).id != id {
            assert(connectors[last].id != id);
            assert forall|i: int| 0 <= i < rest.len() implies (#[trigger] rest[i]).id != id by {
                assert(connectors[i].id != id);
            }
        }
    }
}

/// An app that was not named before has its connector picked, the last one with its
/// id, after those of the apps before it. An app that was named before has nothing
/// picked, and neither has one without a connector.
pub proof fn law_apps_have_their_connectors_picked(
    connectors: Seq<AppInfoView>,
    apps: Seq<Seq<char>>,
    app: Seq<char>,
    k: int,
)
    ensures
        picked(connectors, Seq::empty()).len() == 0,
        !apps.contains(app) && 0 <= k < connectors.len() && connectors[k].id == app && (forall|
            i: int,
        |
            k < i < connectors.len() ==> (#[trigger] connectors[i]).id != app) ==> picked(
            connectors,
            apps.push(app),
        ) == picked(connectors, apps).push(connectors[k]),
        apps.contains(app) ==> picked(connectors, apps.push(app)) == picked(connectors, apps),
        (forall|i: int| 0 <= i < connectors.len() ==> (#[trigger] connectors[i]).id != app)
            ==> picked(connectors, apps.push(app)) == picked(connectors, apps),
{
    assert(apps.push(app).drop_last() =~= apps);
    lemma_last_with(connectors, app, k);
}

} // verus!
