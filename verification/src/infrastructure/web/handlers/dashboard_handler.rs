//! The layout of the dashboard page: its tabs, the active tab and the
//! entities shown on it, and the script data embedded in the page.

use vstd::prelude::*;

use crate::application::services::dashboard_service::{page_of, strings_view, text_listed, EntityPages};
use crate::config::AppConfig;
use crate::domain::{DashboardState, Entity, EntityView};
use crate::infrastructure::web::viewmodels::EntityViewModel;
use crate::text::{concat, decimal, decimal_string};

verus! {

/// The query of the dashboard page: `?page=N&force_refresh`.
#[derive(Debug)]
pub struct DashboardQuery {
    pub page: Option<usize>,
    pub force_refresh: Option<String>,
}

pub open spec fn views(v: Seq<Entity>) -> Seq<EntityView> {
    v.map_values(|e: Entity| e@)
}

pub open spec fn not_system(system: Seq<Seq<char>>) -> spec_fn(EntityView) -> bool {
    |e: EntityView| !system.contains(e.id)
}

/// The entities that go on the pages: all but the system entities.
pub open spec fn regular_entities(s: Seq<EntityView>, system: Seq<Seq<char>>) -> Seq<EntityView> {
    s.filter(not_system(system))
}

/// A page number some regular entity is assigned to (pages start at 1).
pub open spec fn page_in_use(regular: Seq<EntityView>, pages: Seq<(Seq<char>, usize)>, p: usize) -> bool {
    p > 0 && exists|i: int| 0 <= i < regular.len() && page_of(pages, regular[i].id) == Some(p)
}

pub open spec fn strictly_increasing(s: Seq<usize>) -> bool {
    forall|i: int, j: int| 0 <= i < j < s.len() ==> s[i] < s[j]
}

pub open spec fn tab_label(p: usize) -> Seq<char> {
    "Page "@ + decimal(p as nat)
}

/// The requested tab when it exists, the first one otherwise.
pub open spec fn active_tab_for(requested: usize, n_tabs: int) -> usize {
    if requested > 0 && requested <= n_tabs {
        requested
    } else {
        1
    }
}

pub open spec fn on_page(pages: Seq<(Seq<char>, usize)>, active: usize) -> spec_fn(EntityView) -> bool {
    |e: EntityView| page_of(pages, e.id) == Some(active)
}

/// The layout of the dashboard page.
pub struct PageLayout {
    /// The pages in use, ascending.
    pub page_numbers: Vec<usize>,
    /// `Page N` for each page in use.
    pub page_tabs: Vec<String>,
    pub active_tab: usize,
    pub page_entities: Vec<EntityViewModel>,
}

fn regular_of(state: &DashboardState, system: &Vec<String>) -> (r: Vec<Entity>)
    ensures
        views(r@) == regular_entities(state@, strings_view(system@)),
{
    let ghost pred = not_system(strings_view(system@));
    let mut out: Vec<Entity> = Vec::new();
    let mut i: usize = 0;
    while i < state.entities.len()
        invariant
            i <= state@.len(),
            state@.len() == state.entities@.len(),
            pred == not_system(strings_view(system@)),
            views(out@) == state@.subrange(0, i as int).filter(pred),
        decreases state@.len() - i,
    {
        let e = &state.entities[i];
        let keep = !text_listed(system, e.id.as_str());
        let ghost before = views(out@);
        if keep {
            out.push(e.clone());
        }
        proof {
            let sub = state@.subrange(0, i + 1);
            assert(sub.drop_last() =~= state@.subrange(0, i as int));
            assert(sub.last() == state@[i as int]);
            reveal(Seq::filter);
            if keep {
                assert(views(out@) =~= before.push(state@[i as int]));
            } else {
                assert(views(out@) =~= before);
            }
        }
        i = i + 1;
    }
    assert(state@.subrange(0, state@.len() as int) =~= state@);
    out
}

/// The smallest page in use above `last`.
fn next_page_after(regular: &Vec<Entity>, pages: &EntityPages, last: usize) -> (r: Option<usize>)
    ensures
        match r {
            Some(p) => p > last && page_in_use(views(regular@), pages@, p) && forall|q: usize|
                page_in_use(views(regular@), pages@, q) && q > last ==> p <= q,
            None => forall|q: usize| page_in_use(views(regular@), pages@, q) ==> q <= last,
        },
{
    let ghost reg = views(regular@);
    let mut best: Option<usize> = None;
    let mut j: usize = 0;
    while j < regular.len()
        invariant
            j <= regular@.len(),
            reg == views(regular@),
            match best {
                Some(b) => b > last && (exists|i: int| 0 <= i < j && page_of(pages@, reg[i].id) == Some(b))
                    && forall|i: int, q: usize|
                    0 <= i < j && page_of(pages@, reg[i].id) == Some(q) && q > last ==> b <= q,
                None => forall|i: int, q: usize|
                    0 <= i < j && page_of(pages@, reg[i].id) == Some(q) ==> q <= last,
            },
        decreases regular@.len() - j,
    {
        let pg = pages.get(regular[j].id.as_str());
        assert(reg[j as int].id == regular@[j as int].id@);
        match pg {
            Some(q) => {
                if q > last {
                    match best {
                        Some(b) => {
                            if q < b {
                                best = Some(q);
                            }
                        },
                        None => {
                            best = Some(q);
                        },
                    }
                }
            },
            None => {},
        }
        j = j + 1;
    }
    best
}

fn tab_text(p: usize) -> (r: String)
    ensures
        r@ == tab_label(p),
{
    let d = decimal_string(p as u128);
    concat("Page ", d.as_str())
}

/// The tabs, active tab and entities of the dashboard page. The regular
/// entities (all but `system_entity_ids`) are paged by `pages`; tabs are
/// the pages in use, ascending; the requested page is shown when it is a
/// tab's number, the first page otherwise.
pub fn build_page_layout(
    state: &DashboardState,
    config: &AppConfig,
    pages: &EntityPages,
    requested_page: Option<usize>,
) -> (r: PageLayout)
    ensures
        ({
            let regular = regular_entities(state@, config.system_ids());
            let requested = match requested_page {
                Some(p) => p,
                None => 1,
            };
            let shown = regular.filter(on_page(pages@, r.active_tab));
            &&& strictly_increasing(r.page_numbers@)
            &&& forall|q: usize| page_in_use(regular, pages@, q) <==> r.page_numbers@.contains(q)
            &&& r.page_tabs@.len() == r.page_numbers@.len()
            &&& forall|i: int|
                0 <= i < r.page_tabs@.len() ==> #[trigger] r.page_tabs@[i]@ == tab_label(
                    r.page_numbers@[i],
                )
            &&& r.active_tab == active_tab_for(requested, r.page_tabs@.len() as int)
            &&& r.page_entities@.len() == shown.len()
            &&& forall|i: int|
                0 <= i < shown.len() ==> #[trigger] r.page_entities@[i].shows(shown[i])
        }),
{
    let system = config.system_entity_ids();
    let regular = regular_of(state, &system);
    let ghost reg = views(regular@);
    let mut nums: Vec<usize> = Vec::new();
    let mut last: usize = 0;
    loop
        invariant
            reg == views(regular@),
            strictly_increasing(nums@),
            forall|k: int| 0 <= k < nums@.len() ==> page_in_use(reg, pages@, #[trigger] nums@[k]),
            forall|k: int| 0 <= k < nums@.len() ==> #[trigger] nums@[k] <= last,
            forall|q: usize| page_in_use(reg, pages@, q) && q <= last ==> nums@.contains(q),
        ensures
            strictly_increasing(nums@),
            forall|q: usize| page_in_use(reg, pages@, q) <==> nums@.contains(q),
        decreases usize::MAX - last,
    {
        match next_page_after(&regular, pages, last) {
            Some(p) => {
                let ghost before = nums@;
                nums.push(p);
                assert forall|q: usize| page_in_use(reg, pages@, q) && q <= p implies nums@.contains(
                    q,
                ) by {
                    if q <= last {
                        assert(before.contains(q));
                        let k = choose|k: int| 0 <= k < before.len() && before[k] == q;
                        assert(nums@[k] == q);
                    } else {
                        assert(nums@[nums@.len() - 1] == q);
                    }
                }
                last = p;
            },
            None => {
                assert forall|q: usize| nums@.contains(q) implies page_in_use(reg, pages@, q) by {
                    let k = choose|k: int| 0 <= k < nums@.len() && nums@[k] == q;
                }
                break ;
            },
        }
    }
    let mut tabs: Vec<String> = Vec::new();
    let mut i: usize = 0;
    while i < nums.len()
        invariant
            i <= nums@.len(),
            tabs@.len() == i,
            forall|k: int| 0 <= k < i ==> #[trigger] tabs@[k]@ == tab_label(nums@[k]),
        decreases nums@.len() - i,
    {
        tabs.push(tab_text(nums[i]));
        i = i + 1;
    }
    let requested = match requested_page {
        Some(p) => p,
        None => 1,
    };
    let active = if requested > 0 && requested <= tabs.len() {
        requested
    } else {
        1
    };
    let ghost pred = on_page(pages@, active);
    let mut shown: Vec<EntityViewModel> = Vec::new();
    let ghost mut kept: Seq<EntityView> = Seq::empty();
    let mut j: usize = 0;
    while j < regular.len()
        invariant
            j <= regular@.len(),
            reg == views(regular@),
            pred == on_page(pages@, active),
            kept == reg.subrange(0, j as int).filter(pred),
            shown@.len() == kept.len(),
            forall|k: int| 0 <= k < kept.len() ==> #[trigger] shown@[k].shows(kept[k]),
        decreases regular@.len() - j,
    {
        let e = &regular[j];
        let pg = pages.get(e.id.as_str());
        let on = match pg {
            Some(p) => p == active,
            None => false,
        };
        proof {
            let sub = reg.subrange(0, j + 1);
            assert(sub.drop_last() =~= reg.subrange(0, j as int));
            assert(sub.last() == reg[j as int]);
            reveal(Seq::filter);
            assert(pred(reg[j as int]) == on);
        }
        if on {
            shown.push(EntityViewModel::from_entity(e));
            proof {
                kept = kept.push(reg[j as int]);
            }
        }
        j = j + 1;
    }
    assert(reg.subrange(0, reg.len() as int) =~= reg);
    PageLayout { page_numbers: nums, page_tabs: tabs, active_tab: active, page_entities: shown }
}

/// `[...]`: the texts as a JavaScript array of strings, each between
/// double quotes, separated by commas (the texts are not escaped).
pub open spec fn js_string_items(v: Seq<Seq<char>>) -> Seq<char>
    decreases v.len(),
{
    if v.len() == 0 {
        Seq::empty()
    } else if v.len() == 1 {
        "\""@ + v[0] + "\""@
    } else {
        js_string_items(v.drop_last()) + ","@ + "\""@ + v.last() + "\""@
    }
}

pub fn js_string_array(v: &Vec<String>) -> (r: String)
    ensures
        r@ == "["@ + js_string_items(strings_view(v@)) + "]"@,
{
    let mut body = String::new();
    let mut i: usize = 0;
    while i < v.len()
        invariant
            i <= v@.len(),
            body@ == js_string_items(strings_view(v@).subrange(0, i as int)),
        decreases v@.len() - i,
    {
        let ghost before = body@;
        if i > 0 {
            body.append(",");
        }
        body.append("\"");
        body.append(v[i].as_str());
        body.append("\"");
        proof {
            let sub = strings_view(v@).subrange(0, i + 1);
            assert(sub.drop_last() =~= strings_view(v@).subrange(0, i as int));
            assert(sub.last() == v@[i as int]@);
            if i == 0 {
                assert(body@ =~= "\""@ + v@[0]@ + "\""@);
            } else {
                assert(body@ =~= before + ","@ + "\""@ + v@[i as int]@ + "\""@);
            }
        }
        i = i + 1;
    }
    assert(strings_view(v@).subrange(0, v@.len() as int) =~= strings_view(v@));
    let a = concat("[", body.as_str());
    concat(a.as_str(), "]")
}

pub open spec fn bool_text(b: bool) -> Seq<char> {
    if b {
        "true"@
    } else {
        "false"@
    }
}

/// `{"t":MILLIS,"on":BOOL}` for one pump sample.
pub open spec fn pump_state_item(s: (u128, bool)) -> Seq<char> {
    "{\"t\":"@ + decimal((s.0 / 1_000_000) as nat) + ",\"on\":"@ + bool_text(s.1) + "}"@
}

pub open spec fn pump_state_items(v: Seq<(u128, bool)>) -> Seq<char>
    decreases v.len(),
{
    if v.len() == 0 {
        Seq::empty()
    } else if v.len() == 1 {
        pump_state_item(v[0])
    } else {
        pump_state_items(v.drop_last()) + ","@ + pump_state_item(v.last())
    }
}

fn pump_state_text(s: (u128, bool)) -> (r: String)
    ensures
        r@ == pump_state_item(s),
{
    let ms = decimal_string(s.0 / 1_000_000);
    let a = concat("{\"t\":", ms.as_str());
    let b = concat(a.as_str(), ",\"on\":");
    let c = concat(b.as_str(), if s.1 {
        "true"
    } else {
        "false"
    });
    concat(c.as_str(), "}")
}

/// The pump history as a JavaScript array of `{t, on}` objects, `t` in
/// milliseconds since the epoch; `states` holds nanoseconds.
pub fn pump_states_js(states: &Vec<(u128, bool)>) -> (r: String)
    ensures
        r@ == "["@ + pump_state_items(states@) + "]"@,
{
    let mut body = String::new();
    let mut i: usize = 0;
    while i < states.len()
        invariant
            i <= states@.len(),
            body@ == pump_state_items(states@.subrange(0, i as int)),
        decreases states@.len() - i,
    {
        let ghost before = body@;
        if i > 0 {
            body.append(",");
        }
        let item = pump_state_text(states[i]);
        body.append(item.as_str());
        proof {
            let sub = states@.subrange(0, i + 1);
            assert(sub.drop_last() =~= states@.subrange(0, i as int));
            assert(sub.last() == states@[i as int]);
            if i == 0 {
                assert(body@ =~= pump_state_item(states@[0]));
            } else {
                assert(body@ =~= before + ","@ + pump_state_item(states@[i as int]));
            }
        }
        i = i + 1;
    }
    assert(states@.subrange(0, states@.len() as int) =~= states@);
    let a = concat("[", body.as_str());
    concat(a.as_str(), "]")
}

} // verus!
