//! The dashboard's state between requests: the cached Home Assistant
//! state, the sample histories behind the charts, and the decisions made
//! from them. Times are nanoseconds: `now` on a monotonic clock, `wall_now`
//! since the Unix epoch.

use std::collections::VecDeque;

use vstd::prelude::*;

use crate::config::AppConfig;
use crate::domain::entities::find_entity;
use crate::domain::{DashboardState, Entity, EntityId, EntityKind, EntityView};
use crate::infrastructure::web::viewmodels::{ChargerState, PumpViewModel};
use crate::shared::error::AppError;
use crate::text::{
    concat, contains, contains_text, decimal, decimal_string, first_token, first_token_of, four_digit_string,
    four_digits, lowercase,
    str_eq, to_lowercase, two_digit_string, two_digits,
};

verus! {

/// Per-kind lifetimes of the cached state, in seconds.
#[derive(Clone, Copy, Debug)]
pub struct DashboardCacheConfig {
    pub default_ttl_secs: u64,
    pub light_ttl_secs: Option<u64>,
    pub switch_ttl_secs: Option<u64>,
    pub sensor_ttl_secs: Option<u64>,
    pub climate_ttl_secs: Option<u64>,
}

pub open spec fn or_default(o: Option<u64>, d: u64) -> u64 {
    match o {
        Some(v) => v,
        None => d,
    }
}

/// How long an entity of this kind may be served from the cache; scripts
/// and covers share the climate setting.
pub open spec fn kind_ttl(c: DashboardCacheConfig, k: EntityKind) -> u64 {
    match k {
        EntityKind::Light => or_default(c.light_ttl_secs, c.default_ttl_secs),
        EntityKind::Switch => or_default(c.switch_ttl_secs, c.default_ttl_secs),
        EntityKind::Sensor => or_default(c.sensor_ttl_secs, c.default_ttl_secs),
        _ => or_default(c.climate_ttl_secs, c.default_ttl_secs),
    }
}

/// The smallest lifetime among the entities, if there are any.
pub open spec fn min_kind_ttl(c: DashboardCacheConfig, s: Seq<EntityView>) -> Option<u64>
    decreases s.len(),
{
    if s.len() == 0 {
        None
    } else {
        let t = kind_ttl(c, s.last().kind);
        match min_kind_ttl(c, s.drop_last()) {
            None => Some(t),
            Some(m) => Some(if t < m {
                t
            } else {
                m
            }),
        }
    }
}

/// The lifetime of a cached state: the shortest of its entities', or the
/// default for a state without entities.
pub open spec fn state_ttl(c: DashboardCacheConfig, s: Seq<EntityView>) -> u64 {
    or_default(min_kind_ttl(c, s), c.default_ttl_secs)
}

pub open spec fn nanos_per_sec() -> int {
    1_000_000_000
}

/// Time from `earlier` to `now`, zero when `now` is earlier (as
/// `Instant::duration_since` saturates).
pub open spec fn elapsed(earlier: u128, now: u128) -> int {
    if now >= earlier {
        now - earlier
    } else {
        0
    }
}

/// A cached state may be served while no more than its lifetime has passed.
pub open spec fn is_fresh(c: DashboardCacheConfig, s: Seq<EntityView>, fetched_at: u128, now: u128) -> bool {
    elapsed(fetched_at, now) <= state_ttl(c, s) * nanos_per_sec()
}

pub struct CachedDashboardState {
    pub state: DashboardState,
    pub fetched_at: u128,
}

/// The cache as a state and the time it was fetched.
pub open spec fn cache_model(c: Option<CachedDashboardState>) -> Option<(Seq<EntityView>, u128)> {
    match c {
        Some(x) => Some((x.state@, x.fetched_at)),
        None => None,
    }
}

/// What a read of the cache at `now` serves.
pub open spec fn cache_read(
    m: Option<(Seq<EntityView>, u128)>,
    c: DashboardCacheConfig,
    now: u128,
) -> Option<Seq<EntityView>> {
    match m {
        Some((s, t)) => if is_fresh(c, s, t, now) {
            Some(s)
        } else {
            None
        },
        None => None,
    }
}

pub open spec fn opt_state_view(o: Option<DashboardState>) -> Option<Seq<EntityView>> {
    match o {
        Some(s) => Some(s@),
        None => None,
    }
}

/// A reading taken at a wall-clock time.
#[derive(Clone, Copy, Debug)]
pub struct Sample<T> {
    pub timestamp: u128,
    pub value: T,
}

/// The temperatures of the buffer tank and the solar circuit.
#[derive(Clone, Copy, Debug)]
pub struct BufferTemps<R> {
    pub buffer_top: R,
    pub buffer_bottom: R,
    pub solar_flow: R,
    pub solar_return: R,
}

#[derive(Clone, Copy, Debug)]
pub struct PumpSample {
    pub timestamp: u128,
    pub pump_on: bool,
    pub is_correct: bool,
}

#[derive(Clone, Copy, Debug)]
pub struct GoeEnergyTracker<R> {
    pub last_value: Option<R>,
    pub last_change: Option<u128>,
}

/// What was read from a freshly fetched state: the solar reading (when
/// the solar entity has one that is a number), the buffer temperatures,
/// and the energy counter with whether it moved (when it was read).
#[derive(Clone, Copy, Debug)]
pub struct FetchReadings<R> {
    pub solar_watts: Option<R>,
    pub buffer_temps: BufferTemps<R>,
    pub energy: Option<(R, bool)>,
}

/// The most pump samples kept.
pub const PUMP_HISTORY_LEN: usize = 60;

/// State and decisions of the dashboard. `R` is the type of a numeric
/// reading (what a sensor's text parses to).
pub struct DashboardService<R> {
    pub cache_config: DashboardCacheConfig,
    pub config: AppConfig,
    pub state_cache: Option<CachedDashboardState>,
    pub solar_history: VecDeque<Sample<R>>,
    pub buffer_temp_history: VecDeque<Sample<BufferTemps<R>>>,
    pub pump_history: VecDeque<PumpSample>,
    pub goe_energy_tracker: GoeEnergyTracker<R>,
    /// The wall-clock time of the last fetch from Home Assistant.
    pub last_fetched_at: Option<u128>,
}

impl<R: Copy> DashboardService<R> {
    /// What every operation keeps: the pump history holds at most
    /// `PUMP_HISTORY_LEN` samples.
    pub open spec fn wf(self) -> bool {
        self.pump_history@.len() <= PUMP_HISTORY_LEN
    }

    pub fn new(cache_config: DashboardCacheConfig, config: AppConfig) -> (r: Self)
        ensures
            r.wf(),
            r.cache_config == cache_config,
            r.config == config,
            r.state_cache is None,
            r.solar_history@.len() == 0,
            r.buffer_temp_history@.len() == 0,
            r.pump_history@.len() == 0,
            r.goe_energy_tracker.last_value is None,
            r.goe_energy_tracker.last_change is None,
            r.last_fetched_at is None,
    {
        DashboardService {
            cache_config,
            config,
            state_cache: None,
            solar_history: VecDeque::new(),
            buffer_temp_history: VecDeque::new(),
            pump_history: VecDeque::new(),
            goe_energy_tracker: GoeEnergyTracker { last_value: None, last_change: None },
            last_fetched_at: None,
        }
    }

    pub fn config(&self) -> (r: &AppConfig)
        ensures
            *r == self.config,
    {
        &self.config
    }

    pub fn ttl_secs_for_kind(&self, kind: &EntityKind) -> (r: u64)
        ensures
            r == kind_ttl(self.cache_config, *kind),
    {
        let c = &self.cache_config;
        let o = match kind {
            EntityKind::Light => c.light_ttl_secs,
            EntityKind::Switch => c.switch_ttl_secs,
            EntityKind::Sensor => c.sensor_ttl_secs,
            _ => c.climate_ttl_secs,
        };
        match o {
            Some(v) => v,
            None => c.default_ttl_secs,
        }
    }

    /// The lifetime of a state, in seconds.
    pub fn ttl_for_state(&self, state: &DashboardState) -> (r: u64)
        ensures
            r == state_ttl(self.cache_config, state@),
    {
        let mut m: Option<u64> = None;
        let mut i: usize = 0;
        while i < state.entities.len()
            invariant
                i <= state@.len(),
                state@.len() == state.entities@.len(),
                m == min_kind_ttl(self.cache_config, state@.subrange(0, i as int)),
            decreases state@.len() - i,
        {
            let t = self.ttl_secs_for_kind(&state.entities[i].kind);
            m = match m {
                None => Some(t),
                Some(v) => Some(if t < v { t } else { v }),
            };
            i = i + 1;
            proof {
                let sub = state@.subrange(0, i as int);
                assert(sub.drop_last() =~= state@.subrange(0, i - 1));
                assert(sub.last() == state@[i - 1]);
            }
        }
        assert(state@.subrange(0, state@.len() as int) =~= state@);
        match m {
            Some(v) => v,
            None => self.cache_config.default_ttl_secs,
        }
    }

    /// The cached state, while it is fresh at `now`.
    pub fn cached_state(&self, now: u128) -> (r: Option<DashboardState>)
        ensures
            opt_state_view(r) == cache_read(cache_model(self.state_cache), self.cache_config, now),
    {
        match &self.state_cache {
            Some(cached) => {
                let ttl = self.ttl_for_state(&cached.state);
                let age: u128 = if now >= cached.fetched_at {
                    now - cached.fetched_at
                } else {
                    0
                };
                let limit: u128 = (ttl as u128) * 1_000_000_000u128;
                if age <= limit {
                    Some(cached.state.clone())
                } else {
                    None
                }
            },
            None => None,
        }
    }

    /// Keeps a freshly fetched state as the cache, fetched at `now`
    /// (monotonic) and at `wall_now` (wall clock).
    pub fn store_state(&mut self, fresh: &DashboardState, now: u128, wall_now: u128)
        requires
            old(self).wf(),
        ensures
            final(self).wf(),
            cache_model(final(self).state_cache) == Some((fresh@, now)),
            final(self).last_fetched_at == Some(wall_now),
            final(self).cache_config == old(self).cache_config,
            final(self).config == old(self).config,
            final(self).solar_history == old(self).solar_history,
            final(self).buffer_temp_history == old(self).buffer_temp_history,
            final(self).pump_history == old(self).pump_history,
            final(self).goe_energy_tracker == old(self).goe_energy_tracker,
    {
        self.state_cache = Some(CachedDashboardState { state: fresh.clone(), fetched_at: now });
        self.last_fetched_at = Some(wall_now);
    }

    pub fn invalidate_cache(&mut self)
        requires
            old(self).wf(),
        ensures
            final(self).wf(),
            final(self).state_cache is None,
            final(self).cache_config == old(self).cache_config,
            final(self).last_fetched_at == old(self).last_fetched_at,
            final(self).config == old(self).config,
            final(self).solar_history == old(self).solar_history,
            final(self).buffer_temp_history == old(self).buffer_temp_history,
            final(self).pump_history == old(self).pump_history,
            final(self).goe_energy_tracker == old(self).goe_energy_tracker,
    {
        self.state_cache = None;
    }

    /// Drops the cache when a refresh is forced.
    pub fn get_dashboard_with_refresh(&mut self, force_refresh: bool)
        requires
            old(self).wf(),
        ensures
            final(self).wf(),
            force_refresh ==> final(self).state_cache is None,
            !force_refresh ==> final(self).state_cache == old(self).state_cache,
            final(self).cache_config == old(self).cache_config,
            final(self).last_fetched_at == old(self).last_fetched_at,
            final(self).config == old(self).config,
            final(self).solar_history == old(self).solar_history,
            final(self).buffer_temp_history == old(self).buffer_temp_history,
            final(self).pump_history == old(self).pump_history,
            final(self).goe_energy_tracker == old(self).goe_energy_tracker,
    {
        if force_refresh {
            self.invalidate_cache();
        }
    }

    /// The text shown as the time of the last fetch from Home Assistant:
    /// `never` before any fetch, otherwise `local`, the local date and time
    /// of `last_fetched_at`, as `%d.%m.%Y %H:%M:%S`.
    pub fn last_fetched_label(&self, local: &DateTimeParts) -> (r: String)
        ensures
            self.last_fetched_at is None ==> r@ == "never"@,
            self.last_fetched_at is Some ==> r@ == datetime_label(*local),
    {
        if self.last_fetched_at.is_some() {
            datetime_text(local)
        } else {
            "never".to_owned()
        }
    }

    pub fn last_fetched_at(&self) -> (r: Option<u128>)
        ensures
            r == self.last_fetched_at,
    {
        self.last_fetched_at
    }
}

/// A local date and time, as a calendar gives it.
#[derive(Clone, Copy, Debug)]
pub struct DateTimeParts {
    pub year: i32,
    pub month: u32,
    pub day: u32,
    pub hour: u32,
    pub minute: u32,
    pub second: u32,
}

/// A year as `%Y` prints it: four digits at least, with a sign outside
/// the years 0 to 9999.
pub open spec fn year_text(y: i32) -> Seq<char> {
    if y < 0 {
        "-"@ + four_digits((-y) as nat)
    } else if y > 9999 {
        "+"@ + four_digits(y as nat)
    } else {
        four_digits(y as nat)
    }
}

/// `%d.%m.%Y %H:%M:%S`.
pub open spec fn datetime_label(p: DateTimeParts) -> Seq<char> {
    two_digits(p.day as nat) + "."@ + two_digits(p.month as nat) + "."@ + year_text(p.year) + " "@
        + two_digits(p.hour as nat) + ":"@ + two_digits(p.minute as nat) + ":"@ + two_digits(
        p.second as nat,
    )
}

fn year_string(y: i32) -> (r: String)
    ensures
        r@ == year_text(y),
{
    if y < 0 {
        let a: i64 = -(y as i64);
        let d = four_digit_string(a as u128);
        concat("-", d.as_str())
    } else if y > 9999 {
        let d = four_digit_string(y as u128);
        concat("+", d.as_str())
    } else {
        four_digit_string(y as u128)
    }
}

pub fn datetime_text(p: &DateTimeParts) -> (r: String)
    ensures
        r@ == datetime_label(*p),
{
    let day = two_digit_string(p.day as u128);
    let a = concat(day.as_str(), ".");
    let month = two_digit_string(p.month as u128);
    let b = concat(a.as_str(), month.as_str());
    let c = concat(b.as_str(), ".");
    let year = year_string(p.year);
    let d = concat(c.as_str(), year.as_str());
    let e = concat(d.as_str(), " ");
    let hour = two_digit_string(p.hour as u128);
    let f = concat(e.as_str(), hour.as_str());
    let g = concat(f.as_str(), ":");
    let minute = two_digit_string(p.minute as u128);
    let h = concat(g.as_str(), minute.as_str());
    let i = concat(h.as_str(), ":");
    let second = two_digit_string(p.second as u128);
    concat(i.as_str(), second.as_str())
}

/// An entity is on the filtered dashboard when the user chose it or it
/// is one of the system entities.
pub open spec fn shown_on_dashboard(visible: Seq<Seq<char>>, system: Seq<Seq<char>>) -> spec_fn(
    EntityView,
) -> bool {
    |e: EntityView| visible.contains(e.id) || system.contains(e.id)
}

/// The dashboard: everything when the user chose nothing, otherwise the
/// chosen and the system entities, in their order.
pub open spec fn dashboard_entities(
    all: Seq<EntityView>,
    visible: Seq<Seq<char>>,
    system: Seq<Seq<char>>,
) -> Seq<EntityView> {
    if visible.len() == 0 {
        all
    } else {
        all.filter(shown_on_dashboard(visible, system))
    }
}

pub open spec fn ids_view(ids: Seq<EntityId>) -> Seq<Seq<char>> {
    ids.map_values(|i: EntityId| i@)
}

pub open spec fn strings_view(v: Seq<String>) -> Seq<Seq<char>> {
    v.map_values(|s: String| s@)
}

/// Whether `id` is among the ids.
pub fn id_listed(ids: &Vec<EntityId>, id: &str) -> (r: bool)
    ensures
        r == ids_view(ids@).contains(id@),
{
    let mut i: usize = 0;
    while i < ids.len()
        invariant
            i <= ids@.len(),
            forall|k: int| 0 <= k < i ==> ids@[k]@ != id@,
        decreases ids@.len() - i,
    {
        if str_eq(ids[i].as_str(), id) {
            assert(ids_view(ids@)[i as int] == id@);
            return true;
        }
        i = i + 1;
    }
    assert(!ids_view(ids@).contains(id@)) by {
        if ids_view(ids@).contains(id@) {
            let k = choose|k: int| 0 <= k < ids_view(ids@).len() && ids_view(ids@)[k] == id@;
            assert(ids@[k]@ == id@);
        }
    }
    false
}

/// Whether `id` is among the strings.
pub fn text_listed(v: &Vec<String>, id: &str) -> (r: bool)
    ensures
        r == strings_view(v@).contains(id@),
{
    let mut i: usize = 0;
    while i < v.len()
        invariant
            i <= v@.len(),
            forall|k: int| 0 <= k < i ==> v@[k]@ != id@,
        decreases v@.len() - i,
    {
        if str_eq(v[i].as_str(), id) {
            assert(strings_view(v@)[i as int] == id@);
            return true;
        }
        i = i + 1;
    }
    assert(!strings_view(v@).contains(id@)) by {
        if strings_view(v@).contains(id@) {
            let k = choose|k: int| 0 <= k < strings_view(v@).len() && strings_view(v@)[k] == id@;
            assert(v@[k]@ == id@);
        }
    }
    false
}

impl<R: Copy> DashboardService<R> {
    /// The dashboard made from all entities and the user's chosen ids.
    pub fn get_dashboard(&self, all: &DashboardState, visible_ids: &Vec<EntityId>) -> (r:
        DashboardState)
        ensures
            r@ == dashboard_entities(all@, ids_view(visible_ids@), self.config.system_ids()),
    {
        if visible_ids.len() == 0 {
            return all.clone();
        }
        let system = self.config.system_entity_ids();
        let ghost pred = shown_on_dashboard(ids_view(visible_ids@), self.config.system_ids());
        let mut out: Vec<Entity> = Vec::new();
        let mut i: usize = 0;
        while i < all.entities.len()
            invariant
                i <= all@.len(),
                all@.len() == all.entities@.len(),
                strings_view(system@) == self.config.system_ids(),
                pred == shown_on_dashboard(ids_view(visible_ids@), self.config.system_ids()),
                out@.map_values(|e: Entity| e@) == all@.subrange(0, i as int).filter(pred),
            decreases all@.len() - i,
        {
            let e = &all.entities[i];
            let keep = id_listed(visible_ids, e.id.as_str()) || text_listed(&system, e.id.as_str());
            let ghost before = out@.map_values(|e: Entity| e@);
            if keep {
                out.push(e.clone());
            }
            proof {
                let sub = all@.subrange(0, i + 1);
                assert(sub.drop_last() =~= all@.subrange(0, i as int));
                assert(sub.last() == all@[i as int]);
                reveal(Seq::filter);
                assert(pred(all@[i as int]) == keep);
                if keep {
                    assert(out@.map_values(|e: Entity| e@) =~= before.push(all@[i as int]));
                } else {
                    assert(out@.map_values(|e: Entity| e@) =~= before);
                }
            }
            i = i + 1;
        }
        assert(all@.subrange(0, all@.len() as int) =~= all@);
        DashboardState { entities: out }
    }
}

/// The first word of the value of the entity with this id.
pub open spec fn value_token(s: Seq<EntityView>, id: Seq<char>) -> Option<Seq<char>> {
    match find_entity(s, id) {
        Some(e) => match e.value {
            Some(v) => first_token(v),
            None => None,
        },
        None => None,
    }
}

/// The text recorded as a solar sample: the first word of the solar
/// entity's value, `0` when the value has no word.
pub open spec fn solar_sample_token(s: Seq<EntityView>, id: Seq<char>) -> Option<Seq<char>> {
    match find_entity(s, id) {
        Some(e) => match e.value {
            Some(v) => match first_token(v) {
                Some(t) => Some(t),
                None => Some("0"@),
            },
            None => None,
        },
        None => None,
    }
}

/// Decimal commas read as points.
pub open spec fn commas_to_points(t: Seq<char>) -> Seq<char> {
    t.map_values(|c: char| if c == ',' { '.' } else { c })
}

/// The energy counter's text: its first word with commas as points.
pub open spec fn energy_token(s: Seq<EntityView>, id: Seq<char>) -> Option<Seq<char>> {
    match value_token(s, id) {
        Some(t) => Some(commas_to_points(t)),
        None => None,
    }
}

pub open spec fn opt_string_view(o: Option<String>) -> Option<Seq<char>> {
    crate::domain::entities::opt_text(o)
}

/// The first word of the value of the entity with this id.
pub fn entity_value_token(state: &DashboardState, id: &str) -> (r: Option<String>)
    ensures
        opt_string_view(r) == value_token(state@, id@),
{
    match state.find(id) {
        Some(e) => match &e.value {
            Some(v) => first_token_of(v.as_str()),
            None => None,
        },
        None => None,
    }
}

fn replace_commas(t: &str) -> (r: String)
    ensures
        r@ == commas_to_points(t@),
{
    let v = crate::text::chars_of(t);
    let mut out: Vec<char> = Vec::new();
    let mut i: usize = 0;
    while i < v.len()
        invariant
            i <= v@.len(),
            out@ == commas_to_points(v@.subrange(0, i as int)),
        decreases v@.len() - i,
    {
        let c = v[i];
        out.push(if c == ',' { '.' } else { c });
        i = i + 1;
        assert(out@ =~= commas_to_points(v@.subrange(0, i as int)));
    }
    assert(v@.subrange(0, v@.len() as int) =~= v@);
    crate::text::string_from_chars(&out)
}

/// Index of the first sample at or after `i` that has not expired.
pub open spec fn first_unexpired_from<T>(s: Seq<Sample<T>>, now: u128, max_age: int, i: int) -> int
    decreases s.len() - i,
{
    if i < 0 || i >= s.len() {
        s.len() as int
    } else if elapsed(s[i].timestamp, now) > max_age {
        first_unexpired_from(s, now, max_age, i + 1)
    } else {
        i
    }
}

/// A history after a new sample: the sample appended, then the expired
/// samples at its front dropped (older than `max_age`).
pub open spec fn pushed_and_trimmed<T>(s: Seq<Sample<T>>, x: Sample<T>, now: u128, max_age: int) -> Seq<
    Sample<T>,
> {
    let t = s.push(x);
    t.subrange(first_unexpired_from(t, now, max_age, 0), t.len() as int)
}

/// Time from `earlier` to `now`, zero when `now` is earlier.
pub fn age_of(earlier: u128, now: u128) -> (r: u128)
    ensures
        r == elapsed(earlier, now),
{
    if now >= earlier {
        now - earlier
    } else {
        0
    }
}

/// Appends a sample and drops the expired ones at the front.
fn push_and_trim<T: Copy>(h: &mut VecDeque<Sample<T>>, x: Sample<T>, now: u128, max_age: u128)
    ensures
        final(h)@ == pushed_and_trimmed(old(h)@, x, now, max_age as int),
{
    let ghost t = old(h)@.push(x);
    h.push_back(x);
    assert(h@.subrange(0, t.len() as int) =~= t);
    let ghost mut k: int = 0;
    while h.len() > 0 && age_of(h[0].timestamp, now) > max_age
        invariant
            0 <= k <= t.len(),
            h@ == t.subrange(k, t.len() as int),
            first_unexpired_from(t, now, max_age as int, k) == first_unexpired_from(
                t,
                now,
                max_age as int,
                0,
            ),
        decreases h@.len(),
    {
        assert(h@[0] == t[k]);
        h.pop_front();
        proof {
            k = k + 1;
        }
        assert(h@ =~= t.subrange(k, t.len() as int));
    }
    if h.len() > 0 {
        assert(h@[0] == t[k]);
    }
}

/// How long the histories behind the charts reach back, in nanoseconds.
pub open spec fn history_max_age(c: AppConfig) -> int {
    c.solar_history_minutes * 60 * nanos_per_sec()
}

/// The last `PUMP_HISTORY_LEN` pump samples after a new one.
pub open spec fn pump_pushed(s: Seq<PumpSample>, x: PumpSample) -> Seq<PumpSample> {
    let t = s.push(x);
    if t.len() > PUMP_HISTORY_LEN {
        t.subrange(t.len() - PUMP_HISTORY_LEN, t.len() as int)
    } else {
        t
    }
}

/// Whether the charger's energy counter has not moved for the configured
/// time (false before any movement was seen).
pub open spec fn energy_stable(last_change: Option<u128>, now: u128, stable_secs: u64) -> bool {
    match last_change {
        Some(t) => elapsed(t, now) >= stable_secs * nanos_per_sec(),
        None => false,
    }
}

pub open spec fn entity_value(s: Seq<EntityView>, id: Seq<char>) -> Option<Seq<char>> {
    match find_entity(s, id) {
        Some(e) => e.value,
        None => None,
    }
}

pub open spec fn value_or(o: Option<Seq<char>>, d: Seq<char>) -> Seq<char> {
    match o {
        Some(v) => v,
        None => d,
    }
}

pub open spec fn says_true(o: Option<Seq<char>>) -> bool {
    o matches Some(v) && (v == "true"@ || v == "True"@)
}

pub open spec fn says_charging(o: Option<Seq<char>>) -> bool {
    o matches Some(v) && (v == "true"@ || v == "True"@ || v == "on"@)
}

pub open spec fn status_absent(lower: Seq<char>) -> bool {
    contains_text(lower, "nicht verbunden"@) || contains_text(lower, "disconnected"@)
        || contains_text(lower, "deactivated"@)
}

pub open spec fn status_finished(lower: Seq<char>) -> bool {
    contains_text(lower, "fertig"@) || contains_text(lower, "abgeschlossen"@) || contains_text(
        lower,
        "voll"@,
    ) || contains_text(lower, "finished"@)
}

/// The car's state label: a status saying the car is away gives "not
/// connected"; otherwise a finished status with a stable energy counter
/// gives "full", and a connected car "connected"; anything else is "not
/// connected".
pub open spec fn car_label(status: Seq<char>, connected: bool, stable: bool) -> Seq<char> {
    let lower = lowercase(status);
    if status_absent(lower) {
        "Nicht angeschlossen"@
    } else if status_finished(lower) && stable {
        "Auto voll"@
    } else if connected {
        "Angeschlossen"@
    } else {
        "Nicht angeschlossen"@
    }
}

pub open spec fn car_class(label: Seq<char>) -> Seq<char> {
    if label == "Auto voll"@ {
        "is-full"@
    } else if label == "Angeschlossen"@ {
        "is-charging"@
    } else {
        "is-empty"@
    }
}

/// The charger tile computed from the state.
pub open spec fn charger_state_of(
    s: Seq<EntityView>,
    c: AppConfig,
    stable: bool,
    r: ChargerState,
) -> bool {
    let status = value_or(entity_value(s, c.goe_status_entity_id@), "Unknown"@);
    let connected = says_true(entity_value(s, c.goe_car_connected_entity_id@));
    let label = car_label(status, connected, stable);
    &&& r.charger_value@ == value_or(entity_value(s, c.charger_current_entity_id@), "0.0 A"@)
    &&& r.status@ == status
    &&& r.paused == contains_text(status, "Ladestop"@)
    &&& r.car_connected == connected
    &&& r.car_charging == says_charging(entity_value(s, c.goe_charging_entity_id@))
    &&& r.car_state_label@ == label
    &&& r.car_state_class@ == car_class(label)
}

/// Whether the pump matches the temperatures: running when the return is
/// warmer than the buffer bottom, idle otherwise.
pub open spec fn pump_correct(pump_on: bool, return_above_bottom: bool, return_at_most_bottom: bool) -> bool {
    if pump_on {
        return_above_bottom
    } else {
        return_at_most_bottom
    }
}

pub open spec fn pump_css(pump_on: bool, correct: bool) -> Seq<char> {
    if correct {
        if pump_on {
            "pump-on"@
        } else {
            "pump-off"@
        }
    } else {
        "pump-wrong"@
    }
}

pub open spec fn pump_on_in(s: Seq<EntityView>, id: Seq<char>) -> bool {
    match find_entity(s, id) {
        Some(e) => e.is_on,
        None => false,
    }
}

fn value_of(state: &DashboardState, id: &str) -> (r: Option<String>)
    ensures
        opt_string_view(r) == entity_value(state@, id@),
{
    match state.find(id) {
        Some(e) => crate::domain::entities::clone_opt_string(&e.value),
        None => None,
    }
}

fn is_one_of(v: &Option<String>, a: &str, b: &str) -> (r: bool)
    ensures
        r == (opt_string_view(*v) matches Some(x) && (x == a@ || x == b@)),
{
    match v {
        Some(x) => str_eq(x.as_str(), a) || str_eq(x.as_str(), b),
        None => false,
    }
}

impl<R: Copy> DashboardService<R> {
    /// The first word of the solar entity's value (what the dashboard
    /// parses as watts; none when the entity or its value is missing).
    pub fn parse_solar_watts(&self, state: &DashboardState) -> (r: Option<String>)
        ensures
            opt_string_view(r) == value_token(state@, self.config.solar_entity_id@),
    {
        entity_value_token(state, self.config.solar_entity_id.as_str())
    }

    /// The text of a new solar sample, when the solar entity has a value.
    pub fn solar_sample_text(&self, state: &DashboardState) -> (r: Option<String>)
        ensures
            opt_string_view(r) == solar_sample_token(state@, self.config.solar_entity_id@),
    {
        match state.find(self.config.solar_entity_id.as_str()) {
            Some(e) => match &e.value {
                Some(v) => match first_token_of(v.as_str()) {
                    Some(t) => Some(t),
                    None => Some("0".to_owned()),
                },
                None => None,
            },
            None => None,
        }
    }

    /// Appends a solar reading and drops the expired ones at the front.
    pub fn record_solar_sample(&mut self, wall_now: u128, watts: R)
        requires
            old(self).wf(),
        ensures
            final(self).wf(),
            final(self).solar_history@ == pushed_and_trimmed(
                old(self).solar_history@,
                Sample { timestamp: wall_now, value: watts },
                wall_now,
                history_max_age(old(self).config),
            ),
            final(self).cache_config == old(self).cache_config,
            final(self).last_fetched_at == old(self).last_fetched_at,
            final(self).config == old(self).config,
            final(self).state_cache == old(self).state_cache,
            final(self).buffer_temp_history == old(self).buffer_temp_history,
            final(self).pump_history == old(self).pump_history,
            final(self).goe_energy_tracker == old(self).goe_energy_tracker,
    {
        let max_age = (self.config.solar_history_minutes as u128) * 60 * 1_000_000_000;
        push_and_trim(
            &mut self.solar_history,
            Sample { timestamp: wall_now, value: watts },
            wall_now,
            max_age,
        );
    }

    /// The first words of the buffer top, buffer bottom, flow and return
    /// sensors' values.
    pub fn buffer_temp_texts(&self, state: &DashboardState) -> (r: BufferTemps<Option<String>>)
        ensures
            opt_string_view(r.buffer_top) == value_token(
                state@,
                self.config.solar_buffer_top_entity_id@,
            ),
            opt_string_view(r.buffer_bottom) == value_token(
                state@,
                self.config.solar_buffer_bottom_entity_id@,
            ),
            opt_string_view(r.solar_flow) == value_token(state@, self.config.solar_flow_entity_id@),
            opt_string_view(r.solar_return) == value_token(
                state@,
                self.config.solar_return_entity_id@,
            ),
    {
        BufferTemps {
            buffer_top: entity_value_token(state, self.config.solar_buffer_top_entity_id.as_str()),
            buffer_bottom: entity_value_token(
                state,
                self.config.solar_buffer_bottom_entity_id.as_str(),
            ),
            solar_flow: entity_value_token(state, self.config.solar_flow_entity_id.as_str()),
            solar_return: entity_value_token(state, self.config.solar_return_entity_id.as_str()),
        }
    }

    /// Appends buffer temperatures and drops the expired ones at the front.
    pub fn record_buffer_temps(&mut self, wall_now: u128, temps: BufferTemps<R>)
        requires
            old(self).wf(),
        ensures
            final(self).wf(),
            final(self).buffer_temp_history@ == pushed_and_trimmed(
                old(self).buffer_temp_history@,
                Sample { timestamp: wall_now, value: temps },
                wall_now,
                history_max_age(old(self).config),
            ),
            final(self).cache_config == old(self).cache_config,
            final(self).last_fetched_at == old(self).last_fetched_at,
            final(self).config == old(self).config,
            final(self).state_cache == old(self).state_cache,
            final(self).solar_history == old(self).solar_history,
            final(self).pump_history == old(self).pump_history,
            final(self).goe_energy_tracker == old(self).goe_energy_tracker,
    {
        let max_age = (self.config.solar_history_minutes as u128) * 60 * 1_000_000_000;
        push_and_trim(
            &mut self.buffer_temp_history,
            Sample { timestamp: wall_now, value: temps },
            wall_now,
            max_age,
        );
    }

    /// The charger's energy counter as text: its first word, commas read
    /// as points.
    pub fn goe_energy_text(&self, state: &DashboardState) -> (r: Option<String>)
        ensures
            opt_string_view(r) == energy_token(state@, self.config.goe_energy_entity_id@),
    {
        match entity_value_token(state, self.config.goe_energy_entity_id.as_str()) {
            Some(t) => Some(replace_commas(t.as_str())),
            None => None,
        }
    }

    pub fn goe_last_value(&self) -> (r: Option<R>)
        ensures
            r == self.goe_energy_tracker.last_value,
    {
        self.goe_energy_tracker.last_value
    }

    /// Records an energy reading; the counter counts as moved at `now` when
    /// the change is significant or no movement was seen before.
    pub fn record_goe_energy(&mut self, now: u128, kwh: R, significant: bool)
        requires
            old(self).wf(),
        ensures
            final(self).wf(),
            final(self).goe_energy_tracker.last_value == Some(kwh),
            final(self).goe_energy_tracker.last_change == if significant
                || old(self).goe_energy_tracker.last_change is None {
                Some(now)
            } else {
                old(self).goe_energy_tracker.last_change
            },
            final(self).cache_config == old(self).cache_config,
            final(self).last_fetched_at == old(self).last_fetched_at,
            final(self).config == old(self).config,
            final(self).state_cache == old(self).state_cache,
            final(self).solar_history == old(self).solar_history,
            final(self).buffer_temp_history == old(self).buffer_temp_history,
            final(self).pump_history == old(self).pump_history,
    {
        if significant || self.goe_energy_tracker.last_change.is_none() {
            self.goe_energy_tracker.last_change = Some(now);
        }
        self.goe_energy_tracker.last_value = Some(kwh);
    }

    pub fn is_goe_energy_stable(&self, now: u128) -> (r: bool)
        ensures
            r == energy_stable(
                self.goe_energy_tracker.last_change,
                now,
                self.config.goe_energy_stable_secs,
            ),
    {
        match self.goe_energy_tracker.last_change {
            None => false,
            Some(t) => {
                let age: u128 = if now >= t {
                    now - t
                } else {
                    0
                };
                age >= (self.config.goe_energy_stable_secs as u128) * 1_000_000_000
            },
        }
    }

    /// Settles a fetch from Home Assistant taken at `now` (monotonic) and
    /// `wall_now` (wall clock). A failed fetch changes nothing and its error
    /// is returned. A fetched state is recorded as the readings taken from
    /// it say (a solar sample when there is one, the buffer temperatures,
    /// the energy counter when it was read), then cached and returned.
    pub fn complete_fetch(
        &mut self,
        outcome: Result<(DashboardState, FetchReadings<R>), AppError>,
        now: u128,
        wall_now: u128,
    ) -> (r: Result<DashboardState, AppError>)
        requires
            old(self).wf(),
        ensures
            final(self).wf(),
            match outcome {
                Err(e) => r matches Err(x) && x@ == e@ && *final(self) == *old(self),
                Ok((fresh, rd)) => {
                    &&& r matches Ok(st) && st@ == fresh@
                    &&& cache_model(final(self).state_cache) == Some((fresh@, now))
                    &&& final(self).last_fetched_at == Some(wall_now)
                    &&& final(self).solar_history@ == match rd.solar_watts {
                        Some(w) => pushed_and_trimmed(
                            old(self).solar_history@,
                            Sample { timestamp: wall_now, value: w },
                            wall_now,
                            history_max_age(old(self).config),
                        ),
                        None => old(self).solar_history@,
                    }
                    &&& final(self).buffer_temp_history@ == pushed_and_trimmed(
                        old(self).buffer_temp_history@,
                        Sample { timestamp: wall_now, value: rd.buffer_temps },
                        wall_now,
                        history_max_age(old(self).config),
                    )
                    &&& final(self).goe_energy_tracker == match rd.energy {
                        Some((kwh, significant)) => GoeEnergyTracker {
                            last_value: Some(kwh),
                            last_change: if significant
                                || old(self).goe_energy_tracker.last_change is None {
                                Some(now)
                            } else {
                                old(self).goe_energy_tracker.last_change
                            },
                        },
                        None => old(self).goe_energy_tracker,
                    }
                    &&& final(self).pump_history == old(self).pump_history
                    &&& final(self).cache_config == old(self).cache_config
                    &&& final(self).config == old(self).config
                },
            },
    {
        match outcome {
            Err(e) => Err(e),
            Ok((fresh, rd)) => {
                match rd.solar_watts {
                    Some(w) => self.record_solar_sample(wall_now, w),
                    None => {},
                }
                self.record_buffer_temps(wall_now, rd.buffer_temps);
                match rd.energy {
                    Some((kwh, significant)) => self.record_goe_energy(now, kwh, significant),
                    None => {},
                }
                self.store_state(&fresh, now, wall_now);
                Ok(fresh)
            },
        }
    }

    /// The charger tile: current, status, pause, car connection and state.
    pub fn compute_car_state(&self, state: &DashboardState, now: u128) -> (r: ChargerState)
        ensures
            charger_state_of(
                state@,
                self.config,
                energy_stable(
                    self.goe_energy_tracker.last_change,
                    now,
                    self.config.goe_energy_stable_secs,
                ),
                r,
            ),
    {
        let cfg = &self.config;
        let charger_value = match value_of(state, cfg.charger_current_entity_id.as_str()) {
            Some(v) => v,
            None => "0.0 A".to_owned(),
        };
        let goe_status = match value_of(state, cfg.goe_status_entity_id.as_str()) {
            Some(v) => v,
            None => "Unknown".to_owned(),
        };
        let paused = contains(goe_status.as_str(), "Ladestop");
        let car_value = value_of(state, cfg.goe_car_connected_entity_id.as_str());
        let car_connected = is_one_of(&car_value, "true", "True");
        let charging_value = value_of(state, cfg.goe_charging_entity_id.as_str());
        let car_charging = is_one_of(&charging_value, "true", "True") || match &charging_value {
            Some(x) => str_eq(x.as_str(), "on"),
            None => false,
        };
        let lower = to_lowercase(goe_status.as_str());
        let absent = contains(lower.as_str(), "nicht verbunden") || contains(
            lower.as_str(),
            "disconnected",
        ) || contains(lower.as_str(), "deactivated");
        let finished = contains(lower.as_str(), "fertig") || contains(lower.as_str(), "abgeschlossen")
            || contains(lower.as_str(), "voll") || contains(lower.as_str(), "finished");
        let stable = self.is_goe_energy_stable(now);
        let present = car_connected || !absent;
        let label: &str = if !present || absent || (finished && stable) {
            if absent || (!present && !finished) {
                "Nicht angeschlossen"
            } else {
                "Auto voll"
            }
        } else if car_connected {
            "Angeschlossen"
        } else {
            "Nicht angeschlossen"
        };
        let class = if str_eq(label, "Auto voll") {
            "is-full"
        } else if str_eq(label, "Angeschlossen") {
            "is-charging"
        } else {
            "is-empty"
        };
        ChargerState {
            charger_value,
            status: goe_status,
            paused,
            car_connected,
            car_charging,
            car_state_label: label.to_owned(),
            car_state_class: class.to_owned(),
        }
    }

    /// The first words of the buffer bottom's and of the return's values,
    /// which the pump decision compares.
    pub fn pump_temperature_texts(&self, state: &DashboardState) -> (r: (Option<String>, Option<String>))
        ensures
            opt_string_view(r.0) == value_token(state@, self.config.solar_buffer_bottom_entity_id@),
            opt_string_view(r.1) == value_token(state@, self.config.solar_return_entity_id@),
    {
        (
            entity_value_token(state, self.config.solar_buffer_bottom_entity_id.as_str()),
            entity_value_token(state, self.config.solar_return_entity_id.as_str()),
        )
    }

    /// The pump tile, recorded in the pump history. The two flags are the
    /// comparisons of the return temperature with the buffer bottom.
    pub fn compute_pump_status(
        &mut self,
        state: &DashboardState,
        wall_now: u128,
        return_above_bottom: bool,
        return_at_most_bottom: bool,
    ) -> (r: PumpViewModel)
        requires
            old(self).wf(),
        ensures
            final(self).wf(),
            r.pump_on == pump_on_in(state@, old(self).config.solar_pump_entity_id@),
            r.is_correct == pump_correct(r.pump_on, return_above_bottom, return_at_most_bottom),
            r.status_label@ == if r.pump_on {
                "ON"@
            } else {
                "OFF"@
            },
            r.css_class@ == pump_css(r.pump_on, r.is_correct),
            final(self).pump_history@ == pump_pushed(
                old(self).pump_history@,
                PumpSample { timestamp: wall_now, pump_on: r.pump_on, is_correct: r.is_correct },
            ),
            final(self).cache_config == old(self).cache_config,
            final(self).last_fetched_at == old(self).last_fetched_at,
            final(self).config == old(self).config,
            final(self).state_cache == old(self).state_cache,
            final(self).solar_history == old(self).solar_history,
            final(self).buffer_temp_history == old(self).buffer_temp_history,
            final(self).goe_energy_tracker == old(self).goe_energy_tracker,
    {
        let pump_on = match state.find(self.config.solar_pump_entity_id.as_str()) {
            Some(e) => e.is_on,
            None => false,
        };
        let is_correct = if pump_on {
            return_above_bottom
        } else {
            return_at_most_bottom
        };
        let sample = PumpSample { timestamp: wall_now, pump_on, is_correct };
        let ghost old_h = self.pump_history@;
        self.pump_history.push_back(sample);
        if self.pump_history.len() > PUMP_HISTORY_LEN {
            self.pump_history.pop_front();
            assert(self.pump_history@ =~= old_h.push(sample).subrange(
                old_h.push(sample).len() - PUMP_HISTORY_LEN,
                old_h.push(sample).len() as int,
            ));
        }
        PumpViewModel {
            pump_on,
            is_correct,
            status_label: if pump_on {
                "ON".to_owned()
            } else {
                "OFF".to_owned()
            },
            css_class: if is_correct {
                if pump_on {
                    "pump-on".to_owned()
                } else {
                    "pump-off".to_owned()
                }
            } else {
                "pump-wrong".to_owned()
            },
        }
    }

    /// When the pump ran, sample by sample.
    pub fn compute_pump_status_history(&self) -> (r: Vec<(u128, bool)>)
        ensures
            r@.len() == self.pump_history@.len(),
            forall|i: int|
                0 <= i < r@.len() ==> #[trigger] r@[i] == (
                    self.pump_history@[i].timestamp,
                    self.pump_history@[i].pump_on,
                ),
    {
        let mut out: Vec<(u128, bool)> = Vec::new();
        let mut i: usize = 0;
        while i < self.pump_history.len()
            invariant
                i <= self.pump_history@.len(),
                out@.len() == i,
                forall|k: int|
                    0 <= k < i ==> #[trigger] out@[k] == (
                        self.pump_history@[k].timestamp,
                        self.pump_history@[k].pump_on,
                    ),
            decreases self.pump_history@.len() - i,
        {
            let s = self.pump_history[i];
            out.push((s.timestamp, s.pump_on));
            i = i + 1;
        }
        out
    }

    /// The solar samples, oldest first.
    pub fn solar_history_points(&self) -> (r: Vec<(u128, R)>)
        ensures
            r@.len() == self.solar_history@.len(),
            forall|i: int|
                0 <= i < r@.len() ==> #[trigger] r@[i] == (
                    self.solar_history@[i].timestamp,
                    self.solar_history@[i].value,
                ),
    {
        let mut out: Vec<(u128, R)> = Vec::new();
        let mut i: usize = 0;
        while i < self.solar_history.len()
            invariant
                i <= self.solar_history@.len(),
                out@.len() == i,
                forall|k: int|
                    0 <= k < i ==> #[trigger] out@[k] == (
                        self.solar_history@[k].timestamp,
                        self.solar_history@[k].value,
                    ),
            decreases self.solar_history@.len() - i,
        {
            let s = self.solar_history[i];
            out.push((s.timestamp, s.value));
            i = i + 1;
        }
        out
    }

    /// The buffer temperature samples, oldest first.
    pub fn buffer_temp_points(&self) -> (r: Vec<Sample<BufferTemps<R>>>)
        ensures
            r@ == self.buffer_temp_history@,
    {
        let mut out: Vec<Sample<BufferTemps<R>>> = Vec::new();
        let mut i: usize = 0;
        while i < self.buffer_temp_history.len()
            invariant
                i <= self.buffer_temp_history@.len(),
                out@ == self.buffer_temp_history@.subrange(0, i as int),
            decreases self.buffer_temp_history@.len() - i,
        {
            out.push(self.buffer_temp_history[i]);
            i = i + 1;
            assert(out@ =~= self.buffer_temp_history@.subrange(0, i as int));
        }
        assert(self.buffer_temp_history@.subrange(0, i as int) =~= self.buffer_temp_history@);
        out
    }
}

/// A wall-clock time of day as hour and minute (in the local time zone).
pub type ClockTime = Option<(u32, u32)>;

/// `HH:MM`.
pub open spec fn clock_label(h: u32, m: u32) -> Seq<char> {
    two_digits(h as nat) + ":"@ + two_digits(m as nat)
}

/// Whole minutes from `ts` to `now`.
pub open spec fn age_minutes(ts: u128, now: u128) -> nat {
    ((now - ts) / nanos_per_sec() / 60) as nat
}

/// The label of a solar sample on the chart, or `None` when it is left
/// out: samples from the future, samples older than the window (at least
/// twelve; the window is compared in minutes against its value times 60),
/// and samples at night (21:00 to 06:00) without production. A sample
/// without a local time is labelled by its age.
pub open spec fn solar_chart_entry(
    ts: u128,
    now: u128,
    history_minutes: u64,
    local: ClockTime,
    nonpositive: bool,
) -> Option<Seq<char>> {
    let window: int = if history_minutes >= 12 {
        history_minutes as int
    } else {
        12
    };
    if now < ts {
        None
    } else if age_minutes(ts, now) > window * 60 {
        None
    } else {
        match local {
            Some((h, m)) => if (h >= 21 || h < 6) && nonpositive {
                None
            } else {
                Some(clock_label(h, m))
            },
            None => Some("-"@ + decimal(age_minutes(ts, now)) + "m"@),
        }
    }
}

/// The indices and labels of the first `n` samples that stay on the chart.
pub open spec fn solar_chart_upto(
    stamps: Seq<u128>,
    now: u128,
    history_minutes: u64,
    locals: Seq<ClockTime>,
    nonpositive: Seq<bool>,
    n: int,
) -> (Seq<int>, Seq<Seq<char>>)
    decreases n,
{
    if n <= 0 {
        (Seq::empty(), Seq::empty())
    } else {
        let prev = solar_chart_upto(stamps, now, history_minutes, locals, nonpositive, n - 1);
        match solar_chart_entry(stamps[n - 1], now, history_minutes, locals[n - 1], nonpositive[n - 1]) {
            Some(l) => (prev.0.push(n - 1), prev.1.push(l)),
            None => prev,
        }
    }
}

/// Whether a buffer sample stays on its chart (not from the future, at
/// most an hour old), and its label when it has a local time.
pub open spec fn buffer_chart_entry(ts: u128, now: u128, local: ClockTime) -> (bool, Option<Seq<char>>) {
    if now < ts || age_minutes(ts, now) > 60 {
        (false, None)
    } else {
        match local {
            Some((h, m)) => (true, Some(clock_label(h, m))),
            None => (true, None),
        }
    }
}

pub open spec fn buffer_chart_upto(stamps: Seq<u128>, now: u128, locals: Seq<ClockTime>, n: int) -> (
    Seq<int>,
    Seq<Seq<char>>,
)
    decreases n,
{
    if n <= 0 {
        (Seq::empty(), Seq::empty())
    } else {
        let prev = buffer_chart_upto(stamps, now, locals, n - 1);
        let e = buffer_chart_entry(stamps[n - 1], now, locals[n - 1]);
        let idx = if e.0 {
            prev.0.push(n - 1)
        } else {
            prev.0
        };
        let labels = match e.1 {
            Some(l) => prev.1.push(l),
            None => prev.1,
        };
        (idx, labels)
    }
}

pub open spec fn sample_stamps<T>(s: Seq<Sample<T>>) -> Seq<u128> {
    s.map_values(|x: Sample<T>| x.timestamp)
}

pub open spec fn usize_seq(v: Seq<usize>) -> Seq<int> {
    v.map_values(|i: usize| i as int)
}

pub fn clock_text(h: u32, m: u32) -> (r: String)
    ensures
        r@ == clock_label(h, m),
{
    let a = two_digit_string(h as u128);
    let b = concat(a.as_str(), ":");
    let c = two_digit_string(m as u128);
    concat(b.as_str(), c.as_str())
}

fn solar_entry(ts: u128, now: u128, history_minutes: u64, local: ClockTime, nonpositive: bool) -> (r:
    Option<String>)
    ensures
        opt_string_view(r) == solar_chart_entry(ts, now, history_minutes, local, nonpositive),
{
    if now < ts {
        return None;
    }
    let mins: u128 = (now - ts) / 1_000_000_000 / 60;
    let window: u128 = if history_minutes >= 12 {
        history_minutes as u128
    } else {
        12
    };
    if mins > window * 60 {
        return None;
    }
    match local {
        Some((h, m)) => if (h >= 21 || h < 6) && nonpositive {
            None
        } else {
            Some(clock_text(h, m))
        },
        None => {
            let d = decimal_string(mins);
            let a = concat("-", d.as_str());
            Some(concat(a.as_str(), "m"))
        },
    }
}

fn buffer_entry(ts: u128, now: u128, local: ClockTime) -> (r: (bool, Option<String>))
    ensures
        r.0 == buffer_chart_entry(ts, now, local).0,
        opt_string_view(r.1) == buffer_chart_entry(ts, now, local).1,
{
    if now < ts {
        return (false, None);
    }
    let mins: u128 = (now - ts) / 1_000_000_000 / 60;
    if mins > 60 {
        return (false, None);
    }
    match local {
        Some((h, m)) => (true, Some(clock_text(h, m))),
        None => (true, None),
    }
}

/// What the solar chart shows: indices of the samples kept, and their
/// labels.
pub struct ChartSelection {
    pub indices: Vec<usize>,
    pub labels: Vec<String>,
}

impl<R: Copy> DashboardService<R> {
    /// The solar chart at `wall_now`. `locals[i]` is sample `i`'s local
    /// time of day and `nonpositive[i]` whether its reading is at most zero.
    pub fn compute_solar_chart(
        &self,
        wall_now: u128,
        locals: &Vec<ClockTime>,
        nonpositive: &Vec<bool>,
    ) -> (r: ChartSelection)
        requires
            locals@.len() == self.solar_history@.len(),
            nonpositive@.len() == self.solar_history@.len(),
        ensures
            (usize_seq(r.indices@), strings_view(r.labels@)) == solar_chart_upto(
                sample_stamps(self.solar_history@),
                wall_now,
                self.config.solar_history_minutes,
                locals@,
                nonpositive@,
                self.solar_history@.len() as int,
            ),
    {
        let ghost stamps = sample_stamps(self.solar_history@);
        let mut indices: Vec<usize> = Vec::new();
        let mut labels: Vec<String> = Vec::new();
        let mut i: usize = 0;
        while i < self.solar_history.len()
            invariant
                i <= self.solar_history@.len(),
                locals@.len() == self.solar_history@.len(),
                nonpositive@.len() == self.solar_history@.len(),
                stamps == sample_stamps(self.solar_history@),
                (usize_seq(indices@), strings_view(labels@)) == solar_chart_upto(
                    stamps,
                    wall_now,
                    self.config.solar_history_minutes,
                    locals@,
                    nonpositive@,
                    i as int,
                ),
            decreases self.solar_history@.len() - i,
        {
            let e = solar_entry(
                self.solar_history[i].timestamp,
                wall_now,
                self.config.solar_history_minutes,
                locals[i],
                nonpositive[i],
            );
            let ghost pi = usize_seq(indices@);
            let ghost pl = strings_view(labels@);
            match e {
                Some(l) => {
                    indices.push(i);
                    labels.push(l);
                    assert(usize_seq(indices@) =~= pi.push(i as int));
                    assert(strings_view(labels@) =~= pl.push(l@));
                },
                None => {},
            }
            i = i + 1;
        }
        ChartSelection { indices, labels }
    }

    /// The buffer temperature chart at `wall_now`: indices of the samples
    /// kept, and the labels of those with a local time.
    pub fn compute_buffer_temp_chart(&self, wall_now: u128, locals: &Vec<ClockTime>) -> (r:
        ChartSelection)
        requires
            locals@.len() == self.buffer_temp_history@.len(),
        ensures
            (usize_seq(r.indices@), strings_view(r.labels@)) == buffer_chart_upto(
                sample_stamps(self.buffer_temp_history@),
                wall_now,
                locals@,
                self.buffer_temp_history@.len() as int,
            ),
    {
        let ghost stamps = sample_stamps(self.buffer_temp_history@);
        let mut indices: Vec<usize> = Vec::new();
        let mut labels: Vec<String> = Vec::new();
        let mut i: usize = 0;
        while i < self.buffer_temp_history.len()
            invariant
                i <= self.buffer_temp_history@.len(),
                locals@.len() == self.buffer_temp_history@.len(),
                stamps == sample_stamps(self.buffer_temp_history@),
                (usize_seq(indices@), strings_view(labels@)) == buffer_chart_upto(
                    stamps,
                    wall_now,
                    locals@,
                    i as int,
                ),
            decreases self.buffer_temp_history@.len() - i,
        {
            let e = buffer_entry(self.buffer_temp_history[i].timestamp, wall_now, locals[i]);
            let ghost pi = usize_seq(indices@);
            let ghost pl = strings_view(labels@);
            if e.0 {
                indices.push(i);
                assert(usize_seq(indices@) =~= pi.push(i as int));
            }
            match e.1 {
                Some(l) => {
                    labels.push(l);
                    assert(strings_view(labels@) =~= pl.push(l@));
                },
                None => {},
            }
            i = i + 1;
        }
        ChartSelection { indices, labels }
    }
}

/// Which dashboard page each entity is on, by entity id.
#[derive(Debug)]
pub struct EntityPages {
    pub entries: Vec<(String, usize)>,
}

impl View for EntityPages {
    type V = Seq<(Seq<char>, usize)>;

    open spec fn view(&self) -> Seq<(Seq<char>, usize)> {
        self.entries@.map_values(|p: (String, usize)| (p.0@, p.1))
    }
}

/// No key occurs twice (as in a map).
pub open spec fn keys_distinct(m: Seq<(Seq<char>, usize)>) -> bool {
    forall|i: int, j: int| 0 <= i < j < m.len() ==> m[i].0 != m[j].0
}

/// The index of the first pair at or after `i` whose key is `k`.
pub open spec fn key_index_from(m: Seq<(Seq<char>, usize)>, k: Seq<char>, i: int) -> Option<int>
    decreases m.len() - i,
{
    if i < 0 || i >= m.len() {
        None
    } else if m[i].0 == k {
        Some(i)
    } else {
        key_index_from(m, k, i + 1)
    }
}

pub proof fn lemma_key_index_from(m: Seq<(Seq<char>, usize)>, k: Seq<char>, i: int)
    requires
        0 <= i,
    ensures
        match key_index_from(m, k, i) {
            Some(j) => i <= j < m.len() && m[j].0 == k,
            None => forall|l: int| i <= l < m.len() ==> #[trigger] m[l].0 != k,
        },
    decreases m.len() - i,
{
    if i < m.len() && m[i].0 != k {
        lemma_key_index_from(m, k, i + 1);
    }
}

/// What inserting into a map gives: an existing key gets the new value in
/// its place, a new key is added at the end.
pub open spec fn map_insert(m: Seq<(Seq<char>, usize)>, k: Seq<char>, v: usize) -> Seq<(Seq<char>, usize)> {
    match key_index_from(m, k, 0) {
        Some(i) => m.update(i, (k, v)),
        None => m.push((k, v)),
    }
}

/// Inserting keeps the keys distinct, and the key is then present.
pub proof fn lemma_map_insert_distinct(m: Seq<(Seq<char>, usize)>, k: Seq<char>, v: usize)
    requires
        keys_distinct(m),
    ensures
        keys_distinct(map_insert(m, k, v)),
        map_insert(m, k, v).contains((k, v)),
{
    lemma_key_index_from(m, k, 0);
    let r = map_insert(m, k, v);
    match key_index_from(m, k, 0) {
        Some(i) => {
            assert(r[i] == (k, v));
        },
        None => {
            assert(r[m.len() as int] == (k, v));
        },
    }
}

/// Keeping some of the pairs keeps the keys distinct.
pub proof fn lemma_filter_keys_distinct(m: Seq<(Seq<char>, usize)>, p: spec_fn((Seq<char>, usize)) -> bool)
    requires
        keys_distinct(m),
    ensures
        keys_distinct(m.filter(p)),
    decreases m.len(),
{
    reveal(Seq::filter);
    if m.len() > 0 {
        let d = m.drop_last();
        assert(keys_distinct(d)) by {
            assert forall|i: int, j: int| 0 <= i < j < d.len() implies d[i].0 != d[j].0 by {
                assert(d[i] == m[i] && d[j] == m[j]);
            }
        }
        lemma_filter_keys_distinct(d, p);
        let f = d.filter(p);
        if p(m.last()) {
            let g = f.push(m.last());
            assert forall|i: int, j: int| 0 <= i < j < g.len() implies g[i].0 != g[j].0 by {
                if j == f.len() {
                    assert(f.contains(f[i]));
                    d.lemma_filter_contains_rev(p, f[i]);
                    let l = choose|l: int| 0 <= l < d.len() && d[l] == f[i];
                    assert(m[l] == d[l]);
                    assert(m[m.len() - 1] == m.last());
                } else {
                    assert(g[i] == f[i] && g[j] == f[j]);
                }
            }
            assert(m.filter(p) == g);
        }
    }
}

/// The page of an entity: the first entry with its id.
pub open spec fn page_of(pages: Seq<(Seq<char>, usize)>, id: Seq<char>) -> Option<usize>
    decreases pages.len(),
{
    if pages.len() == 0 {
        None
    } else if pages[0].0 == id {
        Some(pages[0].1)
    } else {
        page_of(pages.drop_first(), id)
    }
}

impl EntityPages {
    /// Each entity id has at most one page.
    pub open spec fn wf(self) -> bool {
        keys_distinct(self@)
    }

    pub fn new() -> (r: Self)
        ensures
            r@.len() == 0,
            r.wf(),
    {
        EntityPages { entries: Vec::new() }
    }

    pub fn get(&self, id: &str) -> (r: Option<usize>)
        ensures
            r == page_of(self@, id@),
    {
        let mut i: usize = 0;
        assert(self@.subrange(0, self@.len() as int) =~= self@);
        while i < self.entries.len()
            invariant
                i <= self@.len(),
                self@.len() == self.entries@.len(),
                page_of(self@, id@) == page_of(self@.subrange(i as int, self@.len() as int), id@),
            decreases self@.len() - i,
        {
            let ghost rest = self@.subrange(i as int, self@.len() as int);
            assert(rest[0] == self@[i as int]);
            if str_eq(self.entries[i].0.as_str(), id) {
                return Some(self.entries[i].1);
            }
            assert(rest.drop_first() =~= self@.subrange(i + 1, self@.len() as int));
            i = i + 1;
        }
        None
    }

    pub fn len(&self) -> (r: usize)
        ensures
            r == self@.len(),
    {
        self.entries.len()
    }
}

// Laws of the cache.

/// Read after write: a state stored at `t` is served at `now` exactly while
/// no more than its lifetime has passed since `t`, and always at `t`.
pub proof fn lemma_cache_read_after_store(c: DashboardCacheConfig, s: Seq<EntityView>, t: u128, now: u128)
    ensures
        cache_read(Some((s, t)), c, now) == if elapsed(t, now) <= state_ttl(c, s) * nanos_per_sec() {
            Some(s)
        } else {
            None
        },
        cache_read(Some((s, t)), c, t) == Some(s),
{
}

/// After the cache is dropped (a toggle, a script run, a forced refresh),
/// nothing is served until the next store.
pub proof fn lemma_no_read_after_invalidate(c: DashboardCacheConfig, now: u128)
    ensures
        cache_read(None, c, now) is None,
{
}

/// The lifetime of a state is the lowest of its entities' lifetimes (the
/// default when it has none).
pub proof fn lemma_state_ttl_is_lowest(c: DashboardCacheConfig, s: Seq<EntityView>)
    ensures
        forall|i: int| 0 <= i < s.len() ==> state_ttl(c, s) <= kind_ttl(c, #[trigger] s[i].kind),
        s.len() > 0 ==> exists|i: int| 0 <= i < s.len() && state_ttl(c, s) == kind_ttl(c, #[trigger] s[i].kind),
        s.len() == 0 ==> state_ttl(c, s) == c.default_ttl_secs,
    decreases s.len(),
{
    if s.len() > 0 {
        let d = s.drop_last();
        lemma_state_ttl_is_lowest(c, d);
        assert forall|i: int| 0 <= i < s.len() implies state_ttl(c, s) <= kind_ttl(c, #[trigger] s[i].kind) by {
            if i < s.len() - 1 {
                assert(d[i] == s[i]);
            }
        }
        if d.len() > 0 {
            let j = choose|j: int| 0 <= j < d.len() && state_ttl(c, d) == kind_ttl(c, #[trigger] d[j].kind);
            assert(d[j] == s[j]);
            if state_ttl(c, s) == kind_ttl(c, s.last().kind) {
                assert(state_ttl(c, s) == kind_ttl(c, s[s.len() - 1].kind));
            } else {
                assert(state_ttl(c, s) == kind_ttl(c, s[j].kind));
            }
        } else {
            assert(state_ttl(c, s) == kind_ttl(c, s[s.len() - 1].kind));
        }
    }
}

/// A cached state that is served at `now` is served at every earlier time
/// since it was fetched.
pub proof fn lemma_fresh_until_expiry(c: DashboardCacheConfig, s: Seq<EntityView>, t: u128, earlier: u128, now: u128)
    requires
        t <= earlier <= now,
        cache_read(Some((s, t)), c, now) is Some,
    ensures
        cache_read(Some((s, t)), c, earlier) == Some(s),
{
}

// Laws of the dashboard filter.

/// With no chosen ids every entity is shown; otherwise an entity is shown
/// exactly when it is chosen or a system entity, and order is kept.
pub proof fn lemma_dashboard_shows_chosen_and_system(
    all: Seq<EntityView>,
    visible: Seq<Seq<char>>,
    system: Seq<Seq<char>>,
)
    ensures
        visible.len() == 0 ==> dashboard_entities(all, visible, system) == all,
        visible.len() > 0 ==> forall|i: int|
            0 <= i < dashboard_entities(all, visible, system).len() ==> (visible.contains(
                #[trigger] dashboard_entities(all, visible, system)[i].id,
            ) || system.contains(dashboard_entities(all, visible, system)[i].id)),
        forall|i: int|
            0 <= i < all.len() && (visible.contains(#[trigger] all[i].id) || system.contains(all[i].id))
                ==> dashboard_entities(all, visible, system).contains(all[i]),
        dashboard_entities(all, visible, system).len() <= all.len(),
{
    broadcast use vstd::seq_lib::group_filter_ensures;

    if visible.len() > 0 {
        let p = shown_on_dashboard(visible, system);
        assert forall|i: int| 0 <= i < all.filter(p).len() implies (visible.contains(
            #[trigger] all.filter(p)[i].id,
        ) || system.contains(all.filter(p)[i].id)) by {
            assert(p(all.filter(p)[i]));
        }
        assert forall|i: int|
            0 <= i < all.len() && (visible.contains(#[trigger] all[i].id) || system.contains(all[i].id))
                implies all.filter(p).contains(all[i]) by {
            assert(p(all[i]));
        }
    } else {
        assert forall|i: int|
            0 <= i < all.len() && (visible.contains(#[trigger] all[i].id) || system.contains(all[i].id))
                implies all.contains(all[i]) by {
        }
    }
}

// Laws of the histories.

/// A recorded sample is the newest one kept, the oldest one kept has not
/// expired, and what is kept is a suffix of the history with the sample.
pub proof fn lemma_history_after_record<T>(s: Seq<Sample<T>>, x: Sample<T>, now: u128, max_age: int)
    requires
        x.timestamp == now,
        max_age >= 0,
    ensures
        pushed_and_trimmed(s, x, now, max_age).len() >= 1,
        pushed_and_trimmed(s, x, now, max_age).last() == x,
        elapsed(pushed_and_trimmed(s, x, now, max_age)[0].timestamp, now) <= max_age,
        exists|k: int| 0 <= k <= s.len() && pushed_and_trimmed(s, x, now, max_age) == #[trigger] s.push(x).subrange(k, s.len() + 1int),
{
    let t = s.push(x);
    lemma_first_unexpired_bounds(t, now, max_age, 0);
    let k = first_unexpired_from(t, now, max_age, 0);
    assert(pushed_and_trimmed(s, x, now, max_age) == t.subrange(k, t.len() as int));
}

proof fn lemma_first_unexpired_bounds<T>(t: Seq<Sample<T>>, now: u128, max_age: int, i: int)
    requires
        0 <= i < t.len(),
        t.last().timestamp == now,
        max_age >= 0,
    ensures
        i <= first_unexpired_from(t, now, max_age, i) < t.len(),
        elapsed(t[first_unexpired_from(t, now, max_age, i)].timestamp, now) <= max_age,
    decreases t.len() - i,
{
    if elapsed(t[i].timestamp, now) > max_age {
        assert(i != t.len() - 1);
        lemma_first_unexpired_bounds(t, now, max_age, i + 1);
    }
}

/// The pump history never holds more than `PUMP_HISTORY_LEN` samples, and
/// its newest sample is the one just recorded.
pub proof fn lemma_pump_history_bounded(s: Seq<PumpSample>, x: PumpSample)
    requires
        s.len() <= PUMP_HISTORY_LEN,
    ensures
        pump_pushed(s, x).len() <= PUMP_HISTORY_LEN,
        pump_pushed(s, x).last() == x,
        s.len() < PUMP_HISTORY_LEN ==> pump_pushed(s, x) == s.push(x),
{
}

// Laws of the charger.

/// Before the energy counter was ever seen to move, it is not stable.
pub proof fn lemma_energy_unstable_before_movement(now: u128, stable_secs: u64)
    ensures
        !energy_stable(None, now, stable_secs),
{
}

/// A charger status that says the car is away is always shown as not
/// connected; the full state needs a finished status and a stable counter.
pub proof fn lemma_car_label_cases(status: Seq<char>, connected: bool, stable: bool)
    ensures
        status_absent(lowercase(status)) ==> car_label(status, connected, stable) == "Nicht angeschlossen"@,
        car_label(status, connected, stable) == "Auto voll"@ ==> status_finished(lowercase(status))
            && stable && !status_absent(lowercase(status)),
        car_label(status, connected, stable) == "Angeschlossen"@ ==> connected,
{
    reveal_strlit("Auto voll");
    reveal_strlit("Nicht angeschlossen");
    reveal_strlit("Angeschlossen");
    assert("Auto voll"@.len() != "Nicht angeschlossen"@.len());
    assert("Angeschlossen"@.len() != "Nicht angeschlossen"@.len());
    assert("Angeschlossen"@.len() != "Auto voll"@.len());
}

// Laws stated over the inputs.

/// The cache lifetime of each kind is its own setting when that is set and
/// the default otherwise: lights, switches and sensors have their own;
/// climate entities, scripts and covers use the climate setting.
pub proof fn lemma_kind_ttl_settings(c: DashboardCacheConfig)
    ensures
        kind_ttl(c, EntityKind::Light) == (match c.light_ttl_secs {
            Some(t) => t,
            None => c.default_ttl_secs,
        }),
        kind_ttl(c, EntityKind::Switch) == (match c.switch_ttl_secs {
            Some(t) => t,
            None => c.default_ttl_secs,
        }),
        kind_ttl(c, EntityKind::Sensor) == (match c.sensor_ttl_secs {
            Some(t) => t,
            None => c.default_ttl_secs,
        }),
        kind_ttl(c, EntityKind::Climate) == (match c.climate_ttl_secs {
            Some(t) => t,
            None => c.default_ttl_secs,
        }),
        kind_ttl(c, EntityKind::Script) == kind_ttl(c, EntityKind::Climate),
        kind_ttl(c, EntityKind::Cover) == kind_ttl(c, EntityKind::Climate),
{
}

/// The pump is reported correct when it runs with the return warmer than
/// the buffer bottom, or stands still with the return at most as warm; in
/// every other case the tile shows `pump-wrong`.
pub proof fn lemma_pump_correctness(pump_on: bool, return_above_bottom: bool, return_at_most_bottom: bool)
    ensures
        pump_on ==> (pump_correct(pump_on, return_above_bottom, return_at_most_bottom)
            <==> return_above_bottom),
        !pump_on ==> (pump_correct(pump_on, return_above_bottom, return_at_most_bottom)
            <==> return_at_most_bottom),
        !pump_correct(pump_on, return_above_bottom, return_at_most_bottom) ==> pump_css(
            pump_on,
            pump_correct(pump_on, return_above_bottom, return_at_most_bottom),
        ) == "pump-wrong"@,
        pump_correct(pump_on, return_above_bottom, return_at_most_bottom) ==> pump_css(
            pump_on,
            true,
        ) == (if pump_on {
            "pump-on"@
        } else {
            "pump-off"@
        }),
{
}

/// A night sample (before 06:00 or from 21:00 local time) without
/// production is never on the solar chart; a day sample within the window
/// is, labelled with its local time.
pub proof fn lemma_solar_chart_night(
    ts: u128,
    now: u128,
    history_minutes: u64,
    h: u32,
    m: u32,
    nonpositive: bool,
)
    ensures
        (h < 6 || h >= 21) && nonpositive ==> solar_chart_entry(
            ts,
            now,
            history_minutes,
            Some((h, m)),
            nonpositive,
        ) is None,
        6 <= h < 21 && ts <= now && (now - ts) / 1_000_000_000int / 60 <= 12 * 60
            ==> solar_chart_entry(ts, now, history_minutes, Some((h, m)), nonpositive) == Some(
            clock_label(h, m),
        ),
        !nonpositive && ts <= now && (now - ts) / 1_000_000_000int / 60 <= 12 * 60
            ==> solar_chart_entry(ts, now, history_minutes, Some((h, m)), nonpositive) is Some,
        now < ts ==> solar_chart_entry(ts, now, history_minutes, Some((h, m)), nonpositive) is None,
{
}

/// No sample the solar chart keeps is a night sample without production,
/// and the kept indices are samples of the history, in order.
pub proof fn lemma_solar_chart_keeps_no_night_idle(
    stamps: Seq<u128>,
    now: u128,
    history_minutes: u64,
    locals: Seq<ClockTime>,
    nonpositive: Seq<bool>,
    n: int,
)
    requires
        0 <= n <= stamps.len(),
        locals.len() == stamps.len(),
        nonpositive.len() == stamps.len(),
    ensures
        ({
            let r = solar_chart_upto(stamps, now, history_minutes, locals, nonpositive, n);
            &&& r.0.len() == r.1.len()
            &&& forall|j: int|
                0 <= j < r.0.len() ==> {
                    let i = #[trigger] r.0[j];
                    &&& 0 <= i < n
                    &&& stamps[i] <= now
                    &&& !(nonpositive[i] && (locals[i] matches Some((h, _)) && (h < 6 || h >= 21)))
                }
            &&& forall|j: int, k: int| 0 <= j < k < r.0.len() ==> r.0[j] < r.0[k]
        }),
    decreases n,
{
    if n > 0 {
        lemma_solar_chart_keeps_no_night_idle(
            stamps,
            now,
            history_minutes,
            locals,
            nonpositive,
            n - 1,
        );
        let prev = solar_chart_upto(stamps, now, history_minutes, locals, nonpositive, n - 1);
        let r = solar_chart_upto(stamps, now, history_minutes, locals, nonpositive, n);
        match locals[n - 1] {
            Some((h, m)) => lemma_solar_chart_night(
                stamps[n - 1],
                now,
                history_minutes,
                h,
                m,
                nonpositive[n - 1],
            ),
            None => {},
        }
        if r.0.len() > prev.0.len() {
            assert forall|j: int| 0 <= j < r.0.len() implies {
                let i = #[trigger] r.0[j];
                &&& 0 <= i < n
                &&& stamps[i] <= now
                &&& !(nonpositive[i] && (locals[i] matches Some((h, _)) && (h < 6 || h >= 21)))
            } by {
                if j < prev.0.len() {
                    assert(r.0[j] == prev.0[j]);
                }
            }
            assert forall|j: int, k: int| 0 <= j < k < r.0.len() implies r.0[j] < r.0[k] by {
                if k < prev.0.len() {
                    assert(r.0[j] == prev.0[j] && r.0[k] == prev.0[k]);
                } else {
                    assert(r.0[j] == prev.0[j]);
                }
            }
        }
    }
}

/// The words that mark the charger's status: one saying the car is away
/// always gives "not connected"; one saying charging finished, with the
/// energy counter stable and no word of absence, gives "full".
pub proof fn lemma_car_status_words(status: Seq<char>, connected: bool, stable: bool)
    ensures
        (contains_text(lowercase(status), "nicht verbunden"@) || contains_text(
            lowercase(status),
            "disconnected"@,
        ) || contains_text(lowercase(status), "deactivated"@)) ==> car_label(
            status,
            connected,
            stable,
        ) == "Nicht angeschlossen"@,
        (contains_text(lowercase(status), "finished"@) || contains_text(
            lowercase(status),
            "fertig"@,
        ) || contains_text(lowercase(status), "abgeschlossen"@) || contains_text(
            lowercase(status),
            "voll"@,
        )) && !status_absent(lowercase(status)) && stable ==> car_label(status, connected, stable)
            == "Auto voll"@,
        !status_absent(lowercase(status)) && !status_finished(lowercase(status)) ==> car_label(
            status,
            connected,
            stable,
        ) == (if connected {
            "Angeschlossen"@
        } else {
            "Nicht angeschlossen"@
        }),
        !stable && !status_absent(lowercase(status)) ==> car_label(status, connected, stable) == (
        if connected {
            "Angeschlossen"@
        } else {
            "Nicht angeschlossen"@
        }),
{
}

/// The system entities are always on the filtered dashboard, whatever the
/// user chose: solar, charger current, go-e status, car connected and
/// charging, both garage statuses, buffer bottom and top, flow, return and
/// the solar pump.
pub proof fn lemma_system_entities_always_shown(
    all: Seq<EntityView>,
    visible: Seq<Seq<char>>,
    c: AppConfig,
    i: int,
)
    requires
        0 <= i < all.len(),
        ({
            let id = all[i].id;
            ||| id == c.solar_entity_id@
            ||| id == c.charger_current_entity_id@
            ||| id == c.goe_status_entity_id@
            ||| id == c.goe_car_connected_entity_id@
            ||| id == c.goe_charging_entity_id@
            ||| id == c.garage_left_status_entity_id@
            ||| id == c.garage_right_status_entity_id@
            ||| id == c.solar_buffer_bottom_entity_id@
            ||| id == c.solar_buffer_top_entity_id@
            ||| id == c.solar_flow_entity_id@
            ||| id == c.solar_return_entity_id@
            ||| id == c.solar_pump_entity_id@
        }),
    ensures
        dashboard_entities(all, visible, c.system_ids()).contains(all[i]),
{
    let sys = c.system_ids();
    let id = all[i].id;
    assert(sys[0] == c.solar_entity_id@);
    assert(sys[11] == c.solar_pump_entity_id@);
    if id == c.solar_entity_id@ {
        assert(sys.contains(sys[0]));
    } else if id == c.charger_current_entity_id@ {
        assert(sys.contains(sys[1]));
    } else if id == c.goe_status_entity_id@ {
        assert(sys.contains(sys[2]));
    } else if id == c.goe_car_connected_entity_id@ {
        assert(sys.contains(sys[3]));
    } else if id == c.goe_charging_entity_id@ {
        assert(sys.contains(sys[4]));
    } else if id == c.garage_left_status_entity_id@ {
        assert(sys.contains(sys[5]));
    } else if id == c.garage_right_status_entity_id@ {
        assert(sys.contains(sys[6]));
    } else if id == c.solar_buffer_bottom_entity_id@ {
        assert(sys.contains(sys[7]));
    } else if id == c.solar_buffer_top_entity_id@ {
        assert(sys.contains(sys[8]));
    } else if id == c.solar_flow_entity_id@ {
        assert(sys.contains(sys[9]));
    } else if id == c.solar_return_entity_id@ {
        assert(sys.contains(sys[10]));
    } else {
        assert(sys.contains(sys[11]));
    }
    assert(sys.contains(id));
    lemma_dashboard_shows_chosen_and_system(all, visible, sys);
}

/// The charger tile as the sensors give it: the current and status shown
/// as read (with `0.0 A` and `Unknown` when missing), the car connected
/// when its sensor reads `true` or `True`, charging when that sensor reads
/// `true`, `True` or `on`, paused when the status mentions `Ladestop`, and
/// each label with its own class.
pub proof fn lemma_charger_tile(s: Seq<EntityView>, c: AppConfig, stable: bool, r: ChargerState)
    requires
        charger_state_of(s, c, stable, r),
    ensures
        match entity_value(s, c.charger_current_entity_id@) {
            Some(v) => r.charger_value@ == v,
            None => r.charger_value@ == "0.0 A"@,
        },
        match entity_value(s, c.goe_status_entity_id@) {
            Some(v) => r.status@ == v,
            None => r.status@ == "Unknown"@,
        },
        r.car_connected <==> (entity_value(s, c.goe_car_connected_entity_id@) == Some("true"@)
            || entity_value(s, c.goe_car_connected_entity_id@) == Some("True"@)),
        r.car_charging <==> (entity_value(s, c.goe_charging_entity_id@) == Some("true"@)
            || entity_value(s, c.goe_charging_entity_id@) == Some("True"@) || entity_value(
            s,
            c.goe_charging_entity_id@,
        ) == Some("on"@)),
        r.paused == contains_text(r.status@, "Ladestop"@),
        r.car_state_label@ == "Auto voll"@ ==> r.car_state_class@ == "is-full"@,
        r.car_state_label@ == "Angeschlossen"@ ==> r.car_state_class@ == "is-charging"@,
        r.car_state_label@ == "Nicht angeschlossen"@ ==> r.car_state_class@ == "is-empty"@,
        r.car_state_label@ == car_label(r.status@, r.car_connected, stable),
{
    reveal_strlit("Auto voll");
    reveal_strlit("Nicht angeschlossen");
    reveal_strlit("Angeschlossen");
    assert("Auto voll"@.len() != "Nicht angeschlossen"@.len());
    assert("Angeschlossen"@.len() != "Nicht angeschlossen"@.len());
    assert("Angeschlossen"@.len() != "Auto voll"@.len());
}

/// The solar chart's window: samples older than the configured history
/// read as hours (at least twelve) are left out, whatever their time.
pub proof fn lemma_solar_chart_window(
    ts: u128,
    now: u128,
    history_minutes: u64,
    local: ClockTime,
    nonpositive: bool,
)
    ensures
        ts <= now && (now - ts) / 1_000_000_000int / 60 > (if history_minutes >= 12 {
            history_minutes as int
        } else {
            12
        }) * 60 ==> solar_chart_entry(ts, now, history_minutes, local, nonpositive) is None,
        ts <= now && local is None && (now - ts) / 1_000_000_000int / 60 <= 12 * 60
            ==> solar_chart_entry(ts, now, history_minutes, local, nonpositive) == Some(
            "-"@ + decimal(((now - ts) / 1_000_000_000int / 60) as nat) + "m"@,
        ),
{
}

/// The buffer chart keeps the samples of the last hour (none from the
/// future), labelled with their local time when they have one.
pub proof fn lemma_buffer_chart_entry(ts: u128, now: u128, local: ClockTime)
    ensures
        now < ts ==> !buffer_chart_entry(ts, now, local).0,
        ts <= now && (now - ts) / 1_000_000_000int / 60 > 60 ==> !buffer_chart_entry(ts, now, local).0,
        ts <= now && (now - ts) / 1_000_000_000int / 60 <= 60 ==> buffer_chart_entry(ts, now, local).0,
        !buffer_chart_entry(ts, now, local).0 ==> buffer_chart_entry(ts, now, local).1 is None,
        buffer_chart_entry(ts, now, local).0 ==> buffer_chart_entry(ts, now, local).1 == match local {
            Some((h, m)) => Some(clock_label(h, m)),
            None => None::<Seq<char>>,
        },
{
}

} // verus!
