//! The live-update socket: who may connect, and what a client's command
//! asks of the dashboard.

use vstd::prelude::*;

use crate::application::services::dashboard_service::{
    ids_view, keys_distinct, lemma_filter_keys_distinct, EntityPages,
};
use crate::domain::EntityId;
use crate::text::{
    chars_of, concat, find_char_from, has_prefix, index_of_from, starts_with, str_eq,
    string_from_range,
};

verus! {

/// The value of `key` among the `&`-separated pieces from index `i` on:
/// the first piece starting with `key=` decides, and its value is all of
/// the piece after `key=` (an `=` in the value is kept).
pub open spec fn query_value_from(s: Seq<char>, key: Seq<char>, i: int) -> Option<Seq<char>>
    decreases s.len() - i,
{
    if i < 0 || i > s.len() {
        None
    } else {
        let e = index_of_from(s, '&', i);
        let piece = s.subrange(i, e);
        let kp = key + "="@;
        if has_prefix(piece, kp) {
            Some(piece.subrange(kp.len() as int, piece.len() as int))
        } else if e >= s.len() {
            None
        } else {
            proof {
                crate::text::lemma_index_of_from_bounds(s, '&', i);
            }
            query_value_from(s, key, e + 1)
        }
    }
}

pub open spec fn query_value(q: Option<Seq<char>>, key: Seq<char>) -> Option<Seq<char>> {
    match q {
        Some(s) => query_value_from(s, key, 0),
        None => None,
    }
}

pub open spec fn opt_str(o: Option<&str>) -> Option<Seq<char>> {
    match o {
        Some(s) => Some(s@),
        None => None,
    }
}

/// The value of a query parameter.
pub fn query_param(query: Option<&str>, key: &str) -> (r: Option<String>)
    ensures
        crate::domain::entities::opt_text(r) == query_value(opt_str(query), key@),
{
    let q = match query {
        Some(q) => q,
        None => return None,
    };
    let v = chars_of(q);
    let kp = concat(key, "=");
    let kpv = chars_of(kp.as_str());
    let mut i: usize = 0;
    loop
        invariant
            i <= v@.len(),
            v@ == q@,
            kpv@ == key@ + "="@,
            query_value(opt_str(query), key@) == query_value_from(v@, key@, 0),
            query_value_from(v@, key@, 0) == query_value_from(v@, key@, i as int),
        decreases v@.len() - i,
    {
        let e = find_char_from(&v, '&', i);
        let ghost piece = v@.subrange(i as int, e as int);
        let mut ok = kpv.len() <= e - i;
        let mut k: usize = 0;
        while ok && k < kpv.len()
            invariant
                i <= e <= v@.len(),
                piece == v@.subrange(i as int, e as int),
                k <= kpv@.len(),
                ok ==> kpv@.len() <= piece.len(),
                ok ==> forall|m: int| 0 <= m < k ==> piece[m] == kpv@[m],
                !ok ==> !has_prefix(piece, kpv@),
            decreases kpv@.len() - k + (if ok {
                1int
            } else {
                0int
            }),
        {
            if v[i + k] != kpv[k] {
                assert(piece.subrange(0, kpv@.len() as int)[k as int] == piece[k as int]);
                ok = false;
            } else {
                k = k + 1;
            }
        }
        if ok {
            assert(piece.subrange(0, kpv@.len() as int) =~= kpv@);
            assert(piece.subrange(kpv@.len() as int, piece.len() as int) =~= v@.subrange(
                i + kpv@.len(),
                e as int,
            ));
            assert(has_prefix(piece, key@ + "="@));
            return Some(string_from_range(&v, i + kpv.len(), e));
        }
        assert(!has_prefix(piece, key@ + "="@));
        if e >= v.len() {
            assert(query_value_from(v@, key@, i as int) is None);
            return None;
        }
        assert(query_value_from(v@, key@, i as int) == query_value_from(v@, key@, e + 1));
        i = e + 1;
    }
}

pub open spec fn bearer_of(header: Option<Seq<char>>) -> Option<Seq<char>> {
    match header {
        Some(h) => if has_prefix(h, "Bearer "@) {
            Some(h.subrange(7, h.len() as int))
        } else {
            None
        },
        None => None,
    }
}

/// The token of an `Authorization: Bearer ...` header value.
pub fn bearer_token(header: Option<&str>) -> (r: Option<String>)
    ensures
        crate::domain::entities::opt_text(r) == bearer_of(opt_str(header)),
{
    proof {
        reveal_strlit("Bearer ");
    }
    match header {
        Some(h) => if starts_with(h, "Bearer ") {
            let v = chars_of(h);
            Some(string_from_range(&v, 7, v.len()))
        } else {
            None
        },
        None => None,
    }
}

/// Whether a connection presents the expected token: the bearer token,
/// else the `token` query parameter, else nothing, must equal it.
pub open spec fn ws_auth_ok(header: Option<Seq<char>>, query: Option<Seq<char>>, expected: Seq<char>) -> bool {
    let presented = match bearer_of(header) {
        Some(t) => t,
        None => match query_value(query, "token"@) {
            Some(t) => t,
            None => Seq::empty(),
        },
    };
    presented == expected
}

pub fn check_ws_auth(header: Option<&str>, query: Option<&str>, expected_token: &str) -> (r: bool)
    ensures
        r == ws_auth_ok(opt_str(header), opt_str(query), expected_token@),
{
    let presented = match bearer_token(header) {
        Some(t) => t,
        None => match query_param(query, "token") {
            Some(t) => t,
            None => String::new(),
        },
    };
    str_eq(presented.as_str(), expected_token)
}

/// Whether the socket may be opened: always when no token is configured.
pub fn ws_solar(expected_token: &Option<String>, header: Option<&str>, query: Option<&str>) -> (r:
    bool)
    ensures
        r == match expected_token {
            Some(t) => ws_auth_ok(opt_str(header), opt_str(query), t@),
            None => true,
        },
{
    match expected_token {
        Some(t) => check_ws_auth(header, query, t.as_str()),
        None => true,
    }
}

/// A command a client sends over the socket.
#[derive(Debug)]
pub enum ClientCommand {
    Toggle { entity_id: String },
    RunScript { entity_id: String },
    SaveSettings { visible: Vec<String>, pages: EntityPages },
    ForceRefresh {},
}

/// What the dashboard does for a command before it answers with a fresh
/// payload.
#[derive(Debug)]
pub enum CommandPlan {
    Toggle(EntityId),
    RunScript(EntityId),
    SaveSettings { visible: Vec<EntityId>, pages: EntityPages },
    ForceRefresh,
}

/// Only pages numbered from 1 are saved.
pub open spec fn valid_page_entry() -> spec_fn((Seq<char>, usize)) -> bool {
    |p: (Seq<char>, usize)| p.1 >= 1
}

/// The plan of a command: ids as given, pages below 1 dropped.
pub fn handle_client_command(cmd: ClientCommand) -> (r: CommandPlan)
    ensures
        match cmd {
            ClientCommand::Toggle { entity_id } => r matches CommandPlan::Toggle(id) && id@
                == entity_id@,
            ClientCommand::RunScript { entity_id } => r matches CommandPlan::RunScript(id) && id@
                == entity_id@,
            ClientCommand::SaveSettings { visible, pages } => r matches CommandPlan::SaveSettings {
                visible: ids,
                pages: kept,
            } && ids@.len() == visible@.len() && (forall|i: int|
                0 <= i < ids@.len() ==> #[trigger] ids@[i]@ == visible@[i]@) && kept@
                == pages@.filter(valid_page_entry()) && (pages.wf() ==> kept.wf()),
            ClientCommand::ForceRefresh {} => r is ForceRefresh,
        },
{
    match cmd {
        ClientCommand::Toggle { entity_id } => CommandPlan::Toggle(EntityId(entity_id)),
        ClientCommand::RunScript { entity_id } => CommandPlan::RunScript(EntityId(entity_id)),
        ClientCommand::SaveSettings { visible, pages } => {
            let mut ids: Vec<EntityId> = Vec::new();
            let mut i: usize = 0;
            while i < visible.len()
                invariant
                    i <= visible@.len(),
                    ids@.len() == i,
                    forall|k: int| 0 <= k < i ==> #[trigger] ids@[k]@ == visible@[k]@,
                decreases visible@.len() - i,
            {
                ids.push(EntityId(visible[i].clone()));
                i = i + 1;
            }
            let ghost pred = valid_page_entry();
            let mut kept: Vec<(String, usize)> = Vec::new();
            let mut j: usize = 0;
            while j < pages.entries.len()
                invariant
                    j <= pages@.len(),
                    pages@.len() == pages.entries@.len(),
                    pred == valid_page_entry(),
                    kept@.map_values(|p: (String, usize)| (p.0@, p.1)) == pages@.subrange(
                        0,
                        j as int,
                    ).filter(pred),
                decreases pages@.len() - j,
            {
                let ghost before = kept@.map_values(|p: (String, usize)| (p.0@, p.1));
                let p = pages.entries[j].1;
                if p >= 1 {
                    kept.push((pages.entries[j].0.clone(), p));
                }
                proof {
                    let sub = pages@.subrange(0, j + 1);
                    assert(sub.drop_last() =~= pages@.subrange(0, j as int));
                    assert(sub.last() == pages@[j as int]);
                    reveal(Seq::filter);
                    if p >= 1 {
                        assert(kept@.map_values(|p: (String, usize)| (p.0@, p.1)) =~= before.push(
                            pages@[j as int],
                        ));
                    } else {
                        assert(kept@.map_values(|p: (String, usize)| (p.0@, p.1)) =~= before);
                    }
                }
                j = j + 1;
            }
            assert(pages@.subrange(0, pages@.len() as int) =~= pages@);
            proof {
                if keys_distinct(pages@) {
                    lemma_filter_keys_distinct(pages@, pred);
                }
            }
            CommandPlan::SaveSettings { visible: ids, pages: EntityPages { entries: kept } }
        },
        ClientCommand::ForceRefresh {} => CommandPlan::ForceRefresh,
    }
}

/// The step of a command that failed.
#[derive(Clone, Copy, Debug, PartialEq, Eq, Structural)]
pub enum CommandStage {
    Parse,
    Toggle,
    RunScript,
    SaveVisible,
    SavePages,
    Dashboard,
}

pub open spec fn stage_prefix(s: CommandStage) -> Seq<char> {
    match s {
        CommandStage::Parse => "Invalid command: "@,
        CommandStage::Toggle => "Toggle failed: "@,
        CommandStage::RunScript => "Script failed: "@,
        CommandStage::SaveVisible => "Save visible failed: "@,
        CommandStage::SavePages => "Save pages failed: "@,
        CommandStage::Dashboard => "Failed to get dashboard: "@,
    }
}

/// The `message` of the `{"type": "error"}` reply for a failed step.
pub fn failure_message(stage: CommandStage, err: &str) -> (r: String)
    ensures
        r@ == stage_prefix(stage) + err@,
{
    let prefix = match stage {
        CommandStage::Parse => "Invalid command: ",
        CommandStage::Toggle => "Toggle failed: ",
        CommandStage::RunScript => "Script failed: ",
        CommandStage::SaveVisible => "Save visible failed: ",
        CommandStage::SavePages => "Save pages failed: ",
        CommandStage::Dashboard => "Failed to get dashboard: ",
    };
    concat(prefix, err)
}

/// A call the dashboard makes while it carries out a command.
#[derive(Debug)]
pub enum ServiceStep {
    Toggle(EntityId),
    RunScript(EntityId),
    SaveVisible(Vec<EntityId>),
    SavePages(EntityPages),
    InvalidateCache,
}

pub enum StepView {
    Toggle(Seq<char>),
    RunScript(Seq<char>),
    SaveVisible(Seq<Seq<char>>),
    SavePages(Seq<(Seq<char>, usize)>),
    InvalidateCache,
}

impl View for ServiceStep {
    type V = StepView;

    open spec fn view(&self) -> StepView {
        match self {
            ServiceStep::Toggle(id) => StepView::Toggle(id@),
            ServiceStep::RunScript(id) => StepView::RunScript(id@),
            ServiceStep::SaveVisible(ids) => StepView::SaveVisible(ids_view(ids@)),
            ServiceStep::SavePages(p) => StepView::SavePages(p@),
            ServiceStep::InvalidateCache => StepView::InvalidateCache,
        }
    }
}

pub open spec fn steps_view(v: Seq<ServiceStep>) -> Seq<StepView> {
    v.map_values(|s: ServiceStep| s@)
}

/// The calls of a plan, in order: a toggle or a script run drops the cache
/// after the call; saving settings saves the chosen ids, then the pages; a
/// forced refresh drops the cache.
pub open spec fn plan_steps(p: CommandPlan) -> Seq<StepView> {
    match p {
        CommandPlan::Toggle(id) => seq![StepView::Toggle(id@), StepView::InvalidateCache],
        CommandPlan::RunScript(id) => seq![StepView::RunScript(id@), StepView::InvalidateCache],
        CommandPlan::SaveSettings { visible, pages } => seq![
            StepView::SaveVisible(ids_view(visible@)),
            StepView::SavePages(pages@),
        ],
        CommandPlan::ForceRefresh => seq![StepView::InvalidateCache],
    }
}

/// The stage a failed call is reported under.
pub open spec fn step_stage(s: StepView) -> CommandStage {
    match s {
        StepView::Toggle(_) => CommandStage::Toggle,
        StepView::RunScript(_) => CommandStage::RunScript,
        StepView::SaveVisible(_) => CommandStage::SaveVisible,
        StepView::SavePages(_) => CommandStage::SavePages,
        StepView::InvalidateCache => CommandStage::Dashboard,
    }
}

/// What to do next: make the current call, answer with a fresh payload,
/// or answer with an error message.
#[derive(Debug)]
pub enum CommandAction {
    Perform,
    ReplyPayload,
    ReplyError(String),
}

/// A command being carried out: its calls, and the index of the call in
/// progress (the number of calls when it is over).
#[derive(Debug)]
pub struct CommandRun {
    pub steps: Vec<ServiceStep>,
    pub pos: usize,
}

impl CommandRun {
    pub open spec fn wf(self) -> bool {
        self.pos <= self.steps@.len()
    }

    /// Starts a plan at its first call.
    pub fn begin(plan: CommandPlan) -> (r: (CommandRun, CommandAction))
        ensures
            r.0.wf(),
            steps_view(r.0.steps@) == plan_steps(plan),
            r.0.pos == 0,
            r.1 is Perform,
    {
        let ghost p = plan;
        let steps = match plan {
            CommandPlan::Toggle(id) => vec![ServiceStep::Toggle(id), ServiceStep::InvalidateCache],
            CommandPlan::RunScript(id) => vec![
                ServiceStep::RunScript(id),
                ServiceStep::InvalidateCache,
            ],
            CommandPlan::SaveSettings { visible, pages } => vec![
                ServiceStep::SaveVisible(visible),
                ServiceStep::SavePages(pages),
            ],
            CommandPlan::ForceRefresh => vec![ServiceStep::InvalidateCache],
        };
        assert(steps_view(steps@) =~= plan_steps(p));
        (CommandRun { steps, pos: 0 }, CommandAction::Perform)
    }

    /// Whether a call is in progress.
    pub fn in_progress(&self) -> (r: bool)
        ensures
            r == (self.pos < self.steps@.len()),
    {
        self.pos < self.steps.len()
    }

    /// The call in progress.
    pub fn current(&self) -> (r: &ServiceStep)
        requires
            self.pos < self.steps@.len(),
        ensures
            *r == self.steps@[self.pos as int],
    {
        &self.steps[self.pos]
    }

    /// Takes the outcome of the call in progress: a failure ends the
    /// command with its stage's message and no further call; a success
    /// moves to the next call, or to the fresh payload after the last.
    pub fn resume(&mut self, outcome: Result<(), String>) -> (r: CommandAction)
        requires
            old(self).pos < old(self).steps@.len(),
        ensures
            final(self).wf(),
            final(self).steps == old(self).steps,
            outcome is Err ==> final(self).pos == old(self).steps@.len(),
            outcome is Ok ==> final(self).pos == old(self).pos + 1,
            match outcome {
                Err(e) => r matches CommandAction::ReplyError(m) && m@ == stage_prefix(
                    step_stage(old(self).steps@[old(self).pos as int]@),
                ) + e@,
                Ok(_) => if old(self).pos + 1 < old(self).steps@.len() {
                    r is Perform
                } else {
                    r is ReplyPayload
                },
            },
    {
        match outcome {
            Err(e) => {
                let stage = match &self.steps[self.pos] {
                    ServiceStep::Toggle(_) => CommandStage::Toggle,
                    ServiceStep::RunScript(_) => CommandStage::RunScript,
                    ServiceStep::SaveVisible(_) => CommandStage::SaveVisible,
                    ServiceStep::SavePages(_) => CommandStage::SavePages,
                    ServiceStep::InvalidateCache => CommandStage::Dashboard,
                };
                self.pos = self.steps.len();
                CommandAction::ReplyError(failure_message(stage, e.as_str()))
            },
            Ok(_) => {
                let n = self.steps.len();
                assert(self.pos < n);
                self.pos = self.pos + 1;
                if self.pos < self.steps.len() {
                    CommandAction::Perform
                } else {
                    CommandAction::ReplyPayload
                }
            },
        }
    }
}

} // verus!

verus! {

/// A toggle, a script run and a forced refresh end by dropping the cache,
/// so the answer that follows is fetched afresh; saving settings saves the
/// chosen ids before the pages.
pub proof fn lemma_plan_steps(p: CommandPlan)
    ensures
        plan_steps(p).len() >= 1,
        !(p is SaveSettings) ==> plan_steps(p).last() == StepView::InvalidateCache,
        p is ForceRefresh ==> plan_steps(p) == seq![StepView::InvalidateCache],
        p is SaveSettings ==> plan_steps(p).len() == 2 && plan_steps(p)[0] is SaveVisible
            && plan_steps(p)[1] is SavePages,
{
}

/// Saved pages are numbered from 1, and every such page of the command is
/// saved, in order.
pub proof fn lemma_saved_pages_valid(pages: Seq<(Seq<char>, usize)>)
    ensures
        forall|i: int| 0 <= i < pages.filter(valid_page_entry()).len() ==> #[trigger] pages.filter(
            valid_page_entry(),
        )[i].1 >= 1,
        forall|i: int| 0 <= i < pages.len() && #[trigger] pages[i].1 >= 1 ==> pages.filter(
            valid_page_entry(),
        ).contains(pages[i]),
{
    broadcast use vstd::seq_lib::group_filter_ensures;

    let p = valid_page_entry();
    assert forall|i: int| 0 <= i < pages.filter(p).len() implies #[trigger] pages.filter(p)[i].1 >= 1 by {
        assert(p(pages.filter(p)[i]));
    }
    assert forall|i: int| 0 <= i < pages.len() && #[trigger] pages[i].1 >= 1 implies pages.filter(
        p,
    ).contains(pages[i]) by {
        assert(p(pages[i]));
    }
}

} // verus!
