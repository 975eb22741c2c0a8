//! Engines and the registry that says which engine serves which model.

pub mod lmstudio;
pub mod ollama;
pub mod routes;
pub mod vllm;

use crate::shared::errors::TroopError;
use crate::shared::models::EngineInfo;
use crate::text::same_text;
use crate::worker::engines::routes::{has_name, texts, RouteTable};
use vstd::prelude::*;

verus! {

/// What an inference engine on this machine can be asked.
pub trait EngineDriver {
    /// Whether the engine answers.
    fn detect(&self) -> Result<bool, TroopError>;

    /// What the engine is.
    fn get_info(&self) -> Result<EngineInfo, TroopError>;

    /// The models that the engine offers.
    fn get_models(&self) -> Result<Vec<String>, TroopError>;

    /// Where the engine listens.
    fn get_base_url(&self) -> String;
}

/// What one engine said of itself.
#[derive(Debug)]
pub struct EngineReport {
    pub info: EngineInfo,
    pub models: Vec<String>,
    pub base_url: String,
}

/// The place of an engine type in the order of priority: vLLM before Ollama
/// before LM Studio. A type of another name has no place.
pub open spec fn priority_rank(engine_type: Seq<char>) -> Option<nat> {
    if engine_type == "vllm"@ {
        Some(0)
    } else if engine_type == "ollama"@ {
        Some(1)
    } else if engine_type == "lmstudio"@ {
        Some(2)
    } else {
        None
    }
}

/// The place of an engine type in the order of priority.
pub fn engine_rank(engine_type: &str) -> (r: Option<u8>)
    ensures
        match r {
            Some(x) => priority_rank(engine_type@) == Some(x as nat) && x < 3,
            None => priority_rank(engine_type@) is None,
        },
{
    if same_text(engine_type, "vllm") {
        Some(0)
    } else if same_text(engine_type, "ollama") {
        Some(1)
    } else if same_text(engine_type, "lmstudio") {
        Some(2)
    } else {
        None
    }
}

/// The rank of the engine of report `i`.
pub open spec fn rank_at(reports: Seq<EngineReport>, i: int) -> nat {
    priority_rank(reports[i].info.engine_type@)->0
}

/// Whether report `i` is of an engine that has a rank and lists model `m`.
pub open spec fn serves(reports: Seq<EngineReport>, i: int, m: Seq<char>) -> bool {
    &&& 0 <= i < reports.len()
    &&& priority_rank(reports[i].info.engine_type@) is Some
    &&& has_name(reports[i].models@, m)
}

/// Whether the engine of report `i` is asked before that of report `j`, or
/// is the same: the higher priority first, and of two engines of one type
/// the one that was reported first.
pub open spec fn precedes(reports: Seq<EngineReport>, i: int, j: int) -> bool {
    rank_at(reports, i) < rank_at(reports, j) || (rank_at(reports, i) == rank_at(reports, j) && i
        <= j)
}

/// Whether report `i` is of the first engine that serves `m`.
pub open spec fn first_server(reports: Seq<EngineReport>, i: int, m: Seq<char>) -> bool {
    &&& serves(reports, i, m)
    &&& forall|j: int| #[trigger] serves(reports, j, m) ==> precedes(reports, i, j)
}

/// Whether some engine with a rank lists some model.
pub open spec fn serves_any(reports: Seq<EngineReport>) -> bool {
    exists|i: int, m: Seq<char>| serves(reports, i, m)
}

/// Whether `routes` sends each model that an engine with a rank lists, and
/// no other, to the first engine that serves it.
pub open spec fn routes_fit(routes: Map<Seq<char>, Seq<char>>, reports: Seq<EngineReport>) -> bool {
    &&& forall|m: Seq<char>| #[trigger]
        routes.contains_key(m) <==> exists|i: int| serves(reports, i, m)
    &&& forall|m: Seq<char>| #[trigger]
        routes.contains_key(m) ==> exists|i: int|
            first_server(reports, i, m) && routes[m] == reports[i].base_url@
}

/// The descriptors of the reports, in their order.
pub open spec fn infos(reports: Seq<EngineReport>) -> Seq<EngineInfo> {
    reports.map_values(|r: EngineReport| r.info)
}

/// A registry as the contracts see it.
pub struct RegistryModel {
    /// The address of the engine that serves each model.
    pub routes: Map<Seq<char>, Seq<char>>,
    /// The names of all models, in ascending order.
    pub models: Seq<Seq<char>>,
    /// The engines that were found.
    pub engines: Seq<EngineInfo>,
}

impl RegistryModel {
    /// The model list holds the models that have a route, each once, in
    /// ascending order.
    pub open spec fn wf(self) -> bool {
        RouteTable::names_fit(self.models, self.routes)
    }

    /// Whether this is the registry of the engines that gave `reports`.
    pub open spec fn is_registry_of(self, reports: Seq<EngineReport>) -> bool {
        &&& self.wf()
        &&& routes_fit(self.routes, reports)
        &&& self.engines == infos(reports)
    }
}

/// Which engine serves which model.
pub struct ModelRegistry {
    model_to_engine: RouteTable,
    all_engines: Vec<EngineInfo>,
}

impl View for ModelRegistry {
    type V = RegistryModel;

    closed spec fn view(&self) -> RegistryModel {
        RegistryModel {
            routes: self.model_to_engine@,
            models: self.model_to_engine.names(),
            engines: self.all_engines@,
        }
    }
}

impl ModelRegistry {
    /// A registry without models or engines.
    pub fn new() -> (r: ModelRegistry)
        ensures
            r@.routes == Map::<Seq<char>, Seq<char>>::empty(),
            r@.models == Seq::<Seq<char>>::empty(),
            r@.engines == Seq::<EngineInfo>::empty(),
    {
        ModelRegistry { model_to_engine: RouteTable::new(), all_engines: Vec::new() }
    }

    /// The address of the engine that serves `model`, where one does.
    pub fn get_engine_url(&self, model: &str) -> (r: Option<&String>)
        ensures
            match r {
                Some(url) => self@.routes.contains_key(model@) && url@ == self@.routes[model@],
                None => !self@.routes.contains_key(model@),
            },
    {
        self.model_to_engine.get(model)
    }

    /// The names of all models, in ascending order.
    pub fn models(&self) -> (r: &[String])
        ensures
            texts(r@) == self@.models,
            self@.wf(),
    {
        self.model_to_engine.name_list()
    }

    /// The engines that were found.
    pub fn engines(&self) -> (r: &[EngineInfo])
        ensures
            r@ == self@.engines,
    {
        self.all_engines.as_slice()
    }

    /// Whether no model has a route.
    pub fn is_empty(&self) -> (r: bool)
        ensures
            r == (self@.models.len() == 0),
            r == (self@.routes == Map::<Seq<char>, Seq<char>>::empty()),
            self@.wf(),
    {
        let names = self.model_to_engine.name_list();
        proof {
            if names@.len() > 0 {
                assert(self@.models[0] == names@[0]@);
                assert(self@.models.contains(self@.models[0]));
                assert(self@.routes.contains_key(self@.models[0]));
            } else {
                assert forall|m: Seq<char>| !self@.routes.contains_key(m) by {
                    assert(!self@.models.contains(m));
                }
                assert(self@.routes =~= Map::<Seq<char>, Seq<char>>::empty());
            }
        }
        names.len() == 0
    }
}

/// Whether model number `kk` of report `i` has had its turn, where the turn
/// is now at model number `k` of report `e` in the round of rank `rank`.
pub open spec fn had_turn(
    reports: Seq<EngineReport>,
    rank: nat,
    e: int,
    k: int,
    i: int,
    kk: int,
) -> bool {
    &&& 0 <= i < reports.len()
    &&& 0 <= kk < reports[i].models@.len()
    &&& priority_rank(reports[i].info.engine_type@) is Some
    &&& (rank_at(reports, i) < rank || (rank_at(reports, i) == rank && (i < e || (i == e && kk
        < k))))
}

/// Whether `routes` holds the models that have had their turn, each with
/// the first engine that serves it.
pub open spec fn routes_so_far(
    routes: Map<Seq<char>, Seq<char>>,
    reports: Seq<EngineReport>,
    rank: nat,
    e: int,
    k: int,
) -> bool {
    &&& forall|m: Seq<char>| #[trigger]
        routes.contains_key(m) <==> exists|i: int, kk: int|
            had_turn(reports, rank, e, k, i, kk) && (#[trigger] reports[i].models@[kk])@ == m
    &&& forall|m: Seq<char>| #[trigger]
        routes.contains_key(m) ==> exists|i: int|
            first_server(reports, i, m) && routes[m] == reports[i].base_url@
}

/// Moving the turn on without a model in between changes nothing.
proof fn lemma_turn_moves(
    routes: Map<Seq<char>, Seq<char>>,
    reports: Seq<EngineReport>,
    rank: nat,
    e: int,
    k: int,
    rank2: nat,
    e2: int,
    k2: int,
)
    requires
        routes_so_far(routes, reports, rank, e, k),
        forall|i: int, kk: int|
            had_turn(reports, rank, e, k, i, kk) == had_turn(reports, rank2, e2, k2, i, kk),
    ensures
        routes_so_far(routes, reports, rank2, e2, k2),
{
    assert forall|m: Seq<char>| #[trigger]
        routes.contains_key(m) <==> exists|i: int, kk: int|
            had_turn(reports, rank2, e2, k2, i, kk) && (#[trigger] reports[i].models@[kk])@ == m by {
        if routes.contains_key(m) {
            let (i, kk) = choose|i: int, kk: int|
                had_turn(reports, rank, e, k, i, kk) && (#[trigger] reports[i].models@[kk])@ == m;
            assert(had_turn(reports, rank2, e2, k2, i, kk));
        }
        if exists|i: int, kk: int|
            had_turn(reports, rank2, e2, k2, i, kk) && (#[trigger] reports[i].models@[kk])@ == m {
            let (i, kk) = choose|i: int, kk: int|
                had_turn(reports, rank2, e2, k2, i, kk) && (#[trigger] reports[i].models@[kk])@
                    == m;
            assert(had_turn(reports, rank, e, k, i, kk));
        }
    }
}

/// The turn of one model: it gets the address of its engine, unless an
/// engine before this one serves it.
proof fn lemma_turn_taken(
    routes: Map<Seq<char>, Seq<char>>,
    reports: Seq<EngineReport>,
    rank: nat,
    e: int,
    k: int,
)
    requires
        routes_so_far(routes, reports, rank, e, k),
        0 <= e < reports.len(),
        priority_rank(reports[e].info.engine_type@) == Some(rank),
        0 <= k < reports[e].models@.len(),
    ensures
        routes_so_far(
            if routes.contains_key(reports[e].models@[k]@) {
                routes
            } else {
                routes.insert(reports[e].models@[k]@, reports[e].base_url@)
            },
            reports,
            rank,
            e,
            k + 1,
        ),
{
    let name = reports[e].models@[k]@;
    let after = if routes.contains_key(name) {
        routes
    } else {
        routes.insert(name, reports[e].base_url@)
    };
    assert(had_turn(reports, rank, e, k + 1, e, k));
    assert forall|m: Seq<char>| #[trigger]
        after.contains_key(m) <==> exists|i: int, kk: int|
            had_turn(reports, rank, e, k + 1, i, kk) && (#[trigger] reports[i].models@[kk])@ == m by {
        if after.contains_key(m) {
            if routes.contains_key(m) {
                let (i, kk) = choose|i: int, kk: int|
                    had_turn(reports, rank, e, k, i, kk) && (#[trigger] reports[i].models@[kk])@
                        == m;
                assert(had_turn(reports, rank, e, k + 1, i, kk));
            } else {
                assert(m == name);
                assert(reports[e].models@[k]@ == m);
            }
        }
        if exists|i: int, kk: int|
            had_turn(reports, rank, e, k + 1, i, kk) && (#[trigger] reports[i].models@[kk])@ == m {
            let (i, kk) = choose|i: int, kk: int|
                had_turn(reports, rank, e, k + 1, i, kk) && (#[trigger] reports[i].models@[kk])@
                    == m;
            if i == e && kk == k {
                assert(m == name);
            } else {
                assert(had_turn(reports, rank, e, k, i, kk));
                assert(routes.contains_key(m));
            }
        }
    }
    assert forall|m: Seq<char>| #[trigger] after.contains_key(m) implies exists|i: int|
        first_server(reports, i, m) && after[m] == reports[i].base_url@ by {
        if routes.contains_key(m) {
            let i = choose|i: int| first_server(reports, i, m) && routes[m] == reports[i].base_url@;
            assert(first_server(reports, i, m) && after[m] == reports[i].base_url@);
        } else {
            assert(m == name);
            assert(serves(reports, e, m));
            assert forall|j: int| #[trigger] serves(reports, j, m) implies precedes(
                reports,
                e,
                j,
            ) by {
                if !precedes(reports, e, j) {
                    let kk = choose|kk: int|
                        0 <= kk < reports[j].models@.len() && (#[trigger] reports[j].models@[kk])@
                            == m;
                    assert(had_turn(reports, rank, e, k, j, kk));
                    assert(routes.contains_key(m));
                }
            }
            assert(first_server(reports, e, m) && after[m] == reports[e].base_url@);
        }
    }
}

/// When every round is over, the routes are those of the reports.
proof fn lemma_turns_over(routes: Map<Seq<char>, Seq<char>>, reports: Seq<EngineReport>)
    requires
        routes_so_far(routes, reports, 3, 0, 0),
    ensures
        routes_fit(routes, reports),
{
    assert forall|m: Seq<char>| #[trigger]
        routes.contains_key(m) <==> exists|i: int| serves(reports, i, m) by {
        if routes.contains_key(m) {
            let (i, kk) = choose|i: int, kk: int|
                had_turn(reports, 3, 0, 0, i, kk) && (#[trigger] reports[i].models@[kk])@ == m;
            assert(serves(reports, i, m));
        }
        if exists|i: int| serves(reports, i, m) {
            let i = choose|i: int| serves(reports, i, m);
            let kk = choose|kk: int|
                0 <= kk < reports[i].models@.len() && (#[trigger] reports[i].models@[kk])@ == m;
            assert(had_turn(reports, 3, 0, 0, i, kk));
        }
    }
}

/// The registry of the engines that gave `reports`. Each model goes to the
/// first engine that serves it: vLLM before Ollama before LM Studio, and of
/// two engines of one type the one that was reported first. Where no engine
/// lists a model there is no registry.
pub fn registry_from_reports(reports: &Vec<EngineReport>) -> (res: Result<ModelRegistry, TroopError>)
    ensures
        match res {
            Ok(registry) => registry@.is_registry_of(reports@) && serves_any(reports@),
            Err(e) => !serves_any(reports@) && e.is_internal("No models found in any engine"@),
        },
{
    let n: usize = reports.len();
    let mut all_engines: Vec<EngineInfo> = Vec::new();
    let mut i: usize = 0;
    while i < n
        invariant
            i <= n == reports@.len(),
            all_engines@ == infos(reports@).take(i as int),
        decreases n - i,
    {
        all_engines.push(reports[i].info.duplicate());
        assert(infos(reports@).take(i + 1) == infos(reports@).take(i as int).push(
            reports@[i as int].info,
        ));
        i += 1;
    }
    assert(infos(reports@).take(n as int) == infos(reports@));

    let mut table = RouteTable::new();
    let mut rank: u8 = 0;
    while rank < 3
        invariant
            rank <= 3,
            n == reports@.len(),
            routes_so_far(table@, reports@, rank as nat, 0, 0),
        decreases 3 - rank,
    {
        let mut e: usize = 0;
        while e < n
            invariant
                rank < 3,
                e <= n == reports@.len(),
                routes_so_far(table@, reports@, rank as nat, e as int, 0),
            decreases n - e,
        {
            let report = &reports[e];
            let of_this_rank = match engine_rank(report.info.engine_type.as_str()) {
                Some(r) => r == rank,
                None => false,
            };
            if of_this_rank {
                let count: usize = report.models.len();
                let mut k: usize = 0;
                while k < count
                    invariant
                        rank < 3,
                        e < n == reports@.len(),
                        report == reports@[e as int],
                        priority_rank(report.info.engine_type@) == Some(rank as nat),
                        k <= count == report.models@.len(),
                        routes_so_far(table@, reports@, rank as nat, e as int, k as int),
                    decreases count - k,
                {
                    proof {
                        lemma_turn_taken(table@, reports@, rank as nat, e as int, k as int);
                    }
                    table = table.with_route(report.models[k].as_str(), report.base_url.as_str());
                    k += 1;
                }
                proof {
                    lemma_turn_moves(
                        table@,
                        reports@,
                        rank as nat,
                        e as int,
                        count as int,
                        rank as nat,
                        e + 1,
                        0,
                    );
                }
            } else {
                proof {
                    lemma_turn_moves(
                        table@,
                        reports@,
                        rank as nat,
                        e as int,
                        0,
                        rank as nat,
                        e + 1,
                        0,
                    );
                }
            }
            e += 1;
        }
        proof {
            lemma_turn_moves(
                table@,
                reports@,
                rank as nat,
                n as int,
                0,
                (rank + 1) as nat,
                0,
                0,
            );
        }
        rank += 1;
    }
    proof {
        lemma_turns_over(table@, reports@);
    }
    let registry = ModelRegistry { model_to_engine: table, all_engines };
    if registry.is_empty() {
        proof {
            assert(!serves_any(reports@)) by {
                if serves_any(reports@) {
                    let (i, m) = choose|i: int, m: Seq<char>| serves(reports@, i, m);
                    assert(registry@.routes.contains_key(m));
                }
            }
        }
        return Err(TroopError::InternalError("No models found in any engine".to_owned()));
    }
    proof {
        let m = registry@.models[0];
        assert(registry@.models.contains(m));
        assert(registry@.routes.contains_key(m));
        let i = choose|i: int| serves(reports@, i, m);
        assert(serves(reports@, i, m));
    }
    Ok(registry)
}

/// Whether `report` is what `engine` may have said: its descriptor and its
/// address are answers of the engine, and so are its models where its type
/// has a rank; an engine whose type has none is not asked, and its report
/// lists no model.
pub open spec fn report_of<D: EngineDriver>(report: EngineReport, engine: D) -> bool {
    &&& call_ensures(D::get_info, (&engine,), Ok::<EngineInfo, TroopError>(report.info))
    &&& call_ensures(D::get_base_url, (&engine,), report.base_url)
    &&& if priority_rank(report.info.engine_type@) is Some {
        call_ensures(D::get_models, (&engine,), Ok::<Vec<String>, TroopError>(report.models))
    } else {
        report.models@.len() == 0
    }
}

/// Whether `reports` are what `engines` may have said: one report for each
/// engine, in their order.
pub open spec fn reports_of<D: EngineDriver>(reports: Seq<EngineReport>, engines: Seq<D>) -> bool {
    &&& reports.len() == engines.len()
    &&& forall|i: int| 0 <= i < reports.len() ==> report_of(#[trigger] reports[i], engines[i])
}

/// Whether `e` is the error with which one of `engines` answered when it
/// was asked what it is, or for its models.
pub open spec fn failure_of<D: EngineDriver>(e: TroopError, engines: Seq<D>) -> bool {
    exists|i: int|
        0 <= i < engines.len() && (call_ensures(
            D::get_info,
            (&#[trigger] engines[i],),
            Err::<EngineInfo, TroopError>(e),
        ) || call_ensures(D::get_models, (&engines[i],), Err::<Vec<String>, TroopError>(e)))
}

/// Whether `report` holds the descriptor and the address that `engine`
/// gave, and no model yet.
pub open spec fn first_answers_of<D: EngineDriver>(report: EngineReport, engine: D) -> bool {
    &&& call_ensures(D::get_info, (&engine,), Ok::<EngineInfo, TroopError>(report.info))
    &&& call_ensures(D::get_base_url, (&engine,), report.base_url)
    &&& report.models@.len() == 0
}

/// Asks each engine what it is and where it listens, then, in the order of
/// priority, each engine whose type has a rank for its models, and builds
/// the registry of what they said. The first engine that fails ends the
/// build with its error.
pub fn build_model_registry<D: EngineDriver>(engines: &[D]) -> (res: Result<
    ModelRegistry,
    TroopError,
>)
    ensures
        res matches Ok(registry) ==> exists|reports: Seq<EngineReport>|
            reports_of(reports, engines@) && #[trigger] registry@.is_registry_of(reports)
                && serves_any(reports),
        res matches Err(e) ==> e.is_internal("No models found in any engine"@) || failure_of(
            e,
            engines@,
        ),
        engines@.len() == 0 ==> (res matches Err(e) && e.is_internal(
            "No models found in any engine"@,
        )),
{
    let n: usize = engines.len();
    let mut reports: Vec<EngineReport> = Vec::new();
    let mut i: usize = 0;
    while i < n
        invariant
            i <= n == engines@.len(),
            reports@.len() == i,
            forall|j: int| 0 <= j < i ==> first_answers_of(#[trigger] reports@[j], engines@[j]),
        decreases n - i,
    {
        let info = match engines[i].get_info() {
            Ok(info) => info,
            Err(e) => {
                return Err(e);
            },
        };
        let base_url = engines[i].get_base_url();
        reports.push(EngineReport { info, models: Vec::new(), base_url });
        i += 1;
    }
    // a report is complete once its engine has been asked for its models,
    // or is known to have no rank
    let mut rank: u8 = 0;
    while rank < 3
        invariant
            rank <= 3,
            n == engines@.len() == reports@.len(),
            forall|j: int|
                0 <= j < n ==> if asked_before(reports@[j], rank as nat) {
                    report_of(#[trigger] reports@[j], engines@[j])
                } else {
                    first_answers_of(reports@[j], engines@[j])
                },
        decreases 3 - rank,
    {
        let mut e: usize = 0;
        while e < n
            invariant
                rank < 3,
                e <= n == engines@.len() == reports@.len(),
                forall|j: int|
                    0 <= j < n ==> if asked_before(reports@[j], rank as nat) || (j < e
                        && priority_rank(reports@[j].info.engine_type@) == Some(rank as nat)) {
                        report_of(#[trigger] reports@[j], engines@[j])
                    } else {
                        first_answers_of(reports@[j], engines@[j])
                    },
            decreases n - e,
        {
            let of_this_rank = match engine_rank(reports[e].info.engine_type.as_str()) {
                Some(r) => r == rank,
                None => false,
            };
            if of_this_rank {
                let models = match engines[e].get_models() {
                    Ok(models) => models,
                    Err(err) => {
                        return Err(err);
                    },
                };
                let ghost before = reports@;
                let asked = reports.remove(e);
                reports.insert(
                    e,
                    EngineReport { info: asked.info, models, base_url: asked.base_url },
                );
                assert forall|j: int| 0 <= j < n && j != e implies reports@[j] == before[j] by {}
            }
            e += 1;
        }
        rank += 1;
    }
    assert(reports_of(reports@, engines@));
    proof {
        if n == 0 {
            assert(!serves_any(reports@));
        }
    }
    registry_from_reports(&reports)
}

/// Whether the engine of `report` has no rank, or one before `rank`.
pub open spec fn asked_before(report: EngineReport, rank: nat) -> bool {
    match priority_rank(report.info.engine_type@) {
        Some(r) => r < rank,
        None => true,
    }
}

/// Those of `candidates` whose probe said that the engine answers, in their
/// order. A probe that failed counts as no answer.
pub fn select_detected<D>(candidates: Vec<D>, probes: &Vec<Result<bool, TroopError>>) -> (found:
    Vec<D>)
    requires
        probes@.len() == candidates@.len(),
    ensures
        found@ == detected(candidates@, probes@),
{
    let mut candidates = candidates;
    let mut found: Vec<D> = Vec::new();
    let ghost all = candidates@;
    let n: usize = candidates.len();
    let mut i: usize = 0;
    while i < n
        invariant
            i <= n == all.len() == probes@.len(),
            candidates@ == all.skip(i as int),
            found@ == detected(all.take(i as int), probes@.take(i as int)),
        decreases n - i,
    {
        proof {
            assert(all.take(i + 1).drop_last() == all.take(i as int));
            assert(probes@.take(i + 1).drop_last() == probes@.take(i as int));
            assert(all.skip(i as int).remove(0) == all.skip(i + 1));
        }
        let candidate = candidates.remove(0);
        let answered = match &probes[i] {
            Ok(yes) => *yes,
            Err(_) => false,
        };
        if answered {
            found.push(candidate);
        }
        i += 1;
    }
    proof {
        assert(all.take(n as int) == all);
        assert(probes@.take(n as int) == probes@);
    }
    found
}

/// Those of `candidates` at whose place `probes` holds `Ok(true)`.
pub open spec fn detected<D>(candidates: Seq<D>, probes: Seq<Result<bool, TroopError>>) -> Seq<D>
    decreases candidates.len(),
{
    if candidates.len() == 0 || probes.len() == 0 {
        Seq::empty()
    } else {
        let before = detected(candidates.drop_last(), probes.drop_last());
        if probes.last() == Ok::<bool, TroopError>(true) {
            before.push(candidates.last())
        } else {
            before
        }
    }
}

/// Whether `probes` are what `candidates` may have answered when asked
/// whether their engines answer: one for each candidate, in their order.
pub open spec fn probes_of<D: EngineDriver>(
    probes: Seq<Result<bool, TroopError>>,
    candidates: Seq<D>,
) -> bool {
    &&& probes.len() == candidates.len()
    &&& forall|i: int|
        0 <= i < probes.len() ==> call_ensures(D::detect, (&candidates[i],), #[trigger] probes[i])
}

/// Asks each candidate whether its engine answers, and keeps those that do,
/// in their order.
pub fn detect_engines<D: EngineDriver>(candidates: Vec<D>) -> (found: Vec<D>)
    ensures
        exists|probes: Seq<Result<bool, TroopError>>|
            probes_of(probes, candidates@) && found@ == #[trigger] detected(candidates@, probes),
{
    let mut probes: Vec<Result<bool, TroopError>> = Vec::new();
    let mut i: usize = 0;
    while i < candidates.len()
        invariant
            i <= candidates@.len(),
            probes@.len() == i,
            forall|j: int|
                0 <= j < i ==> call_ensures(D::detect, (&candidates@[j],), #[trigger] probes@[j]),
        decreases candidates.len() - i,
    {
        probes.push(candidates[i].detect());
        i += 1;
    }
    select_detected(candidates, &probes)
}

/// A route leads to an engine that lists the model, and to the one of
/// highest priority among those that do: where the registry of `reports`
/// sends `model` to an address, a report of an engine with a rank has that
/// address and lists the model, and no report that lists it is of an engine
/// of higher priority.
pub proof fn law_route_goes_to_first_server(
    registry: RegistryModel,
    reports: Seq<EngineReport>,
    model: Seq<char>,
)
    requires
        registry.is_registry_of(reports),
        registry.routes.contains_key(model),
    ensures
        exists|i: int|
            {
                &&& #[trigger] serves(reports, i, model)
                &&& reports[i].base_url@ == registry.routes[model]
                &&& forall|j: int| #[trigger]
                    serves(reports, j, model) ==> rank_at(reports, i) <= rank_at(reports, j)
            },
{
    let i = choose|i: int|
        first_server(reports, i, model) && registry.routes[model] == reports[i].base_url@;
    assert(serves(reports, i, model));
    assert forall|j: int| #[trigger] serves(reports, j, model) implies rank_at(reports, i)
        <= rank_at(reports, j) by {
        assert(precedes(reports, i, j));
    }
}

/// Every model that an engine with a rank lists has a route, and every
/// model in the list of models has one.
pub proof fn law_listed_models_have_routes(
    registry: RegistryModel,
    reports: Seq<EngineReport>,
    i: int,
    model: Seq<char>,
)
    requires
        registry.is_registry_of(reports),
    ensures
        serves(reports, i, model) ==> registry.routes.contains_key(model),
        registry.models.contains(model) <==> registry.routes.contains_key(model),
{
}

} // verus!
