//! Where the client sends its requests, and what it does when a node
//! answers that it is not the leader.
//!
//! The requests themselves travel asynchronously and stay with the caller;
//! the functions here take what a failed request said and decide the next
//! move.
use vstd::prelude::*;
use vstd::string::StringExecFns;
use rxqlite_lite_common::NodeId;

verus! {

/// The number of requests that one call sends, at most, while it follows the
/// cluster's redirections to its leader.
pub const LEADER_ATTEMPTS: u64 = 3;

/// The HTTP endpoints of an rxqlite node that the client calls.
#[derive(Clone, Copy, PartialEq, Eq, Structural, Debug)]
pub enum Endpoint {
    /// Applies a statement through the raft log.
    Sql,
    /// Applies a statement through the raft log and reads consistently.
    SqlConsistent,
    /// Adds a node to the cluster as a learner.
    AddLearner,
    /// Changes the voters of the cluster.
    ChangeMembership,
    /// Reports the raft metrics of the node.
    Metrics,
}

/// The path of an endpoint, below the node's address.
pub open spec fn endpoint_path(e: Endpoint) -> Seq<char> {
    match e {
        Endpoint::Sql => "lite-api/sql"@,
        Endpoint::SqlConsistent => "lite-api/sql-consistent"@,
        Endpoint::AddLearner => "lite-cluster/add-learner"@,
        Endpoint::ChangeMembership => "lite-cluster/change-membership"@,
        Endpoint::Metrics => "lite-cluster/metrics"@,
    }
}

impl Endpoint {
    /// The path of this endpoint, below the node's address.
    pub fn path(&self) -> (p: &'static str)
        ensures
            p@ == endpoint_path(*self),
    {
        match self {
            Endpoint::Sql => "lite-api/sql",
            Endpoint::SqlConsistent => "lite-api/sql-consistent",
            Endpoint::AddLearner => "lite-cluster/add-learner",
            Endpoint::ChangeMembership => "lite-cluster/change-membership",
            Endpoint::Metrics => "lite-cluster/metrics",
        }
    }
}

/// The operations of the client that send a request to a node.
#[derive(Clone, Copy, PartialEq, Eq, Structural, Debug)]
pub enum Operation {
    Sql,
    SqlWithRetries,
    ConsistentSql,
    Execute,
    FetchAll,
    FetchOne,
    FetchOptional,
    AddLearner,
    ChangeMembership,
    Metrics,
    NodeMetrics,
}

/// Where an operation sends its request.
#[derive(Clone, Copy, PartialEq, Eq, Structural, Debug)]
pub enum Route {
    /// To the node taken for the leader, following the cluster's
    /// redirections to the actual leader.
    LeaderFollowingRedirects,
    /// To the node taken for the leader, once.
    Leader,
    /// To the node that the client was made for.
    Node,
}

/// The endpoint of an operation: writes go to `Sql`, reads and the SQL calls
/// that return rows to `SqlConsistent`, metrics to `Metrics`.
pub open spec fn operation_endpoint(op: Operation) -> Endpoint {
    match op {
        Operation::Sql | Operation::SqlWithRetries => Endpoint::Sql,
        Operation::ConsistentSql | Operation::Execute | Operation::FetchAll
        | Operation::FetchOne | Operation::FetchOptional => Endpoint::SqlConsistent,
        Operation::AddLearner => Endpoint::AddLearner,
        Operation::ChangeMembership => Endpoint::ChangeMembership,
        Operation::Metrics | Operation::NodeMetrics => Endpoint::Metrics,
    }
}

/// The route of an operation: every operation but the metrics follows
/// redirections to the leader; `metrics` asks the node taken for the leader
/// once, and `node_metrics` the node that the client was made for.
pub open spec fn operation_route(op: Operation) -> Route {
    match op {
        Operation::Metrics => Route::Leader,
        Operation::NodeMetrics => Route::Node,
        _ => Route::LeaderFollowingRedirects,
    }
}

impl Operation {
    /// The endpoint that this operation calls.
    pub fn endpoint(&self) -> (e: Endpoint)
        ensures
            e == operation_endpoint(*self),
    {
        match self {
            Operation::Sql | Operation::SqlWithRetries => Endpoint::Sql,
            Operation::ConsistentSql | Operation::Execute | Operation::FetchAll
            | Operation::FetchOne | Operation::FetchOptional => Endpoint::SqlConsistent,
            Operation::AddLearner => Endpoint::AddLearner,
            Operation::ChangeMembership => Endpoint::ChangeMembership,
            Operation::Metrics | Operation::NodeMetrics => Endpoint::Metrics,
        }
    }

    /// Where this operation sends its request.
    pub fn route(&self) -> (r: Route)
        ensures
            r == operation_route(*self),
    {
        match self {
            Operation::Metrics => Route::Leader,
            Operation::NodeMetrics => Route::Node,
            _ => Route::LeaderFollowingRedirects,
        }
    }
}

/// The URL of `uri` on the node at `target_addr`: `https` where TLS is used,
/// `http` otherwise.
pub open spec fn url_of(use_tls: bool, target_addr: Seq<char>, uri: Seq<char>) -> Seq<char> {
    (if use_tls { "https"@ } else { "http"@ }) + "://"@ + target_addr + "/"@ + uri
}

/// Builds the URL of `uri` on the node at `target_addr`.
pub fn rpc_url(use_tls: bool, target_addr: &str, uri: &str) -> (url: String)
    ensures
        url@ == url_of(use_tls, target_addr@, uri@),
{
    let mut url = String::from_str(if use_tls { "https" } else { "http" });
    url.append("://");
    url.append(target_addr);
    url.append("/");
    url.append(uri);
    url
}

/// The HTTP method of a request.
#[derive(Clone, Copy, PartialEq, Eq, Structural, Debug)]
pub enum HttpMethod {
    Get,
    Post,
}

/// The method of a request: `POST` where it carries a payload, `GET`
/// otherwise.
pub fn rpc_method(has_payload: bool) -> (m: HttpMethod)
    ensures
        m == (if has_payload { HttpMethod::Post } else { HttpMethod::Get }),
{
    if has_payload { HttpMethod::Post } else { HttpMethod::Get }
}

/// What a node said about the leader when it refused a request that only the
/// leader can serve.
pub struct LeaderHint {
    /// The id of the leader, where the node knows it.
    pub leader_id: Option<NodeId>,
    /// The API address of the leader, where the node knows it.
    pub leader_addr: Option<String>,
}

/// The next move of a call that follows redirections to the leader, after a
/// request failed.
pub enum RedirectDecision {
    /// Report the failure.
    Fail,
    /// Take the given node as leader and send the request again.
    Retry { leader_id: NodeId, leader_addr: String },
    /// Take the given node as leader, then report the failure: no attempt is
    /// left.
    FailAfterRedirect { leader_id: NodeId, leader_addr: String },
}

/// The decision after a failed request, with `left` attempts counted before
/// it, and the attempts left after it. `hint` is what the failure said about
/// the leader, if it was a redirection.
pub open spec fn redirect_step(left: u64, hint: Option<LeaderHint>) -> (RedirectDecision, u64) {
    match hint {
        None => (RedirectDecision::Fail, left),
        Some(h) => match (h.leader_id, h.leader_addr) {
            (Some(id), Some(addr)) => if left > 1 {
                (RedirectDecision::Retry { leader_id: id, leader_addr: addr }, (left - 1) as u64)
            } else {
                (RedirectDecision::FailAfterRedirect { leader_id: id, leader_addr: addr }, (left - 1) as u64)
            },
            _ => (RedirectDecision::Fail, left),
        },
    }
}

/// Decides what a call does after a failed request: a redirection that names
/// the leader's id and address moves the call to that leader and uses up one
/// attempt; any other failure ends the call.
pub fn redirect_after_failure(left: u64, hint: Option<LeaderHint>) -> (r: (RedirectDecision, u64))
    requires
        left >= 1,
    ensures
        r == redirect_step(left, hint),
{
    match hint {
        None => (RedirectDecision::Fail, left),
        Some(h) => match (h.leader_id, h.leader_addr) {
            (Some(id), Some(addr)) => {
                let rest: u64 = left - 1;
                if rest > 0 {
                    (RedirectDecision::Retry { leader_id: id, leader_addr: addr }, rest)
                } else {
                    (RedirectDecision::FailAfterRedirect { leader_id: id, leader_addr: addr }, rest)
                }
            },
            _ => (RedirectDecision::Fail, left),
        },
    }
}

/// The number of requests that a call sends while it follows redirections,
/// starting with `left` attempts, when its successive requests fail with
/// `failures` (a `None` entry is a failure that is no redirection) and the
/// request after the last of them, if one is sent, succeeds.
pub open spec fn redirect_requests(left: u64, failures: Seq<Option<LeaderHint>>) -> nat
    decreases failures.len(),
{
    if failures.len() == 0 {
        1
    } else {
        let (d, rest) = redirect_step(left, failures[0]);
        match d {
            RedirectDecision::Retry { .. } => 1 + redirect_requests(rest, failures.drop_first()),
            _ => 1,
        }
    }
}

/// A call that follows redirections sends at most as many requests as it has
/// attempts, whatever the nodes answer: at most `LEADER_ATTEMPTS` from the
/// start.
pub proof fn redirect_requests_bounded(left: u64, failures: Seq<Option<LeaderHint>>)
    requires
        left >= 1,
    ensures
        redirect_requests(left, failures) <= left,
    decreases failures.len(),
{
    if failures.len() > 0 {
        let (d, rest) = redirect_step(left, failures[0]);
        if d is Retry {
            redirect_requests_bounded(rest, failures.drop_first());
        }
    }
}

/// The next move of `sql_with_retries_and_delay` after a request failed.
#[derive(Clone, Copy, PartialEq, Eq, Structural, Debug)]
pub enum VacancyDecision {
    /// Report the failure.
    Fail,
    /// The cluster has no leader yet: wait, then send the request again.
    WaitAndRetry,
}

/// The number of requests that `sql_with_retries_and_delay` may send for
/// `retries` retries.
pub open spec fn vacancy_attempts(retries: usize) -> int {
    retries + 1
}

/// Counts the requests that `sql_with_retries_and_delay` may send: the first
/// one and `retries` more.
pub fn attempts_for_retries(retries: usize) -> (n: usize)
    requires
        retries < usize::MAX,
    ensures
        n == vacancy_attempts(retries),
{
    retries + 1
}

/// The decision of `sql_with_retries_and_delay` after a failed request, with
/// `left` attempts counted before it, and the attempts left after it. Only a
/// redirection that names no leader (an election is going on) is retried.
pub open spec fn vacancy_step(left: usize, hint: Option<LeaderHint>) -> (VacancyDecision, usize) {
    match hint {
        None => (VacancyDecision::Fail, left),
        Some(h) => if h.leader_id is Some {
            (VacancyDecision::Fail, left)
        } else if left > 1 {
            (VacancyDecision::WaitAndRetry, (left - 1) as usize)
        } else {
            (VacancyDecision::Fail, (left - 1) as usize)
        },
    }
}

/// Decides what `sql_with_retries_and_delay` does after a failed request.
pub fn vacancy_after_failure(left: usize, hint: Option<LeaderHint>) -> (r: (VacancyDecision, usize))
    requires
        left >= 1,
    ensures
        r == vacancy_step(left, hint),
{
    match hint {
        None => (VacancyDecision::Fail, left),
        Some(h) => {
            if h.leader_id.is_some() {
                (VacancyDecision::Fail, left)
            } else {
                let rest: usize = left - 1;
                if rest == 0 {
                    (VacancyDecision::Fail, rest)
                } else {
                    (VacancyDecision::WaitAndRetry, rest)
                }
            }
        },
    }
}

/// The number of requests that `sql_with_retries_and_delay` sends, starting
/// with `left` attempts, when its successive requests fail with `failures`
/// and the request after the last of them, if one is sent, succeeds.
pub open spec fn vacancy_requests(left: usize, failures: Seq<Option<LeaderHint>>) -> nat
    decreases failures.len(),
{
    if failures.len() == 0 {
        1
    } else {
        let (d, rest) = vacancy_step(left, failures[0]);
        match d {
            VacancyDecision::WaitAndRetry => 1 + vacancy_requests(rest, failures.drop_first()),
            VacancyDecision::Fail => 1,
        }
    }
}

/// The number of waits of `sql_with_retries_and_delay` in the same run.
pub open spec fn vacancy_waits(left: usize, failures: Seq<Option<LeaderHint>>) -> nat
    decreases failures.len(),
{
    if failures.len() == 0 {
        0
    } else {
        let (d, rest) = vacancy_step(left, failures[0]);
        match d {
            VacancyDecision::WaitAndRetry => 1 + vacancy_waits(rest, failures.drop_first()),
            VacancyDecision::Fail => 0,
        }
    }
}

/// `sql_with_retries_and_delay` sends at most `retries + 1` requests, and
/// waits once between two successive requests and never otherwise.
pub proof fn vacancy_requests_bounded(left: usize, failures: Seq<Option<LeaderHint>>)
    requires
        left >= 1,
    ensures
        vacancy_requests(left, failures) <= left,
        vacancy_waits(left, failures) + 1 == vacancy_requests(left, failures),
    decreases failures.len(),
{
    if failures.len() > 0 {
        let (d, rest) = vacancy_step(left, failures[0]);
        if d is WaitAndRetry {
            vacancy_requests_bounded(rest, failures.drop_first());
        }
    }
}

/// The number of HTTP requests that `sql_with_retries_and_delay` sends,
/// starting with `left` attempts: its k-th attempt is a call that follows
/// redirections and meets the failures `calls[k]`, and, where that call
/// fails, `sql_with_retries_and_delay` decides on `outcomes[k]`, what its
/// failure said about the leader (a missing entry is an attempt that
/// succeeded).
pub open spec fn retried_sql_requests(
    left: usize,
    outcomes: Seq<Option<LeaderHint>>,
    calls: Seq<Seq<Option<LeaderHint>>>,
) -> nat
    decreases outcomes.len(),
{
    let here = redirect_requests(LEADER_ATTEMPTS, if calls.len() > 0 { calls[0] } else { Seq::empty() });
    if outcomes.len() == 0 {
        here
    } else {
        match vacancy_step(left, outcomes[0]).0 {
            VacancyDecision::WaitAndRetry => here + retried_sql_requests(
                vacancy_step(left, outcomes[0]).1,
                outcomes.drop_first(),
                calls.drop_first(),
            ),
            VacancyDecision::Fail => here,
        }
    }
}

/// `sql_with_retries_and_delay` sends at most `LEADER_ATTEMPTS * (retries +
/// 1)` HTTP requests in all, whatever the nodes answer.
pub proof fn retried_sql_requests_bounded(
    left: usize,
    outcomes: Seq<Option<LeaderHint>>,
    calls: Seq<Seq<Option<LeaderHint>>>,
)
    requires
        left >= 1,
    ensures
        retried_sql_requests(left, outcomes, calls) <= LEADER_ATTEMPTS * left,
    decreases outcomes.len(),
{
    redirect_requests_bounded(LEADER_ATTEMPTS, if calls.len() > 0 { calls[0] } else { Seq::empty() });
    if outcomes.len() > 0 {
        let (d, rest) = vacancy_step(left, outcomes[0]);
        if d is WaitAndRetry {
            retried_sql_requests_bounded(rest, outcomes.drop_first(), calls.drop_first());
        }
    }
}

/// Whether a failure is a redirection that names no leader (an election
/// is going on).
pub open spec fn names_no_leader(hint: Option<LeaderHint>) -> bool {
    hint matches Some(h) && h.leader_id is None
}

/// Whether a failure is a redirection that names the leader's id and
/// address.
pub open spec fn names_leader(hint: Option<LeaderHint>) -> bool {
    hint matches Some(h) && h.leader_id is Some && h.leader_addr is Some
}

/// What `sql_with_retries_and_delay` does after a failure: while attempts
/// are left, a redirection that names no leader is waited out and the
/// request sent again, using up one attempt; with none left, the call fails;
/// any other failure ends the call at once. So, while the cluster elects a
/// leader, the call sends exactly `min(left, failures + 1)` requests.
pub proof fn vacancy_retries_elections(left: usize, hint: Option<LeaderHint>, failures: Seq<Option<LeaderHint>>)
    requires
        left >= 1,
    ensures
        names_no_leader(hint) && left > 1 ==> vacancy_step(left, hint) == (VacancyDecision::WaitAndRetry, (left - 1) as usize),
        names_no_leader(hint) && left == 1 ==> vacancy_step(left, hint).0 == VacancyDecision::Fail,
        !names_no_leader(hint) ==> vacancy_step(left, hint) == (VacancyDecision::Fail, left),
        (forall|i: int| 0 <= i < failures.len() ==> names_no_leader(#[trigger] failures[i])) ==>
            vacancy_requests(left, failures) == (if left <= failures.len() + 1 { left as int } else { failures.len() + 1int }),
    decreases failures.len(),
{
    if failures.len() > 0 && left > 1 {
        vacancy_retries_elections((left - 1) as usize, hint, failures.drop_first());
        if forall|i: int| 0 <= i < failures.len() ==> names_no_leader(#[trigger] failures[i]) {
            assert(names_no_leader(failures[0]));
            assert forall|i: int| 0 <= i < failures.drop_first().len() implies names_no_leader(#[trigger] failures.drop_first()[i]) by {
                assert(failures.drop_first()[i] == failures[i + 1]);
            }
        }
    } else if failures.len() > 0 {
        if forall|i: int| 0 <= i < failures.len() ==> names_no_leader(#[trigger] failures[i]) {
            assert(names_no_leader(failures[0]));
        }
    }
}

/// What a call that follows redirections does after a failure: while more
/// than one attempt is left, a redirection that names the leader's id and
/// address moves the call to exactly that leader and sends the request
/// again; on the last attempt it moves the call there and fails; any other
/// failure ends the call at once and moves nothing. So, while nodes keep
/// redirecting, the call sends exactly `min(left, failures + 1)` requests.
pub proof fn redirects_follow_the_named_leader(left: u64, hint: Option<LeaderHint>, failures: Seq<Option<LeaderHint>>)
    requires
        left >= 1,
    ensures
        names_leader(hint) && left > 1 ==> redirect_step(left, hint) == (RedirectDecision::Retry {
            leader_id: hint->0.leader_id->0,
            leader_addr: hint->0.leader_addr->0,
        }, (left - 1) as u64),
        names_leader(hint) && left == 1 ==> redirect_step(left, hint) == (RedirectDecision::FailAfterRedirect {
            leader_id: hint->0.leader_id->0,
            leader_addr: hint->0.leader_addr->0,
        }, 0u64),
        !names_leader(hint) ==> redirect_step(left, hint) == (RedirectDecision::Fail, left),
        (forall|i: int| 0 <= i < failures.len() ==> names_leader(#[trigger] failures[i])) ==>
            redirect_requests(left, failures) == (if left <= failures.len() + 1 { left as int } else { failures.len() + 1int }),
    decreases failures.len(),
{
    if failures.len() > 0 && left > 1 {
        redirects_follow_the_named_leader((left - 1) as u64, hint, failures.drop_first());
        if forall|i: int| 0 <= i < failures.len() ==> names_leader(#[trigger] failures[i]) {
            assert(names_leader(failures[0]));
            assert forall|i: int| 0 <= i < failures.drop_first().len() implies names_leader(#[trigger] failures.drop_first()[i]) by {
                assert(failures.drop_first()[i] == failures[i + 1]);
            }
        }
    } else if failures.len() > 0 {
        if forall|i: int| 0 <= i < failures.len() ==> names_leader(#[trigger] failures[i]) {
            assert(names_leader(failures[0]));
        }
    }
}

} // verus!
