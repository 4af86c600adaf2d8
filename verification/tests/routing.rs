use rxqlite_client::routing::{
    attempts_for_retries, redirect_after_failure, rpc_method, rpc_url, vacancy_after_failure,
    LEADER_ATTEMPTS,
};
use rxqlite_client::{Endpoint, HttpMethod, LeaderHint, Operation, RedirectDecision, Route, VacancyDecision};

fn hint(id: Option<u64>, addr: Option<&str>) -> Option<LeaderHint> {
    Some(LeaderHint { leader_id: id, leader_addr: addr.map(|a| a.to_string()) })
}

#[test]
fn url_without_tls() {
    assert_eq!(rpc_url(false, "127.0.0.1:21001", "lite-api/sql"), "http://127.0.0.1:21001/lite-api/sql");
}

#[test]
fn url_with_tls() {
    assert_eq!(rpc_url(true, "node2:8080", "lite-cluster/metrics"), "https://node2:8080/lite-cluster/metrics");
}

#[test]
fn endpoint_paths() {
    assert_eq!(Endpoint::Sql.path(), "lite-api/sql");
    assert_eq!(Endpoint::SqlConsistent.path(), "lite-api/sql-consistent");
    assert_eq!(Endpoint::AddLearner.path(), "lite-cluster/add-learner");
    assert_eq!(Endpoint::ChangeMembership.path(), "lite-cluster/change-membership");
    assert_eq!(Endpoint::Metrics.path(), "lite-cluster/metrics");
}

#[test]
fn method_follows_payload() {
    assert_eq!(rpc_method(true), HttpMethod::Post);
    assert_eq!(rpc_method(false), HttpMethod::Get);
}

#[test]
fn failure_without_redirect_ends_the_call() {
    let (d, left) = redirect_after_failure(LEADER_ATTEMPTS, None);
    assert!(matches!(d, RedirectDecision::Fail));
    assert_eq!(left, 3);
}

#[test]
fn redirect_without_address_ends_the_call() {
    let (d, left) = redirect_after_failure(3, hint(Some(2), None));
    assert!(matches!(d, RedirectDecision::Fail));
    assert_eq!(left, 3);
    let (d, _) = redirect_after_failure(3, hint(None, Some("h:1")));
    assert!(matches!(d, RedirectDecision::Fail));
}

#[test]
fn redirects_follow_the_leader_three_times_at_most() {
    let mut left: u64 = LEADER_ATTEMPTS;
    let mut sends: u32 = 1;
    loop {
        let (d, rest) = redirect_after_failure(left, hint(Some(7), Some("leader:9")));
        left = rest;
        match d {
            RedirectDecision::Retry { leader_id, leader_addr } => {
                assert_eq!(leader_id, 7);
                assert_eq!(leader_addr, "leader:9");
                sends += 1;
            }
            RedirectDecision::FailAfterRedirect { leader_id, leader_addr } => {
                assert_eq!(leader_id, 7);
                assert_eq!(leader_addr, "leader:9");
                break;
            }
            RedirectDecision::Fail => panic!("a full redirection is followed"),
        }
    }
    assert_eq!(sends, 3);
    assert_eq!(left, 0);
}

#[test]
fn vacancy_budget() {
    assert_eq!(attempts_for_retries(0), 1);
    assert_eq!(attempts_for_retries(4), 5);
}

#[test]
fn vacancy_waits_only_while_no_leader_is_known() {
    assert_eq!(vacancy_after_failure(3, None), (VacancyDecision::Fail, 3));
    assert_eq!(vacancy_after_failure(3, hint(Some(1), None)), (VacancyDecision::Fail, 3));
    assert_eq!(vacancy_after_failure(3, hint(Some(1), Some("a:1"))), (VacancyDecision::Fail, 3));
    assert_eq!(vacancy_after_failure(3, hint(None, None)), (VacancyDecision::WaitAndRetry, 2));
    assert_eq!(vacancy_after_failure(2, hint(None, None)), (VacancyDecision::WaitAndRetry, 1));
    assert_eq!(vacancy_after_failure(1, hint(None, None)), (VacancyDecision::Fail, 0));
}

#[test]
fn vacancy_with_no_retry_sends_once() {
    let left: usize = attempts_for_retries(0);
    assert_eq!(vacancy_after_failure(left, hint(None, None)), (VacancyDecision::Fail, 0));
}

#[test]
fn operations_call_their_endpoints() {
    assert_eq!(Operation::Sql.endpoint(), Endpoint::Sql);
    assert_eq!(Operation::SqlWithRetries.endpoint(), Endpoint::Sql);
    for op in [Operation::ConsistentSql, Operation::Execute, Operation::FetchAll, Operation::FetchOne, Operation::FetchOptional] {
        assert_eq!(op.endpoint(), Endpoint::SqlConsistent);
        assert_eq!(op.endpoint().path(), "lite-api/sql-consistent");
        assert_eq!(op.route(), Route::LeaderFollowingRedirects);
    }
    assert_eq!(Operation::AddLearner.endpoint(), Endpoint::AddLearner);
    assert_eq!(Operation::ChangeMembership.endpoint(), Endpoint::ChangeMembership);
    assert_eq!(Operation::Metrics.endpoint(), Endpoint::Metrics);
    assert_eq!(Operation::NodeMetrics.endpoint(), Endpoint::Metrics);
    assert_eq!(Operation::Metrics.route(), Route::Leader);
    assert_eq!(Operation::NodeMetrics.route(), Route::Node);
    assert_eq!(Operation::Sql.route(), Route::LeaderFollowingRedirects);
}
