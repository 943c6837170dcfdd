use bb_bridge::BbError;
use bb_bridge::cache::CacheAction;
use bb_bridge::cache::CacheEvent;
use bb_bridge::cache::CacheState;
use bb_bridge::cache::cache_step;
use bb_bridge::cache::cached_value;
use bb_bridge::srs::srs_with_bundled_g2;
use bb_bridge::srs::Srs;

fn sample_srs() -> Srs {
    srs_with_bundled_g2(vec![8; 2 * 64], 2).unwrap()
}

#[test]
fn first_request_starts_the_one_fetch() {
    let (state, action) = cache_step(CacheState::Empty, CacheEvent::Request);
    assert_eq!(action, CacheAction::StartFetch);
    assert!(matches!(state, CacheState::Fetching));

    // every concurrent requester joins the running fetch instead
    let (state, action) = cache_step(state, CacheEvent::Request);
    assert_eq!(action, CacheAction::AwaitResult);
    let (_, action) = cache_step(state, CacheEvent::Request);
    assert_eq!(action, CacheAction::AwaitResult);
}

#[test]
fn success_populates_and_later_requests_share_the_value() {
    let (state, _) = cache_step(CacheState::Empty, CacheEvent::Request);
    let (state, action) = cache_step(state, CacheEvent::FetchSucceeded(sample_srs()));
    assert_eq!(action, CacheAction::UseCached);
    assert_eq!(cached_value(&state).unwrap(), sample_srs());

    let (state, action) = cache_step(state, CacheEvent::Request);
    assert_eq!(action, CacheAction::UseCached);
    assert_eq!(cached_value(&state).unwrap(), sample_srs());
}

#[test]
fn failure_leaves_the_cache_empty_for_a_retry() {
    let (state, _) = cache_step(CacheState::Empty, CacheEvent::Request);
    let (state, action) = cache_step(state, CacheEvent::FetchFailed);
    assert_eq!(action, CacheAction::ReportFailure);
    assert!(matches!(state, CacheState::Empty));

    // the cache is not poisoned: the next request fetches afresh
    let (_, action) = cache_step(state, CacheEvent::Request);
    assert_eq!(action, CacheAction::StartFetch);
}

#[test]
fn reading_before_population_is_refused() {
    assert_eq!(cached_value(&CacheState::Empty), Err(BbError::NotInitialized));
    assert_eq!(cached_value(&CacheState::Fetching), Err(BbError::NotInitialized));
}
