use buttplug::error::ButtplugClientError;
use buttplug::state::{CommandStateManager, FeatureCache};

#[test]
fn fresh_cache_knows_nothing_and_shows_neutral() {
    let cache = FeatureCache::<u32>::new(2);
    assert_eq!(cache.feature_count(), 2);
    assert_eq!(cache.cached(0), None);
    assert_eq!(cache.cached(5), None);
    assert_eq!(cache.visible_state(), vec![0, 0]);
}

#[test]
fn partial_update_merges_and_reports_change() {
    let mut cache = FeatureCache::<u32>::new(2);
    assert_eq!(cache.update(&vec![(0, 5)], true), Ok(Some(vec![5, 0])));
    assert_eq!(cache.cached(0), Some(5));
    assert_eq!(cache.cached(1), Some(0));
}

#[test]
fn partial_update_with_cached_value_is_no_update() {
    let mut cache = FeatureCache::<u32>::new(2);
    assert_eq!(cache.update(&vec![(0, 5)], true), Ok(Some(vec![5, 0])));
    assert_eq!(cache.update(&vec![(0, 5)], true), Ok(None));
    assert_eq!(cache.visible_state(), vec![5, 0]);
}

#[test]
fn same_command_twice_is_idempotent() {
    let mut cache = FeatureCache::<u32>::new(3);
    let command = vec![(2, 9), (0, 4)];
    assert_eq!(cache.update(&command, true), Ok(Some(vec![4, 0, 9])));
    assert_eq!(cache.update(&command, true), Ok(None));
    assert_eq!(cache.update(&command, false), Ok(None));
}

#[test]
fn partial_update_never_resets_other_features() {
    let mut cache = FeatureCache::<u32>::new(2);
    assert_eq!(cache.update(&vec![(0, 5), (1, 7)], true), Ok(Some(vec![5, 7])));
    assert_eq!(cache.update(&vec![(0, 6)], true), Ok(Some(vec![6, 7])));
    assert_eq!(cache.update(&vec![(0, 6)], false), Ok(Some(vec![6, 0])));
}

#[test]
fn stop_zeroes_everything_and_reports_only_a_real_change() {
    let mut cache = FeatureCache::<u32>::new(2);
    assert_eq!(cache.update(&vec![], false), Ok(None));
    assert_eq!(cache.update(&vec![(1, 3)], true), Ok(Some(vec![0, 3])));
    assert_eq!(cache.update(&vec![], false), Ok(Some(vec![0, 0])));
    assert_eq!(cache.update(&vec![], false), Ok(None));
}

#[test]
fn zero_on_a_fresh_feature_is_not_a_visible_change() {
    let mut cache = FeatureCache::<u32>::new(1);
    assert_eq!(cache.update(&vec![(0, 0)], true), Ok(None));
    assert_eq!(cache.cached(0), None);
}

#[test]
fn later_entry_for_the_same_feature_wins() {
    let mut cache = FeatureCache::<u32>::new(1);
    assert_eq!(cache.update(&vec![(0, 1), (0, 2)], true), Ok(Some(vec![2])));
}

#[test]
fn index_out_of_range_is_refused_and_cache_stays() {
    let mut cache = FeatureCache::<u32>::new(2);
    assert_eq!(
        cache.update(&vec![(0, 5), (2, 1), (7, 1)], true),
        Err(ButtplugClientError::DeviceFeatureIndexError(2, 2))
    );
    assert_eq!(cache.cached(0), None);
    assert_eq!(cache.visible_state(), vec![0, 0]);
}

#[test]
fn manager_keeps_categories_apart() {
    let mut manager = CommandStateManager::new(2, 1, 1);
    assert_eq!(manager.update_vibration(&vec![(1, 30)], true), Ok(Some(vec![0, 30])));
    assert_eq!(
        manager.update_rotation(&vec![(0, (40, true))], true),
        Ok(Some(vec![(40, true)]))
    );
    assert_eq!(
        manager.update_rotation(&vec![(0, (40, false))], true),
        Ok(Some(vec![(40, false)]))
    );
    assert_eq!(
        manager.update_linear(&vec![(0, (500, 20))], true),
        Ok(Some(vec![(500, 20)]))
    );
    assert_eq!(manager.update_linear(&vec![(0, (500, 20))], true), Ok(None));
    assert_eq!(manager.vibration.visible_state(), vec![0, 30]);
    assert_eq!(manager.update_rotation(&vec![], false), Ok(Some(vec![(0, false)])));
}
