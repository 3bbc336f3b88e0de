use buttplug::command::{
    expand_list, expand_map, expand_uniform, LinearCommand, RotateCommand, VibrateCommand,
};
use buttplug::error::ButtplugClientError;
use std::collections::HashMap;

#[test]
fn uniform_gives_one_entry_per_feature() {
    assert_eq!(expand_uniform(3, 40u32), vec![(0, 40), (1, 40), (2, 40)]);
}

#[test]
fn uniform_on_no_features_is_empty_not_an_error() {
    assert_eq!(expand_uniform(0, 40u32), Vec::<(u32, u32)>::new());
    assert_eq!(VibrateCommand::Speed(40).expand(0), Ok(vec![]));
}

#[test]
fn list_keeps_positions() {
    assert_eq!(expand_list(3, &vec![10u32, 20]), Ok(vec![(0, 10), (1, 20)]));
    assert_eq!(expand_list(2, &vec![10u32, 20]), Ok(vec![(0, 10), (1, 20)]));
    assert_eq!(expand_list(2, &Vec::<u32>::new()), Ok(vec![]));
}

#[test]
fn list_longer_than_feature_count_is_refused() {
    assert_eq!(
        expand_list(2, &vec![1u32, 2, 3]),
        Err(ButtplugClientError::DeviceFeatureCountMismatch(2, 3))
    );
    assert_eq!(
        expand_list(0, &vec![1u32]),
        Err(ButtplugClientError::DeviceFeatureCountMismatch(0, 1))
    );
}

#[test]
fn map_comes_out_by_ascending_index() {
    let mut map = HashMap::new();
    map.insert(3u32, 30u32);
    map.insert(0, 5);
    map.insert(2, 20);
    assert_eq!(expand_map(4, &map), Ok(vec![(0, 5), (2, 20), (3, 30)]));
}

#[test]
fn map_may_name_a_strict_subset() {
    let mut map = HashMap::new();
    map.insert(1u32, 77u32);
    assert_eq!(expand_map(2, &map), Ok(vec![(1, 77)]));
    assert_eq!(expand_map(2, &HashMap::<u32, u32>::new()), Ok(vec![]));
}

#[test]
fn map_with_index_out_of_range_is_refused() {
    let mut map = HashMap::new();
    map.insert(0u32, 1u32);
    map.insert(2, 9);
    assert_eq!(
        expand_map(2, &map),
        Err(ButtplugClientError::DeviceFeatureIndexError(2, 2))
    );
}

#[test]
fn map_with_too_many_entries_is_refused_before_indices_are_read() {
    let mut map = HashMap::new();
    map.insert(0u32, 1u32);
    map.insert(1, 2);
    map.insert(9, 3);
    assert_eq!(
        expand_map(2, &map),
        Err(ButtplugClientError::DeviceFeatureCountMismatch(2, 3))
    );
    let mut one = HashMap::new();
    one.insert(0u32, 1u32);
    assert_eq!(
        expand_map(0, &one),
        Err(ButtplugClientError::DeviceFeatureCountMismatch(0, 1))
    );
}

#[test]
fn vibrate_command_shapes() {
    assert_eq!(VibrateCommand::Speed(50).expand(2), Ok(vec![(0, 50), (1, 50)]));
    assert_eq!(VibrateCommand::SpeedVec(vec![10, 90]).expand(2), Ok(vec![(0, 10), (1, 90)]));
    let mut map = HashMap::new();
    map.insert(1u32, 25u32);
    assert_eq!(VibrateCommand::SpeedMap(map).expand(2), Ok(vec![(1, 25)]));
    assert_eq!(
        VibrateCommand::SpeedVec(vec![1, 2, 3]).expand(2),
        Err(ButtplugClientError::DeviceFeatureCountMismatch(2, 3))
    );
}

#[test]
fn rotate_command_shapes() {
    assert_eq!(
        RotateCommand::Rotate(50, true).expand(2),
        Ok(vec![(0, (50, true)), (1, (50, true))])
    );
    assert_eq!(
        RotateCommand::RotateVec(vec![(10, false)]).expand(2),
        Ok(vec![(0, (10, false))])
    );
    let mut map = HashMap::new();
    map.insert(5u32, (25u32, true));
    assert_eq!(
        RotateCommand::RotateMap(map).expand(2),
        Err(ButtplugClientError::DeviceFeatureIndexError(2, 5))
    );
}

#[test]
fn linear_command_shapes() {
    assert_eq!(
        LinearCommand::Linear(500, 50).expand(1),
        Ok(vec![(0, (500, 50))])
    );
    assert_eq!(
        LinearCommand::LinearVec(vec![(100, 10), (200, 20)]).expand(1),
        Err(ButtplugClientError::DeviceFeatureCountMismatch(1, 2))
    );
    let mut map = HashMap::new();
    map.insert(1u32, (300u32, 30u32));
    map.insert(0u32, (100u32, 10u32));
    assert_eq!(
        LinearCommand::LinearMap(map).expand(2),
        Ok(vec![(0, (100, 10)), (1, (300, 30))])
    );
}
