//! Expansion of convenience commands into canonical subcommand sequences.
//!
//! A canonical sequence is a list of `(feature_index, value)` pairs whose
//! indices ascend strictly. Values are whatever the category carries: a
//! speed, a speed with a direction, a duration with a position.

use vstd::prelude::*;
use std::collections::HashMap;
use vstd::std_specs::iter::IteratorSpec;
use crate::error::ButtplugClientError;

verus! {

/// One value for every feature: indices `0..count`, each with `value`.
pub open spec fn uniform_expansion<V>(count: nat, value: V) -> Seq<(u32, V)> {
    Seq::new(count, |i: int| (i as u32, value))
}

/// Positional values: entry `i` addresses feature `i`.
pub open spec fn list_expansion<V>(values: Seq<V>) -> Seq<(u32, V)> {
    Seq::new(values.len(), |i: int| (i as u32, values[i]))
}

/// The entries of `map` whose index is below `count`, by ascending index.
pub open spec fn sparse_expansion<V>(map: Map<u32, V>, count: nat) -> Seq<(u32, V)>
    decreases count,
{
    if count == 0 {
        Seq::empty()
    } else {
        let below = sparse_expansion(map, (count - 1) as nat);
        let index = (count - 1) as u32;
        if map.contains_key(index) {
            below.push((index, map[index]))
        } else {
            below
        }
    }
}

/// Feature indices ascend strictly along the sequence.
pub open spec fn is_canonical<V>(seq: Seq<(u32, V)>) -> bool {
    forall|i: int, j: int| 0 <= i < j < seq.len() ==> seq[i].0 < seq[j].0
}

/// Expands a uniform command: one entry per feature, all with `value`.
pub fn expand_uniform<V: Copy>(feature_count: u32, value: V) -> (out: Vec<(u32, V)>)
    ensures
        out@ == uniform_expansion(feature_count as nat, value),
{
    let mut out: Vec<(u32, V)> = Vec::new();
    let mut i: u32 = 0;
    while i < feature_count
        invariant
            i <= feature_count,
            out@ == uniform_expansion(i as nat, value),
        decreases feature_count - i,
    {
        out.push((i, value));
        i = i + 1;
        assert(out@ =~= uniform_expansion(i as nat, value));
    }
    out
}

/// Expands a positional list. A list longer than the feature count is
/// refused; a shorter one addresses the leading features only.
pub fn expand_list<V: Copy>(feature_count: u32, values: &Vec<V>) -> (r: Result<
    Vec<(u32, V)>,
    ButtplugClientError,
>)
    ensures
        list_outcome(feature_count, values@, r),
{
    if values.len() > feature_count as usize {
        return Err(ButtplugClientError::DeviceFeatureCountMismatch(feature_count, values.len()));
    }
    let mut out: Vec<(u32, V)> = Vec::new();
    let mut i: u32 = 0;
    while (i as usize) < values.len()
        invariant
            i <= values.len() <= feature_count,
            out@ == list_expansion(values@.take(i as int)),
        decreases values.len() - i,
    {
        out.push((i, values[i as usize]));
        i = i + 1;
        assert(out@ =~= list_expansion(values@.take(i as int)));
    }
    assert(values@.take(i as int) =~= values@);
    Ok(out)
}

/// Looks at every index of `map` once: hands back one that is not below
/// `feature_count` if there is any, and else a bound, itself no greater
/// than `feature_count`, that every index is below.
fn scan_indices<V>(feature_count: u32, map: &HashMap<u32, V>) -> (r: Result<u32, u32>)
    ensures
        match r {
            Ok(bound) => bound <= feature_count && forall|k: u32|
                map@.contains_key(k) ==> k < bound,
            Err(index) => map@.contains_key(index) && index >= feature_count,
        },
{
    broadcast use vstd::std_specs::hash::group_hash_axioms;
    let keys = map.keys();
    assert(keys.remaining().unref().to_set() == map@.dom());
    let mut bound: u32 = 0;
    for k in it: keys
        invariant
            it.seq().unref().to_set() == map@.dom(),
            bound <= feature_count,
            forall|i: int| 0 <= i < it.index() ==> *it.seq()[i] < bound,
    {
        if *k >= feature_count {
            assert(it.seq().unref()[it.index()] == *k);
            assert(it.seq().unref().to_set().contains(*k));
            return Err(*k);
        }
        if *k >= bound {
            bound = *k + 1;
        }
    }
    Ok(bound)
}

/// Above a bound that every index of the map is below, the expansion has
/// nothing more to add.
proof fn lemma_sparse_expansion_above<V>(map: Map<u32, V>, bound: nat, count: nat)
    requires
        bound <= count <= u32::MAX,
        forall|k: u32| map.contains_key(k) ==> k < bound,
    ensures
        sparse_expansion(map, count) == sparse_expansion(map, bound),
    decreases count,
{
    if count > bound {
        lemma_sparse_expansion_above(map, bound, (count - 1) as nat);
    }
}

/// What expanding a positional list must return.
pub open spec fn list_outcome<V>(
    feature_count: u32,
    values: Seq<V>,
    r: Result<Vec<(u32, V)>, ButtplugClientError>,
) -> bool {
    match r {
        Ok(out) => values.len() <= feature_count && out@ == list_expansion(values),
        Err(e) => values.len() > feature_count && e
            == ButtplugClientError::DeviceFeatureCountMismatch(
            feature_count,
            values.len() as usize,
        ),
    }
}

/// What expanding a sparse map must return. Too many entries are reported
/// before any index is looked at; which of several indices out of range is
/// reported is left open.
pub open spec fn sparse_outcome<V>(
    feature_count: u32,
    map: Map<u32, V>,
    r: Result<Vec<(u32, V)>, ButtplugClientError>,
) -> bool {
    match r {
        Ok(out) => {
            &&& map.dom().len() <= feature_count
            &&& forall|k: u32| map.contains_key(k) ==> k < feature_count
            &&& out@ == sparse_expansion(map, feature_count as nat)
        },
        Err(ButtplugClientError::DeviceFeatureCountMismatch(count, given)) => {
            &&& count == feature_count
            &&& given == map.dom().len()
            &&& given > feature_count
        },
        Err(ButtplugClientError::DeviceFeatureIndexError(count, index)) => {
            &&& count == feature_count
            &&& map.dom().len() <= feature_count
            &&& map.contains_key(index)
            &&& index >= feature_count
        },
        Err(_) => false,
    }
}

/// Expands a sparse map into its entries by ascending index. A map with
/// more entries than the device has features, or with an index that is not
/// below the feature count, is refused.
pub fn expand_map<V: Copy>(feature_count: u32, map: &HashMap<u32, V>) -> (r: Result<
    Vec<(u32, V)>,
    ButtplugClientError,
>)
    ensures
        sparse_outcome(feature_count, map@, r),
{
    broadcast use vstd::std_specs::hash::group_hash_axioms;
    if map.len() > feature_count as usize {
        return Err(ButtplugClientError::DeviceFeatureCountMismatch(feature_count, map.len()));
    }
    let bound = match scan_indices(feature_count, map) {
        Ok(bound) => bound,
        Err(index) => {
            return Err(ButtplugClientError::DeviceFeatureIndexError(feature_count, index));
        },
    };
    let mut out: Vec<(u32, V)> = Vec::new();
    let mut i: u32 = 0;
    while i < bound
        invariant
            i <= bound,
            out@ == sparse_expansion(map@, i as nat),
        decreases bound - i,
    {
        if let Some(value) = map.get(&i) {
            out.push((i, *value));
        }
        i = i + 1;
    }
    proof {
        lemma_sparse_expansion_above(map@, bound as nat, feature_count as nat);
    }
    Ok(out)
}

/// A uniform expansion has one entry per feature, each with the given
/// value, at indices `0..count` in ascending order.
pub proof fn lemma_uniform_expansion<V>(count: u32, value: V)
    ensures
        uniform_expansion(count as nat, value).len() == count,
        forall|i: int|
            0 <= i < count ==> #[trigger] uniform_expansion(count as nat, value)[i] == (
                i as u32,
                value,
            ),
        is_canonical(uniform_expansion(count as nat, value)),
{
}

/// A list expansion is as long as the list, keeps each value at its
/// position, and ascends.
pub proof fn lemma_list_expansion<V>(values: Seq<V>)
    requires
        values.len() <= u32::MAX,
    ensures
        list_expansion(values).len() == values.len(),
        forall|i: int|
            0 <= i < values.len() ==> #[trigger] list_expansion(values)[i] == (i as u32, values[i]),
        is_canonical(list_expansion(values)),
{
}

/// A sparse expansion ascends strictly; each of its entries is an entry of
/// the map with an index below the count, value preserved; and each index
/// of the map below the count occurs in it.
pub proof fn lemma_sparse_expansion<V>(map: Map<u32, V>, count: nat)
    requires
        count <= u32::MAX,
    ensures
        is_canonical(sparse_expansion(map, count)),
        forall|j: int|
            0 <= j < sparse_expansion(map, count).len() ==> {
                let entry = #[trigger] sparse_expansion(map, count)[j];
                entry.0 < count && map.contains_key(entry.0) && entry.1 == map[entry.0]
            },
        forall|k: u32|
            k < count && map.contains_key(k) ==> exists|j: int|
                0 <= j < sparse_expansion(map, count).len() && (#[trigger] sparse_expansion(
                    map,
                    count,
                )[j]).0 == k,
    decreases count,
{
    if count > 0 {
        let below = sparse_expansion(map, (count - 1) as nat);
        let here = sparse_expansion(map, count);
        let index = (count - 1) as u32;
        lemma_sparse_expansion(map, (count - 1) as nat);
        assert forall|k: u32| k < count && map.contains_key(k) implies exists|j: int|
            0 <= j < here.len() && (#[trigger] here[j]).0 == k by {
            if k == index {
                assert(here[here.len() - 1].0 == k);
            } else {
                let j = choose|j: int| 0 <= j < below.len() && (#[trigger] below[j]).0 == k;
                assert(here[j].0 == k);
            }
        }
    }
}

/// The indices of `map` below `count`.
pub open spec fn indices_below<V>(map: Map<u32, V>, count: nat) -> Set<u32> {
    map.dom().filter(|k: u32| k < count)
}

/// A sparse expansion has one entry for each index of the map below the
/// count; where every index is below it, one for each entry of the map.
pub proof fn lemma_sparse_expansion_len<V>(map: Map<u32, V>, count: nat)
    requires
        count <= u32::MAX,
        map.dom().finite(),
    ensures
        indices_below(map, count).finite(),
        sparse_expansion(map, count).len() == indices_below(map, count).len(),
        sparse_expansion(map, count).len() <= count,
        (forall|k: u32| map.contains_key(k) ==> k < count) ==> sparse_expansion(map, count).len()
            == map.dom().len(),
    decreases count,
{
    let all = indices_below(map, count);
    vstd::set_lib::lemma_len_subset(all, map.dom());
    if count == 0 {
        assert(all =~= Set::empty());
    } else {
        let index = (count - 1) as u32;
        let fewer = indices_below(map, (count - 1) as nat);
        lemma_sparse_expansion_len(map, (count - 1) as nat);
        if map.contains_key(index) {
            assert(all =~= fewer.insert(index));
        } else {
            assert(all =~= fewer);
        }
    }
    if forall|k: u32| map.contains_key(k) ==> k < count {
        assert(all =~= map.dom());
    }
}

/// A sparse map with an index that is not below the feature count is
/// refused for such an index, unless it is refused before for having more
/// entries than the device has features.
pub proof fn lemma_sparse_out_of_range_is_refused<V>(
    feature_count: u32,
    map: Map<u32, V>,
    r: Result<Vec<(u32, V)>, ButtplugClientError>,
    k: u32,
)
    requires
        sparse_outcome(feature_count, map, r),
        map.dom().len() <= feature_count,
        map.contains_key(k),
        k >= feature_count,
    ensures
        r matches Err(ButtplugClientError::DeviceFeatureIndexError(count, index)) && count
            == feature_count && map.contains_key(index) && index >= feature_count,
{
}

/// A sparse map whose indices are all below the feature count expands: the
/// result has one entry for each entry of the map, by ascending index, with
/// the map's value for each.
pub proof fn lemma_sparse_in_range_expands<V>(
    feature_count: u32,
    map: Map<u32, V>,
    r: Result<Vec<(u32, V)>, ButtplugClientError>,
)
    requires
        sparse_outcome(feature_count, map, r),
        map.dom().finite(),
        forall|k: u32| map.contains_key(k) ==> k < feature_count,
    ensures
        r matches Ok(out) && out@.len() == map.dom().len() && is_canonical(out@) && (forall|j: int|
            0 <= j < out@.len() ==> map.contains_key((#[trigger] out@[j]).0) && out@[j].1 == map[out@[j].0])
            && (forall|k: u32|
            map.contains_key(k) ==> exists|j: int| 0 <= j < out@.len() && (#[trigger] out@[j]).0 == k),
{
    lemma_sparse_expansion(map, feature_count as nat);
    lemma_sparse_expansion_len(map, feature_count as nat);
}

/// Speeds for the vibration features of a device, in whole percent of
/// full speed.
pub enum VibrateCommand {
    /// The same speed for every vibration feature.
    Speed(u32),
    /// Speeds by position: entry `i` is for feature `i`.
    SpeedVec(Vec<u32>),
    /// Speeds for the features named by index; the others keep theirs.
    SpeedMap(HashMap<u32, u32>),
}

/// Speeds and directions for the rotation features of a device: percent
/// of full speed, and `true` for clockwise.
pub enum RotateCommand {
    /// The same speed and direction for every rotation feature.
    Rotate(u32, bool),
    /// Speed and direction by position.
    RotateVec(Vec<(u32, bool)>),
    /// Speed and direction for the features named by index.
    RotateMap(HashMap<u32, (u32, bool)>),
}

/// Movements for the linear features of a device: a duration in
/// milliseconds and a target position in percent of full travel.
pub enum LinearCommand {
    /// The same movement for every linear feature.
    Linear(u32, u32),
    /// Movements by position.
    LinearVec(Vec<(u32, u32)>),
    /// Movements for the features named by index.
    LinearMap(HashMap<u32, (u32, u32)>),
}

impl VibrateCommand {
    /// What `expand` must return for this command on a device with
    /// `feature_count` vibration features.
    pub open spec fn expands_to(
        self,
        feature_count: u32,
        r: Result<Vec<(u32, u32)>, ButtplugClientError>,
    ) -> bool {
        match self {
            VibrateCommand::Speed(speed) => r matches Ok(out) && out@ == uniform_expansion(
                feature_count as nat,
                speed,
            ),
            VibrateCommand::SpeedVec(speeds) => list_outcome(feature_count, speeds@, r),
            VibrateCommand::SpeedMap(speeds) => sparse_outcome(feature_count, speeds@, r),
        }
    }

    /// The canonical subcommand sequence of this command.
    pub fn expand(&self, feature_count: u32) -> (r: Result<Vec<(u32, u32)>, ButtplugClientError>)
        ensures
            self.expands_to(feature_count, r),
            r matches Ok(out) ==> is_canonical(out@),
    {
        let r = match self {
            VibrateCommand::Speed(speed) => Ok(expand_uniform(feature_count, *speed)),
            VibrateCommand::SpeedVec(speeds) => expand_list(feature_count, speeds),
            VibrateCommand::SpeedMap(speeds) => expand_map(feature_count, speeds),
        };
        proof {
            if let VibrateCommand::SpeedMap(speeds) = self {
                lemma_sparse_expansion(speeds@, feature_count as nat);
            }
        }
        r
    }
}

impl RotateCommand {
    /// What `expand` must return for this command on a device with
    /// `feature_count` rotation features.
    pub open spec fn expands_to(
        self,
        feature_count: u32,
        r: Result<Vec<(u32, (u32, bool))>, ButtplugClientError>,
    ) -> bool {
        match self {
            RotateCommand::Rotate(speed, clockwise) => r matches Ok(out) && out@
                == uniform_expansion(feature_count as nat, (speed, clockwise)),
            RotateCommand::RotateVec(turns) => list_outcome(feature_count, turns@, r),
            RotateCommand::RotateMap(turns) => sparse_outcome(feature_count, turns@, r),
        }
    }

    /// The canonical subcommand sequence of this command.
    pub fn expand(&self, feature_count: u32) -> (r: Result<
        Vec<(u32, (u32, bool))>,
        ButtplugClientError,
    >)
        ensures
            self.expands_to(feature_count, r),
            r matches Ok(out) ==> is_canonical(out@),
    {
        let r = match self {
            RotateCommand::Rotate(speed, clockwise) => Ok(
                expand_uniform(feature_count, (*speed, *clockwise)),
            ),
            RotateCommand::RotateVec(turns) => expand_list(feature_count, turns),
            RotateCommand::RotateMap(turns) => expand_map(feature_count, turns),
        };
        proof {
            if let RotateCommand::RotateMap(turns) = self {
                lemma_sparse_expansion(turns@, feature_count as nat);
            }
        }
        r
    }
}

impl LinearCommand {
    /// What `expand` must return for this command on a device with
    /// `feature_count` linear features.
    pub open spec fn expands_to(
        self,
        feature_count: u32,
        r: Result<Vec<(u32, (u32, u32))>, ButtplugClientError>,
    ) -> bool {
        match self {
            LinearCommand::Linear(duration, position) => r matches Ok(out) && out@
                == uniform_expansion(feature_count as nat, (duration, position)),
            LinearCommand::LinearVec(moves) => list_outcome(feature_count, moves@, r),
            LinearCommand::LinearMap(moves) => sparse_outcome(feature_count, moves@, r),
        }
    }

    /// The canonical subcommand sequence of this command.
    pub fn expand(&self, feature_count: u32) -> (r: Result<
        Vec<(u32, (u32, u32))>,
        ButtplugClientError,
    >)
        ensures
            self.expands_to(feature_count, r),
            r matches Ok(out) ==> is_canonical(out@),
    {
        let r = match self {
            LinearCommand::Linear(duration, position) => Ok(
                expand_uniform(feature_count, (*duration, *position)),
            ),
            LinearCommand::LinearVec(moves) => expand_list(feature_count, moves),
            LinearCommand::LinearMap(moves) => expand_map(feature_count, moves),
        };
        proof {
            if let LinearCommand::LinearMap(moves) = self {
                lemma_sparse_expansion(moves@, feature_count as nat);
            }
        }
        r
    }
}

} // verus!
