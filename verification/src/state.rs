//! Cached feature state: the last value sent to each feature of one
//! command category, and the merge that decides whether a new command
//! changes anything the device can see.

use vstd::prelude::*;
use crate::error::ButtplugClientError;

verus! {

/// A value that a feature can be set to. Each kind of value has a neutral
/// one, which a feature shows before any command and after a stop.
pub trait FeatureValue: Sized {
    /// The neutral value.
    spec fn neutral_spec() -> Self;

    /// The neutral value.
    fn neutral() -> (v: Self)
        ensures
            v == Self::neutral_spec(),
    ;

    /// Whether two values are the same.
    fn same(self, other: Self) -> (b: bool)
        ensures
            b == (self == other),
    ;
}

/// A speed: neutral is standstill.
impl FeatureValue for u32 {
    open spec fn neutral_spec() -> Self {
        0
    }

    fn neutral() -> (v: Self) {
        0
    }

    fn same(self, other: Self) -> (b: bool) {
        self == other
    }
}

/// A speed and a direction: neutral is standstill, counterclockwise.
impl FeatureValue for (u32, bool) {
    open spec fn neutral_spec() -> Self {
        (0, false)
    }

    fn neutral() -> (v: Self) {
        (0, false)
    }

    fn same(self, other: Self) -> (b: bool) {
        self.0 == other.0 && self.1 == other.1
    }
}

/// A duration and a position: neutral is no time, home position.
impl FeatureValue for (u32, u32) {
    open spec fn neutral_spec() -> Self {
        (0, 0)
    }

    fn neutral() -> (v: Self) {
        (0, 0)
    }

    fn same(self, other: Self) -> (b: bool) {
        self.0 == other.0 && self.1 == other.1
    }
}

/// What the device shows for a cache: a feature never commanded shows the
/// neutral value.
pub open spec fn visible<V: FeatureValue>(cache: Seq<Option<V>>) -> Seq<V> {
    Seq::new(
        cache.len(),
        |i: int|
            match cache[i] {
                Some(v) => v,
                None => V::neutral_spec(),
            },
    )
}

/// Every feature at the neutral value.
pub open spec fn all_neutral<V: FeatureValue>(count: nat) -> Seq<V> {
    Seq::new(count, |i: int| V::neutral_spec())
}

/// Every entry of the sequence names a feature below `count`.
pub open spec fn in_range<V>(subcommands: Seq<(u32, V)>, count: nat) -> bool {
    forall|k: int| 0 <= k < subcommands.len() ==> (#[trigger] subcommands[k]).0 < count
}

/// `base` with the subcommands written over it in order, so that of two
/// entries for one feature the later one stays. An entry for a feature that
/// `base` does not have writes nothing.
pub open spec fn overwrite<V>(base: Seq<V>, subcommands: Seq<(u32, V)>) -> Seq<V>
    decreases subcommands.len(),
{
    if subcommands.len() == 0 {
        base
    } else {
        let last = subcommands.last();
        let below = overwrite(base, subcommands.drop_last());
        if last.0 < below.len() {
            below.update(last.0 as int, last.1)
        } else {
            below
        }
    }
}

/// The full state that a command asks for. A partial command starts from
/// what the device shows; any other starts from neutral, so that every
/// feature it does not name is reset.
pub open spec fn merged<V: FeatureValue>(
    cache: Seq<Option<V>>,
    subcommands: Seq<(u32, V)>,
    is_partial: bool,
) -> Seq<V> {
    let base = if is_partial {
        visible(cache)
    } else {
        all_neutral(cache.len())
    };
    overwrite(base, subcommands)
}

/// What an update reports: the merged state where it differs from what
/// the device shows, nothing where it does not.
pub open spec fn update_result<V: FeatureValue>(
    cache: Seq<Option<V>>,
    subcommands: Seq<(u32, V)>,
    is_partial: bool,
) -> Option<Seq<V>> {
    let m = merged(cache, subcommands, is_partial);
    if m == visible(cache) {
        None
    } else {
        Some(m)
    }
}

/// The cache after an update: replaced by the merged state where that
/// differs from what the device shows, untouched where it does not.
pub open spec fn cache_after<V: FeatureValue>(
    cache: Seq<Option<V>>,
    subcommands: Seq<(u32, V)>,
    is_partial: bool,
) -> Seq<Option<V>> {
    let m = merged(cache, subcommands, is_partial);
    if m == visible(cache) {
        cache
    } else {
        Seq::new(m.len(), |i: int| Some(m[i]))
    }
}

/// An update refuses a command with this error: the feature count, and the
/// index of the first entry that names a feature the device does not have.
pub open spec fn refuses<V>(count: nat, subcommands: Seq<(u32, V)>, e: ButtplugClientError) -> bool {
    e matches ButtplugClientError::DeviceFeatureIndexError(reported, index) && reported == count
        && exists|k: int|
        0 <= k < subcommands.len() && (#[trigger] subcommands[k]).0 == index && index >= count
            && in_range(subcommands.take(k), count)
}

/// What an update returns and leaves behind. A command with an index out
/// of range is refused and the cache stays. Any other is merged: the
/// merged state is reported, and stored, exactly where it differs from
/// what the device shows.
pub open spec fn update_outcome<V: FeatureValue>(
    before: Seq<Option<V>>,
    after: Seq<Option<V>>,
    subcommands: Seq<(u32, V)>,
    is_partial: bool,
    r: Result<Option<Vec<V>>, ButtplugClientError>,
) -> bool {
    match r {
        Ok(reported) => {
            &&& in_range(subcommands, before.len())
            &&& after == cache_after(before, subcommands, is_partial)
            &&& match reported {
                Some(state) => update_result(before, subcommands, is_partial) == Some(state@),
                None => update_result(before, subcommands, is_partial) is None,
            }
        },
        Err(e) => after == before && refuses(before.len(), subcommands, e),
    }
}

/// Writing subcommands over a base keeps its length; a feature that some
/// entry names ends with the value of the last entry that names it, and
/// every other feature keeps the value of the base.
pub proof fn lemma_overwrite<V>(base: Seq<V>, subcommands: Seq<(u32, V)>)
    ensures
        overwrite(base, subcommands).len() == base.len(),
        forall|i: int|
            0 <= i < base.len() && (forall|k: int|
                0 <= k < subcommands.len() ==> (#[trigger] subcommands[k]).0 != i)
                ==> #[trigger] overwrite(base, subcommands)[i] == base[i],
        forall|i: int, k: int|
            0 <= i < base.len() && 0 <= k < subcommands.len() && (#[trigger] subcommands[k]).0 == i
                && (forall|j: int| k < j < subcommands.len() ==> (#[trigger] subcommands[j]).0 != i)
                ==> #[trigger] overwrite(base, subcommands)[i] == subcommands[k].1,
    decreases subcommands.len(),
{
    if subcommands.len() > 0 {
        let front = subcommands.drop_last();
        lemma_overwrite(base, front);
        assert forall|i: int|
            0 <= i < base.len() && (forall|k: int|
                0 <= k < subcommands.len() ==> (#[trigger] subcommands[k]).0 != i)
                implies #[trigger] overwrite(base, subcommands)[i] == base[i] by {
            assert(subcommands[subcommands.len() - 1].0 != i);
            assert forall|k: int| 0 <= k < front.len() implies (#[trigger] front[k]).0 != i by {
                assert(subcommands[k].0 != i);
            }
        }
        assert forall|i: int, k: int|
            0 <= i < base.len() && 0 <= k < subcommands.len() && (#[trigger] subcommands[k]).0 == i
                && (forall|j: int|
                k < j < subcommands.len() ==> (#[trigger] subcommands[j]).0
                    != i) implies #[trigger] overwrite(base, subcommands)[i]
            == subcommands[k].1 by {
            if k < subcommands.len() - 1 {
                assert(subcommands[subcommands.len() - 1].0 != i);
                assert(front[k].0 == i);
                assert forall|j: int| k < j < front.len() implies (#[trigger] front[j]).0 != i by {
                    assert(subcommands[j].0 != i);
                }
            }
        }
    }
}

/// Writing the same subcommands a second time changes nothing.
pub proof fn lemma_overwrite_twice<V>(base: Seq<V>, subcommands: Seq<(u32, V)>)
    ensures
        overwrite(overwrite(base, subcommands), subcommands) == overwrite(base, subcommands),
{
    let once = overwrite(base, subcommands);
    let twice = overwrite(once, subcommands);
    lemma_overwrite(base, subcommands);
    lemma_overwrite(once, subcommands);
    assert forall|i: int| 0 <= i < once.len() implies twice[i] == once[i] by {
        lemma_last_entry(subcommands, i);
    }
    assert(twice =~= once);
}

/// For each feature, either no entry names it or one entry is the last
/// that does.
proof fn lemma_last_entry<V>(subcommands: Seq<(u32, V)>, i: int)
    ensures
        (forall|k: int| 0 <= k < subcommands.len() ==> (#[trigger] subcommands[k]).0 != i)
            || (exists|k: int|
            0 <= k < subcommands.len() && (#[trigger] subcommands[k]).0 == i && (forall|j: int|
                k < j < subcommands.len() ==> (#[trigger] subcommands[j]).0 != i)),
    decreases subcommands.len(),
{
    if subcommands.len() > 0 {
        let front = subcommands.drop_last();
        let end = subcommands.len() - 1;
        if subcommands[end].0 == i {
            assert(subcommands[end].0 == i && (forall|j: int|
                end < j < subcommands.len() ==> (#[trigger] subcommands[j]).0 != i));
        } else {
            lemma_last_entry(front, i);
            if forall|k: int| 0 <= k < front.len() ==> (#[trigger] front[k]).0 != i {
                assert forall|k: int| 0 <= k < subcommands.len() implies (
                #[trigger] subcommands[k]).0 != i by {
                    if k < end {
                        assert(front[k].0 != i);
                    }
                }
            } else {
                let k = choose|k: int|
                    0 <= k < front.len() && (#[trigger] front[k]).0 == i && (forall|j: int|
                        k < j < front.len() ==> (#[trigger] front[j]).0 != i);
                assert(subcommands[k].0 == i);
                assert forall|j: int| k < j < subcommands.len() implies (
                #[trigger] subcommands[j]).0 != i by {
                    if j < end {
                        assert(front[j].0 != i);
                    }
                }
            }
        }
    }
}

/// Idempotence: the same command issued a second time, right after the
/// first, reports no update and leaves the cache as the first left it.
pub proof fn lemma_update_idempotent<V: FeatureValue>(
    cache: Seq<Option<V>>,
    subcommands: Seq<(u32, V)>,
    is_partial: bool,
)
    ensures
        update_result(cache_after(cache, subcommands, is_partial), subcommands, is_partial)
            is None,
        cache_after(cache_after(cache, subcommands, is_partial), subcommands, is_partial)
            == cache_after(cache, subcommands, is_partial),
{
    let m = merged(cache, subcommands, is_partial);
    let after = cache_after(cache, subcommands, is_partial);
    if is_partial {
        lemma_overwrite(visible(cache), subcommands);
    } else {
        lemma_overwrite(all_neutral::<V>(cache.len()), subcommands);
    }
    if m != visible(cache) {
        assert(visible(after) =~= m);
        assert(all_neutral::<V>(after.len()) =~= all_neutral::<V>(cache.len()));
        if is_partial {
            lemma_overwrite_twice(visible(cache), subcommands);
        }
    }
}

/// A partial update never resets: a feature that no entry names keeps the
/// value the device shows for it.
pub proof fn lemma_partial_update_keeps_unnamed<V: FeatureValue>(
    cache: Seq<Option<V>>,
    subcommands: Seq<(u32, V)>,
    i: int,
)
    requires
        0 <= i < cache.len(),
        forall|k: int| 0 <= k < subcommands.len() ==> (#[trigger] subcommands[k]).0 != i,
    ensures
        merged(cache, subcommands, true)[i] == visible(cache)[i],
        merged(cache, subcommands, false)[i] == V::neutral_spec(),
{
    lemma_overwrite(visible(cache), subcommands);
    lemma_overwrite(all_neutral::<V>(cache.len()), subcommands);
}

/// Stop: a command that is not partial and names no feature asks for
/// every feature at neutral. It reports that state exactly when some
/// feature shows anything else.
pub proof fn lemma_stop<V: FeatureValue>(cache: Seq<Option<V>>)
    ensures
        merged(cache, Seq::<(u32, V)>::empty(), false) == all_neutral::<V>(cache.len()),
        update_result(cache, Seq::<(u32, V)>::empty(), false) == (if exists|i: int|
            0 <= i < cache.len() && #[trigger] visible(cache)[i] != V::neutral_spec() {
            Some(all_neutral::<V>(cache.len()))
        } else {
            None
        }),
{
    let zero = all_neutral::<V>(cache.len());
    if exists|i: int| 0 <= i < cache.len() && #[trigger] visible(cache)[i] != V::neutral_spec() {
        let i = choose|i: int|
            0 <= i < cache.len() && #[trigger] visible(cache)[i] != V::neutral_spec();
        assert(zero[i] == V::neutral_spec());
        assert(zero != visible(cache));
    } else {
        assert(zero =~= visible(cache));
    }
}

/// The cached state of one command category of one device.
pub struct FeatureCache<V> {
    slots: Vec<Option<V>>,
}

impl<V: FeatureValue> View for FeatureCache<V> {
    type V = Seq<Option<V>>;

    closed spec fn view(&self) -> Seq<Option<V>> {
        self.slots@
    }
}

impl<V: FeatureValue + Copy> FeatureCache<V> {
    /// A cache for `feature_count` features, none of them commanded yet.
    pub fn new(feature_count: u32) -> (cache: Self)
        ensures
            cache@ == Seq::new(feature_count as nat, |i: int| None::<V>),
    {
        let mut slots: Vec<Option<V>> = Vec::new();
        let mut i: u32 = 0;
        while i < feature_count
            invariant
                i <= feature_count,
                slots@ == Seq::new(i as nat, |i: int| None::<V>),
            decreases feature_count - i,
        {
            slots.push(None);
            i = i + 1;
            assert(slots@ =~= Seq::new(i as nat, |i: int| None::<V>));
        }
        FeatureCache { slots }
    }

    /// The number of features.
    pub fn feature_count(&self) -> (count: usize)
        ensures
            count == self@.len(),
    {
        self.slots.len()
    }

    /// The last value sent to feature `index`; nothing before any command
    /// has changed the device, or where there is no such feature.
    pub fn cached(&self, index: usize) -> (value: Option<V>)
        ensures
            value == (if index < self@.len() {
                self@[index as int]
            } else {
                None
            }),
    {
        if index < self.slots.len() {
            self.slots[index]
        } else {
            None
        }
    }

    /// What the device shows, feature by feature.
    pub fn visible_state(&self) -> (state: Vec<V>)
        ensures
            state@ == visible(self@),
    {
        let mut state: Vec<V> = Vec::new();
        let mut i: usize = 0;
        while i < self.slots.len()
            invariant
                i <= self.slots.len(),
                state@ == visible(self.slots@.take(i as int)),
            decreases self.slots.len() - i,
        {
            let value = match self.slots[i] {
                Some(v) => v,
                None => V::neutral(),
            };
            state.push(value);
            i = i + 1;
            assert(state@ =~= visible(self.slots@.take(i as int)));
        }
        assert(self.slots@.take(i as int) =~= self.slots@);
        state
    }

    /// Applies a command to the cache.
    ///
    /// An entry for a feature the device does not have is refused, with
    /// the first such index, and the cache stays as it was. Otherwise the
    /// merged state is computed; where it equals what the device shows,
    /// nothing is reported and the cache stays; where it differs, the
    /// cache is replaced by it and it is reported in full.
    pub fn update(&mut self, subcommands: &Vec<(u32, V)>, is_partial: bool) -> (r: Result<
        Option<Vec<V>>,
        ButtplugClientError,
    >)
        ensures
            update_outcome(old(self)@, final(self)@, subcommands@, is_partial, r),
    {
        let count = self.slots.len();
        let shown = self.visible_state();
        let mut state: Vec<V> = if is_partial {
            self.visible_state()
        } else {
            Self::neutral_state(count)
        };
        let ghost base = state@;
        let mut k: usize = 0;
        while k < subcommands.len()
            invariant
                k <= subcommands.len(),
                state@.len() == count,
                state@ == overwrite(base, subcommands@.take(k as int)),
                in_range(subcommands@.take(k as int), count as nat),
                count == self.slots@.len(),
                *self == *old(self),
            decreases subcommands.len() - k,
        {
            let (index, value) = subcommands[k];
            if index as usize >= count {
                return Err(ButtplugClientError::DeviceFeatureIndexError(count as u32, index));
            }
            state.set(index as usize, value);
            k = k + 1;
            assert(subcommands@.take(k as int).drop_last() =~= subcommands@.take(k - 1));
        }
        assert(subcommands@.take(k as int) =~= subcommands@);
        let mut changed = false;
        let mut i: usize = 0;
        assert(state@.take(0) =~= shown@.take(0));
        while i < count
            invariant
                i <= count,
                state@.len() == count,
                shown@.len() == count,
                changed == (state@.take(i as int) != shown@.take(i as int)),
            decreases count - i,
        {
            if !state[i].same(shown[i]) {
                changed = true;
            }
            i = i + 1;
            proof {
                let a = state@.take(i as int);
                let b = shown@.take(i as int);
                if a == b {
                    assert(state@.take(i - 1) =~= a.drop_last());
                    assert(shown@.take(i - 1) =~= b.drop_last());
                    assert(a[i - 1] == b[i - 1]);
                } else if state@[i - 1] == shown@[i - 1] {
                    assert(state@.take(i - 1) != shown@.take(i - 1)) by {
                        if state@.take(i - 1) == shown@.take(i - 1) {
                            assert(a =~= state@.take(i - 1).push(state@[i - 1]));
                            assert(b =~= shown@.take(i - 1).push(shown@[i - 1]));
                        }
                    }
                } else {
                    assert(a[i - 1] != b[i - 1]);
                }
            }
        }
        assert(state@.take(i as int) =~= state@);
        assert(shown@.take(i as int) =~= shown@);
        if changed {
            let mut i: usize = 0;
            while i < count
                invariant
                    i <= count,
                    state@.len() == count,
                    self.slots@.len() == count,
                    forall|j: int| 0 <= j < i ==> self.slots@[j] == Some(state@[j]),
                decreases count - i,
            {
                self.slots.set(i, Some(state[i]));
                i = i + 1;
            }
            assert(self.slots@ =~= Seq::new(state@.len(), |i: int| Some(state@[i])));
            Ok(Some(state))
        } else {
            Ok(None)
        }
    }

    /// A state of `count` features, each at neutral.
    fn neutral_state(count: usize) -> (state: Vec<V>)
        ensures
            state@ == all_neutral::<V>(count as nat),
    {
        let mut state: Vec<V> = Vec::new();
        let mut i: usize = 0;
        while i < count
            invariant
                i <= count,
                state@ == all_neutral::<V>(i as nat),
            decreases count - i,
        {
            state.push(V::neutral());
            i = i + 1;
            assert(state@ =~= all_neutral::<V>(i as nat));
        }
        state
    }
}

/// The cached state of one device: one cache for each command category
/// that has features.
pub struct CommandStateManager {
    /// Speeds of the vibration features.
    pub vibration: FeatureCache<u32>,
    /// Speeds and directions of the rotation features.
    pub rotation: FeatureCache<(u32, bool)>,
    /// Durations and positions of the linear features.
    pub linear: FeatureCache<(u32, u32)>,
}

impl CommandStateManager {
    /// The state of a device with these feature counts, before any
    /// command.
    pub fn new(vibration_count: u32, rotation_count: u32, linear_count: u32) -> (manager: Self)
        ensures
            manager.vibration@ == Seq::new(vibration_count as nat, |i: int| None::<u32>),
            manager.rotation@ == Seq::new(rotation_count as nat, |i: int| None::<(u32, bool)>),
            manager.linear@ == Seq::new(linear_count as nat, |i: int| None::<(u32, u32)>),
    {
        CommandStateManager {
            vibration: FeatureCache::new(vibration_count),
            rotation: FeatureCache::new(rotation_count),
            linear: FeatureCache::new(linear_count),
        }
    }

    /// Applies a vibration command; the other categories stay.
    pub fn update_vibration(&mut self, speeds: &Vec<(u32, u32)>, is_partial: bool) -> (r: Result<
        Option<Vec<u32>>,
        ButtplugClientError,
    >)
        ensures
            update_outcome(old(self).vibration@, final(self).vibration@, speeds@, is_partial, r),
            final(self).rotation == old(self).rotation,
            final(self).linear == old(self).linear,
    {
        self.vibration.update(speeds, is_partial)
    }

    /// Applies a rotation command; the other categories stay.
    pub fn update_rotation(
        &mut self,
        rotations: &Vec<(u32, (u32, bool))>,
        is_partial: bool,
    ) -> (r: Result<Option<Vec<(u32, bool)>>, ButtplugClientError>)
        ensures
            update_outcome(old(self).rotation@, final(self).rotation@, rotations@, is_partial, r),
            final(self).vibration == old(self).vibration,
            final(self).linear == old(self).linear,
    {
        self.rotation.update(rotations, is_partial)
    }

    /// Applies a linear command; the other categories stay.
    pub fn update_linear(&mut self, vectors: &Vec<(u32, (u32, u32))>, is_partial: bool) -> (r:
        Result<Option<Vec<(u32, u32)>>, ButtplugClientError>)
        ensures
            update_outcome(old(self).linear@, final(self).linear@, vectors@, is_partial, r),
            final(self).vibration == old(self).vibration,
            final(self).rotation == old(self).rotation,
    {
        self.linear.update(vectors, is_partial)
    }
}

} // verus!
