//! Which channels of which chips are muted or panned: the multichip
//! counterpart of the OPL [`Muting`](crate::engine::Muting) /
//! [`Panning`](crate::engine::Panning) pair.
//!
//! Bit `i` and pan entry `i` mean the chip's channel `i`. State is keyed per
//! chip *instance*, because a dual-chip file has two of the same kind and a
//! user mutes one of them, not the kind.
//!
//! Each table is a list of entries with at most one entry per instance; its
//! view is the map from instance to value that the list describes.

use crate::chip::ChipKind;
use vstd::prelude::*;

verus! {

/// The centre pan position: positions run `-0x100 ..= 0x100` for full left
/// through full right.
pub const PAN_CENTER: i16 = 0;

/// The hard-left pan position.
pub const PAN_LEFT: i16 = -0x100;

/// The hard-right pan position.
pub const PAN_RIGHT: i16 = 0x100;

/// The map a list of `(key, value)` pairs describes, the first pair for a key
/// winning.
pub open spec fn first_wins<K, V>(s: Seq<(K, V)>) -> Map<K, V>
    decreases s.len(),
{
    if s.len() == 0 {
        Map::empty()
    } else {
        let m = first_wins(s.drop_last());
        if m.contains_key(s.last().0) {
            m
        } else {
            m.insert(s.last().0, s.last().1)
        }
    }
}

/// No key occurs twice in the list.
pub open spec fn keys_unique<K, V>(s: Seq<(K, V)>) -> bool {
    forall|i: int, j: int| 0 <= i < s.len() && 0 <= j < s.len() && i != j ==> s[i].0 != s[j].0
}

/// A key the map has comes from some pair of the list.
proof fn lemma_first_wins_key<K, V>(s: Seq<(K, V)>, k: K)
    requires
        first_wins(s).contains_key(k),
    ensures
        exists|i: int| 0 <= i < s.len() && s[i].0 == k,
    decreases s.len(),
{
    if s.len() > 0 {
        let m = first_wins(s.drop_last());
        if m.contains_key(k) {
            lemma_first_wins_key(s.drop_last(), k);
            let i = choose|i: int| 0 <= i < s.drop_last().len() && s.drop_last()[i].0 == k;
            assert(s[i].0 == k);
        } else {
            assert(s[s.len() - 1].0 == k);
        }
    }
}

/// With no key twice, every pair of the list is in the map as it is.
proof fn lemma_first_wins_at<K, V>(s: Seq<(K, V)>, i: int)
    requires
        keys_unique(s),
        0 <= i < s.len(),
    ensures
        first_wins(s).contains_key(s[i].0),
        first_wins(s)[s[i].0] == s[i].1,
    decreases s.len(),
{
    let d = s.drop_last();
    assert(keys_unique(d));
    if i == s.len() - 1 {
        if first_wins(d).contains_key(s[i].0) {
            lemma_first_wins_key(d, s[i].0);
            let j = choose|j: int| 0 <= j < d.len() && d[j].0 == s[i].0;
            assert(s[j].0 == s[i].0);
        }
    } else {
        lemma_first_wins_at(d, i);
        assert(d[i] == s[i]);
    }
}

/// Replacing the value of the pair at `i`, keys unchanged, replaces that key's
/// value in the map.
proof fn lemma_first_wins_update<K, V>(s: Seq<(K, V)>, i: int, v: V)
    requires
        keys_unique(s),
        0 <= i < s.len(),
    ensures
        keys_unique(s.update(i, (s[i].0, v))),
        first_wins(s.update(i, (s[i].0, v))) =~= first_wins(s).insert(s[i].0, v),
{
    let t = s.update(i, (s[i].0, v));
    let k = s[i].0;
    assert(keys_unique(t));
    lemma_first_wins_at(t, i);
    assert forall|key: K| #[trigger] first_wins(t).contains_key(key) implies first_wins(
        s,
    ).insert(k, v).contains_key(key) && first_wins(t)[key] == first_wins(s).insert(k, v)[key] by {
        lemma_first_wins_key(t, key);
        let j = choose|j: int| 0 <= j < t.len() && t[j].0 == key;
        lemma_first_wins_at(t, j);
        lemma_first_wins_at(s, j);
    }
    assert forall|key: K| #[trigger] first_wins(s).insert(k, v).contains_key(key) implies first_wins(
        t,
    ).contains_key(key) by {
        if key != k {
            lemma_first_wins_key(s, key);
            let j = choose|j: int| 0 <= j < s.len() && s[j].0 == key;
            lemma_first_wins_at(t, j);
        }
    }
}

/// Appending a pair whose key the list lacks adds exactly that key.
proof fn lemma_first_wins_push<K, V>(s: Seq<(K, V)>, k: K, v: V)
    requires
        keys_unique(s),
        forall|i: int| 0 <= i < s.len() ==> s[i].0 != k,
    ensures
        keys_unique(s.push((k, v))),
        first_wins(s.push((k, v))) == first_wins(s).insert(k, v),
{
    let t = s.push((k, v));
    assert(t.drop_last() =~= s);
    if first_wins(s).contains_key(k) {
        lemma_first_wins_key(s, k);
    }
}

/// The map is empty exactly when the list is.
proof fn lemma_first_wins_empty<K, V>(s: Seq<(K, V)>)
    ensures
        first_wins(s).dom().is_empty() <==> s.len() == 0,
    decreases s.len(),
{
    if s.len() > 0 {
        let m = first_wins(s.drop_last());
        if m.contains_key(s.last().0) {
            lemma_first_wins_empty(s.drop_last());
        } else {
            assert(first_wins(s).contains_key(s.last().0));
        }
    }
}

/// One chip instance's mute mask: bit `i` set means channel `i` is muted.
#[derive(Debug, Clone, Copy, PartialEq, Eq, Structural)]
pub struct ChipMuteEntry {
    pub kind: ChipKind,
    pub instance: u8,
    pub muted: u32,
}

/// Every chip instance's channel mutes. Absent means nothing muted.
#[derive(Debug, PartialEq, Eq)]
pub struct ChipMuting {
    entries: Vec<ChipMuteEntry>,
}

/// The entries as `(instance, mask)` pairs.
pub open spec fn mute_pairs(entries: Seq<ChipMuteEntry>) -> Seq<((ChipKind, u8), u32)> {
    entries.map_values(|e: ChipMuteEntry| ((e.kind, e.instance), e.muted))
}

impl View for ChipMuting {
    type V = Map<(ChipKind, u8), u32>;

    /// Each instance that has a mask, with its mask.
    closed spec fn view(&self) -> Map<(ChipKind, u8), u32> {
        first_wins(mute_pairs(self.entries@))
    }
}

impl ChipMuting {
    #[verifier::type_invariant]
    spec fn one_entry_per_instance(self) -> bool {
        keys_unique(mute_pairs(self.entries@))
    }

    /// No instance has a mask.
    pub fn new() -> (m: Self)
        ensures
            m@ == Map::<(ChipKind, u8), u32>::empty(),
    {
        let m = ChipMuting { entries: Vec::new() };
        assert(mute_pairs(m.entries@) =~= Seq::empty());
        m
    }

    /// The index of the instance's entry, if it has one.
    fn position(&self, kind: ChipKind, instance: u8) -> (r: Option<usize>)
        ensures
            match r {
                Some(i) => i < self.entries@.len() && self.entries@[i as int].kind == kind
                    && self.entries@[i as int].instance == instance,
                None => forall|i: int|
                    0 <= i < self.entries@.len() ==> !(self.entries@[i].kind == kind
                        && self.entries@[i].instance == instance),
            },
    {
        let mut i: usize = 0;
        while i < self.entries.len()
            invariant
                i <= self.entries@.len(),
                forall|j: int|
                    0 <= j < i ==> !(self.entries@[j].kind == kind && self.entries@[j].instance
                        == instance),
            decreases self.entries@.len() - i,
        {
            if self.entries[i].kind == kind && self.entries[i].instance == instance {
                return Some(i);
            }
            i = i + 1;
        }
        None
    }

    /// Sets the mask for one chip instance, replacing whatever it had.
    pub fn set(&mut self, kind: ChipKind, instance: u8, muted: u32)
        ensures
            final(self)@ == old(self)@.insert((kind, instance), muted),
    {
        proof {
            use_type_invariant(&*self);
        }
        let ghost pairs = mute_pairs(self.entries@);
        let entry = ChipMuteEntry { kind, instance, muted };
        match self.position(kind, instance) {
            Some(i) => {
                proof {
                    lemma_first_wins_update(pairs, i as int, muted);
                    assert(mute_pairs(self.entries@.update(i as int, entry)) =~= pairs.update(
                        i as int,
                        ((kind, instance), muted),
                    ));
                }
                let mut entries = Vec::new();
                std::mem::swap(&mut entries, &mut self.entries);
                entries.set(i, entry);
                self.entries = entries;
            },
            None => {
                proof {
                    lemma_first_wins_push(pairs, (kind, instance), muted);
                    assert(mute_pairs(self.entries@.push(entry)) =~= pairs.push(
                        ((kind, instance), muted),
                    ));
                }
                let mut entries = Vec::new();
                std::mem::swap(&mut entries, &mut self.entries);
                entries.push(entry);
                self.entries = entries;
            },
        }
    }

    /// The mask for one chip instance. Zero -- nothing muted -- when unset.
    pub fn mask_for(&self, kind: ChipKind, instance: u8) -> (m: u32)
        ensures
            m == (if self@.contains_key((kind, instance)) {
                self@[(kind, instance)]
            } else {
                0
            }),
    {
        proof {
            use_type_invariant(self);
        }
        let ghost pairs = mute_pairs(self.entries@);
        match self.position(kind, instance) {
            Some(i) => {
                proof {
                    lemma_first_wins_at(pairs, i as int);
                }
                self.entries[i].muted
            },
            None => {
                proof {
                    if first_wins(pairs).contains_key((kind, instance)) {
                        lemma_first_wins_key(pairs, (kind, instance));
                    }
                }
                0
            },
        }
    }

    /// Whether every mask is zero -- the state a fresh panel is in, and the
    /// one the render path can skip applying.
    pub fn is_neutral(&self) -> (r: bool)
        ensures
            r <==> forall|k: (ChipKind, u8)| #[trigger] self@.contains_key(k) ==> self@[k] == 0,
    {
        proof {
            use_type_invariant(self);
        }
        let ghost pairs = mute_pairs(self.entries@);
        let mut i: usize = 0;
        while i < self.entries.len()
            invariant
                i <= self.entries@.len(),
                pairs == mute_pairs(self.entries@),
                keys_unique(pairs),
                forall|j: int| 0 <= j < i ==> self.entries@[j].muted == 0,
            decreases self.entries@.len() - i,
        {
            if self.entries[i].muted != 0 {
                proof {
                    lemma_first_wins_at(pairs, i as int);
                    let k = pairs[i as int].0;
                    assert(pairs[i as int].1 == self.entries@[i as int].muted);
                    assert(self@ == first_wins(pairs));
                    assert(self@.contains_key(k) && self@[k] != 0);
                }
                return false;
            }
            i = i + 1;
        }
        proof {
            assert forall|k: (ChipKind, u8)| #[trigger] first_wins(pairs).contains_key(
                k,
            ) implies first_wins(pairs)[k] == 0 by {
                lemma_first_wins_key(pairs, k);
                let j = choose|j: int| 0 <= j < pairs.len() && pairs[j].0 == k;
                lemma_first_wins_at(pairs, j);
            }
        }
        true
    }
}

impl Clone for ChipMuting {
    fn clone(&self) -> (c: Self)
        ensures
            c@ == self@,
    {
        proof {
            use_type_invariant(self);
        }
        let mut entries: Vec<ChipMuteEntry> = Vec::new();
        let mut i: usize = 0;
        while i < self.entries.len()
            invariant
                i <= self.entries@.len(),
                entries@ == self.entries@.subrange(0, i as int),
            decreases self.entries@.len() - i,
        {
            entries.push(self.entries[i]);
            i = i + 1;
        }
        assert(entries@ =~= self.entries@);
        ChipMuting { entries }
    }
}

impl Default for ChipMuting {
    fn default() -> (m: Self)
        ensures
            m@ == Map::<(ChipKind, u8), u32>::empty(),
    {
        Self::new()
    }
}

/// One chip instance's pan positions, entry `i` for channel `i`.
#[derive(Debug, Clone, PartialEq, Eq)]
pub struct ChipPanEntry {
    pub kind: ChipKind,
    pub instance: u8,
    pub pans: Vec<i16>,
}

/// Every chip instance's channel pans. Absent means the chip's own image.
#[derive(Debug, PartialEq, Eq)]
pub struct ChipPanning {
    entries: Vec<ChipPanEntry>,
}

/// The entries as `(instance, pans)` pairs.
pub open spec fn pan_pairs(entries: Seq<ChipPanEntry>) -> Seq<((ChipKind, u8), Seq<i16>)> {
    entries.map_values(|e: ChipPanEntry| ((e.kind, e.instance), e.pans@))
}

impl View for ChipPanning {
    type V = Map<(ChipKind, u8), Seq<i16>>;

    /// Each instance that has a pan image, with its image.
    closed spec fn view(&self) -> Map<(ChipKind, u8), Seq<i16>> {
        first_wins(pan_pairs(self.entries@))
    }
}

impl ChipPanning {
    #[verifier::type_invariant]
    spec fn one_entry_per_instance(self) -> bool {
        keys_unique(pan_pairs(self.entries@))
    }

    /// No instance has a pan image.
    pub fn new() -> (p: Self)
        ensures
            p@ == Map::<(ChipKind, u8), Seq<i16>>::empty(),
    {
        let p = ChipPanning { entries: Vec::new() };
        assert(pan_pairs(p.entries@) =~= Seq::empty());
        p
    }

    /// The index of the instance's entry, if it has one.
    fn position(&self, kind: ChipKind, instance: u8) -> (r: Option<usize>)
        ensures
            match r {
                Some(i) => i < self.entries@.len() && self.entries@[i as int].kind == kind
                    && self.entries@[i as int].instance == instance,
                None => forall|i: int|
                    0 <= i < self.entries@.len() ==> !(self.entries@[i].kind == kind
                        && self.entries@[i].instance == instance),
            },
    {
        let mut i: usize = 0;
        while i < self.entries.len()
            invariant
                i <= self.entries@.len(),
                forall|j: int|
                    0 <= j < i ==> !(self.entries@[j].kind == kind && self.entries@[j].instance
                        == instance),
            decreases self.entries@.len() - i,
        {
            if self.entries[i].kind == kind && self.entries[i].instance == instance {
                return Some(i);
            }
            i = i + 1;
        }
        None
    }

    /// Sets the pan array for one chip instance, replacing whatever it had.
    pub fn set(&mut self, kind: ChipKind, instance: u8, pans: Vec<i16>)
        ensures
            final(self)@ == old(self)@.insert((kind, instance), pans@),
    {
        proof {
            use_type_invariant(&*self);
        }
        let ghost pairs = pan_pairs(self.entries@);
        let ghost image = pans@;
        let entry = ChipPanEntry { kind, instance, pans };
        match self.position(kind, instance) {
            Some(i) => {
                proof {
                    lemma_first_wins_update(pairs, i as int, image);
                    assert(pan_pairs(self.entries@.update(i as int, entry)) =~= pairs.update(
                        i as int,
                        ((kind, instance), image),
                    ));
                }
                let mut entries = Vec::new();
                std::mem::swap(&mut entries, &mut self.entries);
                entries.set(i, entry);
                self.entries = entries;
            },
            None => {
                proof {
                    lemma_first_wins_push(pairs, (kind, instance), image);
                    assert(pan_pairs(self.entries@.push(entry)) =~= pairs.push(
                        ((kind, instance), image),
                    ));
                }
                let mut entries = Vec::new();
                std::mem::swap(&mut entries, &mut self.entries);
                entries.push(entry);
                self.entries = entries;
            },
        }
    }

    /// The pan array for one chip instance, or `None` for "leave the chip's
    /// own image alone".
    pub fn pans_for(&self, kind: ChipKind, instance: u8) -> (r: Option<&[i16]>)
        ensures
            match r {
                Some(p) => self@.contains_key((kind, instance)) && p@ == self@[(kind, instance)],
                None => !self@.contains_key((kind, instance)),
            },
    {
        proof {
            use_type_invariant(self);
        }
        let ghost pairs = pan_pairs(self.entries@);
        match self.position(kind, instance) {
            Some(i) => {
                proof {
                    lemma_first_wins_at(pairs, i as int);
                }
                Some(self.entries[i].pans.as_slice())
            },
            None => {
                proof {
                    if first_wins(pairs).contains_key((kind, instance)) {
                        lemma_first_wins_key(pairs, (kind, instance));
                    }
                }
                None
            },
        }
    }

    /// Whether no chip has a pan image set.
    pub fn is_neutral(&self) -> (r: bool)
        ensures
            r <==> self@.dom().is_empty(),
    {
        proof {
            lemma_first_wins_empty(pan_pairs(self.entries@));
        }
        self.entries.len() == 0
    }
}

impl Clone for ChipPanning {
    fn clone(&self) -> (c: Self)
        ensures
            c@ == self@,
    {
        proof {
            use_type_invariant(self);
        }
        let mut entries: Vec<ChipPanEntry> = Vec::new();
        let mut i: usize = 0;
        while i < self.entries.len()
            invariant
                i <= self.entries@.len(),
                entries@.len() == i,
                forall|j: int|
                    0 <= j < i ==> {
                        &&& #[trigger] entries@[j].kind == self.entries@[j].kind
                        &&& entries@[j].instance == self.entries@[j].instance
                        &&& entries@[j].pans@ == self.entries@[j].pans@
                    },
            decreases self.entries@.len() - i,
        {
            let e = &self.entries[i];
            let mut pans: Vec<i16> = Vec::new();
            let mut j: usize = 0;
            while j < e.pans.len()
                invariant
                    j <= e.pans@.len(),
                    pans@ == e.pans@.subrange(0, j as int),
                decreases e.pans@.len() - j,
            {
                pans.push(e.pans[j]);
                j = j + 1;
            }
            assert(pans@ =~= e.pans@);
            entries.push(ChipPanEntry { kind: e.kind, instance: e.instance, pans });
            i = i + 1;
        }
        assert(pan_pairs(entries@) =~= pan_pairs(self.entries@));
        ChipPanning { entries }
    }
}

impl Default for ChipPanning {
    fn default() -> (p: Self)
        ensures
            p@ == Map::<(ChipKind, u8), Seq<i16>>::empty(),
    {
        Self::new()
    }
}

} // verus!
