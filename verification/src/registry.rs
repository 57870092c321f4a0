//! Which core plays which chip -- as data, not as a `match`.
//!
//! A registry of [`CoreInfo`] rows: how many cores a chip has, what they are
//! called, what they cost in license terms, and which one the user asked for.
//!
//! **Priority is registration order**, with one named escape hatch. The first
//! core registered for a chip is its default, and [`CoreRegistry::promote`]
//! moves one chip's row to the front of that chip's rows without touching any
//! other chip's order.
//!
//! A row carries how its core is made ([`CoreMaker`]), but this module never
//! makes one: the makers are the application's values, and the registry only
//! chooses between rows. The makers' types are the registry's parameters.

use crate::bits::lemma_i64_shr8;
use crate::chip::ChipKind;
use vstd::prelude::*;

verus! {

/// How a registered core is brought into being.
pub enum CoreMaker<G, O> {
    /// A generic chip core, driven by the multichip engine.
    Generic(G),
    /// An OPL core, driven by the OPL engine at a given sample rate.
    Opl(O),
    /// Listed so it can be chosen, but not constructed here: the application
    /// knows what its id means (a hardware output, say).
    Routed,
}

/// One core, for one chip.
pub struct CoreInfo<G, O> {
    /// Stable identifier, `"<chip slug>.<core>"`, e.g. `"opl3.nuked"`.
    pub id: &'static str,
    /// The chip this row serves.
    pub chip: ChipKind,
    /// What the settings row calls it.
    pub label: &'static str,
    /// Who wrote it.
    pub authors: &'static str,
    /// SPDX expression.
    pub license: &'static str,
    /// Where the source lives; empty for a core with no upstream.
    pub upstream: &'static str,
    /// Whether it can keep up with playback.
    pub realtime: bool,
    /// Whether this core can place individual channels in the stereo image.
    pub channel_pan: bool,
    /// This core's output calibration, in 8.8 fixed point ([`LEVEL_UNITY`] =
    /// 1.0). Applied to every sample it renders.
    pub level: u16,
    /// How to build it, or why it is not built here.
    pub make: CoreMaker<G, O>,
}

/// Unity in the 8.8 fixed point [`CoreInfo::level`] uses: no correction.
pub const LEVEL_UNITY: u16 = 0x0100;

/// The chips one OPL selector governs.
pub const OPL_CHIPS: [ChipKind; 4] = [
    ChipKind::Ymf262,
    ChipKind::Ym3812,
    ChipKind::Ym3526,
    ChipKind::Y8950,
];

/// The id of the built-in emulated OPL core.
pub const NUKED_OPL_ID: &'static str = "opl3.nuked";

/// The config slug the OPL family shares, rather than one key per OPL chip.
pub const OPL_SLOT_SLUG: &'static str = "opl3";

/// The built-in row for one OPL chip: the emulated Nuked-OPL3 core, made by
/// `make`.
pub open spec fn nuked_row<G, O>(chip: ChipKind, make: O) -> CoreInfo<G, O> {
    CoreInfo {
        id: NUKED_OPL_ID,
        chip,
        label: NUKED_OPL_LABEL,
        authors: NUKED_OPL_AUTHORS,
        license: NUKED_OPL_LICENSE,
        upstream: NUKED_OPL_UPSTREAM,
        realtime: true,
        channel_pan: true,
        level: LEVEL_UNITY,
        make: CoreMaker::Opl(make),
    }
}

/// The settings label of the built-in OPL core.
pub const NUKED_OPL_LABEL: &'static str = "Nuked OPL3 (emulated)";

/// The authors of the built-in OPL core.
pub const NUKED_OPL_AUTHORS: &'static str = "Nuke.YKT; Rust port by the nuked-opl3 crate authors";

/// The license of the built-in OPL core.
pub const NUKED_OPL_LICENSE: &'static str = "LGPL-2.1-or-later";

/// Where the built-in OPL core's source lives.
pub const NUKED_OPL_UPSTREAM: &'static str = "https://github.com/nukeykt/Nuked-OPL3";

impl<G, O> CoreInfo<G, O> {
    /// The maker of a generic core: what building this row runs, or `None`
    /// when the row is an OPL core or a routed one.
    pub fn generic_maker(&self) -> (m: Option<&G>)
        ensures
            match self.make {
                CoreMaker::Generic(g) => m == Some(&g),
                _ => m is None,
            },
    {
        match &self.make {
            CoreMaker::Generic(g) => Some(g),
            _ => None,
        }
    }

    /// The maker of an OPL core, or `None` when the row is not one.
    pub fn opl_maker(&self) -> (m: Option<&O>)
        ensures
            match self.make {
                CoreMaker::Opl(o) => m == Some(&o),
                _ => m is None,
            },
    {
        match &self.make {
            CoreMaker::Opl(o) => Some(o),
            _ => None,
        }
    }
}

/// Rows serving `chip`.
pub open spec fn serves<G, O>(chip: ChipKind) -> spec_fn(CoreInfo<G, O>) -> bool {
    |info: CoreInfo<G, O>| info.chip == chip
}

/// The row serving `chip` under the id `id`.
pub open spec fn named<G, O>(chip: ChipKind, id: Seq<char>) -> spec_fn(CoreInfo<G, O>) -> bool {
    |info: CoreInfo<G, O>| info.chip == chip && info.id@ == id
}

/// Rows serving `chip` that build a generic core.
pub open spec fn buildable<G, O>(chip: ChipKind) -> spec_fn(CoreInfo<G, O>) -> bool {
    |info: CoreInfo<G, O>| info.chip == chip && info.make is Generic
}

/// Rows serving `chip` that build a generic core able to keep up with playback.
pub open spec fn live_buildable<G, O>(chip: ChipKind) -> spec_fn(CoreInfo<G, O>) -> bool {
    |info: CoreInfo<G, O>| info.chip == chip && info.realtime && info.make is Generic
}

/// The index of the first row at or after `from` satisfying `p`.
pub open spec fn first_where<G, O>(
    rows: Seq<CoreInfo<G, O>>,
    p: spec_fn(CoreInfo<G, O>) -> bool,
    from: int,
) -> Option<int>
    decreases rows.len() - from,
{
    if from < 0 || from >= rows.len() {
        None
    } else if p(rows[from]) {
        Some(from)
    } else {
        first_where(rows, p, from + 1)
    }
}

/// The row an index names.
pub open spec fn row_at<G, O>(rows: Seq<CoreInfo<G, O>>, i: Option<int>) -> Option<CoreInfo<G, O>> {
    match i {
        Some(i) => Some(rows[i]),
        None => None,
    }
}

/// The row a reference names.
pub open spec fn deref_row<G, O>(r: Option<&CoreInfo<G, O>>) -> Option<CoreInfo<G, O>> {
    match r {
        Some(x) => Some(*x),
        None => None,
    }
}

/// The first row satisfying `p`.
pub open spec fn first_row<G, O>(
    rows: Seq<CoreInfo<G, O>>,
    p: spec_fn(CoreInfo<G, O>) -> bool,
) -> Option<CoreInfo<G, O>> {
    row_at(rows, first_where(rows, p, 0))
}

/// The row used for `chip` when the configuration names `id`: that row if
/// it exists, else the chip's default.
pub open spec fn resolved<G, O>(
    rows: Seq<CoreInfo<G, O>>,
    chip: ChipKind,
    id: Option<Seq<char>>,
) -> Option<CoreInfo<G, O>> {
    match id {
        Some(id) => if first_row(rows, named(chip, id)) is Some {
            first_row(rows, named(chip, id))
        } else {
            first_row(rows, serves(chip))
        },
        None => first_row(rows, serves(chip)),
    }
}

/// The full id a configured short name stands for: `"<slot>.<name>"`.
pub open spec fn choice_id(chip: ChipKind, choice: Option<&str>) -> Option<Seq<char>> {
    match choice {
        Some(c) => Some(slot_slug_of(chip)@ + seq!['.'] + c@),
        None => None,
    }
}

/// The row used for `chip` when the configuration names `choice`, through
/// [`resolved`].
pub open spec fn resolved_choice<G, O>(
    rows: Seq<CoreInfo<G, O>>,
    chip: ChipKind,
    choice: Option<&str>,
) -> Option<CoreInfo<G, O>> {
    resolved(rows, chip, choice_id(chip, choice))
}

/// As [`resolved_choice`], but a row that cannot keep up with playback gives
/// way to the chip's first real-time generic row.
pub open spec fn resolved_live<G, O>(
    rows: Seq<CoreInfo<G, O>>,
    chip: ChipKind,
    choice: Option<&str>,
) -> Option<CoreInfo<G, O>> {
    match resolved_choice(rows, chip, choice) {
        Some(info) => if info.realtime {
            Some(info)
        } else {
            first_row(rows, live_buildable(chip))
        },
        None => None,
    }
}

/// The rows after moving the row at `from` to index `to`.
pub open spec fn moved<G, O>(rows: Seq<CoreInfo<G, O>>, from: int, to: int) -> Seq<CoreInfo<G, O>> {
    rows.remove(from).insert(to, rows[from])
}

/// A search from `from` agrees with one from the next index, when the row
/// at `from` fails the predicate.
proof fn lemma_first_where_skip<G, O>(
    rows: Seq<CoreInfo<G, O>>,
    p: spec_fn(CoreInfo<G, O>) -> bool,
    from: int,
)
    requires
        0 <= from < rows.len(),
        !p(rows[from]),
    ensures
        first_where(rows, p, from) == first_where(rows, p, from + 1),
{
}

/// What a search finds: the first satisfying index at or after `from`.
proof fn lemma_first_where_found<G, O>(
    rows: Seq<CoreInfo<G, O>>,
    p: spec_fn(CoreInfo<G, O>) -> bool,
    from: int,
)
    requires
        0 <= from,
    ensures
        match first_where(rows, p, from) {
            Some(i) => from <= i < rows.len() && p(rows[i]) && forall|j: int|
                from <= j < i ==> !p(#[trigger] rows[j]),
            None => forall|j: int| from <= j < rows.len() ==> !p(#[trigger] rows[j]),
        },
    decreases rows.len() - from,
{
    if from < rows.len() && !p(rows[from]) {
        lemma_first_where_found(rows, p, from + 1);
    }
}

/// A search is decided by the first satisfying index: one that satisfies and
/// has none before it is what the search finds.
proof fn lemma_first_where_is<G, O>(
    rows: Seq<CoreInfo<G, O>>,
    p: spec_fn(CoreInfo<G, O>) -> bool,
    i: int,
)
    requires
        0 <= i < rows.len(),
        p(rows[i]),
        forall|j: int| 0 <= j < i ==> !p(#[trigger] rows[j]),
    ensures
        first_where(rows, p, 0) == Some(i),
{
    lemma_first_where_found(rows, p, 0);
}

/// No row satisfies: the search finds nothing.
proof fn lemma_first_where_none<G, O>(rows: Seq<CoreInfo<G, O>>, p: spec_fn(CoreInfo<G, O>) -> bool)
    requires
        forall|j: int| 0 <= j < rows.len() ==> !p(#[trigger] rows[j]),
    ensures
        first_where(rows, p, 0) is None,
{
    lemma_first_where_found(rows, p, 0);
}

/// Registration order is priority order: registering a core leaves a chip
/// that already had a default with the same default, and makes the new core
/// the default of a chip that had none.
pub proof fn lemma_registration_order_is_priority<G, O>(
    rows: Seq<CoreInfo<G, O>>,
    info: CoreInfo<G, O>,
    chip: ChipKind,
)
    ensures
        first_row(rows.push(info), serves(chip)) == (if first_row(rows, serves(chip)) is Some {
            first_row(rows, serves(chip))
        } else if info.chip == chip {
            Some(info)
        } else {
            None
        }),
{
    let p = serves::<G, O>(chip);
    let t = rows.push(info);
    lemma_first_where_found(rows, p, 0);
    match first_where(rows, p, 0) {
        Some(i) => {
            assert forall|j: int| 0 <= j < i implies !p(#[trigger] t[j]) by {
                assert(t[j] == rows[j]);
            }
            lemma_first_where_is(t, p, i);
        },
        None => {
            if info.chip == chip {
                assert forall|j: int| 0 <= j < rows.len() implies !p(#[trigger] t[j]) by {
                    assert(t[j] == rows[j]);
                }
                lemma_first_where_is(t, p, rows.len() as int);
            } else {
                assert forall|j: int| 0 <= j < t.len() implies !p(#[trigger] t[j]) by {
                    if j < rows.len() {
                        assert(t[j] == rows[j]);
                    }
                }
                lemma_first_where_none(t, p);
            }
        },
    }
}

/// The pieces the moved rows are made of.
proof fn lemma_moved_pieces<G, O>(rows: Seq<CoreInfo<G, O>>, from: int, to: int)
    requires
        0 <= to <= from < rows.len(),
    ensures
        moved(rows, from, to) =~= rows.subrange(0, to) + seq![rows[from]] + rows.subrange(to, from)
            + rows.subrange(from + 1, rows.len() as int),
        rows =~= rows.subrange(0, to) + rows.subrange(to, from) + seq![rows[from]] + rows.subrange(
            from + 1,
            rows.len() as int,
        ),
{
}

/// Promoting a row makes it its chip's default, and keeps every row of that
/// chip: the one it overtakes is demoted, not dropped.
pub proof fn lemma_promote_makes_default<G, O>(
    rows: Seq<CoreInfo<G, O>>,
    chip: ChipKind,
    id: Seq<char>,
)
    requires
        first_where(rows, named(chip, id), 0) is Some,
    ensures
        ({
            let from = first_where(rows, named(chip, id), 0)->Some_0;
            let after = moved(rows, from, first_where(rows, serves(chip), 0)->Some_0);
            &&& first_row(after, serves(chip)) == Some(rows[from])
            &&& after.filter(serves(chip)).len() == rows.filter(serves(chip)).len()
        }),
{
    let p = serves::<G, O>(chip);
    let from = first_where(rows, named(chip, id), 0)->Some_0;
    lemma_first_where_found(rows, named(chip, id), 0);
    lemma_first_where_found(rows, p, 0);
    assert(p(rows[from]));
    let to = first_where(rows, p, 0)->Some_0;
    assert(to <= from);
    let after = moved(rows, from, to);
    assert forall|j: int| 0 <= j < to implies !p(#[trigger] after[j]) by {
        assert(after[j] == rows[j]);
    }
    assert(after[to] == rows[from]);
    lemma_first_where_is(after, p, to);
    lemma_moved_pieces(rows, from, to);
    let a = rows.subrange(0, to);
    let b = rows.subrange(to, from);
    let x = seq![rows[from]];
    let c = rows.subrange(from + 1, rows.len() as int);
    broadcast use vstd::seq::Seq::filter_distributes_over_add;

    assert((a + x + b + c).filter(p) == (a + x + b).filter(p) + c.filter(p));
    assert((a + x + b).filter(p) == (a + x).filter(p) + b.filter(p));
    assert((a + x).filter(p) == a.filter(p) + x.filter(p));
    assert((a + b + x + c).filter(p) == (a + b + x).filter(p) + c.filter(p));
    assert((a + b + x).filter(p) == (a + b).filter(p) + x.filter(p));
    assert((a + b).filter(p) == a.filter(p) + b.filter(p));
}

/// Promoting a row puts it first among its chip's rows and keeps every other
/// row of that chip, in its old order, behind it: the chip's rows afterwards
/// are the promoted row followed by the old rows without it.
pub proof fn lemma_promote_reorders_its_chip<G, O>(
    rows: Seq<CoreInfo<G, O>>,
    chip: ChipKind,
    id: Seq<char>,
)
    requires
        first_where(rows, named(chip, id), 0) is Some,
    ensures
        ({
            let from = first_where(rows, named(chip, id), 0)->Some_0;
            let after = moved(rows, from, first_where(rows, serves(chip), 0)->Some_0);
            &&& after.filter(serves(chip)) == seq![rows[from]] + rows.remove(from).filter(
                serves(chip),
            )
            &&& rows.filter(serves(chip)).len() == rows.remove(from).filter(serves(chip)).len()
                + 1
        }),
{
    let p = serves::<G, O>(chip);
    let from = first_where(rows, named(chip, id), 0)->Some_0;
    lemma_first_where_found(rows, named(chip, id), 0);
    lemma_first_where_found(rows, p, 0);
    assert(p(rows[from]));
    let to = first_where(rows, p, 0)->Some_0;
    lemma_moved_pieces(rows, from, to);
    let a = rows.subrange(0, to);
    let b = rows.subrange(to, from);
    let x = seq![rows[from]];
    let c = rows.subrange(from + 1, rows.len() as int);
    broadcast use vstd::seq::Seq::filter_distributes_over_add;

    assert(rows.remove(from) =~= a + b + c);
    assert forall|j: int| 0 <= j < a.len() implies !p(#[trigger] a[j]) by {
        assert(a[j] == rows[j]);
    }
    a.lemma_all_neg_filter_empty(p);
    assert(x.filter(p) =~= x) by {
        reveal_with_fuel(Seq::filter, 2);
        assert(x.drop_last() =~= Seq::<CoreInfo<G, O>>::empty());
    }
    assert((a + x + b + c).filter(p) == (a + x + b).filter(p) + c.filter(p));
    assert((a + x + b).filter(p) == (a + x).filter(p) + b.filter(p));
    assert((a + x).filter(p) == a.filter(p) + x.filter(p));
    assert((a + b + c).filter(p) == (a + b).filter(p) + c.filter(p));
    assert((a + b).filter(p) == a.filter(p) + b.filter(p));
    assert((a + b + x + c).filter(p) == (a + b + x).filter(p) + c.filter(p));
    assert((a + b + x).filter(p) == (a + b).filter(p) + x.filter(p));
    assert(a.filter(p) + x.filter(p) =~= x);
    assert(a.filter(p) + b.filter(p) =~= b.filter(p));
    assert(x + b.filter(p) + c.filter(p) =~= x + (b.filter(p) + c.filter(p)));
}

/// Promoting a row of one chip leaves every other chip's rows, and their
/// order, as they were.
pub proof fn lemma_promote_leaves_other_chips<G, O>(
    rows: Seq<CoreInfo<G, O>>,
    chip: ChipKind,
    id: Seq<char>,
    other: ChipKind,
)
    requires
        first_where(rows, named(chip, id), 0) is Some,
        other != chip,
    ensures
        moved(
            rows,
            first_where(rows, named(chip, id), 0)->Some_0,
            first_where(rows, serves(chip), 0)->Some_0,
        ).filter(serves(other)) == rows.filter(serves(other)),
{
    let p = serves::<G, O>(chip);
    let q = serves::<G, O>(other);
    let from = first_where(rows, named(chip, id), 0)->Some_0;
    lemma_first_where_found(rows, named(chip, id), 0);
    lemma_first_where_found(rows, p, 0);
    assert(p(rows[from]));
    let to = first_where(rows, p, 0)->Some_0;
    lemma_moved_pieces(rows, from, to);
    let a = rows.subrange(0, to);
    let b = rows.subrange(to, from);
    let x = seq![rows[from]];
    let c = rows.subrange(from + 1, rows.len() as int);
    broadcast use vstd::seq::Seq::filter_distributes_over_add;

    assert(x.filter(q) =~= Seq::<CoreInfo<G, O>>::empty()) by {
        reveal_with_fuel(Seq::filter, 2);
        assert(x.drop_last() =~= Seq::<CoreInfo<G, O>>::empty());
    }
    assert((a + x + b + c).filter(q) == (a + x + b).filter(q) + c.filter(q));
    assert((a + x + b).filter(q) == (a + x).filter(q) + b.filter(q));
    assert((a + x).filter(q) == a.filter(q) + x.filter(q));
    assert((a + b + x + c).filter(q) == (a + b + x).filter(q) + c.filter(q));
    assert((a + b + x).filter(q) == (a + b).filter(q) + x.filter(q));
    assert((a + b).filter(q) == a.filter(q) + b.filter(q));
    assert(a.filter(q) + x.filter(q) =~= a.filter(q));
    assert((a + b).filter(q) + x.filter(q) =~= (a + b).filter(q));
    assert(a.filter(q) + b.filter(q) + c.filter(q) =~= a.filter(q) + (b.filter(q) + c.filter(q)));
}

/// `a@ == b@`, character by character.
fn text_eq(a: &str, b: &str) -> (r: bool)
    ensures
        r == (a@ == b@),
{
    let n = a.unicode_len();
    if n != b.unicode_len() {
        return false;
    }
    let mut i: usize = 0;
    while i < n
        invariant
            n == a@.len(),
            n == b@.len(),
            i <= n,
            forall|j: int| 0 <= j < i ==> a@[j] == b@[j],
        decreases n - i,
    {
        if a.get_char(i) != b.get_char(i) {
            return false;
        }
        i = i + 1;
    }
    assert(a@ =~= b@);
    true
}

/// Whether `id` is `slot`, a dot and `name`.
fn is_joined(id: &str, slot: &str, name: &str) -> (r: bool)
    ensures
        r == (id@ == slot@ + seq!['.'] + name@),
{
    let ghost joined = slot@ + seq!['.'] + name@;
    let ns = slot.unicode_len();
    let nn = name.unicode_len();
    let n = id.unicode_len();
    if ns >= n || n - ns - 1 != nn {
        return false;
    }
    let mut i: usize = 0;
    while i < n
        invariant
            n == id@.len(),
            ns == slot@.len(),
            nn == name@.len(),
            n == ns + 1 + nn,
            joined == slot@ + seq!['.'] + name@,
            i <= n,
            forall|j: int| 0 <= j < i ==> id@[j] == joined[j],
        decreases n - i,
    {
        let expected = if i < ns {
            slot.get_char(i)
        } else if i == ns {
            '.'
        } else {
            name.get_char(i - ns - 1)
        };
        assert(expected == joined[i as int]);
        if id.get_char(i) != expected {
            return false;
        }
        i = i + 1;
    }
    assert(id@ =~= joined);
    true
}

/// Every core this build can offer, in priority order per chip.
pub struct CoreRegistry<G, O> {
    entries: Vec<CoreInfo<G, O>>,
}

impl<G, O> View for CoreRegistry<G, O> {
    type V = Seq<CoreInfo<G, O>>;

    /// The rows, in registration order as [`promote`](CoreRegistry::promote)
    /// has left it.
    closed spec fn view(&self) -> Seq<CoreInfo<G, O>> {
        self.entries@
    }
}

impl<G, O> CoreRegistry<G, O> {
    /// An empty registry.
    pub fn new() -> (r: Self)
        ensures
            r@ == Seq::<CoreInfo<G, O>>::empty(),
    {
        CoreRegistry { entries: Vec::new() }
    }

    /// This crate's own rows: the emulated OPL core, one row for each of
    /// [`OPL_CHIPS`], made by `nuked_opl`. Every other chip's cores come from
    /// the application's providers.
    pub fn with_builtins(nuked_opl: O) -> (r: Self)
        where
            O: Copy,
        ensures
            r@ == seq![
                nuked_row::<G, O>(ChipKind::Ymf262, nuked_opl),
                nuked_row::<G, O>(ChipKind::Ym3812, nuked_opl),
                nuked_row::<G, O>(ChipKind::Ym3526, nuked_opl),
                nuked_row::<G, O>(ChipKind::Y8950, nuked_opl),
            ],
    {
        let mut registry = Self::new();
        let mut i: usize = 0;
        while i < 4
            invariant
                i <= 4,
                OPL_CHIPS@ == seq![ChipKind::Ymf262, ChipKind::Ym3812, ChipKind::Ym3526, ChipKind::Y8950],
                registry@ == Seq::new(i as nat, |j: int| nuked_row::<G, O>(OPL_CHIPS@[j], nuked_opl)),
            decreases 4 - i,
        {
            registry.register(
                CoreInfo {
                    id: NUKED_OPL_ID,
                    chip: OPL_CHIPS[i],
                    label: NUKED_OPL_LABEL,
                    authors: NUKED_OPL_AUTHORS,
                    license: NUKED_OPL_LICENSE,
                    upstream: NUKED_OPL_UPSTREAM,
                    realtime: true,
                    channel_pan: true,
                    level: LEVEL_UNITY,
                    make: CoreMaker::Opl(nuked_opl),
                },
            );
            assert(registry@ =~= Seq::new((i + 1) as nat, |j: int| nuked_row::<G, O>(OPL_CHIPS@[j], nuked_opl)));
            i = i + 1;
        }
        assert(registry@ =~= seq![
            nuked_row::<G, O>(ChipKind::Ymf262, nuked_opl),
            nuked_row::<G, O>(ChipKind::Ym3812, nuked_opl),
            nuked_row::<G, O>(ChipKind::Ym3526, nuked_opl),
            nuked_row::<G, O>(ChipKind::Y8950, nuked_opl),
        ]);
        registry
    }

    /// Appends a core. Later registrations rank lower for their chip.
    pub fn register(&mut self, info: CoreInfo<G, O>)
        ensures
            final(self)@ == old(self)@.push(info),
    {
        self.entries.push(info);
    }

    /// The index of the first row serving `chip`.
    fn position_serving(&self, chip: ChipKind) -> (r: Option<usize>)
        ensures
            r is Some <==> first_where(self@, serves(chip), 0) is Some,
            r is Some ==> r->Some_0 < self@.len() && first_where(self@, serves(chip), 0) == Some(
                r->Some_0 as int,
            ),
    {
        proof {
            lemma_first_where_found(self@, serves(chip), 0);
        }
        let mut i: usize = 0;
        while i < self.entries.len()
            invariant
                i <= self@.len(),
                first_where(self@, serves(chip), 0) == first_where(self@, serves(chip), i as int),
            decreases self@.len() - i,
        {
            if self.entries[i].chip == chip {
                return Some(i);
            }
            proof {
                lemma_first_where_skip(self@, serves(chip), i as int);
            }
            i = i + 1;
        }
        None
    }

    /// The index of the row serving `chip` under `id`.
    fn position_named(&self, chip: ChipKind, id: &str) -> (r: Option<usize>)
        ensures
            r is Some <==> first_where(self@, named(chip, id@), 0) is Some,
            r is Some ==> r->Some_0 < self@.len() && first_where(self@, named(chip, id@), 0) == Some(
                r->Some_0 as int,
            ),
    {
        proof {
            lemma_first_where_found(self@, named(chip, id@), 0);
        }
        let mut i: usize = 0;
        while i < self.entries.len()
            invariant
                i <= self@.len(),
                first_where(self@, named(chip, id@), 0) == first_where(
                    self@,
                    named(chip, id@),
                    i as int,
                ),
            decreases self@.len() - i,
        {
            if self.entries[i].chip == chip && text_eq(self.entries[i].id, id) {
                return Some(i);
            }
            proof {
                lemma_first_where_skip(self@, named(chip, id@), i as int);
            }
            i = i + 1;
        }
        None
    }

    /// The index of the row serving `chip` under `"<slot>.<name>"`.
    fn position_joined(&self, chip: ChipKind, slot: &str, name: &str) -> (r: Option<usize>)
        ensures
            r is Some <==> first_where(self@, named(chip, slot@ + seq!['.'] + name@), 0) is Some,
            r is Some ==> r->Some_0 < self@.len() && first_where(self@, named(chip, slot@ + seq!['.'] + name@), 0) == Some(
                r->Some_0 as int,
            ),
    {
        proof {
            lemma_first_where_found(self@, named(chip, slot@ + seq!['.'] + name@), 0);
        }
        let ghost id = slot@ + seq!['.'] + name@;
        let mut i: usize = 0;
        while i < self.entries.len()
            invariant
                i <= self@.len(),
                id == slot@ + seq!['.'] + name@,
                first_where(self@, named(chip, id), 0) == first_where(
                    self@,
                    named(chip, id),
                    i as int,
                ),
            decreases self@.len() - i,
        {
            if self.entries[i].chip == chip && is_joined(self.entries[i].id, slot, name) {
                return Some(i);
            }
            proof {
                lemma_first_where_skip(self@, named(chip, id), i as int);
            }
            i = i + 1;
        }
        None
    }

    /// The index of the first real-time generic row serving `chip`.
    fn position_live(&self, chip: ChipKind) -> (r: Option<usize>)
        ensures
            r is Some <==> first_where(self@, live_buildable(chip), 0) is Some,
            r is Some ==> r->Some_0 < self@.len() && first_where(self@, live_buildable(chip), 0) == Some(
                r->Some_0 as int,
            ),
    {
        proof {
            lemma_first_where_found(self@, live_buildable(chip), 0);
        }
        let mut i: usize = 0;
        while i < self.entries.len()
            invariant
                i <= self@.len(),
                first_where(self@, live_buildable(chip), 0) == first_where(
                    self@,
                    live_buildable(chip),
                    i as int,
                ),
            decreases self@.len() - i,
        {
            let generic = match self.entries[i].make {
                CoreMaker::Generic(_) => true,
                _ => false,
            };
            if self.entries[i].chip == chip && self.entries[i].realtime && generic {
                return Some(i);
            }
            proof {
                lemma_first_where_skip(self@, live_buildable(chip), i as int);
            }
            i = i + 1;
        }
        None
    }

    /// Makes the row with `id` the default for `chip`, leaving every other
    /// chip's order alone. Returns whether the row was found; when it was
    /// not, nothing changes.
    pub fn promote(&mut self, chip: ChipKind, id: &str) -> (found: bool)
        ensures
            found == first_where(old(self)@, named(chip, id@), 0) is Some,
            found ==> final(self)@ == moved(
                old(self)@,
                first_where(old(self)@, named(chip, id@), 0)->Some_0,
                first_where(old(self)@, serves(chip), 0)->Some_0,
            ),
            !found ==> final(self)@ == old(self)@,
            found == exists|i: int|
                0 <= i < old(self)@.len() && #[trigger] old(self)@[i].chip == chip && old(
                    self,
                )@[i].id@ == id@,
    {
        proof {
            lemma_first_where_found(self@, named(chip, id@), 0);
        }
        let from = match self.position_named(chip, id) {
            Some(from) => from,
            None => {
                return false;
            },
        };
        proof {
            lemma_first_where_found(self@, serves(chip), 0);
            assert(named::<G, O>(chip, id@)(self@[from as int]));
            assert(self@[from as int].chip == chip && self@[from as int].id@ == id@);
            assert(serves::<G, O>(chip)(self@[from as int]));
        }
        let first = match self.position_serving(chip) {
            Some(first) => first,
            None => {
                return true;
            },
        };
        proof {
            assert(first <= from);
        }
        if from != first {
            let row = self.entries.remove(from);
            self.entries.insert(first, row);
        } else {
            assert(moved(old(self)@, from as int, first as int) =~= old(self)@);
        }
        true
    }

    /// Every core, in registration order.
    pub fn all(&self) -> (r: &[CoreInfo<G, O>])
        ensures
            r@ == self@,
    {
        self.entries.as_slice()
    }

    /// The cores serving `chip`, best first.
    pub fn for_chip(&self, chip: ChipKind) -> (r: Vec<&CoreInfo<G, O>>)
        ensures
            r@.map_values(|x: &CoreInfo<G, O>| *x) == self@.filter(serves(chip)),
    {
        let mut r: Vec<&CoreInfo<G, O>> = Vec::new();
        let mut i: usize = 0;
        while i < self.entries.len()
            invariant
                i <= self@.len(),
                r@.map_values(|x: &CoreInfo<G, O>| *x) == self@.subrange(0, i as int).filter(
                    serves(chip),
                ),
            decreases self@.len() - i,
        {
            proof {
                let p = serves::<G, O>(chip);
                assert(self@.subrange(0, i + 1) =~= self@.subrange(0, i as int).push(self@[i as int]));
                self@.subrange(0, i as int).lemma_filter_push(self@[i as int], p);
            }
            if self.entries[i].chip == chip {
                r.push(&self.entries[i]);
            }
            proof {
                assert(r@.map_values(|x: &CoreInfo<G, O>| *x) =~= self@.subrange(0, i + 1).filter(
                    serves(chip),
                ));
            }
            i = i + 1;
        }
        assert(self@.subrange(0, self@.len() as int) =~= self@);
        r
    }

    /// The core `chip` gets when the user has expressed no preference.
    pub fn default_for(&self, chip: ChipKind) -> (r: Option<&CoreInfo<G, O>>)
        ensures
            deref_row(r) == first_row(self@, serves(chip)),
    {
        match self.position_serving(chip) {
            Some(i) => Some(&self.entries[i]),
            None => None,
        }
    }

    /// The core with this id, for this chip.
    pub fn find(&self, chip: ChipKind, id: &str) -> (r: Option<&CoreInfo<G, O>>)
        ensures
            deref_row(r) == first_row(self@, named(chip, id@)),
    {
        match self.position_named(chip, id) {
            Some(i) => Some(&self.entries[i]),
            None => None,
        }
    }

    /// The core to use for `chip`, honouring a configured `id`: an id that no
    /// longer exists falls back to priority order rather than to silence.
    pub fn resolve(&self, chip: ChipKind, id: Option<&str>) -> (r: Option<&CoreInfo<G, O>>)
        ensures
            deref_row(r) == resolved(
                self@,
                chip,
                match id {
                    Some(t) => Some(t@),
                    None => None,
                },
            ),
            r is None <==> forall|i: int| 0 <= i < self@.len() ==> #[trigger] self@[i].chip != chip,
    {
        proof {
            lemma_first_where_found(self@, serves(chip), 0);
            if let Some(t) = id {
                lemma_first_where_found(self@, named(chip, t@), 0);
            }
        }
        match id {
            Some(id) => match self.find(chip, id) {
                Some(info) => Some(info),
                None => self.default_for(chip),
            },
            None => self.default_for(chip),
        }
    }

    /// Whether any core is listed for `chip`, routed ones included.
    pub fn has_core(&self, chip: ChipKind) -> (r: bool)
        ensures
            r == exists|i: int| 0 <= i < self@.len() && #[trigger] self@[i].chip == chip,
    {
        proof {
            lemma_first_where_found(self@, serves(chip), 0);
        }
        self.position_serving(chip).is_some()
    }

    /// Whether the multichip engine can be handed a core for `chip`: a
    /// generic row, not merely a listed one.
    pub fn can_build(&self, chip: ChipKind) -> (r: bool)
        ensures
            r == exists|i: int|
                0 <= i < self@.len() && #[trigger] self@[i].chip == chip && self@[i].make is Generic,
    {
        let mut i: usize = 0;
        while i < self.entries.len()
            invariant
                i <= self@.len(),
                forall|j: int|
                    0 <= j < i ==> !(#[trigger] self@[j].chip == chip && self@[j].make is Generic),
            decreases self@.len() - i,
        {
            let generic = match self.entries[i].make {
                CoreMaker::Generic(_) => true,
                _ => false,
            };
            if self.entries[i].chip == chip && generic {
                return true;
            }
            i = i + 1;
        }
        false
    }

    /// The core for `chip` given what the configuration stores: the short
    /// name, which the slot slug and a dot turn into the full id.
    pub fn resolve_choice(&self, chip: ChipKind, choice: Option<&str>) -> (r: Option<
        &CoreInfo<G, O>,
    >)
        ensures
            deref_row(r) == resolved_choice(self@, chip, choice),
    {
        match choice {
            Some(name) => {
                let slot = slot_slug(chip);
                match self.position_joined(chip, slot, name) {
                    Some(i) => Some(&self.entries[i]),
                    None => self.default_for(chip),
                }
            },
            None => self.default_for(chip),
        }
    }

    /// As [`resolve_choice`](Self::resolve_choice), but never a core that
    /// cannot keep up with playback: an offline-only choice gives way to the
    /// chip's best real-time generic core.
    pub fn resolve_choice_realtime(&self, chip: ChipKind, choice: Option<&str>) -> (r: Option<
        &CoreInfo<G, O>,
    >)
        ensures
            deref_row(r) == resolved_live(self@, chip, choice),
    {
        let resolved = match self.resolve_choice(chip, choice) {
            Some(info) => info,
            None => {
                return None;
            },
        };
        if resolved.realtime {
            return Some(resolved);
        }
        match self.position_live(chip) {
            Some(i) => Some(&self.entries[i]),
            None => None,
        }
    }

    /// Whether the core live playback would use for `chip`, under the
    /// configured `choice`, can place individual channels in the stereo
    /// image. `false` for a chip with no core at all.
    pub fn pan_capable_with(&self, chip: ChipKind, choice: Option<&str>) -> (r: bool)
        ensures
            r == match resolved_live(self@, chip, choice) {
                Some(info) => info.channel_pan,
                None => false,
            },
    {
        match self.resolve_choice_realtime(chip, choice) {
            Some(info) => info.channel_pan,
            None => false,
        }
    }
}

/// One sample scaled by an 8.8 fixed-point `level`: the product's floor
/// division by 256, saturated to the `i32` range rather than wrapped.
pub open spec fn leveled_sample(s: i32, level: u16) -> i32 {
    let q = (s as int * level as int) / 256;
    if q < i32::MIN {
        i32::MIN
    } else if q > i32::MAX {
        i32::MAX
    } else {
        q as i32
    }
}

/// Scales every sample of `out` by a core's [`level`](CoreInfo::level),
/// saturating: a loud sample times a gain above unity clips instead of
/// wrapping into a sign flip.
pub fn apply_level(out: &mut [i32], level: u16)
    ensures
        final(out)@.len() == old(out)@.len(),
        forall|i: int|
            0 <= i < old(out)@.len() ==> #[trigger] final(out)@[i] == leveled_sample(
                old(out)@[i],
                level,
            ),
{
    let gain = level as i64;
    let mut i: usize = 0;
    while i < out.len()
        invariant
            i <= out@.len(),
            out@.len() == old(out)@.len(),
            gain == level as i64,
            forall|j: int| 0 <= j < i ==> #[trigger] out@[j] == leveled_sample(old(out)@[j], level),
            forall|j: int| i <= j < out@.len() ==> out@[j] == old(out)@[j],
        decreases out@.len() - i,
    {
        let s = out[i] as i64;
        assert(i32::MIN as int * 65535 <= s * gain <= i32::MAX as int * 65535) by (nonlinear_arith)
            requires
                i32::MIN <= s <= i32::MAX,
                0 <= gain <= 65535,
        ;
        let product = s * gain;
        let scaled = product >> 8;
        proof {
            lemma_i64_shr8(product);
            assert(scaled as int == product as int / 256);
        }
        out[i] = if scaled < i32::MIN as i64 {
            i32::MIN
        } else if scaled > i32::MAX as i64 {
            i32::MAX
        } else {
            scaled as i32
        };
        i = i + 1;
    }
}

/// Whether `chip` is one of [`OPL_CHIPS`].
pub open spec fn is_opl_chip(chip: ChipKind) -> bool {
    chip == ChipKind::Ymf262 || chip == ChipKind::Ym3812 || chip == ChipKind::Ym3526 || chip
        == ChipKind::Y8950
}

/// Whether `chip` is governed by the single OPL selector.
pub fn is_opl(chip: ChipKind) -> (r: bool)
    ensures
        r == is_opl_chip(chip),
{
    let mut i: usize = 0;
    while i < 4
        invariant
            i <= 4,
            OPL_CHIPS@ == seq![ChipKind::Ymf262, ChipKind::Ym3812, ChipKind::Ym3526, ChipKind::Y8950],
            forall|j: int| 0 <= j < i ==> OPL_CHIPS@[j] != chip,
        decreases 4 - i,
    {
        if OPL_CHIPS[i] == chip {
            return true;
        }
        i = i + 1;
    }
    false
}

/// The slug that decides `chip`'s core: its own, or [`OPL_SLOT_SLUG`] for
/// the OPL family.
pub open spec fn slot_slug_of(chip: ChipKind) -> &'static str {
    if is_opl_chip(chip) {
        OPL_SLOT_SLUG
    } else {
        chip.slug_of()
    }
}

/// Computes [`slot_slug_of`].
pub fn slot_slug(chip: ChipKind) -> (s: &'static str)
    ensures
        s == slot_slug_of(chip),
{
    if is_opl(chip) {
        OPL_SLOT_SLUG
    } else {
        chip.slug()
    }
}

} // verus!
