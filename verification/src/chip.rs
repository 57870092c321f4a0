//! What every chip core is: a state machine that takes register writes and
//! renders interleaved stereo frames.

use vstd::prelude::*;

verus! {

/// Per-chip settings a VGM header carries beyond the clock.
///
/// Plain values only: each core reads the field that concerns it.
#[derive(Debug, Clone, Copy, PartialEq, Eq)]
pub struct ChipSettings {
    /// C140 board type: `1` System 21, `2` C219, anything else System 2.
    pub c140_type: u8,
    /// C352 clock divider field; the divider is four times it, `0` meaning 288.
    pub c352_clock_divider: u8,
    /// OKIM6258 flags: the low two bits select the clock divider.
    pub okim6258_flags: u8,
    /// SegaPCM interface word: bank shift in the low byte, bank mask in bits 16-23.
    pub sega_pcm_interface: u32,
    /// SN76489 noise feedback taps; `0` keeps the core's own.
    pub sn76489_feedback: u16,
    /// SN76489 shift register width; outside `1..=32` keeps the core's own.
    pub sn76489_shift_width: u8,
}

impl ChipSettings {
    /// Settings for a header that carries none: every field zero.
    pub fn none() -> (s: Self)
        ensures
            s.c140_type == 0,
            s.c352_clock_divider == 0,
            s.okim6258_flags == 0,
            s.sega_pcm_interface == 0,
            s.sn76489_feedback == 0,
            s.sn76489_shift_width == 0,
    {
        ChipSettings {
            c140_type: 0,
            c352_clock_divider: 0,
            okim6258_flags: 0,
            sega_pcm_interface: 0,
            sn76489_feedback: 0,
            sn76489_shift_width: 0,
        }
    }
}

/// The chips a VGM file can name, one variant per chip type of the format's
/// header, in header order.
#[derive(Debug, Clone, Copy, PartialEq, Eq, Structural, Hash)]
pub enum ChipKind {
    Sn76489,
    Ym2413,
    Ym2612,
    Ym2151,
    SegaPcm,
    Rf5c68,
    Ym2203,
    Ym2608,
    Ym2610,
    Ym3812,
    Ym3526,
    Y8950,
    Ymf262,
    Ymf278b,
    Ymf271,
    Ymz280b,
    Rf5c164,
    Pwm,
    Ay8910,
    GbDmg,
    NesApu,
    MultiPcm,
    Upd7759,
    Okim6258,
    Okim6295,
    K051649,
    K054539,
    HuC6280,
    C140,
    K053260,
    Pokey,
    QSound,
    Scsp,
    WonderSwan,
    Vsu,
    Saa1099,
    Es5503,
    Es5506,
    X1010,
    C352,
    Ga20,
}

impl ChipKind {
    /// The chip's configuration key: its lower-case name.
    pub open spec fn slug_of(self) -> &'static str {
        match self {
            ChipKind::Sn76489 => "sn76489",
            ChipKind::Ym2413 => "ym2413",
            ChipKind::Ym2612 => "ym2612",
            ChipKind::Ym2151 => "ym2151",
            ChipKind::SegaPcm => "segapcm",
            ChipKind::Rf5c68 => "rf5c68",
            ChipKind::Ym2203 => "ym2203",
            ChipKind::Ym2608 => "ym2608",
            ChipKind::Ym2610 => "ym2610",
            ChipKind::Ym3812 => "ym3812",
            ChipKind::Ym3526 => "ym3526",
            ChipKind::Y8950 => "y8950",
            ChipKind::Ymf262 => "ymf262",
            ChipKind::Ymf278b => "ymf278b",
            ChipKind::Ymf271 => "ymf271",
            ChipKind::Ymz280b => "ymz280b",
            ChipKind::Rf5c164 => "rf5c164",
            ChipKind::Pwm => "pwm",
            ChipKind::Ay8910 => "ay8910",
            ChipKind::GbDmg => "gb_dmg",
            ChipKind::NesApu => "nes_apu",
            ChipKind::MultiPcm => "multipcm",
            ChipKind::Upd7759 => "upd7759",
            ChipKind::Okim6258 => "okim6258",
            ChipKind::Okim6295 => "okim6295",
            ChipKind::K051649 => "k051649",
            ChipKind::K054539 => "k054539",
            ChipKind::HuC6280 => "huc6280",
            ChipKind::C140 => "c140",
            ChipKind::K053260 => "k053260",
            ChipKind::Pokey => "pokey",
            ChipKind::QSound => "qsound",
            ChipKind::Scsp => "scsp",
            ChipKind::WonderSwan => "wonderswan",
            ChipKind::Vsu => "vsu",
            ChipKind::Saa1099 => "saa1099",
            ChipKind::Es5503 => "es5503",
            ChipKind::Es5506 => "es5506",
            ChipKind::X1010 => "x1010",
            ChipKind::C352 => "c352",
            ChipKind::Ga20 => "ga20",
        }
    }

    /// Computes [`slug_of`](Self::slug_of).
    pub fn slug(self) -> (s: &'static str)
        ensures
            s == self.slug_of(),
    {
        match self {
            ChipKind::Sn76489 => "sn76489",
            ChipKind::Ym2413 => "ym2413",
            ChipKind::Ym2612 => "ym2612",
            ChipKind::Ym2151 => "ym2151",
            ChipKind::SegaPcm => "segapcm",
            ChipKind::Rf5c68 => "rf5c68",
            ChipKind::Ym2203 => "ym2203",
            ChipKind::Ym2608 => "ym2608",
            ChipKind::Ym2610 => "ym2610",
            ChipKind::Ym3812 => "ym3812",
            ChipKind::Ym3526 => "ym3526",
            ChipKind::Y8950 => "y8950",
            ChipKind::Ymf262 => "ymf262",
            ChipKind::Ymf278b => "ymf278b",
            ChipKind::Ymf271 => "ymf271",
            ChipKind::Ymz280b => "ymz280b",
            ChipKind::Rf5c164 => "rf5c164",
            ChipKind::Pwm => "pwm",
            ChipKind::Ay8910 => "ay8910",
            ChipKind::GbDmg => "gb_dmg",
            ChipKind::NesApu => "nes_apu",
            ChipKind::MultiPcm => "multipcm",
            ChipKind::Upd7759 => "upd7759",
            ChipKind::Okim6258 => "okim6258",
            ChipKind::Okim6295 => "okim6295",
            ChipKind::K051649 => "k051649",
            ChipKind::K054539 => "k054539",
            ChipKind::HuC6280 => "huc6280",
            ChipKind::C140 => "c140",
            ChipKind::K053260 => "k053260",
            ChipKind::Pokey => "pokey",
            ChipKind::QSound => "qsound",
            ChipKind::Scsp => "scsp",
            ChipKind::WonderSwan => "wonderswan",
            ChipKind::Vsu => "vsu",
            ChipKind::Saa1099 => "saa1099",
            ChipKind::Es5503 => "es5503",
            ChipKind::Es5506 => "es5506",
            ChipKind::X1010 => "x1010",
            ChipKind::C352 => "c352",
            ChipKind::Ga20 => "ga20",
        }
    }
}

impl Default for ChipSettings {
    fn default() -> (s: Self)
        ensures
            s.c140_type == 0,
            s.c352_clock_divider == 0,
            s.okim6258_flags == 0,
            s.sega_pcm_interface == 0,
            s.sn76489_feedback == 0,
            s.sn76489_shift_width == 0,
    {
        Self::none()
    }
}

/// Integer division rounding toward zero, as the machine's signed division
/// does (`b > 0`).
pub open spec fn div_trunc(a: int, b: int) -> int {
    if a >= 0 {
        a / b
    } else {
        -((-a) / b)
    }
}

/// A memory image after a piece `data` of a `total`-byte image lands at
/// `start`: the image first grows, zero-filled, to `total` bytes if it is
/// shorter, and whatever of the piece falls past its end is dropped.
pub open spec fn image_loaded(image: Seq<u8>, total: nat, start: nat, data: Seq<u8>) -> Seq<u8> {
    let grown = if image.len() < total {
        image + Seq::new((total - image.len()) as nat, |i: int| 0u8)
    } else {
        image
    };
    Seq::new(
        grown.len(),
        |i: int|
            if start <= i < start + data.len() {
                data[i - start]
            } else {
                grown[i]
            },
    )
}

/// Lands a piece of a memory image, as the ROM and RAM data blocks deliver
/// them.
pub fn load_image(image: &mut Vec<u8>, total_size: u32, start: u32, data: &[u8])
    ensures
        final(image)@ == image_loaded(old(image)@, total_size as nat, start as nat, data@),
{
    let total = total_size as usize;
    if image.len() < total {
        image.resize(total, 0);
    }
    let ghost grown = image@;
    assert(grown =~= if old(image)@.len() < total {
        old(image)@ + Seq::new((total - old(image)@.len()) as nat, |i: int| 0u8)
    } else {
        old(image)@
    });
    let at = start as usize;
    let reach = at.saturating_add(data.len());
    let end = if reach < image.len() { reach } else { image.len() };
    let mut i = at;
    while i < end
        invariant
            at <= i,
            at == start,
            at <= end ==> i <= end,
            at > end ==> i == at,
            end == image@.len() || end == at + data@.len(),
            end <= image@.len(),
            end <= at + data@.len(),
            image@.len() == grown.len(),
            forall|j: int|
                0 <= j < image@.len() ==> #[trigger] image@[j] == if at <= j < i {
                    data@[j - at]
                } else {
                    grown[j]
                },
        decreases end - i,
    {
        image.set(i, data[i - at]);
        i = i + 1;
    }
    assert(image@ =~= image_loaded(old(image)@, total_size as nat, start as nat, data@));
}

/// The state `n` frames after `c`: `n` steps of the core's machine.
pub open spec fn advanced<C: ChipState>(c: C, n: nat) -> C
    decreases n,
{
    if n == 0 {
        c
    } else {
        advanced(c, (n - 1) as nat).stepped()
    }
}

/// A sound-chip core as a state machine.
///
/// A core is deterministic: [`stepped`](Self::stepped) is the state one frame
/// later and [`frame`](Self::frame) the stereo frame that step renders, both
/// functions of the state alone.
pub trait ChipState: Sized {
    /// What every state the core can reach satisfies.
    spec fn inv(&self) -> bool;

    /// The state after rendering one frame.
    spec fn stepped(&self) -> Self;

    /// The `(left, right)` frame rendered while stepping from this state.
    spec fn frame(&self) -> (i32, i32);

    /// Renders one frame.
    fn next_frame(&mut self) -> (f: (i32, i32))
        requires
            old(self).inv(),
        ensures
            final(self).inv(),
            *final(self) == old(self).stepped(),
            f == old(self).frame(),
    ;
}

/// A sound-chip core: register writes in, interleaved stereo frames out.
///
/// Rendering is nothing but repeated [`ChipState`] steps, so how a caller
/// chunks its buffers cannot change the audio.
pub trait ChipCore: ChipState {
    /// Re-initialises the chip for an input clock of `clock` Hz, keeping only
    /// the memory images it was handed (a core's ROM or sample RAM).
    fn reset(&mut self, clock: u32, variant: bool)
        ensures
            final(self).inv(),
    ;

    /// Applies header settings beyond the clock. Most chips need none.
    fn configure(&mut self, settings: &ChipSettings)
        requires
            old(self).inv(),
        ensures
            final(self).inv(),
    {
    }

    /// The rate, in frames per second, at which [`render`](Self::render)
    /// produces frames.
    fn native_rate(&self) -> (rate: u32)
        requires
            self.inv(),
    ;

    /// A register write, as the VGM command for this chip carries it.
    fn write(&mut self, port: u8, addr: u16, data: u16)
        requires
            old(self).inv(),
        ensures
            final(self).inv(),
    ;

    /// A piece of a ROM image: `data` belongs at `start` in an image of
    /// `total_size` bytes.
    fn load_rom(&mut self, block_type: u8, total_size: u32, start: u32, data: &[u8])
        requires
            old(self).inv(),
        ensures
            final(self).inv(),
    {
    }

    /// A write of `data` into the chip's RAM at `offset`.
    fn write_ram(&mut self, offset: u32, data: &[u8])
        requires
            old(self).inv(),
        ensures
            final(self).inv(),
    {
    }

    /// Fills `out` with interleaved stereo frames, `out.len() / 2` of them; an
    /// odd trailing element is left as it was.
    fn render(&mut self, out: &mut [i32])
        requires
            old(self).inv(),
        ensures
            final(self).inv(),
            final(out)@.len() == old(out)@.len(),
            *final(self) == advanced(*old(self), (old(out)@.len() / 2) as nat),
            forall|i: int|
                0 <= i < old(out)@.len() / 2 ==> {
                    &&& #[trigger] final(out)@[2 * i] == advanced(*old(self), i as nat).frame().0
                    &&& final(out)@[2 * i + 1] == advanced(*old(self), i as nat).frame().1
                },
            old(out)@.len() % 2 == 1 ==> final(out)@[old(out)@.len() - 1] == old(out)@[old(
                out,
            )@.len() - 1],
    {
        let len = out.len();
        let n = len / 2;
        let mut i: usize = 0;
        while i < n
            invariant
                self.inv(),
                i <= n,
                n == old(out)@.len() / 2,
                len == old(out)@.len(),
                out@.len() == old(out)@.len(),
                *self == advanced(*old(self), i as nat),
                forall|j: int|
                    0 <= j < i ==> {
                        &&& #[trigger] out@[2 * j] == advanced(*old(self), j as nat).frame().0
                        &&& out@[2 * j + 1] == advanced(*old(self), j as nat).frame().1
                    },
                forall|k: int| 2 * i <= k < out@.len() ==> out@[k] == old(out)@[k],
            decreases n - i,
        {
            let (left, right) = self.next_frame();
            assert(2 * i + 1 < out@.len());
            out[2 * i] = left;
            out[2 * i + 1] = right;
            i = i + 1;
        }
    }
}

/// The frames `n` steps of the machine render from `c`, in order.
pub open spec fn rendered<C: ChipState>(c: C, n: nat) -> Seq<(i32, i32)> {
    Seq::new(n, |i: int| advanced(c, i as nat).frame())
}

/// The frames rendered from `c` in chunks of `sizes` frames, one chunk after
/// the other, each starting from the state the one before left.
pub open spec fn rendered_in_chunks<C: ChipState>(c: C, sizes: Seq<nat>) -> Seq<(i32, i32)>
    decreases sizes.len(),
{
    if sizes.len() == 0 {
        Seq::empty()
    } else {
        rendered(c, sizes[0]) + rendered_in_chunks(advanced(c, sizes[0]), sizes.drop_first())
    }
}

/// The state after rendering chunks of `sizes` frames from `c`.
pub open spec fn advanced_in_chunks<C: ChipState>(c: C, sizes: Seq<nat>) -> C
    decreases sizes.len(),
{
    if sizes.len() == 0 {
        c
    } else {
        advanced_in_chunks(advanced(c, sizes[0]), sizes.drop_first())
    }
}

/// The total of a list of chunk sizes.
pub open spec fn chunk_total(sizes: Seq<nat>) -> nat
    decreases sizes.len(),
{
    if sizes.len() == 0 {
        0
    } else {
        sizes[0] + chunk_total(sizes.drop_first())
    }
}

/// However a render is cut into consecutive chunks, the frames and the final
/// state are those of one render of the whole length.
pub proof fn lemma_any_chunking_is_invisible<C: ChipState>(c: C, sizes: Seq<nat>)
    ensures
        rendered_in_chunks(c, sizes) == rendered(c, chunk_total(sizes)),
        advanced_in_chunks(c, sizes) == advanced(c, chunk_total(sizes)),
    decreases sizes.len(),
{
    if sizes.len() > 0 {
        let a = sizes[0];
        let rest = sizes.drop_first();
        let next = advanced(c, a);
        lemma_any_chunking_is_invisible(next, rest);
        let b = chunk_total(rest);
        lemma_chunking_is_invisible(c, a, b);
        assert(rendered(c, a) + rendered(next, b) =~= rendered(c, a + b)) by {
            assert forall|i: int| a <= i < a + b implies #[trigger] rendered(c, a + b)[i] == rendered(
                next,
                b,
            )[i - a] by {
                let k = (i - a) as nat;
                assert(advanced(next, k).frame() == advanced(c, a + k).frame());
            }
        }
    }
}

/// The frames a sequence of calls rendered, the first `k` of them one after
/// the other: call `j` rendered `sizes[j]` frames from `states[j]`.
pub open spec fn calls_rendered<C: ChipState>(states: Seq<C>, sizes: Seq<nat>, k: int) -> Seq<
    (i32, i32),
>
    decreases k,
{
    if k <= 0 {
        Seq::empty()
    } else {
        calls_rendered(states, sizes, k - 1) + rendered(states[k - 1], sizes[k - 1])
    }
}

/// The total of the first `k` chunk sizes.
pub open spec fn sizes_sum(sizes: Seq<nat>, k: int) -> nat
    decreases k,
{
    if k <= 0 {
        0
    } else {
        sizes_sum(sizes, k - 1) + sizes[k - 1]
    }
}

/// Chunking is invisible over any sequence of render calls: when each call
/// renders `sizes[j]` frames and leaves the next state, as
/// [`ChipCore::render`]'s contract says, then after the first `k` calls the
/// chip is where one render of their total would leave it, and the frames
/// they rendered, in order, are that render's frames.
pub proof fn lemma_render_calls_compose<C: ChipState>(states: Seq<C>, sizes: Seq<nat>, k: int)
    requires
        states.len() == sizes.len() + 1,
        forall|j: int|
            0 <= j < sizes.len() ==> #[trigger] states[j + 1] == advanced(states[j], sizes[j]),
        0 <= k <= sizes.len(),
    ensures
        states[k] == advanced(states[0], sizes_sum(sizes, k)),
        calls_rendered(states, sizes, k) == rendered(states[0], sizes_sum(sizes, k)),
    decreases k,
{
    if k > 0 {
        lemma_render_calls_compose(states, sizes, k - 1);
        let t = sizes_sum(sizes, k - 1);
        let n = sizes[k - 1];
        let j = k - 1;
        let before = states[j];
        assert(states[j + 1] == advanced(before, n));
        lemma_chunking_is_invisible(states[0], t, n);
        assert(rendered(states[0], t) + rendered(before, n) =~= rendered(states[0], t + n)) by {
            assert forall|i: int| t <= i < t + n implies #[trigger] rendered(states[0], t + n)[i]
                == rendered(before, n)[i - t] by {
                let m = (i - t) as nat;
                assert(advanced(before, m).frame() == advanced(states[0], t + m).frame());
            }
        }
    }
}

/// How a caller chunks its buffers is invisible: rendering `a` frames and
/// then `b` more reaches the same state as rendering `a + b` at once, and the
/// frames of the second call are the frames `a..a + b` of the single one.
pub proof fn lemma_chunking_is_invisible<C: ChipState>(c: C, a: nat, b: nat)
    ensures
        advanced(advanced(c, a), b) == advanced(c, a + b),
        forall|i: nat| i < b ==> #[trigger] advanced(advanced(c, a), i).frame() == advanced(
            c,
            a + i,
        ).frame(),
    decreases b,
{
    if b > 0 {
        lemma_chunking_is_invisible(c, a, (b - 1) as nat);
    }
    assert forall|i: nat| i < b implies #[trigger] advanced(advanced(c, a), i).frame()
        == advanced(c, a + i).frame() by {
        lemma_chunking_is_invisible(c, a, i);
    }
}

} // verus!
