//! The NEC uPD7759: a speech chip whose samples are *phrases* of rate-tagged
//! blocks, not flat streams.
//!
//! Two drive modes. In **slave mode** the CPU streams the block data through
//! the data port and the chip decodes as it arrives. In **master mode** the
//! CPU hands the chip a phrase number and it reads its own ROM through the
//! phrase table at the top.
//!
//! The FIFO is unbounded here (the request handshake's timing is not
//! modelled), and the repeat-block command replays its span once per count
//! without the silicon's exact fetch timing.
//!
//! The FIFO is a byte vector and a read index: bytes before the index have
//! been consumed, and a drained FIFO starts over empty at the next push.

use vstd::prelude::*;
use crate::bits::{lemma_u8};

use crate::chip::{image_loaded, load_image, ChipCore, ChipState};

verus! {

/// Chip clocks per output frame: 20 kHz at the usual 640 kHz.
pub const CLOCKS_PER_FRAME: u32 = 32;

/// The ADPCM step matrix: 16 states by 16 nibbles.
pub const STEP: [[i32; 16]; 16] = [
    [0, 0, 1, 2, 3, 5, 7, 10, 0, 0, -1, -2, -3, -5, -7, -10],
    [0, 1, 2, 3, 4, 6, 8, 13, 0, -1, -2, -3, -4, -6, -8, -13],
    [0, 1, 2, 4, 5, 7, 10, 15, 0, -1, -2, -4, -5, -7, -10, -15],
    [0, 1, 3, 4, 6, 9, 13, 19, 0, -1, -3, -4, -6, -9, -13, -19],
    [0, 2, 3, 5, 8, 11, 15, 23, 0, -2, -3, -5, -8, -11, -15, -23],
    [0, 2, 4, 7, 10, 14, 19, 29, 0, -2, -4, -7, -10, -14, -19, -29],
    [0, 3, 5, 8, 12, 16, 22, 33, 0, -3, -5, -8, -12, -16, -22, -33],
    [1, 4, 7, 10, 15, 20, 29, 43, -1, -4, -7, -10, -15, -20, -29, -43],
    [1, 4, 8, 13, 18, 25, 35, 53, -1, -4, -8, -13, -18, -25, -35, -53],
    [1, 6, 10, 16, 22, 31, 43, 64, -1, -6, -10, -16, -22, -31, -43, -64],
    [2, 7, 12, 19, 27, 37, 51, 76, -2, -7, -12, -19, -27, -37, -51, -76],
    [2, 9, 16, 24, 34, 46, 64, 96, -2, -9, -16, -24, -34, -46, -64, -96],
    [3, 11, 19, 29, 41, 57, 79, 117, -3, -11, -19, -29, -41, -57, -79, -117],
    [4, 13, 24, 36, 50, 69, 96, 143, -4, -13, -24, -36, -50, -69, -96, -143],
    [4, 16, 29, 44, 62, 85, 118, 175, -4, -16, -29, -44, -62, -85, -118, -175],
    [6, 20, 36, 54, 76, 104, 144, 214, -6, -20, -36, -54, -76, -104, -144, -214],
];

/// How a nibble moves the state.
pub const STATE_ADJUST: [i32; 16] = [-1, -1, 0, 0, 1, 2, 2, 3, -1, -1, 0, 0, 1, 2, 2, 3];

pub open spec fn step_of(state: int, nibble: int) -> i32 {
    STEP[state][nibble]
}

pub open spec fn adjust_of(nibble: int) -> i32 {
    STATE_ADJUST[nibble]
}

pub proof fn lemma_tables_bounded()
    ensures
        forall|s: int, n: int| 0 <= s < 16 && 0 <= n < 16 ==> -214 <= #[trigger] step_of(s, n) <= 214,
        forall|n: int| 0 <= n < 16 ==> -1 <= #[trigger] adjust_of(n) <= 3,
{
    assert forall|s: int, n: int| 0 <= s < 16 && 0 <= n < 16 implies -214 <= #[trigger] step_of(s, n) <= 214 by {
        assert(STEP[s]@[n] == STEP[s][n]);
        assert(-214 <= STEP[s]@[n] <= 214);
    }
}

/// Where the decoder is in a phrase.
#[derive(Debug, Clone, Copy, PartialEq, Eq, Structural)]
pub enum Phase {
    Idle,
    /// Reading the phrase's block count.
    BlockCount,
    /// Reading the next block's header.
    BlockHeader,
    /// Silence, counted in chip clocks.
    Silence,
    /// Nibbles at a rate: `sample_rate * 4` clocks apiece.
    Nibbles,
}

/// `|x|`.
pub open spec fn magnitude(x: int) -> int {
    if x >= 0 {
        x
    } else {
        -x
    }
}

/// `a + b` wrapped to 32 bits.
pub open spec fn wrapped(a: u32, b: u32) -> u32 {
    if a + b > u32::MAX {
        (a + b - 0x1_0000_0000) as u32
    } else {
        (a + b) as u32
    }
}

/// The uPD7759.
#[derive(Debug)]
pub struct Upd7759 {
    pub rate: u32,
    /// Master mode reads this; slave mode reads the FIFO.
    pub rom: Vec<u8>,
    pub slave: bool,
    /// The FIFO's bytes and the index of the next one to read.
    pub fifo: Vec<u8>,
    pub head: usize,
    /// The port latch: the phrase number in master mode.
    pub port: u8,
    /// Master-mode read position and bank base.
    pub address: u32,
    pub bank: u32,
    pub reset_line: bool,
    pub start_line: bool,
    pub phase: Phase,
    pub blocks_left: u32,
    pub clocks_left: u32,
    pub nibbles_left: u32,
    pub sample_rate: u32,
    pub high_nibble: bool,
    pub current_byte: u8,
    /// Repeat-block state: where the span began, and plays remaining.
    pub repeat_from: u32,
    pub repeat_count: u32,
    /// The decoder.
    pub sample: i32,
    pub state: i32,
}

impl Upd7759 {
    /// The power-on chip at `rate`, holding `rom`, with an empty FIFO.
    pub open spec fn cleared(rate: u32, slave: bool, rom: Vec<u8>, fifo: Vec<u8>) -> Upd7759 {
        Upd7759 {
            rate,
            rom,
            slave,
            fifo,
            head: 0,
            port: 0,
            address: 0,
            bank: 0,
            reset_line: true,
            start_line: true,
            phase: Phase::Idle,
            blocks_left: 0,
            clocks_left: 0,
            nibbles_left: 0,
            sample_rate: 1,
            high_nibble: false,
            current_byte: 0,
            repeat_from: 0,
            repeat_count: 0,
            sample: 0,
            state: 0,
        }
    }

    fn clear(rate: u32, slave: bool, rom: Vec<u8>) -> (chip: Upd7759)
        ensures
            chip == Upd7759::cleared(rate, slave, rom, chip.fifo),
            chip.fifo@.len() == 0,
    {
        Upd7759 {
            rate,
            rom,
            slave,
            fifo: Vec::new(),
            head: 0,
            port: 0,
            address: 0,
            bank: 0,
            reset_line: true,
            start_line: true,
            phase: Phase::Idle,
            blocks_left: 0,
            clocks_left: 0,
            nibbles_left: 0,
            sample_rate: 1,
            high_nibble: false,
            current_byte: 0,
            repeat_from: 0,
            repeat_count: 0,
            sample: 0,
            state: 0,
        }
    }

    /// A chip with no clock yet, no ROM and an empty FIFO.
    pub fn new() -> (chip: Upd7759)
        ensures
            chip == Upd7759::cleared(20_000, false, chip.rom, chip.fifo),
            chip.rom@.len() == 0,
            chip.fifo@.len() == 0,
    {
        Self::clear(20_000, false, Vec::new())
    }

    /// The FIFO's unread bytes.
    pub open spec fn pending(self) -> Seq<u8> {
        self.fifo@.skip(self.head as int)
    }

    /// How many more nibbles the current phrase can still decode.
    pub open spec fn budget(self) -> int {
        if self.phase == Phase::Nibbles {
            self.nibbles_left + 256 * self.blocks_left
        } else if self.phase == Phase::BlockHeader || self.phase == Phase::Silence {
            256 * self.blocks_left
        } else {
            0
        }
    }

    /// Between them, the decoded level and what is left of the phrase stay
    /// within one phrase's worth of steps (256 blocks of at most 256 nibbles,
    /// each at most 214 steps), which keeps the level in range.
    pub open spec fn inv(self) -> bool {
        &&& self.head <= self.fifo@.len()
        &&& 0 <= self.state <= 15
        &&& self.bank <= 255 * 0x20000
        &&& 1 <= self.sample_rate <= 64
        &&& self.repeat_count <= 8
        &&& self.blocks_left <= 256
        &&& self.nibbles_left <= 256
        &&& self.clocks_left <= 65_536
        &&& (self.phase == Phase::Nibbles ==> self.nibbles_left >= 1)
        &&& (self.phase == Phase::BlockCount ==> self.sample == 0)
        &&& magnitude(self.sample as int) + 214 * self.budget()
            <= 14_079_488
    }

    /// The next data byte, from wherever this mode sources it: the FIFO in
    /// slave mode, the ROM at the bank plus the read address in master mode
    /// (which moves on whether or not the ROM holds the byte).
    pub open spec fn fetched(self) -> (Upd7759, Option<u8>) {
        if self.slave {
            if self.head < self.fifo@.len() {
                (Upd7759 { head: (self.head + 1) as usize, ..self }, Some(self.fifo@[self.head as int]))
            } else {
                (self, None)
            }
        } else {
            let at = wrapped(self.bank, self.address);
            (
                Upd7759 { address: wrapped(self.address, 1), ..self },
                if at < self.rom@.len() { Some(self.rom@[at as int]) } else { None },
            )
        }
    }

    fn next_byte(&mut self) -> (b: Option<u8>)
        requires
            old(self).inv(),
        ensures
            (*final(self), b) == old(self).fetched(),
            final(self).head <= final(self).fifo@.len(),
    {
        if self.slave {
            if self.head < self.fifo.len() {
                let b = self.fifo[self.head];
                self.head = self.head + 1;
                Some(b)
            } else {
                None
            }
        } else {
            let at = self.bank.wrapping_add(self.address);
            let b = if (at as usize) < self.rom.len() { Some(self.rom[at as usize]) } else { None };
            self.address = self.address.wrapping_add(1);
            b
        }
    }

    /// A phrase begun: master mode resolves the port through the phrase
    /// table (big-endian pointers in 2-byte units from offset 5, after the
    /// count and the signature), and does nothing if the table entry lies
    /// past the ROM; slave mode starts on the FIFO.
    pub open spec fn started(self) -> Upd7759 {
        let entry = self.bank + self.port * 2 + 5;
        if !self.slave && entry + 2 > self.rom@.len() {
            self
        } else {
            let address = if self.slave {
                self.address
            } else {
                (((self.rom@[entry] as u32) << 9u32) | ((self.rom@[entry + 1] as u32) << 1u32)) as u32
            };
            Upd7759 { address, phase: Phase::BlockCount, repeat_count: 0, sample: 0, state: 0, ..self }
        }
    }

    fn start(&mut self)
        requires
            old(self).inv(),
            old(self).phase == Phase::Idle,
        ensures
            final(self).inv(),
            *final(self) == old(self).started(),
    {
        if !self.slave {
            let entry = self.bank as usize + self.port as usize * 2 + 5;
            if entry + 2 > self.rom.len() {
                return;
            }
            self.address = ((self.rom[entry] as u32) << 9) | ((self.rom[entry + 1] as u32) << 1);
        }
        self.phase = Phase::BlockCount;
        self.repeat_count = 0;
        self.sample = 0;
        self.state = 0;
    }

    /// The state after a block header `h` was read (with `blocks_left`
    /// already counted down): silence, 256 nibbles, a counted run, or a
    /// repeat of the span from here.
    pub open spec fn header_taken(self, h: u8) -> Upd7759 {
        let kind = h >> 6u8;
        let rate = ((h & 0x3F) + 1) as u32;
        if kind == 0 {
            Upd7759 {
                clocks_left: (1024 * ((h & 0x3F) + 1)) as u32,
                sample: 0,
                state: 0,
                phase: Phase::Silence,
                ..self
            }
        } else if kind == 1 {
            Upd7759 {
                sample_rate: rate,
                nibbles_left: 256,
                high_nibble: false,
                clocks_left: (rate * 4) as u32,
                phase: Phase::Nibbles,
                ..self
            }
        } else if kind == 2 {
            let (s, c) = self.fetched();
            let count: u8 = match c {
                Some(x) => x,
                None => 0,
            };
            Upd7759 {
                sample_rate: rate,
                nibbles_left: (count + 1) as u32,
                high_nibble: false,
                clocks_left: (rate * 4) as u32,
                phase: Phase::Nibbles,
                ..s
            }
        } else {
            Upd7759 { repeat_count: ((h & 0x07) + 1) as u32, repeat_from: self.address, ..self }
        }
    }

    /// A byte that did not come: master mode ends the phrase, slave mode
    /// waits for more data.
    pub open spec fn starved(self) -> Upd7759 {
        if !self.slave {
            Upd7759 { phase: Phase::Idle, ..self }
        } else {
            self
        }
    }

    /// One nibble decoded: the level moves by the step for the state and the
    /// nibble, and the state by the nibble's adjustment, held to 0..=15. The
    /// block's last nibble returns to the headers, rewinding a master-mode
    /// repeat span.
    pub open spec fn nibble_decoded(self, nibble: u8) -> Upd7759 {
        let moved = self.state + adjust_of(nibble as int);
        let left = (self.nibbles_left - 1) as u32;
        let s = Upd7759 {
            high_nibble: !self.high_nibble,
            sample: (self.sample + step_of(self.state as int, nibble as int)) as i32,
            state: if moved < 0 { 0 } else if moved > 15 { 15 } else { moved as i32 },
            nibbles_left: left,
            ..self
        };
        if left == 0 {
            if s.repeat_count > 0 && !s.slave {
                Upd7759 {
                    repeat_count: (s.repeat_count - 1) as u32,
                    address: s.repeat_from,
                    phase: Phase::BlockHeader,
                    ..s
                }
            } else {
                Upd7759 { phase: Phase::BlockHeader, ..s }
            }
        } else {
            s
        }
    }

    /// One chip clock of the state machine.
    pub open spec fn clocked(self) -> Upd7759 {
        match self.phase {
            Phase::Idle => self,
            Phase::BlockCount => {
                let (s, b) = self.fetched();
                match b {
                    Some(c) => Upd7759 { blocks_left: (c + 1) as u32, phase: Phase::BlockHeader, ..s },
                    None => s.starved(),
                }
            },
            Phase::BlockHeader => {
                if self.blocks_left == 0 {
                    Upd7759 { phase: Phase::Idle, sample: 0, ..self }
                } else {
                    let (s, b) = self.fetched();
                    match b {
                        Some(h) => Upd7759 { blocks_left: (s.blocks_left - 1) as u32, ..s }.header_taken(h),
                        None => s.starved(),
                    }
                }
            },
            Phase::Silence => {
                let c = if self.clocks_left > 0 { (self.clocks_left - 1) as u32 } else { 0 };
                Upd7759 {
                    clocks_left: c,
                    phase: if c == 0 { Phase::BlockHeader } else { Phase::Silence },
                    ..self
                }
            },
            Phase::Nibbles => {
                let c = if self.clocks_left > 0 { (self.clocks_left - 1) as u32 } else { 0 };
                if c != 0 {
                    Upd7759 { clocks_left: c, ..self }
                } else {
                    let s = Upd7759 { clocks_left: (self.sample_rate * 4) as u32, ..self };
                    if s.high_nibble {
                        s.nibble_decoded(s.current_byte & 0x0F)
                    } else {
                        let (t, b) = s.fetched();
                        match b {
                            Some(byte) => Upd7759 { current_byte: byte, ..t }.nibble_decoded(byte >> 4u8),
                            None => t.starved(),
                        }
                    }
                }
            },
        }
    }

    /// `n` chip clocks on.
    pub open spec fn clocks(self, n: nat) -> Upd7759
        decreases n,
    {
        if n == 0 {
            self
        } else {
            self.clocks((n - 1) as nat).clocked()
        }
    }

    fn decode_nibble(&mut self, nibble: u8)
        requires
            old(self).inv(),
            old(self).phase == Phase::Nibbles,
            nibble < 16,
        ensures
            final(self).inv(),
            *final(self) == old(self).nibble_decoded(nibble),
    {
        proof {
            lemma_tables_bounded();
        }
        assert(-214 <= step_of(self.state as int, nibble as int) <= 214);
        self.high_nibble = !self.high_nibble;
        self.sample = self.sample + STEP[self.state as usize][nibble as usize];
        let moved = self.state + STATE_ADJUST[nibble as usize];
        self.state = if moved < 0 { 0 } else if moved > 15 { 15 } else { moved };
        self.nibbles_left = self.nibbles_left - 1;
        if self.nibbles_left == 0 {
            if self.repeat_count > 0 && !self.slave {
                self.repeat_count = self.repeat_count - 1;
                self.address = self.repeat_from;
            }
            self.phase = Phase::BlockHeader;
        }
    }

    fn take_header(&mut self, h: u8)
        requires
            old(self).inv(),
            old(self).phase == Phase::BlockHeader,
            magnitude(old(self).sample as int) + 54_784 * (old(self).blocks_left + 1) <= 14_079_488,
        ensures
            final(self).inv(),
            *final(self) == old(self).header_taken(h),
    {
        let kind = h >> 6;
        assert(h >> 6u8 <= 3 && h & 0x3F <= 63 && h & 0x07 <= 7) by {
            lemma_u8(h, 0x3F);
            lemma_u8(h, 0x07);
        }
        let rate = ((h & 0x3F) + 1) as u32;
        if kind == 0 {
            self.clocks_left = 1024 * ((h & 0x3F) as u32 + 1);
            self.sample = 0;
            self.state = 0;
            self.phase = Phase::Silence;
        } else if kind == 1 {
            self.sample_rate = rate;
            self.nibbles_left = 256;
            self.high_nibble = false;
            self.clocks_left = rate * 4;
            self.phase = Phase::Nibbles;
        } else if kind == 2 {
            let c = self.next_byte();
            let count: u8 = match c {
                Some(x) => x,
                None => 0,
            };
            self.sample_rate = rate;
            self.nibbles_left = count as u32 + 1;
            self.high_nibble = false;
            self.clocks_left = rate * 4;
            self.phase = Phase::Nibbles;
        } else {
            self.repeat_count = (h & 0x07) as u32 + 1;
            self.repeat_from = self.address;
        }
    }

    /// One chip clock of the state machine.
    fn clock(&mut self)
        requires
            old(self).inv(),
        ensures
            final(self).inv(),
            *final(self) == old(self).clocked(),
    {
        match self.phase {
            Phase::Idle => {},
            Phase::BlockCount => {
                match self.next_byte() {
                    Some(c) => {
                        self.blocks_left = c as u32 + 1;
                        self.phase = Phase::BlockHeader;
                    },
                    None => {
                        if !self.slave {
                            self.phase = Phase::Idle;
                        }
                    },
                }
            },
            Phase::BlockHeader => {
                if self.blocks_left == 0 {
                    self.phase = Phase::Idle;
                    self.sample = 0;
                    return;
                }
                match self.next_byte() {
                    Some(h) => {
                        self.blocks_left = self.blocks_left - 1;
                        self.take_header(h);
                    },
                    None => {
                        if !self.slave {
                            self.phase = Phase::Idle;
                        }
                    },
                }
            },
            Phase::Silence => {
                self.clocks_left = self.clocks_left.saturating_sub(1);
                if self.clocks_left == 0 {
                    self.phase = Phase::BlockHeader;
                }
            },
            Phase::Nibbles => {
                self.clocks_left = self.clocks_left.saturating_sub(1);
                if self.clocks_left != 0 {
                    return;
                }
                self.clocks_left = self.sample_rate * 4;
                if self.high_nibble {
                    let b = self.current_byte;
                    assert(b & 0x0F < 16) by {
                        lemma_u8(b, 0x0F);
                    }
                    self.decode_nibble(self.current_byte & 0x0F);
                } else {
                    match self.next_byte() {
                        Some(byte) => {
                            self.current_byte = byte;
                            assert(byte >> 4u8 < 16) by {
                                lemma_u8(byte, 0);
                            }
                            self.decode_nibble(byte >> 4);
                        },
                        None => {
                            if !self.slave {
                                self.phase = Phase::Idle;
                            }
                        },
                    }
                }
            },
        }
    }

    fn tick(&mut self) -> (o: i32)
        requires
            old(self).inv(),
        ensures
            final(self).inv(),
            *final(self) == old(self).clocks(CLOCKS_PER_FRAME as nat),
            o == 32 * old(self).clocks(CLOCKS_PER_FRAME as nat).sample,
    {
        let ghost start = *self;
        let mut i: u32 = 0;
        while i < CLOCKS_PER_FRAME
            invariant
                i <= CLOCKS_PER_FRAME,
                self.inv(),
                *self == start.clocks(i as nat),
            decreases CLOCKS_PER_FRAME - i,
        {
            self.clock();
            i = i + 1;
        }
        assert(-14_079_488 <= self.sample <= 14_079_488);
        self.sample * 32
    }
}


impl Upd7759 {
    /// The chip after byte `d` on line `line` (`addr & 3`), apart from the
    /// FIFO's contents: /RESET low clears the decoder; a falling /START
    /// begins a phrase from idle; the data port feeds the FIFO in slave mode
    /// (a stream arriving into idle starts the phrase) and latches the
    /// phrase number in master mode; the last line sets the bank in 128 KiB
    /// units.
    pub open spec fn line_set(self, line: u16, d: u8) -> Upd7759 {
        let level = d != 0;
        if line == 0 {
            if !level && self.reset_line {
                Upd7759 { phase: Phase::Idle, sample: 0, state: 0, reset_line: level, ..self }
            } else {
                Upd7759 { reset_line: level, ..self }
            }
        } else if line == 1 {
            let s = if !level && self.start_line && self.phase == Phase::Idle {
                self.started()
            } else {
                self
            };
            Upd7759 { start_line: level, ..s }
        } else if line == 2 {
            if self.slave {
                if self.phase == Phase::Idle {
                    self.started()
                } else {
                    self
                }
            } else {
                Upd7759 { port: d, ..self }
            }
        } else {
            Upd7759 { bank: (d * 0x20000) as u32, ..self }
        }
    }

    /// What the FIFO holds after byte `d` on line `line`.
    pub open spec fn pending_after(self, line: u16, d: u8) -> Seq<u8> {
        if line == 0 && d == 0 && self.reset_line {
            Seq::empty()
        } else if line == 2 && self.slave {
            self.pending().push(d)
        } else {
            self.pending()
        }
    }

    fn push_fifo(&mut self, d: u8)
        requires
            old(self).head <= old(self).fifo@.len(),
        ensures
            final(self).head <= final(self).fifo@.len(),
            final(self).pending() == old(self).pending().push(d),
            *final(self) == (Upd7759 { fifo: final(self).fifo, head: final(self).head, ..*old(self) }),
    {
        if self.head == self.fifo.len() {
            self.fifo.clear();
            self.head = 0;
        }
        self.fifo.push(d);
        assert(self.pending() =~= old(self).pending().push(d));
    }
}

impl Default for Upd7759 {
    fn default() -> (chip: Upd7759)
        ensures
            chip == Upd7759::cleared(20_000, false, chip.rom, chip.fifo),
            chip.rom@.len() == 0,
            chip.fifo@.len() == 0,
    {
        Self::new()
    }
}

impl ChipState for Upd7759 {
    open spec fn inv(&self) -> bool {
        Upd7759::inv(*self)
    }

    open spec fn stepped(&self) -> Upd7759 {
        self.clocks(CLOCKS_PER_FRAME as nat)
    }

    /// Mono: the decoder's ~9-bit range scaled up by 32.
    open spec fn frame(&self) -> (i32, i32) {
        let s = 32 * self.stepped().sample;
        (s as i32, s as i32)
    }

    fn next_frame(&mut self) -> (f: (i32, i32)) {
        let v = self.tick();
        (v, v)
    }
}

impl ChipCore for Upd7759 {
    /// `variant` is the header's bit 31: slave (streamed) mode. The ROM
    /// survives.
    fn reset(&mut self, clock: u32, variant: bool)
        ensures
            *final(self) == Upd7759::cleared(
                if clock / CLOCKS_PER_FRAME > 1 { clock / CLOCKS_PER_FRAME } else { 1 },
                variant,
                old(self).rom,
                final(self).fifo,
            ),
            final(self).fifo@.len() == 0,
    {
        let mut rom: Vec<u8> = Vec::new();
        std::mem::swap(&mut rom, &mut self.rom);
        let rate = clock / CLOCKS_PER_FRAME;
        *self = Self::clear(if rate > 1 { rate } else { 1 }, variant, rom);
    }

    fn native_rate(&self) -> (rate: u32)
        ensures
            rate == self.rate,
    {
        self.rate
    }

    /// The four lines: reset, start, the data port, the bank.
    fn write(&mut self, port: u8, addr: u16, data: u16)
        ensures
            *final(self) == (Upd7759 {
                fifo: final(self).fifo,
                head: final(self).head,
                ..old(self).line_set(addr & 0x03, (data & 0xFF) as u8)
            }),
            final(self).pending() == old(self).pending_after(addr & 0x03, (data & 0xFF) as u8),
    {
        let d = (data & 0xFF) as u8;
        let line = addr & 0x03;
        let level = d != 0;
        if line == 0 {
            if !level && self.reset_line {
                self.phase = Phase::Idle;
                self.fifo.clear();
                self.head = 0;
                self.sample = 0;
                self.state = 0;
                assert(self.pending() =~= Seq::<u8>::empty());
            }
            self.reset_line = level;
        } else if line == 1 {
            if !level && self.start_line && self.phase == Phase::Idle {
                self.start();
            }
            self.start_line = level;
        } else if line == 2 {
            if self.slave {
                self.push_fifo(d);
                if self.phase == Phase::Idle {
                    self.start();
                }
            } else {
                self.port = d;
            }
        } else {
            self.bank = d as u32 * 0x20000;
        }
    }

    /// The sample ROM.
    fn load_rom(&mut self, block_type: u8, total_size: u32, start: u32, data: &[u8])
        ensures
            final(self).rom@ == image_loaded(old(self).rom@, total_size as nat, start as nat, data@),
            *final(self) == (Upd7759 { rom: final(self).rom, ..*old(self) }),
    {
        load_image(&mut self.rom, total_size, start, data);
    }
}

} // verus!
