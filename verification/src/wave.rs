//! The unknown-size presentation: a row of block glyphs through which three
//! crests travel, and the ebbing variant of it that is shown while waiting
//! for a retry. The shape depends on the frame alone, never on the bytes
//! that have arrived.

use vstd::prelude::*;

verus! {

/// The number of glyphs in a row, which is also the length of the ring on
/// which the crests travel.
pub const WAVE_WIDTH: u32 = 29;

/// The number of frames of the ebbing countdown.
pub const EBB_FRAMES: u32 = 80;

/// A crest: where its peak stands on the ring and which way it travels.
#[derive(Clone, Copy, Debug, PartialEq, Eq, Structural)]
pub struct Crest {
    pub pos: i32,
    pub forward: bool,
}

/// The animation that runs while an attempt of unknown size is under way.
#[derive(Debug)]
pub struct Wave {
    crests: Vec<Crest>,
}

/// The animation of the countdown before an unknown-size retry.
#[derive(Debug)]
pub struct Ebb {
    crests: Vec<Crest>,
    counter: u32,
}

/// One frame of the ebbing countdown.
#[derive(Debug)]
pub struct EbbFrame {
    /// The row of glyphs.
    pub line: String,
    /// The seconds announced, counting down from four.
    pub remaining_secs: u32,
    /// The number of dots after the message, from none to three.
    pub dots: u32,
}

/// The glyphs by height, lowest index first: two ramps up and down again.
pub open spec fn wave_glyphs() -> Seq<char> {
    "▁▂▃▄▅▆▇█▇▆▅▄▃▂▁▂▃▄▅▆▇█▇▆▅▄▃▂▁"@
}

/// The distance on the ring between column `i` and a peak at `pos`, the
/// shorter way round.
pub open spec fn ring_distance(i: int, pos: int) -> int {
    let d = (i - pos) % 29;
    if d > 14 {
        29 - d
    } else {
        d
    }
}

/// The height that a crest with its peak at `pos` gives column `i`: the
/// ring's length less the distance to the peak.
pub open spec fn crest_height(i: int, pos: int) -> int {
    29 - ring_distance(i, pos)
}

/// The height that the crests give column `i`: that of the highest of them,
/// and zero without any crest.
pub open spec fn wave_height(i: int, crests: Seq<Crest>) -> int
    decreases crests.len(),
{
    if crests.len() == 0 {
        0
    } else {
        let rest = wave_height(i, crests.drop_last());
        let own = crest_height(i, crests.last().pos as int);
        if own > rest {
            own
        } else {
            rest
        }
    }
}

/// The index of the glyph for a height that has decayed to `decay`
/// eightieths of itself.
pub open spec fn glyph_index(height: int, decay: int) -> int {
    let index = (height * decay / 80) * 29 / 31;
    if index > 28 {
        28
    } else {
        index
    }
}

/// The row of glyphs for the given crests and decay.
pub open spec fn line_chars(crests: Seq<Crest>, decay: int) -> Seq<char> {
    Seq::new(29, |i: int| wave_glyphs()[glyph_index(wave_height(i, crests), decay)])
}

/// A crest of the running wave one frame later: it moves one column and
/// turns round when it passes the half of the ring.
pub open spec fn swept(c: Crest) -> Crest {
    let pos = if c.forward {
        c.pos + 1
    } else {
        c.pos - 1
    };
    Crest {
        pos: pos as i32,
        forward: if pos > 14 || pos < -14 {
            !c.forward
        } else {
            c.forward
        },
    }
}

/// The columns that an ebbing crest moves after frame `counter`: four at
/// first, fewer as the countdown goes on.
pub open spec fn ebb_stride(counter: int) -> int {
    (80 - counter) / 20
}

/// A crest of the ebbing wave after frame `counter`: it moves by the stride
/// and wraps round the ring.
pub open spec fn ebbed(c: Crest, counter: int) -> Crest {
    let pos = if c.forward {
        c.pos + ebb_stride(counter)
    } else {
        c.pos - ebb_stride(counter)
    };
    Crest { pos: (pos % 29) as i32, forward: c.forward }
}

/// The crests with which the running wave starts.
pub open spec fn wave_start() -> Seq<Crest> {
    seq![
        Crest { pos: 0i32, forward: true },
        Crest { pos: (-2i32) as i32, forward: false },
        Crest { pos: 2i32, forward: true },
    ]
}

/// The crests with which the ebbing wave starts.
pub open spec fn ebb_start() -> Seq<Crest> {
    seq![
        Crest { pos: 12, forward: false },
        Crest { pos: 12, forward: true },
        Crest { pos: 12, forward: false },
    ]
}

/// A crest of the running wave stays within half a ring of the origin and
/// points inward at the turning points.
pub open spec fn sweeping(c: Crest) -> bool {
    &&& -15 <= c.pos <= 15
    &&& c.pos == 15 ==> !c.forward
    &&& c.pos == -15 ==> c.forward
}

/// A crest of the ebbing wave stands on a column of the ring.
pub open spec fn on_ring(c: Crest) -> bool {
    0 <= c.pos < 29
}

fn wave_blocks() -> (blocks: &'static str)
    ensures
        blocks@ == wave_glyphs(),
        blocks@.len() == 29,
{
    proof {
        reveal_strlit("▁▂▃▄▅▆▇█▇▆▅▄▃▂▁▂▃▄▅▆▇█▇▆▅▄▃▂▁");
    }
    "▁▂▃▄▅▆▇█▇▆▅▄▃▂▁▂▃▄▅▆▇█▇▆▅▄▃▂▁"
}

fn height_under(i: u32, pos: i32) -> (height: u32)
    requires
        i < 29,
        -15 <= pos < 29,
    ensures
        height == crest_height(i as int, pos as int),
        15 <= height <= 29,
{
    let shifted: i32 = i as i32 + 29 - pos;
    let d: u32 = (shifted as u32) % 29;
    assert(d == (i - pos) % 29);
    let distance: u32 = if d > 14 {
        29 - d
    } else {
        d
    };
    29 - distance
}

fn column_height(i: u32, crests: &Vec<Crest>) -> (height: u32)
    requires
        i < 29,
        forall|k: int| 0 <= k < crests@.len() ==> -15 <= (#[trigger] crests@[k]).pos < 29,
    ensures
        height == wave_height(i as int, crests@),
        height <= 29,
{
    let mut height: u32 = 0;
    let mut k: usize = 0;
    while k < crests.len()
        invariant
            i < 29,
            k <= crests@.len(),
            forall|j: int| 0 <= j < crests@.len() ==> -15 <= (#[trigger] crests@[j]).pos < 29,
            height == wave_height(i as int, crests@.subrange(0, k as int)),
            height <= 29,
        decreases crests@.len() - k,
    {
        let own: u32 = height_under(i, crests[k].pos);
        proof {
            let seen = crests@.subrange(0, k as int);
            let next = crests@.subrange(0, k + 1);
            assert(next.drop_last() =~= seen);
            assert(next.last() == crests@[k as int]);
        }
        if own > height {
            height = own;
        }
        k = k + 1;
    }
    proof {
        assert(crests@.subrange(0, k as int) =~= crests@);
    }
    height
}

fn draw_line(crests: &Vec<Crest>, decay: u32) -> (line: String)
    requires
        decay <= 80,
        forall|k: int| 0 <= k < crests@.len() ==> -15 <= (#[trigger] crests@[k]).pos < 29,
    ensures
        line@ == line_chars(crests@, decay as int),
{
    let blocks = wave_blocks();
    let mut line = String::new();
    let mut i: u32 = 0;
    while i < WAVE_WIDTH
        invariant
            i <= 29,
            decay <= 80,
            blocks@ == wave_glyphs(),
            blocks@.len() == 29,
            forall|k: int| 0 <= k < crests@.len() ==> -15 <= (#[trigger] crests@[k]).pos < 29,
            line@ == Seq::new(
                i as nat,
                |c: int| wave_glyphs()[glyph_index(wave_height(c, crests@), decay as int)],
            ),
        decreases 29 - i,
    {
        let height = column_height(i, crests);
        assert(height * decay <= 29 * 80) by (nonlinear_arith)
            requires
                height <= 29,
                decay <= 80,
        ;
        let scaled: u32 = height * decay / 80 * 29 / 31;
        let index: u32 = if scaled > 28 {
            28
        } else {
            scaled
        };
        line.append(blocks.substring_char(index as usize, index as usize + 1));
        proof {
            assert(index == glyph_index(wave_height(i as int, crests@), decay as int));
            assert(blocks@.subrange(index as int, index + 1) =~= seq![wave_glyphs()[index as int]]);
        }
        i = i + 1;
        assert(line@ =~= Seq::new(
            i as nat,
            |c: int| wave_glyphs()[glyph_index(wave_height(c, crests@), decay as int)],
        ));
    }
    line
}

fn copy_of(crests: &Vec<Crest>) -> (copy: Vec<Crest>)
    ensures
        copy@ == crests@,
{
    let mut copy: Vec<Crest> = Vec::new();
    let mut k: usize = 0;
    while k < crests.len()
        invariant
            k <= crests@.len(),
            copy@ == crests@.subrange(0, k as int),
        decreases crests@.len() - k,
    {
        copy.push(crests[k]);
        k = k + 1;
        assert(copy@ =~= crests@.subrange(0, k as int));
    }
    assert(crests@.subrange(0, k as int) =~= crests@);
    copy
}

impl View for Wave {
    type V = Seq<Crest>;

    closed spec fn view(&self) -> Seq<Crest> {
        self.crests@
    }
}

impl Wave {
    #[verifier::type_invariant]
    spec fn inv(self) -> bool {
        forall|k: int| 0 <= k < self.crests@.len() ==> sweeping(#[trigger] self.crests@[k])
    }

    /// The wave at its first frame.
    pub fn new() -> (wave: Wave)
        ensures
            wave@ == wave_start(),
    {
        let crests = vec![
            Crest { pos: 0, forward: true },
            Crest { pos: -2, forward: false },
            Crest { pos: 2, forward: true },
        ];
        assert(crests@ =~= wave_start());
        Wave { crests }
    }

    /// The crests as they stand in the current frame.
    pub fn crests(&self) -> (crests: Vec<Crest>)
        ensures
            crests@ == self@,
    {
        copy_of(&self.crests)
    }

    /// The row of glyphs of the current frame.
    pub fn line(&self) -> (line: String)
        ensures
            line@ == line_chars(self@, 80),
    {
        proof {
            use_type_invariant(self);
        }
        draw_line(&self.crests, 80)
    }

    /// Moves every crest on by one frame.
    pub fn advance(&mut self)
        ensures
            final(self)@.len() == old(self)@.len(),
            forall|k: int|
                0 <= k < old(self)@.len() ==> final(self)@[k] == swept(#[trigger] old(self)@[k]),
    {
        proof {
            use_type_invariant(&*self);
        }
        let mut moved: Vec<Crest> = Vec::new();
        let mut k: usize = 0;
        while k < self.crests.len()
            invariant
                k <= self.crests@.len(),
                moved@.len() == k,
                forall|j: int|
                    0 <= j < self.crests@.len() ==> sweeping(#[trigger] self.crests@[j]),
                forall|j: int| 0 <= j < k ==> moved@[j] == swept(#[trigger] self.crests@[j]),
                forall|j: int| 0 <= j < k ==> sweeping(#[trigger] moved@[j]),
            decreases self.crests@.len() - k,
        {
            let c: Crest = self.crests[k];
            let pos: i32 = if c.forward {
                c.pos + 1
            } else {
                c.pos - 1
            };
            let forward: bool = if pos > 14 || pos < -14 {
                !c.forward
            } else {
                c.forward
            };
            moved.push(Crest { pos, forward });
            k = k + 1;
        }
        self.crests = moved;
    }
}

impl View for Ebb {
    type V = (Seq<Crest>, nat);

    closed spec fn view(&self) -> (Seq<Crest>, nat) {
        (self.crests@, self.counter as nat)
    }
}

impl Ebb {
    #[verifier::type_invariant]
    spec fn inv(self) -> bool {
        &&& self.counter <= 80
        &&& forall|k: int| 0 <= k < self.crests@.len() ==> on_ring(#[trigger] self.crests@[k])
    }

    /// The countdown at its first frame.
    pub fn new() -> (ebb: Ebb)
        ensures
            ebb@ == (ebb_start(), 0nat),
    {
        let crests = vec![
            Crest { pos: 12, forward: false },
            Crest { pos: 12, forward: true },
            Crest { pos: 12, forward: false },
        ];
        assert(crests@ =~= ebb_start());
        Ebb { crests, counter: 0 }
    }

    /// The crests as they stand in the current frame.
    pub fn crests(&self) -> (crests: Vec<Crest>)
        ensures
            crests@ == self@.0,
    {
        copy_of(&self.crests)
    }

    /// The number of frames that have passed.
    pub fn counter(&self) -> (counter: u32)
        ensures
            counter == self@.1,
    {
        self.counter
    }

    /// The current frame, or `None` once the countdown is over.
    pub fn frame(&self) -> (frame: Option<EbbFrame>)
        ensures
            frame is Some <==> self@.1 < 80,
            frame matches Some(f) ==> {
                &&& f.line@ == line_chars(self@.0, 80 - self@.1)
                &&& f.remaining_secs == 4 - self@.1 / 20
                &&& f.dots == self@.1 % 16 / 4
            },
    {
        proof {
            use_type_invariant(self);
        }
        if self.counter >= EBB_FRAMES {
            return None;
        }
        Some(
            EbbFrame {
                line: draw_line(&self.crests, 80 - self.counter),
                remaining_secs: 4 - self.counter / 20,
                dots: self.counter % 16 / 4,
            },
        )
    }

    /// Moves on to the next frame. Once the countdown is over nothing
    /// changes any more.
    pub fn advance(&mut self)
        ensures
            old(self)@.1 >= 80 ==> final(self)@ == old(self)@,
            old(self)@.1 < 80 ==> {
                &&& final(self)@.1 == old(self)@.1 + 1
                &&& final(self)@.0.len() == old(self)@.0.len()
                &&& forall|k: int|
                    0 <= k < old(self)@.0.len() ==> final(self)@.0[k] == ebbed(
                        #[trigger] old(self)@.0[k],
                        old(self)@.1 as int,
                    )
            },
    {
        proof {
            use_type_invariant(&*self);
        }
        if self.counter >= EBB_FRAMES {
            return ;
        }
        let stride: i32 = ((80 - self.counter) / 20) as i32;
        let mut moved: Vec<Crest> = Vec::new();
        let mut k: usize = 0;
        while k < self.crests.len()
            invariant
                k <= self.crests@.len(),
                moved@.len() == k,
                self.counter < 80,
                stride == ebb_stride(self.counter as int),
                0 <= stride <= 4,
                forall|j: int| 0 <= j < self.crests@.len() ==> on_ring(#[trigger] self.crests@[j]),
                forall|j: int| 0 <= j < k ==> on_ring(#[trigger] moved@[j]),
                forall|j: int|
                    0 <= j < k ==> moved@[j] == ebbed(
                        #[trigger] self.crests@[j],
                        self.counter as int,
                    ),
            decreases self.crests@.len() - k,
        {
            let c: Crest = self.crests[k];
            let shifted: i32 = if c.forward {
                c.pos + stride + 29
            } else {
                c.pos - stride + 29
            };
            let pos: i32 = ((shifted as u32) % 29) as i32;
            moved.push(Crest { pos, forward: c.forward });
            k = k + 1;
        }
        self.crests = moved;
        self.counter = self.counter + 1;
    }
}

} // verus!
