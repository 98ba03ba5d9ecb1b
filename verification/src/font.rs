//! The curve atlas: three shared curve buffers and a cache of glyph records.

use crate::curve::{cubics_of, lines_of, quads_of, Bez2, Bez3, Line, Segment, Shape, Vec2};
use std::collections::HashMap;
use vstd::prelude::*;

verus! {

broadcast use vstd::std_specs::hash::group_hash_axioms;

/// Where the curves of one kind of one glyph lie in that kind's buffer.
///
/// Both numbers count curves, not coordinates and not bytes.
#[derive(Debug, Clone, Copy, PartialEq, Eq, Structural)]
pub struct GlyphOffLen {
    pub position: u32,
    pub len: u32,
}

/// The record of one cached glyph.
///
/// `advance` and the coordinates of `dimensions` and `offset` are bit
/// patterns of single precision numbers.
#[derive(Debug, Clone, Copy, PartialEq, Eq, Structural)]
pub struct GlyphInfo {
    pub line_off: GlyphOffLen,
    pub bez2_off: GlyphOffLen,
    pub bez3_off: GlyphOffLen,
    pub dimensions: Vec2,
    pub offset: Vec2,
    pub glyph_id: u16,
    pub advance: u32,
}

/// What a font gives for one character: the glyph's identifier, its advance
/// width over units per em, and its outline where it has one.
#[derive(Debug, Clone)]
pub struct GlyphSource {
    pub glyph_id: u16,
    pub advance: u32,
    pub outline: Option<Shape>,
}

/// The atlas as a mathematical value.
pub struct Atlas {
    pub lines: Seq<Line>,
    pub quads: Seq<Bez2>,
    pub cubics: Seq<Bez3>,
    /// Records by the character's scalar value.
    pub locations: Map<u32, GlyphInfo>,
    /// Characters by glyph identifier.
    pub char_map: Map<u16, char>,
}

impl GlyphSource {
    /// The curves of the outline; none where the glyph has no outline.
    pub open spec fn segments(self) -> Seq<Segment> {
        match self.outline {
            Some(shape) => shape.segments@,
            None => Seq::empty(),
        }
    }

    /// Size of the outline's box; zero where the glyph has no outline.
    pub open spec fn dimensions(self) -> Vec2 {
        match self.outline {
            Some(shape) => shape.dimensions,
            None => Vec2 { x: 0, y: 0 },
        }
    }

    /// Least corner of the outline's box; zero where the glyph has no outline.
    pub open spec fn offset(self) -> Vec2 {
        match self.outline {
            Some(shape) => shape.offset,
            None => Vec2 { x: 0, y: 0 },
        }
    }
}

impl Atlas {
    /// The atlas without curves or records.
    pub open spec fn empty(char_map: Map<u16, char>) -> Atlas {
        Atlas {
            lines: Seq::empty(),
            quads: Seq::empty(),
            cubics: Seq::empty(),
            locations: Map::empty(),
            char_map,
        }
    }

    /// `info` points into the three buffers as they are.
    pub open spec fn holds(self, info: GlyphInfo) -> bool {
        &&& info.line_off.position + info.line_off.len <= self.lines.len()
        &&& info.bez2_off.position + info.bez2_off.len <= self.quads.len()
        &&& info.bez3_off.position + info.bez3_off.len <= self.cubics.len()
    }

    /// Curve counts fit the record's integers and every record points into
    /// the buffers.
    pub open spec fn wf(self) -> bool {
        &&& self.lines.len() <= u32::MAX
        &&& self.quads.len() <= u32::MAX
        &&& self.cubics.len() <= u32::MAX
        &&& forall|k: u32| #[trigger] self.locations.contains_key(k) ==> self.holds(self.locations[k])
    }

    /// The curves `segs` can be appended without a count leaving `u32`.
    pub open spec fn fits(self, segs: Seq<Segment>) -> bool {
        &&& self.lines.len() + lines_of(segs).len() <= u32::MAX
        &&& self.quads.len() + quads_of(segs).len() <= u32::MAX
        &&& self.cubics.len() + cubics_of(segs).len() <= u32::MAX
    }

    /// The record that `glyph` gets when its curves are appended now.
    pub open spec fn placed(self, glyph: GlyphSource) -> GlyphInfo {
        GlyphInfo {
            line_off: GlyphOffLen {
                position: self.lines.len() as u32,
                len: lines_of(glyph.segments()).len() as u32,
            },
            bez2_off: GlyphOffLen {
                position: self.quads.len() as u32,
                len: quads_of(glyph.segments()).len() as u32,
            },
            bez3_off: GlyphOffLen {
                position: self.cubics.len() as u32,
                len: cubics_of(glyph.segments()).len() as u32,
            },
            dimensions: glyph.dimensions(),
            offset: glyph.offset(),
            glyph_id: glyph.glyph_id,
            advance: glyph.advance,
        }
    }

    /// What a request for `c` returns when the font gives `glyph` for it.
    pub open spec fn load_result(self, c: char, glyph: GlyphSource) -> Option<GlyphInfo> {
        if self.locations.contains_key(c as u32) {
            Some(self.locations[c as u32])
        } else if self.fits(glyph.segments()) {
            Some(self.placed(glyph))
        } else {
            None
        }
    }

    /// The atlas after a request for `c` when the font gives `glyph` for it.
    pub open spec fn load(self, c: char, glyph: GlyphSource) -> Atlas {
        if self.locations.contains_key(c as u32) || !self.fits(glyph.segments()) {
            self
        } else {
            Atlas {
                lines: self.lines + lines_of(glyph.segments()),
                quads: self.quads + quads_of(glyph.segments()),
                cubics: self.cubics + cubics_of(glyph.segments()),
                locations: self.locations.insert(c as u32, self.placed(glyph)),
                char_map: self.char_map,
            }
        }
    }

    /// The atlas after the requests `glyphs`, first to last.
    pub open spec fn load_all(self, glyphs: Seq<(char, GlyphSource)>) -> Atlas
        decreases glyphs.len(),
    {
        if glyphs.len() == 0 {
            self
        } else {
            self.load_all(glyphs.drop_last()).load(glyphs.last().0, glyphs.last().1)
        }
    }
}

/// The map that takes each glyph identifier of `pairs` to its character; of
/// two pairs with one identifier the later counts.
pub open spec fn code_map(pairs: Seq<(u16, char)>) -> Map<u16, char>
    decreases pairs.len(),
{
    if pairs.len() == 0 {
        Map::empty()
    } else {
        code_map(pairs.drop_last()).insert(pairs.last().0, pairs.last().1)
    }
}

/// The line whose coordinates start at index `4 * i` of `buf`.
pub open spec fn line_at(buf: Seq<u32>, i: int) -> Line {
    Line(
        Vec2 { x: buf[4 * i], y: buf[4 * i + 1] },
        Vec2 { x: buf[4 * i + 2], y: buf[4 * i + 3] },
    )
}

/// The quadratic curve whose coordinates start at index `6 * i` of `buf`.
pub open spec fn quad_at(buf: Seq<u32>, i: int) -> Bez2 {
    Bez2(
        Vec2 { x: buf[6 * i], y: buf[6 * i + 1] },
        Vec2 { x: buf[6 * i + 2], y: buf[6 * i + 3] },
        Vec2 { x: buf[6 * i + 4], y: buf[6 * i + 5] },
    )
}

/// The cubic curve whose coordinates start at index `8 * i` of `buf`.
pub open spec fn cubic_at(buf: Seq<u32>, i: int) -> Bez3 {
    Bez3(
        Vec2 { x: buf[8 * i], y: buf[8 * i + 1] },
        Vec2 { x: buf[8 * i + 2], y: buf[8 * i + 3] },
        Vec2 { x: buf[8 * i + 4], y: buf[8 * i + 5] },
        Vec2 { x: buf[8 * i + 6], y: buf[8 * i + 7] },
    )
}

/// The first `n` lines laid out in `buf`.
pub open spec fn lines_in(buf: Seq<u32>, n: nat) -> Seq<Line> {
    Seq::new(n, |i: int| line_at(buf, i))
}

/// The first `n` quadratic curves laid out in `buf`.
pub open spec fn quads_in(buf: Seq<u32>, n: nat) -> Seq<Bez2> {
    Seq::new(n, |i: int| quad_at(buf, i))
}

/// The first `n` cubic curves laid out in `buf`.
pub open spec fn cubics_in(buf: Seq<u32>, n: nat) -> Seq<Bez3> {
    Seq::new(n, |i: int| cubic_at(buf, i))
}

/// `offsets` numbers the curves of a buffer of `width` coordinates a curve:
/// entry `i` is `i`, the index of curve `i` among the buffer's curves.
pub open spec fn indexed(buf: Seq<u32>, offsets: Seq<u32>, width: int) -> bool {
    &&& buf.len() == width * offsets.len()
    &&& offsets.len() <= u32::MAX
    &&& forall|i: int| 0 <= i < offsets.len() ==> #[trigger] offsets[i] == i
}

/// The shared curve buffers, their index arrays and the glyph cache.
#[derive(Debug, Clone)]
pub struct FontContainer {
    /// Coordinates of the lines, four a line.
    pub linear_points_buffer: Vec<u32>,
    /// Coordinates of the quadratic curves, six a curve.
    pub quadratic_points_buffer: Vec<u32>,
    /// Coordinates of the cubic curves, eight a curve.
    pub cubic_points_buffer: Vec<u32>,
    /// For each line its index among the lines.
    pub line_curve_offsets: Vec<u32>,
    /// For each quadratic curve its index among the quadratic curves.
    pub quadratic_curve_offsets: Vec<u32>,
    /// For each cubic curve its index among the cubic curves.
    pub cubic_curve_offsets: Vec<u32>,
    /// The cached records, by the character's scalar value.
    pub locations: HashMap<u32, GlyphInfo>,
    /// The font's characters by glyph identifier.
    pub char_map: HashMap<u16, char>,
}

impl View for FontContainer {
    type V = Atlas;

    open spec fn view(&self) -> Atlas {
        Atlas {
            lines: lines_in(self.linear_points_buffer@, self.line_curve_offsets@.len()),
            quads: quads_in(self.quadratic_points_buffer@, self.quadratic_curve_offsets@.len()),
            cubics: cubics_in(self.cubic_points_buffer@, self.cubic_curve_offsets@.len()),
            locations: self.locations@,
            char_map: self.char_map@,
        }
    }
}


/// The lines of a prefix are no more than the lines of the whole.
proof fn lemma_lines_prefix(segs: Seq<Segment>, i: int)
    requires
        0 <= i <= segs.len(),
    ensures
        lines_of(segs.take(i)).len() <= lines_of(segs).len(),
        quads_of(segs.take(i)).len() <= quads_of(segs).len(),
        cubics_of(segs.take(i)).len() <= cubics_of(segs).len(),
    decreases segs.len(),
{
    if i == segs.len() {
        assert(segs.take(i) =~= segs);
    } else {
        assert(segs.take(i) =~= segs.drop_last().take(i));
        lemma_lines_prefix(segs.drop_last(), i);
    }
}

/// Taking one more segment appends it to the list of its kind.
proof fn lemma_take_step(segs: Seq<Segment>, i: int)
    requires
        0 <= i < segs.len(),
    ensures
        lines_of(segs.take(i + 1)) == match segs[i] {
            Segment::LINE(l) => lines_of(segs.take(i)).push(l),
            _ => lines_of(segs.take(i)),
        },
        quads_of(segs.take(i + 1)) == match segs[i] {
            Segment::BEZ2(b) => quads_of(segs.take(i)).push(b),
            _ => quads_of(segs.take(i)),
        },
        cubics_of(segs.take(i + 1)) == match segs[i] {
            Segment::BEZ3(b) => cubics_of(segs.take(i)).push(b),
            _ => cubics_of(segs.take(i)),
        },
{
    assert(segs.take(i + 1).drop_last() =~= segs.take(i));
    assert(segs.take(i + 1).last() == segs[i]);
}

/// How many curves of each kind `segs` holds: lines, quadratic, cubic.
pub fn count_kinds(segs: &Vec<Segment>) -> (r: (usize, usize, usize))
    ensures
        r.0 == lines_of(segs@).len(),
        r.1 == quads_of(segs@).len(),
        r.2 == cubics_of(segs@).len(),
{
    let mut lines: usize = 0;
    let mut quads: usize = 0;
    let mut cubics: usize = 0;
    let mut i: usize = 0;
    while i < segs.len()
        invariant
            0 <= i <= segs@.len(),
            lines == lines_of(segs@.take(i as int)).len(),
            quads == quads_of(segs@.take(i as int)).len(),
            cubics == cubics_of(segs@.take(i as int)).len(),
            lines + quads + cubics == i,
        decreases segs@.len() - i,
    {
        proof {
            lemma_take_step(segs@, i as int);
        }
        match segs[i] {
            Segment::LINE(_) => {
                lines = lines + 1;
            },
            Segment::BEZ2(_) => {
                quads = quads + 1;
            },
            Segment::BEZ3(_) => {
                cubics = cubics + 1;
            },
        }
        i = i + 1;
    }
    proof {
        assert(segs@.take(i as int) =~= segs@);
    }
    (lines, quads, cubics)
}

/// Appends `line` to a line buffer and numbers it in the index array.
fn push_line(buf: &mut Vec<u32>, offsets: &mut Vec<u32>, line: Line)
    requires
        indexed(old(buf)@, old(offsets)@, 4),
        old(offsets)@.len() < u32::MAX,
    ensures
        indexed(final(buf)@, final(offsets)@, 4),
        final(offsets)@.len() == old(offsets)@.len() + 1,
        lines_in(final(buf)@, final(offsets)@.len()) == lines_in(
            old(buf)@,
            old(offsets)@.len(),
        ).push(line),
{
    let at: u32 = (buf.len() / 4) as u32;
    offsets.push(at);
    buf.push(line.0.x);
    buf.push(line.0.y);
    buf.push(line.1.x);
    buf.push(line.1.y);
    proof {
        assert(lines_in(buf@, offsets@.len()) =~= lines_in(old(buf)@, old(offsets)@.len()).push(
            line,
        ));
    }
}

/// Appends `curve` to a quadratic buffer and numbers it in the index array.
fn push_quad(buf: &mut Vec<u32>, offsets: &mut Vec<u32>, curve: Bez2)
    requires
        indexed(old(buf)@, old(offsets)@, 6),
        old(offsets)@.len() < u32::MAX,
    ensures
        indexed(final(buf)@, final(offsets)@, 6),
        final(offsets)@.len() == old(offsets)@.len() + 1,
        quads_in(final(buf)@, final(offsets)@.len()) == quads_in(
            old(buf)@,
            old(offsets)@.len(),
        ).push(curve),
{
    let at: u32 = (buf.len() / 6) as u32;
    offsets.push(at);
    buf.push(curve.0.x);
    buf.push(curve.0.y);
    buf.push(curve.1.x);
    buf.push(curve.1.y);
    buf.push(curve.2.x);
    buf.push(curve.2.y);
    proof {
        assert(quads_in(buf@, offsets@.len()) =~= quads_in(old(buf)@, old(offsets)@.len()).push(
            curve,
        ));
    }
}

/// Appends `curve` to a cubic buffer and numbers it in the index array.
fn push_cubic(buf: &mut Vec<u32>, offsets: &mut Vec<u32>, curve: Bez3)
    requires
        indexed(old(buf)@, old(offsets)@, 8),
        old(offsets)@.len() < u32::MAX,
    ensures
        indexed(final(buf)@, final(offsets)@, 8),
        final(offsets)@.len() == old(offsets)@.len() + 1,
        cubics_in(final(buf)@, final(offsets)@.len()) == cubics_in(
            old(buf)@,
            old(offsets)@.len(),
        ).push(curve),
{
    let at: u32 = (buf.len() / 8) as u32;
    offsets.push(at);
    buf.push(curve.0.x);
    buf.push(curve.0.y);
    buf.push(curve.1.x);
    buf.push(curve.1.y);
    buf.push(curve.2.x);
    buf.push(curve.2.y);
    buf.push(curve.3.x);
    buf.push(curve.3.y);
    proof {
        assert(cubics_in(buf@, offsets@.len()) =~= cubics_in(old(buf)@, old(offsets)@.len()).push(
            curve,
        ));
    }
}

impl FontContainer {
    /// Each buffer holds whole curves, each index array numbers them, and
    /// the atlas is well formed.
    pub open spec fn wf(&self) -> bool {
        &&& indexed(self.linear_points_buffer@, self.line_curve_offsets@, 4)
        &&& indexed(self.quadratic_points_buffer@, self.quadratic_curve_offsets@, 6)
        &&& indexed(self.cubic_points_buffer@, self.cubic_curve_offsets@, 8)
        &&& self@.wf()
    }

    /// Appends the curves of `segs`, each to the buffer of its kind.
    fn append(&mut self, segs: &Vec<Segment>)
        requires
            old(self).wf(),
            old(self)@.fits(segs@),
        ensures
            indexed(final(self).linear_points_buffer@, final(self).line_curve_offsets@, 4),
            indexed(final(self).quadratic_points_buffer@, final(self).quadratic_curve_offsets@, 6),
            indexed(final(self).cubic_points_buffer@, final(self).cubic_curve_offsets@, 8),
            final(self)@.lines == old(self)@.lines + lines_of(segs@),
            final(self)@.quads == old(self)@.quads + quads_of(segs@),
            final(self)@.cubics == old(self)@.cubics + cubics_of(segs@),
            final(self).locations == old(self).locations,
            final(self).char_map == old(self).char_map,
    {
        let ghost pre = self@;
        let mut i: usize = 0;
        proof {
            assert(self@.lines =~= pre.lines + lines_of(segs@.take(0)));
            assert(self@.quads =~= pre.quads + quads_of(segs@.take(0)));
            assert(self@.cubics =~= pre.cubics + cubics_of(segs@.take(0)));
        }
        while i < segs.len()
            invariant
                0 <= i <= segs@.len(),
                pre.fits(segs@),
                indexed(self.linear_points_buffer@, self.line_curve_offsets@, 4),
                indexed(self.quadratic_points_buffer@, self.quadratic_curve_offsets@, 6),
                indexed(self.cubic_points_buffer@, self.cubic_curve_offsets@, 8),
                self@.lines == pre.lines + lines_of(segs@.take(i as int)),
                self@.quads == pre.quads + quads_of(segs@.take(i as int)),
                self@.cubics == pre.cubics + cubics_of(segs@.take(i as int)),
                self.locations == old(self).locations,
                self.char_map == old(self).char_map,
            decreases segs@.len() - i,
        {
            proof {
                lemma_take_step(segs@, i as int);
                lemma_lines_prefix(segs@, i as int + 1);
                assert(self@.lines.len() == self.line_curve_offsets@.len());
                assert(self@.quads.len() == self.quadratic_curve_offsets@.len());
                assert(self@.cubics.len() == self.cubic_curve_offsets@.len());
                assert(self@.lines.len() == pre.lines.len() + lines_of(segs@.take(i as int)).len());
                assert(self@.quads.len() == pre.quads.len() + quads_of(segs@.take(i as int)).len());
                assert(self@.cubics.len() == pre.cubics.len() + cubics_of(
                    segs@.take(i as int),
                ).len());
            }
            match segs[i] {
                Segment::LINE(line) => {
                    push_line(&mut self.linear_points_buffer, &mut self.line_curve_offsets, line);
                    proof {
                        assert(self@.lines =~= pre.lines + lines_of(segs@.take(i as int + 1)));
                    }
                },
                Segment::BEZ2(curve) => {
                    push_quad(
                        &mut self.quadratic_points_buffer,
                        &mut self.quadratic_curve_offsets,
                        curve,
                    );
                    proof {
                        assert(self@.quads =~= pre.quads + quads_of(segs@.take(i as int + 1)));
                    }
                },
                Segment::BEZ3(curve) => {
                    push_cubic(&mut self.cubic_points_buffer, &mut self.cubic_curve_offsets, curve);
                    proof {
                        assert(self@.cubics =~= pre.cubics + cubics_of(segs@.take(i as int + 1)));
                    }
                },
            }
            i = i + 1;
        }
        proof {
            assert(segs@.take(i as int) =~= segs@);
        }
    }
}


impl FontContainer {
    /// A container without curves or records, for a font with no character.
    pub fn empty() -> (r: FontContainer)
        ensures
            r.wf(),
            r@ == Atlas::empty(Map::empty()),
    {
        let r = FontContainer {
            linear_points_buffer: Vec::new(),
            quadratic_points_buffer: Vec::new(),
            cubic_points_buffer: Vec::new(),
            line_curve_offsets: Vec::new(),
            quadratic_curve_offsets: Vec::new(),
            cubic_curve_offsets: Vec::new(),
            locations: HashMap::new(),
            char_map: HashMap::new(),
        };
        proof {
            assert(r@.lines =~= Seq::empty());
            assert(r@.quads =~= Seq::empty());
            assert(r@.cubics =~= Seq::empty());
        }
        r
    }

    /// Builds the container of a font: `codepoints` are the font's pairs of
    /// glyph identifier and character, `glyphs` what the font gives for each
    /// requested character, in the order of the requests. A character that
    /// is requested again keeps its first record.
    pub fn new(codepoints: Vec<(u16, char)>, glyphs: Vec<(char, GlyphSource)>) -> (r: FontContainer)
        ensures
            r.wf(),
            r@ == Atlas::empty(code_map(codepoints@)).load_all(glyphs@),
    {
        let mut r = FontContainer::empty();
        let mut i: usize = 0;
        while i < codepoints.len()
            invariant
                0 <= i <= codepoints@.len(),
                r.wf(),
                r@ == Atlas::empty(code_map(codepoints@.take(i as int))),
            decreases codepoints@.len() - i,
        {
            let pair = codepoints[i];
            r.char_map.insert(pair.0, pair.1);
            proof {
                assert(codepoints@.take(i as int + 1).drop_last() =~= codepoints@.take(i as int));
                assert(r@ =~= Atlas::empty(code_map(codepoints@.take(i as int + 1))));
            }
            i = i + 1;
        }
        proof {
            assert(codepoints@.take(i as int) =~= codepoints@);
        }
        let ghost start = r@;
        let mut j: usize = 0;
        while j < glyphs.len()
            invariant
                0 <= j <= glyphs@.len(),
                r.wf(),
                r@ == start.load_all(glyphs@.take(j as int)),
            decreases glyphs@.len() - j,
        {
            let entry = &glyphs[j];
            r.load_char(entry.0, &entry.1);
            proof {
                assert(glyphs@.take(j as int + 1).drop_last() =~= glyphs@.take(j as int));
            }
            j = j + 1;
        }
        proof {
            assert(glyphs@.take(j as int) =~= glyphs@);
        }
        r
    }

    /// The record of `c` where it is cached.
    pub fn cached(&self, c: char) -> (r: Option<GlyphInfo>)
        ensures
            r == (if self@.locations.contains_key(c as u32) {
                Some(self@.locations[c as u32])
            } else {
                None
            }),
    {
        let key: u32 = c as u32;
        match self.locations.get(&key) {
            Some(info) => Some(*info),
            None => None,
        }
    }

    /// The character of glyph `id` in the font, where it has one.
    pub fn char_of(&self, id: u16) -> (r: Option<char>)
        ensures
            r == (if self@.char_map.contains_key(id) {
                Some(self@.char_map[id])
            } else {
                None
            }),
    {
        match self.char_map.get(&id) {
            Some(c) => Some(*c),
            None => None,
        }
    }

    /// The line with index `i` among the lines, where there is one.
    pub fn line(&self, i: usize) -> (r: Option<Line>)
        requires
            self.wf(),
        ensures
            r == (if i < self@.lines.len() {
                Some(self@.lines[i as int])
            } else {
                None
            }),
    {
        if i >= self.line_curve_offsets.len() {
            return None;
        }
        let buf = &self.linear_points_buffer;
        let total: usize = buf.len();
        assert(total == 4 * self.line_curve_offsets@.len());
        let at: usize = 4 * i;
        Some(Line(Vec2 { x: buf[at], y: buf[at + 1] }, Vec2 { x: buf[at + 2], y: buf[at + 3] }))
    }

    /// The quadratic curve with index `i` among the quadratic curves, where
    /// there is one.
    pub fn quadratic(&self, i: usize) -> (r: Option<Bez2>)
        requires
            self.wf(),
        ensures
            r == (if i < self@.quads.len() {
                Some(self@.quads[i as int])
            } else {
                None
            }),
    {
        if i >= self.quadratic_curve_offsets.len() {
            return None;
        }
        let buf = &self.quadratic_points_buffer;
        let total: usize = buf.len();
        assert(total == 6 * self.quadratic_curve_offsets@.len());
        let at: usize = 6 * i;
        Some(
            Bez2(
                Vec2 { x: buf[at], y: buf[at + 1] },
                Vec2 { x: buf[at + 2], y: buf[at + 3] },
                Vec2 { x: buf[at + 4], y: buf[at + 5] },
            ),
        )
    }

    /// The cubic curve with index `i` among the cubic curves, where there
    /// is one.
    pub fn cubic(&self, i: usize) -> (r: Option<Bez3>)
        requires
            self.wf(),
        ensures
            r == (if i < self@.cubics.len() {
                Some(self@.cubics[i as int])
            } else {
                None
            }),
    {
        if i >= self.cubic_curve_offsets.len() {
            return None;
        }
        let buf = &self.cubic_points_buffer;
        let total: usize = buf.len();
        assert(total == 8 * self.cubic_curve_offsets@.len());
        let at: usize = 8 * i;
        Some(
            Bez3(
                Vec2 { x: buf[at], y: buf[at + 1] },
                Vec2 { x: buf[at + 2], y: buf[at + 3] },
                Vec2 { x: buf[at + 4], y: buf[at + 5] },
                Vec2 { x: buf[at + 6], y: buf[at + 7] },
            ),
        )
    }

    /// Answers a request for `c`, for which the font gives `glyph`.
    ///
    /// A cached character is answered from the cache and nothing changes.
    /// Otherwise the glyph's curves are appended to the buffers of their
    /// kinds and the new record is cached and returned; a glyph without an
    /// outline gets a record of three empty ranges. Where the curves would
    /// take a curve count beyond `u32`, nothing changes and the answer is
    /// `None`.
    pub fn load_char(&mut self, c: char, glyph: &GlyphSource) -> (r: Option<GlyphInfo>)
        requires
            old(self).wf(),
        ensures
            final(self).wf(),
            final(self)@ == old(self)@.load(c, *glyph),
            r == old(self)@.load_result(c, *glyph),
            old(self)@.locations.contains_key(c as u32) || !old(self)@.fits(glyph.segments())
                ==> *final(self) == *old(self),
    {
        let key: u32 = c as u32;
        match self.locations.get(&key) {
            Some(info) => {
                return Some(*info);
            },
            None => {},
        }
        let counts: (usize, usize, usize) = match &glyph.outline {
            Some(shape) => count_kinds(&shape.segments),
            None => (0, 0, 0),
        };
        let limit: usize = u32::MAX as usize;
        let lines_at: usize = self.line_curve_offsets.len();
        let quads_at: usize = self.quadratic_curve_offsets.len();
        let cubics_at: usize = self.cubic_curve_offsets.len();
        proof {
            assert(self@.lines.len() == lines_at);
            assert(self@.quads.len() == quads_at);
            assert(self@.cubics.len() == cubics_at);
        }
        if counts.0 > limit - lines_at || counts.1 > limit - quads_at || counts.2 > limit
            - cubics_at {
            return None;
        }
        let info = GlyphInfo {
            line_off: GlyphOffLen { position: lines_at as u32, len: counts.0 as u32 },
            bez2_off: GlyphOffLen { position: quads_at as u32, len: counts.1 as u32 },
            bez3_off: GlyphOffLen { position: cubics_at as u32, len: counts.2 as u32 },
            dimensions: match &glyph.outline {
                Some(shape) => shape.dimensions,
                None => Vec2 { x: 0, y: 0 },
            },
            offset: match &glyph.outline {
                Some(shape) => shape.offset,
                None => Vec2 { x: 0, y: 0 },
            },
            glyph_id: glyph.glyph_id,
            advance: glyph.advance,
        };
        match &glyph.outline {
            Some(shape) => {
                self.append(&shape.segments);
            },
            None => {},
        }
        self.locations.insert(key, info);
        proof {
            let pre = old(self)@;
            assert(info == pre.placed(*glyph));
            assert(self@ =~= pre.load(c, *glyph));
            assert forall|k: u32| #[trigger] self@.locations.contains_key(k) implies self@.holds(
                self@.locations[k],
            ) by {
                if k != key {
                    assert(pre.locations.contains_key(k));
                    assert(pre.holds(pre.locations[k]));
                }
            }
        }
        Some(info)
    }

    /// Answers a request for the character that the font has for glyph
    /// `id`, as `load_char` does; `None` and no change where the font has no
    /// character for it.
    pub fn load_char_with_id(&mut self, id: u16, glyph: &GlyphSource) -> (r: Option<GlyphInfo>)
        requires
            old(self).wf(),
        ensures
            final(self).wf(),
            old(self)@.char_map.contains_key(id) ==> {
                &&& final(self)@ == old(self)@.load(old(self)@.char_map[id], *glyph)
                &&& r == old(self)@.load_result(old(self)@.char_map[id], *glyph)
            },
            !old(self)@.char_map.contains_key(id) ==> r.is_none() && *final(self) == *old(self),
    {
        match self.char_map.get(&id) {
            Some(c) => {
                let c: char = *c;
                self.load_char(c, glyph)
            },
            None => None,
        }
    }
}


/// A request keeps the atlas well formed, and the record it returns points
/// into the buffers as they are after the request: in each kind, offset plus
/// length is at most the number of curves then in the buffer.
pub proof fn law_record_in_range(a: Atlas, c: char, glyph: GlyphSource)
    requires
        a.wf(),
    ensures
        a.load(c, glyph).wf(),
        a.load_result(c, glyph) matches Some(info) ==> a.load(c, glyph).holds(info),
{
    let b = a.load(c, glyph);
    assert forall|k: u32| #[trigger] b.locations.contains_key(k) implies b.holds(
        b.locations[k],
    ) by {
        if k != c as u32 {
            assert(a.locations.contains_key(k));
        }
    }
}

/// The atlas is append-only: a request leaves every curve where it was and
/// every cached record as it was.
pub proof fn law_load_appends(a: Atlas, c: char, glyph: GlyphSource)
    ensures
        a.lines.is_prefix_of(a.load(c, glyph).lines),
        a.quads.is_prefix_of(a.load(c, glyph).quads),
        a.cubics.is_prefix_of(a.load(c, glyph).cubics),
        a.locations.submap_of(a.load(c, glyph).locations),
        a.load(c, glyph).char_map == a.char_map,
{
}

/// A run of requests keeps the atlas well formed, leaves every curve where
/// it was and every cached record as it was.
pub proof fn law_load_all_appends(a: Atlas, glyphs: Seq<(char, GlyphSource)>)
    requires
        a.wf(),
    ensures
        a.load_all(glyphs).wf(),
        a.lines.is_prefix_of(a.load_all(glyphs).lines),
        a.quads.is_prefix_of(a.load_all(glyphs).quads),
        a.cubics.is_prefix_of(a.load_all(glyphs).cubics),
        a.locations.submap_of(a.load_all(glyphs).locations),
        a.load_all(glyphs).char_map == a.char_map,
    decreases glyphs.len(),
{
    if glyphs.len() > 0 {
        let mid = a.load_all(glyphs.drop_last());
        law_load_all_appends(a, glyphs.drop_last());
        law_record_in_range(mid, glyphs.last().0, glyphs.last().1);
        law_load_appends(mid, glyphs.last().0, glyphs.last().1);
    }
}

/// Offsets never go back and ranges never overlap: where a glyph is
/// inserted and, after any run of requests, a second one is inserted, the
/// second glyph's range of each kind starts at or after the end of the
/// first glyph's range.
pub proof fn law_offsets_non_decreasing(
    a: Atlas,
    c1: char,
    g1: GlyphSource,
    between: Seq<(char, GlyphSource)>,
    c2: char,
    g2: GlyphSource,
)
    requires
        a.wf(),
        !a.locations.contains_key(c1 as u32),
        a.fits(g1.segments()),
        !a.load(c1, g1).load_all(between).locations.contains_key(c2 as u32),
        a.load(c1, g1).load_all(between).fits(g2.segments()),
    ensures
        ({
            let first = a.load_result(c1, g1).unwrap();
            let second = a.load(c1, g1).load_all(between).load_result(c2, g2).unwrap();
            &&& first.line_off.position + first.line_off.len <= second.line_off.position
            &&& first.bez2_off.position + first.bez2_off.len <= second.bez2_off.position
            &&& first.bez3_off.position + first.bez3_off.len <= second.bez3_off.position
        }),
{
    law_record_in_range(a, c1, g1);
    law_load_all_appends(a.load(c1, g1), between);
}

/// A character that was answered once is answered from the cache ever
/// after: whatever the font gives for it then, the same record comes back
/// and the atlas stays as it is.
pub proof fn law_repeat_is_lookup(a: Atlas, c: char, g1: GlyphSource, g2: GlyphSource)
    requires
        a.load_result(c, g1) is Some,
    ensures
        a.load(c, g1).load_result(c, g2) == a.load_result(c, g1),
        a.load(c, g1).load(c, g2) == a.load(c, g1),
{
}

/// The record of a glyph that was inserted spans the glyph's own curves:
/// in each kind's buffer, the curves from its offset on, as many as its
/// length, are the glyph's curves of that kind in outline order.
pub proof fn law_record_spans_glyph(a: Atlas, c: char, glyph: GlyphSource)
    requires
        a.wf(),
        !a.locations.contains_key(c as u32),
        a.fits(glyph.segments()),
    ensures
        ({
            let b = a.load(c, glyph);
            let info = a.load_result(c, glyph).unwrap();
            &&& b.locations[c as u32] == info
            &&& b.lines.subrange(
                info.line_off.position as int,
                info.line_off.position + info.line_off.len,
            ) == lines_of(glyph.segments())
            &&& b.quads.subrange(
                info.bez2_off.position as int,
                info.bez2_off.position + info.bez2_off.len,
            ) == quads_of(glyph.segments())
            &&& b.cubics.subrange(
                info.bez3_off.position as int,
                info.bez3_off.position + info.bez3_off.len,
            ) == cubics_of(glyph.segments())
        }),
{
    let b = a.load(c, glyph);
    let info = a.load_result(c, glyph).unwrap();
    assert(b.lines.subrange(
        info.line_off.position as int,
        info.line_off.position + info.line_off.len,
    ) =~= lines_of(glyph.segments()));
    assert(b.quads.subrange(
        info.bez2_off.position as int,
        info.bez2_off.position + info.bez2_off.len,
    ) =~= quads_of(glyph.segments()));
    assert(b.cubics.subrange(
        info.bez3_off.position as int,
        info.bez3_off.position + info.bez3_off.len,
    ) =~= cubics_of(glyph.segments()));
}

} // verus!
