use vstd::prelude::*;

verus! {

/// A 16-bit RGB color as stored in a LAS point record.
#[derive(Clone, Copy, Debug, PartialEq, Eq, Structural)]
pub struct Rgb16 {
    pub red: u16,
    pub green: u16,
    pub blue: u16,
}

/// One point record of a LAS file: its stored integer coordinates and, when the
/// point format carries one, its color.
#[derive(Clone, Copy, Debug, PartialEq, Eq, Structural)]
pub struct PointRecord {
    pub x: i32,
    pub y: i32,
    pub z: i32,
    pub color: Option<Rgb16>,
}

/// A point that is drawn: a position and a color.
#[derive(Clone, Copy, Debug, PartialEq, Eq, Structural)]
pub struct ColoredPoint {
    pub x: i32,
    pub y: i32,
    pub z: i32,
    pub color: Rgb16,
}

/// The drawn points of a sequence of records, in order: one for each record that
/// carries a color, with that record's coordinates and color.
pub open spec fn colored_of(s: Seq<PointRecord>) -> Seq<ColoredPoint>
    decreases s.len(),
{
    if s.len() == 0 {
        Seq::empty()
    } else {
        let last = s.last();
        match last.color {
            Some(c) => colored_of(s.drop_last()).push(ColoredPoint { x: last.x, y: last.y, z: last.z, color: c }),
            None => colored_of(s.drop_last()),
        }
    }
}

/// A record without a color adds no drawn point.
pub proof fn lemma_uncolored_adds_nothing(s: Seq<PointRecord>, rec: PointRecord)
    requires
        rec.color is None,
    ensures
        colored_of(s.push(rec)) == colored_of(s),
{
    assert(s.push(rec).drop_last() == s);
}

/// The records give no drawn point exactly when none of them carries a color.
pub proof fn lemma_nothing_drawn_iff_no_color(s: Seq<PointRecord>)
    ensures
        colored_of(s).len() == 0 <==> forall|i: int| 0 <= i < s.len() ==> (#[trigger] s[i]).color is None,
    decreases s.len(),
{
    if s.len() > 0 {
        let init = s.drop_last();
        lemma_nothing_drawn_iff_no_color(init);
        assert forall|i: int| 0 <= i < init.len() implies init[i] == s[i] by {}
    }
}

/// Keeps the records that carry a color, in order, as drawable points.
pub fn colored_points(records: &Vec<PointRecord>) -> (r: Vec<ColoredPoint>)
    ensures
        r@ == colored_of(records@),
{
    let mut r: Vec<ColoredPoint> = Vec::new();
    let mut i: usize = 0;
    while i < records.len()
        invariant
            i <= records.len(),
            r@ == colored_of(records@.subrange(0, i as int)),
        decreases records.len() - i,
    {
        let rec = records[i];
        assert(records@.subrange(0, i + 1).drop_last() == records@.subrange(0, i as int));
        match rec.color {
            Some(c) => {
                r.push(ColoredPoint { x: rec.x, y: rec.y, z: rec.z, color: c });
            },
            None => {},
        }
        i = i + 1;
    }
    assert(records@.subrange(0, records@.len() as int) == records@);
    r
}

} // verus!
