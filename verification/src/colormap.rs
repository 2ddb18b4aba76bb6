//! The colormap: a 256-entry lookup table mapping a normalized intensity
//! index to a display color.

use vstd::prelude::*;
use crate::pixel::Rgba8;

verus! {

/// A 256-entry RGBA lookup table.
pub struct ColorMap {
    pub table: Vec<Rgba8>,
}

impl ColorMap {
    /// Well-formedness: the table holds exactly 256 entries.
    pub open spec fn wf(&self) -> bool {
        self.table@.len() == 256
    }

    /// A colormap from an explicit table; rejected unless the table holds
    /// exactly 256 entries.
    pub fn from_entries(entries: Vec<Rgba8>) -> (r: Option<ColorMap>)
        ensures
            entries@.len() == 256 ==> (r matches Some(c) && c.table@ == entries@),
            entries@.len() != 256 ==> r is None,
    {
        if entries.len() == 256 {
            Some(ColorMap { table: entries })
        } else {
            None
        }
    }

    /// The linear grayscale colormap: index `i` maps to the opaque gray
    /// of intensity `i`.
    pub fn grayscale() -> (r: ColorMap)
        ensures
            r.wf(),
            forall|i: int|
                0 <= i < 256 ==> #[trigger] r.table@[i] == (Rgba8 {
                    r: i as u8,
                    g: i as u8,
                    b: i as u8,
                    a: 255,
                }),
    {
        let mut table: Vec<Rgba8> = Vec::new();
        let mut i: usize = 0;
        while i < 256
            invariant
                i <= 256,
                table@.len() == i as int,
                forall|j: int|
                    0 <= j < i as int ==> #[trigger] table@[j] == (Rgba8 {
                        r: j as u8,
                        g: j as u8,
                        b: j as u8,
                        a: 255,
                    }),
            decreases 256 - i,
        {
            let v = i as u8;
            table.push(Rgba8 { r: v, g: v, b: v, a: 255 });
            i = i + 1;
        }
        ColorMap { table }
    }

    /// The table entry at `idx`.
    pub fn entry(&self, idx: usize) -> (r: Rgba8)
        requires
            self.wf(),
            idx < 256,
        ensures
            r == self.table@[idx as int],
    {
        self.table[idx]
    }
}

} // verus!
