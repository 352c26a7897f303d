//! The objects that the native library owns, as this layer reads them.
//!
//! Each optional lookup of a native object is held as `Option`: `None` when the
//! object has no such lookup, otherwise what the lookup answers.
use vstd::prelude::*;

use crate::{Bank, FontId, PresetId};

verus! {

/// A native preset object.
pub struct RawPreset {
    /// The NUL-terminated name that the name lookup returns.
    pub name: Option<Vec<u8>>,
    /// The code that the bank-number lookup returns; negative means "no bank".
    pub banknum: Option<i32>,
    /// The code that the preset-number lookup returns; negative means "no number".
    pub num: Option<i32>,
}

/// One preset that a font's preset lookup can find, under its bank and number.
pub struct PresetEntry {
    pub bank: Bank,
    pub num: PresetId,
    pub preset: RawPreset,
}

/// A native SoundFont object.
pub struct RawFont {
    /// The id that the native library gave the font when it was loaded.
    pub id: FontId,
    /// The NUL-terminated name that the name lookup returns.
    pub name: Option<Vec<u8>>,
    /// The presets that the preset lookup searches, in its order.
    pub presets: Option<Vec<PresetEntry>>,
}

/// The preset that a lookup finds for `bank` and `num`: the first entry with both.
pub open spec fn find_preset(s: Seq<PresetEntry>, bank: Bank, num: PresetId) -> Option<RawPreset>
    decreases s.len(),
{
    if s.len() == 0 {
        None
    } else if s[0].bank == bank && s[0].num == num {
        Some(s[0].preset)
    } else {
        find_preset(s.drop_first(), bank, num)
    }
}

/// Searches `entries` for the preset under `bank` and `num`.
pub fn lookup_preset(entries: &Vec<PresetEntry>, bank: Bank, num: PresetId) -> (r: Option<&RawPreset>)
    ensures
        match r {
            Some(p) => find_preset(entries@, bank, num) == Some(*p),
            None => find_preset(entries@, bank, num) is None,
        },
{
    let mut i: usize = 0;
    assert(entries@.subrange(0, entries@.len() as int) =~= entries@);
    while i < entries.len()
        invariant
            0 <= i <= entries@.len(),
            find_preset(entries@, bank, num) == find_preset(
                entries@.subrange(i as int, entries@.len() as int),
                bank,
                num,
            ),
        decreases entries@.len() - i,
    {
        proof {
            let rest = entries@.subrange(i as int, entries@.len() as int);
            assert(rest.drop_first() =~= entries@.subrange(i + 1, entries@.len() as int));
        }
        let e = &entries[i];
        if e.bank == bank && e.num == num {
            return Some(&e.preset);
        }
        i = i + 1;
    }
    None
}

} // verus!
