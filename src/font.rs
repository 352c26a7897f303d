//! Borrow-scoped references to native fonts and presets, and the accessors that
//! every handle provider gains from one shared implementation.
use vstd::prelude::*;

use crate::raw::{find_preset, lookup_preset, RawFont, RawPreset};
use crate::text::{c_str_text, c_str_to_str, opt_str_view};
use crate::{Bank, FontId, PresetId};

verus! {

/// What a native name lookup reads as: `None` without a lookup or for bytes that are not UTF-8.
pub open spec fn name_text(name: Option<Vec<u8>>) -> Option<Seq<char>> {
    match name {
        Some(b) => c_str_text(b@),
        None => None,
    }
}

/// What a native font's preset lookup finds for `bank` and `num`.
pub open spec fn font_preset(f: RawFont, bank: Bank, num: PresetId) -> Option<RawPreset> {
    match f.presets {
        Some(v) => find_preset(v@, bank, num),
        None => None,
    }
}

/// A native number code read as a value: negative codes mean "none".
pub open spec fn code_value(code: Option<i32>) -> Option<u32> {
    match code {
        Some(v) => if v < 0 {
            None
        } else {
            Some(v as u32)
        },
        None => None,
    }
}

/// The native preset that an optional preset reference stands for.
pub open spec fn preset_ref_view(r: Option<PresetRef<'_>>) -> Option<RawPreset> {
    match r {
        Some(p) => Some(p.handle()),
        None => None,
    }
}

/// Something that yields a handle to a native object of kind `Handle`.
pub trait HasHandle {
    type Handle;

    /// The native object that the handle refers to.
    spec fn handle(&self) -> Self::Handle;

    fn get_handle(&self) -> (r: &Self::Handle)
        ensures
            *r == self.handle(),
    ;
}

/// The SoundFont interface
pub trait IsFont {
    /// The native font that the accessors read.
    spec fn font(&self) -> RawFont;

    fn get_id(&self) -> (r: FontId)
        ensures
            r == self.font().id,
    ;

    fn get_name(&self) -> (r: Option<&str>)
        ensures
            opt_str_view(r) == name_text(self.font().name),
            self.font().name is None ==> r is None,
    ;

    fn get_preset(&self, bank: Bank, num: PresetId) -> (r: Option<PresetRef<'_>>)
        ensures
            preset_ref_view(r) == font_preset(self.font(), bank, num),
            self.font().presets is None ==> r is None,
    ;
}

/// The SoundFont preset interface
pub trait IsPreset {
    /// The native preset that the accessors read.
    spec fn preset(&self) -> RawPreset;

    fn get_name(&self) -> (r: Option<&str>)
        ensures
            opt_str_view(r) == name_text(self.preset().name),
            self.preset().name is None ==> r is None,
    ;

    fn get_banknum(&self) -> (r: Option<Bank>)
        ensures
            r == code_value(self.preset().banknum),
    ;

    fn get_num(&self) -> (r: Option<PresetId>)
        ensures
            r == code_value(self.preset().num),
    ;
}

/// Reference to SoundFont object
pub struct FontRef<'a> {
    handle: &'a RawFont,
}

impl<'a> FontRef<'a> {
    pub fn from_ptr(handle: &'a RawFont) -> (r: FontRef<'a>)
        ensures
            r.handle() == *handle,
    {
        FontRef { handle }
    }

    pub fn as_ptr(&self) -> (r: &'a RawFont)
        ensures
            *r == self.handle(),
    {
        self.handle
    }
}

/// Reference to Preset object
pub struct PresetRef<'a> {
    handle: &'a RawPreset,
}

impl<'a> PresetRef<'a> {
    pub fn from_ptr(handle: &'a RawPreset) -> (r: PresetRef<'a>)
        ensures
            r.handle() == *handle,
    {
        PresetRef { handle }
    }
}

impl<'a> HasHandle for FontRef<'a> {
    type Handle = RawFont;

    closed spec fn handle(&self) -> RawFont {
        *self.handle
    }

    fn get_handle(&self) -> (r: &RawFont) {
        self.handle
    }
}

impl<'a> HasHandle for PresetRef<'a> {
    type Handle = RawPreset;

    closed spec fn handle(&self) -> RawPreset {
        *self.handle
    }

    fn get_handle(&self) -> (r: &RawPreset) {
        self.handle
    }
}

/// Reads a native name lookup's answer as text.
fn read_name(name: &Option<Vec<u8>>) -> (r: Option<&str>)
    ensures
        opt_str_view(r) == name_text(*name),
{
    match name {
        Some(b) => c_str_to_str(b.as_slice()),
        None => None,
    }
}

/// Reads a native number code: negative codes mean "none".
fn read_code(code: Option<i32>) -> (r: Option<u32>)
    ensures
        r == code_value(code),
{
    match code {
        Some(v) => if v < 0 {
            None
        } else {
            Some(v as u32)
        },
        None => None,
    }
}

impl<X: HasHandle<Handle = RawFont>> IsFont for X {
    open spec fn font(&self) -> RawFont {
        self.handle()
    }

    fn get_id(&self) -> (r: FontId) {
        self.get_handle().id
    }

    fn get_name(&self) -> (r: Option<&str>) {
        read_name(&self.get_handle().name)
    }

    fn get_preset(&self, bank: Bank, num: PresetId) -> (r: Option<PresetRef<'_>>) {
        match &self.get_handle().presets {
            Some(entries) => match lookup_preset(entries, bank, num) {
                Some(p) => Some(PresetRef::from_ptr(p)),
                None => None,
            },
            None => None,
        }
    }
}

impl<X: HasHandle<Handle = RawPreset>> IsPreset for X {
    open spec fn preset(&self) -> RawPreset {
        self.handle()
    }

    fn get_name(&self) -> (r: Option<&str>) {
        read_name(&self.get_handle().name)
    }

    fn get_banknum(&self) -> (r: Option<Bank>) {
        read_code(self.get_handle().banknum)
    }

    fn get_num(&self) -> (r: Option<PresetId>) {
        read_code(self.get_handle().num)
    }
}

} // verus!
