//! Argument and result types of the host's camera capability.
//!
//! The camera calls themselves are a pass-through to a native platform
//! capability; the only logic of the shim is substituting defaults for
//! omitted arguments, which is done here with contracts.

use vstd::prelude::*;

verus! {

/// Image quality used when the caller does not give one.
pub const DEFAULT_PHOTO_QUALITY: u8 = 90;

/// Picker limit used when the caller does not give one.
pub const DEFAULT_PICK_LIMIT: u32 = 10;

/// Arguments of a take-photo or pick-photo request; every field is
/// optional and falls back to a fixed default.
pub struct TakePhotoArgs {
    pub quality: Option<u8>,
    pub allow_editing: Option<bool>,
    pub save_to_gallery: Option<bool>,
    pub result_type: Option<String>,
    pub width: Option<u32>,
    pub height: Option<u32>,
}

/// A photo handed back by the native camera capability.
pub struct PhotoResult {
    pub path: String,
    pub data: Option<String>,
    pub format: String,
    pub width: Option<u32>,
    pub height: Option<u32>,
}

impl TakePhotoArgs {
    /// The image quality to request: the given one, or the default.
    pub fn quality_or_default(&self) -> (q: u8)
        ensures
            q == match self.quality {
                Some(v) => v,
                None => DEFAULT_PHOTO_QUALITY,
            },
    {
        match self.quality {
            Some(v) => v,
            None => DEFAULT_PHOTO_QUALITY,
        }
    }

    /// Whether editing is allowed: the given flag, or false.
    pub fn allow_editing_or_default(&self) -> (b: bool)
        ensures
            b == match self.allow_editing {
                Some(v) => v,
                None => false,
            },
    {
        match self.allow_editing {
            Some(v) => v,
            None => false,
        }
    }

    /// Whether the photo is saved to the gallery: the given flag, or
    /// false.
    pub fn save_to_gallery_or_default(&self) -> (b: bool)
        ensures
            b == match self.save_to_gallery {
                Some(v) => v,
                None => false,
            },
    {
        match self.save_to_gallery {
            Some(v) => v,
            None => false,
        }
    }
}

/// How many photos a multi-pick request allows: the given limit, or the
/// default.
pub fn pick_limit_or_default(limit: Option<u32>) -> (n: u32)
    ensures
        n == match limit {
            Some(v) => v,
            None => DEFAULT_PICK_LIMIT,
        },
{
    match limit {
        Some(v) => v,
        None => DEFAULT_PICK_LIMIT,
    }
}

} // verus!
