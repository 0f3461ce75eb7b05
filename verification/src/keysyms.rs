//! X11 keysym values of the keys that MilkyWM binds.
#![allow(non_upper_case_globals)]
use vstd::prelude::*;

verus! {

pub const KEY_Tab: u32 = 0xff09u32;
pub const KEY_Return: u32 = 0xff0du32;
pub const KEY_Left: u32 = 0xff51u32;
pub const KEY_Right: u32 = 0xff53u32;
pub const KEY_Alt_L: u32 = 0xffe9u32;
pub const KEY_Alt_R: u32 = 0xffeau32;
pub const KEY_Super_L: u32 = 0xffebu32;
pub const KEY_Super_R: u32 = 0xffecu32;
pub const KEY_bracketleft: u32 = 0x005bu32;
pub const KEY_bracketright: u32 = 0x005du32;
pub const KEY_G: u32 = 0x0047u32;
pub const KEY_H: u32 = 0x0048u32;
pub const KEY_M: u32 = 0x004du32;
pub const KEY_N: u32 = 0x004eu32;
pub const KEY_Q: u32 = 0x0051u32;
pub const KEY_T: u32 = 0x0054u32;
pub const KEY_V: u32 = 0x0056u32;
pub const KEY_g: u32 = 0x0067u32;
pub const KEY_h: u32 = 0x0068u32;
pub const KEY_m: u32 = 0x006du32;
pub const KEY_n: u32 = 0x006eu32;
pub const KEY_q: u32 = 0x0071u32;
pub const KEY_t: u32 = 0x0074u32;
pub const KEY_v: u32 = 0x0076u32;

} // verus!
