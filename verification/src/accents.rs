//! Letters without their accents and capitals, for comparing names.
//!
//! An accented letter is one that Unicode decomposes into a letter and combining marks from
//! U+0300 to U+036F. All of them are Latin, Greek or Cyrillic.

use vstd::prelude::*;

use crate::text::{chars_of, to_ascii_lower};

#[allow(unused_imports)]
use crate::text::{ascii_lower, is_blank};

verus! {

/// Whether a character is a combining accent: it stands behind the letter it belongs to.
pub open spec fn is_mark(c: char) -> bool {
    0x300 <= c as u32 <= 0x36f
}

/// The Latin letter under the accents of this one, where it has any, in lower case where
/// there is one.
pub open spec fn latin_base(c: char) -> Option<char> {
    let n = c as u32;
    if 0xc0 <= n <= 0xc5 || 0xe0 <= n <= 0xe5 || 0x100 <= n <= 0x105
        || 0x1cd <= n <= 0x1ce || 0x1de <= n <= 0x1e1 || 0x1fa <= n <= 0x1fb
        || 0x200 <= n <= 0x203 || 0x226 <= n <= 0x227 || 0x1e00 <= n <= 0x1e01
        || 0x1ea0 <= n <= 0x1eb7 || n == 0x212b {
        Some('a')
    } else if 0x1e02 <= n <= 0x1e07 {
        Some('b')
    } else if n == 0xc7 || n == 0xe7 || 0x106 <= n <= 0x10d || 0x1e08 <= n <= 0x1e09 {
        Some('c')
    } else if 0x10e <= n <= 0x10f || 0x1e0a <= n <= 0x1e13 {
        Some('d')
    } else if 0xc8 <= n <= 0xcb || 0xe8 <= n <= 0xeb || 0x112 <= n <= 0x11b
        || 0x204 <= n <= 0x207 || 0x228 <= n <= 0x229 || 0x1e14 <= n <= 0x1e1d
        || 0x1eb8 <= n <= 0x1ec7 {
        Some('e')
    } else if 0x1e1e <= n <= 0x1e1f {
        Some('f')
    } else if 0x11c <= n <= 0x123 || 0x1e6 <= n <= 0x1e7 || 0x1f4 <= n <= 0x1f5
        || 0x1e20 <= n <= 0x1e21 {
        Some('g')
    } else if 0x124 <= n <= 0x125 || 0x21e <= n <= 0x21f || 0x1e22 <= n <= 0x1e2b
        || n == 0x1e96 {
        Some('h')
    } else if 0xcc <= n <= 0xcf || 0xec <= n <= 0xef || 0x128 <= n <= 0x130
        || 0x1cf <= n <= 0x1d0 || 0x208 <= n <= 0x20b || 0x1e2c <= n <= 0x1e2f
        || 0x1ec8 <= n <= 0x1ecb {
        Some('i')
    } else if 0x134 <= n <= 0x135 || n == 0x1f0 {
        Some('j')
    } else if 0x136 <= n <= 0x137 || 0x1e8 <= n <= 0x1e9 || 0x1e30 <= n <= 0x1e35 {
        Some('k')
    } else if 0x139 <= n <= 0x13e || 0x1e36 <= n <= 0x1e3d {
        Some('l')
    } else if 0x1e3e <= n <= 0x1e43 {
        Some('m')
    } else if n == 0xd1 || n == 0xf1 || 0x143 <= n <= 0x148 || 0x1f8 <= n <= 0x1f9
        || 0x1e44 <= n <= 0x1e4b {
        Some('n')
    } else if 0xd2 <= n <= 0xd6 || 0xf2 <= n <= 0xf6 || 0x14c <= n <= 0x151
        || 0x1a0 <= n <= 0x1a1 || 0x1d1 <= n <= 0x1d2 || 0x1ea <= n <= 0x1ed
        || 0x20c <= n <= 0x20f || 0x22a <= n <= 0x231 || 0x1e4c <= n <= 0x1e53
        || 0x1ecc <= n <= 0x1ee3 {
        Some('o')
    } else if 0x1e54 <= n <= 0x1e57 {
        Some('p')
    } else if 0x154 <= n <= 0x159 || 0x210 <= n <= 0x213 || 0x1e58 <= n <= 0x1e5f {
        Some('r')
    } else if 0x15a <= n <= 0x161 || 0x218 <= n <= 0x219 || 0x1e60 <= n <= 0x1e69 {
        Some('s')
    } else if 0x162 <= n <= 0x165 || 0x21a <= n <= 0x21b || 0x1e6a <= n <= 0x1e71
        || n == 0x1e97 {
        Some('t')
    } else if 0xd9 <= n <= 0xdc || 0xf9 <= n <= 0xfc || 0x168 <= n <= 0x173
        || 0x1af <= n <= 0x1b0 || 0x1d3 <= n <= 0x1dc || 0x214 <= n <= 0x217
        || 0x1e72 <= n <= 0x1e7b || 0x1ee4 <= n <= 0x1ef1 {
        Some('u')
    } else if 0x1e7c <= n <= 0x1e7f {
        Some('v')
    } else if 0x174 <= n <= 0x175 || 0x1e80 <= n <= 0x1e89 || n == 0x1e98 {
        Some('w')
    } else if 0x1e8a <= n <= 0x1e8d {
        Some('x')
    } else if n == 0xdd || n == 0xfd || n == 0xff || 0x176 <= n <= 0x178
        || 0x232 <= n <= 0x233 || 0x1e8e <= n <= 0x1e8f || n == 0x1e99 || 0x1ef2 <= n <= 0x1ef9 {
        Some('y')
    } else if 0x179 <= n <= 0x17e || 0x1e90 <= n <= 0x1e95 {
        Some('z')
    } else if 0x1e2 <= n <= 0x1e3 || 0x1fc <= n <= 0x1fd {
        Some('\u{e6}')
    } else if 0x1fe <= n <= 0x1ff {
        Some('\u{f8}')
    } else if n == 0x1e9b {
        Some('\u{17f}')
    } else if 0x1ee <= n <= 0x1ef {
        Some('\u{292}')
    } else {
        None
    }
}

/// The Greek letter under the accents of this one, where it has any, in lower case where
/// there is one.
pub open spec fn greek_base(c: char) -> Option<char> {
    let n = c as u32;
    if n == 0x386 || n == 0x3ac || 0x1f00 <= n <= 0x1f0f || 0x1f70 <= n <= 0x1f71
        || 0x1f80 <= n <= 0x1f8f || 0x1fb0 <= n <= 0x1fb4 || 0x1fb6 <= n <= 0x1fbc {
        Some('\u{3b1}')
    } else if n == 0x388 || n == 0x3ad || 0x1f10 <= n <= 0x1f15 || 0x1f18 <= n <= 0x1f1d
        || 0x1f72 <= n <= 0x1f73 || 0x1fc8 <= n <= 0x1fc9 {
        Some('\u{3b5}')
    } else if n == 0x389 || n == 0x3ae || 0x1f20 <= n <= 0x1f2f || 0x1f74 <= n <= 0x1f75
        || 0x1f90 <= n <= 0x1f9f || 0x1fc2 <= n <= 0x1fc4 || 0x1fc6 <= n <= 0x1fc7
        || 0x1fca <= n <= 0x1fcc {
        Some('\u{3b7}')
    } else if n == 0x38a || n == 0x390 || n == 0x3aa || n == 0x3af || n == 0x3ca
        || 0x1f30 <= n <= 0x1f3f || 0x1f76 <= n <= 0x1f77 || 0x1fd0 <= n <= 0x1fd3
        || 0x1fd6 <= n <= 0x1fdb {
        Some('\u{3b9}')
    } else if n == 0x38c || n == 0x3cc || 0x1f40 <= n <= 0x1f45 || 0x1f48 <= n <= 0x1f4d
        || 0x1f78 <= n <= 0x1f79 || 0x1ff8 <= n <= 0x1ff9 {
        Some('\u{3bf}')
    } else if 0x1fe4 <= n <= 0x1fe5 || n == 0x1fec {
        Some('\u{3c1}')
    } else if n == 0x38e || n == 0x3ab || n == 0x3b0 || n == 0x3cb || n == 0x3cd
        || 0x1f50 <= n <= 0x1f57 || n == 0x1f59 || n == 0x1f5b || n == 0x1f5d || n == 0x1f5f
        || 0x1f7a <= n <= 0x1f7b || 0x1fe0 <= n <= 0x1fe3 || 0x1fe6 <= n <= 0x1feb {
        Some('\u{3c5}')
    } else if n == 0x38f || n == 0x3ce || 0x1f60 <= n <= 0x1f6f || 0x1f7c <= n <= 0x1f7d
        || 0x1fa0 <= n <= 0x1faf || 0x1ff2 <= n <= 0x1ff4 || 0x1ff6 <= n <= 0x1ff7
        || 0x1ffa <= n <= 0x1ffc {
        Some('\u{3c9}')
    } else if 0x3d3 <= n <= 0x3d4 {
        Some('\u{3d2}')
    } else {
        None
    }
}

/// The Cyrillic letter under the accents of this one, where it has any, in lower case where
/// there is one.
pub open spec fn cyrillic_base(c: char) -> Option<char> {
    let n = c as u32;
    if 0x4d0 <= n <= 0x4d3 {
        Some('\u{430}')
    } else if n == 0x403 || n == 0x453 {
        Some('\u{433}')
    } else if 0x400 <= n <= 0x401 || 0x450 <= n <= 0x451 || 0x4d6 <= n <= 0x4d7 {
        Some('\u{435}')
    } else if 0x4c1 <= n <= 0x4c2 || 0x4dc <= n <= 0x4dd {
        Some('\u{436}')
    } else if 0x4de <= n <= 0x4df {
        Some('\u{437}')
    } else if n == 0x40d || n == 0x419 || n == 0x439 || n == 0x45d || 0x4e2 <= n <= 0x4e5 {
        Some('\u{438}')
    } else if n == 0x40c || n == 0x45c {
        Some('\u{43a}')
    } else if 0x4e6 <= n <= 0x4e7 {
        Some('\u{43e}')
    } else if n == 0x40e || n == 0x45e || 0x4ee <= n <= 0x4f3 {
        Some('\u{443}')
    } else if 0x4f4 <= n <= 0x4f5 {
        Some('\u{447}')
    } else if 0x4f8 <= n <= 0x4f9 {
        Some('\u{44b}')
    } else if 0x4ec <= n <= 0x4ed {
        Some('\u{44d}')
    } else if n == 0x407 || n == 0x457 {
        Some('\u{456}')
    } else if 0x476 <= n <= 0x477 {
        Some('\u{475}')
    } else if 0x4da <= n <= 0x4db {
        Some('\u{4d9}')
    } else if 0x4ea <= n <= 0x4eb {
        Some('\u{4e9}')
    } else {
        None
    }
}

/// The letter under the accents of this one, where it has any, in lower case where there is
/// one.
pub open spec fn base_letter(c: char) -> Option<char> {
    match latin_base(c) {
        Some(b) => Some(b),
        None => match greek_base(c) {
            Some(b) => Some(b),
            None => cyrillic_base(c),
        },
    }
}

/// A character without its accents. An accented letter and an ASCII letter come out in lower
/// case; everything else is left alone.
pub open spec fn plain_char(c: char) -> char {
    match base_letter(c) {
        Some(b) => b,
        None => ascii_lower(c),
    }
}

/// A text without accents: a combining one is dropped, unless it stands first and so has no
/// letter to belong to, and every other character is made plain.
pub open spec fn plain(s: Seq<char>) -> Seq<char>
    decreases s.len(),
{
    if s.len() == 0 {
        s
    } else if is_mark(s.last()) && s.len() > 1 {
        plain(s.drop_last())
    } else {
        plain(s.drop_last()).push(plain_char(s.last()))
    }
}

fn find_latin_base(c: char) -> (r: Option<char>)
    ensures
        r == latin_base(c),
{
    let n: u32 = c as u32;
    if (0xc0 <= n && n <= 0xc5) || (0xe0 <= n && n <= 0xe5)
        || (0x100 <= n && n <= 0x105) || (0x1cd <= n && n <= 0x1ce) || (0x1de <= n && n <= 0x1e1)
        || (0x1fa <= n && n <= 0x1fb) || (0x200 <= n && n <= 0x203) || (0x226 <= n && n <= 0x227)
        || (0x1e00 <= n && n <= 0x1e01) || (0x1ea0 <= n && n <= 0x1eb7) || n == 0x212b {
        Some('a')
    } else if (0x1e02 <= n && n <= 0x1e07) {
        Some('b')
    } else if n == 0xc7 || n == 0xe7 || (0x106 <= n && n <= 0x10d)
        || (0x1e08 <= n && n <= 0x1e09) {
        Some('c')
    } else if (0x10e <= n && n <= 0x10f) || (0x1e0a <= n && n <= 0x1e13) {
        Some('d')
    } else if (0xc8 <= n && n <= 0xcb) || (0xe8 <= n && n <= 0xeb)
        || (0x112 <= n && n <= 0x11b) || (0x204 <= n && n <= 0x207) || (0x228 <= n && n <= 0x229)
        || (0x1e14 <= n && n <= 0x1e1d) || (0x1eb8 <= n && n <= 0x1ec7) {
        Some('e')
    } else if (0x1e1e <= n && n <= 0x1e1f) {
        Some('f')
    } else if (0x11c <= n && n <= 0x123) || (0x1e6 <= n && n <= 0x1e7)
        || (0x1f4 <= n && n <= 0x1f5) || (0x1e20 <= n && n <= 0x1e21) {
        Some('g')
    } else if (0x124 <= n && n <= 0x125) || (0x21e <= n && n <= 0x21f)
        || (0x1e22 <= n && n <= 0x1e2b) || n == 0x1e96 {
        Some('h')
    } else if (0xcc <= n && n <= 0xcf) || (0xec <= n && n <= 0xef)
        || (0x128 <= n && n <= 0x130) || (0x1cf <= n && n <= 0x1d0) || (0x208 <= n && n <= 0x20b)
        || (0x1e2c <= n && n <= 0x1e2f) || (0x1ec8 <= n && n <= 0x1ecb) {
        Some('i')
    } else if (0x134 <= n && n <= 0x135) || n == 0x1f0 {
        Some('j')
    } else if (0x136 <= n && n <= 0x137) || (0x1e8 <= n && n <= 0x1e9)
        || (0x1e30 <= n && n <= 0x1e35) {
        Some('k')
    } else if (0x139 <= n && n <= 0x13e) || (0x1e36 <= n && n <= 0x1e3d) {
        Some('l')
    } else if (0x1e3e <= n && n <= 0x1e43) {
        Some('m')
    } else if n == 0xd1 || n == 0xf1 || (0x143 <= n && n <= 0x148)
        || (0x1f8 <= n && n <= 0x1f9) || (0x1e44 <= n && n <= 0x1e4b) {
        Some('n')
    } else if (0xd2 <= n && n <= 0xd6) || (0xf2 <= n && n <= 0xf6)
        || (0x14c <= n && n <= 0x151) || (0x1a0 <= n && n <= 0x1a1) || (0x1d1 <= n && n <= 0x1d2)
        || (0x1ea <= n && n <= 0x1ed) || (0x20c <= n && n <= 0x20f) || (0x22a <= n && n <= 0x231)
        || (0x1e4c <= n && n <= 0x1e53) || (0x1ecc <= n && n <= 0x1ee3) {
        Some('o')
    } else if (0x1e54 <= n && n <= 0x1e57) {
        Some('p')
    } else if (0x154 <= n && n <= 0x159) || (0x210 <= n && n <= 0x213)
        || (0x1e58 <= n && n <= 0x1e5f) {
        Some('r')
    } else if (0x15a <= n && n <= 0x161) || (0x218 <= n && n <= 0x219)
        || (0x1e60 <= n && n <= 0x1e69) {
        Some('s')
    } else if (0x162 <= n && n <= 0x165) || (0x21a <= n && n <= 0x21b)
        || (0x1e6a <= n && n <= 0x1e71) || n == 0x1e97 {
        Some('t')
    } else if (0xd9 <= n && n <= 0xdc) || (0xf9 <= n && n <= 0xfc)
        || (0x168 <= n && n <= 0x173) || (0x1af <= n && n <= 0x1b0) || (0x1d3 <= n && n <= 0x1dc)
        || (0x214 <= n && n <= 0x217) || (0x1e72 <= n && n <= 0x1e7b)
        || (0x1ee4 <= n && n <= 0x1ef1) {
        Some('u')
    } else if (0x1e7c <= n && n <= 0x1e7f) {
        Some('v')
    } else if (0x174 <= n && n <= 0x175) || (0x1e80 <= n && n <= 0x1e89) || n == 0x1e98 {
        Some('w')
    } else if (0x1e8a <= n && n <= 0x1e8d) {
        Some('x')
    } else if n == 0xdd || n == 0xfd || n == 0xff || (0x176 <= n && n <= 0x178)
        || (0x232 <= n && n <= 0x233) || (0x1e8e <= n && n <= 0x1e8f) || n == 0x1e99
        || (0x1ef2 <= n && n <= 0x1ef9) {
        Some('y')
    } else if (0x179 <= n && n <= 0x17e) || (0x1e90 <= n && n <= 0x1e95) {
        Some('z')
    } else if (0x1e2 <= n && n <= 0x1e3) || (0x1fc <= n && n <= 0x1fd) {
        Some('\u{e6}')
    } else if (0x1fe <= n && n <= 0x1ff) {
        Some('\u{f8}')
    } else if n == 0x1e9b {
        Some('\u{17f}')
    } else if (0x1ee <= n && n <= 0x1ef) {
        Some('\u{292}')
    } else {
        None
    }
}

fn find_greek_base(c: char) -> (r: Option<char>)
    ensures
        r == greek_base(c),
{
    let n: u32 = c as u32;
    if n == 0x386 || n == 0x3ac || (0x1f00 <= n && n <= 0x1f0f)
        || (0x1f70 <= n && n <= 0x1f71) || (0x1f80 <= n && n <= 0x1f8f)
        || (0x1fb0 <= n && n <= 0x1fb4) || (0x1fb6 <= n && n <= 0x1fbc) {
        Some('\u{3b1}')
    } else if n == 0x388 || n == 0x3ad || (0x1f10 <= n && n <= 0x1f15)
        || (0x1f18 <= n && n <= 0x1f1d) || (0x1f72 <= n && n <= 0x1f73)
        || (0x1fc8 <= n && n <= 0x1fc9) {
        Some('\u{3b5}')
    } else if n == 0x389 || n == 0x3ae || (0x1f20 <= n && n <= 0x1f2f)
        || (0x1f74 <= n && n <= 0x1f75) || (0x1f90 <= n && n <= 0x1f9f)
        || (0x1fc2 <= n && n <= 0x1fc4) || (0x1fc6 <= n && n <= 0x1fc7)
        || (0x1fca <= n && n <= 0x1fcc) {
        Some('\u{3b7}')
    } else if n == 0x38a || n == 0x390 || n == 0x3aa || n == 0x3af || n == 0x3ca
        || (0x1f30 <= n && n <= 0x1f3f) || (0x1f76 <= n && n <= 0x1f77)
        || (0x1fd0 <= n && n <= 0x1fd3) || (0x1fd6 <= n && n <= 0x1fdb) {
        Some('\u{3b9}')
    } else if n == 0x38c || n == 0x3cc || (0x1f40 <= n && n <= 0x1f45)
        || (0x1f48 <= n && n <= 0x1f4d) || (0x1f78 <= n && n <= 0x1f79)
        || (0x1ff8 <= n && n <= 0x1ff9) {
        Some('\u{3bf}')
    } else if (0x1fe4 <= n && n <= 0x1fe5) || n == 0x1fec {
        Some('\u{3c1}')
    } else if n == 0x38e || n == 0x3ab || n == 0x3b0 || n == 0x3cb || n == 0x3cd
        || (0x1f50 <= n && n <= 0x1f57) || n == 0x1f59 || n == 0x1f5b || n == 0x1f5d
        || n == 0x1f5f || (0x1f7a <= n && n <= 0x1f7b) || (0x1fe0 <= n && n <= 0x1fe3)
        || (0x1fe6 <= n && n <= 0x1feb) {
        Some('\u{3c5}')
    } else if n == 0x38f || n == 0x3ce || (0x1f60 <= n && n <= 0x1f6f)
        || (0x1f7c <= n && n <= 0x1f7d) || (0x1fa0 <= n && n <= 0x1faf)
        || (0x1ff2 <= n && n <= 0x1ff4) || (0x1ff6 <= n && n <= 0x1ff7)
        || (0x1ffa <= n && n <= 0x1ffc) {
        Some('\u{3c9}')
    } else if (0x3d3 <= n && n <= 0x3d4) {
        Some('\u{3d2}')
    } else {
        None
    }
}

fn find_cyrillic_base(c: char) -> (r: Option<char>)
    ensures
        r == cyrillic_base(c),
{
    let n: u32 = c as u32;
    if (0x4d0 <= n && n <= 0x4d3) {
        Some('\u{430}')
    } else if n == 0x403 || n == 0x453 {
        Some('\u{433}')
    } else if (0x400 <= n && n <= 0x401) || (0x450 <= n && n <= 0x451)
        || (0x4d6 <= n && n <= 0x4d7) {
        Some('\u{435}')
    } else if (0x4c1 <= n && n <= 0x4c2) || (0x4dc <= n && n <= 0x4dd) {
        Some('\u{436}')
    } else if (0x4de <= n && n <= 0x4df) {
        Some('\u{437}')
    } else if n == 0x40d || n == 0x419 || n == 0x439 || n == 0x45d
        || (0x4e2 <= n && n <= 0x4e5) {
        Some('\u{438}')
    } else if n == 0x40c || n == 0x45c {
        Some('\u{43a}')
    } else if (0x4e6 <= n && n <= 0x4e7) {
        Some('\u{43e}')
    } else if n == 0x40e || n == 0x45e || (0x4ee <= n && n <= 0x4f3) {
        Some('\u{443}')
    } else if (0x4f4 <= n && n <= 0x4f5) {
        Some('\u{447}')
    } else if (0x4f8 <= n && n <= 0x4f9) {
        Some('\u{44b}')
    } else if (0x4ec <= n && n <= 0x4ed) {
        Some('\u{44d}')
    } else if n == 0x407 || n == 0x457 {
        Some('\u{456}')
    } else if (0x476 <= n && n <= 0x477) {
        Some('\u{475}')
    } else if (0x4da <= n && n <= 0x4db) {
        Some('\u{4d9}')
    } else if (0x4ea <= n && n <= 0x4eb) {
        Some('\u{4e9}')
    } else {
        None
    }
}

/// Strip the accents off a character.
pub fn strip_char(c: char) -> (r: char)
    ensures
        r == plain_char(c),
{
    if let Some(b) = find_latin_base(c) {
        return b;
    }
    if let Some(b) = find_greek_base(c) {
        return b;
    }
    match find_cyrillic_base(c) {
        Some(b) => b,
        None => to_ascii_lower(c),
    }
}

/// Strip the accents off a text.
pub fn strip_accents(s: &str) -> (r: String)
    ensures
        r@ == plain(s@),
{
    let cs = chars_of(s);
    let mut out = String::new();
    let mut i: usize = 0;
    assert(s@.take(0) =~= Seq::<char>::empty());
    while i < cs.len()
        invariant
            i <= cs.len(),
            cs@ == s@,
            out@ == plain(s@.take(i as int)),
        decreases cs.len() - i,
    {
        assert(s@.take(i + 1).drop_last() =~= s@.take(i as int));
        let n: u32 = cs[i] as u32;
        if i == 0 || n < 0x300 || 0x36f < n {
            out.push(strip_char(cs[i]));
        }
        i += 1;
    }
    assert(s@.take(s@.len() as int) =~= s@);
    out
}

/// What is plain stays as it is.
pub proof fn lemma_plain_char_is_plain(c: char)
    ensures
        plain_char(plain_char(c)) == plain_char(c),
        is_mark(plain_char(c)) == is_mark(c),
        is_blank(plain_char(c)) == is_blank(c),
{
}

/// What is plain stays as it is, and nothing is stripped down to nothing.
pub proof fn lemma_plain_is_plain(s: Seq<char>)
    ensures
        plain(plain(s)) == plain(s),
        plain(s).len() == 0 <==> s.len() == 0,
    decreases s.len(),
{
    if s.len() > 0 {
        let head = plain(s.drop_last());
        lemma_plain_is_plain(s.drop_last());
        lemma_plain_char_is_plain(s.last());
        assert(head.push(plain_char(s.last())).drop_last() =~= head);
    }
}

/// A capital with an accent and the small letter with the same one have the same letter under
/// it.
pub proof fn law_capitals_and_small_letters_share_a_base(c: char, d: char)
    requires
        ({
            let n = c as u32;
            ||| 0xc0 <= n <= 0xde && d as u32 == n + 0x20
            ||| (0x100 <= n <= 0x12f || 0x132 <= n <= 0x137 || 0x14a <= n <= 0x177 || 0x1de <= n
                <= 0x1ef || 0x1f8 <= n <= 0x21f || 0x222 <= n <= 0x233 || 0x1e00 <= n <= 0x1e95
                || 0x1ea0 <= n <= 0x1ef9) && n % 2 == 0 && d as u32 == n + 1
            ||| (0x139 <= n <= 0x148 || 0x179 <= n <= 0x17e || 0x1cd <= n <= 0x1dc) && n % 2 == 1
                && d as u32 == n + 1
            ||| 0x400 <= n <= 0x40f && d as u32 == n + 0x50
            ||| 0x4d0 <= n <= 0x4f9 && n % 2 == 0 && d as u32 == n + 1
        }),
    ensures
        base_letter(c) == base_letter(d),
{
}

/// What is no accented letter keeps its letter: ASCII in lower case, anything else as it is;
/// and nothing becomes a capital.
pub proof fn law_plain_letters_are_left_alone(c: char)
    ensures
        (c as u32) < 0xc0 ==> plain_char(c) == ascii_lower(c),
        base_letter(c) is None ==> plain_char(c) == ascii_lower(c),
        !(65 <= plain_char(c) as u32 <= 90),
{
}

/// An accent that stands behind a letter goes, and every other character is made plain where
/// it stands.
pub proof fn law_marks_are_dropped(s: Seq<char>, c: char)
    ensures
        is_mark(c) && s.len() > 0 ==> plain(s.push(c)) == plain(s),
        !is_mark(c) || s.len() == 0 ==> plain(s.push(c)) == plain(s).push(plain_char(c)),
        plain(Seq::<char>::empty()) == Seq::<char>::empty(),
{
    assert(s.push(c).drop_last() =~= s);
}

} // verus!
