//! The fixed QWERTY-to-Dvorak remap table: a total, stateless function on key
//! identifiers, identity outside the 33 layout-affected keys.

use vstd::prelude::*;
use crate::keys::{
    KEY_APOSTROPHE, KEY_B, KEY_C, KEY_COMMA, KEY_D, KEY_DOT, KEY_E, KEY_EQUAL, KEY_F, KEY_G,
    KEY_H, KEY_I, KEY_J, KEY_K, KEY_L, KEY_LEFTBRACE, KEY_MINUS, KEY_N, KEY_O, KEY_P, KEY_Q,
    KEY_R, KEY_RIGHTBRACE, KEY_S, KEY_SEMICOLON, KEY_SLASH, KEY_T, KEY_U, KEY_V, KEY_W, KEY_X,
    KEY_Y, KEY_Z,
};

verus! {

/// The 33 key identifiers the layout change affects: the remap table's domain.
pub open spec fn in_remap_set(k: u16) -> bool {
    ||| k == KEY_MINUS
    ||| k == KEY_EQUAL
    ||| k == KEY_Q
    ||| k == KEY_W
    ||| k == KEY_E
    ||| k == KEY_R
    ||| k == KEY_T
    ||| k == KEY_Y
    ||| k == KEY_U
    ||| k == KEY_I
    ||| k == KEY_O
    ||| k == KEY_P
    ||| k == KEY_LEFTBRACE
    ||| k == KEY_RIGHTBRACE
    ||| k == KEY_S
    ||| k == KEY_D
    ||| k == KEY_F
    ||| k == KEY_G
    ||| k == KEY_H
    ||| k == KEY_J
    ||| k == KEY_K
    ||| k == KEY_L
    ||| k == KEY_SEMICOLON
    ||| k == KEY_APOSTROPHE
    ||| k == KEY_Z
    ||| k == KEY_X
    ||| k == KEY_C
    ||| k == KEY_V
    ||| k == KEY_B
    ||| k == KEY_N
    ||| k == KEY_COMMA
    ||| k == KEY_DOT
    ||| k == KEY_SLASH
}

/// What the remap table sends a key identifier to: the Dvorak position of the
/// key at the given QWERTY position, and the identifier itself for every key
/// the layout change does not touch.
pub open spec fn dvorak_remap(k: u16) -> u16 {
    if k == KEY_MINUS { KEY_LEFTBRACE }
    else if k == KEY_EQUAL { KEY_RIGHTBRACE }
    else if k == KEY_Q { KEY_APOSTROPHE }
    else if k == KEY_W { KEY_COMMA }
    else if k == KEY_E { KEY_DOT }
    else if k == KEY_R { KEY_P }
    else if k == KEY_T { KEY_Y }
    else if k == KEY_Y { KEY_F }
    else if k == KEY_U { KEY_G }
    else if k == KEY_I { KEY_C }
    else if k == KEY_O { KEY_R }
    else if k == KEY_P { KEY_L }
    else if k == KEY_LEFTBRACE { KEY_SLASH }
    else if k == KEY_RIGHTBRACE { KEY_EQUAL }
    else if k == KEY_S { KEY_O }
    else if k == KEY_D { KEY_E }
    else if k == KEY_F { KEY_U }
    else if k == KEY_G { KEY_I }
    else if k == KEY_H { KEY_D }
    else if k == KEY_J { KEY_H }
    else if k == KEY_K { KEY_T }
    else if k == KEY_L { KEY_N }
    else if k == KEY_SEMICOLON { KEY_S }
    else if k == KEY_APOSTROPHE { KEY_MINUS }
    else if k == KEY_Z { KEY_SEMICOLON }
    else if k == KEY_X { KEY_Q }
    else if k == KEY_C { KEY_J }
    else if k == KEY_V { KEY_K }
    else if k == KEY_B { KEY_X }
    else if k == KEY_N { KEY_B }
    else if k == KEY_COMMA { KEY_W }
    else if k == KEY_DOT { KEY_V }
    else if k == KEY_SLASH { KEY_Z }
    else { k }
}

/// Maps a QWERTY key identifier to its Dvorak counterpart; identity for every
/// identifier outside the remap set.
pub fn remap_key_code(k: u16) -> (r: u16)
    ensures
        r == dvorak_remap(k),
{
    if k == KEY_MINUS { KEY_LEFTBRACE }
    else if k == KEY_EQUAL { KEY_RIGHTBRACE }
    else if k == KEY_Q { KEY_APOSTROPHE }
    else if k == KEY_W { KEY_COMMA }
    else if k == KEY_E { KEY_DOT }
    else if k == KEY_R { KEY_P }
    else if k == KEY_T { KEY_Y }
    else if k == KEY_Y { KEY_F }
    else if k == KEY_U { KEY_G }
    else if k == KEY_I { KEY_C }
    else if k == KEY_O { KEY_R }
    else if k == KEY_P { KEY_L }
    else if k == KEY_LEFTBRACE { KEY_SLASH }
    else if k == KEY_RIGHTBRACE { KEY_EQUAL }
    else if k == KEY_S { KEY_O }
    else if k == KEY_D { KEY_E }
    else if k == KEY_F { KEY_U }
    else if k == KEY_G { KEY_I }
    else if k == KEY_H { KEY_D }
    else if k == KEY_J { KEY_H }
    else if k == KEY_K { KEY_T }
    else if k == KEY_L { KEY_N }
    else if k == KEY_SEMICOLON { KEY_S }
    else if k == KEY_APOSTROPHE { KEY_MINUS }
    else if k == KEY_Z { KEY_SEMICOLON }
    else if k == KEY_X { KEY_Q }
    else if k == KEY_C { KEY_J }
    else if k == KEY_V { KEY_K }
    else if k == KEY_B { KEY_X }
    else if k == KEY_N { KEY_B }
    else if k == KEY_COMMA { KEY_W }
    else if k == KEY_DOT { KEY_V }
    else if k == KEY_SLASH { KEY_Z }
    else { k }
}

/// Every output of the remap table for a key in the remap set is itself a key
/// of that 33-key alphabet: the table permutes the layout-affected keys and
/// never produces an identifier foreign to the target layout.
pub proof fn lemma_remap_output_in_alphabet(k: u16)
    requires
        in_remap_set(k),
    ensures
        in_remap_set(dvorak_remap(k)),
{
}

/// Identity fallback: a key identifier outside the remap set maps to itself.
pub proof fn lemma_remap_identity_outside_set(k: u16)
    requires
        !in_remap_set(k),
    ensures
        dvorak_remap(k) == k,
{
}

} // verus!
