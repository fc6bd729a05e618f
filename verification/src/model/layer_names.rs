//! The canonical names of the board layers, written out, and the facts
//! about them that reading a layer name back to its id rests on.

use vstd::prelude::*;
use crate::model::board::{
    canonical_layer_name, first_layer_with_canonical_name, first_layer_with_proto_name,
    underscores_to_dots,
};
use crate::proto_enums::board_layer_name_spec;
use crate::text::is_whitespace;

verus! {

/// The canonical name of each board layer, written out.
pub open spec fn canonical_layer_text(id: i32) -> Option<Seq<char>> {
    if id == 3 {
        Some("F.Cu"@)
    } else if id == 4 {
        Some("In1.Cu"@)
    } else if id == 5 {
        Some("In2.Cu"@)
    } else if id == 6 {
        Some("In3.Cu"@)
    } else if id == 7 {
        Some("In4.Cu"@)
    } else if id == 8 {
        Some("In5.Cu"@)
    } else if id == 9 {
        Some("In6.Cu"@)
    } else if id == 10 {
        Some("In7.Cu"@)
    } else if id == 11 {
        Some("In8.Cu"@)
    } else if id == 12 {
        Some("In9.Cu"@)
    } else if id == 13 {
        Some("In10.Cu"@)
    } else if id == 14 {
        Some("In11.Cu"@)
    } else if id == 15 {
        Some("In12.Cu"@)
    } else if id == 16 {
        Some("In13.Cu"@)
    } else if id == 17 {
        Some("In14.Cu"@)
    } else if id == 18 {
        Some("In15.Cu"@)
    } else if id == 19 {
        Some("In16.Cu"@)
    } else if id == 20 {
        Some("In17.Cu"@)
    } else if id == 21 {
        Some("In18.Cu"@)
    } else if id == 22 {
        Some("In19.Cu"@)
    } else if id == 23 {
        Some("In20.Cu"@)
    } else if id == 24 {
        Some("In21.Cu"@)
    } else if id == 25 {
        Some("In22.Cu"@)
    } else if id == 26 {
        Some("In23.Cu"@)
    } else if id == 27 {
        Some("In24.Cu"@)
    } else if id == 28 {
        Some("In25.Cu"@)
    } else if id == 29 {
        Some("In26.Cu"@)
    } else if id == 30 {
        Some("In27.Cu"@)
    } else if id == 31 {
        Some("In28.Cu"@)
    } else if id == 32 {
        Some("In29.Cu"@)
    } else if id == 33 {
        Some("In30.Cu"@)
    } else if id == 34 {
        Some("B.Cu"@)
    } else if id == 35 {
        Some("B.Adhes"@)
    } else if id == 36 {
        Some("F.Adhes"@)
    } else if id == 37 {
        Some("B.Paste"@)
    } else if id == 38 {
        Some("F.Paste"@)
    } else if id == 39 {
        Some("B.SilkS"@)
    } else if id == 40 {
        Some("F.SilkS"@)
    } else if id == 41 {
        Some("B.Mask"@)
    } else if id == 42 {
        Some("F.Mask"@)
    } else if id == 43 {
        Some("Dwgs.User"@)
    } else if id == 44 {
        Some("Cmts.User"@)
    } else if id == 45 {
        Some("Eco1.User"@)
    } else if id == 46 {
        Some("Eco2.User"@)
    } else if id == 47 {
        Some("Edge.Cuts"@)
    } else if id == 48 {
        Some("Margin"@)
    } else if id == 49 {
        Some("B.CrtYd"@)
    } else if id == 50 {
        Some("F.CrtYd"@)
    } else if id == 51 {
        Some("B.Fab"@)
    } else if id == 52 {
        Some("F.Fab"@)
    } else if id == 53 {
        Some("User.1"@)
    } else if id == 54 {
        Some("User.2"@)
    } else if id == 55 {
        Some("User.3"@)
    } else if id == 56 {
        Some("User.4"@)
    } else if id == 57 {
        Some("User.5"@)
    } else if id == 58 {
        Some("User.6"@)
    } else if id == 59 {
        Some("User.7"@)
    } else if id == 60 {
        Some("User.8"@)
    } else if id == 61 {
        Some("User.9"@)
    } else if id == 62 {
        Some("Rescue"@)
    } else if id == 63 {
        Some("User.10"@)
    } else if id == 64 {
        Some("User.11"@)
    } else if id == 65 {
        Some("User.12"@)
    } else if id == 66 {
        Some("User.13"@)
    } else if id == 67 {
        Some("User.14"@)
    } else if id == 68 {
        Some("User.15"@)
    } else if id == 69 {
        Some("User.16"@)
    } else if id == 70 {
        Some("User.17"@)
    } else if id == 71 {
        Some("User.18"@)
    } else if id == 72 {
        Some("User.19"@)
    } else if id == 73 {
        Some("User.20"@)
    } else if id == 74 {
        Some("User.21"@)
    } else if id == 75 {
        Some("User.22"@)
    } else if id == 76 {
        Some("User.23"@)
    } else if id == 77 {
        Some("User.24"@)
    } else if id == 78 {
        Some("User.25"@)
    } else if id == 79 {
        Some("User.26"@)
    } else if id == 80 {
        Some("User.27"@)
    } else if id == 81 {
        Some("User.28"@)
    } else if id == 82 {
        Some("User.29"@)
    } else if id == 83 {
        Some("User.30"@)
    } else if id == 84 {
        Some("User.31"@)
    } else if id == 85 {
        Some("User.32"@)
    } else if id == 86 {
        Some("User.33"@)
    } else if id == 87 {
        Some("User.34"@)
    } else if id == 88 {
        Some("User.35"@)
    } else if id == 89 {
        Some("User.36"@)
    } else if id == 90 {
        Some("User.37"@)
    } else if id == 91 {
        Some("User.38"@)
    } else if id == 92 {
        Some("User.39"@)
    } else if id == 93 {
        Some("User.40"@)
    } else if id == 94 {
        Some("User.41"@)
    } else if id == 95 {
        Some("User.42"@)
    } else if id == 96 {
        Some("User.43"@)
    } else if id == 97 {
        Some("User.44"@)
    } else if id == 98 {
        Some("User.45"@)
    } else {
        None
    }
}

/// Whether `n` is shaped as a canonical layer name is: at least three
/// characters, an upper-case letter first, no `_` third, and no whitespace
/// last.
pub open spec fn plain_layer_name(n: Seq<char>) -> bool {
    &&& n.len() >= 3
    &&& 'A' <= n[0] <= 'Z'
    &&& n[2] != '_'
    &&& !is_whitespace(n.last())
}

/// The character at `i`, or a space past the end.
pub open spec fn key_char(s: Seq<char>, i: int) -> char {
    if 0 <= i < s.len() {
        s[i]
    } else {
        ' '
    }
}

/// The length and first seven characters of a name, which tell the layer
/// names apart.
pub open spec fn name_key(s: Seq<char>) -> (nat, char, char, char, char, char, char, char) {
    (
        s.len(),
        key_char(s, 0),
        key_char(s, 1),
        key_char(s, 2),
        key_char(s, 3),
        key_char(s, 4),
        key_char(s, 5),
        key_char(s, 6),
    )
}

/// The key of each layer's canonical name, written out.
pub open spec fn canonical_key(id: i32) -> (nat, char, char, char, char, char, char, char) {
    if id == 3 {
        (4nat, 'F', '.', 'C', 'u', ' ', ' ', ' ')
    } else if id == 4 {
        (6nat, 'I', 'n', '1', '.', 'C', 'u', ' ')
    } else if id == 5 {
        (6nat, 'I', 'n', '2', '.', 'C', 'u', ' ')
    } else if id == 6 {
        (6nat, 'I', 'n', '3', '.', 'C', 'u', ' ')
    } else if id == 7 {
        (6nat, 'I', 'n', '4', '.', 'C', 'u', ' ')
    } else if id == 8 {
        (6nat, 'I', 'n', '5', '.', 'C', 'u', ' ')
    } else if id == 9 {
        (6nat, 'I', 'n', '6', '.', 'C', 'u', ' ')
    } else if id == 10 {
        (6nat, 'I', 'n', '7', '.', 'C', 'u', ' ')
    } else if id == 11 {
        (6nat, 'I', 'n', '8', '.', 'C', 'u', ' ')
    } else if id == 12 {
        (6nat, 'I', 'n', '9', '.', 'C', 'u', ' ')
    } else if id == 13 {
        (7nat, 'I', 'n', '1', '0', '.', 'C', 'u')
    } else if id == 14 {
        (7nat, 'I', 'n', '1', '1', '.', 'C', 'u')
    } else if id == 15 {
        (7nat, 'I', 'n', '1', '2', '.', 'C', 'u')
    } else if id == 16 {
        (7nat, 'I', 'n', '1', '3', '.', 'C', 'u')
    } else if id == 17 {
        (7nat, 'I', 'n', '1', '4', '.', 'C', 'u')
    } else if id == 18 {
        (7nat, 'I', 'n', '1', '5', '.', 'C', 'u')
    } else if id == 19 {
        (7nat, 'I', 'n', '1', '6', '.', 'C', 'u')
    } else if id == 20 {
        (7nat, 'I', 'n', '1', '7', '.', 'C', 'u')
    } else if id == 21 {
        (7nat, 'I', 'n', '1', '8', '.', 'C', 'u')
    } else if id == 22 {
        (7nat, 'I', 'n', '1', '9', '.', 'C', 'u')
    } else if id == 23 {
        (7nat, 'I', 'n', '2', '0', '.', 'C', 'u')
    } else if id == 24 {
        (7nat, 'I', 'n', '2', '1', '.', 'C', 'u')
    } else if id == 25 {
        (7nat, 'I', 'n', '2', '2', '.', 'C', 'u')
    } else if id == 26 {
        (7nat, 'I', 'n', '2', '3', '.', 'C', 'u')
    } else if id == 27 {
        (7nat, 'I', 'n', '2', '4', '.', 'C', 'u')
    } else if id == 28 {
        (7nat, 'I', 'n', '2', '5', '.', 'C', 'u')
    } else if id == 29 {
        (7nat, 'I', 'n', '2', '6', '.', 'C', 'u')
    } else if id == 30 {
        (7nat, 'I', 'n', '2', '7', '.', 'C', 'u')
    } else if id == 31 {
        (7nat, 'I', 'n', '2', '8', '.', 'C', 'u')
    } else if id == 32 {
        (7nat, 'I', 'n', '2', '9', '.', 'C', 'u')
    } else if id == 33 {
        (7nat, 'I', 'n', '3', '0', '.', 'C', 'u')
    } else if id == 34 {
        (4nat, 'B', '.', 'C', 'u', ' ', ' ', ' ')
    } else if id == 35 {
        (7nat, 'B', '.', 'A', 'd', 'h', 'e', 's')
    } else if id == 36 {
        (7nat, 'F', '.', 'A', 'd', 'h', 'e', 's')
    } else if id == 37 {
        (7nat, 'B', '.', 'P', 'a', 's', 't', 'e')
    } else if id == 38 {
        (7nat, 'F', '.', 'P', 'a', 's', 't', 'e')
    } else if id == 39 {
        (7nat, 'B', '.', 'S', 'i', 'l', 'k', 'S')
    } else if id == 40 {
        (7nat, 'F', '.', 'S', 'i', 'l', 'k', 'S')
    } else if id == 41 {
        (6nat, 'B', '.', 'M', 'a', 's', 'k', ' ')
    } else if id == 42 {
        (6nat, 'F', '.', 'M', 'a', 's', 'k', ' ')
    } else if id == 43 {
        (9nat, 'D', 'w', 'g', 's', '.', 'U', 's')
    } else if id == 44 {
        (9nat, 'C', 'm', 't', 's', '.', 'U', 's')
    } else if id == 45 {
        (9nat, 'E', 'c', 'o', '1', '.', 'U', 's')
    } else if id == 46 {
        (9nat, 'E', 'c', 'o', '2', '.', 'U', 's')
    } else if id == 47 {
        (9nat, 'E', 'd', 'g', 'e', '.', 'C', 'u')
    } else if id == 48 {
        (6nat, 'M', 'a', 'r', 'g', 'i', 'n', ' ')
    } else if id == 49 {
        (7nat, 'B', '.', 'C', 'r', 't', 'Y', 'd')
    } else if id == 50 {
        (7nat, 'F', '.', 'C', 'r', 't', 'Y', 'd')
    } else if id == 51 {
        (5nat, 'B', '.', 'F', 'a', 'b', ' ', ' ')
    } else if id == 52 {
        (5nat, 'F', '.', 'F', 'a', 'b', ' ', ' ')
    } else if id == 53 {
        (6nat, 'U', 's', 'e', 'r', '.', '1', ' ')
    } else if id == 54 {
        (6nat, 'U', 's', 'e', 'r', '.', '2', ' ')
    } else if id == 55 {
        (6nat, 'U', 's', 'e', 'r', '.', '3', ' ')
    } else if id == 56 {
        (6nat, 'U', 's', 'e', 'r', '.', '4', ' ')
    } else if id == 57 {
        (6nat, 'U', 's', 'e', 'r', '.', '5', ' ')
    } else if id == 58 {
        (6nat, 'U', 's', 'e', 'r', '.', '6', ' ')
    } else if id == 59 {
        (6nat, 'U', 's', 'e', 'r', '.', '7', ' ')
    } else if id == 60 {
        (6nat, 'U', 's', 'e', 'r', '.', '8', ' ')
    } else if id == 61 {
        (6nat, 'U', 's', 'e', 'r', '.', '9', ' ')
    } else if id == 62 {
        (6nat, 'R', 'e', 's', 'c', 'u', 'e', ' ')
    } else if id == 63 {
        (7nat, 'U', 's', 'e', 'r', '.', '1', '0')
    } else if id == 64 {
        (7nat, 'U', 's', 'e', 'r', '.', '1', '1')
    } else if id == 65 {
        (7nat, 'U', 's', 'e', 'r', '.', '1', '2')
    } else if id == 66 {
        (7nat, 'U', 's', 'e', 'r', '.', '1', '3')
    } else if id == 67 {
        (7nat, 'U', 's', 'e', 'r', '.', '1', '4')
    } else if id == 68 {
        (7nat, 'U', 's', 'e', 'r', '.', '1', '5')
    } else if id == 69 {
        (7nat, 'U', 's', 'e', 'r', '.', '1', '6')
    } else if id == 70 {
        (7nat, 'U', 's', 'e', 'r', '.', '1', '7')
    } else if id == 71 {
        (7nat, 'U', 's', 'e', 'r', '.', '1', '8')
    } else if id == 72 {
        (7nat, 'U', 's', 'e', 'r', '.', '1', '9')
    } else if id == 73 {
        (7nat, 'U', 's', 'e', 'r', '.', '2', '0')
    } else if id == 74 {
        (7nat, 'U', 's', 'e', 'r', '.', '2', '1')
    } else if id == 75 {
        (7nat, 'U', 's', 'e', 'r', '.', '2', '2')
    } else if id == 76 {
        (7nat, 'U', 's', 'e', 'r', '.', '2', '3')
    } else if id == 77 {
        (7nat, 'U', 's', 'e', 'r', '.', '2', '4')
    } else if id == 78 {
        (7nat, 'U', 's', 'e', 'r', '.', '2', '5')
    } else if id == 79 {
        (7nat, 'U', 's', 'e', 'r', '.', '2', '6')
    } else if id == 80 {
        (7nat, 'U', 's', 'e', 'r', '.', '2', '7')
    } else if id == 81 {
        (7nat, 'U', 's', 'e', 'r', '.', '2', '8')
    } else if id == 82 {
        (7nat, 'U', 's', 'e', 'r', '.', '2', '9')
    } else if id == 83 {
        (7nat, 'U', 's', 'e', 'r', '.', '3', '0')
    } else if id == 84 {
        (7nat, 'U', 's', 'e', 'r', '.', '3', '1')
    } else if id == 85 {
        (7nat, 'U', 's', 'e', 'r', '.', '3', '2')
    } else if id == 86 {
        (7nat, 'U', 's', 'e', 'r', '.', '3', '3')
    } else if id == 87 {
        (7nat, 'U', 's', 'e', 'r', '.', '3', '4')
    } else if id == 88 {
        (7nat, 'U', 's', 'e', 'r', '.', '3', '5')
    } else if id == 89 {
        (7nat, 'U', 's', 'e', 'r', '.', '3', '6')
    } else if id == 90 {
        (7nat, 'U', 's', 'e', 'r', '.', '3', '7')
    } else if id == 91 {
        (7nat, 'U', 's', 'e', 'r', '.', '3', '8')
    } else if id == 92 {
        (7nat, 'U', 's', 'e', 'r', '.', '3', '9')
    } else if id == 93 {
        (7nat, 'U', 's', 'e', 'r', '.', '4', '0')
    } else if id == 94 {
        (7nat, 'U', 's', 'e', 'r', '.', '4', '1')
    } else if id == 95 {
        (7nat, 'U', 's', 'e', 'r', '.', '4', '2')
    } else if id == 96 {
        (7nat, 'U', 's', 'e', 'r', '.', '4', '3')
    } else if id == 97 {
        (7nat, 'U', 's', 'e', 'r', '.', '4', '4')
    } else if id == 98 {
        (7nat, 'U', 's', 'e', 'r', '.', '4', '5')
    } else {
        (0nat, ' ', ' ', ' ', ' ', ' ', ' ', ' ')
    }
}

proof fn lemma_layer_literal_0(j: i32)
    requires
        0 <= j <= 19,
    ensures
        board_layer_name_spec(j) matches Some(p) ==> p.len() >= 3 && p[2] == '_',
        canonical_layer_name(j) == canonical_layer_text(j),
        canonical_layer_text(j) matches Some(n) ==> plain_layer_name(n) && name_key(n)
            == canonical_key(j),
{
    reveal_strlit("BL_");
    assert("BL_"@.len() == 3);
    reveal_strlit("BL_UNKNOWN");
    assert("BL_UNKNOWN"@.len() == 10);
    assert(name_key("BL_UNKNOWN"@) == (10nat, 'B', 'L', '_', 'U', 'N', 'K', 'N'));
    reveal_strlit("BL_UNDEFINED");
    assert("BL_UNDEFINED"@.len() == 12);
    assert(name_key("BL_UNDEFINED"@) == (12nat, 'B', 'L', '_', 'U', 'N', 'D', 'E'));
    reveal_strlit("BL_UNSELECTED");
    assert("BL_UNSELECTED"@.len() == 13);
    assert(name_key("BL_UNSELECTED"@) == (13nat, 'B', 'L', '_', 'U', 'N', 'S', 'E'));
    if j == 0 {
        reveal_strlit("BL_UNKNOWN");
        assert("BL_UNKNOWN"@.len() == 10);
    } else if j == 1 {
        reveal_strlit("BL_UNDEFINED");
        assert("BL_UNDEFINED"@.len() == 12);
    } else if j == 2 {
        reveal_strlit("BL_UNSELECTED");
        assert("BL_UNSELECTED"@.len() == 13);
    } else if j == 3 {
        reveal_strlit("BL_F_Cu");
        assert("BL_F_Cu"@.len() == 7);
        assert(name_key("BL_F_Cu"@) == (7nat, 'B', 'L', '_', 'F', '_', 'C', 'u'));
        reveal_strlit("F.Cu");
        assert("F.Cu"@.len() == 4);
        assert(name_key("F.Cu"@) == (4nat, 'F', '.', 'C', 'u', ' ', ' ', ' '));
        assert("BL_F_Cu"@.take(3) =~= "BL_"@);
        assert(underscores_to_dots("BL_F_Cu"@.skip(3)) =~= "F.Cu"@);
    } else if j == 4 {
        reveal_strlit("BL_In1_Cu");
        assert("BL_In1_Cu"@.len() == 9);
        assert(name_key("BL_In1_Cu"@) == (9nat, 'B', 'L', '_', 'I', 'n', '1', '_'));
        reveal_strlit("In1.Cu");
        assert("In1.Cu"@.len() == 6);
        assert(name_key("In1.Cu"@) == (6nat, 'I', 'n', '1', '.', 'C', 'u', ' '));
        assert("BL_In1_Cu"@.take(3) =~= "BL_"@);
        assert(underscores_to_dots("BL_In1_Cu"@.skip(3)) =~= "In1.Cu"@);
    } else if j == 5 {
        reveal_strlit("BL_In2_Cu");
        assert("BL_In2_Cu"@.len() == 9);
        assert(name_key("BL_In2_Cu"@) == (9nat, 'B', 'L', '_', 'I', 'n', '2', '_'));
        reveal_strlit("In2.Cu");
        assert("In2.Cu"@.len() == 6);
        assert(name_key("In2.Cu"@) == (6nat, 'I', 'n', '2', '.', 'C', 'u', ' '));
        assert("BL_In2_Cu"@.take(3) =~= "BL_"@);
        assert(underscores_to_dots("BL_In2_Cu"@.skip(3)) =~= "In2.Cu"@);
    } else if j == 6 {
        reveal_strlit("BL_In3_Cu");
        assert("BL_In3_Cu"@.len() == 9);
        assert(name_key("BL_In3_Cu"@) == (9nat, 'B', 'L', '_', 'I', 'n', '3', '_'));
        reveal_strlit("In3.Cu");
        assert("In3.Cu"@.len() == 6);
        assert(name_key("In3.Cu"@) == (6nat, 'I', 'n', '3', '.', 'C', 'u', ' '));
        assert("BL_In3_Cu"@.take(3) =~= "BL_"@);
        assert(underscores_to_dots("BL_In3_Cu"@.skip(3)) =~= "In3.Cu"@);
    } else if j == 7 {
        reveal_strlit("BL_In4_Cu");
        assert("BL_In4_Cu"@.len() == 9);
        assert(name_key("BL_In4_Cu"@) == (9nat, 'B', 'L', '_', 'I', 'n', '4', '_'));
        reveal_strlit("In4.Cu");
        assert("In4.Cu"@.len() == 6);
        assert(name_key("In4.Cu"@) == (6nat, 'I', 'n', '4', '.', 'C', 'u', ' '));
        assert("BL_In4_Cu"@.take(3) =~= "BL_"@);
        assert(underscores_to_dots("BL_In4_Cu"@.skip(3)) =~= "In4.Cu"@);
    } else if j == 8 {
        reveal_strlit("BL_In5_Cu");
        assert("BL_In5_Cu"@.len() == 9);
        assert(name_key("BL_In5_Cu"@) == (9nat, 'B', 'L', '_', 'I', 'n', '5', '_'));
        reveal_strlit("In5.Cu");
        assert("In5.Cu"@.len() == 6);
        assert(name_key("In5.Cu"@) == (6nat, 'I', 'n', '5', '.', 'C', 'u', ' '));
        assert("BL_In5_Cu"@.take(3) =~= "BL_"@);
        assert(underscores_to_dots("BL_In5_Cu"@.skip(3)) =~= "In5.Cu"@);
    } else if j == 9 {
        reveal_strlit("BL_In6_Cu");
        assert("BL_In6_Cu"@.len() == 9);
        assert(name_key("BL_In6_Cu"@) == (9nat, 'B', 'L', '_', 'I', 'n', '6', '_'));
        reveal_strlit("In6.Cu");
        assert("In6.Cu"@.len() == 6);
        assert(name_key("In6.Cu"@) == (6nat, 'I', 'n', '6', '.', 'C', 'u', ' '));
        assert("BL_In6_Cu"@.take(3) =~= "BL_"@);
        assert(underscores_to_dots("BL_In6_Cu"@.skip(3)) =~= "In6.Cu"@);
    } else if j == 10 {
        reveal_strlit("BL_In7_Cu");
        assert("BL_In7_Cu"@.len() == 9);
        assert(name_key("BL_In7_Cu"@) == (9nat, 'B', 'L', '_', 'I', 'n', '7', '_'));
        reveal_strlit("In7.Cu");
        assert("In7.Cu"@.len() == 6);
        assert(name_key("In7.Cu"@) == (6nat, 'I', 'n', '7', '.', 'C', 'u', ' '));
        assert("BL_In7_Cu"@.take(3) =~= "BL_"@);
        assert(underscores_to_dots("BL_In7_Cu"@.skip(3)) =~= "In7.Cu"@);
    } else if j == 11 {
        reveal_strlit("BL_In8_Cu");
        assert("BL_In8_Cu"@.len() == 9);
        assert(name_key("BL_In8_Cu"@) == (9nat, 'B', 'L', '_', 'I', 'n', '8', '_'));
        reveal_strlit("In8.Cu");
        assert("In8.Cu"@.len() == 6);
        assert(name_key("In8.Cu"@) == (6nat, 'I', 'n', '8', '.', 'C', 'u', ' '));
        assert("BL_In8_Cu"@.take(3) =~= "BL_"@);
        assert(underscores_to_dots("BL_In8_Cu"@.skip(3)) =~= "In8.Cu"@);
    } else if j == 12 {
        reveal_strlit("BL_In9_Cu");
        assert("BL_In9_Cu"@.len() == 9);
        assert(name_key("BL_In9_Cu"@) == (9nat, 'B', 'L', '_', 'I', 'n', '9', '_'));
        reveal_strlit("In9.Cu");
        assert("In9.Cu"@.len() == 6);
        assert(name_key("In9.Cu"@) == (6nat, 'I', 'n', '9', '.', 'C', 'u', ' '));
        assert("BL_In9_Cu"@.take(3) =~= "BL_"@);
        assert(underscores_to_dots("BL_In9_Cu"@.skip(3)) =~= "In9.Cu"@);
    } else if j == 13 {
        reveal_strlit("BL_In10_Cu");
        assert("BL_In10_Cu"@.len() == 10);
        assert(name_key("BL_In10_Cu"@) == (10nat, 'B', 'L', '_', 'I', 'n', '1', '0'));
        reveal_strlit("In10.Cu");
        assert("In10.Cu"@.len() == 7);
        assert(name_key("In10.Cu"@) == (7nat, 'I', 'n', '1', '0', '.', 'C', 'u'));
        assert("BL_In10_Cu"@.take(3) =~= "BL_"@);
        assert(underscores_to_dots("BL_In10_Cu"@.skip(3)) =~= "In10.Cu"@);
    } else if j == 14 {
        reveal_strlit("BL_In11_Cu");
        assert("BL_In11_Cu"@.len() == 10);
        assert(name_key("BL_In11_Cu"@) == (10nat, 'B', 'L', '_', 'I', 'n', '1', '1'));
        reveal_strlit("In11.Cu");
        assert("In11.Cu"@.len() == 7);
        assert(name_key("In11.Cu"@) == (7nat, 'I', 'n', '1', '1', '.', 'C', 'u'));
        assert("BL_In11_Cu"@.take(3) =~= "BL_"@);
        assert(underscores_to_dots("BL_In11_Cu"@.skip(3)) =~= "In11.Cu"@);
    } else if j == 15 {
        reveal_strlit("BL_In12_Cu");
        assert("BL_In12_Cu"@.len() == 10);
        assert(name_key("BL_In12_Cu"@) == (10nat, 'B', 'L', '_', 'I', 'n', '1', '2'));
        reveal_strlit("In12.Cu");
        assert("In12.Cu"@.len() == 7);
        assert(name_key("In12.Cu"@) == (7nat, 'I', 'n', '1', '2', '.', 'C', 'u'));
        assert("BL_In12_Cu"@.take(3) =~= "BL_"@);
        assert(underscores_to_dots("BL_In12_Cu"@.skip(3)) =~= "In12.Cu"@);
    } else if j == 16 {
        reveal_strlit("BL_In13_Cu");
        assert("BL_In13_Cu"@.len() == 10);
        assert(name_key("BL_In13_Cu"@) == (10nat, 'B', 'L', '_', 'I', 'n', '1', '3'));
        reveal_strlit("In13.Cu");
        assert("In13.Cu"@.len() == 7);
        assert(name_key("In13.Cu"@) == (7nat, 'I', 'n', '1', '3', '.', 'C', 'u'));
        assert("BL_In13_Cu"@.take(3) =~= "BL_"@);
        assert(underscores_to_dots("BL_In13_Cu"@.skip(3)) =~= "In13.Cu"@);
    } else if j == 17 {
        reveal_strlit("BL_In14_Cu");
        assert("BL_In14_Cu"@.len() == 10);
        assert(name_key("BL_In14_Cu"@) == (10nat, 'B', 'L', '_', 'I', 'n', '1', '4'));
        reveal_strlit("In14.Cu");
        assert("In14.Cu"@.len() == 7);
        assert(name_key("In14.Cu"@) == (7nat, 'I', 'n', '1', '4', '.', 'C', 'u'));
        assert("BL_In14_Cu"@.take(3) =~= "BL_"@);
        assert(underscores_to_dots("BL_In14_Cu"@.skip(3)) =~= "In14.Cu"@);
    } else if j == 18 {
        reveal_strlit("BL_In15_Cu");
        assert("BL_In15_Cu"@.len() == 10);
        assert(name_key("BL_In15_Cu"@) == (10nat, 'B', 'L', '_', 'I', 'n', '1', '5'));
        reveal_strlit("In15.Cu");
        assert("In15.Cu"@.len() == 7);
        assert(name_key("In15.Cu"@) == (7nat, 'I', 'n', '1', '5', '.', 'C', 'u'));
        assert("BL_In15_Cu"@.take(3) =~= "BL_"@);
        assert(underscores_to_dots("BL_In15_Cu"@.skip(3)) =~= "In15.Cu"@);
    } else if j == 19 {
        reveal_strlit("BL_In16_Cu");
        assert("BL_In16_Cu"@.len() == 10);
        assert(name_key("BL_In16_Cu"@) == (10nat, 'B', 'L', '_', 'I', 'n', '1', '6'));
        reveal_strlit("In16.Cu");
        assert("In16.Cu"@.len() == 7);
        assert(name_key("In16.Cu"@) == (7nat, 'I', 'n', '1', '6', '.', 'C', 'u'));
        assert("BL_In16_Cu"@.take(3) =~= "BL_"@);
        assert(underscores_to_dots("BL_In16_Cu"@.skip(3)) =~= "In16.Cu"@);
    }
}

proof fn lemma_layer_literal_1(j: i32)
    requires
        20 <= j <= 39,
    ensures
        board_layer_name_spec(j) matches Some(p) ==> p.len() >= 3 && p[2] == '_',
        canonical_layer_name(j) == canonical_layer_text(j),
        canonical_layer_text(j) matches Some(n) ==> plain_layer_name(n) && name_key(n)
            == canonical_key(j),
{
    reveal_strlit("BL_");
    assert("BL_"@.len() == 3);
    reveal_strlit("BL_UNKNOWN");
    assert("BL_UNKNOWN"@.len() == 10);
    assert(name_key("BL_UNKNOWN"@) == (10nat, 'B', 'L', '_', 'U', 'N', 'K', 'N'));
    reveal_strlit("BL_UNDEFINED");
    assert("BL_UNDEFINED"@.len() == 12);
    assert(name_key("BL_UNDEFINED"@) == (12nat, 'B', 'L', '_', 'U', 'N', 'D', 'E'));
    reveal_strlit("BL_UNSELECTED");
    assert("BL_UNSELECTED"@.len() == 13);
    assert(name_key("BL_UNSELECTED"@) == (13nat, 'B', 'L', '_', 'U', 'N', 'S', 'E'));
    if j == 20 {
        reveal_strlit("BL_In17_Cu");
        assert("BL_In17_Cu"@.len() == 10);
        assert(name_key("BL_In17_Cu"@) == (10nat, 'B', 'L', '_', 'I', 'n', '1', '7'));
        reveal_strlit("In17.Cu");
        assert("In17.Cu"@.len() == 7);
        assert(name_key("In17.Cu"@) == (7nat, 'I', 'n', '1', '7', '.', 'C', 'u'));
        assert("BL_In17_Cu"@.take(3) =~= "BL_"@);
        assert(underscores_to_dots("BL_In17_Cu"@.skip(3)) =~= "In17.Cu"@);
    } else if j == 21 {
        reveal_strlit("BL_In18_Cu");
        assert("BL_In18_Cu"@.len() == 10);
        assert(name_key("BL_In18_Cu"@) == (10nat, 'B', 'L', '_', 'I', 'n', '1', '8'));
        reveal_strlit("In18.Cu");
        assert("In18.Cu"@.len() == 7);
        assert(name_key("In18.Cu"@) == (7nat, 'I', 'n', '1', '8', '.', 'C', 'u'));
        assert("BL_In18_Cu"@.take(3) =~= "BL_"@);
        assert(underscores_to_dots("BL_In18_Cu"@.skip(3)) =~= "In18.Cu"@);
    } else if j == 22 {
        reveal_strlit("BL_In19_Cu");
        assert("BL_In19_Cu"@.len() == 10);
        assert(name_key("BL_In19_Cu"@) == (10nat, 'B', 'L', '_', 'I', 'n', '1', '9'));
        reveal_strlit("In19.Cu");
        assert("In19.Cu"@.len() == 7);
        assert(name_key("In19.Cu"@) == (7nat, 'I', 'n', '1', '9', '.', 'C', 'u'));
        assert("BL_In19_Cu"@.take(3) =~= "BL_"@);
        assert(underscores_to_dots("BL_In19_Cu"@.skip(3)) =~= "In19.Cu"@);
    } else if j == 23 {
        reveal_strlit("BL_In20_Cu");
        assert("BL_In20_Cu"@.len() == 10);
        assert(name_key("BL_In20_Cu"@) == (10nat, 'B', 'L', '_', 'I', 'n', '2', '0'));
        reveal_strlit("In20.Cu");
        assert("In20.Cu"@.len() == 7);
        assert(name_key("In20.Cu"@) == (7nat, 'I', 'n', '2', '0', '.', 'C', 'u'));
        assert("BL_In20_Cu"@.take(3) =~= "BL_"@);
        assert(underscores_to_dots("BL_In20_Cu"@.skip(3)) =~= "In20.Cu"@);
    } else if j == 24 {
        reveal_strlit("BL_In21_Cu");
        assert("BL_In21_Cu"@.len() == 10);
        assert(name_key("BL_In21_Cu"@) == (10nat, 'B', 'L', '_', 'I', 'n', '2', '1'));
        reveal_strlit("In21.Cu");
        assert("In21.Cu"@.len() == 7);
        assert(name_key("In21.Cu"@) == (7nat, 'I', 'n', '2', '1', '.', 'C', 'u'));
        assert("BL_In21_Cu"@.take(3) =~= "BL_"@);
        assert(underscores_to_dots("BL_In21_Cu"@.skip(3)) =~= "In21.Cu"@);
    } else if j == 25 {
        reveal_strlit("BL_In22_Cu");
        assert("BL_In22_Cu"@.len() == 10);
        assert(name_key("BL_In22_Cu"@) == (10nat, 'B', 'L', '_', 'I', 'n', '2', '2'));
        reveal_strlit("In22.Cu");
        assert("In22.Cu"@.len() == 7);
        assert(name_key("In22.Cu"@) == (7nat, 'I', 'n', '2', '2', '.', 'C', 'u'));
        assert("BL_In22_Cu"@.take(3) =~= "BL_"@);
        assert(underscores_to_dots("BL_In22_Cu"@.skip(3)) =~= "In22.Cu"@);
    } else if j == 26 {
        reveal_strlit("BL_In23_Cu");
        assert("BL_In23_Cu"@.len() == 10);
        assert(name_key("BL_In23_Cu"@) == (10nat, 'B', 'L', '_', 'I', 'n', '2', '3'));
        reveal_strlit("In23.Cu");
        assert("In23.Cu"@.len() == 7);
        assert(name_key("In23.Cu"@) == (7nat, 'I', 'n', '2', '3', '.', 'C', 'u'));
        assert("BL_In23_Cu"@.take(3) =~= "BL_"@);
        assert(underscores_to_dots("BL_In23_Cu"@.skip(3)) =~= "In23.Cu"@);
    } else if j == 27 {
        reveal_strlit("BL_In24_Cu");
        assert("BL_In24_Cu"@.len() == 10);
        assert(name_key("BL_In24_Cu"@) == (10nat, 'B', 'L', '_', 'I', 'n', '2', '4'));
        reveal_strlit("In24.Cu");
        assert("In24.Cu"@.len() == 7);
        assert(name_key("In24.Cu"@) == (7nat, 'I', 'n', '2', '4', '.', 'C', 'u'));
        assert("BL_In24_Cu"@.take(3) =~= "BL_"@);
        assert(underscores_to_dots("BL_In24_Cu"@.skip(3)) =~= "In24.Cu"@);
    } else if j == 28 {
        reveal_strlit("BL_In25_Cu");
        assert("BL_In25_Cu"@.len() == 10);
        assert(name_key("BL_In25_Cu"@) == (10nat, 'B', 'L', '_', 'I', 'n', '2', '5'));
        reveal_strlit("In25.Cu");
        assert("In25.Cu"@.len() == 7);
        assert(name_key("In25.Cu"@) == (7nat, 'I', 'n', '2', '5', '.', 'C', 'u'));
        assert("BL_In25_Cu"@.take(3) =~= "BL_"@);
        assert(underscores_to_dots("BL_In25_Cu"@.skip(3)) =~= "In25.Cu"@);
    } else if j == 29 {
        reveal_strlit("BL_In26_Cu");
        assert("BL_In26_Cu"@.len() == 10);
        assert(name_key("BL_In26_Cu"@) == (10nat, 'B', 'L', '_', 'I', 'n', '2', '6'));
        reveal_strlit("In26.Cu");
        assert("In26.Cu"@.len() == 7);
        assert(name_key("In26.Cu"@) == (7nat, 'I', 'n', '2', '6', '.', 'C', 'u'));
        assert("BL_In26_Cu"@.take(3) =~= "BL_"@);
        assert(underscores_to_dots("BL_In26_Cu"@.skip(3)) =~= "In26.Cu"@);
    } else if j == 30 {
        reveal_strlit("BL_In27_Cu");
        assert("BL_In27_Cu"@.len() == 10);
        assert(name_key("BL_In27_Cu"@) == (10nat, 'B', 'L', '_', 'I', 'n', '2', '7'));
        reveal_strlit("In27.Cu");
        assert("In27.Cu"@.len() == 7);
        assert(name_key("In27.Cu"@) == (7nat, 'I', 'n', '2', '7', '.', 'C', 'u'));
        assert("BL_In27_Cu"@.take(3) =~= "BL_"@);
        assert(underscores_to_dots("BL_In27_Cu"@.skip(3)) =~= "In27.Cu"@);
    } else if j == 31 {
        reveal_strlit("BL_In28_Cu");
        assert("BL_In28_Cu"@.len() == 10);
        assert(name_key("BL_In28_Cu"@) == (10nat, 'B', 'L', '_', 'I', 'n', '2', '8'));
        reveal_strlit("In28.Cu");
        assert("In28.Cu"@.len() == 7);
        assert(name_key("In28.Cu"@) == (7nat, 'I', 'n', '2', '8', '.', 'C', 'u'));
        assert("BL_In28_Cu"@.take(3) =~= "BL_"@);
        assert(underscores_to_dots("BL_In28_Cu"@.skip(3)) =~= "In28.Cu"@);
    } else if j == 32 {
        reveal_strlit("BL_In29_Cu");
        assert("BL_In29_Cu"@.len() == 10);
        assert(name_key("BL_In29_Cu"@) == (10nat, 'B', 'L', '_', 'I', 'n', '2', '9'));
        reveal_strlit("In29.Cu");
        assert("In29.Cu"@.len() == 7);
        assert(name_key("In29.Cu"@) == (7nat, 'I', 'n', '2', '9', '.', 'C', 'u'));
        assert("BL_In29_Cu"@.take(3) =~= "BL_"@);
        assert(underscores_to_dots("BL_In29_Cu"@.skip(3)) =~= "In29.Cu"@);
    } else if j == 33 {
        reveal_strlit("BL_In30_Cu");
        assert("BL_In30_Cu"@.len() == 10);
        assert(name_key("BL_In30_Cu"@) == (10nat, 'B', 'L', '_', 'I', 'n', '3', '0'));
        reveal_strlit("In30.Cu");
        assert("In30.Cu"@.len() == 7);
        assert(name_key("In30.Cu"@) == (7nat, 'I', 'n', '3', '0', '.', 'C', 'u'));
        assert("BL_In30_Cu"@.take(3) =~= "BL_"@);
        assert(underscores_to_dots("BL_In30_Cu"@.skip(3)) =~= "In30.Cu"@);
    } else if j == 34 {
        reveal_strlit("BL_B_Cu");
        assert("BL_B_Cu"@.len() == 7);
        assert(name_key("BL_B_Cu"@) == (7nat, 'B', 'L', '_', 'B', '_', 'C', 'u'));
        reveal_strlit("B.Cu");
        assert("B.Cu"@.len() == 4);
        assert(name_key("B.Cu"@) == (4nat, 'B', '.', 'C', 'u', ' ', ' ', ' '));
        assert("BL_B_Cu"@.take(3) =~= "BL_"@);
        assert(underscores_to_dots("BL_B_Cu"@.skip(3)) =~= "B.Cu"@);
    } else if j == 35 {
        reveal_strlit("BL_B_Adhes");
        assert("BL_B_Adhes"@.len() == 10);
        assert(name_key("BL_B_Adhes"@) == (10nat, 'B', 'L', '_', 'B', '_', 'A', 'd'));
        reveal_strlit("B.Adhes");
        assert("B.Adhes"@.len() == 7);
        assert(name_key("B.Adhes"@) == (7nat, 'B', '.', 'A', 'd', 'h', 'e', 's'));
        assert("BL_B_Adhes"@.take(3) =~= "BL_"@);
        assert(underscores_to_dots("BL_B_Adhes"@.skip(3)) =~= "B.Adhes"@);
    } else if j == 36 {
        reveal_strlit("BL_F_Adhes");
        assert("BL_F_Adhes"@.len() == 10);
        assert(name_key("BL_F_Adhes"@) == (10nat, 'B', 'L', '_', 'F', '_', 'A', 'd'));
        reveal_strlit("F.Adhes");
        assert("F.Adhes"@.len() == 7);
        assert(name_key("F.Adhes"@) == (7nat, 'F', '.', 'A', 'd', 'h', 'e', 's'));
        assert("BL_F_Adhes"@.take(3) =~= "BL_"@);
        assert(underscores_to_dots("BL_F_Adhes"@.skip(3)) =~= "F.Adhes"@);
    } else if j == 37 {
        reveal_strlit("BL_B_Paste");
        assert("BL_B_Paste"@.len() == 10);
        assert(name_key("BL_B_Paste"@) == (10nat, 'B', 'L', '_', 'B', '_', 'P', 'a'));
        reveal_strlit("B.Paste");
        assert("B.Paste"@.len() == 7);
        assert(name_key("B.Paste"@) == (7nat, 'B', '.', 'P', 'a', 's', 't', 'e'));
        assert("BL_B_Paste"@.take(3) =~= "BL_"@);
        assert(underscores_to_dots("BL_B_Paste"@.skip(3)) =~= "B.Paste"@);
    } else if j == 38 {
        reveal_strlit("BL_F_Paste");
        assert("BL_F_Paste"@.len() == 10);
        assert(name_key("BL_F_Paste"@) == (10nat, 'B', 'L', '_', 'F', '_', 'P', 'a'));
        reveal_strlit("F.Paste");
        assert("F.Paste"@.len() == 7);
        assert(name_key("F.Paste"@) == (7nat, 'F', '.', 'P', 'a', 's', 't', 'e'));
        assert("BL_F_Paste"@.take(3) =~= "BL_"@);
        assert(underscores_to_dots("BL_F_Paste"@.skip(3)) =~= "F.Paste"@);
    } else if j == 39 {
        reveal_strlit("BL_B_SilkS");
        assert("BL_B_SilkS"@.len() == 10);
        assert(name_key("BL_B_SilkS"@) == (10nat, 'B', 'L', '_', 'B', '_', 'S', 'i'));
        reveal_strlit("B.SilkS");
        assert("B.SilkS"@.len() == 7);
        assert(name_key("B.SilkS"@) == (7nat, 'B', '.', 'S', 'i', 'l', 'k', 'S'));
        assert("BL_B_SilkS"@.take(3) =~= "BL_"@);
        assert(underscores_to_dots("BL_B_SilkS"@.skip(3)) =~= "B.SilkS"@);
    }
}

proof fn lemma_layer_literal_2(j: i32)
    requires
        40 <= j <= 59,
    ensures
        board_layer_name_spec(j) matches Some(p) ==> p.len() >= 3 && p[2] == '_',
        canonical_layer_name(j) == canonical_layer_text(j),
        canonical_layer_text(j) matches Some(n) ==> plain_layer_name(n) && name_key(n)
            == canonical_key(j),
{
    reveal_strlit("BL_");
    assert("BL_"@.len() == 3);
    reveal_strlit("BL_UNKNOWN");
    assert("BL_UNKNOWN"@.len() == 10);
    assert(name_key("BL_UNKNOWN"@) == (10nat, 'B', 'L', '_', 'U', 'N', 'K', 'N'));
    reveal_strlit("BL_UNDEFINED");
    assert("BL_UNDEFINED"@.len() == 12);
    assert(name_key("BL_UNDEFINED"@) == (12nat, 'B', 'L', '_', 'U', 'N', 'D', 'E'));
    reveal_strlit("BL_UNSELECTED");
    assert("BL_UNSELECTED"@.len() == 13);
    assert(name_key("BL_UNSELECTED"@) == (13nat, 'B', 'L', '_', 'U', 'N', 'S', 'E'));
    if j == 40 {
        reveal_strlit("BL_F_SilkS");
        assert("BL_F_SilkS"@.len() == 10);
        assert(name_key("BL_F_SilkS"@) == (10nat, 'B', 'L', '_', 'F', '_', 'S', 'i'));
        reveal_strlit("F.SilkS");
        assert("F.SilkS"@.len() == 7);
        assert(name_key("F.SilkS"@) == (7nat, 'F', '.', 'S', 'i', 'l', 'k', 'S'));
        assert("BL_F_SilkS"@.take(3) =~= "BL_"@);
        assert(underscores_to_dots("BL_F_SilkS"@.skip(3)) =~= "F.SilkS"@);
    } else if j == 41 {
        reveal_strlit("BL_B_Mask");
        assert("BL_B_Mask"@.len() == 9);
        assert(name_key("BL_B_Mask"@) == (9nat, 'B', 'L', '_', 'B', '_', 'M', 'a'));
        reveal_strlit("B.Mask");
        assert("B.Mask"@.len() == 6);
        assert(name_key("B.Mask"@) == (6nat, 'B', '.', 'M', 'a', 's', 'k', ' '));
        assert("BL_B_Mask"@.take(3) =~= "BL_"@);
        assert(underscores_to_dots("BL_B_Mask"@.skip(3)) =~= "B.Mask"@);
    } else if j == 42 {
        reveal_strlit("BL_F_Mask");
        assert("BL_F_Mask"@.len() == 9);
        assert(name_key("BL_F_Mask"@) == (9nat, 'B', 'L', '_', 'F', '_', 'M', 'a'));
        reveal_strlit("F.Mask");
        assert("F.Mask"@.len() == 6);
        assert(name_key("F.Mask"@) == (6nat, 'F', '.', 'M', 'a', 's', 'k', ' '));
        assert("BL_F_Mask"@.take(3) =~= "BL_"@);
        assert(underscores_to_dots("BL_F_Mask"@.skip(3)) =~= "F.Mask"@);
    } else if j == 43 {
        reveal_strlit("BL_Dwgs_User");
        assert("BL_Dwgs_User"@.len() == 12);
        assert(name_key("BL_Dwgs_User"@) == (12nat, 'B', 'L', '_', 'D', 'w', 'g', 's'));
        reveal_strlit("Dwgs.User");
        assert("Dwgs.User"@.len() == 9);
        assert(name_key("Dwgs.User"@) == (9nat, 'D', 'w', 'g', 's', '.', 'U', 's'));
        assert("BL_Dwgs_User"@.take(3) =~= "BL_"@);
        assert(underscores_to_dots("BL_Dwgs_User"@.skip(3)) =~= "Dwgs.User"@);
    } else if j == 44 {
        reveal_strlit("BL_Cmts_User");
        assert("BL_Cmts_User"@.len() == 12);
        assert(name_key("BL_Cmts_User"@) == (12nat, 'B', 'L', '_', 'C', 'm', 't', 's'));
        reveal_strlit("Cmts.User");
        assert("Cmts.User"@.len() == 9);
        assert(name_key("Cmts.User"@) == (9nat, 'C', 'm', 't', 's', '.', 'U', 's'));
        assert("BL_Cmts_User"@.take(3) =~= "BL_"@);
        assert(underscores_to_dots("BL_Cmts_User"@.skip(3)) =~= "Cmts.User"@);
    } else if j == 45 {
        reveal_strlit("BL_Eco1_User");
        assert("BL_Eco1_User"@.len() == 12);
        assert(name_key("BL_Eco1_User"@) == (12nat, 'B', 'L', '_', 'E', 'c', 'o', '1'));
        reveal_strlit("Eco1.User");
        assert("Eco1.User"@.len() == 9);
        assert(name_key("Eco1.User"@) == (9nat, 'E', 'c', 'o', '1', '.', 'U', 's'));
        assert("BL_Eco1_User"@.take(3) =~= "BL_"@);
        assert(underscores_to_dots("BL_Eco1_User"@.skip(3)) =~= "Eco1.User"@);
    } else if j == 46 {
        reveal_strlit("BL_Eco2_User");
        assert("BL_Eco2_User"@.len() == 12);
        assert(name_key("BL_Eco2_User"@) == (12nat, 'B', 'L', '_', 'E', 'c', 'o', '2'));
        reveal_strlit("Eco2.User");
        assert("Eco2.User"@.len() == 9);
        assert(name_key("Eco2.User"@) == (9nat, 'E', 'c', 'o', '2', '.', 'U', 's'));
        assert("BL_Eco2_User"@.take(3) =~= "BL_"@);
        assert(underscores_to_dots("BL_Eco2_User"@.skip(3)) =~= "Eco2.User"@);
    } else if j == 47 {
        reveal_strlit("BL_Edge_Cuts");
        assert("BL_Edge_Cuts"@.len() == 12);
        assert(name_key("BL_Edge_Cuts"@) == (12nat, 'B', 'L', '_', 'E', 'd', 'g', 'e'));
        reveal_strlit("Edge.Cuts");
        assert("Edge.Cuts"@.len() == 9);
        assert(name_key("Edge.Cuts"@) == (9nat, 'E', 'd', 'g', 'e', '.', 'C', 'u'));
        assert("BL_Edge_Cuts"@.take(3) =~= "BL_"@);
        assert(underscores_to_dots("BL_Edge_Cuts"@.skip(3)) =~= "Edge.Cuts"@);
    } else if j == 48 {
        reveal_strlit("BL_Margin");
        assert("BL_Margin"@.len() == 9);
        assert(name_key("BL_Margin"@) == (9nat, 'B', 'L', '_', 'M', 'a', 'r', 'g'));
        reveal_strlit("Margin");
        assert("Margin"@.len() == 6);
        assert(name_key("Margin"@) == (6nat, 'M', 'a', 'r', 'g', 'i', 'n', ' '));
        assert("BL_Margin"@.take(3) =~= "BL_"@);
        assert(underscores_to_dots("BL_Margin"@.skip(3)) =~= "Margin"@);
    } else if j == 49 {
        reveal_strlit("BL_B_CrtYd");
        assert("BL_B_CrtYd"@.len() == 10);
        assert(name_key("BL_B_CrtYd"@) == (10nat, 'B', 'L', '_', 'B', '_', 'C', 'r'));
        reveal_strlit("B.CrtYd");
        assert("B.CrtYd"@.len() == 7);
        assert(name_key("B.CrtYd"@) == (7nat, 'B', '.', 'C', 'r', 't', 'Y', 'd'));
        assert("BL_B_CrtYd"@.take(3) =~= "BL_"@);
        assert(underscores_to_dots("BL_B_CrtYd"@.skip(3)) =~= "B.CrtYd"@);
    } else if j == 50 {
        reveal_strlit("BL_F_CrtYd");
        assert("BL_F_CrtYd"@.len() == 10);
        assert(name_key("BL_F_CrtYd"@) == (10nat, 'B', 'L', '_', 'F', '_', 'C', 'r'));
        reveal_strlit("F.CrtYd");
        assert("F.CrtYd"@.len() == 7);
        assert(name_key("F.CrtYd"@) == (7nat, 'F', '.', 'C', 'r', 't', 'Y', 'd'));
        assert("BL_F_CrtYd"@.take(3) =~= "BL_"@);
        assert(underscores_to_dots("BL_F_CrtYd"@.skip(3)) =~= "F.CrtYd"@);
    } else if j == 51 {
        reveal_strlit("BL_B_Fab");
        assert("BL_B_Fab"@.len() == 8);
        assert(name_key("BL_B_Fab"@) == (8nat, 'B', 'L', '_', 'B', '_', 'F', 'a'));
        reveal_strlit("B.Fab");
        assert("B.Fab"@.len() == 5);
        assert(name_key("B.Fab"@) == (5nat, 'B', '.', 'F', 'a', 'b', ' ', ' '));
        assert("BL_B_Fab"@.take(3) =~= "BL_"@);
        assert(underscores_to_dots("BL_B_Fab"@.skip(3)) =~= "B.Fab"@);
    } else if j == 52 {
        reveal_strlit("BL_F_Fab");
        assert("BL_F_Fab"@.len() == 8);
        assert(name_key("BL_F_Fab"@) == (8nat, 'B', 'L', '_', 'F', '_', 'F', 'a'));
        reveal_strlit("F.Fab");
        assert("F.Fab"@.len() == 5);
        assert(name_key("F.Fab"@) == (5nat, 'F', '.', 'F', 'a', 'b', ' ', ' '));
        assert("BL_F_Fab"@.take(3) =~= "BL_"@);
        assert(underscores_to_dots("BL_F_Fab"@.skip(3)) =~= "F.Fab"@);
    } else if j == 53 {
        reveal_strlit("BL_User_1");
        assert("BL_User_1"@.len() == 9);
        assert(name_key("BL_User_1"@) == (9nat, 'B', 'L', '_', 'U', 's', 'e', 'r'));
        reveal_strlit("User.1");
        assert("User.1"@.len() == 6);
        assert(name_key("User.1"@) == (6nat, 'U', 's', 'e', 'r', '.', '1', ' '));
        assert("BL_User_1"@.take(3) =~= "BL_"@);
        assert(underscores_to_dots("BL_User_1"@.skip(3)) =~= "User.1"@);
    } else if j == 54 {
        reveal_strlit("BL_User_2");
        assert("BL_User_2"@.len() == 9);
        assert(name_key("BL_User_2"@) == (9nat, 'B', 'L', '_', 'U', 's', 'e', 'r'));
        reveal_strlit("User.2");
        assert("User.2"@.len() == 6);
        assert(name_key("User.2"@) == (6nat, 'U', 's', 'e', 'r', '.', '2', ' '));
        assert("BL_User_2"@.take(3) =~= "BL_"@);
        assert(underscores_to_dots("BL_User_2"@.skip(3)) =~= "User.2"@);
    } else if j == 55 {
        reveal_strlit("BL_User_3");
        assert("BL_User_3"@.len() == 9);
        assert(name_key("BL_User_3"@) == (9nat, 'B', 'L', '_', 'U', 's', 'e', 'r'));
        reveal_strlit("User.3");
        assert("User.3"@.len() == 6);
        assert(name_key("User.3"@) == (6nat, 'U', 's', 'e', 'r', '.', '3', ' '));
        assert("BL_User_3"@.take(3) =~= "BL_"@);
        assert(underscores_to_dots("BL_User_3"@.skip(3)) =~= "User.3"@);
    } else if j == 56 {
        reveal_strlit("BL_User_4");
        assert("BL_User_4"@.len() == 9);
        assert(name_key("BL_User_4"@) == (9nat, 'B', 'L', '_', 'U', 's', 'e', 'r'));
        reveal_strlit("User.4");
        assert("User.4"@.len() == 6);
        assert(name_key("User.4"@) == (6nat, 'U', 's', 'e', 'r', '.', '4', ' '));
        assert("BL_User_4"@.take(3) =~= "BL_"@);
        assert(underscores_to_dots("BL_User_4"@.skip(3)) =~= "User.4"@);
    } else if j == 57 {
        reveal_strlit("BL_User_5");
        assert("BL_User_5"@.len() == 9);
        assert(name_key("BL_User_5"@) == (9nat, 'B', 'L', '_', 'U', 's', 'e', 'r'));
        reveal_strlit("User.5");
        assert("User.5"@.len() == 6);
        assert(name_key("User.5"@) == (6nat, 'U', 's', 'e', 'r', '.', '5', ' '));
        assert("BL_User_5"@.take(3) =~= "BL_"@);
        assert(underscores_to_dots("BL_User_5"@.skip(3)) =~= "User.5"@);
    } else if j == 58 {
        reveal_strlit("BL_User_6");
        assert("BL_User_6"@.len() == 9);
        assert(name_key("BL_User_6"@) == (9nat, 'B', 'L', '_', 'U', 's', 'e', 'r'));
        reveal_strlit("User.6");
        assert("User.6"@.len() == 6);
        assert(name_key("User.6"@) == (6nat, 'U', 's', 'e', 'r', '.', '6', ' '));
        assert("BL_User_6"@.take(3) =~= "BL_"@);
        assert(underscores_to_dots("BL_User_6"@.skip(3)) =~= "User.6"@);
    } else if j == 59 {
        reveal_strlit("BL_User_7");
        assert("BL_User_7"@.len() == 9);
        assert(name_key("BL_User_7"@) == (9nat, 'B', 'L', '_', 'U', 's', 'e', 'r'));
        reveal_strlit("User.7");
        assert("User.7"@.len() == 6);
        assert(name_key("User.7"@) == (6nat, 'U', 's', 'e', 'r', '.', '7', ' '));
        assert("BL_User_7"@.take(3) =~= "BL_"@);
        assert(underscores_to_dots("BL_User_7"@.skip(3)) =~= "User.7"@);
    }
}

proof fn lemma_layer_literal_3(j: i32)
    requires
        60 <= j <= 79,
    ensures
        board_layer_name_spec(j) matches Some(p) ==> p.len() >= 3 && p[2] == '_',
        canonical_layer_name(j) == canonical_layer_text(j),
        canonical_layer_text(j) matches Some(n) ==> plain_layer_name(n) && name_key(n)
            == canonical_key(j),
{
    reveal_strlit("BL_");
    assert("BL_"@.len() == 3);
    reveal_strlit("BL_UNKNOWN");
    assert("BL_UNKNOWN"@.len() == 10);
    assert(name_key("BL_UNKNOWN"@) == (10nat, 'B', 'L', '_', 'U', 'N', 'K', 'N'));
    reveal_strlit("BL_UNDEFINED");
    assert("BL_UNDEFINED"@.len() == 12);
    assert(name_key("BL_UNDEFINED"@) == (12nat, 'B', 'L', '_', 'U', 'N', 'D', 'E'));
    reveal_strlit("BL_UNSELECTED");
    assert("BL_UNSELECTED"@.len() == 13);
    assert(name_key("BL_UNSELECTED"@) == (13nat, 'B', 'L', '_', 'U', 'N', 'S', 'E'));
    if j == 60 {
        reveal_strlit("BL_User_8");
        assert("BL_User_8"@.len() == 9);
        assert(name_key("BL_User_8"@) == (9nat, 'B', 'L', '_', 'U', 's', 'e', 'r'));
        reveal_strlit("User.8");
        assert("User.8"@.len() == 6);
        assert(name_key("User.8"@) == (6nat, 'U', 's', 'e', 'r', '.', '8', ' '));
        assert("BL_User_8"@.take(3) =~= "BL_"@);
        assert(underscores_to_dots("BL_User_8"@.skip(3)) =~= "User.8"@);
    } else if j == 61 {
        reveal_strlit("BL_User_9");
        assert("BL_User_9"@.len() == 9);
        assert(name_key("BL_User_9"@) == (9nat, 'B', 'L', '_', 'U', 's', 'e', 'r'));
        reveal_strlit("User.9");
        assert("User.9"@.len() == 6);
        assert(name_key("User.9"@) == (6nat, 'U', 's', 'e', 'r', '.', '9', ' '));
        assert("BL_User_9"@.take(3) =~= "BL_"@);
        assert(underscores_to_dots("BL_User_9"@.skip(3)) =~= "User.9"@);
    } else if j == 62 {
        reveal_strlit("BL_Rescue");
        assert("BL_Rescue"@.len() == 9);
        assert(name_key("BL_Rescue"@) == (9nat, 'B', 'L', '_', 'R', 'e', 's', 'c'));
        reveal_strlit("Rescue");
        assert("Rescue"@.len() == 6);
        assert(name_key("Rescue"@) == (6nat, 'R', 'e', 's', 'c', 'u', 'e', ' '));
        assert("BL_Rescue"@.take(3) =~= "BL_"@);
        assert(underscores_to_dots("BL_Rescue"@.skip(3)) =~= "Rescue"@);
    } else if j == 63 {
        reveal_strlit("BL_User_10");
        assert("BL_User_10"@.len() == 10);
        assert(name_key("BL_User_10"@) == (10nat, 'B', 'L', '_', 'U', 's', 'e', 'r'));
        reveal_strlit("User.10");
        assert("User.10"@.len() == 7);
        assert(name_key("User.10"@) == (7nat, 'U', 's', 'e', 'r', '.', '1', '0'));
        assert("BL_User_10"@.take(3) =~= "BL_"@);
        assert(underscores_to_dots("BL_User_10"@.skip(3)) =~= "User.10"@);
    } else if j == 64 {
        reveal_strlit("BL_User_11");
        assert("BL_User_11"@.len() == 10);
        assert(name_key("BL_User_11"@) == (10nat, 'B', 'L', '_', 'U', 's', 'e', 'r'));
        reveal_strlit("User.11");
        assert("User.11"@.len() == 7);
        assert(name_key("User.11"@) == (7nat, 'U', 's', 'e', 'r', '.', '1', '1'));
        assert("BL_User_11"@.take(3) =~= "BL_"@);
        assert(underscores_to_dots("BL_User_11"@.skip(3)) =~= "User.11"@);
    } else if j == 65 {
        reveal_strlit("BL_User_12");
        assert("BL_User_12"@.len() == 10);
        assert(name_key("BL_User_12"@) == (10nat, 'B', 'L', '_', 'U', 's', 'e', 'r'));
        reveal_strlit("User.12");
        assert("User.12"@.len() == 7);
        assert(name_key("User.12"@) == (7nat, 'U', 's', 'e', 'r', '.', '1', '2'));
        assert("BL_User_12"@.take(3) =~= "BL_"@);
        assert(underscores_to_dots("BL_User_12"@.skip(3)) =~= "User.12"@);
    } else if j == 66 {
        reveal_strlit("BL_User_13");
        assert("BL_User_13"@.len() == 10);
        assert(name_key("BL_User_13"@) == (10nat, 'B', 'L', '_', 'U', 's', 'e', 'r'));
        reveal_strlit("User.13");
        assert("User.13"@.len() == 7);
        assert(name_key("User.13"@) == (7nat, 'U', 's', 'e', 'r', '.', '1', '3'));
        assert("BL_User_13"@.take(3) =~= "BL_"@);
        assert(underscores_to_dots("BL_User_13"@.skip(3)) =~= "User.13"@);
    } else if j == 67 {
        reveal_strlit("BL_User_14");
        assert("BL_User_14"@.len() == 10);
        assert(name_key("BL_User_14"@) == (10nat, 'B', 'L', '_', 'U', 's', 'e', 'r'));
        reveal_strlit("User.14");
        assert("User.14"@.len() == 7);
        assert(name_key("User.14"@) == (7nat, 'U', 's', 'e', 'r', '.', '1', '4'));
        assert("BL_User_14"@.take(3) =~= "BL_"@);
        assert(underscores_to_dots("BL_User_14"@.skip(3)) =~= "User.14"@);
    } else if j == 68 {
        reveal_strlit("BL_User_15");
        assert("BL_User_15"@.len() == 10);
        assert(name_key("BL_User_15"@) == (10nat, 'B', 'L', '_', 'U', 's', 'e', 'r'));
        reveal_strlit("User.15");
        assert("User.15"@.len() == 7);
        assert(name_key("User.15"@) == (7nat, 'U', 's', 'e', 'r', '.', '1', '5'));
        assert("BL_User_15"@.take(3) =~= "BL_"@);
        assert(underscores_to_dots("BL_User_15"@.skip(3)) =~= "User.15"@);
    } else if j == 69 {
        reveal_strlit("BL_User_16");
        assert("BL_User_16"@.len() == 10);
        assert(name_key("BL_User_16"@) == (10nat, 'B', 'L', '_', 'U', 's', 'e', 'r'));
        reveal_strlit("User.16");
        assert("User.16"@.len() == 7);
        assert(name_key("User.16"@) == (7nat, 'U', 's', 'e', 'r', '.', '1', '6'));
        assert("BL_User_16"@.take(3) =~= "BL_"@);
        assert(underscores_to_dots("BL_User_16"@.skip(3)) =~= "User.16"@);
    } else if j == 70 {
        reveal_strlit("BL_User_17");
        assert("BL_User_17"@.len() == 10);
        assert(name_key("BL_User_17"@) == (10nat, 'B', 'L', '_', 'U', 's', 'e', 'r'));
        reveal_strlit("User.17");
        assert("User.17"@.len() == 7);
        assert(name_key("User.17"@) == (7nat, 'U', 's', 'e', 'r', '.', '1', '7'));
        assert("BL_User_17"@.take(3) =~= "BL_"@);
        assert(underscores_to_dots("BL_User_17"@.skip(3)) =~= "User.17"@);
    } else if j == 71 {
        reveal_strlit("BL_User_18");
        assert("BL_User_18"@.len() == 10);
        assert(name_key("BL_User_18"@) == (10nat, 'B', 'L', '_', 'U', 's', 'e', 'r'));
        reveal_strlit("User.18");
        assert("User.18"@.len() == 7);
        assert(name_key("User.18"@) == (7nat, 'U', 's', 'e', 'r', '.', '1', '8'));
        assert("BL_User_18"@.take(3) =~= "BL_"@);
        assert(underscores_to_dots("BL_User_18"@.skip(3)) =~= "User.18"@);
    } else if j == 72 {
        reveal_strlit("BL_User_19");
        assert("BL_User_19"@.len() == 10);
        assert(name_key("BL_User_19"@) == (10nat, 'B', 'L', '_', 'U', 's', 'e', 'r'));
        reveal_strlit("User.19");
        assert("User.19"@.len() == 7);
        assert(name_key("User.19"@) == (7nat, 'U', 's', 'e', 'r', '.', '1', '9'));
        assert("BL_User_19"@.take(3) =~= "BL_"@);
        assert(underscores_to_dots("BL_User_19"@.skip(3)) =~= "User.19"@);
    } else if j == 73 {
        reveal_strlit("BL_User_20");
        assert("BL_User_20"@.len() == 10);
        assert(name_key("BL_User_20"@) == (10nat, 'B', 'L', '_', 'U', 's', 'e', 'r'));
        reveal_strlit("User.20");
        assert("User.20"@.len() == 7);
        assert(name_key("User.20"@) == (7nat, 'U', 's', 'e', 'r', '.', '2', '0'));
        assert("BL_User_20"@.take(3) =~= "BL_"@);
        assert(underscores_to_dots("BL_User_20"@.skip(3)) =~= "User.20"@);
    } else if j == 74 {
        reveal_strlit("BL_User_21");
        assert("BL_User_21"@.len() == 10);
        assert(name_key("BL_User_21"@) == (10nat, 'B', 'L', '_', 'U', 's', 'e', 'r'));
        reveal_strlit("User.21");
        assert("User.21"@.len() == 7);
        assert(name_key("User.21"@) == (7nat, 'U', 's', 'e', 'r', '.', '2', '1'));
        assert("BL_User_21"@.take(3) =~= "BL_"@);
        assert(underscores_to_dots("BL_User_21"@.skip(3)) =~= "User.21"@);
    } else if j == 75 {
        reveal_strlit("BL_User_22");
        assert("BL_User_22"@.len() == 10);
        assert(name_key("BL_User_22"@) == (10nat, 'B', 'L', '_', 'U', 's', 'e', 'r'));
        reveal_strlit("User.22");
        assert("User.22"@.len() == 7);
        assert(name_key("User.22"@) == (7nat, 'U', 's', 'e', 'r', '.', '2', '2'));
        assert("BL_User_22"@.take(3) =~= "BL_"@);
        assert(underscores_to_dots("BL_User_22"@.skip(3)) =~= "User.22"@);
    } else if j == 76 {
        reveal_strlit("BL_User_23");
        assert("BL_User_23"@.len() == 10);
        assert(name_key("BL_User_23"@) == (10nat, 'B', 'L', '_', 'U', 's', 'e', 'r'));
        reveal_strlit("User.23");
        assert("User.23"@.len() == 7);
        assert(name_key("User.23"@) == (7nat, 'U', 's', 'e', 'r', '.', '2', '3'));
        assert("BL_User_23"@.take(3) =~= "BL_"@);
        assert(underscores_to_dots("BL_User_23"@.skip(3)) =~= "User.23"@);
    } else if j == 77 {
        reveal_strlit("BL_User_24");
        assert("BL_User_24"@.len() == 10);
        assert(name_key("BL_User_24"@) == (10nat, 'B', 'L', '_', 'U', 's', 'e', 'r'));
        reveal_strlit("User.24");
        assert("User.24"@.len() == 7);
        assert(name_key("User.24"@) == (7nat, 'U', 's', 'e', 'r', '.', '2', '4'));
        assert("BL_User_24"@.take(3) =~= "BL_"@);
        assert(underscores_to_dots("BL_User_24"@.skip(3)) =~= "User.24"@);
    } else if j == 78 {
        reveal_strlit("BL_User_25");
        assert("BL_User_25"@.len() == 10);
        assert(name_key("BL_User_25"@) == (10nat, 'B', 'L', '_', 'U', 's', 'e', 'r'));
        reveal_strlit("User.25");
        assert("User.25"@.len() == 7);
        assert(name_key("User.25"@) == (7nat, 'U', 's', 'e', 'r', '.', '2', '5'));
        assert("BL_User_25"@.take(3) =~= "BL_"@);
        assert(underscores_to_dots("BL_User_25"@.skip(3)) =~= "User.25"@);
    } else if j == 79 {
        reveal_strlit("BL_User_26");
        assert("BL_User_26"@.len() == 10);
        assert(name_key("BL_User_26"@) == (10nat, 'B', 'L', '_', 'U', 's', 'e', 'r'));
        reveal_strlit("User.26");
        assert("User.26"@.len() == 7);
        assert(name_key("User.26"@) == (7nat, 'U', 's', 'e', 'r', '.', '2', '6'));
        assert("BL_User_26"@.take(3) =~= "BL_"@);
        assert(underscores_to_dots("BL_User_26"@.skip(3)) =~= "User.26"@);
    }
}

proof fn lemma_layer_literal_4(j: i32)
    requires
        80 <= j <= 98,
    ensures
        board_layer_name_spec(j) matches Some(p) ==> p.len() >= 3 && p[2] == '_',
        canonical_layer_name(j) == canonical_layer_text(j),
        canonical_layer_text(j) matches Some(n) ==> plain_layer_name(n) && name_key(n)
            == canonical_key(j),
{
    reveal_strlit("BL_");
    assert("BL_"@.len() == 3);
    reveal_strlit("BL_UNKNOWN");
    assert("BL_UNKNOWN"@.len() == 10);
    assert(name_key("BL_UNKNOWN"@) == (10nat, 'B', 'L', '_', 'U', 'N', 'K', 'N'));
    reveal_strlit("BL_UNDEFINED");
    assert("BL_UNDEFINED"@.len() == 12);
    assert(name_key("BL_UNDEFINED"@) == (12nat, 'B', 'L', '_', 'U', 'N', 'D', 'E'));
    reveal_strlit("BL_UNSELECTED");
    assert("BL_UNSELECTED"@.len() == 13);
    assert(name_key("BL_UNSELECTED"@) == (13nat, 'B', 'L', '_', 'U', 'N', 'S', 'E'));
    if j == 80 {
        reveal_strlit("BL_User_27");
        assert("BL_User_27"@.len() == 10);
        assert(name_key("BL_User_27"@) == (10nat, 'B', 'L', '_', 'U', 's', 'e', 'r'));
        reveal_strlit("User.27");
        assert("User.27"@.len() == 7);
        assert(name_key("User.27"@) == (7nat, 'U', 's', 'e', 'r', '.', '2', '7'));
        assert("BL_User_27"@.take(3) =~= "BL_"@);
        assert(underscores_to_dots("BL_User_27"@.skip(3)) =~= "User.27"@);
    } else if j == 81 {
        reveal_strlit("BL_User_28");
        assert("BL_User_28"@.len() == 10);
        assert(name_key("BL_User_28"@) == (10nat, 'B', 'L', '_', 'U', 's', 'e', 'r'));
        reveal_strlit("User.28");
        assert("User.28"@.len() == 7);
        assert(name_key("User.28"@) == (7nat, 'U', 's', 'e', 'r', '.', '2', '8'));
        assert("BL_User_28"@.take(3) =~= "BL_"@);
        assert(underscores_to_dots("BL_User_28"@.skip(3)) =~= "User.28"@);
    } else if j == 82 {
        reveal_strlit("BL_User_29");
        assert("BL_User_29"@.len() == 10);
        assert(name_key("BL_User_29"@) == (10nat, 'B', 'L', '_', 'U', 's', 'e', 'r'));
        reveal_strlit("User.29");
        assert("User.29"@.len() == 7);
        assert(name_key("User.29"@) == (7nat, 'U', 's', 'e', 'r', '.', '2', '9'));
        assert("BL_User_29"@.take(3) =~= "BL_"@);
        assert(underscores_to_dots("BL_User_29"@.skip(3)) =~= "User.29"@);
    } else if j == 83 {
        reveal_strlit("BL_User_30");
        assert("BL_User_30"@.len() == 10);
        assert(name_key("BL_User_30"@) == (10nat, 'B', 'L', '_', 'U', 's', 'e', 'r'));
        reveal_strlit("User.30");
        assert("User.30"@.len() == 7);
        assert(name_key("User.30"@) == (7nat, 'U', 's', 'e', 'r', '.', '3', '0'));
        assert("BL_User_30"@.take(3) =~= "BL_"@);
        assert(underscores_to_dots("BL_User_30"@.skip(3)) =~= "User.30"@);
    } else if j == 84 {
        reveal_strlit("BL_User_31");
        assert("BL_User_31"@.len() == 10);
        assert(name_key("BL_User_31"@) == (10nat, 'B', 'L', '_', 'U', 's', 'e', 'r'));
        reveal_strlit("User.31");
        assert("User.31"@.len() == 7);
        assert(name_key("User.31"@) == (7nat, 'U', 's', 'e', 'r', '.', '3', '1'));
        assert("BL_User_31"@.take(3) =~= "BL_"@);
        assert(underscores_to_dots("BL_User_31"@.skip(3)) =~= "User.31"@);
    } else if j == 85 {
        reveal_strlit("BL_User_32");
        assert("BL_User_32"@.len() == 10);
        assert(name_key("BL_User_32"@) == (10nat, 'B', 'L', '_', 'U', 's', 'e', 'r'));
        reveal_strlit("User.32");
        assert("User.32"@.len() == 7);
        assert(name_key("User.32"@) == (7nat, 'U', 's', 'e', 'r', '.', '3', '2'));
        assert("BL_User_32"@.take(3) =~= "BL_"@);
        assert(underscores_to_dots("BL_User_32"@.skip(3)) =~= "User.32"@);
    } else if j == 86 {
        reveal_strlit("BL_User_33");
        assert("BL_User_33"@.len() == 10);
        assert(name_key("BL_User_33"@) == (10nat, 'B', 'L', '_', 'U', 's', 'e', 'r'));
        reveal_strlit("User.33");
        assert("User.33"@.len() == 7);
        assert(name_key("User.33"@) == (7nat, 'U', 's', 'e', 'r', '.', '3', '3'));
        assert("BL_User_33"@.take(3) =~= "BL_"@);
        assert(underscores_to_dots("BL_User_33"@.skip(3)) =~= "User.33"@);
    } else if j == 87 {
        reveal_strlit("BL_User_34");
        assert("BL_User_34"@.len() == 10);
        assert(name_key("BL_User_34"@) == (10nat, 'B', 'L', '_', 'U', 's', 'e', 'r'));
        reveal_strlit("User.34");
        assert("User.34"@.len() == 7);
        assert(name_key("User.34"@) == (7nat, 'U', 's', 'e', 'r', '.', '3', '4'));
        assert("BL_User_34"@.take(3) =~= "BL_"@);
        assert(underscores_to_dots("BL_User_34"@.skip(3)) =~= "User.34"@);
    } else if j == 88 {
        reveal_strlit("BL_User_35");
        assert("BL_User_35"@.len() == 10);
        assert(name_key("BL_User_35"@) == (10nat, 'B', 'L', '_', 'U', 's', 'e', 'r'));
        reveal_strlit("User.35");
        assert("User.35"@.len() == 7);
        assert(name_key("User.35"@) == (7nat, 'U', 's', 'e', 'r', '.', '3', '5'));
        assert("BL_User_35"@.take(3) =~= "BL_"@);
        assert(underscores_to_dots("BL_User_35"@.skip(3)) =~= "User.35"@);
    } else if j == 89 {
        reveal_strlit("BL_User_36");
        assert("BL_User_36"@.len() == 10);
        assert(name_key("BL_User_36"@) == (10nat, 'B', 'L', '_', 'U', 's', 'e', 'r'));
        reveal_strlit("User.36");
        assert("User.36"@.len() == 7);
        assert(name_key("User.36"@) == (7nat, 'U', 's', 'e', 'r', '.', '3', '6'));
        assert("BL_User_36"@.take(3) =~= "BL_"@);
        assert(underscores_to_dots("BL_User_36"@.skip(3)) =~= "User.36"@);
    } else if j == 90 {
        reveal_strlit("BL_User_37");
        assert("BL_User_37"@.len() == 10);
        assert(name_key("BL_User_37"@) == (10nat, 'B', 'L', '_', 'U', 's', 'e', 'r'));
        reveal_strlit("User.37");
        assert("User.37"@.len() == 7);
        assert(name_key("User.37"@) == (7nat, 'U', 's', 'e', 'r', '.', '3', '7'));
        assert("BL_User_37"@.take(3) =~= "BL_"@);
        assert(underscores_to_dots("BL_User_37"@.skip(3)) =~= "User.37"@);
    } else if j == 91 {
        reveal_strlit("BL_User_38");
        assert("BL_User_38"@.len() == 10);
        assert(name_key("BL_User_38"@) == (10nat, 'B', 'L', '_', 'U', 's', 'e', 'r'));
        reveal_strlit("User.38");
        assert("User.38"@.len() == 7);
        assert(name_key("User.38"@) == (7nat, 'U', 's', 'e', 'r', '.', '3', '8'));
        assert("BL_User_38"@.take(3) =~= "BL_"@);
        assert(underscores_to_dots("BL_User_38"@.skip(3)) =~= "User.38"@);
    } else if j == 92 {
        reveal_strlit("BL_User_39");
        assert("BL_User_39"@.len() == 10);
        assert(name_key("BL_User_39"@) == (10nat, 'B', 'L', '_', 'U', 's', 'e', 'r'));
        reveal_strlit("User.39");
        assert("User.39"@.len() == 7);
        assert(name_key("User.39"@) == (7nat, 'U', 's', 'e', 'r', '.', '3', '9'));
        assert("BL_User_39"@.take(3) =~= "BL_"@);
        assert(underscores_to_dots("BL_User_39"@.skip(3)) =~= "User.39"@);
    } else if j == 93 {
        reveal_strlit("BL_User_40");
        assert("BL_User_40"@.len() == 10);
        assert(name_key("BL_User_40"@) == (10nat, 'B', 'L', '_', 'U', 's', 'e', 'r'));
        reveal_strlit("User.40");
        assert("User.40"@.len() == 7);
        assert(name_key("User.40"@) == (7nat, 'U', 's', 'e', 'r', '.', '4', '0'));
        assert("BL_User_40"@.take(3) =~= "BL_"@);
        assert(underscores_to_dots("BL_User_40"@.skip(3)) =~= "User.40"@);
    } else if j == 94 {
        reveal_strlit("BL_User_41");
        assert("BL_User_41"@.len() == 10);
        assert(name_key("BL_User_41"@) == (10nat, 'B', 'L', '_', 'U', 's', 'e', 'r'));
        reveal_strlit("User.41");
        assert("User.41"@.len() == 7);
        assert(name_key("User.41"@) == (7nat, 'U', 's', 'e', 'r', '.', '4', '1'));
        assert("BL_User_41"@.take(3) =~= "BL_"@);
        assert(underscores_to_dots("BL_User_41"@.skip(3)) =~= "User.41"@);
    } else if j == 95 {
        reveal_strlit("BL_User_42");
        assert("BL_User_42"@.len() == 10);
        assert(name_key("BL_User_42"@) == (10nat, 'B', 'L', '_', 'U', 's', 'e', 'r'));
        reveal_strlit("User.42");
        assert("User.42"@.len() == 7);
        assert(name_key("User.42"@) == (7nat, 'U', 's', 'e', 'r', '.', '4', '2'));
        assert("BL_User_42"@.take(3) =~= "BL_"@);
        assert(underscores_to_dots("BL_User_42"@.skip(3)) =~= "User.42"@);
    } else if j == 96 {
        reveal_strlit("BL_User_43");
        assert("BL_User_43"@.len() == 10);
        assert(name_key("BL_User_43"@) == (10nat, 'B', 'L', '_', 'U', 's', 'e', 'r'));
        reveal_strlit("User.43");
        assert("User.43"@.len() == 7);
        assert(name_key("User.43"@) == (7nat, 'U', 's', 'e', 'r', '.', '4', '3'));
        assert("BL_User_43"@.take(3) =~= "BL_"@);
        assert(underscores_to_dots("BL_User_43"@.skip(3)) =~= "User.43"@);
    } else if j == 97 {
        reveal_strlit("BL_User_44");
        assert("BL_User_44"@.len() == 10);
        assert(name_key("BL_User_44"@) == (10nat, 'B', 'L', '_', 'U', 's', 'e', 'r'));
        reveal_strlit("User.44");
        assert("User.44"@.len() == 7);
        assert(name_key("User.44"@) == (7nat, 'U', 's', 'e', 'r', '.', '4', '4'));
        assert("BL_User_44"@.take(3) =~= "BL_"@);
        assert(underscores_to_dots("BL_User_44"@.skip(3)) =~= "User.44"@);
    } else if j == 98 {
        reveal_strlit("BL_User_45");
        assert("BL_User_45"@.len() == 10);
        assert(name_key("BL_User_45"@) == (10nat, 'B', 'L', '_', 'U', 's', 'e', 'r'));
        reveal_strlit("User.45");
        assert("User.45"@.len() == 7);
        assert(name_key("User.45"@) == (7nat, 'U', 's', 'e', 'r', '.', '4', '5'));
        assert("BL_User_45"@.take(3) =~= "BL_"@);
        assert(underscores_to_dots("BL_User_45"@.skip(3)) =~= "User.45"@);
    }
}

/// The enum name of a layer has `_` third, and its canonical name is the one
/// written out, shaped as a plain layer name and with the key written out.
pub proof fn lemma_layer_literal(j: i32)
    ensures
        board_layer_name_spec(j) matches Some(p) ==> p.len() >= 3 && p[2] == '_',
        canonical_layer_name(j) == canonical_layer_text(j),
        canonical_layer_text(j) matches Some(n) ==> plain_layer_name(n) && name_key(n)
            == canonical_key(j),
{
    if 0 <= j <= 19 {
        lemma_layer_literal_0(j);
    } else if 20 <= j <= 39 {
        lemma_layer_literal_1(j);
    } else if 40 <= j <= 59 {
        lemma_layer_literal_2(j);
    } else if 60 <= j <= 79 {
        lemma_layer_literal_3(j);
    } else if 80 <= j <= 98 {
        lemma_layer_literal_4(j);
    }
}

proof fn lemma_key_distinct_0(j: i32, k: i32)
    requires
        3 <= j < k,
        3 <= k <= 14,
    ensures
        canonical_key(j) != canonical_key(k),
{
}

proof fn lemma_key_distinct_1(j: i32, k: i32)
    requires
        3 <= j < k,
        15 <= k <= 26,
    ensures
        canonical_key(j) != canonical_key(k),
{
}

proof fn lemma_key_distinct_2(j: i32, k: i32)
    requires
        3 <= j < k,
        27 <= k <= 38,
    ensures
        canonical_key(j) != canonical_key(k),
{
}

proof fn lemma_key_distinct_3(j: i32, k: i32)
    requires
        3 <= j < k,
        39 <= k <= 50,
    ensures
        canonical_key(j) != canonical_key(k),
{
}

proof fn lemma_key_distinct_4(j: i32, k: i32)
    requires
        3 <= j < k,
        51 <= k <= 62,
    ensures
        canonical_key(j) != canonical_key(k),
{
}

proof fn lemma_key_distinct_5(j: i32, k: i32)
    requires
        3 <= j < k,
        63 <= k <= 74,
    ensures
        canonical_key(j) != canonical_key(k),
{
}

proof fn lemma_key_distinct_6(j: i32, k: i32)
    requires
        3 <= j < k,
        75 <= k <= 86,
    ensures
        canonical_key(j) != canonical_key(k),
{
}

proof fn lemma_key_distinct_7(j: i32, k: i32)
    requires
        3 <= j < k,
        87 <= k <= 98,
    ensures
        canonical_key(j) != canonical_key(k),
{
}

/// No two layers share a canonical name.
pub proof fn lemma_canonical_distinct(j: i32, k: i32)
    requires
        3 <= j < k <= 98,
    ensures
        canonical_layer_text(j) != canonical_layer_text(k),
{
    if k <= 14 {
        lemma_key_distinct_0(j, k);
    } else if k <= 26 {
        lemma_key_distinct_1(j, k);
    } else if k <= 38 {
        lemma_key_distinct_2(j, k);
    } else if k <= 50 {
        lemma_key_distinct_3(j, k);
    } else if k <= 62 {
        lemma_key_distinct_4(j, k);
    } else if k <= 74 {
        lemma_key_distinct_5(j, k);
    } else if k <= 86 {
        lemma_key_distinct_6(j, k);
    } else if k <= 98 {
        lemma_key_distinct_7(j, k);
    }
    lemma_layer_literal(j);
    lemma_layer_literal(k);
}

/// No layer's enum name is `n` when `n` has no `_` third.
pub proof fn lemma_no_proto_name(n: Seq<char>, from: int)
    requires
        n.len() >= 3,
        n[2] != '_',
    ensures
        first_layer_with_proto_name(n, from) is None,
    decreases 129 - from,
{
    if 0 <= from <= 128 {
        lemma_layer_literal(from as i32);
        lemma_no_proto_name(n, from + 1);
    }
}

/// The search for a canonical name from `from` on finds `id` when `id` has
/// that name and no layer between `from` and `id` does.
pub proof fn lemma_canonical_scan(n: Seq<char>, from: int, id: i32)
    requires
        0 <= from <= id <= 128,
        canonical_layer_name(id) == Some(n),
        forall|j: i32| from <= j < id ==> #[trigger] canonical_layer_name(j) != Some(n),
    ensures
        first_layer_with_canonical_name(n, from) == Some(id),
    decreases id - from,
{
    if from < id {
        assert(canonical_layer_name(from as i32) != Some(n));
        lemma_canonical_scan(n, from + 1, id);
    }
}

} // verus!
