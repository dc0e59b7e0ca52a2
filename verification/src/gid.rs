//! Global tile identifiers.
//!
//! A cell of a tile layer stores one 32-bit value. Its low 29 bits are the
//! index of a tile, where 0 stands for an empty cell; bit 31 says that the
//! tile is flipped horizontally, bit 30 that it is flipped vertically and
//! bit 29 that it is flipped along its diagonal.

use vstd::prelude::*;

verus! {

/// Bit 31: the tile is mirrored along the vertical axis.
pub const FLIPPED_HORIZONTALLY_FLAG: u32 = 0x8000_0000;

/// Bit 30: the tile is mirrored along the horizontal axis.
pub const FLIPPED_VERTICALLY_FLAG: u32 = 0x4000_0000;

/// Bit 29: the tile's axes are swapped.
pub const FLIPPED_DIAGONALLY_FLAG: u32 = 0x2000_0000;

/// The three orientation bits together.
pub const ALL_FLIP_FLAGS: u32 = FLIPPED_HORIZONTALLY_FLAG | FLIPPED_VERTICALLY_FLAG
    | FLIPPED_DIAGONALLY_FLAG;

/// The largest tile index that an identifier can carry.
pub const MAX_TILE_INDEX: u32 = 0x1FFF_FFFF;

/// What an identifier says, as plain values.
pub struct TileFields {
    pub tile_index: u32,
    pub flip_horizontal: bool,
    pub flip_vertical: bool,
    pub flip_diagonal: bool,
}

/// The tile index of an identifier: the identifier with its three
/// orientation bits cleared.
pub open spec fn tile_index_of(gid: u32) -> u32 {
    gid & !ALL_FLIP_FLAGS
}

/// Whether an identifier has the given orientation bit set.
pub open spec fn has_flag(gid: u32, flag: u32) -> bool {
    gid & flag == flag
}

/// The fields of an identifier.
pub open spec fn decode_spec(gid: u32) -> TileFields {
    TileFields {
        tile_index: tile_index_of(gid),
        flip_horizontal: has_flag(gid, FLIPPED_HORIZONTALLY_FLAG),
        flip_vertical: has_flag(gid, FLIPPED_VERTICALLY_FLAG),
        flip_diagonal: has_flag(gid, FLIPPED_DIAGONALLY_FLAG),
    }
}

/// The bit that a flag contributes to an identifier.
pub open spec fn flag_bits(set: bool, flag: u32) -> u32 {
    if set {
        flag
    } else {
        0
    }
}

/// The identifier made of the given fields.
pub open spec fn encode_spec(fields: TileFields) -> u32 {
    fields.tile_index | flag_bits(fields.flip_horizontal, FLIPPED_HORIZONTALLY_FLAG) | flag_bits(
        fields.flip_vertical,
        FLIPPED_VERTICALLY_FLAG,
    ) | flag_bits(fields.flip_diagonal, FLIPPED_DIAGONALLY_FLAG)
}

/// The fields with the given flags and the low 29 bits of the given
/// index.
pub open spec fn fields_of(
    tile_index: u32,
    flip_horizontal: bool,
    flip_vertical: bool,
    flip_diagonal: bool,
) -> TileFields {
    TileFields {
        tile_index: tile_index_of(tile_index),
        flip_horizontal,
        flip_vertical,
        flip_diagonal,
    }
}

/// Fields that some identifier decodes to: the index leaves the three
/// orientation bits alone.
pub open spec fn fields_in_range(fields: TileFields) -> bool {
    fields.tile_index <= MAX_TILE_INDEX
}

/// A tile index with its orientation, as decoded from an identifier.
///
/// Values of this type come from [`decode`] only, so the index of every
/// value fits in 29 bits.
#[derive(Clone, Copy, Debug, PartialEq, Eq)]
pub struct DecodedTileReference {
    tile_index: u32,
    flip_horizontal: bool,
    flip_vertical: bool,
    flip_diagonal: bool,
}

impl View for DecodedTileReference {
    type V = TileFields;

    closed spec fn view(&self) -> TileFields {
        TileFields {
            tile_index: self.tile_index,
            flip_horizontal: self.flip_horizontal,
            flip_vertical: self.flip_vertical,
            flip_diagonal: self.flip_diagonal,
        }
    }
}

impl DecodedTileReference {
    #[verifier::type_invariant]
    spec fn index_fits(self) -> bool {
        self.tile_index <= MAX_TILE_INDEX
    }

    /// The index of the tile; 0 for an empty cell.
    pub fn tile_index(&self) -> (index: u32)
        ensures
            index == self@.tile_index,
            index <= MAX_TILE_INDEX,
    {
        proof {
            use_type_invariant(self);
        }
        self.tile_index
    }

    /// Whether the tile is flipped horizontally.
    pub fn flip_horizontal(&self) -> (flipped: bool)
        ensures
            flipped == self@.flip_horizontal,
    {
        self.flip_horizontal
    }

    /// Whether the tile is flipped vertically.
    pub fn flip_vertical(&self) -> (flipped: bool)
        ensures
            flipped == self@.flip_vertical,
    {
        self.flip_vertical
    }

    /// Whether the tile is flipped along its diagonal.
    pub fn flip_diagonal(&self) -> (flipped: bool)
        ensures
            flipped == self@.flip_diagonal,
    {
        self.flip_diagonal
    }

    /// Whether the cell holds no tile.
    pub fn is_empty(&self) -> (empty: bool)
        ensures
            empty == (self@.tile_index == 0),
    {
        self.tile_index == 0
    }

    /// The identifier that decodes to this reference.
    pub fn encode(&self) -> (gid: u32)
        ensures
            gid == encode_spec(self@),
            decode_spec(gid) == self@,
    {
        proof {
            use_type_invariant(self);
            lemma_index_without_flags(self.tile_index);
            lemma_decode_encode(self@);
        }
        compose(self.tile_index, self.flip_horizontal, self.flip_vertical, self.flip_diagonal)
    }
}

/// Clears the three orientation bits of an identifier.
pub fn strip_flags(gid: u32) -> (index: u32)
    ensures
        index == tile_index_of(gid),
        index <= MAX_TILE_INDEX,
        index as int == gid as int % 0x2000_0000,
{
    proof {
        lemma_index_is_remainder(gid);
    }
    gid & !ALL_FLIP_FLAGS
}

/// Decodes an identifier. Every 32-bit value is one.
pub fn decode(gid: u32) -> (reference: DecodedTileReference)
    ensures
        reference@ == decode_spec(gid),
        fields_in_range(reference@),
        encode_spec(reference@) == gid,
{
    proof {
        lemma_index_is_remainder(gid);
        lemma_encode_decode(gid);
    }
    DecodedTileReference {
        tile_index: gid & !ALL_FLIP_FLAGS,
        flip_horizontal: gid & FLIPPED_HORIZONTALLY_FLAG == FLIPPED_HORIZONTALLY_FLAG,
        flip_vertical: gid & FLIPPED_VERTICALLY_FLAG == FLIPPED_VERTICALLY_FLAG,
        flip_diagonal: gid & FLIPPED_DIAGONALLY_FLAG == FLIPPED_DIAGONALLY_FLAG,
    }
}

/// Puts an index and three flags into one identifier. Of the index only
/// the low 29 bits are taken.
pub fn compose(tile_index: u32, flip_horizontal: bool, flip_vertical: bool, flip_diagonal: bool) -> (gid:
    u32)
    ensures
        gid == encode_spec(fields_of(tile_index, flip_horizontal, flip_vertical, flip_diagonal)),
        decode_spec(gid) == fields_of(tile_index, flip_horizontal, flip_vertical, flip_diagonal),
{
    proof {
        lemma_index_is_remainder(tile_index);
        lemma_decode_encode(fields_of(tile_index, flip_horizontal, flip_vertical, flip_diagonal));
        assert(forall|bits: u32| #[trigger] (bits | 0u32) == bits) by (bit_vector);
    }
    let mut gid: u32 = tile_index & !ALL_FLIP_FLAGS;
    if flip_horizontal {
        gid = gid | FLIPPED_HORIZONTALLY_FLAG;
    }
    if flip_vertical {
        gid = gid | FLIPPED_VERTICALLY_FLAG;
    }
    if flip_diagonal {
        gid = gid | FLIPPED_DIAGONALLY_FLAG;
    }
    gid
}

/// Decoding an identifier and encoding the fields again gives the
/// identifier back, for every 32-bit value.
pub proof fn lemma_encode_decode(gid: u32)
    ensures
        encode_spec(decode_spec(gid)) == gid,
        fields_in_range(decode_spec(gid)),
{
    let index = gid & !ALL_FLIP_FLAGS;
    let h = gid & FLIPPED_HORIZONTALLY_FLAG;
    let v = gid & FLIPPED_VERTICALLY_FLAG;
    let d = gid & FLIPPED_DIAGONALLY_FLAG;
    assert(index | h | v | d == gid && index <= MAX_TILE_INDEX) by (bit_vector)
        requires
            index == gid & !ALL_FLIP_FLAGS,
            h == gid & FLIPPED_HORIZONTALLY_FLAG,
            v == gid & FLIPPED_VERTICALLY_FLAG,
            d == gid & FLIPPED_DIAGONALLY_FLAG,
    ;
    lemma_flag_set_or_clear(gid);
}

/// Encoding fields whose index fits in 29 bits and decoding the result
/// gives the fields back.
pub proof fn lemma_decode_encode(fields: TileFields)
    requires
        fields_in_range(fields),
    ensures
        decode_spec(encode_spec(fields)) == fields,
{
    let index = fields.tile_index;
    let h = flag_bits(fields.flip_horizontal, FLIPPED_HORIZONTALLY_FLAG);
    let v = flag_bits(fields.flip_vertical, FLIPPED_VERTICALLY_FLAG);
    let d = flag_bits(fields.flip_diagonal, FLIPPED_DIAGONALLY_FLAG);
    let gid = index | h | v | d;
    assert({
        &&& gid & !ALL_FLIP_FLAGS == index
        &&& gid & FLIPPED_HORIZONTALLY_FLAG == h
        &&& gid & FLIPPED_VERTICALLY_FLAG == v
        &&& gid & FLIPPED_DIAGONALLY_FLAG == d
    }) by (bit_vector)
        requires
            gid == index | h | v | d,
            index <= MAX_TILE_INDEX,
            h == FLIPPED_HORIZONTALLY_FLAG || h == 0,
            v == FLIPPED_VERTICALLY_FLAG || v == 0,
            d == FLIPPED_DIAGONALLY_FLAG || d == 0,
    ;
}

/// Each orientation bit of an identifier is either set or clear.
proof fn lemma_flag_set_or_clear(gid: u32)
    ensures
        gid & FLIPPED_HORIZONTALLY_FLAG == flag_bits(
            has_flag(gid, FLIPPED_HORIZONTALLY_FLAG),
            FLIPPED_HORIZONTALLY_FLAG,
        ),
        gid & FLIPPED_VERTICALLY_FLAG == flag_bits(
            has_flag(gid, FLIPPED_VERTICALLY_FLAG),
            FLIPPED_VERTICALLY_FLAG,
        ),
        gid & FLIPPED_DIAGONALLY_FLAG == flag_bits(
            has_flag(gid, FLIPPED_DIAGONALLY_FLAG),
            FLIPPED_DIAGONALLY_FLAG,
        ),
{
    assert({
        &&& (gid & FLIPPED_HORIZONTALLY_FLAG == FLIPPED_HORIZONTALLY_FLAG || gid
            & FLIPPED_HORIZONTALLY_FLAG == 0)
        &&& (gid & FLIPPED_VERTICALLY_FLAG == FLIPPED_VERTICALLY_FLAG || gid
            & FLIPPED_VERTICALLY_FLAG == 0)
        &&& (gid & FLIPPED_DIAGONALLY_FLAG == FLIPPED_DIAGONALLY_FLAG || gid
            & FLIPPED_DIAGONALLY_FLAG == 0)
    }) by (bit_vector);
}

/// The index is the identifier's remainder modulo 2^29, and the
/// identifier is the sum of its index and of the weights of its flags.
pub proof fn lemma_index_is_remainder(gid: u32)
    ensures
        tile_index_of(gid) as int == gid as int % 0x2000_0000,
        tile_index_of(gid) <= MAX_TILE_INDEX,
        gid as int == tile_index_of(gid) as int + flag_bits(
            has_flag(gid, FLIPPED_HORIZONTALLY_FLAG),
            FLIPPED_HORIZONTALLY_FLAG,
        ) as int + flag_bits(has_flag(gid, FLIPPED_VERTICALLY_FLAG), FLIPPED_VERTICALLY_FLAG) as int
            + flag_bits(has_flag(gid, FLIPPED_DIAGONALLY_FLAG), FLIPPED_DIAGONALLY_FLAG) as int,
{
    assert({
        &&& gid & !ALL_FLIP_FLAGS == gid % 0x2000_0000u32
        &&& gid & !ALL_FLIP_FLAGS <= MAX_TILE_INDEX
        &&& gid == (gid & !ALL_FLIP_FLAGS) + (gid & FLIPPED_HORIZONTALLY_FLAG) + (gid
            & FLIPPED_VERTICALLY_FLAG) + (gid & FLIPPED_DIAGONALLY_FLAG)
    }) by (bit_vector);
    lemma_flag_set_or_clear(gid);
}

/// An index that fits in 29 bits is its own identifier: clearing the
/// orientation bits changes nothing, and no flag is set.
pub proof fn lemma_index_without_flags(tile_index: u32)
    requires
        tile_index <= MAX_TILE_INDEX,
    ensures
        tile_index_of(tile_index) == tile_index,
        decode_spec(tile_index) == (TileFields {
            tile_index,
            flip_horizontal: false,
            flip_vertical: false,
            flip_diagonal: false,
        }),
{
    assert({
        &&& tile_index & !ALL_FLIP_FLAGS == tile_index
        &&& tile_index & FLIPPED_HORIZONTALLY_FLAG == 0
        &&& tile_index & FLIPPED_VERTICALLY_FLAG == 0
        &&& tile_index & FLIPPED_DIAGONALLY_FLAG == 0
    }) by (bit_vector)
        requires
            tile_index <= MAX_TILE_INDEX,
    ;
}

/// The flags and the index do not touch each other: identifiers with
/// the same low 29 bits have the same index whatever their flags, and
/// identifiers with the same top three bits have the same flags whatever
/// their index. Clearing the flags twice is clearing them once.
pub proof fn lemma_flags_and_index_independent(gid: u32, other: u32)
    ensures
        gid & MAX_TILE_INDEX == other & MAX_TILE_INDEX ==> decode_spec(gid).tile_index
            == decode_spec(other).tile_index,
        gid & ALL_FLIP_FLAGS == other & ALL_FLIP_FLAGS ==> {
            &&& decode_spec(gid).flip_horizontal == decode_spec(other).flip_horizontal
            &&& decode_spec(gid).flip_vertical == decode_spec(other).flip_vertical
            &&& decode_spec(gid).flip_diagonal == decode_spec(other).flip_diagonal
        },
        tile_index_of(tile_index_of(gid)) == tile_index_of(gid),
{
    assert(gid & MAX_TILE_INDEX == other & MAX_TILE_INDEX ==> gid & !ALL_FLIP_FLAGS == other
        & !ALL_FLIP_FLAGS) by (bit_vector);
    assert(gid & ALL_FLIP_FLAGS == other & ALL_FLIP_FLAGS ==> {
        &&& gid & FLIPPED_HORIZONTALLY_FLAG == other & FLIPPED_HORIZONTALLY_FLAG
        &&& gid & FLIPPED_VERTICALLY_FLAG == other & FLIPPED_VERTICALLY_FLAG
        &&& gid & FLIPPED_DIAGONALLY_FLAG == other & FLIPPED_DIAGONALLY_FLAG
    }) by (bit_vector);
    assert((gid & !ALL_FLIP_FLAGS) & !ALL_FLIP_FLAGS == gid & !ALL_FLIP_FLAGS) by (bit_vector);
}

} // verus!
