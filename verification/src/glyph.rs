use vstd::prelude::*;

verus! {

/// The glyphs of the output, ordered darkest to brightest:
/// the bytes of `" .:;!/|({%@$&"`.
pub open spec fn palette_spec() -> Seq<u8> {
    seq![32u8, 46u8, 58u8, 59u8, 33u8, 47u8, 124u8, 40u8, 123u8, 37u8, 64u8, 36u8, 38u8]
}

/// The glyph a quantized luminance level selects: levels past the brightest
/// glyph are clamped to it.
pub open spec fn glyph_spec(level: nat) -> u8 {
    if level >= palette_spec().len() {
        palette_spec()[palette_spec().len() - 1]
    } else {
        palette_spec()[level as int]
    }
}

/// The glyph palette as a byte vector, darkest first.
pub fn palette() -> (p: Vec<u8>)
    ensures
        p@ == palette_spec(),
{
    let mut p: Vec<u8> = Vec::new();
    p.push(32u8);
    p.push(46u8);
    p.push(58u8);
    p.push(59u8);
    p.push(33u8);
    p.push(47u8);
    p.push(124u8);
    p.push(40u8);
    p.push(123u8);
    p.push(37u8);
    p.push(64u8);
    p.push(36u8);
    p.push(38u8);
    proof {
        assert(p@ =~= palette_spec());
    }
    p
}

/// Maps a quantized luminance level to its glyph, clamping to the brightest
/// glyph; the level is the shading accumulator scaled by 20 and truncated.
pub fn glyph_for_level(level: usize) -> (g: u8)
    ensures
        g == glyph_spec(level as nat),
{
    let p = palette();
    let idx: usize = if level > 12 {
        12
    } else {
        level
    };
    p[idx]
}

} // verus!
