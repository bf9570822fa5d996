//! The table of the mathematical classes of the characters, and the table
//! of the commands that stand for a character.

use vstd::prelude::*;

use crate::parser::tables::CharClassification;

verus! {

/// The classes of the characters: each row gives the code point from which
/// on its class holds, up to the code point of the next row.
pub const CHAR_CLASSIFICATION: [(u32, CharClassification); 597] = [
    (0x0000, CharClassification::Ignore),
    (0x0020, CharClassification::Space),
    (0x0021, CharClassification::Normal),
    (0x0022, CharClassification::Ignore),
    (0x0023, CharClassification::Normal),
    (0x0027, CharClassification::Ignore),
    (0x0028, CharClassification::Opening),
    (0x0029, CharClassification::Closing),
    (0x002a, CharClassification::Normal),
    (0x002b, CharClassification::Vary),
    (0x002c, CharClassification::Punct),
    (0x002d, CharClassification::Normal),
    (0x002e, CharClassification::Punct),
    (0x002f, CharClassification::Binary),
    (0x0030, CharClassification::Normal),
    (0x003a, CharClassification::Punct),
    (0x003c, CharClassification::Relation),
    (0x003f, CharClassification::Punct),
    (0x0040, CharClassification::Normal),
    (0x0041, CharClassification::Alphabetic),
    (0x005b, CharClassification::Opening),
    (0x005c, CharClassification::Binary),
    (0x005d, CharClassification::Closing),
    (0x005e, CharClassification::Normal),
    (0x0060, CharClassification::Diacritic),
    (0x0061, CharClassification::Alphabetic),
    (0x007b, CharClassification::Opening),
    (0x007c, CharClassification::Fence),
    (0x007d, CharClassification::Closing),
    (0x007e, CharClassification::Normal),
    (0x007f, CharClassification::Ignore),
    (0x00a0, CharClassification::Space),
    (0x00a1, CharClassification::Punct),
    (0x00a2, CharClassification::Normal),
    (0x00a8, CharClassification::Diacritic),
    (0x00a9, CharClassification::Ignore),
    (0x00ac, CharClassification::Unary),
    (0x00ad, CharClassification::Ignore),
    (0x00af, CharClassification::Diacritic),
    (0x00b0, CharClassification::Normal),
    (0x00b1, CharClassification::Vary),
    (0x00b2, CharClassification::Normal),
    (0x00b7, CharClassification::Binary),
    (0x00b8, CharClassification::Ignore),
    (0x00b9, CharClassification::Normal),
    (0x00ba, CharClassification::Ignore),
    (0x00bc, CharClassification::Normal),
    (0x00bf, CharClassification::Punct),
    (0x00c0, CharClassification::Ignore),
    (0x00d7, CharClassification::Binary),
    (0x00d8, CharClassification::Ignore),
    (0x00f7, CharClassification::Binary),
    (0x00f8, CharClassification::Ignore),
    (0x0131, CharClassification::Alphabetic),
    (0x0132, CharClassification::Ignore),
    (0x0237, CharClassification::Alphabetic),
    (0x0238, CharClassification::Ignore),
    (0x02c6, CharClassification::Diacritic),
    (0x02c8, CharClassification::Ignore),
    (0x02d8, CharClassification::Diacritic),
    (0x02db, CharClassification::Ignore),
    (0x02dc, CharClassification::Diacritic),
    (0x02dd, CharClassification::Ignore),
    (0x0300, CharClassification::Diacritic),
    (0x0309, CharClassification::Ignore),
    (0x030a, CharClassification::Diacritic),
    (0x030b, CharClassification::Ignore),
    (0x030c, CharClassification::Diacritic),
    (0x030d, CharClassification::Ignore),
    (0x0311, CharClassification::Diacritic),
    (0x0312, CharClassification::Ignore),
    (0x0323, CharClassification::Diacritic),
    (0x0324, CharClassification::Ignore),
    (0x032c, CharClassification::Diacritic),
    (0x0334, CharClassification::Ignore),
    (0x0338, CharClassification::Diacritic),
    (0x0339, CharClassification::Ignore),
    (0x033a, CharClassification::Diacritic),
    (0x033b, CharClassification::Ignore),
    (0x033f, CharClassification::Diacritic),
    (0x0340, CharClassification::Ignore),
    (0x0346, CharClassification::Diacritic),
    (0x0347, CharClassification::Ignore),
    (0x0391, CharClassification::Alphabetic),
    (0x03a2, CharClassification::Ignore),
    (0x03a3, CharClassification::Alphabetic),
    (0x03a5, CharClassification::Ignore),
    (0x03a6, CharClassification::Alphabetic),
    (0x03aa, CharClassification::Ignore),
    (0x03b1, CharClassification::Alphabetic),
    (0x03c2, CharClassification::Ignore),
    (0x03c3, CharClassification::Alphabetic),
    (0x03ca, CharClassification::Ignore),
    (0x03d0, CharClassification::Alphabetic),
    (0x03d3, CharClassification::Ignore),
    (0x03d5, CharClassification::Alphabetic),
    (0x03d7, CharClassification::Ignore),
    (0x03d8, CharClassification::Normal),
    (0x03da, CharClassification::Alphabetic),
    (0x03de, CharClassification::Ignore),
    (0x03e0, CharClassification::Alphabetic),
    (0x03e2, CharClassification::Ignore),
    (0x03f0, CharClassification::Alphabetic),
    (0x03f2, CharClassification::Ignore),
    (0x03f4, CharClassification::Alphabetic),
    (0x03f6, CharClassification::Normal),
    (0x03f7, CharClassification::Ignore),
    (0x0428, CharClassification::Alphabetic),
    (0x0429, CharClassification::Ignore),
    (0x0606, CharClassification::Large),
    (0x0608, CharClassification::Alphabetic),
    (0x0609, CharClassification::Ignore),
    (0x2000, CharClassification::Space),
    (0x2008, CharClassification::Ignore),
    (0x2009, CharClassification::Space),
    (0x200c, CharClassification::Ignore),
    (0x2010, CharClassification::Punct),
    (0x2011, CharClassification::Ignore),
    (0x2012, CharClassification::Punct),
    (0x2015, CharClassification::Ignore),
    (0x2016, CharClassification::Fence),
    (0x2017, CharClassification::Ignore),
    (0x2020, CharClassification::Relation),
    (0x2022, CharClassification::Binary),
    (0x2023, CharClassification::Ignore),
    (0x2026, CharClassification::Normal),
    (0x2027, CharClassification::Ignore),
    (0x2032, CharClassification::Normal),
    (0x2038, CharClassification::Ignore),
    (0x203b, CharClassification::Normal),
    (0x203d, CharClassification::Ignore),
    (0x2040, CharClassification::Binary),
    (0x2041, CharClassification::Ignore),
    (0x2044, CharClassification::Binary),
    (0x2045, CharClassification::Ignore),
    (0x204e, CharClassification::Binary),
    (0x204f, CharClassification::Relation),
    (0x2051, CharClassification::Normal),
    (0x2053, CharClassification::Ignore),
    (0x2057, CharClassification::Normal),
    (0x2058, CharClassification::Ignore),
    (0x205f, CharClassification::Space),
    (0x2060, CharClassification::Ignore),
    (0x2061, CharClassification::Binary),
    (0x2063, CharClassification::Punct),
    (0x2064, CharClassification::Special),
    (0x2065, CharClassification::Ignore),
    (0x207a, CharClassification::Normal),
    (0x207f, CharClassification::Ignore),
    (0x208a, CharClassification::Normal),
    (0x208f, CharClassification::Ignore),
    (0x20d0, CharClassification::Diacritic),
    (0x20d3, CharClassification::Special),
    (0x20d4, CharClassification::Diacritic),
    (0x20e0, CharClassification::Ignore),
    (0x20e1, CharClassification::Diacritic),
    (0x20e2, CharClassification::Ignore),
    (0x20e4, CharClassification::Diacritic),
    (0x20f0, CharClassification::Ignore),
    (0x2102, CharClassification::Alphabetic),
    (0x2103, CharClassification::Ignore),
    (0x2107, CharClassification::Normal),
    (0x2108, CharClassification::Ignore),
    (0x210a, CharClassification::Alphabetic),
    (0x210e, CharClassification::Normal),
    (0x2110, CharClassification::Alphabetic),
    (0x2114, CharClassification::Ignore),
    (0x2115, CharClassification::Alphabetic),
    (0x2116, CharClassification::Ignore),
    (0x2118, CharClassification::Alphabetic),
    (0x211e, CharClassification::Ignore),
    (0x2124, CharClassification::Alphabetic),
    (0x2125, CharClassification::Ignore),
    (0x2126, CharClassification::Normal),
    (0x2128, CharClassification::Alphabetic),
    (0x2129, CharClassification::Normal),
    (0x212a, CharClassification::Ignore),
    (0x212b, CharClassification::Alphabetic),
    (0x212e, CharClassification::Ignore),
    (0x212f, CharClassification::Alphabetic),
    (0x2132, CharClassification::Normal),
    (0x2133, CharClassification::Alphabetic),
    (0x2139, CharClassification::Ignore),
    (0x213c, CharClassification::Alphabetic),
    (0x213e, CharClassification::Normal),
    (0x213f, CharClassification::Alphabetic),
    (0x2140, CharClassification::Large),
    (0x2141, CharClassification::Normal),
    (0x214a, CharClassification::Ignore),
    (0x214b, CharClassification::Normal),
    (0x214c, CharClassification::Ignore),
    (0x2190, CharClassification::Relation),
    (0x21b4, CharClassification::Ignore),
    (0x21b6, CharClassification::Relation),
    (0x21b8, CharClassification::Ignore),
    (0x21ba, CharClassification::Relation),
    (0x2200, CharClassification::Unary),
    (0x2202, CharClassification::Normal),
    (0x2203, CharClassification::Unary),
    (0x2205, CharClassification::Normal),
    (0x2206, CharClassification::Unary),
    (0x2208, CharClassification::Relation),
    (0x220e, CharClassification::Normal),
    (0x220f, CharClassification::Large),
    (0x2212, CharClassification::Vary),
    (0x2214, CharClassification::Binary),
    (0x221a, CharClassification::Large),
    (0x221d, CharClassification::Relation),
    (0x221e, CharClassification::Normal),
    (0x2223, CharClassification::Relation),
    (0x2227, CharClassification::Binary),
    (0x222b, CharClassification::Large),
    (0x2234, CharClassification::Relation),
    (0x2238, CharClassification::Binary),
    (0x2239, CharClassification::Relation),
    (0x223e, CharClassification::Binary),
    (0x223f, CharClassification::Normal),
    (0x2240, CharClassification::Binary),
    (0x2241, CharClassification::Relation),
    (0x228c, CharClassification::Binary),
    (0x228f, CharClassification::Relation),
    (0x2293, CharClassification::Binary),
    (0x22a2, CharClassification::Relation),
    (0x22a4, CharClassification::Normal),
    (0x22a5, CharClassification::Relation),
    (0x22b9, CharClassification::Binary),
    (0x22be, CharClassification::Normal),
    (0x22c0, CharClassification::Large),
    (0x22c4, CharClassification::Binary),
    (0x22c8, CharClassification::Relation),
    (0x22c9, CharClassification::Binary),
    (0x22cd, CharClassification::Relation),
    (0x22ce, CharClassification::Binary),
    (0x22d0, CharClassification::Relation),
    (0x22d2, CharClassification::Binary),
    (0x22d4, CharClassification::Relation),
    (0x2300, CharClassification::Normal),
    (0x2301, CharClassification::Ignore),
    (0x2302, CharClassification::Normal),
    (0x2303, CharClassification::Ignore),
    (0x2305, CharClassification::Binary),
    (0x2307, CharClassification::Ignore),
    (0x2308, CharClassification::Opening),
    (0x2309, CharClassification::Closing),
    (0x230a, CharClassification::Opening),
    (0x230b, CharClassification::Closing),
    (0x230c, CharClassification::Ignore),
    (0x2310, CharClassification::Normal),
    (0x2312, CharClassification::Ignore),
    (0x2319, CharClassification::Normal),
    (0x231a, CharClassification::Ignore),
    (0x231c, CharClassification::Opening),
    (0x231d, CharClassification::Closing),
    (0x231e, CharClassification::Opening),
    (0x231f, CharClassification::Closing),
    (0x2320, CharClassification::GlyphPart),
    (0x2322, CharClassification::Relation),
    (0x2324, CharClassification::Ignore),
    (0x2336, CharClassification::Normal),
    (0x2337, CharClassification::Ignore),
    (0x233d, CharClassification::Binary),
    (0x233e, CharClassification::Ignore),
    (0x233f, CharClassification::Relation),
    (0x2340, CharClassification::Ignore),
    (0x237c, CharClassification::Relation),
    (0x237d, CharClassification::Ignore),
    (0x2394, CharClassification::Normal),
    (0x2395, CharClassification::Ignore),
    (0x239b, CharClassification::GlyphPart),
    (0x23b0, CharClassification::Relation),
    (0x23b2, CharClassification::GlyphPart),
    (0x23b4, CharClassification::Normal),
    (0x23b7, CharClassification::GlyphPart),
    (0x23b8, CharClassification::Ignore),
    (0x23d0, CharClassification::GlyphPart),
    (0x23d1, CharClassification::Ignore),
    (0x23dc, CharClassification::Normal),
    (0x23e8, CharClassification::Ignore),
    (0x24c8, CharClassification::Normal),
    (0x24c9, CharClassification::Ignore),
    (0x25a0, CharClassification::Normal),
    (0x25a2, CharClassification::Ignore),
    (0x25aa, CharClassification::Normal),
    (0x25ac, CharClassification::Ignore),
    (0x25ad, CharClassification::Normal),
    (0x25b2, CharClassification::Binary),
    (0x25ba, CharClassification::Ignore),
    (0x25bc, CharClassification::Binary),
    (0x25c6, CharClassification::Normal),
    (0x25ca, CharClassification::Binary),
    (0x25cc, CharClassification::Ignore),
    (0x25ce, CharClassification::Normal),
    (0x25d4, CharClassification::Ignore),
    (0x25d6, CharClassification::Normal),
    (0x25d8, CharClassification::Ignore),
    (0x25e2, CharClassification::Normal),
    (0x25e6, CharClassification::Binary),
    (0x25e7, CharClassification::Normal),
    (0x25eb, CharClassification::Binary),
    (0x25ed, CharClassification::Ignore),
    (0x25ef, CharClassification::Normal),
    (0x25f0, CharClassification::Ignore),
    (0x25f8, CharClassification::Binary),
    (0x2600, CharClassification::Ignore),
    (0x2605, CharClassification::Binary),
    (0x2607, CharClassification::Ignore),
    (0x2609, CharClassification::Normal),
    (0x260a, CharClassification::Ignore),
    (0x260c, CharClassification::Normal),
    (0x260d, CharClassification::Ignore),
    (0x263d, CharClassification::Normal),
    (0x2645, CharClassification::Ignore),
    (0x2646, CharClassification::Normal),
    (0x264a, CharClassification::Ignore),
    (0x2660, CharClassification::Normal),
    (0x2668, CharClassification::Ignore),
    (0x2669, CharClassification::Normal),
    (0x266a, CharClassification::Ignore),
    (0x266d, CharClassification::Normal),
    (0x2670, CharClassification::Ignore),
    (0x2680, CharClassification::Normal),
    (0x268a, CharClassification::Ignore),
    (0x26aa, CharClassification::Normal),
    (0x26ad, CharClassification::Ignore),
    (0x26b2, CharClassification::Normal),
    (0x26b3, CharClassification::Ignore),
    (0x2713, CharClassification::Normal),
    (0x2714, CharClassification::Ignore),
    (0x2717, CharClassification::Normal),
    (0x2718, CharClassification::Ignore),
    (0x2720, CharClassification::Normal),
    (0x2721, CharClassification::Ignore),
    (0x272a, CharClassification::Normal),
    (0x272b, CharClassification::Ignore),
    (0x2736, CharClassification::Normal),
    (0x2737, CharClassification::Ignore),
    (0x2772, CharClassification::Opening),
    (0x2773, CharClassification::Closing),
    (0x2774, CharClassification::Ignore),
    (0x27c0, CharClassification::Normal),
    (0x27c2, CharClassification::Relation),
    (0x27cc, CharClassification::Large),
    (0x27cd, CharClassification::Relation),
    (0x27ce, CharClassification::Binary),
    (0x27d0, CharClassification::Normal),
    (0x27d1, CharClassification::Binary),
    (0x27d2, CharClassification::Relation),
    (0x27d5, CharClassification::Large),
    (0x27da, CharClassification::Relation),
    (0x27e0, CharClassification::Binary),
    (0x27e6, CharClassification::Opening),
    (0x27e7, CharClassification::Closing),
    (0x27e8, CharClassification::Opening),
    (0x27e9, CharClassification::Closing),
    (0x27ea, CharClassification::Opening),
    (0x27eb, CharClassification::Closing),
    (0x27ec, CharClassification::Opening),
    (0x27ed, CharClassification::Closing),
    (0x27ee, CharClassification::Opening),
    (0x27ef, CharClassification::Closing),
    (0x27f0, CharClassification::Relation),
    (0x2800, CharClassification::Ignore),
    (0x2900, CharClassification::Relation),
    (0x2980, CharClassification::Fence),
    (0x2981, CharClassification::Normal),
    (0x2982, CharClassification::Fence),
    (0x2983, CharClassification::Opening),
    (0x2984, CharClassification::Closing),
    (0x2985, CharClassification::Opening),
    (0x2986, CharClassification::Closing),
    (0x2987, CharClassification::Opening),
    (0x2988, CharClassification::Closing),
    (0x2989, CharClassification::Opening),
    (0x298a, CharClassification::Closing),
    (0x298b, CharClassification::Opening),
    (0x298c, CharClassification::Closing),
    (0x298d, CharClassification::Opening),
    (0x298e, CharClassification::Closing),
    (0x298f, CharClassification::Opening),
    (0x2990, CharClassification::Closing),
    (0x2991, CharClassification::Opening),
    (0x2992, CharClassification::Closing),
    (0x2993, CharClassification::Opening),
    (0x2994, CharClassification::Closing),
    (0x2995, CharClassification::Opening),
    (0x2996, CharClassification::Closing),
    (0x2997, CharClassification::Opening),
    (0x2998, CharClassification::Closing),
    (0x2999, CharClassification::Fence),
    (0x299b, CharClassification::Normal),
    (0x29b6, CharClassification::Binary),
    (0x29ba, CharClassification::Normal),
    (0x29c0, CharClassification::Binary),
    (0x29c2, CharClassification::Normal),
    (0x29c4, CharClassification::Binary),
    (0x29c9, CharClassification::Normal),
    (0x29ce, CharClassification::Relation),
    (0x29d6, CharClassification::Binary),
    (0x29d8, CharClassification::Opening),
    (0x29d9, CharClassification::Closing),
    (0x29da, CharClassification::Opening),
    (0x29db, CharClassification::Closing),
    (0x29dc, CharClassification::Normal),
    (0x29df, CharClassification::Relation),
    (0x29e0, CharClassification::Normal),
    (0x29e1, CharClassification::Relation),
    (0x29e2, CharClassification::Binary),
    (0x29e3, CharClassification::Relation),
    (0x29e7, CharClassification::Normal),
    (0x29eb, CharClassification::Binary),
    (0x29ec, CharClassification::Normal),
    (0x29f4, CharClassification::Relation),
    (0x29f5, CharClassification::Binary),
    (0x29f8, CharClassification::Large),
    (0x29fa, CharClassification::Binary),
    (0x29fc, CharClassification::Opening),
    (0x29fd, CharClassification::Closing),
    (0x29fe, CharClassification::Binary),
    (0x2a00, CharClassification::Large),
    (0x2a22, CharClassification::Binary),
    (0x2a59, CharClassification::Relation),
    (0x2a5a, CharClassification::Binary),
    (0x2a66, CharClassification::Relation),
    (0x2a71, CharClassification::Binary),
    (0x2a73, CharClassification::Relation),
    (0x2ae1, CharClassification::Normal),
    (0x2ae2, CharClassification::Relation),
    (0x2af1, CharClassification::Normal),
    (0x2af2, CharClassification::Relation),
    (0x2af4, CharClassification::Binary),
    (0x2af7, CharClassification::Relation),
    (0x2afb, CharClassification::Binary),
    (0x2afc, CharClassification::Large),
    (0x2afd, CharClassification::Binary),
    (0x2aff, CharClassification::Large),
    (0x2b00, CharClassification::Relation),
    (0x2b12, CharClassification::Normal),
    (0x2b1a, CharClassification::Ignore),
    (0x2b1b, CharClassification::Normal),
    (0x2b30, CharClassification::Relation),
    (0x2b4d, CharClassification::Ignore),
    (0x2b50, CharClassification::Normal),
    (0x2b55, CharClassification::Ignore),
    (0x2b95, CharClassification::Relation),
    (0x2b96, CharClassification::Ignore),
    (0x2bc2, CharClassification::Normal),
    (0x2bc9, CharClassification::Ignore),
    (0x2bca, CharClassification::Normal),
    (0x2bcc, CharClassification::Ignore),
    (0x3008, CharClassification::Special),
    (0x300a, CharClassification::Ignore),
    (0x301a, CharClassification::Special),
    (0x301c, CharClassification::Ignore),
    (0x306e, CharClassification::Normal),
    (0x306f, CharClassification::Ignore),
    (0xfb29, CharClassification::Special),
    (0xfb2a, CharClassification::Ignore),
    (0xfe00, CharClassification::Diacritic),
    (0xfe01, CharClassification::Ignore),
    (0xfe61, CharClassification::Special),
    (0xfe67, CharClassification::Ignore),
    (0xfe68, CharClassification::Special),
    (0xfe69, CharClassification::Ignore),
    (0xff0b, CharClassification::Special),
    (0xff0c, CharClassification::Ignore),
    (0xff1c, CharClassification::Special),
    (0xff1f, CharClassification::Ignore),
    (0xff3c, CharClassification::Special),
    (0xff3d, CharClassification::Ignore),
    (0xff3e, CharClassification::Special),
    (0xff3f, CharClassification::Ignore),
    (0xff5c, CharClassification::Special),
    (0xff5d, CharClassification::Ignore),
    (0xff5e, CharClassification::Special),
    (0xff5f, CharClassification::Ignore),
    (0xffe2, CharClassification::Special),
    (0xffe3, CharClassification::Ignore),
    (0xffe9, CharClassification::Special),
    (0xffed, CharClassification::Ignore),
    (0x1d400, CharClassification::Alphabetic),
    (0x1d455, CharClassification::Ignore),
    (0x1d456, CharClassification::Alphabetic),
    (0x1d49d, CharClassification::Ignore),
    (0x1d49e, CharClassification::Alphabetic),
    (0x1d4a0, CharClassification::Ignore),
    (0x1d4a2, CharClassification::Alphabetic),
    (0x1d4a3, CharClassification::Ignore),
    (0x1d4a5, CharClassification::Alphabetic),
    (0x1d4a7, CharClassification::Ignore),
    (0x1d4a9, CharClassification::Alphabetic),
    (0x1d4ad, CharClassification::Ignore),
    (0x1d4ae, CharClassification::Alphabetic),
    (0x1d4ba, CharClassification::Ignore),
    (0x1d4bb, CharClassification::Alphabetic),
    (0x1d4bc, CharClassification::Ignore),
    (0x1d4bd, CharClassification::Alphabetic),
    (0x1d4c4, CharClassification::Ignore),
    (0x1d4c5, CharClassification::Alphabetic),
    (0x1d506, CharClassification::Ignore),
    (0x1d507, CharClassification::Alphabetic),
    (0x1d50b, CharClassification::Ignore),
    (0x1d50d, CharClassification::Alphabetic),
    (0x1d515, CharClassification::Ignore),
    (0x1d516, CharClassification::Alphabetic),
    (0x1d51d, CharClassification::Ignore),
    (0x1d51e, CharClassification::Alphabetic),
    (0x1d53a, CharClassification::Ignore),
    (0x1d53b, CharClassification::Alphabetic),
    (0x1d53f, CharClassification::Ignore),
    (0x1d540, CharClassification::Alphabetic),
    (0x1d545, CharClassification::Ignore),
    (0x1d546, CharClassification::Alphabetic),
    (0x1d547, CharClassification::Ignore),
    (0x1d54a, CharClassification::Alphabetic),
    (0x1d551, CharClassification::Ignore),
    (0x1d552, CharClassification::Alphabetic),
    (0x1d6a6, CharClassification::Ignore),
    (0x1d6a8, CharClassification::Alphabetic),
    (0x1d7cc, CharClassification::Ignore),
    (0x1d7ce, CharClassification::Normal),
    (0x1d800, CharClassification::Ignore),
    (0x1ee00, CharClassification::Alphabetic),
    (0x1ee04, CharClassification::Ignore),
    (0x1ee05, CharClassification::Alphabetic),
    (0x1ee20, CharClassification::Ignore),
    (0x1ee21, CharClassification::Alphabetic),
    (0x1ee23, CharClassification::Ignore),
    (0x1ee24, CharClassification::Alphabetic),
    (0x1ee25, CharClassification::Ignore),
    (0x1ee27, CharClassification::Alphabetic),
    (0x1ee28, CharClassification::Ignore),
    (0x1ee29, CharClassification::Alphabetic),
    (0x1ee33, CharClassification::Ignore),
    (0x1ee34, CharClassification::Alphabetic),
    (0x1ee38, CharClassification::Ignore),
    (0x1ee39, CharClassification::Alphabetic),
    (0x1ee3a, CharClassification::Ignore),
    (0x1ee3b, CharClassification::Alphabetic),
    (0x1ee3c, CharClassification::Ignore),
    (0x1ee42, CharClassification::Alphabetic),
    (0x1ee43, CharClassification::Ignore),
    (0x1ee47, CharClassification::Alphabetic),
    (0x1ee48, CharClassification::Ignore),
    (0x1ee49, CharClassification::Alphabetic),
    (0x1ee4a, CharClassification::Ignore),
    (0x1ee4b, CharClassification::Alphabetic),
    (0x1ee4c, CharClassification::Ignore),
    (0x1ee4d, CharClassification::Alphabetic),
    (0x1ee50, CharClassification::Ignore),
    (0x1ee51, CharClassification::Alphabetic),
    (0x1ee53, CharClassification::Ignore),
    (0x1ee54, CharClassification::Alphabetic),
    (0x1ee55, CharClassification::Ignore),
    (0x1ee57, CharClassification::Alphabetic),
    (0x1ee58, CharClassification::Ignore),
    (0x1ee59, CharClassification::Alphabetic),
    (0x1ee5a, CharClassification::Ignore),
    (0x1ee5b, CharClassification::Alphabetic),
    (0x1ee5c, CharClassification::Ignore),
    (0x1ee5d, CharClassification::Alphabetic),
    (0x1ee5e, CharClassification::Ignore),
    (0x1ee5f, CharClassification::Alphabetic),
    (0x1ee60, CharClassification::Ignore),
    (0x1ee61, CharClassification::Alphabetic),
    (0x1ee63, CharClassification::Ignore),
    (0x1ee64, CharClassification::Alphabetic),
    (0x1ee65, CharClassification::Ignore),
    (0x1ee67, CharClassification::Alphabetic),
    (0x1ee6b, CharClassification::Ignore),
    (0x1ee6c, CharClassification::Alphabetic),
    (0x1ee73, CharClassification::Ignore),
    (0x1ee74, CharClassification::Alphabetic),
    (0x1ee78, CharClassification::Ignore),
    (0x1ee79, CharClassification::Alphabetic),
    (0x1ee7d, CharClassification::Ignore),
    (0x1ee7e, CharClassification::Alphabetic),
    (0x1ee7f, CharClassification::Ignore),
    (0x1ee80, CharClassification::Alphabetic),
    (0x1ee8a, CharClassification::Ignore),
    (0x1ee8b, CharClassification::Alphabetic),
    (0x1ee9c, CharClassification::Ignore),
    (0x1eea1, CharClassification::Alphabetic),
    (0x1eea4, CharClassification::Ignore),
    (0x1eea5, CharClassification::Alphabetic),
    (0x1eeaa, CharClassification::Ignore),
    (0x1eeab, CharClassification::Alphabetic),
    (0x1eebc, CharClassification::Ignore),
    (0x1eef0, CharClassification::Large),
    (0x1eef2, CharClassification::Ignore),
    (0x1f784, CharClassification::Normal),
    (0x1f785, CharClassification::Ignore),
    (0x1f78c, CharClassification::Normal),
    (0x1f78e, CharClassification::Ignore),
    (0x1f797, CharClassification::Normal),
    (0x1f79a, CharClassification::Ignore),
    (0x1f79d, CharClassification::Normal),
    (0x1f7a0, CharClassification::Ignore),
];

/// The commands that stand for a character, in the order of their names.
pub const CHAR_COMMANDS: [(&'static str, char); 281] = [
    ("Delta", '\u{394}'),
    ("Downarrow", '\u{21d3}'),
    ("Gamma", '\u{393}'),
    ("Im", '\u{2111}'),
    ("Lambda", '\u{39b}'),
    ("Leftarrow", '\u{21d0}'),
    ("Leftrightarrow", '\u{21d4}'),
    ("Longleftarrow", '\u{27f8}'),
    ("Longleftrightarrow", '\u{27fa}'),
    ("Longrightarrow", '\u{27f9}'),
    ("Omega", '\u{3a9}'),
    ("Phi", '\u{3a6}'),
    ("Pi", '\u{3a0}'),
    ("Psi", '\u{3a8}'),
    ("Re", '\u{211c}'),
    ("Rightarrow", '\u{21d2}'),
    ("Sigma", '\u{3a3}'),
    ("Theta", '\u{398}'),
    ("Uparrow", '\u{21d1}'),
    ("Vert", '\u{2016}'),
    ("Xi", '\u{39e}'),
    ("aleph", '\u{2135}'),
    ("alpha", '\u{1d6fc}'),
    ("amalg", '\u{2a3f}'),
    ("angle", '\u{2220}'),
    ("approx", '\u{2248}'),
    ("ast", '\u{2217}'),
    ("asymp", '\u{224d}'),
    ("backslash", '\u{5c}'),
    ("because", '\u{2235}'),
    ("beta", '\u{1d6fd}'),
    ("bigcap", '\u{22c2}'),
    ("bigcup", '\u{22c3}'),
    ("bigodot", '\u{2a00}'),
    ("bigoplus", '\u{2a01}'),
    ("bigotimes", '\u{2a02}'),
    ("bigsqcup", '\u{2a06}'),
    ("bigtriangledown", '\u{25bd}'),
    ("bigtriangleup", '\u{25b3}'),
    ("biguplus", '\u{2a04}'),
    ("bigvee", '\u{22c1}'),
    ("bigwedge", '\u{22c0}'),
    ("bot", '\u{22a5}'),
    ("bowtie", '\u{22c8}'),
    ("bullet", '\u{2219}'),
    ("cap", '\u{2229}'),
    ("cdot", '\u{22c5}'),
    ("cdotp", '\u{b7}'),
    ("cdots", '\u{22ef}'),
    ("chi", '\u{1d712}'),
    ("circ", '\u{2218}'),
    ("clubsuit", '\u{2663}'),
    ("complement", '\u{2201}'),
    ("cong", '\u{2245}'),
    ("coprod", '\u{2210}'),
    ("cup", '\u{222a}'),
    ("dagger", '\u{2020}'),
    ("dashv", '\u{22a3}'),
    ("ddagger", '\u{2021}'),
    ("ddots", '\u{22f1}'),
    ("delta", '\u{1d6ff}'),
    ("diamond", '\u{22c4}'),
    ("diamondsuit", '\u{2662}'),
    ("div", '\u{f7}'),
    ("doteq", '\u{2250}'),
    ("downarrow", '\u{2193}'),
    ("ell", '\u{2113}'),
    ("emptyset", '\u{2205}'),
    ("epsilon", '\u{1d716}'),
    ("equal", '\u{3d}'),
    ("equiv", '\u{2261}'),
    ("eta", '\u{1d702}'),
    ("exists", '\u{2203}'),
    ("flat", '\u{266d}'),
    ("forall", '\u{2200}'),
    ("gamma", '\u{1d6fe}'),
    ("ge", '\u{2265}'),
    ("geq", '\u{2265}'),
    ("gg", '\u{226b}'),
    ("greater", '\u{3e}'),
    ("heartsuit", '\u{2661}'),
    ("hookleftarrow", '\u{21a9}'),
    ("hookrightarrow", '\u{21aa}'),
    ("iiint", '\u{222d}'),
    ("iint", '\u{222c}'),
    ("in", '\u{2208}'),
    ("infty", '\u{221e}'),
    ("int", '\u{222b}'),
    ("iota", '\u{1d704}'),
    ("kappa", '\u{1d705}'),
    ("lambda", '\u{1d706}'),
    ("langle", '\u{27e8}'),
    ("lbrace", '\u{7b}'),
    ("lbrack", '\u{5b}'),
    ("lceil", '\u{2308}'),
    ("ldots", '\u{2026}'),
    ("le", '\u{2264}'),
    ("leftarrow", '\u{2190}'),
    ("leftrightarrow", '\u{2194}'),
    ("leq", '\u{2264}'),
    ("less", '\u{3c}'),
    ("lfloor", '\u{230a}'),
    ("ll", '\u{226a}'),
    ("longleftarrow", '\u{27f5}'),
    ("longleftrightarrow", '\u{27f7}'),
    ("longmapsto", '\u{27fc}'),
    ("longrightarrow", '\u{27f6}'),
    ("lparen", '\u{28}'),
    ("mapsto", '\u{21a6}'),
    ("mathampersand", '\u{26}'),
    ("mathatsign", '\u{40}'),
    ("mathcolon", '\u{3a}'),
    ("mathcomma", '\u{2c}'),
    ("mathdollar", '\u{24}'),
    ("mathexclam", '\u{21}'),
    ("mathoctothorpe", '\u{23}'),
    ("mathpercent", '\u{25}'),
    ("mathperiod", '\u{2e}'),
    ("mathplus", '\u{2b}'),
    ("mathquestion", '\u{3f}'),
    ("mathsemicolon", '\u{3b}'),
    ("mathslash", '\u{2f}'),
    ("mid", '\u{2223}'),
    ("minus", '\u{2212}'),
    ("mitalpha", '\u{1d6fc}'),
    ("mitbeta", '\u{1d6fd}'),
    ("mitchi", '\u{1d712}'),
    ("mitdelta", '\u{1d6ff}'),
    ("mitepsilon", '\u{1d716}'),
    ("miteta", '\u{1d702}'),
    ("mitgamma", '\u{1d6fe}'),
    ("mitiota", '\u{1d704}'),
    ("mitkappa", '\u{1d705}'),
    ("mitlambda", '\u{1d706}'),
    ("mitmu", '\u{1d707}'),
    ("mitnu", '\u{1d708}'),
    ("mitomega", '\u{1d714}'),
    ("mitomicron", '\u{1d70a}'),
    ("mitpartial", '\u{1d715}'),
    ("mitphi", '\u{1d719}'),
    ("mitpi", '\u{1d70b}'),
    ("mitpsi", '\u{1d713}'),
    ("mitrho", '\u{1d70c}'),
    ("mitsigma", '\u{1d70e}'),
    ("mittau", '\u{1d70f}'),
    ("mittheta", '\u{1d703}'),
    ("mitupsilon", '\u{1d710}'),
    ("mitvarepsilon", '\u{1d700}'),
    ("mitvarkappa", '\u{1d718}'),
    ("mitvarphi", '\u{1d711}'),
    ("mitvarpi", '\u{1d71b}'),
    ("mitvarrho", '\u{1d71a}'),
    ("mitvarsigma", '\u{1d70d}'),
    ("mitvartheta", '\u{1d717}'),
    ("mitxi", '\u{1d709}'),
    ("mitzeta", '\u{1d701}'),
    ("models", '\u{22a7}'),
    ("mp", '\u{2213}'),
    ("mu", '\u{1d707}'),
    ("mupDelta", '\u{394}'),
    ("mupGamma", '\u{393}'),
    ("mupLambda", '\u{39b}'),
    ("mupOmega", '\u{3a9}'),
    ("mupPhi", '\u{3a6}'),
    ("mupPi", '\u{3a0}'),
    ("mupPsi", '\u{3a8}'),
    ("mupSigma", '\u{3a3}'),
    ("mupTheta", '\u{398}'),
    ("mupXi", '\u{39e}'),
    ("mupalpha", '\u{3b1}'),
    ("mupbeta", '\u{3b2}'),
    ("mupchi", '\u{3c7}'),
    ("mupdelta", '\u{3b4}'),
    ("mupeta", '\u{3b7}'),
    ("mupgamma", '\u{3b3}'),
    ("mupiota", '\u{3b9}'),
    ("mupkappa", '\u{3ba}'),
    ("muplambda", '\u{3bb}'),
    ("mupmu", '\u{3bc}'),
    ("mupnu", '\u{3bd}'),
    ("mupomega", '\u{3c9}'),
    ("mupomicron", '\u{3bf}'),
    ("muppi", '\u{3c0}'),
    ("muppsi", '\u{3c8}'),
    ("muprho", '\u{3c1}'),
    ("mupsigma", '\u{3c3}'),
    ("muptau", '\u{3c4}'),
    ("muptheta", '\u{3b8}'),
    ("mupupsilon", '\u{3c5}'),
    ("mupvarepsilon", '\u{3b5}'),
    ("mupvarphi", '\u{3c6}'),
    ("mupxi", '\u{3be}'),
    ("mupzeta", '\u{3b6}'),
    ("nabla", '\u{2207}'),
    ("natural", '\u{266e}'),
    ("ne", '\u{2260}'),
    ("nearrow", '\u{2197}'),
    ("neg", '\u{ac}'),
    ("neq", '\u{2260}'),
    ("nexists", '\u{2204}'),
    ("ni", '\u{220b}'),
    ("nmid", '\u{2224}'),
    ("notin", '\u{2209}'),
    ("nu", '\u{1d708}'),
    ("nwarrow", '\u{2196}'),
    ("odot", '\u{2299}'),
    ("oint", '\u{222e}'),
    ("omega", '\u{1d714}'),
    ("omicron", '\u{1d70a}'),
    ("ominus", '\u{2296}'),
    ("oplus", '\u{2295}'),
    ("oslash", '\u{2298}'),
    ("otimes", '\u{2297}'),
    ("parallel", '\u{2225}'),
    ("partial", '\u{2202}'),
    ("phi", '\u{1d719}'),
    ("pi", '\u{1d70b}'),
    ("pm", '\u{b1}'),
    ("prec", '\u{227a}'),
    ("prime", '\u{2032}'),
    ("prod", '\u{220f}'),
    ("propto", '\u{221d}'),
    ("psi", '\u{1d713}'),
    ("rangle", '\u{27e9}'),
    ("rbrace", '\u{7d}'),
    ("rbrack", '\u{5d}'),
    ("rceil", '\u{2309}'),
    ("rfloor", '\u{230b}'),
    ("rho", '\u{1d70c}'),
    ("rightarrow", '\u{2192}'),
    ("rparen", '\u{29}'),
    ("searrow", '\u{2198}'),
    ("setminus", '\u{29f5}'),
    ("sharp", '\u{266f}'),
    ("sigma", '\u{1d70e}'),
    ("sim", '\u{223c}'),
    ("simeq", '\u{2243}'),
    ("smallsetminus", '\u{2216}'),
    ("spadesuit", '\u{2660}'),
    ("sqcap", '\u{2293}'),
    ("sqcup", '\u{2294}'),
    ("sqrt", '\u{221a}'),
    ("sqsubseteq", '\u{2291}'),
    ("sqsupseteq", '\u{2292}'),
    ("star", '\u{22c6}'),
    ("subset", '\u{2282}'),
    ("subseteq", '\u{2286}'),
    ("succ", '\u{227b}'),
    ("sum", '\u{2211}'),
    ("supset", '\u{2283}'),
    ("supseteq", '\u{2287}'),
    ("swarrow", '\u{2199}'),
    ("tau", '\u{1d70f}'),
    ("therefore", '\u{2234}'),
    ("theta", '\u{1d703}'),
    ("times", '\u{d7}'),
    ("top", '\u{22a4}'),
    ("triangle", '\u{25b3}'),
    ("triangleleft", '\u{25c1}'),
    ("triangleright", '\u{25b7}'),
    ("uparrow", '\u{2191}'),
    ("updownarrow", '\u{2195}'),
    ("uplus", '\u{228e}'),
    ("upsilon", '\u{1d710}'),
    ("varepsilon", '\u{1d700}'),
    ("varkappa", '\u{1d718}'),
    ("varnothing", '\u{2205}'),
    ("varphi", '\u{1d711}'),
    ("varpi", '\u{1d71b}'),
    ("varrho", '\u{1d71a}'),
    ("varsigma", '\u{1d70d}'),
    ("vartheta", '\u{1d717}'),
    ("vdash", '\u{22a2}'),
    ("vdots", '\u{22ee}'),
    ("vee", '\u{2228}'),
    ("vert", '\u{7c}'),
    ("wedge", '\u{2227}'),
    ("wp", '\u{2118}'),
    ("wr", '\u{2240}'),
    ("xi", '\u{1d709}'),
    ("zeta", '\u{1d701}'),
];

} // verus!
