use vstd::prelude::*;
use super::gf256::{gf_inv, gf_pow, inv_chain, lemma_gf_pow_zero_base, lemma_inv_chain_is_pow};
use super::sbox::{affine_spec, inv_affine_spec, inv_sbox_spec, sbox_spec};

verus! {

/// The AES S-box as a lookup table.
pub const SBOX: [u8; 256] = [
    0x63, 0x7c, 0x77, 0x7b, 0xf2, 0x6b, 0x6f, 0xc5, 0x30, 0x01, 0x67, 0x2b, 0xfe, 0xd7, 0xab, 0x76,
    0xca, 0x82, 0xc9, 0x7d, 0xfa, 0x59, 0x47, 0xf0, 0xad, 0xd4, 0xa2, 0xaf, 0x9c, 0xa4, 0x72, 0xc0,
    0xb7, 0xfd, 0x93, 0x26, 0x36, 0x3f, 0xf7, 0xcc, 0x34, 0xa5, 0xe5, 0xf1, 0x71, 0xd8, 0x31, 0x15,
    0x04, 0xc7, 0x23, 0xc3, 0x18, 0x96, 0x05, 0x9a, 0x07, 0x12, 0x80, 0xe2, 0xeb, 0x27, 0xb2, 0x75,
    0x09, 0x83, 0x2c, 0x1a, 0x1b, 0x6e, 0x5a, 0xa0, 0x52, 0x3b, 0xd6, 0xb3, 0x29, 0xe3, 0x2f, 0x84,
    0x53, 0xd1, 0x00, 0xed, 0x20, 0xfc, 0xb1, 0x5b, 0x6a, 0xcb, 0xbe, 0x39, 0x4a, 0x4c, 0x58, 0xcf,
    0xd0, 0xef, 0xaa, 0xfb, 0x43, 0x4d, 0x33, 0x85, 0x45, 0xf9, 0x02, 0x7f, 0x50, 0x3c, 0x9f, 0xa8,
    0x51, 0xa3, 0x40, 0x8f, 0x92, 0x9d, 0x38, 0xf5, 0xbc, 0xb6, 0xda, 0x21, 0x10, 0xff, 0xf3, 0xd2,
    0xcd, 0x0c, 0x13, 0xec, 0x5f, 0x97, 0x44, 0x17, 0xc4, 0xa7, 0x7e, 0x3d, 0x64, 0x5d, 0x19, 0x73,
    0x60, 0x81, 0x4f, 0xdc, 0x22, 0x2a, 0x90, 0x88, 0x46, 0xee, 0xb8, 0x14, 0xde, 0x5e, 0x0b, 0xdb,
    0xe0, 0x32, 0x3a, 0x0a, 0x49, 0x06, 0x24, 0x5c, 0xc2, 0xd3, 0xac, 0x62, 0x91, 0x95, 0xe4, 0x79,
    0xe7, 0xc8, 0x37, 0x6d, 0x8d, 0xd5, 0x4e, 0xa9, 0x6c, 0x56, 0xf4, 0xea, 0x65, 0x7a, 0xae, 0x08,
    0xba, 0x78, 0x25, 0x2e, 0x1c, 0xa6, 0xb4, 0xc6, 0xe8, 0xdd, 0x74, 0x1f, 0x4b, 0xbd, 0x8b, 0x8a,
    0x70, 0x3e, 0xb5, 0x66, 0x48, 0x03, 0xf6, 0x0e, 0x61, 0x35, 0x57, 0xb9, 0x86, 0xc1, 0x1d, 0x9e,
    0xe1, 0xf8, 0x98, 0x11, 0x69, 0xd9, 0x8e, 0x94, 0x9b, 0x1e, 0x87, 0xe9, 0xce, 0x55, 0x28, 0xdf,
    0x8c, 0xa1, 0x89, 0x0d, 0xbf, 0xe6, 0x42, 0x68, 0x41, 0x99, 0x2d, 0x0f, 0xb0, 0x54, 0xbb, 0x16,
];

/// The inverse S-box as a lookup table.
pub const INV_SBOX: [u8; 256] = [
    0x52, 0x09, 0x6a, 0xd5, 0x30, 0x36, 0xa5, 0x38, 0xbf, 0x40, 0xa3, 0x9e, 0x81, 0xf3, 0xd7, 0xfb,
    0x7c, 0xe3, 0x39, 0x82, 0x9b, 0x2f, 0xff, 0x87, 0x34, 0x8e, 0x43, 0x44, 0xc4, 0xde, 0xe9, 0xcb,
    0x54, 0x7b, 0x94, 0x32, 0xa6, 0xc2, 0x23, 0x3d, 0xee, 0x4c, 0x95, 0x0b, 0x42, 0xfa, 0xc3, 0x4e,
    0x08, 0x2e, 0xa1, 0x66, 0x28, 0xd9, 0x24, 0xb2, 0x76, 0x5b, 0xa2, 0x49, 0x6d, 0x8b, 0xd1, 0x25,
    0x72, 0xf8, 0xf6, 0x64, 0x86, 0x68, 0x98, 0x16, 0xd4, 0xa4, 0x5c, 0xcc, 0x5d, 0x65, 0xb6, 0x92,
    0x6c, 0x70, 0x48, 0x50, 0xfd, 0xed, 0xb9, 0xda, 0x5e, 0x15, 0x46, 0x57, 0xa7, 0x8d, 0x9d, 0x84,
    0x90, 0xd8, 0xab, 0x00, 0x8c, 0xbc, 0xd3, 0x0a, 0xf7, 0xe4, 0x58, 0x05, 0xb8, 0xb3, 0x45, 0x06,
    0xd0, 0x2c, 0x1e, 0x8f, 0xca, 0x3f, 0x0f, 0x02, 0xc1, 0xaf, 0xbd, 0x03, 0x01, 0x13, 0x8a, 0x6b,
    0x3a, 0x91, 0x11, 0x41, 0x4f, 0x67, 0xdc, 0xea, 0x97, 0xf2, 0xcf, 0xce, 0xf0, 0xb4, 0xe6, 0x73,
    0x96, 0xac, 0x74, 0x22, 0xe7, 0xad, 0x35, 0x85, 0xe2, 0xf9, 0x37, 0xe8, 0x1c, 0x75, 0xdf, 0x6e,
    0x47, 0xf1, 0x1a, 0x71, 0x1d, 0x29, 0xc5, 0x89, 0x6f, 0xb7, 0x62, 0x0e, 0xaa, 0x18, 0xbe, 0x1b,
    0xfc, 0x56, 0x3e, 0x4b, 0xc6, 0xd2, 0x79, 0x20, 0x9a, 0xdb, 0xc0, 0xfe, 0x78, 0xcd, 0x5a, 0xf4,
    0x1f, 0xdd, 0xa8, 0x33, 0x88, 0x07, 0xc7, 0x31, 0xb1, 0x12, 0x10, 0x59, 0x27, 0x80, 0xec, 0x5f,
    0x60, 0x51, 0x7f, 0xa9, 0x19, 0xb5, 0x4a, 0x0d, 0x2d, 0xe5, 0x7a, 0x9f, 0x93, 0xc9, 0x9c, 0xef,
    0xa0, 0xe0, 0x3b, 0x4d, 0xae, 0x2a, 0xf5, 0xb0, 0xc8, 0xeb, 0xbb, 0x3c, 0x83, 0x53, 0x99, 0x61,
    0x17, 0x2b, 0x04, 0x7e, 0xba, 0x77, 0xd6, 0x26, 0xe1, 0x69, 0x14, 0x63, 0x55, 0x21, 0x0c, 0x7d,
];

/// Round constants for the key schedule; entry `j` (for `1 <= j <= 10`) is
/// `x^(j-1)` in GF(2^8). Entry 0 is not used.
pub const RCON: [u8; 11] = [0x00, 0x01, 0x02, 0x04, 0x08, 0x10, 0x20, 0x40, 0x80, 0x1b, 0x36];

/// The round constant `x^(j-1)`.
pub open spec fn rcon_spec(j: int) -> u8 {
    gf_pow(2, (j - 1) as nat)
}

/// The S-box computed through the chain of squares.
#[verifier::opaque]
spec fn sbox_by_chain(v: u8) -> u8 {
    affine_spec(inv_chain(v))
}

/// The inverse S-box computed through the chain of squares.
#[verifier::opaque]
spec fn inv_sbox_by_chain(v: u8) -> u8 {
    inv_chain(inv_affine_spec(v))
}

proof fn lemma_sbox_by_chain_values()
    ensures
        sbox_by_chain(0) == 0x63,
        sbox_by_chain(1) == 0x7c,
        sbox_by_chain(2) == 0x77,
        sbox_by_chain(3) == 0x7b,
        sbox_by_chain(4) == 0xf2,
        sbox_by_chain(5) == 0x6b,
        sbox_by_chain(6) == 0x6f,
        sbox_by_chain(7) == 0xc5,
        sbox_by_chain(8) == 0x30,
        sbox_by_chain(9) == 0x01,
        sbox_by_chain(10) == 0x67,
        sbox_by_chain(11) == 0x2b,
        sbox_by_chain(12) == 0xfe,
        sbox_by_chain(13) == 0xd7,
        sbox_by_chain(14) == 0xab,
        sbox_by_chain(15) == 0x76,
        sbox_by_chain(16) == 0xca,
        sbox_by_chain(17) == 0x82,
        sbox_by_chain(18) == 0xc9,
        sbox_by_chain(19) == 0x7d,
        sbox_by_chain(20) == 0xfa,
        sbox_by_chain(21) == 0x59,
        sbox_by_chain(22) == 0x47,
        sbox_by_chain(23) == 0xf0,
        sbox_by_chain(24) == 0xad,
        sbox_by_chain(25) == 0xd4,
        sbox_by_chain(26) == 0xa2,
        sbox_by_chain(27) == 0xaf,
        sbox_by_chain(28) == 0x9c,
        sbox_by_chain(29) == 0xa4,
        sbox_by_chain(30) == 0x72,
        sbox_by_chain(31) == 0xc0,
        sbox_by_chain(32) == 0xb7,
        sbox_by_chain(33) == 0xfd,
        sbox_by_chain(34) == 0x93,
        sbox_by_chain(35) == 0x26,
        sbox_by_chain(36) == 0x36,
        sbox_by_chain(37) == 0x3f,
        sbox_by_chain(38) == 0xf7,
        sbox_by_chain(39) == 0xcc,
        sbox_by_chain(40) == 0x34,
        sbox_by_chain(41) == 0xa5,
        sbox_by_chain(42) == 0xe5,
        sbox_by_chain(43) == 0xf1,
        sbox_by_chain(44) == 0x71,
        sbox_by_chain(45) == 0xd8,
        sbox_by_chain(46) == 0x31,
        sbox_by_chain(47) == 0x15,
        sbox_by_chain(48) == 0x04,
        sbox_by_chain(49) == 0xc7,
        sbox_by_chain(50) == 0x23,
        sbox_by_chain(51) == 0xc3,
        sbox_by_chain(52) == 0x18,
        sbox_by_chain(53) == 0x96,
        sbox_by_chain(54) == 0x05,
        sbox_by_chain(55) == 0x9a,
        sbox_by_chain(56) == 0x07,
        sbox_by_chain(57) == 0x12,
        sbox_by_chain(58) == 0x80,
        sbox_by_chain(59) == 0xe2,
        sbox_by_chain(60) == 0xeb,
        sbox_by_chain(61) == 0x27,
        sbox_by_chain(62) == 0xb2,
        sbox_by_chain(63) == 0x75,
        sbox_by_chain(64) == 0x09,
        sbox_by_chain(65) == 0x83,
        sbox_by_chain(66) == 0x2c,
        sbox_by_chain(67) == 0x1a,
        sbox_by_chain(68) == 0x1b,
        sbox_by_chain(69) == 0x6e,
        sbox_by_chain(70) == 0x5a,
        sbox_by_chain(71) == 0xa0,
        sbox_by_chain(72) == 0x52,
        sbox_by_chain(73) == 0x3b,
        sbox_by_chain(74) == 0xd6,
        sbox_by_chain(75) == 0xb3,
        sbox_by_chain(76) == 0x29,
        sbox_by_chain(77) == 0xe3,
        sbox_by_chain(78) == 0x2f,
        sbox_by_chain(79) == 0x84,
        sbox_by_chain(80) == 0x53,
        sbox_by_chain(81) == 0xd1,
        sbox_by_chain(82) == 0x00,
        sbox_by_chain(83) == 0xed,
        sbox_by_chain(84) == 0x20,
        sbox_by_chain(85) == 0xfc,
        sbox_by_chain(86) == 0xb1,
        sbox_by_chain(87) == 0x5b,
        sbox_by_chain(88) == 0x6a,
        sbox_by_chain(89) == 0xcb,
        sbox_by_chain(90) == 0xbe,
        sbox_by_chain(91) == 0x39,
        sbox_by_chain(92) == 0x4a,
        sbox_by_chain(93) == 0x4c,
        sbox_by_chain(94) == 0x58,
        sbox_by_chain(95) == 0xcf,
        sbox_by_chain(96) == 0xd0,
        sbox_by_chain(97) == 0xef,
        sbox_by_chain(98) == 0xaa,
        sbox_by_chain(99) == 0xfb,
        sbox_by_chain(100) == 0x43,
        sbox_by_chain(101) == 0x4d,
        sbox_by_chain(102) == 0x33,
        sbox_by_chain(103) == 0x85,
        sbox_by_chain(104) == 0x45,
        sbox_by_chain(105) == 0xf9,
        sbox_by_chain(106) == 0x02,
        sbox_by_chain(107) == 0x7f,
        sbox_by_chain(108) == 0x50,
        sbox_by_chain(109) == 0x3c,
        sbox_by_chain(110) == 0x9f,
        sbox_by_chain(111) == 0xa8,
        sbox_by_chain(112) == 0x51,
        sbox_by_chain(113) == 0xa3,
        sbox_by_chain(114) == 0x40,
        sbox_by_chain(115) == 0x8f,
        sbox_by_chain(116) == 0x92,
        sbox_by_chain(117) == 0x9d,
        sbox_by_chain(118) == 0x38,
        sbox_by_chain(119) == 0xf5,
        sbox_by_chain(120) == 0xbc,
        sbox_by_chain(121) == 0xb6,
        sbox_by_chain(122) == 0xda,
        sbox_by_chain(123) == 0x21,
        sbox_by_chain(124) == 0x10,
        sbox_by_chain(125) == 0xff,
        sbox_by_chain(126) == 0xf3,
        sbox_by_chain(127) == 0xd2,
        sbox_by_chain(128) == 0xcd,
        sbox_by_chain(129) == 0x0c,
        sbox_by_chain(130) == 0x13,
        sbox_by_chain(131) == 0xec,
        sbox_by_chain(132) == 0x5f,
        sbox_by_chain(133) == 0x97,
        sbox_by_chain(134) == 0x44,
        sbox_by_chain(135) == 0x17,
        sbox_by_chain(136) == 0xc4,
        sbox_by_chain(137) == 0xa7,
        sbox_by_chain(138) == 0x7e,
        sbox_by_chain(139) == 0x3d,
        sbox_by_chain(140) == 0x64,
        sbox_by_chain(141) == 0x5d,
        sbox_by_chain(142) == 0x19,
        sbox_by_chain(143) == 0x73,
        sbox_by_chain(144) == 0x60,
        sbox_by_chain(145) == 0x81,
        sbox_by_chain(146) == 0x4f,
        sbox_by_chain(147) == 0xdc,
        sbox_by_chain(148) == 0x22,
        sbox_by_chain(149) == 0x2a,
        sbox_by_chain(150) == 0x90,
        sbox_by_chain(151) == 0x88,
        sbox_by_chain(152) == 0x46,
        sbox_by_chain(153) == 0xee,
        sbox_by_chain(154) == 0xb8,
        sbox_by_chain(155) == 0x14,
        sbox_by_chain(156) == 0xde,
        sbox_by_chain(157) == 0x5e,
        sbox_by_chain(158) == 0x0b,
        sbox_by_chain(159) == 0xdb,
        sbox_by_chain(160) == 0xe0,
        sbox_by_chain(161) == 0x32,
        sbox_by_chain(162) == 0x3a,
        sbox_by_chain(163) == 0x0a,
        sbox_by_chain(164) == 0x49,
        sbox_by_chain(165) == 0x06,
        sbox_by_chain(166) == 0x24,
        sbox_by_chain(167) == 0x5c,
        sbox_by_chain(168) == 0xc2,
        sbox_by_chain(169) == 0xd3,
        sbox_by_chain(170) == 0xac,
        sbox_by_chain(171) == 0x62,
        sbox_by_chain(172) == 0x91,
        sbox_by_chain(173) == 0x95,
        sbox_by_chain(174) == 0xe4,
        sbox_by_chain(175) == 0x79,
        sbox_by_chain(176) == 0xe7,
        sbox_by_chain(177) == 0xc8,
        sbox_by_chain(178) == 0x37,
        sbox_by_chain(179) == 0x6d,
        sbox_by_chain(180) == 0x8d,
        sbox_by_chain(181) == 0xd5,
        sbox_by_chain(182) == 0x4e,
        sbox_by_chain(183) == 0xa9,
        sbox_by_chain(184) == 0x6c,
        sbox_by_chain(185) == 0x56,
        sbox_by_chain(186) == 0xf4,
        sbox_by_chain(187) == 0xea,
        sbox_by_chain(188) == 0x65,
        sbox_by_chain(189) == 0x7a,
        sbox_by_chain(190) == 0xae,
        sbox_by_chain(191) == 0x08,
        sbox_by_chain(192) == 0xba,
        sbox_by_chain(193) == 0x78,
        sbox_by_chain(194) == 0x25,
        sbox_by_chain(195) == 0x2e,
        sbox_by_chain(196) == 0x1c,
        sbox_by_chain(197) == 0xa6,
        sbox_by_chain(198) == 0xb4,
        sbox_by_chain(199) == 0xc6,
        sbox_by_chain(200) == 0xe8,
        sbox_by_chain(201) == 0xdd,
        sbox_by_chain(202) == 0x74,
        sbox_by_chain(203) == 0x1f,
        sbox_by_chain(204) == 0x4b,
        sbox_by_chain(205) == 0xbd,
        sbox_by_chain(206) == 0x8b,
        sbox_by_chain(207) == 0x8a,
        sbox_by_chain(208) == 0x70,
        sbox_by_chain(209) == 0x3e,
        sbox_by_chain(210) == 0xb5,
        sbox_by_chain(211) == 0x66,
        sbox_by_chain(212) == 0x48,
        sbox_by_chain(213) == 0x03,
        sbox_by_chain(214) == 0xf6,
        sbox_by_chain(215) == 0x0e,
        sbox_by_chain(216) == 0x61,
        sbox_by_chain(217) == 0x35,
        sbox_by_chain(218) == 0x57,
        sbox_by_chain(219) == 0xb9,
        sbox_by_chain(220) == 0x86,
        sbox_by_chain(221) == 0xc1,
        sbox_by_chain(222) == 0x1d,
        sbox_by_chain(223) == 0x9e,
        sbox_by_chain(224) == 0xe1,
        sbox_by_chain(225) == 0xf8,
        sbox_by_chain(226) == 0x98,
        sbox_by_chain(227) == 0x11,
        sbox_by_chain(228) == 0x69,
        sbox_by_chain(229) == 0xd9,
        sbox_by_chain(230) == 0x8e,
        sbox_by_chain(231) == 0x94,
        sbox_by_chain(232) == 0x9b,
        sbox_by_chain(233) == 0x1e,
        sbox_by_chain(234) == 0x87,
        sbox_by_chain(235) == 0xe9,
        sbox_by_chain(236) == 0xce,
        sbox_by_chain(237) == 0x55,
        sbox_by_chain(238) == 0x28,
        sbox_by_chain(239) == 0xdf,
        sbox_by_chain(240) == 0x8c,
        sbox_by_chain(241) == 0xa1,
        sbox_by_chain(242) == 0x89,
        sbox_by_chain(243) == 0x0d,
        sbox_by_chain(244) == 0xbf,
        sbox_by_chain(245) == 0xe6,
        sbox_by_chain(246) == 0x42,
        sbox_by_chain(247) == 0x68,
        sbox_by_chain(248) == 0x41,
        sbox_by_chain(249) == 0x99,
        sbox_by_chain(250) == 0x2d,
        sbox_by_chain(251) == 0x0f,
        sbox_by_chain(252) == 0xb0,
        sbox_by_chain(253) == 0x54,
        sbox_by_chain(254) == 0xbb,
        sbox_by_chain(255) == 0x16,
{
    reveal(sbox_by_chain);
    reveal(inv_chain);
    assert(
        sbox_by_chain(0) == 0x63 &&
        sbox_by_chain(1) == 0x7c &&
        sbox_by_chain(2) == 0x77 &&
        sbox_by_chain(3) == 0x7b &&
        sbox_by_chain(4) == 0xf2 &&
        sbox_by_chain(5) == 0x6b &&
        sbox_by_chain(6) == 0x6f &&
        sbox_by_chain(7) == 0xc5 &&
        sbox_by_chain(8) == 0x30 &&
        sbox_by_chain(9) == 0x01 &&
        sbox_by_chain(10) == 0x67 &&
        sbox_by_chain(11) == 0x2b &&
        sbox_by_chain(12) == 0xfe &&
        sbox_by_chain(13) == 0xd7 &&
        sbox_by_chain(14) == 0xab &&
        sbox_by_chain(15) == 0x76 &&
        sbox_by_chain(16) == 0xca &&
        sbox_by_chain(17) == 0x82 &&
        sbox_by_chain(18) == 0xc9 &&
        sbox_by_chain(19) == 0x7d &&
        sbox_by_chain(20) == 0xfa &&
        sbox_by_chain(21) == 0x59 &&
        sbox_by_chain(22) == 0x47 &&
        sbox_by_chain(23) == 0xf0 &&
        sbox_by_chain(24) == 0xad &&
        sbox_by_chain(25) == 0xd4 &&
        sbox_by_chain(26) == 0xa2 &&
        sbox_by_chain(27) == 0xaf &&
        sbox_by_chain(28) == 0x9c &&
        sbox_by_chain(29) == 0xa4 &&
        sbox_by_chain(30) == 0x72 &&
        sbox_by_chain(31) == 0xc0 &&
        sbox_by_chain(32) == 0xb7 &&
        sbox_by_chain(33) == 0xfd &&
        sbox_by_chain(34) == 0x93 &&
        sbox_by_chain(35) == 0x26 &&
        sbox_by_chain(36) == 0x36 &&
        sbox_by_chain(37) == 0x3f &&
        sbox_by_chain(38) == 0xf7 &&
        sbox_by_chain(39) == 0xcc &&
        sbox_by_chain(40) == 0x34 &&
        sbox_by_chain(41) == 0xa5 &&
        sbox_by_chain(42) == 0xe5 &&
        sbox_by_chain(43) == 0xf1 &&
        sbox_by_chain(44) == 0x71 &&
        sbox_by_chain(45) == 0xd8 &&
        sbox_by_chain(46) == 0x31 &&
        sbox_by_chain(47) == 0x15 &&
        sbox_by_chain(48) == 0x04 &&
        sbox_by_chain(49) == 0xc7 &&
        sbox_by_chain(50) == 0x23 &&
        sbox_by_chain(51) == 0xc3 &&
        sbox_by_chain(52) == 0x18 &&
        sbox_by_chain(53) == 0x96 &&
        sbox_by_chain(54) == 0x05 &&
        sbox_by_chain(55) == 0x9a &&
        sbox_by_chain(56) == 0x07 &&
        sbox_by_chain(57) == 0x12 &&
        sbox_by_chain(58) == 0x80 &&
        sbox_by_chain(59) == 0xe2 &&
        sbox_by_chain(60) == 0xeb &&
        sbox_by_chain(61) == 0x27 &&
        sbox_by_chain(62) == 0xb2 &&
        sbox_by_chain(63) == 0x75 &&
        sbox_by_chain(64) == 0x09 &&
        sbox_by_chain(65) == 0x83 &&
        sbox_by_chain(66) == 0x2c &&
        sbox_by_chain(67) == 0x1a &&
        sbox_by_chain(68) == 0x1b &&
        sbox_by_chain(69) == 0x6e &&
        sbox_by_chain(70) == 0x5a &&
        sbox_by_chain(71) == 0xa0 &&
        sbox_by_chain(72) == 0x52 &&
        sbox_by_chain(73) == 0x3b &&
        sbox_by_chain(74) == 0xd6 &&
        sbox_by_chain(75) == 0xb3 &&
        sbox_by_chain(76) == 0x29 &&
        sbox_by_chain(77) == 0xe3 &&
        sbox_by_chain(78) == 0x2f &&
        sbox_by_chain(79) == 0x84 &&
        sbox_by_chain(80) == 0x53 &&
        sbox_by_chain(81) == 0xd1 &&
        sbox_by_chain(82) == 0x00 &&
        sbox_by_chain(83) == 0xed &&
        sbox_by_chain(84) == 0x20 &&
        sbox_by_chain(85) == 0xfc &&
        sbox_by_chain(86) == 0xb1 &&
        sbox_by_chain(87) == 0x5b &&
        sbox_by_chain(88) == 0x6a &&
        sbox_by_chain(89) == 0xcb &&
        sbox_by_chain(90) == 0xbe &&
        sbox_by_chain(91) == 0x39 &&
        sbox_by_chain(92) == 0x4a &&
        sbox_by_chain(93) == 0x4c &&
        sbox_by_chain(94) == 0x58 &&
        sbox_by_chain(95) == 0xcf &&
        sbox_by_chain(96) == 0xd0 &&
        sbox_by_chain(97) == 0xef &&
        sbox_by_chain(98) == 0xaa &&
        sbox_by_chain(99) == 0xfb &&
        sbox_by_chain(100) == 0x43 &&
        sbox_by_chain(101) == 0x4d &&
        sbox_by_chain(102) == 0x33 &&
        sbox_by_chain(103) == 0x85 &&
        sbox_by_chain(104) == 0x45 &&
        sbox_by_chain(105) == 0xf9 &&
        sbox_by_chain(106) == 0x02 &&
        sbox_by_chain(107) == 0x7f &&
        sbox_by_chain(108) == 0x50 &&
        sbox_by_chain(109) == 0x3c &&
        sbox_by_chain(110) == 0x9f &&
        sbox_by_chain(111) == 0xa8 &&
        sbox_by_chain(112) == 0x51 &&
        sbox_by_chain(113) == 0xa3 &&
        sbox_by_chain(114) == 0x40 &&
        sbox_by_chain(115) == 0x8f &&
        sbox_by_chain(116) == 0x92 &&
        sbox_by_chain(117) == 0x9d &&
        sbox_by_chain(118) == 0x38 &&
        sbox_by_chain(119) == 0xf5 &&
        sbox_by_chain(120) == 0xbc &&
        sbox_by_chain(121) == 0xb6 &&
        sbox_by_chain(122) == 0xda &&
        sbox_by_chain(123) == 0x21 &&
        sbox_by_chain(124) == 0x10 &&
        sbox_by_chain(125) == 0xff &&
        sbox_by_chain(126) == 0xf3 &&
        sbox_by_chain(127) == 0xd2 &&
        sbox_by_chain(128) == 0xcd &&
        sbox_by_chain(129) == 0x0c &&
        sbox_by_chain(130) == 0x13 &&
        sbox_by_chain(131) == 0xec &&
        sbox_by_chain(132) == 0x5f &&
        sbox_by_chain(133) == 0x97 &&
        sbox_by_chain(134) == 0x44 &&
        sbox_by_chain(135) == 0x17 &&
        sbox_by_chain(136) == 0xc4 &&
        sbox_by_chain(137) == 0xa7 &&
        sbox_by_chain(138) == 0x7e &&
        sbox_by_chain(139) == 0x3d &&
        sbox_by_chain(140) == 0x64 &&
        sbox_by_chain(141) == 0x5d &&
        sbox_by_chain(142) == 0x19 &&
        sbox_by_chain(143) == 0x73 &&
        sbox_by_chain(144) == 0x60 &&
        sbox_by_chain(145) == 0x81 &&
        sbox_by_chain(146) == 0x4f &&
        sbox_by_chain(147) == 0xdc &&
        sbox_by_chain(148) == 0x22 &&
        sbox_by_chain(149) == 0x2a &&
        sbox_by_chain(150) == 0x90 &&
        sbox_by_chain(151) == 0x88 &&
        sbox_by_chain(152) == 0x46 &&
        sbox_by_chain(153) == 0xee &&
        sbox_by_chain(154) == 0xb8 &&
        sbox_by_chain(155) == 0x14 &&
        sbox_by_chain(156) == 0xde &&
        sbox_by_chain(157) == 0x5e &&
        sbox_by_chain(158) == 0x0b &&
        sbox_by_chain(159) == 0xdb &&
        sbox_by_chain(160) == 0xe0 &&
        sbox_by_chain(161) == 0x32 &&
        sbox_by_chain(162) == 0x3a &&
        sbox_by_chain(163) == 0x0a &&
        sbox_by_chain(164) == 0x49 &&
        sbox_by_chain(165) == 0x06 &&
        sbox_by_chain(166) == 0x24 &&
        sbox_by_chain(167) == 0x5c &&
        sbox_by_chain(168) == 0xc2 &&
        sbox_by_chain(169) == 0xd3 &&
        sbox_by_chain(170) == 0xac &&
        sbox_by_chain(171) == 0x62 &&
        sbox_by_chain(172) == 0x91 &&
        sbox_by_chain(173) == 0x95 &&
        sbox_by_chain(174) == 0xe4 &&
        sbox_by_chain(175) == 0x79 &&
        sbox_by_chain(176) == 0xe7 &&
        sbox_by_chain(177) == 0xc8 &&
        sbox_by_chain(178) == 0x37 &&
        sbox_by_chain(179) == 0x6d &&
        sbox_by_chain(180) == 0x8d &&
        sbox_by_chain(181) == 0xd5 &&
        sbox_by_chain(182) == 0x4e &&
        sbox_by_chain(183) == 0xa9 &&
        sbox_by_chain(184) == 0x6c &&
        sbox_by_chain(185) == 0x56 &&
        sbox_by_chain(186) == 0xf4 &&
        sbox_by_chain(187) == 0xea &&
        sbox_by_chain(188) == 0x65 &&
        sbox_by_chain(189) == 0x7a &&
        sbox_by_chain(190) == 0xae &&
        sbox_by_chain(191) == 0x08 &&
        sbox_by_chain(192) == 0xba &&
        sbox_by_chain(193) == 0x78 &&
        sbox_by_chain(194) == 0x25 &&
        sbox_by_chain(195) == 0x2e &&
        sbox_by_chain(196) == 0x1c &&
        sbox_by_chain(197) == 0xa6 &&
        sbox_by_chain(198) == 0xb4 &&
        sbox_by_chain(199) == 0xc6 &&
        sbox_by_chain(200) == 0xe8 &&
        sbox_by_chain(201) == 0xdd &&
        sbox_by_chain(202) == 0x74 &&
        sbox_by_chain(203) == 0x1f &&
        sbox_by_chain(204) == 0x4b &&
        sbox_by_chain(205) == 0xbd &&
        sbox_by_chain(206) == 0x8b &&
        sbox_by_chain(207) == 0x8a &&
        sbox_by_chain(208) == 0x70 &&
        sbox_by_chain(209) == 0x3e &&
        sbox_by_chain(210) == 0xb5 &&
        sbox_by_chain(211) == 0x66 &&
        sbox_by_chain(212) == 0x48 &&
        sbox_by_chain(213) == 0x03 &&
        sbox_by_chain(214) == 0xf6 &&
        sbox_by_chain(215) == 0x0e &&
        sbox_by_chain(216) == 0x61 &&
        sbox_by_chain(217) == 0x35 &&
        sbox_by_chain(218) == 0x57 &&
        sbox_by_chain(219) == 0xb9 &&
        sbox_by_chain(220) == 0x86 &&
        sbox_by_chain(221) == 0xc1 &&
        sbox_by_chain(222) == 0x1d &&
        sbox_by_chain(223) == 0x9e &&
        sbox_by_chain(224) == 0xe1 &&
        sbox_by_chain(225) == 0xf8 &&
        sbox_by_chain(226) == 0x98 &&
        sbox_by_chain(227) == 0x11 &&
        sbox_by_chain(228) == 0x69 &&
        sbox_by_chain(229) == 0xd9 &&
        sbox_by_chain(230) == 0x8e &&
        sbox_by_chain(231) == 0x94 &&
        sbox_by_chain(232) == 0x9b &&
        sbox_by_chain(233) == 0x1e &&
        sbox_by_chain(234) == 0x87 &&
        sbox_by_chain(235) == 0xe9 &&
        sbox_by_chain(236) == 0xce &&
        sbox_by_chain(237) == 0x55 &&
        sbox_by_chain(238) == 0x28 &&
        sbox_by_chain(239) == 0xdf &&
        sbox_by_chain(240) == 0x8c &&
        sbox_by_chain(241) == 0xa1 &&
        sbox_by_chain(242) == 0x89 &&
        sbox_by_chain(243) == 0x0d &&
        sbox_by_chain(244) == 0xbf &&
        sbox_by_chain(245) == 0xe6 &&
        sbox_by_chain(246) == 0x42 &&
        sbox_by_chain(247) == 0x68 &&
        sbox_by_chain(248) == 0x41 &&
        sbox_by_chain(249) == 0x99 &&
        sbox_by_chain(250) == 0x2d &&
        sbox_by_chain(251) == 0x0f &&
        sbox_by_chain(252) == 0xb0 &&
        sbox_by_chain(253) == 0x54 &&
        sbox_by_chain(254) == 0xbb &&
        sbox_by_chain(255) == 0x16
    ) by (bit_vector);
}

proof fn lemma_inv_sbox_by_chain_values()
    ensures
        inv_sbox_by_chain(0) == 0x52,
        inv_sbox_by_chain(1) == 0x09,
        inv_sbox_by_chain(2) == 0x6a,
        inv_sbox_by_chain(3) == 0xd5,
        inv_sbox_by_chain(4) == 0x30,
        inv_sbox_by_chain(5) == 0x36,
        inv_sbox_by_chain(6) == 0xa5,
        inv_sbox_by_chain(7) == 0x38,
        inv_sbox_by_chain(8) == 0xbf,
        inv_sbox_by_chain(9) == 0x40,
        inv_sbox_by_chain(10) == 0xa3,
        inv_sbox_by_chain(11) == 0x9e,
        inv_sbox_by_chain(12) == 0x81,
        inv_sbox_by_chain(13) == 0xf3,
        inv_sbox_by_chain(14) == 0xd7,
        inv_sbox_by_chain(15) == 0xfb,
        inv_sbox_by_chain(16) == 0x7c,
        inv_sbox_by_chain(17) == 0xe3,
        inv_sbox_by_chain(18) == 0x39,
        inv_sbox_by_chain(19) == 0x82,
        inv_sbox_by_chain(20) == 0x9b,
        inv_sbox_by_chain(21) == 0x2f,
        inv_sbox_by_chain(22) == 0xff,
        inv_sbox_by_chain(23) == 0x87,
        inv_sbox_by_chain(24) == 0x34,
        inv_sbox_by_chain(25) == 0x8e,
        inv_sbox_by_chain(26) == 0x43,
        inv_sbox_by_chain(27) == 0x44,
        inv_sbox_by_chain(28) == 0xc4,
        inv_sbox_by_chain(29) == 0xde,
        inv_sbox_by_chain(30) == 0xe9,
        inv_sbox_by_chain(31) == 0xcb,
        inv_sbox_by_chain(32) == 0x54,
        inv_sbox_by_chain(33) == 0x7b,
        inv_sbox_by_chain(34) == 0x94,
        inv_sbox_by_chain(35) == 0x32,
        inv_sbox_by_chain(36) == 0xa6,
        inv_sbox_by_chain(37) == 0xc2,
        inv_sbox_by_chain(38) == 0x23,
        inv_sbox_by_chain(39) == 0x3d,
        inv_sbox_by_chain(40) == 0xee,
        inv_sbox_by_chain(41) == 0x4c,
        inv_sbox_by_chain(42) == 0x95,
        inv_sbox_by_chain(43) == 0x0b,
        inv_sbox_by_chain(44) == 0x42,
        inv_sbox_by_chain(45) == 0xfa,
        inv_sbox_by_chain(46) == 0xc3,
        inv_sbox_by_chain(47) == 0x4e,
        inv_sbox_by_chain(48) == 0x08,
        inv_sbox_by_chain(49) == 0x2e,
        inv_sbox_by_chain(50) == 0xa1,
        inv_sbox_by_chain(51) == 0x66,
        inv_sbox_by_chain(52) == 0x28,
        inv_sbox_by_chain(53) == 0xd9,
        inv_sbox_by_chain(54) == 0x24,
        inv_sbox_by_chain(55) == 0xb2,
        inv_sbox_by_chain(56) == 0x76,
        inv_sbox_by_chain(57) == 0x5b,
        inv_sbox_by_chain(58) == 0xa2,
        inv_sbox_by_chain(59) == 0x49,
        inv_sbox_by_chain(60) == 0x6d,
        inv_sbox_by_chain(61) == 0x8b,
        inv_sbox_by_chain(62) == 0xd1,
        inv_sbox_by_chain(63) == 0x25,
        inv_sbox_by_chain(64) == 0x72,
        inv_sbox_by_chain(65) == 0xf8,
        inv_sbox_by_chain(66) == 0xf6,
        inv_sbox_by_chain(67) == 0x64,
        inv_sbox_by_chain(68) == 0x86,
        inv_sbox_by_chain(69) == 0x68,
        inv_sbox_by_chain(70) == 0x98,
        inv_sbox_by_chain(71) == 0x16,
        inv_sbox_by_chain(72) == 0xd4,
        inv_sbox_by_chain(73) == 0xa4,
        inv_sbox_by_chain(74) == 0x5c,
        inv_sbox_by_chain(75) == 0xcc,
        inv_sbox_by_chain(76) == 0x5d,
        inv_sbox_by_chain(77) == 0x65,
        inv_sbox_by_chain(78) == 0xb6,
        inv_sbox_by_chain(79) == 0x92,
        inv_sbox_by_chain(80) == 0x6c,
        inv_sbox_by_chain(81) == 0x70,
        inv_sbox_by_chain(82) == 0x48,
        inv_sbox_by_chain(83) == 0x50,
        inv_sbox_by_chain(84) == 0xfd,
        inv_sbox_by_chain(85) == 0xed,
        inv_sbox_by_chain(86) == 0xb9,
        inv_sbox_by_chain(87) == 0xda,
        inv_sbox_by_chain(88) == 0x5e,
        inv_sbox_by_chain(89) == 0x15,
        inv_sbox_by_chain(90) == 0x46,
        inv_sbox_by_chain(91) == 0x57,
        inv_sbox_by_chain(92) == 0xa7,
        inv_sbox_by_chain(93) == 0x8d,
        inv_sbox_by_chain(94) == 0x9d,
        inv_sbox_by_chain(95) == 0x84,
        inv_sbox_by_chain(96) == 0x90,
        inv_sbox_by_chain(97) == 0xd8,
        inv_sbox_by_chain(98) == 0xab,
        inv_sbox_by_chain(99) == 0x00,
        inv_sbox_by_chain(100) == 0x8c,
        inv_sbox_by_chain(101) == 0xbc,
        inv_sbox_by_chain(102) == 0xd3,
        inv_sbox_by_chain(103) == 0x0a,
        inv_sbox_by_chain(104) == 0xf7,
        inv_sbox_by_chain(105) == 0xe4,
        inv_sbox_by_chain(106) == 0x58,
        inv_sbox_by_chain(107) == 0x05,
        inv_sbox_by_chain(108) == 0xb8,
        inv_sbox_by_chain(109) == 0xb3,
        inv_sbox_by_chain(110) == 0x45,
        inv_sbox_by_chain(111) == 0x06,
        inv_sbox_by_chain(112) == 0xd0,
        inv_sbox_by_chain(113) == 0x2c,
        inv_sbox_by_chain(114) == 0x1e,
        inv_sbox_by_chain(115) == 0x8f,
        inv_sbox_by_chain(116) == 0xca,
        inv_sbox_by_chain(117) == 0x3f,
        inv_sbox_by_chain(118) == 0x0f,
        inv_sbox_by_chain(119) == 0x02,
        inv_sbox_by_chain(120) == 0xc1,
        inv_sbox_by_chain(121) == 0xaf,
        inv_sbox_by_chain(122) == 0xbd,
        inv_sbox_by_chain(123) == 0x03,
        inv_sbox_by_chain(124) == 0x01,
        inv_sbox_by_chain(125) == 0x13,
        inv_sbox_by_chain(126) == 0x8a,
        inv_sbox_by_chain(127) == 0x6b,
        inv_sbox_by_chain(128) == 0x3a,
        inv_sbox_by_chain(129) == 0x91,
        inv_sbox_by_chain(130) == 0x11,
        inv_sbox_by_chain(131) == 0x41,
        inv_sbox_by_chain(132) == 0x4f,
        inv_sbox_by_chain(133) == 0x67,
        inv_sbox_by_chain(134) == 0xdc,
        inv_sbox_by_chain(135) == 0xea,
        inv_sbox_by_chain(136) == 0x97,
        inv_sbox_by_chain(137) == 0xf2,
        inv_sbox_by_chain(138) == 0xcf,
        inv_sbox_by_chain(139) == 0xce,
        inv_sbox_by_chain(140) == 0xf0,
        inv_sbox_by_chain(141) == 0xb4,
        inv_sbox_by_chain(142) == 0xe6,
        inv_sbox_by_chain(143) == 0x73,
        inv_sbox_by_chain(144) == 0x96,
        inv_sbox_by_chain(145) == 0xac,
        inv_sbox_by_chain(146) == 0x74,
        inv_sbox_by_chain(147) == 0x22,
        inv_sbox_by_chain(148) == 0xe7,
        inv_sbox_by_chain(149) == 0xad,
        inv_sbox_by_chain(150) == 0x35,
        inv_sbox_by_chain(151) == 0x85,
        inv_sbox_by_chain(152) == 0xe2,
        inv_sbox_by_chain(153) == 0xf9,
        inv_sbox_by_chain(154) == 0x37,
        inv_sbox_by_chain(155) == 0xe8,
        inv_sbox_by_chain(156) == 0x1c,
        inv_sbox_by_chain(157) == 0x75,
        inv_sbox_by_chain(158) == 0xdf,
        inv_sbox_by_chain(159) == 0x6e,
        inv_sbox_by_chain(160) == 0x47,
        inv_sbox_by_chain(161) == 0xf1,
        inv_sbox_by_chain(162) == 0x1a,
        inv_sbox_by_chain(163) == 0x71,
        inv_sbox_by_chain(164) == 0x1d,
        inv_sbox_by_chain(165) == 0x29,
        inv_sbox_by_chain(166) == 0xc5,
        inv_sbox_by_chain(167) == 0x89,
        inv_sbox_by_chain(168) == 0x6f,
        inv_sbox_by_chain(169) == 0xb7,
        inv_sbox_by_chain(170) == 0x62,
        inv_sbox_by_chain(171) == 0x0e,
        inv_sbox_by_chain(172) == 0xaa,
        inv_sbox_by_chain(173) == 0x18,
        inv_sbox_by_chain(174) == 0xbe,
        inv_sbox_by_chain(175) == 0x1b,
        inv_sbox_by_chain(176) == 0xfc,
        inv_sbox_by_chain(177) == 0x56,
        inv_sbox_by_chain(178) == 0x3e,
        inv_sbox_by_chain(179) == 0x4b,
        inv_sbox_by_chain(180) == 0xc6,
        inv_sbox_by_chain(181) == 0xd2,
        inv_sbox_by_chain(182) == 0x79,
        inv_sbox_by_chain(183) == 0x20,
        inv_sbox_by_chain(184) == 0x9a,
        inv_sbox_by_chain(185) == 0xdb,
        inv_sbox_by_chain(186) == 0xc0,
        inv_sbox_by_chain(187) == 0xfe,
        inv_sbox_by_chain(188) == 0x78,
        inv_sbox_by_chain(189) == 0xcd,
        inv_sbox_by_chain(190) == 0x5a,
        inv_sbox_by_chain(191) == 0xf4,
        inv_sbox_by_chain(192) == 0x1f,
        inv_sbox_by_chain(193) == 0xdd,
        inv_sbox_by_chain(194) == 0xa8,
        inv_sbox_by_chain(195) == 0x33,
        inv_sbox_by_chain(196) == 0x88,
        inv_sbox_by_chain(197) == 0x07,
        inv_sbox_by_chain(198) == 0xc7,
        inv_sbox_by_chain(199) == 0x31,
        inv_sbox_by_chain(200) == 0xb1,
        inv_sbox_by_chain(201) == 0x12,
        inv_sbox_by_chain(202) == 0x10,
        inv_sbox_by_chain(203) == 0x59,
        inv_sbox_by_chain(204) == 0x27,
        inv_sbox_by_chain(205) == 0x80,
        inv_sbox_by_chain(206) == 0xec,
        inv_sbox_by_chain(207) == 0x5f,
        inv_sbox_by_chain(208) == 0x60,
        inv_sbox_by_chain(209) == 0x51,
        inv_sbox_by_chain(210) == 0x7f,
        inv_sbox_by_chain(211) == 0xa9,
        inv_sbox_by_chain(212) == 0x19,
        inv_sbox_by_chain(213) == 0xb5,
        inv_sbox_by_chain(214) == 0x4a,
        inv_sbox_by_chain(215) == 0x0d,
        inv_sbox_by_chain(216) == 0x2d,
        inv_sbox_by_chain(217) == 0xe5,
        inv_sbox_by_chain(218) == 0x7a,
        inv_sbox_by_chain(219) == 0x9f,
        inv_sbox_by_chain(220) == 0x93,
        inv_sbox_by_chain(221) == 0xc9,
        inv_sbox_by_chain(222) == 0x9c,
        inv_sbox_by_chain(223) == 0xef,
        inv_sbox_by_chain(224) == 0xa0,
        inv_sbox_by_chain(225) == 0xe0,
        inv_sbox_by_chain(226) == 0x3b,
        inv_sbox_by_chain(227) == 0x4d,
        inv_sbox_by_chain(228) == 0xae,
        inv_sbox_by_chain(229) == 0x2a,
        inv_sbox_by_chain(230) == 0xf5,
        inv_sbox_by_chain(231) == 0xb0,
        inv_sbox_by_chain(232) == 0xc8,
        inv_sbox_by_chain(233) == 0xeb,
        inv_sbox_by_chain(234) == 0xbb,
        inv_sbox_by_chain(235) == 0x3c,
        inv_sbox_by_chain(236) == 0x83,
        inv_sbox_by_chain(237) == 0x53,
        inv_sbox_by_chain(238) == 0x99,
        inv_sbox_by_chain(239) == 0x61,
        inv_sbox_by_chain(240) == 0x17,
        inv_sbox_by_chain(241) == 0x2b,
        inv_sbox_by_chain(242) == 0x04,
        inv_sbox_by_chain(243) == 0x7e,
        inv_sbox_by_chain(244) == 0xba,
        inv_sbox_by_chain(245) == 0x77,
        inv_sbox_by_chain(246) == 0xd6,
        inv_sbox_by_chain(247) == 0x26,
        inv_sbox_by_chain(248) == 0xe1,
        inv_sbox_by_chain(249) == 0x69,
        inv_sbox_by_chain(250) == 0x14,
        inv_sbox_by_chain(251) == 0x63,
        inv_sbox_by_chain(252) == 0x55,
        inv_sbox_by_chain(253) == 0x21,
        inv_sbox_by_chain(254) == 0x0c,
        inv_sbox_by_chain(255) == 0x7d,
{
    reveal(inv_sbox_by_chain);
    reveal(inv_chain);
    assert(
        inv_sbox_by_chain(0) == 0x52 &&
        inv_sbox_by_chain(1) == 0x09 &&
        inv_sbox_by_chain(2) == 0x6a &&
        inv_sbox_by_chain(3) == 0xd5 &&
        inv_sbox_by_chain(4) == 0x30 &&
        inv_sbox_by_chain(5) == 0x36 &&
        inv_sbox_by_chain(6) == 0xa5 &&
        inv_sbox_by_chain(7) == 0x38 &&
        inv_sbox_by_chain(8) == 0xbf &&
        inv_sbox_by_chain(9) == 0x40 &&
        inv_sbox_by_chain(10) == 0xa3 &&
        inv_sbox_by_chain(11) == 0x9e &&
        inv_sbox_by_chain(12) == 0x81 &&
        inv_sbox_by_chain(13) == 0xf3 &&
        inv_sbox_by_chain(14) == 0xd7 &&
        inv_sbox_by_chain(15) == 0xfb &&
        inv_sbox_by_chain(16) == 0x7c &&
        inv_sbox_by_chain(17) == 0xe3 &&
        inv_sbox_by_chain(18) == 0x39 &&
        inv_sbox_by_chain(19) == 0x82 &&
        inv_sbox_by_chain(20) == 0x9b &&
        inv_sbox_by_chain(21) == 0x2f &&
        inv_sbox_by_chain(22) == 0xff &&
        inv_sbox_by_chain(23) == 0x87 &&
        inv_sbox_by_chain(24) == 0x34 &&
        inv_sbox_by_chain(25) == 0x8e &&
        inv_sbox_by_chain(26) == 0x43 &&
        inv_sbox_by_chain(27) == 0x44 &&
        inv_sbox_by_chain(28) == 0xc4 &&
        inv_sbox_by_chain(29) == 0xde &&
        inv_sbox_by_chain(30) == 0xe9 &&
        inv_sbox_by_chain(31) == 0xcb &&
        inv_sbox_by_chain(32) == 0x54 &&
        inv_sbox_by_chain(33) == 0x7b &&
        inv_sbox_by_chain(34) == 0x94 &&
        inv_sbox_by_chain(35) == 0x32 &&
        inv_sbox_by_chain(36) == 0xa6 &&
        inv_sbox_by_chain(37) == 0xc2 &&
        inv_sbox_by_chain(38) == 0x23 &&
        inv_sbox_by_chain(39) == 0x3d &&
        inv_sbox_by_chain(40) == 0xee &&
        inv_sbox_by_chain(41) == 0x4c &&
        inv_sbox_by_chain(42) == 0x95 &&
        inv_sbox_by_chain(43) == 0x0b &&
        inv_sbox_by_chain(44) == 0x42 &&
        inv_sbox_by_chain(45) == 0xfa &&
        inv_sbox_by_chain(46) == 0xc3 &&
        inv_sbox_by_chain(47) == 0x4e &&
        inv_sbox_by_chain(48) == 0x08 &&
        inv_sbox_by_chain(49) == 0x2e &&
        inv_sbox_by_chain(50) == 0xa1 &&
        inv_sbox_by_chain(51) == 0x66 &&
        inv_sbox_by_chain(52) == 0x28 &&
        inv_sbox_by_chain(53) == 0xd9 &&
        inv_sbox_by_chain(54) == 0x24 &&
        inv_sbox_by_chain(55) == 0xb2 &&
        inv_sbox_by_chain(56) == 0x76 &&
        inv_sbox_by_chain(57) == 0x5b &&
        inv_sbox_by_chain(58) == 0xa2 &&
        inv_sbox_by_chain(59) == 0x49 &&
        inv_sbox_by_chain(60) == 0x6d &&
        inv_sbox_by_chain(61) == 0x8b &&
        inv_sbox_by_chain(62) == 0xd1 &&
        inv_sbox_by_chain(63) == 0x25 &&
        inv_sbox_by_chain(64) == 0x72 &&
        inv_sbox_by_chain(65) == 0xf8 &&
        inv_sbox_by_chain(66) == 0xf6 &&
        inv_sbox_by_chain(67) == 0x64 &&
        inv_sbox_by_chain(68) == 0x86 &&
        inv_sbox_by_chain(69) == 0x68 &&
        inv_sbox_by_chain(70) == 0x98 &&
        inv_sbox_by_chain(71) == 0x16 &&
        inv_sbox_by_chain(72) == 0xd4 &&
        inv_sbox_by_chain(73) == 0xa4 &&
        inv_sbox_by_chain(74) == 0x5c &&
        inv_sbox_by_chain(75) == 0xcc &&
        inv_sbox_by_chain(76) == 0x5d &&
        inv_sbox_by_chain(77) == 0x65 &&
        inv_sbox_by_chain(78) == 0xb6 &&
        inv_sbox_by_chain(79) == 0x92 &&
        inv_sbox_by_chain(80) == 0x6c &&
        inv_sbox_by_chain(81) == 0x70 &&
        inv_sbox_by_chain(82) == 0x48 &&
        inv_sbox_by_chain(83) == 0x50 &&
        inv_sbox_by_chain(84) == 0xfd &&
        inv_sbox_by_chain(85) == 0xed &&
        inv_sbox_by_chain(86) == 0xb9 &&
        inv_sbox_by_chain(87) == 0xda &&
        inv_sbox_by_chain(88) == 0x5e &&
        inv_sbox_by_chain(89) == 0x15 &&
        inv_sbox_by_chain(90) == 0x46 &&
        inv_sbox_by_chain(91) == 0x57 &&
        inv_sbox_by_chain(92) == 0xa7 &&
        inv_sbox_by_chain(93) == 0x8d &&
        inv_sbox_by_chain(94) == 0x9d &&
        inv_sbox_by_chain(95) == 0x84 &&
        inv_sbox_by_chain(96) == 0x90 &&
        inv_sbox_by_chain(97) == 0xd8 &&
        inv_sbox_by_chain(98) == 0xab &&
        inv_sbox_by_chain(99) == 0x00 &&
        inv_sbox_by_chain(100) == 0x8c &&
        inv_sbox_by_chain(101) == 0xbc &&
        inv_sbox_by_chain(102) == 0xd3 &&
        inv_sbox_by_chain(103) == 0x0a &&
        inv_sbox_by_chain(104) == 0xf7 &&
        inv_sbox_by_chain(105) == 0xe4 &&
        inv_sbox_by_chain(106) == 0x58 &&
        inv_sbox_by_chain(107) == 0x05 &&
        inv_sbox_by_chain(108) == 0xb8 &&
        inv_sbox_by_chain(109) == 0xb3 &&
        inv_sbox_by_chain(110) == 0x45 &&
        inv_sbox_by_chain(111) == 0x06 &&
        inv_sbox_by_chain(112) == 0xd0 &&
        inv_sbox_by_chain(113) == 0x2c &&
        inv_sbox_by_chain(114) == 0x1e &&
        inv_sbox_by_chain(115) == 0x8f &&
        inv_sbox_by_chain(116) == 0xca &&
        inv_sbox_by_chain(117) == 0x3f &&
        inv_sbox_by_chain(118) == 0x0f &&
        inv_sbox_by_chain(119) == 0x02 &&
        inv_sbox_by_chain(120) == 0xc1 &&
        inv_sbox_by_chain(121) == 0xaf &&
        inv_sbox_by_chain(122) == 0xbd &&
        inv_sbox_by_chain(123) == 0x03 &&
        inv_sbox_by_chain(124) == 0x01 &&
        inv_sbox_by_chain(125) == 0x13 &&
        inv_sbox_by_chain(126) == 0x8a &&
        inv_sbox_by_chain(127) == 0x6b &&
        inv_sbox_by_chain(128) == 0x3a &&
        inv_sbox_by_chain(129) == 0x91 &&
        inv_sbox_by_chain(130) == 0x11 &&
        inv_sbox_by_chain(131) == 0x41 &&
        inv_sbox_by_chain(132) == 0x4f &&
        inv_sbox_by_chain(133) == 0x67 &&
        inv_sbox_by_chain(134) == 0xdc &&
        inv_sbox_by_chain(135) == 0xea &&
        inv_sbox_by_chain(136) == 0x97 &&
        inv_sbox_by_chain(137) == 0xf2 &&
        inv_sbox_by_chain(138) == 0xcf &&
        inv_sbox_by_chain(139) == 0xce &&
        inv_sbox_by_chain(140) == 0xf0 &&
        inv_sbox_by_chain(141) == 0xb4 &&
        inv_sbox_by_chain(142) == 0xe6 &&
        inv_sbox_by_chain(143) == 0x73 &&
        inv_sbox_by_chain(144) == 0x96 &&
        inv_sbox_by_chain(145) == 0xac &&
        inv_sbox_by_chain(146) == 0x74 &&
        inv_sbox_by_chain(147) == 0x22 &&
        inv_sbox_by_chain(148) == 0xe7 &&
        inv_sbox_by_chain(149) == 0xad &&
        inv_sbox_by_chain(150) == 0x35 &&
        inv_sbox_by_chain(151) == 0x85 &&
        inv_sbox_by_chain(152) == 0xe2 &&
        inv_sbox_by_chain(153) == 0xf9 &&
        inv_sbox_by_chain(154) == 0x37 &&
        inv_sbox_by_chain(155) == 0xe8 &&
        inv_sbox_by_chain(156) == 0x1c &&
        inv_sbox_by_chain(157) == 0x75 &&
        inv_sbox_by_chain(158) == 0xdf &&
        inv_sbox_by_chain(159) == 0x6e &&
        inv_sbox_by_chain(160) == 0x47 &&
        inv_sbox_by_chain(161) == 0xf1 &&
        inv_sbox_by_chain(162) == 0x1a &&
        inv_sbox_by_chain(163) == 0x71 &&
        inv_sbox_by_chain(164) == 0x1d &&
        inv_sbox_by_chain(165) == 0x29 &&
        inv_sbox_by_chain(166) == 0xc5 &&
        inv_sbox_by_chain(167) == 0x89 &&
        inv_sbox_by_chain(168) == 0x6f &&
        inv_sbox_by_chain(169) == 0xb7 &&
        inv_sbox_by_chain(170) == 0x62 &&
        inv_sbox_by_chain(171) == 0x0e &&
        inv_sbox_by_chain(172) == 0xaa &&
        inv_sbox_by_chain(173) == 0x18 &&
        inv_sbox_by_chain(174) == 0xbe &&
        inv_sbox_by_chain(175) == 0x1b &&
        inv_sbox_by_chain(176) == 0xfc &&
        inv_sbox_by_chain(177) == 0x56 &&
        inv_sbox_by_chain(178) == 0x3e &&
        inv_sbox_by_chain(179) == 0x4b &&
        inv_sbox_by_chain(180) == 0xc6 &&
        inv_sbox_by_chain(181) == 0xd2 &&
        inv_sbox_by_chain(182) == 0x79 &&
        inv_sbox_by_chain(183) == 0x20 &&
        inv_sbox_by_chain(184) == 0x9a &&
        inv_sbox_by_chain(185) == 0xdb &&
        inv_sbox_by_chain(186) == 0xc0 &&
        inv_sbox_by_chain(187) == 0xfe &&
        inv_sbox_by_chain(188) == 0x78 &&
        inv_sbox_by_chain(189) == 0xcd &&
        inv_sbox_by_chain(190) == 0x5a &&
        inv_sbox_by_chain(191) == 0xf4 &&
        inv_sbox_by_chain(192) == 0x1f &&
        inv_sbox_by_chain(193) == 0xdd &&
        inv_sbox_by_chain(194) == 0xa8 &&
        inv_sbox_by_chain(195) == 0x33 &&
        inv_sbox_by_chain(196) == 0x88 &&
        inv_sbox_by_chain(197) == 0x07 &&
        inv_sbox_by_chain(198) == 0xc7 &&
        inv_sbox_by_chain(199) == 0x31 &&
        inv_sbox_by_chain(200) == 0xb1 &&
        inv_sbox_by_chain(201) == 0x12 &&
        inv_sbox_by_chain(202) == 0x10 &&
        inv_sbox_by_chain(203) == 0x59 &&
        inv_sbox_by_chain(204) == 0x27 &&
        inv_sbox_by_chain(205) == 0x80 &&
        inv_sbox_by_chain(206) == 0xec &&
        inv_sbox_by_chain(207) == 0x5f &&
        inv_sbox_by_chain(208) == 0x60 &&
        inv_sbox_by_chain(209) == 0x51 &&
        inv_sbox_by_chain(210) == 0x7f &&
        inv_sbox_by_chain(211) == 0xa9 &&
        inv_sbox_by_chain(212) == 0x19 &&
        inv_sbox_by_chain(213) == 0xb5 &&
        inv_sbox_by_chain(214) == 0x4a &&
        inv_sbox_by_chain(215) == 0x0d &&
        inv_sbox_by_chain(216) == 0x2d &&
        inv_sbox_by_chain(217) == 0xe5 &&
        inv_sbox_by_chain(218) == 0x7a &&
        inv_sbox_by_chain(219) == 0x9f &&
        inv_sbox_by_chain(220) == 0x93 &&
        inv_sbox_by_chain(221) == 0xc9 &&
        inv_sbox_by_chain(222) == 0x9c &&
        inv_sbox_by_chain(223) == 0xef &&
        inv_sbox_by_chain(224) == 0xa0 &&
        inv_sbox_by_chain(225) == 0xe0 &&
        inv_sbox_by_chain(226) == 0x3b &&
        inv_sbox_by_chain(227) == 0x4d &&
        inv_sbox_by_chain(228) == 0xae &&
        inv_sbox_by_chain(229) == 0x2a &&
        inv_sbox_by_chain(230) == 0xf5 &&
        inv_sbox_by_chain(231) == 0xb0 &&
        inv_sbox_by_chain(232) == 0xc8 &&
        inv_sbox_by_chain(233) == 0xeb &&
        inv_sbox_by_chain(234) == 0xbb &&
        inv_sbox_by_chain(235) == 0x3c &&
        inv_sbox_by_chain(236) == 0x83 &&
        inv_sbox_by_chain(237) == 0x53 &&
        inv_sbox_by_chain(238) == 0x99 &&
        inv_sbox_by_chain(239) == 0x61 &&
        inv_sbox_by_chain(240) == 0x17 &&
        inv_sbox_by_chain(241) == 0x2b &&
        inv_sbox_by_chain(242) == 0x04 &&
        inv_sbox_by_chain(243) == 0x7e &&
        inv_sbox_by_chain(244) == 0xba &&
        inv_sbox_by_chain(245) == 0x77 &&
        inv_sbox_by_chain(246) == 0xd6 &&
        inv_sbox_by_chain(247) == 0x26 &&
        inv_sbox_by_chain(248) == 0xe1 &&
        inv_sbox_by_chain(249) == 0x69 &&
        inv_sbox_by_chain(250) == 0x14 &&
        inv_sbox_by_chain(251) == 0x63 &&
        inv_sbox_by_chain(252) == 0x55 &&
        inv_sbox_by_chain(253) == 0x21 &&
        inv_sbox_by_chain(254) == 0x0c &&
        inv_sbox_by_chain(255) == 0x7d
    ) by (bit_vector);
}

proof fn lemma_chain_is_inv(v: u8)
    ensures
        inv_chain(v) == gf_inv(v),
{
    lemma_inv_chain_is_pow(v);
    if v == 0 {
        lemma_gf_pow_zero_base(254);
    }
}

proof fn lemma_sbox_table_by_chain(v: u8)
    ensures
        SBOX[v as int] == sbox_by_chain(v),
{
    lemma_sbox_by_chain_values();
    match v {
        0u8 => { assert(SBOX[0] == 0x63); },
        1u8 => { assert(SBOX[1] == 0x7c); },
        2u8 => { assert(SBOX[2] == 0x77); },
        3u8 => { assert(SBOX[3] == 0x7b); },
        4u8 => { assert(SBOX[4] == 0xf2); },
        5u8 => { assert(SBOX[5] == 0x6b); },
        6u8 => { assert(SBOX[6] == 0x6f); },
        7u8 => { assert(SBOX[7] == 0xc5); },
        8u8 => { assert(SBOX[8] == 0x30); },
        9u8 => { assert(SBOX[9] == 0x01); },
        10u8 => { assert(SBOX[10] == 0x67); },
        11u8 => { assert(SBOX[11] == 0x2b); },
        12u8 => { assert(SBOX[12] == 0xfe); },
        13u8 => { assert(SBOX[13] == 0xd7); },
        14u8 => { assert(SBOX[14] == 0xab); },
        15u8 => { assert(SBOX[15] == 0x76); },
        16u8 => { assert(SBOX[16] == 0xca); },
        17u8 => { assert(SBOX[17] == 0x82); },
        18u8 => { assert(SBOX[18] == 0xc9); },
        19u8 => { assert(SBOX[19] == 0x7d); },
        20u8 => { assert(SBOX[20] == 0xfa); },
        21u8 => { assert(SBOX[21] == 0x59); },
        22u8 => { assert(SBOX[22] == 0x47); },
        23u8 => { assert(SBOX[23] == 0xf0); },
        24u8 => { assert(SBOX[24] == 0xad); },
        25u8 => { assert(SBOX[25] == 0xd4); },
        26u8 => { assert(SBOX[26] == 0xa2); },
        27u8 => { assert(SBOX[27] == 0xaf); },
        28u8 => { assert(SBOX[28] == 0x9c); },
        29u8 => { assert(SBOX[29] == 0xa4); },
        30u8 => { assert(SBOX[30] == 0x72); },
        31u8 => { assert(SBOX[31] == 0xc0); },
        32u8 => { assert(SBOX[32] == 0xb7); },
        33u8 => { assert(SBOX[33] == 0xfd); },
        34u8 => { assert(SBOX[34] == 0x93); },
        35u8 => { assert(SBOX[35] == 0x26); },
        36u8 => { assert(SBOX[36] == 0x36); },
        37u8 => { assert(SBOX[37] == 0x3f); },
        38u8 => { assert(SBOX[38] == 0xf7); },
        39u8 => { assert(SBOX[39] == 0xcc); },
        40u8 => { assert(SBOX[40] == 0x34); },
        41u8 => { assert(SBOX[41] == 0xa5); },
        42u8 => { assert(SBOX[42] == 0xe5); },
        43u8 => { assert(SBOX[43] == 0xf1); },
        44u8 => { assert(SBOX[44] == 0x71); },
        45u8 => { assert(SBOX[45] == 0xd8); },
        46u8 => { assert(SBOX[46] == 0x31); },
        47u8 => { assert(SBOX[47] == 0x15); },
        48u8 => { assert(SBOX[48] == 0x04); },
        49u8 => { assert(SBOX[49] == 0xc7); },
        50u8 => { assert(SBOX[50] == 0x23); },
        51u8 => { assert(SBOX[51] == 0xc3); },
        52u8 => { assert(SBOX[52] == 0x18); },
        53u8 => { assert(SBOX[53] == 0x96); },
        54u8 => { assert(SBOX[54] == 0x05); },
        55u8 => { assert(SBOX[55] == 0x9a); },
        56u8 => { assert(SBOX[56] == 0x07); },
        57u8 => { assert(SBOX[57] == 0x12); },
        58u8 => { assert(SBOX[58] == 0x80); },
        59u8 => { assert(SBOX[59] == 0xe2); },
        60u8 => { assert(SBOX[60] == 0xeb); },
        61u8 => { assert(SBOX[61] == 0x27); },
        62u8 => { assert(SBOX[62] == 0xb2); },
        63u8 => { assert(SBOX[63] == 0x75); },
        64u8 => { assert(SBOX[64] == 0x09); },
        65u8 => { assert(SBOX[65] == 0x83); },
        66u8 => { assert(SBOX[66] == 0x2c); },
        67u8 => { assert(SBOX[67] == 0x1a); },
        68u8 => { assert(SBOX[68] == 0x1b); },
        69u8 => { assert(SBOX[69] == 0x6e); },
        70u8 => { assert(SBOX[70] == 0x5a); },
        71u8 => { assert(SBOX[71] == 0xa0); },
        72u8 => { assert(SBOX[72] == 0x52); },
        73u8 => { assert(SBOX[73] == 0x3b); },
        74u8 => { assert(SBOX[74] == 0xd6); },
        75u8 => { assert(SBOX[75] == 0xb3); },
        76u8 => { assert(SBOX[76] == 0x29); },
        77u8 => { assert(SBOX[77] == 0xe3); },
        78u8 => { assert(SBOX[78] == 0x2f); },
        79u8 => { assert(SBOX[79] == 0x84); },
        80u8 => { assert(SBOX[80] == 0x53); },
        81u8 => { assert(SBOX[81] == 0xd1); },
        82u8 => { assert(SBOX[82] == 0x00); },
        83u8 => { assert(SBOX[83] == 0xed); },
        84u8 => { assert(SBOX[84] == 0x20); },
        85u8 => { assert(SBOX[85] == 0xfc); },
        86u8 => { assert(SBOX[86] == 0xb1); },
        87u8 => { assert(SBOX[87] == 0x5b); },
        88u8 => { assert(SBOX[88] == 0x6a); },
        89u8 => { assert(SBOX[89] == 0xcb); },
        90u8 => { assert(SBOX[90] == 0xbe); },
        91u8 => { assert(SBOX[91] == 0x39); },
        92u8 => { assert(SBOX[92] == 0x4a); },
        93u8 => { assert(SBOX[93] == 0x4c); },
        94u8 => { assert(SBOX[94] == 0x58); },
        95u8 => { assert(SBOX[95] == 0xcf); },
        96u8 => { assert(SBOX[96] == 0xd0); },
        97u8 => { assert(SBOX[97] == 0xef); },
        98u8 => { assert(SBOX[98] == 0xaa); },
        99u8 => { assert(SBOX[99] == 0xfb); },
        100u8 => { assert(SBOX[100] == 0x43); },
        101u8 => { assert(SBOX[101] == 0x4d); },
        102u8 => { assert(SBOX[102] == 0x33); },
        103u8 => { assert(SBOX[103] == 0x85); },
        104u8 => { assert(SBOX[104] == 0x45); },
        105u8 => { assert(SBOX[105] == 0xf9); },
        106u8 => { assert(SBOX[106] == 0x02); },
        107u8 => { assert(SBOX[107] == 0x7f); },
        108u8 => { assert(SBOX[108] == 0x50); },
        109u8 => { assert(SBOX[109] == 0x3c); },
        110u8 => { assert(SBOX[110] == 0x9f); },
        111u8 => { assert(SBOX[111] == 0xa8); },
        112u8 => { assert(SBOX[112] == 0x51); },
        113u8 => { assert(SBOX[113] == 0xa3); },
        114u8 => { assert(SBOX[114] == 0x40); },
        115u8 => { assert(SBOX[115] == 0x8f); },
        116u8 => { assert(SBOX[116] == 0x92); },
        117u8 => { assert(SBOX[117] == 0x9d); },
        118u8 => { assert(SBOX[118] == 0x38); },
        119u8 => { assert(SBOX[119] == 0xf5); },
        120u8 => { assert(SBOX[120] == 0xbc); },
        121u8 => { assert(SBOX[121] == 0xb6); },
        122u8 => { assert(SBOX[122] == 0xda); },
        123u8 => { assert(SBOX[123] == 0x21); },
        124u8 => { assert(SBOX[124] == 0x10); },
        125u8 => { assert(SBOX[125] == 0xff); },
        126u8 => { assert(SBOX[126] == 0xf3); },
        127u8 => { assert(SBOX[127] == 0xd2); },
        128u8 => { assert(SBOX[128] == 0xcd); },
        129u8 => { assert(SBOX[129] == 0x0c); },
        130u8 => { assert(SBOX[130] == 0x13); },
        131u8 => { assert(SBOX[131] == 0xec); },
        132u8 => { assert(SBOX[132] == 0x5f); },
        133u8 => { assert(SBOX[133] == 0x97); },
        134u8 => { assert(SBOX[134] == 0x44); },
        135u8 => { assert(SBOX[135] == 0x17); },
        136u8 => { assert(SBOX[136] == 0xc4); },
        137u8 => { assert(SBOX[137] == 0xa7); },
        138u8 => { assert(SBOX[138] == 0x7e); },
        139u8 => { assert(SBOX[139] == 0x3d); },
        140u8 => { assert(SBOX[140] == 0x64); },
        141u8 => { assert(SBOX[141] == 0x5d); },
        142u8 => { assert(SBOX[142] == 0x19); },
        143u8 => { assert(SBOX[143] == 0x73); },
        144u8 => { assert(SBOX[144] == 0x60); },
        145u8 => { assert(SBOX[145] == 0x81); },
        146u8 => { assert(SBOX[146] == 0x4f); },
        147u8 => { assert(SBOX[147] == 0xdc); },
        148u8 => { assert(SBOX[148] == 0x22); },
        149u8 => { assert(SBOX[149] == 0x2a); },
        150u8 => { assert(SBOX[150] == 0x90); },
        151u8 => { assert(SBOX[151] == 0x88); },
        152u8 => { assert(SBOX[152] == 0x46); },
        153u8 => { assert(SBOX[153] == 0xee); },
        154u8 => { assert(SBOX[154] == 0xb8); },
        155u8 => { assert(SBOX[155] == 0x14); },
        156u8 => { assert(SBOX[156] == 0xde); },
        157u8 => { assert(SBOX[157] == 0x5e); },
        158u8 => { assert(SBOX[158] == 0x0b); },
        159u8 => { assert(SBOX[159] == 0xdb); },
        160u8 => { assert(SBOX[160] == 0xe0); },
        161u8 => { assert(SBOX[161] == 0x32); },
        162u8 => { assert(SBOX[162] == 0x3a); },
        163u8 => { assert(SBOX[163] == 0x0a); },
        164u8 => { assert(SBOX[164] == 0x49); },
        165u8 => { assert(SBOX[165] == 0x06); },
        166u8 => { assert(SBOX[166] == 0x24); },
        167u8 => { assert(SBOX[167] == 0x5c); },
        168u8 => { assert(SBOX[168] == 0xc2); },
        169u8 => { assert(SBOX[169] == 0xd3); },
        170u8 => { assert(SBOX[170] == 0xac); },
        171u8 => { assert(SBOX[171] == 0x62); },
        172u8 => { assert(SBOX[172] == 0x91); },
        173u8 => { assert(SBOX[173] == 0x95); },
        174u8 => { assert(SBOX[174] == 0xe4); },
        175u8 => { assert(SBOX[175] == 0x79); },
        176u8 => { assert(SBOX[176] == 0xe7); },
        177u8 => { assert(SBOX[177] == 0xc8); },
        178u8 => { assert(SBOX[178] == 0x37); },
        179u8 => { assert(SBOX[179] == 0x6d); },
        180u8 => { assert(SBOX[180] == 0x8d); },
        181u8 => { assert(SBOX[181] == 0xd5); },
        182u8 => { assert(SBOX[182] == 0x4e); },
        183u8 => { assert(SBOX[183] == 0xa9); },
        184u8 => { assert(SBOX[184] == 0x6c); },
        185u8 => { assert(SBOX[185] == 0x56); },
        186u8 => { assert(SBOX[186] == 0xf4); },
        187u8 => { assert(SBOX[187] == 0xea); },
        188u8 => { assert(SBOX[188] == 0x65); },
        189u8 => { assert(SBOX[189] == 0x7a); },
        190u8 => { assert(SBOX[190] == 0xae); },
        191u8 => { assert(SBOX[191] == 0x08); },
        192u8 => { assert(SBOX[192] == 0xba); },
        193u8 => { assert(SBOX[193] == 0x78); },
        194u8 => { assert(SBOX[194] == 0x25); },
        195u8 => { assert(SBOX[195] == 0x2e); },
        196u8 => { assert(SBOX[196] == 0x1c); },
        197u8 => { assert(SBOX[197] == 0xa6); },
        198u8 => { assert(SBOX[198] == 0xb4); },
        199u8 => { assert(SBOX[199] == 0xc6); },
        200u8 => { assert(SBOX[200] == 0xe8); },
        201u8 => { assert(SBOX[201] == 0xdd); },
        202u8 => { assert(SBOX[202] == 0x74); },
        203u8 => { assert(SBOX[203] == 0x1f); },
        204u8 => { assert(SBOX[204] == 0x4b); },
        205u8 => { assert(SBOX[205] == 0xbd); },
        206u8 => { assert(SBOX[206] == 0x8b); },
        207u8 => { assert(SBOX[207] == 0x8a); },
        208u8 => { assert(SBOX[208] == 0x70); },
        209u8 => { assert(SBOX[209] == 0x3e); },
        210u8 => { assert(SBOX[210] == 0xb5); },
        211u8 => { assert(SBOX[211] == 0x66); },
        212u8 => { assert(SBOX[212] == 0x48); },
        213u8 => { assert(SBOX[213] == 0x03); },
        214u8 => { assert(SBOX[214] == 0xf6); },
        215u8 => { assert(SBOX[215] == 0x0e); },
        216u8 => { assert(SBOX[216] == 0x61); },
        217u8 => { assert(SBOX[217] == 0x35); },
        218u8 => { assert(SBOX[218] == 0x57); },
        219u8 => { assert(SBOX[219] == 0xb9); },
        220u8 => { assert(SBOX[220] == 0x86); },
        221u8 => { assert(SBOX[221] == 0xc1); },
        222u8 => { assert(SBOX[222] == 0x1d); },
        223u8 => { assert(SBOX[223] == 0x9e); },
        224u8 => { assert(SBOX[224] == 0xe1); },
        225u8 => { assert(SBOX[225] == 0xf8); },
        226u8 => { assert(SBOX[226] == 0x98); },
        227u8 => { assert(SBOX[227] == 0x11); },
        228u8 => { assert(SBOX[228] == 0x69); },
        229u8 => { assert(SBOX[229] == 0xd9); },
        230u8 => { assert(SBOX[230] == 0x8e); },
        231u8 => { assert(SBOX[231] == 0x94); },
        232u8 => { assert(SBOX[232] == 0x9b); },
        233u8 => { assert(SBOX[233] == 0x1e); },
        234u8 => { assert(SBOX[234] == 0x87); },
        235u8 => { assert(SBOX[235] == 0xe9); },
        236u8 => { assert(SBOX[236] == 0xce); },
        237u8 => { assert(SBOX[237] == 0x55); },
        238u8 => { assert(SBOX[238] == 0x28); },
        239u8 => { assert(SBOX[239] == 0xdf); },
        240u8 => { assert(SBOX[240] == 0x8c); },
        241u8 => { assert(SBOX[241] == 0xa1); },
        242u8 => { assert(SBOX[242] == 0x89); },
        243u8 => { assert(SBOX[243] == 0x0d); },
        244u8 => { assert(SBOX[244] == 0xbf); },
        245u8 => { assert(SBOX[245] == 0xe6); },
        246u8 => { assert(SBOX[246] == 0x42); },
        247u8 => { assert(SBOX[247] == 0x68); },
        248u8 => { assert(SBOX[248] == 0x41); },
        249u8 => { assert(SBOX[249] == 0x99); },
        250u8 => { assert(SBOX[250] == 0x2d); },
        251u8 => { assert(SBOX[251] == 0x0f); },
        252u8 => { assert(SBOX[252] == 0xb0); },
        253u8 => { assert(SBOX[253] == 0x54); },
        254u8 => { assert(SBOX[254] == 0xbb); },
        255u8 => { assert(SBOX[255] == 0x16); },
    }
}

/// The S-box table holds the S-box value of every byte.
pub proof fn lemma_sbox_table(v: u8)
    ensures
        SBOX[v as int] == sbox_spec(v),
{
    lemma_sbox_table_by_chain(v);
    reveal(sbox_spec);
    reveal(sbox_by_chain);
    lemma_chain_is_inv(v);
}

proof fn lemma_inv_sbox_table_by_chain(v: u8)
    ensures
        INV_SBOX[v as int] == inv_sbox_by_chain(v),
{
    lemma_inv_sbox_by_chain_values();
    match v {
        0u8 => { assert(INV_SBOX[0] == 0x52); },
        1u8 => { assert(INV_SBOX[1] == 0x09); },
        2u8 => { assert(INV_SBOX[2] == 0x6a); },
        3u8 => { assert(INV_SBOX[3] == 0xd5); },
        4u8 => { assert(INV_SBOX[4] == 0x30); },
        5u8 => { assert(INV_SBOX[5] == 0x36); },
        6u8 => { assert(INV_SBOX[6] == 0xa5); },
        7u8 => { assert(INV_SBOX[7] == 0x38); },
        8u8 => { assert(INV_SBOX[8] == 0xbf); },
        9u8 => { assert(INV_SBOX[9] == 0x40); },
        10u8 => { assert(INV_SBOX[10] == 0xa3); },
        11u8 => { assert(INV_SBOX[11] == 0x9e); },
        12u8 => { assert(INV_SBOX[12] == 0x81); },
        13u8 => { assert(INV_SBOX[13] == 0xf3); },
        14u8 => { assert(INV_SBOX[14] == 0xd7); },
        15u8 => { assert(INV_SBOX[15] == 0xfb); },
        16u8 => { assert(INV_SBOX[16] == 0x7c); },
        17u8 => { assert(INV_SBOX[17] == 0xe3); },
        18u8 => { assert(INV_SBOX[18] == 0x39); },
        19u8 => { assert(INV_SBOX[19] == 0x82); },
        20u8 => { assert(INV_SBOX[20] == 0x9b); },
        21u8 => { assert(INV_SBOX[21] == 0x2f); },
        22u8 => { assert(INV_SBOX[22] == 0xff); },
        23u8 => { assert(INV_SBOX[23] == 0x87); },
        24u8 => { assert(INV_SBOX[24] == 0x34); },
        25u8 => { assert(INV_SBOX[25] == 0x8e); },
        26u8 => { assert(INV_SBOX[26] == 0x43); },
        27u8 => { assert(INV_SBOX[27] == 0x44); },
        28u8 => { assert(INV_SBOX[28] == 0xc4); },
        29u8 => { assert(INV_SBOX[29] == 0xde); },
        30u8 => { assert(INV_SBOX[30] == 0xe9); },
        31u8 => { assert(INV_SBOX[31] == 0xcb); },
        32u8 => { assert(INV_SBOX[32] == 0x54); },
        33u8 => { assert(INV_SBOX[33] == 0x7b); },
        34u8 => { assert(INV_SBOX[34] == 0x94); },
        35u8 => { assert(INV_SBOX[35] == 0x32); },
        36u8 => { assert(INV_SBOX[36] == 0xa6); },
        37u8 => { assert(INV_SBOX[37] == 0xc2); },
        38u8 => { assert(INV_SBOX[38] == 0x23); },
        39u8 => { assert(INV_SBOX[39] == 0x3d); },
        40u8 => { assert(INV_SBOX[40] == 0xee); },
        41u8 => { assert(INV_SBOX[41] == 0x4c); },
        42u8 => { assert(INV_SBOX[42] == 0x95); },
        43u8 => { assert(INV_SBOX[43] == 0x0b); },
        44u8 => { assert(INV_SBOX[44] == 0x42); },
        45u8 => { assert(INV_SBOX[45] == 0xfa); },
        46u8 => { assert(INV_SBOX[46] == 0xc3); },
        47u8 => { assert(INV_SBOX[47] == 0x4e); },
        48u8 => { assert(INV_SBOX[48] == 0x08); },
        49u8 => { assert(INV_SBOX[49] == 0x2e); },
        50u8 => { assert(INV_SBOX[50] == 0xa1); },
        51u8 => { assert(INV_SBOX[51] == 0x66); },
        52u8 => { assert(INV_SBOX[52] == 0x28); },
        53u8 => { assert(INV_SBOX[53] == 0xd9); },
        54u8 => { assert(INV_SBOX[54] == 0x24); },
        55u8 => { assert(INV_SBOX[55] == 0xb2); },
        56u8 => { assert(INV_SBOX[56] == 0x76); },
        57u8 => { assert(INV_SBOX[57] == 0x5b); },
        58u8 => { assert(INV_SBOX[58] == 0xa2); },
        59u8 => { assert(INV_SBOX[59] == 0x49); },
        60u8 => { assert(INV_SBOX[60] == 0x6d); },
        61u8 => { assert(INV_SBOX[61] == 0x8b); },
        62u8 => { assert(INV_SBOX[62] == 0xd1); },
        63u8 => { assert(INV_SBOX[63] == 0x25); },
        64u8 => { assert(INV_SBOX[64] == 0x72); },
        65u8 => { assert(INV_SBOX[65] == 0xf8); },
        66u8 => { assert(INV_SBOX[66] == 0xf6); },
        67u8 => { assert(INV_SBOX[67] == 0x64); },
        68u8 => { assert(INV_SBOX[68] == 0x86); },
        69u8 => { assert(INV_SBOX[69] == 0x68); },
        70u8 => { assert(INV_SBOX[70] == 0x98); },
        71u8 => { assert(INV_SBOX[71] == 0x16); },
        72u8 => { assert(INV_SBOX[72] == 0xd4); },
        73u8 => { assert(INV_SBOX[73] == 0xa4); },
        74u8 => { assert(INV_SBOX[74] == 0x5c); },
        75u8 => { assert(INV_SBOX[75] == 0xcc); },
        76u8 => { assert(INV_SBOX[76] == 0x5d); },
        77u8 => { assert(INV_SBOX[77] == 0x65); },
        78u8 => { assert(INV_SBOX[78] == 0xb6); },
        79u8 => { assert(INV_SBOX[79] == 0x92); },
        80u8 => { assert(INV_SBOX[80] == 0x6c); },
        81u8 => { assert(INV_SBOX[81] == 0x70); },
        82u8 => { assert(INV_SBOX[82] == 0x48); },
        83u8 => { assert(INV_SBOX[83] == 0x50); },
        84u8 => { assert(INV_SBOX[84] == 0xfd); },
        85u8 => { assert(INV_SBOX[85] == 0xed); },
        86u8 => { assert(INV_SBOX[86] == 0xb9); },
        87u8 => { assert(INV_SBOX[87] == 0xda); },
        88u8 => { assert(INV_SBOX[88] == 0x5e); },
        89u8 => { assert(INV_SBOX[89] == 0x15); },
        90u8 => { assert(INV_SBOX[90] == 0x46); },
        91u8 => { assert(INV_SBOX[91] == 0x57); },
        92u8 => { assert(INV_SBOX[92] == 0xa7); },
        93u8 => { assert(INV_SBOX[93] == 0x8d); },
        94u8 => { assert(INV_SBOX[94] == 0x9d); },
        95u8 => { assert(INV_SBOX[95] == 0x84); },
        96u8 => { assert(INV_SBOX[96] == 0x90); },
        97u8 => { assert(INV_SBOX[97] == 0xd8); },
        98u8 => { assert(INV_SBOX[98] == 0xab); },
        99u8 => { assert(INV_SBOX[99] == 0x00); },
        100u8 => { assert(INV_SBOX[100] == 0x8c); },
        101u8 => { assert(INV_SBOX[101] == 0xbc); },
        102u8 => { assert(INV_SBOX[102] == 0xd3); },
        103u8 => { assert(INV_SBOX[103] == 0x0a); },
        104u8 => { assert(INV_SBOX[104] == 0xf7); },
        105u8 => { assert(INV_SBOX[105] == 0xe4); },
        106u8 => { assert(INV_SBOX[106] == 0x58); },
        107u8 => { assert(INV_SBOX[107] == 0x05); },
        108u8 => { assert(INV_SBOX[108] == 0xb8); },
        109u8 => { assert(INV_SBOX[109] == 0xb3); },
        110u8 => { assert(INV_SBOX[110] == 0x45); },
        111u8 => { assert(INV_SBOX[111] == 0x06); },
        112u8 => { assert(INV_SBOX[112] == 0xd0); },
        113u8 => { assert(INV_SBOX[113] == 0x2c); },
        114u8 => { assert(INV_SBOX[114] == 0x1e); },
        115u8 => { assert(INV_SBOX[115] == 0x8f); },
        116u8 => { assert(INV_SBOX[116] == 0xca); },
        117u8 => { assert(INV_SBOX[117] == 0x3f); },
        118u8 => { assert(INV_SBOX[118] == 0x0f); },
        119u8 => { assert(INV_SBOX[119] == 0x02); },
        120u8 => { assert(INV_SBOX[120] == 0xc1); },
        121u8 => { assert(INV_SBOX[121] == 0xaf); },
        122u8 => { assert(INV_SBOX[122] == 0xbd); },
        123u8 => { assert(INV_SBOX[123] == 0x03); },
        124u8 => { assert(INV_SBOX[124] == 0x01); },
        125u8 => { assert(INV_SBOX[125] == 0x13); },
        126u8 => { assert(INV_SBOX[126] == 0x8a); },
        127u8 => { assert(INV_SBOX[127] == 0x6b); },
        128u8 => { assert(INV_SBOX[128] == 0x3a); },
        129u8 => { assert(INV_SBOX[129] == 0x91); },
        130u8 => { assert(INV_SBOX[130] == 0x11); },
        131u8 => { assert(INV_SBOX[131] == 0x41); },
        132u8 => { assert(INV_SBOX[132] == 0x4f); },
        133u8 => { assert(INV_SBOX[133] == 0x67); },
        134u8 => { assert(INV_SBOX[134] == 0xdc); },
        135u8 => { assert(INV_SBOX[135] == 0xea); },
        136u8 => { assert(INV_SBOX[136] == 0x97); },
        137u8 => { assert(INV_SBOX[137] == 0xf2); },
        138u8 => { assert(INV_SBOX[138] == 0xcf); },
        139u8 => { assert(INV_SBOX[139] == 0xce); },
        140u8 => { assert(INV_SBOX[140] == 0xf0); },
        141u8 => { assert(INV_SBOX[141] == 0xb4); },
        142u8 => { assert(INV_SBOX[142] == 0xe6); },
        143u8 => { assert(INV_SBOX[143] == 0x73); },
        144u8 => { assert(INV_SBOX[144] == 0x96); },
        145u8 => { assert(INV_SBOX[145] == 0xac); },
        146u8 => { assert(INV_SBOX[146] == 0x74); },
        147u8 => { assert(INV_SBOX[147] == 0x22); },
        148u8 => { assert(INV_SBOX[148] == 0xe7); },
        149u8 => { assert(INV_SBOX[149] == 0xad); },
        150u8 => { assert(INV_SBOX[150] == 0x35); },
        151u8 => { assert(INV_SBOX[151] == 0x85); },
        152u8 => { assert(INV_SBOX[152] == 0xe2); },
        153u8 => { assert(INV_SBOX[153] == 0xf9); },
        154u8 => { assert(INV_SBOX[154] == 0x37); },
        155u8 => { assert(INV_SBOX[155] == 0xe8); },
        156u8 => { assert(INV_SBOX[156] == 0x1c); },
        157u8 => { assert(INV_SBOX[157] == 0x75); },
        158u8 => { assert(INV_SBOX[158] == 0xdf); },
        159u8 => { assert(INV_SBOX[159] == 0x6e); },
        160u8 => { assert(INV_SBOX[160] == 0x47); },
        161u8 => { assert(INV_SBOX[161] == 0xf1); },
        162u8 => { assert(INV_SBOX[162] == 0x1a); },
        163u8 => { assert(INV_SBOX[163] == 0x71); },
        164u8 => { assert(INV_SBOX[164] == 0x1d); },
        165u8 => { assert(INV_SBOX[165] == 0x29); },
        166u8 => { assert(INV_SBOX[166] == 0xc5); },
        167u8 => { assert(INV_SBOX[167] == 0x89); },
        168u8 => { assert(INV_SBOX[168] == 0x6f); },
        169u8 => { assert(INV_SBOX[169] == 0xb7); },
        170u8 => { assert(INV_SBOX[170] == 0x62); },
        171u8 => { assert(INV_SBOX[171] == 0x0e); },
        172u8 => { assert(INV_SBOX[172] == 0xaa); },
        173u8 => { assert(INV_SBOX[173] == 0x18); },
        174u8 => { assert(INV_SBOX[174] == 0xbe); },
        175u8 => { assert(INV_SBOX[175] == 0x1b); },
        176u8 => { assert(INV_SBOX[176] == 0xfc); },
        177u8 => { assert(INV_SBOX[177] == 0x56); },
        178u8 => { assert(INV_SBOX[178] == 0x3e); },
        179u8 => { assert(INV_SBOX[179] == 0x4b); },
        180u8 => { assert(INV_SBOX[180] == 0xc6); },
        181u8 => { assert(INV_SBOX[181] == 0xd2); },
        182u8 => { assert(INV_SBOX[182] == 0x79); },
        183u8 => { assert(INV_SBOX[183] == 0x20); },
        184u8 => { assert(INV_SBOX[184] == 0x9a); },
        185u8 => { assert(INV_SBOX[185] == 0xdb); },
        186u8 => { assert(INV_SBOX[186] == 0xc0); },
        187u8 => { assert(INV_SBOX[187] == 0xfe); },
        188u8 => { assert(INV_SBOX[188] == 0x78); },
        189u8 => { assert(INV_SBOX[189] == 0xcd); },
        190u8 => { assert(INV_SBOX[190] == 0x5a); },
        191u8 => { assert(INV_SBOX[191] == 0xf4); },
        192u8 => { assert(INV_SBOX[192] == 0x1f); },
        193u8 => { assert(INV_SBOX[193] == 0xdd); },
        194u8 => { assert(INV_SBOX[194] == 0xa8); },
        195u8 => { assert(INV_SBOX[195] == 0x33); },
        196u8 => { assert(INV_SBOX[196] == 0x88); },
        197u8 => { assert(INV_SBOX[197] == 0x07); },
        198u8 => { assert(INV_SBOX[198] == 0xc7); },
        199u8 => { assert(INV_SBOX[199] == 0x31); },
        200u8 => { assert(INV_SBOX[200] == 0xb1); },
        201u8 => { assert(INV_SBOX[201] == 0x12); },
        202u8 => { assert(INV_SBOX[202] == 0x10); },
        203u8 => { assert(INV_SBOX[203] == 0x59); },
        204u8 => { assert(INV_SBOX[204] == 0x27); },
        205u8 => { assert(INV_SBOX[205] == 0x80); },
        206u8 => { assert(INV_SBOX[206] == 0xec); },
        207u8 => { assert(INV_SBOX[207] == 0x5f); },
        208u8 => { assert(INV_SBOX[208] == 0x60); },
        209u8 => { assert(INV_SBOX[209] == 0x51); },
        210u8 => { assert(INV_SBOX[210] == 0x7f); },
        211u8 => { assert(INV_SBOX[211] == 0xa9); },
        212u8 => { assert(INV_SBOX[212] == 0x19); },
        213u8 => { assert(INV_SBOX[213] == 0xb5); },
        214u8 => { assert(INV_SBOX[214] == 0x4a); },
        215u8 => { assert(INV_SBOX[215] == 0x0d); },
        216u8 => { assert(INV_SBOX[216] == 0x2d); },
        217u8 => { assert(INV_SBOX[217] == 0xe5); },
        218u8 => { assert(INV_SBOX[218] == 0x7a); },
        219u8 => { assert(INV_SBOX[219] == 0x9f); },
        220u8 => { assert(INV_SBOX[220] == 0x93); },
        221u8 => { assert(INV_SBOX[221] == 0xc9); },
        222u8 => { assert(INV_SBOX[222] == 0x9c); },
        223u8 => { assert(INV_SBOX[223] == 0xef); },
        224u8 => { assert(INV_SBOX[224] == 0xa0); },
        225u8 => { assert(INV_SBOX[225] == 0xe0); },
        226u8 => { assert(INV_SBOX[226] == 0x3b); },
        227u8 => { assert(INV_SBOX[227] == 0x4d); },
        228u8 => { assert(INV_SBOX[228] == 0xae); },
        229u8 => { assert(INV_SBOX[229] == 0x2a); },
        230u8 => { assert(INV_SBOX[230] == 0xf5); },
        231u8 => { assert(INV_SBOX[231] == 0xb0); },
        232u8 => { assert(INV_SBOX[232] == 0xc8); },
        233u8 => { assert(INV_SBOX[233] == 0xeb); },
        234u8 => { assert(INV_SBOX[234] == 0xbb); },
        235u8 => { assert(INV_SBOX[235] == 0x3c); },
        236u8 => { assert(INV_SBOX[236] == 0x83); },
        237u8 => { assert(INV_SBOX[237] == 0x53); },
        238u8 => { assert(INV_SBOX[238] == 0x99); },
        239u8 => { assert(INV_SBOX[239] == 0x61); },
        240u8 => { assert(INV_SBOX[240] == 0x17); },
        241u8 => { assert(INV_SBOX[241] == 0x2b); },
        242u8 => { assert(INV_SBOX[242] == 0x04); },
        243u8 => { assert(INV_SBOX[243] == 0x7e); },
        244u8 => { assert(INV_SBOX[244] == 0xba); },
        245u8 => { assert(INV_SBOX[245] == 0x77); },
        246u8 => { assert(INV_SBOX[246] == 0xd6); },
        247u8 => { assert(INV_SBOX[247] == 0x26); },
        248u8 => { assert(INV_SBOX[248] == 0xe1); },
        249u8 => { assert(INV_SBOX[249] == 0x69); },
        250u8 => { assert(INV_SBOX[250] == 0x14); },
        251u8 => { assert(INV_SBOX[251] == 0x63); },
        252u8 => { assert(INV_SBOX[252] == 0x55); },
        253u8 => { assert(INV_SBOX[253] == 0x21); },
        254u8 => { assert(INV_SBOX[254] == 0x0c); },
        255u8 => { assert(INV_SBOX[255] == 0x7d); },
    }
}

/// The inverse S-box table holds the inverse S-box value of every byte.
pub proof fn lemma_inv_sbox_table(v: u8)
    ensures
        INV_SBOX[v as int] == inv_sbox_spec(v),
{
    lemma_inv_sbox_table_by_chain(v);
    reveal(inv_sbox_spec);
    reveal(inv_sbox_by_chain);
    lemma_chain_is_inv(inv_affine_spec(v));
}

proof fn lemma_rcon_values()
    by (bit_vector)
    ensures
        gf_pow(2, 0) == 0x01,
        gf_pow(2, 1) == 0x02,
        gf_pow(2, 2) == 0x04,
        gf_pow(2, 3) == 0x08,
        gf_pow(2, 4) == 0x10,
        gf_pow(2, 5) == 0x20,
        gf_pow(2, 6) == 0x40,
        gf_pow(2, 7) == 0x80,
        gf_pow(2, 8) == 0x1b,
        gf_pow(2, 9) == 0x36,
{
}

/// The round-constant table holds `x^(j-1)` at every index `j` it is read at.
pub proof fn lemma_rcon_table(j: int)
    requires
        1 <= j <= 10,
    ensures
        RCON[j] == rcon_spec(j),
{
    lemma_rcon_values();
    if j == 1 {
        assert(RCON[1] == 0x01);
    } else if j == 2 {
        assert(RCON[2] == 0x02);
    } else if j == 3 {
        assert(RCON[3] == 0x04);
    } else if j == 4 {
        assert(RCON[4] == 0x08);
    } else if j == 5 {
        assert(RCON[5] == 0x10);
    } else if j == 6 {
        assert(RCON[6] == 0x20);
    } else if j == 7 {
        assert(RCON[7] == 0x40);
    } else if j == 8 {
        assert(RCON[8] == 0x80);
    } else if j == 9 {
        assert(RCON[9] == 0x1b);
    } else if j == 10 {
        assert(RCON[10] == 0x36);
    }
}

} // verus!
