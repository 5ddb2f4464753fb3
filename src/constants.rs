use vstd::prelude::*;

verus! {

/// Discriminator of the bonding-curve "buy" instruction.
pub const DEFAULT_BUY: [u8; 8] = [0x66, 0x06, 0x3d, 0x12, 0x01, 0xda, 0xeb, 0xea];

/// Discriminator of the bonding-curve "sell" instruction.
pub const DEFAULT_SELL: [u8; 8] = [0x33, 0xe6, 0x85, 0xa4, 0x01, 0x7f, 0x83, 0xad];

/// The SPL token program. (`TokenkegQfeZyiNwAJbNbGKPFXCWuBvf9Ss623VQ5DA`)
pub const TOKEN_PROGRAM_ID: [u8; 32] = [
    0x06, 0xdd, 0xf6, 0xe1, 0xd7, 0x65, 0xa1, 0x93,
    0xd9, 0xcb, 0xe1, 0x46, 0xce, 0xeb, 0x79, 0xac,
    0x1c, 0xb4, 0x85, 0xed, 0x5f, 0x5b, 0x37, 0x91,
    0x3a, 0x8c, 0xf5, 0x85, 0x7e, 0xff, 0x00, 0xa9,
];

/// The associated-token-account program. (`ATokenGPvbdGVxr1b2hvZbsiqW5xWH25efTNsLJA8knL`)
pub const ASSOCIATED_TOKEN_PROGRAM_ID: [u8; 32] = [
    0x8c, 0x97, 0x25, 0x8f, 0x4e, 0x24, 0x89, 0xf1,
    0xbb, 0x3d, 0x10, 0x29, 0x14, 0x8e, 0x0d, 0x83,
    0x0b, 0x5a, 0x13, 0x99, 0xda, 0xff, 0x10, 0x84,
    0x04, 0x8e, 0x7b, 0xd8, 0xdb, 0xe9, 0xf8, 0x59,
];

/// The pump.fun bonding-curve program. (`6EF8rrecthR5Dkzon8Nwu78hRvfCKubJ14M5uBEwF6P`)
pub const PUMPFUN_PROGRAM: [u8; 32] = [
    0x01, 0x56, 0xe0, 0xf6, 0x93, 0x66, 0x5a, 0xcf,
    0x44, 0xdb, 0x15, 0x68, 0xbf, 0x17, 0x5b, 0xaa,
    0x51, 0x89, 0xcb, 0x97, 0xf5, 0xd2, 0xff, 0x3b,
    0x65, 0x5d, 0x2b, 0xb6, 0xfd, 0x6d, 0x18, 0xb0,
];

/// The global-state account of the pump.fun program. (`4wTV1YmiEkRvAtNtsSGPtUrqRYQMe5SKy2uB4Jjaxnjf`)
pub const PUMPFUN_GLOBAL: [u8; 32] = [
    0x3a, 0x86, 0x5e, 0x69, 0xee, 0x0f, 0x54, 0x80,
    0xca, 0xbc, 0xf6, 0x63, 0x57, 0xe4, 0xdc, 0x2f,
    0x18, 0xd5, 0x8d, 0x45, 0xc1, 0xea, 0x74, 0x89,
    0xfb, 0x37, 0x23, 0xd9, 0x79, 0x3c, 0x72, 0xa6,
];

/// The account that receives pump.fun trading fees. (`CebN5WGQ4jvEPvsVU4EoHEpgzq1VV7AbicfhtW4xC9iM`)
pub const PUMPFUN_FEE_RECIPENT: [u8; 32] = [
    0xad, 0x11, 0xe6, 0xa4, 0xfc, 0x29, 0x44, 0xa4,
    0xfa, 0x82, 0x51, 0xbe, 0xf8, 0x15, 0x42, 0x6e,
    0x1b, 0xfb, 0x28, 0xc6, 0xb6, 0x64, 0x66, 0x77,
    0x60, 0x7c, 0x6a, 0xd9, 0xf5, 0x66, 0xa6, 0x46,
];

/// The event-authority account of the pump.fun program. (`Ce6TQqeHC9p8KetsN6JsjHK7UTZk7nasjjnr7XxXp9F1`)
pub const PUMPFUN_EVENT_AUTHORITY: [u8; 32] = [
    0xac, 0xf1, 0x36, 0xeb, 0x01, 0xfc, 0x1c, 0x4e,
    0x88, 0x3d, 0x23, 0xc8, 0xb5, 0x84, 0x4a, 0xb5,
    0x9a, 0x37, 0xf6, 0x6a, 0xdd, 0x57, 0xc5, 0xe9,
    0xac, 0x3b, 0x53, 0xe0, 0x59, 0xd3, 0x5c, 0x64,
];

/// The system program. (`11111111111111111111111111111111`)
pub const SYSTEM_PROGRAM_ID: [u8; 32] = [
    0x00, 0x00, 0x00, 0x00, 0x00, 0x00, 0x00, 0x00,
    0x00, 0x00, 0x00, 0x00, 0x00, 0x00, 0x00, 0x00,
    0x00, 0x00, 0x00, 0x00, 0x00, 0x00, 0x00, 0x00,
    0x00, 0x00, 0x00, 0x00, 0x00, 0x00, 0x00, 0x00,
];

/// The rent sysvar account. (`SysvarRent111111111111111111111111111111111`)
pub const RENT_SYSVAR_ID: [u8; 32] = [
    0x06, 0xa7, 0xd5, 0x17, 0x19, 0x2c, 0x5c, 0x51,
    0x21, 0x8c, 0xc9, 0x4c, 0x3d, 0x4a, 0xf1, 0x7f,
    0x58, 0xda, 0xee, 0x08, 0x9b, 0xa1, 0xfd, 0x44,
    0xe3, 0xdb, 0xd9, 0x8a, 0x00, 0x00, 0x00, 0x00,
];

/// The compute-budget program. (`ComputeBudget111111111111111111111111111111`)
pub const COMPUTE_BUDGET_PROGRAM_ID: [u8; 32] = [
    0x03, 0x06, 0x46, 0x6f, 0xe5, 0x21, 0x17, 0x32,
    0xff, 0xec, 0xad, 0xba, 0x72, 0xc3, 0x9b, 0xe7,
    0xbc, 0x8c, 0xe5, 0xbb, 0xc5, 0xf7, 0x12, 0x6b,
    0x2c, 0x43, 0x9b, 0x3a, 0x40, 0x00, 0x00, 0x00,
];

} // verus!
