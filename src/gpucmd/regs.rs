//! Identifiers of the internal GPU registers that the commands write.
use vstd::prelude::*;

verus! {

pub const GPUREG_FINALIZE: u32 = 0x0010;
pub const GPUREG_FACECULLING_CONFIG: u32 = 0x0040;
pub const GPUREG_DEPTHMAP_SCALE: u32 = 0x004D;
pub const GPUREG_DEPTHMAP_OFFSET: u32 = 0x004E;
pub const GPUREG_SH_OUTMAP_TOTAL: u32 = 0x004F;
pub const GPUREG_SH_OUTMAP_O0: u32 = 0x0050;
pub const GPUREG_SH_OUTATTR_MODE: u32 = 0x0064;
pub const GPUREG_DEPTHMAP_ENABLE: u32 = 0x006D;
pub const GPUREG_SH_OUTATTR_CLOCK: u32 = 0x006F;
pub const GPUREG_TEXENV0_SOURCE: u32 = 0x00C0;
pub const GPUREG_TEXENV1_SOURCE: u32 = 0x00C8;
pub const GPUREG_TEXENV2_SOURCE: u32 = 0x00D0;
pub const GPUREG_TEXENV3_SOURCE: u32 = 0x00D8;
pub const GPUREG_TEXENV4_SOURCE: u32 = 0x00F0;
pub const GPUREG_TEXENV5_SOURCE: u32 = 0x00F8;
pub const GPUREG_COLOR_OPERATION: u32 = 0x0100;
pub const GPUREG_BLEND_FUNC: u32 = 0x0101;
pub const GPUREG_LOGIC_OP: u32 = 0x0102;
pub const GPUREG_BLEND_COLOR: u32 = 0x0103;
pub const GPUREG_FRAGOP_ALPHA_TEST: u32 = 0x0104;
pub const GPUREG_DEPTH_COLOR_MASK: u32 = 0x0107;
pub const GPUREG_FRAMEBUFFER_FLUSH: u32 = 0x0111;
pub const GPUREG_COLORBUFFER_READ: u32 = 0x0112;
pub const GPUREG_COLORBUFFER_WRITE: u32 = 0x0113;
pub const GPUREG_COLORBUFFER_FORMAT: u32 = 0x0117;
pub const GPUREG_COLORBUFFER_LOC: u32 = 0x011D;
pub const GPUREG_FRAMEBUFFER_DIM: u32 = 0x011E;
pub const GPUREG_NUMVERTICES: u32 = 0x0228;
pub const GPUREG_GEOSTAGE_CONFIG: u32 = 0x0229;
pub const GPUREG_VTX_FUNC: u32 = 0x0231;
pub const GPUREG_FIXEDATTRIB_INDEX: u32 = 0x0232;
pub const GPUREG_FIXEDATTRIB_DATA0: u32 = 0x0233;
pub const GPUREG_VSH_NUM_ATTR: u32 = 0x0242;
pub const GPUREG_START_DRAW_FUNC0: u32 = 0x0245;
pub const GPUREG_PRIMITIVE_CONFIG: u32 = 0x025E;
pub const GPUREG_RESTART_PRIMITIVE: u32 = 0x025F;
pub const GPUREG_VSH_CODETRANSFER_END: u32 = 0x02BF;
pub const GPUREG_VSH_CODETRANSFER_CONFIG: u32 = 0x02CB;
pub const GPUREG_VSH_CODETRANSFER_DATA: u32 = 0x02CC;
pub const GPUREG_VSH_OPDESCS_CONFIG: u32 = 0x02D5;
pub const GPUREG_VSH_OPDESCS_DATA: u32 = 0x02D6;

} // verus!
