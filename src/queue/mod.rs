//! GX queue commands: the fixed eight-word requests that the GPU's command
//! queue takes (DMA, command list, memory fill, display transfer, texture
//! copy, cache flush), and the meaning of the status a submission returns.
use vstd::prelude::*;

use crate::buffer::BufferSlice;
use crate::gpucmd::CommandBuffer;
use crate::renderbuffer::{spec_dim, ColorBuffer};

verus! {

/// One queue command.
pub type GxCommand = [u32; 8];

/// The GX command queue. Submission itself happens outside this library;
/// here the commands are built and the status is read.
pub struct Queue {}

/// Why a submission failed.
#[derive(Clone, Copy, Debug, PartialEq, Eq, Structural)]
pub enum Error {
    /// The queue is full; the caller may retry once the GPU has drained it.
    TooManyCommands,
    /// Any other non-zero status.
    Unknown,
}

/// Status of a full queue.
pub const STATUS_QUEUE_FULL: i32 = -2;

/// The first word of a queue command.
pub open spec fn spec_cmd_head(cmd_id: u8, set_bit0: bool, fail_on_busy: bool) -> u32 {
    (cmd_id as u32) | (if set_bit0 {
        0x1_0000u32
    } else {
        0u32
    }) | (if fail_on_busy {
        0x100_0000u32
    } else {
        0u32
    })
}

/// `cmd_id`, bit 16 when `set_bit0`, bit 24 when `fail_on_busy`.
pub fn gx_cmd_head(cmd_id: u8, set_bit0: bool, fail_on_busy: bool) -> (r: u32)
    ensures
        r == spec_cmd_head(cmd_id, set_bit0, fail_on_busy),
{
    let b0: u32 = if set_bit0 {
        0x1_0000
    } else {
        0
    };
    let fb: u32 = if fail_on_busy {
        0x100_0000
    } else {
        0
    };
    (cmd_id as u32) | b0 | fb
}

pub open spec fn spec_flag(b: bool) -> u32 {
    if b {
        1
    } else {
        0
    }
}

fn flag(b: bool) -> (r: u32)
    ensures
        r == spec_flag(b),
{
    if b {
        1
    } else {
        0
    }
}

/// DMA request (command 0): copy `size` bytes from `src` to `dst`.
pub fn gx_dma(src: u32, dst: u32, size: u32, flush: bool) -> (r: GxCommand)
    ensures
        r@ == seq![spec_cmd_head(0, true, true), src, dst, size, 0u32, 0, 0, spec_flag(flush)],
{
    [gx_cmd_head(0, true, true), src, dst, size, 0, 0, 0, flag(flush)]
}

/// Process-command-list request (command 1): `size` bytes of commands at `src`.
pub fn gx_command_list(src: u32, size: u32, update_gas_additive_blend_results: bool, flush: bool) -> (r:
    GxCommand)
    ensures
        r@ == seq![
            spec_cmd_head(1, true, true),
            src,
            size,
            spec_flag(update_gas_additive_blend_results),
            0u32,
            0,
            0,
            spec_flag(flush),
        ],
{
    [
        gx_cmd_head(1, true, true),
        src,
        size,
        flag(update_gas_additive_blend_results),
        0,
        0,
        0,
        flag(flush),
    ]
}

/// Memory-fill request (command 2) for up to two buffers.
pub fn gx_memory_fill(
    buf0: u32,
    buf0_val: u32,
    buf0_end: u32,
    control0: u32,
    buf1: u32,
    buf1_val: u32,
    buf1_end: u32,
    control1: u32,
) -> (r: GxCommand)
    ensures
        r@ == seq![
            spec_cmd_head(2, true, true),
            buf0,
            buf0_val,
            buf0_end,
            buf1,
            buf1_val,
            buf1_end,
            control0 | (control1 << 16u32),
        ],
{
    [
        gx_cmd_head(2, true, true),
        buf0,
        buf0_val,
        buf0_end,
        buf1,
        buf1_val,
        buf1_end,
        control0 | (control1 << 16u32),
    ]
}

/// Display-transfer request (command 3).
pub fn gx_display_transfer(src: u32, srcdim: u32, dst: u32, dstdim: u32, flags: u32) -> (r:
    GxCommand)
    ensures
        r@ == seq![spec_cmd_head(3, true, true), src, dst, srcdim, dstdim, flags, 0u32, 0],
{
    [gx_cmd_head(3, true, true), src, dst, srcdim, dstdim, flags, 0, 0]
}

/// Texture-copy request (command 4).
pub fn gx_texture_copy(src: u32, srcdim: u32, dst: u32, dstdim: u32, n_bytes: u32, flags: u32) -> (r:
    GxCommand)
    ensures
        r@ == seq![spec_cmd_head(4, true, true), src, dst, n_bytes, srcdim, dstdim, flags, 0u32],
{
    [gx_cmd_head(4, true, true), src, dst, n_bytes, srcdim, dstdim, flags, 0]
}

/// Cache-flush request (command 5) for up to three regions; it does not
/// fail when the GPU is busy.
pub fn gx_flush_cache_regions(
    reg0: u32,
    reg0_size: u32,
    reg1: u32,
    reg1_size: u32,
    reg2: u32,
    reg2_size: u32,
) -> (r: GxCommand)
    ensures
        r@ == seq![
            spec_cmd_head(5, true, false),
            reg0,
            reg0_size,
            reg1,
            reg1_size,
            reg2,
            reg2_size,
            0u32,
        ],
{
    [gx_cmd_head(5, true, false), reg0, reg0_size, reg1, reg1_size, reg2, reg2_size, 0]
}

/// Pixel format of a display transfer.
#[derive(Clone, Copy, Debug, PartialEq, Eq, Structural)]
pub enum TransferFormat {
    RGBA8,
    RGB8,
    RGB565,
    RGB5A1,
    RGBA4,
}

impl TransferFormat {
    pub open spec fn spec_code(self) -> u32 {
        match self {
            TransferFormat::RGBA8 => 0,
            TransferFormat::RGB8 => 1,
            TransferFormat::RGB565 => 2,
            TransferFormat::RGB5A1 => 3,
            TransferFormat::RGBA4 => 4,
        }
    }

    pub fn code(self) -> (r: u32)
        ensures
            r == self.spec_code(),
    {
        match self {
            TransferFormat::RGBA8 => 0,
            TransferFormat::RGB8 => 1,
            TransferFormat::RGB565 => 2,
            TransferFormat::RGB5A1 => 3,
            TransferFormat::RGBA4 => 4,
        }
    }
}

/// Downscaling applied by a display transfer.
#[derive(Clone, Copy, Debug, PartialEq, Eq, Structural)]
pub enum ScaleDownFilter {
    /// No downscaling.
    NoScale,
    DownX,
    DownXY,
}

impl ScaleDownFilter {
    pub open spec fn spec_code(self) -> u32 {
        match self {
            ScaleDownFilter::NoScale => 0,
            ScaleDownFilter::DownX => 1,
            ScaleDownFilter::DownXY => 2,
        }
    }

    pub fn code(self) -> (r: u32)
        ensures
            r == self.spec_code(),
    {
        match self {
            ScaleDownFilter::NoScale => 0,
            ScaleDownFilter::DownX => 1,
            ScaleDownFilter::DownXY => 2,
        }
    }
}

/// Options of a display transfer.
#[derive(Clone, Copy, Debug, PartialEq, Eq, Structural)]
pub struct TransferFlags {
    pub flip_vert: bool,
    /// Set: linear to tiled. Clear: tiled to linear.
    pub tiled_out: bool,
    /// Crops the input to a narrower output.
    pub output_width_less_than_input_width: bool,
    /// Uses the texture-copy mode of the transfer engine.
    pub texture_copy: bool,
    /// No tiled/linear conversion; incompatible with `tiled_out`.
    pub tiled_to_tiled: bool,
    pub input_color_format: TransferFormat,
    pub output_color_format: TransferFormat,
    /// 32x32 block tiling instead of 8x8.
    pub block_tiling_mode: bool,
    pub scale_down_filter: ScaleDownFilter,
}

impl TransferFlags {
    /// Bit 0 flip, 1 tiled output, 2 crop, 3 texture copy, 5 tiled to tiled,
    /// 8..12 input format, 12..16 output format, 16 block tiling, 24..27 filter.
    pub open spec fn spec_bits(self) -> u32 {
        spec_flag(self.flip_vert) | (spec_flag(self.tiled_out) << 1u32) | (spec_flag(
            self.output_width_less_than_input_width,
        ) << 2u32) | (spec_flag(self.texture_copy) << 3u32) | (spec_flag(self.tiled_to_tiled)
            << 5u32) | (self.input_color_format.spec_code() << 8u32) | (
        self.output_color_format.spec_code() << 12u32) | (spec_flag(self.block_tiling_mode)
            << 16u32) | (self.scale_down_filter.spec_code() << 24u32)
    }

    /// The flags word of a display transfer.
    pub fn bits(self) -> (r: u32)
        ensures
            r == self.spec_bits(),
    {
        flag(self.flip_vert) | (flag(self.tiled_out) << 1u32) | (flag(
            self.output_width_less_than_input_width,
        ) << 2u32) | (flag(self.texture_copy) << 3u32) | (flag(self.tiled_to_tiled) << 5u32) | (
        self.input_color_format.code() << 8u32) | (self.output_color_format.code() << 12u32) | (
        flag(self.block_tiling_mode) << 16u32) | (self.scale_down_filter.code() << 24u32)
    }
}

impl Queue {
    /// What a submission's status means: 0 is success, -2 a full queue,
    /// anything else an unknown fault.
    pub fn check_status(status: i32) -> (r: Result<(), Error>)
        ensures
            status == 0 <==> r is Ok,
            r == Err::<(), Error>(Error::TooManyCommands) <==> status == STATUS_QUEUE_FULL,
            r == Err::<(), Error>(Error::Unknown) <==> (status != 0 && status != STATUS_QUEUE_FULL),
    {
        if status == 0 {
            Ok(())
        } else if status == STATUS_QUEUE_FULL {
            Err(Error::TooManyCommands)
        } else {
            Err(Error::Unknown)
        }
    }

    /// The DMA command that copies between two regions (either may be
    /// VRAM): as many bytes as the smaller of them holds. None when that
    /// count does not fit in 32 bits.
    pub fn copy_buffer_command(src: &BufferSlice, dst: &BufferSlice, flush: bool) -> (r: Option<
        GxCommand,
    >)
        ensures
            ({
                let n = if src.spec_size() < dst.spec_size() {
                    src.spec_size()
                } else {
                    dst.spec_size()
                };
                &&& r is Some <==> n <= u32::MAX
                &&& r matches Some(c) ==> c@ == seq![
                    spec_cmd_head(0, true, true),
                    src.spec_start_addr(),
                    dst.spec_start_addr(),
                    n as u32,
                    0u32,
                    0,
                    0,
                    spec_flag(flush),
                ]
            }),
    {
        let s = src.size();
        let d = dst.size();
        let size = if s < d {
            s
        } else {
            d
        };
        if size as u64 > u32::MAX as u64 {
            return None;
        }
        Some(gx_dma(src.start_addr(), dst.start_addr(), size as u32, flush))
    }

    /// The command that submits `buf`, which lies at address `addr`: its
    /// length in bytes, flushed, without updating gas blend results.
    pub fn command_list(buf: &CommandBuffer, addr: u32) -> (r: GxCommand)
        requires
            buf.buf@.len() * 4 <= u32::MAX,
        ensures
            r@ == seq![
                spec_cmd_head(1, true, true),
                addr,
                (buf.buf@.len() * 4) as u32,
                0u32,
                0,
                0,
                0,
                1,
            ],
    {
        let size = (buf.buf.len() * 4) as u32;
        gx_command_list(addr, size, false, true)
    }

    /// The display transfer of color buffer `cb` (at `cb_addr`) to a
    /// framebuffer of `fb_width` by `fb_height` at `fb_addr`.
    pub fn transfer_command(
        cb: &ColorBuffer,
        cb_addr: u32,
        fb_addr: u32,
        fb_width: u32,
        fb_height: u32,
        flags: TransferFlags,
    ) -> (r: GxCommand)
        ensures
            r@ == seq![
                spec_cmd_head(3, true, true),
                cb_addr,
                fb_addr,
                spec_dim(cb.spec_width(), cb.spec_height()),
                spec_dim(fb_width, fb_height),
                flags.spec_bits(),
                0u32,
                0,
            ],
    {
        gx_display_transfer(
            cb_addr,
            cb.dim(),
            fb_addr,
            crate::renderbuffer::dim(fb_width, fb_height),
            flags.bits(),
        )
    }
}

} // verus!
